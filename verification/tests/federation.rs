use ibis::activity::Activity;
use ibis::activity::CreateActivity;
use ibis::activity::EditPayload;
use ibis::activity::FollowActivity;
use ibis::activity::AcceptActivity;
use ibis::activity::UpdateActivity;
use ibis::api::create_article;
use ibis::api::edit_article;
use ibis::api::follow_instance;
use ibis::api::get_article;
use ibis::api::get_local_instance;
use ibis::api::resolve_article;
use ibis::api::ArticleResolution;
use ibis::api::CreateArticleData;
use ibis::api::EditArticleData;
use ibis::api::EditOutcome;
use ibis::api::FollowInstance;
use ibis::api::GetArticleData;
use ibis::api::ResolveObject;
use ibis::edit::DbEdit;
use ibis::error::ApiError;
use ibis::receiver::receive_activity;
use ibis::receiver::receive_update;
use ibis::receiver::ReceiveStatus;
use ibis::store::Store;
use ibis::version::EditVersion;

fn origin_store() -> Store {
    Store::new(
        String::from("http://origin:8131"),
        String::from("origin:8131"),
    )
}

fn mirror_store() -> Store {
    Store::new(
        String::from("http://mirror:8132"),
        String::from("mirror:8132"),
    )
}

/// A payload for an edit taking `old_text` to `new_text`.
fn payload(article_ap_id: &str, old_text: &str, new_text: &str, prev: EditVersion, n: u32) -> EditPayload {
    let diff = diffy::create_patch(old_text, new_text).to_string();
    let hash = EditVersion::new(&diff);
    EditPayload {
        ap_id: format!("{article_ap_id}/remote-{n}"),
        diff,
        summary: String::new(),
        creator_id: 9,
        previous_version: prev,
        hash,
        created: 1000 + n as i64,
    }
}

/// A mirror of one empty remote article, announced by its origin.
fn mirror_with_article() -> (Store, String) {
    let mut m = mirror_store();
    let article_ap_id = String::from("http://origin:8131/article/Rust");
    let (status, _) = receive_activity(
        &mut m,
        &Activity::Create(CreateActivity {
            actor: String::from("http://origin:8131"),
            article_ap_id: article_ap_id.clone(),
            title: String::from("Rust"),
        }),
    );
    assert_eq!(status, ReceiveStatus::Applied);
    (m, article_ap_id)
}

#[test]
fn origin_update_advances_the_mirror() {
    let (mut m, article_ap_id) = mirror_with_article();
    let p = payload(&article_ap_id, "", "Hello", EditVersion::root(), 1);
    let expected = p.hash;
    let status = receive_update(
        &mut m,
        &UpdateActivity {
            actor: String::from("http://origin:8131"),
            article_ap_id: article_ap_id.clone(),
            edit: p,
        },
    );
    assert_eq!(status, ReceiveStatus::Applied);
    let read = get_article(
        &m,
        &GetArticleData {
            title: String::from("Rust"),
        },
    )
    .unwrap();
    assert_eq!(read.text, "Hello");
    assert_eq!(read.latest_version, expected);
    assert!(!read.local);
}

#[test]
fn redelivered_update_is_a_no_op() {
    let (mut m, article_ap_id) = mirror_with_article();
    let p = payload(&article_ap_id, "", "Hello", EditVersion::root(), 1);
    let act = UpdateActivity {
        actor: String::from("http://origin:8131"),
        article_ap_id: article_ap_id.clone(),
        edit: p,
    };
    assert_eq!(receive_update(&mut m, &act), ReceiveStatus::Applied);
    let before = get_article(&m, &GetArticleData { title: String::from("Rust") }).unwrap();
    assert_eq!(receive_update(&mut m, &act), ReceiveStatus::AlreadyKnown);
    let after = get_article(&m, &GetArticleData { title: String::from("Rust") }).unwrap();
    assert_eq!(after.text, before.text);
    assert_eq!(after.latest_version, before.latest_version);
    assert_eq!(after.edits.len(), before.edits.len());
}

#[test]
fn superseded_parent_is_recorded_as_fork() {
    let (mut m, article_ap_id) = mirror_with_article();
    let p1 = payload(&article_ap_id, "", "Hello", EditVersion::root(), 1);
    let act1 = UpdateActivity {
        actor: String::from("http://origin:8131"),
        article_ap_id: article_ap_id.clone(),
        edit: p1,
    };
    assert_eq!(receive_update(&mut m, &act1), ReceiveStatus::Applied);
    // a sibling authored against the same (now superseded) root
    let p2 = payload(&article_ap_id, "", "Goodbye", EditVersion::root(), 2);
    let act2 = UpdateActivity {
        actor: String::from("http://elsewhere:9000"),
        article_ap_id: article_ap_id.clone(),
        edit: p2,
    };
    assert_eq!(receive_update(&mut m, &act2), ReceiveStatus::ForkRecorded);
    let read = get_article(&m, &GetArticleData { title: String::from("Rust") }).unwrap();
    // the applied chain is untouched, the sibling is retained for audit
    assert_eq!(read.text, "Hello");
    assert_eq!(read.edits.len(), 1);
    assert_eq!(read.forks.len(), 1);
    assert_eq!(read.forks[0].previous_version_id, EditVersion::root());
}

#[test]
fn unknown_ancestor_is_queued() {
    let (mut m, article_ap_id) = mirror_with_article();
    let p = payload(&article_ap_id, "A", "B", EditVersion { value: 424242 }, 3);
    let status = receive_update(
        &mut m,
        &UpdateActivity {
            actor: String::from("http://origin:8131"),
            article_ap_id,
            edit: p,
        },
    );
    assert_eq!(status, ReceiveStatus::Queued);
    assert_eq!(m.pending.len(), 1);
}

#[test]
fn inapplicable_diff_is_dropped() {
    let (mut m, article_ap_id) = mirror_with_article();
    let p1 = payload(&article_ap_id, "", "Hello", EditVersion::root(), 1);
    let latest = p1.hash;
    let act1 = UpdateActivity {
        actor: String::from("http://origin:8131"),
        article_ap_id: article_ap_id.clone(),
        edit: p1,
    };
    assert_eq!(receive_update(&mut m, &act1), ReceiveStatus::Applied);
    // a diff computed against a different base cannot apply to "Hello"
    let p2 = payload(&article_ap_id, "something else entirely", "other", latest, 4);
    let act2 = UpdateActivity {
        actor: String::from("http://origin:8131"),
        article_ap_id: article_ap_id.clone(),
        edit: p2,
    };
    assert_eq!(receive_update(&mut m, &act2), ReceiveStatus::PatchFailed);
    let read = get_article(&m, &GetArticleData { title: String::from("Rust") }).unwrap();
    assert_eq!(read.text, "Hello");
}

#[test]
fn wrong_content_address_is_malformed() {
    let (mut m, article_ap_id) = mirror_with_article();
    let mut p = payload(&article_ap_id, "", "Hello", EditVersion::root(), 1);
    p.hash = EditVersion { value: 1 };
    let status = receive_update(
        &mut m,
        &UpdateActivity {
            actor: String::from("http://origin:8131"),
            article_ap_id,
            edit: p,
        },
    );
    assert_eq!(status, ReceiveStatus::Malformed);
}

#[test]
fn reused_version_is_a_clash() {
    let (mut m, article_ap_id) = mirror_with_article();
    let p1 = payload(&article_ap_id, "", "Hello", EditVersion::root(), 1);
    let latest = p1.hash;
    let act1 = UpdateActivity {
        actor: String::from("http://origin:8131"),
        article_ap_id: article_ap_id.clone(),
        edit: p1,
    };
    assert_eq!(receive_update(&mut m, &act1), ReceiveStatus::Applied);
    // same diff again: its content address is already in the chain
    let mut p2 = payload(&article_ap_id, "", "Hello", latest, 5);
    p2.previous_version = latest;
    let act2 = UpdateActivity {
        actor: String::from("http://origin:8131"),
        article_ap_id,
        edit: p2,
    };
    assert_eq!(receive_update(&mut m, &act2), ReceiveStatus::HashClash);
}

#[test]
fn bad_identifiers_are_malformed() {
    let mut m = mirror_store();
    let p = payload("not a url", "", "Hello", EditVersion::root(), 1);
    let status = receive_update(
        &mut m,
        &UpdateActivity {
            actor: String::from("http://origin:8131"),
            article_ap_id: String::from("not a url"),
            edit: EditPayload {
                ap_id: String::from("also not a url"),
                ..p
            },
        },
    );
    assert_eq!(status, ReceiveStatus::Malformed);
}

#[test]
fn update_for_unknown_article_is_dropped() {
    let mut m = mirror_store();
    let p = payload("http://origin:8131/article/Rust", "", "Hello", EditVersion::root(), 1);
    let status = receive_update(
        &mut m,
        &UpdateActivity {
            actor: String::from("http://origin:8131"),
            article_ap_id: String::from("http://origin:8131/article/Rust"),
            edit: p,
        },
    );
    assert_eq!(status, ReceiveStatus::UnknownReference);
}

#[test]
fn follow_twice_yields_one_relation() {
    let mut s = origin_store();
    s.cache_remote_instance(
        &String::from("http://mirror:8132"),
        &String::from("mirror:8132"),
    );
    let data = FollowInstance {
        instance_id: String::from("http://mirror:8132"),
    };
    let (newly1, d1) = follow_instance(&mut s, &data).unwrap();
    let (newly2, _d2) = follow_instance(&mut s, &data).unwrap();
    assert!(newly1);
    assert!(!newly2);
    let me = get_local_instance(&s);
    assert_eq!(me.follows.len(), 1);
    assert_eq!(me.follows[0].target, "http://mirror:8132");
    assert!(!me.follows[0].accepted);
    assert_eq!(d1.target, "http://mirror:8132");
}

#[test]
fn follow_of_unknown_instance_is_not_found() {
    let mut s = origin_store();
    let err = follow_instance(
        &mut s,
        &FollowInstance {
            instance_id: String::from("http://mirror:8132"),
        },
    )
    .unwrap_err();
    assert_eq!(err, ApiError::NotFound);
}

#[test]
fn follow_accept_round_trip() {
    // the mirror asks to follow the origin; the origin registers the
    // follower and answers with an Accept; the mirror marks the relation
    let mut origin = origin_store();
    let mut mirror = mirror_store();
    mirror.cache_remote_instance(
        &String::from("http://origin:8131"),
        &String::from("origin:8131"),
    );
    let (_, follow_delivery) = follow_instance(
        &mut mirror,
        &FollowInstance {
            instance_id: String::from("http://origin:8131"),
        },
    )
    .unwrap();
    let (status, accepts) = receive_activity(&mut origin, &follow_delivery.activity);
    assert_eq!(status, ReceiveStatus::Applied);
    assert_eq!(accepts.len(), 1);
    assert_eq!(accepts[0].target, "http://mirror:8132");
    let (status2, _) = receive_activity(&mut mirror, &accepts[0].activity);
    assert_eq!(status2, ReceiveStatus::Applied);
    let me = get_local_instance(&mirror);
    assert!(me.follows[0].accepted);
    // re-delivered Follow stays idempotent on the origin
    let (status3, _) = receive_activity(&mut origin, &follow_delivery.activity);
    assert_eq!(status3, ReceiveStatus::AlreadyKnown);
    assert_eq!(get_local_instance(&origin).followers.len(), 1);
}

#[test]
fn full_propagation_from_origin_to_follower() {
    let mut origin = origin_store();
    let mut mirror = mirror_store();
    // mirror follows origin
    mirror.cache_remote_instance(
        &String::from("http://origin:8131"),
        &String::from("origin:8131"),
    );
    let (_, fd) = follow_instance(
        &mut mirror,
        &FollowInstance {
            instance_id: String::from("http://origin:8131"),
        },
    )
    .unwrap();
    receive_activity(&mut origin, &fd.activity);
    // origin creates and edits an article; deliveries reach the mirror
    let (_, creates) = create_article(
        &mut origin,
        &CreateArticleData {
            title: String::from("Rust"),
        },
    )
    .unwrap();
    assert_eq!(creates.len(), 1);
    assert_eq!(creates[0].target, "http://mirror:8132");
    let (st, _) = receive_activity(&mut mirror, &creates[0].activity);
    assert_eq!(st, ReceiveStatus::Applied);
    let outcome = edit_article(
        &mut origin,
        &EditArticleData {
            ap_id: String::from("http://origin:8131/article/Rust"),
            new_text: String::from("Hello"),
            previous_version: EditVersion::root(),
        },
        1,
        String::new(),
    )
    .unwrap();
    let (edit, updates) = match outcome {
        EditOutcome::Applied { edit, deliveries } => (edit, deliveries),
        _ => panic!("expected an applied edit"),
    };
    assert_eq!(updates.len(), 1);
    let (st2, _) = receive_activity(&mut mirror, &updates[0].activity);
    assert_eq!(st2, ReceiveStatus::Applied);
    let read = get_article(&mirror, &GetArticleData { title: String::from("Rust") }).unwrap();
    assert_eq!(read.text, "Hello");
    assert_eq!(read.latest_version, edit.hash);
}

#[test]
fn editing_a_mirror_only_forwards() {
    let (mut m, article_ap_id) = mirror_with_article();
    let outcome = edit_article(
        &mut m,
        &EditArticleData {
            ap_id: article_ap_id.clone(),
            new_text: String::from("Hello"),
            previous_version: EditVersion::root(),
        },
        1,
        String::new(),
    )
    .unwrap();
    let delivery = match outcome {
        EditOutcome::Forwarded { delivery } => delivery,
        _ => panic!("a mirror edit must be forwarded, not applied"),
    };
    assert_eq!(delivery.target, "http://origin:8131");
    match &delivery.activity {
        Activity::Update(ua) => {
            assert_eq!(ua.article_ap_id, article_ap_id);
            assert_eq!(ua.actor, "http://mirror:8132");
        }
        _ => panic!("the forward must be an Update"),
    }
    // the local mirror stays untouched until the origin's Update comes back
    let read = get_article(&m, &GetArticleData { title: String::from("Rust") }).unwrap();
    assert_eq!(read.text, "");
    assert_eq!(read.latest_version, EditVersion::root());
    assert!(read.edits.is_empty());
}

#[test]
fn resolving_unknown_local_id_is_not_found() {
    let s = origin_store();
    let err = resolve_article(
        &s,
        &ResolveObject {
            id: String::from("http://origin:8131/article/Nope"),
        },
    )
    .unwrap_err();
    assert_eq!(err, ApiError::NotFound);
}

#[test]
fn resolving_unknown_remote_id_asks_for_a_fetch() {
    let s = origin_store();
    let r = resolve_article(
        &s,
        &ResolveObject {
            id: String::from("http://elsewhere:9000/article/Far"),
        },
    )
    .unwrap();
    match r {
        ArticleResolution::Fetch(u) => assert_eq!(u, "http://elsewhere:9000/article/Far"),
        _ => panic!("an unknown remote identifier needs a fetch"),
    }
}

#[test]
fn cached_fetch_result_is_validated() {
    let mut s = origin_store();
    let article_ap_id = String::from("http://elsewhere:9000/article/Far");
    let d1 = diffy::create_patch("", "A").to_string();
    let h1 = EditVersion::new(&d1);
    let d2 = diffy::create_patch("A", "AB").to_string();
    let h2 = EditVersion::new(&d2);
    let edits = vec![
        DbEdit {
            hash: h1,
            ap_id: format!("{article_ap_id}/1"),
            diff: d1,
            summary: String::new(),
            creator_id: 1,
            article_id: 0,
            previous_version_id: EditVersion::root(),
            created: 1,
        },
        DbEdit {
            hash: h2,
            ap_id: format!("{article_ap_id}/2"),
            diff: d2,
            summary: String::new(),
            creator_id: 1,
            article_id: 0,
            previous_version_id: h1,
            created: 2,
        },
    ];
    let cached = s
        .cache_remote_article(
            &article_ap_id,
            &String::from("Far"),
            &String::from("AB"),
            &String::from("http://elsewhere:9000"),
            &edits,
        )
        .unwrap();
    assert_eq!(cached.text, "AB");
    assert_eq!(cached.latest_version, h2);
    assert!(!cached.local);
    // a claimed text the chain cannot reproduce is refused
    let mut s2 = origin_store();
    let err = s2
        .cache_remote_article(
            &article_ap_id,
            &String::from("Far"),
            &String::from("tampered"),
            &String::from("http://elsewhere:9000"),
            &edits,
        )
        .unwrap_err();
    assert_eq!(err, ApiError::UntrustedSource);
}

#[test]
fn accept_without_follow_is_unknown() {
    let mut s = origin_store();
    let (status, _) = receive_activity(
        &mut s,
        &Activity::Accept(AcceptActivity {
            actor: String::from("http://mirror:8132"),
            object: String::from("http://origin:8131"),
        }),
    );
    assert_eq!(status, ReceiveStatus::UnknownReference);
}

#[test]
fn follow_for_another_instance_is_unknown() {
    let mut s = origin_store();
    let (status, _) = receive_activity(
        &mut s,
        &Activity::Follow(FollowActivity {
            actor: String::from("http://mirror:8132"),
            object: String::from("http://someone-else:9000"),
        }),
    );
    assert_eq!(status, ReceiveStatus::UnknownReference);
}

#[test]
fn error_messages_name_their_cause() {
    assert_eq!(ApiError::NotFound.message(), "not found");
    assert_eq!(ApiError::Conflict.message(), "edit conflict: stale baseline");
}

#[test]
fn queued_update_applies_once_its_ancestor_arrives() {
    let (mut m, article_ap_id) = mirror_with_article();
    let p1 = payload(&article_ap_id, "", "Hello", EditVersion::root(), 1);
    let p2 = payload(&article_ap_id, "Hello", "Hello world", p1.hash, 2);
    // the second edit arrives first: its parent is unknown, so it waits
    let act2 = UpdateActivity {
        actor: String::from("http://origin:8131"),
        article_ap_id: article_ap_id.clone(),
        edit: p2.clone(),
    };
    assert_eq!(receive_update(&mut m, &act2), ReceiveStatus::Queued);
    let act1 = UpdateActivity {
        actor: String::from("http://origin:8131"),
        article_ap_id: article_ap_id.clone(),
        edit: p1,
    };
    assert_eq!(receive_update(&mut m, &act1), ReceiveStatus::Applied);
    let statuses = ibis::receiver::process_pending(&mut m);
    assert_eq!(statuses, vec![ReceiveStatus::Applied]);
    let read = get_article(&m, &GetArticleData { title: String::from("Rust") }).unwrap();
    assert_eq!(read.text, "Hello world");
    assert_eq!(read.latest_version, p2.hash);
    assert!(m.pending.is_empty());
}

#[test]
fn still_missing_ancestor_stays_queued() {
    let (mut m, article_ap_id) = mirror_with_article();
    let p = payload(&article_ap_id, "A", "B", EditVersion { value: 77777 }, 8);
    let act = UpdateActivity {
        actor: String::from("http://origin:8131"),
        article_ap_id,
        edit: p,
    };
    assert_eq!(receive_update(&mut m, &act), ReceiveStatus::Queued);
    let statuses = ibis::receiver::process_pending(&mut m);
    assert_eq!(statuses, vec![ReceiveStatus::Queued]);
    assert_eq!(m.pending.len(), 1);
}
