use ibis::api::create_article;
use ibis::api::edit_article;
use ibis::api::get_article;
use ibis::api::CreateArticleData;
use ibis::api::EditArticleData;
use ibis::api::EditOutcome;
use ibis::api::GetArticleData;
use ibis::edit::DbEdit;
use ibis::edit::DbEditForm;
use ibis::error::ApiError;
use ibis::store::Store;
use ibis::version::EditVersion;

fn local_store() -> Store {
    Store::new(
        String::from("http://localhost:8131"),
        String::from("localhost:8131"),
    )
}

#[test]
fn create_article_starts_at_root() {
    let mut store = local_store();
    let (article, deliveries) = create_article(
        &mut store,
        &CreateArticleData {
            title: String::from("Rust"),
        },
    )
    .unwrap();
    assert_eq!(article.ap_id, "http://localhost:8131/article/Rust");
    assert_eq!(article.title, "Rust");
    assert_eq!(article.text, "");
    assert_eq!(article.latest_version, EditVersion::root());
    assert!(article.edits.is_empty());
    assert!(article.local);
    // no followers yet: nothing to deliver
    assert!(deliveries.is_empty());
}

#[test]
fn create_article_twice_conflicts() {
    let mut store = local_store();
    let data = CreateArticleData {
        title: String::from("Rust"),
    };
    create_article(&mut store, &data).unwrap();
    assert_eq!(create_article(&mut store, &data).unwrap_err(), ApiError::Conflict);
}

#[test]
fn create_article_with_bad_instance_id_is_malformed() {
    let mut store = Store::new(String::from("not a url"), String::from("nowhere"));
    let err = create_article(
        &mut store,
        &CreateArticleData {
            title: String::from("Rust"),
        },
    )
    .unwrap_err();
    assert_eq!(err, ApiError::Malformed);
}

#[test]
fn edit_against_root_applies() {
    let mut store = local_store();
    let (article, _) = create_article(
        &mut store,
        &CreateArticleData {
            title: String::from("Rust"),
        },
    )
    .unwrap();
    let outcome = edit_article(
        &mut store,
        &EditArticleData {
            ap_id: article.ap_id.clone(),
            new_text: String::from("Hello"),
            previous_version: EditVersion::root(),
        },
        1,
        String::from("first words"),
    )
    .unwrap();
    let edit = match outcome {
        EditOutcome::Applied { edit, .. } => edit,
        EditOutcome::Forwarded { .. } => panic!("local article must not be forwarded"),
    };
    // the diff is exactly what diffy computes, and the version is its hash
    let expected_diff = diffy::create_patch("", "Hello").to_string();
    assert_eq!(edit.diff, expected_diff);
    assert_eq!(edit.hash, EditVersion::new(&edit.diff));
    assert_eq!(edit.previous_version_id, EditVersion::root());

    let read = get_article(
        &store,
        &GetArticleData {
            title: String::from("Rust"),
        },
    )
    .unwrap();
    assert_eq!(read.text, "Hello");
    assert_eq!(read.latest_version, edit.hash);
    assert_eq!(read.edits.len(), 1);
}

#[test]
fn stale_baseline_is_a_conflict() {
    let mut store = local_store();
    let (article, _) = create_article(
        &mut store,
        &CreateArticleData {
            title: String::from("Rust"),
        },
    )
    .unwrap();
    edit_article(
        &mut store,
        &EditArticleData {
            ap_id: article.ap_id.clone(),
            new_text: String::from("Hello"),
            previous_version: EditVersion::root(),
        },
        1,
        String::new(),
    )
    .unwrap();
    // a second editor still holding the root baseline must not overwrite
    let err = edit_article(
        &mut store,
        &EditArticleData {
            ap_id: article.ap_id.clone(),
            new_text: String::from("Goodbye"),
            previous_version: EditVersion::root(),
        },
        2,
        String::new(),
    )
    .unwrap_err();
    assert_eq!(err, ApiError::Conflict);
    let read = get_article(
        &store,
        &GetArticleData {
            title: String::from("Rust"),
        },
    )
    .unwrap();
    assert_eq!(read.text, "Hello");
}

#[test]
fn unchanged_text_is_a_noop() {
    let mut store = local_store();
    let (article, _) = create_article(
        &mut store,
        &CreateArticleData {
            title: String::from("Rust"),
        },
    )
    .unwrap();
    let err = edit_article(
        &mut store,
        &EditArticleData {
            ap_id: article.ap_id.clone(),
            new_text: String::new(),
            previous_version: EditVersion::root(),
        },
        1,
        String::new(),
    )
    .unwrap_err();
    assert_eq!(err, ApiError::NoOp);
}

#[test]
fn edit_of_unknown_article_is_not_found() {
    let mut store = local_store();
    let err = edit_article(
        &mut store,
        &EditArticleData {
            ap_id: String::from("http://localhost:8131/article/Nope"),
            new_text: String::from("x"),
            previous_version: EditVersion::root(),
        },
        1,
        String::new(),
    )
    .unwrap_err();
    assert_eq!(err, ApiError::NotFound);
}

#[test]
fn generate_ap_id_appends_hex_version() {
    let mut store = local_store();
    let (article, _) = create_article(
        &mut store,
        &CreateArticleData {
            title: String::from("Rust"),
        },
    )
    .unwrap();
    let v = EditVersion { value: 255 };
    let id = DbEditForm::generate_ap_id(&article, &v).unwrap();
    assert_eq!(id, "http://localhost:8131/article/Rust/ff");
    let v2 = EditVersion { value: 0x1a2b };
    let id2 = DbEditForm::generate_ap_id(&article, &v2).unwrap();
    assert_eq!(id2, "http://localhost:8131/article/Rust/1a2b");
}

#[test]
fn form_carries_diff_hash_and_identifier() {
    let mut store = local_store();
    let (article, _) = create_article(
        &mut store,
        &CreateArticleData {
            title: String::from("Rust"),
        },
    )
    .unwrap();
    let form = DbEditForm::new(&article, 7, "Hello", String::from("s"), EditVersion::root())
        .unwrap();
    assert_eq!(form.diff, diffy::create_patch("", "Hello").to_string());
    assert_eq!(form.hash, EditVersion::new(&form.diff));
    assert!(form.ap_id.starts_with("http://localhost:8131/article/Rust/"));
    assert_eq!(form.creator_id, 7);
    assert_eq!(form.summary, "s");
    assert_eq!(form.article_id, article.id);
}

#[test]
fn stored_edits_are_readable_by_version_and_id() {
    let mut store = local_store();
    let (article, _) = create_article(
        &mut store,
        &CreateArticleData {
            title: String::from("Rust"),
        },
    )
    .unwrap();
    let outcome = edit_article(
        &mut store,
        &EditArticleData {
            ap_id: article.ap_id.clone(),
            new_text: String::from("Hello"),
            previous_version: EditVersion::root(),
        },
        1,
        String::new(),
    )
    .unwrap();
    let edit = match outcome {
        EditOutcome::Applied { edit, .. } => edit,
        _ => panic!("expected an applied edit"),
    };
    let by_version = DbEdit::read(&edit.hash, &store).unwrap();
    assert_eq!(by_version.ap_id, edit.ap_id);
    assert_eq!(by_version.diff, edit.diff);
    assert_eq!(by_version.summary, edit.summary);
    assert_eq!(by_version.creator_id, edit.creator_id);
    assert_eq!(by_version.previous_version_id, edit.previous_version_id);
    let by_id = DbEdit::read_from_ap_id(&edit.ap_id, &store).unwrap();
    assert_eq!(by_id.hash, edit.hash);
    assert_eq!(by_id.diff, edit.diff);
    assert_eq!(by_id.created, edit.created);
    let all = DbEdit::read_for_article(&article, &store).unwrap();
    assert_eq!(all.len(), 1);
    assert_eq!(all[0].ap_id, edit.ap_id);
    assert_eq!(
        DbEdit::read(&EditVersion { value: 12345 }, &store).unwrap_err(),
        ApiError::NotFound
    );
}

#[test]
fn replaying_the_chain_reconstructs_the_text() {
    let mut store = local_store();
    let (article, _) = create_article(
        &mut store,
        &CreateArticleData {
            title: String::from("Rust"),
        },
    )
    .unwrap();
    let texts = ["Hello", "Hello world", "Hello federated world"];
    let mut prev = EditVersion::root();
    for (i, t) in texts.iter().enumerate() {
        let outcome = edit_article(
            &mut store,
            &EditArticleData {
                ap_id: article.ap_id.clone(),
                new_text: String::from(*t),
                previous_version: prev,
            },
            1,
            format!("step {i}"),
        )
        .unwrap();
        prev = match outcome {
            EditOutcome::Applied { edit, .. } => edit.hash,
            _ => panic!("expected an applied edit"),
        };
    }
    let read = get_article(
        &store,
        &GetArticleData {
            title: String::from("Rust"),
        },
    )
    .unwrap();
    // replay every diff from the empty text with diffy itself
    let mut replayed = String::new();
    for e in &read.edits {
        let patch = diffy::Patch::from_str(&e.diff).unwrap();
        replayed = diffy::apply(&replayed, &patch).unwrap();
    }
    assert_eq!(replayed, "Hello federated world");
    assert_eq!(read.text, "Hello federated world");
    assert_eq!(read.latest_version, prev);
}
