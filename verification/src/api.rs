//! The compute half of the request surface: create, edit, read, resolve and
//! follow, as plain functions over the store. Transport, routing and
//! rendering stay outside; callers hand in plain values and send the
//! returned deliveries themselves, outside any lock on the store.
use crate::activity::fanned_out_create;
use crate::activity::fanned_out_update;
use crate::activity::send_to_followers;
use crate::activity::send_to_origin;
use crate::activity::Activity;
use crate::activity::CreateActivity;
use crate::activity::Delivery;
use crate::activity::FollowActivity;
use crate::activity::UpdateActivity;
use crate::article::article_like;
use crate::article::chain_contains;
use crate::article::create_edit;
use crate::article::wf_article;
use crate::article::DbArticle;
use crate::diff::patch_of;
use crate::edit::DbEdit;
use crate::error::ApiError;
use crate::ids::check_url;
use crate::ids::edit_ap_id;
use crate::ids::url_parses;
use crate::instance::follow_step;
use crate::instance::has_follow;
use crate::instance::instance_like;
use crate::instance::DbInstance;
use crate::receiver::push_new_article;
use crate::store::article_advanced;
use crate::store::edit_known;
use crate::store::find_article_idx;
use crate::store::find_article_idx_by_title;
use crate::store::has_article;
use crate::store::has_article_title;
use crate::store::store_like;
use crate::store::wf_store;
use crate::store::Store;
use crate::version::root_version;
use crate::version::version_of;
use crate::version::EditVersion;
use vstd::prelude::*;
use vstd::string::StringExecFns;

verus! {

/// A request to create a titled article on this instance.
#[derive(Clone, Debug)]
pub struct CreateArticleData {
    pub title: String,
}

/// A request to edit an article, wherever it is authoritative, against the
/// baseline version the caller last saw.
#[derive(Clone, Debug)]
pub struct EditArticleData {
    /// Global identifier of the article.
    pub ap_id: String,
    pub new_text: String,
    /// The version the caller edited against; a stale one is a conflict.
    pub previous_version: EditVersion,
}

/// A request to read an article by title.
#[derive(Clone, Debug)]
pub struct GetArticleData {
    pub title: String,
}

/// A request to resolve a global identifier.
#[derive(Clone, Debug)]
pub struct ResolveObject {
    pub id: String,
}

/// A request to follow an instance.
#[derive(Clone, Debug)]
pub struct FollowInstance {
    pub instance_id: String,
}

/// What a local edit request ended in.
#[derive(Debug)]
pub enum EditOutcome {
    /// The article is authoritative here: the edit was applied, and one
    /// Update delivery per follower is owed.
    Applied { edit: DbEdit, deliveries: Vec<Delivery> },
    /// The article is a mirror: nothing was mutated locally, the edit is
    /// forwarded to the origin instance for authoritative acceptance.
    Forwarded { delivery: Delivery },
}

/// How a resolved article comes back.
#[derive(Debug)]
pub enum ArticleResolution {
    /// Resolved from local storage or the mirror cache.
    Local(DbArticle),
    /// Unknown here and owned elsewhere: the caller must fetch this URL and
    /// then cache what it verified.
    Fetch(String),
}

/// How a resolved instance comes back.
#[derive(Debug)]
pub enum InstanceResolution {
    Local(DbInstance),
    Fetch(String),
}

/// The path segment between an instance's identifier and an article title.
pub open spec fn article_path() -> Seq<char> {
    seq!['/', 'a', 'r', 't', 'i', 'c', 'l', 'e', '/']
}

/// The global identifier a local article gets.
pub open spec fn article_ap_id_of(instance_ap: Seq<char>, title: Seq<char>) -> Seq<char> {
    instance_ap + article_path() + title
}

/// Creates a titled article with empty text, authoritative on this
/// instance, and owes one Create delivery per follower. Fails with
/// `Malformed` when the built identifier is not URL-shaped and with
/// `Conflict` when the identifier is already taken (history is append-only,
/// nothing is overwritten) or no ordinal is free.
pub fn create_article(store: &mut Store, data: &CreateArticleData) -> (r: Result<
    (DbArticle, Vec<Delivery>),
    ApiError,
>)
    ensures
        wf_store(*old(store)) ==> wf_store(*final(store)),
        ({
            let id = article_ap_id_of(old(store).local_instance.ap_id@, data.title@);
            match r {
                Ok((a, ds)) => {
                    &&& url_parses(id)
                    &&& !has_article(old(store).articles@, id)
                    &&& a.ap_id@ == id
                    &&& a.title == data.title
                    &&& a.text@.len() == 0
                    &&& a.latest_version == root_version()
                    &&& a.edits@.len() == 0
                    &&& a.forks@.len() == 0
                    &&& a.local
                    &&& a.instance@ == old(store).local_instance.ap_id@
                    &&& final(store).articles@.len() == old(store).articles@.len() + 1
                    &&& article_like(a, final(store).articles@.last())
                    &&& final(store).articles@ == old(store).articles@.push(
                        final(store).articles@.last(),
                    )
                    &&& instance_like(final(store).local_instance, old(store).local_instance)
                    &&& final(store).instances@ == old(store).instances@
                    &&& final(store).pending@ == old(store).pending@
                    &&& final(store).next_article_id == old(store).next_article_id + 1
                    &&& fanned_out_create(
                        ds@,
                        final(store).local_instance.followers@,
                        id,
                        data.title@,
                        old(store).local_instance.ap_id@,
                    )
                },
                Err(ApiError::Malformed) => !url_parses(id) && store_like(
                    *final(store),
                    *old(store),
                ),
                Err(ApiError::Conflict) => (has_article(old(store).articles@, id)
                    || old(store).next_article_id == i32::MAX) && store_like(
                    *final(store),
                    *old(store),
                ),
                Err(_) => false,
            }
        }),
{
    proof {
        reveal_strlit("/article/");
        assert("/article/"@ =~= article_path());
    }
    let base = store.local_instance.ap_id.clone();
    let with_path = base.concat("/article/");
    let ap_id = with_path.concat(data.title.as_str());
    proof {
        assert(ap_id@ =~= article_ap_id_of(store.local_instance.ap_id@, data.title@));
    }
    if !check_url(ap_id.as_str()) {
        return Err(ApiError::Malformed);
    }
    if find_article_idx(&store.articles, &ap_id).is_some() {
        return Err(ApiError::Conflict);
    }
    if store.next_article_id == i32::MAX {
        return Err(ApiError::Conflict);
    }
    let id = store.next_article_id;
    let art = DbArticle {
        id,
        title: data.title.clone(),
        text: String::from_str(""),
        ap_id: ap_id.clone(),
        latest_version: EditVersion::root(),
        edits: Vec::new(),
        forks: Vec::new(),
        instance: store.local_instance.ap_id.clone(),
        local: true,
    };
    proof {
        reveal_strlit("");
        assert(""@ =~= Seq::<char>::empty());
        assert(wf_article(art));
    }
    let out = art.duplicate();
    let ca = CreateActivity {
        actor: store.local_instance.ap_id.clone(),
        article_ap_id: ap_id,
        title: data.title.clone(),
    };
    let ghost gca = ca;
    push_new_article(store, art);
    let act = Activity::Create(ca);
    let ds = send_to_followers(&store.local_instance, &act);
    proof {
        assert(act == Activity::Create(gca));
        assert forall|i: int| 0 <= i < ds@.len() implies (#[trigger] ds@[i]).target
            == store.local_instance.followers@[i] && ds@[i].activity == act by {}
        assert(fanned_out_create(
            ds@,
            store.local_instance.followers@,
            gca.article_ap_id@,
            gca.title@,
            gca.actor@,
        ));
    }
    Ok((out, ds))
}

/// Edits an article against the caller's baseline. On an article this
/// instance is authoritative for, the edit is validated and applied in one
/// critical section and the Update fan-out is owed; on a mirror nothing is
/// mutated locally and the edit is forwarded to the origin. A stale
/// baseline fails with `Conflict`, an unchanged text with `NoOp`.
pub fn edit_article(
    store: &mut Store,
    data: &EditArticleData,
    creator_id: i32,
    summary: String,
) -> (r: Result<EditOutcome, ApiError>)
    ensures
        wf_store(*old(store)) ==> wf_store(*final(store)),
        wf_store(*old(store)) ==> forall|j: int|
            (0 <= j < old(store).articles@.len() && (#[trigger] old(store).articles@[j]).ap_id@
                == data.ap_id@ && ({
                let a = old(store).articles@[j];
                let v = version_of(patch_of(a.text@, data.new_text@));
                &&& data.previous_version == a.latest_version
                &&& a.text@ != data.new_text@
                &&& url_parses(edit_ap_id(a.ap_id@, v))
                &&& v != root_version()
                &&& !chain_contains(a.edits@, v)
            })) ==> r is Ok,
        match r {
            Ok(EditOutcome::Applied { edit, deliveries }) => exists|j: int|
                0 <= j < old(store).articles@.len() && (#[trigger] old(store).articles@[j]).ap_id@
                    == data.ap_id@ && ({
                    let a = old(store).articles@[j];
                    let d = patch_of(a.text@, data.new_text@);
                    let v = version_of(d);
                    &&& a.local
                    &&& data.previous_version == a.latest_version
                    &&& a.text@ != data.new_text@
                    &&& url_parses(edit_ap_id(a.ap_id@, v))
                    &&& v != root_version()
                    &&& !chain_contains(a.edits@, v)
                    &&& (wf_store(*old(store)) ==> (if !edit_known(a, edit_ap_id(a.ap_id@, v)) {
                        &&& edit.hash == v
                        &&& edit.diff@ == d
                        &&& edit.ap_id@ == edit_ap_id(a.ap_id@, v)
                        &&& edit.previous_version_id == data.previous_version
                        &&& edit.creator_id == creator_id
                        &&& edit.summary == summary
                        &&& edit.article_id == a.id
                        &&& final(store).articles@ == old(store).articles@.update(
                            j,
                            final(store).articles@[j],
                        )
                        &&& article_advanced(a, final(store).articles@[j], edit)
                        &&& final(store).articles@[j].text@ == data.new_text@
                        &&& final(store).pending@ == old(store).pending@
                        &&& instance_like(final(store).local_instance, old(store).local_instance)
                    } else {
                        store_like(*final(store), *old(store))
                    }))
                    &&& fanned_out_update(
                        deliveries@,
                        final(store).local_instance.followers@,
                        data.ap_id@,
                        edit,
                        final(store).local_instance.ap_id@,
                    )
                }),
            Ok(EditOutcome::Forwarded { delivery }) => exists|j: int|
                0 <= j < old(store).articles@.len() && (#[trigger] old(store).articles@[j]).ap_id@
                    == data.ap_id@ && ({
                    let a = old(store).articles@[j];
                    let d = patch_of(a.text@, data.new_text@);
                    let v = version_of(d);
                    &&& !a.local
                    &&& data.previous_version == a.latest_version
                    &&& a.text@ != data.new_text@
                    &&& *final(store) == *old(store)
                    &&& delivery.target == a.instance
                    &&& match delivery.activity {
                        Activity::Update(ua) => {
                            &&& ua.edit.diff@ == d
                            &&& ua.edit.hash == v
                            &&& ua.edit.previous_version == data.previous_version
                            &&& ua.article_ap_id@ == data.ap_id@
                            &&& ua.actor@ == old(store).local_instance.ap_id@
                        },
                        _ => false,
                    }
                }),
            Err(e) => {
                &&& store_like(*final(store), *old(store))
                &&& (e == ApiError::NotFound ==> !has_article(old(store).articles@, data.ap_id@))
                &&& (e == ApiError::NoOp ==> exists|j: int|
                    0 <= j < old(store).articles@.len() && (#[trigger] old(
                        store,
                    ).articles@[j]).ap_id@ == data.ap_id@ && old(store).articles@[j].text@
                        == data.new_text@)
                &&& (e == ApiError::Malformed ==> exists|j: int|
                    0 <= j < old(store).articles@.len() && (#[trigger] old(
                        store,
                    ).articles@[j]).ap_id@ == data.ap_id@ && ({
                        let a = old(store).articles@[j];
                        &&& data.previous_version == a.latest_version
                        &&& a.text@ != data.new_text@
                        &&& !url_parses(
                            edit_ap_id(a.ap_id@, version_of(patch_of(a.text@, data.new_text@))),
                        )
                    }))
                &&& (e == ApiError::Conflict && wf_store(*old(store)) ==> exists|j: int|
                    0 <= j < old(store).articles@.len() && (#[trigger] old(
                        store,
                    ).articles@[j]).ap_id@ == data.ap_id@ && ({
                        let a = old(store).articles@[j];
                        let v = version_of(patch_of(a.text@, data.new_text@));
                        ||| data.previous_version != a.latest_version
                        ||| v == root_version()
                        ||| chain_contains(a.edits@, v)
                    }))
                &&& (e == ApiError::PatchFailed && wf_store(*old(store)) ==> false)
                &&& (e == ApiError::Fork || e == ApiError::UnknownReference || e
                    == ApiError::FetchFailed || e == ApiError::UntrustedSource || e
                    == ApiError::DeliveryFailed || e == ApiError::Unauthorized ==> false)
            },
        },
{
    let j = match find_article_idx(&store.articles, &data.ap_id) {
        None => {
            return Err(ApiError::NotFound);
        },
        Some(j) => j,
    };
    proof {
        if wf_store(*old(store)) {
            assert forall|k: int|
                0 <= k < old(store).articles@.len() && (#[trigger] old(store).articles@[k]).ap_id@
                    == data.ap_id@ implies k == j as int by {
                if k < j as int {
                    assert(old(store).articles@[k].ap_id@ != old(store).articles@[j as int].ap_id@);
                } else if k > j as int {
                    assert(old(store).articles@[j as int].ap_id@ != old(store).articles@[k].ap_id@);
                }
            }
        }
    }
    let form = create_edit(
        &store.articles[j],
        data.new_text.as_str(),
        creator_id,
        summary,
        data.previous_version,
    )?;
    proof {
        if wf_store(*old(store)) {
            assert forall|k: int|
                0 <= k < old(store).articles@.len() && (#[trigger] old(
                    store,
                ).articles@[k].id) == form.article_id implies k == j as int by {
                if k < j as int {
                    assert(old(store).articles@[k].id != old(store).articles@[j as int].id);
                } else if k > j as int {
                    assert(old(store).articles@[j as int].id != old(store).articles@[k].id);
                }
            }
        }
    }
    if store.articles[j].local {
        let edit = DbEdit::create(&form, store)?;
        let ua = UpdateActivity {
            actor: store.local_instance.ap_id.clone(),
            article_ap_id: data.ap_id.clone(),
            edit: crate::activity::EditPayload {
                ap_id: edit.ap_id.clone(),
                diff: edit.diff.clone(),
                summary: edit.summary.clone(),
                creator_id: edit.creator_id,
                previous_version: edit.previous_version_id,
                hash: edit.hash,
                created: edit.created,
            },
        };
        let ghost gua = ua;
        let act = Activity::Update(ua);
        let ds = send_to_followers(&store.local_instance, &act);
        proof {
            assert(act == Activity::Update(gua));
            assert forall|i: int| 0 <= i < ds@.len() implies (#[trigger] ds@[i]).target
                == store.local_instance.followers@[i] && ds@[i].activity == act by {}
            assert(fanned_out_update(
                ds@,
                store.local_instance.followers@,
                gua.article_ap_id@,
                edit,
                gua.actor@,
            ));
        }
        Ok(EditOutcome::Applied { edit, deliveries: ds })
    } else {
        let origin = store.articles[j].instance.clone();
        let delivery = send_to_origin(&store.local_instance, &store.articles[j], &form, &origin);
        Ok(EditOutcome::Forwarded { delivery })
    }
}

/// Reads an article by title; fails with `NotFound` exactly when no article
/// carries the title.
pub fn get_article(store: &Store, data: &GetArticleData) -> (r: Result<DbArticle, ApiError>)
    ensures
        match r {
            Ok(a) => exists|j: int|
                0 <= j < store.articles@.len() && (#[trigger] store.articles@[j]).title@
                    == data.title@ && article_like(a, store.articles@[j]),
            Err(e) => e == ApiError::NotFound && !has_article_title(store.articles@, data.title@),
        },
{
    match find_article_idx_by_title(&store.articles, &data.title) {
        Some(j) => Ok(store.articles[j].duplicate()),
        None => Err(ApiError::NotFound),
    }
}

/// Resolves a global identifier to an article. An identifier of this
/// instance resolves from storage alone and an unknown one fails with
/// `NotFound`, never with a fetch; a remote identifier resolves from the
/// mirror cache or comes back as a fetch instruction for the caller.
pub fn resolve_article(store: &Store, query: &ResolveObject) -> (r: Result<
    ArticleResolution,
    ApiError,
>)
    ensures
        match r {
            Ok(ArticleResolution::Local(a)) => exists|j: int|
                0 <= j < store.articles@.len() && (#[trigger] store.articles@[j]).ap_id@
                    == query.id@ && article_like(a, store.articles@[j]),
            Ok(ArticleResolution::Fetch(u)) => {
                &&& !has_article(store.articles@, query.id@)
                &&& u == query.id
                &&& !(query.id@.len() >= store.local_instance.ap_id@.len() && query.id@.subrange(
                    0,
                    store.local_instance.ap_id@.len() as int,
                ) == store.local_instance.ap_id@)
            },
            Err(e) => {
                &&& e == ApiError::NotFound
                &&& !has_article(store.articles@, query.id@)
                &&& query.id@.len() >= store.local_instance.ap_id@.len()
                &&& query.id@.subrange(0, store.local_instance.ap_id@.len() as int)
                    == store.local_instance.ap_id@
            },
        },
{
    match find_article_idx(&store.articles, &query.id) {
        Some(j) => {
            proof {
                assert(store.articles@[j as int].ap_id@ == query.id@);
            }
            Ok(ArticleResolution::Local(store.articles[j].duplicate()))
        },
        None => {
            if store.owns_id(&query.id) {
                Err(ApiError::NotFound)
            } else {
                Ok(ArticleResolution::Fetch(query.id.clone()))
            }
        },
    }
}

/// Resolves a global identifier to an instance, from this instance's own
/// identity, the peer cache, or as a fetch instruction.
pub fn resolve_instance(store: &Store, query: &ResolveObject) -> (r: Result<
    InstanceResolution,
    ApiError,
>)
    ensures
        match r {
            Ok(InstanceResolution::Local(inst)) => {
                ||| (store.local_instance.ap_id@ == query.id@ && instance_like(
                    inst,
                    store.local_instance,
                ))
                ||| exists|j: int|
                    0 <= j < store.instances@.len() && (#[trigger] store.instances@[j]).ap_id@
                        == query.id@ && instance_like(inst, store.instances@[j])
            },
            Ok(InstanceResolution::Fetch(u)) => {
                &&& u == query.id
                &&& store.local_instance.ap_id@ != query.id@
                &&& forall|j: int|
                    0 <= j < store.instances@.len() ==> (#[trigger] store.instances@[j]).ap_id@
                        != query.id@
            },
            Err(_) => false,
        },
{
    match store.resolve_local_instance(&query.id) {
        Ok(inst) => Ok(InstanceResolution::Local(inst)),
        Err(_) => Ok(InstanceResolution::Fetch(query.id.clone())),
    }
}

/// This instance's own representation.
pub fn get_local_instance(store: &Store) -> (r: DbInstance)
    ensures
        instance_like(r, store.local_instance),
{
    store.local_instance()
}

/// Follows a known instance: creates the relation if absent (idempotent)
/// and owes one Follow delivery to the target either way, at-least-once.
/// Fails with `NotFound` when the target is not in the peer cache; the
/// caller resolves and caches it first.
pub fn follow_instance(store: &mut Store, data: &FollowInstance) -> (r: Result<
    (bool, Delivery),
    ApiError,
>)
    ensures
        wf_store(*old(store)) ==> wf_store(*final(store)),
        match r {
            Ok((newly, d)) => {
                &&& exists|j: int|
                    0 <= j < old(store).instances@.len() && (#[trigger] old(
                        store,
                    ).instances@[j]).ap_id@ == data.instance_id@
                &&& follow_step(
                    old(store).local_instance.follows@,
                    d.target,
                    final(store).local_instance.follows@,
                )
                &&& d.target@ == data.instance_id@
                &&& newly == !has_follow(old(store).local_instance.follows@, data.instance_id@)
                &&& has_follow(final(store).local_instance.follows@, data.instance_id@)
                &&& match d.activity {
                    Activity::Follow(fa) => fa.actor@ == old(store).local_instance.ap_id@
                        && fa.object@ == data.instance_id@,
                    _ => false,
                }
                &&& final(store).local_instance.ap_id == old(store).local_instance.ap_id
                &&& final(store).local_instance.followers@
                    == old(store).local_instance.followers@
                &&& final(store).articles@ == old(store).articles@
                &&& final(store).instances@ == old(store).instances@
                &&& final(store).pending@ == old(store).pending@
                &&& final(store).next_article_id == old(store).next_article_id
            },
            Err(e) => {
                &&& e == ApiError::NotFound
                &&& store_like(*final(store), *old(store))
                &&& forall|j: int|
                    0 <= j < old(store).instances@.len() ==> (#[trigger] old(
                        store,
                    ).instances@[j]).ap_id@ != data.instance_id@
            },
        },
{
    let mut known: bool = false;
    let mut j: usize = 0;
    while j < store.instances.len()
        invariant
            0 <= j <= store.instances@.len(),
            *store == *old(store),
            known == exists|k: int|
                0 <= k < j && (#[trigger] store.instances@[k]).ap_id@ == data.instance_id@,
        decreases store.instances@.len() - j,
    {
        if store.instances[j].ap_id == data.instance_id {
            known = true;
        }
        j = j + 1;
    }
    if !known {
        return Err(ApiError::NotFound);
    }
    let target = data.instance_id.clone();
    let newly = store.local_instance.follow(&target);
    proof {
        if wf_store(*old(store)) {
            if !has_follow(old(store).local_instance.follows@, data.instance_id@) {
                let fs = old(store).local_instance.follows@;
                let n = fs.len() as int;
                assert forall|k1: int, k2: int| 0 <= k1 < k2 < store.local_instance.follows@.len() implies #[trigger] store.local_instance.follows@[k1].target@
                    != #[trigger] store.local_instance.follows@[k2].target@ by {
                    if k2 == n {
                        assert(store.local_instance.follows@[k1] == fs[k1]);
                    }
                }
            }
        }
        if !has_follow(old(store).local_instance.follows@, data.instance_id@) {
            assert(store.local_instance.follows@.last().target@ == data.instance_id@);
        }
    }
    let d = Delivery {
        target: data.instance_id.clone(),
        activity: Activity::Follow(
            FollowActivity {
                actor: store.local_instance.ap_id.clone(),
                object: data.instance_id.clone(),
            },
        ),
    };
    Ok((newly, d))
}

} // verus!
