//! Federation activities: what instances exchange, and how outbound
//! deliveries are built.
//!
//! Deliveries are values, one per follower, handed to the caller: each is
//! sent (and retried) independently, so one follower's failure can neither
//! block the others nor undo a local edit that already succeeded. The
//! network itself is outside the library.
use crate::article::DbArticle;
use crate::edit::DbEdit;
use crate::edit::DbEditForm;
use crate::instance::DbInstance;
use crate::version::EditVersion;
use vstd::prelude::*;

verus! {

/// The edit carried by an Update activity.
#[derive(Clone, Debug)]
pub struct EditPayload {
    /// Global identifier of the edit; the key of the idempotent upsert.
    pub ap_id: String,
    pub diff: String,
    pub summary: String,
    pub creator_id: i32,
    /// Parent version the edit was authored against.
    pub previous_version: EditVersion,
    /// Content address of `diff`.
    pub hash: EditVersion,
    pub created: i64,
}

/// An edit published by an article's origin or forwarded towards it.
#[derive(Clone, Debug)]
pub struct UpdateActivity {
    /// The sending instance.
    pub actor: String,
    /// Global identifier of the edited article.
    pub article_ap_id: String,
    pub edit: EditPayload,
}

/// A brand-new article announced by its origin.
#[derive(Clone, Debug)]
pub struct CreateActivity {
    /// The origin instance.
    pub actor: String,
    /// Global identifier of the new article.
    pub article_ap_id: String,
    pub title: String,
}

/// A request to follow an instance.
#[derive(Clone, Debug)]
pub struct FollowActivity {
    pub actor: String,
    /// The instance to be followed.
    pub object: String,
}

/// Acceptance of an earlier Follow.
#[derive(Clone, Debug)]
pub struct AcceptActivity {
    pub actor: String,
    /// The follower whose request is accepted.
    pub object: String,
}

/// Everything an instance can receive; adding a kind is a compile-checked
/// change wherever activities are matched.
#[derive(Clone, Debug)]
pub enum Activity {
    Create(CreateActivity),
    Update(UpdateActivity),
    Follow(FollowActivity),
    Accept(AcceptActivity),
}

/// One outbound message: which instance it goes to, and what.
#[derive(Clone, Debug)]
pub struct Delivery {
    pub target: String,
    pub activity: Activity,
}

impl EditPayload {
    /// An exact copy; unlike a derived clone, its contract says so.
    pub fn duplicate(&self) -> (r: Self)
        ensures
            r == *self,
    {
        EditPayload {
            ap_id: self.ap_id.clone(),
            diff: self.diff.clone(),
            summary: self.summary.clone(),
            creator_id: self.creator_id,
            previous_version: self.previous_version,
            hash: self.hash,
            created: self.created,
        }
    }
}

impl UpdateActivity {
    /// An exact copy; unlike a derived clone, its contract says so.
    pub fn duplicate(&self) -> (r: Self)
        ensures
            r == *self,
    {
        UpdateActivity {
            actor: self.actor.clone(),
            article_ap_id: self.article_ap_id.clone(),
            edit: self.edit.duplicate(),
        }
    }
}

impl CreateActivity {
    /// An exact copy; unlike a derived clone, its contract says so.
    pub fn duplicate(&self) -> (r: Self)
        ensures
            r == *self,
    {
        CreateActivity {
            actor: self.actor.clone(),
            article_ap_id: self.article_ap_id.clone(),
            title: self.title.clone(),
        }
    }
}

impl Activity {
    /// An exact copy; unlike a derived clone, its contract says so.
    pub fn duplicate(&self) -> (r: Self)
        ensures
            r == *self,
    {
        match self {
            Activity::Create(a) => Activity::Create(a.duplicate()),
            Activity::Update(a) => Activity::Update(a.duplicate()),
            Activity::Follow(a) => Activity::Follow(
                FollowActivity { actor: a.actor.clone(), object: a.object.clone() },
            ),
            Activity::Accept(a) => Activity::Accept(
                AcceptActivity { actor: a.actor.clone(), object: a.object.clone() },
            ),
        }
    }
}

/// The Update activity announcing one edit of one article.
pub open spec fn update_activity_for(
    instance_ap_id: String,
    article_ap_id: String,
    e: DbEdit,
) -> UpdateActivity {
    UpdateActivity {
        actor: instance_ap_id,
        article_ap_id: article_ap_id,
        edit: EditPayload {
            ap_id: e.ap_id,
            diff: e.diff,
            summary: e.summary,
            creator_id: e.creator_id,
            previous_version: e.previous_version_id,
            hash: e.hash,
            created: e.created,
        },
    }
}

/// Builds the Update activity announcing `edit`.
pub fn build_update_activity(sender: &DbInstance, article: &DbArticle, edit: &DbEdit) -> (r:
    UpdateActivity)
    ensures
        r == update_activity_for(sender.ap_id, article.ap_id, *edit),
{
    UpdateActivity {
        actor: sender.ap_id.clone(),
        article_ap_id: article.ap_id.clone(),
        edit: EditPayload {
            ap_id: edit.ap_id.clone(),
            diff: edit.diff.clone(),
            summary: edit.summary.clone(),
            creator_id: edit.creator_id,
            previous_version: edit.previous_version_id,
            hash: edit.hash,
            created: edit.created,
        },
    }
}

/// One delivery of the same activity to every follower, independent of one
/// another.
pub open spec fn fanned_out(r: Seq<Delivery>, followers: Seq<String>, act: Activity) -> bool {
    &&& r.len() == followers.len()
    &&& forall|i: int|
        0 <= i < r.len() ==> #[trigger] r[i].target == followers[i] && r[i].activity == act
}

/// One Create delivery per follower, announcing the given article.
pub open spec fn fanned_out_create(
    r: Seq<Delivery>,
    followers: Seq<String>,
    article_ap: Seq<char>,
    title: Seq<char>,
    actor: Seq<char>,
) -> bool {
    &&& r.len() == followers.len()
    &&& forall|i: int|
        0 <= i < r.len() ==> (#[trigger] r[i]).target == followers[i] && match r[i].activity {
            Activity::Create(ca) => ca.article_ap_id@ == article_ap && ca.title@ == title
                && ca.actor@ == actor,
            _ => false,
        }
}

/// One Update delivery per follower, announcing the given edit.
pub open spec fn fanned_out_update(
    r: Seq<Delivery>,
    followers: Seq<String>,
    article_ap: Seq<char>,
    e: DbEdit,
    actor: Seq<char>,
) -> bool {
    &&& r.len() == followers.len()
    &&& forall|i: int|
        0 <= i < r.len() ==> (#[trigger] r[i]).target == followers[i] && match r[i].activity {
            Activity::Update(ua) => {
                &&& ua.article_ap_id@ == article_ap
                &&& ua.actor@ == actor
                &&& ua.edit.ap_id@ == e.ap_id@
                &&& ua.edit.diff@ == e.diff@
                &&& ua.edit.summary@ == e.summary@
                &&& ua.edit.hash == e.hash
                &&& ua.edit.previous_version == e.previous_version_id
                &&& ua.edit.creator_id == e.creator_id
                &&& ua.edit.created == e.created
            },
            _ => false,
        }
}

/// Builds one delivery of `activity` per follower of `sender`.
pub fn send_to_followers(sender: &DbInstance, activity: &Activity) -> (r: Vec<Delivery>)
    ensures
        fanned_out(r@, sender.followers@, *activity),
{
    let mut r: Vec<Delivery> = Vec::new();
    let mut i: usize = 0;
    while i < sender.followers.len()
        invariant
            0 <= i <= sender.followers@.len(),
            r@.len() == i,
            forall|j: int|
                0 <= j < i ==> #[trigger] r@[j].target == sender.followers@[j] && r@[j].activity
                    == *activity,
        decreases sender.followers@.len() - i,
    {
        r.push(Delivery { target: sender.followers[i].clone(), activity: activity.duplicate() });
        proof {
            assert(r@[i as int].target == sender.followers@[i as int]);
            assert(r@[i as int].activity == *activity);
        }
        i = i + 1;
    }
    r
}

/// Builds the forward of an unapplied edit towards the article's origin
/// instance, used when the article is a mirror: the local copy stays as it
/// is until the origin's own Update comes back.
pub fn send_to_origin(sender: &DbInstance, article: &DbArticle, form: &DbEditForm, origin: &String)
    -> (r: Delivery)
    ensures
        r.target == *origin,
        r.activity == Activity::Update(
            update_activity_for(
                sender.ap_id,
                article.ap_id,
                DbEdit {
                    hash: form.hash,
                    ap_id: form.ap_id,
                    diff: form.diff,
                    summary: form.summary,
                    creator_id: form.creator_id,
                    article_id: form.article_id,
                    previous_version_id: form.previous_version_id,
                    created: form.created,
                },
            ),
        ),
{
    Delivery {
        target: origin.clone(),
        activity: Activity::Update(
            UpdateActivity {
                actor: sender.ap_id.clone(),
                article_ap_id: article.ap_id.clone(),
                edit: EditPayload {
                    ap_id: form.ap_id.clone(),
                    diff: form.diff.clone(),
                    summary: form.summary.clone(),
                    creator_id: form.creator_id,
                    previous_version: form.previous_version_id,
                    hash: form.hash,
                    created: form.created,
                },
            },
        ),
    }
}

} // verus!
