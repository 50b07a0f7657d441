//! The inbound side of federation: validating and applying activities.
//!
//! Every inbound activity runs the same gauntlet: shape validation, then
//! reference resolution, then the chain check, then an idempotent apply
//! keyed by the edit's global identifier. A failure drops the one activity,
//! never the receiver: every call returns a status and leaves the store
//! well-formed.
use crate::activity::Activity;
use crate::activity::Delivery;
use crate::activity::EditPayload;
use crate::activity::FollowActivity;
use crate::activity::AcceptActivity;
use crate::activity::CreateActivity;
use crate::activity::UpdateActivity;
use crate::activity::fanned_out_update;
use crate::activity::send_to_followers;
use crate::article::chain_status;
use crate::article::wf_article;
use crate::article::ChainStatus;
use crate::article::DbArticle;
use crate::article::validate_chain;
use crate::diff::apply_patch_spec;
use crate::edit::DbEdit;
use crate::error::ApiError;
use crate::ids::check_url;
use crate::ids::url_parses;
use crate::instance::instance_like;
use crate::instance::has_member;
use crate::instance::has_follow;
use crate::instance::member_step;
use crate::store::edit_known;
use crate::store::find_article_idx;
use crate::store::find_edit_by_ap_id;
use crate::store::article_advanced;
use crate::store::has_article;
use crate::store::store_like;
use crate::store::wf_store;
use crate::store::Store;
use crate::version::root_version;
use crate::version::version_of;
use vstd::prelude::*;
use vstd::string::StringExecFns;

verus! {

/// Where an inbound activity ended: applied, or dropped for a stated reason.
#[derive(Clone, Copy, PartialEq, Eq, Structural, Debug)]
pub enum ReceiveStatus {
    /// The activity was validated and applied.
    Applied,
    /// The same activity was seen before; the state is untouched.
    AlreadyKnown,
    /// The payload fails shape validation or is not content-addressed.
    Malformed,
    /// The activity references something this instance cannot resolve.
    UnknownReference,
    /// The edit's parent was already superseded: recorded as a flagged fork.
    ForkRecorded,
    /// The edit's parent is not known yet: queued until the ancestor comes.
    Queued,
    /// The edit's diff does not apply cleanly; dropped.
    PatchFailed,
    /// The edit's version is already taken by a different edit; dropped.
    HashClash,
    /// The store cannot assign a new ordinal.
    Rejected,
}

/// Shape validation of an Update: both identifiers are URL-shaped.
pub open spec fn update_shape_ok(act: UpdateActivity) -> bool {
    &&& url_parses(act.article_ap_id@)
    &&& url_parses(act.edit.ap_id@)
}

/// The edit an inbound payload becomes, bound to a local article.
pub open spec fn edit_of_payload(p: EditPayload, article_id: i32) -> DbEdit {
    DbEdit {
        hash: p.hash,
        ap_id: p.ap_id,
        diff: p.diff,
        summary: p.summary,
        creator_id: p.creator_id,
        article_id,
        previous_version_id: p.previous_version,
        created: p.created,
    }
}

/// Whether an update with this edit identifier waits in the queue.
pub open spec fn in_pending(pending: Seq<UpdateActivity>, id: Seq<char>) -> bool {
    exists|p: int| 0 <= p < pending.len() && #[trigger] pending[p].edit.ap_id@ == id
}

/// What recording a fork does to an article.
pub open spec fn article_forked(pre: DbArticle, post: DbArticle, e: DbEdit) -> bool {
    &&& post.forks@ == pre.forks@.push(e)
    &&& post.edits == pre.edits
    &&& post.id == pre.id
    &&& post.title == pre.title
    &&& post.text == pre.text
    &&& post.ap_id == pre.ap_id
    &&& post.latest_version == pre.latest_version
    &&& post.instance == pre.instance
    &&& post.local == pre.local
}

/// Everything but the articles and the queue is untouched.
pub open spec fn rest_unchanged(pre: Store, post: Store) -> bool {
    &&& instance_like(post.local_instance, pre.local_instance)
    &&& post.instances@ == pre.instances@
    &&& post.next_article_id == pre.next_article_id
}

/// How the store and the status relate to an inbound Update, given the
/// resolved article sits at index `j`.
pub open spec fn update_rel_at(
    pre: Store,
    act: UpdateActivity,
    post: Store,
    r: ReceiveStatus,
    j: int,
) -> bool {
    let a = pre.articles@[j];
    let e = edit_of_payload(act.edit, a.id);
    if edit_known(a, act.edit.ap_id@) || in_pending(pre.pending@, act.edit.ap_id@) {
        r == ReceiveStatus::AlreadyKnown && store_like(post, pre)
    } else {
        match chain_status(a, e) {
            ChainStatus::Mismatched => r == ReceiveStatus::Malformed && store_like(post, pre),
            ChainStatus::HashInUse => r == ReceiveStatus::HashClash && store_like(post, pre),
            ChainStatus::Ready => match apply_patch_spec(a.text@, e.diff@) {
                Some(_) => {
                    &&& r == ReceiveStatus::Applied
                    &&& post.articles@ == pre.articles@.update(j, post.articles@[j])
                    &&& article_advanced(a, post.articles@[j], e)
                    &&& post.pending@ == pre.pending@
                    &&& rest_unchanged(pre, post)
                },
                None => r == ReceiveStatus::PatchFailed && store_like(post, pre),
            },
            ChainStatus::Forked => {
                &&& r == ReceiveStatus::ForkRecorded
                &&& post.articles@ == pre.articles@.update(j, post.articles@[j])
                &&& article_forked(a, post.articles@[j], e)
                &&& post.pending@ == pre.pending@
                &&& rest_unchanged(pre, post)
            },
            ChainStatus::MissingAncestor => {
                &&& r == ReceiveStatus::Queued
                &&& post.pending@ == pre.pending@.push(act)
                &&& post.articles@ == pre.articles@
                &&& rest_unchanged(pre, post)
            },
        }
    }
}

/// How the store and the status relate to an inbound Update.
pub open spec fn update_rel(pre: Store, act: UpdateActivity, post: Store, r: ReceiveStatus) -> bool {
    if !update_shape_ok(act) {
        r == ReceiveStatus::Malformed && store_like(post, pre)
    } else if !has_article(pre.articles@, act.article_ap_id@) {
        r == ReceiveStatus::UnknownReference && store_like(post, pre)
    } else {
        exists|j: int|
            0 <= j < pre.articles@.len() && (#[trigger] pre.articles@[j]).ap_id@
                == act.article_ap_id@ && update_rel_at(pre, act, post, r, j)
    }
}

/// Finds a queued update by edit identifier.
fn find_pending(pending: &Vec<UpdateActivity>, id: &String) -> (r: Option<usize>)
    ensures
        match r {
            Some(p) => p < pending@.len() && pending@[p as int].edit.ap_id@ == id@,
            None => !in_pending(pending@, id@),
        },
{
    let mut p: usize = 0;
    while p < pending.len()
        invariant
            0 <= p <= pending@.len(),
            forall|i: int| 0 <= i < p ==> #[trigger] pending@[i].edit.ap_id@ != id@,
        decreases pending@.len() - p,
    {
        if pending[p].edit.ap_id == *id {
            return Some(p);
        }
        p = p + 1;
    }
    None
}

/// Validates and applies one inbound Update: shape check, reference
/// resolution, chain check, then the idempotent apply. Re-delivery of a
/// known edit is a no-op; a superseded parent records a fork; an unknown
/// parent queues the activity; nothing else is mutated.
pub fn receive_update(store: &mut Store, act: &UpdateActivity) -> (r: ReceiveStatus)
    ensures
        update_rel(*old(store), *act, *final(store), r),
        wf_store(*old(store)) ==> wf_store(*final(store)),
{
    if !check_url(act.article_ap_id.as_str()) || !check_url(act.edit.ap_id.as_str()) {
        return ReceiveStatus::Malformed;
    }
    let j = match find_article_idx(&store.articles, &act.article_ap_id) {
        None => {
            return ReceiveStatus::UnknownReference;
        },
        Some(j) => j,
    };
    if find_edit_by_ap_id(&store.articles[j].edits, &act.edit.ap_id).is_some() {
        return ReceiveStatus::AlreadyKnown;
    }
    if find_edit_by_ap_id(&store.articles[j].forks, &act.edit.ap_id).is_some() {
        return ReceiveStatus::AlreadyKnown;
    }
    if find_pending(&store.pending, &act.edit.ap_id).is_some() {
        return ReceiveStatus::AlreadyKnown;
    }
    let article_id = store.articles[j].id;
    let e = DbEdit {
        hash: act.edit.hash,
        ap_id: act.edit.ap_id.clone(),
        diff: act.edit.diff.clone(),
        summary: act.edit.summary.clone(),
        creator_id: act.edit.creator_id,
        article_id,
        previous_version_id: act.edit.previous_version,
        created: act.edit.created,
    };
    let st = validate_chain(&store.articles[j], &e);
    match st {
        ChainStatus::Mismatched => ReceiveStatus::Malformed,
        ChainStatus::HashInUse => ReceiveStatus::HashClash,
        ChainStatus::Ready => {
            let res = {
                let a = &mut store.articles[j];
                a.apply_edit(&e)
            };
            match res {
                Ok(_) => {
                    proof {
                        lemma_store_update_wf(*old(store), *store, j as int);
                    }
                    ReceiveStatus::Applied
                },
                Err(ApiError::PatchFailed) => {
                    proof {
                        assert(store.articles@ =~= old(store).articles@);
                    }
                    ReceiveStatus::PatchFailed
                },
                Err(_) => {
                    proof {
                        assert(false);
                    }
                    ReceiveStatus::PatchFailed
                },
            }
        },
        ChainStatus::Forked => {
            {
                let a = &mut store.articles[j];
                a.record_fork(&e);
            }
            proof {
                lemma_store_update_wf(*old(store), *store, j as int);
            }
            ReceiveStatus::ForkRecorded
        },
        ChainStatus::MissingAncestor => {
            store.pending.push(act.duplicate());
            ReceiveStatus::Queued
        },
    }
}

/// A store whose articles changed only at one index, keeping identifier,
/// ordinal and well-formedness there, stays well-formed.
proof fn lemma_store_update_wf(pre: Store, post: Store, j: int)
    requires
        0 <= j < pre.articles@.len(),
        post.articles@ == pre.articles@.update(j, post.articles@[j]),
        post.articles@[j].ap_id == pre.articles@[j].ap_id,
        post.articles@[j].id == pre.articles@[j].id,
        wf_store(pre) ==> wf_article(post.articles@[j]),
        instance_like(post.local_instance, pre.local_instance),
        post.next_article_id == pre.next_article_id,
    ensures
        wf_store(pre) ==> wf_store(post),
{
    if wf_store(pre) {
        assert forall|j1: int, j2: int| 0 <= j1 < j2 < post.articles@.len() implies #[trigger] post.articles@[j1].ap_id@
            != #[trigger] post.articles@[j2].ap_id@ by {
            assert(pre.articles@[j1].ap_id@ != pre.articles@[j2].ap_id@);
        }
        assert forall|j1: int, j2: int| 0 <= j1 < j2 < post.articles@.len() implies #[trigger] post.articles@[j1].id
            != #[trigger] post.articles@[j2].id by {
            assert(pre.articles@[j1].id != pre.articles@[j2].id);
        }
        assert forall|i: int| 0 <= i < post.articles@.len() implies wf_article(
            #[trigger] post.articles@[i],
        ) by {
            if i != j {
                assert(wf_article(pre.articles@[i]));
            }
        }
    }
}

/// Applying the same Update twice leaves the state as applying it once:
/// whatever the first call did, the second call finds the edit known (or
/// the same drop reason) and changes nothing.
pub proof fn lemma_update_idempotent(
    s0: Store,
    act: UpdateActivity,
    s1: Store,
    r1: ReceiveStatus,
    s2: Store,
    r2: ReceiveStatus,
)
    requires
        wf_store(s0),
        update_rel(s0, act, s1, r1),
        update_rel(s1, act, s2, r2),
    ensures
        store_like(s2, s1),
{
    if !update_shape_ok(act) {
        return ;
    }
    if !has_article(s0.articles@, act.article_ap_id@) {
        assert(store_like(s1, s0));
        assert(!has_article(s1.articles@, act.article_ap_id@));
        return ;
    }
    let j = choose|j: int|
        0 <= j < s0.articles@.len() && (#[trigger] s0.articles@[j]).ap_id@ == act.article_ap_id@
            && update_rel_at(s0, act, s1, r1, j);
    let a = s0.articles@[j];
    let e = edit_of_payload(act.edit, a.id);
    if edit_known(a, act.edit.ap_id@) || in_pending(s0.pending@, act.edit.ap_id@) {
        assert(store_like(s1, s0));
        assert(s1.articles@[j] == a);
        assert(has_article(s1.articles@, act.article_ap_id@));
        let j2 = choose|j2: int|
            0 <= j2 < s1.articles@.len() && (#[trigger] s1.articles@[j2]).ap_id@
                == act.article_ap_id@ && update_rel_at(s1, act, s2, r2, j2);
        assert(s1.articles@[j2] == s0.articles@[j2]);
        assert(j2 == j);
        return ;
    }
    match chain_status(a, e) {
        ChainStatus::Ready => {
            if apply_patch_spec(a.text@, e.diff@) is Some {
                // Applied: the edit is now in the chain, so the second call
                // finds it known.
                assert(s1.articles@[j].edits@.last() == e);
                assert(s1.articles@[j].edits@[s1.articles@[j].edits@.len() - 1].ap_id@
                    == act.edit.ap_id@);
                assert(edit_known(s1.articles@[j], act.edit.ap_id@));
                assert(s1.articles@[j].ap_id@ == act.article_ap_id@);
                assert(has_article(s1.articles@, act.article_ap_id@));
                let j2 = choose|j2: int|
                    0 <= j2 < s1.articles@.len() && (#[trigger] s1.articles@[j2]).ap_id@
                        == act.article_ap_id@ && update_rel_at(s1, act, s2, r2, j2);
                assert forall|i: int|
                    0 <= i < s1.articles@.len() && (#[trigger] s1.articles@[i]).ap_id@
                        == act.article_ap_id@ implies i == j by {
                    if i != j {
                        assert(s1.articles@[i] == s0.articles@[i]);
                        assert(s0.articles@[i].ap_id@ != s0.articles@[j].ap_id@);
                    }
                }
                assert(j2 == j);
            } else {
                assert(store_like(s1, s0));
                same_state_second_call(s0, act, s1, s2, r2, j);
            }
        },
        ChainStatus::Forked => {
            assert(s1.articles@[j].forks@.last() == e);
            assert(s1.articles@[j].forks@[s1.articles@[j].forks@.len() - 1].ap_id@
                == act.edit.ap_id@);
            assert(edit_known(s1.articles@[j], act.edit.ap_id@));
            assert(s1.articles@[j].ap_id@ == act.article_ap_id@);
            assert(has_article(s1.articles@, act.article_ap_id@));
            let j2 = choose|j2: int|
                0 <= j2 < s1.articles@.len() && (#[trigger] s1.articles@[j2]).ap_id@
                    == act.article_ap_id@ && update_rel_at(s1, act, s2, r2, j2);
            assert forall|i: int|
                0 <= i < s1.articles@.len() && (#[trigger] s1.articles@[i]).ap_id@
                    == act.article_ap_id@ implies i == j by {
                if i != j {
                    assert(s1.articles@[i] == s0.articles@[i]);
                    assert(s0.articles@[i].ap_id@ != s0.articles@[j].ap_id@);
                }
            }
            assert(j2 == j);
        },
        ChainStatus::MissingAncestor => {
            assert(s1.pending@.last() == act);
            assert(s1.pending@[s1.pending@.len() - 1].edit.ap_id@ == act.edit.ap_id@);
            assert(in_pending(s1.pending@, act.edit.ap_id@));
            assert(s1.articles@[j] == a);
            assert(has_article(s1.articles@, act.article_ap_id@));
            let j2 = choose|j2: int|
                0 <= j2 < s1.articles@.len() && (#[trigger] s1.articles@[j2]).ap_id@
                    == act.article_ap_id@ && update_rel_at(s1, act, s2, r2, j2);
            assert(s1.articles@[j2] == s0.articles@[j2]);
            assert(j2 == j);
        },
        _ => {
            assert(store_like(s1, s0));
            same_state_second_call(s0, act, s1, s2, r2, j);
        },
    }
}

/// How retrying a whole queue relates pre to post: each queued activity ran
/// the receive relation, in order, against the store the previous one left.
pub open spec fn pending_rel(
    pre: Store,
    queued: Seq<UpdateActivity>,
    post: Store,
    rs: Seq<ReceiveStatus>,
) -> bool
    decreases queued.len(),
{
    &&& rs.len() == queued.len()
    &&& if queued.len() == 0 {
        post == pre
    } else {
        exists|mid: Store|
            #[trigger] update_rel(pre, queued[0], mid, rs[0]) && pending_rel(
                mid,
                queued.drop_first(),
                post,
                rs.drop_first(),
            )
    }
}

/// A run over a queue extends by one more received activity at its end.
proof fn lemma_pending_rel_snoc(
    pre: Store,
    queued: Seq<UpdateActivity>,
    mid: Store,
    rs: Seq<ReceiveStatus>,
    a: UpdateActivity,
    post: Store,
    r: ReceiveStatus,
)
    requires
        pending_rel(pre, queued, mid, rs),
        update_rel(mid, a, post, r),
    ensures
        pending_rel(pre, queued.push(a), post, rs.push(r)),
    decreases queued.len(),
{
    let q2 = queued.push(a);
    let rs2 = rs.push(r);
    if queued.len() == 0 {
        assert(mid == pre);
        assert(q2[0] == a);
        assert(rs2[0] == r);
        assert(q2.drop_first() =~= Seq::<UpdateActivity>::empty());
        assert(rs2.drop_first() =~= Seq::<ReceiveStatus>::empty());
        assert(update_rel(pre, q2[0], post, rs2[0]));
        assert(pending_rel(post, q2.drop_first(), post, rs2.drop_first()));
    } else {
        let m0 = choose|m: Store|
            #[trigger] update_rel(pre, queued[0], m, rs[0]) && pending_rel(
                m,
                queued.drop_first(),
                mid,
                rs.drop_first(),
            );
        lemma_pending_rel_snoc(m0, queued.drop_first(), mid, rs.drop_first(), a, post, r);
        assert(q2[0] == queued[0]);
        assert(rs2[0] == rs[0]);
        assert(q2.drop_first() =~= queued.drop_first().push(a));
        assert(rs2.drop_first() =~= rs.drop_first().push(r));
        assert(update_rel(pre, q2[0], m0, rs2[0]));
        assert(pending_rel(m0, q2.drop_first(), post, rs2.drop_first()));
    }
}

/// Retries every queued update once: called after a missing ancestor was
/// fetched and applied, so that waiting edits can link up. Starting from
/// the store with its queue taken out, each queued activity runs the full
/// receive relation in order against the store the previous one left; one
/// whose ancestor is still missing is queued anew.
pub fn process_pending(store: &mut Store) -> (r: Vec<ReceiveStatus>)
    ensures
        wf_store(*old(store)) ==> wf_store(*final(store)),
        r@.len() == old(store).pending@.len(),
        final(store).pending@.len() <= old(store).pending@.len(),
        exists|start: Store|
            {
                &&& start.local_instance == old(store).local_instance
                &&& start.instances == old(store).instances
                &&& start.articles == old(store).articles
                &&& start.next_article_id == old(store).next_article_id
                &&& start.pending@.len() == 0
                &&& #[trigger] pending_rel(start, old(store).pending@, *final(store), r@)
            },
{
    let mut queued: Vec<UpdateActivity> = Vec::new();
    std::mem::swap(&mut queued, &mut store.pending);
    let ghost start = *store;
    proof {
        assert(queued@.subrange(0, 0) =~= Seq::<UpdateActivity>::empty());
        assert(pending_rel(start, queued@.subrange(0, 0), *store, Seq::<ReceiveStatus>::empty()));
    }
    let mut out: Vec<ReceiveStatus> = Vec::new();
    let mut i: usize = 0;
    while i < queued.len()
        invariant
            0 <= i <= queued@.len(),
            out@.len() == i,
            store.pending@.len() <= i,
            pending_rel(start, queued@.subrange(0, i as int), *store, out@),
            wf_store(start) ==> wf_store(*store),
        decreases queued@.len() - i,
    {
        let ghost pre_iter = *store;
        let ghost out_pre = out@;
        let st = receive_update(store, &queued[i]);
        proof {
            lemma_pending_rel_snoc(
                start,
                queued@.subrange(0, i as int),
                pre_iter,
                out_pre,
                queued@[i as int],
                *store,
                st,
            );
            assert(queued@.subrange(0, i + 1 as int) =~= queued@.subrange(0, i as int).push(
                queued@[i as int],
            ));
        }
        out.push(st);
        i = i + 1;
        proof {
            assert(out@ =~= out_pre.push(st));
        }
    }
    proof {
        assert(queued@.subrange(0, queued@.len() as int) =~= queued@);
    }
    out
}

/// The empty mirror an inbound Create announces.
pub open spec fn created_mirror(act: CreateActivity, a: DbArticle, id: i32) -> bool {
    &&& a.id == id
    &&& a.title == act.title
    &&& a.ap_id == act.article_ap_id
    &&& a.text@.len() == 0
    &&& a.latest_version == root_version()
    &&& a.edits@.len() == 0
    &&& a.forks@.len() == 0
    &&& a.instance == act.actor
    &&& !a.local
}

/// How the store and the status relate to an inbound Create.
pub open spec fn create_rel(pre: Store, act: CreateActivity, post: Store, r: ReceiveStatus) -> bool {
    if !url_parses(act.article_ap_id@) {
        r == ReceiveStatus::Malformed && store_like(post, pre)
    } else if has_article(pre.articles@, act.article_ap_id@) {
        r == ReceiveStatus::AlreadyKnown && store_like(post, pre)
    } else if pre.next_article_id == i32::MAX {
        r == ReceiveStatus::Rejected && store_like(post, pre)
    } else {
        &&& r == ReceiveStatus::Applied
        &&& post.articles@ == pre.articles@.push(post.articles@.last())
        &&& created_mirror(act, post.articles@.last(), pre.next_article_id)
        &&& post.next_article_id == pre.next_article_id + 1
        &&& post.pending@ == pre.pending@
        &&& instance_like(post.local_instance, pre.local_instance)
        &&& post.instances@ == pre.instances@
    }
}

/// Validates one inbound Create and registers an empty mirror of the
/// announced article; idempotent by the article's global identifier.
pub fn receive_create(store: &mut Store, act: &CreateActivity) -> (r: ReceiveStatus)
    ensures
        create_rel(*old(store), *act, *final(store), r),
        wf_store(*old(store)) ==> wf_store(*final(store)),
{
    if !check_url(act.article_ap_id.as_str()) {
        return ReceiveStatus::Malformed;
    }
    if find_article_idx(&store.articles, &act.article_ap_id).is_some() {
        return ReceiveStatus::AlreadyKnown;
    }
    if store.next_article_id == i32::MAX {
        return ReceiveStatus::Rejected;
    }
    let id = store.next_article_id;
    let art = DbArticle {
        id,
        title: act.title.clone(),
        text: String::from_str(""),
        ap_id: act.article_ap_id.clone(),
        latest_version: crate::version::EditVersion::root(),
        edits: Vec::new(),
        forks: Vec::new(),
        instance: act.actor.clone(),
        local: false,
    };
    proof {
        reveal_strlit("");
        assert(""@ =~= Seq::<char>::empty());
        assert(wf_article(art));
    }
    push_new_article(store, art);
    ReceiveStatus::Applied
}

/// Appends a fresh well-formed article under the next ordinal.
pub(crate) fn push_new_article(store: &mut Store, art: DbArticle)
    requires
        art.id == old(store).next_article_id,
        old(store).next_article_id < i32::MAX,
        wf_article(art),
        !has_article(old(store).articles@, art.ap_id@),
    ensures
        final(store).articles@ == old(store).articles@.push(art),
        final(store).next_article_id == old(store).next_article_id + 1,
        final(store).pending == old(store).pending,
        final(store).local_instance == old(store).local_instance,
        final(store).instances == old(store).instances,
        wf_store(*old(store)) ==> wf_store(*final(store)),
{
    let ghost pre = *store;
    push_new_article_inner(store, art);
    proof {
        if wf_store(pre) {
            let n = pre.articles@.len() as int;
            assert forall|j1: int, j2: int| 0 <= j1 < j2 < store.articles@.len() implies #[trigger] store.articles@[j1].ap_id@
                != #[trigger] store.articles@[j2].ap_id@ by {
                if j2 == n {
                    assert(!has_article(pre.articles@, store.articles@[n].ap_id@));
                }
            }
        }
    }
}

fn push_new_article_inner(store: &mut Store, art: DbArticle)
    requires
        old(store).next_article_id < i32::MAX,
    ensures
        final(store).articles@ == old(store).articles@.push(art),
        final(store).next_article_id == old(store).next_article_id + 1,
        final(store).pending == old(store).pending,
        final(store).local_instance == old(store).local_instance,
        final(store).instances == old(store).instances,
{
    store.articles.push(art);
    store.next_article_id = store.next_article_id + 1;
}

/// How the store and the status relate to an inbound Follow.
pub open spec fn follow_rel(pre: Store, act: FollowActivity, post: Store, r: ReceiveStatus) -> bool {
    if act.object@ != pre.local_instance.ap_id@ {
        r == ReceiveStatus::UnknownReference && store_like(post, pre)
    } else {
        &&& r == (if has_member(pre.local_instance.followers@, act.actor@) {
            ReceiveStatus::AlreadyKnown
        } else {
            ReceiveStatus::Applied
        })
        &&& member_step(
            pre.local_instance.followers@,
            act.actor,
            post.local_instance.followers@,
        )
        &&& post.local_instance.ap_id == pre.local_instance.ap_id
        &&& post.local_instance.domain == pre.local_instance.domain
        &&& post.local_instance.follows@ == pre.local_instance.follows@
        &&& post.instances@ == pre.instances@
        &&& post.articles@ == pre.articles@
        &&& post.pending@ == pre.pending@
        &&& post.next_article_id == pre.next_article_id
    }
}

/// Registers an inbound Follow towards this instance; idempotent by the
/// follower's identifier.
pub fn receive_follow(store: &mut Store, act: &FollowActivity) -> (r: ReceiveStatus)
    ensures
        follow_rel(*old(store), *act, *final(store), r),
        wf_store(*old(store)) ==> wf_store(*final(store)),
{
    if !(store.local_instance.ap_id == act.object) {
        return ReceiveStatus::UnknownReference;
    }
    let added = store.local_instance.add_follower(&act.actor);
    proof {
        if wf_store(*old(store)) {
            if !has_member(old(store).local_instance.followers@, act.actor@) {
                let fs = old(store).local_instance.followers@;
                let n = fs.len() as int;
                assert forall|k1: int, k2: int| 0 <= k1 < k2 < store.local_instance.followers@.len() implies #[trigger] store.local_instance.followers@[k1]@
                    != #[trigger] store.local_instance.followers@[k2]@ by {
                    if k2 == n {
                        assert(store.local_instance.followers@[k1] == fs[k1]);
                    }
                }
            }
        }
    }
    if added {
        ReceiveStatus::Applied
    } else {
        ReceiveStatus::AlreadyKnown
    }
}

/// How the store and the status relate to an inbound Accept.
pub open spec fn accept_rel(pre: Store, act: AcceptActivity, post: Store, r: ReceiveStatus) -> bool {
    if !has_follow(pre.local_instance.follows@, act.actor@) {
        r == ReceiveStatus::UnknownReference && store_like(post, pre)
    } else {
        &&& r == ReceiveStatus::Applied
        &&& exists|k: int|
            0 <= k < pre.local_instance.follows@.len()
                && (#[trigger] pre.local_instance.follows@[k]).target@ == act.actor@
                && post.local_instance.follows@ == pre.local_instance.follows@.update(
                k,
                crate::instance::FollowRelation {
                    target: pre.local_instance.follows@[k].target,
                    accepted: true,
                },
            )
        &&& post.local_instance.ap_id == pre.local_instance.ap_id
        &&& post.local_instance.domain == pre.local_instance.domain
        &&& post.local_instance.followers@ == pre.local_instance.followers@
        &&& post.instances@ == pre.instances@
        &&& post.articles@ == pre.articles@
        &&& post.pending@ == pre.pending@
        &&& post.next_article_id == pre.next_article_id
    }
}

/// Marks an earlier Follow of ours as accepted by its target.
pub fn receive_accept(store: &mut Store, act: &AcceptActivity) -> (r: ReceiveStatus)
    ensures
        accept_rel(*old(store), *act, *final(store), r),
        wf_store(*old(store)) ==> wf_store(*final(store)),
{
    let marked = store.local_instance.accept_follow(&act.actor);
    proof {
        if wf_store(*old(store)) {
            if has_follow(old(store).local_instance.follows@, act.actor@) {
                let fs = old(store).local_instance.follows@;
                assert forall|k1: int, k2: int| 0 <= k1 < k2 < store.local_instance.follows@.len() implies #[trigger] store.local_instance.follows@[k1].target@
                    != #[trigger] store.local_instance.follows@[k2].target@ by {
                    assert(fs[k1].target@ != fs[k2].target@);
                    assert(store.local_instance.follows@[k1].target@ == fs[k1].target@);
                    assert(store.local_instance.follows@[k2].target@ == fs[k2].target@);
                }
            }
        }
    }
    if marked {
        ReceiveStatus::Applied
    } else {
        ReceiveStatus::UnknownReference
    }
}

/// Dispatches one inbound activity by kind, exhaustively, and hands back
/// the outbound deliveries it owes: an Accept for a registered Follow, and
/// the fan-out to this instance's followers when an Update was applied to
/// an article this instance is authoritative for.
pub fn receive_activity(store: &mut Store, act: &Activity) -> (out: (ReceiveStatus, Vec<Delivery>))
    ensures
        wf_store(*old(store)) ==> wf_store(*final(store)),
        match *act {
            Activity::Update(u) => {
                &&& update_rel(*old(store), u, *final(store), out.0)
                &&& (out.0 != ReceiveStatus::Applied ==> out.1@.len() == 0)
                &&& (wf_store(*old(store)) && out.0 == ReceiveStatus::Applied ==> exists|j: int|
                    0 <= j < old(store).articles@.len() && (#[trigger] old(
                        store,
                    ).articles@[j]).ap_id@ == u.article_ap_id@ && (if old(
                        store,
                    ).articles@[j].local {
                        fanned_out_update(
                            out.1@,
                            final(store).local_instance.followers@,
                            u.article_ap_id@,
                            edit_of_payload(u.edit, old(store).articles@[j].id),
                            final(store).local_instance.ap_id@,
                        )
                    } else {
                        out.1@.len() == 0
                    }))
            },
            Activity::Create(c) => create_rel(*old(store), c, *final(store), out.0) && out.1@.len()
                == 0,
            Activity::Follow(f) => {
                &&& follow_rel(*old(store), f, *final(store), out.0)
                &&& ((out.0 == ReceiveStatus::Applied || out.0 == ReceiveStatus::AlreadyKnown)
                    ==> out.1@.len() == 1 && out.1@[0].target == f.actor)
            },
            Activity::Accept(a) => accept_rel(*old(store), a, *final(store), out.0) && out.1@.len()
                == 0,
        },
{
    match act {
        Activity::Update(u) => {
            let r = receive_update(store, u);
            let mut ds: Vec<Delivery> = Vec::new();
            if r == ReceiveStatus::Applied {
                if let Some(j) = find_article_idx(&store.articles, &u.article_ap_id) {
                    if store.articles[j].local && store.articles[j].edits.len() > 0 {
                        let k = store.articles[j].edits.len() - 1;
                        let ua = crate::activity::build_update_activity(
                            &store.local_instance,
                            &store.articles[j],
                            &store.articles[j].edits[k],
                        );
                        let ghost gua = ua;
                        let fan = Activity::Update(ua);
                        ds = send_to_followers(&store.local_instance, &fan);
                        proof {
                            if wf_store(*old(store)) {
                                let j0 = lemma_applied_witness(*old(store), *u, *store, r);
                                assert(j as int == j0);
                                let a0 = old(store).articles@[j0];
                                let e0 = edit_of_payload(u.edit, a0.id);
                                assert(store.articles@[j0].edits@ == a0.edits@.push(e0));
                                assert(store.articles@[j as int].edits@[k as int] == e0);
                                assert(fan == Activity::Update(gua));
                                assert forall|i: int| 0 <= i < ds@.len() implies (#[trigger] ds@[i]).target
                                    == store.local_instance.followers@[i] && ds@[i].activity
                                    == fan by {}
                                assert(gua.article_ap_id@ == u.article_ap_id@);
                                assert(fanned_out_update(
                                    ds@,
                                    store.local_instance.followers@,
                                    u.article_ap_id@,
                                    e0,
                                    store.local_instance.ap_id@,
                                ));
                                assert(a0.local);
                            }
                        }
                    } else {
                        proof {
                            if wf_store(*old(store)) {
                                let j0 = lemma_applied_witness(*old(store), *u, *store, r);
                                assert(j as int == j0);
                                assert(store.articles@[j0].edits@.len() > 0);
                                assert(!old(store).articles@[j0].local);
                            }
                        }
                    }
                } else {
                    proof {
                        if wf_store(*old(store)) {
                            let j0 = lemma_applied_witness(*old(store), *u, *store, r);
                            assert(store.articles@[j0].ap_id@ == u.article_ap_id@);
                            assert(false);
                        }
                    }
                }
            }
            (r, ds)
        },
        Activity::Create(c) => {
            let r = receive_create(store, c);
            (r, Vec::new())
        },
        Activity::Follow(f) => {
            let r = receive_follow(store, f);
            let mut ds: Vec<Delivery> = Vec::new();
            if r == ReceiveStatus::Applied || r == ReceiveStatus::AlreadyKnown {
                ds.push(
                    Delivery {
                        target: f.actor.clone(),
                        activity: Activity::Accept(
                            AcceptActivity {
                                actor: store.local_instance.ap_id.clone(),
                                object: f.actor.clone(),
                            },
                        ),
                    },
                );
            }
            (r, ds)
        },
        Activity::Accept(a) => {
            let r = receive_accept(store, a);
            (r, Vec::new())
        },
    }
}

/// An applied Update pins one article: the one carrying the activity's
/// identifier, advanced by the activity's edit, unique in the store before
/// and after.
proof fn lemma_applied_witness(pre: Store, u: UpdateActivity, mid: Store, r: ReceiveStatus) -> (j0:
    int)
    requires
        wf_store(pre),
        update_rel(pre, u, mid, r),
        r == ReceiveStatus::Applied,
    ensures
        0 <= j0 < pre.articles@.len(),
        pre.articles@[j0].ap_id@ == u.article_ap_id@,
        article_advanced(
            pre.articles@[j0],
            mid.articles@[j0],
            edit_of_payload(u.edit, pre.articles@[j0].id),
        ),
        mid.articles@ == pre.articles@.update(j0, mid.articles@[j0]),
        mid.articles@.len() == pre.articles@.len(),
        forall|i: int|
            0 <= i < mid.articles@.len() && (#[trigger] mid.articles@[i]).ap_id@
                == u.article_ap_id@ ==> i == j0,
{
    let j0 = choose|j: int|
        0 <= j < pre.articles@.len() && (#[trigger] pre.articles@[j]).ap_id@ == u.article_ap_id@
            && update_rel_at(pre, u, mid, r, j);
    assert(update_rel_at(pre, u, mid, r, j0));
    assert forall|i: int|
        0 <= i < mid.articles@.len() && (#[trigger] mid.articles@[i]).ap_id@
            == u.article_ap_id@ implies i == j0 by {
        if i != j0 {
            assert(mid.articles@[i] == pre.articles@[i]);
            if i < j0 {
                assert(pre.articles@[i].ap_id@ != pre.articles@[j0].ap_id@);
            } else {
                assert(pre.articles@[j0].ap_id@ != pre.articles@[i].ap_id@);
            }
        }
    }
    j0
}

/// When the first call dropped the activity without touching the state, the
/// second call takes the very same branch.
proof fn same_state_second_call(
    s0: Store,
    act: UpdateActivity,
    s1: Store,
    s2: Store,
    r2: ReceiveStatus,
    j: int,
)
    requires
        wf_store(s0),
        update_shape_ok(act),
        0 <= j < s0.articles@.len(),
        s0.articles@[j].ap_id@ == act.article_ap_id@,
        !edit_known(s0.articles@[j], act.edit.ap_id@),
        !in_pending(s0.pending@, act.edit.ap_id@),
        ({
            let st = chain_status(s0.articles@[j], edit_of_payload(act.edit, s0.articles@[j].id));
            ||| st is Mismatched
            ||| st is HashInUse
            ||| (st is Ready && apply_patch_spec(
                s0.articles@[j].text@,
                act.edit.diff@,
            ) is None)
        }),
        store_like(s1, s0),
        update_rel(s1, act, s2, r2),
    ensures
        store_like(s2, s1),
{
    assert(s1.articles@[j] == s0.articles@[j]);
    assert(has_article(s1.articles@, act.article_ap_id@));
    let j2 = choose|j2: int|
        0 <= j2 < s1.articles@.len() && (#[trigger] s1.articles@[j2]).ap_id@ == act.article_ap_id@
            && update_rel_at(s1, act, s2, r2, j2);
    assert(s1.articles@[j2] == s0.articles@[j2]);
    assert(j2 == j);
}

} // verus!
