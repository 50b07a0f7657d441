//! Articles and their version chain.
//!
//! An article's applied history is a linear chain of edits from the root
//! sentinel to `latest_version`; replaying the chain's diffs from the empty
//! text reconstructs the article's text. Sibling edits that lost a race are
//! kept as flagged forks, never silently merged or discarded.
use crate::diff::apply_patch;
use crate::diff::apply_patch_spec;
use crate::diff::patch_of;
use crate::edit::DbEdit;
use crate::edit::DbEditForm;
use crate::error::ApiError;
use crate::ids::edit_ap_id;
use crate::ids::url_parses;
use crate::version::root_version;
use crate::version::version_of;
use crate::version::EditVersion;
use vstd::prelude::*;
use vstd::string::StringExecFns;

verus! {

/// A titled document, either authoritative here (`local`) or a mirror of a
/// remote original.
#[derive(Clone, Debug)]
pub struct DbArticle {
    /// Local ordinal, storage-assigned.
    pub id: i32,
    pub title: String,
    /// Current full content; always the replay of `edits`.
    pub text: String,
    /// Global identifier, immutable and unique.
    pub ap_id: String,
    /// Hash of the most recently applied edit, or the root sentinel.
    pub latest_version: EditVersion,
    /// The applied history: a chain from the root to `latest_version`.
    pub edits: Vec<DbEdit>,
    /// Flagged sibling branches: inbound edits whose parent was already
    /// superseded; retained for audit.
    pub forks: Vec<DbEdit>,
    /// The owning instance's identifier.
    pub instance: String,
    /// True iff this instance is authoritative for the article.
    pub local: bool,
}

/// The version at the end of a chain: the root sentinel for an empty one.
pub open spec fn chain_tip(edits: Seq<DbEdit>) -> EditVersion {
    if edits.len() == 0 {
        root_version()
    } else {
        edits.last().hash
    }
}

/// The text after replaying the first `n` diffs of the chain from the empty
/// text; nothing if some diff does not apply.
pub open spec fn replay_prefix(edits: Seq<DbEdit>, n: int) -> Option<Seq<char>>
    decreases n,
{
    if n <= 0 {
        Some(Seq::empty())
    } else {
        match replay_prefix(edits, n - 1) {
            None => None,
            Some(t) => apply_patch_spec(t, edits[n - 1].diff@),
        }
    }
}

/// The text after replaying the whole chain.
pub open spec fn replay(edits: Seq<DbEdit>) -> Option<Seq<char>> {
    replay_prefix(edits, edits.len() as int)
}

/// Whether some edit of the chain carries this version.
pub open spec fn chain_contains(edits: Seq<DbEdit>, v: EditVersion) -> bool {
    exists|i: int| 0 <= i < edits.len() && #[trigger] edits[i].hash == v
}

/// One chain entry in place: linked to its predecessor (the root for the
/// first), content-addressed, never the root sentinel, owned by the article.
pub open spec fn chain_edit_ok(a: DbArticle, i: int) -> bool {
    let e = a.edits@[i];
    &&& e.previous_version_id == (if i == 0 {
        root_version()
    } else {
        a.edits@[i - 1].hash
    })
    &&& e.hash != root_version()
    &&& e.hash == version_of(e.diff@)
    &&& e.article_id == a.id
}

/// One fork entry in place: its parent resolves to the root or to a chain
/// entry, it is content-addressed and owned by the article.
pub open spec fn fork_edit_ok(a: DbArticle, k: int) -> bool {
    let e = a.forks@[k];
    &&& (e.previous_version_id == root_version() || chain_contains(a.edits@, e.previous_version_id))
    &&& e.hash == version_of(e.diff@)
    &&& e.article_id == a.id
}

/// Well-formedness of an article: the chain is linked and content-addressed,
/// its versions are distinct and distinct from the root, `latest_version` is
/// the chain's tip, the text is the replay of the chain, and every fork's
/// parent resolves.
pub open spec fn wf_article(a: DbArticle) -> bool {
    &&& forall|i: int| 0 <= i < a.edits@.len() ==> #[trigger] chain_edit_ok(a, i)
    &&& forall|i: int, j: int|
        0 <= i < j < a.edits@.len() ==> #[trigger] a.edits@[i].hash != #[trigger] a.edits@[j].hash
    &&& a.latest_version == chain_tip(a.edits@)
    &&& replay(a.edits@) == Some(a.text@)
    &&& forall|k: int| 0 <= k < a.forks@.len() ==> #[trigger] fork_edit_ok(a, k)
}

/// Replaying a prefix reads only the edits of that prefix.
pub proof fn lemma_replay_prefix_agree(e1: Seq<DbEdit>, e2: Seq<DbEdit>, n: int)
    requires
        forall|i: int| 0 <= i < n ==> #[trigger] e1[i].diff@ == e2[i].diff@,
    ensures
        replay_prefix(e1, n) == replay_prefix(e2, n),
    decreases n,
{
    if n > 0 {
        lemma_replay_prefix_agree(e1, e2, n - 1);
    }
}

/// When a whole chain replays, so does every prefix of it.
pub proof fn lemma_replay_prefix_some(edits: Seq<DbEdit>, m: int, n: int)
    requires
        0 <= m <= n,
        replay_prefix(edits, n) is Some,
    ensures
        replay_prefix(edits, m) is Some,
    decreases n - m,
{
    if m < n {
        assert(replay_prefix(edits, n - 1) is Some);
        lemma_replay_prefix_some(edits, m, n - 1);
    }
}

/// Replaying a chain extended by one edit applies that edit's diff to the
/// replay of the chain.
pub proof fn lemma_replay_push(edits: Seq<DbEdit>, e: DbEdit)
    ensures
        replay(edits.push(e)) == (match replay(edits) {
            Some(t) => apply_patch_spec(t, e.diff@),
            None => None::<Seq<char>>,
        }),
{
    let p = edits.push(e);
    lemma_replay_prefix_agree(edits, p, edits.len() as int);
    assert(p[edits.len() as int] == e);
    assert(p.len() == edits.len() + 1);
}

/// How an inbound edit relates to an article's chain.
#[derive(Clone, Copy, PartialEq, Eq, Structural, Debug)]
pub enum ChainStatus {
    /// The edit extends the chain at its tip.
    Ready,
    /// The edit's version is not the content address of its diff.
    Mismatched,
    /// The edit's version is the root sentinel or already in the chain.
    HashInUse,
    /// The edit's parent exists but was already superseded: a fork.
    Forked,
    /// The edit's parent is unknown here: an intermediate edit is missing.
    MissingAncestor,
}

/// The pure chain check used by both the create and the apply paths.
pub open spec fn chain_status(a: DbArticle, e: DbEdit) -> ChainStatus {
    if e.hash != version_of(e.diff@) {
        ChainStatus::Mismatched
    } else if e.hash == root_version() || chain_contains(a.edits@, e.hash) {
        ChainStatus::HashInUse
    } else if e.previous_version_id == a.latest_version {
        ChainStatus::Ready
    } else if e.previous_version_id == root_version() || chain_contains(
        a.edits@,
        e.previous_version_id,
    ) {
        ChainStatus::Forked
    } else {
        ChainStatus::MissingAncestor
    }
}

/// Whether some edit of the list carries this version.
pub fn contains_version(edits: &Vec<DbEdit>, v: &EditVersion) -> (r: bool)
    ensures
        r == chain_contains(edits@, *v),
{
    let mut i: usize = 0;
    while i < edits.len()
        invariant
            0 <= i <= edits@.len(),
            forall|k: int| 0 <= k < i ==> #[trigger] edits@[k].hash != *v,
        decreases edits@.len() - i,
    {
        if edits[i].hash == *v {
            return true;
        }
        i = i + 1;
    }
    false
}

/// Validates chain continuity of an edit against an article; mutates nothing.
pub fn validate_chain(article: &DbArticle, edit: &DbEdit) -> (r: ChainStatus)
    ensures
        r == chain_status(*article, *edit),
{
    let computed = EditVersion::new(edit.diff.as_str());
    if !(edit.hash == computed) {
        return ChainStatus::Mismatched;
    }
    let root = EditVersion::root();
    if edit.hash == root || contains_version(&article.edits, &edit.hash) {
        return ChainStatus::HashInUse;
    }
    if edit.previous_version_id == article.latest_version {
        return ChainStatus::Ready;
    }
    if edit.previous_version_id == root || contains_version(
        &article.edits,
        &edit.previous_version_id,
    ) {
        return ChainStatus::Forked;
    }
    ChainStatus::MissingAncestor
}

impl DbArticle {
    /// Extends the article's chain with one validated edit: patches the text
    /// with the edit's diff, advances `latest_version`, appends the edit.
    /// Fails with `Conflict` when the edit does not extend the tip and with
    /// `PatchFailed` when the diff does not apply cleanly; either failure
    /// leaves the article untouched.
    pub fn apply_edit(&mut self, edit: &DbEdit) -> (r: Result<(), ApiError>)
        requires
            edit.article_id == old(self).id,
        ensures
            match r {
                Ok(_) => {
                    &&& chain_status(*old(self), *edit) is Ready
                    &&& apply_patch_spec(old(self).text@, edit.diff@) == Some(final(self).text@)
                    &&& final(self).edits@ == old(self).edits@.push(*edit)
                    &&& final(self).latest_version == edit.hash
                    &&& final(self).id == old(self).id
                    &&& final(self).title == old(self).title
                    &&& final(self).ap_id == old(self).ap_id
                    &&& final(self).instance == old(self).instance
                    &&& final(self).local == old(self).local
                    &&& final(self).forks == old(self).forks
                },
                Err(ApiError::Conflict) => {
                    &&& !(chain_status(*old(self), *edit) is Ready)
                    &&& *final(self) == *old(self)
                },
                Err(ApiError::PatchFailed) => {
                    &&& chain_status(*old(self), *edit) is Ready
                    &&& apply_patch_spec(old(self).text@, edit.diff@) is None
                    &&& *final(self) == *old(self)
                },
                Err(_) => false,
            },
            wf_article(*old(self)) ==> wf_article(*final(self)),
    {
        let st = validate_chain(self, edit);
        match st {
            ChainStatus::Ready => {},
            _ => {
                return Err(ApiError::Conflict);
            },
        }
        match apply_patch(self.text.as_str(), edit.diff.as_str()) {
            None => Err(ApiError::PatchFailed),
            Some(t) => {
                self.text = t;
                self.latest_version = edit.hash;
                self.edits.push(edit.duplicate());
                proof {
                    if wf_article(*old(self)) {
                        lemma_apply_preserves_wf(*old(self), *self, *edit);
                    }
                }
                Ok(())
            },
        }
    }
}

proof fn lemma_apply_preserves_wf(pre: DbArticle, post: DbArticle, e: DbEdit)
    requires
        wf_article(pre),
        chain_status(pre, e) is Ready,
        e.article_id == pre.id,
        apply_patch_spec(pre.text@, e.diff@) == Some(post.text@),
        post.edits@ == pre.edits@.push(e),
        post.latest_version == e.hash,
        post.id == pre.id,
        post.forks == pre.forks,
    ensures
        wf_article(post),
{
    let n = pre.edits@.len() as int;
    lemma_replay_push(pre.edits@, e);
    assert forall|i: int| 0 <= i < post.edits@.len() implies #[trigger] chain_edit_ok(post, i) by {
        if i < n {
            assert(chain_edit_ok(pre, i));
            assert(post.edits@[i] == pre.edits@[i]);
        } else {
            assert(post.edits@[i] == e);
            if n == 0 {
                assert(e.previous_version_id == root_version());
            } else {
                assert(e.previous_version_id == pre.edits@[n - 1].hash);
            }
        }
    }
    assert forall|i: int, j: int| 0 <= i < j < post.edits@.len() implies #[trigger] post.edits@[i].hash
        != #[trigger] post.edits@[j].hash by {
        if j < n {
        } else {
            assert(post.edits@[j] == e);
            assert(!chain_contains(pre.edits@, e.hash));
            assert(pre.edits@[i].hash != e.hash);
        }
    }
    assert(post.latest_version == chain_tip(post.edits@));
    assert(replay(post.edits@) == Some(post.text@));
    assert forall|k: int| 0 <= k < post.forks@.len() implies #[trigger] fork_edit_ok(post, k) by {
        assert(fork_edit_ok(pre, k));
        if pre.forks@[k].previous_version_id != root_version() {
            let w = choose|i: int|
                0 <= i < pre.edits@.len() && #[trigger] pre.edits@[i].hash
                    == pre.forks@[k].previous_version_id;
            assert(post.edits@[w].hash == pre.forks@[k].previous_version_id);
        }
    }
}

/// Builds a new edit against an article per the caller's baseline: fails
/// with `Conflict` on a stale baseline or a version clash, with `NoOp` when
/// the text is unchanged, and with `Malformed` when the edit's identifier is
/// not URL-shaped.
pub fn create_edit(
    article: &DbArticle,
    updated_text: &str,
    creator_id: i32,
    summary: String,
    previous_version: EditVersion,
) -> (r: Result<DbEditForm, ApiError>)
    ensures
        ({
            let d = patch_of(article.text@, updated_text@);
            let v = version_of(d);
            match r {
                Ok(f) => {
                    &&& previous_version == article.latest_version
                    &&& article.text@ != updated_text@
                    &&& url_parses(edit_ap_id(article.ap_id@, v))
                    &&& v != root_version()
                    &&& !chain_contains(article.edits@, v)
                    &&& f.diff@ == d
                    &&& apply_patch_spec(article.text@, f.diff@) == Some(updated_text@)
                    &&& f.hash == v
                    &&& f.ap_id@ == edit_ap_id(article.ap_id@, v)
                    &&& f.summary == summary
                    &&& f.creator_id == creator_id
                    &&& f.article_id == article.id
                    &&& f.previous_version_id == previous_version
                },
                Err(ApiError::Conflict) => {
                    ||| previous_version != article.latest_version
                    ||| (previous_version == article.latest_version && article.text@
                        != updated_text@ && url_parses(edit_ap_id(article.ap_id@, v)) && (v
                        == root_version() || chain_contains(article.edits@, v)))
                },
                Err(ApiError::NoOp) => {
                    &&& previous_version == article.latest_version
                    &&& article.text@ == updated_text@
                },
                Err(ApiError::Malformed) => {
                    &&& previous_version == article.latest_version
                    &&& article.text@ != updated_text@
                    &&& !url_parses(edit_ap_id(article.ap_id@, v))
                },
                Err(_) => false,
            }
        }),
{
    if !(previous_version == article.latest_version) {
        return Err(ApiError::Conflict);
    }
    let updated = String::from_str(updated_text);
    if article.text == updated {
        return Err(ApiError::NoOp);
    }
    let form = DbEditForm::new(article, creator_id, updated_text, summary, previous_version)?;
    let root = EditVersion::root();
    if form.hash == root || contains_version(&article.edits, &form.hash) {
        return Err(ApiError::Conflict);
    }
    Ok(form)
}

/// Replaying the chain from the root to `latest_version` reconstructs the
/// article's text exactly.
pub proof fn lemma_replay_reconstructs_text(a: DbArticle)
    requires
        wf_article(a),
    ensures
        replay(a.edits@) == Some(a.text@),
        a.latest_version == chain_tip(a.edits@),
{
}

/// The edit tree holds no cycle: every chain entry's parent is the entry
/// right before it (the root sentinel for the first), chain versions are
/// pairwise distinct and distinct from the root, and every fork's parent
/// resolves to the root or to a chain entry. Following parents from any node
/// thus strictly descends towards the root and can never revisit a node.
pub proof fn lemma_edit_tree_acyclic(a: DbArticle)
    requires
        wf_article(a),
    ensures
        forall|i: int|
            0 <= i < a.edits@.len() ==> (#[trigger] a.edits@[i].previous_version_id == if i == 0 {
                root_version()
            } else {
                a.edits@[i - 1].hash
            }),
        forall|i: int| 0 <= i < a.edits@.len() ==> #[trigger] a.edits@[i].hash != root_version(),
        forall|i: int, j: int|
            0 <= i < j < a.edits@.len() ==> #[trigger] a.edits@[i].hash != #[trigger] a.edits@[j].hash,
        forall|k: int|
            0 <= k < a.forks@.len() ==> (#[trigger] a.forks@[k].previous_version_id
                == root_version() || chain_contains(a.edits@, a.forks@[k].previous_version_id)),
{
    assert forall|i: int| 0 <= i < a.edits@.len() implies (#[trigger] a.edits@[i].previous_version_id
        == if i == 0 {
        root_version()
    } else {
        a.edits@[i - 1].hash
    }) by {
        assert(chain_edit_ok(a, i));
    }
    assert forall|i: int| 0 <= i < a.edits@.len() implies #[trigger] a.edits@[i].hash
        != root_version() by {
        assert(chain_edit_ok(a, i));
    }
    assert forall|k: int| 0 <= k < a.forks@.len() implies (#[trigger] a.forks@[k].previous_version_id
        == root_version() || chain_contains(a.edits@, a.forks@[k].previous_version_id)) by {
        assert(fork_edit_ok(a, k));
    }
}

/// Observational equality of two articles: every field agrees, the edit
/// lists element for element.
pub open spec fn article_like(a: DbArticle, b: DbArticle) -> bool {
    &&& a.id == b.id
    &&& a.title == b.title
    &&& a.text == b.text
    &&& a.ap_id == b.ap_id
    &&& a.latest_version == b.latest_version
    &&& a.edits@ == b.edits@
    &&& a.forks@ == b.forks@
    &&& a.instance == b.instance
    &&& a.local == b.local
}

/// An exact copy of a list of edits.
pub fn duplicate_edits(v: &Vec<DbEdit>) -> (r: Vec<DbEdit>)
    ensures
        r@ == v@,
{
    let mut r: Vec<DbEdit> = Vec::new();
    let mut i: usize = 0;
    while i < v.len()
        invariant
            0 <= i <= v@.len(),
            r@ == v@.subrange(0, i as int),
        decreases v@.len() - i,
    {
        r.push(v[i].duplicate());
        proof {
            assert(r@ =~= v@.subrange(0, i + 1 as int));
        }
        i = i + 1;
    }
    proof {
        assert(v@.subrange(0, v@.len() as int) =~= v@);
    }
    r
}

impl DbArticle {
    /// Records an inbound edit whose parent was already superseded as a
    /// flagged sibling branch, kept for audit beside the applied chain.
    pub fn record_fork(&mut self, edit: &DbEdit)
        requires
            edit.article_id == old(self).id,
            chain_status(*old(self), *edit) is Forked,
        ensures
            final(self).forks@ == old(self).forks@.push(*edit),
            final(self).edits == old(self).edits,
            final(self).id == old(self).id,
            final(self).title == old(self).title,
            final(self).text == old(self).text,
            final(self).ap_id == old(self).ap_id,
            final(self).latest_version == old(self).latest_version,
            final(self).instance == old(self).instance,
            final(self).local == old(self).local,
            wf_article(*old(self)) ==> wf_article(*final(self)),
    {
        self.forks.push(edit.duplicate());
        proof {
            if wf_article(*old(self)) {
                let n = old(self).forks@.len() as int;
                assert forall|k: int| 0 <= k < self.forks@.len() implies #[trigger] fork_edit_ok(
                    *self,
                    k,
                ) by {
                    if k < n {
                        assert(fork_edit_ok(*old(self), k));
                        assert(self.forks@[k] == old(self).forks@[k]);
                    } else {
                        assert(self.forks@[k] == *edit);
                    }
                }
                assert forall|i: int| 0 <= i < self.edits@.len() implies #[trigger] chain_edit_ok(
                    *self,
                    i,
                ) by {
                    assert(chain_edit_ok(*old(self), i));
                }
            }
        }
    }

    /// An exact copy; unlike a derived clone, its contract says so.
    pub fn duplicate(&self) -> (r: Self)
        ensures
            article_like(r, *self),
    {
        DbArticle {
            id: self.id,
            title: self.title.clone(),
            text: self.text.clone(),
            ap_id: self.ap_id.clone(),
            latest_version: self.latest_version,
            edits: duplicate_edits(&self.edits),
            forks: duplicate_edits(&self.forks),
            instance: self.instance.clone(),
            local: self.local,
        }
    }
}

} // verus!
