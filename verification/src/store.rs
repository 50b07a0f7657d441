//! The owned article/edit/instance store: the one shared mutable state of
//! an instance, addressed by numeric ordinal, content hash or global
//! identifier. The caller guards it with its own mutual exclusion and keeps
//! network I/O outside any critical section on it.
use crate::activity::UpdateActivity;
use crate::article::article_like;
use crate::article::chain_contains;
use crate::article::chain_status;
use crate::article::chain_tip;
use crate::article::duplicate_edits;
use crate::article::lemma_replay_prefix_agree;
use crate::article::lemma_replay_prefix_some;
use crate::article::replay;
use crate::article::replay_prefix;
use crate::article::wf_article;
use crate::article::ChainStatus;
use crate::article::DbArticle;
use crate::version::root_version;
use crate::version::version_of;
use crate::diff::apply_patch_spec;
use crate::edit::DbEdit;
use crate::edit::DbEditForm;
use crate::error::ApiError;
use crate::ids::check_url;
use crate::ids::url_parses;
use crate::instance::instance_like;
use crate::instance::unique_members;
use crate::instance::unique_targets;
use crate::instance::DbInstance;
use crate::version::EditVersion;
use vstd::prelude::*;
use vstd::string::StrSliceExecFns;
use vstd::string::StringExecFns;

verus! {

/// The shared state of one instance.
pub struct Store {
    /// This instance's own identity and registry.
    pub local_instance: DbInstance,
    /// Known remote peers.
    pub instances: Vec<DbInstance>,
    /// Local articles and cached mirrors.
    pub articles: Vec<DbArticle>,
    /// Inbound updates waiting for a missing ancestor.
    pub pending: Vec<UpdateActivity>,
    /// The next storage-assigned article ordinal.
    pub next_article_id: i32,
}

/// Whether some cached peer carries this global identifier.
pub open spec fn has_instance(instances: Seq<DbInstance>, id: Seq<char>) -> bool {
    exists|j: int| 0 <= j < instances.len() && (#[trigger] instances[j]).ap_id@ == id
}

/// Whether some article carries this global identifier.
pub open spec fn has_article(articles: Seq<DbArticle>, id: Seq<char>) -> bool {
    exists|j: int| 0 <= j < articles.len() && #[trigger] articles[j].ap_id@ == id
}

/// Whether some article carries this title.
pub open spec fn has_article_title(articles: Seq<DbArticle>, t: Seq<char>) -> bool {
    exists|j: int| 0 <= j < articles.len() && #[trigger] articles[j].title@ == t
}

/// No two articles share a global identifier.
pub open spec fn unique_ap_ids(articles: Seq<DbArticle>) -> bool {
    forall|j1: int, j2: int|
        0 <= j1 < j2 < articles.len() ==> #[trigger] articles[j1].ap_id@ != #[trigger] articles[j2].ap_id@
}

/// Well-formedness of the store: articles are well-formed with distinct
/// identifiers and distinct ordinals below the counter, and the follow
/// registry holds no duplicate edges.
pub open spec fn wf_store(s: Store) -> bool {
    &&& unique_ap_ids(s.articles@)
    &&& forall|j: int| 0 <= j < s.articles@.len() ==> wf_article(#[trigger] s.articles@[j])
    &&& forall|j: int| 0 <= j < s.articles@.len() ==> (#[trigger] s.articles@[j].id) < s.next_article_id
    &&& forall|j1: int, j2: int|
        0 <= j1 < j2 < s.articles@.len() ==> #[trigger] s.articles@[j1].id != #[trigger] s.articles@[j2].id
    &&& unique_targets(s.local_instance.follows@)
    &&& unique_members(s.local_instance.followers@)
}

/// Finds the article carrying a global identifier.
pub fn find_article_idx(articles: &Vec<DbArticle>, ap_id: &String) -> (r: Option<usize>)
    ensures
        match r {
            Some(j) => j < articles@.len() && articles@[j as int].ap_id@ == ap_id@,
            None => !has_article(articles@, ap_id@),
        },
{
    let mut j: usize = 0;
    while j < articles.len()
        invariant
            0 <= j <= articles@.len(),
            forall|k: int| 0 <= k < j ==> #[trigger] articles@[k].ap_id@ != ap_id@,
        decreases articles@.len() - j,
    {
        if articles[j].ap_id == *ap_id {
            return Some(j);
        }
        j = j + 1;
    }
    None
}

/// Finds an article by title.
pub fn find_article_idx_by_title(articles: &Vec<DbArticle>, title: &String) -> (r: Option<usize>)
    ensures
        match r {
            Some(j) => j < articles@.len() && articles@[j as int].title@ == title@,
            None => !has_article_title(articles@, title@),
        },
{
    let mut j: usize = 0;
    while j < articles.len()
        invariant
            0 <= j <= articles@.len(),
            forall|k: int| 0 <= k < j ==> #[trigger] articles@[k].title@ != title@,
        decreases articles@.len() - j,
    {
        if articles[j].title == *title {
            return Some(j);
        }
        j = j + 1;
    }
    None
}

/// Finds an article by its local ordinal.
pub fn find_article_idx_by_id(articles: &Vec<DbArticle>, id: i32) -> (r: Option<usize>)
    ensures
        match r {
            Some(j) => j < articles@.len() && articles@[j as int].id == id,
            None => forall|k: int| 0 <= k < articles@.len() ==> #[trigger] articles@[k].id != id,
        },
{
    let mut j: usize = 0;
    while j < articles.len()
        invariant
            0 <= j <= articles@.len(),
            forall|k: int| 0 <= k < j ==> #[trigger] articles@[k].id != id,
        decreases articles@.len() - j,
    {
        if articles[j].id == id {
            return Some(j);
        }
        j = j + 1;
    }
    None
}

/// Whether some edit of the list carries this global identifier.
pub open spec fn has_edit_ap(edits: Seq<DbEdit>, id: Seq<char>) -> bool {
    exists|k: int| 0 <= k < edits.len() && #[trigger] edits[k].ap_id@ == id
}

/// Finds an edit by global identifier.
pub fn find_edit_by_ap_id(edits: &Vec<DbEdit>, id: &String) -> (r: Option<usize>)
    ensures
        match r {
            Some(k) => k < edits@.len() && edits@[k as int].ap_id@ == id@,
            None => !has_edit_ap(edits@, id@),
        },
{
    let mut k: usize = 0;
    while k < edits.len()
        invariant
            0 <= k <= edits@.len(),
            forall|i: int| 0 <= i < k ==> #[trigger] edits@[i].ap_id@ != id@,
        decreases edits@.len() - k,
    {
        if edits[k].ap_id == *id {
            return Some(k);
        }
        k = k + 1;
    }
    None
}

/// Finds an edit by version.
pub fn find_edit_by_version(edits: &Vec<DbEdit>, v: &EditVersion) -> (r: Option<usize>)
    ensures
        match r {
            Some(k) => k < edits@.len() && edits@[k as int].hash == *v,
            None => !crate::article::chain_contains(edits@, *v),
        },
{
    let mut k: usize = 0;
    while k < edits.len()
        invariant
            0 <= k <= edits@.len(),
            forall|i: int| 0 <= i < k ==> #[trigger] edits@[i].hash != *v,
        decreases edits@.len() - k,
    {
        if edits[k].hash == *v {
            return Some(k);
        }
        k = k + 1;
    }
    None
}

/// Whether an identifier starts with a prefix.
pub fn string_starts_with(s: &String, prefix: &String) -> (r: bool)
    ensures
        r == (s@.len() >= prefix@.len() && s@.subrange(0, prefix@.len() as int) == prefix@),
{
    let s_ref: &str = s.as_str();
    let p_ref: &str = prefix.as_str();
    let n = p_ref.unicode_len();
    let m = s_ref.unicode_len();
    if m < n {
        return false;
    }
    let mut i: usize = 0;
    while i < n
        invariant
            0 <= i <= n,
            n == prefix@.len(),
            m == s@.len(),
            m >= n,
            s_ref@ == s@,
            p_ref@ == prefix@,
            forall|k: int| 0 <= k < i ==> s@[k] == prefix@[k],
        decreases n - i,
    {
        if !(s_ref.get_char(i) == p_ref.get_char(i)) {
            return false;
        }
        i = i + 1;
    }
    proof {
        assert(s@.subrange(0, prefix@.len() as int) =~= prefix@);
    }
    true
}

impl Store {
    /// A fresh store for an instance with the given identity.
    pub fn new(local_ap_id: String, domain: String) -> (s: Store)
        ensures
            wf_store(s),
            s.local_instance.ap_id == local_ap_id,
            s.local_instance.domain == domain,
            s.local_instance.followers@.len() == 0,
            s.local_instance.follows@.len() == 0,
            s.instances@.len() == 0,
            s.articles@.len() == 0,
            s.pending@.len() == 0,
    {
        Store {
            local_instance: DbInstance {
                ap_id: local_ap_id,
                domain,
                followers: Vec::new(),
                follows: Vec::new(),
            },
            instances: Vec::new(),
            articles: Vec::new(),
            pending: Vec::new(),
            next_article_id: 0,
        }
    }

    /// This instance's own identity.
    pub fn local_instance(&self) -> (r: DbInstance)
        ensures
            instance_like(r, self.local_instance),
    {
        self.local_instance.duplicate()
    }

    /// Direct storage lookup of an article by global identifier; never
    /// performs network I/O. Fails with `NotFound` exactly when no article
    /// carries the identifier.
    pub fn resolve_local_article(&self, id: &String) -> (r: Result<DbArticle, ApiError>)
        ensures
            match r {
                Ok(a) => exists|j: int|
                    0 <= j < self.articles@.len() && #[trigger] self.articles@[j].ap_id@ == id@
                        && article_like(a, self.articles@[j]),
                Err(e) => e == ApiError::NotFound && !has_article(self.articles@, id@),
            },
    {
        match find_article_idx(&self.articles, id) {
            Some(j) => Ok(self.articles[j].duplicate()),
            None => Err(ApiError::NotFound),
        }
    }

    /// Direct storage lookup of an instance by global identifier; the local
    /// instance resolves too. Fails with `NotFound` exactly when the
    /// identifier is unknown.
    pub fn resolve_local_instance(&self, id: &String) -> (r: Result<DbInstance, ApiError>)
        ensures
            match r {
                Ok(inst) => {
                    ||| (self.local_instance.ap_id@ == id@ && instance_like(
                        inst,
                        self.local_instance,
                    ))
                    ||| exists|j: int|
                        0 <= j < self.instances@.len() && #[trigger] self.instances@[j].ap_id@
                            == id@ && instance_like(inst, self.instances@[j])
                },
                Err(e) => {
                    &&& e == ApiError::NotFound
                    &&& self.local_instance.ap_id@ != id@
                    &&& forall|j: int|
                        0 <= j < self.instances@.len() ==> #[trigger] self.instances@[j].ap_id@
                            != id@
                },
            },
    {
        if self.local_instance.ap_id == *id {
            return Ok(self.local_instance.duplicate());
        }
        let mut j: usize = 0;
        while j < self.instances.len()
            invariant
                0 <= j <= self.instances@.len(),
                forall|k: int| 0 <= k < j ==> #[trigger] self.instances@[k].ap_id@ != id@,
            decreases self.instances@.len() - j,
        {
            if self.instances[j].ap_id == *id {
                return Ok(self.instances[j].duplicate());
            }
            j = j + 1;
        }
        Err(ApiError::NotFound)
    }

    /// Whether a global identifier belongs to this instance.
    pub fn owns_id(&self, id: &String) -> (r: bool)
        ensures
            r == (id@.len() >= self.local_instance.ap_id@.len() && id@.subrange(
                0,
                self.local_instance.ap_id@.len() as int,
            ) == self.local_instance.ap_id@),
    {
        string_starts_with(id, &self.local_instance.ap_id)
    }

    /// Registers a remote peer if unknown; idempotent: a known identifier
    /// leaves the peer cache as it is and returns the cached entry, a fresh
    /// one is appended with the given domain and empty registries.
    pub fn cache_remote_instance(&mut self, ap_id: &String, domain: &String) -> (r: DbInstance)
        ensures
            final(self).local_instance == old(self).local_instance,
            final(self).articles == old(self).articles,
            final(self).pending == old(self).pending,
            final(self).next_article_id == old(self).next_article_id,
            r.ap_id@ == ap_id@,
            if has_instance(old(self).instances@, ap_id@) {
                &&& final(self).instances == old(self).instances
                &&& exists|j: int|
                    0 <= j < old(self).instances@.len() && (#[trigger] old(
                        self,
                    ).instances@[j]).ap_id@ == ap_id@ && instance_like(r, old(self).instances@[j])
            } else {
                &&& final(self).instances@ == old(self).instances@.push(
                    final(self).instances@.last(),
                )
                &&& final(self).instances@.last().ap_id@ == ap_id@
                &&& final(self).instances@.last().domain@ == domain@
                &&& final(self).instances@.last().followers@.len() == 0
                &&& final(self).instances@.last().follows@.len() == 0
                &&& instance_like(r, final(self).instances@.last())
            },
            wf_store(*old(self)) ==> wf_store(*final(self)),
    {
        let mut j: usize = 0;
        while j < self.instances.len()
            invariant
                0 <= j <= self.instances@.len(),
                forall|k: int| 0 <= k < j ==> (#[trigger] self.instances@[k]).ap_id@ != ap_id@,
                *self == *old(self),
            decreases self.instances@.len() - j,
        {
            if self.instances[j].ap_id == *ap_id {
                proof {
                    assert(self.instances@[j as int].ap_id@ == ap_id@);
                }
                return self.instances[j].duplicate();
            }
            j = j + 1;
        }
        let inst = DbInstance {
            ap_id: ap_id.clone(),
            domain: domain.clone(),
            followers: Vec::new(),
            follows: Vec::new(),
        };
        let r = inst.duplicate();
        self.instances.push(inst);
        proof {
            assert(self.instances@.last() == self.instances@[old(self).instances@.len() as int]);
            assert(self.instances@ =~= old(self).instances@.push(self.instances@.last()));
        }
        r
    }

    /// Validates and caches the representation of a remote article: replays
    /// its claimed edit chain from the empty text through the version chain
    /// and accepts the mirror only when every edit links, carries the
    /// content address of its diff, and the replay reconstructs the claimed
    /// text; anything else fails with `UntrustedSource`. Caching an already
    /// known identifier returns the cached mirror unchanged.
    pub fn cache_remote_article(
        &mut self,
        ap_id: &String,
        title: &String,
        text: &String,
        instance_ap_id: &String,
        edits: &Vec<DbEdit>,
    ) -> (r: Result<DbArticle, ApiError>)
        ensures
            wf_store(*old(self)) ==> wf_store(*final(self)),
            final(self).local_instance == old(self).local_instance,
            final(self).instances == old(self).instances,
            final(self).pending == old(self).pending,
            has_article(old(self).articles@, ap_id@) ==> *final(self) == *old(self) && r is Ok,
            (!has_article(old(self).articles@, ap_id@) && old(self).next_article_id < i32::MAX
                && candidate_chain_ok(edits@, text@)) ==> r is Ok,
            match r {
                Ok(a) => {
                    &&& a.ap_id@ == ap_id@
                    &&& has_article(final(self).articles@, ap_id@)
                    &&& (has_article(old(self).articles@, ap_id@) ==> exists|j: int|
                        0 <= j < old(self).articles@.len() && (#[trigger] old(
                            self,
                        ).articles@[j]).ap_id@ == ap_id@ && article_like(a, old(self).articles@[j]))
                    &&& (!has_article(old(self).articles@, ap_id@) ==> {
                        &&& final(self).articles@ == old(self).articles@.push(
                            final(self).articles@.last(),
                        )
                        &&& article_like(a, final(self).articles@.last())
                        &&& wf_article(final(self).articles@.last())
                        &&& !final(self).articles@.last().local
                        &&& final(self).articles@.last().text@ == text@
                        &&& final(self).articles@.last().title == *title
                        &&& final(self).articles@.last().instance == *instance_ap_id
                        &&& chain_matches(final(self).articles@.last().edits@, edits@)
                    })
                },
                Err(e) => {
                    &&& store_like(*final(self), *old(self))
                    &&& !has_article(old(self).articles@, ap_id@)
                    &&& (e == ApiError::UntrustedSource || e == ApiError::Conflict)
                },
            },
    {
        if let Some(j) = find_article_idx(&self.articles, ap_id) {
            proof {
                assert(self.articles@[j as int].ap_id@ == ap_id@);
            }
            return Ok(self.articles[j].duplicate());
        }
        if self.next_article_id == i32::MAX {
            // The ordinal space is exhausted; refuse rather than reuse.
            return Err(ApiError::Conflict);
        }
        let id = self.next_article_id;
        let mut art = DbArticle {
            id,
            title: title.clone(),
            text: String::from_str(""),
            ap_id: ap_id.clone(),
            latest_version: EditVersion::root(),
            edits: Vec::new(),
            forks: Vec::new(),
            instance: instance_ap_id.clone(),
            local: false,
        };
        proof {
            reveal_strlit("");
            assert(""@ =~= Seq::<char>::empty());
            assert(wf_article(art));
        }
        let mut k: usize = 0;
        while k < edits.len()
            invariant
                !has_article(old(self).articles@, ap_id@),
                wf_article(art),
                art.id == id,
                art.ap_id@ == ap_id@,
                art.title == *title,
                art.instance == *instance_ap_id,
                !art.local,
                0 <= k <= edits@.len(),
                chain_matches(art.edits@, edits@.subrange(0, k as int)),
                *self == *old(self),
            decreases edits@.len() - k,
        {
            let src = &edits[k];
            let e = DbEdit {
                hash: src.hash,
                ap_id: src.ap_id.clone(),
                diff: src.diff.clone(),
                summary: src.summary.clone(),
                creator_id: src.creator_id,
                article_id: id,
                previous_version_id: src.previous_version_id,
                created: src.created,
            };
            match art.apply_edit(&e) {
                Ok(_) => {},
                Err(_) => {
                    proof {
                        if candidate_chain_ok(edits@, text@) {
                            assert(edit_matches(e, edits@[k as int]));
                            lemma_candidate_step(art, edits@, text@, k as int, e);
                        }
                    }
                    return Err(ApiError::UntrustedSource);
                },
            }
            proof {
                assert(art.edits@.last() == e);
                assert(edits@.subrange(0, k + 1 as int).last() == edits@[k as int]);
                assert forall|i: int| 0 <= i < k + 1 implies edit_matches(
                    art.edits@[i],
                    edits@.subrange(0, k + 1 as int)[i],
                ) by {
                    if i < k {
                        assert(edit_matches(art.edits@[i], edits@.subrange(0, k as int)[i]));
                    }
                }
            }
            k = k + 1;
        }
        proof {
            assert(edits@.subrange(0, edits@.len() as int) =~= edits@);
            if candidate_chain_ok(edits@, text@) {
                assert forall|i: int| 0 <= i < edits@.len() implies #[trigger] art.edits@[i].diff@
                    == edits@[i].diff@ by {
                    assert(edit_matches(art.edits@[i], edits@[i]));
                }
                lemma_replay_prefix_agree(art.edits@, edits@, edits@.len() as int);
                assert(replay(art.edits@) == Some(text@));
                assert(art.text@ == text@);
            }
        }
        if !(art.text == *text) {
            return Err(ApiError::UntrustedSource);
        }
        let r = art.duplicate();
        self.articles.push(art);
        self.next_article_id = id + 1;
        proof {
            let n = old(self).articles@.len() as int;
            assert(self.articles@[n].ap_id@ == ap_id@);
            assert(self.articles@ =~= old(self).articles@.push(self.articles@.last()));
            if wf_store(*old(self)) {
                assert forall|j1: int, j2: int| 0 <= j1 < j2 < self.articles@.len() implies #[trigger] self.articles@[j1].ap_id@
                    != #[trigger] self.articles@[j2].ap_id@ by {
                    if j2 == n {
                        assert(!has_article(old(self).articles@, ap_id@));
                    }
                }
            }
        }
        Ok(r)
    }
}

/// A sound candidate chain for a remote article: linked from the root,
/// content-addressed, with distinct versions none of which is the root
/// sentinel, and replaying it from the empty text yields the claimed text.
pub open spec fn candidate_chain_ok(cand: Seq<DbEdit>, text: Seq<char>) -> bool {
    &&& forall|i: int|
        0 <= i < cand.len() ==> (#[trigger] cand[i]).previous_version_id == (if i == 0 {
            root_version()
        } else {
            cand[i - 1].hash
        })
    &&& forall|i: int|
        0 <= i < cand.len() ==> (#[trigger] cand[i]).hash == version_of(cand[i].diff@) && cand[
            i
        ].hash != root_version()
    &&& forall|i: int, j: int|
        0 <= i < j < cand.len() ==> (#[trigger] cand[i]).hash != (#[trigger] cand[j]).hash
    &&& replay(cand) == Some(text)
}

/// One step of replaying a sound candidate chain through the version chain
/// is accepted and its diff applies.
proof fn lemma_candidate_step(art: DbArticle, cand: Seq<DbEdit>, text: Seq<char>, k: int, e: DbEdit)
    requires
        candidate_chain_ok(cand, text),
        wf_article(art),
        chain_matches(art.edits@, cand.subrange(0, k)),
        0 <= k < cand.len(),
        edit_matches(e, cand[k]),
    ensures
        chain_status(art, e) is Ready,
        apply_patch_spec(art.text@, e.diff@) is Some,
{
    let prefix = cand.subrange(0, k);
    assert(e.hash == cand[k].hash);
    assert(e.diff@ == cand[k].diff@);
    assert(e.hash == version_of(e.diff@));
    assert(e.hash != root_version());
    assert forall|i: int| 0 <= i < art.edits@.len() implies #[trigger] art.edits@[i].hash
        != e.hash by {
        assert(edit_matches(art.edits@[i], prefix[i]));
        assert(art.edits@[i].hash == cand[i].hash);
    }
    assert(!chain_contains(art.edits@, e.hash));
    if k == 0 {
        assert(art.edits@.len() == 0);
        assert(art.latest_version == chain_tip(art.edits@));
        assert(e.previous_version_id == root_version());
    } else {
        assert(edit_matches(art.edits@[k - 1], prefix[k - 1]));
        assert(art.edits@.last().hash == cand[k - 1].hash);
        assert(e.previous_version_id == cand[k - 1].hash);
        assert(art.latest_version == chain_tip(art.edits@));
    }
    assert(chain_status(art, e) is Ready);
    assert forall|i: int| 0 <= i < k implies #[trigger] art.edits@[i].diff@ == cand[i].diff@ by {
        assert(edit_matches(art.edits@[i], prefix[i]));
    }
    lemma_replay_prefix_agree(art.edits@, cand, k);
    assert(replay_prefix(cand, k) == Some(art.text@));
    lemma_replay_prefix_some(cand, k + 1, cand.len() as int);
    assert(replay_prefix(cand, k + 1) == apply_patch_spec(art.text@, cand[k].diff@));
}

/// One stored edit carries the same change as one candidate edit; only the
/// owning article's ordinal is rebound.
pub open spec fn edit_matches(stored: DbEdit, given: DbEdit) -> bool {
    &&& stored.hash == given.hash
    &&& stored.ap_id == given.ap_id
    &&& stored.diff == given.diff
    &&& stored.summary == given.summary
    &&& stored.creator_id == given.creator_id
    &&& stored.previous_version_id == given.previous_version_id
    &&& stored.created == given.created
}

/// A stored chain carries exactly the candidate edits, in order.
pub open spec fn chain_matches(stored: Seq<DbEdit>, given: Seq<DbEdit>) -> bool {
    stored.len() == given.len() && forall|i: int|
        0 <= i < stored.len() ==> #[trigger] edit_matches(stored[i], given[i])
}

/// Observational equality of two stores.
pub open spec fn store_like(a: Store, b: Store) -> bool {
    &&& instance_like(a.local_instance, b.local_instance)
    &&& a.instances@ == b.instances@
    &&& a.articles@ == b.articles@
    &&& a.pending@ == b.pending@
    &&& a.next_article_id == b.next_article_id
}

/// Whether an article already holds an edit with this global identifier,
/// applied or flagged.
pub open spec fn edit_known(a: DbArticle, id: Seq<char>) -> bool {
    has_edit_ap(a.edits@, id) || has_edit_ap(a.forks@, id)
}

/// The edit a persisted form becomes.
pub open spec fn edit_of_form(f: DbEditForm) -> DbEdit {
    DbEdit {
        hash: f.hash,
        ap_id: f.ap_id,
        diff: f.diff,
        summary: f.summary,
        creator_id: f.creator_id,
        article_id: f.article_id,
        previous_version_id: f.previous_version_id,
        created: f.created,
    }
}

/// What applying one edit at the chain's tip does to an article.
pub open spec fn article_advanced(pre: DbArticle, post: DbArticle, e: DbEdit) -> bool {
    &&& apply_patch_spec(pre.text@, e.diff@) == Some(post.text@)
    &&& post.edits@ == pre.edits@.push(e)
    &&& post.latest_version == e.hash
    &&& post.id == pre.id
    &&& post.title == pre.title
    &&& post.ap_id == pre.ap_id
    &&& post.instance == pre.instance
    &&& post.local == pre.local
    &&& post.forks == pre.forks
}

impl DbEdit {
    /// Persists one edit: an idempotent upsert keyed by the edit's global
    /// identifier. A known identifier returns the stored edit unchanged;
    /// a fresh one must extend its article's chain at the tip, advancing
    /// text and `latest_version`. Fails with `NotFound` for an unknown
    /// article ordinal, `Conflict` when the edit does not extend the tip,
    /// and `PatchFailed` when its diff does not apply.
    pub fn create(form: &DbEditForm, store: &mut Store) -> (r: Result<DbEdit, ApiError>)
        ensures
            wf_store(*old(store)) ==> wf_store(*final(store)),
            instance_like(final(store).local_instance, old(store).local_instance),
            final(store).instances@ == old(store).instances@,
            final(store).pending@ == old(store).pending@,
            final(store).next_article_id == old(store).next_article_id,
            match r {
                Ok(e) => exists|j: int|
                    0 <= j < old(store).articles@.len() && (#[trigger] old(store).articles@[j].id)
                        == form.article_id && ({
                        let a = old(store).articles@[j];
                        if edit_known(a, form.ap_id@) {
                            &&& store_like(*final(store), *old(store))
                            &&& e.ap_id@ == form.ap_id@
                            &&& ((exists|k: int|
                                0 <= k < a.edits@.len() && e == #[trigger] a.edits@[k]) || (exists|
                                k: int,
                            |
                                0 <= k < a.forks@.len() && e == #[trigger] a.forks@[k]))
                        } else {
                            &&& e == edit_of_form(*form)
                            &&& chain_status(a, e) is Ready
                            &&& final(store).articles@ == old(store).articles@.update(
                                j,
                                final(store).articles@[j],
                            )
                            &&& article_advanced(a, final(store).articles@[j], e)
                        }
                    }),
                Err(ApiError::NotFound) => {
                    &&& forall|j: int|
                        0 <= j < old(store).articles@.len() ==> (#[trigger] old(
                            store,
                        ).articles@[j].id) != form.article_id
                    &&& store_like(*final(store), *old(store))
                },
                Err(ApiError::Conflict) => {
                    &&& store_like(*final(store), *old(store))
                    &&& exists|j: int|
                        0 <= j < old(store).articles@.len() && (#[trigger] old(
                            store,
                        ).articles@[j].id) == form.article_id && !edit_known(
                            old(store).articles@[j],
                            form.ap_id@,
                        ) && !(chain_status(old(store).articles@[j], edit_of_form(*form)) is Ready)
                },
                Err(ApiError::PatchFailed) => {
                    &&& store_like(*final(store), *old(store))
                    &&& exists|j: int|
                        0 <= j < old(store).articles@.len() && (#[trigger] old(
                            store,
                        ).articles@[j].id) == form.article_id && !edit_known(
                            old(store).articles@[j],
                            form.ap_id@,
                        ) && chain_status(old(store).articles@[j], edit_of_form(*form)) is Ready
                            && apply_patch_spec(old(store).articles@[j].text@, form.diff@) is None
                },
                Err(_) => false,
            },
    {
        let j = match find_article_idx_by_id(&store.articles, form.article_id) {
            None => {
                return Err(ApiError::NotFound);
            },
            Some(j) => j,
        };
        if let Some(k) = find_edit_by_ap_id(&store.articles[j].edits, &form.ap_id) {
            return Ok(store.articles[j].edits[k].duplicate());
        }
        if let Some(k) = find_edit_by_ap_id(&store.articles[j].forks, &form.ap_id) {
            return Ok(store.articles[j].forks[k].duplicate());
        }
        let e = DbEdit {
            hash: form.hash,
            ap_id: form.ap_id.clone(),
            diff: form.diff.clone(),
            summary: form.summary.clone(),
            creator_id: form.creator_id,
            article_id: form.article_id,
            previous_version_id: form.previous_version_id,
            created: form.created,
        };
        let result = {
            let a = &mut store.articles[j];
            a.apply_edit(&e)
        };
        match result {
            Ok(_) => {
                proof {
                    if wf_store(*old(store)) {
                        assert forall|j1: int, j2: int| 0 <= j1 < j2 < store.articles@.len() implies #[trigger] store.articles@[j1].ap_id@
                            != #[trigger] store.articles@[j2].ap_id@ by {
                            assert(old(store).articles@[j1].ap_id@
                                != old(store).articles@[j2].ap_id@);
                        }
                    }
                }
                Ok(e)
            },
            Err(err) => {
                proof {
                    assert(store.articles@ =~= old(store).articles@);
                }
                Err(err)
            },
        }
    }

    /// Looks an edit up by version: the result is one of the stored edits,
    /// returned as it stands. Fails with `NotFound` exactly when no article
    /// holds the version.
    pub fn read(version: &EditVersion, store: &Store) -> (r: Result<DbEdit, ApiError>)
        ensures
            match r {
                Ok(e) => e.hash == *version && exists|j: int, k: int|
                    #![trigger store.articles@[j].edits@[k]]
                    #![trigger store.articles@[j].forks@[k]]
                    0 <= j < store.articles@.len() && ({
                        let a = store.articles@[j];
                        ||| (0 <= k < a.edits@.len() && e == a.edits@[k])
                        ||| (0 <= k < a.forks@.len() && e == a.forks@[k])
                    }),
                Err(err) => {
                    &&& err == ApiError::NotFound
                    &&& forall|j: int|
                        0 <= j < store.articles@.len() ==> !chain_contains(
                            (#[trigger] store.articles@[j]).edits@,
                            *version,
                        ) && !chain_contains(store.articles@[j].forks@, *version)
                },
            },
    {
        let mut j: usize = 0;
        while j < store.articles.len()
            invariant
                0 <= j <= store.articles@.len(),
                forall|i: int|
                    0 <= i < j ==> !chain_contains(
                        (#[trigger] store.articles@[i]).edits@,
                        *version,
                    ) && !chain_contains(store.articles@[i].forks@, *version),
            decreases store.articles@.len() - j,
        {
            if let Some(k) = find_edit_by_version(&store.articles[j].edits, version) {
                return Ok(store.articles[j].edits[k].duplicate());
            }
            if let Some(k) = find_edit_by_version(&store.articles[j].forks, version) {
                return Ok(store.articles[j].forks[k].duplicate());
            }
            j = j + 1;
        }
        Err(ApiError::NotFound)
    }

    /// Looks an edit up by global identifier: the result is one of the
    /// stored edits, returned as it stands. Fails with `NotFound` exactly
    /// when no article holds the identifier.
    pub fn read_from_ap_id(ap_id: &String, store: &Store) -> (r: Result<DbEdit, ApiError>)
        ensures
            match r {
                Ok(e) => e.ap_id@ == ap_id@ && exists|j: int, k: int|
                    #![trigger store.articles@[j].edits@[k]]
                    #![trigger store.articles@[j].forks@[k]]
                    0 <= j < store.articles@.len() && ({
                        let a = store.articles@[j];
                        ||| (0 <= k < a.edits@.len() && e == a.edits@[k])
                        ||| (0 <= k < a.forks@.len() && e == a.forks@[k])
                    }),
                Err(err) => {
                    &&& err == ApiError::NotFound
                    &&& forall|j: int|
                        0 <= j < store.articles@.len() ==> !edit_known(
                            #[trigger] store.articles@[j],
                            ap_id@,
                        )
                },
            },
    {
        let mut j: usize = 0;
        while j < store.articles.len()
            invariant
                0 <= j <= store.articles@.len(),
                forall|i: int|
                    0 <= i < j ==> !edit_known(#[trigger] store.articles@[i], ap_id@),
            decreases store.articles@.len() - j,
        {
            if let Some(k) = find_edit_by_ap_id(&store.articles[j].edits, ap_id) {
                return Ok(store.articles[j].edits[k].duplicate());
            }
            if let Some(k) = find_edit_by_ap_id(&store.articles[j].forks, ap_id) {
                return Ok(store.articles[j].forks[k].duplicate());
            }
            j = j + 1;
        }
        Err(ApiError::NotFound)
    }

    /// All stored edits of an article, the applied chain first, then the
    /// flagged forks; fails with `NotFound` for an unknown article ordinal.
    pub fn read_for_article(article: &DbArticle, store: &Store) -> (r: Result<Vec<DbEdit>, ApiError>)
        ensures
            match r {
                Ok(v) => exists|j: int|
                    0 <= j < store.articles@.len() && (#[trigger] store.articles@[j].id)
                        == article.id && v@ == store.articles@[j].edits@ + store.articles@[j].forks@,
                Err(err) => {
                    &&& err == ApiError::NotFound
                    &&& forall|j: int|
                        0 <= j < store.articles@.len() ==> (#[trigger] store.articles@[j].id)
                            != article.id
                },
            },
    {
        let j = match find_article_idx_by_id(&store.articles, article.id) {
            None => {
                return Err(ApiError::NotFound);
            },
            Some(j) => j,
        };
        let mut r = duplicate_edits(&store.articles[j].edits);
        let mut f = duplicate_edits(&store.articles[j].forks);
        r.append(&mut f);
        Ok(r)
    }
}

} // verus!
