//! Federation peers and the follow registry.
//!
//! A follow relation is a directed edge between instances, idempotent to
//! create: asking twice leaves exactly one relation. A relation is tentative
//! until the target's Accept activity arrives; deliveries are attempted
//! either way (at-least-once semantics).
use vstd::prelude::*;

verus! {

/// A directed follow edge, tentative until accepted.
#[derive(Clone, Debug)]
pub struct FollowRelation {
    /// The followed instance's identifier.
    pub target: String,
    /// Whether the target's Accept activity has arrived.
    pub accepted: bool,
}

/// A federation peer.
#[derive(Clone, Debug)]
pub struct DbInstance {
    /// Global identifier, unique.
    pub ap_id: String,
    /// Where the instance is reachable.
    pub domain: String,
    /// Instances that receive this instance's activities.
    pub followers: Vec<String>,
    /// Instances this one follows.
    pub follows: Vec<FollowRelation>,
}

/// Whether some relation of the list points at this target.
pub open spec fn has_follow(fs: Seq<FollowRelation>, t: Seq<char>) -> bool {
    exists|k: int| 0 <= k < fs.len() && #[trigger] fs[k].target@ == t
}

/// No two relations point at the same target.
pub open spec fn unique_targets(fs: Seq<FollowRelation>) -> bool {
    forall|k1: int, k2: int|
        0 <= k1 < k2 < fs.len() ==> #[trigger] fs[k1].target@ != #[trigger] fs[k2].target@
}

/// What creating a follow relation does: nothing when one exists, else one
/// tentative relation is appended.
pub open spec fn follow_step(
    pre: Seq<FollowRelation>,
    t: String,
    post: Seq<FollowRelation>,
) -> bool {
    if has_follow(pre, t@) {
        post == pre
    } else {
        post == pre.push(FollowRelation { target: t, accepted: false })
    }
}

/// Whether the list holds this identifier.
pub open spec fn has_member(fs: Seq<String>, t: Seq<char>) -> bool {
    exists|k: int| 0 <= k < fs.len() && #[trigger] fs[k]@ == t
}

/// No identifier occurs twice.
pub open spec fn unique_members(fs: Seq<String>) -> bool {
    forall|k1: int, k2: int| 0 <= k1 < k2 < fs.len() ==> #[trigger] fs[k1]@ != #[trigger] fs[k2]@
}

/// What registering a follower does: nothing when known, else appended.
pub open spec fn member_step(pre: Seq<String>, t: String, post: Seq<String>) -> bool {
    if has_member(pre, t@) {
        post == pre
    } else {
        post == pre.push(t)
    }
}

impl DbInstance {
    /// Whether a relation towards `target` exists.
    pub fn is_following(&self, target: &String) -> (r: bool)
        ensures
            r == has_follow(self.follows@, target@),
    {
        let mut k: usize = 0;
        while k < self.follows.len()
            invariant
                0 <= k <= self.follows@.len(),
                forall|j: int| 0 <= j < k ==> #[trigger] self.follows@[j].target@ != target@,
            decreases self.follows@.len() - k,
        {
            if self.follows[k].target == *target {
                return true;
            }
            k = k + 1;
        }
        false
    }

    /// Creates the relation towards `target` if absent; idempotent. Returns
    /// whether the relation is new.
    pub fn follow(&mut self, target: &String) -> (r: bool)
        ensures
            follow_step(old(self).follows@, *target, final(self).follows@),
            r == !has_follow(old(self).follows@, target@),
            final(self).ap_id == old(self).ap_id,
            final(self).domain == old(self).domain,
            final(self).followers == old(self).followers,
    {
        if self.is_following(target) {
            false
        } else {
            self.follows.push(FollowRelation { target: target.clone(), accepted: false });
            true
        }
    }

    /// Whether `actor` is registered as a follower.
    pub fn has_follower(&self, actor: &String) -> (r: bool)
        ensures
            r == has_member(self.followers@, actor@),
    {
        let mut k: usize = 0;
        while k < self.followers.len()
            invariant
                0 <= k <= self.followers@.len(),
                forall|j: int| 0 <= j < k ==> #[trigger] self.followers@[j]@ != actor@,
            decreases self.followers@.len() - k,
        {
            if self.followers[k] == *actor {
                return true;
            }
            k = k + 1;
        }
        false
    }

    /// Registers `actor` as a follower if absent; idempotent.
    pub fn add_follower(&mut self, actor: &String) -> (r: bool)
        ensures
            member_step(old(self).followers@, *actor, final(self).followers@),
            r == !has_member(old(self).followers@, actor@),
            final(self).ap_id == old(self).ap_id,
            final(self).domain == old(self).domain,
            final(self).follows == old(self).follows,
    {
        if self.has_follower(actor) {
            false
        } else {
            self.followers.push(actor.clone());
            true
        }
    }

    /// Marks the relation towards `target` accepted, if one exists.
    pub fn accept_follow(&mut self, target: &String) -> (r: bool)
        ensures
            final(self).ap_id == old(self).ap_id,
            final(self).domain == old(self).domain,
            final(self).followers == old(self).followers,
            if has_follow(old(self).follows@, target@) {
                &&& r
                &&& exists|k: int|
                    0 <= k < old(self).follows@.len() && #[trigger] old(self).follows@[k].target@
                        == target@ && final(self).follows@ == old(self).follows@.update(
                        k,
                        FollowRelation { target: old(self).follows@[k].target, accepted: true },
                    )
            } else {
                !r && final(self).follows@ == old(self).follows@
            },
    {
        let mut k: usize = 0;
        while k < self.follows.len()
            invariant
                0 <= k <= self.follows@.len(),
                *self == *old(self),
                forall|j: int| 0 <= j < k ==> #[trigger] self.follows@[j].target@ != target@,
            decreases self.follows@.len() - k,
        {
            if self.follows[k].target == *target {
                let rel = self.follows.remove(k);
                self.follows.insert(k, FollowRelation { target: rel.target, accepted: true });
                proof {
                    assert(final(self).follows@ =~= old(self).follows@.update(
                        k as int,
                        FollowRelation {
                            target: old(self).follows@[k as int].target,
                            accepted: true,
                        },
                    ));
                }
                return true;
            }
            k = k + 1;
        }
        false
    }

    /// An exact copy; unlike a derived clone, its contract says so.
    pub fn duplicate(&self) -> (r: Self)
        ensures
            instance_like(r, *self),
    {
        let mut followers: Vec<String> = Vec::new();
        let mut i: usize = 0;
        while i < self.followers.len()
            invariant
                0 <= i <= self.followers@.len(),
                followers@ == self.followers@.subrange(0, i as int),
            decreases self.followers@.len() - i,
        {
            followers.push(self.followers[i].clone());
            proof {
                assert(followers@ =~= self.followers@.subrange(0, i + 1 as int));
            }
            i = i + 1;
        }
        let mut follows: Vec<FollowRelation> = Vec::new();
        let mut j: usize = 0;
        while j < self.follows.len()
            invariant
                0 <= j <= self.follows@.len(),
                follows@ == self.follows@.subrange(0, j as int),
            decreases self.follows@.len() - j,
        {
            let rel = &self.follows[j];
            follows.push(FollowRelation { target: rel.target.clone(), accepted: rel.accepted });
            proof {
                assert(follows@ =~= self.follows@.subrange(0, j + 1 as int));
            }
            j = j + 1;
        }
        proof {
            assert(self.followers@.subrange(0, self.followers@.len() as int) =~= self.followers@);
            assert(self.follows@.subrange(0, self.follows@.len() as int) =~= self.follows@);
        }
        DbInstance {
            ap_id: self.ap_id.clone(),
            domain: self.domain.clone(),
            followers,
            follows,
        }
    }
}

/// Observational equality of two instances.
pub open spec fn instance_like(a: DbInstance, b: DbInstance) -> bool {
    &&& a.ap_id == b.ap_id
    &&& a.domain == b.domain
    &&& a.followers@ == b.followers@
    &&& a.follows@ == b.follows@
}

/// Creating the same follow relation twice yields exactly one relation: the
/// second call leaves the registry unchanged, and exactly one entry points
/// at the target.
pub proof fn lemma_follow_idempotent(
    pre: Seq<FollowRelation>,
    t: String,
    s1: Seq<FollowRelation>,
    s2: Seq<FollowRelation>,
)
    requires
        unique_targets(pre),
        follow_step(pre, t, s1),
        follow_step(s1, t, s2),
    ensures
        s2 == s1,
        unique_targets(s1),
        exists|k: int| 0 <= k < s1.len() && #[trigger] s1[k].target@ == t@,
        forall|k1: int, k2: int|
            0 <= k1 < s1.len() && 0 <= k2 < s1.len() && #[trigger] s1[k1].target@ == t@
                && #[trigger] s1[k2].target@ == t@ ==> k1 == k2,
{
    if has_follow(pre, t@) {
        assert(s1 == pre);
        assert(has_follow(s1, t@));
    } else {
        let rel = FollowRelation { target: t, accepted: false };
        assert(s1 == pre.push(rel));
        assert(s1[pre.len() as int].target@ == t@);
        assert(has_follow(s1, t@));
        assert forall|k1: int, k2: int| 0 <= k1 < k2 < s1.len() implies #[trigger] s1[k1].target@
            != #[trigger] s1[k2].target@ by {
            if k2 < pre.len() {
            } else {
                assert(s1[k2].target@ == t@);
                assert(s1[k1] == pre[k1]);
            }
        }
    }
    assert forall|k1: int, k2: int|
        0 <= k1 < s1.len() && 0 <= k2 < s1.len() && #[trigger] s1[k1].target@ == t@
            && #[trigger] s1[k2].target@ == t@ implies k1 == k2 by {
        if k1 < k2 {
            assert(s1[k1].target@ != s1[k2].target@);
        } else if k2 < k1 {
            assert(s1[k2].target@ != s1[k1].target@);
        }
    }
}

} // verus!
