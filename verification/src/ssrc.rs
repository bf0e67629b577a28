//! Which user sends under which SSRC, and who has left.
use std::collections::{HashMap, HashSet};
use vstd::prelude::*;
use vstd::std_specs::iter::IteratorSpec;

verus! {

broadcast use vstd::std_specs::hash::group_hash_axioms;

/// The SSRC that each user announced, and the users who have left since the
/// last cleanup.
#[derive(Debug)]
pub struct SsrcTracker {
    pub user_ssrc_map: HashMap<u64, u32>,
    pub disconnected_users: HashSet<u64>,
}

/// What a tracker knows.
pub struct TrackerModel {
    pub ssrcs: Map<u64, u32>,
    pub disconnected: Set<u64>,
}

impl View for SsrcTracker {
    type V = TrackerModel;

    open spec fn view(&self) -> TrackerModel {
        TrackerModel { ssrcs: self.user_ssrc_map@, disconnected: self.disconnected_users@ }
    }
}

impl TrackerModel {
    /// Whether a user may be the sender of what arrives under an SSRC: the user
    /// announced it, or nobody did.
    pub open spec fn may_be_sender(self, ssrc: u32, sender: Option<u64>) -> bool {
        match sender {
            Some(user_id) => self.ssrcs.contains_key(user_id) && self.ssrcs[user_id] == ssrc,
            None => forall|user_id: u64| #[trigger]
                self.ssrcs.contains_key(user_id) ==> self.ssrcs[user_id] != ssrc,
        }
    }

    /// The SSRCs that the users announced who have left.
    pub open spec fn left(self) -> Set<u32> {
        Set::new(
            |ssrc: u32|
                exists|user_id: u64|
                    self.disconnected.contains(user_id) && #[trigger] self.ssrcs.contains_key(
                        user_id,
                    ) && self.ssrcs[user_id] == ssrc,
        )
    }
}

impl Default for SsrcTracker {
    fn default() -> (tracker: Self)
        ensures
            tracker@ == (TrackerModel { ssrcs: Map::empty(), disconnected: Set::empty() }),
    {
        SsrcTracker { user_ssrc_map: HashMap::new(), disconnected_users: HashSet::new() }
    }
}

impl SsrcTracker {
    /// Notes the SSRC that a user announced.
    pub fn announce(&mut self, user_id: u64, ssrc: u32)
        ensures
            final(self)@ == (TrackerModel {
                ssrcs: old(self)@.ssrcs.insert(user_id, ssrc),
                ..old(self)@
            }),
    {
        self.user_ssrc_map.insert(user_id, ssrc);
    }

    /// Notes that a user has left.
    pub fn disconnect(&mut self, user_id: u64)
        ensures
            final(self)@ == (TrackerModel {
                disconnected: old(self)@.disconnected.insert(user_id),
                ..old(self)@
            }),
    {
        self.disconnected_users.insert(user_id);
    }

    /// A user who announced an SSRC, if anyone did. Where several users
    /// announced the same one, it is any of them.
    pub fn sender_of(&self, ssrc: u32) -> (sender: Option<u64>)
        ensures
            self@.may_be_sender(ssrc, sender),
    {
        for entry in it: self.user_ssrc_map.iter()
            invariant
                forall|i: int| 0 <= i < it.index() ==> *(#[trigger] it.seq()[i]).1 != ssrc,
        {
            let (user_id, announced) = entry;
            if *announced == ssrc {
                return Some(*user_id);
            }
        }
        None
    }

    /// Forgets the users who have left, and gives the SSRCs that they had
    /// announced.
    pub fn take_disconnected(&mut self) -> (left: HashSet<u32>)
        ensures
            left@ == old(self)@.left(),
            final(self)@ == (TrackerModel {
                ssrcs: old(self)@.ssrcs.remove_keys(old(self)@.disconnected),
                disconnected: Set::empty(),
            }),
    {
        let ghost m = self@;
        let ghost ids = self.disconnected_users.iter().remaining().unref();
        let mut left: HashSet<u32> = HashSet::new();
        for user_id in it: self.disconnected_users.iter()
            invariant
                it.seq().unref() == ids,
                ids.to_set() == m.disconnected,
                self.disconnected_users@ == m.disconnected,
                forall|u: u64| #[trigger]
                    self.user_ssrc_map@.contains_key(u) ==> m.ssrcs.contains_key(u)
                        && self.user_ssrc_map@[u] == m.ssrcs[u],
                forall|u: u64| #[trigger]
                    m.ssrcs.contains_key(u) && !m.disconnected.contains(u)
                        ==> self.user_ssrc_map@.contains_key(u),
                forall|i: int|
                    0 <= i < it.index() ==> !self.user_ssrc_map@.contains_key(
                        *#[trigger] it.seq()[i],
                    ),
                forall|u: u64| #[trigger]
                    m.ssrcs.contains_key(u) && !self.user_ssrc_map@.contains_key(u)
                        ==> left@.contains(m.ssrcs[u]),
                forall|ssrc: u32| #[trigger] left@.contains(ssrc) ==> m.left().contains(ssrc),
        {
            assert(it.seq().unref().contains(it.seq().unref()[it.index()]));
            if let Some(ssrc) = self.user_ssrc_map.remove(user_id) {
                left.insert(ssrc);
            }
        }
        assert forall|u: u64| m.disconnected.contains(u) implies !self.user_ssrc_map@.contains_key(
            u,
        ) by {
            assert(ids.contains(u));
        }
        assert(self.user_ssrc_map@ =~= m.ssrcs.remove_keys(m.disconnected));
        self.disconnected_users.clear();
        left
    }
}

/// A sender that is found announced the SSRC, and none is found only where nobody
/// did.
pub proof fn law_sender_announced(t: TrackerModel, ssrc: u32, user_id: u64)
    ensures
        t.may_be_sender(ssrc, Some(user_id)) <==> t.ssrcs.contains_pair(user_id, ssrc),
        t.may_be_sender(ssrc, None) && t.ssrcs.contains_key(user_id) ==> t.ssrcs[user_id] != ssrc,
        (forall|other: u64| !t.ssrcs.contains_pair(other, ssrc)) ==> t.may_be_sender(ssrc, None),
{
    if forall|other: u64| !t.ssrcs.contains_pair(other, ssrc) {
        assert forall|other: u64| #[trigger] t.ssrcs.contains_key(other) implies t.ssrcs[other]
            != ssrc by {
            assert(!t.ssrcs.contains_pair(other, ssrc));
        }
    }
}

/// The SSRC of every user who has left goes with the user, and no SSRC goes that
/// no such user had announced.
pub proof fn law_leavers_ssrcs(t: TrackerModel, user_id: u64, ssrc: u32)
    ensures
        t.disconnected.contains(user_id) && t.ssrcs.contains_key(user_id) ==> t.left().contains(
            t.ssrcs[user_id],
        ),
        t.left().contains(ssrc) ==> exists|leaver: u64|
            t.disconnected.contains(leaver) && #[trigger] t.ssrcs.contains_pair(leaver, ssrc),
{
    if t.left().contains(ssrc) {
        let leaver = choose|leaver: u64|
            t.disconnected.contains(leaver) && #[trigger] t.ssrcs.contains_key(leaver)
                && t.ssrcs[leaver] == ssrc;
        assert(t.ssrcs.contains_pair(leaver, ssrc));
    }
}

} // verus!
