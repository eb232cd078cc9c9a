//! The change-notification bus: a version counter paired with what the most
//! recent mutation touched.

use vstd::prelude::*;

verus! {

/// A room touched by a mutation, with the room selected at that moment.
#[derive(Clone, Copy, Debug, PartialEq, Eq, Structural)]
pub struct AffectedRoom {
    pub room_id: i64,
    pub curr_room: i64,
}

/// A friend touched by a mutation, with the friend selected at that moment.
#[derive(Clone, Copy, Debug, PartialEq, Eq, Structural)]
pub struct AffectedFriend {
    pub friend_id: i64,
    pub curr_friend: i64,
}

/// What the most recent mutation of the store touched.
#[derive(Clone, Copy, Debug, PartialEq, Eq, Structural)]
pub enum TriggerAction {
    Init,
    Room(AffectedRoom),
    Message(AffectedRoom),
    Member(AffectedRoom),
    Friend(AffectedFriend),
    NewFriend,
}

/// The counter (bumped by every mutation, wrapping at `u64::MAX`) and the
/// classification of the last mutation.
pub struct TriggerState {
    pub count: u64,
    pub action: TriggerAction,
}

/// The counter after one more mutation.
pub open spec fn next_count(count: u64) -> u64 {
    if count == u64::MAX { 0 } else { (count + 1) as u64 }
}

impl Default for TriggerState {
    fn default() -> (r: Self)
        ensures
            r.count == 0,
            r.action == TriggerAction::Init,
    {
        TriggerState { count: 0, action: TriggerAction::Init }
    }
}

impl TriggerState {
    /// Publish one mutation: bump the counter and record what it touched,
    /// as one step.
    pub fn reduce(&mut self, action: TriggerAction)
        ensures
            final(self).count == next_count(old(self).count),
            final(self).action == action,
    {
        self.count = if self.count == u64::MAX { 0 } else { self.count + 1 };
        self.action = action;
    }
}

} // verus!
