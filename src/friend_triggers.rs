//! Per-view change filters of the friend page.

use vstd::prelude::*;
use crate::trigger::{TriggerAction, TriggerState};

verus! {

/// The bus as the friend page sees it; equal when the counter is.
#[derive(Clone, Copy, Debug)]
pub struct FriendPageTrigger {
    count: u64,
    action: TriggerAction,
}

impl PartialEq for FriendPageTrigger {
    fn eq(&self, other: &FriendPageTrigger) -> (r: bool) {
        self.count == other.count
    }
}

impl vstd::std_specs::cmp::PartialEqSpecImpl for FriendPageTrigger {
    open spec fn obeys_eq_spec() -> bool {
        true
    }

    open spec fn eq_spec(&self, other: &FriendPageTrigger) -> bool {
        self.spec_count() == other.spec_count()
    }
}

impl FriendPageTrigger {
    pub closed spec fn spec_count(&self) -> u64 {
        self.count
    }

    pub closed spec fn spec_action(&self) -> TriggerAction {
        self.action
    }

    /// Take the current counter and classification of the bus.
    pub fn from_trigger(state: &TriggerState) -> (r: Self)
        ensures
            r.spec_count() == state.count,
            r.spec_action() == state.action,
    {
        FriendPageTrigger { count: state.count, action: state.action }
    }

    pub fn to_curr(&self) -> (r: CurrFriendTrigger)
        ensures
            r.spec_count() == self.spec_count(),
            r.spec_action() == self.spec_action(),
    {
        CurrFriendTrigger { count: self.count, action: self.action }
    }

    pub fn to_new(&self) -> (r: NewFriendTrigger)
        ensures
            r.spec_count() == self.spec_count(),
            r.spec_action() == self.spec_action(),
    {
        NewFriendTrigger { count: self.count, action: self.action }
    }

    pub fn to_friends(&self) -> (r: FriendListTrigger)
        ensures
            r.spec_count() == self.spec_count(),
            r.spec_action() == self.spec_action(),
    {
        FriendListTrigger { count: self.count, action: self.action }
    }
}

/// The selected friend's card recomputes on a reset or a change of that friend.
#[derive(Clone, Copy, Debug)]
pub struct CurrFriendTrigger {
    count: u64,
    action: TriggerAction,
}

impl CurrFriendTrigger {
    pub closed spec fn spec_count(&self) -> u64 {
        self.count
    }

    pub closed spec fn spec_action(&self) -> TriggerAction {
        self.action
    }
}

impl PartialEq for CurrFriendTrigger {
    fn eq(&self, other: &CurrFriendTrigger) -> (r: bool) {
        self.count == other.count || match other.action {
            TriggerAction::Friend(a) => a.curr_friend != a.friend_id,
            TriggerAction::Init => false,
            _ => true,
        }
    }
}

impl vstd::std_specs::cmp::PartialEqSpecImpl for CurrFriendTrigger {
    open spec fn obeys_eq_spec() -> bool {
        true
    }

    open spec fn eq_spec(&self, other: &CurrFriendTrigger) -> bool {
        self.spec_count() == other.spec_count() || match other.spec_action() {
            TriggerAction::Friend(a) => a.curr_friend != a.friend_id,
            TriggerAction::Init => false,
            _ => true,
        }
    }
}

/// The pending-requests view recomputes on a reset, a new request or a friend change.
#[derive(Clone, Copy, Debug)]
pub struct NewFriendTrigger {
    count: u64,
    action: TriggerAction,
}

impl NewFriendTrigger {
    pub closed spec fn spec_count(&self) -> u64 {
        self.count
    }

    pub closed spec fn spec_action(&self) -> TriggerAction {
        self.action
    }
}

impl PartialEq for NewFriendTrigger {
    fn eq(&self, other: &NewFriendTrigger) -> (r: bool) {
        self.count == other.count || match other.action {
            TriggerAction::Init | TriggerAction::NewFriend | TriggerAction::Friend(_) => false,
            _ => true,
        }
    }
}

impl vstd::std_specs::cmp::PartialEqSpecImpl for NewFriendTrigger {
    open spec fn obeys_eq_spec() -> bool {
        true
    }

    open spec fn eq_spec(&self, other: &NewFriendTrigger) -> bool {
        self.spec_count() == other.spec_count() || !(other.spec_action() is Init || other.spec_action() is NewFriend || other.spec_action() is Friend)
    }
}

/// The friend list recomputes on a reset or a friend change.
#[derive(Clone, Copy, Debug)]
pub struct FriendListTrigger {
    count: u64,
    action: TriggerAction,
}

impl FriendListTrigger {
    pub closed spec fn spec_count(&self) -> u64 {
        self.count
    }

    pub closed spec fn spec_action(&self) -> TriggerAction {
        self.action
    }
}

impl PartialEq for FriendListTrigger {
    fn eq(&self, other: &FriendListTrigger) -> (r: bool) {
        self.count == other.count || match other.action {
            TriggerAction::Init | TriggerAction::Friend(_) => false,
            _ => true,
        }
    }
}

impl vstd::std_specs::cmp::PartialEqSpecImpl for FriendListTrigger {
    open spec fn obeys_eq_spec() -> bool {
        true
    }

    open spec fn eq_spec(&self, other: &FriendListTrigger) -> bool {
        self.spec_count() == other.spec_count() || !(other.spec_action() is Init || other.spec_action() is Friend)
    }
}

} // verus!
