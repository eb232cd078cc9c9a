//! Per-view change filters of the room page: each view compares the
//! counter first and, where the counter alone would over-trigger, what the
//! last mutation touched.

use vstd::prelude::*;
use crate::trigger::{TriggerAction, TriggerState};

verus! {

/// The bus as the room page sees it; equal when the counter is.
#[derive(Clone, Copy, Debug)]
pub struct RoomPageTrigger {
    count: u64,
    action: TriggerAction,
}

impl PartialEq for RoomPageTrigger {
    fn eq(&self, other: &RoomPageTrigger) -> (r: bool) {
        self.count == other.count
    }
}

impl vstd::std_specs::cmp::PartialEqSpecImpl for RoomPageTrigger {
    open spec fn obeys_eq_spec() -> bool {
        true
    }

    open spec fn eq_spec(&self, other: &RoomPageTrigger) -> bool {
        self.spec_count() == other.spec_count()
    }
}

impl RoomPageTrigger {
    pub closed spec fn spec_count(&self) -> u64 {
        self.count
    }

    pub closed spec fn spec_action(&self) -> TriggerAction {
        self.action
    }

    /// Take the current counter and classification of the bus.
    pub fn from_trigger(state: &TriggerState) -> (r: Self)
        ensures
            r.spec_count() == state.count,
            r.spec_action() == state.action,
    {
        RoomPageTrigger { count: state.count, action: state.action }
    }

    pub fn to_rooms(&self) -> (r: RoomListTrigger)
        ensures
            r.spec_count() == self.spec_count(),
            r.spec_action() == self.spec_action(),
    {
        RoomListTrigger { count: self.count, action: self.action }
    }

    pub fn to_messages(&self) -> (r: MessageListTrigger)
        ensures
            r.spec_count() == self.spec_count(),
            r.spec_action() == self.spec_action(),
    {
        MessageListTrigger { count: self.count, action: self.action }
    }

    pub fn to_members(&self) -> (r: MemberListTrigger)
        ensures
            r.spec_count() == self.spec_count(),
            r.spec_action() == self.spec_action(),
    {
        MemberListTrigger { count: self.count, action: self.action }
    }

    pub fn to_curr(&self) -> (r: CurrRoomTrigger)
        ensures
            r.spec_count() == self.spec_count(),
            r.spec_action() == self.spec_action(),
    {
        CurrRoomTrigger { count: self.count, action: self.action }
    }

    pub fn to_new(&self) -> (r: NewRoomTrigger)
        ensures
            r.spec_count() == self.spec_count(),
            r.spec_action() == self.spec_action(),
    {
        NewRoomTrigger { count: self.count, action: self.action }
    }
}

/// The room list recomputes on a reset, a room change or a message.
#[derive(Clone, Copy, Debug)]
pub struct RoomListTrigger {
    count: u64,
    action: TriggerAction,
}

impl RoomListTrigger {
    pub closed spec fn spec_count(&self) -> u64 {
        self.count
    }

    pub closed spec fn spec_action(&self) -> TriggerAction {
        self.action
    }
}

impl PartialEq for RoomListTrigger {
    fn eq(&self, other: &RoomListTrigger) -> (r: bool) {
        self.count == other.count || match other.action {
            TriggerAction::Init | TriggerAction::Room(_) | TriggerAction::Message(_) => false,
            _ => true,
        }
    }
}

impl vstd::std_specs::cmp::PartialEqSpecImpl for RoomListTrigger {
    open spec fn obeys_eq_spec() -> bool {
        true
    }

    open spec fn eq_spec(&self, other: &RoomListTrigger) -> bool {
        self.spec_count() == other.spec_count() || !(other.spec_action() is Init || other.spec_action() is Room || other.spec_action() is Message)
    }
}

/// The message list recomputes on a reset or a message.
#[derive(Clone, Copy, Debug)]
pub struct MessageListTrigger {
    count: u64,
    action: TriggerAction,
}

impl MessageListTrigger {
    pub closed spec fn spec_count(&self) -> u64 {
        self.count
    }

    pub closed spec fn spec_action(&self) -> TriggerAction {
        self.action
    }
}

impl PartialEq for MessageListTrigger {
    fn eq(&self, other: &MessageListTrigger) -> (r: bool) {
        self.count == other.count || match other.action {
            TriggerAction::Init | TriggerAction::Message(_) => false,
            _ => true,
        }
    }
}

impl vstd::std_specs::cmp::PartialEqSpecImpl for MessageListTrigger {
    open spec fn obeys_eq_spec() -> bool {
        true
    }

    open spec fn eq_spec(&self, other: &MessageListTrigger) -> bool {
        self.spec_count() == other.spec_count() || !(other.spec_action() is Init || other.spec_action() is Message)
    }
}

/// The member list recomputes on a reset, a member change or any friend change.
#[derive(Clone, Copy, Debug)]
pub struct MemberListTrigger {
    count: u64,
    action: TriggerAction,
}

impl MemberListTrigger {
    pub closed spec fn spec_count(&self) -> u64 {
        self.count
    }

    pub closed spec fn spec_action(&self) -> TriggerAction {
        self.action
    }
}

impl PartialEq for MemberListTrigger {
    fn eq(&self, other: &MemberListTrigger) -> (r: bool) {
        self.count == other.count || match other.action {
            TriggerAction::Init | TriggerAction::Member(_) | TriggerAction::Friend(_) | TriggerAction::NewFriend => false,
            _ => true,
        }
    }
}

impl vstd::std_specs::cmp::PartialEqSpecImpl for MemberListTrigger {
    open spec fn obeys_eq_spec() -> bool {
        true
    }

    open spec fn eq_spec(&self, other: &MemberListTrigger) -> bool {
        self.spec_count() == other.spec_count() || !(other.spec_action() is Init || other.spec_action() is Member || other.spec_action() is Friend || other.spec_action() is NewFriend)
    }
}

/// The selected room's header recomputes on a reset or a change of the selected room itself.
#[derive(Clone, Copy, Debug)]
pub struct CurrRoomTrigger {
    count: u64,
    action: TriggerAction,
}

impl CurrRoomTrigger {
    pub closed spec fn spec_count(&self) -> u64 {
        self.count
    }

    pub closed spec fn spec_action(&self) -> TriggerAction {
        self.action
    }
}

impl PartialEq for CurrRoomTrigger {
    fn eq(&self, other: &CurrRoomTrigger) -> (r: bool) {
        self.count == other.count || match other.action {
            TriggerAction::Room(a) => a.curr_room != a.room_id,
            TriggerAction::Init => false,
            _ => true,
        }
    }
}

impl vstd::std_specs::cmp::PartialEqSpecImpl for CurrRoomTrigger {
    open spec fn obeys_eq_spec() -> bool {
        true
    }

    open spec fn eq_spec(&self, other: &CurrRoomTrigger) -> bool {
        self.spec_count() == other.spec_count() || match other.spec_action() {
            TriggerAction::Room(a) => a.curr_room != a.room_id,
            TriggerAction::Init => false,
            _ => true,
        }
    }
}

/// The new-room form recomputes on a reset or any friend change.
#[derive(Clone, Copy, Debug)]
pub struct NewRoomTrigger {
    count: u64,
    action: TriggerAction,
}

impl NewRoomTrigger {
    pub closed spec fn spec_count(&self) -> u64 {
        self.count
    }

    pub closed spec fn spec_action(&self) -> TriggerAction {
        self.action
    }
}

impl PartialEq for NewRoomTrigger {
    fn eq(&self, other: &NewRoomTrigger) -> (r: bool) {
        self.count == other.count || match other.action {
            TriggerAction::Init | TriggerAction::Friend(_) | TriggerAction::NewFriend => false,
            _ => true,
        }
    }
}

impl vstd::std_specs::cmp::PartialEqSpecImpl for NewRoomTrigger {
    open spec fn obeys_eq_spec() -> bool {
        true
    }

    open spec fn eq_spec(&self, other: &NewRoomTrigger) -> bool {
        self.spec_count() == other.spec_count() || !(other.spec_action() is Init || other.spec_action() is Friend || other.spec_action() is NewFriend)
    }
}

} // verus!
