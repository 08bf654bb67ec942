//! What a client's socket does on the events it sends: it subscribes to one
//! poll's room at a time, or unsubscribes from all of them.

use vstd::prelude::*;

verus! {

/// An event that a client sends on its socket.
#[derive(Clone, Debug, PartialEq, Eq)]
pub enum SocketEvent {
    /// Follow the room with this name, and no other.
    Subscribe(String),
    /// Follow no room.
    Unsubscribe,
}

/// A change to the rooms a socket belongs to.
#[derive(Clone, Debug, PartialEq, Eq)]
pub enum SocketAction {
    /// Leave every room.
    LeaveAll,
    /// Join the room with this name.
    Join(String),
}

/// The actions taken on an event, in order.
pub open spec fn actions_for(event: SocketEvent) -> Seq<SocketAction> {
    match event {
        SocketEvent::Subscribe(room) => seq![SocketAction::LeaveAll, SocketAction::Join(room)],
        SocketEvent::Unsubscribe => seq![SocketAction::LeaveAll],
    }
}

/// The rooms a socket belongs to after one action.
pub open spec fn apply_action(rooms: Set<Seq<char>>, action: SocketAction) -> Set<Seq<char>> {
    match action {
        SocketAction::LeaveAll => Set::empty(),
        SocketAction::Join(room) => rooms.insert(room@),
    }
}

/// The rooms a socket belongs to after a sequence of actions.
pub open spec fn apply_actions(rooms: Set<Seq<char>>, actions: Seq<SocketAction>) -> Set<Seq<char>>
    decreases actions.len(),
{
    if actions.len() == 0 {
        rooms
    } else {
        apply_actions(apply_action(rooms, actions[0]), actions.drop_first())
    }
}

/// The actions to take on the socket for an event it received.
pub fn socket_handler(event: SocketEvent) -> (actions: Vec<SocketAction>)
    ensures
        actions@ == actions_for(event),
{
    let mut actions: Vec<SocketAction> = Vec::new();
    match event {
        SocketEvent::Subscribe(room) => {
            actions.push(SocketAction::LeaveAll);
            actions.push(SocketAction::Join(room));
        },
        SocketEvent::Unsubscribe => {
            actions.push(SocketAction::LeaveAll);
        },
    }
    actions
}

} // verus!
