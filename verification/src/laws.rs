//! Properties that hold across the service's operations.

use vstd::prelude::*;
use crate::controller::{end_decision, options_of, vote_decision, ControllerError};
use crate::model::{
    saved_option, saved_poll, spec_migration_plan, NewAnswer, Table, NewPoll, OptionRecord, PollRecord, Timestamp,
};
use crate::routes::{room_of, unlinked_options};
use crate::config::{migrate_mode, setting_or};
use crate::clock::ClockReading;
use crate::socket::{actions_for, apply_action, apply_actions, SocketEvent};
use crate::text::lemma_int_text_injective;

verus! {

/// The poll `poll` once it has been ended at `now`.
pub open spec fn ended_at(poll: PollRecord, now: Timestamp) -> PollRecord {
    PollRecord { end_date: Some(now), ..poll }
}

/// Ending an open poll succeeds and keeps everything but the end date;
/// from then on every vote on the poll is refused, and ending it again
/// is refused too.
pub proof fn law_ended_poll_is_closed(
    poll: PollRecord,
    now: Timestamp,
    later: Timestamp,
    poll_option_id: i32,
    rows: Seq<(OptionRecord, Seq<PollRecord>)>,
)
    requires
        poll.end_date is None,
        rows.len() > 0,
        rows.last().1.len() > 0,
        rows.last().1.last() == ended_at(poll, now),
    ensures
        end_decision(Some(poll), now) == Ok::<Option<PollRecord>, ControllerError>(Some(ended_at(poll, now))),
        vote_decision(poll.id, poll_option_id, rows) == Err::<NewAnswer, ControllerError>(ControllerError::PollEnded),
        end_decision(Some(ended_at(poll, now)), later) == Err::<Option<PollRecord>, ControllerError>(ControllerError::AlreadyEnded),
{
}

/// A poll can only be ended once: whatever the poll, once an end has
/// succeeded, every further end is refused.
pub proof fn law_end_only_once(found: Option<PollRecord>, first: Timestamp, second: Timestamp)
    requires
        end_decision(found, first) matches Ok(Some(_)),
    ensures
        end_decision(end_decision(found, first)->Ok_0, second)
            == Err::<Option<PollRecord>, ControllerError>(ControllerError::AlreadyEnded),
{
}

/// The options created with a poll belong to it: once the poll and its
/// options are saved, a vote on the poll for any of its options is accepted,
/// until the poll is ended.
pub proof fn law_created_options_accept_votes(
    title: String,
    values: Seq<String>,
    now: Timestamp,
    poll_id: i32,
    k: int,
    option_id: i32,
)
    requires
        0 <= k < values.len(),
    ensures
        ({
            let poll = saved_poll(NewPoll { title, start_date: now }, poll_id);
            let option = saved_option(options_of(poll.id, unlinked_options(values))[k], option_id);
            &&& option.poll_id == poll_id
            &&& option.value == values[k]
            &&& vote_decision(poll_id, option_id, seq![(option, seq![poll])])
                == Ok::<NewAnswer, ControllerError>(NewAnswer { poll_option_id: option_id })
        }),
{
    let poll = saved_poll(NewPoll { title, start_date: now }, poll_id);
    let rows = seq![(saved_option(options_of(poll.id, unlinked_options(values))[k], option_id), seq![poll])];
    assert(rows.last().1.last() == poll);
}

/// Subscribing puts a socket in exactly the room asked for, whatever rooms
/// it was in before.
pub proof fn law_subscribe_replaces_rooms(rooms: Set<Seq<char>>, room: String)
    ensures
        apply_actions(rooms, actions_for(SocketEvent::Subscribe(room))) == set![room@],
{
    reveal_with_fuel(apply_actions, 3);
    let actions = actions_for(SocketEvent::Subscribe(room));
    let rest = actions.drop_first();
    assert(rest =~= seq![crate::socket::SocketAction::Join(room)]);
    assert(rest.drop_first().len() == 0);
    assert(apply_action(rooms, actions[0]) == Set::<Seq<char>>::empty());
    assert(Set::<Seq<char>>::empty().insert(room@) =~= set![room@]);
}

/// Unsubscribing takes a socket out of every room.
pub proof fn law_unsubscribe_leaves_all_rooms(rooms: Set<Seq<char>>)
    ensures
        apply_actions(rooms, actions_for(SocketEvent::Unsubscribe)) == Set::<Seq<char>>::empty(),
{
    reveal_with_fuel(apply_actions, 2);
    let actions = actions_for(SocketEvent::Unsubscribe);
    assert(actions.drop_first().len() == 0);
}

/// A socket that subscribed to the room of poll `followed` gets the events
/// announced for poll `announced` exactly when it is the same poll.
pub proof fn law_subscriber_gets_own_poll_events(rooms: Set<Seq<char>>, room: String, followed: i32, announced: i32)
    requires
        room@ == room_of(followed),
    ensures
        apply_actions(rooms, actions_for(SocketEvent::Subscribe(room))).contains(room_of(announced))
            <==> followed == announced,
{
    law_subscribe_replaces_rooms(rooms, room);
    if room_of(announced) == room_of(followed) {
        lemma_int_text_injective(announced as int, followed as int);
    }
}

/// Every table is created, once, and after the table its rows point to.
pub proof fn law_tables_follow_their_parents()
    ensures
        forall|t: Table| spec_migration_plan().contains(t),
        forall|i: int, j: int| 0 <= i < j < spec_migration_plan().len()
            ==> spec_migration_plan()[i] != spec_migration_plan()[j],
        forall|i: int| #![trigger spec_migration_plan()[i]]
            0 <= i < spec_migration_plan().len() && spec_migration_plan()[i].spec_parent() is Some
            ==> exists|j: int| 0 <= j < i && spec_migration_plan()[j] == spec_migration_plan()[i].spec_parent()->Some_0,
{
    let plan = spec_migration_plan();
    assert forall|t: Table| plan.contains(t) by {
        match t {
            Table::Poll => assert(plan[0] == t),
            Table::PollOption => assert(plan[1] == t),
            Table::PollAnswer => assert(plan[2] == t),
        }
    }
    assert(plan[1].spec_parent()->Some_0 == plan[0]);
    assert(plan[2].spec_parent()->Some_0 == plan[1]);
}

/// A vote is accepted exactly when an option was found and its poll is the
/// poll voted on and still open; an accepted vote stores one answer, for the
/// option voted for. Each refusal has its own reason: no option, an option
/// of another poll, an ended poll.
pub proof fn law_vote_only_on_own_open_poll(
    poll_id: i32,
    poll_option_id: i32,
    rows: Seq<(OptionRecord, Seq<PollRecord>)>,
)
    ensures
        rows.len() == 0 ==> vote_decision(poll_id, poll_option_id, rows)
            == Err::<NewAnswer, ControllerError>(ControllerError::PollNotFound),
        rows.len() > 0 && rows.last().1.last().id != poll_id ==> vote_decision(poll_id, poll_option_id, rows)
            == Err::<NewAnswer, ControllerError>(ControllerError::WrongPoll),
        rows.len() > 0 && rows.last().1.last().id == poll_id && rows.last().1.last().end_date is Some
            ==> vote_decision(poll_id, poll_option_id, rows)
            == Err::<NewAnswer, ControllerError>(ControllerError::PollEnded),
        vote_decision(poll_id, poll_option_id, rows) is Ok <==> (rows.len() > 0
            && rows.last().1.last().id == poll_id && rows.last().1.last().end_date is None),
        vote_decision(poll_id, poll_option_id, rows) is Ok
            ==> vote_decision(poll_id, poll_option_id, rows)->Ok_0.poll_option_id == poll_option_id,
{
}

/// Ending a poll at time `now`: a missing poll gives nothing, an ended one
/// is refused, and an open one keeps its id, title and start date and gets
/// `now` as its end date.
pub proof fn law_end_sets_end_date(found: Option<PollRecord>, now: Timestamp)
    ensures
        found is None ==> end_decision(found, now) == Ok::<Option<PollRecord>, ControllerError>(None),
        found is Some && found->Some_0.end_date is Some
            ==> end_decision(found, now) == Err::<Option<PollRecord>, ControllerError>(ControllerError::AlreadyEnded),
        found is Some && found->Some_0.end_date is None ==> ({
            let decision = end_decision(found, now);
            &&& decision is Ok && decision->Ok_0 is Some
            &&& decision->Ok_0->Some_0.id == found->Some_0.id
            &&& decision->Ok_0->Some_0.title == found->Some_0.title
            &&& decision->Ok_0->Some_0.start_date == found->Some_0.start_date
            &&& decision->Ok_0->Some_0.end_date == Some(now)
        }),
{
}

/// Ending an open poll with a clock reading stores that reading, the time
/// the clock read, as the end date.
pub proof fn law_end_date_is_clock_reading(poll: PollRecord, reading: ClockReading)
    requires
        poll.end_date is None,
    ensures
        end_decision(Some(poll), reading@)->Ok_0->Some_0.end_date == Some(reading@),
{
    law_end_sets_end_date(Some(poll), reading@);
}

/// The options stored with a poll are the options given, one for one and
/// in order, each pointing to the poll.
pub proof fn law_linked_options_are_the_given_ones(poll_id: i32, options: Seq<crate::model::NewOption>)
    ensures
        options_of(poll_id, options).len() == options.len(),
        forall|k: int| 0 <= k < options.len() ==> #[trigger] options_of(poll_id, options)[k].poll_id == Some(poll_id)
            && options_of(poll_id, options)[k].value == options[k].value,
{
}

/// A new poll's options are the values given, one for one and in order,
/// not yet pointing to any poll.
pub proof fn law_new_options_are_the_given_values(values: Seq<String>)
    ensures
        unlinked_options(values).len() == values.len(),
        forall|k: int| 0 <= k < values.len() ==> #[trigger] unlinked_options(values)[k].poll_id == None::<i32>
            && unlinked_options(values)[k].value == values[k],
{
}

/// A setting that is set is used as given, whatever its value; one that is
/// not set takes its default. The migration mode defaults to `no`.
pub proof fn law_settings_used_as_given(value: Option<String>, default: Seq<char>)
    ensures
        value is Some ==> setting_or(value, default) == value->Some_0@,
        value is None ==> setting_or(value, default) == default,
        value is Some ==> migrate_mode(value) == value->Some_0@,
        value is None ==> migrate_mode(value) == "no"@,
{
}

} // verus!
