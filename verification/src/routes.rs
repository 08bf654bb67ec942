//! What each HTTP handler of the poll API answers, given what the
//! controller returned, and what it announces to the poll's socket room.

use vstd::prelude::*;
use crate::clock::{now_utc, ClockReading};
use crate::controller::ControllerError;
use crate::model::{NewOption, NewPoll, OptionRecord, PollRecord, PollResult, Timestamp};
use crate::status::HttpError;
use crate::text::{int_text, int_to_text};

verus! {

/// The body of a request to create a poll.
#[derive(Clone, Debug, PartialEq, Eq)]
pub struct CreatePoll {
    pub title: String,
    pub options: Vec<String>,
}

/// The body of a vote: the id of the option voted for.
#[derive(Clone, Copy, Debug, PartialEq, Eq)]
pub struct VotePollAnswer {
    pub answer_id: i32,
}

/// An event sent to every socket in a room.
#[derive(Clone, Debug, PartialEq, Eq)]
pub struct Emission {
    pub room: String,
    pub event: String,
}

/// The socket room of a poll: the poll's id in decimal.
pub open spec fn room_of(poll_id: i32) -> Seq<char> {
    int_text(poll_id as int)
}

/// The name of the socket room of a poll.
pub fn room_name(poll_id: i32) -> (room: String)
    ensures
        room@ == room_of(poll_id),
{
    int_to_text(poll_id)
}

/// An error response with the given status and message.
pub open spec fn is_http_error(e: HttpError, status: u16, message: Seq<char>) -> bool {
    e.status == status && e.message@ == message
}

fn http_error(status: u16, message: &str) -> (e: HttpError)
    ensures
        e.status == status,
        e.message@ == message@,
{
    HttpError { status, message: String::from_str(message) }
}

/// The options of a new poll, not yet pointing to it.
pub open spec fn unlinked_options(values: Seq<String>) -> Seq<NewOption> {
    values.map_values(|v: String| NewOption { poll_id: None, value: v })
}

/// What a request to create a poll asks the store for, when the poll
/// starts at `now`: the poll, and its options in the order given.
pub fn create_poll_at(data: CreatePoll, now: Timestamp) -> (request: (NewPoll, Vec<NewOption>))
    ensures
        request.0 == (NewPoll { title: data.title, start_date: now }),
        request.1@ == unlinked_options(data.options@),
        request.1@.len() == data.options@.len(),
        forall|k: int| 0 <= k < data.options@.len() ==> #[trigger] request.1@[k].poll_id == None::<i32>
            && request.1@[k].value == data.options@[k],
{
    let CreatePoll { title, options } = data;
    let mut linked: Vec<NewOption> = Vec::new();
    let mut i: usize = 0;
    while i < options.len()
        invariant
            i <= options.len(),
            linked@ == unlinked_options(options@.take(i as int)),
        decreases options.len() - i,
    {
        linked.push(NewOption { poll_id: None, value: options[i].clone() });
        proof {
            assert(options@.take(i as int + 1) == options@.take(i as int).push(options@[i as int]));
        }
        i = i + 1;
    }
    proof {
        assert(options@.take(i as int) == options@);
    }
    (NewPoll { title, start_date: now }, linked)
}

/// What a request to create a poll asks the store for: the poll, starting
/// now, and its options.
pub fn create_poll(data: CreatePoll) -> (request: (NewPoll, Vec<NewOption>))
    ensures
        request.0.title == data.title,
        request.0.start_date.utc_offset_seconds == 0,
        request.1@ == unlinked_options(data.options@),
        request.1@.len() == data.options@.len(),
        forall|k: int| 0 <= k < data.options@.len() ==> #[trigger] request.1@[k].poll_id == None::<i32>
            && request.1@[k].value == data.options@[k],
        exists|reading: ClockReading| reading@.utc_offset_seconds == 0
            && request.0 == (NewPoll { title: data.title, start_date: reading@ }),
{
    let reading = now_utc();
    let now = reading.timestamp();
    create_poll_at(data, now)
}

/// The answer to a request to create a poll: the saved poll, or a server
/// error when the store failed.
pub fn create_poll_reply(outcome: Result<PollRecord, ControllerError>) -> (reply: Result<PollRecord, HttpError>)
    ensures
        outcome is Ok ==> reply == Ok::<PollRecord, HttpError>(outcome->Ok_0),
        outcome is Err ==> reply is Err && is_http_error(reply->Err_0, 500, "Could not create poll"@),
{
    match outcome {
        Ok(poll) => Ok(poll),
        Err(_) => Err(http_error(500, "Could not create poll")),
    }
}

/// The answer to a request for a poll: the poll with its options, not found
/// when there is no such poll, or a server error when the store failed.
pub fn get_poll(
    outcome: Result<Option<(PollRecord, Vec<OptionRecord>)>, ControllerError>,
) -> (reply: Result<(PollRecord, Vec<OptionRecord>), HttpError>)
    ensures
        outcome is Err ==> reply is Err && is_http_error(reply->Err_0, 500, "Could not get poll"@),
        outcome == Ok::<Option<(PollRecord, Vec<OptionRecord>)>, ControllerError>(None)
            ==> reply is Err && is_http_error(reply->Err_0, 404, "Not found"@),
        outcome matches Ok(Some(found)) ==> reply == Ok::<(PollRecord, Vec<OptionRecord>), HttpError>(found),
{
    match outcome {
        Err(_) => Err(http_error(500, "Could not get poll")),
        Ok(None) => Err(http_error(404, "Not found")),
        Ok(Some(found)) => Ok(found),
    }
}

/// The answer to a vote on the poll `poll_id`: the poll's results, which
/// are also sent as a `vote` event to the poll's room; or a server error
/// when the vote was refused or the store failed.
pub fn vote_poll(
    poll_id: i32,
    outcome: Result<Vec<PollResult>, ControllerError>,
) -> (reply: Result<(Vec<PollResult>, Emission), HttpError>)
    ensures
        outcome is Err ==> reply is Err && is_http_error(reply->Err_0, 500, "Could not vote poll"@),
        outcome is Ok ==> reply is Ok
            && reply->Ok_0.0 == outcome->Ok_0
            && reply->Ok_0.1.room@ == room_of(poll_id)
            && reply->Ok_0.1.event@ == "vote"@,
{
    match outcome {
        Err(_) => Err(http_error(500, "Could not vote poll")),
        Ok(results) => {
            let room = room_name(poll_id);
            Ok((results, Emission { room, event: String::from_str("vote") }))
        },
    }
}

/// The answer to a request for a poll's results: the results, or a server
/// error when the store failed.
pub fn poll_results(outcome: Result<Vec<PollResult>, ControllerError>) -> (reply: Result<Vec<PollResult>, HttpError>)
    ensures
        outcome is Ok ==> reply == Ok::<Vec<PollResult>, HttpError>(outcome->Ok_0),
        outcome is Err ==> reply is Err && is_http_error(reply->Err_0, 500, "Could not find poll results"@),
{
    match outcome {
        Ok(results) => Ok(results),
        Err(_) => Err(http_error(500, "Could not find poll results")),
    }
}

/// The answer to a request to end the poll `poll_id`: on success an `end`
/// event for the poll's room (and the status 200); not found when there is
/// no such poll; a server error when the poll had ended or the store failed.
pub fn end_poll(poll_id: i32, outcome: Result<Option<()>, ControllerError>) -> (reply: Result<Emission, HttpError>)
    ensures
        outcome is Err ==> reply is Err && is_http_error(reply->Err_0, 500, "could not end poll"@),
        outcome == Ok::<Option<()>, ControllerError>(None)
            ==> reply is Err && is_http_error(reply->Err_0, 404, "Could not find poll"@),
        outcome == Ok::<Option<()>, ControllerError>(Some(())) ==> reply is Ok
            && reply->Ok_0.room@ == room_of(poll_id)
            && reply->Ok_0.event@ == "end"@,
{
    match outcome {
        Err(_) => Err(http_error(500, "could not end poll")),
        Ok(None) => Err(http_error(404, "Could not find poll")),
        Ok(Some(())) => {
            let room = room_name(poll_id);
            Ok(Emission { room, event: String::from_str("end") })
        },
    }
}

} // verus!
