//! What the poll controller decides around its database work.
//!
//! Each operation reads rows from the store, decides, and then writes: the
//! store is the application's, the decisions are made here.

use vstd::prelude::*;
use crate::clock::{now_utc, ClockReading};
use crate::model::{NewAnswer, NewOption, OptionRecord, PollRecord, Timestamp};

verus! {

/// Why a controller operation did not complete.
#[derive(Clone, Debug, PartialEq, Eq)]
pub enum ControllerError {
    /// The store failed; the text is its message.
    Database(String),
    /// The option voted for does not exist.
    PollNotFound,
    /// The option voted for belongs to another poll.
    WrongPoll,
    /// The poll voted on has ended.
    PollEnded,
    /// The poll to end has already been ended.
    AlreadyEnded,
}

impl ControllerError {
    /// The message that goes with the error.
    pub fn message(&self) -> (s: String)
        ensures
            self is Database ==> s@ == self->Database_0@,
            self is PollNotFound ==> s@ == "could not find poll"@,
            self is WrongPoll ==> s@ == "Poll has already ended"@,
            self is PollEnded ==> s@ == "Poll has already ended"@,
            self is AlreadyEnded ==> s@ == "The poll has already been ended."@,
    {
        match self {
            ControllerError::Database(text) => text.clone(),
            ControllerError::PollNotFound => String::from_str("could not find poll"),
            ControllerError::WrongPoll => String::from_str("Poll has already ended"),
            ControllerError::PollEnded => String::from_str("Poll has already ended"),
            ControllerError::AlreadyEnded => String::from_str("The poll has already been ended."),
        }
    }
}

/// The operations on polls.
pub struct PollController;

/// The options to insert with a poll whose id is `poll_id`: the same
/// options, in the same order, each pointing to the poll.
pub open spec fn options_of(poll_id: i32, options: Seq<NewOption>) -> Seq<NewOption> {
    options.map_values(|o: NewOption| NewOption { poll_id: Some(poll_id), value: o.value })
}

/// What a vote for `poll_option_id` on poll `poll_id` does, given the rows
/// found for the option: each row is an option with its polls, and the last
/// row counts. The vote is refused when no option was found, when the
/// option's poll is another one, or when that poll has ended; otherwise one
/// answer for the option is stored.
pub open spec fn vote_decision(
    poll_id: i32,
    poll_option_id: i32,
    rows: Seq<(OptionRecord, Seq<PollRecord>)>,
) -> Result<NewAnswer, ControllerError> {
    if rows.len() == 0 {
        Err(ControllerError::PollNotFound)
    } else {
        let poll = rows.last().1.last();
        if poll.id != poll_id {
            Err(ControllerError::WrongPoll)
        } else if poll.end_date is Some {
            Err(ControllerError::PollEnded)
        } else {
            Ok(NewAnswer { poll_option_id })
        }
    }
}

/// What ending the poll `found` at `now` does: nothing for a missing poll,
/// an error for an ended one, and otherwise the poll with its end date set.
pub open spec fn end_decision(found: Option<PollRecord>, now: Timestamp) -> Result<Option<PollRecord>, ControllerError> {
    match found {
        None => Ok(None),
        Some(poll) => if poll.end_date is Some {
            Err(ControllerError::AlreadyEnded)
        } else {
            Ok(Some(PollRecord { end_date: Some(now), ..poll }))
        },
    }
}

/// The views of the rows that a lookup of an option with its polls returns.
pub open spec fn option_rows_view(rows: Seq<(OptionRecord, Vec<PollRecord>)>) -> Seq<(OptionRecord, Seq<PollRecord>)> {
    rows.map_values(|r: (OptionRecord, Vec<PollRecord>)| (r.0, r.1@))
}

impl PollController {
    /// Points the options of a newly saved poll to it, before they are inserted.
    pub fn create_poll(poll: &PollRecord, options: Vec<NewOption>) -> (linked: Vec<NewOption>)
        ensures
            linked@ == options_of(poll.id, options@),
            linked@.len() == options@.len(),
            forall|k: int| 0 <= k < options@.len() ==> #[trigger] linked@[k].poll_id == Some(poll.id)
                && linked@[k].value == options@[k].value,
    {
        let mut linked: Vec<NewOption> = Vec::new();
        let mut i: usize = 0;
        while i < options.len()
            invariant
                i <= options.len(),
                linked@ == options_of(poll.id, options@.take(i as int)),
            decreases options.len() - i,
        {
            let value = options[i].value.clone();
            linked.push(NewOption { poll_id: Some(poll.id), value });
            proof {
                assert(options@.take(i as int + 1) == options@.take(i as int).push(options@[i as int]));
            }
            i = i + 1;
        }
        proof {
            assert(options@.take(i as int) == options@);
        }
        linked
    }

    /// The poll that a lookup by id found with its options: the last row, if any.
    pub fn get_poll(rows: Vec<(PollRecord, Vec<OptionRecord>)>) -> (found: Option<(PollRecord, Vec<OptionRecord>)>)
        ensures
            rows@.len() == 0 ==> found is None,
            rows@.len() > 0 ==> found == Some(rows@.last()),
    {
        let mut rows = rows;
        rows.pop()
    }

    /// Decides a vote for the option `poll_option_id` on the poll `poll_id`,
    /// given the rows that the lookup of the option with its poll returned.
    /// On `Ok` the answer is stored and the poll's results are returned.
    pub fn vote_poll(
        poll_id: i32,
        poll_option_id: i32,
        rows: Vec<(OptionRecord, Vec<PollRecord>)>,
    ) -> (decision: Result<NewAnswer, ControllerError>)
        requires
            rows@.len() > 0 ==> rows@.last().1@.len() > 0,
        ensures
            decision == vote_decision(poll_id, poll_option_id, option_rows_view(rows@)),
            rows@.len() == 0 ==> decision == Err::<NewAnswer, ControllerError>(ControllerError::PollNotFound),
            rows@.len() > 0 && rows@.last().1@.last().id != poll_id
                ==> decision == Err::<NewAnswer, ControllerError>(ControllerError::WrongPoll),
            rows@.len() > 0 && rows@.last().1@.last().id == poll_id && rows@.last().1@.last().end_date is Some
                ==> decision == Err::<NewAnswer, ControllerError>(ControllerError::PollEnded),
            rows@.len() > 0 && rows@.last().1@.last().id == poll_id && rows@.last().1@.last().end_date is None
                ==> decision == Ok::<NewAnswer, ControllerError>(NewAnswer { poll_option_id }),
    {
        let mut rows = rows;
        match rows.pop() {
            None => Err(ControllerError::PollNotFound),
            Some((_option, polls)) => {
                let mut polls = polls;
                let poll = polls.pop().unwrap();
                if poll.id != poll_id {
                    Err(ControllerError::WrongPoll)
                } else if poll.end_date.is_some() {
                    Err(ControllerError::PollEnded)
                } else {
                    Ok(NewAnswer { poll_option_id })
                }
            },
        }
    }

    /// Decides the end of a poll at the time `now`, given the poll that the
    /// lookup by id found.
    pub fn end_poll_at(found: Option<PollRecord>, now: Timestamp) -> (decision: Result<Option<PollRecord>, ControllerError>)
        ensures
            decision == end_decision(found, now),
            found is None ==> decision == Ok::<Option<PollRecord>, ControllerError>(None),
            found is Some && found->Some_0.end_date is Some
                ==> decision == Err::<Option<PollRecord>, ControllerError>(ControllerError::AlreadyEnded),
            found is Some && found->Some_0.end_date is None
                ==> decision == Ok::<Option<PollRecord>, ControllerError>(Some(PollRecord {
                    id: found->Some_0.id,
                    title: found->Some_0.title,
                    start_date: found->Some_0.start_date,
                    end_date: Some(now),
                })),
    {
        match found {
            None => Ok(None),
            Some(poll) => {
                if poll.end_date.is_some() {
                    Err(ControllerError::AlreadyEnded)
                } else {
                    let mut poll = poll;
                    poll.end_date = Some(now);
                    Ok(Some(poll))
                }
            },
        }
    }

    /// Decides the end of a poll now, given the poll that the lookup by id
    /// found. On `Ok(Some(p))` the end date of `p` is stored.
    pub fn end_poll(found: Option<PollRecord>) -> (decision: Result<Option<PollRecord>, ControllerError>)
        ensures
            exists|now: Timestamp| now.utc_offset_seconds == 0 && decision == end_decision(found, now),
            exists|reading: ClockReading| reading@.utc_offset_seconds == 0 && decision == end_decision(found, reading@),
            found is Some && found->Some_0.end_date is None ==> exists|reading: ClockReading|
                decision == Ok::<Option<PollRecord>, ControllerError>(Some(PollRecord {
                    id: found->Some_0.id,
                    title: found->Some_0.title,
                    start_date: found->Some_0.start_date,
                    end_date: Some(reading@),
                })),
    {
        let reading = now_utc();
        let now = reading.timestamp();
        Self::end_poll_at(found, now)
    }
}

} // verus!
