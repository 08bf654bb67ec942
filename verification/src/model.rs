//! The records the service stores: polls, their options and the answers
//! given to them, and the tables that hold them.

use vstd::prelude::*;

verus! {

/// A point in time with its UTC offset, as a poll's dates are stored:
/// microseconds since the Unix epoch, and the offset east of UTC in seconds.
#[derive(Clone, Copy, Debug, PartialEq, Eq)]
pub struct Timestamp {
    pub unix_micros: i64,
    pub utc_offset_seconds: i32,
}

/// A stored poll. A poll whose `end_date` is set has been ended.
#[derive(Clone, Debug, PartialEq, Eq)]
pub struct PollRecord {
    pub id: i32,
    pub title: String,
    pub start_date: Timestamp,
    pub end_date: Option<Timestamp>,
}

/// A stored option of the poll `poll_id`.
#[derive(Clone, Debug, PartialEq, Eq)]
pub struct OptionRecord {
    pub id: i32,
    pub poll_id: i32,
    pub value: String,
}

/// A poll to be stored; the store gives it its id, and it starts open.
#[derive(Clone, Debug, PartialEq, Eq)]
pub struct NewPoll {
    pub title: String,
    pub start_date: Timestamp,
}

/// An option to be stored; `poll_id` is set once its poll has an id.
#[derive(Clone, Debug, PartialEq, Eq)]
pub struct NewOption {
    pub poll_id: Option<i32>,
    pub value: String,
}

/// An answer to be stored: one vote for the option `poll_option_id`.
#[derive(Clone, Copy, Debug, PartialEq, Eq)]
pub struct NewAnswer {
    pub poll_option_id: i32,
}

/// The number of answers given to one option of a poll.
#[derive(Clone, Copy, Debug, PartialEq, Eq)]
pub struct PollResult {
    pub id: u32,
    pub count: u32,
}

/// The record a store holds once it has saved `new` under the id `id`:
/// the same title and start date, and no end date.
pub open spec fn saved_poll(new: NewPoll, id: i32) -> PollRecord {
    PollRecord { id, title: new.title, start_date: new.start_date, end_date: None }
}

/// The record a store holds once it has saved `new` under the id `id`.
pub open spec fn saved_option(new: NewOption, id: i32) -> OptionRecord {
    OptionRecord { id, poll_id: new.poll_id.unwrap(), value: new.value }
}

/// The tables of the service.
#[derive(Clone, Copy, Debug, PartialEq, Eq)]
pub enum Table {
    Poll,
    PollOption,
    PollAnswer,
}

impl Table {
    /// The table that rows of this table point to, if any: an option
    /// belongs to a poll, an answer to an option.
    pub open spec fn spec_parent(self) -> Option<Table> {
        match self {
            Table::Poll => None,
            Table::PollOption => Some(Table::Poll),
            Table::PollAnswer => Some(Table::PollOption),
        }
    }

    /// The table that rows of this table point to, if any.
    pub fn parent(&self) -> (p: Option<Table>)
        ensures
            p == self.spec_parent(),
            *self == Table::Poll ==> p is None,
            *self == Table::PollOption ==> p == Some(Table::Poll),
            *self == Table::PollAnswer ==> p == Some(Table::PollOption),
    {
        match self {
            Table::Poll => None,
            Table::PollOption => Some(Table::Poll),
            Table::PollAnswer => Some(Table::PollOption),
        }
    }

    /// The table's name in the database.
    pub fn name(&self) -> (s: &'static str)
        ensures
            *self == Table::Poll ==> s@ == "polls"@,
            *self == Table::PollOption ==> s@ == "polls_option"@,
            *self == Table::PollAnswer ==> s@ == "polls_answer"@,
    {
        match self {
            Table::Poll => "polls",
            Table::PollOption => "polls_option",
            Table::PollAnswer => "polls_answer",
        }
    }
}

/// The tables in the order in which they are created: each one after the
/// table its rows point to.
pub open spec fn spec_migration_plan() -> Seq<Table> {
    seq![Table::Poll, Table::PollOption, Table::PollAnswer]
}

/// The tables to create, in order.
pub fn migration_plan() -> (plan: Vec<Table>)
    ensures
        plan@ == spec_migration_plan(),
{
    let mut plan = Vec::new();
    plan.push(Table::Poll);
    plan.push(Table::PollOption);
    plan.push(Table::PollAnswer);
    plan
}

} // verus!
