//! The handlers of the service. Each one answers with a fixed sentence and
//! never fails.

use vstd::prelude::*;
use crate::http::{Json, Outcome, Status, outcome_view};

verus! {

/// Answers `GET /`.
pub fn hello() -> (outcome: Outcome)
    ensures
        outcome_view(outcome) == Ok::<Seq<char>, Status>("Rocket server is running"@),
{
    Ok(Json("Rocket server is running".to_owned()))
}

/// Answers `GET /todo`.
#[allow(non_snake_case)]
pub fn todoHeader() -> (outcome: Outcome)
    ensures
        outcome_view(outcome) == Ok::<Seq<char>, Status>("Todo is working"@),
{
    Ok(Json("Todo is working".to_owned()))
}

/// Answers `GET /todo/school`.
#[allow(non_snake_case)]
pub fn todoSchool() -> (outcome: Outcome)
    ensures
        outcome_view(outcome) == Ok::<Seq<char>, Status>("school todo sample"@),
{
    Ok(Json("school todo sample".to_owned()))
}

/// Answers `GET /todo/watch`.
#[allow(non_snake_case)]
pub fn todoWatch() -> (outcome: Outcome)
    ensures
        outcome_view(outcome) == Ok::<Seq<char>, Status>("to watch sample"@),
{
    Ok(Json("to watch sample".to_owned()))
}

/// Answers `GET /todo/read`.
#[allow(non_snake_case)]
pub fn todoRead() -> (outcome: Outcome)
    ensures
        outcome_view(outcome) == Ok::<Seq<char>, Status>("to read sample"@),
{
    Ok(Json("to read sample".to_owned()))
}

/// Answers `GET /todo/make`.
#[allow(non_snake_case)]
pub fn todoMake() -> (outcome: Outcome)
    ensures
        outcome_view(outcome) == Ok::<Seq<char>, Status>("to make sample"@),
{
    Ok(Json("to make sample".to_owned()))
}

/// Names a handler, so that a route table can hold it as a plain value.
#[derive(Clone, Copy, Debug, PartialEq, Eq, Structural)]
pub enum Handler {
    Hello,
    TodoHeader,
    TodoSchool,
    TodoWatch,
    TodoRead,
    TodoMake,
}

impl Handler {
    /// The sentence the handler answers with.
    pub open spec fn text(self) -> Seq<char> {
        match self {
            Handler::Hello => "Rocket server is running"@,
            Handler::TodoHeader => "Todo is working"@,
            Handler::TodoSchool => "school todo sample"@,
            Handler::TodoWatch => "to watch sample"@,
            Handler::TodoRead => "to read sample"@,
            Handler::TodoMake => "to make sample"@,
        }
    }

    /// Runs the handler.
    pub fn call(self) -> (outcome: Outcome)
        ensures
            outcome_view(outcome) == Ok::<Seq<char>, Status>(self.text()),
    {
        match self {
            Handler::Hello => hello(),
            Handler::TodoHeader => todoHeader(),
            Handler::TodoSchool => todoSchool(),
            Handler::TodoWatch => todoWatch(),
            Handler::TodoRead => todoRead(),
            Handler::TodoMake => todoMake(),
        }
    }
}

} // verus!
