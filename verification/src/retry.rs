//! What the store makes of an answer of the engine: whether it asks again,
//! and how it reads the rows that it is given in the end.

use crate::fault::{
    EngineFault, FaultView, StoreError, StoreErrorView, row_result, rows_result,
};
use crate::models::{Item, Row, rows_of};
use vstd::prelude::*;

verus! {

/// What follows an attempt: the operation is over, or the statement runs again.
#[derive(Debug, Clone, PartialEq, Eq)]
pub enum Step<T> {
    Done(T),
    Retry,
}

impl<T: View> View for Step<T> {
    type V = Step<T::V>;

    open spec fn view(&self) -> Step<T::V> {
        match self {
            Step::Done(value) => Step::Done(value@),
            Step::Retry => Step::Retry,
        }
    }
}

/// Lock contention asks for another attempt; every other fault ends the
/// operation and goes to the caller as it is.
pub open spec fn screen_spec(fault: FaultView) -> Step<StoreErrorView> {
    if fault.is_transient() {
        Step::Retry
    } else {
        Step::Done(StoreErrorView::Storage(fault))
    }
}

/// Decides what follows a failed attempt.
pub fn screen(fault: EngineFault) -> (step: Step<StoreError>)
    ensures
        step@ == screen_spec(fault@),
{
    if fault.is_transient() {
        Step::Retry
    } else {
        Step::Done(StoreError::Storage(fault))
    }
}

/// One answer of the engine to a statement: the rows that it returns, or a fault.
pub type Answer = Result<Seq<Row>, FaultView>;

/// What an answer of the engine stands for.
pub open spec fn answer_view(answer: Result<Vec<Item>, EngineFault>) -> Answer {
    match answer {
        Ok(items) => Ok(rows_of(items@)),
        Err(fault) => Err(fault@),
    }
}

/// What a step of an operation on rows stands for.
pub open spec fn step_view(step: Step<Result<Vec<Item>, StoreError>>) -> Step<
    Result<Seq<Row>, StoreErrorView>,
> {
    match step {
        Step::Done(result) => Step::Done(rows_result(result)),
        Step::Retry => Step::Retry,
    }
}

/// Whether the answer is a fault of lock contention.
pub open spec fn is_contention(answer: Answer) -> bool {
    answer matches Err(fault) && fault.is_transient()
}

/// What an answer comes to where it ends the operation: its rows, or its
/// fault as a storage fault.
pub open spec fn taken(answer: Answer) -> Result<Seq<Row>, StoreErrorView> {
    match answer {
        Ok(rows) => Ok(rows),
        Err(fault) => Err(StoreErrorView::Storage(fault)),
    }
}

/// What follows an answer of the engine, where the operation has `left`
/// attempts left, the one that was answered among them. Rows end the
/// operation, and so does a fault that is not lock contention. After lock
/// contention the statement runs again, unless this was the last attempt:
/// then the operation ends with `Busy`.
pub open spec fn after_spec(left: nat, answer: Answer) -> Step<Result<Seq<Row>, StoreErrorView>> {
    if !is_contention(answer) {
        Step::Done(taken(answer))
    } else if left <= 1 {
        Step::Done(Err(StoreErrorView::Busy))
    } else {
        Step::Retry
    }
}

/// Decides what follows an answer of the engine.
pub fn after(left: u64, answer: Result<Vec<Item>, EngineFault>) -> (step: Step<
    Result<Vec<Item>, StoreError>,
>)
    ensures
        step_view(step) == after_spec(left as nat, answer_view(answer)),
{
    match answer {
        Ok(rows) => Step::Done(Ok(rows)),
        Err(fault) => match screen(fault) {
            Step::Done(error) => Step::Done(Err(error)),
            Step::Retry => if left <= 1 {
                Step::Done(Err(StoreError::Busy))
            } else {
                Step::Retry
            },
        },
    }
}

/// What an operation with `left` attempts comes to where the engine gives
/// `answers` one after another: nothing yet, where the answers run out
/// while it is still asking.
pub open spec fn settled(left: nat, answers: Seq<Answer>) -> Option<
    Result<Seq<Row>, StoreErrorView>,
>
    decreases answers.len(),
{
    if left == 0 {
        Some(Err(StoreErrorView::Busy))
    } else if answers.len() == 0 {
        None
    } else {
        match after_spec(left, answers.first()) {
            Step::Done(result) => Some(result),
            Step::Retry => settled((left - 1) as nat, answers.drop_first()),
        }
    }
}

/// The answer to an operation that names a row by its identifier: the
/// first row that came back, and `NotFound` where none did.
pub open spec fn sought_spec(found: Result<Seq<Row>, StoreErrorView>) -> Result<
    Row,
    StoreErrorView,
> {
    match found {
        Ok(rows) => if rows.len() == 0 {
            Err(StoreErrorView::NotFound)
        } else {
            Ok(rows[0])
        },
        Err(error) => Err(error),
    }
}

/// Reads what came of a statement that names a row by its identifier.
pub fn sought(found: Result<Vec<Item>, StoreError>) -> (r: Result<Item, StoreError>)
    ensures
        row_result(r) == sought_spec(rows_result(found)),
{
    match found {
        Ok(rows) => {
            let mut rows = rows;
            if rows.len() == 0 {
                Err(StoreError::NotFound)
            } else {
                Ok(rows.remove(0))
            }
        },
        Err(error) => Err(error),
    }
}

/// The answer to an operation that writes a row and has it returned: the
/// first row that came back. That none came back is a fault of the engine.
pub open spec fn written_spec(found: Result<Seq<Row>, StoreErrorView>) -> Result<
    Row,
    StoreErrorView,
> {
    match found {
        Ok(rows) => if rows.len() == 0 {
            Err(StoreErrorView::Storage(FaultView::no_rows()))
        } else {
            Ok(rows[0])
        },
        Err(error) => Err(error),
    }
}

/// Reads what came of a statement that writes a row and returns it.
pub fn written(found: Result<Vec<Item>, StoreError>) -> (r: Result<Item, StoreError>)
    ensures
        row_result(r) == written_spec(rows_result(found)),
{
    match found {
        Ok(rows) => {
            let mut rows = rows;
            if rows.len() == 0 {
                Err(StoreError::Storage(EngineFault::no_rows()))
            } else {
                Ok(rows.remove(0))
            }
        },
        Err(error) => Err(error),
    }
}

/// Lock contention is waited out. Where the engine reports it fewer times
/// than there are attempts and then answers otherwise, the operation asks
/// once more after each report, and it ends with that other answer: never
/// with `Busy`, and not before.
pub proof fn law_contention_is_waited_out(attempts: nat, waits: Seq<Answer>, answer: Answer)
    requires
        waits.len() < attempts,
        forall|i: int| 0 <= i < waits.len() ==> is_contention(#[trigger] waits[i]),
        !is_contention(answer),
    ensures
        settled(attempts, waits) is None,
        settled(attempts, waits.push(answer)) == Some(taken(answer)),
    decreases waits.len(),
{
    if waits.len() > 0 {
        assert(waits.push(answer).drop_first() =~= waits.drop_first().push(answer));
        law_contention_is_waited_out((attempts - 1) as nat, waits.drop_first(), answer);
    }
}

/// Where the engine reports lock contention as often as there are
/// attempts, the operation ends with `Busy` at the last of them, and not
/// before.
pub proof fn law_contention_to_the_end(attempts: nat, waits: Seq<Answer>)
    requires
        forall|i: int| 0 <= i < waits.len() ==> is_contention(#[trigger] waits[i]),
    ensures
        waits.len() == attempts ==> settled(attempts, waits) == Some(
            Err::<Seq<Row>, StoreErrorView>(StoreErrorView::Busy),
        ),
        waits.len() < attempts ==> settled(attempts, waits) is None,
    decreases waits.len(),
{
    if waits.len() > 0 && attempts > 0 {
        law_contention_to_the_end((attempts - 1) as nat, waits.drop_first());
    }
}

/// An answer that is not lock contention ends the operation at once, with
/// its rows or with its fault as it is.
pub proof fn law_other_answers_end(left: nat, answer: Answer)
    requires
        !is_contention(answer),
    ensures
        after_spec(left, answer) == Step::Done(taken(answer)),
{
}

/// Whatever the engine answers, what leaves the store is never lock
/// contention as a storage fault, and it is `NotFound` only where a row
/// was sought.
pub proof fn law_contention_is_absorbed(left: nat, answer: Answer)
    ensures
        after_spec(left, answer) matches Step::Done(Err(error)) ==> error.absorbs_contention()
            && error != StoreErrorView::NotFound,
        after_spec(left, answer) matches Step::Done(found) ==> (sought_spec(found) matches Err(
            error,
        ) ==> error.absorbs_contention()),
        after_spec(left, answer) matches Step::Done(found) ==> (written_spec(found) matches Err(
            error,
        ) ==> error.absorbs_contention() && error != StoreErrorView::NotFound),
{
}

} // verus!
