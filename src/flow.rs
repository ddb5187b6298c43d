use vstd::prelude::*;
use crate::error::UseCaseError;
use crate::model::{MemberEntity, TodoEntity};

verus! {

/// A store operation that a flow asks its driver to perform, inside the one
/// transaction the flow owns.
#[derive(Debug, Clone)]
pub enum Action {
    /// Open the flow's transaction.
    Begin,
    SelectMember(String),
    InsertMember(MemberEntity),
    InsertTodo(TodoEntity),
    SelectTodo(i64),
    /// Commit the transaction; it is closed afterwards, whatever the answer.
    Commit,
    /// Roll the transaction back; it is closed afterwards, whatever the answer.
    Rollback,
}

/// The driver's answer to the last action.
#[derive(Debug, Clone)]
pub enum Event {
    Begun,
    MemberSelected(Option<MemberEntity>),
    MemberInserted(MemberEntity),
    TodoInserted(TodoEntity),
    TodoSelected(Option<TodoEntity>),
    Committed,
    RolledBack,
    /// The action failed in the store; the text says why.
    Failed(String),
}

/// What a flow hands back: an action to perform, or its outcome.
#[derive(Debug)]
pub enum Step<T> {
    Perform(Action),
    Done(Result<T, UseCaseError>),
}

/// Whether `e` is the error a flow reports when the store's answer `ev` is not
/// the one it waits for: the store's own failure text, or a fixed text for an
/// answer out of order.
pub open spec fn fault_for(ev: Event, e: UseCaseError) -> bool {
    match ev {
        Event::Failed(why) => e == UseCaseError::Infrastructure(why),
        _ => e matches UseCaseError::Infrastructure(why) && why@ == OUT_OF_ORDER@,
    }
}

/// The diagnostic text for an answer out of order.
pub const OUT_OF_ORDER: &'static str = "store answered out of order";

/// The error for an answer that the flow did not wait for.
pub fn fault(ev: Event) -> (r: UseCaseError)
    ensures
        fault_for(ev, r),
{
    match ev {
        Event::Failed(e) => UseCaseError::Infrastructure(e),
        _ => UseCaseError::Infrastructure(OUT_OF_ORDER.to_owned()),
    }
}

} // verus!
