use vstd::prelude::*;
use crate::error::UseCaseError;
use crate::flow::{fault, fault_for, Action, Event, Step};
use crate::model::{CreateTodoRequest, TodoDto, TodoEntity};

verus! {

/// Creation and lookup of task records.
pub struct TodoUseCase {}

/// Whether `d` is the record handed out for the stored task `e`.
pub open spec fn shows(d: TodoDto, e: TodoEntity) -> bool {
    d.id == e.id && d.account == e.account && d.due_date == e.due_date && d.content == e.content
        && d.complete == e.complete
}

/// Whether `e` is the entity inserted for `req`: its fields, and id 0 for the
/// store to replace.
pub open spec fn unsaved_for(e: TodoEntity, req: CreateTodoRequest) -> bool {
    e.id == 0 && e.account == req.account && e.due_date == req.due_date && e.content == req.content
        && e.complete == req.complete
}

pub enum CreateTodoStage {
    AwaitBegin,
    AwaitInsert,
    /// Waiting for the commit; holds the stored record.
    AwaitCommit(TodoDto),
    RollingBack(UseCaseError),
    Finished,
}

/// A task creation in progress.
pub struct CreateTodoFlow {
    pub request: CreateTodoRequest,
    pub stage: CreateTodoStage,
}

pub enum FindTodoStage {
    AwaitBegin,
    AwaitSelect,
    AwaitCommit(Option<TodoDto>),
    RollingBack(UseCaseError),
    Finished,
}

/// A task lookup in progress.
pub struct FindTodoFlow {
    pub id: i64,
    pub stage: FindTodoStage,
}

impl CreateTodoFlow {
    pub open spec fn in_transaction(&self) -> bool {
        self.stage is AwaitInsert
    }

    /// Carries the creation one answer further; the outcome is the record as
    /// the store returned it on insert.
    pub fn resume(&mut self, ev: Event) -> (r: Step<TodoDto>)
        requires
            !(old(self).stage is Finished),
        ensures
            final(self).request == old(self).request,
            r is Done ==> !old(self).in_transaction(),
            r is Done <==> final(self).stage is Finished,
            match old(self).stage {
                CreateTodoStage::AwaitBegin => match ev {
                    Event::Begun => r matches Step::Perform(Action::InsertTodo(e)) && unsaved_for(
                        e,
                        old(self).request,
                    ) && final(self).stage is AwaitInsert,
                    _ => r matches Step::Done(Err(e)) && fault_for(ev, e)
                        && final(self).stage is Finished,
                },
                CreateTodoStage::AwaitInsert => r matches Step::Perform(a) && match ev {
                    Event::TodoInserted(e) => a == Action::Commit && (final(self).stage matches CreateTodoStage::AwaitCommit(d) && shows(d, e)),
                    _ => a == Action::Rollback && (final(self).stage matches CreateTodoStage::RollingBack(e) && fault_for(ev, e)),
                },
                CreateTodoStage::AwaitCommit(d) => match ev {
                    Event::Committed => r == Step::Done(Ok(d)) && final(self).stage is Finished,
                    _ => r matches Step::Done(Err(e)) && fault_for(ev, e)
                        && final(self).stage is Finished,
                },
                CreateTodoStage::RollingBack(e) => final(self).stage is Finished && r
                    == Step::<TodoDto>::Done(Err(e)),
                CreateTodoStage::Finished => true,
            },
    {
        let mut stage = CreateTodoStage::Finished;
        core::mem::swap(&mut stage, &mut self.stage);
        match stage {
            CreateTodoStage::AwaitBegin => match ev {
                Event::Begun => {
                    self.stage = CreateTodoStage::AwaitInsert;
                    Step::Perform(Action::InsertTodo(TodoEntity::unsaved(&self.request)))
                },
                _ => Step::Done(Err(fault(ev))),
            },
            CreateTodoStage::AwaitInsert => match ev {
                Event::TodoInserted(e) => {
                    self.stage = CreateTodoStage::AwaitCommit(TodoDto::from_entity(e));
                    Step::Perform(Action::Commit)
                },
                _ => {
                    self.stage = CreateTodoStage::RollingBack(fault(ev));
                    Step::Perform(Action::Rollback)
                },
            },
            CreateTodoStage::AwaitCommit(d) => match ev {
                Event::Committed => Step::Done(Ok(d)),
                _ => Step::Done(Err(fault(ev))),
            },
            CreateTodoStage::RollingBack(e) => Step::Done(Err(e)),
            CreateTodoStage::Finished => Step::Done(Err(fault(ev))),
        }
    }
}

impl FindTodoFlow {
    pub open spec fn in_transaction(&self) -> bool {
        self.stage is AwaitSelect
    }

    /// Carries the lookup one answer further. An absent task is an outcome
    /// (`Ok(None)`), not an error; the transaction is committed either way.
    pub fn resume(&mut self, ev: Event) -> (r: Step<Option<TodoDto>>)
        requires
            !(old(self).stage is Finished),
        ensures
            final(self).id == old(self).id,
            r is Done ==> !old(self).in_transaction(),
            r is Done <==> final(self).stage is Finished,
            match old(self).stage {
                FindTodoStage::AwaitBegin => match ev {
                    Event::Begun => r == Step::<Option<TodoDto>>::Perform(Action::SelectTodo(old(self).id))
                        && final(self).stage is AwaitSelect,
                    _ => r matches Step::Done(Err(e)) && fault_for(ev, e)
                        && final(self).stage is Finished,
                },
                FindTodoStage::AwaitSelect => r matches Step::Perform(a) && match ev {
                    Event::TodoSelected(None) => a == Action::Commit && final(self).stage == FindTodoStage::AwaitCommit(None),
                    Event::TodoSelected(Some(e)) => a == Action::Commit && (final(self).stage matches FindTodoStage::AwaitCommit(Some(d)) && shows(d, e)),
                    _ => a == Action::Rollback && (final(self).stage matches FindTodoStage::RollingBack(e) && fault_for(ev, e)),
                },
                FindTodoStage::AwaitCommit(found) => match ev {
                    Event::Committed => r == Step::Done(Ok(found)) && final(self).stage is Finished,
                    _ => r matches Step::Done(Err(e)) && fault_for(ev, e)
                        && final(self).stage is Finished,
                },
                FindTodoStage::RollingBack(e) => final(self).stage is Finished && r
                    == Step::<Option<TodoDto>>::Done(Err(e)),
                FindTodoStage::Finished => true,
            },
    {
        let mut stage = FindTodoStage::Finished;
        core::mem::swap(&mut stage, &mut self.stage);
        match stage {
            FindTodoStage::AwaitBegin => match ev {
                Event::Begun => {
                    self.stage = FindTodoStage::AwaitSelect;
                    Step::Perform(Action::SelectTodo(self.id))
                },
                _ => Step::Done(Err(fault(ev))),
            },
            FindTodoStage::AwaitSelect => match ev {
                Event::TodoSelected(found) => {
                    let shown = match found {
                        Some(e) => Some(TodoDto::from_entity(e)),
                        None => None,
                    };
                    self.stage = FindTodoStage::AwaitCommit(shown);
                    Step::Perform(Action::Commit)
                },
                _ => {
                    self.stage = FindTodoStage::RollingBack(fault(ev));
                    Step::Perform(Action::Rollback)
                },
            },
            FindTodoStage::AwaitCommit(found) => match ev {
                Event::Committed => Step::Done(Ok(found)),
                _ => Step::Done(Err(fault(ev))),
            },
            FindTodoStage::RollingBack(e) => Step::Done(Err(e)),
            FindTodoStage::Finished => Step::Done(Err(fault(ev))),
        }
    }
}

impl TodoUseCase {
    pub fn new() -> (r: TodoUseCase) {
        TodoUseCase {}
    }

    /// Starts the creation of a task for `dto`: it begins a transaction.
    pub fn create(&self, dto: CreateTodoRequest) -> (r: (CreateTodoFlow, Step<TodoDto>))
        ensures
            r.0.request == dto,
            r.0.stage is AwaitBegin,
            r.1 matches Step::Perform(Action::Begin),
    {
        (CreateTodoFlow { request: dto, stage: CreateTodoStage::AwaitBegin }, Step::Perform(Action::Begin))
    }

    /// Starts the lookup of task `id`: it begins a transaction. Any caller may
    /// read any task.
    pub fn find(&self, id: i64) -> (r: (FindTodoFlow, Step<Option<TodoDto>>))
        ensures
            r.0.id == id,
            r.0.stage is AwaitBegin,
            r.1 matches Step::Perform(Action::Begin),
    {
        (FindTodoFlow { id, stage: FindTodoStage::AwaitBegin }, Step::Perform(Action::Begin))
    }
}

} // verus!
