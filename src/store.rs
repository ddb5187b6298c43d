use vstd::prelude::*;
use crate::flow::{Action, Event};
use crate::model::{MemberEntity, TodoEntity};

verus! {

/// Whether some account in `s` has identifier `a`.
pub open spec fn has_member(s: Seq<MemberEntity>, a: Seq<char>) -> bool {
    exists|i: int| 0 <= i < s.len() && (#[trigger] s[i]).account@ == a
}

/// The account with identifier `a` in `s`, if any.
pub open spec fn member_of(s: Seq<MemberEntity>, a: Seq<char>) -> Option<MemberEntity> {
    if has_member(s, a) {
        Some(s[choose|i: int| 0 <= i < s.len() && (#[trigger] s[i]).account@ == a])
    } else {
        None
    }
}

/// No two accounts in `s` share an identifier.
pub open spec fn accounts_unique(s: Seq<MemberEntity>) -> bool {
    forall|i: int, j: int|
        0 <= i < s.len() && 0 <= j < s.len() && (#[trigger] s[i]).account@ == (#[trigger] s[j]).account@
            ==> i == j
}

/// Whether some task in `s` has id `id`.
pub open spec fn has_todo(s: Seq<TodoEntity>, id: i64) -> bool {
    exists|i: int| 0 <= i < s.len() && (#[trigger] s[i]).id == id
}

/// The task with id `id` in `s`, if any.
pub open spec fn todo_of(s: Seq<TodoEntity>, id: i64) -> Option<TodoEntity> {
    if has_todo(s, id) {
        Some(s[choose|i: int| 0 <= i < s.len() && (#[trigger] s[i]).id == id])
    } else {
        None
    }
}

/// Every task in `s` has an id from 1 up to, not including, `next`, and no
/// two share one.
pub open spec fn ids_assigned(s: Seq<TodoEntity>, next: i64) -> bool {
    &&& forall|i: int| 0 <= i < s.len() ==> 1 <= (#[trigger] s[i]).id < next
    &&& forall|i: int, j: int|
        0 <= i < s.len() && 0 <= j < s.len() && (#[trigger] s[i]).id == (#[trigger] s[j]).id ==> i == j
}

/// The diagnostic text of an insert that would duplicate an account.
pub const DUPLICATE_ACCOUNT: &'static str = "UNIQUE constraint failed: member.account";

/// The diagnostic text when no task id is left to assign.
pub const IDS_EXHAUSTED: &'static str = "no task id left";

/// The diagnostic text of a transaction operation out of turn.
pub const TRANSACTION_STATE: &'static str = "transaction not in the required state";

/// A store held in memory: the two tables, the next task id, and the sizes
/// of the tables when the open transaction, if any, began. Writes are applied
/// at once and undone on rollback.
pub struct MemoryStore {
    pub members: Vec<MemberEntity>,
    pub todos: Vec<TodoEntity>,
    pub next_id: i64,
    pub open: Option<(usize, usize)>,
}

impl MemberEntity {
    pub fn copy(&self) -> (r: MemberEntity)
        ensures
            r == *self,
    {
        MemberEntity { account: self.account.clone(), password: self.password.clone() }
    }
}

impl TodoEntity {
    pub fn copy(&self) -> (r: TodoEntity)
        ensures
            r == *self,
    {
        TodoEntity {
            id: self.id,
            account: self.account.clone(),
            due_date: self.due_date,
            content: self.content.clone(),
            complete: self.complete,
        }
    }
}

impl MemoryStore {
    pub open spec fn wf(&self) -> bool {
        &&& accounts_unique(self.members@)
        &&& ids_assigned(self.todos@, self.next_id)
        &&& 1 <= self.next_id
        &&& match self.open {
            Some((m, t)) => m <= self.members@.len() && t <= self.todos@.len(),
            None => true,
        }
    }

    /// An empty store; the first task gets id 1.
    pub fn new() -> (r: MemoryStore)
        ensures
            r.wf(),
            r.members@.len() == 0,
            r.todos@.len() == 0,
            r.next_id == 1,
            r.open is None,
    {
        MemoryStore { members: Vec::new(), todos: Vec::new(), next_id: 1, open: None }
    }

    /// The account with identifier `account`.
    pub fn select_member(&self, account: &String) -> (r: Option<MemberEntity>)
        requires
            self.wf(),
        ensures
            r == member_of(self.members@, account@),
    {
        let mut i: usize = 0;
        while i < self.members.len()
            invariant
                self.wf(),
                i <= self.members@.len(),
                forall|k: int| 0 <= k < i ==> (#[trigger] self.members@[k]).account@ != account@,
            decreases self.members@.len() - i,
        {
            if self.members[i].account == *account {
                proof {
                    assert(self.members@[i as int].account@ == account@);
                    assert(has_member(self.members@, account@));
                    let j = choose|j: int|
                        0 <= j < self.members@.len() && (#[trigger] self.members@[j]).account@
                            == account@;
                    assert(self.members@[i as int].account@ == self.members@[j].account@);
                }
                return Some(self.members[i].copy());
            }
            i = i + 1;
        }
        None
    }

    /// The task with id `id`.
    pub fn select_todo(&self, id: i64) -> (r: Option<TodoEntity>)
        requires
            self.wf(),
        ensures
            r == todo_of(self.todos@, id),
    {
        let mut i: usize = 0;
        while i < self.todos.len()
            invariant
                self.wf(),
                i <= self.todos@.len(),
                forall|k: int| 0 <= k < i ==> (#[trigger] self.todos@[k]).id != id,
            decreases self.todos@.len() - i,
        {
            if self.todos[i].id == id {
                proof {
                    assert(has_todo(self.todos@, id));
                    let j = choose|j: int|
                        0 <= j < self.todos@.len() && (#[trigger] self.todos@[j]).id == id;
                    assert(self.todos@[i as int].id == self.todos@[j].id);
                }
                return Some(self.todos[i].copy());
            }
            i = i + 1;
        }
        None
    }

    /// Performs one action of a flow and gives the store's answer.
    pub fn perform(&mut self, a: Action) -> (ev: Event)
        requires
            old(self).wf(),
        ensures
            final(self).wf(),
            match a {
                Action::Begin => if old(self).open is None {
                    ev == Event::Begun && (final(self).open matches Some((m, t)) && m == old(self).members@.len()
                        && t == old(self).todos@.len()) && final(self).members == old(self).members && final(self).todos == old(self).todos
                        && final(self).next_id == old(self).next_id
                } else {
                    ev is Failed && *final(self) == *old(self)
                },
                Action::SelectMember(account) => ev == Event::MemberSelected(
                    member_of(old(self).members@, account@),
                ) && *final(self) == *old(self),
                Action::InsertMember(m) => if has_member(old(self).members@, m.account@) {
                    ev is Failed && *final(self) == *old(self)
                } else {
                    ev == Event::MemberInserted(m) && final(self).members@ == old(self).members@.push(m)
                        && final(self).todos == old(self).todos && final(self).next_id == old(self).next_id
                        && final(self).open == old(self).open
                },
                Action::InsertTodo(e) => if old(self).next_id == i64::MAX {
                    ev is Failed && *final(self) == *old(self)
                } else {
                    ev matches Event::TodoInserted(s) && s.id == old(self).next_id && s.account == e.account
                        && s.due_date == e.due_date && s.content == e.content && s.complete == e.complete
                        && final(self).todos@ == old(self).todos@.push(s) && final(self).members
                        == old(self).members && final(self).next_id == old(self).next_id + 1
                        && final(self).open == old(self).open
                },
                Action::SelectTodo(id) => ev == Event::TodoSelected(todo_of(old(self).todos@, id))
                    && *final(self) == *old(self),
                Action::Commit => if old(self).open is Some {
                    ev == Event::Committed && final(self).open is None && final(self).members
                        == old(self).members && final(self).todos == old(self).todos
                        && final(self).next_id == old(self).next_id
                } else {
                    ev is Failed && *final(self) == *old(self)
                },
                Action::Rollback => match old(self).open {
                    Some((m, t)) => ev == Event::RolledBack && final(self).open is None
                        && final(self).members@ == old(self).members@.subrange(0, m as int)
                        && final(self).todos@ == old(self).todos@.subrange(0, t as int)
                        && final(self).next_id == old(self).next_id,
                    None => ev is Failed && *final(self) == *old(self),
                },
            },
    {
        match a {
            Action::Begin => match self.open {
                None => {
                    self.open = Some((self.members.len(), self.todos.len()));
                    Event::Begun
                },
                Some(_) => Event::Failed(TRANSACTION_STATE.to_owned()),
            },
            Action::SelectMember(account) => Event::MemberSelected(self.select_member(&account)),
            Action::InsertMember(m) => {
                match self.select_member(&m.account) {
                    Some(_) => Event::Failed(DUPLICATE_ACCOUNT.to_owned()),
                    None => {
                        let stored = m.copy();
                        proof {
                            assert forall|i: int, j: int|
                                0 <= i < self.members@.push(m).len() && 0 <= j < self.members@.push(m).len()
                                    && (#[trigger] self.members@.push(m)[i]).account@
                                    == (#[trigger] self.members@.push(m)[j]).account@ implies i == j by {
                                if i < self.members@.len() && j == self.members@.len() {
                                    assert(has_member(self.members@, m.account@));
                                }
                                if j < self.members@.len() && i == self.members@.len() {
                                    assert(has_member(self.members@, m.account@));
                                }
                            }
                        }
                        self.members.push(m);
                        Event::MemberInserted(stored)
                    },
                }
            },
            Action::InsertTodo(e) => {
                if self.next_id == i64::MAX {
                    Event::Failed(IDS_EXHAUSTED.to_owned())
                } else {
                    let stored = TodoEntity {
                        id: self.next_id,
                        account: e.account,
                        due_date: e.due_date,
                        content: e.content,
                        complete: e.complete,
                    };
                    let answer = stored.copy();
                    self.todos.push(stored);
                    self.next_id = self.next_id + 1;
                    Event::TodoInserted(answer)
                }
            },
            Action::SelectTodo(id) => Event::TodoSelected(self.select_todo(id)),
            Action::Commit => match self.open {
                Some(_) => {
                    self.open = None;
                    Event::Committed
                },
                None => Event::Failed(TRANSACTION_STATE.to_owned()),
            },
            Action::Rollback => match self.open {
                Some((m, t)) => {
                    self.members.truncate(m);
                    self.todos.truncate(t);
                    self.open = None;
                    Event::RolledBack
                },
                None => Event::Failed(TRANSACTION_STATE.to_owned()),
            },
        }
    }
}

} // verus!
