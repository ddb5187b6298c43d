use vstd::prelude::*;
use crate::auth::{issued_token, signin_accepted, AuthUseCase};
use crate::error::UseCaseError;
use crate::flow::{Step, OUT_OF_ORDER};
use crate::model::{
    CreateTodoRequest, MemberEntity, TodoEntity, SigninRequest, SigninResponse, SignupRequest, SignupResponse,
    TodoDto,
};
use crate::password::{password_matches, MAX_PASSWORD_CHARS};
use crate::token::{accepted_subject, now_timestamp, token_claims};
use crate::store::{has_member, has_todo, member_of, todo_of, MemoryStore};
use crate::todo::{shows, TodoUseCase};

verus! {

/// Whether `after` is `before` with one account added: the identifier of
/// `dto`, stored with a hash of its password.
pub open spec fn signed_up(before: Seq<MemberEntity>, after: Seq<MemberEntity>, dto: SignupRequest) -> bool {
    &&& after.len() == before.len() + 1
    &&& after.subrange(0, before.len() as int) == before
    &&& after.last().account == dto.account
    &&& password_matches(dto.password@, after.last().password@)
}

/// Whether `after` is `before` with one task added, shown as `d`: a task of
/// `dto` under a fresh, non-zero id.
pub open spec fn created(before: Seq<TodoEntity>, after: Seq<TodoEntity>, d: TodoDto, dto: CreateTodoRequest) -> bool {
    &&& after.len() == before.len() + 1
    &&& after.subrange(0, before.len() as int) == before
    &&& shows(d, after.last())
    &&& d.id != 0
    &&& !has_todo(before, d.id)
    &&& d.account == dto.account && d.due_date == dto.due_date && d.content == dto.content
        && d.complete == dto.complete
}

/// Whether a sign-up of `dto` against the accounts `members` is refused
/// because the identifier is taken: the passwords agree and an account with
/// the identifier exists.
pub open spec fn identifier_taken(members: Seq<MemberEntity>, dto: SignupRequest) -> bool {
    dto.password@ == dto.confirmed_password@ && has_member(members, dto.account@)
}

impl MemoryStore {
    /// Runs a sign-up to its end against this store.
    pub fn signup(&mut self, uc: &AuthUseCase, dto: SignupRequest) -> (r: Result<SignupResponse, UseCaseError>)
        requires
            old(self).wf(),
            old(self).open is None,
        ensures
            final(self).wf(),
            final(self).open is None,
            final(self).todos@ == old(self).todos@,
            final(self).next_id == old(self).next_id,
            dto.password@ != dto.confirmed_password@ ==> (r matches Err(UseCaseError::BadRequest(_))
                && final(self).members@ == old(self).members@),
            identifier_taken(old(self).members@, dto) ==> r == Err::<SignupResponse, UseCaseError>(UseCaseError::AccountIdExists)
                && final(self).members@ == old(self).members@,
            dto.password@ == dto.confirmed_password@ && !has_member(old(self).members@, dto.account@)
                ==> match r {
                Ok(resp) => resp.account == dto.account && signed_up(
                    old(self).members@,
                    final(self).members@,
                    dto,
                ),
                Err(e) => e is Infrastructure && final(self).members@ == old(self).members@,
            },
            dto.password@ == dto.confirmed_password@ && !has_member(old(self).members@, dto.account@)
                && dto.password@.len() <= MAX_PASSWORD_CHARS ==> r is Ok,
    {
        let ghost before = self.members@;
        let ghost tasks = self.todos@;
        let (mut flow, step) = uc.signup(dto);
        let a = match step {
            Step::Done(r) => return r,
            Step::Perform(a) => a,
        };
        let ev = self.perform(a);
        let step = flow.resume(ev);
        let a = match step {
            Step::Done(r) => return r,
            Step::Perform(a) => a,
        };
        let ev = self.perform(a);
        let step = flow.resume(ev);
        let a = match step {
            Step::Done(r) => return r,
            Step::Perform(a) => a,
        };
        let ghost third = a;
        let ev = self.perform(a);
        proof {
            match third {
                crate::flow::Action::InsertMember(m) => {
                    assert(before.push(m).subrange(0, before.len() as int) =~= before);
                },
                _ => {},
            }
            assert(before.subrange(0, before.len() as int) =~= before);
            assert(tasks.subrange(0, tasks.len() as int) =~= tasks);
        }
        let step = flow.resume(ev);
        let a = match step {
            Step::Done(r) => return r,
            Step::Perform(a) => a,
        };
        let ev = self.perform(a);
        let step = flow.resume(ev);
        match step {
            Step::Done(r) => r,
            Step::Perform(_) => Err(UseCaseError::Infrastructure(OUT_OF_ORDER.to_owned())),
        }
    }

    /// Runs a sign-in to its end against this store; the store is only read.
    pub fn signin(&mut self, uc: &AuthUseCase, dto: SigninRequest) -> (r: Result<SigninResponse, UseCaseError>)
        requires
            old(self).wf(),
            old(self).open is None,
        ensures
            final(self).wf(),
            final(self).open is None,
            final(self).members@ == old(self).members@,
            final(self).todos@ == old(self).todos@,
            final(self).next_id == old(self).next_id,
            !signin_accepted(member_of(old(self).members@, dto.account@), dto.password@) ==> r
                == Err::<SigninResponse, UseCaseError>(UseCaseError::Unauthorized),
            signin_accepted(member_of(old(self).members@, dto.account@), dto.password@) ==> (r matches Ok(
                resp,
            ) && issued_token(resp.token@, dto.account@, uc.jwt)),
    {
        let ghost before = self.members@;
        let ghost tasks = self.todos@;
        let (mut flow, step) = uc.signin(dto);
        let a = match step {
            Step::Done(r) => return r,
            Step::Perform(a) => a,
        };
        let ev = self.perform(a);
        let step = flow.resume(ev);
        let a = match step {
            Step::Done(r) => return r,
            Step::Perform(a) => a,
        };
        let ev = self.perform(a);
        let step = flow.resume(ev);
        let a = match step {
            Step::Done(r) => return r,
            Step::Perform(a) => a,
        };
        let ev = self.perform(a);
        proof {
            assert(before.subrange(0, before.len() as int) =~= before);
            assert(tasks.subrange(0, tasks.len() as int) =~= tasks);
        }
        match flow.resume(ev) {
            Step::Done(r) => r,
            Step::Perform(_) => Err(UseCaseError::Infrastructure(OUT_OF_ORDER.to_owned())),
        }
    }

    /// Runs the authentication of a bearer token at time `now` to its end
    /// against this store; the store is only read. The outcome is the
    /// token's subject when the token is accepted at `now` and the store holds
    /// that account, and `Unauthorized` otherwise.
    pub fn authenticate_at(&mut self, uc: &AuthUseCase, token: &str, now: i64) -> (r: Result<String, UseCaseError>)
        requires
            old(self).wf(),
            old(self).open is None,
        ensures
            final(self).wf(),
            final(self).open is None,
            final(self).members@ == old(self).members@,
            final(self).todos@ == old(self).todos@,
            final(self).next_id == old(self).next_id,
            match accepted_subject(token_claims(token@, uc.jwt.issuer@, uc.jwt.secret@), now) {
                Some(s) => if has_member(old(self).members@, s) {
                    r matches Ok(a) && a@ == s
                } else {
                    r == Err::<String, UseCaseError>(UseCaseError::Unauthorized)
                },
                None => r == Err::<String, UseCaseError>(UseCaseError::Unauthorized),
            },
    {
        let ghost before = self.members@;
        let ghost tasks = self.todos@;
        let (mut flow, step) = uc.authenticate_at(token, now);
        let a = match step {
            Step::Done(r) => return r,
            Step::Perform(a) => a,
        };
        let ev = self.perform(a);
        let step = flow.resume(ev);
        let a = match step {
            Step::Done(r) => return r,
            Step::Perform(a) => a,
        };
        let ev = self.perform(a);
        let step = flow.resume(ev);
        let a = match step {
            Step::Done(r) => return r,
            Step::Perform(a) => a,
        };
        let ev = self.perform(a);
        proof {
            assert(before.subrange(0, before.len() as int) =~= before);
            assert(tasks.subrange(0, tasks.len() as int) =~= tasks);
        }
        match flow.resume(ev) {
            Step::Done(r) => r,
            Step::Perform(_) => Err(UseCaseError::Infrastructure(OUT_OF_ORDER.to_owned())),
        }
    }

    /// Runs the authentication of a bearer token at the current time. Success
    /// names the token's subject, which the store holds; every failure is
    /// `Unauthorized`.
    pub fn authenticate(&mut self, uc: &AuthUseCase, token: &str) -> (r: Result<String, UseCaseError>)
        requires
            old(self).wf(),
            old(self).open is None,
        ensures
            final(self).wf(),
            final(self).open is None,
            final(self).members@ == old(self).members@,
            final(self).todos@ == old(self).todos@,
            final(self).next_id == old(self).next_id,
            match r {
                Ok(a) => has_member(old(self).members@, a@) && (token_claims(
                    token@,
                    uc.jwt.issuer@,
                    uc.jwt.secret@,
                ) matches Some((s, _)) && a@ == s),
                Err(e) => e == UseCaseError::Unauthorized,
            },
    {
        self.authenticate_at(uc, token, now_timestamp())
    }

    /// Runs the creation of a task to its end against this store.
    pub fn create_todo(&mut self, uc: &TodoUseCase, dto: CreateTodoRequest) -> (r: Result<TodoDto, UseCaseError>)
        requires
            old(self).wf(),
            old(self).open is None,
        ensures
            final(self).wf(),
            final(self).open is None,
            final(self).members@ == old(self).members@,
            match r {
                Ok(d) => created(old(self).todos@, final(self).todos@, d, dto),
                Err(e) => e is Infrastructure && final(self).todos@ == old(self).todos@,
            },
            old(self).next_id < i64::MAX ==> r is Ok,
    {
        let ghost before = self.members@;
        let ghost tasks = self.todos@;
        let (mut flow, step) = uc.create(dto);
        let a = match step {
            Step::Done(r) => return r,
            Step::Perform(a) => a,
        };
        let ev = self.perform(a);
        let step = flow.resume(ev);
        let a = match step {
            Step::Done(r) => return r,
            Step::Perform(a) => a,
        };
        let ev = self.perform(a);
        let ghost answer = ev;
        proof {
            match answer {
                crate::flow::Event::TodoInserted(e) => {
                    assert(tasks.push(e).subrange(0, tasks.len() as int) =~= tasks);
                },
                _ => {},
            }
            assert(before.subrange(0, before.len() as int) =~= before);
            assert(tasks.subrange(0, tasks.len() as int) =~= tasks);
        }
        let step = flow.resume(ev);
        let a = match step {
            Step::Done(r) => return r,
            Step::Perform(a) => a,
        };
        let ev = self.perform(a);
        match flow.resume(ev) {
            Step::Done(r) => r,
            Step::Perform(_) => Err(UseCaseError::Infrastructure(OUT_OF_ORDER.to_owned())),
        }
    }

    /// Runs the lookup of task `id` to its end against this store; the store
    /// is only read. An absent task gives `Ok(None)`.
    pub fn find_todo(&mut self, uc: &TodoUseCase, id: i64) -> (r: Result<Option<TodoDto>, UseCaseError>)
        requires
            old(self).wf(),
            old(self).open is None,
        ensures
            final(self).wf(),
            final(self).open is None,
            final(self).members@ == old(self).members@,
            final(self).todos@ == old(self).todos@,
            final(self).next_id == old(self).next_id,
            match todo_of(old(self).todos@, id) {
                Some(e) => r matches Ok(Some(d)) && shows(d, e),
                None => r matches Ok(None),
            },
    {
        let (mut flow, step) = uc.find(id);
        let a = match step {
            Step::Done(r) => return r,
            Step::Perform(a) => a,
        };
        let ev = self.perform(a);
        let step = flow.resume(ev);
        let a = match step {
            Step::Done(r) => return r,
            Step::Perform(a) => a,
        };
        let ev = self.perform(a);
        let step = flow.resume(ev);
        let a = match step {
            Step::Done(r) => return r,
            Step::Perform(a) => a,
        };
        let ev = self.perform(a);
        match flow.resume(ev) {
            Step::Done(r) => r,
            Step::Perform(_) => Err(UseCaseError::Infrastructure(OUT_OF_ORDER.to_owned())),
        }
    }
}

} // verus!
