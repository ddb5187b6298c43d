use vstd::prelude::*;
use crate::auth::{issued_token, signin_accepted};
use crate::config::JwtConfig;
use crate::token::{accepted_subject, expiry, signed_token, token_claims, LEEWAY_SECONDS};
use crate::model::{CreateTodoRequest, MemberEntity, SigninRequest, SignupRequest, TodoDto, TodoEntity};
use crate::run::{created, identifier_taken, signed_up};
use crate::store::{accounts_unique, has_member, ids_assigned, member_of, todo_of};
use crate::todo::shows;

verus! {

/// Once a sign-up has stored an account, the identifier is taken: a later
/// sign-up of the same identifier, with agreeing passwords, is answered
/// `AccountIdExists`.
pub proof fn signup_twice_finds_account(
    before: Seq<MemberEntity>,
    after: Seq<MemberEntity>,
    first: SignupRequest,
    second: SignupRequest,
)
    requires
        signed_up(before, after, first),
        second.account@ == first.account@,
        second.password@ == second.confirmed_password@,
    ensures
        identifier_taken(after, second),
{
    assert(after[after.len() - 1].account@ == second.account@);
}

/// After a sign-up, signing in with the same identifier and password is
/// accepted: the stored account is found and its hash matches the password.
pub proof fn signin_after_signup_accepted(
    before: Seq<MemberEntity>,
    after: Seq<MemberEntity>,
    signup: SignupRequest,
    signin: SigninRequest,
)
    requires
        signed_up(before, after, signup),
        accounts_unique(after),
        signin.account@ == signup.account@,
        signin.password@ == signup.password@,
    ensures
        signin_accepted(member_of(after, signin.account@), signin.password@),
{
    let last = after.len() - 1;
    assert(after[last].account@ == signin.account@);
    assert(has_member(after, signin.account@));
    let i = choose|i: int| 0 <= i < after.len() && (#[trigger] after[i]).account@ == signin.account@;
    assert(after[i].account@ == after[last].account@);
}

/// A created task can be found under the id it was given, and the stored
/// record shows the same fields as the one handed back on creation.
pub proof fn created_task_is_found(
    before: Seq<TodoEntity>,
    after: Seq<TodoEntity>,
    d: TodoDto,
    dto: CreateTodoRequest,
    next: i64,
)
    requires
        created(before, after, d, dto),
        ids_assigned(after, next),
    ensures
        d.id != 0,
        todo_of(after, d.id) matches Some(e) && shows(d, e),
{
    let last = after.len() - 1;
    assert(after[last].id == d.id);
    let i = choose|i: int| 0 <= i < after.len() && (#[trigger] after[i]).id == d.id;
    assert(after[i].id == after[last].id);
}

/// A token that sign-in issued authenticates back to its account: issued at
/// some time `iat`, it is accepted for the account at every time `now` up to
/// its expiry plus the leeway (an expiry before the epoch excepted), and
/// refused after; whenever it is accepted, it is accepted for that account;
/// checked against any other issuer it is never accepted.
pub proof fn signin_token_names_account(t: Seq<char>, account: Seq<char>, jwt: JwtConfig, now: i64)
    requires
        issued_token(t, account, jwt),
    ensures
        accepted_subject(token_claims(t, jwt.issuer@, jwt.secret@), now) matches Some(s) ==> s == account,
        forall|y: Seq<char>|
            y != jwt.issuer@ ==> (#[trigger] accepted_subject(token_claims(t, y, jwt.secret@), now)) is None,
        exists|iat: i64, jti: Seq<char>|
            t == #[trigger] signed_token(account, jwt.issuer@, iat, expiry(iat, jwt.expire), jti, jwt.secret@)
                && (0 <= expiry(iat, jwt.expire) && now <= expiry(iat, jwt.expire) + LEEWAY_SECONDS
                ==> accepted_subject(token_claims(t, jwt.issuer@, jwt.secret@), now) == Some(account))
                && (now > expiry(iat, jwt.expire) + LEEWAY_SECONDS ==> accepted_subject(
                token_claims(t, jwt.issuer@, jwt.secret@),
                now,
            ) is None),
{
    let (iat, jti) = choose|iat: i64, jti: Seq<char>|
        t == #[trigger] signed_token(account, jwt.issuer@, iat, expiry(iat, jwt.expire), jti, jwt.secret@)
            && t.len() > 0 && token_claims(t, jwt.issuer@, jwt.secret@) == (if expiry(iat, jwt.expire) >= 0 {
            Some((account, expiry(iat, jwt.expire)))
        } else {
            None
        }) && (forall|y: Seq<char>| y != jwt.issuer@ ==> (#[trigger] token_claims(t, y, jwt.secret@)) is None);
    assert(t == signed_token(account, jwt.issuer@, iat, expiry(iat, jwt.expire), jti, jwt.secret@));
}

} // verus!
