use vstd::prelude::*;
use crate::config::JwtConfig;
use crate::error::UseCaseError;
use crate::flow::{fault, fault_for, Action, Event, Step};
use crate::model::{MemberEntity, SigninRequest, SigninResponse, SignupRequest, SignupResponse};
use crate::password::{self, password_matches, MAX_PASSWORD_CHARS};
use crate::token::{self, accepted_subject, expiry, signed_token, token_claims, Claims};

verus! {

/// The reason given when the two passwords of a sign-up differ.
pub const CONFIRMATION_MISMATCH: &'static str = "Password confirmation does not match";

/// The diagnostic text when the password could not be hashed.
pub const HASH_FAILED: &'static str = "password hashing failed";

/// The diagnostic text when a token could not be signed.
pub const SIGNING_FAILED: &'static str = "token signing failed";

/// Sign-up, sign-in and token authentication.
pub struct AuthUseCase {
    pub jwt: JwtConfig,
}

/// A copy of the token settings, field for field.
pub fn copy_jwt(j: &JwtConfig) -> (r: JwtConfig)
    ensures
        r == *j,
{
    JwtConfig { issuer: j.issuer.clone(), secret: j.secret.clone(), expire: j.expire }
}

pub enum SignupStage {
    AwaitBegin,
    AwaitSelect,
    AwaitInsert,
    /// Waiting for the commit; holds the identifier of the stored account.
    AwaitCommit(String),
    /// Waiting for the rollback; holds the error to report after it.
    RollingBack(UseCaseError),
    Finished,
}

/// A sign-up in progress.
pub struct SignupFlow {
    pub request: SignupRequest,
    pub stage: SignupStage,
}

pub enum SigninStage {
    AwaitBegin,
    AwaitSelect,
    /// Waiting for the read-only transaction to be closed; holds the outcome.
    Closing(Result<SigninResponse, UseCaseError>),
    Finished,
}

/// A sign-in in progress.
pub struct SigninFlow {
    pub request: SigninRequest,
    pub jwt: JwtConfig,
    pub stage: SigninStage,
}

pub enum AuthenticateStage {
    AwaitBegin,
    AwaitSelect,
    Closing(Result<String, UseCaseError>),
    Finished,
}

/// An authentication of a bearer token in progress; `subject` is the account
/// the verified token names.
pub struct AuthenticateFlow {
    pub subject: String,
    pub stage: AuthenticateStage,
}

/// Whether a sign-in with `password` succeeds against the stored account
/// `found`: it exists and the password matches its hash.
pub open spec fn signin_accepted(found: Option<MemberEntity>, password: Seq<char>) -> bool {
    found matches Some(m) && password_matches(password, m.password@)
}

/// Whether `t` is a token for `account` that `jwt` issues: signed under the
/// configured secret, naming the configured issuer, expiring `jwt.expire`
/// seconds after issue; it is not empty, decodes back to the account and
/// that expiry (a negative expiry does not decode), and does not decode under
/// any other issuer.
pub open spec fn issued_token(t: Seq<char>, account: Seq<char>, jwt: JwtConfig) -> bool {
    exists|iat: i64, jti: Seq<char>|
        t == #[trigger] signed_token(account, jwt.issuer@, iat, expiry(iat, jwt.expire), jti, jwt.secret@)
            && t.len() > 0 && token_claims(t, jwt.issuer@, jwt.secret@) == (if expiry(iat, jwt.expire) >= 0 {
            Some((account, expiry(iat, jwt.expire)))
        } else {
            None
        }) && (forall|y: Seq<char>| y != jwt.issuer@ ==> (#[trigger] token_claims(t, y, jwt.secret@)) is None)
}

impl SignupFlow {
    /// Whether the flow's transaction is open with neither commit nor rollback
    /// asked for yet.
    pub open spec fn in_transaction(&self) -> bool {
        self.stage is AwaitSelect || self.stage is AwaitInsert
    }

    /// Carries the sign-up one answer further. The identifier is looked up
    /// before the password is hashed and the account inserted; an insert that
    /// the store refuses (a concurrent sign-up of the same identifier, say) is
    /// reported as an infrastructure failure. Every failure after the
    /// transaction began rolls it back before the error is reported.
    pub fn resume(&mut self, ev: Event) -> (r: Step<SignupResponse>)
        requires
            !(old(self).stage is Finished),
        ensures
            final(self).request == old(self).request,
            r is Done ==> !old(self).in_transaction(),
            r is Done <==> final(self).stage is Finished,
            old(self).stage is AwaitSelect && (ev matches Event::MemberSelected(None))
                && old(self).request.password@.len() <= MAX_PASSWORD_CHARS ==> (r matches Step::Perform(
                Action::InsertMember(_),
            )),
            match old(self).stage {
                SignupStage::AwaitBegin => match ev {
                    Event::Begun => r matches Step::Perform(Action::SelectMember(a))
                        && a == old(self).request.account && final(self).stage is AwaitSelect,
                    _ => r matches Step::Done(Err(e)) && fault_for(ev, e)
                        && final(self).stage is Finished,
                },
                SignupStage::AwaitSelect => match ev {
                    Event::MemberSelected(Some(_)) => final(self).stage == SignupStage::RollingBack(
                        UseCaseError::AccountIdExists,
                    ) && r matches Step::Perform(Action::Rollback),
                    Event::MemberSelected(None) => match r {
                        Step::Perform(Action::InsertMember(m)) => final(self).stage is AwaitInsert
                            && m.account == old(self).request.account && password_matches(
                            old(self).request.password@,
                            m.password@,
                        ),
                        _ => r matches Step::Perform(Action::Rollback) && final(self).stage matches SignupStage::RollingBack(UseCaseError::Infrastructure(why)) && why@ == HASH_FAILED@,
                    },
                    _ => r matches Step::Perform(Action::Rollback) && final(self).stage matches SignupStage::RollingBack(e) && fault_for(ev, e),
                },
                SignupStage::AwaitInsert => match ev {
                    Event::MemberInserted(m) => final(self).stage == SignupStage::AwaitCommit(
                        m.account,
                    ) && r matches Step::Perform(Action::Commit),
                    _ => r matches Step::Perform(Action::Rollback) && final(self).stage matches SignupStage::RollingBack(e) && fault_for(ev, e),
                },
                SignupStage::AwaitCommit(account) => match ev {
                    Event::Committed => r matches Step::Done(Ok(resp)) && resp.account == account
                        && final(self).stage is Finished,
                    _ => r matches Step::Done(Err(e)) && fault_for(ev, e)
                        && final(self).stage is Finished,
                },
                SignupStage::RollingBack(e) => final(self).stage is Finished
                    && r == Step::<SignupResponse>::Done(Err(e)),
                SignupStage::Finished => true,
            },
    {
        let mut stage = SignupStage::Finished;
        core::mem::swap(&mut stage, &mut self.stage);
        match stage {
            SignupStage::AwaitBegin => match ev {
                Event::Begun => {
                    self.stage = SignupStage::AwaitSelect;
                    Step::Perform(Action::SelectMember(self.request.account.clone()))
                },
                _ => Step::Done(Err(fault(ev))),
            },
            SignupStage::AwaitSelect => match ev {
                Event::MemberSelected(Some(_)) => {
                    self.stage = SignupStage::RollingBack(UseCaseError::AccountIdExists);
                    Step::Perform(Action::Rollback)
                },
                Event::MemberSelected(None) => match password::hash(self.request.password.as_str()) {
                    Some(h) => {
                        self.stage = SignupStage::AwaitInsert;
                        Step::Perform(
                            Action::InsertMember(
                                MemberEntity { account: self.request.account.clone(), password: h },
                            ),
                        )
                    },
                    None => {
                        self.stage = SignupStage::RollingBack(
                            UseCaseError::Infrastructure(HASH_FAILED.to_owned()),
                        );
                        Step::Perform(Action::Rollback)
                    },
                },
                _ => {
                    self.stage = SignupStage::RollingBack(fault(ev));
                    Step::Perform(Action::Rollback)
                },
            },
            SignupStage::AwaitInsert => match ev {
                Event::MemberInserted(m) => {
                    self.stage = SignupStage::AwaitCommit(m.account);
                    Step::Perform(Action::Commit)
                },
                _ => {
                    self.stage = SignupStage::RollingBack(fault(ev));
                    Step::Perform(Action::Rollback)
                },
            },
            SignupStage::AwaitCommit(account) => match ev {
                Event::Committed => Step::Done(Ok(SignupResponse { account })),
                _ => Step::Done(Err(fault(ev))),
            },
            SignupStage::RollingBack(e) => Step::Done(Err(e)),
            SignupStage::Finished => Step::Done(Err(fault(ev))),
        }
    }
}

impl SigninFlow {
    pub open spec fn in_transaction(&self) -> bool {
        self.stage is AwaitSelect
    }

    /// Carries the sign-in one answer further. The transaction is only read,
    /// and is rolled back once the outcome is known.
    pub fn resume(&mut self, ev: Event) -> (r: Step<SigninResponse>)
        requires
            !(old(self).stage is Finished),
        ensures
            final(self).request == old(self).request,
            final(self).jwt == old(self).jwt,
            r is Done ==> !old(self).in_transaction(),
            r is Done <==> final(self).stage is Finished,
            match old(self).stage {
                SigninStage::AwaitBegin => match ev {
                    Event::Begun => r matches Step::Perform(Action::SelectMember(a))
                        && a == old(self).request.account && final(self).stage is AwaitSelect,
                    _ => r matches Step::Done(Err(e)) && fault_for(ev, e)
                        && final(self).stage is Finished,
                },
                SigninStage::AwaitSelect => r matches Step::Perform(Action::Rollback) && match ev {
                    Event::MemberSelected(found) => if signin_accepted(
                        found,
                        old(self).request.password@,
                    ) {
                        final(self).stage matches SigninStage::Closing(Ok(resp)) && issued_token(
                            resp.token@,
                            old(self).request.account@,
                            old(self).jwt,
                        )
                    } else {
                        final(self).stage == SigninStage::Closing(Err(UseCaseError::Unauthorized))
                    },
                    _ => final(self).stage matches SigninStage::Closing(Err(e)) && fault_for(ev, e),
                },
                SigninStage::Closing(outcome) => final(self).stage is Finished && r
                    == Step::Done(outcome),
                SigninStage::Finished => true,
            },
    {
        let mut stage = SigninStage::Finished;
        core::mem::swap(&mut stage, &mut self.stage);
        match stage {
            SigninStage::AwaitBegin => match ev {
                Event::Begun => {
                    self.stage = SigninStage::AwaitSelect;
                    Step::Perform(Action::SelectMember(self.request.account.clone()))
                },
                _ => Step::Done(Err(fault(ev))),
            },
            SigninStage::AwaitSelect => {
                let outcome = match ev {
                    Event::MemberSelected(Some(m)) => {
                        if password::verify(self.request.password.as_str(), m.password.as_str()) {
                            let claims = Claims::new(
                                self.request.account.as_str(),
                                self.jwt.issuer.as_str(),
                                self.jwt.expire,
                            );
                            match token::encode(&claims, self.jwt.secret.as_str()) {
                                Ok(t) => Ok(SigninResponse { token: t }),
                                Err(_) => Err(UseCaseError::Infrastructure(SIGNING_FAILED.to_owned())),
                            }
                        } else {
                            Err(UseCaseError::Unauthorized)
                        }
                    },
                    Event::MemberSelected(None) => Err(UseCaseError::Unauthorized),
                    _ => Err(fault(ev)),
                };
                self.stage = SigninStage::Closing(outcome);
                Step::Perform(Action::Rollback)
            },
            SigninStage::Closing(outcome) => Step::Done(outcome),
            SigninStage::Finished => Step::Done(Err(fault(ev))),
        }
    }
}

impl AuthenticateFlow {
    pub open spec fn in_transaction(&self) -> bool {
        self.stage is AwaitSelect
    }

    /// The authentication for the outcome of verifying a token: `None` (the
    /// token did not verify) ends it with `Unauthorized` before any store
    /// access; a subject begins a transaction to look the account up.
    pub fn from_subject(subject: Option<String>) -> (r: (AuthenticateFlow, Step<String>))
        ensures
            match subject {
                None => r.0.stage is Finished && r.1 matches Step::Done(Err(UseCaseError::Unauthorized)),
                Some(s) => r.0.subject == s && r.0.stage is AwaitBegin && r.1 matches Step::Perform(Action::Begin),
            },
    {
        match subject {
            None => (
                AuthenticateFlow { subject: String::new(), stage: AuthenticateStage::Finished },
                Step::Done(Err(UseCaseError::Unauthorized)),
            ),
            Some(s) => (
                AuthenticateFlow { subject: s, stage: AuthenticateStage::AwaitBegin },
                Step::Perform(Action::Begin),
            ),
        }
    }

    /// Carries the authentication one answer further. The outcome is the
    /// account as stored, so a token for an account that no longer exists is
    /// refused.
    pub fn resume(&mut self, ev: Event) -> (r: Step<String>)
        requires
            !(old(self).stage is Finished),
        ensures
            final(self).subject == old(self).subject,
            r is Done ==> !old(self).in_transaction(),
            r is Done <==> final(self).stage is Finished,
            match old(self).stage {
                AuthenticateStage::AwaitBegin => match ev {
                    Event::Begun => r matches Step::Perform(Action::SelectMember(a))
                        && a == old(self).subject && final(self).stage is AwaitSelect,
                    _ => r matches Step::Done(Err(e)) && fault_for(ev, e)
                        && final(self).stage is Finished,
                },
                AuthenticateStage::AwaitSelect => r matches Step::Perform(Action::Rollback) && match ev {
                    Event::MemberSelected(Some(m)) => final(self).stage == AuthenticateStage::Closing(Ok(m.account)),
                    Event::MemberSelected(None) => final(self).stage == AuthenticateStage::Closing(Err(UseCaseError::Unauthorized)),
                    _ => final(self).stage matches AuthenticateStage::Closing(Err(e)) && fault_for(ev, e),
                },
                AuthenticateStage::Closing(outcome) => final(self).stage is Finished && r
                    == Step::Done(outcome),
                AuthenticateStage::Finished => true,
            },
    {
        let mut stage = AuthenticateStage::Finished;
        core::mem::swap(&mut stage, &mut self.stage);
        match stage {
            AuthenticateStage::AwaitBegin => match ev {
                Event::Begun => {
                    self.stage = AuthenticateStage::AwaitSelect;
                    Step::Perform(Action::SelectMember(self.subject.clone()))
                },
                _ => Step::Done(Err(fault(ev))),
            },
            AuthenticateStage::AwaitSelect => {
                let outcome = match ev {
                    Event::MemberSelected(Some(m)) => Ok(m.account),
                    Event::MemberSelected(None) => Err(UseCaseError::Unauthorized),
                    _ => Err(fault(ev)),
                };
                self.stage = AuthenticateStage::Closing(outcome);
                Step::Perform(Action::Rollback)
            },
            AuthenticateStage::Closing(outcome) => Step::Done(outcome),
            AuthenticateStage::Finished => Step::Done(Err(fault(ev))),
        }
    }
}

impl AuthUseCase {
    pub fn new(jwt: JwtConfig) -> (r: AuthUseCase)
        ensures
            r.jwt == jwt,
    {
        AuthUseCase { jwt }
    }

    /// Starts a sign-up. Differing passwords end it at once with `BadRequest`,
    /// before any store access; otherwise it begins a transaction.
    pub fn signup(&self, dto: SignupRequest) -> (r: (SignupFlow, Step<SignupResponse>))
        ensures
            r.0.request == dto,
            dto.password@ != dto.confirmed_password@ ==> (r.1 matches Step::Done(
                Err(UseCaseError::BadRequest(why)),
            ) && why@ == CONFIRMATION_MISMATCH@ && r.0.stage is Finished),
            dto.password@ == dto.confirmed_password@ ==> r.0.stage is AwaitBegin && r.1 matches Step::Perform(Action::Begin),
    {
        if dto.password != dto.confirmed_password {
            (
                SignupFlow { request: dto, stage: SignupStage::Finished },
                Step::Done(Err(UseCaseError::BadRequest(CONFIRMATION_MISMATCH.to_owned()))),
            )
        } else {
            (SignupFlow { request: dto, stage: SignupStage::AwaitBegin }, Step::Perform(Action::Begin))
        }
    }

    /// Starts a sign-in: it begins a transaction.
    pub fn signin(&self, dto: SigninRequest) -> (r: (SigninFlow, Step<SigninResponse>))
        ensures
            r.0.request == dto,
            r.0.jwt == self.jwt,
            r.0.stage is AwaitBegin,
            r.1 matches Step::Perform(Action::Begin),
    {
        (
            SigninFlow { request: dto, jwt: copy_jwt(&self.jwt), stage: SigninStage::AwaitBegin },
            Step::Perform(Action::Begin),
        )
    }

    /// Starts the authentication of a bearer token at time `now`: the token
    /// is decoded against the configured issuer and secret and accepted until
    /// its expiry plus the leeway; a token that is not accepted ends the flow
    /// with `Unauthorized` before any store access.
    pub fn authenticate_at(&self, token: &str, now: i64) -> (r: (AuthenticateFlow, Step<String>))
        ensures
            match accepted_subject(token_claims(token@, self.jwt.issuer@, self.jwt.secret@), now) {
                Some(s) => r.0.subject@ == s && r.0.stage is AwaitBegin && r.1 matches Step::Perform(
                    Action::Begin,
                ),
                None => r.0.stage is Finished && r.1 matches Step::Done(Err(UseCaseError::Unauthorized)),
            },
    {
        let subject = token::decode_at(token, self.jwt.issuer.as_str(), self.jwt.secret.as_str(), now);
        AuthenticateFlow::from_subject(subject)
    }

    /// Starts the authentication of a bearer token at the current time.
    pub fn authenticate(&self, token: &str) -> (r: (AuthenticateFlow, Step<String>))
        ensures
            r.1 matches Step::Done(res) ==> res == Err::<String, UseCaseError>(UseCaseError::Unauthorized)
                && r.0.stage is Finished,
            r.1 matches Step::Perform(a) ==> a == Action::Begin && r.0.stage is AwaitBegin
                && (token_claims(token@, self.jwt.issuer@, self.jwt.secret@) matches Some((s, _))
                && r.0.subject@ == s),
            token_claims(token@, self.jwt.issuer@, self.jwt.secret@) is None ==> r.1 is Done,
    {
        self.authenticate_at(token, token::now_timestamp())
    }
}

} // verus!
