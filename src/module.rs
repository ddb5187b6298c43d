use vstd::prelude::*;
use crate::auth::AuthUseCase;
use crate::config::JwtConfig;
use crate::error::UseCaseError;
use crate::todo::TodoUseCase;

verus! {

/// The use cases a transport layer dispatches to.
pub trait UseCaseModule {
    fn auth(&self) -> &AuthUseCase;

    fn todo(&self) -> &TodoUseCase;
}

/// The use cases, built once at start-up and shared read-only.
pub struct UseCaseModuleImpl {
    pub auth: AuthUseCase,
    pub todo: TodoUseCase,
}

impl UseCaseModuleImpl {
    pub fn new(jwt: JwtConfig) -> (r: UseCaseModuleImpl)
        ensures
            r.auth.jwt == jwt,
    {
        UseCaseModuleImpl { auth: AuthUseCase::new(jwt), todo: TodoUseCase::new() }
    }
}

impl UseCaseModule for UseCaseModuleImpl {
    fn auth(&self) -> &AuthUseCase {
        &self.auth
    }

    fn todo(&self) -> &TodoUseCase {
        &self.todo
    }
}

/// The account a request acts for, once its bearer token was authenticated.
#[derive(Debug, Clone)]
pub struct AuthUser {
    pub account: String,
}

/// The account a request acts for, where authentication is optional.
#[derive(Debug, Clone)]
pub struct AuthOptionUser {
    pub account: Option<String>,
}

impl AuthUser {
    /// The guard's decision for a route that requires authentication: the
    /// account on success, `None` (the request is refused) on any error.
    pub fn from_outcome(outcome: Result<String, UseCaseError>) -> (r: Option<AuthUser>)
        ensures
            match outcome {
                Ok(a) => r matches Some(u) && u.account == a,
                Err(_) => r is None,
            },
    {
        match outcome {
            Ok(account) => Some(AuthUser { account }),
            Err(_) => None,
        }
    }
}

impl AuthOptionUser {
    /// The guard's decision for a route where authentication is optional: the
    /// account on success, no account on any error; the request goes on
    /// either way.
    pub fn from_outcome(outcome: Option<Result<String, UseCaseError>>) -> (r: AuthOptionUser)
        ensures
            match outcome {
                Some(Ok(a)) => r.account == Some(a),
                _ => r.account is None,
            },
    {
        match outcome {
            Some(Ok(account)) => AuthOptionUser { account: Some(account) },
            _ => AuthOptionUser { account: None },
        }
    }
}

} // verus!
