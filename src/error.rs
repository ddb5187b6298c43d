use vstd::prelude::*;

verus! {

/// The failures a use case reports to its caller.
#[derive(Debug, Clone)]
pub enum UseCaseError {
    AccountIdExists,
    PasswordMismatch,
    InvalidCredentials,
    BadRequest(String),
    Unauthorized,
    /// A storage, hashing or signing failure; the text is kept for diagnostics
    /// and never shown to a client.
    Infrastructure(String),
}

/// The client-facing message of an error: generic for the security-sensitive
/// kinds, specific for the others.
pub open spec fn client_message(e: UseCaseError) -> Seq<char> {
    match e {
        UseCaseError::AccountIdExists => "Account ID already exists"@,
        UseCaseError::PasswordMismatch => "The entered passwords do not match"@,
        UseCaseError::BadRequest(reason) => reason@,
        UseCaseError::Unauthorized => "Unauthorized"@,
        UseCaseError::InvalidCredentials => "Invalid credentials"@,
        UseCaseError::Infrastructure(_) => "An internal server error occurred"@,
    }
}

/// The HTTP status that the transport layer answers with for an error.
pub open spec fn status_of(e: UseCaseError) -> u16 {
    match e {
        UseCaseError::AccountIdExists => 409,
        UseCaseError::PasswordMismatch => 400,
        UseCaseError::BadRequest(_) => 400,
        UseCaseError::Unauthorized => 401,
        UseCaseError::InvalidCredentials => 401,
        UseCaseError::Infrastructure(_) => 500,
    }
}

impl UseCaseError {
    /// The diagnostic description of the error, detail included.
    pub fn describe(&self) -> (r: String)
        ensures
            match self {
                UseCaseError::AccountIdExists => r@ == "Account ID already exists"@,
                UseCaseError::PasswordMismatch => r@ == "Passwords do not match"@,
                UseCaseError::InvalidCredentials => r@ == "Invalid account ID or password"@,
                UseCaseError::BadRequest(reason) => r@ == "Bad request: "@ + reason@,
                UseCaseError::Unauthorized => r@ == "Un Authorized"@,
                UseCaseError::Infrastructure(e) => r@
                    == "An unexpected infrastructure error occurred: "@ + e@,
            },
    {
        match self {
            UseCaseError::AccountIdExists => "Account ID already exists".to_owned(),
            UseCaseError::PasswordMismatch => "Passwords do not match".to_owned(),
            UseCaseError::InvalidCredentials => "Invalid account ID or password".to_owned(),
            UseCaseError::BadRequest(reason) => "Bad request: ".to_owned().concat(reason.as_str()),
            UseCaseError::Unauthorized => "Un Authorized".to_owned(),
            UseCaseError::Infrastructure(e) => "An unexpected infrastructure error occurred: ".to_owned().concat(e.as_str()),
        }
    }

    /// The diagnostic detail of an infrastructure failure, if this is one.
    pub fn source(&self) -> (r: Option<String>)
        ensures
            match self {
                UseCaseError::Infrastructure(e) => r == Some(*e),
                _ => r is None,
            },
    {
        match self {
            UseCaseError::Infrastructure(e) => Some(e.clone()),
            _ => None,
        }
    }
}

/// A use-case error as the transport layer reports it: a status and a message.
pub struct ApiError(pub UseCaseError);

impl ApiError {
    pub fn from(error: UseCaseError) -> (r: ApiError)
        ensures
            r.0 == error,
    {
        ApiError(error)
    }

    /// The HTTP status code of the response.
    pub fn status(&self) -> (r: u16)
        ensures
            r == status_of(self.0),
    {
        match &self.0 {
            UseCaseError::AccountIdExists => 409,
            UseCaseError::PasswordMismatch => 400,
            UseCaseError::BadRequest(_) => 400,
            UseCaseError::Unauthorized => 401,
            UseCaseError::InvalidCredentials => 401,
            UseCaseError::Infrastructure(_) => 500,
        }
    }

    /// The message of the response body.
    pub fn message(&self) -> (r: String)
        ensures
            r@ == client_message(self.0),
    {
        match &self.0 {
            UseCaseError::AccountIdExists => "Account ID already exists".to_owned(),
            UseCaseError::PasswordMismatch => "The entered passwords do not match".to_owned(),
            UseCaseError::BadRequest(reason) => reason.clone(),
            UseCaseError::Unauthorized => "Unauthorized".to_owned(),
            UseCaseError::InvalidCredentials => "Invalid credentials".to_owned(),
            UseCaseError::Infrastructure(_) => "An internal server error occurred".to_owned(),
        }
    }
}

} // verus!
