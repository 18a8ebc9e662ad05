use vstd::prelude::*;

verus! {

/// All errors raised by the web app.
#[derive(Debug, PartialEq, Eq)]
pub enum AppError {
    /// Database error
    Database,
    /// Generic bad request. It is handled with a message value
    BadRequest(String),
    /// Not found error, with a message naming the missing resource
    NotFound(String),
    /// Raised when the requester lacks the right to perform the action
    Unauthorized,
    /// Raised when a token is not well created
    TokenCreation,
    /// Raised when a passed token is not valid
    InvalidToken,
}

/// What `serde_json` produces for the one-entry object `{"error": msg}`.
pub uninterp spec fn json_error_body_of(msg: Seq<char>) -> Seq<char>;

/// Relies on `serde_json::to_string` over a one-entry `Value::Object`:
/// the serialized text depends on the message alone.
#[verifier::external_body]
fn json_error_body(msg: &String) -> (r: String)
    ensures
        r@ == json_error_body_of(msg@),
{
    let mut object = serde_json::Map::new();
    object.insert("error".to_string(), serde_json::Value::String(msg.clone()));
    serde_json::to_string(&serde_json::Value::Object(object)).unwrap_or_default()
}

impl AppError {
    /// The HTTP status code the error maps to.
    pub open spec fn spec_status(&self) -> u16 {
        match self {
            AppError::Database => 500,
            AppError::BadRequest(_) => 400,
            AppError::NotFound(_) => 404,
            AppError::Unauthorized => 401,
            AppError::TokenCreation => 500,
            AppError::InvalidToken => 400,
        }
    }

    /// The message carried by the error's JSON body.
    pub open spec fn spec_message(&self) -> Seq<char> {
        match self {
            AppError::Database => "Error with database connection"@,
            AppError::BadRequest(value) => value@,
            AppError::NotFound(value) => value@,
            AppError::Unauthorized => "Unauthorized"@,
            AppError::TokenCreation => "Token creation error"@,
            AppError::InvalidToken => "Invalid token"@,
        }
    }

    /// HTTP status of the response for this error.
    pub fn status(&self) -> (s: u16)
        ensures
            s == self.spec_status(),
    {
        match self {
            AppError::Database => 500,
            AppError::BadRequest(_) => 400,
            AppError::NotFound(_) => 404,
            AppError::Unauthorized => 401,
            AppError::TokenCreation => 500,
            AppError::InvalidToken => 400,
        }
    }

    /// Error message of the response for this error.
    pub fn message(&self) -> (m: String)
        ensures
            m@ == self.spec_message(),
    {
        match self {
            AppError::Database => String::from_str("Error with database connection"),
            AppError::BadRequest(value) => value.clone(),
            AppError::NotFound(value) => value.clone(),
            AppError::Unauthorized => String::from_str("Unauthorized"),
            AppError::TokenCreation => String::from_str("Token creation error"),
            AppError::InvalidToken => String::from_str("Invalid token"),
        }
    }

    /// The response body: a JSON object in the format `{ "error": "<message>" }`.
    pub fn body(&self) -> (b: String)
        ensures
            b@ == json_error_body_of(self.spec_message()),
    {
        let msg = self.message();
        json_error_body(&msg)
    }
}

} // verus!
