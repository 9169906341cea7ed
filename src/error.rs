use vstd::prelude::*;

verus! {

/// What can go wrong while serving a request.
#[derive(PartialEq, Eq, Structural, Clone, Copy, Debug)]
pub enum FormError {
    /// An I/O failure, such as binding the listening socket.
    Io,
    /// The database refused a connection, a query or a statement.
    Sqlx,
    /// A configuration value could not be read from the environment.
    Var,
    /// The `.env` file could not be loaded.
    Dotenv,
    /// A query produced nothing usable, or a value could not be (de)serialised.
    QueryFailed,
    /// No form has the requested identifier.
    FormNotFound,
}

pub const NOT_FOUND: u16 = 404;

pub const INTERNAL_SERVER_ERROR: u16 = 500;

impl FormError {
    /// The HTTP status code a client sees for this error.
    pub open spec fn status_spec(self) -> u16 {
        match self {
            FormError::FormNotFound => NOT_FOUND,
            _ => INTERNAL_SERVER_ERROR,
        }
    }

    /// The text a client is shown for this error.
    pub open spec fn message_spec(self) -> Seq<char> {
        match self {
            FormError::Io => "I/O error"@,
            FormError::Sqlx => "Database error"@,
            FormError::Var => "Configuration error"@,
            FormError::Dotenv => "Environment file error"@,
            FormError::QueryFailed => "Query failed"@,
            FormError::FormNotFound => "Form not found"@,
        }
    }

    /// Describes the error in words.
    pub fn message(&self) -> (r: String)
        ensures
            r@ == self.message_spec(),
    {
        match self {
            FormError::Io => "I/O error".to_string(),
            FormError::Sqlx => "Database error".to_string(),
            FormError::Var => "Configuration error".to_string(),
            FormError::Dotenv => "Environment file error".to_string(),
            FormError::QueryFailed => "Query failed".to_string(),
            FormError::FormNotFound => "Form not found".to_string(),
        }
    }

    /// Not found is 404; every other failure is 500.
    pub fn status(&self) -> (r: u16)
        ensures
            r == self.status_spec(),
            r == NOT_FOUND <==> *self == FormError::FormNotFound,
    {
        match self {
            FormError::FormNotFound => NOT_FOUND,
            _ => INTERNAL_SERVER_ERROR,
        }
    }
}

} // verus!
