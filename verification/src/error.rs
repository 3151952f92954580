//! Errors of the library.

use vstd::prelude::*;

verus! {

/// Why a profile target cannot be turned into a connection.
#[derive(Debug)]
pub enum AuthError {
    /// A setting is missing or of the wrong kind.
    Config(String),
    /// A YAML value could not be converted.
    Yaml(dbt_yaml::Error),
}

/// An [`AuthError`] as contracts speak of it.
pub enum AuthFailure {
    Config(Seq<char>),
    Yaml(dbt_yaml::Error),
}

impl View for AuthError {
    type V = AuthFailure;

    open spec fn view(&self) -> AuthFailure {
        match self {
            AuthError::Config(message) => AuthFailure::Config(message@),
            AuthError::Yaml(e) => AuthFailure::Yaml(*e),
        }
    }
}

impl AuthError {
    pub fn config(message: &str) -> (e: Self)
        ensures
            e@ == AuthFailure::Config(message@),
    {
        AuthError::Config(message.to_owned())
    }
}

/// Why an interaction with the user came to no end.
#[derive(Debug)]
pub struct FsError {
    pub message: String,
}

/// The result of something that interacts with the user.
pub type FsResult<T> = Result<T, FsError>;

} // verus!
