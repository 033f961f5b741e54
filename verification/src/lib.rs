use vstd::prelude::*;
use vstd::string::StringExecFns;

pub mod commands;
pub mod constants;
pub mod utils;
pub mod vercel;

use crate::vercel::remote_client::RemoteClient;

verus! {

/// The errors of this library. Each carries a human-readable detail.
#[derive(Debug, Clone, PartialEq, Eq)]
pub enum Error {
    FileNotFound(String),
    InvalidInput(String),
    EnvVarNotFound(String),
    ReqwestError(String),
    /// Any other failure, by its message.
    Other(String),
}

/// The result type of this library.
pub type Result<T> = std::result::Result<T, Error>;

/// What an error reads as when shown to a user: a fixed prefix that names
/// its kind, then its detail.
pub open spec fn error_message(e: Error) -> Seq<char> {
    match e {
        Error::FileNotFound(m) => "File not found: "@ + m@,
        Error::InvalidInput(m) => "Invalid input: "@ + m@,
        Error::EnvVarNotFound(m) => "Environment variable not found: "@ + m@,
        Error::ReqwestError(m) => "Reqwest error: "@ + m@,
        Error::Other(m) => "Other error: "@ + m@,
    }
}

impl Error {
    /// The text shown for this error (see `error_message`).
    pub fn message(&self) -> (text: String)
        ensures
            text@ == error_message(*self),
    {
        let (prefix, detail) = match self {
            Error::FileNotFound(m) => ("File not found: ", m),
            Error::InvalidInput(m) => ("Invalid input: ", m),
            Error::EnvVarNotFound(m) => ("Environment variable not found: ", m),
            Error::ReqwestError(m) => ("Reqwest error: ", m),
            Error::Other(m) => ("Other error: ", m),
        };
        let mut text = String::from_str(prefix);
        text.append(detail.as_str());
        text
    }
}

/// Builds the client of the remote cache for `token`, an optional team and
/// the product that makes the requests.
pub fn get_remote_client(token: String, team_id: Option<String>, product: String) -> (client:
    RemoteClient)
    ensures
        client@.token == token@,
        client@.team_id == crate::vercel::remote_client::opt_view(team_id),
        client@.user_agent == crate::vercel::utils::user_agent_for(product@),
{
    RemoteClient::new(token, team_id, product)
}

} // verus!
