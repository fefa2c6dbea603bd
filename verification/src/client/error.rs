//! Errors of the feeder.
use vstd::prelude::*;
use vstd::string::StringExecFns;

verus! {

/// Why a feeder operation failed.
#[derive(Clone, Debug)]
pub enum ClientError {
    InvalidParam(String),
    CannotFetchDataFromAPIServer(String),
}

/// `inner` between `prefix` and `suffix`.
fn enclose(prefix: &str, inner: &str, suffix: &str) -> (s: String)
    ensures
        s@ == prefix@ + inner@ + suffix@,
{
    let mut s = prefix.to_owned();
    s.append(inner);
    s.append(suffix);
    s
}

/// The text of a `ClientError`.
pub open spec fn client_error_text(e: ClientError) -> Seq<char> {
    match e {
        ClientError::InvalidParam(p) => "The param '"@ + p@ + "' is not valid."@,
        ClientError::CannotFetchDataFromAPIServer(u) => "Can not fetch data from API server '"@ + u@
            + "'"@,
    }
}

impl ClientError {
    /// The message of the error.
    pub fn message(&self) -> (s: String)
        ensures
            s@ == client_error_text(*self),
    {
        match self {
            ClientError::InvalidParam(p) => enclose("The param '", p.as_str(), "' is not valid."),
            ClientError::CannotFetchDataFromAPIServer(u) => enclose(
                "Can not fetch data from API server '",
                u.as_str(),
                "'",
            ),
        }
    }
}

} // verus!
