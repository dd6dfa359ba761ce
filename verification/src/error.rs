//! The node's error type.
//!
//! The errors of the services that the node drives are kept as the text they
//! display, so that the decisions of the node can be stated over plain values.
use vstd::prelude::*;
use vstd::std_specs::convert::FromSpecImpl;

verus! {

/// Subspace node error.
#[derive(Debug)]
pub enum Error {
    /// Subspace service error (the text it displays).
    SubspaceService(String),
    /// CLI error (the text it displays).
    SubstrateCli(String),
    /// Substrate service error (the text it displays).
    SubstrateService(String),
    /// Other kind of error.
    Other(String),
}

/// The text that an error displays: the wrapped service errors are shown
/// as they are, other errors behind the word `Other`.
pub open spec fn error_message(e: Error) -> Seq<char> {
    match e {
        Error::SubspaceService(s) => s@,
        Error::SubstrateCli(s) => s@,
        Error::SubstrateService(s) => s@,
        Error::Other(s) => "Other: "@ + s@,
    }
}

impl Error {
    /// The text this error displays.
    pub fn message(&self) -> (res: String)
        ensures
            res@ == error_message(*self),
            self matches Error::SubspaceService(m) ==> res@ == m@,
            self matches Error::SubstrateCli(m) ==> res@ == m@,
            self matches Error::SubstrateService(m) ==> res@ == m@,
            self matches Error::Other(m) ==> res@ == "Other: "@ + m@,
    {
        match self {
            Error::SubspaceService(s) => s.clone(),
            Error::SubstrateCli(s) => s.clone(),
            Error::SubstrateService(s) => s.clone(),
            Error::Other(s) => {
                let mut res = String::from_str("Other: ");
                res.append(s.as_str());
                res
            },
        }
    }
}

impl From<String> for Error {
    fn from(s: String) -> (res: Self)
        ensures
            res == Error::Other(s),
    {
        Error::Other(s)
    }
}

impl FromSpecImpl<String> for Error {
    open spec fn obeys_from_spec() -> bool {
        true
    }

    open spec fn from_spec(v: String) -> Self {
        Error::Other(v)
    }
}

} // verus!
