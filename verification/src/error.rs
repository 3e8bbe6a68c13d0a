//! The error surface of the bridge.
//!
//! Request-validation problems map to a client-error class and every
//! transport, logical or time-source failure maps to a server-error
//! class, mirroring the two DAB response classes the dispatcher knows.

use vstd::prelude::*;

verus! {

/// An error reported to the DAB dispatcher.
///
/// `Err400` is the client-error class (request validation), `Err500`
/// the server-error class (transport, logical and time-source failures
/// on the device side).  The payload is the human-readable message that
/// the DAB response carries.
#[derive(Debug)]
pub enum DabError {
    Err400(String),
    Err500(String),
}

impl DabError {
    /// The message the error carries, independent of its class.
    pub open spec fn spec_message(&self) -> Seq<char> {
        match self {
            DabError::Err400(m) => m@,
            DabError::Err500(m) => m@,
        }
    }

    /// The message the error carries, independent of its class.
    pub fn message(&self) -> (m: &String)
        ensures
            m@ == self.spec_message(),
    {
        match self {
            DabError::Err400(m) => m,
            DabError::Err500(m) => m,
        }
    }
}

} // verus!
