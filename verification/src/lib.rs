//! Client-side core of a document-conversion web service workflow.
//!
//! The service converts a file in a fixed sequence of remote calls:
//! make the file reachable (upload), import it, request the conversion,
//! poll, export, and read the result URL. This crate holds the decision
//! logic of that workflow — which call to issue next, how to interpret
//! each reply, and which error to return — as verified functions over
//! plain values. Performing the HTTP exchanges themselves is left to the
//! embedding application, which drives the [`orchestrator::Session`]
//! state machine.

use vstd::prelude::*;
use vstd::string::StringExecFns;

pub mod endpoints;
pub mod errors;
pub mod protocol;
pub mod orchestrator;
pub mod transport;

verus! {

/// The client facade: holds the bearer credential for the conversion
/// service. Construction performs no I/O and cannot fail.
pub struct Converter {
    credential: String,
}

impl Converter {
    /// The credential this client was built with.
    pub closed spec fn key(&self) -> Seq<char> {
        self.credential@
    }

    /// Builds a client around the given service credential.
    pub fn new(credential: String) -> (c: Converter)
        ensures
            c.key() == credential@,
    {
        Converter { credential }
    }

    /// The value of the `Authorization` header every call to the
    /// conversion service must carry.
    pub fn auth_header_value(&self) -> (r: String)
        ensures
            r@ == "Bearer "@ + self.key(),
    {
        let mut s: String = "Bearer ".to_owned();
        s.append(self.credential.as_str());
        s
    }
}

} // verus!
