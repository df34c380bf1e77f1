//! Error type of the library. Callers distinguish failures only by `kind`:
//! "io" for unreadable or unwritable targets, "parse" for malformed input,
//! "invariant" for a flag that gates a missing or unencodable section, and
//! "unimplemented" for sections the format model does not yet serialize.

use vstd::prelude::*;
use vstd::string::StringExecFns;

verus! {

#[derive(Debug)]
pub struct MSLinkError {
    pub kind: String,
    pub message: String,
}

impl MSLinkError {
    /// An error raised by the surrounding input/output layer.
    pub fn io_error(message: String) -> (e: MSLinkError)
        ensures
            e.kind@ == "io"@,
            e.message == message,
    {
        MSLinkError { kind: String::from_str("io"), message }
    }

    /// Malformed input: a path or field that cannot be encoded.
    pub fn parse_error(message: String) -> (e: MSLinkError)
        ensures
            e.kind@ == "parse"@,
            e.message == message,
    {
        MSLinkError { kind: String::from_str("parse"), message }
    }

    /// A presence flag is set but its section is missing or does not fit
    /// the format's size fields.
    pub fn invariant_error(message: String) -> (e: MSLinkError)
        ensures
            e.kind@ == "invariant"@,
            e.message == message,
    {
        MSLinkError { kind: String::from_str("invariant"), message }
    }

    /// A section that the model carries but cannot serialize yet.
    pub fn unimplemented_error(message: String) -> (e: MSLinkError)
        ensures
            e.kind@ == "unimplemented"@,
            e.message == message,
    {
        MSLinkError { kind: String::from_str("unimplemented"), message }
    }

    /// The kind and message joined as "kind:message".
    pub fn msg(&self) -> (s: String)
        ensures
            s@ == self.kind@ + ":"@ + self.message@,
    {
        let head = self.kind.clone().concat(":");
        let s = head.concat(self.message.as_str());
        assert(s@ =~= self.kind@ + ":"@ + self.message@);
        s
    }
}

} // verus!
