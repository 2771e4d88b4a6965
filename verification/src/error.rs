//! The failures that the three operations report.

use vstd::prelude::*;
use vstd::string::StringExecFns;

verus! {

/// Why an operation failed. Each variant carries the message for the caller.
#[derive(Debug)]
pub enum ProcessingError {
    /// The transport encoding is malformed, or no codec recognises the bytes.
    Decode(String),
    /// The requested output format cannot be produced.
    UnsupportedFormat(String),
    /// The codec refused to write the raster.
    Encode(String),
}

impl ProcessingError {
    /// The message, as a sequence of characters.
    pub open spec fn text(self) -> Seq<char> {
        match self {
            ProcessingError::Decode(m) => m@,
            ProcessingError::UnsupportedFormat(m) => m@,
            ProcessingError::Encode(m) => m@,
        }
    }

    /// The message for the caller.
    pub fn message(&self) -> (m: String)
        ensures
            m@ == self.text(),
    {
        match self {
            ProcessingError::Decode(m) => m.clone(),
            ProcessingError::UnsupportedFormat(m) => m.clone(),
            ProcessingError::Encode(m) => m.clone(),
        }
    }
}

/// `text` begins with `prefix`.
pub open spec fn starts_with(text: Seq<char>, prefix: Seq<char>) -> bool {
    prefix.len() <= text.len() && text.subrange(0, prefix.len() as int) == prefix
}

/// Joins a fixed prefix and a detail into one message.
pub fn prefixed(prefix: &str, detail: &str) -> (m: String)
    ensures
        m@ == prefix@ + detail@,
        starts_with(m@, prefix@),
{
    let mut m = String::from_str(prefix);
    m.append(detail);
    assert(m@.subrange(0, prefix@.len() as int) =~= prefix@);
    m
}

} // verus!
