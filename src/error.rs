//! The classified errors of the bridge.
use vstd::prelude::*;

use crate::types::{Ruby, Rust};

verus! {

/// Largest number of arguments that one call into the guest may carry.
pub const MRB_FUNCALL_ARGC_MAX: usize = 16;

/// A conversion between a host type and a guest value that cannot be made.
#[allow(inconsistent_fields)]
#[derive(Clone, Copy, Debug, PartialEq, Eq, Structural)]
pub enum ConvertError {
    /// A guest value of tag `from` has no host representation of type `to`.
    ToRust { from: Ruby, to: Rust },
    /// A host value of type `from` cannot become a guest value of tag `to`.
    ToRuby { from: Rust, to: Ruby },
}

/// Every way in which a call across the bridge can fail.
#[allow(inconsistent_fields)]
#[derive(Debug, PartialEq, Eq)]
pub enum ArtichokeError {
    /// More arguments were given than a call may carry.
    TooManyArgs { given: usize, max: usize },
    /// The guest raised; the message is `Class: text` of the exception.
    Exec(String),
    /// A guest result could not become the requested host type.
    ConvertToRust { from: Ruby, to: Rust },
    /// A host value could not become a guest value.
    ConvertToRuby { from: Rust, to: Ruby },
    /// The guest handed back a value with a tag internal to it.
    UnreachableValue(Ruby),
    /// The last-error slot held something that is not a readable exception.
    UnableToExtractException,
}

impl ArtichokeError {
    /// The classified error for a failed conversion.
    pub fn from_convert(e: ConvertError) -> (r: ArtichokeError)
        ensures
            r == convert_error(e),
    {
        match e {
            ConvertError::ToRust { from, to } => ArtichokeError::ConvertToRust { from, to },
            ConvertError::ToRuby { from, to } => ArtichokeError::ConvertToRuby { from, to },
        }
    }
}

/// The classified error for a failed conversion.
pub open spec fn convert_error(e: ConvertError) -> ArtichokeError {
    match e {
        ConvertError::ToRust { from, to } => ArtichokeError::ConvertToRust { from, to },
        ConvertError::ToRuby { from, to } => ArtichokeError::ConvertToRuby { from, to },
    }
}

} // verus!
