//! The build-time failures of the generator. Every failure is a hard abort
//! of the build with a descriptive diagnostic; the generated operations
//! themselves surface no error at runtime.

use vstd::prelude::*;
use crate::text::{append_chars, str_chars};

verus! {

/// One reason for the generator to abort the build. Each variant carries a
/// distinct diagnostic so that the failing input can be identified; the
/// missing-layout variant names the offending type.
#[derive(Clone, PartialEq, Eq, Debug)]
pub enum MacroError {
    /// The attribute received a number of argument tokens other than one.
    InvalidArgumentCount,
    /// The single argument token is not an identifier.
    InvalidArgumentToken,
    /// The annotated type definition, whose identifier is carried here,
    /// declares no C-compatible layout.
    MissingReprC(Vec<char>),
    /// The annotated identifier does not start with the domain prefix.
    MissingPrefix,
    /// The annotated identifier does not end with the handle suffix.
    MissingSuffix,
}

impl MacroError {
    /// The diagnostic text of this failure.
    pub open spec fn message_spec(&self) -> Seq<char> {
        match self {
            MacroError::InvalidArgumentCount => "Invalid attribute definition! Format must be '#[iceoryx2_ffi(Type)]'"@,
            MacroError::InvalidArgumentToken => "Invalid type argument! Format must be '#[iceoryx2_ffi(Type)]'"@,
            MacroError::MissingReprC(ident) => "The 'repr(C)' attribute is missing from '"@
                + ident@ + "'!"@,
            MacroError::MissingPrefix => "The struct must have an 'iox2_' prefix"@,
            MacroError::MissingSuffix => "The struct must have a '_t' suffix"@,
        }
    }

    /// Hands the diagnostic text of this failure to the caller.
    pub fn message(&self) -> (r: Vec<char>)
        ensures
            r@ == self.message_spec(),
    {
        match self {
            MacroError::InvalidArgumentCount => str_chars(
                "Invalid attribute definition! Format must be '#[iceoryx2_ffi(Type)]'",
            ),
            MacroError::InvalidArgumentToken => str_chars(
                "Invalid type argument! Format must be '#[iceoryx2_ffi(Type)]'",
            ),
            MacroError::MissingReprC(ident) => {
                let mut m = str_chars("The 'repr(C)' attribute is missing from '");
                append_chars(&mut m, ident);
                let tail = str_chars("'!");
                append_chars(&mut m, &tail);
                proof {
                    assert(m@ =~= self.message_spec());
                }
                m
            },
            MacroError::MissingPrefix => str_chars("The struct must have an 'iox2_' prefix"),
            MacroError::MissingSuffix => str_chars("The struct must have a '_t' suffix"),
        }
    }
}

} // verus!
