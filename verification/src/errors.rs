//! Why a tagged object could not be decoded.

use vstd::prelude::*;

verus! {

/// The reason a tagged object was rejected by a decoder.
///
/// A decoder never substitutes a default member for an object it cannot
/// place, and never invents a value for a mandatory field.
#[derive(Debug, Clone, Copy, PartialEq, Eq, Hash, Structural)]
pub enum DecodeFailure {
    /// The tag is none that this library decodes.
    UnknownTag,
    /// The tag is one that this library decodes, but it is no member of the
    /// family (or is not the class) that the decoder was asked for.
    WrongFamily,
    /// The tag was accepted, but a field that must always be present is
    /// absent, or holds a value of another type than the field's.
    MissingRequiredField,
}

impl DecodeFailure {
    /// A short fixed name for the failure, for logs and messages.
    pub fn name(&self) -> (s: &'static str)
        ensures
            s@ == self.spec_name(),
    {
        match self {
            DecodeFailure::UnknownTag => "unknown tag",
            DecodeFailure::WrongFamily => "wrong family",
            DecodeFailure::MissingRequiredField => "missing required field",
        }
    }

    /// The text that [`DecodeFailure::name`] returns.
    pub open spec fn spec_name(&self) -> Seq<char> {
        match self {
            DecodeFailure::UnknownTag => "unknown tag"@,
            DecodeFailure::WrongFamily => "wrong family"@,
            DecodeFailure::MissingRequiredField => "missing required field"@,
        }
    }
}

} // verus!
