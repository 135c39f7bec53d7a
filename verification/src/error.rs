use vstd::prelude::*;

verus! {

/// Why a conversion was refused.
#[derive(Clone, Copy, Debug, PartialEq, Eq, Structural)]
pub enum XfrError {
    /// The input does not have the length that its target type fixes.
    LengthError,
    /// The input has a plausible length but the engine, or the layout of the
    /// engine's container, does not accept it.
    FormatError,
    /// A value would have to be handed to the engine under a scheme that its
    /// compact form cannot represent.
    SchemeMismatch,
    /// The engine's value uses a scheme that has no compact form here.
    UnsupportedScheme,
    /// The owner key nested in a record could not be converted.
    KeyFormatError,
    /// The engine did not produce, or did not accept, a signature.
    SignatureError,
}

impl XfrError {
    /// A short description, for messages.
    pub fn to_string(&self) -> (s: String)
        ensures
            s@ == Self::message(*self)@,
    {
        match self {
            XfrError::LengthError => "wrong length".to_string(),
            XfrError::FormatError => "malformed encoding".to_string(),
            XfrError::SchemeMismatch => "scheme mismatch".to_string(),
            XfrError::UnsupportedScheme => "unsupported scheme".to_string(),
            XfrError::KeyFormatError => "malformed owner key".to_string(),
            XfrError::SignatureError => "signature error".to_string(),
        }
    }

    /// The text of [`XfrError::to_string`].
    pub open spec fn message(e: XfrError) -> &'static str {
        match e {
            XfrError::LengthError => "wrong length",
            XfrError::FormatError => "malformed encoding",
            XfrError::SchemeMismatch => "scheme mismatch",
            XfrError::UnsupportedScheme => "unsupported scheme",
            XfrError::KeyFormatError => "malformed owner key",
            XfrError::SignatureError => "signature error",
        }
    }
}

} // verus!
