//! Typed translation of the engine's numeric failure codes.
//!
//! The engine signals failure with a signed 32-bit code. Exactly eleven
//! codes are documented; each maps to one variant of [`AqtkError`]. A
//! code outside the table is a contract violation by the engine and is
//! surfaced as [`SynthError::UnrecognizedCode`], never as a panic.

use vstd::prelude::*;

verus! {

/// The engine's documented failure conditions, one variant per code.
#[derive(Clone, Copy, PartialEq, Eq, Structural, Debug)]
pub enum AqtkError {
    /// Code 100: unknown or otherwise unclassified error.
    Unknown,
    /// Code 101: the engine ran out of memory.
    OutOfMemory,
    /// Code 103: malformed phonetic input, such as an invalid leading
    /// long-vowel or geminate mark.
    BadInput,
    /// Code 104: the phonetic input has no valid reading.
    InputNotUnderstandable,
    /// Code 105: an undefined reading symbol appears in the input.
    BadSymbolInInput,
    /// Code 106: a tag in the input is malformed.
    BadTagInInput,
    /// Code 107: a tag exceeds the length limit or is unterminated.
    InputTooLong,
    /// Code 108: an incorrect value inside a tag.
    TagValueIncorrect,
    /// Code 120: the overall input string is too long.
    InputStringTooLong,
    /// Code 121: too many reading symbols in one phrase.
    PhraseLimitExceeded,
    /// Code 122: an internal buffer overflowed on overlong input.
    InternalBufferOverflow,
}

/// The closed code table: the typed error a documented code stands for,
/// or `None` for a code the engine never documented.
pub open spec fn spec_error_of_code(code: int) -> Option<AqtkError> {
    if code == 100 {
        Some(AqtkError::Unknown)
    } else if code == 101 {
        Some(AqtkError::OutOfMemory)
    } else if code == 103 {
        Some(AqtkError::BadInput)
    } else if code == 104 {
        Some(AqtkError::InputNotUnderstandable)
    } else if code == 105 {
        Some(AqtkError::BadSymbolInInput)
    } else if code == 106 {
        Some(AqtkError::BadTagInInput)
    } else if code == 107 {
        Some(AqtkError::InputTooLong)
    } else if code == 108 {
        Some(AqtkError::TagValueIncorrect)
    } else if code == 120 {
        Some(AqtkError::InputStringTooLong)
    } else if code == 121 {
        Some(AqtkError::PhraseLimitExceeded)
    } else if code == 122 {
        Some(AqtkError::InternalBufferOverflow)
    } else {
        None
    }
}

/// The numeric code each typed error stands for.
pub open spec fn spec_code_of_error(e: AqtkError) -> int {
    match e {
        AqtkError::Unknown => 100,
        AqtkError::OutOfMemory => 101,
        AqtkError::BadInput => 103,
        AqtkError::InputNotUnderstandable => 104,
        AqtkError::BadSymbolInInput => 105,
        AqtkError::BadTagInInput => 106,
        AqtkError::InputTooLong => 107,
        AqtkError::TagValueIncorrect => 108,
        AqtkError::InputStringTooLong => 120,
        AqtkError::PhraseLimitExceeded => 121,
        AqtkError::InternalBufferOverflow => 122,
    }
}

impl AqtkError {
    /// Translates a numeric engine code to its typed error: `Ok` exactly
    /// on the eleven documented codes, each to its own variant, and
    /// `Err(())` on every other value.
    pub fn try_from(value: i32) -> (r: Result<AqtkError, ()>)
        ensures
            r matches Ok(e) ==> spec_error_of_code(value as int) == Some(e),
            r is Err <==> spec_error_of_code(value as int) is None,
    {
        match value {
            100 => Ok(AqtkError::Unknown),
            101 => Ok(AqtkError::OutOfMemory),
            103 => Ok(AqtkError::BadInput),
            104 => Ok(AqtkError::InputNotUnderstandable),
            105 => Ok(AqtkError::BadSymbolInInput),
            106 => Ok(AqtkError::BadTagInInput),
            107 => Ok(AqtkError::InputTooLong),
            108 => Ok(AqtkError::TagValueIncorrect),
            120 => Ok(AqtkError::InputStringTooLong),
            121 => Ok(AqtkError::PhraseLimitExceeded),
            122 => Ok(AqtkError::InternalBufferOverflow),
            _ => Err(()),
        }
    }

    /// The numeric engine code this typed error stands for.
    pub fn code(&self) -> (r: i32)
        ensures
            r as int == spec_code_of_error(*self),
    {
        match self {
            AqtkError::Unknown => 100,
            AqtkError::OutOfMemory => 101,
            AqtkError::BadInput => 103,
            AqtkError::InputNotUnderstandable => 104,
            AqtkError::BadSymbolInInput => 105,
            AqtkError::BadTagInInput => 106,
            AqtkError::InputTooLong => 107,
            AqtkError::TagValueIncorrect => 108,
            AqtkError::InputStringTooLong => 120,
            AqtkError::PhraseLimitExceeded => 121,
            AqtkError::InternalBufferOverflow => 122,
        }
    }
}

/// Every failure the adapter can report: one of the engine's documented
/// conditions, or a code the table does not hold, carried verbatim.
#[derive(Clone, Copy, PartialEq, Eq, Structural, Debug)]
pub enum SynthError {
    /// A documented engine failure.
    Engine(AqtkError),
    /// The engine signalled failure with a code outside the documented
    /// table; the raw code is kept for diagnosis.
    UnrecognizedCode(i32),
}

/// The failure the adapter reports for a numeric engine code: the typed
/// documented error where the table holds the code, and the
/// unrecognized-code error, carrying the code verbatim, where it does
/// not.
pub open spec fn spec_synth_error_of_code(code: i32) -> SynthError {
    match spec_error_of_code(code as int) {
        Some(e) => SynthError::Engine(e),
        None => SynthError::UnrecognizedCode(code),
    }
}

/// Distinct documented codes translate to distinct typed errors: the
/// code table is injective, so no two of the eleven codes share a
/// variant.
pub proof fn lemma_error_codes_distinct(a: int, b: int)
    requires
        spec_error_of_code(a) is Some,
        spec_error_of_code(b) is Some,
        a != b,
    ensures
        spec_error_of_code(a) != spec_error_of_code(b),
{
}

/// The two directions of the code table agree: every typed error's own
/// numeric code translates back to exactly that error.
pub proof fn lemma_code_round_trip(e: AqtkError)
    ensures
        spec_error_of_code(spec_code_of_error(e)) == Some(e),
{
}

} // verus!
