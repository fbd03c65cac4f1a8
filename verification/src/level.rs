//! Compression levels and their validation.

use crate::error::BindingError;
use vstd::prelude::*;

verus! {

/// The effort settings the codec supports. The set is closed and has a gap:
/// there is no level 2.
#[derive(Debug, Clone, Copy, PartialEq, Eq, Hash, Structural)]
pub enum CompressionLevel {
    Zero,
    One,
    Three,
}

impl CompressionLevel {
    /// The number a caller writes for this level.
    pub open spec fn number(self) -> int {
        match self {
            CompressionLevel::Zero => 0,
            CompressionLevel::One => 1,
            CompressionLevel::Three => 3,
        }
    }

    /// The number a caller writes for this level.
    pub fn as_u8(self) -> (n: u8)
        ensures
            n == self.number(),
    {
        match self {
            CompressionLevel::Zero => 0,
            CompressionLevel::One => 1,
            CompressionLevel::Three => 3,
        }
    }
}

/// Whether `raw` names a supported level.
pub open spec fn is_valid_level(raw: int) -> bool {
    raw == 0 || raw == 1 || raw == 3
}

/// The level that `raw` names, if it names one.
pub open spec fn level_of(raw: int) -> Option<CompressionLevel> {
    if raw == 0 {
        Some(CompressionLevel::Zero)
    } else if raw == 1 {
        Some(CompressionLevel::One)
    } else if raw == 3 {
        Some(CompressionLevel::Three)
    } else {
        None
    }
}

/// Turns a caller-supplied number into a level.
///
/// Exactly 0, 1 and 3 are accepted; every other integer, 2 and the negative
/// ones included, is refused with [`BindingError::InvalidLevel`].
pub fn parse_level(raw: i64) -> (parsed: Result<CompressionLevel, BindingError>)
    ensures
        parsed is Ok <==> is_valid_level(raw as int),
        match level_of(raw as int) {
            Some(level) => parsed == Ok::<CompressionLevel, BindingError>(level),
            None => parsed == Err::<CompressionLevel, BindingError>(BindingError::InvalidLevel),
        },
{
    if raw == 0 {
        Ok(CompressionLevel::Zero)
    } else if raw == 1 {
        Ok(CompressionLevel::One)
    } else if raw == 3 {
        Ok(CompressionLevel::Three)
    } else {
        Err(BindingError::InvalidLevel)
    }
}

/// `level_of` accepts exactly the valid numbers and inverts `number`.
pub proof fn lemma_level_of_inverts_number(raw: int, level: CompressionLevel)
    ensures
        level_of(raw) is Some <==> is_valid_level(raw),
        level_of(raw) == Some(level) <==> level.number() == raw,
        level_of(level.number()) == Some(level),
{
}

} // verus!
