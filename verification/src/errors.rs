use vstd::prelude::*;

verus! {

/// Every failure the decode pipeline can report.
///
/// The first four kinds abort a decode outright: nothing downstream of the
/// failing stage is attempted.  The last three are local to one stage; the
/// caller still receives everything decoded before that stage.
#[derive(Clone, Copy, Debug, PartialEq, Eq, Structural)]
pub enum TlpError {
    /// A character of the hex input (after whitespace removal) is not a hex
    /// digit; carries the character and its index among the non-whitespace
    /// characters.
    InvalidHexCharacter(char, usize),
    /// The hex input has an odd number of hex digits after whitespace
    /// removal; carries that digit count.
    OddLengthInput(usize),
    /// Fewer than 4 bytes are available, so there is no complete first
    /// header doubleword.
    TooShort,
    /// The byte count is not a whole number of 4-byte doublewords; carries
    /// the byte count.
    NotDoublewordAligned(usize),
    /// The 3-bit Format code has no defined meaning; carries the raw code.
    /// The raw header fields are still reported; only categorization and the
    /// category decode are withheld.
    UnknownFormatCode(u8),
    /// A Configuration or Completion packet paired with a 4-doubleword
    /// header, which the protocol forbids.
    IllegalHeaderLengthForCategory,
    /// A category decoder would have read bits beyond the available bytes.
    TruncatedField,
}

} // verus!
