use vstd::prelude::*;

use crate::errors::TlpError;

verus! {

/// One TLP as an immutable owned byte sequence: at least the 4 bytes of DW0,
/// and always a whole number of 4-byte doublewords.  Constructed once from
/// validated bytes and never mutated; the decoded header and category fields
/// are views computed from it on demand.
pub struct RawPacket {
    bytes: Vec<u8>,
}

impl View for RawPacket {
    type V = Seq<u8>;

    closed spec fn view(&self) -> Seq<u8> {
        self.bytes@
    }
}

impl RawPacket {
    /// The packet invariant: DW0 is present and the byte count is
    /// doubleword-aligned.
    #[verifier::type_invariant]
    pub closed spec fn wf(self) -> bool {
        self.bytes@.len() >= 4 && self.bytes@.len() % 4 == 0
    }

    /// Wraps validated bytes.  Fails with `TooShort` when DW0 is incomplete
    /// and with `NotDoublewordAligned` when the byte count is not a whole
    /// number of doublewords.
    pub fn new(bytes: Vec<u8>) -> (r: Result<RawPacket, TlpError>)
        ensures
            match r {
                Ok(p) => bytes@.len() >= 4 && bytes@.len() % 4 == 0 && p@ == bytes@,
                Err(e) => if bytes@.len() < 4 {
                    e == TlpError::TooShort
                } else {
                    bytes@.len() % 4 != 0 && e == TlpError::NotDoublewordAligned(
                        bytes@.len() as usize,
                    )
                },
            },
    {
        if bytes.len() < 4 {
            Err(TlpError::TooShort)
        } else if bytes.len() % 4 != 0 {
            Err(TlpError::NotDoublewordAligned(bytes.len()))
        } else {
            Ok(RawPacket { bytes })
        }
    }

    /// The packet bytes; at least one whole doubleword by the invariant.
    pub fn data(&self) -> (r: &Vec<u8>)
        ensures
            r@ == self@,
            self@.len() >= 4,
            self@.len() % 4 == 0,
    {
        proof {
            use_type_invariant(self);
        }
        &self.bytes
    }

    /// The byte count; at least 4 and doubleword-aligned by the invariant.
    pub fn len(&self) -> (r: usize)
        ensures
            r == self@.len(),
            self@.len() >= 4,
            self@.len() % 4 == 0,
    {
        proof {
            use_type_invariant(self);
        }
        self.bytes.len()
    }
}

} // verus!
