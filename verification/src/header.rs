use vstd::prelude::*;
use vstd::arithmetic::power2::lemma2_to64;

use crate::bits::{bits_of, lemma_bits_of_bound, read_field};
use crate::errors::TlpError;

verus! {

/// The thirteen fields of the first header doubleword (DW0), exactly as they
/// stand in the wire bits.  `format` holds the raw 3-bit Format code; mapping
/// it to the `Format` enum can fail separately without losing these fields.
#[derive(Clone, Copy, Debug, PartialEq, Eq, Structural)]
pub struct PacketHeader {
    /// Raw 3-bit Format code, bits [0, 3).
    pub format: u8,
    /// 5-bit Type code, bits [3, 8).
    pub type_code: u8,
    /// 1-bit T9 flag, bit 8.
    pub t9: u8,
    /// 3-bit Traffic Class, bits [9, 12).
    pub traffic_class: u8,
    /// 1-bit T8 flag, bit 12.
    pub t8: u8,
    /// 1-bit Attr\[2\] flag, bit 13.
    pub attr_b2: u8,
    /// 1-bit LN flag, bit 14.
    pub ln: u8,
    /// 1-bit TH flag, bit 15.
    pub th: u8,
    /// 1-bit TD flag, bit 16.
    pub td: u8,
    /// 1-bit EP flag, bit 17.
    pub ep: u8,
    /// 2-bit Attr field, bits [18, 20).
    pub attr: u8,
    /// 2-bit Address Type, bits [20, 22).
    pub address_type: u8,
    /// 10-bit Length in doublewords, bits [22, 32).
    pub length: u16,
}

/// The header that the DW0 bits of `bytes` denote: each field is the
/// MSB-first bit range the wire format assigns to it.
pub open spec fn spec_header(bytes: Seq<u8>) -> PacketHeader {
    PacketHeader {
        format: bits_of(bytes, 0, 3) as u8,
        type_code: bits_of(bytes, 3, 5) as u8,
        t9: bits_of(bytes, 8, 1) as u8,
        traffic_class: bits_of(bytes, 9, 3) as u8,
        t8: bits_of(bytes, 12, 1) as u8,
        attr_b2: bits_of(bytes, 13, 1) as u8,
        ln: bits_of(bytes, 14, 1) as u8,
        th: bits_of(bytes, 15, 1) as u8,
        td: bits_of(bytes, 16, 1) as u8,
        ep: bits_of(bytes, 17, 1) as u8,
        attr: bits_of(bytes, 18, 2) as u8,
        address_type: bits_of(bytes, 20, 2) as u8,
        length: bits_of(bytes, 22, 10) as u16,
    }
}

/// Decodes DW0 into the thirteen common header fields.  Fails with
/// `TooShort` exactly when fewer than 4 bytes are available.
pub fn decode_header(bytes: &Vec<u8>) -> (r: Result<PacketHeader, TlpError>)
    ensures
        match r {
            Ok(h) => bytes@.len() >= 4 && h == spec_header(bytes@),
            Err(e) => e == TlpError::TooShort && bytes@.len() < 4,
        },
{
    if bytes.len() < 4 {
        return Err(TlpError::TooShort);
    }
    proof {
        lemma2_to64();
        lemma_bits_of_bound(bytes@, 0, 3);
        lemma_bits_of_bound(bytes@, 3, 5);
        lemma_bits_of_bound(bytes@, 8, 1);
        lemma_bits_of_bound(bytes@, 9, 3);
        lemma_bits_of_bound(bytes@, 12, 1);
        lemma_bits_of_bound(bytes@, 13, 1);
        lemma_bits_of_bound(bytes@, 14, 1);
        lemma_bits_of_bound(bytes@, 15, 1);
        lemma_bits_of_bound(bytes@, 16, 1);
        lemma_bits_of_bound(bytes@, 17, 1);
        lemma_bits_of_bound(bytes@, 18, 2);
        lemma_bits_of_bound(bytes@, 20, 2);
        lemma_bits_of_bound(bytes@, 22, 10);
    }
    let h = PacketHeader {
        format: read_field(bytes, 0, 3) as u8,
        type_code: read_field(bytes, 3, 5) as u8,
        t9: read_field(bytes, 8, 1) as u8,
        traffic_class: read_field(bytes, 9, 3) as u8,
        t8: read_field(bytes, 12, 1) as u8,
        attr_b2: read_field(bytes, 13, 1) as u8,
        ln: read_field(bytes, 14, 1) as u8,
        th: read_field(bytes, 15, 1) as u8,
        td: read_field(bytes, 16, 1) as u8,
        ep: read_field(bytes, 17, 1) as u8,
        attr: read_field(bytes, 18, 2) as u8,
        address_type: read_field(bytes, 20, 2) as u8,
        length: read_field(bytes, 22, 10) as u16,
    };
    Ok(h)
}

} // verus!
