use vstd::prelude::*;

use crate::bits::lemma_bits_of_reads_prefix;
use crate::classify::{
    category_of, illegal_header_length, length_class_of, Format, HeaderLengthClass, PacketCategory,
};
use crate::header::spec_header;
use crate::tool::{spec_decode_body, DecodedTlp};

verus! {

/// The common header is a read-only view of DW0 alone: every one of its
/// thirteen fields lies in the first 32 bits, so two packets whose first
/// four bytes agree decode to the same header, whatever follows.
pub proof fn lemma_header_reads_only_dw0(b1: Seq<u8>, b2: Seq<u8>)
    requires
        b1.len() >= 4,
        b2.len() >= 4,
        forall|i: int| 0 <= i < 4 ==> b1[i] == b2[i],
    ensures
        spec_header(b1) == spec_header(b2),
{
    lemma_bits_of_reads_prefix(b1, b2, 0, 3, 4);
    lemma_bits_of_reads_prefix(b1, b2, 3, 5, 4);
    lemma_bits_of_reads_prefix(b1, b2, 8, 1, 4);
    lemma_bits_of_reads_prefix(b1, b2, 9, 3, 4);
    lemma_bits_of_reads_prefix(b1, b2, 12, 1, 4);
    lemma_bits_of_reads_prefix(b1, b2, 13, 1, 4);
    lemma_bits_of_reads_prefix(b1, b2, 14, 1, 4);
    lemma_bits_of_reads_prefix(b1, b2, 15, 1, 4);
    lemma_bits_of_reads_prefix(b1, b2, 16, 1, 4);
    lemma_bits_of_reads_prefix(b1, b2, 17, 1, 4);
    lemma_bits_of_reads_prefix(b1, b2, 18, 2, 4);
    lemma_bits_of_reads_prefix(b1, b2, 20, 2, 4);
    lemma_bits_of_reads_prefix(b1, b2, 22, 10, 4);
}

/// A configuration request or completion classified under a 4-doubleword
/// header is always the illegal combination: classification reports it as
/// such and never yields a misdecoded category.
pub proof fn lemma_restricted_category_needs_three_dw(format: Format, type_code: u8)
    requires
        length_class_of(format) == HeaderLengthClass::FourDoubleword,
        category_of(format, type_code) == PacketCategory::Completion || category_of(
            format,
            type_code,
        ) == PacketCategory::ConfigurationRequest,
    ensures
        illegal_header_length(format, type_code),
{
}

/// A decode is a function of the packet bytes alone: any two results whose
/// contracts tie them to equal bytes are equal, so decodes of different
/// packets are independent of each other and of their order.
pub proof fn lemma_decode_deterministic(d1: DecodedTlp, d2: DecodedTlp, bytes: Seq<u8>)
    requires
        d1.header == spec_header(bytes),
        d1.body == spec_decode_body(bytes),
        d2.header == spec_header(bytes),
        d2.body == spec_decode_body(bytes),
    ensures
        d1 == d2,
{
}

} // verus!
