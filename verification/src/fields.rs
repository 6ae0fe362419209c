use vstd::prelude::*;
use vstd::arithmetic::power2::lemma2_to64;

use crate::bits::{bits_of, lemma_bits_of_bound, read_field};
use crate::classify::{length_class_of, Format, HeaderLengthClass};
use crate::errors::TlpError;
use crate::packet::RawPacket;

verus! {

/// Fields of a memory, IO or atomic-operation request.
#[derive(Clone, Copy, Debug, PartialEq, Eq, Structural)]
pub struct RequestFields {
    /// 16-bit requester ID, DW1 bits [0, 16).
    pub requester_id: u16,
    /// 8-bit tag, DW1 bits [16, 24).
    pub tag: u8,
    /// Last doubleword byte-enable nibble, DW1 bits [24, 28).
    pub last_dw_be: u8,
    /// First doubleword byte-enable nibble, DW1 bits [28, 32).
    pub first_dw_be: u8,
    /// 32-bit address from DW2 for a 3-doubleword header, 64-bit address
    /// from DW2 and DW3 for a 4-doubleword header.
    pub address: u64,
}

/// Fields of a configuration type-0 or type-1 request.
#[derive(Clone, Copy, Debug, PartialEq, Eq, Structural)]
pub struct ConfigRequestFields {
    /// 16-bit requester ID, DW1 bits [0, 16).
    pub requester_id: u16,
    /// 8-bit tag, DW1 bits [16, 24).
    pub tag: u8,
    /// 8-bit bus number, DW2 bits [0, 8).
    pub bus: u8,
    /// 5-bit device number, DW2 bits [8, 13).
    pub device: u8,
    /// 3-bit function number, DW2 bits [13, 16).
    pub function: u8,
    /// 4-bit extended register number, DW2 bits [20, 24).
    pub ext_register_nr: u8,
    /// 6-bit register number, DW2 bits [24, 30); the last 2 bits of DW2 are
    /// reserved.
    pub register_nr: u8,
}

/// Fields of a completion.
#[derive(Clone, Copy, Debug, PartialEq, Eq, Structural)]
pub struct CompletionFields {
    /// 16-bit completer ID, DW1 bits [0, 16).
    pub completer_id: u16,
    /// 3-bit completion status, DW1 bits [16, 19).
    pub status: u8,
    /// 1-bit byte-count-modified flag, DW1 bit 19.
    pub byte_count_modified: u8,
    /// 12-bit byte count, DW1 bits [20, 32).
    pub byte_count: u16,
    /// 16-bit requester ID, DW2 bits [0, 16).
    pub requester_id: u16,
    /// 8-bit tag, DW2 bits [16, 24).
    pub tag: u8,
    /// 7-bit lower address, DW2 bits [25, 32); bit 24 is reserved.
    pub lower_address: u8,
}

/// Fields of a message request.  The two words after DW1 are
/// message-specific and returned uninterpreted.
#[derive(Clone, Copy, Debug, PartialEq, Eq, Structural)]
pub struct MessageFields {
    /// 16-bit requester ID, DW1 bits [0, 16).
    pub requester_id: u16,
    /// 8-bit tag, DW1 bits [16, 24).
    pub tag: u8,
    /// 8-bit message code, DW1 bits [24, 32).
    pub message_code: u8,
    /// The third header doubleword, uninterpreted.
    pub dw3: u32,
    /// The fourth header doubleword, uninterpreted.
    pub dw4: u32,
}

/// The category-specific record of one decoded packet.
#[derive(Clone, Copy, Debug, PartialEq, Eq, Structural)]
pub enum CategoryFields {
    /// A memory, IO or atomic-operation request.
    Request(RequestFields),
    /// A configuration request.
    ConfigRequest(ConfigRequestFields),
    /// A completion.
    Completion(CompletionFields),
    /// A message request.
    Message(MessageFields),
    /// Prefix and unrecognized packets carry no further decoded fields.
    NotDecoded,
}

/// The request fields that the bits of `bytes` denote under the given header
/// length class.
pub open spec fn spec_request_fields(bytes: Seq<u8>, class: HeaderLengthClass) -> RequestFields {
    RequestFields {
        requester_id: bits_of(bytes, 32, 16) as u16,
        tag: bits_of(bytes, 48, 8) as u8,
        last_dw_be: bits_of(bytes, 56, 4) as u8,
        first_dw_be: bits_of(bytes, 60, 4) as u8,
        address: if class == HeaderLengthClass::FourDoubleword {
            bits_of(bytes, 64, 64) as u64
        } else {
            bits_of(bytes, 64, 32) as u64
        },
    }
}

/// The bytes a request decode consumes: 3 doublewords with a 32-bit address,
/// 4 with a 64-bit one.
pub open spec fn request_min_len(class: HeaderLengthClass) -> nat {
    if class == HeaderLengthClass::FourDoubleword {
        16
    } else {
        12
    }
}

/// The configuration request fields that the bits of `bytes` denote.
pub open spec fn spec_config_fields(bytes: Seq<u8>) -> ConfigRequestFields {
    ConfigRequestFields {
        requester_id: bits_of(bytes, 32, 16) as u16,
        tag: bits_of(bytes, 48, 8) as u8,
        bus: bits_of(bytes, 64, 8) as u8,
        device: bits_of(bytes, 72, 5) as u8,
        function: bits_of(bytes, 77, 3) as u8,
        ext_register_nr: bits_of(bytes, 84, 4) as u8,
        register_nr: bits_of(bytes, 88, 6) as u8,
    }
}

/// The completion fields that the bits of `bytes` denote.
pub open spec fn spec_completion_fields(bytes: Seq<u8>) -> CompletionFields {
    CompletionFields {
        completer_id: bits_of(bytes, 32, 16) as u16,
        status: bits_of(bytes, 48, 3) as u8,
        byte_count_modified: bits_of(bytes, 51, 1) as u8,
        byte_count: bits_of(bytes, 52, 12) as u16,
        requester_id: bits_of(bytes, 64, 16) as u16,
        tag: bits_of(bytes, 80, 8) as u8,
        lower_address: bits_of(bytes, 89, 7) as u8,
    }
}

/// The message fields that the bits of `bytes` denote.
pub open spec fn spec_message_fields(bytes: Seq<u8>) -> MessageFields {
    MessageFields {
        requester_id: bits_of(bytes, 32, 16) as u16,
        tag: bits_of(bytes, 48, 8) as u8,
        message_code: bits_of(bytes, 56, 8) as u8,
        dw3: bits_of(bytes, 64, 32) as u32,
        dw4: bits_of(bytes, 96, 32) as u32,
    }
}

/// Decodes a memory, IO or atomic-operation request.  The caller has already
/// classified the packet, so the Format is one of the four request formats;
/// the address is 32 bits wide under a 3-doubleword header and 64 bits wide
/// under a 4-doubleword one.  Fails with `TruncatedField` exactly when the
/// packet is too short for those fields.
pub fn decode_request(packet: &RawPacket, format: Format) -> (r: Result<RequestFields, TlpError>)
    requires
        format != Format::TlpPrefix,
    ensures
        ({
            let class = length_class_of(format);
            match r {
                Ok(f) => packet@.len() >= request_min_len(class) && f == spec_request_fields(
                    packet@,
                    class,
                ),
                Err(e) => e == TlpError::TruncatedField && packet@.len() < request_min_len(class),
            }
        }),
{
    let data = packet.data();
    let class = crate::classify::header_length_class(format);
    let four = matches!(class, HeaderLengthClass::FourDoubleword);
    let need: usize = if four {
        16
    } else {
        12
    };
    if data.len() < need {
        return Err(TlpError::TruncatedField);
    }
    proof {
        lemma2_to64();
        lemma_bits_of_bound(data@, 32, 16);
        lemma_bits_of_bound(data@, 48, 8);
        lemma_bits_of_bound(data@, 56, 4);
        lemma_bits_of_bound(data@, 60, 4);
        lemma_bits_of_bound(data@, 64, 64);
        lemma_bits_of_bound(data@, 64, 32);
    }
    Ok(
        RequestFields {
            requester_id: read_field(data, 32, 16) as u16,
            tag: read_field(data, 48, 8) as u8,
            last_dw_be: read_field(data, 56, 4) as u8,
            first_dw_be: read_field(data, 60, 4) as u8,
            address: if four {
                read_field(data, 64, 64)
            } else {
                read_field(data, 64, 32)
            },
        },
    )
}

/// Decodes a configuration request (always a 3-doubleword header).  Fails
/// with `TruncatedField` exactly when the packet has fewer than 3
/// doublewords.
pub fn decode_config(packet: &RawPacket) -> (r: Result<ConfigRequestFields, TlpError>)
    ensures
        match r {
            Ok(f) => packet@.len() >= 12 && f == spec_config_fields(packet@),
            Err(e) => e == TlpError::TruncatedField && packet@.len() < 12,
        },
{
    let data = packet.data();
    if data.len() < 12 {
        return Err(TlpError::TruncatedField);
    }
    proof {
        lemma2_to64();
        lemma_bits_of_bound(data@, 32, 16);
        lemma_bits_of_bound(data@, 48, 8);
        lemma_bits_of_bound(data@, 64, 8);
        lemma_bits_of_bound(data@, 72, 5);
        lemma_bits_of_bound(data@, 77, 3);
        lemma_bits_of_bound(data@, 84, 4);
        lemma_bits_of_bound(data@, 88, 6);
    }
    Ok(
        ConfigRequestFields {
            requester_id: read_field(data, 32, 16) as u16,
            tag: read_field(data, 48, 8) as u8,
            bus: read_field(data, 64, 8) as u8,
            device: read_field(data, 72, 5) as u8,
            function: read_field(data, 77, 3) as u8,
            ext_register_nr: read_field(data, 84, 4) as u8,
            register_nr: read_field(data, 88, 6) as u8,
        },
    )
}

/// Decodes a completion (always a 3-doubleword header).  Fails with
/// `TruncatedField` exactly when the packet has fewer than 3 doublewords.
pub fn decode_completion(packet: &RawPacket) -> (r: Result<CompletionFields, TlpError>)
    ensures
        match r {
            Ok(f) => packet@.len() >= 12 && f == spec_completion_fields(packet@),
            Err(e) => e == TlpError::TruncatedField && packet@.len() < 12,
        },
{
    let data = packet.data();
    if data.len() < 12 {
        return Err(TlpError::TruncatedField);
    }
    proof {
        lemma2_to64();
        lemma_bits_of_bound(data@, 32, 16);
        lemma_bits_of_bound(data@, 48, 3);
        lemma_bits_of_bound(data@, 51, 1);
        lemma_bits_of_bound(data@, 52, 12);
        lemma_bits_of_bound(data@, 64, 16);
        lemma_bits_of_bound(data@, 80, 8);
        lemma_bits_of_bound(data@, 89, 7);
    }
    Ok(
        CompletionFields {
            completer_id: read_field(data, 32, 16) as u16,
            status: read_field(data, 48, 3) as u8,
            byte_count_modified: read_field(data, 51, 1) as u8,
            byte_count: read_field(data, 52, 12) as u16,
            requester_id: read_field(data, 64, 16) as u16,
            tag: read_field(data, 80, 8) as u8,
            lower_address: read_field(data, 89, 7) as u8,
        },
    )
}

/// Decodes a message request, whose header is 4 doublewords.  Fails with
/// `TruncatedField` exactly when the packet has fewer than 4 doublewords.
pub fn decode_message(packet: &RawPacket) -> (r: Result<MessageFields, TlpError>)
    ensures
        match r {
            Ok(f) => packet@.len() >= 16 && f == spec_message_fields(packet@),
            Err(e) => e == TlpError::TruncatedField && packet@.len() < 16,
        },
{
    let data = packet.data();
    if data.len() < 16 {
        return Err(TlpError::TruncatedField);
    }
    proof {
        lemma2_to64();
        lemma_bits_of_bound(data@, 32, 16);
        lemma_bits_of_bound(data@, 48, 8);
        lemma_bits_of_bound(data@, 56, 8);
        lemma_bits_of_bound(data@, 64, 32);
        lemma_bits_of_bound(data@, 96, 32);
    }
    Ok(
        MessageFields {
            requester_id: read_field(data, 32, 16) as u16,
            tag: read_field(data, 48, 8) as u8,
            message_code: read_field(data, 56, 8) as u8,
            dw3: read_field(data, 64, 32) as u32,
            dw4: read_field(data, 96, 32) as u32,
        },
    )
}

} // verus!
