use vstd::prelude::*;

use crate::classify::{
    category_of, classify, format_from_code, illegal_header_length, length_class_of,
    spec_format_of, Format, HeaderLengthClass, PacketCategory,
};
use crate::codec::Config;
use crate::errors::TlpError;
use crate::fields::{
    decode_completion, decode_config, decode_message, decode_request, request_min_len,
    spec_completion_fields, spec_config_fields, spec_message_fields, spec_request_fields,
    CategoryFields,
};
use crate::header::{decode_header, spec_header, PacketHeader};
use crate::packet::RawPacket;

verus! {

/// The classified part of one decode: the category, its header length
/// class, and the category fields or the diagnostic local to their
/// extraction (`TruncatedField`).
#[derive(Clone, Copy, Debug, PartialEq, Eq)]
pub struct TlpBody {
    /// The category the Format and Type codes select.
    pub category: PacketCategory,
    /// The header length class the Format implies.
    pub length_class: HeaderLengthClass,
    /// The category-specific fields, or `TruncatedField` when the packet is
    /// too short for them.
    pub fields: Result<CategoryFields, TlpError>,
}

/// One fully decoded TLP: the raw header fields of DW0, always present, and
/// the classified body or the diagnostic that withheld it
/// (`UnknownFormatCode` or `IllegalHeaderLengthForCategory`).
#[derive(Clone, Copy, Debug, PartialEq, Eq)]
pub struct DecodedTlp {
    /// The thirteen raw DW0 fields.
    pub header: PacketHeader,
    /// The classified body, or the stage-local diagnostic.
    pub body: Result<TlpBody, TlpError>,
}

/// The category fields the bytes denote for a classified packet, or
/// `TruncatedField` when the packet is too short for its category.
pub open spec fn spec_body_fields(bytes: Seq<u8>, format: Format, type_code: u8) -> Result<
    CategoryFields,
    TlpError,
> {
    match category_of(format, type_code) {
        PacketCategory::MemoryOrIoOrAtomicRequest => if bytes.len() >= request_min_len(
            length_class_of(format),
        ) {
            Ok(CategoryFields::Request(spec_request_fields(bytes, length_class_of(format))))
        } else {
            Err(TlpError::TruncatedField)
        },
        PacketCategory::ConfigurationRequest => if bytes.len() >= 12 {
            Ok(CategoryFields::ConfigRequest(spec_config_fields(bytes)))
        } else {
            Err(TlpError::TruncatedField)
        },
        PacketCategory::Completion => if bytes.len() >= 12 {
            Ok(CategoryFields::Completion(spec_completion_fields(bytes)))
        } else {
            Err(TlpError::TruncatedField)
        },
        PacketCategory::Message => if bytes.len() >= 16 {
            Ok(CategoryFields::Message(spec_message_fields(bytes)))
        } else {
            Err(TlpError::TruncatedField)
        },
        _ => Ok(CategoryFields::NotDecoded),
    }
}

/// The body part of a decode: fails with `UnknownFormatCode` for an
/// undefined Format code and with `IllegalHeaderLengthForCategory` for a
/// configuration request or completion under a 4-doubleword header;
/// otherwise carries the category, length class and fields.
pub open spec fn spec_decode_body(bytes: Seq<u8>) -> Result<TlpBody, TlpError> {
    let h = spec_header(bytes);
    if h.format >= 5 {
        Err(TlpError::UnknownFormatCode(h.format))
    } else {
        let format = spec_format_of(h.format);
        if illegal_header_length(format, h.type_code) {
            Err(TlpError::IllegalHeaderLengthForCategory)
        } else {
            Ok(
                TlpBody {
                    category: category_of(format, h.type_code),
                    length_class: length_class_of(format),
                    fields: spec_body_fields(bytes, format, h.type_code),
                },
            )
        }
    }
}

/// Decodes one packet: DW0 always yields the raw header fields; the body is
/// classified and its category fields extracted, with each later stage's
/// failure reported in place of that stage's result only.
pub fn decode_tlp(packet: &RawPacket) -> (r: DecodedTlp)
    ensures
        r.header == spec_header(packet@),
        r.body == spec_decode_body(packet@),
{
    let data = packet.data();
    let header = match decode_header(data) {
        Ok(h) => h,
        Err(_) => {
            proof {
                assert(false);
            }
            PacketHeader {
                format: 0,
                type_code: 0,
                t9: 0,
                traffic_class: 0,
                t8: 0,
                attr_b2: 0,
                ln: 0,
                th: 0,
                td: 0,
                ep: 0,
                attr: 0,
                address_type: 0,
                length: 0,
            }
        },
    };
    let body: Result<TlpBody, TlpError> = match format_from_code(header.format) {
        Err(e) => Err(e),
        Ok(format) => match classify(format, header.type_code) {
            Err(e) => Err(e),
            Ok(pair) => {
                let category = pair.0;
                let length_class = pair.1;
                let fields: Result<CategoryFields, TlpError> = match category {
                    PacketCategory::MemoryOrIoOrAtomicRequest => match decode_request(
                        packet,
                        format,
                    ) {
                        Ok(f) => Ok(CategoryFields::Request(f)),
                        Err(e) => Err(e),
                    },
                    PacketCategory::ConfigurationRequest => match decode_config(packet) {
                        Ok(f) => Ok(CategoryFields::ConfigRequest(f)),
                        Err(e) => Err(e),
                    },
                    PacketCategory::Completion => match decode_completion(packet) {
                        Ok(f) => Ok(CategoryFields::Completion(f)),
                        Err(e) => Err(e),
                    },
                    PacketCategory::Message => match decode_message(packet) {
                        Ok(f) => Ok(CategoryFields::Message(f)),
                        Err(e) => Err(e),
                    },
                    _ => Ok(CategoryFields::NotDecoded),
                };
                Ok(TlpBody { category, length_class, fields })
            },
        },
    };
    DecodedTlp { header, body }
}

/// The decode tool: holds the parsed input and decodes it on demand.
pub struct TlpTool {
    /// The parsed input.
    pub config: Config,
}

impl TlpTool {
    /// Wraps a parsed configuration.
    pub fn new(cfg: Config) -> (t: TlpTool)
        ensures
            t.config == cfg,
    {
        TlpTool { config: cfg }
    }

    /// Decodes the configured packet bytes: validates the packet envelope
    /// (at least DW0, doubleword-aligned), then runs the full decode.
    pub fn run(&self) -> (r: Result<DecodedTlp, TlpError>)
        ensures
            ({
                let bytes = self.config.input@;
                match r {
                    Ok(d) => bytes.len() >= 4 && bytes.len() % 4 == 0 && d.header == spec_header(
                        bytes,
                    ) && d.body == spec_decode_body(bytes),
                    Err(e) => if bytes.len() < 4 {
                        e == TlpError::TooShort
                    } else {
                        bytes.len() % 4 != 0 && e == TlpError::NotDoublewordAligned(
                            bytes.len() as usize,
                        )
                    },
                }
            }),
    {
        let bytes = self.config.input.clone();
        proof {
            assert(bytes@ =~= self.config.input@);
        }
        match RawPacket::new(bytes) {
            Ok(p) => Ok(decode_tlp(&p)),
            Err(e) => Err(e),
        }
    }
}

} // verus!
