use vstd::prelude::*;

use crate::errors::TlpError;

verus! {

/// The five defined values of the 3-bit Format code.
#[derive(Clone, Copy, Debug, PartialEq, Eq, Structural)]
pub enum Format {
    /// Code 0: 3-doubleword header, no data payload.
    NoDataHeader3DW,
    /// Code 1: 4-doubleword header, no data payload.
    NoDataHeader4DW,
    /// Code 2: 3-doubleword header with data payload.
    WithDataHeader3DW,
    /// Code 3: 4-doubleword header with data payload.
    WithDataHeader4DW,
    /// Code 4: TLP prefix.
    TlpPrefix,
}

/// How many doublewords the header occupies.
#[derive(Clone, Copy, Debug, PartialEq, Eq, Structural)]
pub enum HeaderLengthClass {
    /// A 3-doubleword header.
    ThreeDoubleword,
    /// A 4-doubleword header.
    FourDoubleword,
}

/// Whether a data payload follows the header.
#[derive(Clone, Copy, Debug, PartialEq, Eq, Structural)]
pub enum DataPresence {
    /// No payload follows.
    NoData,
    /// A payload follows.
    WithData,
}

/// The packet category that the Format and Type codes select.
#[derive(Clone, Copy, Debug, PartialEq, Eq, Structural)]
pub enum PacketCategory {
    /// Memory read/write, locked memory read, IO read/write, or one of the
    /// atomic operations (fetch-add, swap, compare-swap).
    MemoryOrIoOrAtomicRequest,
    /// Configuration type-0 or type-1 read/write.
    ConfigurationRequest,
    /// Completion, with or without data, locked or not.
    Completion,
    /// Message request, with or without data, any routing.
    Message,
    /// A local TLP prefix.
    LocalPrefix,
    /// An end-to-end TLP prefix.
    EndToEndPrefix,
    /// A Type code outside the defined table; carries the raw Type code.
    Unrecognized(u8),
}

/// The Format that a raw code below 5 denotes.
pub open spec fn spec_format_of(code: u8) -> Format
    recommends
        code < 5,
{
    if code == 0 {
        Format::NoDataHeader3DW
    } else if code == 1 {
        Format::NoDataHeader4DW
    } else if code == 2 {
        Format::WithDataHeader3DW
    } else if code == 3 {
        Format::WithDataHeader4DW
    } else {
        Format::TlpPrefix
    }
}

/// The header length class a Format implies: codes 1 and 3 carry a
/// 4-doubleword header, all others a 3-doubleword one.
pub open spec fn length_class_of(format: Format) -> HeaderLengthClass {
    match format {
        Format::NoDataHeader4DW => HeaderLengthClass::FourDoubleword,
        Format::WithDataHeader4DW => HeaderLengthClass::FourDoubleword,
        _ => HeaderLengthClass::ThreeDoubleword,
    }
}

/// Whether a Format implies a data payload.
pub open spec fn data_presence_of(format: Format) -> DataPresence {
    match format {
        Format::WithDataHeader3DW => DataPresence::WithData,
        Format::WithDataHeader4DW => DataPresence::WithData,
        _ => DataPresence::NoData,
    }
}

/// The fixed lookup table from `(format, type_code)` to a category.  A TLP
/// prefix is told apart by its Format alone; bit 4 of the Type code then
/// separates end-to-end from local prefixes.  For the other Formats the Type
/// code selects the category, and codes outside the table are unrecognized.
pub open spec fn category_of(format: Format, type_code: u8) -> PacketCategory {
    if format == Format::TlpPrefix {
        if type_code >= 16 {
            PacketCategory::EndToEndPrefix
        } else {
            PacketCategory::LocalPrefix
        }
    } else if type_code == 0 || type_code == 1 || type_code == 2 || type_code == 12 || type_code
        == 13 || type_code == 14 {
        PacketCategory::MemoryOrIoOrAtomicRequest
    } else if type_code == 4 || type_code == 5 {
        PacketCategory::ConfigurationRequest
    } else if type_code == 10 || type_code == 11 {
        PacketCategory::Completion
    } else if 16 <= type_code && type_code <= 21 {
        PacketCategory::Message
    } else {
        PacketCategory::Unrecognized(type_code)
    }
}

/// Configuration requests and completions always carry a 3-doubleword
/// header; pairing either with a 4-doubleword Format is illegal.
pub open spec fn illegal_header_length(format: Format, type_code: u8) -> bool {
    (category_of(format, type_code) == PacketCategory::ConfigurationRequest || category_of(
        format,
        type_code,
    ) == PacketCategory::Completion) && length_class_of(format) == HeaderLengthClass::FourDoubleword
}

/// Maps the raw 3-bit Format code to the `Format` enum.  Codes 5, 6 and 7
/// (and anything wider) have no defined meaning and fail with
/// `UnknownFormatCode`; the raw header fields remain available to the caller.
pub fn format_from_code(code: u8) -> (r: Result<Format, TlpError>)
    ensures
        match r {
            Ok(f) => code < 5 && f == spec_format_of(code),
            Err(e) => code >= 5 && e == TlpError::UnknownFormatCode(code),
        },
{
    if code == 0 {
        Ok(Format::NoDataHeader3DW)
    } else if code == 1 {
        Ok(Format::NoDataHeader4DW)
    } else if code == 2 {
        Ok(Format::WithDataHeader3DW)
    } else if code == 3 {
        Ok(Format::WithDataHeader4DW)
    } else if code == 4 {
        Ok(Format::TlpPrefix)
    } else {
        Err(TlpError::UnknownFormatCode(code))
    }
}

/// The header length class of a Format.
pub fn header_length_class(format: Format) -> (r: HeaderLengthClass)
    ensures
        r == length_class_of(format),
{
    match format {
        Format::NoDataHeader4DW => HeaderLengthClass::FourDoubleword,
        Format::WithDataHeader4DW => HeaderLengthClass::FourDoubleword,
        _ => HeaderLengthClass::ThreeDoubleword,
    }
}

/// Whether a Format implies a data payload.
pub fn data_presence(format: Format) -> (r: DataPresence)
    ensures
        r == data_presence_of(format),
{
    match format {
        Format::WithDataHeader3DW => DataPresence::WithData,
        Format::WithDataHeader4DW => DataPresence::WithData,
        _ => DataPresence::NoData,
    }
}

/// The category of the lookup table, as executable code.
pub fn category_from(format: Format, type_code: u8) -> (c: PacketCategory)
    ensures
        c == category_of(format, type_code),
{
    if matches!(format, Format::TlpPrefix) {
        if type_code >= 16 {
            PacketCategory::EndToEndPrefix
        } else {
            PacketCategory::LocalPrefix
        }
    } else if type_code == 0 || type_code == 1 || type_code == 2 || type_code == 12 || type_code
        == 13 || type_code == 14 {
        PacketCategory::MemoryOrIoOrAtomicRequest
    } else if type_code == 4 || type_code == 5 {
        PacketCategory::ConfigurationRequest
    } else if type_code == 10 || type_code == 11 {
        PacketCategory::Completion
    } else if 16 <= type_code && type_code <= 21 {
        PacketCategory::Message
    } else {
        PacketCategory::Unrecognized(type_code)
    }
}

/// Classifies a packet from its Format and Type code and derives the header
/// length class, enforcing the legality rule: a configuration request or
/// completion paired with a 4-doubleword header is reported as
/// `IllegalHeaderLengthForCategory`, never decoded as something else.
pub fn classify(format: Format, type_code: u8) -> (r: Result<
    (PacketCategory, HeaderLengthClass),
    TlpError,
>)
    ensures
        match r {
            Ok(p) => p.0 == category_of(format, type_code) && p.1 == length_class_of(format)
                && !illegal_header_length(format, type_code),
            Err(e) => e == TlpError::IllegalHeaderLengthForCategory && illegal_header_length(
                format,
                type_code,
            ),
        },
{
    let class = header_length_class(format);
    let cat = category_from(format, type_code);
    let restricted = matches!(cat, PacketCategory::ConfigurationRequest) || matches!(
        cat,
        PacketCategory::Completion,
    );
    if restricted && matches!(class, HeaderLengthClass::FourDoubleword) {
        Err(TlpError::IllegalHeaderLengthForCategory)
    } else {
        Ok((cat, class))
    }
}

} // verus!
