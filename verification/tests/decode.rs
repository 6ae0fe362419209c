use tlp_tool::bits::read_bits;
use tlp_tool::classify::{classify, data_presence, format_from_code};
use tlp_tool::codec::decode;
use tlp_tool::header::decode_header;
use tlp_tool::{
    CategoryFields, Config, DataPresence, Format, HeaderLengthClass, PacketCategory, RawPacket,
    TlpError, TlpTool,
};

fn run_on(hex: &str) -> Result<tlp_tool::DecodedTlp, TlpError> {
    let cfg = Config::new(hex)?;
    TlpTool::new(cfg).run()
}

#[test]
fn decode_even_hex_with_whitespace() {
    assert_eq!(decode("de AD\tbe\nef"), Ok(vec![0xde, 0xad, 0xbe, 0xef]));
    assert_eq!(decode(""), Ok(vec![]));
    assert_eq!(decode("  \n\t "), Ok(vec![]));
    assert_eq!(decode("0aFf09"), Ok(vec![0x0a, 0xff, 0x09]));
}

#[test]
fn decode_rejects_non_hex_character() {
    assert_eq!(decode("0g"), Err(TlpError::InvalidHexCharacter('g', 1)));
    // positions count the non-whitespace characters only
    assert_eq!(decode("a !b"), Err(TlpError::InvalidHexCharacter('!', 1)));
    assert_eq!(decode("xx"), Err(TlpError::InvalidHexCharacter('x', 0)));
}

#[test]
fn decode_rejects_odd_nibble_count() {
    assert_eq!(decode("abc"), Err(TlpError::OddLengthInput(3)));
    assert_eq!(decode("a b c"), Err(TlpError::OddLengthInput(3)));
    assert_eq!(decode("0"), Err(TlpError::OddLengthInput(1)));
}

#[test]
fn remove_whitespace_keeps_other_characters() {
    assert_eq!(Config::remove_whitespace(" a b\nc "), "abc".to_string());
    assert_eq!(Config::remove_whitespace("deadbeef"), "deadbeef".to_string());
}

#[test]
fn convert_to_vec_treats_whitespace_as_invalid() {
    assert_eq!(Config::convert_to_vec("0aFf"), Ok(vec![0x0a, 0xff]));
    assert_eq!(
        Config::convert_to_vec("a b"),
        Err(TlpError::InvalidHexCharacter(' ', 1))
    );
}

#[test]
fn read_bits_extracts_and_checks_range() {
    assert_eq!(read_bits(&vec![0b1011_0000], 0, 4), Ok(0b1011));
    assert_eq!(read_bits(&vec![0x12, 0x34], 4, 8), Ok(0x23));
    assert_eq!(read_bits(&vec![0xff], 0, 9), Err(TlpError::TruncatedField));
    assert_eq!(read_bits(&vec![], 0, 0), Ok(0));
}

#[test]
fn header_memory_read_request() {
    let h = decode_header(&vec![0x00, 0x00, 0x00, 0x01]).unwrap();
    assert_eq!(h.format, 0);
    assert_eq!(h.type_code, 0);
    assert_eq!(h.length, 1);
    let f = format_from_code(h.format).unwrap();
    assert_eq!(f, Format::NoDataHeader3DW);
    assert_eq!(data_presence(f), DataPresence::NoData);
    assert_eq!(
        classify(f, h.type_code),
        Ok((
            PacketCategory::MemoryOrIoOrAtomicRequest,
            HeaderLengthClass::ThreeDoubleword
        ))
    );
}

#[test]
fn header_memory_write_request() {
    let h = decode_header(&vec![0x40, 0x00, 0x00, 0x00]).unwrap();
    assert_eq!(h.format, 2);
    assert_eq!(h.type_code, 0);
    let f = format_from_code(h.format).unwrap();
    assert_eq!(f, Format::WithDataHeader3DW);
    assert_eq!(data_presence(f), DataPresence::WithData);
    assert_eq!(
        classify(f, h.type_code),
        Ok((
            PacketCategory::MemoryOrIoOrAtomicRequest,
            HeaderLengthClass::ThreeDoubleword
        ))
    );
}

#[test]
fn header_too_short() {
    assert_eq!(decode_header(&vec![]), Err(TlpError::TooShort));
    assert_eq!(decode_header(&vec![0x00, 0x00, 0x00]), Err(TlpError::TooShort));
}

#[test]
fn completion_with_four_dw_header_is_illegal() {
    // type 10 maps to Completion; format 1 is the 4-doubleword no-data header
    assert_eq!(
        classify(Format::NoDataHeader4DW, 10),
        Err(TlpError::IllegalHeaderLengthForCategory)
    );
    assert_eq!(
        classify(Format::WithDataHeader4DW, 11),
        Err(TlpError::IllegalHeaderLengthForCategory)
    );
    assert_eq!(
        classify(Format::NoDataHeader4DW, 4),
        Err(TlpError::IllegalHeaderLengthForCategory)
    );
    // the same combination through the whole pipeline: 0x2A = format 1, type 10
    let d = run_on("2a000000 00000000 00000000").unwrap();
    assert_eq!(d.body, Err(TlpError::IllegalHeaderLengthForCategory));
}

#[test]
fn memory_write_fields_three_dw() {
    let d = run_on("40000001 12345678 deadbeef").unwrap();
    assert_eq!(d.header.format, 2);
    assert_eq!(d.header.length, 1);
    let body = d.body.unwrap();
    assert_eq!(body.category, PacketCategory::MemoryOrIoOrAtomicRequest);
    assert_eq!(body.length_class, HeaderLengthClass::ThreeDoubleword);
    match body.fields.unwrap() {
        CategoryFields::Request(f) => {
            assert_eq!(f.requester_id, 0x1234);
            assert_eq!(f.tag, 0x56);
            assert_eq!(f.last_dw_be, 0x7);
            assert_eq!(f.first_dw_be, 0x8);
            assert_eq!(f.address, 0xdead_beef);
        }
        other => panic!("expected request fields, got {:?}", other),
    }
}

#[test]
fn memory_read_fields_four_dw_address() {
    // format 3 (0b011) with type 0: 64-bit address from DW2 and DW3
    let d = run_on("60000002 abcd0f3c 00000001 00000000").unwrap();
    let body = d.body.unwrap();
    assert_eq!(body.length_class, HeaderLengthClass::FourDoubleword);
    match body.fields.unwrap() {
        CategoryFields::Request(f) => {
            assert_eq!(f.requester_id, 0xabcd);
            assert_eq!(f.tag, 0x0f);
            assert_eq!(f.last_dw_be, 0x3);
            assert_eq!(f.first_dw_be, 0xc);
            assert_eq!(f.address, 0x0000_0001_0000_0000);
        }
        other => panic!("expected request fields, got {:?}", other),
    }
}

#[test]
fn config_request_fields() {
    // format 0, type 4 (configuration type 0)
    let d = run_on("04000000 12345678 abf9abbc").unwrap();
    let body = d.body.unwrap();
    assert_eq!(body.category, PacketCategory::ConfigurationRequest);
    match body.fields.unwrap() {
        CategoryFields::ConfigRequest(f) => {
            assert_eq!(f.requester_id, 0x1234);
            assert_eq!(f.tag, 0x56);
            assert_eq!(f.bus, 0xab);
            assert_eq!(f.device, 0x1f);
            assert_eq!(f.function, 1);
            assert_eq!(f.ext_register_nr, 0xb);
            assert_eq!(f.register_nr, 0x2f);
        }
        other => panic!("expected config fields, got {:?}", other),
    }
}

#[test]
fn completion_fields() {
    // format 2, type 10 (completion with data): 0x4a
    let d = run_on("4a000000 abcdb123 1234569a").unwrap();
    let body = d.body.unwrap();
    assert_eq!(body.category, PacketCategory::Completion);
    match body.fields.unwrap() {
        CategoryFields::Completion(f) => {
            assert_eq!(f.completer_id, 0xabcd);
            assert_eq!(f.status, 5);
            assert_eq!(f.byte_count_modified, 1);
            assert_eq!(f.byte_count, 0x123);
            assert_eq!(f.requester_id, 0x1234);
            assert_eq!(f.tag, 0x56);
            assert_eq!(f.lower_address, 0x1a);
        }
        other => panic!("expected completion fields, got {:?}", other),
    }
}

#[test]
fn message_fields() {
    // format 1, type 16 (message, routed to root complex): 0x30
    let d = run_on("30000000 1234567f aaaaaaaa bbbbbbbb").unwrap();
    let body = d.body.unwrap();
    assert_eq!(body.category, PacketCategory::Message);
    assert_eq!(body.length_class, HeaderLengthClass::FourDoubleword);
    match body.fields.unwrap() {
        CategoryFields::Message(f) => {
            assert_eq!(f.requester_id, 0x1234);
            assert_eq!(f.tag, 0x56);
            assert_eq!(f.message_code, 0x7f);
            assert_eq!(f.dw3, 0xaaaa_aaaa);
            assert_eq!(f.dw4, 0xbbbb_bbbb);
        }
        other => panic!("expected message fields, got {:?}", other),
    }
}

#[test]
fn prefixes_are_not_decoded_further() {
    // format 4 (0b100): type below 16 is a local prefix
    let d = run_on("80000000").unwrap();
    let body = d.body.unwrap();
    assert_eq!(body.category, PacketCategory::LocalPrefix);
    assert_eq!(body.fields, Ok(CategoryFields::NotDecoded));
    // type 16 and above is an end-to-end prefix
    let d = run_on("90000000").unwrap();
    let body = d.body.unwrap();
    assert_eq!(body.category, PacketCategory::EndToEndPrefix);
    assert_eq!(body.fields, Ok(CategoryFields::NotDecoded));
}

#[test]
fn unknown_format_code_keeps_header() {
    // 0xa0 = format 5, which has no defined meaning
    let d = run_on("a0000000").unwrap();
    assert_eq!(d.header.format, 5);
    assert_eq!(d.body, Err(TlpError::UnknownFormatCode(5)));
}

#[test]
fn unrecognized_type_code() {
    // format 0, type 7 is outside the lookup table
    let d = run_on("07000000").unwrap();
    let body = d.body.unwrap();
    assert_eq!(body.category, PacketCategory::Unrecognized(7));
    assert_eq!(body.fields, Ok(CategoryFields::NotDecoded));
}

#[test]
fn truncated_completion_reports_field_diagnostic() {
    // a completion needs 3 doublewords; this one has 2
    let d = run_on("0a000000 00000000").unwrap();
    let body = d.body.unwrap();
    assert_eq!(body.category, PacketCategory::Completion);
    assert_eq!(body.fields, Err(TlpError::TruncatedField));
}

#[test]
fn packet_envelope_is_validated() {
    assert_eq!(run_on(""), Err(TlpError::TooShort));
    assert_eq!(run_on("000000"), Err(TlpError::TooShort));
    assert_eq!(run_on("0000000102"), Err(TlpError::NotDoublewordAligned(5)));
    assert!(RawPacket::new(vec![0, 0, 0, 0]).is_ok());
    match RawPacket::new(vec![0, 0, 0, 0, 1]) {
        Err(TlpError::NotDoublewordAligned(5)) => {}
        other => panic!("expected alignment failure, got {:?}", other.is_ok()),
    }
}

#[test]
fn category_table_boundaries() {
    // locked memory read, IO, and the three atomics are all requests
    for t in [1u8, 2, 12, 13, 14] {
        assert_eq!(
            classify(Format::NoDataHeader3DW, t),
            Ok((
                PacketCategory::MemoryOrIoOrAtomicRequest,
                HeaderLengthClass::ThreeDoubleword
            ))
        );
    }
    // configuration type 1
    assert_eq!(
        classify(Format::WithDataHeader3DW, 5),
        Ok((
            PacketCategory::ConfigurationRequest,
            HeaderLengthClass::ThreeDoubleword
        ))
    );
    // all six message routings, and nothing past them
    for t in 16u8..=21 {
        assert_eq!(
            classify(Format::WithDataHeader4DW, t),
            Ok((PacketCategory::Message, HeaderLengthClass::FourDoubleword))
        );
    }
    for t in [3u8, 6, 7, 8, 9, 15, 22, 23, 31] {
        assert_eq!(
            classify(Format::NoDataHeader3DW, t),
            Ok((
                PacketCategory::Unrecognized(t),
                HeaderLengthClass::ThreeDoubleword
            ))
        );
    }
}

#[test]
fn truncated_four_dw_request() {
    // a 4-doubleword memory read (format 1) needs 16 bytes; this one has 12
    let d = run_on("20000000 12345678 00000000").unwrap();
    let body = d.body.unwrap();
    assert_eq!(body.category, PacketCategory::MemoryOrIoOrAtomicRequest);
    assert_eq!(body.length_class, HeaderLengthClass::FourDoubleword);
    assert_eq!(body.fields, Err(TlpError::TruncatedField));
}

#[test]
fn io_read_fields() {
    // format 0, type 2
    let d = run_on("02000001 00010203 00000080").unwrap();
    let body = d.body.unwrap();
    assert_eq!(body.category, PacketCategory::MemoryOrIoOrAtomicRequest);
    match body.fields.unwrap() {
        CategoryFields::Request(f) => {
            assert_eq!(f.requester_id, 0x0001);
            assert_eq!(f.tag, 0x02);
            assert_eq!(f.last_dw_be, 0x0);
            assert_eq!(f.first_dw_be, 0x3);
            assert_eq!(f.address, 0x80);
        }
        other => panic!("expected request fields, got {:?}", other),
    }
}

#[test]
fn decodes_are_independent_of_order() {
    let first = "40000001 12345678 deadbeef";
    let second = "4a000000 abcdb123 1234569a";
    let a1 = run_on(first);
    let b1 = run_on(second);
    let b2 = run_on(second);
    let a2 = run_on(first);
    assert_eq!(a1, a2);
    assert_eq!(b1, b2);
}
