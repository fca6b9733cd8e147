use memwatch::commands::{read_u16, read_u32, read_u8, read_u8_expect, Watch};
use memwatch::data_type::DataType;
use memwatch::decode::decode_view_watches;
use memwatch::error::Error;

#[test]
fn decode_empty_response() {
    let bytes = [0xFF, 0x04, 0x00, 0x00, 0x00, 0x00, 0xFE];
    let watches = decode_view_watches(&bytes).unwrap().unwrap();
    assert!(watches.is_empty());
}

#[test]
fn decode_one_entry() {
    let bytes = [
        0xFF, 0x04, 0x00, 0x00, 0x00, 0x01, 0x00, 0xEC, 0xC4, 0x30, 0x04, 0x02, 0x00, 0x00,
        0x00, 0x02, 0xFE,
    ];
    let watches = decode_view_watches(&bytes).unwrap().unwrap();
    assert_eq!(
        watches,
        vec![Watch { address: 0x00EC_C430, nbytes: 4, value: 2, data_type: DataType::U32 }]
    );
}

#[test]
fn decode_bad_start_byte() {
    let bytes = [0x00, 0x04, 0x00, 0x00, 0x00, 0x00, 0xFE];
    let err = decode_view_watches(&bytes).unwrap_err();
    assert_eq!(err, Error::InvalidReturnByte(0x00, 0xFF));
}

#[test]
fn decode_bad_command_byte() {
    let bytes = [0xFF, 0x07, 0x00, 0x00, 0x00, 0x00, 0xFE];
    let err = decode_view_watches(&bytes).unwrap_err();
    assert_eq!(err, Error::InvalidReturnByte(0x07, 0x04));
}

#[test]
fn decode_bad_end_byte() {
    let bytes = [0xFF, 0x04, 0x00, 0x00, 0x00, 0x00, 0x00];
    let err = decode_view_watches(&bytes).unwrap_err();
    assert_eq!(err, Error::InvalidReturnByte(0x00, 0xFE));
}

#[test]
fn decode_invalid_width() {
    let bytes = [
        0xFF, 0x04, 0x00, 0x00, 0x00, 0x01, 0x00, 0xEC, 0xC4, 0x30, 0x03, 0x02, 0x00, 0x00,
        0x00, 0xFE,
    ];
    let err = decode_view_watches(&bytes).unwrap_err();
    assert_eq!(err, Error::InvalidByteSize(3));
}

#[test]
fn decode_needs_more_bytes() {
    let full = [
        0xFF, 0x04, 0x00, 0x00, 0x00, 0x01, 0x00, 0xEC, 0xC4, 0x30, 0x04, 0x02, 0x00, 0x00,
        0x00, 0x02, 0xFE,
    ];
    for cut in 0..full.len() {
        assert_eq!(decode_view_watches(&full[..cut]), Ok(None), "cut at {cut}");
    }
}

#[test]
fn decode_width_one_entry_zero_extends() {
    let bytes = [
        0xFF, 0x04, 0x00, 0x00, 0x00, 0x01, 0x12, 0x34, 0x56, 0x78, 0x01, 0x01, 0xAB, 0xFE,
    ];
    let watches = decode_view_watches(&bytes).unwrap().unwrap();
    assert_eq!(
        watches,
        vec![Watch { address: 0x1234_5678, nbytes: 1, value: 0xAB, data_type: DataType::I8 }]
    );
}

#[test]
fn decode_width_two_entry_zero_extends() {
    let bytes = [
        0xFF, 0x04, 0x00, 0x00, 0x00, 0x01, 0x12, 0x34, 0x56, 0x78, 0x02, 0x02, 0xBE, 0xEF,
        0xFE,
    ];
    let watches = decode_view_watches(&bytes).unwrap().unwrap();
    assert_eq!(
        watches,
        vec![Watch { address: 0x1234_5678, nbytes: 2, value: 0xBEEF, data_type: DataType::U16 }]
    );
}

#[test]
fn decode_unmapped_tag_falls_back_to_default() {
    // FLOAT at width 1 is outside the supported pairs: the type falls back
    // to the default, U32, and the entry is still accepted.
    let bytes = [
        0xFF, 0x04, 0x00, 0x00, 0x00, 0x01, 0x00, 0x00, 0x00, 0x01, 0x01, 0x03, 0x7F, 0xFE,
    ];
    let watches = decode_view_watches(&bytes).unwrap().unwrap();
    assert_eq!(
        watches,
        vec![Watch { address: 1, nbytes: 1, value: 0x7F, data_type: DataType::U32 }]
    );
}

#[test]
fn decode_two_entries_keeps_order() {
    let bytes = [
        0xFF, 0x04, 0x00, 0x00, 0x00, 0x02, // count = 2
        0x00, 0x00, 0x10, 0x00, 0x04, 0x03, 0x3F, 0x80, 0x00, 0x00, // F32 entry
        0x00, 0x00, 0x20, 0x00, 0x02, 0x01, 0xFF, 0xFE, // I16 entry
        0xFE,
    ];
    let watches = decode_view_watches(&bytes).unwrap().unwrap();
    assert_eq!(
        watches,
        vec![
            Watch { address: 0x1000, nbytes: 4, value: 0x3F80_0000, data_type: DataType::F32 },
            Watch { address: 0x2000, nbytes: 2, value: 0xFFFE, data_type: DataType::I16 },
        ]
    );
}

#[test]
fn read_u8_value() {
    assert_eq!(read_u8(&[0xAB]), 0xAB);
}

#[test]
fn read_u16_value() {
    assert_eq!(read_u16(&[0xBE, 0xEF]), 0xBEEF);
}

#[test]
fn read_u32_value() {
    assert_eq!(read_u32(&[0x00, 0xEC, 0xC4, 0x30]), 0x00EC_C430);
}

#[test]
fn read_round_trip_all_widths() {
    // A read's raw response of width bytes recovers the written value.
    let frame = memwatch::commands::write_value(0, 4, 0xDEAD_BEEF);
    assert_eq!(read_u32(&frame[7..11]), 0xDEAD_BEEF);
    let frame = memwatch::commands::write_value(0, 2, 0xBEEF);
    assert_eq!(u32::from(read_u16(&frame[7..9])), 0xBEEF);
    let frame = memwatch::commands::write_value(0, 1, 0xEF);
    assert_eq!(u32::from(read_u8(&frame[7..8])), 0xEF);
}

#[test]
fn read_u8_expect_matches() {
    assert_eq!(read_u8_expect(0xFF, 0xFF), Ok(0xFF));
}

#[test]
fn read_u8_expect_mismatch() {
    assert_eq!(read_u8_expect(0x12, 0xFF), Err(Error::InvalidReturnByte(0x12, 0xFF)));
}
