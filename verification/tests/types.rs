use memwatch::data_type::DataType;

const ALL_TYPES: [DataType; 7] = [
    DataType::U32,
    DataType::U16,
    DataType::U8,
    DataType::I32,
    DataType::I16,
    DataType::I8,
    DataType::F32,
];

#[test]
fn to_wire_from_wire_round_trip() {
    for dt in ALL_TYPES {
        let (width, tag) = dt.to_wire();
        assert_eq!(DataType::from_wire(width, tag), dt);
    }
}

#[test]
fn to_wire_values() {
    assert_eq!(DataType::U8.to_wire(), (1, 0x02));
    assert_eq!(DataType::U16.to_wire(), (2, 0x02));
    assert_eq!(DataType::U32.to_wire(), (4, 0x02));
    assert_eq!(DataType::I8.to_wire(), (1, 0x01));
    assert_eq!(DataType::I16.to_wire(), (2, 0x01));
    assert_eq!(DataType::I32.to_wire(), (4, 0x01));
    assert_eq!(DataType::F32.to_wire(), (4, 0x03));
}

#[test]
fn from_wire_unsupported_pairs_fall_back() {
    assert_eq!(DataType::from_wire(1, 0x03), DataType::U32);
    assert_eq!(DataType::from_wire(2, 0x03), DataType::U32);
    assert_eq!(DataType::from_wire(4, 0x07), DataType::U32);
}

#[test]
fn default_data_type_is_u32() {
    assert_eq!(DataType::default(), DataType::U32);
}

#[test]
fn display_names() {
    let names = ["u32", "u16", "u8", "i32", "i16", "i8", "f32"];
    for (dt, name) in ALL_TYPES.iter().zip(names) {
        assert_eq!(dt.display_name(), name);
    }
}

#[test]
fn default_watch_is_empty() {
    let w = memwatch::commands::Watch::default();
    assert_eq!(w.address, 0);
    assert_eq!(w.nbytes, 0);
    assert_eq!(w.value, 0);
    assert_eq!(w.data_type, DataType::U32);
}
