//! The type resolver: the bijection between a logical data type and its
//! on-wire `(width, sign tag)` pair.

use vstd::prelude::*;

verus! {

/// One-byte sign tag: the value is interpreted as signed.
pub const TYPE_SIGNED: u8 = 0x01;

/// One-byte sign tag: the value is interpreted as unsigned.
pub const TYPE_UNSIGNED: u8 = 0x02;

/// One-byte sign tag: the value is interpreted as a 32-bit float.
pub const TYPE_FLOAT: u8 = 0x03;

/// The logical type of a watched value. Each variant maps to an on-wire
/// `(width, sign tag)` pair; width 4 admits all three tags, widths 1 and 2
/// only signed and unsigned.
#[derive(Clone, Copy, Debug, PartialEq, Eq, Structural)]
pub enum DataType {
    U32,
    U16,
    U8,
    I32,
    I16,
    I8,
    F32,
}

/// True of the byte widths the protocol supports.
pub open spec fn valid_width(w: u8) -> bool {
    w == 1 || w == 2 || w == 4
}

/// The on-wire byte width of a data type.
pub open spec fn wire_width(dt: DataType) -> u8 {
    match dt {
        DataType::U32 => 4,
        DataType::U16 => 2,
        DataType::U8 => 1,
        DataType::I32 => 4,
        DataType::I16 => 2,
        DataType::I8 => 1,
        DataType::F32 => 4,
    }
}

/// The on-wire sign tag of a data type.
pub open spec fn wire_tag(dt: DataType) -> u8 {
    match dt {
        DataType::U32 => TYPE_UNSIGNED,
        DataType::U16 => TYPE_UNSIGNED,
        DataType::U8 => TYPE_UNSIGNED,
        DataType::I32 => TYPE_SIGNED,
        DataType::I16 => TYPE_SIGNED,
        DataType::I8 => TYPE_SIGNED,
        DataType::F32 => TYPE_FLOAT,
    }
}

/// The data type named by an on-wire `(width, sign tag)` pair. A pair outside
/// the seven supported combinations (for example FLOAT at width 1) falls back
/// to the default type, `U32`; the protocol leaves such pairs open and the
/// decoder must not reject them.
pub open spec fn data_type_of(width: u8, tag: u8) -> DataType {
    if width == 1 && tag == TYPE_SIGNED {
        DataType::I8
    } else if width == 1 && tag == TYPE_UNSIGNED {
        DataType::U8
    } else if width == 2 && tag == TYPE_SIGNED {
        DataType::I16
    } else if width == 2 && tag == TYPE_UNSIGNED {
        DataType::U16
    } else if width == 4 && tag == TYPE_SIGNED {
        DataType::I32
    } else if width == 4 && tag == TYPE_FLOAT {
        DataType::F32
    } else {
        DataType::U32
    }
}

/// The name of a data type, as displayed to a user.
pub open spec fn display_name_of(dt: DataType) -> Seq<char> {
    match dt {
        DataType::U32 => "u32"@,
        DataType::U16 => "u16"@,
        DataType::U8 => "u8"@,
        DataType::I32 => "i32"@,
        DataType::I16 => "i16"@,
        DataType::I8 => "i8"@,
        DataType::F32 => "f32"@,
    }
}

impl DataType {
    /// The on-wire `(width, sign tag)` pair of this data type.
    pub fn to_wire(&self) -> (r: (u8, u8))
        ensures
            r.0 == wire_width(*self),
            r.1 == wire_tag(*self),
    {
        match self {
            DataType::U32 => (4, TYPE_UNSIGNED),
            DataType::U16 => (2, TYPE_UNSIGNED),
            DataType::U8 => (1, TYPE_UNSIGNED),
            DataType::I32 => (4, TYPE_SIGNED),
            DataType::I16 => (2, TYPE_SIGNED),
            DataType::I8 => (1, TYPE_SIGNED),
            DataType::F32 => (4, TYPE_FLOAT),
        }
    }

    /// The data type named by an on-wire `(width, sign tag)` pair; `U32` for
    /// a pair outside the supported set.
    pub fn from_wire(width: u8, tag: u8) -> (r: DataType)
        ensures
            r == data_type_of(width, tag),
    {
        if width == 1 && tag == TYPE_SIGNED {
            DataType::I8
        } else if width == 1 && tag == TYPE_UNSIGNED {
            DataType::U8
        } else if width == 2 && tag == TYPE_SIGNED {
            DataType::I16
        } else if width == 2 && tag == TYPE_UNSIGNED {
            DataType::U16
        } else if width == 4 && tag == TYPE_SIGNED {
            DataType::I32
        } else if width == 4 && tag == TYPE_FLOAT {
            DataType::F32
        } else {
            DataType::U32
        }
    }

    /// The display name of this data type.
    pub fn display_name(&self) -> (r: &'static str)
        ensures
            r@ == display_name_of(*self),
    {
        match self {
            DataType::U32 => "u32",
            DataType::U16 => "u16",
            DataType::U8 => "u8",
            DataType::I32 => "i32",
            DataType::I16 => "i16",
            DataType::I8 => "i8",
            DataType::F32 => "f32",
        }
    }
}

impl Default for DataType {
    /// The default data type is `U32`.
    fn default() -> (r: Self)
        ensures
            r == DataType::U32,
    {
        DataType::U32
    }
}

/// The type resolver is a bijection over the seven supported data types:
/// mapping a type to the wire and back returns the same type.
pub proof fn lemma_type_wire_round_trip(dt: DataType)
    ensures
        data_type_of(wire_width(dt), wire_tag(dt)) == dt,
{
}

} // verus!
