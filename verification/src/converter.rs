//! The rows a conversion shows: the little-endian bytes, the big-endian
//! bytes, and the floating-point value.
//!
//! Both byte rows are always produced. The selected byte order is carried
//! along for whoever wants to mark one of them; it changes no row.
//!
//! Decoding a floating-point pattern into decimal text is left to the
//! caller: [`float_pattern`](crate::reinterpret::float_pattern) says which
//! pattern to decode, and the decoded text is handed back in. For the types
//! that are not floating-point the row says so and the handed text is not
//! read.

use vstd::prelude::*;
use crate::hex::{format_bytes, hex_list};
use crate::reinterpret::{big_endian, little_endian, to_be_bytes, to_le_bytes};
use crate::selection::{DataType, Endianness};

verus! {

/// One way of turning a magnitude, read as a numeric type, into a line of
/// text with a label.
pub trait ByteConverter {
    fn convert(&self, value: u128, data_type: DataType, endianness: Endianness) -> String;

    fn name(&self) -> &'static str;
}

/// A converter that users of the library supply.
pub trait CustomByteConverter {
    fn convert(&self, value: u128, data_type: DataType, endianness: Endianness) -> String;

    fn name(&self) -> &'static str;
}

/// Shows the bytes least significant first.
pub struct LittleEndianBytes;

/// Shows the bytes most significant first.
pub struct BigEndianBytes;

impl ByteConverter for LittleEndianBytes {
    fn convert(&self, value: u128, data_type: DataType, endianness: Endianness) -> (text: String)
        ensures
            text@ == hex_list(little_endian(value, data_type)),
    {
        let bytes: Vec<u8> = to_le_bytes(value, data_type);
        format_bytes(&bytes)
    }

    fn name(&self) -> (label: &'static str)
        ensures
            label@ == "Little Endian Bytes"@,
    {
        "Little Endian Bytes"
    }
}

impl ByteConverter for BigEndianBytes {
    fn convert(&self, value: u128, data_type: DataType, endianness: Endianness) -> (text: String)
        ensures
            text@ == hex_list(big_endian(value, data_type)),
    {
        let bytes: Vec<u8> = to_be_bytes(value, data_type);
        format_bytes(&bytes)
    }

    fn name(&self) -> (label: &'static str)
        ensures
            label@ == "Big Endian Bytes"@,
    {
        "Big Endian Bytes"
    }
}

/// The text of the floating-point row: the decoded value for a
/// floating-point type, and a remark that there is none for any other.
pub open spec fn float_text(data_type: DataType, decoded: Seq<char>) -> Seq<char> {
    if data_type.float() {
        decoded
    } else {
        "Not a float type"@
    }
}

/// The three rows of a conversion, each a label and a text, in the order in
/// which they are shown.
pub open spec fn conversions(value: u128, data_type: DataType, decoded: Seq<char>) -> Seq<
    (Seq<char>, Seq<char>),
> {
    seq![
        ("Little Endian Bytes"@, hex_list(little_endian(value, data_type))),
        ("Big Endian Bytes"@, hex_list(big_endian(value, data_type))),
        ("Float Value"@, float_text(data_type, decoded)),
    ]
}

/// The text of the floating-point row. `decoded` is the decimal text of the
/// pattern that the type decodes; it is read only for a floating-point type.
pub fn float_entry(data_type: DataType, decoded: &str) -> (text: String)
    ensures
        text@ == float_text(data_type, decoded@),
{
    if data_type.is_float() {
        decoded.to_owned()
    } else {
        "Not a float type".to_owned()
    }
}

/// All rows for `value` read as `data_type`. `decoded` is the decimal text
/// of the floating-point pattern, read only for a floating-point type.
pub fn get_conversions(
    value: u128,
    data_type: DataType,
    endianness: Endianness,
    decoded: &str,
) -> (rows: Vec<(String, String)>)
    ensures
        rows.deep_view() == conversions(value, data_type, decoded@),
{
    let little = LittleEndianBytes;
    let big = BigEndianBytes;
    let mut rows: Vec<(String, String)> = Vec::new();
    rows.push((little.name().to_owned(), little.convert(value, data_type, endianness)));
    rows.push((big.name().to_owned(), big.convert(value, data_type, endianness)));
    rows.push(("Float Value".to_owned(), float_entry(data_type, decoded)));
    rows
}

} // verus!
