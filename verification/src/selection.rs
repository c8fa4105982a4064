//! The three selections that accompany a typed numeral: the numeric type it is
//! read as, the byte order of interest, and the base it is written in.

use vstd::prelude::*;

verus! {

/// The numeric types a magnitude can be read as: five unsigned widths, five
/// signed widths and two floating-point widths.
#[derive(Debug, Clone, Copy, PartialEq, Eq, Structural)]
pub enum DataType {
    U8,
    U16,
    U32,
    U64,
    U128,
    I8,
    I16,
    I32,
    I64,
    I128,
    F32,
    F64,
}

impl DataType {
    /// Every numeric type, in the order in which a selector offers them.
    pub open spec fn catalogue() -> Seq<DataType> {
        seq![
            DataType::U8,
            DataType::U16,
            DataType::U32,
            DataType::U64,
            DataType::U128,
            DataType::I8,
            DataType::I16,
            DataType::I32,
            DataType::I64,
            DataType::I128,
            DataType::F32,
            DataType::F64,
        ]
    }

    /// The lower-case name of the type.
    pub open spec fn label(self) -> Seq<char> {
        match self {
            DataType::U8 => "u8"@,
            DataType::U16 => "u16"@,
            DataType::U32 => "u32"@,
            DataType::U64 => "u64"@,
            DataType::U128 => "u128"@,
            DataType::I8 => "i8"@,
            DataType::I16 => "i16"@,
            DataType::I32 => "i32"@,
            DataType::I64 => "i64"@,
            DataType::I128 => "i128"@,
            DataType::F32 => "f32"@,
            DataType::F64 => "f64"@,
        }
    }

    /// Number of bits a value of the type occupies.
    pub open spec fn bits(self) -> nat {
        match self {
            DataType::U8 | DataType::I8 => 8,
            DataType::U16 | DataType::I16 => 16,
            DataType::U32 | DataType::I32 | DataType::F32 => 32,
            DataType::U64 | DataType::I64 | DataType::F64 => 64,
            DataType::U128 | DataType::I128 => 128,
        }
    }

    /// Number of bytes a value of the type occupies.
    pub open spec fn bytes(self) -> nat {
        self.bits() / 8
    }

    /// Whether the type is one of the two's-complement signed integers.
    pub open spec fn signed(self) -> bool {
        self is I8 || self is I16 || self is I32 || self is I64 || self is I128
    }

    /// Whether the type is one of the IEEE-754 floating-point widths.
    pub open spec fn float(self) -> bool {
        self is F32 || self is F64
    }

    /// Every numeric type, in selector order.
    pub fn all() -> (list: Vec<DataType>)
        ensures
            list@ == Self::catalogue(),
    {
        vec![
            DataType::U8,
            DataType::U16,
            DataType::U32,
            DataType::U64,
            DataType::U128,
            DataType::I8,
            DataType::I16,
            DataType::I32,
            DataType::I64,
            DataType::I128,
            DataType::F32,
            DataType::F64,
        ]
    }

    /// The lower-case name of the type.
    pub fn to_string(&self) -> (text: String)
        ensures
            text@ == self.label(),
    {
        match self {
            DataType::U8 => "u8".to_owned(),
            DataType::U16 => "u16".to_owned(),
            DataType::U32 => "u32".to_owned(),
            DataType::U64 => "u64".to_owned(),
            DataType::U128 => "u128".to_owned(),
            DataType::I8 => "i8".to_owned(),
            DataType::I16 => "i16".to_owned(),
            DataType::I32 => "i32".to_owned(),
            DataType::I64 => "i64".to_owned(),
            DataType::I128 => "i128".to_owned(),
            DataType::F32 => "f32".to_owned(),
            DataType::F64 => "f64".to_owned(),
        }
    }

    /// The text shown in a narrow selector; for a numeric type it is the name itself.
    pub fn to_short_string(&self) -> (text: String)
        ensures
            text@ == self.label(),
    {
        self.to_string()
    }

    /// Number of bits a value of the type occupies.
    pub fn bit_width(&self) -> (width: u32)
        ensures
            width == self.bits(),
    {
        match self {
            DataType::U8 | DataType::I8 => 8,
            DataType::U16 | DataType::I16 => 16,
            DataType::U32 | DataType::I32 | DataType::F32 => 32,
            DataType::U64 | DataType::I64 | DataType::F64 => 64,
            DataType::U128 | DataType::I128 => 128,
        }
    }

    /// Number of bytes a value of the type occupies.
    pub fn byte_len(&self) -> (len: usize)
        ensures
            len == self.bytes(),
    {
        match self {
            DataType::U8 | DataType::I8 => 1,
            DataType::U16 | DataType::I16 => 2,
            DataType::U32 | DataType::I32 | DataType::F32 => 4,
            DataType::U64 | DataType::I64 | DataType::F64 => 8,
            DataType::U128 | DataType::I128 => 16,
        }
    }

    /// Whether the type is a two's-complement signed integer.
    pub fn is_signed(&self) -> (yes: bool)
        ensures
            yes == self.signed(),
    {
        match self {
            DataType::I8 | DataType::I16 | DataType::I32 | DataType::I64 | DataType::I128 => true,
            _ => false,
        }
    }

    /// Whether the type is a floating-point width.
    pub fn is_float(&self) -> (yes: bool)
        ensures
            yes == self.float(),
    {
        match self {
            DataType::F32 | DataType::F64 => true,
            _ => false,
        }
    }
}

/// The order in which the bytes of a multi-byte value are laid out.
#[derive(Debug, Clone, Copy, PartialEq, Eq, Structural)]
pub enum Endianness {
    Little,
    Big,
}

impl Endianness {
    /// Both byte orders, in the order in which a selector offers them.
    pub open spec fn catalogue() -> Seq<Endianness> {
        seq![Endianness::Little, Endianness::Big]
    }

    /// The name of the byte order.
    pub open spec fn label(self) -> Seq<char> {
        match self {
            Endianness::Little => "Little"@,
            Endianness::Big => "Big"@,
        }
    }

    /// The two-letter abbreviation shown in a narrow selector.
    pub open spec fn short_label(self) -> Seq<char> {
        match self {
            Endianness::Little => "LE"@,
            Endianness::Big => "BE"@,
        }
    }

    /// Both byte orders, in selector order.
    pub fn all() -> (list: Vec<Endianness>)
        ensures
            list@ == Self::catalogue(),
    {
        vec![Endianness::Little, Endianness::Big]
    }

    /// The name of the byte order.
    pub fn to_string(&self) -> (text: String)
        ensures
            text@ == self.label(),
    {
        match self {
            Endianness::Little => "Little".to_owned(),
            Endianness::Big => "Big".to_owned(),
        }
    }

    /// The two-letter abbreviation shown in a narrow selector.
    pub fn to_short_string(&self) -> (text: String)
        ensures
            text@ == self.short_label(),
    {
        match self {
            Endianness::Little => "LE".to_owned(),
            Endianness::Big => "BE".to_owned(),
        }
    }
}

/// The base a numeral is written in.
#[derive(Debug, Clone, Copy, PartialEq, Eq, Structural)]
pub enum InputFormat {
    Binary,
    Octal,
    Decimal,
    Hexadecimal,
}

impl InputFormat {
    /// All four bases, in the order in which a selector offers them.
    pub open spec fn catalogue() -> Seq<InputFormat> {
        seq![
            InputFormat::Binary,
            InputFormat::Octal,
            InputFormat::Decimal,
            InputFormat::Hexadecimal,
        ]
    }

    /// The name of the base.
    pub open spec fn label(self) -> Seq<char> {
        match self {
            InputFormat::Binary => "Binary"@,
            InputFormat::Octal => "Octal"@,
            InputFormat::Decimal => "Decimal"@,
            InputFormat::Hexadecimal => "Hex"@,
        }
    }

    /// The three-letter abbreviation shown in a narrow selector.
    pub open spec fn short_label(self) -> Seq<char> {
        match self {
            InputFormat::Binary => "Bin"@,
            InputFormat::Octal => "Oct"@,
            InputFormat::Decimal => "Dec"@,
            InputFormat::Hexadecimal => "Hex"@,
        }
    }

    /// The prefix shown in front of a numeral of this base. It is never part
    /// of the text that is parsed.
    pub open spec fn prefix(self) -> Seq<char> {
        match self {
            InputFormat::Binary => "0b"@,
            InputFormat::Octal => "0o"@,
            InputFormat::Decimal => "0d"@,
            InputFormat::Hexadecimal => "0x"@,
        }
    }

    /// The radix of the base: 2, 8, 10 or 16.
    pub open spec fn base(self) -> nat {
        match self {
            InputFormat::Binary => 2,
            InputFormat::Octal => 8,
            InputFormat::Decimal => 10,
            InputFormat::Hexadecimal => 16,
        }
    }

    /// Whether `c` is a digit of this base. Hexadecimal letters count in
    /// either case.
    pub open spec fn accepts(self, c: char) -> bool {
        match self {
            InputFormat::Binary => c == '0' || c == '1',
            InputFormat::Octal => '0' <= c <= '7',
            InputFormat::Decimal => '0' <= c <= '9',
            InputFormat::Hexadecimal => '0' <= c <= '9' || 'a' <= c <= 'f' || 'A' <= c <= 'F',
        }
    }

    /// Whether every character of `text` is a digit of this base.
    pub open spec fn accepts_all(self, text: Seq<char>) -> bool {
        forall|i: int| 0 <= i < text.len() ==> self.accepts(#[trigger] text[i])
    }

    /// All four bases, in selector order.
    pub fn all() -> (list: Vec<InputFormat>)
        ensures
            list@ == Self::catalogue(),
    {
        vec![
            InputFormat::Binary,
            InputFormat::Octal,
            InputFormat::Decimal,
            InputFormat::Hexadecimal,
        ]
    }

    /// The name of the base.
    pub fn to_string(&self) -> (text: String)
        ensures
            text@ == self.label(),
    {
        match self {
            InputFormat::Binary => "Binary".to_owned(),
            InputFormat::Octal => "Octal".to_owned(),
            InputFormat::Decimal => "Decimal".to_owned(),
            InputFormat::Hexadecimal => "Hex".to_owned(),
        }
    }

    /// The three-letter abbreviation shown in a narrow selector.
    pub fn to_short_string(&self) -> (text: String)
        ensures
            text@ == self.short_label(),
    {
        match self {
            InputFormat::Binary => "Bin".to_owned(),
            InputFormat::Octal => "Oct".to_owned(),
            InputFormat::Decimal => "Dec".to_owned(),
            InputFormat::Hexadecimal => "Hex".to_owned(),
        }
    }

    /// Whether `c` is a digit of this base.
    pub fn is_valid_char(&self, c: char) -> (valid: bool)
        ensures
            valid == self.accepts(c),
    {
        match self {
            InputFormat::Binary => c == '0' || c == '1',
            InputFormat::Octal => c >= '0' && c <= '7',
            InputFormat::Decimal => c >= '0' && c <= '9',
            InputFormat::Hexadecimal => {
                (c >= '0' && c <= '9') || (c >= 'a' && c <= 'f') || (c >= 'A' && c <= 'F')
            },
        }
    }

    /// The prefix shown in front of a numeral of this base.
    pub fn number_prefix(&self) -> (text: &'static str)
        ensures
            text@ == self.prefix(),
    {
        match self {
            InputFormat::Binary => "0b",
            InputFormat::Octal => "0o",
            InputFormat::Decimal => "0d",
            InputFormat::Hexadecimal => "0x",
        }
    }

    /// The radix of the base.
    pub fn radix(&self) -> (radix: u32)
        ensures
            radix == self.base(),
    {
        match self {
            InputFormat::Binary => 2,
            InputFormat::Octal => 8,
            InputFormat::Decimal => 10,
            InputFormat::Hexadecimal => 16,
        }
    }
}

} // verus!
