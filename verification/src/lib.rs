//! Value interpretation for a numeric inspector: a numeral typed in one of
//! four bases is parsed into a 128-bit magnitude, and the magnitude is shown
//! as the bytes of a fixed-width numeric type in both byte orders.

pub mod converter;
pub mod display;
pub mod hex;
pub mod numeral;
pub mod reinterpret;
pub mod selection;
pub mod session;
pub mod text;

pub use converter::{get_conversions, ByteConverter, CustomByteConverter};
pub use numeral::{parse_numeral, ParseError};
pub use selection::{DataType, Endianness, InputFormat};
pub use session::{App, AppState, Flow, Key};
