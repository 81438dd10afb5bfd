//! Input-processing core of a terminal emulator: an escape-sequence parser
//! that turns a raw byte stream into discrete terminal actions, and a color
//! resolver that turns color specifications into concrete RGB values.

pub mod color;
pub mod parser;
