//! Decoding of Mach-O object and executable files into a header, an ordered
//! list of load commands (with their sections and trailing strings) and a
//! symbol table. Every decoding step is stated over the raw bytes and proved.

pub mod cursor;
pub mod error;
pub mod constants;
pub mod header;
pub mod load_commands;
pub mod symbols;
pub mod mach_o;
pub mod memory_helpers;
pub mod memory_utils;
pub mod parser;
pub mod lemmas;
