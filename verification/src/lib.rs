//! A small managed runtime for a stack-based bytecode format packaged in a
//! zip container: a class-file decoder, an archive loader, and a bytecode
//! interpreter over a virtual operand stack.

pub mod errors;
pub mod reader;
pub mod text;
pub mod class_file;
pub mod parse;
pub mod attribute;
pub mod attribute_decode;
pub mod strmap;
pub mod field;
pub mod method;
pub mod class;
pub mod manifest;
pub mod jar;
pub mod opcodes;
pub mod vm;
pub mod encode;
pub mod roundtrip;
