use vstd::prelude::*;

verus! {

/// Failure of decoding one class module from its bytes.
///
/// Offsets are byte positions into the stream being decoded.
#[derive(Debug, Clone, Copy, PartialEq, Eq, Structural)]
pub enum DecodeError {
    /// The stream does not begin with the four-byte class-file signature.
    BadMagic,
    /// A constant-pool tag that is not recognized, with the offset of the tag byte.
    UnknownTag(u8, usize),
    /// The stream ended before the value at this offset could be read.
    Truncated(usize),
    /// A two-slot constant-pool entry would reserve a slot past the declared
    /// pool count; the carried index is the first slot out of range.
    IndexOutOfRange(usize),
    /// A constant-pool string whose bytes are not valid UTF-8.
    InvalidUtf8(usize),
}

/// Failure of loading an archive as a whole.
#[derive(Debug, Clone, Copy, PartialEq, Eq, Structural)]
pub enum ArchiveError {
    /// The archive could not be opened at all.
    OpenFailed,
    /// The bytes are not a well-formed archive.
    NotAnArchive,
    /// The archive has no readable manifest file.
    ManifestMissing,
}

/// A fault raised while interpreting bytecode; it aborts the current method.
#[derive(Debug, Clone, Copy, PartialEq, Eq, Structural)]
pub enum RuntimeFault {
    NoMainClass,
    NoMainMethod,
    NoCodeAttribute,
    /// An opcode byte outside the defined instruction set, with the offset
    /// where it stood and the byte itself.
    InvalidOpcode(usize, u8),
    StackUnderflow,
    StackOverflow,
    LocalIndexOutOfRange,
    /// A symbolic reference did not resolve through the constant pool.
    ConstantPoolMismatch,
}

} // verus!
