use vstd::prelude::*;

use crate::errors::DecodeError;

verus! {

// Big-endian fixed-width reads from a byte sequence at a given position.
// Each executable read mirrors a spec-level read exactly, including the
// offset carried by a truncation error.

/// Big-endian 16-bit value of the two bytes at `p`.
pub open spec fn spec_be_u16(b: Seq<u8>, p: int) -> int {
    b[p] * 256 + b[p + 1]
}

/// Big-endian 32-bit value of the four bytes at `p`.
pub open spec fn spec_be_u32(b: Seq<u8>, p: int) -> int {
    spec_be_u16(b, p) * 0x10000 + spec_be_u16(b, p + 2)
}

/// Big-endian 64-bit value of the eight bytes at `p`.
pub open spec fn spec_be_u64(b: Seq<u8>, p: int) -> int {
    spec_be_u32(b, p) * 0x1_0000_0000 + spec_be_u32(b, p + 4)
}

/// The signed value whose 32-bit two's-complement pattern is `n`.
pub open spec fn spec_u32_as_i32(n: int) -> int {
    if n < 0x8000_0000 {
        n
    } else {
        n - 0x1_0000_0000
    }
}

/// The signed value whose 64-bit two's-complement pattern is `n`.
pub open spec fn spec_u64_as_i64(n: int) -> int {
    if n < 0x8000_0000_0000_0000 {
        n
    } else {
        n - 0x1_0000_0000_0000_0000
    }
}

pub open spec fn spec_read_u8(b: Seq<u8>, p: usize) -> Result<(u8, usize), DecodeError> {
    if p + 1 <= b.len() {
        Ok((b[p as int], (p + 1) as usize))
    } else {
        Err(DecodeError::Truncated(p))
    }
}

pub open spec fn spec_read_u16(b: Seq<u8>, p: usize) -> Result<(u16, usize), DecodeError> {
    if p + 2 <= b.len() {
        Ok((spec_be_u16(b, p as int) as u16, (p + 2) as usize))
    } else {
        Err(DecodeError::Truncated(p))
    }
}

pub open spec fn spec_read_u32(b: Seq<u8>, p: usize) -> Result<(u32, usize), DecodeError> {
    if p + 4 <= b.len() {
        Ok((spec_be_u32(b, p as int) as u32, (p + 4) as usize))
    } else {
        Err(DecodeError::Truncated(p))
    }
}

pub open spec fn spec_read_i32(b: Seq<u8>, p: usize) -> Result<(i32, usize), DecodeError> {
    if p + 4 <= b.len() {
        Ok((spec_u32_as_i32(spec_be_u32(b, p as int)) as i32, (p + 4) as usize))
    } else {
        Err(DecodeError::Truncated(p))
    }
}

pub open spec fn spec_read_u64(b: Seq<u8>, p: usize) -> Result<(u64, usize), DecodeError> {
    if p + 8 <= b.len() {
        Ok((spec_be_u64(b, p as int) as u64, (p + 8) as usize))
    } else {
        Err(DecodeError::Truncated(p))
    }
}

pub open spec fn spec_read_i64(b: Seq<u8>, p: usize) -> Result<(i64, usize), DecodeError> {
    if p + 8 <= b.len() {
        Ok((spec_u64_as_i64(spec_be_u64(b, p as int)) as i64, (p + 8) as usize))
    } else {
        Err(DecodeError::Truncated(p))
    }
}

pub open spec fn spec_read_bytes(b: Seq<u8>, p: usize, n: usize) -> Result<
    (Seq<u8>, usize),
    DecodeError,
> {
    if p + n <= b.len() {
        Ok((b.subrange(p as int, p + n), (p + n) as usize))
    } else {
        Err(DecodeError::Truncated(p))
    }
}

/// The deep view of a parse result: the parsed value is replaced by its
/// mathematical model, while position and error are kept as they are.
pub open spec fn res_view<T: DeepView>(r: Result<(T, usize), DecodeError>) -> Result<
    (T::V, usize),
    DecodeError,
> {
    match r {
        Ok((t, p)) => Ok((t.deep_view(), p)),
        Err(e) => Err(e),
    }
}

/// The deep view of an optional value.
pub open spec fn opt_view<T: DeepView>(o: Option<T>) -> Option<T::V> {
    match o {
        Some(t) => Some(t.deep_view()),
        None => None,
    }
}

/// The deep view of a vector is its elements' deep views, index by index.
pub proof fn lemma_deep_view_elems<T: DeepView>(v: Vec<T>)
    ensures
        v.deep_view().len() == v@.len(),
        forall|i: int| 0 <= i < v@.len() ==> v.deep_view()[i] == #[trigger] v@[i].deep_view(),
{
}

pub fn read_u8(data: &Vec<u8>, pos: usize) -> (r: Result<(u8, usize), DecodeError>)
    ensures
        r == spec_read_u8(data@, pos),
{
    if pos < data.len() {
        Ok((data[pos], pos + 1))
    } else {
        Err(DecodeError::Truncated(pos))
    }
}

pub fn read_u16(data: &Vec<u8>, pos: usize) -> (r: Result<(u16, usize), DecodeError>)
    ensures
        r == spec_read_u16(data@, pos),
{
    if pos <= data.len() && data.len() - pos >= 2 {
        let v: u16 = (data[pos] as u16) * 256 + (data[pos + 1] as u16);
        Ok((v, pos + 2))
    } else {
        Err(DecodeError::Truncated(pos))
    }
}

pub fn read_u32(data: &Vec<u8>, pos: usize) -> (r: Result<(u32, usize), DecodeError>)
    ensures
        r == spec_read_u32(data@, pos),
{
    if pos <= data.len() && data.len() - pos >= 4 {
        let hi: u32 = (data[pos] as u32) * 256 + (data[pos + 1] as u32);
        let lo: u32 = (data[pos + 2] as u32) * 256 + (data[pos + 3] as u32);
        Ok((hi * 0x10000 + lo, pos + 4))
    } else {
        Err(DecodeError::Truncated(pos))
    }
}

pub fn read_i32(data: &Vec<u8>, pos: usize) -> (r: Result<(i32, usize), DecodeError>)
    ensures
        r == spec_read_i32(data@, pos),
{
    match read_u32(data, pos) {
        Ok((v, q)) => {
            let s: i32 = if v < 0x8000_0000 {
                v as i32
            } else {
                ((v as i64) - 0x1_0000_0000i64) as i32
            };
            Ok((s, q))
        },
        Err(e) => Err(e),
    }
}

pub fn read_u64(data: &Vec<u8>, pos: usize) -> (r: Result<(u64, usize), DecodeError>)
    ensures
        r == spec_read_u64(data@, pos),
{
    if pos <= data.len() && data.len() - pos >= 8 {
        let a: u64 = (data[pos] as u64) * 256 + (data[pos + 1] as u64);
        let b: u64 = (data[pos + 2] as u64) * 256 + (data[pos + 3] as u64);
        let c: u64 = (data[pos + 4] as u64) * 256 + (data[pos + 5] as u64);
        let d: u64 = (data[pos + 6] as u64) * 256 + (data[pos + 7] as u64);
        let hi: u64 = a * 0x10000 + b;
        let lo: u64 = c * 0x10000 + d;
        Ok((hi * 0x1_0000_0000 + lo, pos + 8))
    } else {
        Err(DecodeError::Truncated(pos))
    }
}

pub fn read_i64(data: &Vec<u8>, pos: usize) -> (r: Result<(i64, usize), DecodeError>)
    ensures
        r == spec_read_i64(data@, pos),
{
    match read_u64(data, pos) {
        Ok((v, q)) => {
            let s: i64 = if v < 0x8000_0000_0000_0000 {
                v as i64
            } else {
                ((v - 0x8000_0000_0000_0000u64) as i64) + (-0x8000_0000_0000_0000i64)
            };
            Ok((s, q))
        },
        Err(e) => Err(e),
    }
}

pub fn read_bytes(data: &Vec<u8>, pos: usize, n: usize) -> (r: Result<
    (Vec<u8>, usize),
    DecodeError,
>)
    ensures
        match r {
            Ok((v, q)) => spec_read_bytes(data@, pos, n) == Ok::<_, DecodeError>((v@, q)),
            Err(e) => spec_read_bytes(data@, pos, n) == Err::<(Seq<u8>, usize), _>(e),
        },
{
    if pos <= data.len() && data.len() - pos >= n {
        let s = vstd::slice::slice_subrange(data.as_slice(), pos, pos + n);
        let v = vstd::slice::slice_to_vec(s);
        Ok((v, pos + n))
    } else {
        Err(DecodeError::Truncated(pos))
    }
}

} // verus!
