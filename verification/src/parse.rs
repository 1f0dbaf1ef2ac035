use vstd::prelude::*;

use crate::class_file::{
    spec_parse_attribute_info, spec_parse_attribute_list, spec_parse_class_file,
    spec_parse_cp_entry, spec_parse_cp_list, spec_parse_field_info, spec_parse_field_list,
    spec_parse_method_info, spec_parse_method_list, spec_parse_u16_list, spec_has_magic, lemma_cp_list_len, AttributeInfo, ClassFile,
    ConstantPoolEntry, FieldInfo, MethodInfo, SpecAttributeInfo, SpecClassFile,
    SpecConstantPoolEntry, SpecFieldInfo, SpecMethodInfo,
};
use crate::errors::DecodeError;
use crate::reader::{
    read_bytes, read_i32, read_i64, read_u16, read_u32, read_u64, read_u8, res_view, spec_be_u16, spec_read_u16,
};
use crate::text::bytes_to_string;

verus! {

// Executable decoders for the class-file wire format. Each one returns
// exactly what its spec-level counterpart describes, errors included.

pub fn parse_cp_entry(data: &Vec<u8>, pos: usize) -> (r: Result<
    (ConstantPoolEntry, usize),
    DecodeError,
>)
    ensures
        res_view(r) == spec_parse_cp_entry(data@, pos),
{
    match read_u8(data, pos) {
        Err(e) => Err(e),
        Ok((tag, p1)) => match tag {
            1u8 => match read_u16(data, p1) {
                Err(e) => Err(e),
                Ok((n, p2)) => match read_bytes(data, p2, n as usize) {
                    Err(e) => Err(e),
                    Ok((s, p3)) => Ok((ConstantPoolEntry::Utf8String { bytes: s }, p3)),
                },
            },
            3u8 => match read_i32(data, p1) {
                Err(e) => Err(e),
                Ok((v, p2)) => Ok((ConstantPoolEntry::Integer(v), p2)),
            },
            4u8 => match read_u32(data, p1) {
                Err(e) => Err(e),
                Ok((v, p2)) => Ok((ConstantPoolEntry::Float(v), p2)),
            },
            5u8 => match read_i64(data, p1) {
                Err(e) => Err(e),
                Ok((v, p2)) => Ok((ConstantPoolEntry::Long(v), p2)),
            },
            6u8 => match read_u64(data, p1) {
                Err(e) => Err(e),
                Ok((v, p2)) => Ok((ConstantPoolEntry::Double(v), p2)),
            },
            7u8 => match read_u16(data, p1) {
                Err(e) => Err(e),
                Ok((v, p2)) => Ok((ConstantPoolEntry::ClassRef(v), p2)),
            },
            8u8 => match read_u16(data, p1) {
                Err(e) => Err(e),
                Ok((v, p2)) => Ok((ConstantPoolEntry::StringRef(v), p2)),
            },
            9u8 => match read_u16(data, p1) {
                Err(e) => Err(e),
                Ok((v, p2)) => match read_u16(data, p2) {
                    Err(e) => Err(e),
                    Ok((w, p3)) => Ok((ConstantPoolEntry::FieldRef(v, w), p3)),
                },
            },
            10u8 => match read_u16(data, p1) {
                Err(e) => Err(e),
                Ok((v, p2)) => match read_u16(data, p2) {
                    Err(e) => Err(e),
                    Ok((w, p3)) => Ok((ConstantPoolEntry::MethodRef(v, w), p3)),
                },
            },
            11u8 => match read_u16(data, p1) {
                Err(e) => Err(e),
                Ok((v, p2)) => match read_u16(data, p2) {
                    Err(e) => Err(e),
                    Ok((w, p3)) => Ok((ConstantPoolEntry::InterfaceMethodRef(v, w), p3)),
                },
            },
            12u8 => match read_u16(data, p1) {
                Err(e) => Err(e),
                Ok((v, p2)) => match read_u16(data, p2) {
                    Err(e) => Err(e),
                    Ok((w, p3)) => Ok((ConstantPoolEntry::NameAndType(v, w), p3)),
                },
            },
            15u8 => match read_u8(data, p1) {
                Err(e) => Err(e),
                Ok((v, p2)) => match read_u16(data, p2) {
                    Err(e) => Err(e),
                    Ok((w, p3)) => Ok((ConstantPoolEntry::MethodHandle(v, w), p3)),
                },
            },
            16u8 => match read_u16(data, p1) {
                Err(e) => Err(e),
                Ok((v, p2)) => Ok((ConstantPoolEntry::MethodType(v), p2)),
            },
            17u8 => match read_u16(data, p1) {
                Err(e) => Err(e),
                Ok((v, p2)) => match read_u16(data, p2) {
                    Err(e) => Err(e),
                    Ok((w, p3)) => Ok((ConstantPoolEntry::Dynamic(v, w), p3)),
                },
            },
            18u8 => match read_u16(data, p1) {
                Err(e) => Err(e),
                Ok((v, p2)) => match read_u16(data, p2) {
                    Err(e) => Err(e),
                    Ok((w, p3)) => Ok((ConstantPoolEntry::InvokeDynamic(v, w), p3)),
                },
            },
            19u8 => match read_u16(data, p1) {
                Err(e) => Err(e),
                Ok((v, p2)) => Ok((ConstantPoolEntry::Module(v), p2)),
            },
            20u8 => match read_u16(data, p1) {
                Err(e) => Err(e),
                Ok((v, p2)) => Ok((ConstantPoolEntry::Package(v), p2)),
            },
            _ => Err(DecodeError::UnknownTag(tag, pos)),
        },
    }
}

/// Decode the whole constant pool from a declared count; the effective
/// sequence has `count - 1` entries, placeholders included.
pub fn parse_constant_pool(data: &Vec<u8>, pos: usize, count: u16) -> (r: Result<
    (Vec<ConstantPoolEntry>, usize),
    DecodeError,
>)
    ensures
        res_view(r) == spec_parse_cp_list(data@, pos, 0, count as int),
{
    let mut acc: Vec<ConstantPoolEntry> = Vec::new();
    let mut p: usize = pos;
    let mut i: usize = 0;
    while i + 1 < count as usize
        invariant
            i <= count as usize,
            match spec_parse_cp_list(data@, p, i as int, count as int) {
                Ok((s, q)) => spec_parse_cp_list(data@, pos, 0, count as int) == Ok::<
                    _,
                    DecodeError,
                >((acc.deep_view() + s, q)),
                Err(e) => spec_parse_cp_list(data@, pos, 0, count as int) == Err::<
                    (Seq<SpecConstantPoolEntry>, usize),
                    _,
                >(e),
            },
        decreases count as int - i,
    {
        match parse_cp_entry(data, p) {
            Err(e) => {
                return Err(e);
            },
            Ok((ent, p2)) => {
                let two = match &ent {
                    ConstantPoolEntry::Long(_) => true,
                    ConstantPoolEntry::Double(_) => true,
                    _ => false,
                };
                if two {
                    if i + 2 > count as usize - 1 {
                        return Err(DecodeError::IndexOutOfRange(count as usize));
                    }
                    let ghost old_acc = acc.deep_view();
                    let ghost entv = ent.deep_view();
                    acc.push(ent);
                    acc.push(ConstantPoolEntry::Placeholder);
                    proof {
                        assert(acc.deep_view() =~= old_acc + seq![
                            entv,
                            SpecConstantPoolEntry::Placeholder,
                        ]);
                        match spec_parse_cp_list(data@, p2, i + 2, count as int) {
                            Ok((s, q)) => {
                                assert((old_acc + seq![entv, SpecConstantPoolEntry::Placeholder])
                                    + s =~= old_acc + (seq![
                                    entv,
                                    SpecConstantPoolEntry::Placeholder,
                                ] + s));
                            },
                            Err(_) => {},
                        }
                    }
                    p = p2;
                    i = i + 2;
                } else {
                    let ghost old_acc = acc.deep_view();
                    let ghost entv = ent.deep_view();
                    acc.push(ent);
                    proof {
                        assert(acc.deep_view() =~= old_acc + seq![entv]);
                        match spec_parse_cp_list(data@, p2, i + 1, count as int) {
                            Ok((s, q)) => {
                                assert((old_acc + seq![entv]) + s =~= old_acc + (seq![entv] + s));
                            },
                            Err(_) => {},
                        }
                    }
                    p = p2;
                    i = i + 1;
                }
            },
        }
    }
    proof {
        assert(acc.deep_view() + Seq::<SpecConstantPoolEntry>::empty() =~= acc.deep_view());
    }
    Ok((acc, p))
}

pub fn parse_u16_list(data: &Vec<u8>, pos: usize, n: u16) -> (r: Result<
    (Vec<u16>, usize),
    DecodeError,
>)
    ensures
        res_view(r) == spec_parse_u16_list(data@, pos, n as int),
{
    let mut acc: Vec<u16> = Vec::new();
    let mut p: usize = pos;
    let mut j: usize = 0;
    while j < n as usize
        invariant
            j <= n as usize,
            match spec_parse_u16_list(data@, p, n as int - j) {
                Ok((s, q)) => spec_parse_u16_list(data@, pos, n as int) == Ok::<_, DecodeError>(
                    (acc.deep_view() + s, q),
                ),
                Err(e) => spec_parse_u16_list(data@, pos, n as int) == Err::<(Seq<u16>, usize), _>(
                    e,
                ),
            },
        decreases n as int - j,
    {
        match read_u16(data, p) {
            Err(e) => {
                return Err(e);
            },
            Ok((v, p2)) => {
                let ghost old_acc = acc.deep_view();
                acc.push(v);
                proof {
                    assert(acc.deep_view() =~= old_acc + seq![v]);
                    match spec_parse_u16_list(data@, p2, n as int - j - 1) {
                        Ok((s, q)) => {
                            assert((old_acc + seq![v]) + s =~= old_acc + (seq![v] + s));
                        },
                        Err(_) => {},
                    }
                }
                p = p2;
                j = j + 1;
            },
        }
    }
    proof {
        assert(acc.deep_view() + Seq::<u16>::empty() =~= acc.deep_view());
    }
    Ok((acc, p))
}

pub fn parse_attribute_info(data: &Vec<u8>, pos: usize) -> (r: Result<
    (AttributeInfo, usize),
    DecodeError,
>)
    ensures
        res_view(r) == spec_parse_attribute_info(data@, pos),
{
    match read_u16(data, pos) {
        Err(e) => Err(e),
        Ok((name_idx, p1)) => match read_u32(data, p1) {
            Err(e) => Err(e),
            Ok((len, p2)) => match read_bytes(data, p2, len as usize) {
                Err(e) => Err(e),
                Ok((s, p3)) => Ok(
                    (
                        AttributeInfo {
                            attribute_name_index: name_idx,
                            attribute_length: len,
                            info: s,
                        },
                        p3,
                    ),
                ),
            },
        },
    }
}

pub fn parse_attribute_list(data: &Vec<u8>, pos: usize, n: u16) -> (r: Result<
    (Vec<AttributeInfo>, usize),
    DecodeError,
>)
    ensures
        res_view(r) == spec_parse_attribute_list(data@, pos, n as int),
{
    let mut acc: Vec<AttributeInfo> = Vec::new();
    let mut p: usize = pos;
    let mut j: usize = 0;
    while j < n as usize
        invariant
            j <= n as usize,
            match spec_parse_attribute_list(data@, p, n as int - j) {
                Ok((s, q)) => spec_parse_attribute_list(data@, pos, n as int) == Ok::<
                    _,
                    DecodeError,
                >((acc.deep_view() + s, q)),
                Err(e) => spec_parse_attribute_list(data@, pos, n as int) == Err::<
                    (Seq<SpecAttributeInfo>, usize),
                    _,
                >(e),
            },
        decreases n as int - j,
    {
        match parse_attribute_info(data, p) {
            Err(e) => {
                return Err(e);
            },
            Ok((a, p2)) => {
                let ghost old_acc = acc.deep_view();
                let ghost av = a.deep_view();
                acc.push(a);
                proof {
                    assert(acc.deep_view() =~= old_acc + seq![av]);
                    match spec_parse_attribute_list(data@, p2, n as int - j - 1) {
                        Ok((s, q)) => {
                            assert((old_acc + seq![av]) + s =~= old_acc + (seq![av] + s));
                        },
                        Err(_) => {},
                    }
                }
                p = p2;
                j = j + 1;
            },
        }
    }
    proof {
        assert(acc.deep_view() + Seq::<SpecAttributeInfo>::empty() =~= acc.deep_view());
    }
    Ok((acc, p))
}

pub fn parse_field_info(data: &Vec<u8>, pos: usize) -> (r: Result<(FieldInfo, usize), DecodeError>)
    ensures
        res_view(r) == spec_parse_field_info(data@, pos),
{
    match read_u16(data, pos) {
        Err(e) => Err(e),
        Ok((acc, p1)) => match read_u16(data, p1) {
            Err(e) => Err(e),
            Ok((name_idx, p2)) => match read_u16(data, p2) {
                Err(e) => Err(e),
                Ok((desc_idx, p3)) => match read_u16(data, p3) {
                    Err(e) => Err(e),
                    Ok((cnt, p4)) => match parse_attribute_list(data, p4, cnt) {
                        Err(e) => Err(e),
                        Ok((attrs, q)) => Ok(
                            (
                                FieldInfo {
                                    access_flags: acc,
                                    name_index: name_idx,
                                    descriptor_index: desc_idx,
                                    attributes_count: cnt,
                                    attributes: attrs,
                                },
                                q,
                            ),
                        ),
                    },
                },
            },
        },
    }
}

pub fn parse_field_list(data: &Vec<u8>, pos: usize, n: u16) -> (r: Result<
    (Vec<FieldInfo>, usize),
    DecodeError,
>)
    ensures
        res_view(r) == spec_parse_field_list(data@, pos, n as int),
{
    let mut acc: Vec<FieldInfo> = Vec::new();
    let mut p: usize = pos;
    let mut j: usize = 0;
    while j < n as usize
        invariant
            j <= n as usize,
            match spec_parse_field_list(data@, p, n as int - j) {
                Ok((s, q)) => spec_parse_field_list(data@, pos, n as int) == Ok::<_, DecodeError>(
                    (acc.deep_view() + s, q),
                ),
                Err(e) => spec_parse_field_list(data@, pos, n as int) == Err::<
                    (Seq<SpecFieldInfo>, usize),
                    _,
                >(e),
            },
        decreases n as int - j,
    {
        match parse_field_info(data, p) {
            Err(e) => {
                return Err(e);
            },
            Ok((f, p2)) => {
                let ghost old_acc = acc.deep_view();
                let ghost fv = f.deep_view();
                acc.push(f);
                proof {
                    assert(acc.deep_view() =~= old_acc + seq![fv]);
                    match spec_parse_field_list(data@, p2, n as int - j - 1) {
                        Ok((s, q)) => {
                            assert((old_acc + seq![fv]) + s =~= old_acc + (seq![fv] + s));
                        },
                        Err(_) => {},
                    }
                }
                p = p2;
                j = j + 1;
            },
        }
    }
    proof {
        assert(acc.deep_view() + Seq::<SpecFieldInfo>::empty() =~= acc.deep_view());
    }
    Ok((acc, p))
}

pub fn parse_method_info(data: &Vec<u8>, pos: usize) -> (r: Result<
    (MethodInfo, usize),
    DecodeError,
>)
    ensures
        res_view(r) == spec_parse_method_info(data@, pos),
{
    match read_u16(data, pos) {
        Err(e) => Err(e),
        Ok((acc, p1)) => match read_u16(data, p1) {
            Err(e) => Err(e),
            Ok((name_idx, p2)) => match read_u16(data, p2) {
                Err(e) => Err(e),
                Ok((desc_idx, p3)) => match read_u16(data, p3) {
                    Err(e) => Err(e),
                    Ok((cnt, p4)) => match parse_attribute_list(data, p4, cnt) {
                        Err(e) => Err(e),
                        Ok((attrs, q)) => Ok(
                            (
                                MethodInfo {
                                    access_flags: acc,
                                    name_index: name_idx,
                                    descriptor_index: desc_idx,
                                    attributes_count: cnt,
                                    attributes: attrs,
                                },
                                q,
                            ),
                        ),
                    },
                },
            },
        },
    }
}

pub fn parse_method_list(data: &Vec<u8>, pos: usize, n: u16) -> (r: Result<
    (Vec<MethodInfo>, usize),
    DecodeError,
>)
    ensures
        res_view(r) == spec_parse_method_list(data@, pos, n as int),
{
    let mut acc: Vec<MethodInfo> = Vec::new();
    let mut p: usize = pos;
    let mut j: usize = 0;
    while j < n as usize
        invariant
            j <= n as usize,
            match spec_parse_method_list(data@, p, n as int - j) {
                Ok((s, q)) => spec_parse_method_list(data@, pos, n as int) == Ok::<_, DecodeError>(
                    (acc.deep_view() + s, q),
                ),
                Err(e) => spec_parse_method_list(data@, pos, n as int) == Err::<
                    (Seq<SpecMethodInfo>, usize),
                    _,
                >(e),
            },
        decreases n as int - j,
    {
        match parse_method_info(data, p) {
            Err(e) => {
                return Err(e);
            },
            Ok((m, p2)) => {
                let ghost old_acc = acc.deep_view();
                let ghost mv = m.deep_view();
                acc.push(m);
                proof {
                    assert(acc.deep_view() =~= old_acc + seq![mv]);
                    match spec_parse_method_list(data@, p2, n as int - j - 1) {
                        Ok((s, q)) => {
                            assert((old_acc + seq![mv]) + s =~= old_acc + (seq![mv] + s));
                        },
                        Err(_) => {},
                    }
                }
                p = p2;
                j = j + 1;
            },
        }
    }
    proof {
        assert(acc.deep_view() + Seq::<SpecMethodInfo>::empty() =~= acc.deep_view());
    }
    Ok((acc, p))
}

/// Resolution of a 1-based constant-pool index to the character sequence of
/// a `Utf8String` entry: defined exactly when the index is in range, the
/// entry is a `Utf8String`, and its bytes are valid UTF-8.
pub open spec fn spec_pool_string(pool: Seq<SpecConstantPoolEntry>, index: int) -> Option<
    Seq<char>,
> {
    if 1 <= index && index <= pool.len() {
        match pool[index - 1] {
            SpecConstantPoolEntry::Utf8String { bytes } => if vstd::utf8::valid_utf8(bytes) {
                Some(vstd::utf8::decode_utf8(bytes))
            } else {
                None
            },
            _ => None,
        }
    } else {
        None
    }
}

impl ClassFile {
    /// Decode a class file from the front of `data`. Trailing bytes after the
    /// attribute table are ignored. On success the decoded pool holds exactly
    /// the declared count minus one entries, placeholders included.
    #[verifier::rlimit(60)]
    pub fn parse(data: &Vec<u8>) -> (r: Result<ClassFile, DecodeError>)
        ensures
            match r {
                Ok(cf) => spec_parse_class_file(data@) is Ok && cf.deep_view()
                    == spec_parse_class_file(data@).unwrap().0,
                Err(e) => spec_parse_class_file(data@) == Err::<(SpecClassFile, usize), _>(e),
            },
    {
        if !(data.len() >= 4 && data[0] == 0xCA && data[1] == 0xFE && data[2] == 0xBA && data[3]
            == 0xBE) {
            return Err(DecodeError::BadMagic);
        }
        let (minor, p1) = match read_u16(data, 4) {
            Ok(v) => v,
            Err(e) => {
                return Err(e);
            },
        };
        let (major, p2) = match read_u16(data, p1) {
            Ok(v) => v,
            Err(e) => {
                return Err(e);
            },
        };
        let (cp_count, p3) = match read_u16(data, p2) {
            Ok(v) => v,
            Err(e) => {
                return Err(e);
            },
        };
        let (pool, p4) = match parse_constant_pool(data, p3, cp_count) {
            Ok(v) => v,
            Err(e) => {
                return Err(e);
            },
        };
        let (access, p5) = match read_u16(data, p4) {
            Ok(v) => v,
            Err(e) => {
                return Err(e);
            },
        };
        let (this_c, p6) = match read_u16(data, p5) {
            Ok(v) => v,
            Err(e) => {
                return Err(e);
            },
        };
        let (super_c, p7) = match read_u16(data, p6) {
            Ok(v) => v,
            Err(e) => {
                return Err(e);
            },
        };
        let (if_count, p8) = match read_u16(data, p7) {
            Ok(v) => v,
            Err(e) => {
                return Err(e);
            },
        };
        let (ifs, p9) = match parse_u16_list(data, p8, if_count) {
            Ok(v) => v,
            Err(e) => {
                return Err(e);
            },
        };
        let (fld_count, p10) = match read_u16(data, p9) {
            Ok(v) => v,
            Err(e) => {
                return Err(e);
            },
        };
        let (flds, p11) = match parse_field_list(data, p10, fld_count) {
            Ok(v) => v,
            Err(e) => {
                return Err(e);
            },
        };
        let (mth_count, p12) = match read_u16(data, p11) {
            Ok(v) => v,
            Err(e) => {
                return Err(e);
            },
        };
        let (mths, p13) = match parse_method_list(data, p12, mth_count) {
            Ok(v) => v,
            Err(e) => {
                return Err(e);
            },
        };
        let (attr_count, p14) = match read_u16(data, p13) {
            Ok(v) => v,
            Err(e) => {
                return Err(e);
            },
        };
        let (attrs, _p15) = match parse_attribute_list(data, p14, attr_count) {
            Ok(v) => v,
            Err(e) => {
                return Err(e);
            },
        };
        Ok(
            ClassFile {
                minor_version: minor,
                major_version: major,
                constant_pool: pool,
                access_flags: access,
                this_class: this_c,
                super_class: super_c,
                interface_count: if_count,
                interface_table: ifs,
                field_count: fld_count,
                field_table: flds,
                method_count: mth_count,
                method_table: mths,
                attribute_count: attr_count,
                attribute_table: attrs,
            },
        )
    }

    /// Resolve a 1-based constant-pool index to a string. Returns `Some`
    /// exactly when the index refers to a `Utf8String` entry whose bytes are
    /// valid UTF-8; any other index, out-of-range ones included, gives `None`.
    pub fn get_constant_pool_string(&self, index: usize) -> (r: Option<String>)
        ensures
            r is Some <==> spec_pool_string(self.deep_view().constant_pool, index as int) is Some,
            r is Some ==> r.unwrap()@ == spec_pool_string(
                self.deep_view().constant_pool,
                index as int,
            ).unwrap(),
    {
        if index >= 1 && index <= self.constant_pool.len() {
            match &self.constant_pool[index - 1] {
                ConstantPoolEntry::Utf8String { bytes } => bytes_to_string(bytes),
                _ => None,
            }
        } else {
            None
        }
    }
}

/// The effective constant-pool length of any decoded class file equals the
/// declared count minus one, post-Long/Double placeholders included.
pub proof fn lemma_constant_pool_effective_length(b: Seq<u8>)
    requires
        spec_parse_class_file(b) is Ok,
        spec_be_u16(b, 8) >= 1,
    ensures
        spec_parse_class_file(b).unwrap().0.constant_pool.len() == spec_be_u16(b, 8) - 1,
{
    let cp_count = spec_read_u16(b, 8).unwrap().0;
    lemma_cp_list_len(b, 10, 0, cp_count as int);
}

} // verus!
