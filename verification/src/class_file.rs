use vstd::prelude::*;

use crate::errors::DecodeError;
use crate::reader::{
    read_bytes, read_i32, read_i64, read_u16, read_u32, read_u64, read_u8, res_view,
    spec_read_bytes, spec_read_i32, spec_read_i64, spec_read_u16, spec_read_u32, spec_read_u64,
    spec_read_u8,
};
use crate::text::bytes_to_string;

verus! {

// The class-file wire format: a constant pool of tagged variable-width
// entries, member tables, and raw attribute records, all big-endian.

/// One constant-pool entry. The pool is 1-indexed; a `Long` or `Double`
/// occupies two slots, and the decoder keeps the reserved slot as an explicit
/// `Placeholder` so that index arithmetic stays direct.
///
/// `Float` and `Double` carry the raw bit pattern of the encoded value.
#[derive(Debug, Clone, PartialEq, Eq)]
pub enum ConstantPoolEntry {
    Placeholder,
    Utf8String { bytes: Vec<u8> },
    Integer(i32),
    Float(u32),
    Long(i64),
    Double(u64),
    ClassRef(u16),
    StringRef(u16),
    FieldRef(u16, u16),
    MethodRef(u16, u16),
    InterfaceMethodRef(u16, u16),
    NameAndType(u16, u16),
    MethodHandle(u8, u16),
    MethodType(u16),
    Dynamic(u16, u16),
    InvokeDynamic(u16, u16),
    Module(u16),
    Package(u16),
}

/// The mathematical model of a constant-pool entry.
pub enum SpecConstantPoolEntry {
    Placeholder,
    Utf8String { bytes: Seq<u8> },
    Integer(i32),
    Float(u32),
    Long(i64),
    Double(u64),
    ClassRef(u16),
    StringRef(u16),
    FieldRef(u16, u16),
    MethodRef(u16, u16),
    InterfaceMethodRef(u16, u16),
    NameAndType(u16, u16),
    MethodHandle(u8, u16),
    MethodType(u16),
    Dynamic(u16, u16),
    InvokeDynamic(u16, u16),
    Module(u16),
    Package(u16),
}

impl View for ConstantPoolEntry {
    type V = SpecConstantPoolEntry;

    open spec fn view(&self) -> SpecConstantPoolEntry {
        match self {
            ConstantPoolEntry::Placeholder => SpecConstantPoolEntry::Placeholder,
            ConstantPoolEntry::Utf8String { bytes } => SpecConstantPoolEntry::Utf8String {
                bytes: bytes@,
            },
            ConstantPoolEntry::Integer(v) => SpecConstantPoolEntry::Integer(*v),
            ConstantPoolEntry::Float(v) => SpecConstantPoolEntry::Float(*v),
            ConstantPoolEntry::Long(v) => SpecConstantPoolEntry::Long(*v),
            ConstantPoolEntry::Double(v) => SpecConstantPoolEntry::Double(*v),
            ConstantPoolEntry::ClassRef(a) => SpecConstantPoolEntry::ClassRef(*a),
            ConstantPoolEntry::StringRef(a) => SpecConstantPoolEntry::StringRef(*a),
            ConstantPoolEntry::FieldRef(a, b) => SpecConstantPoolEntry::FieldRef(*a, *b),
            ConstantPoolEntry::MethodRef(a, b) => SpecConstantPoolEntry::MethodRef(*a, *b),
            ConstantPoolEntry::InterfaceMethodRef(a, b) => SpecConstantPoolEntry::InterfaceMethodRef(
                *a,
                *b,
            ),
            ConstantPoolEntry::NameAndType(a, b) => SpecConstantPoolEntry::NameAndType(*a, *b),
            ConstantPoolEntry::MethodHandle(a, b) => SpecConstantPoolEntry::MethodHandle(*a, *b),
            ConstantPoolEntry::MethodType(a) => SpecConstantPoolEntry::MethodType(*a),
            ConstantPoolEntry::Dynamic(a, b) => SpecConstantPoolEntry::Dynamic(*a, *b),
            ConstantPoolEntry::InvokeDynamic(a, b) => SpecConstantPoolEntry::InvokeDynamic(*a, *b),
            ConstantPoolEntry::Module(a) => SpecConstantPoolEntry::Module(*a),
            ConstantPoolEntry::Package(a) => SpecConstantPoolEntry::Package(*a),
        }
    }
}

impl DeepView for ConstantPoolEntry {
    type V = SpecConstantPoolEntry;

    open spec fn deep_view(&self) -> SpecConstantPoolEntry {
        self.view()
    }
}

/// A raw attribute record: a name index into the constant pool, a declared
/// length, and exactly that many bytes of payload.
#[derive(Debug, Clone, PartialEq, Eq)]
pub struct AttributeInfo {
    pub attribute_name_index: u16,
    pub attribute_length: u32,
    pub info: Vec<u8>,
}

pub struct SpecAttributeInfo {
    pub attribute_name_index: u16,
    pub attribute_length: u32,
    pub info: Seq<u8>,
}

impl View for AttributeInfo {
    type V = SpecAttributeInfo;

    open spec fn view(&self) -> SpecAttributeInfo {
        SpecAttributeInfo {
            attribute_name_index: self.attribute_name_index,
            attribute_length: self.attribute_length,
            info: self.info@,
        }
    }
}

impl DeepView for AttributeInfo {
    type V = SpecAttributeInfo;

    open spec fn deep_view(&self) -> SpecAttributeInfo {
        self.view()
    }
}

/// A field record of the class file, with its raw attribute list.
#[derive(Debug, Clone, PartialEq, Eq)]
pub struct FieldInfo {
    pub access_flags: u16,
    pub name_index: u16,
    pub descriptor_index: u16,
    pub attributes_count: u16,
    pub attributes: Vec<AttributeInfo>,
}

pub struct SpecFieldInfo {
    pub access_flags: u16,
    pub name_index: u16,
    pub descriptor_index: u16,
    pub attributes_count: u16,
    pub attributes: Seq<SpecAttributeInfo>,
}

impl View for FieldInfo {
    type V = SpecFieldInfo;

    open spec fn view(&self) -> SpecFieldInfo {
        SpecFieldInfo {
            access_flags: self.access_flags,
            name_index: self.name_index,
            descriptor_index: self.descriptor_index,
            attributes_count: self.attributes_count,
            attributes: self.attributes.deep_view(),
        }
    }
}

impl DeepView for FieldInfo {
    type V = SpecFieldInfo;

    open spec fn deep_view(&self) -> SpecFieldInfo {
        self.view()
    }
}

/// A method record of the class file, with its raw attribute list.
#[derive(Debug, Clone, PartialEq, Eq)]
pub struct MethodInfo {
    pub access_flags: u16,
    pub name_index: u16,
    pub descriptor_index: u16,
    pub attributes_count: u16,
    pub attributes: Vec<AttributeInfo>,
}

pub struct SpecMethodInfo {
    pub access_flags: u16,
    pub name_index: u16,
    pub descriptor_index: u16,
    pub attributes_count: u16,
    pub attributes: Seq<SpecAttributeInfo>,
}

impl View for MethodInfo {
    type V = SpecMethodInfo;

    open spec fn view(&self) -> SpecMethodInfo {
        SpecMethodInfo {
            access_flags: self.access_flags,
            name_index: self.name_index,
            descriptor_index: self.descriptor_index,
            attributes_count: self.attributes_count,
            attributes: self.attributes.deep_view(),
        }
    }
}

impl DeepView for MethodInfo {
    type V = SpecMethodInfo;

    open spec fn deep_view(&self) -> SpecMethodInfo {
        self.view()
    }
}

/// A decoded class file: versions, constant pool, access flags, the indices
/// of this class and its superclass, and the interface, field, method and
/// attribute tables.
#[derive(Debug, Clone, PartialEq, Eq)]
pub struct ClassFile {
    pub minor_version: u16,
    pub major_version: u16,
    pub constant_pool: Vec<ConstantPoolEntry>,
    pub access_flags: u16,
    pub this_class: u16,
    pub super_class: u16,
    pub interface_count: u16,
    pub interface_table: Vec<u16>,
    pub field_count: u16,
    pub field_table: Vec<FieldInfo>,
    pub method_count: u16,
    pub method_table: Vec<MethodInfo>,
    pub attribute_count: u16,
    pub attribute_table: Vec<AttributeInfo>,
}

pub struct SpecClassFile {
    pub minor_version: u16,
    pub major_version: u16,
    pub constant_pool: Seq<SpecConstantPoolEntry>,
    pub access_flags: u16,
    pub this_class: u16,
    pub super_class: u16,
    pub interface_count: u16,
    pub interface_table: Seq<u16>,
    pub field_count: u16,
    pub field_table: Seq<SpecFieldInfo>,
    pub method_count: u16,
    pub method_table: Seq<SpecMethodInfo>,
    pub attribute_count: u16,
    pub attribute_table: Seq<SpecAttributeInfo>,
}

impl View for ClassFile {
    type V = SpecClassFile;

    open spec fn view(&self) -> SpecClassFile {
        SpecClassFile {
            minor_version: self.minor_version,
            major_version: self.major_version,
            constant_pool: self.constant_pool.deep_view(),
            access_flags: self.access_flags,
            this_class: self.this_class,
            super_class: self.super_class,
            interface_count: self.interface_count,
            interface_table: self.interface_table.deep_view(),
            field_count: self.field_count,
            field_table: self.field_table.deep_view(),
            method_count: self.method_count,
            method_table: self.method_table.deep_view(),
            attribute_count: self.attribute_count,
            attribute_table: self.attribute_table.deep_view(),
        }
    }
}

impl DeepView for ClassFile {
    type V = SpecClassFile;

    open spec fn deep_view(&self) -> SpecClassFile {
        self.view()
    }
}

/// Whether this entry occupies two constant-pool slots.
pub open spec fn spec_is_two_slot(e: SpecConstantPoolEntry) -> bool {
    e is Long || e is Double
}

pub open spec fn spec_parse_cp_entry(b: Seq<u8>, p: usize) -> Result<
    (SpecConstantPoolEntry, usize),
    DecodeError,
> {
    match spec_read_u8(b, p) {
        Err(e) => Err(e),
        Ok((tag, p1)) => match tag {
            1u8 => match spec_read_u16(b, p1) {
                Err(e) => Err(e),
                Ok((n, p2)) => match spec_read_bytes(b, p2, n as usize) {
                    Err(e) => Err(e),
                    Ok((s, p3)) => Ok((SpecConstantPoolEntry::Utf8String { bytes: s }, p3)),
                },
            },
            3u8 => match spec_read_i32(b, p1) {
                Err(e) => Err(e),
                Ok((v, p2)) => Ok((SpecConstantPoolEntry::Integer(v), p2)),
            },
            4u8 => match spec_read_u32(b, p1) {
                Err(e) => Err(e),
                Ok((v, p2)) => Ok((SpecConstantPoolEntry::Float(v), p2)),
            },
            5u8 => match spec_read_i64(b, p1) {
                Err(e) => Err(e),
                Ok((v, p2)) => Ok((SpecConstantPoolEntry::Long(v), p2)),
            },
            6u8 => match spec_read_u64(b, p1) {
                Err(e) => Err(e),
                Ok((v, p2)) => Ok((SpecConstantPoolEntry::Double(v), p2)),
            },
            7u8 => match spec_read_u16(b, p1) {
                Err(e) => Err(e),
                Ok((v, p2)) => Ok((SpecConstantPoolEntry::ClassRef(v), p2)),
            },
            8u8 => match spec_read_u16(b, p1) {
                Err(e) => Err(e),
                Ok((v, p2)) => Ok((SpecConstantPoolEntry::StringRef(v), p2)),
            },
            9u8 => match spec_read_u16(b, p1) {
                Err(e) => Err(e),
                Ok((v, p2)) => match spec_read_u16(b, p2) {
                    Err(e) => Err(e),
                    Ok((w, p3)) => Ok((SpecConstantPoolEntry::FieldRef(v, w), p3)),
                },
            },
            10u8 => match spec_read_u16(b, p1) {
                Err(e) => Err(e),
                Ok((v, p2)) => match spec_read_u16(b, p2) {
                    Err(e) => Err(e),
                    Ok((w, p3)) => Ok((SpecConstantPoolEntry::MethodRef(v, w), p3)),
                },
            },
            11u8 => match spec_read_u16(b, p1) {
                Err(e) => Err(e),
                Ok((v, p2)) => match spec_read_u16(b, p2) {
                    Err(e) => Err(e),
                    Ok((w, p3)) => Ok((SpecConstantPoolEntry::InterfaceMethodRef(v, w), p3)),
                },
            },
            12u8 => match spec_read_u16(b, p1) {
                Err(e) => Err(e),
                Ok((v, p2)) => match spec_read_u16(b, p2) {
                    Err(e) => Err(e),
                    Ok((w, p3)) => Ok((SpecConstantPoolEntry::NameAndType(v, w), p3)),
                },
            },
            15u8 => match spec_read_u8(b, p1) {
                Err(e) => Err(e),
                Ok((v, p2)) => match spec_read_u16(b, p2) {
                    Err(e) => Err(e),
                    Ok((w, p3)) => Ok((SpecConstantPoolEntry::MethodHandle(v, w), p3)),
                },
            },
            16u8 => match spec_read_u16(b, p1) {
                Err(e) => Err(e),
                Ok((v, p2)) => Ok((SpecConstantPoolEntry::MethodType(v), p2)),
            },
            17u8 => match spec_read_u16(b, p1) {
                Err(e) => Err(e),
                Ok((v, p2)) => match spec_read_u16(b, p2) {
                    Err(e) => Err(e),
                    Ok((w, p3)) => Ok((SpecConstantPoolEntry::Dynamic(v, w), p3)),
                },
            },
            18u8 => match spec_read_u16(b, p1) {
                Err(e) => Err(e),
                Ok((v, p2)) => match spec_read_u16(b, p2) {
                    Err(e) => Err(e),
                    Ok((w, p3)) => Ok((SpecConstantPoolEntry::InvokeDynamic(v, w), p3)),
                },
            },
            19u8 => match spec_read_u16(b, p1) {
                Err(e) => Err(e),
                Ok((v, p2)) => Ok((SpecConstantPoolEntry::Module(v), p2)),
            },
            20u8 => match spec_read_u16(b, p1) {
                Err(e) => Err(e),
                Ok((v, p2)) => Ok((SpecConstantPoolEntry::Package(v), p2)),
            },
            _ => Err(DecodeError::UnknownTag(tag, p)),
        },
    }
}

/// Decode constant-pool entries for slots `i` up to `count - 1`; a two-slot
/// entry contributes itself and a `Placeholder`, and one whose reserved slot
/// would fall outside the declared count is rejected.
pub open spec fn spec_parse_cp_list(b: Seq<u8>, p: usize, i: int, count: int) -> Result<
    (Seq<SpecConstantPoolEntry>, usize),
    DecodeError,
>
    decreases count - i,
{
    if i >= count - 1 {
        Ok((Seq::empty(), p))
    } else {
        match spec_parse_cp_entry(b, p) {
            Err(e) => Err(e),
            Ok((ent, p2)) => if spec_is_two_slot(ent) {
                if i + 2 > count - 1 {
                    Err(DecodeError::IndexOutOfRange(count as usize))
                } else {
                    match spec_parse_cp_list(b, p2, i + 2, count) {
                        Err(e) => Err(e),
                        Ok((s, q)) => Ok(
                            (seq![ent, SpecConstantPoolEntry::Placeholder] + s, q),
                        ),
                    }
                }
            } else {
                match spec_parse_cp_list(b, p2, i + 1, count) {
                    Err(e) => Err(e),
                    Ok((s, q)) => Ok((seq![ent] + s, q)),
                }
            },
        }
    }
}

/// The number of decoded entries always matches the declared count: slots
/// `i` up to `count - 1` yield exactly `count - 1 - i` entries, placeholders
/// included.
pub proof fn lemma_cp_list_len(b: Seq<u8>, p: usize, i: int, count: int)
    requires
        i <= count - 1,
        spec_parse_cp_list(b, p, i, count) is Ok,
    ensures
        spec_parse_cp_list(b, p, i, count).unwrap().0.len() == count - 1 - i,
    decreases count - i,
{
    if i >= count - 1 {
    } else {
        match spec_parse_cp_entry(b, p) {
            Err(_) => {},
            Ok((ent, p2)) => {
                if spec_is_two_slot(ent) {
                    lemma_cp_list_len(b, p2, i + 2, count);
                } else {
                    lemma_cp_list_len(b, p2, i + 1, count);
                }
            },
        }
    }
}

pub open spec fn spec_parse_u16_list(b: Seq<u8>, p: usize, n: int) -> Result<
    (Seq<u16>, usize),
    DecodeError,
>
    decreases n,
{
    if n <= 0 {
        Ok((Seq::empty(), p))
    } else {
        match spec_read_u16(b, p) {
            Err(e) => Err(e),
            Ok((v, p2)) => match spec_parse_u16_list(b, p2, n - 1) {
                Err(e) => Err(e),
                Ok((s, q)) => Ok((seq![v] + s, q)),
            },
        }
    }
}

pub open spec fn spec_parse_attribute_info(b: Seq<u8>, p: usize) -> Result<
    (SpecAttributeInfo, usize),
    DecodeError,
> {
    match spec_read_u16(b, p) {
        Err(e) => Err(e),
        Ok((name_idx, p1)) => match spec_read_u32(b, p1) {
            Err(e) => Err(e),
            Ok((len, p2)) => match spec_read_bytes(b, p2, len as usize) {
                Err(e) => Err(e),
                Ok((s, p3)) => Ok(
                    (
                        SpecAttributeInfo {
                            attribute_name_index: name_idx,
                            attribute_length: len,
                            info: s,
                        },
                        p3,
                    ),
                ),
            },
        },
    }
}

pub open spec fn spec_parse_attribute_list(b: Seq<u8>, p: usize, n: int) -> Result<
    (Seq<SpecAttributeInfo>, usize),
    DecodeError,
>
    decreases n,
{
    if n <= 0 {
        Ok((Seq::empty(), p))
    } else {
        match spec_parse_attribute_info(b, p) {
            Err(e) => Err(e),
            Ok((a, p2)) => match spec_parse_attribute_list(b, p2, n - 1) {
                Err(e) => Err(e),
                Ok((s, q)) => Ok((seq![a] + s, q)),
            },
        }
    }
}

pub open spec fn spec_parse_field_info(b: Seq<u8>, p: usize) -> Result<
    (SpecFieldInfo, usize),
    DecodeError,
> {
    match spec_read_u16(b, p) {
        Err(e) => Err(e),
        Ok((acc, p1)) => match spec_read_u16(b, p1) {
            Err(e) => Err(e),
            Ok((name_idx, p2)) => match spec_read_u16(b, p2) {
                Err(e) => Err(e),
                Ok((desc_idx, p3)) => match spec_read_u16(b, p3) {
                    Err(e) => Err(e),
                    Ok((cnt, p4)) => match spec_parse_attribute_list(b, p4, cnt as int) {
                        Err(e) => Err(e),
                        Ok((attrs, q)) => Ok(
                            (
                                SpecFieldInfo {
                                    access_flags: acc,
                                    name_index: name_idx,
                                    descriptor_index: desc_idx,
                                    attributes_count: cnt,
                                    attributes: attrs,
                                },
                                q,
                            ),
                        ),
                    },
                },
            },
        },
    }
}

pub open spec fn spec_parse_field_list(b: Seq<u8>, p: usize, n: int) -> Result<
    (Seq<SpecFieldInfo>, usize),
    DecodeError,
>
    decreases n,
{
    if n <= 0 {
        Ok((Seq::empty(), p))
    } else {
        match spec_parse_field_info(b, p) {
            Err(e) => Err(e),
            Ok((f, p2)) => match spec_parse_field_list(b, p2, n - 1) {
                Err(e) => Err(e),
                Ok((s, q)) => Ok((seq![f] + s, q)),
            },
        }
    }
}

pub open spec fn spec_parse_method_info(b: Seq<u8>, p: usize) -> Result<
    (SpecMethodInfo, usize),
    DecodeError,
> {
    match spec_read_u16(b, p) {
        Err(e) => Err(e),
        Ok((acc, p1)) => match spec_read_u16(b, p1) {
            Err(e) => Err(e),
            Ok((name_idx, p2)) => match spec_read_u16(b, p2) {
                Err(e) => Err(e),
                Ok((desc_idx, p3)) => match spec_read_u16(b, p3) {
                    Err(e) => Err(e),
                    Ok((cnt, p4)) => match spec_parse_attribute_list(b, p4, cnt as int) {
                        Err(e) => Err(e),
                        Ok((attrs, q)) => Ok(
                            (
                                SpecMethodInfo {
                                    access_flags: acc,
                                    name_index: name_idx,
                                    descriptor_index: desc_idx,
                                    attributes_count: cnt,
                                    attributes: attrs,
                                },
                                q,
                            ),
                        ),
                    },
                },
            },
        },
    }
}

pub open spec fn spec_parse_method_list(b: Seq<u8>, p: usize, n: int) -> Result<
    (Seq<SpecMethodInfo>, usize),
    DecodeError,
>
    decreases n,
{
    if n <= 0 {
        Ok((Seq::empty(), p))
    } else {
        match spec_parse_method_info(b, p) {
            Err(e) => Err(e),
            Ok((m, p2)) => match spec_parse_method_list(b, p2, n - 1) {
                Err(e) => Err(e),
                Ok((s, q)) => Ok((seq![m] + s, q)),
            },
        }
    }
}

/// The four-byte signature every class file must begin with.
pub open spec fn spec_has_magic(b: Seq<u8>) -> bool {
    b.len() >= 4 && b[0] == 0xCAu8 && b[1] == 0xFEu8 && b[2] == 0xBAu8 && b[3] == 0xBEu8
}

/// Decode a whole class file from the front of `b`; trailing bytes are left
/// unread and the position after the class file is returned with it.
pub open spec fn spec_parse_class_file(b: Seq<u8>) -> Result<(SpecClassFile, usize), DecodeError> {
    if !spec_has_magic(b) {
        Err(DecodeError::BadMagic)
    } else {
        match spec_read_u16(b, 4) {
            Err(e) => Err(e),
            Ok((minor, p1)) => match spec_read_u16(b, p1) {
                Err(e) => Err(e),
                Ok((major, p2)) => match spec_read_u16(b, p2) {
                    Err(e) => Err(e),
                    Ok((cp_count, p3)) => match spec_parse_cp_list(b, p3, 0, cp_count as int) {
                        Err(e) => Err(e),
                        Ok((pool, p4)) => match spec_read_u16(b, p4) {
                            Err(e) => Err(e),
                            Ok((access, p5)) => match spec_read_u16(b, p5) {
                                Err(e) => Err(e),
                                Ok((this_c, p6)) => match spec_read_u16(b, p6) {
                                    Err(e) => Err(e),
                                    Ok((super_c, p7)) => spec_parse_class_file_tables(
                                        b,
                                        p7,
                                        minor,
                                        major,
                                        pool,
                                        access,
                                        this_c,
                                        super_c,
                                    ),
                                },
                            },
                        },
                    },
                },
            },
        }
    }
}

/// The interface, field, method and attribute tables that close a class file.
pub open spec fn spec_parse_class_file_tables(
    b: Seq<u8>,
    p: usize,
    minor: u16,
    major: u16,
    pool: Seq<SpecConstantPoolEntry>,
    access: u16,
    this_c: u16,
    super_c: u16,
) -> Result<(SpecClassFile, usize), DecodeError> {
    match spec_read_u16(b, p) {
        Err(e) => Err(e),
        Ok((if_count, p1)) => match spec_parse_u16_list(b, p1, if_count as int) {
            Err(e) => Err(e),
            Ok((ifs, p2)) => match spec_read_u16(b, p2) {
                Err(e) => Err(e),
                Ok((fld_count, p3)) => match spec_parse_field_list(b, p3, fld_count as int) {
                    Err(e) => Err(e),
                    Ok((flds, p4)) => match spec_read_u16(b, p4) {
                        Err(e) => Err(e),
                        Ok((mth_count, p5)) => match spec_parse_method_list(
                            b,
                            p5,
                            mth_count as int,
                        ) {
                            Err(e) => Err(e),
                            Ok((mths, p6)) => match spec_read_u16(b, p6) {
                                Err(e) => Err(e),
                                Ok((attr_count, p7)) => match spec_parse_attribute_list(
                                    b,
                                    p7,
                                    attr_count as int,
                                ) {
                                    Err(e) => Err(e),
                                    Ok((attrs, p8)) => Ok(
                                        (
                                            SpecClassFile {
                                                minor_version: minor,
                                                major_version: major,
                                                constant_pool: pool,
                                                access_flags: access,
                                                this_class: this_c,
                                                super_class: super_c,
                                                interface_count: if_count,
                                                interface_table: ifs,
                                                field_count: fld_count,
                                                field_table: flds,
                                                method_count: mth_count,
                                                method_table: mths,
                                                attribute_count: attr_count,
                                                attribute_table: attrs,
                                            },
                                            p8,
                                        ),
                                    ),
                                },
                            },
                        },
                    },
                },
            },
        },
    }
}

} // verus!
