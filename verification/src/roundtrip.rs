use vstd::prelude::*;

use crate::class_file::{
    spec_is_two_slot, spec_parse_attribute_info, spec_parse_attribute_list, spec_parse_class_file,
    spec_parse_cp_entry, spec_parse_cp_list, spec_parse_field_info, spec_parse_field_list,
    spec_parse_method_info, spec_parse_method_list, spec_parse_u16_list, SpecAttributeInfo,
    SpecClassFile, SpecConstantPoolEntry, SpecFieldInfo, SpecMethodInfo,
};
use crate::encode::{
    spec_enc_u16, spec_enc_u32, spec_enc_u64, spec_encode_attribute_info,
    spec_encode_attribute_list, spec_encode_class_file, spec_encode_cp_entry,
    spec_encode_field_info, spec_encode_field_list, spec_encode_method_info,
    spec_encode_method_list, spec_encode_pool, spec_encode_u16_list, spec_i32_bits, spec_i64_bits,
    spec_wf_attribute_info, spec_wf_attribute_list, spec_wf_class_file, spec_wf_cp_entry,
    spec_wf_field_info, spec_wf_method_info, spec_wf_pool,
};
use crate::errors::DecodeError;
use crate::reader::{
    spec_read_bytes, spec_read_i32, spec_read_i64, spec_read_u16, spec_read_u32, spec_read_u64,
    spec_read_u8, spec_u32_as_i32, spec_u64_as_i64,
};

verus! {

// Decoding is the inverse of encoding: a well-formed class file, encoded
// and then decoded, comes back unchanged. The proof builds up from the
// fixed-width reads to the whole file.

/// A part of an equality of subranges is itself an equality of subranges.
proof fn lemma_sub(b: Seq<u8>, p: int, e: Seq<u8>, a: int, c: int)
    requires
        0 <= p,
        p + e.len() <= b.len(),
        b.subrange(p, p + e.len()) == e,
        0 <= a <= c <= e.len(),
    ensures
        b.subrange(p + a, p + c) == e.subrange(a, c),
{
    assert(b.subrange(p + a, p + c) =~= e.subrange(a, c));
}

proof fn lemma_read_u8_enc(b: Seq<u8>, p: usize, v: u8)
    requires
        p + 1 <= b.len() <= usize::MAX,
        b.subrange(p as int, p as int + 1) == seq![v],
    ensures
        spec_read_u8(b, p) == Ok::<_, DecodeError>((v, (p + 1) as usize)),
{
    assert(b[p as int] == b.subrange(p as int, p as int + 1)[0]);
}

proof fn lemma_read_u16_enc(b: Seq<u8>, p: usize, v: int)
    requires
        0 <= v < 0x10000,
        p + 2 <= b.len() <= usize::MAX,
        b.subrange(p as int, p as int + 2) == spec_enc_u16(v),
    ensures
        spec_read_u16(b, p) == Ok::<_, DecodeError>((v as u16, (p + 2) as usize)),
{
    let e = spec_enc_u16(v);
    assert(b[p as int] == e[0]);
    assert(b[p as int + 1] == e[1]);
    vstd::arithmetic::div_mod::lemma_fundamental_div_mod(v, 256);
    assert(crate::reader::spec_be_u16(b, p as int) == v);
}

proof fn lemma_read_u32_enc(b: Seq<u8>, p: usize, v: int)
    requires
        0 <= v < 0x1_0000_0000,
        p + 4 <= b.len() <= usize::MAX,
        b.subrange(p as int, p as int + 4) == spec_enc_u32(v),
    ensures
        spec_read_u32(b, p) == Ok::<_, DecodeError>((v as u32, (p + 4) as usize)),
{
    let e = spec_enc_u32(v);
    assert(e.len() == 4);
    lemma_sub(b, p as int, e, 0, 2);
    lemma_sub(b, p as int, e, 2, 4);
    assert(e.subrange(0, 2) =~= spec_enc_u16(v / 0x10000));
    assert(e.subrange(2, 4) =~= spec_enc_u16(v % 0x10000));
    vstd::arithmetic::div_mod::lemma_fundamental_div_mod(v, 0x10000);
    lemma_read_u16_enc(b, p, v / 0x10000);
    lemma_read_u16_enc(b, (p + 2) as usize, v % 0x10000);
    assert(crate::reader::spec_be_u32(b, p as int) == crate::reader::spec_be_u16(b, p as int)
        * 0x10000 + crate::reader::spec_be_u16(b, p as int + 2));
}

proof fn lemma_read_u64_enc(b: Seq<u8>, p: usize, v: int)
    requires
        0 <= v < 0x1_0000_0000_0000_0000,
        p + 8 <= b.len() <= usize::MAX,
        b.subrange(p as int, p as int + 8) == spec_enc_u64(v),
    ensures
        spec_read_u64(b, p) == Ok::<_, DecodeError>((v as u64, (p + 8) as usize)),
{
    let e = spec_enc_u64(v);
    assert(e.len() == 8);
    lemma_sub(b, p as int, e, 0, 4);
    lemma_sub(b, p as int, e, 4, 8);
    assert(e.subrange(0, 4) =~= spec_enc_u32(v / 0x1_0000_0000));
    assert(e.subrange(4, 8) =~= spec_enc_u32(v % 0x1_0000_0000));
    vstd::arithmetic::div_mod::lemma_fundamental_div_mod(v, 0x1_0000_0000);
    lemma_read_u32_enc(b, p, v / 0x1_0000_0000);
    lemma_read_u32_enc(b, (p + 4) as usize, v % 0x1_0000_0000);
    assert(crate::reader::spec_be_u64(b, p as int) == crate::reader::spec_be_u32(b, p as int)
        * 0x1_0000_0000 + crate::reader::spec_be_u32(b, p as int + 4));
}

proof fn lemma_read_i32_enc(b: Seq<u8>, p: usize, v: i32)
    requires
        p + 4 <= b.len() <= usize::MAX,
        b.subrange(p as int, p as int + 4) == spec_enc_u32(spec_i32_bits(v as int)),
    ensures
        spec_read_i32(b, p) == Ok::<_, DecodeError>((v, (p + 4) as usize)),
{
    lemma_read_u32_enc(b, p, spec_i32_bits(v as int));
    assert(spec_u32_as_i32(spec_i32_bits(v as int)) == v as int);
}

proof fn lemma_read_i64_enc(b: Seq<u8>, p: usize, v: i64)
    requires
        p + 8 <= b.len() <= usize::MAX,
        b.subrange(p as int, p as int + 8) == spec_enc_u64(spec_i64_bits(v as int)),
    ensures
        spec_read_i64(b, p) == Ok::<_, DecodeError>((v, (p + 8) as usize)),
{
    lemma_read_u64_enc(b, p, spec_i64_bits(v as int));
    assert(spec_u64_as_i64(spec_i64_bits(v as int)) == v as int);
}

proof fn lemma_read_bytes_enc(b: Seq<u8>, p: usize, data: Seq<u8>)
    requires
        p + data.len() <= b.len() <= usize::MAX,
        b.subrange(p as int, p as int + data.len()) == data,
    ensures
        spec_read_bytes(b, p, data.len() as usize) == Ok::<_, DecodeError>(
            (data, (p + data.len()) as usize),
        ),
{
}


#[verifier::rlimit(100)]
proof fn lemma_parse_cp_entry_enc(b: Seq<u8>, p: usize, e: SpecConstantPoolEntry)
    requires
        spec_wf_cp_entry(e),
        p + spec_encode_cp_entry(e).len() <= b.len() <= usize::MAX,
        b.subrange(p as int, p as int + spec_encode_cp_entry(e).len()) == spec_encode_cp_entry(e),
    ensures
        spec_parse_cp_entry(b, p) == Ok::<_, DecodeError>(
            (e, (p + spec_encode_cp_entry(e).len()) as usize),
        ),
{
    let enc = spec_encode_cp_entry(e);
    match e {
        SpecConstantPoolEntry::Placeholder => {
            assert(false);
        },
        SpecConstantPoolEntry::Utf8String { bytes } => {
            let n = bytes.len() as int;
            assert(enc =~= seq![1u8] + spec_enc_u16(n) + bytes);
            assert(enc.len() == 3 + n);
            lemma_sub(b, p as int, enc, 0, 1);
            assert(enc.subrange(0, 1) =~= seq![1u8]);
            lemma_read_u8_enc(b, p, 1);
            lemma_sub(b, p as int, enc, 1, 3);
            assert(enc.subrange(1, 3) =~= spec_enc_u16(n));
            lemma_read_u16_enc(b, ((p + 1) as usize), n);
            lemma_sub(b, p as int, enc, 3, 3 + n);
            assert(enc.subrange(3, 3 + n) =~= bytes);
            lemma_read_bytes_enc(b, ((p + 3) as usize), bytes);
        },
        SpecConstantPoolEntry::Integer(v) => {
            assert(enc =~= seq![3u8] + spec_enc_u32(spec_i32_bits(v as int)));
            lemma_sub(b, p as int, enc, 0, 1);
            assert(enc.subrange(0, 1) =~= seq![3u8]);
            lemma_read_u8_enc(b, p, 3);
            lemma_sub(b, p as int, enc, 1, 5);
            assert(enc.subrange(1, 5) =~= spec_enc_u32(spec_i32_bits(v as int)));
            lemma_read_i32_enc(b, ((p + 1) as usize), v);
        },
        SpecConstantPoolEntry::Float(v) => {
            assert(enc =~= seq![4u8] + spec_enc_u32(v as int));
            lemma_sub(b, p as int, enc, 0, 1);
            assert(enc.subrange(0, 1) =~= seq![4u8]);
            lemma_read_u8_enc(b, p, 4);
            lemma_sub(b, p as int, enc, 1, 5);
            assert(enc.subrange(1, 5) =~= spec_enc_u32(v as int));
            lemma_read_u32_enc(b, ((p + 1) as usize), v as int);
        },
        SpecConstantPoolEntry::Long(v) => {
            assert(enc =~= seq![5u8] + spec_enc_u64(spec_i64_bits(v as int)));
            lemma_sub(b, p as int, enc, 0, 1);
            assert(enc.subrange(0, 1) =~= seq![5u8]);
            lemma_read_u8_enc(b, p, 5);
            lemma_sub(b, p as int, enc, 1, 9);
            assert(enc.subrange(1, 9) =~= spec_enc_u64(spec_i64_bits(v as int)));
            lemma_read_i64_enc(b, ((p + 1) as usize), v);
        },
        SpecConstantPoolEntry::Double(v) => {
            assert(enc =~= seq![6u8] + spec_enc_u64(v as int));
            lemma_sub(b, p as int, enc, 0, 1);
            assert(enc.subrange(0, 1) =~= seq![6u8]);
            lemma_read_u8_enc(b, p, 6);
            lemma_sub(b, p as int, enc, 1, 9);
            assert(enc.subrange(1, 9) =~= spec_enc_u64(v as int));
            lemma_read_u64_enc(b, ((p + 1) as usize), v as int);
        },
        SpecConstantPoolEntry::ClassRef(a) => {
            lemma_one_u16(b, p, enc, 7, a);
        },
        SpecConstantPoolEntry::StringRef(a) => {
            lemma_one_u16(b, p, enc, 8, a);
        },
        SpecConstantPoolEntry::FieldRef(x, y) => {
            lemma_two_u16(b, p, enc, 9, x, y);
        },
        SpecConstantPoolEntry::MethodRef(x, y) => {
            lemma_two_u16(b, p, enc, 10, x, y);
        },
        SpecConstantPoolEntry::InterfaceMethodRef(x, y) => {
            lemma_two_u16(b, p, enc, 11, x, y);
        },
        SpecConstantPoolEntry::NameAndType(x, y) => {
            lemma_two_u16(b, p, enc, 12, x, y);
        },
        SpecConstantPoolEntry::MethodHandle(k, r) => {
            assert(enc =~= seq![15u8, k] + spec_enc_u16(r as int));
            lemma_sub(b, p as int, enc, 0, 1);
            assert(enc.subrange(0, 1) =~= seq![15u8]);
            lemma_read_u8_enc(b, p, 15);
            lemma_sub(b, p as int, enc, 1, 2);
            assert(enc.subrange(1, 2) =~= seq![k]);
            lemma_read_u8_enc(b, ((p + 1) as usize), k);
            lemma_sub(b, p as int, enc, 2, 4);
            assert(enc.subrange(2, 4) =~= spec_enc_u16(r as int));
            lemma_read_u16_enc(b, ((p + 2) as usize), r as int);
        },
        SpecConstantPoolEntry::MethodType(a) => {
            lemma_one_u16(b, p, enc, 16, a);
        },
        SpecConstantPoolEntry::Dynamic(x, y) => {
            lemma_two_u16(b, p, enc, 17, x, y);
        },
        SpecConstantPoolEntry::InvokeDynamic(x, y) => {
            lemma_two_u16(b, p, enc, 18, x, y);
        },
        SpecConstantPoolEntry::Module(a) => {
            lemma_one_u16(b, p, enc, 19, a);
        },
        SpecConstantPoolEntry::Package(a) => {
            lemma_one_u16(b, p, enc, 20, a);
        },
    }
}

/// A tag byte followed by one index.
proof fn lemma_one_u16(b: Seq<u8>, p: usize, enc: Seq<u8>, tag: u8, a: u16)
    requires
        p + enc.len() <= b.len() <= usize::MAX,
        b.subrange(p as int, p as int + enc.len()) == enc,
        enc == seq![tag] + spec_enc_u16(a as int),
    ensures
        spec_read_u8(b, p) == Ok::<_, DecodeError>((tag, (p + 1) as usize)),
        spec_read_u16(b, ((p + 1) as usize)) == Ok::<_, DecodeError>((a, (p + 3) as usize)),
{
    assert(enc.len() == 3);
    lemma_sub(b, p as int, enc, 0, 1);
    assert(enc.subrange(0, 1) =~= seq![tag]);
    lemma_read_u8_enc(b, p, tag);
    lemma_sub(b, p as int, enc, 1, 3);
    assert(enc.subrange(1, 3) =~= spec_enc_u16(a as int));
    lemma_read_u16_enc(b, ((p + 1) as usize), a as int);
}

/// A tag byte followed by two indices.
proof fn lemma_two_u16(b: Seq<u8>, p: usize, enc: Seq<u8>, tag: u8, x: u16, y: u16)
    requires
        p + enc.len() <= b.len() <= usize::MAX,
        b.subrange(p as int, p as int + enc.len()) == enc,
        enc == seq![tag] + spec_enc_u16(x as int) + spec_enc_u16(y as int),
    ensures
        spec_read_u8(b, p) == Ok::<_, DecodeError>((tag, (p + 1) as usize)),
        spec_read_u16(b, ((p + 1) as usize)) == Ok::<_, DecodeError>((x, (p + 3) as usize)),
        spec_read_u16(b, ((p + 3) as usize)) == Ok::<_, DecodeError>((y, (p + 5) as usize)),
{
    assert(enc.len() == 5);
    lemma_sub(b, p as int, enc, 0, 1);
    assert(enc.subrange(0, 1) =~= seq![tag]);
    lemma_read_u8_enc(b, p, tag);
    lemma_sub(b, p as int, enc, 1, 3);
    assert(enc.subrange(1, 3) =~= spec_enc_u16(x as int));
    lemma_read_u16_enc(b, ((p + 1) as usize), x as int);
    lemma_sub(b, p as int, enc, 3, 5);
    assert(enc.subrange(3, 5) =~= spec_enc_u16(y as int));
    lemma_read_u16_enc(b, ((p + 3) as usize), y as int);
}


proof fn lemma_parse_u16_list_enc(b: Seq<u8>, p: usize, s: Seq<u16>)
    requires
        p + spec_encode_u16_list(s).len() <= b.len() <= usize::MAX,
        b.subrange(p as int, p as int + spec_encode_u16_list(s).len()) == spec_encode_u16_list(s),
    ensures
        spec_parse_u16_list(b, p, s.len() as int) == Ok::<_, DecodeError>(
            (s, (p + spec_encode_u16_list(s).len()) as usize),
        ),
    decreases s.len(),
{
    let enc = spec_encode_u16_list(s);
    if s.len() == 0 {
        assert(Seq::<u16>::empty() =~= s);
    } else {
        let rest = spec_encode_u16_list(s.drop_first());
        assert(enc =~= spec_enc_u16(s[0] as int) + rest);
        lemma_sub(b, p as int, enc, 0, 2);
        assert(enc.subrange(0, 2) =~= spec_enc_u16(s[0] as int));
        lemma_read_u16_enc(b, p, s[0] as int);
        lemma_sub(b, p as int, enc, 2, enc.len() as int);
        assert(enc.subrange(2, enc.len() as int) =~= rest);
        lemma_parse_u16_list_enc(b, ((p + 2) as usize), s.drop_first());
        assert(seq![s[0]] + s.drop_first() =~= s);
    }
}

proof fn lemma_parse_attribute_info_enc(b: Seq<u8>, p: usize, a: SpecAttributeInfo)
    requires
        spec_wf_attribute_info(a),
        p + spec_encode_attribute_info(a).len() <= b.len() <= usize::MAX,
        b.subrange(p as int, p as int + spec_encode_attribute_info(a).len())
            == spec_encode_attribute_info(a),
    ensures
        spec_parse_attribute_info(b, p) == Ok::<_, DecodeError>(
            (a, (p + spec_encode_attribute_info(a).len()) as usize),
        ),
{
    let enc = spec_encode_attribute_info(a);
    let n = a.info.len() as int;
    assert(enc.len() == 6 + n);
    lemma_sub(b, p as int, enc, 0, 2);
    assert(enc.subrange(0, 2) =~= spec_enc_u16(a.attribute_name_index as int));
    lemma_read_u16_enc(b, p, a.attribute_name_index as int);
    lemma_sub(b, p as int, enc, 2, 6);
    assert(enc.subrange(2, 6) =~= spec_enc_u32(a.attribute_length as int));
    lemma_read_u32_enc(b, ((p + 2) as usize), a.attribute_length as int);
    lemma_sub(b, p as int, enc, 6, 6 + n);
    assert(enc.subrange(6, 6 + n) =~= a.info);
    lemma_read_bytes_enc(b, ((p + 6) as usize), a.info);
}

proof fn lemma_parse_attribute_list_enc(b: Seq<u8>, p: usize, s: Seq<SpecAttributeInfo>)
    requires
        spec_wf_attribute_list(s),
        p + spec_encode_attribute_list(s).len() <= b.len() <= usize::MAX,
        b.subrange(p as int, p as int + spec_encode_attribute_list(s).len())
            == spec_encode_attribute_list(s),
    ensures
        spec_parse_attribute_list(b, p, s.len() as int) == Ok::<_, DecodeError>(
            (s, (p + spec_encode_attribute_list(s).len()) as usize),
        ),
    decreases s.len(),
{
    let enc = spec_encode_attribute_list(s);
    if s.len() == 0 {
        assert(Seq::<SpecAttributeInfo>::empty() =~= s);
    } else {
        let first = spec_encode_attribute_info(s[0]);
        let rest = spec_encode_attribute_list(s.drop_first());
        assert(enc =~= first + rest);
        lemma_sub(b, p as int, enc, 0, first.len() as int);
        assert(enc.subrange(0, first.len() as int) =~= first);
        lemma_parse_attribute_info_enc(b, p, s[0]);
        lemma_sub(b, p as int, enc, first.len() as int, enc.len() as int);
        assert(enc.subrange(first.len() as int, enc.len() as int) =~= rest);
        assert(spec_wf_attribute_list(s.drop_first()));
        lemma_parse_attribute_list_enc(b, ((p + first.len()) as usize), s.drop_first());
        assert(seq![s[0]] + s.drop_first() =~= s);
    }
}

proof fn lemma_parse_field_info_enc(b: Seq<u8>, p: usize, f: SpecFieldInfo)
    requires
        spec_wf_field_info(f),
        p + spec_encode_field_info(f).len() <= b.len() <= usize::MAX,
        b.subrange(p as int, p as int + spec_encode_field_info(f).len())
            == spec_encode_field_info(f),
    ensures
        spec_parse_field_info(b, p) == Ok::<_, DecodeError>(
            (f, (p + spec_encode_field_info(f).len()) as usize),
        ),
{
    let enc = spec_encode_field_info(f);
    let al = spec_encode_attribute_list(f.attributes);
    assert(enc.len() == 8 + al.len());
    lemma_sub(b, p as int, enc, 0, 2);
    assert(enc.subrange(0, 2) =~= spec_enc_u16(f.access_flags as int));
    lemma_read_u16_enc(b, p, f.access_flags as int);
    lemma_sub(b, p as int, enc, 2, 4);
    assert(enc.subrange(2, 4) =~= spec_enc_u16(f.name_index as int));
    lemma_read_u16_enc(b, ((p + 2) as usize), f.name_index as int);
    lemma_sub(b, p as int, enc, 4, 6);
    assert(enc.subrange(4, 6) =~= spec_enc_u16(f.descriptor_index as int));
    lemma_read_u16_enc(b, ((p + 4) as usize), f.descriptor_index as int);
    lemma_sub(b, p as int, enc, 6, 8);
    assert(enc.subrange(6, 8) =~= spec_enc_u16(f.attributes_count as int));
    lemma_read_u16_enc(b, ((p + 6) as usize), f.attributes_count as int);
    lemma_sub(b, p as int, enc, 8, enc.len() as int);
    assert(enc.subrange(8, enc.len() as int) =~= al);
    lemma_parse_attribute_list_enc(b, ((p + 8) as usize), f.attributes);
}

proof fn lemma_parse_field_list_enc(b: Seq<u8>, p: usize, s: Seq<SpecFieldInfo>)
    requires
        forall|j: int| 0 <= j < s.len() ==> spec_wf_field_info(#[trigger] s[j]),
        p + spec_encode_field_list(s).len() <= b.len() <= usize::MAX,
        b.subrange(p as int, p as int + spec_encode_field_list(s).len())
            == spec_encode_field_list(s),
    ensures
        spec_parse_field_list(b, p, s.len() as int) == Ok::<_, DecodeError>(
            (s, (p + spec_encode_field_list(s).len()) as usize),
        ),
    decreases s.len(),
{
    let enc = spec_encode_field_list(s);
    if s.len() == 0 {
        assert(Seq::<SpecFieldInfo>::empty() =~= s);
    } else {
        let first = spec_encode_field_info(s[0]);
        let rest = spec_encode_field_list(s.drop_first());
        assert(enc =~= first + rest);
        lemma_sub(b, p as int, enc, 0, first.len() as int);
        assert(enc.subrange(0, first.len() as int) =~= first);
        lemma_parse_field_info_enc(b, p, s[0]);
        lemma_sub(b, p as int, enc, first.len() as int, enc.len() as int);
        assert(enc.subrange(first.len() as int, enc.len() as int) =~= rest);
        lemma_parse_field_list_enc(b, ((p + first.len()) as usize), s.drop_first());
        assert(seq![s[0]] + s.drop_first() =~= s);
    }
}

proof fn lemma_parse_method_info_enc(b: Seq<u8>, p: usize, m: SpecMethodInfo)
    requires
        spec_wf_method_info(m),
        p + spec_encode_method_info(m).len() <= b.len() <= usize::MAX,
        b.subrange(p as int, p as int + spec_encode_method_info(m).len())
            == spec_encode_method_info(m),
    ensures
        spec_parse_method_info(b, p) == Ok::<_, DecodeError>(
            (m, (p + spec_encode_method_info(m).len()) as usize),
        ),
{
    let enc = spec_encode_method_info(m);
    let al = spec_encode_attribute_list(m.attributes);
    assert(enc.len() == 8 + al.len());
    lemma_sub(b, p as int, enc, 0, 2);
    assert(enc.subrange(0, 2) =~= spec_enc_u16(m.access_flags as int));
    lemma_read_u16_enc(b, p, m.access_flags as int);
    lemma_sub(b, p as int, enc, 2, 4);
    assert(enc.subrange(2, 4) =~= spec_enc_u16(m.name_index as int));
    lemma_read_u16_enc(b, ((p + 2) as usize), m.name_index as int);
    lemma_sub(b, p as int, enc, 4, 6);
    assert(enc.subrange(4, 6) =~= spec_enc_u16(m.descriptor_index as int));
    lemma_read_u16_enc(b, ((p + 4) as usize), m.descriptor_index as int);
    lemma_sub(b, p as int, enc, 6, 8);
    assert(enc.subrange(6, 8) =~= spec_enc_u16(m.attributes_count as int));
    lemma_read_u16_enc(b, ((p + 6) as usize), m.attributes_count as int);
    lemma_sub(b, p as int, enc, 8, enc.len() as int);
    assert(enc.subrange(8, enc.len() as int) =~= al);
    lemma_parse_attribute_list_enc(b, ((p + 8) as usize), m.attributes);
}

proof fn lemma_parse_method_list_enc(b: Seq<u8>, p: usize, s: Seq<SpecMethodInfo>)
    requires
        forall|j: int| 0 <= j < s.len() ==> spec_wf_method_info(#[trigger] s[j]),
        p + spec_encode_method_list(s).len() <= b.len() <= usize::MAX,
        b.subrange(p as int, p as int + spec_encode_method_list(s).len())
            == spec_encode_method_list(s),
    ensures
        spec_parse_method_list(b, p, s.len() as int) == Ok::<_, DecodeError>(
            (s, (p + spec_encode_method_list(s).len()) as usize),
        ),
    decreases s.len(),
{
    let enc = spec_encode_method_list(s);
    if s.len() == 0 {
        assert(Seq::<SpecMethodInfo>::empty() =~= s);
    } else {
        let first = spec_encode_method_info(s[0]);
        let rest = spec_encode_method_list(s.drop_first());
        assert(enc =~= first + rest);
        lemma_sub(b, p as int, enc, 0, first.len() as int);
        assert(enc.subrange(0, first.len() as int) =~= first);
        lemma_parse_method_info_enc(b, p, s[0]);
        lemma_sub(b, p as int, enc, first.len() as int, enc.len() as int);
        assert(enc.subrange(first.len() as int, enc.len() as int) =~= rest);
        lemma_parse_method_list_enc(b, ((p + first.len()) as usize), s.drop_first());
        assert(seq![s[0]] + s.drop_first() =~= s);
    }
}

#[verifier::rlimit(100)]
proof fn lemma_parse_cp_list_enc(b: Seq<u8>, p: usize, s: Seq<SpecConstantPoolEntry>, i: int, count: int)
    requires
        spec_wf_pool(s),
        0 <= i,
        count - 1 - i == s.len(),
        p + spec_encode_pool(s).len() <= b.len() <= usize::MAX,
        b.subrange(p as int, p as int + spec_encode_pool(s).len()) == spec_encode_pool(s),
    ensures
        spec_parse_cp_list(b, p, i, count) == Ok::<_, DecodeError>(
            (s, (p + spec_encode_pool(s).len()) as usize),
        ),
    decreases s.len(),
{
    let enc = spec_encode_pool(s);
    if s.len() == 0 {
        assert(Seq::<SpecConstantPoolEntry>::empty() =~= s);
    } else {
        let e0 = s[0];
        assert(!(e0 is Placeholder));
        assert(spec_wf_cp_entry(e0));
        let first = spec_encode_cp_entry(e0);
        assert(enc =~= first + spec_encode_pool(s.drop_first()));
        lemma_sub(b, p as int, enc, 0, first.len() as int);
        assert(enc.subrange(0, first.len() as int) =~= first);
        lemma_parse_cp_entry_enc(b, p, e0);
        let p1 = ((p + first.len()) as usize);
        if spec_is_two_slot(e0) {
            assert(s.len() >= 2);
            assert(s[1] is Placeholder);
            let s2 = s.skip(2);
            assert forall|j: int|
                0 <= j < s2.len() implies ((#[trigger] s2[j]) is Placeholder <==> (j > 0
                && spec_is_two_slot(s2[j - 1]))) by {
                assert(s2[j] == s[j + 2]);
                if j > 0 {
                    assert(s2[j - 1] == s[j + 1]);
                } else {
                    assert(s[1] is Placeholder);
                    assert(!spec_is_two_slot(s[1]));
                }
            }
            assert(spec_wf_pool(s2));
            assert(spec_encode_pool(s.drop_first()) =~= spec_encode_cp_entry(s[1])
                + spec_encode_pool(s.drop_first().drop_first()));
            assert(spec_encode_cp_entry(s[1]) =~= Seq::<u8>::empty());
            assert(s.drop_first().drop_first() =~= s2);
            assert(spec_encode_pool(s.drop_first()) =~= spec_encode_pool(s2));
            lemma_sub(b, p as int, enc, first.len() as int, enc.len() as int);
            assert(enc.subrange(first.len() as int, enc.len() as int) =~= spec_encode_pool(s2));
            lemma_parse_cp_list_enc(b, p1, s2, i + 2, count);
            assert(seq![e0, SpecConstantPoolEntry::Placeholder] + s2 =~= s);
        } else {
            let s1 = s.drop_first();
            assert forall|j: int|
                0 <= j < s1.len() implies ((#[trigger] s1[j]) is Placeholder <==> (j > 0
                && spec_is_two_slot(s1[j - 1]))) by {
                assert(s1[j] == s[j + 1]);
                if j > 0 {
                    assert(s1[j - 1] == s[j]);
                } else {
                    assert(!spec_is_two_slot(s[0]));
                }
            }
            assert(spec_wf_pool(s1));
            lemma_sub(b, p as int, enc, first.len() as int, enc.len() as int);
            assert(enc.subrange(first.len() as int, enc.len() as int) =~= spec_encode_pool(s1));
            lemma_parse_cp_list_enc(b, p1, s1, i + 1, count);
            assert(seq![e0] + s1 =~= s);
        }
    }
}


proof fn lemma_split(x: Seq<u8>, y: Seq<u8>)
    ensures
        (x + y).subrange(0, x.len() as int) == x,
        (x + y).subrange(x.len() as int, (x + y).len() as int) == y,
{
    assert((x + y).subrange(0, x.len() as int) =~= x);
    assert((x + y).subrange(x.len() as int, (x + y).len() as int) =~= y);
}

#[verifier::rlimit(100)]
proof fn lemma_parse_tables_enc(b: Seq<u8>, p: usize, cf: SpecClassFile)
    requires
        spec_wf_class_file(cf),
        p + 8 + spec_encode_u16_list(cf.interface_table).len() + spec_encode_field_list(
            cf.field_table,
        ).len() + spec_encode_method_list(cf.method_table).len() + spec_encode_attribute_list(
            cf.attribute_table,
        ).len() <= b.len() <= usize::MAX,
        b.subrange(p as int, p as int + 2) == spec_enc_u16(cf.interface_count as int),
        b.subrange(p as int + 2, p as int + 2 + spec_encode_u16_list(cf.interface_table).len())
            == spec_encode_u16_list(cf.interface_table),
        b.subrange(
            p as int + 2 + spec_encode_u16_list(cf.interface_table).len(),
            p as int + 4 + spec_encode_u16_list(cf.interface_table).len(),
        ) == spec_enc_u16(cf.field_count as int),
        b.subrange(
            p as int + 4 + spec_encode_u16_list(cf.interface_table).len(),
            p as int + 4 + spec_encode_u16_list(cf.interface_table).len()
                + spec_encode_field_list(cf.field_table).len(),
        ) == spec_encode_field_list(cf.field_table),
        b.subrange(
            p as int + 4 + spec_encode_u16_list(cf.interface_table).len()
                + spec_encode_field_list(cf.field_table).len(),
            p as int + 6 + spec_encode_u16_list(cf.interface_table).len()
                + spec_encode_field_list(cf.field_table).len(),
        ) == spec_enc_u16(cf.method_count as int),
        b.subrange(
            p as int + 6 + spec_encode_u16_list(cf.interface_table).len()
                + spec_encode_field_list(cf.field_table).len(),
            p as int + 6 + spec_encode_u16_list(cf.interface_table).len()
                + spec_encode_field_list(cf.field_table).len() + spec_encode_method_list(
                cf.method_table,
            ).len(),
        ) == spec_encode_method_list(cf.method_table),
        b.subrange(
            p as int + 6 + spec_encode_u16_list(cf.interface_table).len()
                + spec_encode_field_list(cf.field_table).len() + spec_encode_method_list(
                cf.method_table,
            ).len(),
            p as int + 8 + spec_encode_u16_list(cf.interface_table).len()
                + spec_encode_field_list(cf.field_table).len() + spec_encode_method_list(
                cf.method_table,
            ).len(),
        ) == spec_enc_u16(cf.attribute_count as int),
        b.subrange(
            p as int + 8 + spec_encode_u16_list(cf.interface_table).len()
                + spec_encode_field_list(cf.field_table).len() + spec_encode_method_list(
                cf.method_table,
            ).len(),
            p as int + 8 + spec_encode_u16_list(cf.interface_table).len()
                + spec_encode_field_list(cf.field_table).len() + spec_encode_method_list(
                cf.method_table,
            ).len() + spec_encode_attribute_list(cf.attribute_table).len(),
        ) == spec_encode_attribute_list(cf.attribute_table),
    ensures
        crate::class_file::spec_parse_class_file_tables(
            b,
            p,
            cf.minor_version,
            cf.major_version,
            cf.constant_pool,
            cf.access_flags,
            cf.this_class,
            cf.super_class,
        ) == Ok::<_, DecodeError>(
            (
                cf,
                (p + 8 + spec_encode_u16_list(cf.interface_table).len() + spec_encode_field_list(
                    cf.field_table,
                ).len() + spec_encode_method_list(cf.method_table).len()
                    + spec_encode_attribute_list(cf.attribute_table).len()) as usize,
            ),
        ),
{
    let ll = spec_encode_u16_list(cf.interface_table).len() as int;
    let lf = spec_encode_field_list(cf.field_table).len() as int;
    let lm = spec_encode_method_list(cf.method_table).len() as int;
    lemma_read_u16_enc(b, p, cf.interface_count as int);
    lemma_parse_u16_list_enc(b, ((p + 2) as usize), cf.interface_table);
    lemma_read_u16_enc(b, ((p + 2 + ll) as usize), cf.field_count as int);
    lemma_parse_field_list_enc(b, ((p + 4 + ll) as usize), cf.field_table);
    lemma_read_u16_enc(b, ((p + 4 + ll + lf) as usize), cf.method_count as int);
    lemma_parse_method_list_enc(b, ((p + 6 + ll + lf) as usize), cf.method_table);
    lemma_read_u16_enc(b, ((p + 6 + ll + lf + lm) as usize), cf.attribute_count as int);
    lemma_parse_attribute_list_enc(b, ((p + 8 + ll + lf + lm) as usize), cf.attribute_table);
}

/// The encoding decomposed: each component of a class file's encoding
/// occupies its own subrange.
#[verifier::rlimit(100)]
proof fn lemma_encode_decomposed(cf: SpecClassFile)
    requires
        spec_encode_class_file(cf).len() <= usize::MAX,
    ensures
        ({
            let b = spec_encode_class_file(cf);
            let lp = spec_encode_pool(cf.constant_pool).len() as int;
            &&& b.len() == 24 + lp + spec_encode_u16_list(cf.interface_table).len()
                + spec_encode_field_list(cf.field_table).len() + spec_encode_method_list(
                cf.method_table,
            ).len() + spec_encode_attribute_list(cf.attribute_table).len()
            &&& b.subrange(0, 4) == seq![0xCAu8, 0xFEu8, 0xBAu8, 0xBEu8]
            &&& b.subrange(4, 6) == spec_enc_u16(cf.minor_version as int)
            &&& b.subrange(6, 8) == spec_enc_u16(cf.major_version as int)
            &&& b.subrange(8, 10) == spec_enc_u16(cf.constant_pool.len() as int + 1)
            &&& b.subrange(10, 10 + lp) == spec_encode_pool(cf.constant_pool)
            &&& b.subrange(10 + lp, 12 + lp) == spec_enc_u16(cf.access_flags as int)
            &&& b.subrange(12 + lp, 14 + lp) == spec_enc_u16(cf.this_class as int)
            &&& b.subrange(14 + lp, 16 + lp) == spec_enc_u16(cf.super_class as int)
            &&& b.subrange(16 + lp, 18 + lp) == spec_enc_u16(cf.interface_count as int)
            &&& b.subrange(
                18 + lp,
                18 + lp + spec_encode_u16_list(cf.interface_table).len(),
            ) == spec_encode_u16_list(cf.interface_table)
            &&& b.subrange(
                18 + lp + spec_encode_u16_list(cf.interface_table).len(),
                20 + lp + spec_encode_u16_list(cf.interface_table).len(),
            ) == spec_enc_u16(cf.field_count as int)
            &&& b.subrange(
                20 + lp + spec_encode_u16_list(cf.interface_table).len(),
                20 + lp + spec_encode_u16_list(cf.interface_table).len()
                    + spec_encode_field_list(cf.field_table).len(),
            ) == spec_encode_field_list(cf.field_table)
            &&& b.subrange(
                20 + lp + spec_encode_u16_list(cf.interface_table).len()
                    + spec_encode_field_list(cf.field_table).len(),
                22 + lp + spec_encode_u16_list(cf.interface_table).len()
                    + spec_encode_field_list(cf.field_table).len(),
            ) == spec_enc_u16(cf.method_count as int)
            &&& b.subrange(
                22 + lp + spec_encode_u16_list(cf.interface_table).len()
                    + spec_encode_field_list(cf.field_table).len(),
                22 + lp + spec_encode_u16_list(cf.interface_table).len()
                    + spec_encode_field_list(cf.field_table).len() + spec_encode_method_list(
                    cf.method_table,
                ).len(),
            ) == spec_encode_method_list(cf.method_table)
            &&& b.subrange(
                22 + lp + spec_encode_u16_list(cf.interface_table).len()
                    + spec_encode_field_list(cf.field_table).len() + spec_encode_method_list(
                    cf.method_table,
                ).len(),
                24 + lp + spec_encode_u16_list(cf.interface_table).len()
                    + spec_encode_field_list(cf.field_table).len() + spec_encode_method_list(
                    cf.method_table,
                ).len(),
            ) == spec_enc_u16(cf.attribute_count as int)
            &&& b.subrange(
                24 + lp + spec_encode_u16_list(cf.interface_table).len()
                    + spec_encode_field_list(cf.field_table).len() + spec_encode_method_list(
                    cf.method_table,
                ).len(),
                24 + lp + spec_encode_u16_list(cf.interface_table).len()
                    + spec_encode_field_list(cf.field_table).len() + spec_encode_method_list(
                    cf.method_table,
                ).len() + spec_encode_attribute_list(cf.attribute_table).len(),
            ) == spec_encode_attribute_list(cf.attribute_table)
        }),
{
    let b = spec_encode_class_file(cf);
    let m = seq![0xCAu8, 0xFEu8, 0xBAu8, 0xBEu8];
    let e1 = spec_enc_u16(cf.minor_version as int);
    let e2 = spec_enc_u16(cf.major_version as int);
    let e3 = spec_enc_u16(cf.constant_pool.len() as int + 1);
    let ep = spec_encode_pool(cf.constant_pool);
    let e4 = spec_enc_u16(cf.access_flags as int);
    let e5 = spec_enc_u16(cf.this_class as int);
    let e6 = spec_enc_u16(cf.super_class as int);
    let e7 = spec_enc_u16(cf.interface_count as int);
    let el = spec_encode_u16_list(cf.interface_table);
    let e8 = spec_enc_u16(cf.field_count as int);
    let ef = spec_encode_field_list(cf.field_table);
    let e9 = spec_enc_u16(cf.method_count as int);
    let em = spec_encode_method_list(cf.method_table);
    let e10 = spec_enc_u16(cf.attribute_count as int);
    let ea = spec_encode_attribute_list(cf.attribute_table);
    let c1 = m + e1;
    let c2 = c1 + e2;
    let c3 = c2 + e3;
    let c4 = c3 + ep;
    let c5 = c4 + e4;
    let c6 = c5 + e5;
    let c7 = c6 + e6;
    let c8 = c7 + e7;
    let c9 = c8 + el;
    let c10 = c9 + e8;
    let c11 = c10 + ef;
    let c12 = c11 + e9;
    let c13 = c12 + em;
    let c14 = c13 + e10;
    let c15 = c14 + ea;
    assert(b == c15);
    lemma_split(c14, ea);
    lemma_split(c13, e10);
    lemma_sub(b, 0, c14, c13.len() as int, c14.len() as int);
    lemma_sub(b, 0, c14, 0, c13.len() as int);
    lemma_split(c12, em);
    lemma_sub(b, 0, c13, c12.len() as int, c13.len() as int);
    lemma_sub(b, 0, c13, 0, c12.len() as int);
    lemma_split(c11, e9);
    lemma_sub(b, 0, c12, c11.len() as int, c12.len() as int);
    lemma_sub(b, 0, c12, 0, c11.len() as int);
    lemma_split(c10, ef);
    lemma_sub(b, 0, c11, c10.len() as int, c11.len() as int);
    lemma_sub(b, 0, c11, 0, c10.len() as int);
    lemma_split(c9, e8);
    lemma_sub(b, 0, c10, c9.len() as int, c10.len() as int);
    lemma_sub(b, 0, c10, 0, c9.len() as int);
    lemma_split(c8, el);
    lemma_sub(b, 0, c9, c8.len() as int, c9.len() as int);
    lemma_sub(b, 0, c9, 0, c8.len() as int);
    lemma_split(c7, e7);
    lemma_sub(b, 0, c8, c7.len() as int, c8.len() as int);
    lemma_sub(b, 0, c8, 0, c7.len() as int);
    lemma_split(c6, e6);
    lemma_sub(b, 0, c7, c6.len() as int, c7.len() as int);
    lemma_sub(b, 0, c7, 0, c6.len() as int);
    lemma_split(c5, e5);
    lemma_sub(b, 0, c6, c5.len() as int, c6.len() as int);
    lemma_sub(b, 0, c6, 0, c5.len() as int);
    lemma_split(c4, e4);
    lemma_sub(b, 0, c5, c4.len() as int, c5.len() as int);
    lemma_sub(b, 0, c5, 0, c4.len() as int);
    lemma_split(c3, ep);
    lemma_sub(b, 0, c4, c3.len() as int, c4.len() as int);
    lemma_sub(b, 0, c4, 0, c3.len() as int);
    lemma_split(c2, e3);
    lemma_sub(b, 0, c3, c2.len() as int, c3.len() as int);
    lemma_sub(b, 0, c3, 0, c2.len() as int);
    lemma_split(c1, e2);
    lemma_sub(b, 0, c2, c1.len() as int, c2.len() as int);
    lemma_sub(b, 0, c2, 0, c1.len() as int);
    lemma_split(m, e1);
    lemma_sub(b, 0, c1, m.len() as int, c1.len() as int);
    lemma_sub(b, 0, c1, 0, m.len() as int);
    assert(m.len() == 4);
    assert(e1.len() == 2 && e2.len() == 2 && e3.len() == 2 && e4.len() == 2 && e5.len() == 2);
    assert(e6.len() == 2 && e7.len() == 2 && e8.len() == 2 && e9.len() == 2 && e10.len() == 2);
    assert(c1.len() == m.len() + e1.len());
    assert(c2.len() == c1.len() + e2.len());
    assert(c3.len() == c2.len() + e3.len());
    assert(c4.len() == c3.len() + ep.len());
    assert(c5.len() == c4.len() + e4.len());
    assert(c6.len() == c5.len() + e5.len());
    assert(c7.len() == c6.len() + e6.len());
    assert(c8.len() == c7.len() + e7.len());
    assert(c9.len() == c8.len() + el.len());
    assert(c10.len() == c9.len() + e8.len());
    assert(c11.len() == c10.len() + ef.len());
    assert(c12.len() == c11.len() + e9.len());
    assert(c13.len() == c12.len() + em.len());
    assert(c14.len() == c13.len() + e10.len());
    assert(c15.len() == c14.len() + ea.len());
    assert(b.len() == 24 + ep.len() + el.len() + ef.len() + em.len() + ea.len());
}

/// Decoding inverts encoding: any well-formed class file, written to bytes
/// and decoded again, comes back exactly as it was, with the whole encoding
/// consumed.
#[verifier::rlimit(100)]
#[verifier::spinoff_prover]
pub proof fn lemma_class_file_round_trip(cf: SpecClassFile)
    requires
        spec_wf_class_file(cf),
        spec_encode_class_file(cf).len() <= usize::MAX,
    ensures
        spec_parse_class_file(spec_encode_class_file(cf)) == Ok::<_, DecodeError>(
            (cf, spec_encode_class_file(cf).len() as usize),
        ),
{
    let b = spec_encode_class_file(cf);
    let lp = spec_encode_pool(cf.constant_pool).len() as int;
    lemma_encode_decomposed(cf);
    assert(b[0] == b.subrange(0, 4)[0]);
    assert(b[1] == b.subrange(0, 4)[1]);
    assert(b[2] == b.subrange(0, 4)[2]);
    assert(b[3] == b.subrange(0, 4)[3]);
    assert(crate::class_file::spec_has_magic(b));
    lemma_read_u16_enc(b, 4, cf.minor_version as int);
    lemma_read_u16_enc(b, 6, cf.major_version as int);
    lemma_read_u16_enc(b, 8, cf.constant_pool.len() as int + 1);
    lemma_parse_cp_list_enc(b, 10, cf.constant_pool, 0, cf.constant_pool.len() as int + 1);
    lemma_read_u16_enc(b, ((10 + lp) as usize), cf.access_flags as int);
    lemma_read_u16_enc(b, ((12 + lp) as usize), cf.this_class as int);
    lemma_read_u16_enc(b, ((14 + lp) as usize), cf.super_class as int);
    lemma_parse_tables_enc(b, ((16 + lp) as usize), cf);
}

} // verus!
