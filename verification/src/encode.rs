use vstd::prelude::*;

use crate::class_file::{
    spec_is_two_slot, AttributeInfo, ClassFile, ConstantPoolEntry, SpecAttributeInfo,
    SpecClassFile, SpecConstantPoolEntry, SpecFieldInfo, SpecMethodInfo,
};

verus! {

// The encoder: the inverse of the class-file decoder on well-formed values.
// A decoded class file re-encodes to the very bytes it came from, and, the
// direction proved here, a well-formed class file decodes back from its
// encoding unchanged.

/// The 32-bit two's-complement pattern of a signed value.
pub open spec fn spec_i32_bits(v: int) -> int {
    if v >= 0 {
        v
    } else {
        v + 0x1_0000_0000
    }
}

/// The 64-bit two's-complement pattern of a signed value.
pub open spec fn spec_i64_bits(v: int) -> int {
    if v >= 0 {
        v
    } else {
        v + 0x1_0000_0000_0000_0000
    }
}

pub open spec fn spec_enc_u16(v: int) -> Seq<u8> {
    seq![(v / 256 % 256) as u8, (v % 256) as u8]
}

pub open spec fn spec_enc_u32(v: int) -> Seq<u8> {
    spec_enc_u16(v / 0x10000) + spec_enc_u16(v % 0x10000)
}

pub open spec fn spec_enc_u64(v: int) -> Seq<u8> {
    spec_enc_u32(v / 0x1_0000_0000) + spec_enc_u32(v % 0x1_0000_0000)
}

/// The encoding of one constant-pool entry; the placeholder slot after a
/// two-slot entry contributes no bytes.
pub open spec fn spec_encode_cp_entry(e: SpecConstantPoolEntry) -> Seq<u8> {
    match e {
        SpecConstantPoolEntry::Placeholder => Seq::empty(),
        SpecConstantPoolEntry::Utf8String { bytes } => seq![1u8] + spec_enc_u16(
            bytes.len() as int,
        ) + bytes,
        SpecConstantPoolEntry::Integer(v) => seq![3u8] + spec_enc_u32(spec_i32_bits(v as int)),
        SpecConstantPoolEntry::Float(v) => seq![4u8] + spec_enc_u32(v as int),
        SpecConstantPoolEntry::Long(v) => seq![5u8] + spec_enc_u64(spec_i64_bits(v as int)),
        SpecConstantPoolEntry::Double(v) => seq![6u8] + spec_enc_u64(v as int),
        SpecConstantPoolEntry::ClassRef(a) => seq![7u8] + spec_enc_u16(a as int),
        SpecConstantPoolEntry::StringRef(a) => seq![8u8] + spec_enc_u16(a as int),
        SpecConstantPoolEntry::FieldRef(a, b) => seq![9u8] + spec_enc_u16(a as int) + spec_enc_u16(
            b as int,
        ),
        SpecConstantPoolEntry::MethodRef(a, b) => seq![10u8] + spec_enc_u16(a as int)
            + spec_enc_u16(b as int),
        SpecConstantPoolEntry::InterfaceMethodRef(a, b) => seq![11u8] + spec_enc_u16(a as int)
            + spec_enc_u16(b as int),
        SpecConstantPoolEntry::NameAndType(a, b) => seq![12u8] + spec_enc_u16(a as int)
            + spec_enc_u16(b as int),
        SpecConstantPoolEntry::MethodHandle(k, r) => seq![15u8, k] + spec_enc_u16(r as int),
        SpecConstantPoolEntry::MethodType(a) => seq![16u8] + spec_enc_u16(a as int),
        SpecConstantPoolEntry::Dynamic(a, b) => seq![17u8] + spec_enc_u16(a as int) + spec_enc_u16(
            b as int,
        ),
        SpecConstantPoolEntry::InvokeDynamic(a, b) => seq![18u8] + spec_enc_u16(a as int)
            + spec_enc_u16(b as int),
        SpecConstantPoolEntry::Module(a) => seq![19u8] + spec_enc_u16(a as int),
        SpecConstantPoolEntry::Package(a) => seq![20u8] + spec_enc_u16(a as int),
    }
}

pub open spec fn spec_encode_pool(s: Seq<SpecConstantPoolEntry>) -> Seq<u8>
    decreases s.len(),
{
    if s.len() == 0 {
        Seq::empty()
    } else {
        spec_encode_cp_entry(s[0]) + spec_encode_pool(s.drop_first())
    }
}

pub open spec fn spec_encode_u16_list(s: Seq<u16>) -> Seq<u8>
    decreases s.len(),
{
    if s.len() == 0 {
        Seq::empty()
    } else {
        spec_enc_u16(s[0] as int) + spec_encode_u16_list(s.drop_first())
    }
}

pub open spec fn spec_encode_attribute_info(a: SpecAttributeInfo) -> Seq<u8> {
    spec_enc_u16(a.attribute_name_index as int) + spec_enc_u32(a.attribute_length as int) + a.info
}

pub open spec fn spec_encode_attribute_list(s: Seq<SpecAttributeInfo>) -> Seq<u8>
    decreases s.len(),
{
    if s.len() == 0 {
        Seq::empty()
    } else {
        spec_encode_attribute_info(s[0]) + spec_encode_attribute_list(s.drop_first())
    }
}

pub open spec fn spec_encode_field_info(f: SpecFieldInfo) -> Seq<u8> {
    spec_enc_u16(f.access_flags as int) + spec_enc_u16(f.name_index as int) + spec_enc_u16(
        f.descriptor_index as int,
    ) + spec_enc_u16(f.attributes_count as int) + spec_encode_attribute_list(f.attributes)
}

pub open spec fn spec_encode_field_list(s: Seq<SpecFieldInfo>) -> Seq<u8>
    decreases s.len(),
{
    if s.len() == 0 {
        Seq::empty()
    } else {
        spec_encode_field_info(s[0]) + spec_encode_field_list(s.drop_first())
    }
}

pub open spec fn spec_encode_method_info(m: SpecMethodInfo) -> Seq<u8> {
    spec_enc_u16(m.access_flags as int) + spec_enc_u16(m.name_index as int) + spec_enc_u16(
        m.descriptor_index as int,
    ) + spec_enc_u16(m.attributes_count as int) + spec_encode_attribute_list(m.attributes)
}

pub open spec fn spec_encode_method_list(s: Seq<SpecMethodInfo>) -> Seq<u8>
    decreases s.len(),
{
    if s.len() == 0 {
        Seq::empty()
    } else {
        spec_encode_method_info(s[0]) + spec_encode_method_list(s.drop_first())
    }
}

/// The full encoding of a class file, in wire order.
pub open spec fn spec_encode_class_file(cf: SpecClassFile) -> Seq<u8> {
    seq![0xCAu8, 0xFEu8, 0xBAu8, 0xBEu8] + spec_enc_u16(cf.minor_version as int) + spec_enc_u16(
        cf.major_version as int,
    ) + spec_enc_u16(cf.constant_pool.len() as int + 1) + spec_encode_pool(cf.constant_pool)
        + spec_enc_u16(cf.access_flags as int) + spec_enc_u16(cf.this_class as int) + spec_enc_u16(
        cf.super_class as int,
    ) + spec_enc_u16(cf.interface_count as int) + spec_encode_u16_list(cf.interface_table)
        + spec_enc_u16(cf.field_count as int) + spec_encode_field_list(cf.field_table)
        + spec_enc_u16(cf.method_count as int) + spec_encode_method_list(cf.method_table)
        + spec_enc_u16(cf.attribute_count as int) + spec_encode_attribute_list(cf.attribute_table)
}

/// A pool entry as it may stand in a well-formed pool: not itself a
/// placeholder, and short enough to encode.
pub open spec fn spec_wf_cp_entry(e: SpecConstantPoolEntry) -> bool {
    match e {
        SpecConstantPoolEntry::Placeholder => false,
        SpecConstantPoolEntry::Utf8String { bytes } => bytes.len() < 0x10000,
        _ => true,
    }
}

/// A well-formed pool: every two-slot entry is followed by exactly one
/// placeholder, placeholders stand nowhere else, and every proper entry can
/// be encoded.
pub open spec fn spec_wf_pool(s: Seq<SpecConstantPoolEntry>) -> bool {
    &&& forall|j: int|
        0 <= j < s.len() ==> ((#[trigger] s[j]) is Placeholder <==> (j > 0 && spec_is_two_slot(
            s[j - 1],
        )))
    &&& forall|j: int|
        0 <= j < s.len() && spec_is_two_slot(#[trigger] s[j]) ==> j + 1 < s.len()
    &&& forall|j: int|
        0 <= j < s.len() && !((#[trigger] s[j]) is Placeholder) ==> spec_wf_cp_entry(s[j])
}

pub open spec fn spec_wf_attribute_info(a: SpecAttributeInfo) -> bool {
    a.info.len() == a.attribute_length
}

pub open spec fn spec_wf_attribute_list(s: Seq<SpecAttributeInfo>) -> bool {
    forall|j: int| 0 <= j < s.len() ==> spec_wf_attribute_info(#[trigger] s[j])
}

pub open spec fn spec_wf_field_info(f: SpecFieldInfo) -> bool {
    f.attributes.len() == f.attributes_count && spec_wf_attribute_list(f.attributes)
}

pub open spec fn spec_wf_method_info(m: SpecMethodInfo) -> bool {
    m.attributes.len() == m.attributes_count && spec_wf_attribute_list(m.attributes)
}

/// A class file whose decoded form the encoder can reproduce exactly: the
/// stored counts match the tables, the pool is well-formed and fits its
/// declared count, and every length field is truthful.
pub open spec fn spec_wf_class_file(cf: SpecClassFile) -> bool {
    &&& spec_wf_pool(cf.constant_pool)
    &&& cf.constant_pool.len() + 1 < 0x10000
    &&& cf.interface_table.len() == cf.interface_count
    &&& cf.field_table.len() == cf.field_count
    &&& forall|j: int|
        0 <= j < cf.field_table.len() ==> spec_wf_field_info(#[trigger] cf.field_table[j])
    &&& cf.method_table.len() == cf.method_count
    &&& forall|j: int|
        0 <= j < cf.method_table.len() ==> spec_wf_method_info(#[trigger] cf.method_table[j])
    &&& cf.attribute_table.len() == cf.attribute_count
    &&& spec_wf_attribute_list(cf.attribute_table)
}

fn write_u16(out: &mut Vec<u8>, v: u16)
    ensures
        final(out)@ == old(out)@ + spec_enc_u16(v as int),
{
    let ghost pre = out@;
    out.push((v / 256) as u8);
    out.push((v % 256) as u8);
    proof {
        assert(out@ =~= pre + spec_enc_u16(v as int));
    }
}

fn write_u32(out: &mut Vec<u8>, v: u32)
    ensures
        final(out)@ == old(out)@ + spec_enc_u32(v as int),
{
    let ghost pre = out@;
    write_u16(out, (v / 0x10000) as u16);
    write_u16(out, (v % 0x10000) as u16);
    proof {
        assert(out@ =~= pre + spec_enc_u32(v as int));
    }
}

fn write_u64(out: &mut Vec<u8>, v: u64)
    ensures
        final(out)@ == old(out)@ + spec_enc_u64(v as int),
{
    let ghost pre = out@;
    write_u32(out, (v / 0x1_0000_0000) as u32);
    write_u32(out, (v % 0x1_0000_0000) as u32);
    proof {
        assert(out@ =~= pre + spec_enc_u64(v as int));
    }
}

fn i32_bits(v: i32) -> (r: u32)
    ensures
        r as int == spec_i32_bits(v as int),
{
    if v >= 0 {
        v as u32
    } else {
        ((v as i64) + 0x1_0000_0000i64) as u32
    }
}

fn i64_bits(v: i64) -> (r: u64)
    ensures
        r as int == spec_i64_bits(v as int),
{
    if v >= 0 {
        v as u64
    } else {
        ((v + 0x4000_0000_0000_0000i64 + 0x4000_0000_0000_0000i64) as u64) + 0x8000_0000_0000_0000u64
    }
}

fn write_bytes(out: &mut Vec<u8>, data: &Vec<u8>)
    ensures
        final(out)@ == old(out)@ + data@,
{
    let n = data.len();
    let mut j: usize = 0;
    while j < n
        invariant
            j <= n,
            n == data@.len(),
            out@ == old(out)@ + data@.take(j as int),
        decreases n - j,
    {
        let ghost pre = out@;
        out.push(data[j]);
        proof {
            assert(out@ =~= old(out)@ + data@.take(j as int + 1));
        }
        j = j + 1;
    }
    proof {
        assert(data@.take(n as int) =~= data@);
    }
}

fn write_cp_entry(out: &mut Vec<u8>, e: &ConstantPoolEntry)
    requires
        match e.deep_view() {
            SpecConstantPoolEntry::Utf8String { bytes } => bytes.len() < 0x10000,
            _ => true,
        },
    ensures
        final(out)@ == old(out)@ + spec_encode_cp_entry(e.deep_view()),
{
    let ghost pre = out@;
    match e {
        ConstantPoolEntry::Placeholder => {
            proof {
                assert(out@ =~= pre + spec_encode_cp_entry(e.deep_view()));
            }
        },
        ConstantPoolEntry::Utf8String { bytes } => {
            out.push(1);
            write_u16(out, bytes.len() as u16);
            write_bytes(out, bytes);
            proof {
                assert(out@ =~= pre + spec_encode_cp_entry(e.deep_view()));
            }
        },
        ConstantPoolEntry::Integer(v) => {
            out.push(3);
            write_u32(out, i32_bits(*v));
            proof {
                assert(out@ =~= pre + spec_encode_cp_entry(e.deep_view()));
            }
        },
        ConstantPoolEntry::Float(v) => {
            out.push(4);
            write_u32(out, *v);
            proof {
                assert(out@ =~= pre + spec_encode_cp_entry(e.deep_view()));
            }
        },
        ConstantPoolEntry::Long(v) => {
            out.push(5);
            write_u64(out, i64_bits(*v));
            proof {
                assert(out@ =~= pre + spec_encode_cp_entry(e.deep_view()));
            }
        },
        ConstantPoolEntry::Double(v) => {
            out.push(6);
            write_u64(out, *v);
            proof {
                assert(out@ =~= pre + spec_encode_cp_entry(e.deep_view()));
            }
        },
        ConstantPoolEntry::ClassRef(a) => {
            out.push(7);
            write_u16(out, *a);
            proof {
                assert(out@ =~= pre + spec_encode_cp_entry(e.deep_view()));
            }
        },
        ConstantPoolEntry::StringRef(a) => {
            out.push(8);
            write_u16(out, *a);
            proof {
                assert(out@ =~= pre + spec_encode_cp_entry(e.deep_view()));
            }
        },
        ConstantPoolEntry::FieldRef(a, b) => {
            out.push(9);
            write_u16(out, *a);
            write_u16(out, *b);
            proof {
                assert(out@ =~= pre + spec_encode_cp_entry(e.deep_view()));
            }
        },
        ConstantPoolEntry::MethodRef(a, b) => {
            out.push(10);
            write_u16(out, *a);
            write_u16(out, *b);
            proof {
                assert(out@ =~= pre + spec_encode_cp_entry(e.deep_view()));
            }
        },
        ConstantPoolEntry::InterfaceMethodRef(a, b) => {
            out.push(11);
            write_u16(out, *a);
            write_u16(out, *b);
            proof {
                assert(out@ =~= pre + spec_encode_cp_entry(e.deep_view()));
            }
        },
        ConstantPoolEntry::NameAndType(a, b) => {
            out.push(12);
            write_u16(out, *a);
            write_u16(out, *b);
            proof {
                assert(out@ =~= pre + spec_encode_cp_entry(e.deep_view()));
            }
        },
        ConstantPoolEntry::MethodHandle(k, r) => {
            out.push(15);
            out.push(*k);
            write_u16(out, *r);
            proof {
                assert(out@ =~= pre + spec_encode_cp_entry(e.deep_view()));
            }
        },
        ConstantPoolEntry::MethodType(a) => {
            out.push(16);
            write_u16(out, *a);
            proof {
                assert(out@ =~= pre + spec_encode_cp_entry(e.deep_view()));
            }
        },
        ConstantPoolEntry::Dynamic(a, b) => {
            out.push(17);
            write_u16(out, *a);
            write_u16(out, *b);
            proof {
                assert(out@ =~= pre + spec_encode_cp_entry(e.deep_view()));
            }
        },
        ConstantPoolEntry::InvokeDynamic(a, b) => {
            out.push(18);
            write_u16(out, *a);
            write_u16(out, *b);
            proof {
                assert(out@ =~= pre + spec_encode_cp_entry(e.deep_view()));
            }
        },
        ConstantPoolEntry::Module(a) => {
            out.push(19);
            write_u16(out, *a);
            proof {
                assert(out@ =~= pre + spec_encode_cp_entry(e.deep_view()));
            }
        },
        ConstantPoolEntry::Package(a) => {
            out.push(20);
            write_u16(out, *a);
            proof {
                assert(out@ =~= pre + spec_encode_cp_entry(e.deep_view()));
            }
        },
    }
}

fn write_attribute_info(out: &mut Vec<u8>, a: &AttributeInfo)
    ensures
        final(out)@ == old(out)@ + spec_encode_attribute_info(a.deep_view()),
{
    let ghost pre = out@;
    write_u16(out, a.attribute_name_index);
    write_u32(out, a.attribute_length);
    write_bytes(out, &a.info);
    proof {
        assert(out@ =~= pre + spec_encode_attribute_info(a.deep_view()));
    }
}

fn write_attribute_list(out: &mut Vec<u8>, s: &Vec<AttributeInfo>)
    ensures
        final(out)@ == old(out)@ + spec_encode_attribute_list(s.deep_view()),
{
    let n = s.len();
    let mut j: usize = 0;
    proof {
        crate::reader::lemma_deep_view_elems(*s);
        assert(s.deep_view().skip(0) =~= s.deep_view());
    }
    while j < n
        invariant
            j <= n,
            n == s@.len(),
            s.deep_view().len() == n,
            forall|i: int| 0 <= i < n ==> s.deep_view()[i] == #[trigger] s@[i].deep_view(),
            out@ + spec_encode_attribute_list(s.deep_view().skip(j as int)) == old(out)@
                + spec_encode_attribute_list(s.deep_view()),
        decreases n - j,
    {
        proof {
            assert(s.deep_view().skip(j as int)[0] == s.deep_view()[j as int]);
            assert(s.deep_view().skip(j as int).drop_first() =~= s.deep_view().skip(j as int + 1));
        }
        let ghost pre = out@;
        write_attribute_info(out, &s[j]);
        proof {
            assert((pre + spec_encode_attribute_info(s@[j as int].deep_view()))
                + spec_encode_attribute_list(s.deep_view().skip(j as int + 1)) =~= pre + (
            spec_encode_attribute_info(s@[j as int].deep_view()) + spec_encode_attribute_list(
                s.deep_view().skip(j as int + 1),
            )));
        }
        j = j + 1;
    }
    proof {
        assert(s.deep_view().skip(n as int) =~= Seq::<SpecAttributeInfo>::empty());
        assert(out@ + Seq::<u8>::empty() =~= out@);
    }
}

/// Encode a class file back to its wire form.
pub fn encode_class_file(cf: &ClassFile) -> (r: Vec<u8>)
    requires
        spec_wf_class_file(cf.deep_view()),
    ensures
        r@ == spec_encode_class_file(cf.deep_view()),
{
    let ghost cfv = cf.deep_view();
    let mut out: Vec<u8> = Vec::new();
    out.push(0xCA);
    out.push(0xFE);
    out.push(0xBA);
    out.push(0xBE);
    proof {
        assert(out@ =~= seq![0xCAu8, 0xFEu8, 0xBAu8, 0xBEu8]);
    }
    write_u16(&mut out, cf.minor_version);
    write_u16(&mut out, cf.major_version);
    write_u16(&mut out, (cf.constant_pool.len() + 1) as u16);
    let n = cf.constant_pool.len();
    let mut j: usize = 0;
    let ghost base = out@;
    proof {
        crate::reader::lemma_deep_view_elems(cf.constant_pool);
        assert(cfv.constant_pool.skip(0) =~= cfv.constant_pool);
    }
    while j < n
        invariant
            j <= n,
            n == cf.constant_pool@.len(),
            cfv == cf.deep_view(),
            cfv.constant_pool.len() == n,
            forall|i: int|
                0 <= i < n ==> cfv.constant_pool[i] == #[trigger] cf.constant_pool@[i].deep_view(),
            spec_wf_pool(cfv.constant_pool),
            out@ + spec_encode_pool(cfv.constant_pool.skip(j as int)) == base + spec_encode_pool(
                cfv.constant_pool,
            ),
        decreases n - j,
    {
        proof {
            assert(cfv.constant_pool.skip(j as int)[0] == cfv.constant_pool[j as int]);
            assert(cfv.constant_pool.skip(j as int).drop_first() =~= cfv.constant_pool.skip(
                j as int + 1,
            ));
        }
        proof {
            if !(cfv.constant_pool[j as int] is Placeholder) {
                assert(spec_wf_cp_entry(cfv.constant_pool[j as int]));
            }
        }
        let ghost pre = out@;
        write_cp_entry(&mut out, &cf.constant_pool[j]);
        proof {
            assert((pre + spec_encode_cp_entry(cf.constant_pool@[j as int].deep_view()))
                + spec_encode_pool(cfv.constant_pool.skip(j as int + 1)) =~= pre + (
            spec_encode_cp_entry(cf.constant_pool@[j as int].deep_view()) + spec_encode_pool(
                cfv.constant_pool.skip(j as int + 1),
            )));
        }
        j = j + 1;
    }
    proof {
        assert(cfv.constant_pool.skip(n as int) =~= Seq::<SpecConstantPoolEntry>::empty());
        assert(out@ + Seq::<u8>::empty() =~= out@);
    }
    write_u16(&mut out, cf.access_flags);
    write_u16(&mut out, cf.this_class);
    write_u16(&mut out, cf.super_class);
    write_u16(&mut out, cf.interface_count);
    let ni = cf.interface_table.len();
    let mut k: usize = 0;
    let ghost base2 = out@;
    proof {
        assert(cf.interface_table@ =~= cfv.interface_table);
        assert(cfv.interface_table.skip(0) =~= cfv.interface_table);
    }
    while k < ni
        invariant
            k <= ni,
            ni == cf.interface_table@.len(),
            cfv == cf.deep_view(),
            cf.interface_table@ == cfv.interface_table,
            out@ + spec_encode_u16_list(cfv.interface_table.skip(k as int)) == base2
                + spec_encode_u16_list(cfv.interface_table),
        decreases ni - k,
    {
        proof {
            assert(cfv.interface_table.skip(k as int)[0] == cfv.interface_table[k as int]);
            assert(cfv.interface_table.skip(k as int).drop_first() =~= cfv.interface_table.skip(
                k as int + 1,
            ));
        }
        let ghost pre = out@;
        write_u16(&mut out, cf.interface_table[k]);
        proof {
            assert((pre + spec_enc_u16(cfv.interface_table[k as int] as int))
                + spec_encode_u16_list(cfv.interface_table.skip(k as int + 1)) =~= pre + (
            spec_enc_u16(cfv.interface_table[k as int] as int) + spec_encode_u16_list(
                cfv.interface_table.skip(k as int + 1),
            )));
        }
        k = k + 1;
    }
    proof {
        assert(cfv.interface_table.skip(ni as int) =~= Seq::<u16>::empty());
        assert(out@ + Seq::<u8>::empty() =~= out@);
    }
    write_u16(&mut out, cf.field_count);
    let nf = cf.field_table.len();
    let mut fj: usize = 0;
    let ghost base3 = out@;
    proof {
        crate::reader::lemma_deep_view_elems(cf.field_table);
        assert(cfv.field_table.skip(0) =~= cfv.field_table);
    }
    while fj < nf
        invariant
            fj <= nf,
            nf == cf.field_table@.len(),
            cfv == cf.deep_view(),
            cfv.field_table.len() == nf,
            forall|i: int|
                0 <= i < nf ==> cfv.field_table[i] == #[trigger] cf.field_table@[i].deep_view(),
            out@ + spec_encode_field_list(cfv.field_table.skip(fj as int)) == base3
                + spec_encode_field_list(cfv.field_table),
        decreases nf - fj,
    {
        proof {
            assert(cfv.field_table.skip(fj as int)[0] == cfv.field_table[fj as int]);
            assert(cfv.field_table.skip(fj as int).drop_first() =~= cfv.field_table.skip(
                fj as int + 1,
            ));
        }
        let ghost pre = out@;
        let f = &cf.field_table[fj];
        write_u16(&mut out, f.access_flags);
        write_u16(&mut out, f.name_index);
        write_u16(&mut out, f.descriptor_index);
        write_u16(&mut out, f.attributes_count);
        write_attribute_list(&mut out, &f.attributes);
        proof {
            assert(out@ =~= pre + spec_encode_field_info(cf.field_table@[fj as int].deep_view()));
            assert((pre + spec_encode_field_info(cfv.field_table[fj as int]))
                + spec_encode_field_list(cfv.field_table.skip(fj as int + 1)) =~= pre + (
            spec_encode_field_info(cfv.field_table[fj as int]) + spec_encode_field_list(
                cfv.field_table.skip(fj as int + 1),
            )));
        }
        fj = fj + 1;
    }
    proof {
        assert(cfv.field_table.skip(nf as int) =~= Seq::<SpecFieldInfo>::empty());
        assert(out@ + Seq::<u8>::empty() =~= out@);
    }
    write_u16(&mut out, cf.method_count);
    let nm = cf.method_table.len();
    let mut mj: usize = 0;
    let ghost base4 = out@;
    proof {
        crate::reader::lemma_deep_view_elems(cf.method_table);
        assert(cfv.method_table.skip(0) =~= cfv.method_table);
    }
    while mj < nm
        invariant
            mj <= nm,
            nm == cf.method_table@.len(),
            cfv == cf.deep_view(),
            cfv.method_table.len() == nm,
            forall|i: int|
                0 <= i < nm ==> cfv.method_table[i] == #[trigger] cf.method_table@[i].deep_view(),
            out@ + spec_encode_method_list(cfv.method_table.skip(mj as int)) == base4
                + spec_encode_method_list(cfv.method_table),
        decreases nm - mj,
    {
        proof {
            assert(cfv.method_table.skip(mj as int)[0] == cfv.method_table[mj as int]);
            assert(cfv.method_table.skip(mj as int).drop_first() =~= cfv.method_table.skip(
                mj as int + 1,
            ));
        }
        let ghost pre = out@;
        let m = &cf.method_table[mj];
        write_u16(&mut out, m.access_flags);
        write_u16(&mut out, m.name_index);
        write_u16(&mut out, m.descriptor_index);
        write_u16(&mut out, m.attributes_count);
        write_attribute_list(&mut out, &m.attributes);
        proof {
            assert(out@ =~= pre + spec_encode_method_info(cf.method_table@[mj as int].deep_view()));
            assert((pre + spec_encode_method_info(cfv.method_table[mj as int]))
                + spec_encode_method_list(cfv.method_table.skip(mj as int + 1)) =~= pre + (
            spec_encode_method_info(cfv.method_table[mj as int]) + spec_encode_method_list(
                cfv.method_table.skip(mj as int + 1),
            )));
        }
        mj = mj + 1;
    }
    proof {
        assert(cfv.method_table.skip(nm as int) =~= Seq::<SpecMethodInfo>::empty());
        assert(out@ + Seq::<u8>::empty() =~= out@);
    }
    write_u16(&mut out, cf.attribute_count);
    write_attribute_list(&mut out, &cf.attribute_table);
    proof {
        assert(out@ =~= spec_encode_class_file(cfv));
    }
    out
}

} // verus!
