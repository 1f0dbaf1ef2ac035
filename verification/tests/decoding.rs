use minijvm::class::Class;
use minijvm::class_file::{ClassFile, ConstantPoolEntry};
use minijvm::encode::encode_class_file;
use minijvm::errors::DecodeError;
use minijvm::manifest::parse_manifest;
use minijvm::opcodes::{instruction_length, opcode_mnemonic};
use minijvm::strmap::StringMap;

fn be16(v: u16) -> Vec<u8> {
    vec![(v >> 8) as u8, (v & 0xFF) as u8]
}

fn be32(v: u32) -> Vec<u8> {
    vec![(v >> 24) as u8, (v >> 16) as u8, (v >> 8) as u8, (v & 0xFF) as u8]
}

/// A class file with the given pool entries (already encoded), member and
/// attribute tables empty.
fn bare_class_bytes(cp_count: u16, pool_bytes: &[u8]) -> Vec<u8> {
    let mut b = vec![0xCA, 0xFE, 0xBA, 0xBE, 0x00, 0x00, 0x00, 0x34];
    b.extend(be16(cp_count));
    b.extend_from_slice(pool_bytes);
    for _ in 0..7 {
        b.extend(be16(0));
    }
    b
}

#[test]
fn minimal_class_parses_empty() {
    // An empty constant pool, no fields, no methods, no attributes; a zero
    // this-class index is tolerated.
    let b = bare_class_bytes(1, &[]);
    assert_eq!(b[..10].to_vec(), vec![0xCA, 0xFE, 0xBA, 0xBE, 0x00, 0x00, 0x00, 0x34, 0x00, 0x01]);
    let cf = ClassFile::parse(&b).expect("minimal class must parse");
    assert_eq!(cf.constant_pool.len(), 0);
    assert_eq!(cf.this_class, 0);
    assert_eq!(cf.method_table.len(), 0);
    let c = Class::new(&b).expect("minimal class must load");
    assert_eq!(c.fields.len(), 0);
    assert_eq!(c.methods.len(), 0);
    assert!(!c.initialized);
}

#[test]
fn double_slot_pool() {
    // Pool {Integer(42), Long(0x0102030405060708), Utf8("x")}: declared
    // count 5, decoded length 4, index 4 resolves to "x".
    let mut pool = vec![3u8];
    pool.extend(be32(42));
    pool.push(5);
    pool.extend_from_slice(&[0x01, 0x02, 0x03, 0x04, 0x05, 0x06, 0x07, 0x08]);
    pool.push(1);
    pool.extend(be16(1));
    pool.push(b'x');
    let b = bare_class_bytes(5, &pool);
    let cf = ClassFile::parse(&b).expect("double-slot pool must parse");
    assert_eq!(cf.constant_pool.len(), 4);
    assert_eq!(cf.constant_pool[0], ConstantPoolEntry::Integer(42));
    assert_eq!(cf.constant_pool[1], ConstantPoolEntry::Long(0x0102030405060708));
    assert_eq!(cf.constant_pool[2], ConstantPoolEntry::Placeholder);
    assert_eq!(cf.get_constant_pool_string(4), Some(String::from("x")));
    assert_eq!(cf.get_constant_pool_string(1), None);
    assert_eq!(cf.get_constant_pool_string(0), None);
    assert_eq!(cf.get_constant_pool_string(9), None);
}

#[test]
fn long_at_last_valid_slot() {
    // A Long occupying the two last slots: the placeholder still occupies
    // the reserved slot and nothing reads out of range.
    let mut pool = vec![5u8];
    pool.extend_from_slice(&[0, 0, 0, 0, 0, 0, 0, 9]);
    let b = bare_class_bytes(3, &pool);
    let cf = ClassFile::parse(&b).expect("long at last slot must parse");
    assert_eq!(cf.constant_pool.len(), 2);
    assert_eq!(cf.constant_pool[0], ConstantPoolEntry::Long(9));
    assert_eq!(cf.constant_pool[1], ConstantPoolEntry::Placeholder);
}

#[test]
fn long_without_room_for_placeholder() {
    // A two-slot entry whose reserved slot would fall outside the declared
    // count is rejected rather than over-filling the pool.
    let mut pool = vec![5u8];
    pool.extend_from_slice(&[0, 0, 0, 0, 0, 0, 0, 9]);
    let b = bare_class_bytes(2, &pool);
    assert_eq!(ClassFile::parse(&b), Err(DecodeError::IndexOutOfRange(2)));
}

#[test]
fn bad_magic_rejected() {
    let b = vec![0xCA, 0xFE, 0xBA, 0xBF, 0, 0, 0, 0x34, 0, 1];
    assert_eq!(ClassFile::parse(&b), Err(DecodeError::BadMagic));
    assert!(Class::new(&b).is_none());
}

#[test]
fn truncated_stream_rejected() {
    let b = vec![0xCA, 0xFE, 0xBA, 0xBE, 0x00, 0x00, 0x00, 0x34, 0x00];
    assert_eq!(ClassFile::parse(&b), Err(DecodeError::Truncated(8)));
}

#[test]
fn unknown_tag_rejected() {
    let pool = vec![99u8];
    let b = bare_class_bytes(2, &pool);
    assert_eq!(ClassFile::parse(&b), Err(DecodeError::UnknownTag(99, 10)));
}

#[test]
fn invalid_utf8_pool_string_is_absent() {
    let mut pool = vec![1u8];
    pool.extend(be16(2));
    pool.extend_from_slice(&[0xFF, 0xFE]);
    let b = bare_class_bytes(2, &pool);
    let cf = ClassFile::parse(&b).expect("pool with bad utf8 still parses");
    assert_eq!(cf.get_constant_pool_string(1), None);
}

#[test]
fn parse_twice_identical_trees() {
    let mut pool = vec![3u8];
    pool.extend(be32(7));
    pool.push(1);
    pool.extend(be16(2));
    pool.extend_from_slice(b"ab");
    let b = bare_class_bytes(3, &pool);
    let c1 = ClassFile::parse(&b).unwrap();
    let c2 = ClassFile::parse(&b).unwrap();
    assert_eq!(c1, c2);
}

#[test]
fn encode_decode_round_trip() {
    // decode(encode(cf)) == cf on a pool exercising every recognized tag.
    let cf = ClassFile {
        minor_version: 3,
        major_version: 52,
        constant_pool: vec![
            ConstantPoolEntry::Utf8String { bytes: b"hello".to_vec() },
            ConstantPoolEntry::Integer(-7),
            ConstantPoolEntry::Float(0x3F80_0000),
            ConstantPoolEntry::Long(-2),
            ConstantPoolEntry::Placeholder,
            ConstantPoolEntry::Double(0x3FF0_0000_0000_0000),
            ConstantPoolEntry::Placeholder,
            ConstantPoolEntry::ClassRef(1),
            ConstantPoolEntry::StringRef(1),
            ConstantPoolEntry::FieldRef(8, 11),
            ConstantPoolEntry::MethodRef(8, 11),
            ConstantPoolEntry::InterfaceMethodRef(8, 11),
            ConstantPoolEntry::NameAndType(1, 1),
            ConstantPoolEntry::MethodHandle(5, 10),
            ConstantPoolEntry::MethodType(1),
            ConstantPoolEntry::Dynamic(0, 13),
            ConstantPoolEntry::InvokeDynamic(0, 13),
            ConstantPoolEntry::Module(1),
            ConstantPoolEntry::Package(1),
        ],
        access_flags: 0x21,
        this_class: 8,
        super_class: 0,
        interface_count: 2,
        interface_table: vec![8, 8],
        field_count: 0,
        field_table: vec![],
        method_count: 0,
        method_table: vec![],
        attribute_count: 0,
        attribute_table: vec![],
    };
    let bytes = encode_class_file(&cf);
    let back = ClassFile::parse(&bytes).expect("re-encoded class must parse");
    assert_eq!(back, cf);
}

#[test]
fn opcode_lengths_total() {
    // Every byte value has a defined instruction length.
    let mut op: u16 = 0;
    while op <= 255 {
        let l = instruction_length(op as u8);
        assert!(l <= 4);
        op += 1;
    }
    assert_eq!(instruction_length(0x00), 0);
    assert_eq!(instruction_length(0x10), 1);
    assert_eq!(instruction_length(0x11), 2);
    assert_eq!(instruction_length(0xB2), 2);
    assert_eq!(instruction_length(0xB9), 4);
    assert_eq!(instruction_length(0xC5), 3);
    assert_eq!(instruction_length(0xAA), 0);
    assert_eq!(instruction_length(0xFF), 0);
}

#[test]
fn opcode_mnemonics() {
    assert_eq!(opcode_mnemonic(0x00), "nop");
    assert_eq!(opcode_mnemonic(0xB2), "getstatic");
    assert_eq!(opcode_mnemonic(0xB1), "return");
    assert_eq!(opcode_mnemonic(0xFF), "?");
}

#[test]
fn manifest_with_crlf() {
    let m = parse_manifest(&b"Main-Class: A\r\n".to_vec()).expect("manifest parses");
    assert_eq!(m.get("Main-Class"), Some(&String::from("A")));
}

#[test]
fn manifest_lines_and_overrides() {
    let text = b"Key-A: one\n\nno colon line\nKey-B:\ttwo \nKey-A: three\n".to_vec();
    let m = parse_manifest(&text).expect("manifest parses");
    assert_eq!(m.get("Key-A"), Some(&String::from("three")));
    assert_eq!(m.get("Key-B"), Some(&String::from("two")));
    assert_eq!(m.get("no colon line"), None);
}

#[test]
fn manifest_invalid_utf8_fails() {
    assert!(parse_manifest(&vec![0xFF, 0xFE, b'\n']).is_err());
}

#[test]
fn string_map_insert_overrides() {
    let mut m: StringMap<u32> = StringMap::new();
    assert_eq!(m.len(), 0);
    m.insert(String::from("a"), 1);
    m.insert(String::from("b"), 2);
    m.insert(String::from("a"), 3);
    assert_eq!(m.len(), 2);
    assert_eq!(m.get("a"), Some(&3));
    assert_eq!(m.get("b"), Some(&2));
    assert_eq!(m.get("c"), None);
}
