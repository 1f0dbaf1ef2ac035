use std::io::Write;

use minijvm::attribute::Attribute;
use minijvm::class::Class;
use minijvm::class_file::{AttributeInfo, ClassFile, ConstantPoolEntry, MethodInfo};
use minijvm::encode::encode_class_file;
use minijvm::errors::{ArchiveError, RuntimeFault};
use minijvm::jar::Jar;
use minijvm::method::Method;
use minijvm::vm::{Executor, TraceEvent, VirtualMachine};

fn be16(v: u16) -> Vec<u8> {
    vec![(v >> 8) as u8, (v & 0xFF) as u8]
}

fn be32(v: u32) -> Vec<u8> {
    vec![(v >> 24) as u8, (v >> 16) as u8, (v >> 8) as u8, (v & 0xFF) as u8]
}

fn utf8(s: &str) -> ConstantPoolEntry {
    ConstantPoolEntry::Utf8String { bytes: s.as_bytes().to_vec() }
}

fn code_payload(max_stack: u16, max_locals: u16, code: &[u8]) -> Vec<u8> {
    let mut b = be16(max_stack);
    b.extend(be16(max_locals));
    b.extend(be32(code.len() as u32));
    b.extend_from_slice(code);
    b.extend(be16(0));
    b.extend(be16(0));
    b
}

/// A class whose `main` runs `getstatic #2; return` and whose `<init>` is a
/// bare `return`, with the pool wiring `#2` to a symbolic field reference.
fn hello_class_file() -> ClassFile {
    let pool = vec![
        utf8("java/lang/System"),
        ConstantPoolEntry::FieldRef(3, 4),
        ConstantPoolEntry::ClassRef(1),
        ConstantPoolEntry::NameAndType(5, 6),
        utf8("out"),
        utf8("Ljava/io/PrintStream;"),
        utf8("Code"),
        utf8("main"),
        utf8("([Ljava/lang/String;)V"),
        utf8("<init>"),
        utf8("()V"),
    ];
    let main_code = code_payload(2, 1, &[0xB2, 0x00, 0x02, 0xB1]);
    let init_code = code_payload(1, 1, &[0xB1]);
    let main_info = MethodInfo {
        access_flags: 9,
        name_index: 8,
        descriptor_index: 9,
        attributes_count: 1,
        attributes: vec![AttributeInfo {
            attribute_name_index: 7,
            attribute_length: main_code.len() as u32,
            info: main_code,
        }],
    };
    let init_info = MethodInfo {
        access_flags: 1,
        name_index: 10,
        descriptor_index: 11,
        attributes_count: 1,
        attributes: vec![AttributeInfo {
            attribute_name_index: 7,
            attribute_length: init_code.len() as u32,
            info: init_code,
        }],
    };
    ClassFile {
        minor_version: 0,
        major_version: 52,
        constant_pool: pool,
        access_flags: 0x21,
        this_class: 3,
        super_class: 0,
        interface_count: 0,
        interface_table: vec![],
        field_count: 0,
        field_table: vec![],
        method_count: 2,
        method_table: vec![init_info, main_info],
        attribute_count: 0,
        attribute_table: vec![],
    }
}

fn hello_bytes() -> Vec<u8> {
    encode_class_file(&hello_class_file())
}

fn jar_bytes(main_class: &str, class_name: &str, class_bytes: &[u8]) -> Vec<u8> {
    let opts = zip::write::SimpleFileOptions::default()
        .compression_method(zip::CompressionMethod::Stored);
    let mut zw = zip::write::ZipWriter::new(std::io::Cursor::new(Vec::new()));
    zw.start_file("META-INF/MANIFEST.MF", opts).unwrap();
    zw.write_all(format!("Main-Class: {}\r\n", main_class).as_bytes()).unwrap();
    zw.start_file(class_name, opts).unwrap();
    zw.write_all(class_bytes).unwrap();
    zw.finish().unwrap().into_inner()
}

#[test]
fn hello_round_trips_and_loads() {
    let cf = hello_class_file();
    let bytes = hello_bytes();
    let back = ClassFile::parse(&bytes).expect("encoded class parses");
    assert_eq!(back, cf);
    let c = Class::new(&bytes).expect("class loads");
    assert!(c.methods.get("main").is_some());
    assert!(c.methods.get("<init>").is_some());
    assert!(c.methods.get("clinit").is_none());
    assert_eq!(c.fields.len(), 0);
}

#[test]
fn code_attribute_decodes() {
    let bytes = hello_bytes();
    let c = Class::new(&bytes).unwrap();
    let m: &Method = c.methods.get("main").unwrap();
    assert_eq!(m.descriptor, "([Ljava/lang/String;)V");
    assert_eq!(m.attributes.len(), 1);
    match &m.attributes[0] {
        Attribute::Code(code) => {
            assert_eq!(code.max_stack, 2);
            assert_eq!(code.max_locals, 1);
            assert_eq!(code.code, vec![0xB2, 0x00, 0x02, 0xB1]);
            assert_eq!(code.exception_table.len(), 0);
        },
        other => panic!("expected a code attribute, got {:?}", other),
    }
}

#[test]
fn unknown_attribute_is_omitted() {
    // Name "Synthetic": the raw record is retained, the decoded list omits
    // it, and no error is raised.
    let mut cf = hello_class_file();
    cf.constant_pool.push(utf8("Synthetic"));
    cf.method_table[1].attributes.push(AttributeInfo {
        attribute_name_index: 12,
        attribute_length: 0,
        info: vec![],
    });
    cf.method_table[1].attributes_count = 2;
    let bytes = encode_class_file(&cf);
    let c = Class::new(&bytes).unwrap();
    let m = c.methods.get("main").unwrap();
    assert_eq!(m.attributes.len(), 1);
    assert!(matches!(m.attributes[0], Attribute::Code(_)));
    assert_eq!(c.class_file.method_table[1].attributes.len(), 2);
}

#[test]
fn malformed_recognized_attribute_is_dropped() {
    // A recognized name with a truncated payload: the attribute is dropped,
    // the owning method still loads, and no error propagates.
    let mut cf = hello_class_file();
    cf.method_table[1].attributes[0].info.truncate(3);
    cf.method_table[1].attributes[0].attribute_length = 3;
    let bytes = encode_class_file(&cf);
    let c = Class::new(&bytes).unwrap();
    let m = c.methods.get("main").unwrap();
    assert_eq!(m.attributes.len(), 0);
}

#[test]
fn deprecated_attribute_empty_payload() {
    let mut cf = hello_class_file();
    cf.constant_pool.push(utf8("Deprecated"));
    cf.method_table[1].attributes.push(AttributeInfo {
        attribute_name_index: 12,
        attribute_length: 0,
        info: vec![],
    });
    cf.method_table[1].attributes_count = 2;
    let bytes = encode_class_file(&cf);
    let c = Class::new(&bytes).unwrap();
    let m = c.methods.get("main").unwrap();
    assert_eq!(m.attributes.len(), 2);
    assert!(matches!(m.attributes[1], Attribute::Deprecated(_)));
    // With a nonempty payload the empty attribute no longer parses.
    let raw = AttributeInfo { attribute_name_index: 12, attribute_length: 1, info: vec![0] };
    assert!(Attribute::new(&c.class_file, &raw).is_none());
}

#[test]
fn dispatcher_traces_getstatic() {
    let bytes = hello_bytes();
    let c = Class::new(&bytes).unwrap();
    let ex = Executor {};
    let (trace, result) = ex.execute_method(&c, c.methods.get("main").unwrap());
    assert!(result.is_ok());
    assert_eq!(trace.len(), 5);
    assert_eq!(
        trace[0],
        TraceEvent::MethodEntry {
            name: String::from("main"),
            descriptor: String::from("([Ljava/lang/String;)V"),
        }
    );
    assert_eq!(trace[1], TraceEvent::FrameSizes { max_stack: 2, max_locals: 1 });
    assert_eq!(trace[2], TraceEvent::Instruction { pc: 0, opcode: 0xB2 });
    assert_eq!(
        trace[3],
        TraceEvent::StaticField {
            class_name: String::from("java/lang/System"),
            field_name: String::from("out"),
            descriptor: String::from("Ljava/io/PrintStream;"),
        }
    );
    assert_eq!(trace[4], TraceEvent::Instruction { pc: 3, opcode: 0xB1 });
}

#[test]
fn dispatcher_faults_on_undefined_opcode() {
    let mut cf = hello_class_file();
    cf.method_table[1].attributes[0].info = code_payload(1, 1, &[0xFF]);
    cf.method_table[1].attributes[0].attribute_length = 13;
    let bytes = encode_class_file(&cf);
    let c = Class::new(&bytes).unwrap();
    let ex = Executor {};
    let (trace, result) = ex.execute_method(&c, c.methods.get("main").unwrap());
    assert_eq!(result, Err(RuntimeFault::InvalidOpcode(0, 0xFF)));
    assert_eq!(trace[2], TraceEvent::Instruction { pc: 0, opcode: 0xFF });
}

#[test]
fn dispatcher_faults_on_bad_pool_reference() {
    let mut cf = hello_class_file();
    cf.method_table[1].attributes[0].info = code_payload(1, 1, &[0xB2, 0x00, 0x63, 0xB1]);
    let bytes = encode_class_file(&cf);
    let c = Class::new(&bytes).unwrap();
    let ex = Executor {};
    let (_, result) = ex.execute_method(&c, c.methods.get("main").unwrap());
    assert_eq!(result, Err(RuntimeFault::ConstantPoolMismatch));
}

#[test]
fn dispatcher_faults_on_missing_operands() {
    let mut cf = hello_class_file();
    cf.method_table[1].attributes[0].info = code_payload(1, 1, &[0xB2]);
    cf.method_table[1].attributes[0].attribute_length = 13;
    let bytes = encode_class_file(&cf);
    let c = Class::new(&bytes).unwrap();
    let ex = Executor {};
    let (_, result) = ex.execute_method(&c, c.methods.get("main").unwrap());
    assert_eq!(result, Err(RuntimeFault::InvalidOpcode(0, 0xB2)));
}

#[test]
fn method_without_code_is_skipped() {
    let mut cf = hello_class_file();
    cf.method_table[1].attributes.clear();
    cf.method_table[1].attributes_count = 0;
    let bytes = encode_class_file(&cf);
    let c = Class::new(&bytes).unwrap();
    let ex = Executor {};
    let (trace, result) = ex.execute_method(&c, c.methods.get("main").unwrap());
    assert!(result.is_ok());
    assert_eq!(trace.len(), 2);
    assert_eq!(trace[1], TraceEvent::MissingCode { name: String::from("main") });
}

#[test]
fn jar_load_and_run() {
    let jb = jar_bytes("Hello", "Hello.class", &hello_bytes());
    let jar = Jar::new(String::from("test.jar"), jb).expect("archive loads");
    assert_eq!(jar.manifest.get("Main-Class"), Some(&String::from("Hello")));
    assert!(jar.get_main_class().is_some());
    let mut vm = VirtualMachine::new(jar).expect("entry class found");
    let (trace, result) = vm.run();
    assert!(result.is_ok());
    // <init> runs first, then main.
    assert_eq!(
        trace[0],
        TraceEvent::MethodEntry { name: String::from("<init>"), descriptor: String::from("()V") }
    );
    assert!(trace.iter().any(|e| matches!(e, TraceEvent::StaticField { .. })));
    assert!(vm.main_jar.classes.get("Hello.class").unwrap().initialized);
}

#[test]
fn initialized_flag_set_once() {
    let jb = jar_bytes("Hello", "Hello.class", &hello_bytes());
    let jar = Jar::new(String::from("test.jar"), jb).unwrap();
    let mut vm = VirtualMachine::new(jar).unwrap();
    let (trace1, r1) = vm.run();
    assert!(r1.is_ok());
    let init_runs_1 = trace1
        .iter()
        .filter(|e| matches!(e, TraceEvent::MethodEntry { name, .. } if name == "<init>"))
        .count();
    assert_eq!(init_runs_1, 1);
    assert!(vm.main_jar.classes.get("Hello.class").unwrap().initialized);
    let (trace2, r2) = vm.run();
    assert!(r2.is_ok());
    let init_runs_2 = trace2
        .iter()
        .filter(|e| matches!(e, TraceEvent::MethodEntry { name, .. } if name == "<init>"))
        .count();
    assert_eq!(init_runs_2, 0);
    assert!(vm.main_jar.classes.get("Hello.class").unwrap().initialized);
}

#[test]
fn missing_init_is_tolerated_missing_main_is_fatal() {
    let mut cf = hello_class_file();
    cf.method_table.remove(0);
    cf.method_count = 1;
    let jb = jar_bytes("Hello", "Hello.class", &encode_class_file(&cf));
    let jar = Jar::new(String::from("test.jar"), jb).unwrap();
    let mut vm = VirtualMachine::new(jar).unwrap();
    let (_, result) = vm.run();
    assert!(result.is_ok());

    let mut cf2 = hello_class_file();
    cf2.method_table.pop();
    cf2.method_count = 1;
    let jb2 = jar_bytes("Hello", "Hello.class", &encode_class_file(&cf2));
    let jar2 = Jar::new(String::from("test.jar"), jb2).unwrap();
    let mut vm2 = VirtualMachine::new(jar2).unwrap();
    let (_, result2) = vm2.run();
    assert_eq!(result2, Err(RuntimeFault::NoMainMethod));
}

#[test]
fn archive_without_manifest_fails() {
    let opts = zip::write::SimpleFileOptions::default()
        .compression_method(zip::CompressionMethod::Stored);
    let mut zw = zip::write::ZipWriter::new(std::io::Cursor::new(Vec::new()));
    zw.start_file("Hello.class", opts).unwrap();
    zw.write_all(&hello_bytes()).unwrap();
    let jb = zw.finish().unwrap().into_inner();
    assert_eq!(
        Jar::new(String::from("t.jar"), jb).err(),
        Some(ArchiveError::ManifestMissing)
    );
}

#[test]
fn garbage_bytes_are_not_an_archive() {
    assert_eq!(
        Jar::new(String::from("t.jar"), vec![1, 2, 3, 4]).err(),
        Some(ArchiveError::NotAnArchive)
    );
}

#[test]
fn broken_class_in_archive_is_skipped() {
    let jb = jar_bytes("Hello", "Hello.class", &[0xDE, 0xAD]);
    let jar = Jar::new(String::from("t.jar"), jb).expect("archive still loads");
    assert!(jar.get_main_class().is_none());
    assert!(VirtualMachine::new(jar).is_none());
}
