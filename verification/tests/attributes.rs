use minijvm::attribute::{Attribute, ElementValue};
use minijvm::class_file::{AttributeInfo, ClassFile, ConstantPoolEntry};

fn utf8(s: &str) -> ConstantPoolEntry {
    ConstantPoolEntry::Utf8String { bytes: s.as_bytes().to_vec() }
}

/// A class file whose pool holds the attribute names under test.
fn cf_with_names() -> ClassFile {
    ClassFile {
        minor_version: 0,
        major_version: 52,
        constant_pool: vec![
            utf8("ConstantValue"),
            utf8("Exceptions"),
            utf8("Signature"),
            utf8("RuntimeVisibleAnnotations"),
            utf8("LineNumberTable"),
            utf8("MethodParameters"),
            utf8("AnnotationDefault"),
        ],
        access_flags: 0,
        this_class: 0,
        super_class: 0,
        interface_count: 0,
        interface_table: vec![],
        field_count: 0,
        field_table: vec![],
        method_count: 0,
        method_table: vec![],
        attribute_count: 0,
        attribute_table: vec![],
    }
}

fn raw(name_index: u16, payload: &[u8]) -> AttributeInfo {
    AttributeInfo {
        attribute_name_index: name_index,
        attribute_length: payload.len() as u32,
        info: payload.to_vec(),
    }
}

#[test]
fn constant_value_attribute() {
    let cf = cf_with_names();
    match Attribute::new(&cf, &raw(1, &[0x00, 0x07])) {
        Some(Attribute::ConstantValue(v)) => assert_eq!(v.constantvalue_index, 7),
        other => panic!("unexpected decode: {:?}", other),
    }
    // Trailing bytes make the payload malformed.
    assert!(Attribute::new(&cf, &raw(1, &[0x00, 0x07, 0x00])).is_none());
}

#[test]
fn exceptions_attribute() {
    let cf = cf_with_names();
    match Attribute::new(&cf, &raw(2, &[0x00, 0x02, 0x00, 0x01, 0x00, 0x05])) {
        Some(Attribute::Exceptions(e)) => {
            assert_eq!(e.number_of_exceptions, 2);
            assert_eq!(e.exception_index_table, vec![1, 5]);
        },
        other => panic!("unexpected decode: {:?}", other),
    }
}

#[test]
fn signature_attribute() {
    let cf = cf_with_names();
    match Attribute::new(&cf, &raw(3, &[0x00, 0x04])) {
        Some(Attribute::Signature(s)) => assert_eq!(s.signature_index, 4),
        other => panic!("unexpected decode: {:?}", other),
    }
}

#[test]
fn nested_annotations_decode() {
    // One annotation whose single element value is an array holding an int
    // constant and a nested annotation.
    let payload: Vec<u8> = vec![
        0x00, 0x01, // num_annotations
        0x00, 0x01, // type_index
        0x00, 0x01, // num_element_value_pairs
        0x00, 0x05, // element_name_index
        b'[', 0x00, 0x02, // array of two
        b'I', 0x00, 0x03, // int constant
        b'@', 0x00, 0x01, 0x00, 0x00, // nested annotation, zero pairs
    ];
    let cf = cf_with_names();
    match Attribute::new(&cf, &raw(4, &payload)) {
        Some(Attribute::RuntimeVisibleAnnotations(a)) => {
            assert_eq!(a.num_annotations, 1);
            let ann = &a.annotations[0];
            assert_eq!(ann.type_index, 1);
            assert_eq!(ann.element_value_pairs.len(), 1);
            let pair = &ann.element_value_pairs[0];
            assert_eq!(pair.element_name_index, 5);
            match &pair.value {
                ElementValue::Array { num_values, element_value } => {
                    assert_eq!(*num_values, 2);
                    assert_eq!(element_value[0], ElementValue::Int { const_value_index: 3 });
                    match &element_value[1] {
                        ElementValue::AnnotationType { annotation_value } => {
                            assert_eq!(annotation_value.type_index, 1);
                            assert_eq!(annotation_value.element_value_pairs.len(), 0);
                        },
                        other => panic!("unexpected element: {:?}", other),
                    }
                },
                other => panic!("unexpected element: {:?}", other),
            }
        },
        other => panic!("unexpected decode: {:?}", other),
    }
}

#[test]
fn annotation_default_attribute() {
    let cf = cf_with_names();
    match Attribute::new(&cf, &raw(7, &[b's', 0x00, 0x02])) {
        Some(Attribute::AnnotationDefault(d)) => {
            assert_eq!(d.default_value, ElementValue::Str { const_value_index: 2 });
        },
        other => panic!("unexpected decode: {:?}", other),
    }
    // A truncated element value is dropped.
    assert!(Attribute::new(&cf, &raw(7, &[b's', 0x00])).is_none());
}

#[test]
fn line_number_table_attribute() {
    let cf = cf_with_names();
    match Attribute::new(&cf, &raw(5, &[0x00, 0x01, 0x00, 0x00, 0x00, 0x09])) {
        Some(Attribute::LineNumberTable(t)) => {
            assert_eq!(t.line_number_table_length, 1);
            assert_eq!(t.parameters[0].start_pc, 0);
            assert_eq!(t.parameters[0].line_number, 9);
        },
        other => panic!("unexpected decode: {:?}", other),
    }
}

#[test]
fn method_parameters_attribute() {
    let cf = cf_with_names();
    match Attribute::new(&cf, &raw(6, &[0x01, 0x00, 0x03, 0x00, 0x10])) {
        Some(Attribute::MethodParameters(p)) => {
            assert_eq!(p.parameters_count, 1);
            assert_eq!(p.parameters[0].name_index, 3);
            assert_eq!(p.parameters[0].access_flags, 0x10);
        },
        other => panic!("unexpected decode: {:?}", other),
    }
}

#[test]
fn unresolvable_name_index_gives_nothing() {
    let cf = cf_with_names();
    assert!(Attribute::new(&cf, &raw(0, &[])).is_none());
    assert!(Attribute::new(&cf, &raw(99, &[])).is_none());
}
