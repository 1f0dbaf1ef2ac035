use vstd::prelude::*;

use crate::class_file::{
    spec_parse_attribute_list, SpecAttributeInfo, SpecConstantPoolEntry,
};
use crate::errors::DecodeError;
use crate::parse::spec_pool_string;
use crate::reader::{spec_read_bytes, spec_read_u16, spec_read_u32, spec_read_u8};

verus! {

// The typed attribute family. Every attribute is stored raw as an
// `AttributeInfo`; decoding resolves the name index to a string and
// dispatches on it. Unknown names are preserved raw but yield no typed
// attribute; a recognized attribute whose payload does not parse, or does
// not consume its payload exactly, is dropped.

#[derive(Debug, Clone, PartialEq, Eq)]
pub struct AttributeConstantValue {
    pub constantvalue_index: u16,
}

impl DeepView for AttributeConstantValue {
    type V = AttributeConstantValue;

    open spec fn deep_view(&self) -> AttributeConstantValue {
        *self
    }
}

#[derive(Debug, Clone, PartialEq, Eq)]
pub struct ExceptionTable {
    pub start_pc: u16,
    pub end_pc: u16,
    pub handler_pc: u16,
    pub catch_type: u16,
}

impl DeepView for ExceptionTable {
    type V = ExceptionTable;

    open spec fn deep_view(&self) -> ExceptionTable {
        *self
    }
}

/// The attribute carrying a method's bytecode, its stack and locals sizing,
/// its exception table, and nested raw attributes.
#[derive(Debug, Clone, PartialEq, Eq)]
pub struct AttributeCode {
    pub max_stack: u16,
    pub max_locals: u16,
    pub code_length: u32,
    pub code: Vec<u8>,
    pub exception_table_length: u16,
    pub exception_table: Vec<ExceptionTable>,
    pub attributes_count: u16,
    pub attributes: Vec<crate::class_file::AttributeInfo>,
}

pub struct SpecAttributeCode {
    pub max_stack: u16,
    pub max_locals: u16,
    pub code_length: u32,
    pub code: Seq<u8>,
    pub exception_table_length: u16,
    pub exception_table: Seq<ExceptionTable>,
    pub attributes_count: u16,
    pub attributes: Seq<SpecAttributeInfo>,
}

impl DeepView for AttributeCode {
    type V = SpecAttributeCode;

    open spec fn deep_view(&self) -> SpecAttributeCode {
        SpecAttributeCode {
            max_stack: self.max_stack,
            max_locals: self.max_locals,
            code_length: self.code_length,
            code: self.code.deep_view(),
            exception_table_length: self.exception_table_length,
            exception_table: self.exception_table.deep_view(),
            attributes_count: self.attributes_count,
            attributes: self.attributes.deep_view(),
        }
    }
}

#[derive(Debug, Clone, PartialEq, Eq)]
pub struct AttributeException {
    pub number_of_exceptions: u16,
    pub exception_index_table: Vec<u16>,
}

pub struct SpecAttributeException {
    pub number_of_exceptions: u16,
    pub exception_index_table: Seq<u16>,
}

impl DeepView for AttributeException {
    type V = SpecAttributeException;

    open spec fn deep_view(&self) -> SpecAttributeException {
        SpecAttributeException {
            number_of_exceptions: self.number_of_exceptions,
            exception_index_table: self.exception_index_table.deep_view(),
        }
    }
}

/// An annotation element value: a tagged union over one-character tags, with
/// unbounded recursion through nested annotations and arrays.
#[derive(Debug, PartialEq, Eq)]
pub enum ElementValue {
    Byte { const_value_index: u16 },
    Char { const_value_index: u16 },
    Double { const_value_index: u16 },
    Float { const_value_index: u16 },
    Int { const_value_index: u16 },
    Long { const_value_index: u16 },
    Short { const_value_index: u16 },
    Boolean { const_value_index: u16 },
    Str { const_value_index: u16 },
    Enum { type_name_index: u16, const_name_index: u16 },
    Class { class_info_index: u16 },
    AnnotationType { annotation_value: Annotation },
    Array { num_values: u16, element_value: Vec<ElementValue> },
}

pub enum SpecElementValue {
    Byte { const_value_index: u16 },
    Char { const_value_index: u16 },
    Double { const_value_index: u16 },
    Float { const_value_index: u16 },
    Int { const_value_index: u16 },
    Long { const_value_index: u16 },
    Short { const_value_index: u16 },
    Boolean { const_value_index: u16 },
    Str { const_value_index: u16 },
    Enum { type_name_index: u16, const_name_index: u16 },
    Class { class_info_index: u16 },
    AnnotationType { annotation_value: SpecAnnotation },
    Array { num_values: u16, element_value: Seq<SpecElementValue> },
}

#[derive(Debug, PartialEq, Eq)]
pub struct ElementValuePair {
    pub element_name_index: u16,
    pub value: ElementValue,
}

pub struct SpecElementValuePair {
    pub element_name_index: u16,
    pub value: SpecElementValue,
}

#[derive(Debug, PartialEq, Eq)]
pub struct Annotation {
    pub type_index: u16,
    pub num_element_value_pairs: u16,
    pub element_value_pairs: Vec<ElementValuePair>,
}

pub struct SpecAnnotation {
    pub type_index: u16,
    pub num_element_value_pairs: u16,
    pub element_value_pairs: Seq<SpecElementValuePair>,
}

pub open spec fn spec_element_value_view(e: ElementValue) -> SpecElementValue
    decreases e,
{
    match e {
        ElementValue::Byte { const_value_index } => SpecElementValue::Byte { const_value_index },
        ElementValue::Char { const_value_index } => SpecElementValue::Char { const_value_index },
        ElementValue::Double { const_value_index } => SpecElementValue::Double { const_value_index },
        ElementValue::Float { const_value_index } => SpecElementValue::Float { const_value_index },
        ElementValue::Int { const_value_index } => SpecElementValue::Int { const_value_index },
        ElementValue::Long { const_value_index } => SpecElementValue::Long { const_value_index },
        ElementValue::Short { const_value_index } => SpecElementValue::Short { const_value_index },
        ElementValue::Boolean { const_value_index } => SpecElementValue::Boolean {
            const_value_index,
        },
        ElementValue::Str { const_value_index } => SpecElementValue::Str { const_value_index },
        ElementValue::Enum { type_name_index, const_name_index } => SpecElementValue::Enum {
            type_name_index,
            const_name_index,
        },
        ElementValue::Class { class_info_index } => SpecElementValue::Class { class_info_index },
        ElementValue::AnnotationType { annotation_value } => SpecElementValue::AnnotationType {
            annotation_value: spec_annotation_view(annotation_value),
        },
        ElementValue::Array { num_values, element_value } => SpecElementValue::Array {
            num_values,
            element_value: spec_element_value_seq_view(element_value@),
        },
    }
}

pub open spec fn spec_element_value_seq_view(s: Seq<ElementValue>) -> Seq<SpecElementValue>
    decreases s,
{
    if s.len() == 0 {
        Seq::empty()
    } else {
        seq![spec_element_value_view(s[0])] + spec_element_value_seq_view(s.drop_first())
    }
}

pub open spec fn spec_element_value_pair_view(p: ElementValuePair) -> SpecElementValuePair
    decreases p,
{
    SpecElementValuePair {
        element_name_index: p.element_name_index,
        value: spec_element_value_view(p.value),
    }
}

pub open spec fn spec_element_value_pair_seq_view(s: Seq<ElementValuePair>) -> Seq<
    SpecElementValuePair,
>
    decreases s,
{
    if s.len() == 0 {
        Seq::empty()
    } else {
        seq![spec_element_value_pair_view(s[0])] + spec_element_value_pair_seq_view(s.drop_first())
    }
}

pub open spec fn spec_annotation_view(a: Annotation) -> SpecAnnotation
    decreases a,
{
    SpecAnnotation {
        type_index: a.type_index,
        num_element_value_pairs: a.num_element_value_pairs,
        element_value_pairs: spec_element_value_pair_seq_view(a.element_value_pairs@),
    }
}

impl DeepView for ElementValue {
    type V = SpecElementValue;

    open spec fn deep_view(&self) -> SpecElementValue {
        spec_element_value_view(*self)
    }
}

impl DeepView for ElementValuePair {
    type V = SpecElementValuePair;

    open spec fn deep_view(&self) -> SpecElementValuePair {
        spec_element_value_pair_view(*self)
    }
}

impl DeepView for Annotation {
    type V = SpecAnnotation;

    open spec fn deep_view(&self) -> SpecAnnotation {
        spec_annotation_view(*self)
    }
}

#[derive(Debug, PartialEq, Eq)]
pub struct AttributeRuntimeVisibleAnnotations {
    pub num_annotations: u16,
    pub annotations: Vec<Annotation>,
}

pub struct SpecAttributeRuntimeVisibleAnnotations {
    pub num_annotations: u16,
    pub annotations: Seq<SpecAnnotation>,
}

impl DeepView for AttributeRuntimeVisibleAnnotations {
    type V = SpecAttributeRuntimeVisibleAnnotations;

    open spec fn deep_view(&self) -> SpecAttributeRuntimeVisibleAnnotations {
        SpecAttributeRuntimeVisibleAnnotations {
            num_annotations: self.num_annotations,
            annotations: self.annotations.deep_view(),
        }
    }
}

#[derive(Debug, PartialEq, Eq)]
pub struct AttributeRuntimeInvisibleAnnotations {
    pub num_annotations: u16,
    pub annotations: Vec<Annotation>,
}

pub struct SpecAttributeRuntimeInvisibleAnnotations {
    pub num_annotations: u16,
    pub annotations: Seq<SpecAnnotation>,
}

impl DeepView for AttributeRuntimeInvisibleAnnotations {
    type V = SpecAttributeRuntimeInvisibleAnnotations;

    open spec fn deep_view(&self) -> SpecAttributeRuntimeInvisibleAnnotations {
        SpecAttributeRuntimeInvisibleAnnotations {
            num_annotations: self.num_annotations,
            annotations: self.annotations.deep_view(),
        }
    }
}

#[derive(Debug, Clone, PartialEq, Eq)]
pub struct AttributeSignature {
    pub signature_index: u16,
}

impl DeepView for AttributeSignature {
    type V = AttributeSignature;

    open spec fn deep_view(&self) -> AttributeSignature {
        *self
    }
}

/// The empty attribute: its payload has length zero.
#[derive(Debug, Clone, PartialEq, Eq)]
pub struct AttributeDeprecated {}

impl DeepView for AttributeDeprecated {
    type V = AttributeDeprecated;

    open spec fn deep_view(&self) -> AttributeDeprecated {
        *self
    }
}

#[derive(Debug, PartialEq, Eq)]
pub struct AttributeAnnotationDefault {
    pub default_value: ElementValue,
}

pub struct SpecAttributeAnnotationDefault {
    pub default_value: SpecElementValue,
}

impl DeepView for AttributeAnnotationDefault {
    type V = SpecAttributeAnnotationDefault;

    open spec fn deep_view(&self) -> SpecAttributeAnnotationDefault {
        SpecAttributeAnnotationDefault { default_value: self.default_value.deep_view() }
    }
}

#[derive(Debug, Clone, Copy, PartialEq, Eq)]
pub struct MethodParameter {
    pub name_index: u16,
    pub access_flags: u16,
}

impl DeepView for MethodParameter {
    type V = MethodParameter;

    open spec fn deep_view(&self) -> MethodParameter {
        *self
    }
}

#[derive(Debug, Clone, PartialEq, Eq)]
pub struct AttributeMethodParameters {
    pub parameters_count: u8,
    pub parameters: Vec<MethodParameter>,
}

pub struct SpecAttributeMethodParameters {
    pub parameters_count: u8,
    pub parameters: Seq<MethodParameter>,
}

impl DeepView for AttributeMethodParameters {
    type V = SpecAttributeMethodParameters;

    open spec fn deep_view(&self) -> SpecAttributeMethodParameters {
        SpecAttributeMethodParameters {
            parameters_count: self.parameters_count,
            parameters: self.parameters.deep_view(),
        }
    }
}

#[derive(Debug, Clone, Copy, PartialEq, Eq)]
pub struct LineNumber {
    pub start_pc: u16,
    pub line_number: u16,
}

impl DeepView for LineNumber {
    type V = LineNumber;

    open spec fn deep_view(&self) -> LineNumber {
        *self
    }
}

#[derive(Debug, Clone, PartialEq, Eq)]
pub struct AttributeLineNumberTable {
    pub line_number_table_length: u16,
    pub parameters: Vec<LineNumber>,
}

pub struct SpecAttributeLineNumberTable {
    pub line_number_table_length: u16,
    pub parameters: Seq<LineNumber>,
}

impl DeepView for AttributeLineNumberTable {
    type V = SpecAttributeLineNumberTable;

    open spec fn deep_view(&self) -> SpecAttributeLineNumberTable {
        SpecAttributeLineNumberTable {
            line_number_table_length: self.line_number_table_length,
            parameters: self.parameters.deep_view(),
        }
    }
}

/// A typed attribute, decoded from its raw record on demand.
#[derive(Debug, PartialEq, Eq)]
pub enum Attribute {
    ConstantValue(AttributeConstantValue),
    Code(AttributeCode),
    Exceptions(AttributeException),
    RuntimeVisibleAnnotations(AttributeRuntimeVisibleAnnotations),
    RuntimeInvisibleAnnotations(AttributeRuntimeInvisibleAnnotations),
    Signature(AttributeSignature),
    Deprecated(AttributeDeprecated),
    AnnotationDefault(AttributeAnnotationDefault),
    MethodParameters(AttributeMethodParameters),
    LineNumberTable(AttributeLineNumberTable),
}

pub enum SpecAttribute {
    ConstantValue(AttributeConstantValue),
    Code(SpecAttributeCode),
    Exceptions(SpecAttributeException),
    RuntimeVisibleAnnotations(SpecAttributeRuntimeVisibleAnnotations),
    RuntimeInvisibleAnnotations(SpecAttributeRuntimeInvisibleAnnotations),
    Signature(AttributeSignature),
    Deprecated(AttributeDeprecated),
    AnnotationDefault(SpecAttributeAnnotationDefault),
    MethodParameters(SpecAttributeMethodParameters),
    LineNumberTable(SpecAttributeLineNumberTable),
}

impl DeepView for Attribute {
    type V = SpecAttribute;

    open spec fn deep_view(&self) -> SpecAttribute {
        match self {
            Attribute::ConstantValue(a) => SpecAttribute::ConstantValue(a.deep_view()),
            Attribute::Code(a) => SpecAttribute::Code(a.deep_view()),
            Attribute::Exceptions(a) => SpecAttribute::Exceptions(a.deep_view()),
            Attribute::RuntimeVisibleAnnotations(a) => SpecAttribute::RuntimeVisibleAnnotations(
                a.deep_view(),
            ),
            Attribute::RuntimeInvisibleAnnotations(a) => SpecAttribute::RuntimeInvisibleAnnotations(
                a.deep_view(),
            ),
            Attribute::Signature(a) => SpecAttribute::Signature(a.deep_view()),
            Attribute::Deprecated(a) => SpecAttribute::Deprecated(a.deep_view()),
            Attribute::AnnotationDefault(a) => SpecAttribute::AnnotationDefault(a.deep_view()),
            Attribute::MethodParameters(a) => SpecAttribute::MethodParameters(a.deep_view()),
            Attribute::LineNumberTable(a) => SpecAttribute::LineNumberTable(a.deep_view()),
        }
    }
}

// Spec-level parsers for the attribute payloads. Positions and errors follow
// the same conventions as the class-file parsers. The recursive element-value
// grammar terminates because every recursive step either moves strictly
// forward in the byte stream or steps to a smaller grammar rank.

/// The bytes left from position `p`, never negative; the measure every
/// recursive parser step decreases.
pub open spec fn spec_remaining(b: Seq<u8>, p: usize) -> int {
    if p <= b.len() {
        b.len() - p
    } else {
        0
    }
}

pub open spec fn spec_parse_element_value(b: Seq<u8>, p: usize) -> Result<
    (SpecElementValue, usize),
    DecodeError,
>
    decreases spec_remaining(b, p), 0int, 0int,
{
    match spec_read_u8(b, p) {
        Err(e) => Err(e),
        Ok((tag, p1)) => match tag {
            66u8 => match spec_read_u16(b, p1) {
                Err(e) => Err(e),
                Ok((v, p2)) => Ok((SpecElementValue::Byte { const_value_index: v }, p2)),
            },
            67u8 => match spec_read_u16(b, p1) {
                Err(e) => Err(e),
                Ok((v, p2)) => Ok((SpecElementValue::Char { const_value_index: v }, p2)),
            },
            68u8 => match spec_read_u16(b, p1) {
                Err(e) => Err(e),
                Ok((v, p2)) => Ok((SpecElementValue::Double { const_value_index: v }, p2)),
            },
            70u8 => match spec_read_u16(b, p1) {
                Err(e) => Err(e),
                Ok((v, p2)) => Ok((SpecElementValue::Float { const_value_index: v }, p2)),
            },
            73u8 => match spec_read_u16(b, p1) {
                Err(e) => Err(e),
                Ok((v, p2)) => Ok((SpecElementValue::Int { const_value_index: v }, p2)),
            },
            74u8 => match spec_read_u16(b, p1) {
                Err(e) => Err(e),
                Ok((v, p2)) => Ok((SpecElementValue::Long { const_value_index: v }, p2)),
            },
            83u8 => match spec_read_u16(b, p1) {
                Err(e) => Err(e),
                Ok((v, p2)) => Ok((SpecElementValue::Short { const_value_index: v }, p2)),
            },
            90u8 => match spec_read_u16(b, p1) {
                Err(e) => Err(e),
                Ok((v, p2)) => Ok((SpecElementValue::Boolean { const_value_index: v }, p2)),
            },
            115u8 => match spec_read_u16(b, p1) {
                Err(e) => Err(e),
                Ok((v, p2)) => Ok((SpecElementValue::Str { const_value_index: v }, p2)),
            },
            101u8 => match spec_read_u16(b, p1) {
                Err(e) => Err(e),
                Ok((v, p2)) => match spec_read_u16(b, p2) {
                    Err(e) => Err(e),
                    Ok((w, p3)) => Ok(
                        (SpecElementValue::Enum { type_name_index: v, const_name_index: w }, p3),
                    ),
                },
            },
            99u8 => match spec_read_u16(b, p1) {
                Err(e) => Err(e),
                Ok((v, p2)) => Ok((SpecElementValue::Class { class_info_index: v }, p2)),
            },
            64u8 => if p1 <= p || p1 > b.len() {
                Err(DecodeError::Truncated(p))
            } else {
                match spec_parse_annotation(b, p1) {
                    Err(e) => Err(e),
                    Ok((a, p2)) => Ok(
                        (SpecElementValue::AnnotationType { annotation_value: a }, p2),
                    ),
                }
            },
            91u8 => match spec_read_u16(b, p1) {
                Err(e) => Err(e),
                Ok((n, p2)) => if p2 <= p || p2 > b.len() {
                    Err(DecodeError::Truncated(p))
                } else {
                    match spec_parse_element_value_list(b, p2, n as int) {
                        Err(e) => Err(e),
                        Ok((s, q)) => Ok(
                            (SpecElementValue::Array { num_values: n, element_value: s }, q),
                        ),
                    }
                },
            },
            _ => Err(DecodeError::UnknownTag(tag, p)),
        },
    }
}

pub open spec fn spec_parse_element_value_list(b: Seq<u8>, p: usize, n: int) -> Result<
    (Seq<SpecElementValue>, usize),
    DecodeError,
>
    decreases spec_remaining(b, p), 1int, n,
{
    if n <= 0 {
        Ok((Seq::empty(), p))
    } else {
        match spec_parse_element_value(b, p) {
            Err(e) => Err(e),
            Ok((v, p2)) => if p2 <= p || p2 > b.len() {
                Err(DecodeError::Truncated(p))
            } else {
                match spec_parse_element_value_list(b, p2, n - 1) {
                    Err(e) => Err(e),
                    Ok((s, q)) => Ok((seq![v] + s, q)),
                }
            },
        }
    }
}

pub open spec fn spec_parse_element_value_pair(b: Seq<u8>, p: usize) -> Result<
    (SpecElementValuePair, usize),
    DecodeError,
>
    decreases spec_remaining(b, p), 0int, 0int,
{
    match spec_read_u16(b, p) {
        Err(e) => Err(e),
        Ok((name_idx, p1)) => if p1 <= p || p1 > b.len() {
            Err(DecodeError::Truncated(p))
        } else {
            match spec_parse_element_value(b, p1) {
            Err(e) => Err(e),
                Ok((v, p2)) => Ok(
                    (SpecElementValuePair { element_name_index: name_idx, value: v }, p2),
                ),
            }
        },
    }
}

pub open spec fn spec_parse_element_value_pair_list(b: Seq<u8>, p: usize, n: int) -> Result<
    (Seq<SpecElementValuePair>, usize),
    DecodeError,
>
    decreases spec_remaining(b, p), 1int, n,
{
    if n <= 0 {
        Ok((Seq::empty(), p))
    } else {
        match spec_parse_element_value_pair(b, p) {
            Err(e) => Err(e),
            Ok((v, p2)) => if p2 <= p || p2 > b.len() {
                Err(DecodeError::Truncated(p))
            } else {
                match spec_parse_element_value_pair_list(b, p2, n - 1) {
                    Err(e) => Err(e),
                    Ok((s, q)) => Ok((seq![v] + s, q)),
                }
            },
        }
    }
}

pub open spec fn spec_parse_annotation(b: Seq<u8>, p: usize) -> Result<
    (SpecAnnotation, usize),
    DecodeError,
>
    decreases spec_remaining(b, p), 0int, 0int,
{
    match spec_read_u16(b, p) {
        Err(e) => Err(e),
        Ok((type_idx, p1)) => match spec_read_u16(b, p1) {
            Err(e) => Err(e),
            Ok((n, p2)) => if p2 <= p || p2 > b.len() {
                Err(DecodeError::Truncated(p))
            } else {
                match spec_parse_element_value_pair_list(b, p2, n as int) {
                Err(e) => Err(e),
                    Ok((s, q)) => Ok(
                        (
                            SpecAnnotation {
                                type_index: type_idx,
                                num_element_value_pairs: n,
                                element_value_pairs: s,
                            },
                            q,
                        ),
                    ),
                }
            },
        },
    }
}

pub open spec fn spec_parse_annotation_list(b: Seq<u8>, p: usize, n: int) -> Result<
    (Seq<SpecAnnotation>, usize),
    DecodeError,
>
    decreases spec_remaining(b, p), 1int, n,
{
    if n <= 0 {
        Ok((Seq::empty(), p))
    } else {
        match spec_parse_annotation(b, p) {
            Err(e) => Err(e),
            Ok((a, p2)) => if p2 <= p || p2 > b.len() {
                Err(DecodeError::Truncated(p))
            } else {
                match spec_parse_annotation_list(b, p2, n - 1) {
                    Err(e) => Err(e),
                    Ok((s, q)) => Ok((seq![a] + s, q)),
                }
            },
        }
    }
}

pub open spec fn spec_parse_exception_entry(b: Seq<u8>, p: usize) -> Result<
    (ExceptionTable, usize),
    DecodeError,
> {
    match spec_read_u16(b, p) {
        Err(e) => Err(e),
        Ok((s0, p1)) => match spec_read_u16(b, p1) {
            Err(e) => Err(e),
            Ok((e0, p2)) => match spec_read_u16(b, p2) {
                Err(e) => Err(e),
                Ok((h0, p3)) => match spec_read_u16(b, p3) {
                    Err(e) => Err(e),
                    Ok((c0, p4)) => Ok(
                        (
                            ExceptionTable {
                                start_pc: s0,
                                end_pc: e0,
                                handler_pc: h0,
                                catch_type: c0,
                            },
                            p4,
                        ),
                    ),
                },
            },
        },
    }
}

pub open spec fn spec_parse_exception_list(b: Seq<u8>, p: usize, n: int) -> Result<
    (Seq<ExceptionTable>, usize),
    DecodeError,
>
    decreases n,
{
    if n <= 0 {
        Ok((Seq::empty(), p))
    } else {
        match spec_parse_exception_entry(b, p) {
            Err(e) => Err(e),
            Ok((x, p2)) => match spec_parse_exception_list(b, p2, n - 1) {
                Err(e) => Err(e),
                Ok((s, q)) => Ok((seq![x] + s, q)),
            },
        }
    }
}

pub open spec fn spec_parse_attribute_code(b: Seq<u8>, p: usize) -> Result<
    (SpecAttributeCode, usize),
    DecodeError,
> {
    match spec_read_u16(b, p) {
        Err(e) => Err(e),
        Ok((max_stack, p1)) => match spec_read_u16(b, p1) {
            Err(e) => Err(e),
            Ok((max_locals, p2)) => match spec_read_u32(b, p2) {
                Err(e) => Err(e),
                Ok((code_len, p3)) => match spec_read_bytes(b, p3, code_len as usize) {
                    Err(e) => Err(e),
                    Ok((code, p4)) => match spec_read_u16(b, p4) {
                        Err(e) => Err(e),
                        Ok((ex_len, p5)) => match spec_parse_exception_list(b, p5, ex_len as int) {
                            Err(e) => Err(e),
                            Ok((ex_tab, p6)) => match spec_read_u16(b, p6) {
                                Err(e) => Err(e),
                                Ok((attr_cnt, p7)) => match spec_parse_attribute_list(
                                    b,
                                    p7,
                                    attr_cnt as int,
                                ) {
                                    Err(e) => Err(e),
                                    Ok((attrs, p8)) => Ok(
                                        (
                                            SpecAttributeCode {
                                                max_stack,
                                                max_locals,
                                                code_length: code_len,
                                                code,
                                                exception_table_length: ex_len,
                                                exception_table: ex_tab,
                                                attributes_count: attr_cnt,
                                                attributes: attrs,
                                            },
                                            p8,
                                        ),
                                    ),
                                },
                            },
                        },
                    },
                },
            },
        },
    }
}

pub open spec fn spec_parse_method_parameter_list(b: Seq<u8>, p: usize, n: int) -> Result<
    (Seq<MethodParameter>, usize),
    DecodeError,
>
    decreases n,
{
    if n <= 0 {
        Ok((Seq::empty(), p))
    } else {
        match spec_read_u16(b, p) {
            Err(e) => Err(e),
            Ok((name_idx, p1)) => match spec_read_u16(b, p1) {
                Err(e) => Err(e),
                Ok((acc, p2)) => match spec_parse_method_parameter_list(b, p2, n - 1) {
                    Err(e) => Err(e),
                    Ok((s, q)) => Ok(
                        (seq![MethodParameter { name_index: name_idx, access_flags: acc }] + s, q),
                    ),
                },
            },
        }
    }
}

pub open spec fn spec_parse_line_number_list(b: Seq<u8>, p: usize, n: int) -> Result<
    (Seq<LineNumber>, usize),
    DecodeError,
>
    decreases n,
{
    if n <= 0 {
        Ok((Seq::empty(), p))
    } else {
        match spec_read_u16(b, p) {
            Err(e) => Err(e),
            Ok((start, p1)) => match spec_read_u16(b, p1) {
                Err(e) => Err(e),
                Ok((line, p2)) => match spec_parse_line_number_list(b, p2, n - 1) {
                    Err(e) => Err(e),
                    Ok((s, q)) => Ok(
                        (seq![LineNumber { start_pc: start, line_number: line }] + s, q),
                    ),
                },
            },
        }
    }
}

/// A sub-decoder result is accepted only when it consumed its payload
/// exactly; a parse error or trailing bytes drop the attribute.
pub open spec fn spec_complete<T>(pr: Result<(T, usize), DecodeError>, len: int) -> Option<T> {
    match pr {
        Ok((v, q)) => if q == len {
            Some(v)
        } else {
            None
        },
        Err(_) => None,
    }
}

/// Typed decoding of one raw attribute against a constant pool: resolve the
/// name index to a string, dispatch on it, and require the payload to be
/// consumed exactly. Unknown names and malformed payloads both yield `None`.
pub open spec fn spec_decode_attribute(
    pool: Seq<SpecConstantPoolEntry>,
    ai: SpecAttributeInfo,
) -> Option<SpecAttribute> {
    match spec_pool_string(pool, ai.attribute_name_index as int) {
        None => None,
        Some(name) => spec_decode_attribute_named(name, ai.info),
    }
}

pub open spec fn spec_decode_attribute_named(name: Seq<char>, info: Seq<u8>) -> Option<
    SpecAttribute,
> {
    if name == "ConstantValue"@ {
        match spec_complete(spec_read_u16(info, 0), info.len() as int) {
            Some(v) => Some(
                SpecAttribute::ConstantValue(AttributeConstantValue { constantvalue_index: v }),
            ),
            None => None,
        }
    } else if name == "Code"@ {
        match spec_complete(spec_parse_attribute_code(info, 0), info.len() as int) {
            Some(v) => Some(SpecAttribute::Code(v)),
            None => None,
        }
    } else if name == "Exceptions"@ {
        match spec_complete(spec_parse_attribute_exceptions(info, 0), info.len() as int) {
            Some(v) => Some(SpecAttribute::Exceptions(v)),
            None => None,
        }
    } else if name == "RuntimeVisibleAnnotations"@ {
        match spec_complete(spec_parse_annotations_payload(info, 0), info.len() as int) {
            Some((n, s)) => Some(
                SpecAttribute::RuntimeVisibleAnnotations(
                    SpecAttributeRuntimeVisibleAnnotations {
                        num_annotations: n,
                        annotations: s,
                    },
                ),
            ),
            None => None,
        }
    } else if name == "RuntimeInvisibleAnnotations"@ {
        match spec_complete(spec_parse_annotations_payload(info, 0), info.len() as int) {
            Some((n, s)) => Some(
                SpecAttribute::RuntimeInvisibleAnnotations(
                    SpecAttributeRuntimeInvisibleAnnotations {
                        num_annotations: n,
                        annotations: s,
                    },
                ),
            ),
            None => None,
        }
    } else if name == "Signature"@ {
        match spec_complete(spec_read_u16(info, 0), info.len() as int) {
            Some(v) => Some(SpecAttribute::Signature(AttributeSignature { signature_index: v })),
            None => None,
        }
    } else if name == "Deprecated"@ {
        if info.len() == 0 {
            Some(SpecAttribute::Deprecated(AttributeDeprecated {  }))
        } else {
            None
        }
    } else if name == "AnnotationDefault"@ {
        match spec_complete(spec_parse_element_value(info, 0), info.len() as int) {
            Some(v) => Some(
                SpecAttribute::AnnotationDefault(SpecAttributeAnnotationDefault { default_value: v }),
            ),
            None => None,
        }
    } else if name == "MethodParameters"@ {
        match spec_complete(spec_parse_method_parameters_payload(info, 0), info.len() as int) {
            Some((n, s)) => Some(
                SpecAttribute::MethodParameters(
                    SpecAttributeMethodParameters { parameters_count: n, parameters: s },
                ),
            ),
            None => None,
        }
    } else if name == "LineNumberTable"@ {
        match spec_complete(spec_parse_line_number_payload(info, 0), info.len() as int) {
            Some((n, s)) => Some(
                SpecAttribute::LineNumberTable(
                    SpecAttributeLineNumberTable { line_number_table_length: n, parameters: s },
                ),
            ),
            None => None,
        }
    } else {
        None
    }
}

pub open spec fn spec_parse_attribute_exceptions(b: Seq<u8>, p: usize) -> Result<
    (SpecAttributeException, usize),
    DecodeError,
> {
    match spec_read_u16(b, p) {
        Err(e) => Err(e),
        Ok((n, p1)) => match crate::class_file::spec_parse_u16_list(b, p1, n as int) {
            Err(e) => Err(e),
            Ok((s, q)) => Ok(
                (
                    SpecAttributeException {
                        number_of_exceptions: n,
                        exception_index_table: s,
                    },
                    q,
                ),
            ),
        },
    }
}

pub open spec fn spec_parse_annotations_payload(b: Seq<u8>, p: usize) -> Result<
    ((u16, Seq<SpecAnnotation>), usize),
    DecodeError,
> {
    match spec_read_u16(b, p) {
        Err(e) => Err(e),
        Ok((n, p1)) => match spec_parse_annotation_list(b, p1, n as int) {
            Err(e) => Err(e),
            Ok((s, q)) => Ok(((n, s), q)),
        },
    }
}

pub open spec fn spec_parse_method_parameters_payload(b: Seq<u8>, p: usize) -> Result<
    ((u8, Seq<MethodParameter>), usize),
    DecodeError,
> {
    match spec_read_u8(b, p) {
        Err(e) => Err(e),
        Ok((n, p1)) => match spec_parse_method_parameter_list(b, p1, n as int) {
            Err(e) => Err(e),
            Ok((s, q)) => Ok(((n, s), q)),
        },
    }
}

pub open spec fn spec_parse_line_number_payload(b: Seq<u8>, p: usize) -> Result<
    ((u16, Seq<LineNumber>), usize),
    DecodeError,
> {
    match spec_read_u16(b, p) {
        Err(e) => Err(e),
        Ok((n, p1)) => match spec_parse_line_number_list(b, p1, n as int) {
            Err(e) => Err(e),
            Ok((s, q)) => Ok(((n, s), q)),
        },
    }
}

/// The typed attributes that survive decoding a raw attribute list: each
/// record that resolves and parses contributes its typed form, in order;
/// the others are dropped.
pub open spec fn spec_decoded_attributes(
    pool: Seq<SpecConstantPoolEntry>,
    ais: Seq<SpecAttributeInfo>,
) -> Seq<SpecAttribute>
    decreases ais.len(),
{
    if ais.len() == 0 {
        Seq::empty()
    } else {
        (match spec_decode_attribute(pool, ais[0]) {
            Some(a) => seq![a],
            None => Seq::empty(),
        }) + spec_decoded_attributes(pool, ais.drop_first())
    }
}

} // verus!
