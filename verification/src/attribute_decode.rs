use vstd::prelude::*;

use crate::attribute::{
    spec_annotation_view, spec_complete, spec_decode_attribute, spec_decode_attribute_named,
    spec_element_value_pair_seq_view, spec_element_value_pair_view, spec_element_value_seq_view,
    spec_element_value_view, spec_parse_annotation, spec_parse_annotation_list,
    spec_parse_annotations_payload, spec_parse_attribute_code, spec_parse_attribute_exceptions,
    spec_parse_element_value, spec_parse_element_value_list, spec_parse_element_value_pair,
    spec_parse_element_value_pair_list, spec_parse_exception_entry, spec_parse_exception_list,
    spec_parse_line_number_list, spec_parse_line_number_payload,
    spec_parse_method_parameter_list, spec_parse_method_parameters_payload, spec_remaining,
    Annotation, Attribute, AttributeAnnotationDefault, AttributeCode, AttributeConstantValue,
    AttributeDeprecated, AttributeException, AttributeLineNumberTable, AttributeMethodParameters,
    AttributeRuntimeInvisibleAnnotations, AttributeRuntimeVisibleAnnotations, AttributeSignature,
    ElementValue, ElementValuePair, ExceptionTable, LineNumber, MethodParameter, SpecAnnotation,
    SpecElementValue, SpecElementValuePair,
};
use crate::class_file::{AttributeInfo, ClassFile};
use crate::errors::DecodeError;
use crate::parse::parse_attribute_list;
use crate::reader::{read_bytes, read_u16, read_u32, read_u8, res_view};
use crate::text::str_eq;

verus! {

// Executable decoders for the typed attribute payloads, mirrored on the
// spec-level parsers entry for entry.

/// The recursive character-sequence view of an element-value list agrees
/// with the elementwise deep view.
proof fn lemma_ev_seq_view(s: Seq<ElementValue>)
    ensures
        spec_element_value_seq_view(s) == Seq::new(
            s.len(),
            |i: int| spec_element_value_view(s[i]),
        ),
    decreases s,
{
    if s.len() == 0 {
        assert(spec_element_value_seq_view(s) =~= Seq::new(
            s.len(),
            |i: int| spec_element_value_view(s[i]),
        ));
    } else {
        lemma_ev_seq_view(s.drop_first());
        assert(spec_element_value_seq_view(s) =~= Seq::new(
            s.len(),
            |i: int| spec_element_value_view(s[i]),
        ));
    }
}

proof fn lemma_evp_seq_view(s: Seq<ElementValuePair>)
    ensures
        spec_element_value_pair_seq_view(s) == Seq::new(
            s.len(),
            |i: int| spec_element_value_pair_view(s[i]),
        ),
    decreases s,
{
    if s.len() == 0 {
        assert(spec_element_value_pair_seq_view(s) =~= Seq::new(
            s.len(),
            |i: int| spec_element_value_pair_view(s[i]),
        ));
    } else {
        lemma_evp_seq_view(s.drop_first());
        assert(spec_element_value_pair_seq_view(s) =~= Seq::new(
            s.len(),
            |i: int| spec_element_value_pair_view(s[i]),
        ));
    }
}

pub(crate) fn decode_element_value(data: &Vec<u8>, pos: usize) -> (r: Result<
    (ElementValue, usize),
    DecodeError,
>)
    requires
        pos <= data@.len(),
    ensures
        res_view(r) == spec_parse_element_value(data@, pos),
    decreases spec_remaining(data@, pos), 0int, 0int,
{
    match read_u8(data, pos) {
        Err(e) => Err(e),
        Ok((tag, p1)) => match tag {
            66u8 => match read_u16(data, p1) {
                Err(e) => Err(e),
                Ok((v, p2)) => Ok((ElementValue::Byte { const_value_index: v }, p2)),
            },
            67u8 => match read_u16(data, p1) {
                Err(e) => Err(e),
                Ok((v, p2)) => Ok((ElementValue::Char { const_value_index: v }, p2)),
            },
            68u8 => match read_u16(data, p1) {
                Err(e) => Err(e),
                Ok((v, p2)) => Ok((ElementValue::Double { const_value_index: v }, p2)),
            },
            70u8 => match read_u16(data, p1) {
                Err(e) => Err(e),
                Ok((v, p2)) => Ok((ElementValue::Float { const_value_index: v }, p2)),
            },
            73u8 => match read_u16(data, p1) {
                Err(e) => Err(e),
                Ok((v, p2)) => Ok((ElementValue::Int { const_value_index: v }, p2)),
            },
            74u8 => match read_u16(data, p1) {
                Err(e) => Err(e),
                Ok((v, p2)) => Ok((ElementValue::Long { const_value_index: v }, p2)),
            },
            83u8 => match read_u16(data, p1) {
                Err(e) => Err(e),
                Ok((v, p2)) => Ok((ElementValue::Short { const_value_index: v }, p2)),
            },
            90u8 => match read_u16(data, p1) {
                Err(e) => Err(e),
                Ok((v, p2)) => Ok((ElementValue::Boolean { const_value_index: v }, p2)),
            },
            115u8 => match read_u16(data, p1) {
                Err(e) => Err(e),
                Ok((v, p2)) => Ok((ElementValue::Str { const_value_index: v }, p2)),
            },
            101u8 => match read_u16(data, p1) {
                Err(e) => Err(e),
                Ok((v, p2)) => match read_u16(data, p2) {
                    Err(e) => Err(e),
                    Ok((w, p3)) => Ok(
                        (ElementValue::Enum { type_name_index: v, const_name_index: w }, p3),
                    ),
                },
            },
            99u8 => match read_u16(data, p1) {
                Err(e) => Err(e),
                Ok((v, p2)) => Ok((ElementValue::Class { class_info_index: v }, p2)),
            },
            64u8 => if p1 <= pos || p1 > data.len() {
                Err(DecodeError::Truncated(pos))
            } else {
                match decode_annotation(data, p1) {
                    Err(e) => Err(e),
                    Ok((a, p2)) => Ok((ElementValue::AnnotationType { annotation_value: a }, p2)),
                }
            },
            91u8 => match read_u16(data, p1) {
                Err(e) => Err(e),
                Ok((n, p2)) => if p2 <= pos || p2 > data.len() {
                    Err(DecodeError::Truncated(pos))
                } else {
                    match decode_element_value_list(data, p2, n) {
                        Err(e) => Err(e),
                        Ok((s, q)) => {
                            proof {
                                lemma_ev_seq_view(s@);
                                assert(s.deep_view() =~= spec_element_value_seq_view(s@));
                            }
                            Ok((ElementValue::Array { num_values: n, element_value: s }, q))
                        },
                    }
                },
            },
            _ => Err(DecodeError::UnknownTag(tag, pos)),
        },
    }
}

pub(crate) fn decode_element_value_list(data: &Vec<u8>, pos: usize, n: u16) -> (r: Result<
    (Vec<ElementValue>, usize),
    DecodeError,
>)
    requires
        pos <= data@.len(),
    ensures
        res_view(r) == spec_parse_element_value_list(data@, pos, n as int),
    decreases spec_remaining(data@, pos), 1int, 0int,
{
    let mut acc: Vec<ElementValue> = Vec::new();
    let mut p: usize = pos;
    let mut j: usize = 0;
    while j < n as usize
        invariant
            j <= n as usize,
            pos <= p <= data@.len(),
            match spec_parse_element_value_list(data@, p, n as int - j) {
                Ok((s, q)) => spec_parse_element_value_list(data@, pos, n as int) == Ok::<
                    _,
                    DecodeError,
                >((acc.deep_view() + s, q)),
                Err(e) => spec_parse_element_value_list(data@, pos, n as int) == Err::<
                    (Seq<SpecElementValue>, usize),
                    _,
                >(e),
            },
        decreases n as int - j,
    {
        match decode_element_value(data, p) {
            Err(e) => {
                return Err(e);
            },
            Ok((v, p2)) => {
                if p2 <= p || p2 > data.len() {
                    return Err(DecodeError::Truncated(p));
                }
                let ghost old_acc = acc.deep_view();
                let ghost vv = v.deep_view();
                acc.push(v);
                proof {
                    assert(acc.deep_view() =~= old_acc + seq![vv]);
                    match spec_parse_element_value_list(data@, p2, n as int - j - 1) {
                        Ok((s, q)) => {
                            assert((old_acc + seq![vv]) + s =~= old_acc + (seq![vv] + s));
                        },
                        Err(_) => {},
                    }
                }
                p = p2;
                j = j + 1;
            },
        }
    }
    proof {
        assert(acc.deep_view() + Seq::<SpecElementValue>::empty() =~= acc.deep_view());
    }
    Ok((acc, p))
}

pub(crate) fn decode_element_value_pair(data: &Vec<u8>, pos: usize) -> (r: Result<
    (ElementValuePair, usize),
    DecodeError,
>)
    requires
        pos <= data@.len(),
    ensures
        res_view(r) == spec_parse_element_value_pair(data@, pos),
    decreases spec_remaining(data@, pos), 0int, 0int,
{
    match read_u16(data, pos) {
        Err(e) => Err(e),
        Ok((name_idx, p1)) => if p1 <= pos || p1 > data.len() {
            Err(DecodeError::Truncated(pos))
        } else {
            match decode_element_value(data, p1) {
                Err(e) => Err(e),
                Ok((v, p2)) => Ok(
                    (ElementValuePair { element_name_index: name_idx, value: v }, p2),
                ),
            }
        },
    }
}

pub(crate) fn decode_element_value_pair_list(data: &Vec<u8>, pos: usize, n: u16) -> (r: Result<
    (Vec<ElementValuePair>, usize),
    DecodeError,
>)
    requires
        pos <= data@.len(),
    ensures
        res_view(r) == spec_parse_element_value_pair_list(data@, pos, n as int),
    decreases spec_remaining(data@, pos), 1int, 0int,
{
    let mut acc: Vec<ElementValuePair> = Vec::new();
    let mut p: usize = pos;
    let mut j: usize = 0;
    while j < n as usize
        invariant
            j <= n as usize,
            pos <= p <= data@.len(),
            match spec_parse_element_value_pair_list(data@, p, n as int - j) {
                Ok((s, q)) => spec_parse_element_value_pair_list(data@, pos, n as int) == Ok::<
                    _,
                    DecodeError,
                >((acc.deep_view() + s, q)),
                Err(e) => spec_parse_element_value_pair_list(data@, pos, n as int) == Err::<
                    (Seq<SpecElementValuePair>, usize),
                    _,
                >(e),
            },
        decreases n as int - j,
    {
        match decode_element_value_pair(data, p) {
            Err(e) => {
                return Err(e);
            },
            Ok((v, p2)) => {
                if p2 <= p || p2 > data.len() {
                    return Err(DecodeError::Truncated(p));
                }
                let ghost old_acc = acc.deep_view();
                let ghost vv = v.deep_view();
                acc.push(v);
                proof {
                    assert(acc.deep_view() =~= old_acc + seq![vv]);
                    match spec_parse_element_value_pair_list(data@, p2, n as int - j - 1) {
                        Ok((s, q)) => {
                            assert((old_acc + seq![vv]) + s =~= old_acc + (seq![vv] + s));
                        },
                        Err(_) => {},
                    }
                }
                p = p2;
                j = j + 1;
            },
        }
    }
    proof {
        assert(acc.deep_view() + Seq::<SpecElementValuePair>::empty() =~= acc.deep_view());
    }
    Ok((acc, p))
}

pub(crate) fn decode_annotation(data: &Vec<u8>, pos: usize) -> (r: Result<
    (Annotation, usize),
    DecodeError,
>)
    requires
        pos <= data@.len(),
    ensures
        res_view(r) == spec_parse_annotation(data@, pos),
    decreases spec_remaining(data@, pos), 0int, 0int,
{
    match read_u16(data, pos) {
        Err(e) => Err(e),
        Ok((type_idx, p1)) => match read_u16(data, p1) {
            Err(e) => Err(e),
            Ok((n, p2)) => if p2 <= pos || p2 > data.len() {
                Err(DecodeError::Truncated(pos))
            } else {
                match decode_element_value_pair_list(data, p2, n) {
                    Err(e) => Err(e),
                    Ok((s, q)) => {
                        proof {
                            lemma_evp_seq_view(s@);
                            assert(s.deep_view() =~= spec_element_value_pair_seq_view(s@));
                        }
                        Ok(
                            (
                                Annotation {
                                    type_index: type_idx,
                                    num_element_value_pairs: n,
                                    element_value_pairs: s,
                                },
                                q,
                            ),
                        )
                    },
                }
            },
        },
    }
}

pub(crate) fn decode_annotation_list(data: &Vec<u8>, pos: usize, n: u16) -> (r: Result<
    (Vec<Annotation>, usize),
    DecodeError,
>)
    requires
        pos <= data@.len(),
    ensures
        res_view(r) == spec_parse_annotation_list(data@, pos, n as int),
    decreases spec_remaining(data@, pos), 1int, 0int,
{
    let mut acc: Vec<Annotation> = Vec::new();
    let mut p: usize = pos;
    let mut j: usize = 0;
    while j < n as usize
        invariant
            j <= n as usize,
            pos <= p <= data@.len(),
            match spec_parse_annotation_list(data@, p, n as int - j) {
                Ok((s, q)) => spec_parse_annotation_list(data@, pos, n as int) == Ok::<
                    _,
                    DecodeError,
                >((acc.deep_view() + s, q)),
                Err(e) => spec_parse_annotation_list(data@, pos, n as int) == Err::<
                    (Seq<SpecAnnotation>, usize),
                    _,
                >(e),
            },
        decreases n as int - j,
    {
        match decode_annotation(data, p) {
            Err(e) => {
                return Err(e);
            },
            Ok((a, p2)) => {
                if p2 <= p || p2 > data.len() {
                    return Err(DecodeError::Truncated(p));
                }
                let ghost old_acc = acc.deep_view();
                let ghost av = a.deep_view();
                acc.push(a);
                proof {
                    assert(acc.deep_view() =~= old_acc + seq![av]);
                    match spec_parse_annotation_list(data@, p2, n as int - j - 1) {
                        Ok((s, q)) => {
                            assert((old_acc + seq![av]) + s =~= old_acc + (seq![av] + s));
                        },
                        Err(_) => {},
                    }
                }
                p = p2;
                j = j + 1;
            },
        }
    }
    proof {
        assert(acc.deep_view() + Seq::<SpecAnnotation>::empty() =~= acc.deep_view());
    }
    Ok((acc, p))
}

pub(crate) fn decode_exception_list(data: &Vec<u8>, pos: usize, n: u16) -> (r: Result<
    (Vec<ExceptionTable>, usize),
    DecodeError,
>)
    ensures
        res_view(r) == spec_parse_exception_list(data@, pos, n as int),
{
    let mut acc: Vec<ExceptionTable> = Vec::new();
    let mut p: usize = pos;
    let mut j: usize = 0;
    while j < n as usize
        invariant
            j <= n as usize,
            match spec_parse_exception_list(data@, p, n as int - j) {
                Ok((s, q)) => spec_parse_exception_list(data@, pos, n as int) == Ok::<
                    _,
                    DecodeError,
                >((acc.deep_view() + s, q)),
                Err(e) => spec_parse_exception_list(data@, pos, n as int) == Err::<
                    (Seq<ExceptionTable>, usize),
                    _,
                >(e),
            },
        decreases n as int - j,
    {
        let (s0, p1) = match read_u16(data, p) {
            Ok(v) => v,
            Err(e) => {
                return Err(e);
            },
        };
        let (e0, p2) = match read_u16(data, p1) {
            Ok(v) => v,
            Err(e) => {
                return Err(e);
            },
        };
        let (h0, p3) = match read_u16(data, p2) {
            Ok(v) => v,
            Err(e) => {
                return Err(e);
            },
        };
        let (c0, p4) = match read_u16(data, p3) {
            Ok(v) => v,
            Err(e) => {
                return Err(e);
            },
        };
        let x = ExceptionTable { start_pc: s0, end_pc: e0, handler_pc: h0, catch_type: c0 };
        let ghost old_acc = acc.deep_view();
        let ghost xv = x.deep_view();
        acc.push(x);
        proof {
            assert(acc.deep_view() =~= old_acc + seq![xv]);
            match spec_parse_exception_list(data@, p4, n as int - j - 1) {
                Ok((s, q)) => {
                    assert((old_acc + seq![xv]) + s =~= old_acc + (seq![xv] + s));
                },
                Err(_) => {},
            }
        }
        p = p4;
        j = j + 1;
    }
    proof {
        assert(acc.deep_view() + Seq::<ExceptionTable>::empty() =~= acc.deep_view());
    }
    Ok((acc, p))
}

pub(crate) fn decode_method_parameter_list(data: &Vec<u8>, pos: usize, n: u8) -> (r: Result<
    (Vec<MethodParameter>, usize),
    DecodeError,
>)
    ensures
        res_view(r) == spec_parse_method_parameter_list(data@, pos, n as int),
{
    let mut acc: Vec<MethodParameter> = Vec::new();
    let mut p: usize = pos;
    let mut j: usize = 0;
    while j < n as usize
        invariant
            j <= n as usize,
            match spec_parse_method_parameter_list(data@, p, n as int - j) {
                Ok((s, q)) => spec_parse_method_parameter_list(data@, pos, n as int) == Ok::<
                    _,
                    DecodeError,
                >((acc.deep_view() + s, q)),
                Err(e) => spec_parse_method_parameter_list(data@, pos, n as int) == Err::<
                    (Seq<MethodParameter>, usize),
                    _,
                >(e),
            },
        decreases n as int - j,
    {
        let (name_idx, p1) = match read_u16(data, p) {
            Ok(v) => v,
            Err(e) => {
                return Err(e);
            },
        };
        let (af, p2) = match read_u16(data, p1) {
            Ok(v) => v,
            Err(e) => {
                return Err(e);
            },
        };
        let x = MethodParameter { name_index: name_idx, access_flags: af };
        let ghost old_acc = acc.deep_view();
        let ghost xv = x.deep_view();
        acc.push(x);
        proof {
            assert(acc.deep_view() =~= old_acc + seq![xv]);
            match spec_parse_method_parameter_list(data@, p2, n as int - j - 1) {
                Ok((s, q)) => {
                    assert((old_acc + seq![xv]) + s =~= old_acc + (seq![xv] + s));
                },
                Err(_) => {},
            }
        }
        p = p2;
        j = j + 1;
    }
    proof {
        assert(acc.deep_view() + Seq::<MethodParameter>::empty() =~= acc.deep_view());
    }
    Ok((acc, p))
}

pub(crate) fn decode_line_number_list(data: &Vec<u8>, pos: usize, n: u16) -> (r: Result<
    (Vec<LineNumber>, usize),
    DecodeError,
>)
    ensures
        res_view(r) == spec_parse_line_number_list(data@, pos, n as int),
{
    let mut acc: Vec<LineNumber> = Vec::new();
    let mut p: usize = pos;
    let mut j: usize = 0;
    while j < n as usize
        invariant
            j <= n as usize,
            match spec_parse_line_number_list(data@, p, n as int - j) {
                Ok((s, q)) => spec_parse_line_number_list(data@, pos, n as int) == Ok::<
                    _,
                    DecodeError,
                >((acc.deep_view() + s, q)),
                Err(e) => spec_parse_line_number_list(data@, pos, n as int) == Err::<
                    (Seq<LineNumber>, usize),
                    _,
                >(e),
            },
        decreases n as int - j,
    {
        let (start, p1) = match read_u16(data, p) {
            Ok(v) => v,
            Err(e) => {
                return Err(e);
            },
        };
        let (line, p2) = match read_u16(data, p1) {
            Ok(v) => v,
            Err(e) => {
                return Err(e);
            },
        };
        let x = LineNumber { start_pc: start, line_number: line };
        let ghost old_acc = acc.deep_view();
        let ghost xv = x.deep_view();
        acc.push(x);
        proof {
            assert(acc.deep_view() =~= old_acc + seq![xv]);
            match spec_parse_line_number_list(data@, p2, n as int - j - 1) {
                Ok((s, q)) => {
                    assert((old_acc + seq![xv]) + s =~= old_acc + (seq![xv] + s));
                },
                Err(_) => {},
            }
        }
        p = p2;
        j = j + 1;
    }
    proof {
        assert(acc.deep_view() + Seq::<LineNumber>::empty() =~= acc.deep_view());
    }
    Ok((acc, p))
}

pub(crate) fn decode_attribute_code(data: &Vec<u8>, pos: usize) -> (r: Result<
    (AttributeCode, usize),
    DecodeError,
>)
    ensures
        res_view(r) == spec_parse_attribute_code(data@, pos),
{
    let (max_stack, p1) = match read_u16(data, pos) {
        Ok(v) => v,
        Err(e) => {
            return Err(e);
        },
    };
    let (max_locals, p2) = match read_u16(data, p1) {
        Ok(v) => v,
        Err(e) => {
            return Err(e);
        },
    };
    let (code_len, p3) = match read_u32(data, p2) {
        Ok(v) => v,
        Err(e) => {
            return Err(e);
        },
    };
    let (code, p4) = match read_bytes(data, p3, code_len as usize) {
        Ok(v) => v,
        Err(e) => {
            return Err(e);
        },
    };
    let (ex_len, p5) = match read_u16(data, p4) {
        Ok(v) => v,
        Err(e) => {
            return Err(e);
        },
    };
    let (ex_tab, p6) = match decode_exception_list(data, p5, ex_len) {
        Ok(v) => v,
        Err(e) => {
            return Err(e);
        },
    };
    let (attr_cnt, p7) = match read_u16(data, p6) {
        Ok(v) => v,
        Err(e) => {
            return Err(e);
        },
    };
    let (attrs, p8) = match parse_attribute_list(data, p7, attr_cnt) {
        Ok(v) => v,
        Err(e) => {
            return Err(e);
        },
    };
    proof {
        assert(code.deep_view() =~= code@);
    }
    Ok(
        (
            AttributeCode {
                max_stack,
                max_locals,
                code_length: code_len,
                code,
                exception_table_length: ex_len,
                exception_table: ex_tab,
                attributes_count: attr_cnt,
                attributes: attrs,
            },
            p8,
        ),
    )
}

pub(crate) fn decode_attribute_exceptions(data: &Vec<u8>, pos: usize) -> (r: Result<
    (AttributeException, usize),
    DecodeError,
>)
    ensures
        res_view(r) == spec_parse_attribute_exceptions(data@, pos),
{
    let (n, p1) = match read_u16(data, pos) {
        Ok(v) => v,
        Err(e) => {
            return Err(e);
        },
    };
    let (s, q) = match crate::parse::parse_u16_list(data, p1, n) {
        Ok(v) => v,
        Err(e) => {
            return Err(e);
        },
    };
    Ok((AttributeException { number_of_exceptions: n, exception_index_table: s }, q))
}

impl Attribute {
    /// Typed decoding of one raw attribute record against this class's
    /// constant pool. The name index is resolved to a string and dispatched
    /// on; a recognized attribute is decoded from its payload, which must be
    /// consumed exactly. Unknown names and malformed payloads yield `None`.
    pub fn new(class_file: &ClassFile, attribute_info: &AttributeInfo) -> (r: Option<Attribute>)
        ensures
            match r {
                Some(a) => spec_decode_attribute(
                    class_file.deep_view().constant_pool,
                    attribute_info.deep_view(),
                ) == Some(a.deep_view()),
                None => spec_decode_attribute(
                    class_file.deep_view().constant_pool,
                    attribute_info.deep_view(),
                ) is None,
            },
    {
        let name = match class_file.get_constant_pool_string(
            attribute_info.attribute_name_index as usize,
        ) {
            Some(s) => s,
            None => {
                return None;
            },
        };
        let info = &attribute_info.info;
        if str_eq(name.as_str(), "ConstantValue") {
            match read_u16(info, 0) {
                Ok((v, q)) => if q == info.len() {
                    Some(Attribute::ConstantValue(AttributeConstantValue { constantvalue_index: v }))
                } else {
                    None
                },
                Err(_) => None,
            }
        } else if str_eq(name.as_str(), "Code") {
            match decode_attribute_code(info, 0) {
                Ok((v, q)) => if q == info.len() {
                    Some(Attribute::Code(v))
                } else {
                    None
                },
                Err(_) => None,
            }
        } else if str_eq(name.as_str(), "Exceptions") {
            match decode_attribute_exceptions(info, 0) {
                Ok((v, q)) => if q == info.len() {
                    Some(Attribute::Exceptions(v))
                } else {
                    None
                },
                Err(_) => None,
            }
        } else if str_eq(name.as_str(), "RuntimeVisibleAnnotations") {
            match read_u16(info, 0) {
                Ok((n, p1)) => match decode_annotation_list(info, p1, n) {
                    Ok((s, q)) => if q == info.len() {
                        Some(
                            Attribute::RuntimeVisibleAnnotations(
                                AttributeRuntimeVisibleAnnotations {
                                    num_annotations: n,
                                    annotations: s,
                                },
                            ),
                        )
                    } else {
                        None
                    },
                    Err(_) => None,
                },
                Err(_) => None,
            }
        } else if str_eq(name.as_str(), "RuntimeInvisibleAnnotations") {
            match read_u16(info, 0) {
                Ok((n, p1)) => match decode_annotation_list(info, p1, n) {
                    Ok((s, q)) => if q == info.len() {
                        Some(
                            Attribute::RuntimeInvisibleAnnotations(
                                AttributeRuntimeInvisibleAnnotations {
                                    num_annotations: n,
                                    annotations: s,
                                },
                            ),
                        )
                    } else {
                        None
                    },
                    Err(_) => None,
                },
                Err(_) => None,
            }
        } else if str_eq(name.as_str(), "Signature") {
            match read_u16(info, 0) {
                Ok((v, q)) => if q == info.len() {
                    Some(Attribute::Signature(AttributeSignature { signature_index: v }))
                } else {
                    None
                },
                Err(_) => None,
            }
        } else if str_eq(name.as_str(), "Deprecated") {
            if info.len() == 0 {
                Some(Attribute::Deprecated(AttributeDeprecated {  }))
            } else {
                None
            }
        } else if str_eq(name.as_str(), "AnnotationDefault") {
            match decode_element_value(info, 0) {
                Ok((v, q)) => if q == info.len() {
                    Some(Attribute::AnnotationDefault(AttributeAnnotationDefault {
                        default_value: v,
                    }))
                } else {
                    None
                },
                Err(_) => None,
            }
        } else if str_eq(name.as_str(), "MethodParameters") {
            match read_u8(info, 0) {
                Ok((n, p1)) => match decode_method_parameter_list(info, p1, n) {
                    Ok((s, q)) => if q == info.len() {
                        Some(
                            Attribute::MethodParameters(
                                AttributeMethodParameters { parameters_count: n, parameters: s },
                            ),
                        )
                    } else {
                        None
                    },
                    Err(_) => None,
                },
                Err(_) => None,
            }
        } else if str_eq(name.as_str(), "LineNumberTable") {
            match read_u16(info, 0) {
                Ok((n, p1)) => match decode_line_number_list(info, p1, n) {
                    Ok((s, q)) => if q == info.len() {
                        Some(
                            Attribute::LineNumberTable(
                                AttributeLineNumberTable {
                                    line_number_table_length: n,
                                    parameters: s,
                                },
                            ),
                        )
                    } else {
                        None
                    },
                    Err(_) => None,
                },
                Err(_) => None,
            }
        } else {
            None
        }
    }
}

} // verus!
