use vstd::prelude::*;

use crate::attribute::{
    spec_decode_attribute, spec_decoded_attributes, Attribute, SpecAttribute,
};
use crate::class_file::{ClassFile, FieldInfo, SpecConstantPoolEntry, SpecFieldInfo};
use crate::parse::spec_pool_string;

verus! {

/// A decoded field of a class module: its resolved name and descriptor, and
/// its typed attributes.
#[derive(Debug, PartialEq, Eq)]
pub struct Field {
    pub name: String,
    pub descriptor: String,
    pub attributes: Vec<Attribute>,
}

pub struct SpecField {
    pub name: Seq<char>,
    pub descriptor: Seq<char>,
    pub attributes: Seq<SpecAttribute>,
}

impl DeepView for Field {
    type V = SpecField;

    open spec fn deep_view(&self) -> SpecField {
        SpecField {
            name: self.name@,
            descriptor: self.descriptor@,
            attributes: self.attributes.deep_view(),
        }
    }
}

/// The decoded field of a field record: defined exactly when both its name
/// and its descriptor resolve to constant-pool strings.
pub open spec fn spec_field_of(pool: Seq<SpecConstantPoolEntry>, fi: SpecFieldInfo) -> Option<
    SpecField,
> {
    match spec_pool_string(pool, fi.name_index as int) {
        None => None,
        Some(n) => match spec_pool_string(pool, fi.descriptor_index as int) {
            None => None,
            Some(d) => Some(
                SpecField {
                    name: n,
                    descriptor: d,
                    attributes: spec_decoded_attributes(pool, fi.attributes),
                },
            ),
        },
    }
}

impl Field {
    /// Resolve one field record against the class's constant pool. Returns
    /// `Some` exactly when name and descriptor both resolve; the attribute
    /// list keeps every raw attribute that decodes to a typed one.
    pub fn new(class_file: &ClassFile, field_info: &FieldInfo) -> (r: Option<Field>)
        ensures
            crate::reader::opt_view(r) == spec_field_of(
                class_file.deep_view().constant_pool,
                field_info.deep_view(),
            ),
    {
        let ghost pool = class_file.deep_view().constant_pool;
        let ghost ais = field_info.deep_view().attributes;
        let name = match class_file.get_constant_pool_string(field_info.name_index as usize) {
            Some(s) => s,
            None => {
                return None;
            },
        };
        let descriptor = match class_file.get_constant_pool_string(
            field_info.descriptor_index as usize,
        ) {
            Some(s) => s,
            None => {
                return None;
            },
        };
        let mut attributes: Vec<Attribute> = Vec::new();
        proof {
            assert(ais.skip(0) =~= ais);
            assert(attributes.deep_view() =~= Seq::<SpecAttribute>::empty());
            assert(Seq::<SpecAttribute>::empty() + spec_decoded_attributes(pool, ais)
                =~= spec_decoded_attributes(pool, ais));
        }
        let n = field_info.attributes.len();
        let mut j: usize = 0;
        while j < n
            invariant
                n == field_info.attributes@.len(),
                j <= n,
                pool == class_file.deep_view().constant_pool,
                ais == field_info.deep_view().attributes,
                ais.len() == n,
                attributes.deep_view() + spec_decoded_attributes(pool, ais.skip(j as int))
                    == spec_decoded_attributes(pool, ais),
            decreases n - j,
        {
            proof {
                assert(ais.skip(j as int)[0] == ais[j as int]);
                assert(ais.skip(j as int).drop_first() =~= ais.skip(j as int + 1));
            }
            match Attribute::new(class_file, &field_info.attributes[j]) {
                Some(a) => {
                    let ghost old_acc = attributes.deep_view();
                    let ghost av = a.deep_view();
                    attributes.push(a);
                    proof {
                        assert(attributes.deep_view() =~= old_acc + seq![av]);
                        assert((old_acc + seq![av]) + spec_decoded_attributes(
                            pool,
                            ais.skip(j as int + 1),
                        ) =~= old_acc + (seq![av] + spec_decoded_attributes(
                            pool,
                            ais.skip(j as int + 1),
                        )));
                    }
                },
                None => {
                    proof {
                        assert(spec_decoded_attributes(pool, ais.skip(j as int))
                            == Seq::<SpecAttribute>::empty() + spec_decoded_attributes(
                            pool,
                            ais.skip(j as int + 1),
                        ));
                        assert(Seq::<SpecAttribute>::empty() + spec_decoded_attributes(
                            pool,
                            ais.skip(j as int + 1),
                        ) =~= spec_decoded_attributes(pool, ais.skip(j as int + 1)));
                    }
                },
            }
            j = j + 1;
        }
        proof {
            assert(ais.skip(n as int) =~= Seq::<crate::class_file::SpecAttributeInfo>::empty());
            assert(attributes.deep_view() + Seq::<SpecAttribute>::empty()
                =~= attributes.deep_view());
        }
        Some(Field { name, descriptor, attributes })
    }
}

} // verus!
