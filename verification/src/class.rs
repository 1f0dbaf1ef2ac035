use vstd::prelude::*;

use crate::class_file::{
    spec_parse_class_file, ClassFile, SpecConstantPoolEntry, SpecFieldInfo, SpecMethodInfo,
};
use crate::field::{spec_field_of, Field, SpecField};
use crate::method::{spec_method_of, Method, SpecMethod};
use crate::reader::opt_view;
use crate::strmap::StringMap;

verus! {

/// A loaded class module: the decoded class file plus two name-keyed maps
/// over its members. When two members share a name, the later record
/// overrides the earlier one. The `initialized` flag is the only mutable
/// state; the interpreter sets it once and never clears it.
pub struct Class {
    pub class_file: ClassFile,
    pub fields: StringMap<Field>,
    pub methods: StringMap<Method>,
    pub initialized: bool,
}

/// The field that a lookup of `name` finds in the first `ft.len()` records:
/// the last record that resolves to a field of that name.
pub open spec fn spec_field_lookup(
    pool: Seq<SpecConstantPoolEntry>,
    ft: Seq<SpecFieldInfo>,
    name: Seq<char>,
) -> Option<SpecField>
    decreases ft.len(),
{
    if ft.len() == 0 {
        None
    } else {
        match spec_field_of(pool, ft.last()) {
            Some(f) => if f.name == name {
                Some(f)
            } else {
                spec_field_lookup(pool, ft.drop_last(), name)
            },
            None => spec_field_lookup(pool, ft.drop_last(), name),
        }
    }
}

/// The method that a lookup of `name` finds, the last resolving record
/// winning as for fields.
pub open spec fn spec_method_lookup(
    pool: Seq<SpecConstantPoolEntry>,
    mt: Seq<SpecMethodInfo>,
    name: Seq<char>,
) -> Option<SpecMethod>
    decreases mt.len(),
{
    if mt.len() == 0 {
        None
    } else {
        match spec_method_of(pool, mt.last()) {
            Some(m) => if m.name == name {
                Some(m)
            } else {
                spec_method_lookup(pool, mt.drop_last(), name)
            },
            None => spec_method_lookup(pool, mt.drop_last(), name),
        }
    }
}

impl Class {
    /// Build the name-keyed field map of a class file: every record whose
    /// name and descriptor resolve is kept, a later record overriding an
    /// earlier one of the same name.
    pub fn parse_fields(class_file: &ClassFile) -> (r: StringMap<Field>)
        ensures
            r.wf(),
            forall|name: Seq<char>|
                opt_view(#[trigger] r.spec_get(name)) == spec_field_lookup(
                    class_file.deep_view().constant_pool,
                    class_file.deep_view().field_table,
                    name,
                ),
    {
        let ghost pool = class_file.deep_view().constant_pool;
        let ghost ft = class_file.deep_view().field_table;
        let mut result: StringMap<Field> = StringMap::new();
        let n = class_file.field_table.len();
        let mut j: usize = 0;
        proof {
            assert(ft.take(0) =~= Seq::<SpecFieldInfo>::empty());
        }
        while j < n
            invariant
                n == class_file.field_table@.len(),
                j <= n,
                pool == class_file.deep_view().constant_pool,
                ft == class_file.deep_view().field_table,
                ft.len() == n,
                result.wf(),
                forall|name: Seq<char>|
                    opt_view(#[trigger] result.spec_get(name)) == spec_field_lookup(
                        pool,
                        ft.take(j as int),
                        name,
                    ),
            decreases n - j,
        {
            proof {
                assert(ft.take(j as int + 1).last() == ft[j as int]);
                assert(ft.take(j as int + 1).drop_last() =~= ft.take(j as int));
            }
            match Field::new(class_file, &class_file.field_table[j]) {
                Some(f) => {
                    let key = f.name.clone();
                    result.insert(key, f);
                },
                None => {},
            }
            j = j + 1;
        }
        proof {
            assert(ft.take(n as int) =~= ft);
        }
        result
    }

    /// Build the name-keyed method map of a class file, as for fields.
    pub fn parse_methods(class_file: &ClassFile) -> (r: StringMap<Method>)
        ensures
            r.wf(),
            forall|name: Seq<char>|
                opt_view(#[trigger] r.spec_get(name)) == spec_method_lookup(
                    class_file.deep_view().constant_pool,
                    class_file.deep_view().method_table,
                    name,
                ),
    {
        let ghost pool = class_file.deep_view().constant_pool;
        let ghost mt = class_file.deep_view().method_table;
        let mut result: StringMap<Method> = StringMap::new();
        let n = class_file.method_table.len();
        let mut j: usize = 0;
        proof {
            assert(mt.take(0) =~= Seq::<SpecMethodInfo>::empty());
        }
        while j < n
            invariant
                n == class_file.method_table@.len(),
                j <= n,
                pool == class_file.deep_view().constant_pool,
                mt == class_file.deep_view().method_table,
                mt.len() == n,
                result.wf(),
                forall|name: Seq<char>|
                    opt_view(#[trigger] result.spec_get(name)) == spec_method_lookup(
                        pool,
                        mt.take(j as int),
                        name,
                    ),
            decreases n - j,
        {
            proof {
                assert(mt.take(j as int + 1).last() == mt[j as int]);
                assert(mt.take(j as int + 1).drop_last() =~= mt.take(j as int));
            }
            match Method::new(class_file, &class_file.method_table[j]) {
                Some(m) => {
                    let key = m.name.clone();
                    result.insert(key, m);
                },
                None => {},
            }
            j = j + 1;
        }
        proof {
            assert(mt.take(n as int) =~= mt);
        }
        result
    }

    /// Load one class module from its bytes: decode the class file, then
    /// derive the field and method maps. Freshly loaded classes are not
    /// initialized. Identical bytes always give an identical module.
    pub fn new(data: &Vec<u8>) -> (r: Option<Class>)
        ensures
            r is Some <==> spec_parse_class_file(data@) is Ok,
            r is Some ==> {
                let cf = spec_parse_class_file(data@).unwrap().0;
                &&& r.unwrap().class_file.deep_view() == cf
                &&& r.unwrap().fields.wf()
                &&& r.unwrap().methods.wf()
                &&& !r.unwrap().initialized
                &&& forall|name: Seq<char>|
                    opt_view(#[trigger] r.unwrap().fields.spec_get(name)) == spec_field_lookup(
                        cf.constant_pool,
                        cf.field_table,
                        name,
                    )
                &&& forall|name: Seq<char>|
                    opt_view(#[trigger] r.unwrap().methods.spec_get(name)) == spec_method_lookup(
                        cf.constant_pool,
                        cf.method_table,
                        name,
                    )
            },
    {
        let class_file = match ClassFile::parse(data) {
            Ok(cf) => cf,
            Err(_) => {
                return None;
            },
        };
        let fields = Self::parse_fields(&class_file);
        let methods = Self::parse_methods(&class_file);
        Some(Class { class_file, fields, methods, initialized: false })
    }
}

} // verus!
