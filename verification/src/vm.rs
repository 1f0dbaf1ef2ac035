use vstd::prelude::*;

use crate::attribute::{Attribute, SpecAttribute, SpecAttributeCode};
use crate::class::Class;
use crate::class_file::{ConstantPoolEntry, SpecClassFile, SpecConstantPoolEntry};
use crate::errors::RuntimeFault;
use crate::jar::Jar;
use crate::method::{Method, SpecMethod};
use crate::opcodes::{
    instruction_length, is_defined_opcode, spec_instruction_length, spec_is_defined_opcode,
};
use crate::parse::spec_pool_string;
use crate::reader::spec_be_u16;

verus! {

// The interpreter: a stack machine over typed slots. This revision gives
// `nop` and `getstatic` their semantics; every other defined opcode is
// tolerated as a no-op that advances the program counter by its declared
// instruction length, and an undefined opcode byte is a hard fault. The
// program counter moves forward only and never past the end of the code.

/// One operand-stack or local-variable slot. `Float` and `Double` carry raw
/// bit patterns; a `Long` or `Double` logically occupies two slots.
#[derive(Debug, Clone, Copy, PartialEq, Eq, Structural)]
pub enum Value {
    Uninit,
    Reference(u32),
    Integer(i32),
    Float(u32),
    Long(i64),
    Double(u64),
}

/// The per-invocation frame: program counter, locals sized to `max_locals`,
/// and an operand stack sized to `max_stack`.
pub struct Scope {
    pub program_counter: usize,
    pub locals: Vec<Value>,
    pub stack: Vec<Value>,
    pub stack_pointer: usize,
}

/// One line of the execution trace.
#[derive(Debug, Clone, PartialEq, Eq)]
pub enum TraceEvent {
    /// An instruction was dispatched at this offset.
    Instruction { pc: usize, opcode: u8 },
    /// A `getstatic` resolved this symbolic (class, field, descriptor)
    /// triple through the constant pool.
    StaticField { class_name: String, field_name: String, descriptor: String },
    /// A method began executing.
    MethodEntry { name: String, descriptor: String },
    /// The frame sizing of the method's code attribute.
    FrameSizes { max_stack: u16, max_locals: u16 },
    /// The method has no code attribute and was skipped.
    MissingCode { name: String },
}

pub enum TraceEventView {
    Instruction { pc: int, opcode: u8 },
    StaticField { class_name: Seq<char>, field_name: Seq<char>, descriptor: Seq<char> },
    MethodEntry { name: Seq<char>, descriptor: Seq<char> },
    FrameSizes { max_stack: u16, max_locals: u16 },
    MissingCode { name: Seq<char> },
}

impl DeepView for TraceEvent {
    type V = TraceEventView;

    open spec fn deep_view(&self) -> TraceEventView {
        match self {
            TraceEvent::Instruction { pc, opcode } => TraceEventView::Instruction {
                pc: *pc as int,
                opcode: *opcode,
            },
            TraceEvent::StaticField { class_name, field_name, descriptor } => TraceEventView::StaticField {
                class_name: class_name@,
                field_name: field_name@,
                descriptor: descriptor@,
            },
            TraceEvent::MethodEntry { name, descriptor } => TraceEventView::MethodEntry {
                name: name@,
                descriptor: descriptor@,
            },
            TraceEvent::FrameSizes { max_stack, max_locals } => TraceEventView::FrameSizes {
                max_stack: *max_stack,
                max_locals: *max_locals,
            },
            TraceEvent::MissingCode { name } => TraceEventView::MissingCode { name: name@ },
        }
    }
}

/// The constant-pool entry at a 1-based index, when the index is in range.
pub open spec fn spec_pool_entry(pool: Seq<SpecConstantPoolEntry>, index: int) -> Option<
    SpecConstantPoolEntry,
> {
    if 1 <= index && index <= pool.len() {
        Some(pool[index - 1])
    } else {
        None
    }
}

/// The symbolic (class name, field name, descriptor) triple that a
/// `getstatic` operand resolves to: the index must lead to a `FieldRef`,
/// its class index to a `ClassRef` naming a pool string, and its
/// name-and-type index to a `NameAndType` naming two pool strings.
pub open spec fn spec_resolve_getstatic(cf: SpecClassFile, index: int) -> Option<
    (Seq<char>, Seq<char>, Seq<char>),
> {
    match spec_pool_entry(cf.constant_pool, index) {
        Some(SpecConstantPoolEntry::FieldRef(ci, nti)) => match spec_pool_entry(
            cf.constant_pool,
            ci as int,
        ) {
            Some(SpecConstantPoolEntry::ClassRef(ni)) => match spec_pool_string(
                cf.constant_pool,
                ni as int,
            ) {
                Some(cn) => match spec_pool_entry(cf.constant_pool, nti as int) {
                    Some(SpecConstantPoolEntry::NameAndType(fni, di)) => match spec_pool_string(
                        cf.constant_pool,
                        fni as int,
                    ) {
                        Some(fname) => match spec_pool_string(cf.constant_pool, di as int) {
                            Some(d) => Some((cn, fname, d)),
                            None => None,
                        },
                        None => None,
                    },
                    _ => None,
                },
                None => None,
            },
            _ => None,
        },
        _ => None,
    }
}

/// The measure of the dispatcher: the code left in front of the counter.
pub open spec fn spec_code_rem(code: Seq<u8>, pc: int) -> int {
    if 0 <= pc && pc <= code.len() {
        code.len() - pc
    } else {
        0
    }
}

/// The dispatcher's behaviour from position `pc` on: the trace it emits,
/// its outcome, and the final program counter. Every step moves the counter
/// strictly forward, clamped at the end of the code, so execution always
/// terminates.
pub open spec fn spec_run_code(cf: SpecClassFile, code: Seq<u8>, pc: int) -> (
    Seq<TraceEventView>,
    Result<(), RuntimeFault>,
    int,
)
    decreases spec_code_rem(code, pc),
{
    if pc < 0 || pc >= code.len() {
        (Seq::empty(), Ok(()), pc)
    } else {
        let op = code[pc];
        let ev = TraceEventView::Instruction { pc: pc, opcode: op };
        if !spec_is_defined_opcode(op) {
            (seq![ev], Err(RuntimeFault::InvalidOpcode(pc as usize, op)), pc)
        } else if op == 0xB2 {
            if pc + 3 <= code.len() {
                match spec_resolve_getstatic(cf, spec_be_u16(code, pc + 1)) {
                    Some(t3) => {
                        let sf = TraceEventView::StaticField {
                            class_name: t3.0,
                            field_name: t3.1,
                            descriptor: t3.2,
                        };
                        let rest = spec_run_code(cf, code, pc + 3);
                        (seq![ev, sf] + rest.0, rest.1, rest.2)
                    },
                    None => (seq![ev], Err(RuntimeFault::ConstantPoolMismatch), pc),
                }
            } else {
                (seq![ev], Err(RuntimeFault::InvalidOpcode(pc as usize, op)), pc)
            }
        } else {
            let next = if pc + 1 + spec_instruction_length(op) <= code.len() {
                pc + 1 + spec_instruction_length(op)
            } else {
                code.len() as int
            };
            let rest = spec_run_code(cf, code, next);
            (seq![ev] + rest.0, rest.1, rest.2)
        }
    }
}

/// The first code attribute among a method's decoded attributes.
pub open spec fn spec_first_code(attrs: Seq<SpecAttribute>) -> Option<SpecAttributeCode>
    decreases attrs.len(),
{
    if attrs.len() == 0 {
        None
    } else {
        match attrs[0] {
            SpecAttribute::Code(c) => Some(c),
            _ => spec_first_code(attrs.drop_first()),
        }
    }
}

/// The behaviour of executing one method: its entry event, then either its
/// code's dispatch trace or a note that it has no code attribute. A method
/// without code is not a fault.
pub open spec fn spec_execute_method(cf: SpecClassFile, m: SpecMethod) -> (
    Seq<TraceEventView>,
    Result<(), RuntimeFault>,
) {
    let entry = TraceEventView::MethodEntry { name: m.name, descriptor: m.descriptor };
    match spec_first_code(m.attributes) {
        None => (seq![entry, TraceEventView::MissingCode { name: m.name }], Ok(())),
        Some(ca) => {
            let sizes = TraceEventView::FrameSizes {
                max_stack: ca.max_stack,
                max_locals: ca.max_locals,
            };
            let run = spec_run_code(cf, ca.code, 0);
            (seq![entry, sizes] + run.0, run.1)
        },
    }
}

/// The executor: the stateless dispatch engine.
pub struct Executor {}

impl Executor {
    /// Borrow the constant-pool entry at a 1-based index; out-of-range
    /// indices yield `None`.
    pub fn get_constant_pool_entry<'a>(&self, class: &'a Class, index: usize) -> (r: Option<
        &'a ConstantPoolEntry,
    >)
        ensures
            match r {
                Some(e) => spec_pool_entry(class.class_file.deep_view().constant_pool, index as int)
                    == Some(e.deep_view()),
                None => spec_pool_entry(
                    class.class_file.deep_view().constant_pool,
                    index as int,
                ) is None,
            },
    {
        if index >= 1 && index <= class.class_file.constant_pool.len() {
            Some(&class.class_file.constant_pool[index - 1])
        } else {
            None
        }
    }

    /// Resolve a `getstatic` operand through the pool.
    fn resolve_getstatic(&self, class: &Class, index: usize) -> (r: Option<
        (String, String, String),
    >)
        ensures
            match r {
                Some(t3) => spec_resolve_getstatic(class.class_file.deep_view(), index as int)
                    == Some((t3.0@, t3.1@, t3.2@)),
                None => spec_resolve_getstatic(
                    class.class_file.deep_view(),
                    index as int,
                ) is None,
            },
    {
        let (ci, nti) = match self.get_constant_pool_entry(class, index) {
            Some(ConstantPoolEntry::FieldRef(ci, nti)) => (*ci, *nti),
            _ => {
                return None;
            },
        };
        let ni = match self.get_constant_pool_entry(class, ci as usize) {
            Some(ConstantPoolEntry::ClassRef(ni)) => *ni,
            _ => {
                return None;
            },
        };
        let cn = match class.class_file.get_constant_pool_string(ni as usize) {
            Some(s) => s,
            None => {
                return None;
            },
        };
        let (fni, di) = match self.get_constant_pool_entry(class, nti as usize) {
            Some(ConstantPoolEntry::NameAndType(fni, di)) => (*fni, *di),
            _ => {
                return None;
            },
        };
        let fname = match class.class_file.get_constant_pool_string(fni as usize) {
            Some(s) => s,
            None => {
                return None;
            },
        };
        let d = match class.class_file.get_constant_pool_string(di as usize) {
            Some(s) => s,
            None => {
                return None;
            },
        };
        Some((cn, fname, d))
    }

    /// Dispatch the code from the frame's current counter until the code
    /// ends or a fault aborts it, emitting the trace. Locals, stack and
    /// stack pointer are untouched by this revision's opcodes.
    pub fn execute_byte_code(&self, class: &Class, byte_code: &Vec<u8>, scope: &mut Scope) -> (r: (
        Vec<TraceEvent>,
        Result<(), RuntimeFault>,
    ))
        ensures
            ({
                let s = spec_run_code(
                    class.class_file.deep_view(),
                    byte_code@,
                    old(scope).program_counter as int,
                );
                &&& r.0.deep_view() == s.0
                &&& r.1 == s.1
                &&& final(scope).program_counter == s.2
                &&& final(scope).locals == old(scope).locals
                &&& final(scope).stack == old(scope).stack
                &&& final(scope).stack_pointer == old(scope).stack_pointer
            }),
    {
        let ghost cfv = class.class_file.deep_view();
        let ghost code = byte_code@;
        let ghost pc0 = old(scope).program_counter as int;
        let mut trace: Vec<TraceEvent> = Vec::new();
        proof {
            assert(trace.deep_view() =~= Seq::<TraceEventView>::empty());
            assert(Seq::<TraceEventView>::empty() + spec_run_code(cfv, code, pc0).0
                =~= spec_run_code(cfv, code, pc0).0);
        }
        while scope.program_counter < byte_code.len()
            invariant
                cfv == class.class_file.deep_view(),
                code == byte_code@,
                pc0 == old(scope).program_counter as int,
                spec_run_code(cfv, code, pc0).0 == trace.deep_view() + spec_run_code(
                    cfv,
                    code,
                    scope.program_counter as int,
                ).0,
                spec_run_code(cfv, code, pc0).1 == spec_run_code(
                    cfv,
                    code,
                    scope.program_counter as int,
                ).1,
                spec_run_code(cfv, code, pc0).2 == spec_run_code(
                    cfv,
                    code,
                    scope.program_counter as int,
                ).2,
                scope.locals == old(scope).locals,
                scope.stack == old(scope).stack,
                scope.stack_pointer == old(scope).stack_pointer,
            decreases byte_code@.len() - scope.program_counter,
        {
            let pc = scope.program_counter;
            let op = byte_code[pc];
            let ghost cur = spec_run_code(cfv, code, pc as int);
            let ghost ev = TraceEventView::Instruction { pc: pc as int, opcode: op };
            let ghost old_trace = trace.deep_view();
            proof {
                crate::reader::lemma_deep_view_elems(trace);
            }
            trace.push(TraceEvent::Instruction { pc, opcode: op });
            proof {
                crate::reader::lemma_deep_view_elems(trace);
                assert(trace.deep_view() =~= old_trace + seq![ev]);
            }
            if !is_defined_opcode(op) {
                proof {
                    assert(cur.0 =~= seq![ev]);
                    assert(cur.1 == Err::<(), RuntimeFault>(RuntimeFault::InvalidOpcode(pc, op)));
                    assert(cur.2 == pc as int);
                    assert(old_trace + seq![ev] =~= old_trace + cur.0);
                    assert(spec_run_code(cfv, code, pc0).0 == trace.deep_view());
                }
                return (trace, Err(RuntimeFault::InvalidOpcode(pc, op)));
            }
            if op == 0xB2 {
                if byte_code.len() - pc >= 3 {
                    let idx: u16 = (byte_code[pc + 1] as u16) * 256 + (byte_code[pc + 2] as u16);
                    match self.resolve_getstatic(class, idx as usize) {
                        Some(t3) => {
                            let ghost sf = TraceEventView::StaticField {
                                class_name: t3.0@,
                                field_name: t3.1@,
                                descriptor: t3.2@,
                            };
                            let ghost mid_trace = trace.deep_view();
                            proof {
                                crate::reader::lemma_deep_view_elems(trace);
                            }
                            trace.push(
                                TraceEvent::StaticField {
                                    class_name: t3.0,
                                    field_name: t3.1,
                                    descriptor: t3.2,
                                },
                            );
                            proof {
                                crate::reader::lemma_deep_view_elems(trace);
                                assert(trace.deep_view() =~= mid_trace + seq![sf]);
                                let rest = spec_run_code(cfv, code, pc + 3);
                                assert(cur.0 == seq![ev, sf] + rest.0);
                                assert((old_trace + seq![ev]) + seq![sf] =~= old_trace + seq![
                                    ev,
                                    sf,
                                ]);
                                assert((old_trace + seq![ev, sf]) + rest.0 =~= old_trace + (seq![
                                    ev,
                                    sf,
                                ] + rest.0));
                            }
                            scope.program_counter = pc + 3;
                        },
                        None => {
                            proof {
                                assert(cur.0 =~= seq![ev]);
                                assert(cur.1 == Err::<(), RuntimeFault>(
                                    RuntimeFault::ConstantPoolMismatch,
                                ));
                                assert(cur.2 == pc as int);
                                assert(old_trace + seq![ev] =~= old_trace + cur.0);
                                assert(spec_run_code(cfv, code, pc0).0 == trace.deep_view());
                            }
                            return (trace, Err(RuntimeFault::ConstantPoolMismatch));
                        },
                    }
                } else {
                    proof {
                        assert(cur.0 =~= seq![ev]);
                        assert(cur.1 == Err::<(), RuntimeFault>(
                            RuntimeFault::InvalidOpcode(pc, op),
                        ));
                        assert(cur.2 == pc as int);
                        assert(old_trace + seq![ev] =~= old_trace + cur.0);
                        assert(spec_run_code(cfv, code, pc0).0 == trace.deep_view());
                    }
                    return (trace, Err(RuntimeFault::InvalidOpcode(pc, op)));
                }
            } else {
                let adv = 1 + instruction_length(op);
                let rem = byte_code.len() - pc;
                let next: usize = if adv <= rem {
                    pc + adv
                } else {
                    byte_code.len()
                };
                proof {
                    let rest = spec_run_code(cfv, code, next as int);
                    assert(cur.0 == seq![ev] + rest.0);
                    assert((old_trace + seq![ev]) + rest.0 =~= old_trace + (seq![ev] + rest.0));
                }
                scope.program_counter = next;
            }
        }
        proof {
            assert(spec_run_code(cfv, code, scope.program_counter as int) == (
                Seq::<TraceEventView>::empty(),
                Ok::<(), RuntimeFault>(()),
                scope.program_counter as int,
            ));
            assert(trace.deep_view() + Seq::<TraceEventView>::empty() =~= trace.deep_view());
            assert(spec_run_code(cfv, code, pc0).0 == trace.deep_view());
        }
        (trace, Ok(()))
    }

    /// Execute one method: find its code attribute, allocate a frame of
    /// uninitialized slots sized to it, and dispatch. A method without a
    /// code attribute is reported in the trace and skipped.
    pub fn execute_method(&self, class: &Class, method: &Method) -> (r: (
        Vec<TraceEvent>,
        Result<(), RuntimeFault>,
    ))
        ensures
            r.0.deep_view() == spec_execute_method(
                class.class_file.deep_view(),
                method.deep_view(),
            ).0,
            r.1 == spec_execute_method(class.class_file.deep_view(), method.deep_view()).1,
    {
        let ghost attrs = method.deep_view().attributes;
        let ghost entry = TraceEventView::MethodEntry {
            name: method.deep_view().name,
            descriptor: method.deep_view().descriptor,
        };
        let mut trace: Vec<TraceEvent> = Vec::new();
        trace.push(
            TraceEvent::MethodEntry {
                name: method.name.clone(),
                descriptor: method.descriptor.clone(),
            },
        );
        proof {
            crate::reader::lemma_deep_view_elems(trace);
            assert(trace.deep_view() =~= seq![entry]);
            assert(attrs.skip(0) =~= attrs);
        }
        let n = method.attributes.len();
        let mut k: usize = 0;
        while k < n
            invariant
                n == method.attributes@.len(),
                k <= n,
                attrs == method.deep_view().attributes,
                attrs.len() == n,
                entry == (TraceEventView::MethodEntry {
                    name: method.deep_view().name,
                    descriptor: method.deep_view().descriptor,
                }),
                trace.deep_view() == seq![entry],
                spec_first_code(attrs) == spec_first_code(attrs.skip(k as int)),
            decreases n - k,
        {
            proof {
                assert(attrs.skip(k as int)[0] == attrs[k as int]);
                assert(attrs.skip(k as int).drop_first() =~= attrs.skip(k as int + 1));
            }
            match &method.attributes[k] {
                Attribute::Code(ca) => {
                    let ghost cav = ca.deep_view();
                    let ghost sizes = TraceEventView::FrameSizes {
                        max_stack: cav.max_stack,
                        max_locals: cav.max_locals,
                    };
                    proof {
                        crate::reader::lemma_deep_view_elems(trace);
                    }
                    trace.push(
                        TraceEvent::FrameSizes { max_stack: ca.max_stack, max_locals: ca.max_locals },
                    );
                    proof {
                        crate::reader::lemma_deep_view_elems(trace);
                        assert(trace.deep_view() =~= seq![entry, sizes]);
                        assert(ca.code.deep_view() =~= ca.code@);
                    }
                    let mut scope = Scope {
                        program_counter: 0,
                        locals: vec![Value::Uninit; ca.max_locals as usize],
                        stack: vec![Value::Uninit; ca.max_stack as usize],
                        stack_pointer: 0,
                    };
                    let (mut t2, res) = self.execute_byte_code(class, &ca.code, &mut scope);
                    let ghost t2v = t2.deep_view();
                    proof {
                        crate::reader::lemma_deep_view_elems(trace);
                        crate::reader::lemma_deep_view_elems(t2);
                    }
                    trace.append(&mut t2);
                    proof {
                        crate::reader::lemma_deep_view_elems(trace);
                        assert(trace.deep_view() =~= seq![entry, sizes] + t2v);
                    }
                    return (trace, res);
                },
                _ => {},
            }
            k = k + 1;
        }
        proof {
            assert(attrs.skip(n as int) =~= Seq::<SpecAttribute>::empty());
        }
        let ghost missing = TraceEventView::MissingCode { name: method.deep_view().name };
        proof {
            crate::reader::lemma_deep_view_elems(trace);
        }
        trace.push(TraceEvent::MissingCode { name: method.name.clone() });
        proof {
            crate::reader::lemma_deep_view_elems(trace);
            assert(trace.deep_view() =~= seq![entry, missing]);
        }
        (trace, Ok(()))
    }
}

/// The outcome of one `run`: the class's initializer first, when the class
/// has one and is not yet initialized; then its `main` method, whose
/// absence is fatal. A fault in the initializer aborts the run.
pub open spec fn spec_run_outcome(c: Class) -> (Seq<TraceEventView>, Result<(), RuntimeFault>) {
    let cfv = c.class_file.deep_view();
    let init_part = match c.methods.spec_get("<init>"@) {
        Some(mi) => if !c.initialized {
            spec_execute_method(cfv, mi.deep_view())
        } else {
            (Seq::<TraceEventView>::empty(), Ok(()))
        },
        None => (Seq::<TraceEventView>::empty(), Ok(())),
    };
    if init_part.1 is Err {
        init_part
    } else {
        match c.methods.spec_get("main"@) {
            None => (init_part.0, Err(RuntimeFault::NoMainMethod)),
            Some(mm) => {
                let main_part = spec_execute_method(cfv, mm.deep_view());
                (init_part.0 + main_part.0, main_part.1)
            },
        }
    }
}

/// The virtual machine: the entry archive, any library archives, and the
/// name of the class being executed.
pub struct VirtualMachine {
    pub main_jar: Jar,
    pub library_jars: Vec<Jar>,
    pub curr_class_name: String,
    pub executor: Executor,
}

impl VirtualMachine {
    /// Build a machine over an entry archive. Succeeds exactly when the
    /// archive's manifest names an entry class that the archive holds.
    pub fn new(jar: Jar) -> (r: Option<VirtualMachine>)
        requires
            jar.wf(),
        ensures
            match r {
                Some(vm) => {
                    &&& jar.spec_main_class_name() is Some
                    &&& jar.classes.spec_contains(jar.spec_main_class_name().unwrap())
                    &&& vm.main_jar == jar
                    &&& vm.curr_class_name@ == jar.spec_main_class_name().unwrap()
                    &&& vm.library_jars@ == Seq::<Jar>::empty()
                },
                None => jar.spec_main_class_name() is None || !jar.classes.spec_contains(
                    jar.spec_main_class_name().unwrap(),
                ),
            },
    {
        match jar.main_class_name() {
            Some(n) => match jar.classes.index_of(n.as_str()) {
                Some(_) => Some(
                    VirtualMachine {
                        main_jar: jar,
                        library_jars: Vec::new(),
                        curr_class_name: n,
                        executor: Executor {  },
                    },
                ),
                None => None,
            },
            None => None,
        }
    }

    /// Register a library archive for future symbolic resolution.
    pub fn add_library_jar(&mut self, jar: Jar)
        ensures
            final(self).library_jars@ == old(self).library_jars@.push(jar),
            final(self).main_jar == old(self).main_jar,
            final(self).curr_class_name == old(self).curr_class_name,
    {
        self.library_jars.push(jar);
    }

    /// Run the entry class: execute `<init>` once, when present and not yet
    /// done, mark the class initialized, then execute `main`. A missing
    /// entry class or `main` method is a fault; a missing `<init>` is not.
    /// The initialized flag moves from clear to set at most once, and never
    /// back.
    pub fn run(&mut self) -> (r: (Vec<TraceEvent>, Result<(), RuntimeFault>))
        requires
            old(self).main_jar.wf(),
        ensures
            old(self).main_jar.classes.spec_get(old(self).curr_class_name@) is None ==> (
            r.0.deep_view() == Seq::<TraceEventView>::empty() && r.1 == Err::<(), _>(
                RuntimeFault::NoMainClass,
            ) && *final(self) == *old(self)),
            match old(self).main_jar.classes.spec_get(old(self).curr_class_name@) {
                Some(c) => {
                    &&& r.0.deep_view() == spec_run_outcome(c).0
                    &&& r.1 == spec_run_outcome(c).1
                    &&& final(self).main_jar.wf()
                    &&& final(self).curr_class_name == old(self).curr_class_name
                    &&& final(self).library_jars == old(self).library_jars
                    &&& final(self).main_jar.name == old(self).main_jar.name
                    &&& final(self).main_jar.manifest == old(self).main_jar.manifest
                    &&& forall|n: Seq<char>|
                        n != old(self).curr_class_name@
                            ==> #[trigger] final(self).main_jar.classes.spec_get(n) == old(
                            self,
                        ).main_jar.classes.spec_get(n)
                    &&& final(self).main_jar.classes.spec_get(old(self).curr_class_name@) == Some(
                        Class {
                            class_file: c.class_file,
                            fields: c.fields,
                            methods: c.methods,
                            initialized: c.initialized || c.methods.spec_get("<init>"@) is Some,
                        },
                    )
                },
                None => true,
            },
    {
        let ghost curr = old(self).curr_class_name@;
        let idx = match self.main_jar.classes.index_of(self.curr_class_name.as_str()) {
            Some(i) => i,
            None => {
                let empty_trace: Vec<TraceEvent> = Vec::new();
                proof {
                    assert(empty_trace.deep_view() =~= Seq::<TraceEventView>::empty());
                }
                return (empty_trace, Err(RuntimeFault::NoMainClass));
            },
        };
        proof {
            self.main_jar.classes.lemma_get_at(curr, idx as int);
        }
        let ghost c0 = self.main_jar.classes.vals@[idx as int];
        let ghost old_classes = self.main_jar.classes;
        proof {
            assert(old(self).main_jar.classes.spec_get(curr) == Some(c0));
            assert(c0.methods.wf() && c0.fields.wf());
        }
        let mut c = self.main_jar.classes.vals.remove(idx);
        let mut trace: Vec<TraceEvent> = Vec::new();
        proof {
            assert(trace.deep_view() =~= Seq::<TraceEventView>::empty());
        }
        let mut fault: Option<RuntimeFault> = None;
        match c.methods.get("<init>") {
            Some(m) => {
                if !c.initialized {
                    let (t, res) = self.executor.execute_method(&c, m);
                    trace = t;
                    if let Err(f) = res {
                        fault = Some(f);
                    }
                }
                c.initialized = true;
            },
            None => {},
        }
        proof {
            assert(c.class_file == c0.class_file);
            assert(c.fields == c0.fields);
            assert(c.methods == c0.methods);
        }
        match fault {
            Some(f) => {
                self.main_jar.classes.vals.insert(idx, c);
                proof {
                    assert(self.main_jar.classes.vals@ =~= old_classes.vals@.update(
                        idx as int,
                        self.main_jar.classes.vals@[idx as int],
                    ));
                    self.finish_run_proof(old_classes, idx as int, curr, c0);
                }
                return (trace, Err(f));
            },
            None => {},
        }
        let result: Result<(), RuntimeFault> = match c.methods.get("main") {
            Some(mm) => {
                let (mut t2, res) = self.executor.execute_method(&c, mm);
                let ghost t2v = t2.deep_view();
                let ghost t1v = trace.deep_view();
                proof {
                    crate::reader::lemma_deep_view_elems(trace);
                    crate::reader::lemma_deep_view_elems(t2);
                }
                trace.append(&mut t2);
                proof {
                    crate::reader::lemma_deep_view_elems(trace);
                    assert(trace.deep_view() =~= t1v + t2v);
                }
                res
            },
            None => Err(RuntimeFault::NoMainMethod),
        };
        self.main_jar.classes.vals.insert(idx, c);
        proof {
            assert(self.main_jar.classes.vals@ =~= old_classes.vals@.update(
                idx as int,
                self.main_jar.classes.vals@[idx as int],
            ));
            self.finish_run_proof(old_classes, idx as int, curr, c0);
        }
        (trace, result)
    }

    /// After the class map's value at `idx` was replaced by the same class
    /// with its flag possibly set, every other binding is unchanged and the
    /// map is still well-formed.
    proof fn finish_run_proof(
        &self,
        old_classes: crate::strmap::StringMap<Class>,
        idx: int,
        curr: Seq<char>,
        c0: Class,
    )
        requires
            old_classes.wf(),
            0 <= idx < old_classes.spec_key_seq().len(),
            old_classes.spec_key_seq()[idx] == curr,
            old_classes.vals@[idx] == c0,
            self.main_jar.classes.keys == old_classes.keys,
            self.main_jar.classes.vals@ == old_classes.vals@.update(
                idx,
                self.main_jar.classes.vals@[idx],
            ),
            self.main_jar.classes.vals@.len() == old_classes.vals@.len(),
        ensures
            self.main_jar.classes.wf(),
            self.main_jar.classes.spec_get(curr) == Some(self.main_jar.classes.vals@[idx]),
            forall|n: Seq<char>|
                n != curr ==> #[trigger] self.main_jar.classes.spec_get(n)
                    == old_classes.spec_get(n),
    {
        let m = self.main_jar.classes;
        assert(m.spec_key_seq() =~= old_classes.spec_key_seq());
        m.lemma_get_at(curr, idx);
        assert forall|n: Seq<char>| n != curr implies #[trigger] m.spec_get(n)
            == old_classes.spec_get(n) by {
            if old_classes.spec_contains(n) {
                let j = choose|j: int|
                    0 <= j < old_classes.spec_key_seq().len() && old_classes.spec_key_seq()[j]
                        == n;
                old_classes.lemma_get_at(n, j);
                m.lemma_get_at(n, j);
            } else {
                assert(!m.spec_contains(n));
            }
        }
    }
}


/// Whether a trace event is an instruction dispatched inside the given
/// range of code offsets; non-instruction events pass trivially.
pub open spec fn spec_event_in_bounds(e: TraceEventView, lo: int, hi: int) -> bool {
    match e {
        TraceEventView::Instruction { pc, opcode } => lo <= pc < hi,
        _ => true,
    }
}

/// The dispatcher never corrupts the program counter: starting inside the
/// code, it ends at or before the end of the code, never moves backwards,
/// and every instruction it dispatches stood at a valid offset inside the
/// code.
pub proof fn lemma_dispatch_counter_bounded(cf: SpecClassFile, code: Seq<u8>, pc: int)
    requires
        0 <= pc <= code.len(),
    ensures
        pc <= spec_run_code(cf, code, pc).2 <= code.len(),
        forall|k: int|
            0 <= k < spec_run_code(cf, code, pc).0.len() ==> spec_event_in_bounds(
                #[trigger] spec_run_code(cf, code, pc).0[k],
                pc,
                code.len() as int,
            ),
    decreases spec_code_rem(code, pc),
{
    let r = spec_run_code(cf, code, pc);
    if pc >= code.len() {
    } else {
        let op = code[pc];
        let ev = TraceEventView::Instruction { pc: pc, opcode: op };
        if !spec_is_defined_opcode(op) {
        } else if op == 0xB2 {
            if pc + 3 <= code.len() {
                match spec_resolve_getstatic(cf, crate::reader::spec_be_u16(code, pc + 1)) {
                    Some(t3) => {
                        let rest = spec_run_code(cf, code, pc + 3);
                        lemma_dispatch_counter_bounded(cf, code, pc + 3);
                        let sf = TraceEventView::StaticField {
                            class_name: t3.0,
                            field_name: t3.1,
                            descriptor: t3.2,
                        };
                        assert forall|k: int|
                            0 <= k < r.0.len() implies spec_event_in_bounds(
                            #[trigger] r.0[k],
                            pc,
                            code.len() as int,
                        ) by {
                            if k >= 2 {
                                assert(r.0[k] == rest.0[k - 2]);
                            }
                        }
                    },
                    None => {},
                }
            }
        } else {
            let next = if pc + 1 + spec_instruction_length(op) <= code.len() {
                pc + 1 + spec_instruction_length(op)
            } else {
                code.len() as int
            };
            let rest = spec_run_code(cf, code, next);
            lemma_dispatch_counter_bounded(cf, code, next);
            assert forall|k: int|
                0 <= k < r.0.len() implies spec_event_in_bounds(
                #[trigger] r.0[k],
                pc,
                code.len() as int,
            ) by {
                if k >= 1 {
                    assert(r.0[k] == rest.0[k - 1]);
                }
            }
        }
    }
}

} // verus!
