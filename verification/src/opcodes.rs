use vstd::prelude::*;

verus! {

// The opcode table: for every byte value an instruction length, and for
// every defined opcode a mnemonic. The length is the fixed operand portion
// after the opcode byte. The two branch-table instructions and the wide
// prefix have variable encodings; the table lists the branch tables with
// length zero and the common wide form, and this revision, which executes
// them as no-ops, advances past the opcode byte accordingly.

/// The defined instruction set: byte values above it are not instructions
/// and fault the dispatcher.
pub open spec fn spec_is_defined_opcode(op: u8) -> bool {
    op <= 0xC9
}

/// The fixed operand length of every opcode byte; total over all 256 byte
/// values.
pub open spec fn spec_instruction_length(op: u8) -> int {
    if op == 0x10 || op == 0x12 || (0x15 <= op && op <= 0x19) || (0x36 <= op && op <= 0x3A)
        || op == 0xA9 || op == 0xBC {
        1
    } else if op == 0x11 || op == 0x13 || op == 0x14 || op == 0x84 || (0x99 <= op && op <= 0xA8)
        || (0xB2 <= op && op <= 0xB8) || op == 0xBB || op == 0xBD || op == 0xC0 || op == 0xC1
        || op == 0xC6 || op == 0xC7 {
        2
    } else if op == 0xC4 || op == 0xC5 {
        3
    } else if op == 0xB9 || op == 0xBA || op == 0xC8 || op == 0xC9 {
        4
    } else {
        0
    }
}

pub fn is_defined_opcode(op: u8) -> (r: bool)
    ensures
        r == spec_is_defined_opcode(op),
{
    op <= 0xC9
}

pub fn instruction_length(op: u8) -> (r: usize)
    ensures
        r == spec_instruction_length(op),
{
    if op == 0x10 || op == 0x12 || (0x15 <= op && op <= 0x19) || (0x36 <= op && op <= 0x3A)
        || op == 0xA9 || op == 0xBC {
        1
    } else if op == 0x11 || op == 0x13 || op == 0x14 || op == 0x84 || (0x99 <= op && op <= 0xA8)
        || (0xB2 <= op && op <= 0xB8) || op == 0xBB || op == 0xBD || op == 0xC0 || op == 0xC1
        || op == 0xC6 || op == 0xC7 {
        2
    } else if op == 0xC4 || op == 0xC5 {
        3
    } else if op == 0xB9 || op == 0xBA || op == 0xC8 || op == 0xC9 {
        4
    } else {
        0
    }
}

/// The mnemonic of every opcode byte; undefined bytes answer with a
/// question mark.
pub open spec fn spec_opcode_mnemonic(op: u8) -> Seq<char> {
    match op {
        0u8 => "nop"@,
        1u8 => "aconst_null"@,
        2u8 => "iconst_m1"@,
        3u8 => "iconst_0"@,
        4u8 => "iconst_1"@,
        5u8 => "iconst_2"@,
        6u8 => "iconst_3"@,
        7u8 => "iconst_4"@,
        8u8 => "iconst_5"@,
        9u8 => "lconst_0"@,
        10u8 => "lconst_1"@,
        11u8 => "fconst_0"@,
        12u8 => "fconst_1"@,
        13u8 => "fconst_2"@,
        14u8 => "dconst_0"@,
        15u8 => "dconst_1"@,
        16u8 => "bipush"@,
        17u8 => "sipush"@,
        18u8 => "ldc"@,
        19u8 => "ldc_w"@,
        20u8 => "ldc2_w"@,
        21u8 => "iload"@,
        22u8 => "lload"@,
        23u8 => "fload"@,
        24u8 => "dload"@,
        25u8 => "aload"@,
        26u8 => "iload_0"@,
        27u8 => "iload_1"@,
        28u8 => "iload_2"@,
        29u8 => "iload_3"@,
        30u8 => "lload_0"@,
        31u8 => "lload_1"@,
        32u8 => "lload_2"@,
        33u8 => "lload_3"@,
        34u8 => "fload_0"@,
        35u8 => "fload_1"@,
        36u8 => "fload_2"@,
        37u8 => "fload_3"@,
        38u8 => "dload_0"@,
        39u8 => "dload_1"@,
        40u8 => "dload_2"@,
        41u8 => "dload_3"@,
        42u8 => "aload_0"@,
        43u8 => "aload_1"@,
        44u8 => "aload_2"@,
        45u8 => "aload_3"@,
        46u8 => "iaload"@,
        47u8 => "laload"@,
        48u8 => "faload"@,
        49u8 => "daload"@,
        50u8 => "aaload"@,
        51u8 => "baload"@,
        52u8 => "caload"@,
        53u8 => "saload"@,
        54u8 => "istore"@,
        55u8 => "lstore"@,
        56u8 => "fstore"@,
        57u8 => "dstore"@,
        58u8 => "astore"@,
        59u8 => "istore_0"@,
        60u8 => "istore_1"@,
        61u8 => "istore_2"@,
        62u8 => "istore_3"@,
        63u8 => "lstore_0"@,
        64u8 => "lstore_1"@,
        65u8 => "lstore_2"@,
        66u8 => "lstore_3"@,
        67u8 => "fstore_0"@,
        68u8 => "fstore_1"@,
        69u8 => "fstore_2"@,
        70u8 => "fstore_3"@,
        71u8 => "dstore_0"@,
        72u8 => "dstore_1"@,
        73u8 => "dstore_2"@,
        74u8 => "dstore_3"@,
        75u8 => "astore_0"@,
        76u8 => "astore_1"@,
        77u8 => "astore_2"@,
        78u8 => "astore_3"@,
        79u8 => "iastore"@,
        80u8 => "lastore"@,
        81u8 => "fastore"@,
        82u8 => "dastore"@,
        83u8 => "aastore"@,
        84u8 => "bastore"@,
        85u8 => "castore"@,
        86u8 => "sastore"@,
        87u8 => "pop"@,
        88u8 => "pop2"@,
        89u8 => "dup"@,
        90u8 => "dup_x1"@,
        91u8 => "dup_x2"@,
        92u8 => "dup2"@,
        93u8 => "dup2_x1"@,
        94u8 => "dup2_x2"@,
        95u8 => "swap"@,
        96u8 => "iadd"@,
        97u8 => "ladd"@,
        98u8 => "fadd"@,
        99u8 => "dadd"@,
        100u8 => "isub"@,
        101u8 => "lsub"@,
        102u8 => "fsub"@,
        103u8 => "dsub"@,
        104u8 => "imul"@,
        105u8 => "lmul"@,
        106u8 => "fmul"@,
        107u8 => "dmul"@,
        108u8 => "idiv"@,
        109u8 => "ldiv"@,
        110u8 => "fdiv"@,
        111u8 => "ddiv"@,
        112u8 => "irem"@,
        113u8 => "lrem"@,
        114u8 => "frem"@,
        115u8 => "drem"@,
        116u8 => "ineg"@,
        117u8 => "lneg"@,
        118u8 => "fneg"@,
        119u8 => "dneg"@,
        120u8 => "ishl"@,
        121u8 => "lshl"@,
        122u8 => "ishr"@,
        123u8 => "lshr"@,
        124u8 => "iushr"@,
        125u8 => "lushr"@,
        126u8 => "iand"@,
        127u8 => "land"@,
        128u8 => "ior"@,
        129u8 => "lor"@,
        130u8 => "ixor"@,
        131u8 => "lxor"@,
        132u8 => "iinc"@,
        133u8 => "i2l"@,
        134u8 => "i2f"@,
        135u8 => "i2d"@,
        136u8 => "l2i"@,
        137u8 => "l2f"@,
        138u8 => "l2d"@,
        139u8 => "f2i"@,
        140u8 => "f2l"@,
        141u8 => "f2d"@,
        142u8 => "d2i"@,
        143u8 => "d2l"@,
        144u8 => "d2f"@,
        145u8 => "i2b"@,
        146u8 => "i2c"@,
        147u8 => "i2s"@,
        148u8 => "lcmp"@,
        149u8 => "fcmpl"@,
        150u8 => "fcmpg"@,
        151u8 => "dcmpl"@,
        152u8 => "dcmpg"@,
        153u8 => "ifeq"@,
        154u8 => "ifne"@,
        155u8 => "iflt"@,
        156u8 => "ifge"@,
        157u8 => "ifgt"@,
        158u8 => "ifle"@,
        159u8 => "if_icmpeq"@,
        160u8 => "if_icmpne"@,
        161u8 => "if_icmplt"@,
        162u8 => "if_icmpge"@,
        163u8 => "if_icmpgt"@,
        164u8 => "if_icmple"@,
        165u8 => "if_acmpeq"@,
        166u8 => "if_acmpne"@,
        167u8 => "goto"@,
        168u8 => "jsr"@,
        169u8 => "ret"@,
        170u8 => "tableswitch"@,
        171u8 => "lookupswitch"@,
        172u8 => "ireturn"@,
        173u8 => "lreturn"@,
        174u8 => "freturn"@,
        175u8 => "dreturn"@,
        176u8 => "areturn"@,
        177u8 => "return"@,
        178u8 => "getstatic"@,
        179u8 => "putstatic"@,
        180u8 => "getfield"@,
        181u8 => "putfield"@,
        182u8 => "invokevirtual"@,
        183u8 => "invokespecial"@,
        184u8 => "invokestatic"@,
        185u8 => "invokeinterface"@,
        186u8 => "invokedynamic"@,
        187u8 => "new"@,
        188u8 => "newarray"@,
        189u8 => "anewarray"@,
        190u8 => "arraylength"@,
        191u8 => "athrow"@,
        192u8 => "checkcast"@,
        193u8 => "instanceof"@,
        194u8 => "monitorenter"@,
        195u8 => "monitorexit"@,
        196u8 => "wide"@,
        197u8 => "multianewarray"@,
        198u8 => "ifnull"@,
        199u8 => "ifnonnull"@,
        200u8 => "goto_w"@,
        201u8 => "jsr_w"@,
        _ => "?"@,
    }
}

pub fn opcode_mnemonic(op: u8) -> (r: &'static str)
    ensures
        r@ == spec_opcode_mnemonic(op),
{
    match op {
        0u8 => "nop",
        1u8 => "aconst_null",
        2u8 => "iconst_m1",
        3u8 => "iconst_0",
        4u8 => "iconst_1",
        5u8 => "iconst_2",
        6u8 => "iconst_3",
        7u8 => "iconst_4",
        8u8 => "iconst_5",
        9u8 => "lconst_0",
        10u8 => "lconst_1",
        11u8 => "fconst_0",
        12u8 => "fconst_1",
        13u8 => "fconst_2",
        14u8 => "dconst_0",
        15u8 => "dconst_1",
        16u8 => "bipush",
        17u8 => "sipush",
        18u8 => "ldc",
        19u8 => "ldc_w",
        20u8 => "ldc2_w",
        21u8 => "iload",
        22u8 => "lload",
        23u8 => "fload",
        24u8 => "dload",
        25u8 => "aload",
        26u8 => "iload_0",
        27u8 => "iload_1",
        28u8 => "iload_2",
        29u8 => "iload_3",
        30u8 => "lload_0",
        31u8 => "lload_1",
        32u8 => "lload_2",
        33u8 => "lload_3",
        34u8 => "fload_0",
        35u8 => "fload_1",
        36u8 => "fload_2",
        37u8 => "fload_3",
        38u8 => "dload_0",
        39u8 => "dload_1",
        40u8 => "dload_2",
        41u8 => "dload_3",
        42u8 => "aload_0",
        43u8 => "aload_1",
        44u8 => "aload_2",
        45u8 => "aload_3",
        46u8 => "iaload",
        47u8 => "laload",
        48u8 => "faload",
        49u8 => "daload",
        50u8 => "aaload",
        51u8 => "baload",
        52u8 => "caload",
        53u8 => "saload",
        54u8 => "istore",
        55u8 => "lstore",
        56u8 => "fstore",
        57u8 => "dstore",
        58u8 => "astore",
        59u8 => "istore_0",
        60u8 => "istore_1",
        61u8 => "istore_2",
        62u8 => "istore_3",
        63u8 => "lstore_0",
        64u8 => "lstore_1",
        65u8 => "lstore_2",
        66u8 => "lstore_3",
        67u8 => "fstore_0",
        68u8 => "fstore_1",
        69u8 => "fstore_2",
        70u8 => "fstore_3",
        71u8 => "dstore_0",
        72u8 => "dstore_1",
        73u8 => "dstore_2",
        74u8 => "dstore_3",
        75u8 => "astore_0",
        76u8 => "astore_1",
        77u8 => "astore_2",
        78u8 => "astore_3",
        79u8 => "iastore",
        80u8 => "lastore",
        81u8 => "fastore",
        82u8 => "dastore",
        83u8 => "aastore",
        84u8 => "bastore",
        85u8 => "castore",
        86u8 => "sastore",
        87u8 => "pop",
        88u8 => "pop2",
        89u8 => "dup",
        90u8 => "dup_x1",
        91u8 => "dup_x2",
        92u8 => "dup2",
        93u8 => "dup2_x1",
        94u8 => "dup2_x2",
        95u8 => "swap",
        96u8 => "iadd",
        97u8 => "ladd",
        98u8 => "fadd",
        99u8 => "dadd",
        100u8 => "isub",
        101u8 => "lsub",
        102u8 => "fsub",
        103u8 => "dsub",
        104u8 => "imul",
        105u8 => "lmul",
        106u8 => "fmul",
        107u8 => "dmul",
        108u8 => "idiv",
        109u8 => "ldiv",
        110u8 => "fdiv",
        111u8 => "ddiv",
        112u8 => "irem",
        113u8 => "lrem",
        114u8 => "frem",
        115u8 => "drem",
        116u8 => "ineg",
        117u8 => "lneg",
        118u8 => "fneg",
        119u8 => "dneg",
        120u8 => "ishl",
        121u8 => "lshl",
        122u8 => "ishr",
        123u8 => "lshr",
        124u8 => "iushr",
        125u8 => "lushr",
        126u8 => "iand",
        127u8 => "land",
        128u8 => "ior",
        129u8 => "lor",
        130u8 => "ixor",
        131u8 => "lxor",
        132u8 => "iinc",
        133u8 => "i2l",
        134u8 => "i2f",
        135u8 => "i2d",
        136u8 => "l2i",
        137u8 => "l2f",
        138u8 => "l2d",
        139u8 => "f2i",
        140u8 => "f2l",
        141u8 => "f2d",
        142u8 => "d2i",
        143u8 => "d2l",
        144u8 => "d2f",
        145u8 => "i2b",
        146u8 => "i2c",
        147u8 => "i2s",
        148u8 => "lcmp",
        149u8 => "fcmpl",
        150u8 => "fcmpg",
        151u8 => "dcmpl",
        152u8 => "dcmpg",
        153u8 => "ifeq",
        154u8 => "ifne",
        155u8 => "iflt",
        156u8 => "ifge",
        157u8 => "ifgt",
        158u8 => "ifle",
        159u8 => "if_icmpeq",
        160u8 => "if_icmpne",
        161u8 => "if_icmplt",
        162u8 => "if_icmpge",
        163u8 => "if_icmpgt",
        164u8 => "if_icmple",
        165u8 => "if_acmpeq",
        166u8 => "if_acmpne",
        167u8 => "goto",
        168u8 => "jsr",
        169u8 => "ret",
        170u8 => "tableswitch",
        171u8 => "lookupswitch",
        172u8 => "ireturn",
        173u8 => "lreturn",
        174u8 => "freturn",
        175u8 => "dreturn",
        176u8 => "areturn",
        177u8 => "return",
        178u8 => "getstatic",
        179u8 => "putstatic",
        180u8 => "getfield",
        181u8 => "putfield",
        182u8 => "invokevirtual",
        183u8 => "invokespecial",
        184u8 => "invokestatic",
        185u8 => "invokeinterface",
        186u8 => "invokedynamic",
        187u8 => "new",
        188u8 => "newarray",
        189u8 => "anewarray",
        190u8 => "arraylength",
        191u8 => "athrow",
        192u8 => "checkcast",
        193u8 => "instanceof",
        194u8 => "monitorenter",
        195u8 => "monitorexit",
        196u8 => "wide",
        197u8 => "multianewarray",
        198u8 => "ifnull",
        199u8 => "ifnonnull",
        200u8 => "goto_w",
        201u8 => "jsr_w",
        _ => "?",
    }
}

} // verus!
