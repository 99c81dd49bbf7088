use vstd::prelude::*;

verus! {

/// The instructions of the machine, one variant per opcode number.
#[allow(non_camel_case_types, clippy::upper_case_acronyms)]
#[derive(Debug, Clone, Copy, PartialEq, Eq, Structural)]
pub enum OPCode {
    ADD,
    SUB,
    MUL,
    DIV,
    MOD,
    NEG,
    BITAND,
    BITOR,
    BITXOR,
    BITNOT,
    SHIFTL,
    SSHIFTR,
    USHIFTR,
    JUMP,
    JZ,
    JNZ,
    JEQ,
    JNE,
    JLT,
    JGE,
    JGT,
    JLE,
    JLTU,
    JGEU,
    JGTU,
    JLEU,
    JUMPABS,
    COPY,
    COPYS,
    COPYB,
    SEXS,
    SEXB,
    ALOAD,
    ALOADS,
    ALOADB,
    ALOADBIT,
    ASTORE,
    ASTORES,
    ASTOREB,
    ASTOREBIT,
    STKCOUNT,
    STKPEEK,
    STKSWAP,
    STKROLL,
    STKCOPY,
    CALL,
    RETURN,
    TAILCALL,
    CALLF,
    CALLFI,
    CALLFII,
    CALLFIII,
    CATCH,
    THROW,
    GETMEMSIZE,
    SETMEMSIZE,
    MALLOC,
    MFREE,
    QUIT,
    VERIFY,
    RESTART,
    SAVE,
    RESTORE,
    SAVEUNDO,
    RESTOREUNDO,
    PROTECT,
    HASUNDO,
    DISCARDUNDO,
    GETIOSYS,
    SETIOSYS,
    STREAMCHAR,
    STREAMNUM,
    STREAMSTR,
    STREAMUNICHAR,
    GETSTRINGTBL,
    SETSTRINGTBL,
    NUMTOF,
    FTONUMZ,
    FTONUMN,
    CEIL,
    FLOOR,
    FADD,
    FSUB,
    FMUL,
    FDIV,
    FMOD,
    SQRT,
    EXP,
    LOG,
    POW,
    SIN,
    COS,
    TAN,
    ASIN,
    ACOS,
    ATAN,
    ATAN2,
    NUMTOD,
    DTONUMZ,
    DTONUMN,
    FTOD,
    DTOF,
    DCEIL,
    DFLOOR,
    DADD,
    DSUB,
    DMUL,
    DDIV,
    DMODR,
    DMODQ,
    DSQRT,
    DEXP,
    DLOG,
    DPOW,
    DSIN,
    DCOS,
    DTAN,
    DASIN,
    DACOS,
    DATAN,
    DATAN2,
    JFEQ,
    JFNE,
    JFLT,
    JFLE,
    JFGT,
    JFGE,
    JISNAN,
    JISINF,
    JDEQ,
    JDNE,
    JDLT,
    JDLE,
    JDGT,
    JDGE,
    JDISNAN,
    JDISINF,
    RANDOM,
    SETRANDOM,
    MZERO,
    MCOPY,
    LINEARSEARCH,
    BINARYSEARCH,
    LINKEDSEARCH,
    ACCELFUNC,
    ACCELPARAM,
    NOP,
    GESTALT,
    DEBUGTRAP,
    GLK,
}

/// The opcode that the number `v` denotes, if any.
pub open spec fn opcode_of(v: u32) -> Option<OPCode> {
    match v {
        0x10 => Some(OPCode::ADD),
        0x11 => Some(OPCode::SUB),
        0x12 => Some(OPCode::MUL),
        0x13 => Some(OPCode::DIV),
        0x14 => Some(OPCode::MOD),
        0x15 => Some(OPCode::NEG),
        0x18 => Some(OPCode::BITAND),
        0x19 => Some(OPCode::BITOR),
        0x1A => Some(OPCode::BITXOR),
        0x1B => Some(OPCode::BITNOT),
        0x1C => Some(OPCode::SHIFTL),
        0x1D => Some(OPCode::SSHIFTR),
        0x1E => Some(OPCode::USHIFTR),
        0x20 => Some(OPCode::JUMP),
        0x22 => Some(OPCode::JZ),
        0x23 => Some(OPCode::JNZ),
        0x24 => Some(OPCode::JEQ),
        0x25 => Some(OPCode::JNE),
        0x26 => Some(OPCode::JLT),
        0x27 => Some(OPCode::JGE),
        0x28 => Some(OPCode::JGT),
        0x29 => Some(OPCode::JLE),
        0x2A => Some(OPCode::JLTU),
        0x2B => Some(OPCode::JGEU),
        0x2C => Some(OPCode::JGTU),
        0x2D => Some(OPCode::JLEU),
        0x104 => Some(OPCode::JUMPABS),
        0x40 => Some(OPCode::COPY),
        0x41 => Some(OPCode::COPYS),
        0x42 => Some(OPCode::COPYB),
        0x44 => Some(OPCode::SEXS),
        0x45 => Some(OPCode::SEXB),
        0x48 => Some(OPCode::ALOAD),
        0x49 => Some(OPCode::ALOADS),
        0x4A => Some(OPCode::ALOADB),
        0x4B => Some(OPCode::ALOADBIT),
        0x4C => Some(OPCode::ASTORE),
        0x4D => Some(OPCode::ASTORES),
        0x4E => Some(OPCode::ASTOREB),
        0x4F => Some(OPCode::ASTOREBIT),
        0x50 => Some(OPCode::STKCOUNT),
        0x51 => Some(OPCode::STKPEEK),
        0x52 => Some(OPCode::STKSWAP),
        0x53 => Some(OPCode::STKROLL),
        0x54 => Some(OPCode::STKCOPY),
        0x30 => Some(OPCode::CALL),
        0x31 => Some(OPCode::RETURN),
        0x34 => Some(OPCode::TAILCALL),
        0x160 => Some(OPCode::CALLF),
        0x161 => Some(OPCode::CALLFI),
        0x162 => Some(OPCode::CALLFII),
        0x163 => Some(OPCode::CALLFIII),
        0x32 => Some(OPCode::CATCH),
        0x33 => Some(OPCode::THROW),
        0x102 => Some(OPCode::GETMEMSIZE),
        0x103 => Some(OPCode::SETMEMSIZE),
        0x178 => Some(OPCode::MALLOC),
        0x179 => Some(OPCode::MFREE),
        0x120 => Some(OPCode::QUIT),
        0x121 => Some(OPCode::VERIFY),
        0x122 => Some(OPCode::RESTART),
        0x123 => Some(OPCode::SAVE),
        0x124 => Some(OPCode::RESTORE),
        0x125 => Some(OPCode::SAVEUNDO),
        0x126 => Some(OPCode::RESTOREUNDO),
        0x127 => Some(OPCode::PROTECT),
        0x128 => Some(OPCode::HASUNDO),
        0x129 => Some(OPCode::DISCARDUNDO),
        0x148 => Some(OPCode::GETIOSYS),
        0x149 => Some(OPCode::SETIOSYS),
        0x70 => Some(OPCode::STREAMCHAR),
        0x71 => Some(OPCode::STREAMNUM),
        0x72 => Some(OPCode::STREAMSTR),
        0x73 => Some(OPCode::STREAMUNICHAR),
        0x140 => Some(OPCode::GETSTRINGTBL),
        0x141 => Some(OPCode::SETSTRINGTBL),
        0x190 => Some(OPCode::NUMTOF),
        0x191 => Some(OPCode::FTONUMZ),
        0x192 => Some(OPCode::FTONUMN),
        0x198 => Some(OPCode::CEIL),
        0x199 => Some(OPCode::FLOOR),
        0x1A0 => Some(OPCode::FADD),
        0x1A1 => Some(OPCode::FSUB),
        0x1A2 => Some(OPCode::FMUL),
        0x1A3 => Some(OPCode::FDIV),
        0x1A4 => Some(OPCode::FMOD),
        0x1A8 => Some(OPCode::SQRT),
        0x1A9 => Some(OPCode::EXP),
        0x1AA => Some(OPCode::LOG),
        0x1AB => Some(OPCode::POW),
        0x1B0 => Some(OPCode::SIN),
        0x1B1 => Some(OPCode::COS),
        0x1B2 => Some(OPCode::TAN),
        0x1B3 => Some(OPCode::ASIN),
        0x1B4 => Some(OPCode::ACOS),
        0x1B5 => Some(OPCode::ATAN),
        0x1B6 => Some(OPCode::ATAN2),
        0x200 => Some(OPCode::NUMTOD),
        0x201 => Some(OPCode::DTONUMZ),
        0x202 => Some(OPCode::DTONUMN),
        0x203 => Some(OPCode::FTOD),
        0x204 => Some(OPCode::DTOF),
        0x208 => Some(OPCode::DCEIL),
        0x209 => Some(OPCode::DFLOOR),
        0x210 => Some(OPCode::DADD),
        0x211 => Some(OPCode::DSUB),
        0x212 => Some(OPCode::DMUL),
        0x213 => Some(OPCode::DDIV),
        0x214 => Some(OPCode::DMODR),
        0x215 => Some(OPCode::DMODQ),
        0x218 => Some(OPCode::DSQRT),
        0x219 => Some(OPCode::DEXP),
        0x21A => Some(OPCode::DLOG),
        0x21B => Some(OPCode::DPOW),
        0x220 => Some(OPCode::DSIN),
        0x221 => Some(OPCode::DCOS),
        0x222 => Some(OPCode::DTAN),
        0x223 => Some(OPCode::DASIN),
        0x224 => Some(OPCode::DACOS),
        0x225 => Some(OPCode::DATAN),
        0x226 => Some(OPCode::DATAN2),
        0x1C0 => Some(OPCode::JFEQ),
        0x1C1 => Some(OPCode::JFNE),
        0x1C2 => Some(OPCode::JFLT),
        0x1C3 => Some(OPCode::JFLE),
        0x1C4 => Some(OPCode::JFGT),
        0x1C5 => Some(OPCode::JFGE),
        0x1C8 => Some(OPCode::JISNAN),
        0x1C9 => Some(OPCode::JISINF),
        0x230 => Some(OPCode::JDEQ),
        0x231 => Some(OPCode::JDNE),
        0x232 => Some(OPCode::JDLT),
        0x233 => Some(OPCode::JDLE),
        0x234 => Some(OPCode::JDGT),
        0x235 => Some(OPCode::JDGE),
        0x238 => Some(OPCode::JDISNAN),
        0x239 => Some(OPCode::JDISINF),
        0x110 => Some(OPCode::RANDOM),
        0x111 => Some(OPCode::SETRANDOM),
        0x170 => Some(OPCode::MZERO),
        0x171 => Some(OPCode::MCOPY),
        0x150 => Some(OPCode::LINEARSEARCH),
        0x151 => Some(OPCode::BINARYSEARCH),
        0x152 => Some(OPCode::LINKEDSEARCH),
        0x180 => Some(OPCode::ACCELFUNC),
        0x181 => Some(OPCode::ACCELPARAM),
        0x0 => Some(OPCode::NOP),
        0x100 => Some(OPCode::GESTALT),
        0x101 => Some(OPCode::DEBUGTRAP),
        0x130 => Some(OPCode::GLK),
        _ => None,
    }
}

impl OPCode {
    /// The number of the opcode.
    pub open spec fn spec_number(self) -> u32 {
        match self {
            OPCode::ADD => 0x10,
            OPCode::SUB => 0x11,
            OPCode::MUL => 0x12,
            OPCode::DIV => 0x13,
            OPCode::MOD => 0x14,
            OPCode::NEG => 0x15,
            OPCode::BITAND => 0x18,
            OPCode::BITOR => 0x19,
            OPCode::BITXOR => 0x1A,
            OPCode::BITNOT => 0x1B,
            OPCode::SHIFTL => 0x1C,
            OPCode::SSHIFTR => 0x1D,
            OPCode::USHIFTR => 0x1E,
            OPCode::JUMP => 0x20,
            OPCode::JZ => 0x22,
            OPCode::JNZ => 0x23,
            OPCode::JEQ => 0x24,
            OPCode::JNE => 0x25,
            OPCode::JLT => 0x26,
            OPCode::JGE => 0x27,
            OPCode::JGT => 0x28,
            OPCode::JLE => 0x29,
            OPCode::JLTU => 0x2A,
            OPCode::JGEU => 0x2B,
            OPCode::JGTU => 0x2C,
            OPCode::JLEU => 0x2D,
            OPCode::JUMPABS => 0x104,
            OPCode::COPY => 0x40,
            OPCode::COPYS => 0x41,
            OPCode::COPYB => 0x42,
            OPCode::SEXS => 0x44,
            OPCode::SEXB => 0x45,
            OPCode::ALOAD => 0x48,
            OPCode::ALOADS => 0x49,
            OPCode::ALOADB => 0x4A,
            OPCode::ALOADBIT => 0x4B,
            OPCode::ASTORE => 0x4C,
            OPCode::ASTORES => 0x4D,
            OPCode::ASTOREB => 0x4E,
            OPCode::ASTOREBIT => 0x4F,
            OPCode::STKCOUNT => 0x50,
            OPCode::STKPEEK => 0x51,
            OPCode::STKSWAP => 0x52,
            OPCode::STKROLL => 0x53,
            OPCode::STKCOPY => 0x54,
            OPCode::CALL => 0x30,
            OPCode::RETURN => 0x31,
            OPCode::TAILCALL => 0x34,
            OPCode::CALLF => 0x160,
            OPCode::CALLFI => 0x161,
            OPCode::CALLFII => 0x162,
            OPCode::CALLFIII => 0x163,
            OPCode::CATCH => 0x32,
            OPCode::THROW => 0x33,
            OPCode::GETMEMSIZE => 0x102,
            OPCode::SETMEMSIZE => 0x103,
            OPCode::MALLOC => 0x178,
            OPCode::MFREE => 0x179,
            OPCode::QUIT => 0x120,
            OPCode::VERIFY => 0x121,
            OPCode::RESTART => 0x122,
            OPCode::SAVE => 0x123,
            OPCode::RESTORE => 0x124,
            OPCode::SAVEUNDO => 0x125,
            OPCode::RESTOREUNDO => 0x126,
            OPCode::PROTECT => 0x127,
            OPCode::HASUNDO => 0x128,
            OPCode::DISCARDUNDO => 0x129,
            OPCode::GETIOSYS => 0x148,
            OPCode::SETIOSYS => 0x149,
            OPCode::STREAMCHAR => 0x70,
            OPCode::STREAMNUM => 0x71,
            OPCode::STREAMSTR => 0x72,
            OPCode::STREAMUNICHAR => 0x73,
            OPCode::GETSTRINGTBL => 0x140,
            OPCode::SETSTRINGTBL => 0x141,
            OPCode::NUMTOF => 0x190,
            OPCode::FTONUMZ => 0x191,
            OPCode::FTONUMN => 0x192,
            OPCode::CEIL => 0x198,
            OPCode::FLOOR => 0x199,
            OPCode::FADD => 0x1A0,
            OPCode::FSUB => 0x1A1,
            OPCode::FMUL => 0x1A2,
            OPCode::FDIV => 0x1A3,
            OPCode::FMOD => 0x1A4,
            OPCode::SQRT => 0x1A8,
            OPCode::EXP => 0x1A9,
            OPCode::LOG => 0x1AA,
            OPCode::POW => 0x1AB,
            OPCode::SIN => 0x1B0,
            OPCode::COS => 0x1B1,
            OPCode::TAN => 0x1B2,
            OPCode::ASIN => 0x1B3,
            OPCode::ACOS => 0x1B4,
            OPCode::ATAN => 0x1B5,
            OPCode::ATAN2 => 0x1B6,
            OPCode::NUMTOD => 0x200,
            OPCode::DTONUMZ => 0x201,
            OPCode::DTONUMN => 0x202,
            OPCode::FTOD => 0x203,
            OPCode::DTOF => 0x204,
            OPCode::DCEIL => 0x208,
            OPCode::DFLOOR => 0x209,
            OPCode::DADD => 0x210,
            OPCode::DSUB => 0x211,
            OPCode::DMUL => 0x212,
            OPCode::DDIV => 0x213,
            OPCode::DMODR => 0x214,
            OPCode::DMODQ => 0x215,
            OPCode::DSQRT => 0x218,
            OPCode::DEXP => 0x219,
            OPCode::DLOG => 0x21A,
            OPCode::DPOW => 0x21B,
            OPCode::DSIN => 0x220,
            OPCode::DCOS => 0x221,
            OPCode::DTAN => 0x222,
            OPCode::DASIN => 0x223,
            OPCode::DACOS => 0x224,
            OPCode::DATAN => 0x225,
            OPCode::DATAN2 => 0x226,
            OPCode::JFEQ => 0x1C0,
            OPCode::JFNE => 0x1C1,
            OPCode::JFLT => 0x1C2,
            OPCode::JFLE => 0x1C3,
            OPCode::JFGT => 0x1C4,
            OPCode::JFGE => 0x1C5,
            OPCode::JISNAN => 0x1C8,
            OPCode::JISINF => 0x1C9,
            OPCode::JDEQ => 0x230,
            OPCode::JDNE => 0x231,
            OPCode::JDLT => 0x232,
            OPCode::JDLE => 0x233,
            OPCode::JDGT => 0x234,
            OPCode::JDGE => 0x235,
            OPCode::JDISNAN => 0x238,
            OPCode::JDISINF => 0x239,
            OPCode::RANDOM => 0x110,
            OPCode::SETRANDOM => 0x111,
            OPCode::MZERO => 0x170,
            OPCode::MCOPY => 0x171,
            OPCode::LINEARSEARCH => 0x150,
            OPCode::BINARYSEARCH => 0x151,
            OPCode::LINKEDSEARCH => 0x152,
            OPCode::ACCELFUNC => 0x180,
            OPCode::ACCELPARAM => 0x181,
            OPCode::NOP => 0x0,
            OPCode::GESTALT => 0x100,
            OPCode::DEBUGTRAP => 0x101,
            OPCode::GLK => 0x130,
        }
    }

    /// How many operands the opcode loads and how many it stores.
    pub open spec fn spec_arity(self) -> (u8, u8) {
        match self {
            OPCode::STKSWAP | OPCode::QUIT | OPCode::RESTART | OPCode::DISCARDUNDO | OPCode::NOP => (0, 0),
            OPCode::STKCOUNT | OPCode::GETMEMSIZE | OPCode::VERIFY | OPCode::SAVEUNDO | OPCode::RESTOREUNDO | OPCode::HASUNDO | OPCode::GETSTRINGTBL => (0, 1),
            OPCode::GETIOSYS => (0, 2),
            OPCode::JUMP | OPCode::JUMPABS | OPCode::STKCOPY | OPCode::RETURN | OPCode::MFREE | OPCode::STREAMCHAR | OPCode::STREAMNUM | OPCode::STREAMSTR | OPCode::STREAMUNICHAR | OPCode::SETSTRINGTBL | OPCode::SETRANDOM | OPCode::DEBUGTRAP => (1, 0),
            OPCode::NEG | OPCode::BITNOT | OPCode::COPY | OPCode::COPYS | OPCode::COPYB | OPCode::SEXS | OPCode::SEXB | OPCode::STKPEEK | OPCode::CALLF | OPCode::CATCH | OPCode::SETMEMSIZE | OPCode::MALLOC | OPCode::SAVE | OPCode::RESTORE | OPCode::NUMTOF | OPCode::FTONUMZ | OPCode::FTONUMN | OPCode::CEIL | OPCode::FLOOR | OPCode::SQRT | OPCode::EXP | OPCode::LOG | OPCode::SIN | OPCode::COS | OPCode::TAN | OPCode::ASIN | OPCode::ACOS | OPCode::ATAN | OPCode::RANDOM => (1, 1),
            OPCode::NUMTOD | OPCode::FTOD => (1, 2),
            OPCode::JZ | OPCode::JNZ | OPCode::STKROLL | OPCode::TAILCALL | OPCode::THROW | OPCode::PROTECT | OPCode::SETIOSYS | OPCode::JISNAN | OPCode::JISINF | OPCode::MZERO | OPCode::ACCELFUNC | OPCode::ACCELPARAM => (2, 0),
            OPCode::ADD | OPCode::SUB | OPCode::MUL | OPCode::DIV | OPCode::MOD | OPCode::BITAND | OPCode::BITOR | OPCode::BITXOR | OPCode::SHIFTL | OPCode::SSHIFTR | OPCode::USHIFTR | OPCode::ALOAD | OPCode::ALOADS | OPCode::ALOADB | OPCode::ALOADBIT | OPCode::CALL | OPCode::CALLFI | OPCode::FADD | OPCode::FSUB | OPCode::FMUL | OPCode::FDIV | OPCode::POW | OPCode::ATAN2 | OPCode::DTONUMZ | OPCode::DTONUMN | OPCode::DTOF | OPCode::GESTALT | OPCode::GLK => (2, 1),
            OPCode::FMOD | OPCode::DCEIL | OPCode::DFLOOR | OPCode::DSQRT | OPCode::DEXP | OPCode::DLOG | OPCode::DSIN | OPCode::DCOS | OPCode::DTAN | OPCode::DASIN | OPCode::DACOS | OPCode::DATAN => (2, 2),
            OPCode::JEQ | OPCode::JNE | OPCode::JLT | OPCode::JGE | OPCode::JGT | OPCode::JLE | OPCode::JLTU | OPCode::JGEU | OPCode::JGTU | OPCode::JLEU | OPCode::ASTORE | OPCode::ASTORES | OPCode::ASTOREB | OPCode::ASTOREBIT | OPCode::JFLT | OPCode::JFLE | OPCode::JFGT | OPCode::JFGE | OPCode::JDISNAN | OPCode::JDISINF | OPCode::MCOPY => (3, 0),
            OPCode::CALLFII => (3, 1),
            OPCode::JFEQ | OPCode::JFNE => (4, 0),
            OPCode::CALLFIII => (4, 1),
            OPCode::DADD | OPCode::DSUB | OPCode::DMUL | OPCode::DDIV | OPCode::DMODR | OPCode::DMODQ | OPCode::DPOW | OPCode::DATAN2 => (4, 2),
            OPCode::JDLT | OPCode::JDLE | OPCode::JDGT | OPCode::JDGE => (5, 0),
            OPCode::LINKEDSEARCH => (6, 1),
            OPCode::JDEQ | OPCode::JDNE => (7, 0),
            OPCode::LINEARSEARCH | OPCode::BINARYSEARCH => (7, 1),
        }
    }

    /// The number of the opcode.
    pub fn number(self) -> (r: u32)
        ensures
            r == self.spec_number(),
    {
        match self {
            OPCode::ADD => 0x10,
            OPCode::SUB => 0x11,
            OPCode::MUL => 0x12,
            OPCode::DIV => 0x13,
            OPCode::MOD => 0x14,
            OPCode::NEG => 0x15,
            OPCode::BITAND => 0x18,
            OPCode::BITOR => 0x19,
            OPCode::BITXOR => 0x1A,
            OPCode::BITNOT => 0x1B,
            OPCode::SHIFTL => 0x1C,
            OPCode::SSHIFTR => 0x1D,
            OPCode::USHIFTR => 0x1E,
            OPCode::JUMP => 0x20,
            OPCode::JZ => 0x22,
            OPCode::JNZ => 0x23,
            OPCode::JEQ => 0x24,
            OPCode::JNE => 0x25,
            OPCode::JLT => 0x26,
            OPCode::JGE => 0x27,
            OPCode::JGT => 0x28,
            OPCode::JLE => 0x29,
            OPCode::JLTU => 0x2A,
            OPCode::JGEU => 0x2B,
            OPCode::JGTU => 0x2C,
            OPCode::JLEU => 0x2D,
            OPCode::JUMPABS => 0x104,
            OPCode::COPY => 0x40,
            OPCode::COPYS => 0x41,
            OPCode::COPYB => 0x42,
            OPCode::SEXS => 0x44,
            OPCode::SEXB => 0x45,
            OPCode::ALOAD => 0x48,
            OPCode::ALOADS => 0x49,
            OPCode::ALOADB => 0x4A,
            OPCode::ALOADBIT => 0x4B,
            OPCode::ASTORE => 0x4C,
            OPCode::ASTORES => 0x4D,
            OPCode::ASTOREB => 0x4E,
            OPCode::ASTOREBIT => 0x4F,
            OPCode::STKCOUNT => 0x50,
            OPCode::STKPEEK => 0x51,
            OPCode::STKSWAP => 0x52,
            OPCode::STKROLL => 0x53,
            OPCode::STKCOPY => 0x54,
            OPCode::CALL => 0x30,
            OPCode::RETURN => 0x31,
            OPCode::TAILCALL => 0x34,
            OPCode::CALLF => 0x160,
            OPCode::CALLFI => 0x161,
            OPCode::CALLFII => 0x162,
            OPCode::CALLFIII => 0x163,
            OPCode::CATCH => 0x32,
            OPCode::THROW => 0x33,
            OPCode::GETMEMSIZE => 0x102,
            OPCode::SETMEMSIZE => 0x103,
            OPCode::MALLOC => 0x178,
            OPCode::MFREE => 0x179,
            OPCode::QUIT => 0x120,
            OPCode::VERIFY => 0x121,
            OPCode::RESTART => 0x122,
            OPCode::SAVE => 0x123,
            OPCode::RESTORE => 0x124,
            OPCode::SAVEUNDO => 0x125,
            OPCode::RESTOREUNDO => 0x126,
            OPCode::PROTECT => 0x127,
            OPCode::HASUNDO => 0x128,
            OPCode::DISCARDUNDO => 0x129,
            OPCode::GETIOSYS => 0x148,
            OPCode::SETIOSYS => 0x149,
            OPCode::STREAMCHAR => 0x70,
            OPCode::STREAMNUM => 0x71,
            OPCode::STREAMSTR => 0x72,
            OPCode::STREAMUNICHAR => 0x73,
            OPCode::GETSTRINGTBL => 0x140,
            OPCode::SETSTRINGTBL => 0x141,
            OPCode::NUMTOF => 0x190,
            OPCode::FTONUMZ => 0x191,
            OPCode::FTONUMN => 0x192,
            OPCode::CEIL => 0x198,
            OPCode::FLOOR => 0x199,
            OPCode::FADD => 0x1A0,
            OPCode::FSUB => 0x1A1,
            OPCode::FMUL => 0x1A2,
            OPCode::FDIV => 0x1A3,
            OPCode::FMOD => 0x1A4,
            OPCode::SQRT => 0x1A8,
            OPCode::EXP => 0x1A9,
            OPCode::LOG => 0x1AA,
            OPCode::POW => 0x1AB,
            OPCode::SIN => 0x1B0,
            OPCode::COS => 0x1B1,
            OPCode::TAN => 0x1B2,
            OPCode::ASIN => 0x1B3,
            OPCode::ACOS => 0x1B4,
            OPCode::ATAN => 0x1B5,
            OPCode::ATAN2 => 0x1B6,
            OPCode::NUMTOD => 0x200,
            OPCode::DTONUMZ => 0x201,
            OPCode::DTONUMN => 0x202,
            OPCode::FTOD => 0x203,
            OPCode::DTOF => 0x204,
            OPCode::DCEIL => 0x208,
            OPCode::DFLOOR => 0x209,
            OPCode::DADD => 0x210,
            OPCode::DSUB => 0x211,
            OPCode::DMUL => 0x212,
            OPCode::DDIV => 0x213,
            OPCode::DMODR => 0x214,
            OPCode::DMODQ => 0x215,
            OPCode::DSQRT => 0x218,
            OPCode::DEXP => 0x219,
            OPCode::DLOG => 0x21A,
            OPCode::DPOW => 0x21B,
            OPCode::DSIN => 0x220,
            OPCode::DCOS => 0x221,
            OPCode::DTAN => 0x222,
            OPCode::DASIN => 0x223,
            OPCode::DACOS => 0x224,
            OPCode::DATAN => 0x225,
            OPCode::DATAN2 => 0x226,
            OPCode::JFEQ => 0x1C0,
            OPCode::JFNE => 0x1C1,
            OPCode::JFLT => 0x1C2,
            OPCode::JFLE => 0x1C3,
            OPCode::JFGT => 0x1C4,
            OPCode::JFGE => 0x1C5,
            OPCode::JISNAN => 0x1C8,
            OPCode::JISINF => 0x1C9,
            OPCode::JDEQ => 0x230,
            OPCode::JDNE => 0x231,
            OPCode::JDLT => 0x232,
            OPCode::JDLE => 0x233,
            OPCode::JDGT => 0x234,
            OPCode::JDGE => 0x235,
            OPCode::JDISNAN => 0x238,
            OPCode::JDISINF => 0x239,
            OPCode::RANDOM => 0x110,
            OPCode::SETRANDOM => 0x111,
            OPCode::MZERO => 0x170,
            OPCode::MCOPY => 0x171,
            OPCode::LINEARSEARCH => 0x150,
            OPCode::BINARYSEARCH => 0x151,
            OPCode::LINKEDSEARCH => 0x152,
            OPCode::ACCELFUNC => 0x180,
            OPCode::ACCELPARAM => 0x181,
            OPCode::NOP => 0x0,
            OPCode::GESTALT => 0x100,
            OPCode::DEBUGTRAP => 0x101,
            OPCode::GLK => 0x130,
        }
    }

    /// The opcode that the number `v` denotes, if any.
    pub fn from_number(v: u32) -> (r: Option<OPCode>)
        ensures
            r == opcode_of(v),
    {
        match v {
            0x10 => Some(OPCode::ADD),
            0x11 => Some(OPCode::SUB),
            0x12 => Some(OPCode::MUL),
            0x13 => Some(OPCode::DIV),
            0x14 => Some(OPCode::MOD),
            0x15 => Some(OPCode::NEG),
            0x18 => Some(OPCode::BITAND),
            0x19 => Some(OPCode::BITOR),
            0x1A => Some(OPCode::BITXOR),
            0x1B => Some(OPCode::BITNOT),
            0x1C => Some(OPCode::SHIFTL),
            0x1D => Some(OPCode::SSHIFTR),
            0x1E => Some(OPCode::USHIFTR),
            0x20 => Some(OPCode::JUMP),
            0x22 => Some(OPCode::JZ),
            0x23 => Some(OPCode::JNZ),
            0x24 => Some(OPCode::JEQ),
            0x25 => Some(OPCode::JNE),
            0x26 => Some(OPCode::JLT),
            0x27 => Some(OPCode::JGE),
            0x28 => Some(OPCode::JGT),
            0x29 => Some(OPCode::JLE),
            0x2A => Some(OPCode::JLTU),
            0x2B => Some(OPCode::JGEU),
            0x2C => Some(OPCode::JGTU),
            0x2D => Some(OPCode::JLEU),
            0x104 => Some(OPCode::JUMPABS),
            0x40 => Some(OPCode::COPY),
            0x41 => Some(OPCode::COPYS),
            0x42 => Some(OPCode::COPYB),
            0x44 => Some(OPCode::SEXS),
            0x45 => Some(OPCode::SEXB),
            0x48 => Some(OPCode::ALOAD),
            0x49 => Some(OPCode::ALOADS),
            0x4A => Some(OPCode::ALOADB),
            0x4B => Some(OPCode::ALOADBIT),
            0x4C => Some(OPCode::ASTORE),
            0x4D => Some(OPCode::ASTORES),
            0x4E => Some(OPCode::ASTOREB),
            0x4F => Some(OPCode::ASTOREBIT),
            0x50 => Some(OPCode::STKCOUNT),
            0x51 => Some(OPCode::STKPEEK),
            0x52 => Some(OPCode::STKSWAP),
            0x53 => Some(OPCode::STKROLL),
            0x54 => Some(OPCode::STKCOPY),
            0x30 => Some(OPCode::CALL),
            0x31 => Some(OPCode::RETURN),
            0x34 => Some(OPCode::TAILCALL),
            0x160 => Some(OPCode::CALLF),
            0x161 => Some(OPCode::CALLFI),
            0x162 => Some(OPCode::CALLFII),
            0x163 => Some(OPCode::CALLFIII),
            0x32 => Some(OPCode::CATCH),
            0x33 => Some(OPCode::THROW),
            0x102 => Some(OPCode::GETMEMSIZE),
            0x103 => Some(OPCode::SETMEMSIZE),
            0x178 => Some(OPCode::MALLOC),
            0x179 => Some(OPCode::MFREE),
            0x120 => Some(OPCode::QUIT),
            0x121 => Some(OPCode::VERIFY),
            0x122 => Some(OPCode::RESTART),
            0x123 => Some(OPCode::SAVE),
            0x124 => Some(OPCode::RESTORE),
            0x125 => Some(OPCode::SAVEUNDO),
            0x126 => Some(OPCode::RESTOREUNDO),
            0x127 => Some(OPCode::PROTECT),
            0x128 => Some(OPCode::HASUNDO),
            0x129 => Some(OPCode::DISCARDUNDO),
            0x148 => Some(OPCode::GETIOSYS),
            0x149 => Some(OPCode::SETIOSYS),
            0x70 => Some(OPCode::STREAMCHAR),
            0x71 => Some(OPCode::STREAMNUM),
            0x72 => Some(OPCode::STREAMSTR),
            0x73 => Some(OPCode::STREAMUNICHAR),
            0x140 => Some(OPCode::GETSTRINGTBL),
            0x141 => Some(OPCode::SETSTRINGTBL),
            0x190 => Some(OPCode::NUMTOF),
            0x191 => Some(OPCode::FTONUMZ),
            0x192 => Some(OPCode::FTONUMN),
            0x198 => Some(OPCode::CEIL),
            0x199 => Some(OPCode::FLOOR),
            0x1A0 => Some(OPCode::FADD),
            0x1A1 => Some(OPCode::FSUB),
            0x1A2 => Some(OPCode::FMUL),
            0x1A3 => Some(OPCode::FDIV),
            0x1A4 => Some(OPCode::FMOD),
            0x1A8 => Some(OPCode::SQRT),
            0x1A9 => Some(OPCode::EXP),
            0x1AA => Some(OPCode::LOG),
            0x1AB => Some(OPCode::POW),
            0x1B0 => Some(OPCode::SIN),
            0x1B1 => Some(OPCode::COS),
            0x1B2 => Some(OPCode::TAN),
            0x1B3 => Some(OPCode::ASIN),
            0x1B4 => Some(OPCode::ACOS),
            0x1B5 => Some(OPCode::ATAN),
            0x1B6 => Some(OPCode::ATAN2),
            0x200 => Some(OPCode::NUMTOD),
            0x201 => Some(OPCode::DTONUMZ),
            0x202 => Some(OPCode::DTONUMN),
            0x203 => Some(OPCode::FTOD),
            0x204 => Some(OPCode::DTOF),
            0x208 => Some(OPCode::DCEIL),
            0x209 => Some(OPCode::DFLOOR),
            0x210 => Some(OPCode::DADD),
            0x211 => Some(OPCode::DSUB),
            0x212 => Some(OPCode::DMUL),
            0x213 => Some(OPCode::DDIV),
            0x214 => Some(OPCode::DMODR),
            0x215 => Some(OPCode::DMODQ),
            0x218 => Some(OPCode::DSQRT),
            0x219 => Some(OPCode::DEXP),
            0x21A => Some(OPCode::DLOG),
            0x21B => Some(OPCode::DPOW),
            0x220 => Some(OPCode::DSIN),
            0x221 => Some(OPCode::DCOS),
            0x222 => Some(OPCode::DTAN),
            0x223 => Some(OPCode::DASIN),
            0x224 => Some(OPCode::DACOS),
            0x225 => Some(OPCode::DATAN),
            0x226 => Some(OPCode::DATAN2),
            0x1C0 => Some(OPCode::JFEQ),
            0x1C1 => Some(OPCode::JFNE),
            0x1C2 => Some(OPCode::JFLT),
            0x1C3 => Some(OPCode::JFLE),
            0x1C4 => Some(OPCode::JFGT),
            0x1C5 => Some(OPCode::JFGE),
            0x1C8 => Some(OPCode::JISNAN),
            0x1C9 => Some(OPCode::JISINF),
            0x230 => Some(OPCode::JDEQ),
            0x231 => Some(OPCode::JDNE),
            0x232 => Some(OPCode::JDLT),
            0x233 => Some(OPCode::JDLE),
            0x234 => Some(OPCode::JDGT),
            0x235 => Some(OPCode::JDGE),
            0x238 => Some(OPCode::JDISNAN),
            0x239 => Some(OPCode::JDISINF),
            0x110 => Some(OPCode::RANDOM),
            0x111 => Some(OPCode::SETRANDOM),
            0x170 => Some(OPCode::MZERO),
            0x171 => Some(OPCode::MCOPY),
            0x150 => Some(OPCode::LINEARSEARCH),
            0x151 => Some(OPCode::BINARYSEARCH),
            0x152 => Some(OPCode::LINKEDSEARCH),
            0x180 => Some(OPCode::ACCELFUNC),
            0x181 => Some(OPCode::ACCELPARAM),
            0x0 => Some(OPCode::NOP),
            0x100 => Some(OPCode::GESTALT),
            0x101 => Some(OPCode::DEBUGTRAP),
            0x130 => Some(OPCode::GLK),
            _ => None,
        }
    }

    /// How many operands the opcode loads and how many it stores.
    pub fn get_operand_types(self) -> (r: (u8, u8))
        ensures
            r == self.spec_arity(),
    {
        match self {
            OPCode::STKSWAP | OPCode::QUIT | OPCode::RESTART | OPCode::DISCARDUNDO | OPCode::NOP => (0, 0),
            OPCode::STKCOUNT | OPCode::GETMEMSIZE | OPCode::VERIFY | OPCode::SAVEUNDO | OPCode::RESTOREUNDO | OPCode::HASUNDO | OPCode::GETSTRINGTBL => (0, 1),
            OPCode::GETIOSYS => (0, 2),
            OPCode::JUMP | OPCode::JUMPABS | OPCode::STKCOPY | OPCode::RETURN | OPCode::MFREE | OPCode::STREAMCHAR | OPCode::STREAMNUM | OPCode::STREAMSTR | OPCode::STREAMUNICHAR | OPCode::SETSTRINGTBL | OPCode::SETRANDOM | OPCode::DEBUGTRAP => (1, 0),
            OPCode::NEG | OPCode::BITNOT | OPCode::COPY | OPCode::COPYS | OPCode::COPYB | OPCode::SEXS | OPCode::SEXB | OPCode::STKPEEK | OPCode::CALLF | OPCode::CATCH | OPCode::SETMEMSIZE | OPCode::MALLOC | OPCode::SAVE | OPCode::RESTORE | OPCode::NUMTOF | OPCode::FTONUMZ | OPCode::FTONUMN | OPCode::CEIL | OPCode::FLOOR | OPCode::SQRT | OPCode::EXP | OPCode::LOG | OPCode::SIN | OPCode::COS | OPCode::TAN | OPCode::ASIN | OPCode::ACOS | OPCode::ATAN | OPCode::RANDOM => (1, 1),
            OPCode::NUMTOD | OPCode::FTOD => (1, 2),
            OPCode::JZ | OPCode::JNZ | OPCode::STKROLL | OPCode::TAILCALL | OPCode::THROW | OPCode::PROTECT | OPCode::SETIOSYS | OPCode::JISNAN | OPCode::JISINF | OPCode::MZERO | OPCode::ACCELFUNC | OPCode::ACCELPARAM => (2, 0),
            OPCode::ADD | OPCode::SUB | OPCode::MUL | OPCode::DIV | OPCode::MOD | OPCode::BITAND | OPCode::BITOR | OPCode::BITXOR | OPCode::SHIFTL | OPCode::SSHIFTR | OPCode::USHIFTR | OPCode::ALOAD | OPCode::ALOADS | OPCode::ALOADB | OPCode::ALOADBIT | OPCode::CALL | OPCode::CALLFI | OPCode::FADD | OPCode::FSUB | OPCode::FMUL | OPCode::FDIV | OPCode::POW | OPCode::ATAN2 | OPCode::DTONUMZ | OPCode::DTONUMN | OPCode::DTOF | OPCode::GESTALT | OPCode::GLK => (2, 1),
            OPCode::FMOD | OPCode::DCEIL | OPCode::DFLOOR | OPCode::DSQRT | OPCode::DEXP | OPCode::DLOG | OPCode::DSIN | OPCode::DCOS | OPCode::DTAN | OPCode::DASIN | OPCode::DACOS | OPCode::DATAN => (2, 2),
            OPCode::JEQ | OPCode::JNE | OPCode::JLT | OPCode::JGE | OPCode::JGT | OPCode::JLE | OPCode::JLTU | OPCode::JGEU | OPCode::JGTU | OPCode::JLEU | OPCode::ASTORE | OPCode::ASTORES | OPCode::ASTOREB | OPCode::ASTOREBIT | OPCode::JFLT | OPCode::JFLE | OPCode::JFGT | OPCode::JFGE | OPCode::JDISNAN | OPCode::JDISINF | OPCode::MCOPY => (3, 0),
            OPCode::CALLFII => (3, 1),
            OPCode::JFEQ | OPCode::JFNE => (4, 0),
            OPCode::CALLFIII => (4, 1),
            OPCode::DADD | OPCode::DSUB | OPCode::DMUL | OPCode::DDIV | OPCode::DMODR | OPCode::DMODQ | OPCode::DPOW | OPCode::DATAN2 => (4, 2),
            OPCode::JDLT | OPCode::JDLE | OPCode::JDGT | OPCode::JDGE => (5, 0),
            OPCode::LINKEDSEARCH => (6, 1),
            OPCode::JDEQ | OPCode::JDNE => (7, 0),
            OPCode::LINEARSEARCH | OPCode::BINARYSEARCH => (7, 1),
        }
    }
}

/// Each opcode is found again from its number, so no two opcodes share one.
pub proof fn lemma_number_identifies(op: OPCode)
    ensures
        opcode_of(op.spec_number()) == Some(op),
{
}

/// A number that no opcode has is not a number of any opcode.
pub proof fn lemma_unknown_number(v: u32)
    requires
        opcode_of(v) is None,
    ensures
        forall|op: OPCode| op.spec_number() != v,
{
    assert forall|op: OPCode| op.spec_number() != v by {
        lemma_number_identifies(op);
    }
}

/// Every arity in the table has at most eight operands.
pub proof fn lemma_arity_bounded(op: OPCode)
    ensures
        op.spec_arity().0 + op.spec_arity().1 <= 8,
{
}

} // verus!
