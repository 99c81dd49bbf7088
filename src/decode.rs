use vstd::prelude::*;
use crate::memory::{Memory, MemoryError, be16, be32, bytes32};
use crate::opcode::{OPCode, opcode_of};

verus! {

/// Errors of instruction decoding.
#[derive(Debug, Clone, Copy, PartialEq, Eq, Structural)]
pub enum Errors {
    MemoryError(MemoryError),
    UnknownOpcode(u32),
    ReservedOperandMode(u8),
    /// The instruction at this address runs past the end of memory.
    TruncatedInstruction(u32),
    /// A store to a constant, of this mode code.
    InvalidStoreTarget(u8),
}

/// A decoded instruction: its opcode and its operands in encoding order.
#[derive(Debug)]
pub struct Operation {
    pub code: OPCode,
    pub operands: Vec<Operand>,
}

#[derive(Debug, Clone, Copy, PartialEq, Eq, Structural)]
pub struct Operand {
    pub operand_mode: OperandMode,
    pub addressing_mode: OperandAddressingMode,
}

#[derive(Debug, Clone, Copy, PartialEq, Eq, Structural)]
pub enum OperandMode {
    Load,
    Store,
}

/// The sixteen addressing modes, in the order of their codes. Constants keep
/// their immediate sign-extended to 32 bits; addresses and local offsets keep
/// theirs zero-extended.
#[derive(Debug, Clone, Copy, PartialEq, Eq, Structural)]
pub enum OperandAddressingMode {
    ConstantZero,
    Constant1Byte(u32),
    Constant2Bytes(u32),
    Constant4Bytes(u32),
    Unused1,
    ContentOfAddress1Byte(u32),
    ContentOfAddress2Bytes(u32),
    ContentOfAddress4Bytes(u32),
    Stack,
    CallFrameLocalAtAddress1Byte(u32),
    CallFrameLocalAtAddress2Bytes(u32),
    CallFrameLocalAtAddress4Bytes(u32),
    Unused2,
    ContentOfRAMAddress1Byte(u32),
    ContentOfRAMAddress2Bytes(u32),
    ContentOfRAMAddress4Bytes(u32),
}

/// Size in bytes of the encoded opcode whose first byte is `b0`.
pub open spec fn opcode_width(b0: u8) -> int {
    if b0 < 0x80 {
        1
    } else if b0 < 0xC0 {
        2
    } else {
        4
    }
}

/// The opcode number encoded at `pc`.
pub open spec fn opcode_number_at(mem: Seq<u8>, pc: int) -> int {
    let b0 = mem[pc];
    if b0 < 0x80 {
        b0 as int
    } else if b0 < 0xC0 {
        be16(mem, pc) - 0x8000
    } else {
        be32(mem, pc) - 0xC000_0000
    }
}

/// Reading the opcode number at `pc`: the number and the address past it.
pub open spec fn read_opcode_number(mem: Seq<u8>, pc: u32) -> Result<(u32, u32), Errors> {
    if pc >= mem.len() || pc + opcode_width(mem[pc as int]) > mem.len() {
        Err(Errors::TruncatedInstruction(pc))
    } else {
        Ok(
            (
                opcode_number_at(mem, pc as int) as u32,
                (pc + opcode_width(mem[pc as int])) as u32,
            ),
        )
    }
}

/// The shortest encoding of the opcode number `n`.
pub open spec fn encode_number(n: int) -> Seq<u8> {
    if n < 0x80 {
        seq![n as u8]
    } else if n < 0x4000 {
        seq![(0x80 + n / 0x100) as u8, (n % 0x100) as u8]
    } else {
        bytes32(n + 0xC000_0000)
    }
}

/// Number of bytes that hold the modes of `n` operands, two to a byte.
pub open spec fn mode_bytes(n: int) -> int {
    (n + 1) / 2
}

/// The mode code of operand `k`, from the mode bytes at `m`: low nibble first.
pub open spec fn mode_code(mem: Seq<u8>, m: int, k: int) -> u8 {
    if k % 2 == 0 {
        mem[m + k / 2] % 16
    } else {
        mem[m + k / 2] / 16
    }
}

pub open spec fn is_reserved(code: u8) -> bool {
    code == 4 || code == 12
}

/// Size in bytes of the immediate that follows an operand of mode `code`.
pub open spec fn imm_width(code: u8) -> int {
    if code % 4 == 0 {
        0
    } else if code % 4 == 1 {
        1
    } else if code % 4 == 2 {
        2
    } else {
        4
    }
}

/// The big-endian immediate of `w` bytes at `p`.
pub open spec fn imm_value(mem: Seq<u8>, p: int, w: int) -> u32 {
    if w == 0 {
        0
    } else if w == 1 {
        mem[p] as u32
    } else if w == 2 {
        be16(mem, p) as u32
    } else {
        be32(mem, p) as u32
    }
}

/// The byte `v` sign-extended to 32 bits.
pub open spec fn sign_extend8(v: u32) -> u32 {
    if v >= 0x80 {
        (v + 0xFFFF_FF00) as u32
    } else {
        v
    }
}

/// The 16-bit `v` sign-extended to 32 bits.
pub open spec fn sign_extend16(v: u32) -> u32 {
    if v >= 0x8000 {
        (v + 0xFFFF_0000) as u32
    } else {
        v
    }
}

/// The addressing mode of code `code` with the immediate `v` as read.
pub open spec fn mode_of(code: u8, v: u32) -> OperandAddressingMode {
    match code {
        0 => OperandAddressingMode::ConstantZero,
        1 => OperandAddressingMode::Constant1Byte(sign_extend8(v)),
        2 => OperandAddressingMode::Constant2Bytes(sign_extend16(v)),
        3 => OperandAddressingMode::Constant4Bytes(v),
        4 => OperandAddressingMode::Unused1,
        5 => OperandAddressingMode::ContentOfAddress1Byte(v),
        6 => OperandAddressingMode::ContentOfAddress2Bytes(v),
        7 => OperandAddressingMode::ContentOfAddress4Bytes(v),
        8 => OperandAddressingMode::Stack,
        9 => OperandAddressingMode::CallFrameLocalAtAddress1Byte(v),
        10 => OperandAddressingMode::CallFrameLocalAtAddress2Bytes(v),
        11 => OperandAddressingMode::CallFrameLocalAtAddress4Bytes(v),
        12 => OperandAddressingMode::Unused2,
        13 => OperandAddressingMode::ContentOfRAMAddress1Byte(v),
        14 => OperandAddressingMode::ContentOfRAMAddress2Bytes(v),
        _ => OperandAddressingMode::ContentOfRAMAddress4Bytes(v),
    }
}

/// Direction of operand `k`: loads before stores, but for `CATCH`, whose
/// store comes first.
pub open spec fn direction(op: OPCode, k: int) -> OperandMode {
    if op == OPCode::CATCH {
        if k < op.spec_arity().1 {
            OperandMode::Store
        } else {
            OperandMode::Load
        }
    } else {
        if k < op.spec_arity().0 {
            OperandMode::Load
        } else {
            OperandMode::Store
        }
    }
}

pub open spec fn operand_count(op: OPCode) -> int {
    op.spec_arity().0 + op.spec_arity().1
}

/// Address of the immediate of operand `k`, the immediates starting at `base`.
pub open spec fn imm_pos(mem: Seq<u8>, m: int, base: int, k: nat) -> int
    decreases k,
{
    if k == 0 {
        base
    } else {
        imm_pos(mem, m, base, (k - 1) as nat) + imm_width(mode_code(mem, m, k - 1))
    }
}

/// Operand `k` has a valid mode and its immediate lies inside memory.
pub open spec fn operand_ok(mem: Seq<u8>, m: int, base: int, k: nat) -> bool {
    !is_reserved(mode_code(mem, m, k as int)) && imm_pos(mem, m, base, k) + imm_width(
        mode_code(mem, m, k as int),
    ) <= mem.len()
}

/// The error of operand `k` when it is not `operand_ok`; a truncation is
/// reported at `m`, where the operands start.
pub open spec fn operand_error(mem: Seq<u8>, m: int, base: int, k: nat) -> Errors {
    let code = mode_code(mem, m, k as int);
    if is_reserved(code) {
        Errors::ReservedOperandMode(code)
    } else {
        Errors::TruncatedInstruction(m as u32)
    }
}

/// Operand `k` of `op` as decoded.
pub open spec fn operand_at(mem: Seq<u8>, op: OPCode, m: int, base: int, k: nat) -> Operand {
    let code = mode_code(mem, m, k as int);
    Operand {
        operand_mode: direction(op, k as int),
        addressing_mode: mode_of(
            code,
            imm_value(mem, imm_pos(mem, m, base, k), imm_width(code)),
        ),
    }
}

/// The operands of `op` whose mode bytes start at `m`, as decoded, and the
/// address past them; or the first error met. Mode bytes that run past the
/// end of memory truncate the instruction; an opcode without operands reads
/// nothing.
pub open spec fn operands_result(
    mem: Seq<u8>,
    op: OPCode,
    m: int,
    r: Result<(Seq<Operand>, u32), Errors>,
) -> bool {
    let n = operand_count(op);
    let base = m + mode_bytes(n);
    match r {
        Ok((ops, next)) => {
            &&& n == 0 || base <= mem.len()
            &&& forall|k: nat| k < n ==> operand_ok(mem, m, base, k)
            &&& ops.len() == n
            &&& forall|k: nat| k < n ==> ops[k as int] == operand_at(mem, op, m, base, k)
            &&& next == imm_pos(mem, m, base, n as nat)
        },
        Err(e) => if n > 0 && base > mem.len() {
            e == Errors::TruncatedInstruction(m as u32)
        } else {
            exists|k: nat|
                #![trigger operand_ok(mem, m, base, k)]
                k < n && (forall|j: nat| j < k ==> operand_ok(mem, m, base, j)) && !operand_ok(
                    mem,
                    m,
                    base,
                    k,
                ) && e == operand_error(mem, m, base, k)
        },
    }
}

/// `e`, with a truncation reported at `pc`.
pub open spec fn at_pc(e: Errors, pc: u32) -> Errors {
    match e {
        Errors::TruncatedInstruction(_) => Errors::TruncatedInstruction(pc),
        _ => e,
    }
}

/// The result of decoding the instruction at `pc`; a truncation is reported
/// at `pc`.
pub open spec fn fetch_result(mem: Seq<u8>, pc: u32, r: Result<(Operation, u32), Errors>) -> bool {
    match read_opcode_number(mem, pc) {
        Err(e) => r == Err::<(Operation, u32), Errors>(e),
        Ok((num, m)) => match opcode_of(num) {
            None => r == Err::<(Operation, u32), Errors>(Errors::UnknownOpcode(num)),
            Some(op) => match r {
                Ok((o, next)) => o.code == op && operands_result(
                    mem,
                    op,
                    m as int,
                    Ok((o.operands@, next)),
                ),
                Err(e) => operands_result(mem, op, m as int, Err(at_pc(e, m))) && e == at_pc(
                    e,
                    pc,
                ),
            },
        },
    }
}

/// Reads the opcode number at `pc`: one byte below `0x80`, two bytes below
/// `0xC0` (less `0x8000`), else four bytes (less `0xC000_0000`).
pub fn fetch_opcode_number(memory: &Memory, pc: u32) -> (r: Result<(u32, u32), Errors>)
    requires
        memory.wf(),
    ensures
        r == read_opcode_number(memory.bytes(), pc),
{
    let b0 = match memory.get_u8(pc) {
        Ok(b) => b,
        Err(_) => return Err(Errors::TruncatedInstruction(pc)),
    };
    if b0 < 0x80 {
        Ok((b0 as u32, pc + 1))
    } else if b0 < 0xC0 {
        match memory.get_u16(pc) {
            Ok(v) => Ok(((v - 0x8000) as u32, pc + 2)),
            Err(_) => Err(Errors::TruncatedInstruction(pc)),
        }
    } else {
        match memory.get_u32(pc) {
            Ok(v) => Ok((v - 0xC000_0000, pc + 4)),
            Err(_) => Err(Errors::TruncatedInstruction(pc)),
        }
    }
}

impl OperandAddressingMode {
    /// Reads the immediate of mode `mode` at `pos`: the mode and the address
    /// past the immediate. The reserved codes 4 and 12 are refused; an
    /// immediate that runs past the end of memory truncates the instruction.
    pub fn try_fetch(memory: &Memory, pos: u32, mode: u8) -> (r: Result<
        (OperandAddressingMode, u32),
        Errors,
    >)
        requires
            memory.wf(),
            mode < 16,
        ensures
            is_reserved(mode) ==> r == Err::<(OperandAddressingMode, u32), Errors>(
                Errors::ReservedOperandMode(mode),
            ),
            !is_reserved(mode) && imm_width(mode) > 0 && pos + imm_width(mode)
                > memory.bytes().len() ==> r == Err::<(OperandAddressingMode, u32), Errors>(
                Errors::TruncatedInstruction(pos),
            ),
            !is_reserved(mode) && (imm_width(mode) == 0 || pos + imm_width(mode)
                <= memory.bytes().len()) ==> r == Ok::<
                (OperandAddressingMode, u32),
                Errors,
            >(
                (
                    mode_of(mode, imm_value(memory.bytes(), pos as int, imm_width(mode))),
                    (pos + imm_width(mode)) as u32,
                ),
            ),
    {
        if mode == 4 || mode == 12 {
            return Err(Errors::ReservedOperandMode(mode));
        }
        let w = mode % 4;
        let (v, next): (u32, u32) = if w == 0 {
            (0, pos)
        } else if w == 1 {
            match memory.get_u8(pos) {
                Ok(b) => (if mode == 1 && b >= 0x80 {
                    b as u32 + 0xFFFF_FF00
                } else {
                    b as u32
                }, pos + 1),
                Err(_) => return Err(Errors::TruncatedInstruction(pos)),
            }
        } else if w == 2 {
            match memory.get_u16(pos) {
                Ok(b) => (if mode == 2 && b >= 0x8000 {
                    b as u32 + 0xFFFF_0000
                } else {
                    b as u32
                }, pos + 2),
                Err(_) => return Err(Errors::TruncatedInstruction(pos)),
            }
        } else {
            match memory.get_u32(pos) {
                Ok(b) => (b, pos + 4),
                Err(_) => return Err(Errors::TruncatedInstruction(pos)),
            }
        };
        let m = match mode {
            0 => OperandAddressingMode::ConstantZero,
            1 => OperandAddressingMode::Constant1Byte(v),
            2 => OperandAddressingMode::Constant2Bytes(v),
            3 => OperandAddressingMode::Constant4Bytes(v),
            5 => OperandAddressingMode::ContentOfAddress1Byte(v),
            6 => OperandAddressingMode::ContentOfAddress2Bytes(v),
            7 => OperandAddressingMode::ContentOfAddress4Bytes(v),
            8 => OperandAddressingMode::Stack,
            9 => OperandAddressingMode::CallFrameLocalAtAddress1Byte(v),
            10 => OperandAddressingMode::CallFrameLocalAtAddress2Bytes(v),
            11 => OperandAddressingMode::CallFrameLocalAtAddress4Bytes(v),
            13 => OperandAddressingMode::ContentOfRAMAddress1Byte(v),
            14 => OperandAddressingMode::ContentOfRAMAddress2Bytes(v),
            _ => OperandAddressingMode::ContentOfRAMAddress4Bytes(v),
        };
        Ok((m, next))
    }
}

impl Operand {
    /// Decodes the operands of `operation` whose mode bytes start at `pos`:
    /// the operands and the address past the last immediate.
    pub fn fetch_for_opcode(memory: &Memory, pos: u32, operation: OPCode) -> (r: Result<
        (Vec<Operand>, u32),
        Errors,
    >)
        requires
            memory.wf(),
        ensures
            operands_result(
                memory.bytes(),
                operation,
                pos as int,
                match r {
                    Ok((v, next)) => Ok((v@, next)),
                    Err(e) => Err(e),
                },
            ),
    {
        let ghost mem = memory.bytes();
        let (loads, stores) = operation.get_operand_types();
        proof {
            crate::opcode::lemma_arity_bounded(operation);
        }
        let n: usize = (loads + stores) as usize;
        let nb: usize = (n + 1) / 2;
        let len = memory.len();
        let mut modes: Vec<u8> = Vec::new();
        let mut j: usize = 0;
        while j < nb
            invariant
                memory.wf(),
                len as int == mem.len(),
                mem == memory.bytes(),
                nb <= 4,
                nb == mode_bytes(n as int),
                n as int == operand_count(operation),
                j <= nb,
                j == 0 || pos + j <= mem.len(),
                modes@.len() == j,
                forall|i: int| 0 <= i < j ==> modes@[i] == mem[pos + i],
            decreases nb - j,
        {
            match memory.get_u8(pos + j as u32) {
                Ok(b) => modes.push(b),
                Err(_) => {
                    assert(pos + mode_bytes(n as int) > mem.len());
                    return Err(Errors::TruncatedInstruction(pos));
                },
            }
            j = j + 1;
        }
        let ghost m = pos as int;
        let ghost base = m + mode_bytes(n as int);
        let mut operands: Vec<Operand> = Vec::new();
        let mut at: u32 = pos + nb as u32;
        let mut k: usize = 0;
        while k < n
            invariant
                memory.wf(),
                mem == memory.bytes(),
                n as int == operand_count(operation),
                loads == operation.spec_arity().0,
                stores == operation.spec_arity().1,
                n <= 8,
                nb == mode_bytes(n as int),
                base == m + nb,
                m == pos as int,
                n == 0 || base <= mem.len(),
                modes@.len() == nb,
                forall|i: int| 0 <= i < nb ==> modes@[i] == mem[m + i],
                k <= n,
                at as int == imm_pos(mem, m, base, k as nat),
                n == 0 || at <= mem.len(),
                operands@.len() == k,
                forall|j: nat| j < k ==> operand_ok(mem, m, base, j),
                forall|j: nat|
                    j < k ==> operands@[j as int] == operand_at(mem, operation, m, base, j),
            decreases n - k,
        {
            let byte = modes[k / 2];
            let code: u8 = if k % 2 == 0 {
                byte % 16
            } else {
                byte / 16
            };
            assert(code == mode_code(mem, m, k as int));
            match OperandAddressingMode::try_fetch(memory, at, code) {
                Ok((mode, next)) => {
                    let dir = if operation == OPCode::CATCH {
                        if k < stores as usize {
                            OperandMode::Store
                        } else {
                            OperandMode::Load
                        }
                    } else {
                        if k < loads as usize {
                            OperandMode::Load
                        } else {
                            OperandMode::Store
                        }
                    };
                    assert(dir == direction(operation, k as int));
                    let ghost before = operands@;
                    operands.push(Operand { operand_mode: dir, addressing_mode: mode });
                    assert(operands@[k as int] == operand_at(mem, operation, m, base, k as nat));
                    assert forall|j: nat| j < k + 1 implies operands@[j as int] == operand_at(
                        mem,
                        operation,
                        m,
                        base,
                        j,
                    ) by {
                        if j < k {
                            assert(operands@[j as int] == before[j as int]);
                        }
                    }
                    at = next;
                },
                Err(e) => {
                    let e = match e {
                        Errors::TruncatedInstruction(_) => Errors::TruncatedInstruction(pos),
                        _ => e,
                    };
                    assert(!operand_ok(mem, m, base, k as nat));
                    assert(e == operand_error(mem, m, base, k as nat));
                    let ghost kn = k as nat;
                    assert(kn < operand_count(operation) && (forall|j: nat|
                        j < kn ==> operand_ok(mem, m, base, j)) && !operand_ok(mem, m, base, kn)
                        && e == operand_error(mem, m, base, kn));
                    return Err(e);
                },
            }
            k = k + 1;
        }
        Ok((operands, at))
    }
}

impl Operation {
    /// Decodes the instruction at `pos`: the instruction and the address of
    /// the next one.
    pub fn fetch(memory: &Memory, pos: u32) -> (r: Result<(Operation, u32), Errors>)
        requires
            memory.wf(),
        ensures
            fetch_result(memory.bytes(), pos, r),
    {
        let (num, m) = match fetch_opcode_number(memory, pos) {
            Ok(p) => p,
            Err(e) => return Err(e),
        };
        let code = match OPCode::from_number(num) {
            Some(c) => c,
            None => return Err(Errors::UnknownOpcode(num)),
        };
        match Operand::fetch_for_opcode(memory, m, code) {
            Ok((operands, next)) => Ok((Operation { code, operands }, next)),
            Err(Errors::TruncatedInstruction(_)) => Err(Errors::TruncatedInstruction(pos)),
            Err(e) => Err(e),
        }
    }
}

/// The shortest encoding of the opcode number `n`: one byte below `0x80`,
/// two below `0x4000`, else four.
pub fn encode_opcode_number(n: u32) -> (r: Vec<u8>)
    requires
        n < 0x4000_0000,
    ensures
        r@ == encode_number(n as int),
{
    if n < 0x80 {
        vec![n as u8]
    } else if n < 0x4000 {
        vec![(0x80 + n / 0x100) as u8, (n % 0x100) as u8]
    } else {
        let v = n + 0xC000_0000;
        let r = vec![
            (v / 0x1000000) as u8,
            (v / 0x10000 % 0x100) as u8,
            (v / 0x100 % 0x100) as u8,
            (v % 0x100) as u8,
        ];
        assert(r@ =~= bytes32(v as int));
        r
    }
}

/// Decoding the shortest encoding of an opcode number gives that number back
/// and consumes the whole encoding.
pub proof fn lemma_number_round_trip(n: u32)
    requires
        n < 0x4000_0000,
    ensures
        read_opcode_number(encode_number(n as int), 0) == Ok::<(u32, u32), Errors>(
            (n, encode_number(n as int).len() as u32),
        ),
{
    let e = encode_number(n as int);
    if n >= 0x4000 {
        let v = n + 0xC000_0000;
        assert(e[0] == v / 0x1000000);
        assert(be32(e, 0) == v) by {
            assert(v == (v / 0x1000000) * 0x1000000 + (v / 0x10000 % 0x100) * 0x10000 + (v / 0x100
                % 0x100) * 0x100 + v % 0x100) by (nonlinear_arith);
        }
    }
}

/// Every opcode, encoded in the fewest bytes, decodes back to itself.
pub proof fn lemma_opcode_round_trip(op: OPCode)
    ensures
        op.spec_number() < 0x4000_0000,
        read_opcode_number(encode_number(op.spec_number() as int), 0) == Ok::<(u32, u32), Errors>(
            (op.spec_number(), encode_number(op.spec_number() as int).len() as u32),
        ),
        opcode_of(op.spec_number()) == Some(op),
{
    crate::opcode::lemma_number_identifies(op);
    lemma_number_round_trip(op.spec_number());
}

/// `CATCH` has one store and one load, decoded store first; every other
/// opcode decodes its loads before its stores.
pub proof fn lemma_operand_order(op: OPCode, k: int)
    requires
        0 <= k < operand_count(op),
    ensures
        operand_count(OPCode::CATCH) == 2,
        direction(OPCode::CATCH, 0) == OperandMode::Store,
        direction(OPCode::CATCH, 1) == OperandMode::Load,
        op != OPCode::CATCH ==> (direction(op, k) == OperandMode::Load <==> k < op.spec_arity().0),
{
}

/// The mode nibbles of `n` operands fill `ceil(n/2)` bytes, two to a byte,
/// the low nibble first.
pub proof fn lemma_mode_packing(mem: Seq<u8>, m: int, n: int)
    requires
        0 <= n,
        0 <= m,
        m + mode_bytes(n) <= mem.len(),
    ensures
        2 * mode_bytes(n) == n || 2 * mode_bytes(n) == n + 1,
        forall|j: int|
            0 <= j < mode_bytes(n) ==> #[trigger] mode_code(mem, m, 2 * j) == mem[m + j] % 16,
        forall|j: int|
            0 <= j < mode_bytes(n) && 2 * j + 1 < n ==> #[trigger] mode_code(mem, m, 2 * j + 1)
                == mem[m + j] / 16,
{
}

proof fn lemma_imm_pos_same(mem: Seq<u8>, mem2: Seq<u8>, m: int, base: int, n: int, k: nat)
    requires
        k <= n,
        forall|j: int| 0 <= j < n ==> mode_code(mem2, m, j) == mode_code(mem, m, j),
    ensures
        imm_pos(mem2, m, base, k) == imm_pos(mem, m, base, k),
        imm_pos(mem, m, base, k) >= base,
    decreases k,
{
    if k > 0 {
        lemma_imm_pos_same(mem, mem2, m, base, n, (k - 1) as nat);
    }
}

/// When `op` has an odd number of operands, the high nibble of its last mode
/// byte is never read: changing it changes neither the operands nor the error.
pub proof fn lemma_trailing_nibble_ignored(
    mem: Seq<u8>,
    op: OPCode,
    m: int,
    b: u8,
    r: Result<(Seq<Operand>, u32), Errors>,
)
    requires
        operand_count(op) % 2 == 1,
        0 <= m,
        m + mode_bytes(operand_count(op)) <= mem.len(),
        b % 16 == mem[m + operand_count(op) / 2] % 16,
    ensures
        operands_result(mem.update(m + operand_count(op) / 2, b), op, m, r) == operands_result(
            mem,
            op,
            m,
            r,
        ),
{
    let n = operand_count(op);
    let mem2 = mem.update(m + n / 2, b);
    let base = m + mode_bytes(n);
    assert forall|j: int| 0 <= j < n implies mode_code(mem2, m, j) == mode_code(mem, m, j) by {
        if j / 2 != n / 2 {
            assert(mem2[m + j / 2] == mem[m + j / 2]);
        }
    }
    assert forall|k: nat| k <= n implies imm_pos(mem2, m, base, k) == imm_pos(mem, m, base, k)
        && imm_pos(mem, m, base, k) >= base by {
        lemma_imm_pos_same(mem, mem2, m, base, n, k);
    }
    assert forall|i: int| base <= i < mem.len() implies mem2[i] == mem[i] by {}
    assert forall|k: nat| k < n implies operand_ok(mem2, m, base, k) == operand_ok(mem, m, base, k)
        && operand_error(mem2, m, base, k) == operand_error(mem, m, base, k) && (operand_ok(
        mem,
        m,
        base,
        k,
    ) ==> operand_at(mem2, op, m, base, k) == operand_at(mem, op, m, base, k)) by {
        lemma_imm_pos_same(mem, mem2, m, base, n, k);
    }
    lemma_imm_pos_same(mem, mem2, m, base, n, n as nat);
    match r {
        Ok((ops, next)) => {
            if operands_result(mem, op, m, r) {
                assert forall|k: nat| k < n implies ops[k as int] == operand_at(
                    mem2,
                    op,
                    m,
                    base,
                    k,
                ) by {
                    assert(operand_ok(mem, m, base, k));
                }
            }
            if operands_result(mem2, op, m, r) {
                assert forall|k: nat| k < n implies ops[k as int] == operand_at(
                    mem,
                    op,
                    m,
                    base,
                    k,
                ) by {
                    assert(operand_ok(mem2, m, base, k));
                }
            }
        },
        Err(e) => {
            if operands_result(mem, op, m, r) && base <= mem.len() {
                let k = choose|k: nat|
                    #![trigger operand_ok(mem, m, base, k)]
                    k < n && (forall|j: nat| j < k ==> operand_ok(mem, m, base, j)) && !operand_ok(
                        mem,
                        m,
                        base,
                        k,
                    ) && e == operand_error(mem, m, base, k);
                assert(!operand_ok(mem2, m, base, k));
            }
            if operands_result(mem2, op, m, r) && base <= mem.len() {
                let k = choose|k: nat|
                    #![trigger operand_ok(mem2, m, base, k)]
                    k < n && (forall|j: nat| j < k ==> operand_ok(mem2, m, base, j)) && !operand_ok(
                        mem2,
                        m,
                        base,
                        k,
                    ) && e == operand_error(mem2, m, base, k);
                assert(!operand_ok(mem, m, base, k));
            }
        },
    }
}

/// The error, if any, of resolving `o`: reserved modes are refused, and a
/// store cannot go to a constant of one, two or four bytes.
pub open spec fn store_to_constant(o: Operand, code: u8) -> Option<Errors> {
    if o.operand_mode == OperandMode::Store {
        Some(Errors::InvalidStoreTarget(code))
    } else {
        None
    }
}

pub open spec fn target_error(o: Operand) -> Option<Errors> {
    match o.addressing_mode {
        OperandAddressingMode::Unused1 => Some(Errors::ReservedOperandMode(4)),
        OperandAddressingMode::Unused2 => Some(Errors::ReservedOperandMode(12)),
        OperandAddressingMode::Constant1Byte(_) => store_to_constant(o, 1),
        OperandAddressingMode::Constant2Bytes(_) => store_to_constant(o, 2),
        OperandAddressingMode::Constant4Bytes(_) => store_to_constant(o, 3),
        _ => None,
    }
}

impl Operand {
    fn check_load_only(&self, code: u8) -> (r: Result<(), Errors>)
        ensures
            match store_to_constant(*self, code) {
                Some(e) => r == Err::<(), Errors>(e),
                None => r is Ok,
            },
    {
        match self.operand_mode {
            OperandMode::Store => Err(Errors::InvalidStoreTarget(code)),
            OperandMode::Load => Ok(()),
        }
    }

    /// Checks that the operand can be resolved in its direction.
    pub fn check_target(&self) -> (r: Result<(), Errors>)
        ensures
            match target_error(*self) {
                Some(e) => r == Err::<(), Errors>(e),
                None => r is Ok,
            },
    {
        match self.addressing_mode {
            OperandAddressingMode::Unused1 => Err(Errors::ReservedOperandMode(4)),
            OperandAddressingMode::Unused2 => Err(Errors::ReservedOperandMode(12)),
            OperandAddressingMode::Constant1Byte(_) => self.check_load_only(1),
            OperandAddressingMode::Constant2Bytes(_) => self.check_load_only(2),
            OperandAddressingMode::Constant4Bytes(_) => self.check_load_only(3),
            _ => Ok(()),
        }
    }
}

/// Once the mode bytes lie in memory, the first operand whose mode code is
/// reserved makes decoding fail with `ReservedOperandMode` of that code,
/// whatever the opcode.
pub proof fn lemma_reserved_mode_refused(
    mem: Seq<u8>,
    op: OPCode,
    m: int,
    k: nat,
    r: Result<(Seq<Operand>, u32), Errors>,
)
    requires
        m + mode_bytes(operand_count(op)) <= mem.len(),
        k < operand_count(op),
        forall|j: nat|
            j < k ==> #[trigger] operand_ok(mem, m, m + mode_bytes(operand_count(op)), j),
        is_reserved(mode_code(mem, m, k as int)),
        operands_result(mem, op, m, r),
    ensures
        r == Err::<(Seq<Operand>, u32), Errors>(
            Errors::ReservedOperandMode(mode_code(mem, m, k as int)),
        ),
{
    let base = m + mode_bytes(operand_count(op));
    assert(!operand_ok(mem, m, base, k));
    match r {
        Ok(_) => {},
        Err(e) => {
            let k2 = choose|k2: nat|
                #![trigger operand_ok(mem, m, base, k2)]
                k2 < operand_count(op) && (forall|j: nat| j < k2 ==> operand_ok(mem, m, base, j))
                    && !operand_ok(mem, m, base, k2) && e == operand_error(mem, m, base, k2);
            if k2 < k {
                assert(operand_ok(mem, m, base, k2));
            } else if k2 > k {
                assert(operand_ok(mem, m, base, k));
            }
        },
    }
}

} // verus!
