//! The meaning of each core instruction, and its execution on a [`Machine`].
use vstd::prelude::*;
use crate::codec::{i32_at, lemma_i16_u16, lemma_u32_i32, put_i32, put_u16, read_u16, read_u32, u16_at, u32_at};
use crate::machine::{can_pop, lemma_push_then_pop, pop1, popped, push1, stack_ptr, top, Machine};
use crate::opcode::{
    ADD, AND, BR, BRZ, CALL, CALLI, CALL_VM, DIV_S, DIV_U, DROP, DUP, END, EQ, EQZ, GE_S, GE_U, GT_S, GT_U, I32_CONST, I32_LOAD, I32_LOAD_16, I32_LOAD_8, I32_STORE, I32_STORE_16, I32_STORE_8, JMP, JZ, LE_S, LE_U, LT_S, LT_U, MAX, MIN, MOD_S, MOD_U, MUL, NE, NOP, NOT, OR, RETURN, ROTL, ROTR, SELECT, SHL, SHR_S, SHR_U, SUB, SWAP, UNREACHABLE, XOR,
};

verus! {

/// Why a run or a step stopped short.
#[derive(Debug, Clone, Copy, PartialEq, Eq, Structural)]
pub enum VmError {
    /// No core instruction and no extension handler took this opcode; the
    /// position is the instruction pointer after the opcode byte was fetched.
    UnknownOp(u8, usize),
    /// UNREACHABLE was executed; the position follows its opcode byte.
    Unreachable(usize),
    /// CALL_VM named a host function index that is not registered.
    UnknownVmFn(usize),
    /// A division or remainder had a zero divisor.
    DivideByZero,
    /// The instruction at this position reached outside linear memory
    /// (its opcode, an operand, a stack slot or a load or store address).
    OutOfRange(usize),
}

pub type Result<T> = core::result::Result<T, VmError>;

pub const TRUE: i32 = 0x1;
pub const FALSE: i32 = 0x0;

/// What one instruction does to memory and to the instruction pointer.
pub enum Transition {
    /// It completed: the new memory, the new instruction pointer, and whether to go on.
    Done(Seq<u8>, int),
    /// END: the memory (unchanged) and the pointer after the opcode.
    Halt(Seq<u8>, int),
    /// It failed with this error.
    Fail(VmError),
    /// CALL_VM: memory after the index was popped, and the index.
    Host(Seq<u8>, usize),
    /// The opcode is outside the core set.
    Extension(u8),
}

/// The value a stack slot holds, read as an address.
pub open spec fn addr_of(v: i32) -> int {
    (v as u32) as int
}

pub open spec fn bool_val(b: bool) -> i32 {
    if b { TRUE } else { FALSE }
}

/// Rotates the bits of `a` left by `k` modulo 32.
pub open spec fn rotl(a: u32, k: u32) -> u32 {
    let s = k & 31u32;
    ((a << s) | (a >> (((32u32 - s) as u32) & 31u32))) as u32
}

/// Rotates the bits of `a` right by `k` modulo 32.
pub open spec fn rotr(a: u32, k: u32) -> u32 {
    let s = k & 31u32;
    ((a >> s) | (a << (((32u32 - s) as u32) & 31u32))) as u32
}

pub open spec fn is_comparison(op: u8) -> bool {
    op == EQ || (NE <= op <= GE_U)
}

/// Opcodes that pop `b`, then `a`, and push one result.
pub open spec fn is_binary(op: u8) -> bool {
    is_comparison(op) || (ADD <= op <= ROTR) || op == MIN || op == MAX
}

/// The result of binary opcode `op` on `a` (pushed first) and `b` (pushed last);
/// `None` where the divisor is zero.
pub open spec fn binary_value(op: u8, a: i32, b: i32) -> Option<i32> {
    let ua = a as u32;
    let ub = b as u32;
    if op == EQ { Some(bool_val(a == b)) }
    else if op == NE { Some(bool_val(a != b)) }
    else if op == LT_S { Some(bool_val(a < b)) }
    else if op == LT_U { Some(bool_val(ua < ub)) }
    else if op == GT_S { Some(bool_val(a > b)) }
    else if op == GT_U { Some(bool_val(ua > ub)) }
    else if op == LE_S { Some(bool_val(a <= b)) }
    else if op == LE_U { Some(bool_val(ua <= ub)) }
    else if op == GE_S { Some(bool_val(a >= b)) }
    else if op == GE_U { Some(bool_val(ua >= ub)) }
    else if op == ADD { Some(a.wrapping_add(b)) }
    else if op == SUB { Some(a.wrapping_sub(b)) }
    else if op == MUL { Some(a.wrapping_mul(b)) }
    else if op == DIV_S {
        if b == 0 { None } else { match a.checked_div(b) { Some(q) => Some(q), None => Some(i32::MIN) } }
    }
    else if op == DIV_U { if b == 0 { None } else { Some((ua / ub) as i32) } }
    else if op == MOD_S {
        if b == 0 { None } else { match a.checked_rem(b) { Some(q) => Some(q), None => Some(0) } }
    }
    else if op == MOD_U { if b == 0 { None } else { Some((ua % ub) as i32) } }
    else if op == AND { Some(a & b) }
    else if op == OR { Some(a | b) }
    else if op == XOR { Some(a ^ b) }
    else if op == SHL { Some(a.wrapping_shl(ub)) }
    else if op == SHR_S { Some(a.wrapping_shr(ub)) }
    else if op == SHR_U { Some(ua.wrapping_shr(ub) as i32) }
    else if op == ROTL { Some(rotl(ua, ub) as i32) }
    else if op == ROTR { Some(rotr(ua, ub) as i32) }
    else if op == MIN { Some(if a <= b { a } else { b }) }
    else { Some(if a >= b { a } else { b }) }
}

/// Opcodes that pop one value and push one result.
pub open spec fn is_unary(op: u8) -> bool {
    op == EQZ || op == NOT
}

pub open spec fn unary_value(op: u8, a: i32) -> i32 {
    if op == EQZ { bool_val(a == 0) } else { !a }
}

pub open spec fn is_load(op: u8) -> bool {
    I32_LOAD <= op <= I32_LOAD_16
}

pub open spec fn is_store(op: u8) -> bool {
    I32_STORE <= op <= I32_STORE_16
}

/// Number of bytes opcode `op` loads or stores.
pub open spec fn width(op: u8) -> int {
    if op == I32_LOAD || op == I32_STORE { 4 } else if op == I32_LOAD_8 || op == I32_STORE_8 { 1 } else { 2 }
}

/// The zero-extended value of the `width(op)` bytes at `a`.
pub open spec fn loaded(mem: Seq<u8>, op: u8, a: int) -> i32 {
    if op == I32_LOAD { i32_at(mem, a) }
    else if op == I32_LOAD_8 { mem[a] as i32 }
    else { u16_at(mem, a) as i32 }
}

/// `mem` with `v` truncated to `width(op)` bytes stored at `a`.
pub open spec fn stored(mem: Seq<u8>, op: u8, a: int, v: i32) -> Seq<u8> {
    if op == I32_STORE { put_i32(mem, a, v) }
    else if op == I32_STORE_8 { mem.update(a, v as u8) }
    else { put_u16(mem, a, v as u16) }
}

/// The 32-bit inline operand at `at`, if it lies inside memory.
pub open spec fn operand(mem: Seq<u8>, at: int) -> Option<u32> {
    if 0 <= at && at + 4 <= mem.len() { Some(u32_at(mem, at)) } else { None }
}

/// Pushes `v` through `cell` and continues at `nip`; a fault if the push leaves memory.
pub open spec fn push_then(mem: Seq<u8>, cell: int, v: i32, nip: int, fault: Transition) -> Transition {
    match push1(mem, cell, v) {
        Some(m) => Transition::Done(m, nip),
        None => fault,
    }
}

/// What the instruction `op`, fetched at `ip`, does to memory `mem` whose parameter
/// and return stack pointer cells are at `pc` and `rc`.
pub open spec fn op_step(mem: Seq<u8>, pc: int, rc: int, ip: int, op: u8) -> Transition {
    let next = ip + 1;
    let fault = Transition::Fail(VmError::OutOfRange(ip as usize));
    if op == UNREACHABLE {
        Transition::Fail(VmError::Unreachable(next as usize))
    } else if op == NOP {
        Transition::Done(mem, next)
    } else if op == END {
        Transition::Halt(mem, next)
    } else if op == BR {
        match operand(mem, next) {
            Some(t) => Transition::Done(mem, t as int),
            None => fault,
        }
    } else if op == BRZ {
        match pop1(mem, pc) {
            Some((m1, v)) => if v != 0 {
                if next + 4 <= usize::MAX {
                    Transition::Done(m1, next + 4)
                } else {
                    fault
                }
            } else {
                match operand(m1, next) {
                    Some(t) => Transition::Done(m1, t as int),
                    None => fault,
                }
            },
            None => fault,
        }
    } else if op == JMP {
        match pop1(mem, pc) {
            Some((m1, v)) => Transition::Done(m1, addr_of(v)),
            None => fault,
        }
    } else if op == JZ {
        match pop1(mem, pc) {
            Some((m1, c)) => match pop1(m1, pc) {
                Some((m2, a)) => Transition::Done(m2, if c == 0 { addr_of(a) } else { next }),
                None => fault,
            },
            None => fault,
        }
    } else if op == RETURN {
        match pop1(mem, rc) {
            Some((m1, v)) => Transition::Done(m1, addr_of(v)),
            None => fault,
        }
    } else if op == CALL_VM {
        match pop1(mem, pc) {
            Some((m1, v)) => Transition::Host(m1, v as usize),
            None => fault,
        }
    } else if op == CALL {
        if next > u32::MAX {
            fault
        } else {
            match push1(mem, rc, (next as u32) as i32) {
                Some(m1) => match pop1(m1, pc) {
                    Some((m2, t)) => Transition::Done(m2, addr_of(t)),
                    None => fault,
                },
                None => fault,
            }
        }
    } else if op == CALLI {
        if next + 4 > u32::MAX {
            fault
        } else {
            match push1(mem, rc, ((next + 4) as u32) as i32) {
                Some(m1) => match operand(m1, next) {
                    Some(t) => Transition::Done(m1, t as int),
                    None => fault,
                },
                None => fault,
            }
        }
    } else if op == DROP {
        match pop1(mem, pc) {
            Some((m1, _v)) => Transition::Done(m1, next),
            None => fault,
        }
    } else if op == DUP {
        match pop1(mem, pc) {
            Some((m1, a)) => match push1(m1, pc, a) {
                Some(m2) => push_then(m2, pc, a, next, fault),
                None => fault,
            },
            None => fault,
        }
    } else if op == SWAP {
        match pop1(mem, pc) {
            Some((m1, a)) => match pop1(m1, pc) {
                Some((m2, b)) => match push1(m2, pc, a) {
                    Some(m3) => push_then(m3, pc, b, next, fault),
                    None => fault,
                },
                None => fault,
            },
            None => fault,
        }
    } else if op == SELECT {
        match pop1(mem, pc) {
            Some((m1, c)) => match pop1(m1, pc) {
                Some((m2, b)) => match pop1(m2, pc) {
                    Some((m3, a)) => push_then(m3, pc, if c != 0 { a } else { b }, next, fault),
                    None => fault,
                },
                None => fault,
            },
            None => fault,
        }
    } else if is_load(op) {
        match pop1(mem, pc) {
            Some((m1, v)) => if addr_of(v) + width(op) <= m1.len() {
                push_then(m1, pc, loaded(m1, op, addr_of(v)), next, fault)
            } else {
                fault
            },
            None => fault,
        }
    } else if is_store(op) {
        match pop1(mem, pc) {
            Some((m1, a)) => match pop1(m1, pc) {
                Some((m2, v)) => if addr_of(a) + width(op) <= m2.len() {
                    Transition::Done(stored(m2, op, addr_of(a), v), next)
                } else {
                    fault
                },
                None => fault,
            },
            None => fault,
        }
    } else if op == I32_CONST {
        match operand(mem, next) {
            Some(v) => push_then(mem, pc, v as i32, next + 4, fault),
            None => fault,
        }
    } else if is_unary(op) {
        match pop1(mem, pc) {
            Some((m1, a)) => push_then(m1, pc, unary_value(op, a), next, fault),
            None => fault,
        }
    } else if is_binary(op) {
        match pop1(mem, pc) {
            Some((m1, b)) => match pop1(m1, pc) {
                Some((m2, a)) => match binary_value(op, a, b) {
                    Some(r) => push_then(m2, pc, r, next, fault),
                    None => Transition::Fail(VmError::DivideByZero),
                },
                None => fault,
            },
            None => fault,
        }
    } else {
        Transition::Extension(op)
    }
}

/// Opcodes that the core executes itself.
pub open spec fn is_core(op: u8) -> bool {
    ||| op == UNREACHABLE || op == NOP
    ||| END <= op <= CALLI
    ||| DROP <= op <= SELECT
    ||| is_load(op) || is_store(op) || op == I32_CONST
    ||| is_unary(op) || is_binary(op)
}

/// Whether the core executes `op` itself.
pub fn is_core_opcode(op: u8) -> (r: bool)
    ensures
        r == is_core(op),
{
    op == UNREACHABLE || op == NOP || (END <= op && op <= CALLI) || (DROP <= op && op <= SELECT)
        || (I32_LOAD <= op && op <= I32_LOAD_16) || (I32_STORE <= op && op <= I32_STORE_16)
        || op == I32_CONST || op == EQZ || op == NOT || op == EQ || (NE <= op && op <= GE_U)
        || (ADD <= op && op <= ROTR) || op == MIN || op == MAX
}

/// The opcodes outside the core set are exactly those handed to the extension chain.
pub proof fn lemma_extension_iff_not_core(mem: Seq<u8>, pc: int, rc: int, ip: int, op: u8)
    ensures
        (op_step(mem, pc, rc, ip, op) is Extension) == !is_core(op),
        op_step(mem, pc, rc, ip, op) is Extension ==> op_step(mem, pc, rc, ip, op) == Transition::Extension(op),
{
}

/// What the instruction at `ip` does; a fault if `ip` lies outside memory.
pub open spec fn core_step(mem: Seq<u8>, pc: int, rc: int, ip: int) -> Transition {
    if 0 <= ip < mem.len() {
        op_step(mem, pc, rc, ip, mem[ip])
    } else {
        Transition::Fail(VmError::OutOfRange(ip as usize))
    }
}

/// The outcome of running at most `fuel` instructions from `ip` when only core
/// instructions execute: the result (`Ok(true)` after END, `Ok(false)` when the fuel
/// runs out), the memory and the instruction pointer. `None` once CALL_VM or an
/// opcode outside the core set is reached, where user code decides.
pub open spec fn core_run(mem: Seq<u8>, pc: int, rc: int, ip: int, fuel: nat) -> Option<(Result<bool>, Seq<u8>, int)>
    decreases fuel,
{
    if fuel == 0 {
        Some((Ok(false), mem, ip))
    } else {
        match core_step(mem, pc, rc, ip) {
            Transition::Done(m, nip) => core_run(m, pc, rc, nip, (fuel - 1) as nat),
            Transition::Halt(m, nip) => Some((Ok(true), m, nip)),
            Transition::Fail(e) => Some((Err(e), mem, ip)),
            _ => None,
        }
    }
}

/// The result, machine and instruction pointer after a step agree with `t`.
pub open spec fn follows(t: Transition, mem: Seq<u8>, ip: int, r: Result<bool>) -> bool {
    match t {
        Transition::Done(m, nip) => r == Ok::<bool, VmError>(true) && mem == m && ip == nip,
        Transition::Halt(m, nip) => r == Ok::<bool, VmError>(false) && mem == m && ip == nip,
        Transition::Fail(e) => r == Err::<bool, VmError>(e),
        _ => false,
    }
}

/// A RETURN that finds the return stack as a CALLI at `ip` left it resumes right
/// after CALLI's 4-byte operand, provided CALLI's slot did not cover the pointer cell.
pub proof fn lemma_calli_then_return(mem: Seq<u8>, pc: int, rc: int, ip: int, later: Seq<u8>, at: int)
    requires
        0 <= ip,
        op_step(mem, pc, rc, ip, CALLI) is Done,
        rc + 4 <= stack_ptr(mem, rc) - 4 || stack_ptr(mem, rc) <= rc,
        can_pop(later, rc),
        stack_ptr(later, rc) == stack_ptr(op_step(mem, pc, rc, ip, CALLI)->Done_0, rc),
        top(later, rc) == top(op_step(mem, pc, rc, ip, CALLI)->Done_0, rc),
    ensures
        op_step(later, pc, rc, at, RETURN) is Done,
        op_step(later, pc, rc, at, RETURN)->Done_1 == ip + 5,
{
    let v = ((ip + 5) as u32) as i32;
    lemma_push_then_pop(mem, rc, v);
    lemma_u32_i32((ip + 5) as u32);
}

/// BR jumps to its operand whatever the stacks hold. BRZ pops exactly one value,
/// jumps to its operand if that value is zero, and otherwise skips the operand.
///
/// The not-taken path reads no operand byte: it completes even where the operand
/// would run past the end of memory.
pub proof fn lemma_branches(mem: Seq<u8>, pc: int, rc: int, ip: int)
    requires
        0 <= ip,
    ensures
        ip + 5 <= mem.len() ==> op_step(mem, pc, rc, ip, BR) == Transition::Done(
            mem,
            u32_at(mem, ip + 1) as int,
        ),
        can_pop(mem, pc) && top(mem, pc) == 0 && ip + 5 <= mem.len() ==> op_step(mem, pc, rc, ip, BRZ)
            == Transition::Done(popped(mem, pc), u32_at(popped(mem, pc), ip + 1) as int),
        can_pop(mem, pc) && top(mem, pc) != 0 && ip + 5 <= usize::MAX ==> op_step(mem, pc, rc, ip, BRZ)
            == Transition::Done(popped(mem, pc), ip + 5),
{
}

/// Comparisons push only TRUE or FALSE.
pub proof fn lemma_comparisons_are_boolean(op: u8, a: i32, b: i32)
    ensures
        is_comparison(op) ==> binary_value(op, a, b) == Some(TRUE) || binary_value(op, a, b) == Some(FALSE),
        unary_value(EQZ, a) == TRUE || unary_value(EQZ, a) == FALSE,
{
}

/// Division and remainder with a zero divisor on top of the stack fail with
/// `DivideByZero`.
pub proof fn lemma_divide_by_zero(mem: Seq<u8>, pc: int, rc: int, ip: int, op: u8)
    requires
        op == DIV_S || op == DIV_U || op == MOD_S || op == MOD_U,
        can_pop(mem, pc),
        top(mem, pc) == 0,
        can_pop(popped(mem, pc), pc),
    ensures
        op_step(mem, pc, rc, ip, op) == Transition::Fail(VmError::DivideByZero),
{
}

fn rotate_left(a: u32, k: u32) -> (r: u32)
    ensures
        r == rotl(a, k),
{
    let s = k & 31u32;
    assert(s < 32) by (bit_vector)
        requires
            s == k & 31u32,
    ;
    let t = (32u32 - s) & 31u32;
    assert(t < 32) by (bit_vector)
        requires
            t == ((32u32 - s) as u32) & 31u32,
    ;
    (a << s) | (a >> t)
}

fn rotate_right(a: u32, k: u32) -> (r: u32)
    ensures
        r == rotr(a, k),
{
    let s = k & 31u32;
    assert(s < 32) by (bit_vector)
        requires
            s == k & 31u32,
    ;
    let t = (32u32 - s) & 31u32;
    assert(t < 32) by (bit_vector)
        requires
            t == ((32u32 - s) as u32) & 31u32,
    ;
    (a >> s) | (a << t)
}

/// Computes binary opcode `op` on `a` (pushed first) and `b` (pushed last).
pub fn eval_binary(op: u8, a: i32, b: i32) -> (r: Option<i32>)
    requires
        is_binary(op),
    ensures
        r == binary_value(op, a, b),
{
    let ua = a as u32;
    let ub = b as u32;
    assert(b != 0 ==> ub != 0) by (bit_vector)
        requires
            ub == b as u32,
    ;
    if op == EQ { Some(if a == b { TRUE } else { FALSE }) }
    else if op == NE { Some(if a != b { TRUE } else { FALSE }) }
    else if op == LT_S { Some(if a < b { TRUE } else { FALSE }) }
    else if op == LT_U { Some(if ua < ub { TRUE } else { FALSE }) }
    else if op == GT_S { Some(if a > b { TRUE } else { FALSE }) }
    else if op == GT_U { Some(if ua > ub { TRUE } else { FALSE }) }
    else if op == LE_S { Some(if a <= b { TRUE } else { FALSE }) }
    else if op == LE_U { Some(if ua <= ub { TRUE } else { FALSE }) }
    else if op == GE_S { Some(if a >= b { TRUE } else { FALSE }) }
    else if op == GE_U { Some(if ua >= ub { TRUE } else { FALSE }) }
    else if op == ADD { Some(a.wrapping_add(b)) }
    else if op == SUB { Some(a.wrapping_sub(b)) }
    else if op == MUL { Some(a.wrapping_mul(b)) }
    else if op == DIV_S {
        if b == 0 { None } else { match a.checked_div(b) { Some(q) => Some(q), None => Some(i32::MIN) } }
    }
    else if op == DIV_U { if b == 0 { None } else { Some((ua / ub) as i32) } }
    else if op == MOD_S {
        if b == 0 { None } else { match a.checked_rem(b) { Some(q) => Some(q), None => Some(0) } }
    }
    else if op == MOD_U { if b == 0 { None } else { Some((ua % ub) as i32) } }
    else if op == AND { Some(a & b) }
    else if op == OR { Some(a | b) }
    else if op == XOR { Some(a ^ b) }
    else if op == SHL { Some(a.wrapping_shl(ub)) }
    else if op == SHR_S { Some(a.wrapping_shr(ub)) }
    else if op == SHR_U { Some(ua.wrapping_shr(ub) as i32) }
    else if op == ROTL { Some(rotate_left(ua, ub) as i32) }
    else if op == ROTR { Some(rotate_right(ua, ub) as i32) }
    else if op == MIN { Some(if a <= b { a } else { b }) }
    else { Some(if a >= b { a } else { b }) }
}

/// Reads the 32-bit inline operand at `at`, if it lies inside memory.
fn read_operand(m: &Machine, at: usize) -> (r: Option<u32>)
    ensures
        r == operand(m.mem(), at as int),
{
    let len = m.len();
    if len >= 4 && at <= len - 4 {
        Some(read_u32(m.memory_ref(), at))
    } else {
        None
    }
}

/// Executes instruction `op`, fetched at `at`, on `m`, and sets `ip` to the next
/// instruction; CALL_VM and opcodes outside the core set are left to the caller.
pub fn execute(m: &mut Machine, at: usize, op: u8, ip: &mut usize) -> (r: Result<bool>)
    requires
        at < old(m).mem().len(),
        op != CALL_VM,
        !(op_step(old(m).mem(), old(m).pcell(), old(m).rcell(), at as int, op) is Extension),
    ensures
        follows(
            op_step(old(m).mem(), old(m).pcell(), old(m).rcell(), at as int, op),
            final(m).mem(),
            *final(ip) as int,
            r,
        ),
        final(m).pcell() == old(m).pcell(),
        final(m).rcell() == old(m).rcell(),
{
    let pc = m.pstack_top();
    let rc = m.rstack_top();
    let len = m.len();
    let next = at + 1;
    let fault = VmError::OutOfRange(at);
    if op == UNREACHABLE {
        Err(VmError::Unreachable(next))
    } else if op == NOP {
        *ip = next;
        Ok(true)
    } else if op == END {
        *ip = next;
        Ok(false)
    } else if op == BR {
        match read_operand(m, next) {
            Some(t) => { *ip = t as usize; Ok(true) },
            None => Err(fault),
        }
    } else if op == BRZ {
        let v = match m.try_pop(pc) { Some(v) => v, None => { return Err(fault); } };
        if v != 0 {
            if next > usize::MAX - 4 {
                return Err(fault);
            }
            *ip = next + 4;
            Ok(true)
        } else {
            match read_operand(m, next) {
                Some(t) => { *ip = t as usize; Ok(true) },
                None => Err(fault),
            }
        }
    } else if op == JMP {
        match m.try_pop(pc) {
            Some(v) => { *ip = v as u32 as usize; Ok(true) },
            None => Err(fault),
        }
    } else if op == JZ {
        let c = match m.try_pop(pc) { Some(v) => v, None => { return Err(fault); } };
        let a = match m.try_pop(pc) { Some(v) => v, None => { return Err(fault); } };
        *ip = if c == 0 { a as u32 as usize } else { next };
        Ok(true)
    } else if op == RETURN {
        match m.try_pop(rc) {
            Some(v) => { *ip = v as u32 as usize; Ok(true) },
            None => Err(fault),
        }
    } else if op == CALL {
        if next > u32::MAX as usize || !m.try_push(rc, next as u32 as i32) {
            return Err(fault);
        }
        match m.try_pop(pc) {
            Some(v) => { *ip = v as u32 as usize; Ok(true) },
            None => Err(fault),
        }
    } else if op == CALLI {
        if next > (u32::MAX - 4) as usize || !m.try_push(rc, (next + 4) as u32 as i32) {
            return Err(fault);
        }
        match read_operand(m, next) {
            Some(t) => { *ip = t as usize; Ok(true) },
            None => Err(fault),
        }
    } else if op == DROP {
        match m.try_pop(pc) {
            Some(_v) => { *ip = next; Ok(true) },
            None => Err(fault),
        }
    } else if op == DUP {
        let a = match m.try_pop(pc) { Some(v) => v, None => { return Err(fault); } };
        if m.try_push(pc, a) && m.try_push(pc, a) {
            *ip = next;
            Ok(true)
        } else {
            Err(fault)
        }
    } else if op == SWAP {
        let a = match m.try_pop(pc) { Some(v) => v, None => { return Err(fault); } };
        let b = match m.try_pop(pc) { Some(v) => v, None => { return Err(fault); } };
        if m.try_push(pc, a) && m.try_push(pc, b) {
            *ip = next;
            Ok(true)
        } else {
            Err(fault)
        }
    } else if op == SELECT {
        let c = match m.try_pop(pc) { Some(v) => v, None => { return Err(fault); } };
        let b = match m.try_pop(pc) { Some(v) => v, None => { return Err(fault); } };
        let a = match m.try_pop(pc) { Some(v) => v, None => { return Err(fault); } };
        if m.try_push(pc, if c != 0 { a } else { b }) {
            *ip = next;
            Ok(true)
        } else {
            Err(fault)
        }
    } else {
        execute_data(m, at, op, ip)
    }
}

/// Executes the loads, stores, constants and arithmetic.
fn execute_data(m: &mut Machine, at: usize, op: u8, ip: &mut usize) -> (r: Result<bool>)
    requires
        at < old(m).mem().len(),
        op > SELECT,
        !(op_step(old(m).mem(), old(m).pcell(), old(m).rcell(), at as int, op) is Extension),
    ensures
        follows(
            op_step(old(m).mem(), old(m).pcell(), old(m).rcell(), at as int, op),
            final(m).mem(),
            *final(ip) as int,
            r,
        ),
        final(m).pcell() == old(m).pcell(),
        final(m).rcell() == old(m).rcell(),
{
    let pc = m.pstack_top();
    let len = m.len();
    let next = at + 1;
    let fault = VmError::OutOfRange(at);
    if I32_LOAD <= op && op <= I32_LOAD_16 {
        let a = match m.try_pop(pc) { Some(v) => v as u32 as usize, None => { return Err(fault); } };
        let w: usize = if op == I32_LOAD { 4 } else if op == I32_LOAD_8 { 1 } else { 2 };
        if a > len || w > len - a {
            return Err(fault);
        }
        let v = if op == I32_LOAD {
            m.read_i32(a)
        } else if op == I32_LOAD_8 {
            m.read_u8(a) as i32
        } else {
            read_u16(m.memory_ref(), a) as i32
        };
        if m.try_push(pc, v) {
            *ip = next;
            Ok(true)
        } else {
            Err(fault)
        }
    } else if I32_STORE <= op && op <= I32_STORE_16 {
        let a = match m.try_pop(pc) { Some(v) => v as u32 as usize, None => { return Err(fault); } };
        let v = match m.try_pop(pc) { Some(v) => v, None => { return Err(fault); } };
        let w: usize = if op == I32_STORE { 4 } else if op == I32_STORE_8 { 1 } else { 2 };
        if a > len || w > len - a {
            return Err(fault);
        }
        if op == I32_STORE {
            m.write_i32(v, a);
        } else if op == I32_STORE_8 {
            m.write_u8(v as u8, a);
        } else {
            proof {
                lemma_i16_u16(v);
            }
            m.write_i16(v as i16, a);
        }
        *ip = next;
        Ok(true)
    } else if op == I32_CONST {
        match read_operand(m, next) {
            Some(v) => if m.try_push(pc, v as i32) {
                *ip = next + 4;
                Ok(true)
            } else {
                Err(fault)
            },
            None => Err(fault),
        }
    } else if op == EQZ || op == NOT {
        let a = match m.try_pop(pc) { Some(v) => v, None => { return Err(fault); } };
        let v = if op == EQZ { if a == 0 { TRUE } else { FALSE } } else { !a };
        if m.try_push(pc, v) {
            *ip = next;
            Ok(true)
        } else {
            Err(fault)
        }
    } else {
        let b = match m.try_pop(pc) { Some(v) => v, None => { return Err(fault); } };
        let a = match m.try_pop(pc) { Some(v) => v, None => { return Err(fault); } };
        match eval_binary(op, a, b) {
            Some(v) => if m.try_push(pc, v) {
                *ip = next;
                Ok(true)
            } else {
                Err(fault)
            },
            None => Err(VmError::DivideByZero),
        }
    }
}

} // verus!
