//! Opcode bytes of the instruction set and their mnemonics.
use vstd::prelude::*;

verus! {

pub const UNREACHABLE: u8 = 0x00;
pub const NOP: u8 = 0x01;
pub const END: u8 = 0x0b;
pub const BR: u8 = 0x0c;
pub const BRZ: u8 = 0x0d;
pub const JMP: u8 = 0x0e;
pub const JZ: u8 = 0x0f;
pub const RETURN: u8 = 0x10;
pub const CALL_VM: u8 = 0x11;
pub const CALL: u8 = 0x12;
pub const CALLI: u8 = 0x13;
pub const DROP: u8 = 0x1a;
pub const DUP: u8 = 0x1b;
pub const SWAP: u8 = 0x1c;
pub const SELECT: u8 = 0x1d;
pub const I32_LOAD: u8 = 0x28;
pub const I32_LOAD_8: u8 = 0x29;
pub const I32_LOAD_16: u8 = 0x2a;
pub const I64_LOAD: u8 = 0x2b;
pub const I64_LOAD_8: u8 = 0x2c;
pub const I64_LOAD_16: u8 = 0x2d;
pub const I64_LOAD_32: u8 = 0x2e;
pub const I32_STORE: u8 = 0x2f;
pub const I32_STORE_8: u8 = 0x30;
pub const I32_STORE_16: u8 = 0x31;
pub const I64_STORE: u8 = 0x32;
pub const I64_STORE_8: u8 = 0x33;
pub const I64_STORE_16: u8 = 0x34;
pub const I64_STORE_32: u8 = 0x35;
pub const I32_CONST: u8 = 0x36;
pub const I64_CONST: u8 = 0x37;
pub const EQ: u8 = 0x38;
pub const EQZ: u8 = 0x39;
pub const NE: u8 = 0x3a;
pub const LT_S: u8 = 0x3b;
pub const LT_U: u8 = 0x3c;
pub const GT_S: u8 = 0x3d;
pub const GT_U: u8 = 0x3e;
pub const LE_S: u8 = 0x3f;
pub const LE_U: u8 = 0x40;
pub const GE_S: u8 = 0x41;
pub const GE_U: u8 = 0x42;
pub const I64_EQ: u8 = 0x43;
pub const I64_EQZ: u8 = 0x44;
pub const I64_NE: u8 = 0x45;
pub const I64_LT_S: u8 = 0x46;
pub const I64_LT_U: u8 = 0x47;
pub const I64_GT_S: u8 = 0x48;
pub const I64_GT_U: u8 = 0x49;
pub const I64_LE_S: u8 = 0x4a;
pub const I64_LE_U: u8 = 0x4b;
pub const I64_GE_S: u8 = 0x4c;
pub const I64_GE_U: u8 = 0x4d;
pub const ADD: u8 = 0x51;
pub const SUB: u8 = 0x52;
pub const MUL: u8 = 0x53;
pub const DIV_S: u8 = 0x54;
pub const DIV_U: u8 = 0x55;
pub const MOD_S: u8 = 0x56;
pub const MOD_U: u8 = 0x57;
pub const AND: u8 = 0x58;
pub const OR: u8 = 0x59;
pub const XOR: u8 = 0x5a;
pub const SHL: u8 = 0x5b;
pub const SHR_S: u8 = 0x5c;
pub const SHR_U: u8 = 0x5d;
pub const ROTL: u8 = 0x5e;
pub const ROTR: u8 = 0x5f;
pub const NOT: u8 = 0x60;
pub const MIN: u8 = 0x61;
pub const MAX: u8 = 0x62;
pub const INC: u8 = 0x63;
pub const DEC: u8 = 0x64;
pub const ZERO: u8 = 0x65;
pub const NEXT: u8 = 0xff;

/// The mnemonic of opcode `op`; `???` for a byte that names no instruction.
pub open spec fn mnemonic(op: u8) -> Seq<char> {
    if op == UNREACHABLE {
        "unreachable"@
    } else if op == NOP {
        "nop"@
    } else if op == END {
        "end"@
    } else if op == BR {
        "br"@
    } else if op == BRZ {
        "brz"@
    } else if op == JMP {
        "jmp"@
    } else if op == JZ {
        "jz"@
    } else if op == RETURN {
        "return"@
    } else if op == CALL_VM {
        "call_vm"@
    } else if op == CALL {
        "call"@
    } else if op == CALLI {
        "calli"@
    } else if op == DROP {
        "drop"@
    } else if op == DUP {
        "dup"@
    } else if op == SWAP {
        "swap"@
    } else if op == SELECT {
        "select"@
    } else if op == I32_LOAD {
        "i32.load"@
    } else if op == I32_LOAD_8 {
        "i32.load_8"@
    } else if op == I32_LOAD_16 {
        "i32.load_16"@
    } else if op == I64_LOAD {
        "i64.load"@
    } else if op == I64_LOAD_8 {
        "i64.load_8"@
    } else if op == I64_LOAD_16 {
        "i64.load_16"@
    } else if op == I64_LOAD_32 {
        "i64.load_32"@
    } else if op == I32_STORE {
        "i32.store"@
    } else if op == I32_STORE_8 {
        "i32.store_8"@
    } else if op == I32_STORE_16 {
        "i32.store_16"@
    } else if op == I64_STORE {
        "i64.store"@
    } else if op == I64_STORE_8 {
        "i64.store_8"@
    } else if op == I64_STORE_16 {
        "i64.store_16"@
    } else if op == I64_STORE_32 {
        "i64.store_32"@
    } else if op == I32_CONST {
        "i32.const"@
    } else if op == I64_CONST {
        "i64.const"@
    } else if op == EQ {
        "i32.eq"@
    } else if op == EQZ {
        "i32.eqz"@
    } else if op == NE {
        "i32.neq"@
    } else if op == LT_S {
        "i32.lt_s"@
    } else if op == LT_U {
        "i32.lt_u"@
    } else if op == LE_S {
        "i32.le_s"@
    } else if op == LE_U {
        "i32.le_u"@
    } else if op == GT_S {
        "i32.gt_s"@
    } else if op == GT_U {
        "i32.gt_u"@
    } else if op == GE_S {
        "i32.ge_s"@
    } else if op == GE_U {
        "i32.ge_u"@
    } else if op == I64_EQ {
        "i64.eq"@
    } else if op == I64_EQZ {
        "i64.eqz"@
    } else if op == I64_NE {
        "i64.neq"@
    } else if op == I64_LT_S {
        "i64.lt_s"@
    } else if op == I64_LT_U {
        "i64.lt_u"@
    } else if op == I64_LE_S {
        "i64.le_s"@
    } else if op == I64_LE_U {
        "i64.le_u"@
    } else if op == I64_GT_S {
        "i64.gt_s"@
    } else if op == I64_GT_U {
        "i64.gt_u"@
    } else if op == I64_GE_S {
        "i64.ge_s"@
    } else if op == I64_GE_U {
        "i64.ge_u"@
    } else if op == ADD {
        "i32.add"@
    } else if op == SUB {
        "i32.sub"@
    } else if op == MUL {
        "i32.mul"@
    } else if op == DIV_S {
        "i32.div_s"@
    } else if op == DIV_U {
        "i32.div_u"@
    } else if op == MOD_S {
        "i32.mod_s"@
    } else if op == MOD_U {
        "i32.mod_u"@
    } else if op == AND {
        "i32.and"@
    } else if op == OR {
        "i32.or"@
    } else if op == XOR {
        "i32.xor"@
    } else if op == SHL {
        "i32.shl"@
    } else if op == SHR_S {
        "i32.shr_s"@
    } else if op == SHR_U {
        "i32.shr_u"@
    } else if op == ROTL {
        "i32.rotl"@
    } else if op == ROTR {
        "i32.rotr"@
    } else if op == NOT {
        "i32.not"@
    } else if op == MIN {
        "i32.min"@
    } else if op == MAX {
        "i32.max"@
    } else if op == INC {
        "i32.inc"@
    } else if op == DEC {
        "i32.dec"@
    } else if op == ZERO {
        "i32.zero"@
    } else if op == NEXT {
        ".next"@
    } else {
        "???"@
    }
}

/// The mnemonic of opcode `op`, as a disassembler prints it.
pub fn opcode(op: u8) -> (r: &'static str)
    ensures
        r@ == mnemonic(op),
{
    if op == UNREACHABLE {
        "unreachable"
    } else if op == NOP {
        "nop"
    } else if op == END {
        "end"
    } else if op == BR {
        "br"
    } else if op == BRZ {
        "brz"
    } else if op == JMP {
        "jmp"
    } else if op == JZ {
        "jz"
    } else if op == RETURN {
        "return"
    } else if op == CALL_VM {
        "call_vm"
    } else if op == CALL {
        "call"
    } else if op == CALLI {
        "calli"
    } else if op == DROP {
        "drop"
    } else if op == DUP {
        "dup"
    } else if op == SWAP {
        "swap"
    } else if op == SELECT {
        "select"
    } else if op == I32_LOAD {
        "i32.load"
    } else if op == I32_LOAD_8 {
        "i32.load_8"
    } else if op == I32_LOAD_16 {
        "i32.load_16"
    } else if op == I64_LOAD {
        "i64.load"
    } else if op == I64_LOAD_8 {
        "i64.load_8"
    } else if op == I64_LOAD_16 {
        "i64.load_16"
    } else if op == I64_LOAD_32 {
        "i64.load_32"
    } else if op == I32_STORE {
        "i32.store"
    } else if op == I32_STORE_8 {
        "i32.store_8"
    } else if op == I32_STORE_16 {
        "i32.store_16"
    } else if op == I64_STORE {
        "i64.store"
    } else if op == I64_STORE_8 {
        "i64.store_8"
    } else if op == I64_STORE_16 {
        "i64.store_16"
    } else if op == I64_STORE_32 {
        "i64.store_32"
    } else if op == I32_CONST {
        "i32.const"
    } else if op == I64_CONST {
        "i64.const"
    } else if op == EQ {
        "i32.eq"
    } else if op == EQZ {
        "i32.eqz"
    } else if op == NE {
        "i32.neq"
    } else if op == LT_S {
        "i32.lt_s"
    } else if op == LT_U {
        "i32.lt_u"
    } else if op == LE_S {
        "i32.le_s"
    } else if op == LE_U {
        "i32.le_u"
    } else if op == GT_S {
        "i32.gt_s"
    } else if op == GT_U {
        "i32.gt_u"
    } else if op == GE_S {
        "i32.ge_s"
    } else if op == GE_U {
        "i32.ge_u"
    } else if op == I64_EQ {
        "i64.eq"
    } else if op == I64_EQZ {
        "i64.eqz"
    } else if op == I64_NE {
        "i64.neq"
    } else if op == I64_LT_S {
        "i64.lt_s"
    } else if op == I64_LT_U {
        "i64.lt_u"
    } else if op == I64_LE_S {
        "i64.le_s"
    } else if op == I64_LE_U {
        "i64.le_u"
    } else if op == I64_GT_S {
        "i64.gt_s"
    } else if op == I64_GT_U {
        "i64.gt_u"
    } else if op == I64_GE_S {
        "i64.ge_s"
    } else if op == I64_GE_U {
        "i64.ge_u"
    } else if op == ADD {
        "i32.add"
    } else if op == SUB {
        "i32.sub"
    } else if op == MUL {
        "i32.mul"
    } else if op == DIV_S {
        "i32.div_s"
    } else if op == DIV_U {
        "i32.div_u"
    } else if op == MOD_S {
        "i32.mod_s"
    } else if op == MOD_U {
        "i32.mod_u"
    } else if op == AND {
        "i32.and"
    } else if op == OR {
        "i32.or"
    } else if op == XOR {
        "i32.xor"
    } else if op == SHL {
        "i32.shl"
    } else if op == SHR_S {
        "i32.shr_s"
    } else if op == SHR_U {
        "i32.shr_u"
    } else if op == ROTL {
        "i32.rotl"
    } else if op == ROTR {
        "i32.rotr"
    } else if op == NOT {
        "i32.not"
    } else if op == MIN {
        "i32.min"
    } else if op == MAX {
        "i32.max"
    } else if op == INC {
        "i32.inc"
    } else if op == DEC {
        "i32.dec"
    } else if op == ZERO {
        "i32.zero"
    } else if op == NEXT {
        ".next"
    } else {
        "???"
    }
}

} // verus!
