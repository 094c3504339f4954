use stackvm::opcode::{
    ADD, BR, BRZ, CALL, CALLI, CALL_VM, DIV_S, DIV_U, DROP, DUP, END, EQZ, GT_U, I32_CONST,
    I32_LOAD_16, I32_LOAD_8, I32_STORE, I32_STORE_8, LT_S, MAX, MIN, MOD_S, MOD_U, MUL, NOP,
    RETURN, ROTL, SELECT, SHL, SHR_S, SHR_U, SUB, SWAP, UNREACHABLE,
};
use stackvm::{opcode::opcode, Machine, UnknownOpHandler, VmError, VmFn, VM};

const MEMSIZE: usize = 0x4000;
const PSTACK: usize = 0x2000;
const RSTACK: usize = 0x3FFC; // 0x4000 - 4;

fn create_vm() -> VM {
    let memory = vec![0; MEMSIZE];
    let functions = Vec::new();
    let mut vm = VM::new(memory, functions, 0, 4);
    vm.write_i32(PSTACK as i32, 0);
    vm.write_i32(RSTACK as i32, 4);

    vm
}

fn imm(v: i32) -> [u8; 4] {
    v.to_le_bytes()
}

/// Loads `program` at 16 and runs it from there.
fn run_at_16(vm: &mut VM, program: &[u8]) -> stackvm::Result<()> {
    vm.write(16, program);
    let mut ip = 16;
    vm.run(&mut ip)
}

#[test]
fn test_stack() {
    let mut vm = create_vm();

    vm.push_i32(42);

    assert_eq!(PSTACK as i32 - 4, vm.read_i32(0));
    assert_eq!(42, vm.pop_i32());
    assert_eq!(PSTACK as i32, vm.read_i32(0));
}

#[test]
fn test_memory() {
    let mut vm = create_vm();

    let bytes = [1, 2, 3, 4, 5, 6, 7, 8, 9, 10, 11, 12];

    vm.write(16, &bytes);

    for (i, byte) in bytes.iter().enumerate() {
        assert_eq!(*byte, vm.memory_ref()[16 + i]);
    }

    let mut dst = vec![0; 12];

    vm.read(16, &mut dst);

    for (i, byte) in bytes.iter().enumerate() {
        assert_eq!(*byte, dst[i]);
    }

    let r = vm.memcmp_with(16, &bytes);
    assert!(r);

    let r = vm.memcmp_with(17, &bytes);
    assert!(!r);

    vm.memcopy(16, 48, 12);

    let r = vm.memcmp(16, 48, 12);
    assert!(r);
}

#[test]
fn test_calls() {
    let mut vm = create_vm();

    let program = [
        I32_CONST, // 16
        26, 0, 0, 0, // 17 - 20
        CALL,  // 21
        END,   // 22
        // fn square
        DUP,    // 23
        MUL,    // 24
        RETURN, // 25
        // fn quad
        CALLI, // 26
        23, 0, 0, 0, // 27 - 30
        CALLI, // 31
        23, 0, 0, 0, // 32 - 35
        RETURN, // 36
    ];

    vm.write(16, &program);
    vm.push_i32(2);
    let mut ip = 16;

    assert!(vm.run(&mut ip).is_ok());

    let result = vm.pop_i32();
    assert_eq!(16, result);
}

#[test]
fn push_then_pop_round_trips() {
    let mut vm = create_vm();
    for v in [0, 1, -1, i32::MIN, i32::MAX, 0x1234_5678] {
        vm.push_i32(v);
        assert_eq!(v, vm.pop_i32());
        assert_eq!(PSTACK as i32, vm.read_i32(0));
    }
}

#[test]
fn stack_is_last_in_first_out() {
    let mut vm = create_vm();
    vm.push_i32(1);
    vm.push_i32(2);
    vm.push_i32(3);
    assert_eq!(PSTACK as i32 - 12, vm.read_i32(0));
    assert_eq!(3, vm.pop_i32());
    assert_eq!(2, vm.pop_i32());
    assert_eq!(1, vm.pop_i32());
}

#[test]
fn scalars_are_little_endian() {
    let mut vm = create_vm();
    vm.write_i32(0x0102_0304, 100);
    assert_eq!(&[4, 3, 2, 1], &vm.memory_ref()[100..104]);
    assert_eq!(0x0102_0304, vm.read_i32(100));
    vm.write_i16(-2, 200);
    assert_eq!(&[0xfe, 0xff], &vm.memory_ref()[200..202]);
    assert_eq!(-2, vm.read_i16(200));
    vm.write_u8(0xab, 300);
    assert_eq!(0xab, vm.read_u8(300));
    // unaligned
    vm.write_i32(-123_456, 1001);
    assert_eq!(-123_456, vm.read_i32(1001));
}

#[test]
fn write_then_read_gives_the_buffer() {
    let mut vm = create_vm();
    let buf: Vec<u8> = (0..=255).collect();
    vm.write(513, &buf);
    let mut out = vec![0; buf.len()];
    vm.read(513, &mut out);
    assert_eq!(buf, out);
    let mut empty: Vec<u8> = Vec::new();
    vm.read(513, &mut empty);
    assert!(empty.is_empty());
}

#[test]
fn memcopy_overlapping_forward_and_backward() {
    let mut vm = create_vm();
    vm.write(100, &[1, 2, 3, 4, 5]);
    vm.memcopy(100, 102, 5);
    assert_eq!(&[1, 2, 1, 2, 3, 4, 5], &vm.memory_ref()[100..107]);

    let mut vm = create_vm();
    vm.write(100, &[1, 2, 3, 4, 5]);
    vm.memcopy(100, 98, 5);
    assert_eq!(&[1, 2, 3, 4, 5, 4, 5], &vm.memory_ref()[98..105]);
}

#[test]
fn memcopy_then_compare_disjoint() {
    let mut vm = create_vm();
    vm.write(100, &[9, 8, 7, 6]);
    assert!(!vm.memcmp(100, 300, 4));
    vm.memcopy(100, 300, 4);
    assert!(vm.memcmp(100, 300, 4));
    assert!(vm.memcmp(100, 300, 0));
}

#[test]
fn memory_ref_mut_writes_through() {
    let mut vm = create_vm();
    vm.memory_ref_mut()[50] = 77;
    assert_eq!(77, vm.read_u8(50));
}

#[test]
fn calli_return_one_level() {
    let mut vm = create_vm();
    // 16: CALLI 27; 21: I32_CONST 5; 26: END; 27: I32_CONST 7; 32: RETURN
    let mut program = vec![CALLI];
    program.extend_from_slice(&imm(27));
    program.push(I32_CONST);
    program.extend_from_slice(&imm(5));
    program.push(END);
    program.push(I32_CONST);
    program.extend_from_slice(&imm(7));
    program.push(RETURN);
    assert_eq!(Ok(()), run_at_16(&mut vm, &program));
    assert_eq!(5, vm.pop_i32());
    assert_eq!(7, vm.pop_i32());
    assert_eq!(RSTACK as i32, vm.read_i32(4));
}

#[test]
fn calli_pushes_address_after_operand() {
    let mut vm = create_vm();
    let mut program = vec![CALLI];
    program.extend_from_slice(&imm(40));
    vm.write(16, &program);
    let mut ip = 16;
    assert_eq!(Ok(true), vm.step(&mut ip));
    assert_eq!(40, ip);
    assert_eq!(RSTACK as i32 - 4, vm.read_i32(4));
    assert_eq!(21, vm.read_i32(RSTACK - 4));
}

#[test]
fn br_ignores_the_stack() {
    let mut vm = create_vm();
    let mut program = vec![BR];
    program.extend_from_slice(&imm(100));
    vm.write(16, &program);
    vm.push_i32(0);
    let mut ip = 16;
    assert_eq!(Ok(true), vm.step(&mut ip));
    assert_eq!(100, ip);
    assert_eq!(PSTACK as i32 - 4, vm.read_i32(0));
}

#[test]
fn brz_taken_and_not_taken() {
    let mut vm = create_vm();
    let mut program = vec![BRZ];
    program.extend_from_slice(&imm(100));
    vm.write(16, &program);

    vm.push_i32(9);
    vm.push_i32(0);
    let mut ip = 16;
    assert_eq!(Ok(true), vm.step(&mut ip));
    assert_eq!(100, ip);
    assert_eq!(PSTACK as i32 - 4, vm.read_i32(0));

    vm.push_i32(3);
    let mut ip = 16;
    assert_eq!(Ok(true), vm.step(&mut ip));
    assert_eq!(21, ip);
    assert_eq!(PSTACK as i32 - 4, vm.read_i32(0));
    assert_eq!(9, vm.pop_i32());
}

fn binary(op: u8, a: i32, b: i32) -> stackvm::Result<i32> {
    let mut vm = create_vm();
    vm.push_i32(a);
    vm.push_i32(b);
    vm.write(16, &[op, END]);
    let mut ip = 16;
    vm.run(&mut ip)?;
    Ok(vm.pop_i32())
}

#[test]
fn comparisons_push_one_or_zero() {
    assert_eq!(Ok(1), binary(LT_S, 1, 2));
    assert_eq!(Ok(0), binary(LT_S, 2, 1));
    assert_eq!(Ok(1), binary(GT_U, -1, 1));
    assert_eq!(Ok(0), binary(GT_U, 1, -1));
    for op in 0x38u8..=0x42 {
        if op == EQZ {
            continue;
        }
        for (a, b) in [(0, 0), (-5, 7), (7, -5), (i32::MIN, i32::MAX)] {
            let r = binary(op, a, b).unwrap();
            assert!(r == 0 || r == 1, "{} gave {}", opcode(op), r);
        }
    }
}

#[test]
fn eqz_pushes_one_or_zero() {
    let mut vm = create_vm();
    vm.push_i32(0);
    vm.write(16, &[EQZ, END]);
    let mut ip = 16;
    assert_eq!(Ok(()), vm.run(&mut ip));
    assert_eq!(1, vm.pop_i32());
}

#[test]
fn arithmetic_values() {
    assert_eq!(Ok(7), binary(ADD, 3, 4));
    assert_eq!(Ok(i32::MIN), binary(ADD, i32::MAX, 1));
    assert_eq!(Ok(-1), binary(SUB, 3, 4));
    assert_eq!(Ok(12), binary(MUL, 3, 4));
    assert_eq!(Ok(-3), binary(DIV_S, -7, 2));
    assert_eq!(Ok(i32::MIN), binary(DIV_S, i32::MIN, -1));
    assert_eq!(Ok(0x7fff_ffff), binary(DIV_U, -1, 2));
    assert_eq!(Ok(-1), binary(MOD_S, -7, 2));
    assert_eq!(Ok(0), binary(MOD_S, i32::MIN, -1));
    assert_eq!(Ok(1), binary(MOD_U, 7, 2));
    assert_eq!(Ok(16), binary(SHL, 1, 36));
    assert_eq!(Ok(-1), binary(SHR_S, -2, 1));
    assert_eq!(Ok(0x7fff_ffff), binary(SHR_U, -2, 1));
    assert_eq!(Ok(0x2345_6781), binary(ROTL, 0x1234_5678, 4));
    assert_eq!(Ok(-3), binary(MIN, 4, -3));
    assert_eq!(Ok(4), binary(MAX, 4, -3));
}

#[test]
fn division_by_zero_is_an_error() {
    assert_eq!(Err(VmError::DivideByZero), binary(DIV_S, 1, 0));
    assert_eq!(Err(VmError::DivideByZero), binary(DIV_U, 1, 0));
    assert_eq!(Err(VmError::DivideByZero), binary(MOD_S, 1, 0));
    assert_eq!(Err(VmError::DivideByZero), binary(MOD_U, 1, 0));
}

#[test]
fn unknown_opcode_reports_byte_and_position() {
    let mut vm = create_vm();
    vm.write(16, &[NOP, 0x02]);
    let mut ip = 16;
    assert_eq!(Err(VmError::UnknownOp(0x02, 18)), vm.run(&mut ip));
}

#[test]
fn unreachable_is_an_error() {
    let mut vm = create_vm();
    vm.write(16, &[UNREACHABLE]);
    let mut ip = 16;
    assert_eq!(Err(VmError::Unreachable(17)), vm.run(&mut ip));
}

#[test]
fn out_of_range_is_an_error() {
    let mut vm = create_vm();
    let mut ip = MEMSIZE;
    assert_eq!(Err(VmError::OutOfRange(MEMSIZE)), vm.step(&mut ip));
    // pop from an empty stack whose pointer is at the end of memory
    let mut vm = create_vm();
    vm.write_i32(MEMSIZE as i32, 0);
    vm.write(16, &[DROP]);
    let mut ip = 16;
    assert_eq!(Err(VmError::OutOfRange(16)), vm.step(&mut ip));
}

#[test]
fn stack_shuffles() {
    let mut vm = create_vm();
    vm.push_i32(1);
    vm.push_i32(2);
    vm.write(16, &[SWAP, END]);
    let mut ip = 16;
    assert_eq!(Ok(()), vm.run(&mut ip));
    assert_eq!(1, vm.pop_i32());
    assert_eq!(2, vm.pop_i32());

    for (cond, expected) in [(1, 10), (0, 20)] {
        let mut vm = create_vm();
        vm.push_i32(10);
        vm.push_i32(20);
        vm.push_i32(cond);
        vm.write(16, &[SELECT, END]);
        let mut ip = 16;
        assert_eq!(Ok(()), vm.run(&mut ip));
        assert_eq!(expected, vm.pop_i32());
        assert_eq!(PSTACK as i32, vm.read_i32(0));
    }
}

#[test]
fn loads_zero_extend_and_stores_truncate() {
    let mut vm = create_vm();
    vm.write(500, &[0xff, 0xff, 0xff, 0xff]);
    vm.push_i32(500);
    vm.write(16, &[I32_LOAD_16, END]);
    let mut ip = 16;
    assert_eq!(Ok(()), vm.run(&mut ip));
    assert_eq!(0xffff, vm.pop_i32());

    vm.push_i32(501);
    let mut ip = 16;
    vm.write(16, &[I32_LOAD_8, END]);
    assert_eq!(Ok(()), vm.run(&mut ip));
    assert_eq!(0xff, vm.pop_i32());

    vm.push_i32(0x1234_5678);
    vm.push_i32(600);
    vm.write(16, &[I32_STORE_8, END]);
    let mut ip = 16;
    assert_eq!(Ok(()), vm.run(&mut ip));
    assert_eq!(&[0x78, 0], &vm.memory_ref()[600..602]);

    vm.push_i32(-2);
    vm.push_i32(700);
    vm.write(16, &[I32_STORE, END]);
    let mut ip = 16;
    assert_eq!(Ok(()), vm.run(&mut ip));
    assert_eq!(-2, vm.read_i32(700));
    assert_eq!(PSTACK as i32, vm.read_i32(0));
}

struct Triple;

impl VmFn for Triple {
    fn call(&self, machine: &mut Machine) {
        let v = machine.pop_i32();
        machine.push_i32(v * 3);
    }
}

#[test]
fn call_vm_invokes_host_function() {
    let mut vm = create_vm();
    let idx = vm.add_function(Box::new(Triple));
    assert_eq!(0, idx);
    vm.push_i32(5);
    vm.push_i32(idx as i32);
    vm.write(16, &[CALL_VM, END]);
    let mut ip = 16;
    assert_eq!(Ok(()), vm.run(&mut ip));
    assert_eq!(15, vm.pop_i32());
}

#[test]
fn call_vm_unknown_index() {
    let mut vm = create_vm();
    vm.add_function(Box::new(Triple));
    vm.push_i32(3);
    vm.write(16, &[CALL_VM]);
    let mut ip = 16;
    assert_eq!(Err(VmError::UnknownVmFn(3)), vm.run(&mut ip));
}

/// Takes opcode 0xf0 followed by one byte, and pushes that byte.
struct PushByte;

impl UnknownOpHandler for PushByte {
    fn handle(&self, machine: &mut Machine, ip: &mut usize, op: u8) -> bool {
        if op != 0xf0 {
            return false;
        }
        let b = machine.read_u8(*ip);
        *ip += 1;
        machine.push_i32(b as i32);
        true
    }
}

struct Refuse;

impl UnknownOpHandler for Refuse {
    fn handle(&self, _machine: &mut Machine, _ip: &mut usize, _op: u8) -> bool {
        false
    }
}

#[test]
fn extension_handlers_in_order() {
    let mut vm = create_vm();
    vm.add_unknown_op_handler(Box::new(Refuse));
    vm.add_unknown_op_handler(Box::new(PushByte));
    vm.write(16, &[0xf0, 42, END]);
    let mut ip = 16;
    assert_eq!(Ok(()), vm.run(&mut ip));
    assert_eq!(19, ip);
    assert_eq!(42, vm.pop_i32());

    vm.write(16, &[0xf1]);
    let mut ip = 16;
    assert_eq!(Err(VmError::UnknownOp(0xf1, 17)), vm.run(&mut ip));
}

#[test]
fn run_steps_budget() {
    let mut vm = create_vm();
    vm.write(16, &[NOP, NOP, END]);
    let mut ip = 16;
    assert_eq!(Ok(false), vm.run_steps(&mut ip, 2));
    assert_eq!(18, ip);
    assert_eq!(Ok(true), vm.run_steps(&mut ip, 2));
    assert_eq!(19, ip);
    let mut ip = 16;
    assert_eq!(Ok(false), vm.run_steps(&mut ip, 0));
    assert_eq!(16, ip);
}

#[test]
fn end_stops_step() {
    let mut vm = create_vm();
    vm.write(16, &[END]);
    let mut ip = 16;
    assert_eq!(Ok(false), vm.step(&mut ip));
    assert_eq!(17, ip);
}

#[test]
fn mnemonics() {
    assert_eq!("nop", opcode(NOP));
    assert_eq!("i32.add", opcode(ADD));
    assert_eq!("i32.neq", opcode(0x3a));
    assert_eq!("i32.const", opcode(I32_CONST));
    assert_eq!(".next", opcode(0xff));
    assert_eq!("???", opcode(0x02));
}

#[test]
fn brz_not_taken_reads_no_operand() {
    let mut vm = create_vm();
    vm.write(MEMSIZE - 1, &[BRZ]);
    vm.push_i32(1);
    let mut ip = MEMSIZE - 1;
    assert_eq!(Ok(true), vm.step(&mut ip));
    assert_eq!(MEMSIZE + 4, ip);
    assert_eq!(PSTACK as i32, vm.read_i32(0));
}

#[test]
fn call_vm_negative_index() {
    let mut vm = create_vm();
    vm.add_function(Box::new(Triple));
    vm.push_i32(-1);
    vm.write(16, &[CALL_VM]);
    let mut ip = 16;
    assert_eq!(Err(VmError::UnknownVmFn(-1i32 as usize)), vm.run(&mut ip));
    assert_eq!(PSTACK as i32, vm.read_i32(0));
}

#[test]
fn run_end_to_end_state() {
    let mut vm = create_vm();
    let program = [
        I32_CONST, 26, 0, 0, 0, CALL, END, DUP, MUL, RETURN, CALLI, 23, 0, 0, 0, CALLI, 23, 0, 0,
        0, RETURN,
    ];
    vm.write(16, &program);
    vm.push_i32(2);
    let mut ip = 16;
    assert_eq!(Ok(()), vm.run(&mut ip));
    assert_eq!(23, ip);
    assert_eq!(PSTACK as i32 - 4, vm.read_i32(0));
    assert_eq!(RSTACK as i32, vm.read_i32(4));
    assert_eq!(16, vm.pop_i32());
}
