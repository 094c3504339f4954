//! The engine: a [`Machine`] together with host functions and extension handlers.
use vstd::prelude::*;
use crate::codec::{i32_at, put_i32, put_u16, u16_at};
use crate::machine::{can_pop, can_push, copied, popped, pushed, top, written, Machine};
use crate::opcode::{CALL_VM, END};
use crate::step::{
    core_run, core_step, execute, follows, is_core_opcode, lemma_extension_iff_not_core, Result,
    Transition, VmError,
};

verus! {

/// A native function that a program calls through CALL_VM.
pub trait VmFn {
    /// Runs with full access to memory and both stacks.
    fn call(&self, machine: &mut Machine);
}

/// An extension that may take opcodes outside the core set.
pub trait UnknownOpHandler {
    /// Returns whether it executed `op`; `ip` follows the opcode byte and may be
    /// advanced past operand bytes that the extension owns.
    fn handle(&self, machine: &mut Machine, ip: &mut usize, op: u8) -> bool;
}

/// Appending to a sequence makes it one longer.
proof fn lemma_push_len<T>(s: Seq<T>, a: T)
    ensures
        s.push(a).len() == s.len() + 1,
{
}

/// The execution engine: a [`Machine`], the host functions that CALL_VM reaches by
/// index, and the extension handlers tried in turn on opcodes outside the core set.
/// The instruction pointer belongs to the caller and is passed to `step` and `run`.
pub struct VM {
    machine: Machine,
    functions: Vec<Box<dyn VmFn>>,
    unknown_opcode_handler: Vec<Box<dyn UnknownOpHandler>>,
}

impl VM {
    /// The bytes of linear memory.
    pub closed spec fn mem(&self) -> Seq<u8> {
        self.machine.mem()
    }

    /// Address of the parameter stack pointer cell.
    pub closed spec fn pcell(&self) -> int {
        self.machine.pcell()
    }

    /// Address of the return stack pointer cell.
    pub closed spec fn rcell(&self) -> int {
        self.machine.rcell()
    }

    /// The host functions, by index.
    pub closed spec fn host_fns(&self) -> Seq<Box<dyn VmFn>> {
        self.functions@
    }

    /// The extension handlers, in the order they are tried.
    pub closed spec fn handlers(&self) -> Seq<Box<dyn UnknownOpHandler>> {
        self.unknown_opcode_handler@
    }

    /// Number of registered host functions.
    pub open spec fn n_functions(&self) -> nat {
        self.host_fns().len()
    }

    /// Number of registered extension handlers.
    pub open spec fn n_handlers(&self) -> nat {
        self.handlers().len()
    }

    pub fn new(memory: Vec<u8>, functions: Vec<Box<dyn VmFn>>, pstack_top: usize, rstack_top: usize) -> (r: VM)
        ensures
            r.mem() == memory@,
            r.pcell() == pstack_top,
            r.rcell() == rstack_top,
            r.host_fns() == functions@,
            r.handlers() == Seq::<Box<dyn UnknownOpHandler>>::empty(),
    {
        VM { machine: Machine::new(memory, pstack_top, rstack_top), functions, unknown_opcode_handler: Vec::new() }
    }

    pub fn read_u8(&self, idx: usize) -> (r: u8)
        requires
            idx < self.mem().len(),
        ensures
            r == self.mem()[idx as int],
    {
        self.machine.read_u8(idx)
    }

    pub fn read_i16(&self, idx: usize) -> (r: i16)
        requires
            idx + 2 <= self.mem().len(),
        ensures
            r == u16_at(self.mem(), idx as int) as i16,
    {
        self.machine.read_i16(idx)
    }

    pub fn read_i32(&self, idx: usize) -> (r: i32)
        requires
            idx + 4 <= self.mem().len(),
        ensures
            r == i32_at(self.mem(), idx as int),
    {
        self.machine.read_i32(idx)
    }

    /// Copies `dst.len()` bytes starting at `from` into `dst`.
    pub fn read(&self, from: usize, dst: &mut [u8])
        requires
            from + old(dst)@.len() <= self.mem().len(),
        ensures
            final(dst)@ == self.mem().subrange(from as int, from + old(dst)@.len()),
    {
        self.machine.read(from, dst)
    }

    pub fn write_u8(&mut self, value: u8, idx: usize)
        requires
            idx < old(self).mem().len(),
        ensures
            final(self).mem() == old(self).mem().update(idx as int, value),
            final(self).same_config(*old(self)),
    {
        self.machine.write_u8(value, idx)
    }

    pub fn write_i16(&mut self, value: i16, idx: usize)
        requires
            idx + 2 <= old(self).mem().len(),
        ensures
            final(self).mem() == put_u16(old(self).mem(), idx as int, value as u16),
            final(self).same_config(*old(self)),
    {
        self.machine.write_i16(value, idx)
    }

    pub fn write_i32(&mut self, value: i32, idx: usize)
        requires
            idx + 4 <= old(self).mem().len(),
        ensures
            final(self).mem() == put_i32(old(self).mem(), idx as int, value),
            final(self).same_config(*old(self)),
    {
        self.machine.write_i32(value, idx)
    }

    /// Copies `src` into memory starting at `to`.
    pub fn write(&mut self, to: usize, src: &[u8])
        requires
            to + src@.len() <= old(self).mem().len(),
        ensures
            final(self).mem() == written(old(self).mem(), to as int, src@),
            final(self).same_config(*old(self)),
    {
        self.machine.write(to, src)
    }

    /// Copies `n` bytes from `from` to `to`; the regions may overlap.
    pub fn memcopy(&mut self, from: usize, to: usize, n: usize)
        requires
            from + n <= old(self).mem().len(),
            to + n <= old(self).mem().len(),
        ensures
            final(self).mem() == copied(old(self).mem(), from as int, to as int, n as int),
            final(self).same_config(*old(self)),
    {
        self.machine.memcopy(from, to, n)
    }

    /// Whether the `n` bytes at `a` equal the `n` bytes at `b`.
    pub fn memcmp(&self, a: usize, b: usize, n: usize) -> (r: bool)
        requires
            a + n <= self.mem().len(),
            b + n <= self.mem().len(),
        ensures
            r == (self.mem().subrange(a as int, a + n) == self.mem().subrange(b as int, b + n)),
    {
        self.machine.memcmp(a, b, n)
    }

    /// Whether the bytes at `from` equal `other`.
    pub fn memcmp_with(&self, from: usize, other: &[u8]) -> (r: bool)
        requires
            from + other@.len() <= self.mem().len(),
        ensures
            r == (self.mem().subrange(from as int, from + other@.len()) == other@),
    {
        self.machine.memcmp_with(from, other)
    }

    pub fn memory_ref(&self) -> (r: &[u8])
        ensures
            r@ == self.mem(),
    {
        self.machine.memory_ref()
    }

    pub fn memory_ref_mut(&mut self) -> (r: &mut [u8])
        ensures
            r@ == old(self).mem(),
            final(self).mem() == final(r)@,
            final(self).same_config(*old(self)),
    {
        self.machine.memory_ref_mut()
    }

    /// Pushes `value` on the parameter stack.
    pub fn push_i32(&mut self, value: i32)
        requires
            can_push(old(self).mem(), old(self).pcell()),
        ensures
            final(self).mem() == pushed(old(self).mem(), old(self).pcell(), value),
            final(self).same_config(*old(self)),
    {
        self.machine.push_i32(value)
    }

    /// Pops the top of the parameter stack.
    pub fn pop_i32(&mut self) -> (r: i32)
        requires
            can_pop(old(self).mem(), old(self).pcell()),
        ensures
            r == top(old(self).mem(), old(self).pcell()),
            final(self).mem() == popped(old(self).mem(), old(self).pcell()),
            final(self).same_config(*old(self)),
    {
        self.machine.pop_i32()
    }

    /// The same stack pointer cells and the same host functions and handlers.
    pub open spec fn same_config(self, other: VM) -> bool {
        &&& self.pcell() == other.pcell()
        &&& self.rcell() == other.rcell()
        &&& self.host_fns() == other.host_fns()
        &&& self.handlers() == other.handlers()
    }

    /// Registers a host function and returns its index.
    pub fn add_function(&mut self, f: Box<dyn VmFn>) -> (r: usize)
        ensures
            r == old(self).n_functions(),
            final(self).host_fns() == old(self).host_fns().push(f),
            final(self).n_functions() == old(self).n_functions() + 1,
            final(self).mem() == old(self).mem(),
            final(self).pcell() == old(self).pcell(),
            final(self).rcell() == old(self).rcell(),
            final(self).handlers() == old(self).handlers(),
    {
        proof {
            lemma_push_len(self.functions@, f);
        }
        self.functions.push(f);
        self.functions.len() - 1
    }

    /// Appends an extension handler; handlers are tried in the order they were added.
    pub fn add_unknown_op_handler(&mut self, f: Box<dyn UnknownOpHandler>)
        ensures
            final(self).handlers() == old(self).handlers().push(f),
            final(self).n_handlers() == old(self).n_handlers() + 1,
            final(self).mem() == old(self).mem(),
            final(self).pcell() == old(self).pcell(),
            final(self).rcell() == old(self).rcell(),
            final(self).host_fns() == old(self).host_fns(),
    {
        proof {
            lemma_push_len(self.unknown_opcode_handler@, f);
        }
        self.unknown_opcode_handler.push(f);
    }

    /// CALL_VM at `at`: pops the index and calls that host function.
    fn vm_fn(&mut self, at: usize) -> (r: Result<bool>)
        requires
            at < old(self).mem().len(),
            old(self).mem()[at as int] == CALL_VM,
        ensures
            match core_step(old(self).mem(), old(self).pcell(), old(self).rcell(), at as int) {
                Transition::Host(m, idx) => if idx < old(self).n_functions() {
                    r == Ok::<bool, VmError>(true)
                } else {
                    r == Err::<bool, VmError>(VmError::UnknownVmFn(idx)) && final(self).mem() == m
                        && final(self).same_config(*old(self))
                },
                t => follows(t, final(self).mem(), at + 1, r) && final(self).same_config(*old(self)),
            },
            final(self).host_fns() == old(self).host_fns(),
            final(self).handlers() == old(self).handlers(),
    {
        let pc = self.machine.pstack_top();
        let idx = match self.machine.try_pop(pc) {
            Some(v) => v as usize,
            None => {
                return Err(VmError::OutOfRange(at));
            },
        };
        if idx >= self.functions.len() {
            return Err(VmError::UnknownVmFn(idx));
        }
        self.functions[idx].call(&mut self.machine);
        Ok(true)
    }
    /// Executes the instruction at `*ip` and moves `*ip` on. `Ok(false)` after END,
    /// `Ok(true)` after any other instruction that completed.
    pub fn step(&mut self, ip: &mut usize) -> (r: Result<bool>)
        ensures
            match core_step(old(self).mem(), old(self).pcell(), old(self).rcell(), *old(ip) as int) {
                Transition::Host(m, idx) => *final(ip) == *old(ip) + 1 && if idx < old(self).n_functions() {
                    r == Ok::<bool, VmError>(true)
                } else {
                    r == Err::<bool, VmError>(VmError::UnknownVmFn(idx)) && final(self).mem() == m
                        && final(self).same_config(*old(self))
                },
                Transition::Extension(op) => {
                    &&& r is Ok ==> r == Ok::<bool, VmError>(true)
                    &&& r is Err ==> r == Err::<bool, VmError>(VmError::UnknownOp(op, *final(ip)))
                },
                t => follows(t, final(self).mem(), *final(ip) as int, r) && final(self).same_config(*old(self)),
            },
            core_step(old(self).mem(), old(self).pcell(), old(self).rcell(), *old(ip) as int) is Extension
                && old(self).n_handlers() == 0 ==> {
                &&& r == Err::<bool, VmError>(
                    VmError::UnknownOp(old(self).mem()[*old(ip) as int], (*old(ip) + 1) as usize),
                )
                &&& *final(ip) == *old(ip) + 1
                &&& final(self).mem() == old(self).mem()
                &&& final(self).same_config(*old(self))
            },
            r == Ok::<bool, VmError>(false) ==> {
                &&& *old(ip) < old(self).mem().len()
                &&& old(self).mem()[*old(ip) as int] == END
                &&& *final(ip) == *old(ip) + 1
                &&& final(self).mem() == old(self).mem()
            },
            final(self).host_fns() == old(self).host_fns(),
            final(self).handlers() == old(self).handlers(),
    {
        let at = *ip;
        let len = self.machine.len();
        if at >= len {
            return Err(VmError::OutOfRange(at));
        }
        let op = self.machine.read_u8(at);
        proof {
            lemma_extension_iff_not_core(self.mem(), self.pcell(), self.rcell(), at as int, op);
        }
        if op == CALL_VM {
            *ip = at + 1;
            self.vm_fn(at)
        } else if is_core_opcode(op) {
            execute(&mut self.machine, at, op, ip)
        } else {
            assert(core_step(old(self).mem(), old(self).pcell(), old(self).rcell(), at as int)
                == Transition::Extension(op));
            *ip = at + 1;
            let n = self.unknown_opcode_handler.len();
            let mut i: usize = 0;
            while i < n
                invariant
                    n == self.n_handlers(),
                    n == old(self).n_handlers(),
                    at == *old(ip),
                    core_step(old(self).mem(), old(self).pcell(), old(self).rcell(), at as int)
                        == Transition::Extension(op),
                    i <= n,
                    self.host_fns() == old(self).host_fns(),
                    self.handlers() == old(self).handlers(),
                    i == 0 ==> self.mem() == old(self).mem() && *ip == at + 1 && self.same_config(*old(self)),
                decreases n - i,
            {
                if self.unknown_opcode_handler[i].handle(&mut self.machine, ip, op) {
                    return Ok(true);
                }
                i = i + 1;
            }
            Err(VmError::UnknownOp(op, *ip))
        }
    }

    /// Executes at most `max_steps` instructions from `*ip`: `Ok(true)` once END has
    /// run, `Ok(false)` if the budget ran out first, or the first error.
    pub fn run_steps(&mut self, ip: &mut usize, max_steps: u64) -> (r: Result<bool>)
        ensures
            match core_run(old(self).mem(), old(self).pcell(), old(self).rcell(), *old(ip) as int, max_steps as nat) {
                Some((res, m, i)) => {
                    &&& r == res
                    &&& r is Ok ==> final(self).mem() == m && *final(ip) == i
                    &&& final(self).same_config(*old(self))
                },
                None => true,
            },
            r == Ok::<bool, VmError>(true) ==> {
                &&& 1 <= *final(ip) <= final(self).mem().len()
                &&& final(self).mem()[*final(ip) - 1] == END
            },
            final(self).host_fns() == old(self).host_fns(),
            final(self).handlers() == old(self).handlers(),
    {
        let mut k: u64 = 0;
        while k < max_steps
            invariant
                k <= max_steps,
                self.host_fns() == old(self).host_fns(),
                self.handlers() == old(self).handlers(),
                core_run(old(self).mem(), old(self).pcell(), old(self).rcell(), *old(ip) as int, max_steps as nat)
                    is Some ==> {
                    &&& self.same_config(*old(self))
                    &&& core_run(self.mem(), self.pcell(), self.rcell(), *ip as int, (max_steps - k) as nat)
                        == core_run(old(self).mem(), old(self).pcell(), old(self).rcell(), *old(ip) as int, max_steps as nat)
                },
            decreases max_steps - k,
        {
            match self.step(ip) {
                Ok(true) => {},
                Ok(false) => {
                    return Ok(true);
                },
                Err(e) => {
                    return Err(e);
                },
            }
            k = k + 1;
        }
        Ok(false)
    }

    /// Executes from `*ip` until END or an error, for at most `u64::MAX` instructions.
    pub fn run(&mut self, ip: &mut usize) -> (r: Result<()>)
        ensures
            match core_run(old(self).mem(), old(self).pcell(), old(self).rcell(), *old(ip) as int, u64::MAX as nat) {
                Some((res, m, i)) => {
                    &&& match res {
                        Ok(_) => r == Ok::<(), VmError>(()) && final(self).mem() == m && *final(ip) == i,
                        Err(e) => r == Err::<(), VmError>(e),
                    }
                    &&& final(self).same_config(*old(self))
                },
                None => true,
            },
            final(self).host_fns() == old(self).host_fns(),
            final(self).handlers() == old(self).handlers(),
    {
        match self.run_steps(ip, u64::MAX) {
            Ok(_) => Ok(()),
            Err(e) => Err(e),
        }
    }
}

} // verus!
