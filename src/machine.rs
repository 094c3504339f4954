//! Linear memory and the two stacks whose pointer cells live in it.
use vstd::prelude::*;
use crate::codec::{
    i32_at, lemma_put_i32_at, lemma_put_u32_at, put_i32, put_u16, put_u32, read_u16, read_u32,
    u16_at, u32_at, write_u16, write_u32,
};

verus! {

/// The stack pointer held in the cell at `cell`.
pub open spec fn stack_ptr(mem: Seq<u8>, cell: int) -> int {
    u32_at(mem, cell) as int
}

/// A push through the cell at `cell` stays inside memory.
pub open spec fn can_push(mem: Seq<u8>, cell: int) -> bool {
    &&& 0 <= cell
    &&& cell + 4 <= mem.len()
    &&& 4 <= stack_ptr(mem, cell)
    &&& stack_ptr(mem, cell) <= mem.len()
}

/// Memory after pushing `v`: the pointer drops by 4 and `v` is stored at its new value.
pub open spec fn pushed(mem: Seq<u8>, cell: int, v: i32) -> Seq<u8> {
    let p = stack_ptr(mem, cell) - 4;
    put_u32(put_i32(mem, p, v), cell, p as u32)
}

/// A pop through the cell at `cell` stays inside memory.
pub open spec fn can_pop(mem: Seq<u8>, cell: int) -> bool {
    &&& 0 <= cell
    &&& cell + 4 <= mem.len()
    &&& stack_ptr(mem, cell) + 4 <= mem.len()
    &&& stack_ptr(mem, cell) + 4 <= u32::MAX
}

/// The value a pop through `cell` returns: the one at the pointer.
pub open spec fn top(mem: Seq<u8>, cell: int) -> i32 {
    i32_at(mem, stack_ptr(mem, cell))
}

/// Memory after a pop: the pointer rises by 4.
pub open spec fn popped(mem: Seq<u8>, cell: int) -> Seq<u8> {
    put_u32(mem, cell, (stack_ptr(mem, cell) + 4) as u32)
}

/// Memory and value after a pop through `cell`, if it stays inside memory.
pub open spec fn pop1(mem: Seq<u8>, cell: int) -> Option<(Seq<u8>, i32)> {
    if can_pop(mem, cell) {
        Some((popped(mem, cell), top(mem, cell)))
    } else {
        None
    }
}

/// Memory after a push of `v` through `cell`, if it stays inside memory.
pub open spec fn push1(mem: Seq<u8>, cell: int, v: i32) -> Option<Seq<u8>> {
    if can_push(mem, cell) {
        Some(pushed(mem, cell, v))
    } else {
        None
    }
}

/// `mem` with the bytes of `b` stored from `at` on.
pub open spec fn written(mem: Seq<u8>, at: int, b: Seq<u8>) -> Seq<u8> {
    mem.subrange(0, at) + b + mem.subrange(at + b.len(), mem.len() as int)
}

/// `mem` after copying `n` bytes from `from` to `to`, as if through a separate buffer.
pub open spec fn copied(mem: Seq<u8>, from: int, to: int, n: int) -> Seq<u8> {
    Seq::new(mem.len(), |k: int| if to <= k < to + n { mem[from + (k - to)] } else { mem[k] })
}

/// Pushing a value and then popping returns that value and puts the stack pointer
/// back where it was, provided the pushed slot does not cover the pointer cell.
pub proof fn lemma_push_then_pop(mem: Seq<u8>, cell: int, v: i32)
    requires
        can_push(mem, cell),
        cell + 4 <= stack_ptr(mem, cell) - 4 || stack_ptr(mem, cell) <= cell,
    ensures
        can_pop(pushed(mem, cell, v), cell),
        top(pushed(mem, cell, v), cell) == v,
        stack_ptr(popped(pushed(mem, cell, v), cell), cell) == stack_ptr(mem, cell),
{
    let p = stack_ptr(mem, cell) - 4;
    let m1 = put_i32(mem, p, v);
    lemma_put_i32_at(mem, p, v);
    lemma_put_u32_at(m1, cell, p as u32);
    let m2 = pushed(mem, cell, v);
    assert(stack_ptr(m2, cell) == p);
    assert(i32_at(m2, p) == i32_at(m1, p)) by {
        assert(m2[p] == m1[p]);
        assert(m2[p + 1] == m1[p + 1]);
        assert(m2[p + 2] == m1[p + 2]);
        assert(m2[p + 3] == m1[p + 3]);
    }
    lemma_put_u32_at(m2, cell, (p + 4) as u32);
}

/// Writing a buffer and reading the same range back gives the buffer.
pub proof fn lemma_write_then_read(mem: Seq<u8>, at: int, b: Seq<u8>)
    requires
        0 <= at,
        at + b.len() <= mem.len(),
    ensures
        written(mem, at, b).subrange(at, at + b.len()) == b,
{
    assert(written(mem, at, b).subrange(at, at + b.len()) =~= b);
}

/// After copying `n` bytes between two ranges that are the same or do not overlap,
/// the two ranges compare equal.
pub proof fn lemma_copy_then_compare(mem: Seq<u8>, from: int, to: int, n: int)
    requires
        0 <= from,
        0 <= to,
        0 <= n,
        from + n <= mem.len(),
        to + n <= mem.len(),
        from == to || from + n <= to || to + n <= from,
    ensures
        copied(mem, from, to, n).subrange(from, from + n) == copied(mem, from, to, n).subrange(to, to + n),
{
    assert(copied(mem, from, to, n).subrange(from, from + n) =~= copied(mem, from, to, n).subrange(to, to + n));
}

/// Linear memory with the addresses of the parameter and return stack pointer cells.
///
/// Each cell holds a 32-bit little-endian stack pointer. Both stacks grow downwards and
/// the pointer addresses the value on top: a push lowers it by 4 and then stores, a pop
/// loads and then raises it by 4.
pub struct Machine {
    memory: Vec<u8>,
    pstack_top: usize,
    rstack_top: usize,
}

impl Machine {
    /// The bytes of linear memory.
    pub closed spec fn mem(&self) -> Seq<u8> {
        self.memory@
    }

    /// Address of the parameter stack pointer cell.
    pub closed spec fn pcell(&self) -> int {
        self.pstack_top as int
    }

    /// Address of the return stack pointer cell.
    pub closed spec fn rcell(&self) -> int {
        self.rstack_top as int
    }

    pub fn new(memory: Vec<u8>, pstack_top: usize, rstack_top: usize) -> (r: Machine)
        ensures
            r.mem() == memory@,
            r.pcell() == pstack_top,
            r.rcell() == rstack_top,
    {
        Machine { memory, pstack_top, rstack_top }
    }

    /// Size of linear memory in bytes.
    pub fn len(&self) -> (r: usize)
        ensures
            r == self.mem().len(),
    {
        self.memory.len()
    }

    pub fn read_u8(&self, idx: usize) -> (r: u8)
        requires
            idx < self.mem().len(),
        ensures
            r == self.mem()[idx as int],
    {
        self.memory[idx]
    }

    pub fn read_i16(&self, idx: usize) -> (r: i16)
        requires
            idx + 2 <= self.mem().len(),
        ensures
            r == u16_at(self.mem(), idx as int) as i16,
    {
        read_u16(self.memory.as_slice(), idx) as i16
    }

    pub fn read_i32(&self, idx: usize) -> (r: i32)
        requires
            idx + 4 <= self.mem().len(),
        ensures
            r == i32_at(self.mem(), idx as int),
    {
        read_u32(self.memory.as_slice(), idx) as i32
    }

    /// Copies `dst.len()` bytes starting at `from` into `dst`.
    pub fn read(&self, from: usize, dst: &mut [u8])
        requires
            from + old(dst)@.len() <= self.mem().len(),
        ensures
            final(dst)@ == self.mem().subrange(from as int, from + old(dst)@.len()),
    {
        let n = dst.len();
        let len = self.memory.len();
        let mut i: usize = 0;
        while i < n
            invariant
                len == self.mem().len(),
                n == dst@.len(),
                from + n <= self.mem().len(),
                i <= n,
                forall|k: int| 0 <= k < i ==> dst@[k] == self.mem()[from + k],
            decreases n - i,
        {
            dst[i] = self.memory[from + i];
            i = i + 1;
        }
        assert(dst@ =~= self.mem().subrange(from as int, from + n));
    }

    pub fn write_u8(&mut self, value: u8, idx: usize)
        requires
            idx < old(self).mem().len(),
        ensures
            final(self).mem() == old(self).mem().update(idx as int, value),
            final(self).pcell() == old(self).pcell(),
            final(self).rcell() == old(self).rcell(),
    {
        self.memory.set(idx, value);
    }

    pub fn write_i16(&mut self, value: i16, idx: usize)
        requires
            idx + 2 <= old(self).mem().len(),
        ensures
            final(self).mem() == put_u16(old(self).mem(), idx as int, value as u16),
            final(self).pcell() == old(self).pcell(),
            final(self).rcell() == old(self).rcell(),
    {
        write_u16(&mut self.memory, idx, value as u16);
    }

    pub fn write_i32(&mut self, value: i32, idx: usize)
        requires
            idx + 4 <= old(self).mem().len(),
        ensures
            final(self).mem() == put_i32(old(self).mem(), idx as int, value),
            final(self).pcell() == old(self).pcell(),
            final(self).rcell() == old(self).rcell(),
    {
        write_u32(&mut self.memory, idx, value as u32);
    }

    /// Copies `src` into memory starting at `to`.
    pub fn write(&mut self, to: usize, src: &[u8])
        requires
            to + src@.len() <= old(self).mem().len(),
        ensures
            final(self).mem() == written(old(self).mem(), to as int, src@),
            final(self).pcell() == old(self).pcell(),
            final(self).rcell() == old(self).rcell(),
    {
        let n = src.len();
        let len = self.memory.len();
        let mut i: usize = 0;
        while i < n
            invariant
                len == self.mem().len(),
                n == src@.len(),
                to + n <= old(self).mem().len(),
                i <= n,
                self.mem().len() == old(self).mem().len(),
                self.pcell() == old(self).pcell(),
                self.rcell() == old(self).rcell(),
                forall|k: int| 0 <= k < i ==> self.mem()[to + k] == src@[k],
                forall|k: int|
                    0 <= k < self.mem().len() && !(to <= k < to + i) ==> self.mem()[k] == old(
                        self,
                    ).mem()[k],
            decreases n - i,
        {
            self.memory.set(to + i, src[i]);
            i = i + 1;
        }
        assert(self.mem() =~= written(old(self).mem(), to as int, src@));
    }
    /// Copies `n` bytes from `from` to `to`; the regions may overlap, and the
    /// result is that of copying through a separate buffer.
    pub fn memcopy(&mut self, from: usize, to: usize, n: usize)
        requires
            from + n <= old(self).mem().len(),
            to + n <= old(self).mem().len(),
        ensures
            final(self).mem() == copied(old(self).mem(), from as int, to as int, n as int),
            final(self).pcell() == old(self).pcell(),
            final(self).rcell() == old(self).rcell(),
    {
        let len = self.memory.len();
        if to <= from {
            let mut i: usize = 0;
            while i < n
                invariant
                    len == self.mem().len(),
                    len == old(self).mem().len(),
                    from + n <= len,
                    to + n <= len,
                    to <= from,
                    i <= n,
                    self.pcell() == old(self).pcell(),
                    self.rcell() == old(self).rcell(),
                    forall|k: int| 0 <= k < i ==> #[trigger] self.mem()[to + k] == old(self).mem()[from + k],
                    forall|k: int|
                        0 <= k < len && !(to <= k < to + i) ==> #[trigger] self.mem()[k] == old(
                            self,
                        ).mem()[k],
                decreases n - i,
            {
                let b = self.memory[from + i];
                self.memory.set(to + i, b);
                i = i + 1;
            }
        } else {
            let mut i: usize = n;
            while i > 0
                invariant
                    len == self.mem().len(),
                    len == old(self).mem().len(),
                    from + n <= len,
                    to + n <= len,
                    from < to,
                    i <= n,
                    self.pcell() == old(self).pcell(),
                    self.rcell() == old(self).rcell(),
                    forall|k: int| i <= k < n ==> #[trigger] self.mem()[to + k] == old(self).mem()[from + k],
                    forall|k: int|
                        0 <= k < len && !(to + i <= k < to + n) ==> #[trigger] self.mem()[k] == old(
                            self,
                        ).mem()[k],
                decreases i,
            {
                i = i - 1;
                let b = self.memory[from + i];
                self.memory.set(to + i, b);
            }
        }
        assert(self.mem() =~= copied(old(self).mem(), from as int, to as int, n as int)) by {
            assert forall|k: int| 0 <= k < len implies #[trigger] self.mem()[k] == copied(
                old(self).mem(),
                from as int,
                to as int,
                n as int,
            )[k] by {
                if to <= k < to + n {
                    assert(self.mem()[to + (k - to)] == old(self).mem()[from + (k - to)]);
                }
            }
        }
    }

    /// Whether the `n` bytes at `a` equal the `n` bytes at `b`.
    pub fn memcmp(&self, a: usize, b: usize, n: usize) -> (r: bool)
        requires
            a + n <= self.mem().len(),
            b + n <= self.mem().len(),
        ensures
            r == (self.mem().subrange(a as int, a + n) == self.mem().subrange(b as int, b + n)),
    {
        let len = self.memory.len();
        let mut i: usize = 0;
        while i < n
            invariant
                len == self.mem().len(),
                a + n <= self.mem().len(),
                b + n <= self.mem().len(),
                i <= n,
                forall|k: int| 0 <= k < i ==> #[trigger] self.mem()[a + k] == self.mem()[b + k],
            decreases n - i,
        {
            if self.memory[a + i] != self.memory[b + i] {
                assert(self.mem().subrange(a as int, a + n)[i as int] != self.mem().subrange(
                    b as int,
                    b + n,
                )[i as int]);
                return false;
            }
            i = i + 1;
        }
        assert forall|k: int| 0 <= k < n implies #[trigger] self.mem().subrange(a as int, a + n)[k]
            == self.mem().subrange(b as int, b + n)[k] by {
            assert(self.mem()[a + k] == self.mem()[b + k]);
        }
        assert(self.mem().subrange(a as int, a + n) =~= self.mem().subrange(b as int, b + n));
        true
    }

    /// Whether the bytes at `from` equal `other`.
    pub fn memcmp_with(&self, from: usize, other: &[u8]) -> (r: bool)
        requires
            from + other@.len() <= self.mem().len(),
        ensures
            r == (self.mem().subrange(from as int, from + other@.len()) == other@),
    {
        let n = other.len();
        let len = self.memory.len();
        let mut i: usize = 0;
        while i < n
            invariant
                len == self.mem().len(),
                n == other@.len(),
                from + n <= self.mem().len(),
                i <= n,
                forall|k: int| 0 <= k < i ==> self.mem()[from + k] == other@[k],
            decreases n - i,
        {
            if self.memory[from + i] != other[i] {
                assert(self.mem().subrange(from as int, from + n)[i as int] != other@[i as int]);
                return false;
            }
            i = i + 1;
        }
        assert(self.mem().subrange(from as int, from + n) =~= other@);
        true
    }

    pub fn memory_ref(&self) -> (r: &[u8])
        ensures
            r@ == self.mem(),
    {
        self.memory.as_slice()
    }

    pub fn memory_ref_mut(&mut self) -> (r: &mut [u8])
        ensures
            r@ == old(self).mem(),
            final(self).mem() == final(r)@,
            final(self).pcell() == old(self).pcell(),
            final(self).rcell() == old(self).rcell(),
    {
        self.memory.as_mut_slice()
    }

    /// Pushes `value` on the stack whose pointer cell is at `cell`.
    fn push_to(&mut self, cell: usize, value: i32)
        requires
            can_push(old(self).mem(), cell as int),
        ensures
            final(self).mem() == pushed(old(self).mem(), cell as int, value),
            final(self).pcell() == old(self).pcell(),
            final(self).rcell() == old(self).rcell(),
    {
        let p = read_u32(self.memory.as_slice(), cell) as usize - 4;
        write_u32(&mut self.memory, p, value as u32);
        write_u32(&mut self.memory, cell, p as u32);
    }

    /// Pops the top value of the stack whose pointer cell is at `cell`.
    fn pop_from(&mut self, cell: usize) -> (r: i32)
        requires
            can_pop(old(self).mem(), cell as int),
        ensures
            r == top(old(self).mem(), cell as int),
            final(self).mem() == popped(old(self).mem(), cell as int),
            final(self).pcell() == old(self).pcell(),
            final(self).rcell() == old(self).rcell(),
    {
        let p = read_u32(self.memory.as_slice(), cell);
        let v = read_u32(self.memory.as_slice(), p as usize) as i32;
        write_u32(&mut self.memory, cell, p + 4);
        v
    }

    /// Whether a push through `cell` stays inside memory.
    pub fn push_fits(&self, cell: usize) -> (r: bool)
        ensures
            r == can_push(self.mem(), cell as int),
    {
        let len = self.memory.len();
        if len < 4 || cell > len - 4 {
            return false;
        }
        let p = read_u32(self.memory.as_slice(), cell) as usize;
        4 <= p && p <= len
    }

    /// Whether a pop through `cell` stays inside memory.
    pub fn pop_fits(&self, cell: usize) -> (r: bool)
        ensures
            r == can_pop(self.mem(), cell as int),
    {
        let len = self.memory.len();
        if len < 4 || cell > len - 4 {
            return false;
        }
        let p = read_u32(self.memory.as_slice(), cell);
        p <= u32::MAX - 4 && (p as usize) <= len - 4
    }

    /// Pushes `value` on the parameter stack.
    pub fn push_i32(&mut self, value: i32)
        requires
            can_push(old(self).mem(), old(self).pcell()),
        ensures
            final(self).mem() == pushed(old(self).mem(), old(self).pcell(), value),
            final(self).pcell() == old(self).pcell(),
            final(self).rcell() == old(self).rcell(),
    {
        let cell = self.pstack_top;
        self.push_to(cell, value);
    }

    /// Pops the top of the parameter stack.
    pub fn pop_i32(&mut self) -> (r: i32)
        requires
            can_pop(old(self).mem(), old(self).pcell()),
        ensures
            r == top(old(self).mem(), old(self).pcell()),
            final(self).mem() == popped(old(self).mem(), old(self).pcell()),
            final(self).pcell() == old(self).pcell(),
            final(self).rcell() == old(self).rcell(),
    {
        let cell = self.pstack_top;
        self.pop_from(cell)
    }

    /// Pushes `value` on the return stack.
    pub fn rs_push(&mut self, value: i32)
        requires
            can_push(old(self).mem(), old(self).rcell()),
        ensures
            final(self).mem() == pushed(old(self).mem(), old(self).rcell(), value),
            final(self).pcell() == old(self).pcell(),
            final(self).rcell() == old(self).rcell(),
    {
        let cell = self.rstack_top;
        self.push_to(cell, value);
    }

    /// Pops the top of the return stack.
    pub fn rs_pop(&mut self) -> (r: i32)
        requires
            can_pop(old(self).mem(), old(self).rcell()),
        ensures
            r == top(old(self).mem(), old(self).rcell()),
            final(self).mem() == popped(old(self).mem(), old(self).rcell()),
            final(self).pcell() == old(self).pcell(),
            final(self).rcell() == old(self).rcell(),
    {
        let cell = self.rstack_top;
        self.pop_from(cell)
    }

    /// Pops through `cell` if the pop stays inside memory; otherwise changes nothing.
    pub fn try_pop(&mut self, cell: usize) -> (r: Option<i32>)
        ensures
            match pop1(old(self).mem(), cell as int) {
                Some(p) => r == Some(p.1) && final(self).mem() == p.0,
                None => r is None && final(self).mem() == old(self).mem(),
            },
            final(self).pcell() == old(self).pcell(),
            final(self).rcell() == old(self).rcell(),
    {
        if self.pop_fits(cell) {
            Some(self.pop_from(cell))
        } else {
            None
        }
    }

    /// Pushes through `cell` if the push stays inside memory; otherwise changes nothing.
    pub fn try_push(&mut self, cell: usize, value: i32) -> (r: bool)
        ensures
            r == push1(old(self).mem(), cell as int, value) is Some,
            final(self).mem() == match push1(old(self).mem(), cell as int, value) {
                Some(m) => m,
                None => old(self).mem(),
            },
            final(self).pcell() == old(self).pcell(),
            final(self).rcell() == old(self).rcell(),
    {
        if self.push_fits(cell) {
            self.push_to(cell, value);
            true
        } else {
            false
        }
    }

    /// Address of the parameter stack pointer cell.
    pub fn pstack_top(&self) -> (r: usize)
        ensures
            r == self.pcell(),
    {
        self.pstack_top
    }

    /// Address of the return stack pointer cell.
    pub fn rstack_top(&self) -> (r: usize)
        ensures
            r == self.rcell(),
    {
        self.rstack_top
    }
}

} // verus!
