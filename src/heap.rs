use crate::error::TvmError;
use crate::semantics::{alloc_run, write_run, Mem, MEMORY_SIZE};
use crate::text::{char_of_cell, decimal_of, int_to_string, push_char, string_at, string_fits, with_string, char_cell};
use crate::tvm::Tvm;
use vstd::prelude::*;
use vstd::string::{StrSliceExecFns, StringExecFns};

verus! {

impl Tvm {
    /// Allocates `n` heap cells (given as a stack value): returns the old end
    /// of the heap, which moves up by `n`. Fails with `HeapOverflow`, changing
    /// nothing, when `n` is negative or the heap would reach the live stack.
    pub fn alloc_cells(&mut self, n: i32) -> (r: Result<i32, TvmError>)
        requires
            old(self).mem().wf(),
        ensures
            (final(self).mem(), r) == alloc_run(old(self).mem(), n),
            final(self).mem().wf(),
            final(self).same_but_mem(old(self)),
    {
        if n < 0 || self.heap_size + (n as usize) > self.stack_pointer + 1 {
            return Err(TvmError::HeapOverflow);
        }
        let a = self.heap_size;
        self.heap_size = a + n as usize;
        Ok(a as i32)
    }

    /// Allocates `size` heap cells and returns the address of the first.
    /// Fails with `HeapOverflow`, changing nothing, when the heap would reach
    /// the live stack.
    pub fn allocate(&mut self, size: usize) -> (r: Result<usize, TvmError>)
        requires
            old(self).mem().wf(),
        ensures
            final(self).mem().wf(),
            final(self).same_but_mem(old(self)),
            old(self).heap_size + size <= old(self).stack_pointer + 1 ==> r == Ok::<usize, TvmError>(old(self).heap_size)
                && final(self).mem() == (Mem { heap_end: old(self).heap_size + size, ..old(self).mem() }),
            old(self).heap_size + size > old(self).stack_pointer + 1 ==> r == Err::<usize, TvmError>(TvmError::HeapOverflow)
                && final(self).mem() == old(self).mem(),
    {
        if size > self.stack_pointer + 1 - self.heap_size {
            return Err(TvmError::HeapOverflow);
        }
        let a = self.heap_size;
        self.heap_size = a + size;
        Ok(a)
    }

    /// Gives back the heap from `address` on: the end of the heap moves down
    /// to `address`, unless it is already below.
    pub fn deallocate(&mut self, address: usize)
        requires
            old(self).mem().wf(),
        ensures
            final(self).mem().wf(),
            final(self).same_but_mem(old(self)),
            final(self).mem() == (Mem {
                heap_end: if address < old(self).heap_size { address as int } else { old(self).heap_size as int },
                ..old(self).mem()
            }),
    {
        if address < self.heap_size {
            self.heap_size = address;
        }
    }

    /// The heap cells, from address 0.
    pub fn get_heap(&self) -> (r: Vec<i32>)
        requires
            self.mem().wf(),
        ensures
            r@ == self.memory@.subrange(0, self.heap_size as int),
    {
        let mut r: Vec<i32> = Vec::new();
        let mut i: usize = 0;
        while i < self.heap_size
            invariant
                self.mem().wf(),
                i <= self.heap_size,
                r@ == self.memory@.subrange(0, i as int),
            decreases self.heap_size - i,
        {
            r.push(self.memory[i]);
            i += 1;
            assert(r@ =~= self.memory@.subrange(0, i as int));
        }
        r
    }

    /// The end of the heap.
    pub fn get_heap_size(&self) -> (r: usize)
        ensures
            r == self.heap_size,
    {
        self.heap_size
    }

    /// The text stored from `address` on: one character per cell (its low
    /// byte), up to the first zero cell.
    pub fn a2s(&self, address: usize) -> (r: String)
        requires
            self.mem().wf(),
        ensures
            r@ == string_at(self.memory@, address as int),
    {
        let mut s = String::new();
        let mut i: usize = address;
        while i < MEMORY_SIZE && self.memory[i] != 0
            invariant
                self.mem().wf(),
                address <= i,
                i <= MEMORY_SIZE || i == address,
                string_at(self.memory@, address as int) == s@ + string_at(self.memory@, i as int),
            decreases MEMORY_SIZE - i,
        {
            let c = char_of_cell(self.memory[i]);
            let ghost before = s@;
            push_char(&mut s, c);
            assert(string_at(self.memory@, i as int) == seq![c] + string_at(self.memory@, i + 1));
            assert(before + string_at(self.memory@, i as int) =~= s@ + string_at(self.memory@, i + 1));
            i += 1;
        }
        assert(string_at(self.memory@, i as int) == Seq::<char>::empty());
        assert(s@ + Seq::<char>::empty() =~= s@);
        s
    }

    /// Stores the text `s` from `address` on, one code point per cell, and a
    /// zero cell after it. Fails with `InvalidAddress`, changing nothing,
    /// when that does not fit in memory.
    pub fn write_string(&mut self, address: usize, s: String) -> (r: Result<(), TvmError>)
        requires
            old(self).mem().wf(),
        ensures
            final(self).mem().wf(),
            final(self).same_but_mem(old(self)),
            string_fits(MEMORY_SIZE as int, address as int, s@) ==> r == Ok::<(), TvmError>(())
                && final(self).mem() == (Mem { cells: with_string(old(self).memory@, address as int, s@), ..old(self).mem() }),
            !string_fits(MEMORY_SIZE as int, address as int, s@) ==> r == Err::<(), TvmError>(TvmError::InvalidAddress)
                && final(self).mem() == old(self).mem(),
    {
        let n = s.as_str().unicode_len();
        if address >= MEMORY_SIZE || n >= MEMORY_SIZE - address {
            return Err(TvmError::InvalidAddress);
        }
        let ghost cells = self.memory@;
        let mut i: usize = 0;
        while i < n
            invariant
                n == s@.len(),
                address + n < MEMORY_SIZE,
                i <= n,
                self.mem().wf(),
                self.same_but_mem(old(self)),
                self.stack_pointer == old(self).stack_pointer,
                self.frame_pointer == old(self).frame_pointer,
                self.heap_size == old(self).heap_size,
                cells == old(self).memory@,
                self.memory@ == Seq::new(cells.len(), |j: int|
                    if address <= j < address + i { char_cell(s@[j - address]) } else { cells[j] }),
            decreases n - i,
        {
            let c = s.as_str().get_char(i);
            self.memory.set(address + i, (c as u32) as i32);
            i += 1;
            assert(self.memory@ =~= Seq::new(cells.len(), |j: int|
                if address <= j < address + i { char_cell(s@[j - address]) } else { cells[j] }));
        }
        self.memory.set(address + n, 0);
        assert(self.memory@ =~= with_string(cells, address as int, s@));
        Ok(())
    }

    /// Stores the text `s` at the stack value `a`, as `write_run` describes.
    pub fn write_at(&mut self, a: i32, s: String) -> (r: Result<(), TvmError>)
        requires
            old(self).mem().wf(),
        ensures
            (final(self).mem(), r) == write_run(old(self).mem(), a, s@),
            final(self).mem().wf(),
            final(self).same_but_mem(old(self)),
    {
        if a < 0 {
            return Err(TvmError::InvalidAddress);
        }
        self.write_string(a as usize, s)
    }

    /// The cells in use: the heap, then the stack from the stack pointer up,
    /// as (address, value) pairs in address order.
    pub open spec fn active_cells(&self) -> Seq<(usize, i32)> {
        Seq::new(
            (self.heap_size + (MEMORY_SIZE - self.stack_pointer)) as nat,
            |i: int|
                if i < self.heap_size {
                    (i as usize, self.memory@[i])
                } else {
                    ((i - self.heap_size + self.stack_pointer) as usize, self.memory@[i - self.heap_size + self.stack_pointer])
                },
        )
    }

    /// The cells in use: the heap, then the stack from the stack pointer up,
    /// as (address, value) pairs in address order.
    pub fn get_active_memory(&self) -> (r: Vec<(usize, i32)>)
        requires
            self.mem().wf(),
        ensures
            r@ == self.active_cells(),
    {
        let mut r: Vec<(usize, i32)> = Vec::new();
        let mut i: usize = 0;
        while i < self.heap_size
            invariant
                self.mem().wf(),
                i <= self.heap_size,
                r@ == self.active_cells().subrange(0, i as int),
            decreases self.heap_size - i,
        {
            r.push((i, self.memory[i]));
            i += 1;
            assert(r@ =~= self.active_cells().subrange(0, i as int));
        }
        let mut k: usize = self.stack_pointer;
        while k < MEMORY_SIZE
            invariant
                self.mem().wf(),
                self.stack_pointer <= k <= MEMORY_SIZE,
                r@ == self.active_cells().subrange(0, self.heap_size + (k - self.stack_pointer)),
            decreases MEMORY_SIZE - k,
        {
            r.push((k, self.memory[k]));
            k += 1;
            assert(r@ =~= self.active_cells().subrange(0, self.heap_size + (k - self.stack_pointer)));
        }
        assert(r@ =~= self.active_cells());
        r
    }

    /// The cells in use as text: one `address: value` line per cell.
    pub fn get_active_memory_string(&self) -> (r: String)
        requires
            self.mem().wf(),
        ensures
            r@ == memory_lines(self.active_cells()),
    {
        let cells = self.get_active_memory();
        let mut s = String::new();
        let mut i: usize = 0;
        while i < cells.len()
            invariant
                self.mem().wf(),
                i <= cells@.len(),
                cells@ == self.active_cells(),
                s@ == memory_lines(cells@.subrange(0, i as int)),
            decreases cells@.len() - i,
        {
            let (a, v) = cells[i];
            let address = int_to_string(a as i32);
            let value = int_to_string(v);
            s.append(address.as_str());
            s.append(": ");
            s.append(value.as_str());
            s.append("\n");
            proof {
                let c = cells@.subrange(0, i + 1);
                assert(c.drop_last() =~= cells@.subrange(0, i as int));
                assert(a < MEMORY_SIZE);
            }
            i += 1;
        }
        assert(cells@.subrange(0, i as int) =~= cells@);
        s
    }
}

/// The text of a list of cells: one `address: value` line each.
pub open spec fn memory_lines(cells: Seq<(usize, i32)>) -> Seq<char>
    decreases cells.len(),
{
    if cells.len() == 0 {
        Seq::empty()
    } else {
        memory_lines(cells.drop_last()) + decimal_of(cells.last().0 as i32 as int) + ": "@
            + decimal_of(cells.last().1 as int) + "\n"@
    }
}

} // verus!
