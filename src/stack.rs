use crate::error::TvmError;
use crate::semantics::{pop_run, push_run, MEMORY_SIZE, STACK_TOP};
use crate::tvm::Tvm;
use vstd::prelude::*;

verus! {

impl Tvm {
    /// Pushes `value`: writes it at the stack pointer, which then moves down.
    /// Fails with `StackOverflow`, changing nothing, when the stack would run
    /// into the heap.
    pub fn push(&mut self, value: i32) -> (r: Result<(), TvmError>)
        requires
            old(self).mem().wf(),
        ensures
            (final(self).mem(), r) == push_run(old(self).mem(), value),
            final(self).mem().wf(),
            final(self).same_but_mem(old(self)),
    {
        if self.stack_pointer < self.heap_size || self.stack_pointer == 0 {
            return Err(TvmError::StackOverflow);
        }
        let sp = self.stack_pointer;
        self.memory.set(sp, value);
        self.stack_pointer = sp - 1;
        Ok(())
    }

    /// Pops the top of stack. Fails with `StackUnderflow`, changing nothing,
    /// on an empty stack.
    pub fn pop(&mut self) -> (r: Result<i32, TvmError>)
        requires
            old(self).mem().wf(),
        ensures
            (final(self).mem(), r) == pop_run(old(self).mem()),
            final(self).mem().wf(),
            final(self).same_but_mem(old(self)),
    {
        if self.stack_pointer >= STACK_TOP {
            return Err(TvmError::StackUnderflow);
        }
        self.stack_pointer = self.stack_pointer + 1;
        Ok(self.memory[self.stack_pointer])
    }

    /// The top of stack.
    pub fn peek(&self) -> (r: i32)
        requires
            self.mem().wf(),
            self.stack_pointer < STACK_TOP,
        ensures
            r == self.memory@[self.stack_pointer + 1],
    {
        self.memory[self.stack_pointer + 1]
    }

    /// The live stack, top first.
    pub fn get_stack(&self) -> (r: Vec<i32>)
        requires
            self.mem().wf(),
        ensures
            r@ == self.mem().stack(),
            r@.len() == STACK_TOP - self.stack_pointer,
    {
        let mut r: Vec<i32> = Vec::new();
        let mut i: usize = self.stack_pointer + 1;
        while i < MEMORY_SIZE
            invariant
                self.mem().wf(),
                self.stack_pointer + 1 <= i <= MEMORY_SIZE,
                r@ == self.memory@.subrange(self.stack_pointer + 1, i as int),
            decreases MEMORY_SIZE - i,
        {
            r.push(self.memory[i]);
            i += 1;
            assert(r@ =~= self.memory@.subrange(self.stack_pointer + 1, i as int));
        }
        r
    }

    /// How many cells the stack holds: `65535 - sp`.
    pub fn get_stack_size(&self) -> (r: usize)
        requires
            self.mem().wf(),
        ensures
            r == STACK_TOP - self.stack_pointer,
            r == self.mem().depth(),
    {
        STACK_TOP - self.stack_pointer
    }

    /// The stack pointer.
    pub fn get_stack_pointer(&self) -> (r: usize)
        ensures
            r == self.stack_pointer,
    {
        self.stack_pointer
    }
}

} // verus!
