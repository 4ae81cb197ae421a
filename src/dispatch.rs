use crate::error::TvmError;
use crate::native::NativeFunction;
use crate::semantics::{epilogue_run, native_run, prologue_run, TvmModel, STACK_TOP};
use crate::text::{decimal_of, int_to_string, parse_i32, trim_text};
use crate::tvm::Tvm;
use rand::Rng;
use vstd::prelude::*;
use vstd::string::StringExecFns;

verus! {

/// Relies on `rand::Rng::gen_range` on the thread-local generator: a number
/// drawn from `0..n` (it panics on an empty range, which `n > 0` rules out).
#[verifier::external_body]
pub(crate) fn random_below(n: i32) -> (r: i32)
    requires
        n > 0,
    ensures
        0 <= r < n,
{
    rand::thread_rng().gen_range(0..n)
}

impl Tvm {
    /// The prologue of a call to a function with `locals` local cells.
    pub fn prologue(&mut self, locals: usize) -> (r: Result<(), TvmError>)
        requires
            old(self).mem().wf(),
        ensures
            (final(self).mem(), r) == prologue_run(old(self).mem(), locals as int),
            final(self).mem().wf(),
            final(self).same_but_mem(old(self)),
    {
        let sp = self.stack_pointer;
        if locals > sp || sp - locals < self.heap_size || sp - locals < 1 {
            return Err(TvmError::StackOverflow);
        }
        let base = sp - locals;
        let ghost cells = self.memory@;
        let mut j: usize = base + 1;
        while j <= sp
            invariant
                base + 1 <= j <= sp + 1,
                sp == self.stack_pointer,
                sp < self.memory@.len(),
                sp <= STACK_TOP,
                cells == old(self).memory@,
                self.same_but_mem(old(self)),
                self.stack_pointer == old(self).stack_pointer,
                self.frame_pointer == old(self).frame_pointer,
                self.heap_size == old(self).heap_size,
                self.memory@ == Seq::new(cells.len(), |k: int| if base < k < j { 0i32 } else { cells[k] }),
            decreases sp + 1 - j,
        {
            self.memory.set(j, 0);
            j += 1;
            assert(self.memory@ =~= Seq::new(cells.len(), |k: int| if base < k < j { 0i32 } else { cells[k] }));
        }
        let fp = self.frame_pointer;
        self.memory.set(base, fp as i32);
        self.stack_pointer = base - 1;
        self.frame_pointer = base;
        assert(self.memory@ =~= Seq::new(cells.len(), |k: int|
            if base < k <= sp { 0i32 } else if k == base { fp as i32 } else { cells[k] }));
        Ok(())
    }

    /// The epilogue of a function with `args` argument and `locals` local cells.
    pub fn epilogue(&mut self, args: usize, locals: usize) -> (r: Result<(), TvmError>)
        requires
            old(self).mem().wf(),
        ensures
            (final(self).mem(), r) == epilogue_run(old(self).mem(), args as int, locals as int),
            final(self).mem().wf(),
            final(self).same_but_mem(old(self)),
    {
        let r = match self.pop() {
            Ok(r) => r,
            Err(e) => return Err(e),
        };
        let fp = self.frame_pointer;
        if args > STACK_TOP - fp || locals > STACK_TOP - fp - args {
            return Err(TvmError::StackUnderflow);
        }
        let new_sp = fp + args + locals;
        let saved = self.memory[fp];
        if new_sp < self.heap_size || new_sp < 1 || saved < 0 || saved > STACK_TOP as i32 {
            return Err(TvmError::StackUnderflow);
        }
        self.memory.set(new_sp, r);
        self.stack_pointer = new_sp - 1;
        self.frame_pointer = saved as usize;
        Ok(())
    }

    /// Pushes 0 as a native function's result.
    fn push_zero(&mut self) -> (r: Result<(), TvmError>)
        requires
            old(self).mem().wf(),
        ensures
            (final(self).mem(), r) == crate::semantics::push_run(old(self).mem(), 0),
            final(self).mem().wf(),
            final(self).same_but_mem(old(self)),
    {
        self.push(0)
    }

    fn native_iprint(&mut self, n: NativeFunction, draw: i32) -> (r: Result<(), TvmError>)
        requires
            old(self).mem().wf(),
            n == NativeFunction::IPrint,
        ensures
            (final(self).model(), r) == native_run(old(self).model(), n, draw),
            final(self).mem().wf(),
            final(self).program == old(self).program,
            final(self).states == old(self).states,
    {
        let v = match self.pop() {
            Ok(v) => v,
            Err(e) => return Err(e),
        };
        let s = int_to_string(v);
        self.stdout.append(s.as_str());
        self.push_zero()
    }

    fn native_sprint(&mut self, n: NativeFunction, draw: i32) -> (r: Result<(), TvmError>)
        requires
            old(self).mem().wf(),
            n == NativeFunction::SPrint,
        ensures
            (final(self).model(), r) == native_run(old(self).model(), n, draw),
            final(self).mem().wf(),
            final(self).program == old(self).program,
            final(self).states == old(self).states,
    {
        let a = match self.pop() {
            Ok(a) => a,
            Err(e) => return Err(e),
        };
        if a < 0 || a as usize >= crate::semantics::MEMORY_SIZE {
            return Err(TvmError::InvalidAddress);
        }
        let s = self.a2s(a as usize);
        self.stdout.append(s.as_str());
        self.push_zero()
    }

    fn native_iread(&mut self, n: NativeFunction, draw: i32) -> (r: Result<(), TvmError>)
        requires
            old(self).mem().wf(),
            old(self).input@.len() > 0,
            n == NativeFunction::IRead,
        ensures
            (final(self).model(), r) == native_run(old(self).model(), n, draw),
            final(self).mem().wf(),
            final(self).program == old(self).program,
            final(self).states == old(self).states,
    {
        match self.pop() {
            Ok(_) => {},
            Err(e) => return Err(e),
        };
        let line = self.input.remove(0);
        proof {
            assert(self.model().input =~= old(self).model().input.drop_first());
        }
        let t = trim_text(line.as_str());
        match parse_i32(t.as_str()) {
            None => Err(TvmError::NativeIOError),
            Some(v) => self.push(v),
        }
    }

    fn native_sread(&mut self, n: NativeFunction, draw: i32) -> (r: Result<(), TvmError>)
        requires
            old(self).mem().wf(),
            old(self).input@.len() > 0,
            n == NativeFunction::SRead,
        ensures
            (final(self).model(), r) == native_run(old(self).model(), n, draw),
            final(self).mem().wf(),
            final(self).program == old(self).program,
            final(self).states == old(self).states,
    {
        let a = match self.pop() {
            Ok(a) => a,
            Err(e) => return Err(e),
        };
        match self.pop() {
            Ok(_) => {},
            Err(e) => return Err(e),
        };
        let line = self.input.remove(0);
        proof {
            assert(self.model().input =~= old(self).model().input.drop_first());
        }
        match self.write_at(a, line) {
            Ok(_) => self.push_zero(),
            Err(e) => Err(e),
        }
    }

    fn native_nl(&mut self, n: NativeFunction, draw: i32) -> (r: Result<(), TvmError>)
        requires
            old(self).mem().wf(),
            n == NativeFunction::NL,
        ensures
            (final(self).model(), r) == native_run(old(self).model(), n, draw),
            final(self).mem().wf(),
            final(self).program == old(self).program,
            final(self).states == old(self).states,
    {
        self.stdout.append("\n");
        proof {
            reveal_strlit("\n");
            assert(self.stdout@ =~= old(self).stdout@.push('\n'));
        }
        self.push_zero()
    }

    fn native_random(&mut self, n: NativeFunction, draw: i32) -> (r: Result<(), TvmError>)
        requires
            old(self).mem().wf(),
            n == NativeFunction::Random,
        ensures
            (final(self).model(), r) == native_run(old(self).model(), n, draw),
            final(self).mem().wf(),
            final(self).program == old(self).program,
            final(self).states == old(self).states,
    {
        let n = match self.pop() {
            Ok(n) => n,
            Err(e) => return Err(e),
        };
        if n <= 0 {
            return Err(TvmError::NativeIOError);
        }
        self.push(draw)
    }

    fn native_timer(&mut self, n: NativeFunction, draw: i32) -> (r: Result<(), TvmError>)
        requires
            old(self).mem().wf(),
            n == NativeFunction::Timer || n == NativeFunction::StopTimer,
        ensures
            (final(self).model(), r) == native_run(old(self).model(), n, draw),
            final(self).mem().wf(),
            final(self).program == old(self).program,
            final(self).states == old(self).states,
    {
        match self.pop() {
            Ok(_) => {},
            Err(e) => return Err(e),
        };
        match self.pop() {
            Ok(_) => {},
            Err(e) => return Err(e),
        };
        self.push_zero()
    }

    fn native_alloc(&mut self, n: NativeFunction, draw: i32) -> (r: Result<(), TvmError>)
        requires
            old(self).mem().wf(),
            n == NativeFunction::Alloc,
        ensures
            (final(self).model(), r) == native_run(old(self).model(), n, draw),
            final(self).mem().wf(),
            final(self).program == old(self).program,
            final(self).states == old(self).states,
    {
        let n = match self.pop() {
            Ok(n) => n,
            Err(e) => return Err(e),
        };
        // The address goes into `n`'s cell: the heap may grow up to just below it.
        if n < 0 || self.heap_size + (n as usize) > self.stack_pointer {
            return Err(TvmError::HeapOverflow);
        }
        let a = self.heap_size;
        self.heap_size = a + n as usize;
        self.push(a as i32)
    }

    fn native_free(&mut self, n: NativeFunction, draw: i32) -> (r: Result<(), TvmError>)
        requires
            old(self).mem().wf(),
            n == NativeFunction::Free,
        ensures
            (final(self).model(), r) == native_run(old(self).model(), n, draw),
            final(self).mem().wf(),
            final(self).program == old(self).program,
            final(self).states == old(self).states,
    {
        match self.pop() {
            Ok(_) => {},
            Err(e) => return Err(e),
        };
        self.push_zero()
    }

    fn native_i2s(&mut self, n: NativeFunction, draw: i32) -> (r: Result<(), TvmError>)
        requires
            old(self).mem().wf(),
            n == NativeFunction::I2S,
        ensures
            (final(self).model(), r) == native_run(old(self).model(), n, draw),
            final(self).mem().wf(),
            final(self).program == old(self).program,
            final(self).states == old(self).states,
    {
        let v = match self.pop() {
            Ok(v) => v,
            Err(e) => return Err(e),
        };
        let a = match self.pop() {
            Ok(a) => a,
            Err(e) => return Err(e),
        };
        let s = int_to_string(v);
        match self.write_at(a, s) {
            Ok(_) => self.push_zero(),
            Err(e) => Err(e),
        }
    }

    /// Runs the native function `n`; `draw` is what `RANDOM` pushes. The
    /// call state itself is left by the caller.
    pub fn call_native(&mut self, n: NativeFunction, draw: i32) -> (r: Result<(), TvmError>)
        requires
            old(self).mem().wf(),
            (n == NativeFunction::IRead || n == NativeFunction::SRead) ==> old(self).input@.len() > 0,
        ensures
            (final(self).model(), r) == native_run(old(self).model(), n, draw),
            final(self).mem().wf(),
            final(self).program == old(self).program,
            final(self).states == old(self).states,
    {
        match n {
            NativeFunction::IPrint => self.native_iprint(n, draw),
            NativeFunction::SPrint => self.native_sprint(n, draw),
            NativeFunction::IRead => self.native_iread(n, draw),
            NativeFunction::SRead => self.native_sread(n, draw),
            NativeFunction::NL => self.native_nl(n, draw),
            NativeFunction::Random => self.native_random(n, draw),
            NativeFunction::Timer | NativeFunction::StopTimer => self.native_timer(n, draw),
            NativeFunction::Alloc => self.native_alloc(n, draw),
            NativeFunction::Free => self.native_free(n, draw),
            NativeFunction::I2S => self.native_i2s(n, draw),
            NativeFunction::Unknown(_) => Err(TvmError::InvalidCallable),
        }
    }
}

} // verus!
