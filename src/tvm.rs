use crate::callable::Callable;
use crate::error::TvmError;
use crate::function::Function;
use crate::program::Program;
use crate::semantics::{lemma_seeded_len, loadable, reset_model, seeded, start_model, Mem, TvmModel, MEMORY_SIZE, STACK_TOP};
use crate::state::{CallState, StateView, TvmState, WaitingState};
use vstd::prelude::*;

verus! {

/// The virtual machine: memory, state stack, output, and the loaded program.
#[derive(Debug)]
pub struct Tvm {
    /// The flat memory: heap from address 0 up, stack from the top down.
    pub memory: Vec<i32>,
    /// One below the top of stack.
    pub stack_pointer: usize,
    /// The base of the current activation record.
    pub frame_pointer: usize,
    /// The first free address above the heap.
    pub heap_size: usize,
    /// The state stack, innermost state last.
    pub states: Vec<TvmState>,
    /// How many ticks ran.
    pub ticks: usize,
    /// What the program printed.
    pub stdout: String,
    /// The loaded program.
    pub program: Program,
    /// The error that halted the machine, if one did.
    pub error: Option<TvmError>,
    /// Lines of input handed in by the host and not yet read.
    pub input: Vec<String>,
    /// Whether ticks are held back.
    pub paused: bool,
}

impl Tvm {
    /// The memory part of the machine.
    pub open spec fn mem(&self) -> Mem {
        Mem {
            cells: self.memory@,
            sp: self.stack_pointer as int,
            fp: self.frame_pointer as int,
            heap_end: self.heap_size as int,
        }
    }

    /// Everything a tick can change.
    pub open spec fn model(&self) -> TvmModel {
        TvmModel {
            mem: self.mem(),
            states: self.states@.map_values(|s: TvmState| s@),
            stdout: self.stdout@,
            input: self.input@.map_values(|s: String| s@),
            error: self.error,
            ticks: self.ticks as int,
            paused: self.paused,
        }
    }

    /// The machine is well formed: heap and stack apart, state stack in
    /// shape, and a loaded program whose heap fits in memory.
    pub open spec fn wf(&self) -> bool {
        self.model().wf() && loadable(self.program)
    }

    /// `self` and `o` differ at most in their memory.
    pub open spec fn same_but_mem(&self, o: &Tvm) -> bool {
        &&& self.states == o.states
        &&& self.stdout == o.stdout
        &&& self.program == o.program
        &&& self.error == o.error
        &&& self.input == o.input
        &&& self.ticks == o.ticks
        &&& self.paused == o.paused
    }
}

/// A memory of zero cells.
fn zeroed_memory() -> (r: Vec<i32>)
    ensures
        r@ == seeded(Seq::empty()),
{
    let mut v: Vec<i32> = Vec::new();
    let mut i: usize = 0;
    while i < MEMORY_SIZE
        invariant
            i <= MEMORY_SIZE,
            v@.len() == i,
            forall|j: int| 0 <= j < i ==> v@[j] == 0,
        decreases MEMORY_SIZE - i,
    {
        v.push(0);
        i += 1;
    }
    assert(v@ =~= seeded(Seq::empty()));
    v
}

impl Default for Tvm {
    /// A machine with an empty program, waiting to start.
    fn default() -> (r: Self)
        ensures
            r.wf(),
            r.program.heap@.len() == 0 && r.program.functions@.len() == 0,
            r.program.entry_point == 0 && r.program.heap_size == 0,
            r.model() == reset_model(r.program),
    {
        let mut states: Vec<TvmState> = Vec::new();
        states.push(TvmState::Waiting(WaitingState));
        let r = Tvm {
            memory: zeroed_memory(),
            stack_pointer: STACK_TOP,
            frame_pointer: STACK_TOP,
            heap_size: 0,
            states,
            ticks: 0,
            stdout: String::new(),
            program: Program::new(0, 0, Vec::new(), Vec::new()),
            error: None,
            input: Vec::new(),
            paused: false,
        };
        assert(r.model().states =~= seq![StateView::Waiting]);
        assert(r.model().input =~= Seq::<Seq<char>>::empty());
        r
    }
}

impl Tvm {
    /// Whether the program's heap fits in memory.
    pub fn is_loadable(program: &Program) -> (r: bool)
        ensures
            r == loadable(*program),
    {
        if program.heap_size > MEMORY_SIZE {
            return false;
        }
        let mut i: usize = 0;
        while i < program.heap.len()
            invariant
                i <= program.heap@.len(),
                forall|j: int| 0 <= j < i ==> (#[trigger] program.heap@[j]).0 < MEMORY_SIZE,
            decreases program.heap@.len() - i,
        {
            if program.heap[i].0 >= MEMORY_SIZE {
                return false;
            }
            i += 1;
        }
        true
    }

    /// Loads a program and resets the machine for it. A program whose heap
    /// does not fit in memory is refused with `MalformedTape`, and the
    /// machine stays as it was.
    pub fn load(&mut self, program: Program) -> (r: Result<(), TvmError>)
        requires
            old(self).wf(),
        ensures
            final(self).wf(),
            loadable(program) ==> r is Ok && final(self).program == program
                && final(self).model() == reset_model(program),
            !loadable(program) ==> r == Err::<(), TvmError>(TvmError::MalformedTape)
                && *final(self) == *old(self),
    {
        if !Tvm::is_loadable(&program) {
            return Err(TvmError::MalformedTape);
        }
        self.program = program;
        self.reset();
        Ok(())
    }

    /// Back to the state right after loading: zeroed memory with the heap
    /// seeded, empty stack, no output, waiting to start.
    pub fn reset(&mut self)
        requires
            old(self).wf(),
        ensures
            final(self).wf(),
            final(self).program == old(self).program,
            final(self).model() == reset_model(old(self).program),
    {
        let mut memory = zeroed_memory();
        let mut i: usize = 0;
        proof {
            lemma_seeded_len(self.program.heap@.subrange(0, 0));
        }
        while i < self.program.heap.len()
            invariant
                loadable(self.program),
                i <= self.program.heap@.len(),
                memory@ == seeded(self.program.heap@.subrange(0, i as int)),
            decreases self.program.heap@.len() - i,
        {
            let (a, v) = self.program.heap[i];
            proof {
                let h = self.program.heap@;
                assert(h.subrange(0, i + 1).drop_last() =~= h.subrange(0, i as int));
                assert(h[i as int].0 < MEMORY_SIZE);
                lemma_seeded_len(h.subrange(0, i as int));
            }
            memory.set(a, v);
            i += 1;
        }
        assert(self.program.heap@.subrange(0, i as int) =~= self.program.heap@);
        proof {
            lemma_seeded_len(self.program.heap@);
        }
        let mut states: Vec<TvmState> = Vec::new();
        states.push(TvmState::Waiting(WaitingState));
        self.memory = memory;
        self.stack_pointer = STACK_TOP;
        self.frame_pointer = STACK_TOP;
        self.heap_size = self.program.heap_size;
        self.states = states;
        self.ticks = 0;
        self.stdout = String::new();
        self.error = None;
        self.input = Vec::new();
        self.paused = false;
        assert(self.model().states =~= seq![StateView::Waiting]);
        assert(self.model().input =~= Seq::<Seq<char>>::empty());
    }

    /// Resets the machine and makes the call of the entry function pending.
    pub fn start(&mut self)
        requires
            old(self).wf(),
        ensures
            final(self).wf(),
            final(self).program == old(self).program,
            final(self).model() == start_model(old(self).program),
    {
        self.reset();
        let mut states: Vec<TvmState> = Vec::new();
        states.push(TvmState::Call(CallState { callable: Callable::Function(self.program.entry_point) }));
        self.states = states;
        assert(self.model().states =~= seq![StateView::Call(Callable::Function(self.program.entry_point))]);
    }

    /// Holds ticks back until `resume`; pausing twice is pausing once.
    pub fn pause(&mut self)
        requires
            old(self).wf(),
        ensures
            final(self).wf(),
            final(self).program == old(self).program,
            final(self).model() == (TvmModel { paused: true, ..old(self).model() }),
    {
        self.paused = true;
    }

    /// Lets ticks run again, from the state the machine was paused in.
    pub fn resume(&mut self)
        requires
            old(self).wf(),
        ensures
            final(self).wf(),
            final(self).program == old(self).program,
            final(self).model() == (TvmModel { paused: false, ..old(self).model() }),
    {
        self.paused = false;
    }

    /// Whether the machine halted.
    pub fn is_halted(&self) -> (r: bool)
        requires
            self.wf(),
        ensures
            r == (self.model().states.last() == StateView::Halt),
    {
        match &self.states[self.states.len() - 1] {
            TvmState::Halt(_) => true,
            _ => false,
        }
    }

    /// Whether the machine is paused.
    pub fn is_paused(&self) -> (r: bool)
        ensures
            r == self.paused,
    {
        self.paused
    }

    /// A copy of the current (innermost) state.
    pub fn get_state(&self) -> (r: TvmState)
        requires
            self.wf(),
        ensures
            r@ == self.model().states.last(),
    {
        self.states[self.states.len() - 1].duplicate()
    }

    /// A copy of the state stack, innermost last.
    pub fn get_states(&self) -> (r: Vec<TvmState>)
        ensures
            r@.map_values(|s: TvmState| s@) == self.model().states,
    {
        let mut r: Vec<TvmState> = Vec::new();
        let mut i: usize = 0;
        while i < self.states.len()
            invariant
                i <= self.states@.len(),
                r@.len() == i,
                forall|j: int| 0 <= j < i ==> (#[trigger] r@[j])@ == self.states@[j]@,
            decreases self.states@.len() - i,
        {
            r.push(self.states[i].duplicate());
            i += 1;
        }
        assert(r@.map_values(|s: TvmState| s@) =~= self.model().states);
        r
    }

    /// The error that halted the machine, if any.
    pub fn get_error(&self) -> (r: Option<TvmError>)
        ensures
            r == self.error,
    {
        self.error
    }

    /// The function with the given index.
    pub fn get_function(&self, id: usize) -> (r: &Function)
        requires
            id < self.program.functions@.len(),
        ensures
            *r == self.program.functions@[id as int],
    {
        &self.program.functions[id]
    }

    /// Hands in a line of input for `IREAD` or `SREAD`.
    pub fn provide_input(&mut self, line: String)
        requires
            old(self).wf(),
        ensures
            final(self).wf(),
            final(self).program == old(self).program,
            final(self).model() == (TvmModel { input: old(self).model().input.push(line@), ..old(self).model() }),
    {
        self.input.push(line);
        assert(self.model().input =~= old(self).model().input.push(line@));
    }
}

} // verus!
