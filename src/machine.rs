use crate::callable::Callable;
use crate::dispatch::random_below;
use crate::error::TvmError;
use crate::frame::{Frame, FrameData};
use crate::native::NativeFunction;
use crate::program::Program;
use crate::semantics::{
    act, awaits_input, body_frame_at, break_run, draw_allowed, exit_run, fault, frame_at, last_call,
    last_loop, leave_call, pop_state, return_run, tick_run, Action, TvmModel, STACK_TOP, MEMORY_SIZE,
    count_calls, count_contexts, draws_random, input_prompt,
};
use crate::state::{child_path, copy_path, CallState, EvalState, FrameEvalState, HaltState, LoopState, StateView, TvmState};
use crate::laws::{law_draw_only_for_random, law_states_are_activations_and_contexts};
use crate::tvm::Tvm;
use vstd::prelude::*;

verus! {

/// The frame at `path` in the body of function `function` of `program`.
pub fn frame_in<'a>(program: &'a Program, function: usize, path: &Vec<usize>) -> (r: Option<&'a Frame>)
    ensures
        match r {
            Some(f) => body_frame_at(*program, function, path@) == Some(*f),
            None => body_frame_at(*program, function, path@) is None,
        },
{
    if function >= program.functions.len() {
        return None;
    }
    let mut cur: &Frame = &program.functions[function].frame;
    let mut i: usize = 0;
    assert(path@.subrange(0, path@.len() as int) =~= path@);
    while i < path.len()
        invariant
            i <= path@.len(),
            function < program.functions@.len(),
            body_frame_at(*program, function, path@) == frame_at(*cur, path@.subrange(i as int, path@.len() as int)),
        decreases path@.len() - i,
    {
        let idx = path[i];
        let ghost rest = path@.subrange(i as int, path@.len() as int);
        if idx >= cur.data.len() {
            return None;
        }
        match &cur.data[idx] {
            FrameData::Frame(c) => {
                assert(rest.drop_first() =~= path@.subrange(i + 1, path@.len() as int));
                cur = c;
            },
            _ => {
                return None;
            },
        }
        i += 1;
    }
    assert(path@.subrange(i as int, path@.len() as int) =~= Seq::<usize>::empty());
    Some(cur)
}

/// The kind of the state on top, with what a tick needs of it.
enum Top {
    Idle,
    CallFunction(usize),
    CallNative(NativeFunction),
    FrameEval,
    Eval,
    Loop,
}

impl Tvm {
    /// Pushes a state.
    fn push_state(&mut self, s: TvmState)
        ensures
            final(self).model() == old(self).model().with_states(old(self).model().states.push(s@)),
            final(self).program == old(self).program,
            final(self).memory == old(self).memory,
    {
        self.states.push(s);
        assert(self.model().states =~= old(self).model().states.push(s@));
    }

    /// Halts the machine with the error `e`.
    fn fail(&mut self, e: TvmError)
        ensures
            final(self).model() == fault(old(self).model(), e),
            final(self).program == old(self).program,
            final(self).memory == old(self).memory,
    {
        let mut states: Vec<TvmState> = Vec::new();
        states.push(TvmState::Halt(HaltState));
        self.states = states;
        self.error = Some(e);
        assert(self.model().states =~= seq![StateView::Halt]);
    }

    /// Removes the top state; when none is left the machine halts.
    fn drop_state(&mut self)
        requires
            old(self).model().running(),
        ensures
            final(self).model() == pop_state(old(self).model()),
            final(self).model().states_wf(),
            final(self).program == old(self).program,
            final(self).memory == old(self).memory,
    {
        if self.states.len() <= 1 {
            let mut states: Vec<TvmState> = Vec::new();
            states.push(TvmState::Halt(HaltState));
            self.states = states;
            assert(self.model().states =~= seq![StateView::Halt]);
        } else {
            self.states.pop();
            assert(self.model().states =~= old(self).model().states.drop_last());
        }
    }

    /// Keeps the first `k` states.
    fn keep_states(&mut self, k: usize)
        requires
            old(self).model().running(),
            0 < k <= old(self).states@.len(),
        ensures
            final(self).model() == old(self).model().with_states(old(self).model().states.subrange(0, k as int)),
            final(self).model().running(),
            final(self).program == old(self).program,
            final(self).memory == old(self).memory,
    {
        self.states.truncate(k);
        assert(self.model().states =~= old(self).model().states.subrange(0, k as int));
    }

    /// Leaves the call state on top; a function runs its epilogue first.
    fn leave_call(&mut self)
        requires
            old(self).mem().wf(),
            old(self).model().running(),
        ensures
            final(self).model() == leave_call(old(self).model(), old(self).program),
            final(self).mem().wf(),
            final(self).model().states_wf(),
            final(self).program == old(self).program,
    {
        let top = self.states.len() - 1;
        let fid: Option<usize> = match &self.states[top] {
            TvmState::Call(CallState { callable: Callable::Function(id) }) => Some(*id),
            _ => None,
        };
        match fid {
            Some(id) => {
                if id < self.program.functions.len() {
                    let args = self.program.functions[id].args;
                    let locals = self.program.functions[id].locals;
                    match self.epilogue(args, locals) {
                        Err(e) => self.fail(e),
                        Ok(_) => self.drop_state(),
                    }
                } else {
                    self.fail(TvmError::InvalidCallable);
                }
            },
            None => self.drop_state(),
        }
    }

    /// The index of the topmost call state.
    fn last_call_index(&self) -> (r: Option<usize>)
        ensures
            match r {
                Some(k) => last_call(self.model().states) == k && k < self.states@.len(),
                None => last_call(self.model().states) < 0,
            },
    {
        let ghost s = self.model().states;
        let mut i: usize = self.states.len();
        assert(s.subrange(0, i as int) =~= s);
        while i > 0
            invariant
                i <= self.states@.len(),
                s == self.model().states,
                last_call(s) == last_call(s.subrange(0, i as int)),
            decreases i,
        {
            let is_call = match &self.states[i - 1] {
                TvmState::Call(_) => true,
                _ => false,
            };
            assert(s.subrange(0, i as int).last() == s[i - 1]);
            if is_call {
                return Some(i - 1);
            }
            assert(s.subrange(0, i as int).drop_last() =~= s.subrange(0, i - 1));
            i -= 1;
        }
        assert(s.subrange(0, 0) =~= Seq::<StateView>::empty());
        None
    }

    /// The index of the topmost loop state above the topmost call state.
    fn last_loop_index(&self) -> (r: Option<usize>)
        ensures
            match r {
                Some(k) => last_loop(self.model().states) == k && k < self.states@.len(),
                None => last_loop(self.model().states) < 0,
            },
    {
        let ghost s = self.model().states;
        let mut i: usize = self.states.len();
        assert(s.subrange(0, i as int) =~= s);
        while i > 0
            invariant
                i <= self.states@.len(),
                s == self.model().states,
                last_loop(s) == last_loop(s.subrange(0, i as int)),
            decreases i,
        {
            let kind: u8 = match &self.states[i - 1] {
                TvmState::Loop(_) => 1,
                TvmState::Call(_) => 2,
                _ => 0,
            };
            assert(s.subrange(0, i as int).last() == s[i - 1]);
            if kind == 1 {
                return Some(i - 1);
            }
            if kind == 2 {
                return None;
            }
            assert(s.subrange(0, i as int).drop_last() =~= s.subrange(0, i - 1));
            i -= 1;
        }
        assert(s.subrange(0, 0) =~= Seq::<StateView>::empty());
        None
    }

    /// `Break`: unwinds to the nearest loop of the current function and leaves it.
    fn break_loop(&mut self)
        requires
            old(self).model().running(),
        ensures
            final(self).model() == break_run(old(self).model()),
            final(self).model().states_wf(),
            final(self).program == old(self).program,
            final(self).memory == old(self).memory,
    {
        match self.last_loop_index() {
            None => self.fail(TvmError::UnbalancedControlFlow),
            Some(k) => {
                if k == 0 {
                    let mut states: Vec<TvmState> = Vec::new();
                    states.push(TvmState::Halt(HaltState));
                    self.states = states;
                    assert(self.model().states =~= seq![StateView::Halt]);
                } else {
                    self.keep_states(k);
                }
            },
        }
    }

    /// `Return`: unwinds to the nearest call and returns from it.
    fn return_from_call(&mut self)
        requires
            old(self).mem().wf(),
            old(self).model().running(),
        ensures
            final(self).model() == return_run(old(self).model(), old(self).program),
            final(self).mem().wf(),
            final(self).model().states_wf(),
            final(self).program == old(self).program,
    {
        let n = self.states.len();
        match self.last_call_index() {
            None => self.fail(TvmError::UnbalancedControlFlow),
            Some(k) => {
                assert(k < n);
                self.keep_states(k + 1);
                self.leave_call();
            },
        }
    }

    /// `Exit`: the finished frame is removed; when its parent is a call, the call returns.
    fn exit_frame(&mut self)
        requires
            old(self).mem().wf(),
            old(self).model().running(),
        ensures
            final(self).model() == exit_run(old(self).model(), old(self).program),
            final(self).mem().wf(),
            final(self).model().states_wf(),
            final(self).program == old(self).program,
    {
        let n = self.states.len();
        self.drop_state();
        if n > 1 {
            let top = self.states.len() - 1;
            let is_call = match &self.states[top] {
                TvmState::Call(_) => true,
                _ => false,
            };
            if is_call {
                self.leave_call();
            }
        }
    }

    /// Carries out an evaluation action of the frame on top.
    fn act_on(&mut self, function: usize, path: &Vec<usize>, action: Action)
        requires
            old(self).mem().wf(),
            old(self).model().running(),
        ensures
            final(self).model() == act(old(self).model(), old(self).program, function, path@, action),
            final(self).mem().wf(),
            final(self).model().states_wf(),
            final(self).program == old(self).program,
    {
        match action {
            Action::Next => {},
            Action::Enter(i) => self.push_state(
                TvmState::FrameEval(FrameEvalState { function, path: child_path(path, i) }),
            ),
            Action::Loop(i) => self.push_state(
                TvmState::Loop(LoopState { function, path: child_path(path, i) }),
            ),
            Action::Call(c) => self.push_state(TvmState::Call(CallState { callable: c })),
            Action::Break => self.break_loop(),
            Action::Return => self.return_from_call(),
            Action::Exit => self.exit_frame(),
        }
    }

    /// Whether the machine waits for a line of input before it can go on.
    pub fn awaits_input(&self) -> (r: bool)
        requires
            self.wf(),
        ensures
            r == awaits_input(self.model()),
    {
        if self.input.len() > 0 {
            return false;
        }
        match &self.states[self.states.len() - 1] {
            TvmState::Call(c) => c.callable == Callable::Native(NativeFunction::IRead)
                || c.callable == Callable::Native(NativeFunction::SRead),
            _ => false,
        }
    }

    /// What the machine asks the host for while it waits for a line of
    /// input: the prompt stored at the prompt address, or a default prompt
    /// when that address is -1 or outside memory. Nothing when it does not wait.
    pub fn input_request(&self) -> (r: Option<String>)
        requires
            self.wf(),
        ensures
            r is Some <==> awaits_input(self.model()),
            r is Some ==> r->Some_0@ == input_prompt(self.model()),
    {
        if !self.awaits_input() {
            return None;
        }
        let is_iread = match &self.states[self.states.len() - 1] {
            TvmState::Call(c) => c.callable == Callable::Native(NativeFunction::IRead),
            _ => false,
        };
        let below: usize = if is_iread { 1 } else { 2 };
        if below <= STACK_TOP - self.stack_pointer {
            let a = self.memory[self.stack_pointer + below];
            if a >= 0 && (a as usize) < MEMORY_SIZE {
                return Some(self.a2s(a as usize));
            }
        }
        if is_iread {
            Some("Integer input: ".to_owned())
        } else {
            Some("String input: ".to_owned())
        }
    }

    /// The kind of the state on top.
    fn top(&self) -> (r: Top)
        requires
            self.wf(),
        ensures
            match r {
                Top::Idle => self.model().states.last() is Waiting || self.model().states.last() is Halt,
                Top::CallFunction(id) => self.model().states.last() == StateView::Call(Callable::Function(id)),
                Top::CallNative(n) => self.model().states.last() == StateView::Call(Callable::Native(n)),
                Top::FrameEval => self.model().states.last() is FrameEval,
                Top::Eval => self.model().states.last() is Eval,
                Top::Loop => self.model().states.last() is Loop,
            },
    {
        match &self.states[self.states.len() - 1] {
            TvmState::Waiting(_) | TvmState::Halt(_) => Top::Idle,
            TvmState::Call(c) => match c.callable {
                Callable::Function(id) => Top::CallFunction(id),
                Callable::Native(n) => Top::CallNative(n),
            },
            TvmState::FrameEval(_) => Top::FrameEval,
            TvmState::Eval(_) => Top::Eval,
            TvmState::Loop(_) => Top::Loop,
        }
    }

    /// One tick of the evaluation state on top.
    #[verifier::rlimit(40)]
    fn tick_eval(&mut self)
        requires
            old(self).mem().wf(),
            old(self).model().running(),
            old(self).model().states.last() is Eval,
        ensures
            final(self).model() == ({
                let t0 = old(self).model();
                let p = old(self).program;
                match t0.states.last() {
                    StateView::Eval(f, path, pc) => match body_frame_at(p, f, path) {
                        None => fault(t0, TvmError::MalformedTape),
                        Some(frame) => {
                            let (m1, r) = crate::semantics::eval_run(t0.mem, frame, pc, p.functions@.len() as int);
                            match r {
                                Err(e) => fault(t0.with_mem(m1), e),
                                Ok(step) => crate::semantics::apply_step(t0.with_mem(m1), p, f, path, step),
                            }
                        },
                    },
                    _ => t0,
                }
            }),
            final(self).mem().wf(),
            final(self).model().states_wf(),
            final(self).program == old(self).program,
    {
        let ghost t0 = self.model();
        let e = match self.states.pop() {
            Some(TvmState::Eval(e)) => e,
            _ => {
                return;
            },
        };
        let mut program = Program::new(0, 0, Vec::new(), Vec::new());
        core::mem::swap(&mut self.program, &mut program);
        let n = program.functions.len();
        let outcome = match frame_in(&program, e.function, &e.path) {
            None => None,
            Some(frame) => Some(self.eval_element(frame, e.pc, n)),
        };
        core::mem::swap(&mut self.program, &mut program);
        match outcome {
            None => self.fail(TvmError::MalformedTape),
            Some(Err(err)) => self.fail(err),
            Some(Ok(step)) => {
                let path = copy_path(&e.path);
                let function = e.function;
                self.push_state(TvmState::Eval(EvalState { function, path: e.path, pc: step.pc }));
                assert(self.model().states =~= t0.states.update(t0.states.len() - 1, StateView::Eval(function, path@, step.pc)));
                self.act_on(function, &path, step.action);
            },
        }
    }

    /// One tick; `draw` is the number `RANDOM` pushes if this tick calls it.
    pub fn tick_with(&mut self, draw: i32)
        requires
            old(self).wf(),
        ensures
            final(self).wf(),
            final(self).program == old(self).program,
            final(self).model() == tick_run(old(self).model(), old(self).program, draw),
    {
        if self.paused || self.awaits_input() {
            return;
        }
        if self.ticks < usize::MAX {
            self.ticks = self.ticks + 1;
        }
        match self.top() {
            Top::Idle => {},
            Top::CallFunction(id) => {
                if id < self.program.functions.len() {
                    let locals = self.program.functions[id].locals;
                    match self.prologue(locals) {
                        Err(e) => self.fail(e),
                        Ok(_) => self.push_state(
                            TvmState::FrameEval(FrameEvalState { function: id, path: Vec::new() }),
                        ),
                    }
                } else {
                    self.fail(TvmError::InvalidCallable);
                }
            },
            Top::CallNative(n) => {
                match self.call_native(n, draw) {
                    Err(e) => self.fail(e),
                    Ok(_) => self.drop_state(),
                }
            },
            Top::FrameEval => {
                let ghost t0 = self.model();
                match self.states.pop() {
                    Some(TvmState::FrameEval(f)) => {
                        self.push_state(TvmState::Eval(EvalState { function: f.function, path: f.path, pc: 0 }));
                        assert(self.model().states =~= t0.states.update(
                            t0.states.len() - 1,
                            StateView::Eval(f.function, f.path@, 0),
                        ));
                    },
                    _ => {},
                }
            },
            Top::Eval => self.tick_eval(),
            Top::Loop => {
                let (function, path) = match &self.states[self.states.len() - 1] {
                    TvmState::Loop(l) => (l.function, copy_path(&l.path)),
                    _ => (0, Vec::new()),
                };
                self.push_state(TvmState::FrameEval(FrameEvalState { function, path }));
            },
        }
    }

    /// The number `RANDOM` gets on the next tick: drawn from the host when
    /// that tick calls it with a positive bound, 0 otherwise.
    fn next_draw(&self) -> (r: i32)
        requires
            self.wf(),
        ensures
            draw_allowed(self.model(), r),
    {
        let is_random = match &self.states[self.states.len() - 1] {
            TvmState::Call(c) => c.callable == Callable::Native(NativeFunction::Random),
            _ => false,
        };
        if is_random && self.stack_pointer < STACK_TOP {
            let n = self.memory[self.stack_pointer + 1];
            if n > 0 {
                return random_below(n);
            }
        }
        0
    }

    /// Advances the machine by one step of its state machine.
    pub fn tick(&mut self)
        requires
            old(self).wf(),
        ensures
            final(self).wf(),
            final(self).heap_size <= final(self).stack_pointer + 1 <= MEMORY_SIZE,
            final(self).model().running() ==> final(self).model().states.len()
                == count_calls(final(self).model().states) + count_contexts(final(self).model().states),
            final(self).program == old(self).program,
            exists|d: i32| draw_allowed(old(self).model(), d)
                && final(self).model() == tick_run(old(self).model(), old(self).program, d),
            !draws_random(old(self).model()) ==> final(self).model() == tick_run(old(self).model(), old(self).program, 0),
    {
        let d = self.next_draw();
        let ghost before = self.model();
        self.tick_with(d);
        proof {
            if !draws_random(before) {
                law_draw_only_for_random(before, self.program, d, 0);
            }
            if self.model().running() {
                law_states_are_activations_and_contexts(self.model().states);
            }
        }
    }
}

} // verus!
