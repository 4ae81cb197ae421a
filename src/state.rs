use crate::callable::Callable;
use vstd::prelude::*;

verus! {

/// The machine before `start`.
#[derive(Clone, Copy, Debug, PartialEq, Eq, Structural)]
pub struct WaitingState;

/// The machine after the program ended or failed.
#[derive(Clone, Copy, Debug, PartialEq, Eq, Structural)]
pub struct HaltState;

/// A call about to run: a function's prologue, or a native function.
/// Once a function's prologue ran, the state stays below its body as the
/// marker of the live activation.
#[derive(Clone, Copy, Debug, PartialEq, Eq, Structural)]
pub struct CallState {
    pub callable: Callable,
}

/// A frame about to be evaluated from its start. The frame is the body of
/// function `function`, followed down the tree by the child indices in `path`.
#[derive(Debug)]
pub struct FrameEvalState {
    pub function: usize,
    pub path: Vec<usize>,
}

/// A frame being stepped through, with its program counter.
#[derive(Debug)]
pub struct EvalState {
    pub function: usize,
    pub path: Vec<usize>,
    pub pc: usize,
}

/// A loop whose body is the frame at `path` in function `function`.
#[derive(Debug)]
pub struct LoopState {
    pub function: usize,
    pub path: Vec<usize>,
}

/// One entry of the machine's state stack.
#[derive(Debug)]
pub enum TvmState {
    Waiting(WaitingState),
    Call(CallState),
    FrameEval(FrameEvalState),
    Eval(EvalState),
    Loop(LoopState),
    Halt(HaltState),
}

/// What a state's step asks of the enclosing states.
#[derive(Clone, Copy, Debug, PartialEq, Eq, Structural)]
pub enum StateResult {
    /// Go on in the same state.
    Continue,
    /// Unwind to the nearest call and return from it.
    Return,
    /// Unwind to the nearest loop and leave it.
    Break,
    /// The current frame ran off its end.
    Exit,
    /// The machine stops.
    Halt,
}

/// The mathematical value of a state: paths as sequences.
pub enum StateView {
    Waiting,
    Call(Callable),
    FrameEval(usize, Seq<usize>),
    Eval(usize, Seq<usize>, usize),
    Loop(usize, Seq<usize>),
    Halt,
}

impl StateView {
    /// A state that belongs to a running program: a live activation, or an
    /// evaluation or loop context.
    pub open spec fn is_running(self) -> bool {
        match self {
            StateView::Call(_) | StateView::FrameEval(..) | StateView::Eval(..) | StateView::Loop(..) => true,
            _ => false,
        }
    }

    pub open spec fn is_call(self) -> bool {
        self is Call
    }

    pub open spec fn is_context(self) -> bool {
        match self {
            StateView::FrameEval(..) | StateView::Eval(..) | StateView::Loop(..) => true,
            _ => false,
        }
    }
}

impl View for TvmState {
    type V = StateView;

    open spec fn view(&self) -> StateView {
        match self {
            TvmState::Waiting(_) => StateView::Waiting,
            TvmState::Call(c) => StateView::Call(c.callable),
            TvmState::FrameEval(f) => StateView::FrameEval(f.function, f.path@),
            TvmState::Eval(e) => StateView::Eval(e.function, e.path@, e.pc),
            TvmState::Loop(l) => StateView::Loop(l.function, l.path@),
            TvmState::Halt(_) => StateView::Halt,
        }
    }
}

/// A copy of a path.
pub fn copy_path(p: &Vec<usize>) -> (r: Vec<usize>)
    ensures
        r@ == p@,
{
    let mut r: Vec<usize> = Vec::new();
    let mut i: usize = 0;
    while i < p.len()
        invariant
            i <= p@.len(),
            r@ == p@.subrange(0, i as int),
        decreases p@.len() - i,
    {
        r.push(p[i]);
        i += 1;
        assert(r@ =~= p@.subrange(0, i as int));
    }
    assert(r@ =~= p@);
    r
}

/// A path one level deeper: `p` followed by `child`.
pub fn child_path(p: &Vec<usize>, child: usize) -> (r: Vec<usize>)
    ensures
        r@ == p@.push(child),
{
    let mut r = copy_path(p);
    r.push(child);
    r
}

impl TvmState {
    /// A copy of this state.
    pub fn duplicate(&self) -> (r: TvmState)
        ensures
            r@ == self@,
    {
        match self {
            TvmState::Waiting(_) => TvmState::Waiting(WaitingState),
            TvmState::Call(c) => TvmState::Call(*c),
            TvmState::FrameEval(f) => TvmState::FrameEval(
                FrameEvalState { function: f.function, path: copy_path(&f.path) },
            ),
            TvmState::Eval(e) => TvmState::Eval(
                EvalState { function: e.function, path: copy_path(&e.path), pc: e.pc },
            ),
            TvmState::Loop(l) => TvmState::Loop(
                LoopState { function: l.function, path: copy_path(&l.path) },
            ),
            TvmState::Halt(_) => TvmState::Halt(HaltState),
        }
    }

    /// The name of this state's kind.
    pub fn get_name(&self) -> (r: String)
        ensures
            r@ == match self@ {
                StateView::Waiting => "WaitingState"@,
                StateView::Call(_) => "CallState"@,
                StateView::FrameEval(..) => "FrameEvalState"@,
                StateView::Eval(..) => "EvalState"@,
                StateView::Loop(..) => "LoopState"@,
                StateView::Halt => "HaltState"@,
            },
    {
        match self {
            TvmState::Waiting(_) => "WaitingState".to_owned(),
            TvmState::Call(_) => "CallState".to_owned(),
            TvmState::FrameEval(_) => "FrameEvalState".to_owned(),
            TvmState::Eval(_) => "EvalState".to_owned(),
            TvmState::Loop(_) => "LoopState".to_owned(),
            TvmState::Halt(_) => "HaltState".to_owned(),
        }
    }
}

} // verus!
