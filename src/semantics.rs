//! The meaning of the machine: its memory, each opcode, the native
//! functions, calls and returns, and one tick, as mathematical functions.
use crate::callable::{callable_of, Callable};
use crate::error::TvmError;
use crate::frame::{Frame, FrameData};
use crate::instruction::Instruction;
use crate::native::NativeFunction;
use crate::program::Program;
use crate::state::{StateResult, StateView};
use crate::text::{decimal_of, parsed_i32, string_at, string_fits, trimmed, with_string};
use vstd::prelude::*;

verus! {

/// Number of cells of memory.
pub const MEMORY_SIZE: usize = 65536;

/// The stack pointer of an empty stack.
pub const STACK_TOP: usize = 65535;

/// The memory of the machine: cells, stack pointer (one below the top of
/// stack), frame pointer and end of the heap.
pub struct Mem {
    pub cells: Seq<i32>,
    pub sp: int,
    pub fp: int,
    pub heap_end: int,
}

impl Mem {
    /// The heap and the stack stay apart inside the memory.
    pub open spec fn wf(self) -> bool {
        &&& self.cells.len() == MEMORY_SIZE
        &&& 0 <= self.heap_end <= self.sp + 1 <= MEMORY_SIZE
        &&& 0 <= self.sp
        &&& 0 <= self.fp < MEMORY_SIZE
    }

    /// How many cells the stack holds.
    pub open spec fn depth(self) -> int {
        STACK_TOP - self.sp
    }

    /// The live stack, top first.
    pub open spec fn stack(self) -> Seq<i32> {
        self.cells.subrange(self.sp + 1, MEMORY_SIZE as int)
    }
}

/// Pushing `v`: it fails when the stack would run into the heap.
pub open spec fn push_run(m: Mem, v: i32) -> (Mem, Result<(), TvmError>) {
    if m.sp < m.heap_end || m.sp == 0 {
        (m, Err(TvmError::StackOverflow))
    } else {
        (Mem { cells: m.cells.update(m.sp, v), sp: m.sp - 1, ..m }, Ok(()))
    }
}

/// Popping the top of stack: it fails on an empty stack.
pub open spec fn pop_run(m: Mem) -> (Mem, Result<i32, TvmError>) {
    if m.sp >= STACK_TOP {
        (m, Err(TvmError::StackUnderflow))
    } else {
        (Mem { sp: m.sp + 1, ..m }, Ok(m.cells[m.sp + 1]))
    }
}

/// Allocating `n` heap cells: the old end of the heap, or `HeapOverflow` when
/// `n` is negative or the heap would reach the live stack.
pub open spec fn alloc_run(m: Mem, n: i32) -> (Mem, Result<i32, TvmError>) {
    if n < 0 || m.heap_end + n > m.sp + 1 {
        (m, Err(TvmError::HeapOverflow))
    } else {
        (Mem { heap_end: m.heap_end + n, ..m }, Ok(m.heap_end as i32))
    }
}

/// Storing the text `s` at address `a`, with its zero cell.
pub open spec fn write_run(m: Mem, a: i32, s: Seq<char>) -> (Mem, Result<(), TvmError>) {
    if string_fits(m.cells.len() as int, a as int, s) {
        (Mem { cells: with_string(m.cells, a as int, s), ..m }, Ok(()))
    } else {
        (m, Err(TvmError::InvalidAddress))
    }
}

/// The text stored at address `a`.
pub open spec fn read_run(m: Mem, a: i32) -> Result<Seq<char>, TvmError> {
    if 0 <= a < m.cells.len() {
        Ok(string_at(m.cells, a as int))
    } else {
        Err(TvmError::InvalidAddress)
    }
}

/// What the evaluation of one tape element asks the state machine to do next.
#[derive(Clone, Copy, Debug, PartialEq, Eq, Structural)]
pub enum Action {
    /// Go on with the next element.
    Next,
    /// Evaluate the child frame at this index as a nested frame.
    Enter(usize),
    /// Run a loop whose body is the child frame at this index.
    Loop(usize),
    /// Invoke a callable.
    Call(Callable),
    /// Leave the nearest enclosing loop.
    Break,
    /// Return from the nearest enclosing call.
    Return,
    /// The frame ran off its end.
    Exit,
}

impl Action {
    /// The result an action hands to the enclosing states.
    pub open spec fn spec_result(self) -> StateResult {
        match self {
            Action::Break => StateResult::Break,
            Action::Return => StateResult::Return,
            Action::Exit => StateResult::Exit,
            _ => StateResult::Continue,
        }
    }

    /// The result this action hands to the enclosing states: `Break`,
    /// `Return` and `Exit` unwind; every other action goes on (`Continue`).
    pub fn result(&self) -> (r: StateResult)
        ensures
            r == self.spec_result(),
    {
        match self {
            Action::Break => StateResult::Break,
            Action::Return => StateResult::Return,
            Action::Exit => StateResult::Exit,
            _ => StateResult::Continue,
        }
    }
}

/// The outcome of evaluating one tape element: the new program counter and
/// the action.
#[derive(Clone, Copy, Debug, PartialEq, Eq, Structural)]
pub struct EvalStep {
    pub pc: usize,
    pub action: Action,
}

/// The value of a binary opcode on `x` (below) and `y` (top). Arithmetic wraps
/// in 32 bits; shift amounts are taken modulo 32.
pub open spec fn binary_value(ins: Instruction, x: i32, y: i32) -> Result<i32, TvmError> {
    match ins {
        Instruction::Add => Ok(x.wrapping_add(y)),
        Instruction::Sub => Ok(x.wrapping_sub(y)),
        Instruction::Mul => Ok(x.wrapping_mul(y)),
        Instruction::Div => if y == 0 {
            Err(TvmError::DivisionByZero)
        } else {
            match x.checked_div(y) {
                Some(q) => Ok(q),
                None => Ok(x),
            }
        },
        Instruction::Mod => if y == 0 {
            Err(TvmError::DivisionByZero)
        } else {
            match x.checked_rem(y) {
                Some(q) => Ok(q),
                None => Ok(0i32),
            }
        },
        Instruction::And => Ok(x & y),
        Instruction::OR => Ok(x | y),
        Instruction::Xor => Ok(x ^ y),
        Instruction::EQ => Ok(if x == y { 1i32 } else { 0i32 }),
        Instruction::Neq => Ok(if x != y { 1i32 } else { 0i32 }),
        Instruction::LT => Ok(if x < y { 1i32 } else { 0i32 }),
        Instruction::Leq => Ok(if x <= y { 1i32 } else { 0i32 }),
        Instruction::GT => Ok(if x > y { 1i32 } else { 0i32 }),
        Instruction::Geq => Ok(if x >= y { 1i32 } else { 0i32 }),
        Instruction::LShift => Ok(x.wrapping_shl(y as u32)),
        Instruction::RShift => Ok(x.wrapping_shr(y as u32)),
        _ => Err(TvmError::InvalidOpcode),
    }
}

/// Whether an opcode takes its two operands from the stack and pushes one value.
pub open spec fn is_binary(ins: Instruction) -> bool {
    match ins {
        Instruction::Add | Instruction::Sub | Instruction::Mul | Instruction::Div
        | Instruction::Mod | Instruction::And | Instruction::OR | Instruction::Xor
        | Instruction::EQ | Instruction::Neq | Instruction::LT | Instruction::Leq
        | Instruction::GT | Instruction::Geq | Instruction::LShift | Instruction::RShift => true,
        _ => false,
    }
}

/// The inline operand after the opcode at `pc`: the id of the next element,
/// unless there is none or it is a frame.
pub open spec fn operand_at(frame: Frame, pc: int) -> Option<i32> {
    if 0 <= pc + 1 < frame.data@.len() {
        match frame.data@[pc + 1] {
            FrameData::Frame(_) => None,
            d => Some(d.spec_id()),
        }
    } else {
        None
    }
}

/// Whether the element at `i` is a child frame.
pub open spec fn frame_slot(frame: Frame, i: int) -> bool {
    0 <= i < frame.data@.len() && frame.data@[i] is Frame
}

/// Pushing `v` and going on at `pc`.
pub open spec fn push_then(m: Mem, v: i32, pc: int) -> (Mem, Result<EvalStep, TvmError>) {
    let (m1, r) = push_run(m, v);
    match r {
        Ok(_) => (m1, Ok(EvalStep { pc: pc as usize, action: Action::Next })),
        Err(e) => (m1, Err(e)),
    }
}

/// Evaluating the element at `pc` of `frame`, in a program of `n_functions`
/// functions.
pub open spec fn eval_run(m: Mem, frame: Frame, pc: usize, n_functions: int) -> (Mem, Result<EvalStep, TvmError>) {
    if pc >= frame.data@.len() {
        (m, Ok(EvalStep { pc, action: Action::Exit }))
    } else {
        match frame.data@[pc as int] {
            FrameData::Frame(_) => (m, Ok(EvalStep { pc: (pc + 1) as usize, action: Action::Enter(pc) })),
            FrameData::Instruction(ins, _) => instruction_run(m, frame, pc as int, ins, n_functions),
            _ => (m, Err(TvmError::MalformedTape)),
        }
    }
}

/// Executing the opcode `ins` found at `pc` of `frame`.
pub open spec fn instruction_run(m: Mem, frame: Frame, pc: int, ins: Instruction, n_functions: int) -> (Mem, Result<EvalStep, TvmError>) {
    let next = EvalStep { pc: (pc + 1) as usize, action: Action::Next };
    match ins {
        Instruction::Push => match operand_at(frame, pc) {
            Some(v) => push_then(m, v, pc + 2),
            None => (m, Err(TvmError::MalformedTape)),
        },
        Instruction::Fetch => {
            let (m1, a) = pop_run(m);
            match a {
                Err(e) => (m1, Err(e)),
                Ok(a) => if 0 <= a < m1.cells.len() {
                    push_then(m1, m1.cells[a as int], pc + 1)
                } else {
                    (m1, Err(TvmError::InvalidAddress))
                },
            }
        },
        Instruction::Store => {
            let (m1, v) = pop_run(m);
            match v {
                Err(e) => (m1, Err(e)),
                Ok(v) => {
                    let (m2, a) = pop_run(m1);
                    match a {
                        Err(e) => (m2, Err(e)),
                        Ok(a) => if 0 <= a < m2.cells.len() {
                            (Mem { cells: m2.cells.update(a as int, v), ..m2 }, Ok(next))
                        } else {
                            (m2, Err(TvmError::InvalidAddress))
                        },
                    }
                },
            }
        },
        Instruction::IF => {
            let (m1, c) = pop_run(m);
            match c {
                Err(e) => (m1, Err(e)),
                Ok(c) => if frame_slot(frame, pc + 1) && frame_slot(frame, pc + 2) {
                    let branch = if c != 0 { pc + 1 } else { pc + 2 };
                    (m1, Ok(EvalStep { pc: (pc + 3) as usize, action: Action::Enter(branch as usize) }))
                } else {
                    (m1, Err(TvmError::MalformedTape))
                },
            }
        },
        Instruction::Loop => if frame_slot(frame, pc + 1) {
            (m, Ok(EvalStep { pc: (pc + 2) as usize, action: Action::Loop((pc + 1) as usize) }))
        } else {
            (m, Err(TvmError::MalformedTape))
        },
        Instruction::Break => {
            let (m1, x) = pop_run(m);
            match x {
                Err(e) => (m1, Err(e)),
                Ok(x) => (m1, Ok(EvalStep {
                    pc: (pc + 1) as usize,
                    action: if x != 0 { Action::Break } else { Action::Next },
                })),
            }
        },
        Instruction::Return => (m, Ok(EvalStep { pc: (pc + 1) as usize, action: Action::Return })),
        Instruction::Call => match operand_at(frame, pc) {
            None => (m, Err(TvmError::MalformedTape)),
            Some(id) => match callable_of(id, n_functions) {
                None => (m, Err(TvmError::InvalidCallable)),
                Some(c) => (m, Ok(EvalStep { pc: (pc + 2) as usize, action: Action::Call(c) })),
            },
        },
        Instruction::FPPlus => {
            let (m1, k) = pop_run(m);
            match k {
                Err(e) => (m1, Err(e)),
                Ok(k) => push_then(m1, (m1.fp as i32).wrapping_add(k), pc + 1),
            }
        },
        Instruction::Not => {
            let (m1, x) = pop_run(m);
            match x {
                Err(e) => (m1, Err(e)),
                Ok(x) => push_then(m1, !x, pc + 1),
            }
        },
        Instruction::Pop => {
            let (m1, x) = pop_run(m);
            match x {
                Err(e) => (m1, Err(e)),
                Ok(_) => (m1, Ok(next)),
            }
        },
        _ => {
            let (m1, y) = pop_run(m);
            match y {
                Err(e) => (m1, Err(e)),
                Ok(y) => {
                    let (m2, x) = pop_run(m1);
                    match x {
                        Err(e) => (m2, Err(e)),
                        Ok(x) => match binary_value(ins, x, y) {
                            Err(e) => (m2, Err(e)),
                            Ok(v) => push_then(m2, v, pc + 1),
                        },
                    }
                },
            }
        },
    }
}

/// Everything the machine holds that a tick can change.
pub struct TvmModel {
    pub mem: Mem,
    pub states: Seq<StateView>,
    pub stdout: Seq<char>,
    pub input: Seq<Seq<char>>,
    pub error: Option<TvmError>,
    pub ticks: int,
    pub paused: bool,
}

impl TvmModel {
    /// The state stack is never empty; `Waiting` and `Halt` stand alone, and
    /// while a program runs every state is a live activation or an
    /// evaluation or loop context.
    pub open spec fn states_wf(self) -> bool {
        &&& self.states.len() > 0
        &&& (self.states =~= seq![StateView::Waiting] || self.states =~= seq![StateView::Halt]
            || forall|i: int| 0 <= i < self.states.len() ==> (#[trigger] self.states[i]).is_running())
    }

    pub open spec fn wf(self) -> bool {
        self.mem.wf() && self.states_wf()
    }

    /// A program is running: every state is an activation or a context.
    pub open spec fn running(self) -> bool {
        &&& self.states.len() > 0
        &&& forall|i: int| 0 <= i < self.states.len() ==> (#[trigger] self.states[i]).is_running()
    }

    pub open spec fn with_mem(self, mem: Mem) -> TvmModel {
        TvmModel { mem, ..self }
    }

    pub open spec fn with_states(self, states: Seq<StateView>) -> TvmModel {
        TvmModel { states, ..self }
    }
}

/// The number of live activations: the call states on the stack.
pub open spec fn count_calls(states: Seq<StateView>) -> nat
    decreases states.len(),
{
    if states.len() == 0 {
        0
    } else {
        count_calls(states.drop_last()) + if states.last().is_call() { 1nat } else { 0nat }
    }
}

/// The number of evaluation and loop contexts on the stack.
pub open spec fn count_contexts(states: Seq<StateView>) -> nat
    decreases states.len(),
{
    if states.len() == 0 {
        0
    } else {
        count_contexts(states.drop_last()) + if states.last().is_context() { 1nat } else { 0nat }
    }
}

/// A native function's effect, before the call state is left.
pub open spec fn native_run(t: TvmModel, n: NativeFunction, draw: i32) -> (TvmModel, Result<(), TvmError>) {
    let m = t.mem;
    match n {
        NativeFunction::IPrint => {
            let (m1, v) = pop_run(m);
            match v {
                Err(e) => (t.with_mem(m1), Err(e)),
                Ok(v) => {
                    let (m2, r) = push_run(m1, 0);
                    (TvmModel { mem: m2, stdout: t.stdout + decimal_of(v as int), ..t }, r)
                },
            }
        },
        NativeFunction::SPrint => {
            let (m1, a) = pop_run(m);
            match a {
                Err(e) => (t.with_mem(m1), Err(e)),
                Ok(a) => match read_run(m1, a) {
                    Err(e) => (t.with_mem(m1), Err(e)),
                    Ok(s) => {
                        let (m2, r) = push_run(m1, 0);
                        (TvmModel { mem: m2, stdout: t.stdout + s, ..t }, r)
                    },
                },
            }
        },
        NativeFunction::IRead => {
            let (m1, p) = pop_run(m);
            match p {
                Err(e) => (t.with_mem(m1), Err(e)),
                Ok(_) => {
                    let t1 = TvmModel { mem: m1, input: t.input.drop_first(), ..t };
                    match parsed_i32(trimmed(t.input[0])) {
                        None => (t1, Err(TvmError::NativeIOError)),
                        Some(v) => {
                            let (m2, r) = push_run(m1, v);
                            (t1.with_mem(m2), r)
                        },
                    }
                },
            }
        },
        NativeFunction::SRead => {
            let (m1, a) = pop_run(m);
            match a {
                Err(e) => (t.with_mem(m1), Err(e)),
                Ok(a) => {
                    let (m2, p) = pop_run(m1);
                    match p {
                        Err(e) => (t.with_mem(m2), Err(e)),
                        Ok(_) => {
                            let t2 = TvmModel { mem: m2, input: t.input.drop_first(), ..t };
                            let (m3, w) = write_run(m2, a, t.input[0]);
                            match w {
                                Err(e) => (t2.with_mem(m3), Err(e)),
                                Ok(_) => {
                                    let (m4, r) = push_run(m3, 0);
                                    (t2.with_mem(m4), r)
                                },
                            }
                        },
                    }
                },
            }
        },
        NativeFunction::NL => {
            let (m1, r) = push_run(m, 0);
            (TvmModel { mem: m1, stdout: t.stdout.push('\n'), ..t }, r)
        },
        NativeFunction::Random => {
            let (m1, n) = pop_run(m);
            match n {
                Err(e) => (t.with_mem(m1), Err(e)),
                Ok(n) => if n <= 0 {
                    (t.with_mem(m1), Err(TvmError::NativeIOError))
                } else {
                    let (m2, r) = push_run(m1, draw);
                    (t.with_mem(m2), r)
                },
            }
        },
        NativeFunction::Timer | NativeFunction::StopTimer => {
            let (m1, x) = pop_run(m);
            match x {
                Err(e) => (t.with_mem(m1), Err(e)),
                Ok(_) => {
                    let (m2, y) = pop_run(m1);
                    match y {
                        Err(e) => (t.with_mem(m2), Err(e)),
                        Ok(_) => {
                            let (m3, r) = push_run(m2, 0);
                            (t.with_mem(m3), r)
                        },
                    }
                },
            }
        },
        NativeFunction::Alloc => {
            let (m1, n) = pop_run(m);
            match n {
                Err(e) => (t.with_mem(m1), Err(e)),
                Ok(n) => {
                    // The bound is the stack as it was before `n` was popped:
                    // the address goes into the cell that held `n`.
                    let (ma, a) = alloc_run(m, n);
                    match a {
                        Err(e) => (t.with_mem(m1), Err(e)),
                        Ok(a) => {
                            let (m3, r) = push_run(Mem { heap_end: ma.heap_end, ..m1 }, a);
                            (t.with_mem(m3), r)
                        },
                    }
                },
            }
        },
        NativeFunction::Free => {
            let (m1, x) = pop_run(m);
            match x {
                Err(e) => (t.with_mem(m1), Err(e)),
                Ok(_) => {
                    let (m2, r) = push_run(m1, 0);
                    (t.with_mem(m2), r)
                },
            }
        },
        NativeFunction::I2S => {
            let (m1, v) = pop_run(m);
            match v {
                Err(e) => (t.with_mem(m1), Err(e)),
                Ok(v) => {
                    let (m2, a) = pop_run(m1);
                    match a {
                        Err(e) => (t.with_mem(m2), Err(e)),
                        Ok(a) => {
                            let (m3, w) = write_run(m2, a, decimal_of(v as int));
                            match w {
                                Err(e) => (t.with_mem(m3), Err(e)),
                                Ok(_) => {
                                    let (m4, r) = push_run(m3, 0);
                                    (t.with_mem(m4), r)
                                },
                            }
                        },
                    }
                },
            }
        },
        NativeFunction::Unknown(_) => (t, Err(TvmError::InvalidCallable)),
    }
}

/// The prologue of a call to a function with `locals` local cells: push that
/// many zeros and the frame pointer, then point the frame pointer at the saved
/// one. It fails, changing nothing, when the cells do not fit.
pub open spec fn prologue_run(m: Mem, locals: int) -> (Mem, Result<(), TvmError>) {
    let base = m.sp - locals;
    if base < m.heap_end || base < 1 {
        (m, Err(TvmError::StackOverflow))
    } else {
        (Mem {
            cells: Seq::new(m.cells.len(), |i: int|
                if base < i <= m.sp { 0i32 } else if i == base { m.fp as i32 } else { m.cells[i] }),
            sp: base - 1,
            fp: base,
            ..m
        }, Ok(()))
    }
}

/// The epilogue of a function with `args` argument and `locals` local cells:
/// pop the return value, drop the activation record, restore the saved frame
/// pointer, and push the return value where the arguments were. A record whose
/// saved frame pointer or extent does not fit the stack gives `StackUnderflow`.
pub open spec fn epilogue_run(m: Mem, args: int, locals: int) -> (Mem, Result<(), TvmError>) {
    let (m1, r) = pop_run(m);
    match r {
        Err(e) => (m1, Err(e)),
        Ok(r) => {
            let new_sp = m1.fp + args + locals;
            let saved = m1.cells[m1.fp];
            if new_sp > STACK_TOP || new_sp < m1.heap_end || new_sp < 1 || saved < 0 || saved > STACK_TOP {
                (m1, Err(TvmError::StackUnderflow))
            } else {
                (Mem { cells: m1.cells.update(new_sp, r), sp: new_sp - 1, fp: saved as int, ..m1 }, Ok(()))
            }
        },
    }
}

/// The frame reached from `f` by following the child indices of `path`.
pub open spec fn frame_at(f: Frame, path: Seq<usize>) -> Option<Frame>
    decreases path.len(),
{
    if path.len() == 0 {
        Some(f)
    } else if path[0] < f.data@.len() {
        match f.data@[path[0] as int] {
            FrameData::Frame(c) => frame_at(c, path.drop_first()),
            _ => None,
        }
    } else {
        None
    }
}

/// The frame at `path` in the body of function `function` of `p`.
pub open spec fn body_frame_at(p: Program, function: usize, path: Seq<usize>) -> Option<Frame> {
    if function < p.functions@.len() {
        frame_at(p.functions@[function as int].frame, path)
    } else {
        None
    }
}

/// The machine halted by the error `e`.
pub open spec fn fault(t: TvmModel, e: TvmError) -> TvmModel {
    TvmModel { states: seq![StateView::Halt], error: Some(e), ..t }
}

/// The top state removed; when none is left the machine halts.
pub open spec fn pop_state(t: TvmModel) -> TvmModel {
    if t.states.len() <= 1 {
        t.with_states(seq![StateView::Halt])
    } else {
        t.with_states(t.states.drop_last())
    }
}

/// Leaving the call state on top: a function runs its epilogue first.
pub open spec fn leave_call(t: TvmModel, p: Program) -> TvmModel {
    match t.states.last() {
        StateView::Call(Callable::Function(id)) => if id < p.functions@.len() {
            let f = p.functions@[id as int];
            let (m1, r) = epilogue_run(t.mem, f.args as int, f.locals as int);
            match r {
                Err(e) => fault(t.with_mem(m1), e),
                Ok(_) => pop_state(t.with_mem(m1)),
            }
        } else {
            fault(t, TvmError::InvalidCallable)
        },
        _ => pop_state(t),
    }
}

/// The index of the topmost call state, or -1.
pub open spec fn last_call(s: Seq<StateView>) -> int
    decreases s.len(),
{
    if s.len() == 0 {
        -1
    } else if s.last() is Call {
        s.len() - 1
    } else {
        last_call(s.drop_last())
    }
}

/// The index of the topmost loop state above the topmost call state, or -1.
pub open spec fn last_loop(s: Seq<StateView>) -> int
    decreases s.len(),
{
    if s.len() == 0 {
        -1
    } else if s.last() is Loop {
        s.len() - 1
    } else if s.last() is Call {
        -1
    } else {
        last_loop(s.drop_last())
    }
}

/// `Exit`: the finished frame is removed; when its parent is a call, the call returns.
pub open spec fn exit_run(t: TvmModel, p: Program) -> TvmModel {
    let t1 = pop_state(t);
    if t.states.len() > 1 && t1.states.last() is Call {
        leave_call(t1, p)
    } else {
        t1
    }
}

/// `Return`: unwind to the nearest call and return from it.
pub open spec fn return_run(t: TvmModel, p: Program) -> TvmModel {
    let k = last_call(t.states);
    if k < 0 {
        fault(t, TvmError::UnbalancedControlFlow)
    } else {
        leave_call(t.with_states(t.states.subrange(0, k + 1)), p)
    }
}

/// `Break`: unwind to the nearest loop of the current function and leave it.
pub open spec fn break_run(t: TvmModel) -> TvmModel {
    let k = last_loop(t.states);
    if k < 0 {
        fault(t, TvmError::UnbalancedControlFlow)
    } else if k == 0 {
        t.with_states(seq![StateView::Halt])
    } else {
        t.with_states(t.states.subrange(0, k))
    }
}

/// What the state machine does on an evaluation action of the frame on top,
/// whose program counter was already moved on.
pub open spec fn act(t: TvmModel, p: Program, function: usize, path: Seq<usize>, action: Action) -> TvmModel {
    match action {
        Action::Next => t,
        Action::Enter(i) => t.with_states(t.states.push(StateView::FrameEval(function, path.push(i)))),
        Action::Loop(i) => t.with_states(t.states.push(StateView::Loop(function, path.push(i)))),
        Action::Call(c) => t.with_states(t.states.push(StateView::Call(c))),
        Action::Break => break_run(t),
        Action::Return => return_run(t, p),
        Action::Exit => exit_run(t, p),
    }
}

/// Applying the outcome of an evaluation step of the frame on top.
pub open spec fn apply_step(t: TvmModel, p: Program, function: usize, path: Seq<usize>, step: EvalStep) -> TvmModel {
    let t1 = t.with_states(t.states.update(t.states.len() - 1, StateView::Eval(function, path, step.pc)));
    act(t1, p, function, path, step.action)
}

/// Whether the machine waits for a line of input before it can go on.
pub open spec fn awaits_input(t: TvmModel) -> bool {
    &&& t.states.len() > 0
    &&& t.input.len() == 0
    &&& (t.states.last() == StateView::Call(Callable::Native(NativeFunction::IRead))
        || t.states.last() == StateView::Call(Callable::Native(NativeFunction::SRead)))
}

/// The prompt shown while the machine waits for a line: the text at the
/// prompt address (the top cell for `IREAD`, the one below it for `SREAD`),
/// or a default prompt when that address is -1, outside memory, or missing.
pub open spec fn input_prompt(t: TvmModel) -> Seq<char> {
    let iread = t.states.last() == StateView::Call(Callable::Native(NativeFunction::IRead));
    let below: int = if iread { 1 } else { 2 };
    let sp = t.mem.sp;
    if below <= STACK_TOP - sp && 0 <= t.mem.cells[sp + below] < MEMORY_SIZE {
        string_at(t.mem.cells, t.mem.cells[sp + below] as int)
    } else if iread {
        "Integer input: "@
    } else {
        "String input: "@
    }
}

/// Whether `d` is a number the host may hand to `RANDOM` on this tick: below
/// the bound on top of stack when the tick calls `RANDOM` with a positive bound.
pub open spec fn draw_allowed(t: TvmModel, d: i32) -> bool {
    (t.states.len() > 0 && t.states.last() == StateView::Call(Callable::Native(NativeFunction::Random))
        && t.mem.sp < STACK_TOP && t.mem.cells[t.mem.sp + 1] > 0)
        ==> 0 <= d < t.mem.cells[t.mem.sp + 1]
}

/// Whether the next tick calls `RANDOM`, the one step that takes a draw.
pub open spec fn draws_random(t: TvmModel) -> bool {
    t.states.len() > 0 && t.states.last() == StateView::Call(Callable::Native(NativeFunction::Random))
}

/// The tick counter after one more tick.
pub open spec fn next_tick(n: int) -> int {
    if n < usize::MAX { n + 1 } else { n }
}

/// One tick of the machine running `p`; `draw` is the number `RANDOM` takes
/// from the host, if this tick calls it. A paused machine, or one waiting for
/// input, stays as it is.
pub open spec fn tick_run(t: TvmModel, p: Program, draw: i32) -> TvmModel {
    if t.paused || t.states.len() == 0 || awaits_input(t) {
        t
    } else {
        let t0 = TvmModel { ticks: next_tick(t.ticks), ..t };
        match t.states.last() {
            StateView::Call(Callable::Function(id)) => if id < p.functions@.len() {
                let (m1, r) = prologue_run(t0.mem, p.functions@[id as int].locals as int);
                match r {
                    Err(e) => fault(t0.with_mem(m1), e),
                    Ok(_) => t0.with_mem(m1).with_states(t0.states.push(StateView::FrameEval(id, Seq::empty()))),
                }
            } else {
                fault(t0, TvmError::InvalidCallable)
            },
            StateView::Call(Callable::Native(n)) => {
                let (t1, r) = native_run(t0, n, draw);
                match r {
                    Err(e) => fault(t1, e),
                    Ok(_) => pop_state(t1),
                }
            },
            StateView::FrameEval(f, path) => t0.with_states(
                t0.states.update(t0.states.len() - 1, StateView::Eval(f, path, 0)),
            ),
            StateView::Eval(f, path, pc) => match body_frame_at(p, f, path) {
                None => fault(t0, TvmError::MalformedTape),
                Some(frame) => {
                    let (m1, r) = eval_run(t0.mem, frame, pc, p.functions@.len() as int);
                    match r {
                        Err(e) => fault(t0.with_mem(m1), e),
                        Ok(step) => apply_step(t0.with_mem(m1), p, f, path, step),
                    }
                },
            },
            StateView::Loop(f, path) => t0.with_states(t0.states.push(StateView::FrameEval(f, path))),
            _ => t0,
        }
    }
}

/// The cells of a fresh memory with the heap cells of `heap` seeded in order
/// (an address outside memory is passed over).
pub open spec fn seeded(heap: Seq<(usize, i32)>) -> Seq<i32>
    decreases heap.len(),
{
    if heap.len() == 0 {
        Seq::new(MEMORY_SIZE as nat, |i: int| 0i32)
    } else {
        let prev = seeded(heap.drop_last());
        if heap.last().0 < prev.len() {
            prev.update(heap.last().0 as int, heap.last().1)
        } else {
            prev
        }
    }
}

/// A seeded memory has every cell of the machine.
pub proof fn lemma_seeded_len(heap: Seq<(usize, i32)>)
    ensures
        seeded(heap).len() == MEMORY_SIZE,
    decreases heap.len(),
{
    if heap.len() > 0 {
        lemma_seeded_len(heap.drop_last());
    }
}

/// Whether a program can be loaded: its heap fits in memory.
pub open spec fn loadable(p: Program) -> bool {
    &&& p.heap_size <= MEMORY_SIZE
    &&& forall|i: int| 0 <= i < p.heap@.len() ==> (#[trigger] p.heap@[i]).0 < MEMORY_SIZE
}

/// The machine right after `p` was loaded, or after a reset: empty stack,
/// seeded heap, waiting to start.
pub open spec fn reset_model(p: Program) -> TvmModel {
    TvmModel {
        mem: Mem { cells: seeded(p.heap@), sp: STACK_TOP as int, fp: STACK_TOP as int, heap_end: p.heap_size as int },
        states: seq![StateView::Waiting],
        stdout: Seq::empty(),
        input: Seq::empty(),
        error: None,
        ticks: 0,
        paused: false,
    }
}

/// The machine right after `start`: reset, with a call of the entry function pending.
pub open spec fn start_model(p: Program) -> TvmModel {
    reset_model(p).with_states(seq![StateView::Call(Callable::Function(p.entry_point))])
}

/// `n` ticks, the `i`-th of which is given `draws[i]`.
pub open spec fn run_ticks(t: TvmModel, p: Program, draws: Seq<i32>) -> TvmModel
    decreases draws.len(),
{
    if draws.len() == 0 {
        t
    } else {
        tick_run(run_ticks(t, p, draws.drop_last()), p, draws.last())
    }
}

} // verus!
