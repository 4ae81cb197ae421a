use crate::callable::Callable;
use crate::error::TvmError;
use crate::frame::{Frame, FrameData};
use crate::instruction::Instruction;
use crate::semantics::{
    binary_value, eval_run, frame_slot, instruction_run, is_binary, operand_at, push_then, Action,
    EvalStep, MEMORY_SIZE,
};
use crate::tvm::Tvm;
use vstd::prelude::*;

verus! {

/// The value of a binary opcode on `x` (below) and `y` (top of stack).
pub fn binary(ins: Instruction, x: i32, y: i32) -> (r: Result<i32, TvmError>)
    ensures
        r == binary_value(ins, x, y),
{
    match ins {
        Instruction::Add => Ok(x.wrapping_add(y)),
        Instruction::Sub => Ok(x.wrapping_sub(y)),
        Instruction::Mul => Ok(x.wrapping_mul(y)),
        Instruction::Div => if y == 0 {
            Err(TvmError::DivisionByZero)
        } else {
            match x.checked_div(y) {
                Some(q) => Ok(q),
                None => Ok(x),
            }
        },
        Instruction::Mod => if y == 0 {
            Err(TvmError::DivisionByZero)
        } else {
            match x.checked_rem(y) {
                Some(q) => Ok(q),
                None => Ok(0),
            }
        },
        Instruction::And => Ok(x & y),
        Instruction::OR => Ok(x | y),
        Instruction::Xor => Ok(x ^ y),
        Instruction::EQ => Ok(if x == y { 1 } else { 0 }),
        Instruction::Neq => Ok(if x != y { 1 } else { 0 }),
        Instruction::LT => Ok(if x < y { 1 } else { 0 }),
        Instruction::Leq => Ok(if x <= y { 1 } else { 0 }),
        Instruction::GT => Ok(if x > y { 1 } else { 0 }),
        Instruction::Geq => Ok(if x >= y { 1 } else { 0 }),
        Instruction::LShift => Ok(x.wrapping_shl(y as u32)),
        Instruction::RShift => Ok(x.wrapping_shr(y as u32)),
        _ => Err(TvmError::InvalidOpcode),
    }
}

/// The inline operand after the opcode at `pc`.
pub fn operand(frame: &Frame, pc: usize) -> (r: Option<i32>)
    ensures
        r == operand_at(*frame, pc as int),
{
    if pc < frame.data.len() && pc + 1 < frame.data.len() {
        match &frame.data[pc + 1] {
            FrameData::Frame(_) => None,
            d => Some(d.get_id()),
        }
    } else {
        None
    }
}

/// Whether the element at `i` is a child frame.
pub fn is_frame_slot(frame: &Frame, i: usize) -> (r: bool)
    ensures
        r == frame_slot(*frame, i as int),
{
    if i < frame.data.len() {
        match &frame.data[i] {
            FrameData::Frame(_) => true,
            _ => false,
        }
    } else {
        false
    }
}

impl Tvm {
    /// Pushes `v` and goes on at `pc`.
    fn push_next(&mut self, v: i32, pc: usize) -> (r: Result<EvalStep, TvmError>)
        requires
            old(self).mem().wf(),
        ensures
            (final(self).mem(), r) == push_then(old(self).mem(), v, pc as int),
            final(self).mem().wf(),
            final(self).same_but_mem(old(self)),
    {
        match self.push(v) {
            Ok(_) => Ok(EvalStep { pc, action: Action::Next }),
            Err(e) => Err(e),
        }
    }

    /// A binary opcode: pops `y`, then `x`, and pushes the value.
    fn binary_step(&mut self, ins: Instruction, pc: usize) -> (r: Result<EvalStep, TvmError>)
        requires
            old(self).mem().wf(),
            is_binary(ins),
            pc < usize::MAX,
        ensures
            final(self).mem().wf(),
            final(self).same_but_mem(old(self)),
            (final(self).mem(), r) == ({
                let (m1, y) = crate::semantics::pop_run(old(self).mem());
                match y {
                    Err(e) => (m1, Err(e)),
                    Ok(y) => {
                        let (m2, x) = crate::semantics::pop_run(m1);
                        match x {
                            Err(e) => (m2, Err(e)),
                            Ok(x) => match binary_value(ins, x, y) {
                                Err(e) => (m2, Err(e)),
                                Ok(v) => push_then(m2, v, pc + 1),
                            },
                        }
                    },
                }
            }),
    {
        let y = match self.pop() {
            Ok(y) => y,
            Err(e) => return Err(e),
        };
        let x = match self.pop() {
            Ok(x) => x,
            Err(e) => return Err(e),
        };
        match binary(ins, x, y) {
            Ok(v) => self.push_next(v, pc + 1),
            Err(e) => Err(e),
        }
    }

    /// Executes the opcode `ins` found at `pc` of `frame`.
    #[verifier::rlimit(50)]
    fn execute(&mut self, ins: Instruction, frame: &Frame, pc: usize, n_functions: usize) -> (r: Result<EvalStep, TvmError>)
        requires
            old(self).mem().wf(),
            pc < frame.data@.len(),
        ensures
            (final(self).mem(), r) == instruction_run(old(self).mem(), *frame, pc as int, ins, n_functions as int),
            final(self).mem().wf(),
            final(self).same_but_mem(old(self)),
    {
        let len = frame.data.len();
        assert(pc < len);
        match ins {
            Instruction::Push => match operand(frame, pc) {
                Some(v) => self.push_next(v, pc + 2),
                None => Err(TvmError::MalformedTape),
            },
            Instruction::Fetch => {
                let a = match self.pop() {
                    Ok(a) => a,
                    Err(e) => return Err(e),
                };
                if 0 <= a && (a as usize) < MEMORY_SIZE {
                    let v = self.memory[a as usize];
                    self.push_next(v, pc + 1)
                } else {
                    Err(TvmError::InvalidAddress)
                }
            },
            Instruction::Store => {
                let v = match self.pop() {
                    Ok(v) => v,
                    Err(e) => return Err(e),
                };
                let a = match self.pop() {
                    Ok(a) => a,
                    Err(e) => return Err(e),
                };
                if 0 <= a && (a as usize) < MEMORY_SIZE {
                    self.memory.set(a as usize, v);
                    Ok(EvalStep { pc: pc + 1, action: Action::Next })
                } else {
                    Err(TvmError::InvalidAddress)
                }
            },
            Instruction::IF => {
                let c = match self.pop() {
                    Ok(c) => c,
                    Err(e) => return Err(e),
                };
                if is_frame_slot(frame, pc + 1) && is_frame_slot(frame, pc + 2) {
                    let branch = if c != 0 { pc + 1 } else { pc + 2 };
                    Ok(EvalStep { pc: pc + 3, action: Action::Enter(branch) })
                } else {
                    Err(TvmError::MalformedTape)
                }
            },
            Instruction::Loop => if is_frame_slot(frame, pc + 1) {
                Ok(EvalStep { pc: pc + 2, action: Action::Loop(pc + 1) })
            } else {
                Err(TvmError::MalformedTape)
            },
            Instruction::Break => {
                let x = match self.pop() {
                    Ok(x) => x,
                    Err(e) => return Err(e),
                };
                Ok(EvalStep { pc: pc + 1, action: if x != 0 { Action::Break } else { Action::Next } })
            },
            Instruction::Return => Ok(EvalStep { pc: pc + 1, action: Action::Return }),
            Instruction::Call => match operand(frame, pc) {
                None => Err(TvmError::MalformedTape),
                Some(id) => match Callable::resolve(id, n_functions) {
                    None => Err(TvmError::InvalidCallable),
                    Some(c) => Ok(EvalStep { pc: pc + 2, action: Action::Call(c) }),
                },
            },
            Instruction::FPPlus => {
                let k = match self.pop() {
                    Ok(k) => k,
                    Err(e) => return Err(e),
                };
                let v = (self.frame_pointer as i32).wrapping_add(k);
                self.push_next(v, pc + 1)
            },
            Instruction::Not => {
                let x = match self.pop() {
                    Ok(x) => x,
                    Err(e) => return Err(e),
                };
                self.push_next(!x, pc + 1)
            },
            Instruction::Pop => match self.pop() {
                Ok(_) => Ok(EvalStep { pc: pc + 1, action: Action::Next }),
                Err(e) => Err(e),
            },
            _ => self.binary_step(ins, pc),
        }
    }

    /// Evaluates the element at `pc` of `frame` against memory, among
    /// `n_functions` callable functions.
    pub fn eval_element(&mut self, frame: &Frame, pc: usize, n_functions: usize) -> (r: Result<EvalStep, TvmError>)
        requires
            old(self).mem().wf(),
        ensures
            (final(self).mem(), r) == eval_run(old(self).mem(), *frame, pc, n_functions as int),
            final(self).mem().wf(),
            final(self).same_but_mem(old(self)),
    {
        if pc >= frame.data.len() {
            return Ok(EvalStep { pc, action: Action::Exit });
        }
        match &frame.data[pc] {
            FrameData::Frame(_) => Ok(EvalStep { pc: pc + 1, action: Action::Enter(pc) }),
            FrameData::Instruction(ins, _) => self.execute(*ins, frame, pc, n_functions),
            _ => Err(TvmError::MalformedTape),
        }
    }

    /// Evaluates the element at `pc` of `frame` against memory, with the
    /// loaded program's functions as call targets. Memory changes as the
    /// opcode says, also on the way to an error; the result says where the
    /// frame goes on and what the state machine does next.
    pub fn do_eval(&mut self, frame: &Frame, pc: usize) -> (r: Result<EvalStep, TvmError>)
        requires
            old(self).mem().wf(),
        ensures
            (final(self).mem(), r) == eval_run(old(self).mem(), *frame, pc, old(self).program.functions@.len() as int),
            final(self).mem().wf(),
            final(self).same_but_mem(old(self)),
    {
        let n = self.program.functions.len();
        self.eval_element(frame, pc, n)
    }
}

} // verus!
