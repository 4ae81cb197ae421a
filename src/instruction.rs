use crate::error::TvmError;
use vstd::prelude::*;

verus! {

/// The opcodes of the machine, numbered `1..=27` in this order.
#[derive(Clone, Copy, Debug, PartialEq, Eq, Structural)]
pub enum Instruction {
    Push,
    Fetch,
    Store,
    IF,
    Loop,
    Break,
    Return,
    Call,
    FPPlus,
    Add,
    Sub,
    Mul,
    Div,
    Mod,
    Not,
    And,
    OR,
    Xor,
    EQ,
    Neq,
    LT,
    Leq,
    GT,
    Geq,
    Pop,
    LShift,
    RShift,
}

/// The instruction that an opcode in `1..=27` stands for.
pub open spec fn instruction_of(op: int) -> Instruction {
    if op == 1 { Instruction::Push }
    else if op == 2 { Instruction::Fetch }
    else if op == 3 { Instruction::Store }
    else if op == 4 { Instruction::IF }
    else if op == 5 { Instruction::Loop }
    else if op == 6 { Instruction::Break }
    else if op == 7 { Instruction::Return }
    else if op == 8 { Instruction::Call }
    else if op == 9 { Instruction::FPPlus }
    else if op == 10 { Instruction::Add }
    else if op == 11 { Instruction::Sub }
    else if op == 12 { Instruction::Mul }
    else if op == 13 { Instruction::Div }
    else if op == 14 { Instruction::Mod }
    else if op == 15 { Instruction::Not }
    else if op == 16 { Instruction::And }
    else if op == 17 { Instruction::OR }
    else if op == 18 { Instruction::Xor }
    else if op == 19 { Instruction::EQ }
    else if op == 20 { Instruction::Neq }
    else if op == 21 { Instruction::LT }
    else if op == 22 { Instruction::Leq }
    else if op == 23 { Instruction::GT }
    else if op == 24 { Instruction::Geq }
    else if op == 25 { Instruction::Pop }
    else if op == 26 { Instruction::LShift }
    else { Instruction::RShift }
}

impl Instruction {
    /// The opcode of this instruction.
    pub open spec fn spec_op(self) -> u32 {
        match self {
            Instruction::Push => 1,
            Instruction::Fetch => 2,
            Instruction::Store => 3,
            Instruction::IF => 4,
            Instruction::Loop => 5,
            Instruction::Break => 6,
            Instruction::Return => 7,
            Instruction::Call => 8,
            Instruction::FPPlus => 9,
            Instruction::Add => 10,
            Instruction::Sub => 11,
            Instruction::Mul => 12,
            Instruction::Div => 13,
            Instruction::Mod => 14,
            Instruction::Not => 15,
            Instruction::And => 16,
            Instruction::OR => 17,
            Instruction::Xor => 18,
            Instruction::EQ => 19,
            Instruction::Neq => 20,
            Instruction::LT => 21,
            Instruction::Leq => 22,
            Instruction::GT => 23,
            Instruction::Geq => 24,
            Instruction::Pop => 25,
            Instruction::LShift => 26,
            Instruction::RShift => 27,
        }
    }

    /// The lower-case mnemonic of this instruction.
    pub open spec fn spec_name(self) -> Seq<char> {
        match self {
            Instruction::Push => "push"@,
            Instruction::Fetch => "fetch"@,
            Instruction::Store => "store"@,
            Instruction::IF => "if"@,
            Instruction::Loop => "loop"@,
            Instruction::Break => "break"@,
            Instruction::Return => "return"@,
            Instruction::Call => "call"@,
            Instruction::FPPlus => "fpplus"@,
            Instruction::Add => "add"@,
            Instruction::Sub => "sub"@,
            Instruction::Mul => "mul"@,
            Instruction::Div => "div"@,
            Instruction::Mod => "mod"@,
            Instruction::Not => "not"@,
            Instruction::And => "and"@,
            Instruction::OR => "or"@,
            Instruction::Xor => "xor"@,
            Instruction::EQ => "eq"@,
            Instruction::Neq => "neq"@,
            Instruction::LT => "lt"@,
            Instruction::Leq => "leq"@,
            Instruction::GT => "gt"@,
            Instruction::Geq => "geq"@,
            Instruction::Pop => "pop"@,
            Instruction::LShift => "lshift"@,
            Instruction::RShift => "rshift"@,
        }
    }

    /// The instruction with the given opcode; an opcode outside `1..=27`
    /// gives `InvalidOpcode`.
    pub fn get_instruction(op_code: u32) -> (r: Result<Instruction, TvmError>)
        ensures
            1 <= op_code <= 27 ==> r == Ok::<Instruction, TvmError>(instruction_of(op_code as int)),
            !(1 <= op_code <= 27) ==> r == Err::<Instruction, TvmError>(TvmError::InvalidOpcode),
    {
        let ins = match op_code {
            1 => Instruction::Push,
            2 => Instruction::Fetch,
            3 => Instruction::Store,
            4 => Instruction::IF,
            5 => Instruction::Loop,
            6 => Instruction::Break,
            7 => Instruction::Return,
            8 => Instruction::Call,
            9 => Instruction::FPPlus,
            10 => Instruction::Add,
            11 => Instruction::Sub,
            12 => Instruction::Mul,
            13 => Instruction::Div,
            14 => Instruction::Mod,
            15 => Instruction::Not,
            16 => Instruction::And,
            17 => Instruction::OR,
            18 => Instruction::Xor,
            19 => Instruction::EQ,
            20 => Instruction::Neq,
            21 => Instruction::LT,
            22 => Instruction::Leq,
            23 => Instruction::GT,
            24 => Instruction::Geq,
            25 => Instruction::Pop,
            26 => Instruction::LShift,
            27 => Instruction::RShift,
            _ => return Err(TvmError::InvalidOpcode),
        };
        Ok(ins)
    }

    /// Decodes a numeric opcode, failing on one outside `1..=27`.
    pub fn from_op(op: i32) -> (r: Result<Instruction, TvmError>)
        ensures
            1 <= op <= 27 ==> r == Ok::<Instruction, TvmError>(instruction_of(op as int)),
            !(1 <= op <= 27) ==> r == Err::<Instruction, TvmError>(TvmError::InvalidOpcode),
    {
        if op < 1 {
            Err(TvmError::InvalidOpcode)
        } else {
            Instruction::get_instruction(op as u32)
        }
    }

    /// The opcode of this instruction.
    pub fn op(&self) -> (r: u32)
        ensures
            r == self.spec_op(),
            1 <= r <= 27,
            instruction_of(r as int) == *self,
    {
        match self {
            Instruction::Push => 1,
            Instruction::Fetch => 2,
            Instruction::Store => 3,
            Instruction::IF => 4,
            Instruction::Loop => 5,
            Instruction::Break => 6,
            Instruction::Return => 7,
            Instruction::Call => 8,
            Instruction::FPPlus => 9,
            Instruction::Add => 10,
            Instruction::Sub => 11,
            Instruction::Mul => 12,
            Instruction::Div => 13,
            Instruction::Mod => 14,
            Instruction::Not => 15,
            Instruction::And => 16,
            Instruction::OR => 17,
            Instruction::Xor => 18,
            Instruction::EQ => 19,
            Instruction::Neq => 20,
            Instruction::LT => 21,
            Instruction::Leq => 22,
            Instruction::GT => 23,
            Instruction::Geq => 24,
            Instruction::Pop => 25,
            Instruction::LShift => 26,
            Instruction::RShift => 27,
        }
    }

    /// The lower-case mnemonic of this instruction.
    pub fn name(&self) -> (r: String)
        ensures
            r@ == self.spec_name(),
    {
        match self {
            Instruction::Push => "push".to_owned(),
            Instruction::Fetch => "fetch".to_owned(),
            Instruction::Store => "store".to_owned(),
            Instruction::IF => "if".to_owned(),
            Instruction::Loop => "loop".to_owned(),
            Instruction::Break => "break".to_owned(),
            Instruction::Return => "return".to_owned(),
            Instruction::Call => "call".to_owned(),
            Instruction::FPPlus => "fpplus".to_owned(),
            Instruction::Add => "add".to_owned(),
            Instruction::Sub => "sub".to_owned(),
            Instruction::Mul => "mul".to_owned(),
            Instruction::Div => "div".to_owned(),
            Instruction::Mod => "mod".to_owned(),
            Instruction::Not => "not".to_owned(),
            Instruction::And => "and".to_owned(),
            Instruction::OR => "or".to_owned(),
            Instruction::Xor => "xor".to_owned(),
            Instruction::EQ => "eq".to_owned(),
            Instruction::Neq => "neq".to_owned(),
            Instruction::LT => "lt".to_owned(),
            Instruction::Leq => "leq".to_owned(),
            Instruction::GT => "gt".to_owned(),
            Instruction::Geq => "geq".to_owned(),
            Instruction::Pop => "pop".to_owned(),
            Instruction::LShift => "lshift".to_owned(),
            Instruction::RShift => "rshift".to_owned(),
        }
    }
}

} // verus!
