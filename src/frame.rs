use crate::callable::Callable;
use crate::instruction::Instruction;
use crate::native::native_of;
use vstd::prelude::*;

verus! {

/// A node of a program's instruction tree: an ordered body of elements and a
/// program counter into it.
#[derive(Debug, PartialEq, Eq)]
pub struct Frame {
    pub id: usize,
    pub name: String,
    pub data: Vec<FrameData>,
    pub pc: usize,
}

/// One element of a frame's body.
#[derive(Debug, PartialEq, Eq)]
pub enum FrameData {
    /// An inline child frame (the operand of `IF` and `LOOP`).
    Frame(Frame),
    /// A native function reference (the operand of `CALL`), with extra arguments.
    Callable(Callable, Vec<i32>),
    /// An opcode, with extra arguments.
    Instruction(Instruction, Vec<i32>),
    /// A literal integer operand.
    Primitive(i32),
}

impl FrameData {
    /// The integer an element stands for when read as an operand: a frame's
    /// id, a callable's id, an opcode, or the literal itself.
    pub open spec fn spec_id(self) -> i32 {
        match self {
            FrameData::Frame(frame) => frame.id as i32,
            FrameData::Callable(callable, _) => callable.spec_id(),
            FrameData::Instruction(instruction, _) => instruction.spec_op() as i32,
            FrameData::Primitive(value) => value,
        }
    }

    /// The integer an element stands for when read as an operand.
    pub fn get_id(&self) -> (r: i32)
        ensures
            r == self.spec_id(),
    {
        match self {
            FrameData::Frame(frame) => frame.id as i32,
            FrameData::Callable(callable, _) => callable.get_id(),
            FrameData::Instruction(instruction, _) => instruction.op() as i32,
            FrameData::Primitive(value) => *value,
        }
    }
}

impl Frame {
    /// A builder for a frame with id 0, an empty name and an empty body.
    pub fn builder() -> (r: FrameBuilder)
        ensures
            r.id == 0,
            r.name@ == Seq::<char>::empty(),
            r.data@ == Seq::<FrameData>::empty(),
    {
        FrameBuilder { id: 0, name: String::new(), data: Vec::new() }
    }

    /// The element under the program counter.
    pub fn get_current(&self) -> (r: &FrameData)
        requires
            self.pc < self.data@.len(),
        ensures
            *r == self.data@[self.pc as int],
    {
        &self.data[self.pc]
    }
}

/// Builds a frame element by element.
pub struct FrameBuilder {
    pub id: usize,
    pub name: String,
    pub data: Vec<FrameData>,
}

impl FrameBuilder {
    /// Sets the frame's id.
    pub fn id(self, id: usize) -> (r: Self)
        ensures
            r.id == id,
            r.name == self.name,
            r.data == self.data,
    {
        FrameBuilder { id, ..self }
    }

    /// Sets the frame's name.
    pub fn name(self, name: String) -> (r: Self)
        ensures
            r.id == self.id,
            r.name == name,
            r.data == self.data,
    {
        FrameBuilder { name, ..self }
    }

    /// Appends a child frame.
    pub fn frame(self, frame: Frame) -> (r: Self)
        ensures
            r.id == self.id,
            r.name == self.name,
            r.data@ == self.data@.push(FrameData::Frame(frame)),
    {
        let mut b = self;
        b.data.push(FrameData::Frame(frame));
        b
    }

    /// Appends a reference to the native function with the given id.
    pub fn callable(self, callable: i32, args: Vec<i32>) -> (r: Self)
        requires
            -111 <= callable <= -101,
        ensures
            r.id == self.id,
            r.name == self.name,
            r.data@ == self.data@.push(FrameData::Callable(Callable::Native(native_of(callable)), args)),
    {
        let mut b = self;
        b.data.push(FrameData::Callable(Callable::get_native(callable), args));
        b
    }

    /// Appends an instruction.
    pub fn instruction(self, instruction: Instruction, args: Vec<i32>) -> (r: Self)
        ensures
            r.id == self.id,
            r.name == self.name,
            r.data@ == self.data@.push(FrameData::Instruction(instruction, args)),
    {
        let mut b = self;
        b.data.push(FrameData::Instruction(instruction, args));
        b
    }

    /// Appends a literal.
    pub fn primitive(self, primitive: i32) -> (r: Self)
        ensures
            r.id == self.id,
            r.name == self.name,
            r.data@ == self.data@.push(FrameData::Primitive(primitive)),
    {
        let mut b = self;
        b.data.push(FrameData::Primitive(primitive));
        b
    }

    /// The frame, with its program counter at 0.
    pub fn build(self) -> (r: Frame)
        ensures
            r.id == self.id,
            r.name == self.name,
            r.data == self.data,
            r.pc == 0,
    {
        Frame { id: self.id, name: self.name, data: self.data, pc: 0 }
    }
}

} // verus!
