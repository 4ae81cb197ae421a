use crate::frame::{Frame, FrameData};
use vstd::prelude::*;

verus! {

/// A function of a program: its body frame, and how many argument and local
/// cells its activation record holds.
#[derive(Debug, PartialEq, Eq)]
pub struct Function {
    pub id: usize,
    pub name: String,
    pub args: usize,
    pub locals: usize,
    pub frame: Frame,
}

impl Function {
    /// A builder for a function with every field zero or empty.
    pub fn builder() -> (r: FunctionBuilder)
        ensures
            r.id == 0 && r.args == 0 && r.locals == 0,
            r.name@ == Seq::<char>::empty(),
            r.frame.id == 0 && r.frame.pc == 0,
            r.frame.name@ == Seq::<char>::empty(),
            r.frame.data@ == Seq::<FrameData>::empty(),
    {
        FunctionBuilder::new()
    }
}

/// Builds a function field by field.
pub struct FunctionBuilder {
    pub id: usize,
    pub name: String,
    pub args: usize,
    pub locals: usize,
    pub frame: Frame,
}

impl FunctionBuilder {
    /// A builder with every field zero or empty.
    pub fn new() -> (r: Self)
        ensures
            r.id == 0 && r.args == 0 && r.locals == 0,
            r.name@ == Seq::<char>::empty(),
            r.frame.id == 0 && r.frame.pc == 0,
            r.frame.name@ == Seq::<char>::empty(),
            r.frame.data@ == Seq::<FrameData>::empty(),
    {
        FunctionBuilder {
            id: 0,
            name: String::new(),
            args: 0,
            locals: 0,
            frame: Frame { id: 0, name: String::new(), data: Vec::new(), pc: 0 },
        }
    }

    /// Sets the function's id.
    pub fn id(self, id: usize) -> (r: Self)
        ensures
            r == (FunctionBuilder { id, ..self }),
    {
        FunctionBuilder { id, ..self }
    }

    /// Sets the function's name.
    pub fn name(self, name: String) -> (r: Self)
        ensures
            r == (FunctionBuilder { name, ..self }),
    {
        FunctionBuilder { name, ..self }
    }

    /// Sets the number of argument cells.
    pub fn args(self, args: usize) -> (r: Self)
        ensures
            r == (FunctionBuilder { args, ..self }),
    {
        FunctionBuilder { args, ..self }
    }

    /// Sets the number of local cells.
    pub fn locals(self, locals: usize) -> (r: Self)
        ensures
            r == (FunctionBuilder { locals, ..self }),
    {
        FunctionBuilder { locals, ..self }
    }

    /// Sets the body frame.
    pub fn frame(self, frame: Frame) -> (r: Self)
        ensures
            r == (FunctionBuilder { frame, ..self }),
    {
        FunctionBuilder { frame, ..self }
    }

    /// The function.
    pub fn build(self) -> (r: Function)
        ensures
            r == (Function {
                id: self.id,
                name: self.name,
                args: self.args,
                locals: self.locals,
                frame: self.frame,
            }),
    {
        Function {
            id: self.id,
            name: self.name,
            args: self.args,
            locals: self.locals,
            frame: self.frame,
        }
    }
}

} // verus!
