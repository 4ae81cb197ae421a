use crate::function::Function;
use vstd::prelude::*;

verus! {

/// A loaded program: its entry function, the size of its initial heap, the
/// heap cells to seed, and its function table (a function's id is its index).
#[derive(Debug)]
pub struct Program {
    pub entry_point: usize,
    pub heap_size: usize,
    pub heap: Vec<(usize, i32)>,
    pub functions: Vec<Function>,
}

impl Program {
    /// A program made of the given parts.
    pub fn new(
        entry_point: usize,
        heap_size: usize,
        heap: Vec<(usize, i32)>,
        functions: Vec<Function>,
    ) -> (r: Program)
        ensures
            r == (Program { entry_point, heap_size, heap, functions }),
    {
        Program { entry_point, heap_size, heap, functions }
    }

    /// A builder for an empty program whose entry point is 0.
    pub fn builder() -> (r: ProgramBuilder)
        ensures
            r.entry_point == 0,
            r.heap@.len() == 0,
            r.functions@.len() == 0,
    {
        ProgramBuilder::new()
    }
}

/// Builds a program; its heap size is the number of seeded cells.
pub struct ProgramBuilder {
    pub entry_point: usize,
    pub heap: Vec<(usize, i32)>,
    pub functions: Vec<Function>,
}

impl ProgramBuilder {
    /// A builder for an empty program whose entry point is 0.
    pub fn new() -> (r: ProgramBuilder)
        ensures
            r.entry_point == 0,
            r.heap@.len() == 0,
            r.functions@.len() == 0,
    {
        ProgramBuilder { entry_point: 0, heap: Vec::new(), functions: Vec::new() }
    }

    /// Sets the entry function's index.
    pub fn entry_point(self, entry_point: usize) -> (r: ProgramBuilder)
        ensures
            r == (ProgramBuilder { entry_point, ..self }),
    {
        ProgramBuilder { entry_point, ..self }
    }

    /// Sets the heap cells to seed, as (address, value) pairs.
    pub fn heap(self, heap: Vec<(usize, i32)>) -> (r: ProgramBuilder)
        ensures
            r == (ProgramBuilder { heap, ..self }),
    {
        ProgramBuilder { heap, ..self }
    }

    /// Appends a function to the table.
    pub fn function(self, function: Function) -> (r: ProgramBuilder)
        ensures
            r.entry_point == self.entry_point,
            r.heap == self.heap,
            r.functions@ == self.functions@.push(function),
    {
        let mut b = self;
        b.functions.push(function);
        b
    }

    /// The program; its heap size is the number of seeded cells.
    pub fn build(self) -> (r: Program)
        ensures
            r.entry_point == self.entry_point,
            r.heap_size == self.heap@.len(),
            r.heap == self.heap,
            r.functions == self.functions,
    {
        let n = self.heap.len();
        Program::new(self.entry_point, n, self.heap, self.functions)
    }
}

} // verus!
