use crate::function::Function;
use crate::native::{native_of, NativeFunction};
use vstd::prelude::*;

verus! {

/// Something a `CALL` can invoke: a function of the program, by its index in
/// the function table, or a native function of the host.
#[derive(Clone, Copy, Debug, PartialEq, Eq, Structural)]
pub enum Callable {
    Function(usize),
    Native(NativeFunction),
}

/// The callable that a `CALL` operand id names among `n_functions` functions,
/// if any: a native id in `-111..=-101`, or a function index below `n_functions`.
pub open spec fn callable_of(id: i32, n_functions: int) -> Option<Callable> {
    if -111 <= id <= -101 {
        Some(Callable::Native(native_of(id)))
    } else if 0 <= id < n_functions {
        Some(Callable::Function(id as usize))
    } else {
        None
    }
}

impl Callable {
    /// The id of this callable: the function index, or the native id.
    pub open spec fn spec_id(self) -> i32 {
        match self {
            Callable::Function(id) => id as i32,
            Callable::Native(native) => native.spec_id(),
        }
    }

    /// The id of this callable: the function index, or the native id.
    pub fn get_id(&self) -> (r: i32)
        ensures
            r == self.spec_id(),
    {
        match self {
            Callable::Function(id) => *id as i32,
            Callable::Native(native) => native.id(),
        }
    }

    /// The native callable with the given id.
    pub fn get_native(id: i32) -> (r: Callable)
        requires
            -111 <= id <= -101,
        ensures
            r == Callable::Native(native_of(id)),
    {
        Callable::Native(NativeFunction::get_native(id))
    }

    /// Resolves a `CALL` operand among `n_functions` functions.
    pub fn resolve(id: i32, n_functions: usize) -> (r: Option<Callable>)
        ensures
            r == callable_of(id, n_functions as int),
    {
        if -111 <= id && id <= -101 {
            Some(Callable::Native(NativeFunction::get_native(id)))
        } else if 0 <= id && (id as usize) < n_functions {
            Some(Callable::Function(id as usize))
        } else {
            None
        }
    }

    /// The name of this callable: the function's name in `functions` (empty
    /// when the index is out of range), or the native function's name.
    pub fn name(&self, functions: &Vec<Function>) -> (r: String)
        ensures
            match *self {
                Callable::Function(id) => if id < functions@.len() {
                    r@ == functions@[id as int].name@
                } else {
                    r@ == Seq::<char>::empty()
                },
                Callable::Native(native) => r@ == native.spec_name(),
            },
    {
        match self {
            Callable::Function(id) => {
                if *id < functions.len() {
                    functions[*id].name.clone()
                } else {
                    String::new()
                }
            },
            Callable::Native(native) => native.name(),
        }
    }
}

} // verus!
