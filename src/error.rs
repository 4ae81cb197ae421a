use vstd::prelude::*;

verus! {

/// The ways a program run can fail; each one halts the machine.
#[derive(Clone, Copy, Debug, PartialEq, Eq, Structural)]
pub enum TvmError {
    /// The tape has a shape or a number that cannot be interpreted.
    MalformedTape,
    /// A numeric opcode outside `1..=27`.
    InvalidOpcode,
    /// A call target that is neither a native id nor a function index.
    InvalidCallable,
    /// A push, or a call prologue, would run into the heap.
    StackOverflow,
    /// A pop from an empty stack, or a return through a broken frame record.
    StackUnderflow,
    /// An allocation would run into the stack.
    HeapOverflow,
    /// `DIV` or `MOD` with a zero divisor.
    DivisionByZero,
    /// `BREAK` with no enclosing loop, or `RETURN` with no enclosing call.
    UnbalancedControlFlow,
    /// A host operation behind a native function failed.
    NativeIOError,
    /// A memory access outside the machine's memory.
    InvalidAddress,
}

} // verus!
