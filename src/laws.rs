//! Properties of the machine, proved over its semantics.
use crate::callable::Callable;
use crate::error::TvmError;
use crate::frame::{Frame, FrameData};
use crate::instruction::Instruction;
use crate::native::NativeFunction;
use crate::program::Program;
use crate::semantics::{
    alloc_run, body_frame_at, eval_run, instruction_run, last_loop, next_tick, pop_run, pop_state, push_run,
    draws_random, epilogue_run, last_call, native_run, return_run, read_run, reset_model, run_ticks, tick_run, write_run, Action, EvalStep, Mem, TvmModel, MEMORY_SIZE, STACK_TOP,
};
use crate::semantics::{count_calls, count_contexts};
use crate::state::StateView;
use crate::text::{cell_char, char_cell, decimal_of, digit_char, digits_of, string_at, string_fits, with_string};
use vstd::prelude::*;

verus! {

/// While a program runs, the state stack holds exactly one state per live
/// activation and one per evaluation or loop context.
pub proof fn law_states_are_activations_and_contexts(s: Seq<StateView>)
    requires
        forall|i: int| 0 <= i < s.len() ==> (#[trigger] s[i]).is_running(),
    ensures
        s.len() == count_calls(s) + count_contexts(s),
    decreases s.len(),
{
    if s.len() > 0 {
        let d = s.drop_last();
        assert forall|i: int| 0 <= i < d.len() implies (#[trigger] d[i]).is_running() by {
            assert(d[i] == s[i]);
        }
        law_states_are_activations_and_contexts(d);
        assert(s.last().is_running());
    }
}

/// A push followed by a pop gives the pushed value back and leaves the
/// pointers, the heap and the live stack as they were.
pub proof fn law_push_then_pop(m: Mem, v: i32)
    requires
        m.wf(),
        push_run(m, v).1 is Ok,
    ensures
        ({
            let (m2, r) = pop_run(push_run(m, v).0);
            &&& r == Ok::<i32, TvmError>(v)
            &&& m2.sp == m.sp && m2.fp == m.fp && m2.heap_end == m.heap_end
            &&& m2.stack() == m.stack()
            &&& m2.cells == m.cells.update(m.sp, v)
            &&& m2.cells.subrange(0, m.heap_end) == m.cells.subrange(0, m.heap_end)
        }),
{
    let m1 = push_run(m, v).0;
    let (m2, r) = pop_run(m1);
    assert(m2.stack() =~= m.stack());
    assert(m2.cells.subrange(0, m.heap_end) =~= m.cells.subrange(0, m.heap_end));
}

/// `FPPLUS k` then `FETCH` reads the value that `STORE` put in the cell that
/// `FPPLUS k` addressed before (the cell must lie inside memory and not be
/// the free cell under the stack that the pushes in between write).
pub proof fn law_fpplus_store_fetch(m: Mem, f: Frame, pc: int, n: int, k: i32, v: i32)
    requires
        m.wf(),
        m.sp - 1 >= m.heap_end,
        m.sp >= 2,
        0 <= m.fp + k < MEMORY_SIZE,
        m.fp + k != m.sp,
    ensures
        ({
            let m1 = push_run(m, k).0;
            let m2 = instruction_run(m1, f, pc, Instruction::FPPlus, n).0;
            let m3 = push_run(m2, v).0;
            let (m4, r4) = instruction_run(m3, f, pc, Instruction::Store, n);
            let m5 = push_run(m4, k).0;
            let m6 = instruction_run(m5, f, pc, Instruction::FPPlus, n).0;
            let (m7, r7) = instruction_run(m6, f, pc, Instruction::Fetch, n);
            &&& r4 is Ok
            &&& r7 is Ok
            &&& m7.sp == m.sp - 1
            &&& m7.cells[m7.sp + 1] == v
        }),
{
    let a = (m.fp as i32).wrapping_add(k);
    assert(a == m.fp + k) by {
        assert(i32::MIN <= m.fp + k <= i32::MAX);
    }
}

/// The characters of a decimal form: digits and the minus sign.
pub open spec fn is_decimal_char(c: char) -> bool {
    c == '0' || c == '1' || c == '2' || c == '3' || c == '4' || c == '5' || c == '6' || c == '7'
        || c == '8' || c == '9' || c == '-'
}

proof fn lemma_digits_chars(n: nat)
    ensures
        forall|i: int| 0 <= i < digits_of(n).len() ==> is_decimal_char(#[trigger] digits_of(n)[i]),
    decreases n,
{
    if n >= 10 {
        lemma_digits_chars(n / 10);
        let d = digits_of(n / 10);
        assert(digits_of(n) == d.push(digit_char(n % 10)));
    }
}

proof fn lemma_decimal_chars(v: int)
    ensures
        forall|i: int| 0 <= i < decimal_of(v).len() ==> is_decimal_char(#[trigger] decimal_of(v)[i]),
{
    if v < 0 {
        lemma_digits_chars((-v) as nat);
        let s = decimal_of(v);
        assert forall|i: int| 0 <= i < s.len() implies is_decimal_char(#[trigger] s[i]) by {
            if i > 0 {
                assert(s[i] == digits_of((-v) as nat)[i - 1]);
            }
        }
    } else {
        lemma_digits_chars(v as nat);
    }
}

proof fn lemma_decimal_char_cell(c: char)
    requires
        is_decimal_char(c),
    ensures
        char_cell(c) != 0,
        cell_char(char_cell(c)) == c,
{
}

/// Reading back a stored text of decimal characters gives the text.
proof fn lemma_read_back(w: Seq<i32>, a: int, s: Seq<char>, i: int)
    requires
        w.len() == MEMORY_SIZE,
        0 <= a,
        a + s.len() < w.len(),
        forall|j: int| 0 <= j < s.len() ==> w[a + j] == char_cell(#[trigger] s[j]),
        w[a + s.len()] == 0,
        forall|j: int| 0 <= j < s.len() ==> is_decimal_char(#[trigger] s[j]),
        0 <= i <= s.len(),
    ensures
        string_at(w, a + i) == s.subrange(i, s.len() as int),
    decreases s.len() - i,
{
    if i == s.len() {
        assert(s.subrange(i, s.len() as int) =~= Seq::<char>::empty());
    } else {
        lemma_read_back(w, a, s, i + 1);
        lemma_decimal_char_cell(s[i]);
        assert(w[a + i] == char_cell(s[i]));
        assert(s.subrange(i, s.len() as int) =~= seq![s[i]] + s.subrange(i + 1, s.len() as int));
    }
}

/// `I2S` of `v` at address `a`, read back from `a`, is the decimal form of `v`.
pub proof fn law_i2s_reads_back(m: Mem, v: i32, a: i32)
    requires
        m.wf(),
        write_run(m, a, decimal_of(v as int)).1 is Ok,
    ensures
        read_run(write_run(m, a, decimal_of(v as int)).0, a) == Ok::<Seq<char>, TvmError>(decimal_of(v as int)),
{
    let s = decimal_of(v as int);
    lemma_decimal_chars(v as int);
    let w = with_string(m.cells, a as int, s);
    assert forall|j: int| 0 <= j < s.len() implies w[a + j] == char_cell(#[trigger] s[j]) by {}
    lemma_read_back(w, a as int, s, 0);
    assert(s.subrange(0, s.len() as int) =~= s);
}

/// The `I2S` native, with `v` on top of stack and the address `a` below it,
/// leaves text at `a` that reads back as the decimal form of `v`, provided
/// that text lies below the cell where `I2S` pushes its result.
pub proof fn law_native_i2s_reads_back(t: TvmModel, draw: i32)
    requires
        t.mem.wf(),
        t.mem.sp + 2 <= STACK_TOP,
        0 <= t.mem.cells[t.mem.sp + 2],
        t.mem.cells[t.mem.sp + 2] + decimal_of(t.mem.cells[t.mem.sp + 1] as int).len() < t.mem.sp + 2,
    ensures
        ({
            let v = t.mem.cells[t.mem.sp + 1];
            let a = t.mem.cells[t.mem.sp + 2];
            let (t2, r) = native_run(t, NativeFunction::I2S, draw);
            &&& r is Ok
            &&& read_run(t2.mem, a) == Ok::<Seq<char>, TvmError>(decimal_of(v as int))
        }),
{
    let v = t.mem.cells[t.mem.sp + 1];
    let a = t.mem.cells[t.mem.sp + 2];
    let s = decimal_of(v as int);
    lemma_decimal_chars(v as int);
    let (t2, r) = native_run(t, NativeFunction::I2S, draw);
    let w = t2.mem.cells;
    assert(w == with_string(t.mem.cells, a as int, s).update(t.mem.sp + 2, 0));
    assert forall|j: int| 0 <= j < s.len() implies w[a + j] == char_cell(#[trigger] s[j]) by {}
    lemma_read_back(w, a as int, s, 0);
    assert(s.subrange(0, s.len() as int) =~= s);
}

/// The sum of a sequence of sizes.
pub open spec fn total(ns: Seq<i32>) -> int
    decreases ns.len(),
{
    if ns.len() == 0 {
        0
    } else {
        total(ns.drop_last()) + ns.last()
    }
}

/// Allocating each size of `ns` in turn: the memory after, and the addresses
/// handed out, or nothing once one allocation fails.
pub open spec fn alloc_all(m: Mem, ns: Seq<i32>) -> Option<(Mem, Seq<i32>)>
    decreases ns.len(),
{
    if ns.len() == 0 {
        Some((m, Seq::empty()))
    } else {
        match alloc_all(m, ns.drop_last()) {
            None => None,
            Some((m1, addrs)) => {
                let (m2, r) = alloc_run(m1, ns.last());
                match r {
                    Ok(a) => Some((m2, addrs.push(a))),
                    Err(_) => None,
                }
            },
        }
    }
}

/// Successive allocations hand out the addresses `heap_end + n0 + ... + n(i-1)`,
/// so the heap grows by the sum of the sizes and, for positive sizes, the
/// addresses strictly increase.
pub proof fn law_alloc_addresses(m: Mem, ns: Seq<i32>)
    requires
        m.wf(),
        alloc_all(m, ns) is Some,
    ensures
        ({
            let (m2, addrs) = alloc_all(m, ns)->Some_0;
            &&& addrs.len() == ns.len()
            &&& m2 == Mem { heap_end: m.heap_end + total(ns), ..m }
            &&& m2.wf()
            &&& forall|i: int| 0 <= i < ns.len() ==> addrs[i] == m.heap_end + total(#[trigger] ns.subrange(0, i))
            &&& (forall|i: int| 0 <= i < ns.len() ==> ns[i] > 0) ==> forall|i: int, j: int|
                0 <= i < j < ns.len() ==> #[trigger] addrs[i] < #[trigger] addrs[j]
        }),
    decreases ns.len(),
{
    if ns.len() > 0 {
        let d = ns.drop_last();
        law_alloc_addresses(m, d);
        let (m1, addrs1) = alloc_all(m, d)->Some_0;
        let (m2, addrs) = alloc_all(m, ns)->Some_0;
        let (m3, r) = alloc_run(m1, ns.last());
        assert(r is Ok);
        assert(addrs == addrs1.push(r->Ok_0));
        assert(m1.heap_end <= MEMORY_SIZE);
        assert forall|i: int| 0 <= i < ns.len() implies addrs[i] == m.heap_end + total(#[trigger] ns.subrange(0, i)) by {
            if i < d.len() {
                assert(ns.subrange(0, i) =~= d.subrange(0, i));
                assert(addrs[i] == addrs1[i]);
            } else {
                assert(ns.subrange(0, i) =~= d);
            }
        }
        if forall|i: int| 0 <= i < ns.len() ==> ns[i] > 0 {
            assert forall|i: int, j: int| 0 <= i < j < ns.len() implies #[trigger] addrs[i] < #[trigger] addrs[j] by {
                lemma_total_grows(ns, i, j);
            }
        }
    } else {
        assert(alloc_all(m, ns)->Some_0.1 =~= Seq::<i32>::empty());
    }
}

proof fn lemma_total_grows(ns: Seq<i32>, i: int, j: int)
    requires
        0 <= i < j <= ns.len(),
        forall|k: int| 0 <= k < ns.len() ==> ns[k] > 0,
    ensures
        total(ns.subrange(0, i)) < total(ns.subrange(0, j)),
    decreases j,
{
    let sj = ns.subrange(0, j);
    assert(sj.drop_last() =~= ns.subrange(0, j - 1));
    if i < j - 1 {
        lemma_total_grows(ns, i, j - 1);
    }
}

/// A division or remainder by zero halts the machine with `DivisionByZero`.
pub proof fn law_division_by_zero(t: TvmModel, p: Program, draw: i32, f: usize, path: Seq<usize>, pc: usize, frame: Frame, ins: Instruction, args: Vec<i32>)
    requires
        t.wf(),
        !t.paused,
        t.states.last() == StateView::Eval(f, path, pc),
        body_frame_at(p, f, path) == Some(frame),
        pc < frame.data@.len(),
        frame.data@[pc as int] == FrameData::Instruction(ins, args),
        ins == Instruction::Div || ins == Instruction::Mod,
        t.mem.sp + 2 <= STACK_TOP,
        t.mem.cells[t.mem.sp + 1] == 0,
    ensures
        tick_run(t, p, draw).error == Some(TvmError::DivisionByZero),
        tick_run(t, p, draw).states == seq![StateView::Halt],
{
}

/// A loop on top re-enters its body: the loop state stays and a fresh
/// evaluation of the body is begun.
pub proof fn law_loop_reenters_body(t: TvmModel, p: Program, draw: i32, f: usize, path: Seq<usize>)
    requires
        t.wf(),
        !t.paused,
        t.states.last() == StateView::Loop(f, path),
    ensures
        tick_run(t, p, draw).states == t.states.push(StateView::FrameEval(f, path)),
        tick_run(t, p, draw).mem == t.mem,
        tick_run(t, p, draw).error == t.error,
{
}

/// A loop body that runs off its end hands control back to its loop, which
/// stays: a loop ends only through `Break`, `Return` or an error.
pub proof fn law_loop_body_end_returns_to_loop(t: TvmModel, p: Program, draw: i32, f: usize, path: Seq<usize>, pc: usize, frame: Frame, below: Seq<StateView>)
    requires
        t.wf(),
        !t.paused,
        t.states == below.push(StateView::Loop(f, path)).push(StateView::Eval(f, path, pc)),
        body_frame_at(p, f, path) == Some(frame),
        pc >= frame.data@.len(),
    ensures
        tick_run(t, p, draw).states == below.push(StateView::Loop(f, path)),
        tick_run(t, p, draw).mem == t.mem,
{
    let t0 = TvmModel { ticks: next_tick(t.ticks), ..t };
    let t1 = t0.with_states(t0.states.update(t0.states.len() - 1, StateView::Eval(f, path, pc)));
    assert(t1.states =~= t.states);
    assert(pop_state(t1).states =~= below.push(StateView::Loop(f, path)));
}

/// `BREAK` with a non-zero condition and no loop in the current function
/// halts the machine with `UnbalancedControlFlow`.
pub proof fn law_break_outside_loop(t: TvmModel, p: Program, draw: i32, f: usize, path: Seq<usize>, pc: usize, frame: Frame, args: Vec<i32>)
    requires
        t.wf(),
        !t.paused,
        t.states.last() == StateView::Eval(f, path, pc),
        last_loop(t.states) < 0,
        body_frame_at(p, f, path) == Some(frame),
        pc < frame.data@.len(),
        frame.data@[pc as int] == FrameData::Instruction(Instruction::Break, args),
        t.mem.sp < STACK_TOP,
        t.mem.cells[t.mem.sp + 1] != 0,
    ensures
        tick_run(t, p, draw).error == Some(TvmError::UnbalancedControlFlow),
        tick_run(t, p, draw).states == seq![StateView::Halt],
{
    let s = t.states;
    let s1 = s.update(s.len() - 1, StateView::Eval(f, path, (pc + 1) as usize));
    lemma_last_loop_same_kinds(s, s1);
}

proof fn lemma_last_loop_same_kinds(s: Seq<StateView>, s1: Seq<StateView>)
    requires
        s.len() == s1.len(),
        forall|i: int| 0 <= i < s.len() ==> ((#[trigger] s[i]) is Loop <==> s1[i] is Loop) && (s[i] is Call <==> s1[i] is Call),
    ensures
        last_loop(s) == last_loop(s1),
    decreases s.len(),
{
    if s.len() > 0 {
        let d = s.drop_last();
        let d1 = s1.drop_last();
        assert forall|i: int| 0 <= i < d.len() implies ((#[trigger] d[i]) is Loop <==> d1[i] is Loop) && (d[i] is Call <==> d1[i] is Call) by {
            assert(d[i] == s[i] && d1[i] == s1[i]);
        }
        lemma_last_loop_same_kinds(d, d1);
    }
}

/// Evaluating an empty frame ends it at once with `Exit`, memory untouched.
pub proof fn law_empty_frame_exits(m: Mem, frame: Frame, n: int)
    requires
        frame.data@.len() == 0,
    ensures
        eval_run(m, frame, 0, n) == (m, Ok::<EvalStep, TvmError>(EvalStep { pc: 0, action: Action::Exit })),
{
}

/// Two machines reset with the same program and ticked with the same draws
/// from the host end in the same memory, output and states.
pub proof fn law_runs_from_reset_agree(a: TvmModel, b: TvmModel, p: Program, draws: Seq<i32>)
    requires
        a == reset_model(p),
        b == reset_model(p),
    ensures
        run_ticks(a, p, draws).mem == run_ticks(b, p, draws).mem,
        run_ticks(a, p, draws).stdout == run_ticks(b, p, draws).stdout,
        run_ticks(a, p, draws).states == run_ticks(b, p, draws).states,
{
}

/// `ALLOC` of the `n` on top of stack is `alloc_run` on the memory as it was
/// before the call: it succeeds exactly when that does, leaves the address in
/// `n`'s cell with the heap grown by `n`, and otherwise fails with
/// `HeapOverflow` with the heap unchanged.
pub proof fn law_native_alloc_follows_alloc_run(t: TvmModel, draw: i32)
    requires
        t.mem.wf(),
        t.mem.sp < STACK_TOP,
    ensures
        ({
            let n = t.mem.cells[t.mem.sp + 1];
            let (t2, r) = native_run(t, NativeFunction::Alloc, draw);
            let (ma, a) = alloc_run(t.mem, n);
            &&& (r is Ok <==> a is Ok)
            &&& a is Ok ==> t2.mem.heap_end == ma.heap_end && t2.mem.sp == t.mem.sp
                && t2.mem.cells[t.mem.sp + 1] == a->Ok_0
            &&& a is Err ==> r == Err::<(), TvmError>(TvmError::HeapOverflow)
                && t2.mem.heap_end == t.mem.heap_end
        }),
{
}

/// The draw only matters on a tick that calls `RANDOM`.
pub proof fn law_draw_only_for_random(t: TvmModel, p: Program, d1: i32, d2: i32)
    requires
        !draws_random(t),
    ensures
        tick_run(t, p, d1) == tick_run(t, p, d2),
{
}

/// A run none of whose ticks calls `RANDOM` does not depend on the draws:
/// from the same machine (for instance right after a reset) it ends in the
/// same memory, output and states.
pub proof fn law_run_without_random_is_deterministic(t: TvmModel, p: Program, ds1: Seq<i32>, ds2: Seq<i32>)
    requires
        ds1.len() == ds2.len(),
        forall|i: int| 0 <= i < ds1.len() ==> !draws_random(#[trigger] run_ticks(t, p, ds1.take(i))),
    ensures
        run_ticks(t, p, ds1) == run_ticks(t, p, ds2),
    decreases ds1.len(),
{
    if ds1.len() > 0 {
        let k = ds1.len() - 1;
        let a = ds1.drop_last();
        let b = ds2.drop_last();
        assert forall|i: int| 0 <= i < a.len() implies !draws_random(#[trigger] run_ticks(t, p, a.take(i))) by {
            assert(a.take(i) =~= ds1.take(i));
        }
        law_run_without_random_is_deterministic(t, p, a, b);
        assert(ds1.take(k) =~= a);
        assert(!draws_random(run_ticks(t, p, ds1.take(k))));
        law_draw_only_for_random(run_ticks(t, p, a), p, ds1.last(), ds2.last());
    }
}

proof fn lemma_last_call_skips(s: Seq<StateView>, above: Seq<StateView>)
    requires
        forall|i: int| 0 <= i < above.len() ==> !((#[trigger] above[i]) is Call),
    ensures
        last_call(s + above) == last_call(s),
    decreases above.len(),
{
    if above.len() > 0 {
        let a = above.drop_last();
        assert forall|i: int| 0 <= i < a.len() implies !((#[trigger] a[i]) is Call) by {
            assert(a[i] == above[i]);
        }
        lemma_last_call_skips(s, a);
        assert((s + above).drop_last() =~= s + a);
        assert((s + above).last() == above.last());
    } else {
        assert(s + above =~= s);
    }
}

/// `RETURN` leaves the function it is in at once: every state above the
/// function's call, its loops and nested frames included, is dropped with the
/// call itself, so none of them runs again.
pub proof fn law_return_discards_the_activation(t: TvmModel, p: Program, below: Seq<StateView>, id: usize, above: Seq<StateView>)
    requires
        t.mem.wf(),
        t.states == below.push(StateView::Call(Callable::Function(id))) + above,
        forall|i: int| 0 <= i < above.len() ==> !((#[trigger] above[i]) is Call),
        below.len() > 0,
        id < p.functions@.len(),
        epilogue_run(t.mem, p.functions@[id as int].args as int, p.functions@[id as int].locals as int).1 is Ok,
    ensures
        return_run(t, p).states == below,
        return_run(t, p).error == t.error,
{
    let c = below.push(StateView::Call(Callable::Function(id)));
    lemma_last_call_skips(c, above);
    assert(t.states.subrange(0, c.len() as int) =~= c);
    assert(c.drop_last() =~= below);
}

} // verus!
