//! Decoding a program from its tape: a JSON tree of numbers, strings and
//! arrays, `[[entry, heap_size], [[addr, value], ...], function, ...]` with
//! each function `[id, name, args, locals, body]`.
use crate::callable::Callable;
use crate::error::TvmError;
use crate::frame::{Frame, FrameData};
use crate::function::Function;
use crate::instruction::{instruction_of, Instruction};
use crate::native::{native_of, NativeFunction};
use crate::program::Program;
use vstd::prelude::*;
use vstd::string::StringExecFns;

verus! {

broadcast use vstd::std_specs::vec::group_vec_axioms;

/// A JSON value as the tape loader reads it: integers, strings and arrays
/// are kept, anything else (null, booleans, fractions, objects, integers out
/// of the 64-bit range) is `Other`.
#[derive(Debug)]
pub enum Json {
    Int(i64),
    Text(String),
    Array(Vec<Json>),
    Other,
}

/// Whether `j` is an integer in `lo..=hi`.
pub open spec fn int_between(j: Json, lo: int, hi: int) -> bool {
    match j {
        Json::Int(n) => lo <= n <= hi,
        _ => false,
    }
}

/// The integer `j` holds (0 for anything else).
pub open spec fn int_of(j: Json) -> int {
    match j {
        Json::Int(n) => n as int,
        _ => 0,
    }
}

/// The items of an array (none for anything else).
pub open spec fn items_of(j: Json) -> Seq<Json> {
    match j {
        Json::Array(v) => v@,
        _ => Seq::empty(),
    }
}

/// Whether `j` is an array of `n` items.
pub open spec fn array_of_len(j: Json, n: int) -> bool {
    j is Array && items_of(j).len() == n
}

/// Whether a tape number decodes to `d`: `1..=27` to an instruction,
/// `-111..=-101` to a native callable, anything else in the 32-bit range to a
/// literal.
pub open spec fn number_decodes(n: i64, d: FrameData) -> bool {
    &&& i32::MIN <= n <= i32::MAX
    &&& match d {
        FrameData::Instruction(ins, args) => 1 <= n <= 27 && ins == instruction_of(n as int) && args@.len() == 0,
        FrameData::Callable(c, args) => -111 <= n <= -101 && c == Callable::Native(native_of(n as i32))
            && args@.len() == 0,
        FrameData::Primitive(v) => !(1 <= n <= 27) && !(-111 <= n <= -101) && v == n as i32,
        FrameData::Frame(_) => false,
    }
}

/// Whether a body element can be decoded: a 32-bit integer, or an array of
/// such elements.
pub open spec fn item_ok(j: Json) -> bool
    decreases j,
{
    match j {
        Json::Int(n) => i32::MIN <= n <= i32::MAX,
        Json::Array(items) => forall|i: int| 0 <= i < items@.len() ==> item_ok(#[trigger] items@[i]),
        _ => false,
    }
}

/// Whether a body element decodes to `d`; an array becomes a child frame
/// with id 0, an empty name and its program counter at 0.
pub open spec fn item_decodes(j: Json, d: FrameData) -> bool
    decreases j,
{
    match j {
        Json::Int(n) => number_decodes(n, d),
        Json::Array(items) => match d {
            FrameData::Frame(f) => f.id == 0 && f.name@.len() == 0 && f.pc == 0
                && f.data@.len() == items@.len()
                && forall|i: int| 0 <= i < items@.len() ==> item_decodes(#[trigger] items@[i], f.data@[i]),
            _ => false,
        },
        _ => false,
    }
}

/// Whether a function entry `[id, name, args, locals, body]` can be decoded.
pub open spec fn function_ok(j: Json) -> bool {
    let fs = items_of(j);
    &&& array_of_len(j, 5)
    &&& int_between(fs[0], 0, u32::MAX as int)
    &&& fs[1] is Text
    &&& int_between(fs[2], 0, u32::MAX as int)
    &&& int_between(fs[3], 0, u32::MAX as int)
    &&& fs[4] is Array
    &&& forall|i: int| 0 <= i < items_of(fs[4]).len() ==> item_ok(#[trigger] items_of(fs[4])[i])
}

/// Whether a function entry decodes to `f`: its body frame shares the id and
/// is named after the function with `-frame` appended.
pub open spec fn function_decodes(j: Json, f: Function) -> bool {
    let fs = items_of(j);
    let body = items_of(fs[4]);
    &&& f.id == int_of(fs[0])
    &&& f.name@ == fs[1]->Text_0@
    &&& f.args == int_of(fs[2])
    &&& f.locals == int_of(fs[3])
    &&& f.frame.id == int_of(fs[0])
    &&& f.frame.name@ == fs[1]->Text_0@ + "-frame"@
    &&& f.frame.pc == 0
    &&& f.frame.data@.len() == body.len()
    &&& forall|i: int| 0 <= i < body.len() ==> item_decodes(#[trigger] body[i], f.frame.data@[i])
}

/// Whether a heap entry `[addr, value]` can be decoded.
pub open spec fn cell_ok(j: Json) -> bool {
    &&& array_of_len(j, 2)
    &&& int_between(items_of(j)[0], 0, u32::MAX as int)
    &&& int_between(items_of(j)[1], i32::MIN as int, i32::MAX as int)
}

/// Whether a whole tape can be decoded.
pub open spec fn tape_ok(j: Json) -> bool {
    let top = items_of(j);
    &&& j is Array
    &&& top.len() >= 2
    &&& array_of_len(top[0], 2)
    &&& int_between(items_of(top[0])[0], 0, u32::MAX as int)
    &&& int_between(items_of(top[0])[1], 0, u32::MAX as int)
    &&& top[1] is Array
    &&& forall|i: int| 0 <= i < items_of(top[1]).len() ==> cell_ok(#[trigger] items_of(top[1])[i])
    &&& forall|k: int| 2 <= k < top.len() ==> function_ok(#[trigger] top[k])
}

/// Whether a tape decodes to `p`.
pub open spec fn tape_decodes(j: Json, p: Program) -> bool {
    let top = items_of(j);
    let cells = items_of(top[1]);
    &&& p.entry_point == int_of(items_of(top[0])[0])
    &&& p.heap_size == int_of(items_of(top[0])[1])
    &&& p.heap@.len() == cells.len()
    &&& forall|i: int| 0 <= i < cells.len() ==> (#[trigger] p.heap@[i]) == (
        int_of(items_of(cells[i])[0]) as usize,
        int_of(items_of(cells[i])[1]) as i32,
    )
    &&& p.functions@.len() == top.len() - 2
    &&& forall|k: int| 0 <= k < p.functions@.len() ==> function_decodes(top[k + 2], #[trigger] p.functions@[k])
}

/// The integer `j` holds if it is one in `lo..=hi`.
fn int_in(j: &Json, lo: i64, hi: i64) -> (r: Option<i64>)
    ensures
        match r {
            Some(n) => int_between(*j, lo as int, hi as int) && n == int_of(*j),
            None => !int_between(*j, lo as int, hi as int),
        },
{
    match j {
        Json::Int(n) => if lo <= *n && *n <= hi {
            Some(*n)
        } else {
            None
        },
        _ => None,
    }
}

/// The items of `j` if it is an array.
fn array_items(j: &Json) -> (r: Option<&Vec<Json>>)
    ensures
        match r {
            Some(v) => j is Array && v@ == items_of(*j),
            None => !(j is Array),
        },
{
    match j {
        Json::Array(v) => Some(v),
        _ => None,
    }
}

/// The body element a tape number stands for.
pub fn decode_number(n: i32) -> (r: FrameData)
    ensures
        number_decodes(n as i64, r),
{
    if let Ok(ins) = Instruction::from_op(n) {
        FrameData::Instruction(ins, Vec::new())
    } else if -111 <= n && n <= -101 {
        FrameData::Callable(Callable::Native(NativeFunction::get_native(n)), Vec::new())
    } else {
        FrameData::Primitive(n)
    }
}

/// Decodes the elements of a body.
fn decode_items(items: &Vec<Json>) -> (r: Result<Vec<FrameData>, TvmError>)
    ensures
        match r {
            Ok(d) => (forall|i: int| 0 <= i < items@.len() ==> item_ok(#[trigger] items@[i]))
                && d@.len() == items@.len()
                && forall|i: int| 0 <= i < items@.len() ==> item_decodes(#[trigger] items@[i], d@[i]),
            Err(e) => e == TvmError::MalformedTape && !(forall|i: int| 0 <= i < items@.len() ==> item_ok(#[trigger] items@[i])),
        },
    decreases items, 0nat,
{
    let mut d: Vec<FrameData> = Vec::new();
    let mut i: usize = 0;
    while i < items.len()
        invariant
            i <= items@.len(),
            d@.len() == i,
            forall|k: int| 0 <= k < i ==> item_ok(#[trigger] items@[k]),
            forall|k: int| 0 <= k < i ==> item_decodes(#[trigger] items@[k], d@[k]),
        decreases items@.len() - i,
    {
        proof {
            assert(decreases_to!(items => items[i as int]));
        }
        match decode_item(&items[i]) {
            Ok(x) => d.push(x),
            Err(e) => return Err(e),
        }
        i += 1;
    }
    Ok(d)
}

/// Decodes one body element: a number per `number_decodes`, an array as a
/// child frame. Anything else, or a number outside the 32-bit range, gives
/// `MalformedTape`.
pub fn decode_item(j: &Json) -> (r: Result<FrameData, TvmError>)
    ensures
        match r {
            Ok(d) => item_ok(*j) && item_decodes(*j, d),
            Err(e) => e == TvmError::MalformedTape && !item_ok(*j),
        },
    decreases j, 1nat,
{
    match j {
        Json::Int(n) => if i32::MIN as i64 <= *n && *n <= i32::MAX as i64 {
            Ok(decode_number(*n as i32))
        } else {
            Err(TvmError::MalformedTape)
        },
        Json::Array(items) => match decode_items(items) {
            Ok(data) => Ok(FrameData::Frame(Frame { id: 0, name: String::new(), data, pc: 0 })),
            Err(e) => Err(e),
        },
        _ => Err(TvmError::MalformedTape),
    }
}

/// Decodes a function entry `[id, name, args, locals, body]`.
pub fn decode_function(j: &Json) -> (r: Result<Function, TvmError>)
    ensures
        match r {
            Ok(f) => function_ok(*j) && function_decodes(*j, f),
            Err(e) => e == TvmError::MalformedTape && !function_ok(*j),
        },
{
    let fs = match array_items(j) {
        Some(fs) => fs,
        None => return Err(TvmError::MalformedTape),
    };
    if fs.len() != 5 {
        return Err(TvmError::MalformedTape);
    }
    let id = match int_in(&fs[0], 0, u32::MAX as i64) {
        Some(n) => n as usize,
        None => return Err(TvmError::MalformedTape),
    };
    let name = match &fs[1] {
        Json::Text(s) => s.clone(),
        _ => return Err(TvmError::MalformedTape),
    };
    let args = match int_in(&fs[2], 0, u32::MAX as i64) {
        Some(n) => n as usize,
        None => return Err(TvmError::MalformedTape),
    };
    let locals = match int_in(&fs[3], 0, u32::MAX as i64) {
        Some(n) => n as usize,
        None => return Err(TvmError::MalformedTape),
    };
    let body = match array_items(&fs[4]) {
        Some(b) => b,
        None => return Err(TvmError::MalformedTape),
    };
    let data = match decode_items(body) {
        Ok(d) => d,
        Err(e) => return Err(e),
    };
    let mut frame_name = name.clone();
    frame_name.append("-frame");
    Ok(Function { id, name, args, locals, frame: Frame { id, name: frame_name, data, pc: 0 } })
}

impl Program {
    /// Decodes a program from its tape. A tape of another shape, or with a
    /// number that does not fit its place, gives `MalformedTape`.
    pub fn from_json(j: &Json) -> (r: Result<Program, TvmError>)
        ensures
            match r {
                Ok(p) => tape_ok(*j) && tape_decodes(*j, p),
                Err(e) => e == TvmError::MalformedTape && !tape_ok(*j),
            },
    {
        let top = match array_items(j) {
            Some(t) => t,
            None => return Err(TvmError::MalformedTape),
        };
        if top.len() < 2 {
            return Err(TvmError::MalformedTape);
        }
        let hdr = match array_items(&top[0]) {
            Some(h) => h,
            None => return Err(TvmError::MalformedTape),
        };
        if hdr.len() != 2 {
            return Err(TvmError::MalformedTape);
        }
        let entry = match int_in(&hdr[0], 0, u32::MAX as i64) {
            Some(n) => n as usize,
            None => return Err(TvmError::MalformedTape),
        };
        let heap_size = match int_in(&hdr[1], 0, u32::MAX as i64) {
            Some(n) => n as usize,
            None => return Err(TvmError::MalformedTape),
        };
        let cells = match array_items(&top[1]) {
            Some(c) => c,
            None => return Err(TvmError::MalformedTape),
        };
        let mut heap: Vec<(usize, i32)> = Vec::new();
        let mut i: usize = 0;
        while i < cells.len()
            invariant
                i <= cells@.len(),
                heap@.len() == i,
                j is Array,
                top@ == items_of(*j),
                top@.len() >= 2,
                array_of_len(top@[0], 2),
                hdr@ == items_of(top@[0]),
                int_between(items_of(top@[0])[0], 0, u32::MAX as int),
                int_between(items_of(top@[0])[1], 0, u32::MAX as int),
                entry == int_of(items_of(top@[0])[0]),
                heap_size == int_of(items_of(top@[0])[1]),
                top@[1] is Array,
                cells@ == items_of(top@[1]),
                forall|k: int| 0 <= k < i ==> cell_ok(#[trigger] cells@[k]),
                forall|k: int| 0 <= k < i ==> (#[trigger] heap@[k]) == (
                    int_of(items_of(cells@[k])[0]) as usize,
                    int_of(items_of(cells@[k])[1]) as i32,
                ),
            decreases cells@.len() - i,
        {
            assert(!cell_ok(cells@[i as int]) ==> !tape_ok(*j));
            let pair = match array_items(&cells[i]) {
                Some(p) => p,
                None => return Err(TvmError::MalformedTape),
            };
            if pair.len() != 2 {
                return Err(TvmError::MalformedTape);
            }
            let addr = match int_in(&pair[0], 0, u32::MAX as i64) {
                Some(n) => n as usize,
                None => return Err(TvmError::MalformedTape),
            };
            let value = match int_in(&pair[1], i32::MIN as i64, i32::MAX as i64) {
                Some(n) => n as i32,
                None => return Err(TvmError::MalformedTape),
            };
            heap.push((addr, value));
            i += 1;
        }
        let mut functions: Vec<Function> = Vec::new();
        let mut k: usize = 2;
        while k < top.len()
            invariant
                2 <= k <= top@.len(),
                functions@.len() == k - 2,
                heap@.len() == cells@.len(),
                forall|q: int| 0 <= q < cells@.len() ==> cell_ok(#[trigger] cells@[q]),
                forall|q: int| 0 <= q < cells@.len() ==> (#[trigger] heap@[q]) == (
                    int_of(items_of(cells@[q])[0]) as usize,
                    int_of(items_of(cells@[q])[1]) as i32,
                ),
                j is Array,
                top@ == items_of(*j),
                top@.len() >= 2,
                array_of_len(top@[0], 2),
                hdr@ == items_of(top@[0]),
                int_between(items_of(top@[0])[0], 0, u32::MAX as int),
                int_between(items_of(top@[0])[1], 0, u32::MAX as int),
                entry == int_of(items_of(top@[0])[0]),
                heap_size == int_of(items_of(top@[0])[1]),
                top@[1] is Array,
                cells@ == items_of(top@[1]),
                forall|q: int| 2 <= q < k ==> function_ok(#[trigger] top@[q]),
                forall|q: int| 0 <= q < k - 2 ==> function_decodes(top@[q + 2], #[trigger] functions@[q]),
            decreases top@.len() - k,
        {
            assert(!function_ok(top@[k as int]) ==> !tape_ok(*j));
            match decode_function(&top[k]) {
                Ok(f) => functions.push(f),
                Err(e) => return Err(e),
            }
            k += 1;
        }
        Ok(Program { entry_point: entry, heap_size, heap, functions })
    }
}

} // verus!
