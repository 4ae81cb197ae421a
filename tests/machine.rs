use tvm::callable::Callable;
use tvm::error::TvmError;
use tvm::frame::Frame;
use tvm::function::Function;
use tvm::instruction::Instruction;
use tvm::native::NativeFunction;
use tvm::program::Program;
use tvm::state::{CallState, StateResult, TvmState};
use tvm::tvm::Tvm;

fn get_test_program() -> Program {
    Program::builder()
        .entry_point(0)
        .heap(vec![
            (0, 'h' as i32),
            (1, 'e' as i32),
            (2, 'l' as i32),
            (3, 'l' as i32),
            (4, 'o' as i32),
            (5, 0),
        ])
        .function(Function::builder().id(0).name("init".to_string()).build())
        .build()
}

#[test]
fn test_get_stack() {
    let mut tvm = Tvm::default();
    tvm.push(1).unwrap();
    tvm.push(2).unwrap();
    tvm.push(3).unwrap();
    assert_eq!(tvm.get_stack(), &[3, 2, 1]);
}

#[test]
fn test_get_stack_size() {
    let mut tvm = Tvm::default();
    tvm.push(1).unwrap();
    tvm.push(2).unwrap();
    tvm.push(3).unwrap();
    assert_eq!(tvm.get_stack_size(), 3);
}

#[test]
fn test_get_stack_pointer() {
    let mut tvm = Tvm::default();
    tvm.push(1).unwrap();
    tvm.push(2).unwrap();
    tvm.push(3).unwrap();
    // 65535 - 3 = 65532
    assert_eq!(tvm.get_stack_pointer(), 65532);
}

#[test]
fn stack_test_pop() {
    let mut tvm = Tvm::default();
    tvm.push(1).unwrap();
    tvm.push(2).unwrap();
    tvm.push(3).unwrap();
    assert_eq!(tvm.pop(), Ok(3));
    assert_eq!(tvm.pop(), Ok(2));
    assert_eq!(tvm.pop(), Ok(1));
}

#[test]
fn stack_test_push() {
    let mut tvm = Tvm::default();
    tvm.push(1).unwrap();
    tvm.push(2).unwrap();
    tvm.push(3).unwrap();
    assert_eq!(tvm.get_stack(), &[3, 2, 1]);
}

#[test]
fn test_peek() {
    let mut tvm = Tvm::default();
    tvm.push(1).unwrap();
    tvm.push(2).unwrap();
    tvm.push(3).unwrap();
    let sp = tvm.get_stack_pointer();
    assert_eq!(tvm.peek(), 3, "peek() should return the top of the stack");
    assert_eq!(tvm.peek(), tvm.peek(), "peek() should be equal to itself");
    assert_eq!(tvm.get_stack_pointer(), sp, "stack pointer should not change");
}

#[test]
fn push_then_pop_gives_the_value_back() {
    for v in [0, 1, -1, i32::MAX, i32::MIN, 123456] {
        let mut tvm = Tvm::default();
        tvm.push(5).unwrap();
        let sp = tvm.stack_pointer;
        tvm.push(v).unwrap();
        assert_eq!(tvm.pop(), Ok(v));
        assert_eq!(tvm.stack_pointer, sp);
        assert_eq!(tvm.get_stack(), &[5]);
    }
}

#[test]
fn pop_of_empty_stack_underflows() {
    let mut tvm = Tvm::default();
    assert_eq!(tvm.pop(), Err(TvmError::StackUnderflow));
    assert_eq!(tvm.stack_pointer, 65535);
}

#[test]
fn push_into_the_heap_overflows() {
    let mut tvm = Tvm::default();
    tvm.load(Program::new(0, 65535, vec![], vec![])).unwrap();
    assert_eq!(tvm.push(1), Ok(()));
    assert_eq!(tvm.push(2), Err(TvmError::StackOverflow));
    assert_eq!(tvm.get_stack(), &[1]);
}

#[test]
fn test_get_heap() {
    let mut tvm = Tvm::default();
    tvm.allocate(3).unwrap();
    assert_eq!(tvm.get_heap(), &[0, 0, 0]);
}

#[test]
fn test_get_heap_size() {
    let mut tvm = Tvm::default();
    tvm.allocate(3).unwrap();
    assert_eq!(tvm.get_heap_size(), 3);
}

#[test]
fn test_allocate() {
    let mut tvm = Tvm::default();
    let address = tvm.allocate(3).unwrap();
    assert_eq!(address, 0);
    assert_eq!(tvm.get_heap(), &[0, 0, 0]);
}

#[test]
fn test_deallocate() {
    let mut tvm = Tvm::default();
    let address = tvm.allocate(3).unwrap();
    assert_eq!(address, 0);
    assert_eq!(tvm.get_heap(), &[0, 0, 0]);
    tvm.deallocate(address);
    assert_eq!(tvm.get_heap(), &[] as &[i32]);
}

#[test]
fn allocations_hand_out_increasing_addresses() {
    let mut tvm = Tvm::default();
    assert_eq!(tvm.allocate(3), Ok(0));
    assert_eq!(tvm.allocate(5), Ok(3));
    assert_eq!(tvm.allocate(1), Ok(8));
    assert_eq!(tvm.get_heap_size(), 9);
    assert_eq!(tvm.alloc_cells(4), Ok(9));
    assert_eq!(tvm.get_heap_size(), 13);
}

#[test]
fn allocation_into_the_stack_overflows() {
    let mut tvm = Tvm::default();
    tvm.push(1).unwrap();
    assert_eq!(tvm.allocate(65536), Err(TvmError::HeapOverflow));
    assert_eq!(tvm.allocate(65535), Ok(0));
    assert_eq!(tvm.alloc_cells(1), Err(TvmError::HeapOverflow));
    assert_eq!(tvm.alloc_cells(-1), Err(TvmError::HeapOverflow));
    assert_eq!(tvm.get_heap_size(), 65535);
}

#[test]
fn test_default() {
    let tvm = Tvm::default();
    assert_eq!(tvm.memory.len(), 65536);
    assert_eq!(tvm.stack_pointer, 65535);
    assert_eq!(tvm.frame_pointer, 65535);
    assert_eq!(tvm.heap_size, 0);
    assert!(matches!(tvm.get_state(), TvmState::Waiting(_)));
    assert_eq!(tvm.ticks, 0);
    assert_eq!(tvm.get_states().len(), 1);
}

#[test]
fn test_load() {
    let mut tvm = Tvm::default();
    let program = get_test_program();
    tvm.load(program).unwrap();
    assert_eq!(tvm.heap_size, 6);
    assert_eq!(tvm.memory[0], 'h' as i32);
    assert_eq!(tvm.memory[1], 'e' as i32);
    assert_eq!(tvm.memory[2], 'l' as i32);
    assert_eq!(tvm.memory[3], 'l' as i32);
    assert_eq!(tvm.memory[4], 'o' as i32);
    assert_eq!(tvm.memory[5], 0);
}

#[test]
fn load_refuses_a_heap_outside_memory() {
    let mut tvm = Tvm::default();
    assert_eq!(tvm.load(Program::new(0, 1, vec![(65536, 1)], vec![])), Err(TvmError::MalformedTape));
    assert_eq!(tvm.load(Program::new(0, 65537, vec![], vec![])), Err(TvmError::MalformedTape));
    assert_eq!(tvm.heap_size, 0);
}

#[test]
fn test_start() {
    let mut tvm = Tvm::default();
    let program = get_test_program();
    tvm.load(program).unwrap();
    tvm.start();
    let state = tvm.get_state();
    assert!(matches!(state, TvmState::Call(_)));
    assert!(
        matches!(state, TvmState::Call(CallState { callable: Callable::Function(function) }) if tvm.get_function(function).id == 0 && tvm.get_function(function).name == "init")
    );
}

#[test]
fn test_a2s() {
    let mut tvm = Tvm::default();
    let program = get_test_program();
    tvm.load(program).unwrap();
    assert_eq!(tvm.a2s(0), "hello");
}

#[test]
fn test_write_string() {
    let mut tvm = Tvm::default();
    let program = get_test_program();
    tvm.load(program).unwrap();
    assert_eq!(tvm.a2s(0), "hello");
    tvm.write_string(0, "world".to_string()).unwrap();
    assert_eq!(tvm.a2s(0), "world");
}

#[test]
fn write_string_past_the_end_is_refused() {
    let mut tvm = Tvm::default();
    assert_eq!(tvm.write_string(65533, "abc".to_string()), Err(TvmError::InvalidAddress));
    assert_eq!(tvm.write_string(65532, "abc".to_string()), Ok(()));
    assert_eq!(tvm.a2s(65532), "abc");
}

#[test]
fn test_get_active_memory() {
    let mut tvm = Tvm::default();
    let program = get_test_program();
    tvm.load(program).unwrap();
    assert_eq!(
        tvm.get_active_memory(),
        vec![
            (0, 'h' as i32),
            (1, 'e' as i32),
            (2, 'l' as i32),
            (3, 'l' as i32),
            (4, 'o' as i32),
            (5, 0),
            (65535, 0)
        ]
    );
}

#[test]
fn test_get_function() {
    let mut tvm = Tvm::default();
    let program = get_test_program();
    tvm.load(program).unwrap();
    let function = tvm.get_function(0);
    assert_eq!(function.id, 0);
    assert_eq!(function.name, "init");
}

#[test]
fn test_get_active_memory_string() {
    let mut tvm = Tvm::default();
    let program = get_test_program();
    tvm.load(program).unwrap();
    assert_eq!(
        tvm.get_active_memory_string(),
        "0: 104\n1: 101\n2: 108\n3: 108\n4: 111\n5: 0\n65535: 0\n"
    );
}

#[test]
fn test_tick_count() {
    let mut tvm = Tvm::default();
    tvm.tick();
    tvm.tick();
    tvm.tick();
    tvm.tick();
    tvm.tick();
    tvm.tick();
    tvm.tick();
    tvm.tick();
    tvm.tick();
    tvm.tick();
    tvm.tick();
    tvm.tick();

    assert_eq!(tvm.ticks, 12);
    assert!(matches!(tvm.get_state(), TvmState::Waiting(_)));
}

#[test]
fn state_names_and_results() {
    let tvm = Tvm::default();
    assert_eq!(tvm.get_state().get_name(), "WaitingState");
    assert_ne!(StateResult::Break, StateResult::Return);
}

#[test]
fn natives_print_and_convert() {
    let mut tvm = Tvm::default();
    tvm.push(-42).unwrap();
    assert_eq!(tvm.call_native(NativeFunction::IPrint, 0), Ok(()));
    assert_eq!(tvm.stdout, "-42");
    assert_eq!(tvm.get_stack(), &[0]);
    tvm.pop().unwrap();
    assert_eq!(tvm.call_native(NativeFunction::NL, 0), Ok(()));
    assert_eq!(tvm.stdout, "-42\n");
    tvm.pop().unwrap();
    tvm.push(100).unwrap();
    tvm.push(-123).unwrap();
    assert_eq!(tvm.call_native(NativeFunction::I2S, 0), Ok(()));
    assert_eq!(tvm.a2s(100), "-123");
    assert_eq!(tvm.memory[104], 0);
    tvm.pop().unwrap();
    tvm.push(100).unwrap();
    assert_eq!(tvm.call_native(NativeFunction::SPrint, 0), Ok(()));
    assert_eq!(tvm.stdout, "-42\n-123");
}

#[test]
fn native_alloc_free_and_timers() {
    let mut tvm = Tvm::default();
    tvm.load(Program::new(0, 4, vec![], vec![])).unwrap();
    tvm.push(10).unwrap();
    assert_eq!(tvm.call_native(NativeFunction::Alloc, 0), Ok(()));
    assert_eq!(tvm.get_stack(), &[4]);
    assert_eq!(tvm.heap_size, 14);
    assert_eq!(tvm.call_native(NativeFunction::Free, 0), Ok(()));
    assert_eq!(tvm.get_stack(), &[0]);
    tvm.push(5).unwrap();
    assert_eq!(tvm.call_native(NativeFunction::Timer, 0), Ok(()));
    assert_eq!(tvm.get_stack(), &[0]);
    tvm.push(5).unwrap();
    assert_eq!(tvm.call_native(NativeFunction::StopTimer, 0), Ok(()));
    assert_eq!(tvm.get_stack(), &[0]);
    assert_eq!(tvm.call_native(NativeFunction::Unknown(-1), 0), Err(TvmError::InvalidCallable));
}

#[test]
fn native_reads_take_handed_in_lines() {
    let mut tvm = Tvm::default();
    tvm.provide_input(" 12 ".to_string());
    tvm.provide_input("abc".to_string());
    tvm.provide_input("hi there".to_string());
    tvm.push(-1).unwrap();
    assert_eq!(tvm.call_native(NativeFunction::IRead, 0), Ok(()));
    assert_eq!(tvm.get_stack(), &[12]);
    tvm.pop().unwrap();
    tvm.push(-1).unwrap();
    assert_eq!(tvm.call_native(NativeFunction::IRead, 0), Err(TvmError::NativeIOError));
    let mut tvm2 = Tvm::default();
    tvm2.provide_input("hi there".to_string());
    tvm2.push(-1).unwrap();
    tvm2.push(50).unwrap();
    assert_eq!(tvm2.call_native(NativeFunction::SRead, 0), Ok(()));
    assert_eq!(tvm2.a2s(50), "hi there");
    assert_eq!(tvm2.get_stack(), &[0]);
}

#[test]
fn native_random_needs_a_positive_bound() {
    let mut tvm = Tvm::default();
    tvm.push(0).unwrap();
    assert_eq!(tvm.call_native(NativeFunction::Random, 0), Err(TvmError::NativeIOError));
    let mut tvm = Tvm::default();
    tvm.push(5).unwrap();
    assert_eq!(tvm.call_native(NativeFunction::Random, 3), Ok(()));
    assert_eq!(tvm.get_stack(), &[3]);
}

#[test]
fn native_alloc_at_the_stack_edge() {
    let mut tvm = Tvm::default();
    tvm.push(65536).unwrap();
    assert_eq!(tvm.call_native(NativeFunction::Alloc, 0), Err(TvmError::HeapOverflow));
    assert_eq!(tvm.heap_size, 0);
    let mut tvm = Tvm::default();
    tvm.push(65535).unwrap();
    assert_eq!(tvm.call_native(NativeFunction::Alloc, 0), Ok(()));
    assert_eq!(tvm.heap_size, 65535);
    assert_eq!(tvm.get_stack(), &[0]);
    let mut tvm = Tvm::default();
    tvm.load(Program::new(0, 100, vec![], vec![])).unwrap();
    tvm.push(1).unwrap();
    tvm.push(65436).unwrap();
    assert_eq!(tvm.call_native(NativeFunction::Alloc, 0), Err(TvmError::HeapOverflow));
    assert_eq!(tvm.heap_size, 100);
    assert_eq!(tvm.get_stack(), &[1]);
    tvm.push(65435).unwrap();
    assert_eq!(tvm.call_native(NativeFunction::Alloc, 0), Err(TvmError::HeapOverflow));
    assert_eq!(tvm.heap_size, 100);
    tvm.push(65434).unwrap();
    assert_eq!(tvm.call_native(NativeFunction::Alloc, 0), Ok(()));
    assert_eq!(tvm.heap_size, 65534);
    assert_eq!(tvm.get_stack(), &[100, 1]);
}

#[test]
fn native_iread_parses_like_i32() {
    let cases: [(&str, Option<i32>); 7] = [
        ("+7", Some(7)),
        ("-2147483648", Some(i32::MIN)),
        ("2147483647", Some(i32::MAX)),
        ("2147483648", None),
        ("", None),
        ("-", None),
        ("1a", None),
    ];
    for (text, expected) in cases {
        let mut tvm = Tvm::default();
        tvm.provide_input(text.to_string());
        tvm.push(-1).unwrap();
        let r = tvm.call_native(NativeFunction::IRead, 0);
        match expected {
            Some(v) => {
                assert_eq!(r, Ok(()));
                assert_eq!(tvm.get_stack(), &[v]);
            }
            None => assert_eq!(r, Err(TvmError::NativeIOError)),
        }
    }
}
