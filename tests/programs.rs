use tvm::callable::Callable;
use tvm::error::TvmError;
use tvm::frame::{Frame, FrameBuilder};
use tvm::function::Function;
use tvm::instruction::Instruction;
use tvm::native::NativeFunction;
use tvm::program::Program;
use tvm::state::{CallState, TvmState};
use tvm::tape::Json;
use tvm::tvm::Tvm;

fn ins(b: FrameBuilder, i: Instruction) -> FrameBuilder {
    b.instruction(i, vec![])
}

fn push(b: FrameBuilder, v: i32) -> FrameBuilder {
    ins(b, Instruction::Push).primitive(v)
}

fn call(b: FrameBuilder, id: i32) -> FrameBuilder {
    ins(b, Instruction::Call).primitive(id)
}

fn get_test_program() -> Program {
    Program::builder()
        .entry_point(0)
        .function(
            Function::builder()
                .id(0)
                .name("init".to_string())
                .locals(1)
                .frame(
                    Frame::builder()
                        .id(0)
                        .name("init".to_string())
                        .instruction(Instruction::Push, vec![])
                        .primitive(1)
                        .instruction(Instruction::FPPlus, vec![])
                        .instruction(Instruction::Push, vec![])
                        .primitive(1)
                        .instruction(Instruction::Store, vec![])
                        .instruction(Instruction::Loop, vec![])
                        .frame(
                            Frame::builder()
                                .id(1)
                                .instruction(Instruction::Push, vec![])
                                .primitive(1)
                                .instruction(Instruction::FPPlus, vec![])
                                .instruction(Instruction::Fetch, vec![])
                                .instruction(Instruction::Call, vec![])
                                .primitive(-101)
                                .instruction(Instruction::Pop, vec![])
                                .instruction(Instruction::Push, vec![])
                                .primitive(1)
                                .instruction(Instruction::FPPlus, vec![])
                                .instruction(Instruction::Fetch, vec![])
                                .instruction(Instruction::Push, vec![])
                                .primitive(10)
                                .instruction(Instruction::Geq, vec![])
                                .instruction(Instruction::Break, vec![])
                                .instruction(Instruction::Push, vec![])
                                .primitive(1)
                                .instruction(Instruction::FPPlus, vec![])
                                .instruction(Instruction::Push, vec![])
                                .primitive(1)
                                .instruction(Instruction::FPPlus, vec![])
                                .instruction(Instruction::Fetch, vec![])
                                .instruction(Instruction::Push, vec![])
                                .primitive(1)
                                .instruction(Instruction::Add, vec![])
                                .instruction(Instruction::Store, vec![])
                                .build(),
                        )
                        .instruction(Instruction::Push, vec![])
                        .primitive(0)
                        .build(),
                )
                .build(),
        )
        .build()
}

fn run(tvm: &mut Tvm, limit: usize) {
    while !tvm.is_halted() {
        tvm.tick();
        if tvm.ticks > limit {
            panic!("Tvm is stuck in an infinite loop");
        }
    }
}

fn single_function(locals: usize, body: FrameBuilder) -> Program {
    Program::builder()
        .entry_point(0)
        .function(Function::builder().id(0).name("main".to_string()).locals(locals).frame(body.build()).build())
        .build()
}

fn started(p: Program) -> Tvm {
    let mut tvm = Tvm::default();
    tvm.load(p).unwrap();
    tvm.start();
    tvm
}

#[test]
fn test_loops() {
    let mut tvm = Tvm::default();
    tvm.load(get_test_program()).unwrap();
    tvm.start();
    run(&mut tvm, 500);
    assert!(tvm.is_halted());
    assert!(matches!(tvm.get_state(), TvmState::Halt(_)));
    assert_eq!(tvm.stdout, "12345678910");
    assert_eq!(tvm.get_error(), None);
    assert_eq!(tvm.get_stack(), &[0]);
    assert_eq!(tvm.frame_pointer, 65535);
}

#[test]
fn test_do_frame_eval() {
    let mut tvm = started(get_test_program());
    tvm.tick();
    assert!(matches!(tvm.get_state(), TvmState::FrameEval(f) if f.function == 0 && f.path.is_empty()));
    tvm.tick();
    assert!(matches!(tvm.get_state(), TvmState::Eval(e) if e.function == 0 && e.pc == 0));
    assert_eq!(tvm.get_states().len(), 2);
    assert_eq!(tvm.get_function(0).frame.name, "init");
}

#[test]
fn arithmetic_program_prints_seven() {
    let body = call(ins(push(push(Frame::builder(), 3), 4), Instruction::Add), -101);
    let mut tvm = started(single_function(0, body));
    run(&mut tvm, 100);
    assert_eq!(tvm.stdout, "7");
    assert_eq!(tvm.get_error(), None);
}

fn square_program() -> Program {
    let square = ins(
        ins(
            ins(ins(ins(push(ins(ins(push(Frame::builder(), 1), Instruction::FPPlus), Instruction::Fetch), 1), Instruction::FPPlus), Instruction::Fetch), Instruction::Mul),
            Instruction::Return,
        ),
        Instruction::Pop,
    );
    let main = call(call(push(Frame::builder(), 5), 1), -101);
    Program::builder()
        .entry_point(0)
        .function(Function::builder().id(0).name("main".to_string()).frame(main.build()).build())
        .function(Function::builder().id(1).name("sq".to_string()).args(1).frame(square.build()).build())
        .build()
}

#[test]
fn nested_call_returns_the_square() {
    let mut tvm = started(square_program());
    let mut seen_call = false;
    while !tvm.is_halted() {
        let before = tvm.stack_pointer;
        let calling_sq = matches!(tvm.get_state(), TvmState::Call(CallState { callable: Callable::Function(1) }));
        tvm.tick();
        if calling_sq {
            seen_call = true;
            assert_eq!(tvm.stack_pointer, before - 1);
        }
        assert!(tvm.ticks < 200);
    }
    assert!(seen_call);
    assert_eq!(tvm.stdout, "25");
    assert_eq!(tvm.get_error(), None);
    assert_eq!(tvm.get_stack(), &[0]);
}

#[test]
fn test_get_return_state() {
    let mut tvm = started(square_program());
    let mut returned = false;
    while !tvm.is_halted() && !returned {
        let in_sq = tvm.get_states().len() >= 3
            && matches!(tvm.get_state(), TvmState::Eval(e) if e.function == 1 && e.pc == 9);
        tvm.tick();
        if in_sq {
            returned = true;
            assert!(matches!(tvm.get_state(), TvmState::Eval(e) if e.function == 0 && e.pc == 4));
            assert_eq!(tvm.get_stack(), &[25, 65535]);
        }
    }
    assert!(returned);
}

#[test]
fn string_round_trip_prints_42() {
    let mut b = Frame::builder();
    b = ins(push(b, 1), Instruction::FPPlus);
    b = call(push(b, 16), -109);
    b = ins(b, Instruction::Store);
    b = ins(ins(push(b, 1), Instruction::FPPlus), Instruction::Fetch);
    b = call(push(b, 42), -111);
    b = ins(b, Instruction::Pop);
    b = ins(ins(push(b, 1), Instruction::FPPlus), Instruction::Fetch);
    b = call(b, -102);
    let mut tvm = started(single_function(1, b));
    run(&mut tvm, 200);
    assert_eq!(tvm.get_error(), None);
    assert_eq!(tvm.stdout, "42");
    assert_eq!(tvm.heap_size, 16);
}

#[test]
fn early_return_inside_loop() {
    let counter = |b: FrameBuilder| ins(push(b, 1), Instruction::FPPlus);
    let mut body = counter(Frame::builder());
    body = ins(counter(body), Instruction::Fetch);
    body = ins(push(body, 1), Instruction::Add);
    body = ins(body, Instruction::Store);
    body = ins(counter(body), Instruction::Fetch);
    body = ins(push(body, 3), Instruction::EQ);
    body = ins(body, Instruction::IF)
        .frame(ins(push(Frame::builder(), 1), Instruction::Return).build())
        .frame(Frame::builder().build());
    let mut g = counter(Frame::builder());
    g = ins(push(g, 0), Instruction::Store);
    g = ins(g, Instruction::Loop).frame(body.build());
    g = push(g, 99);
    let main = call(call(Frame::builder(), 1), -101);
    let p = Program::builder()
        .entry_point(0)
        .function(Function::builder().id(0).name("main".to_string()).frame(main.build()).build())
        .function(Function::builder().id(1).name("g".to_string()).locals(1).frame(g.build()).build())
        .build();
    let mut tvm = started(p);
    run(&mut tvm, 500);
    assert_eq!(tvm.get_error(), None);
    assert_eq!(tvm.stdout, "1");
}

#[test]
fn pause_and_resume_keep_the_run() {
    let mut reference = started(get_test_program());
    for _ in 0..5 {
        reference.tick();
    }
    let (sp5, fp5) = (reference.stack_pointer, reference.frame_pointer);
    run(&mut reference, 500);

    let mut tvm = started(get_test_program());
    for _ in 0..5 {
        tvm.tick();
    }
    tvm.pause();
    tvm.pause();
    assert!(tvm.is_paused());
    let (sp, fp) = (tvm.stack_pointer, tvm.frame_pointer);
    tvm.tick();
    assert_eq!(tvm.ticks, 5);
    assert_eq!((tvm.stack_pointer, tvm.frame_pointer), (sp, fp));
    tvm.resume();
    run(&mut tvm, 500);
    assert_eq!((sp, fp), (sp5, fp5));
    assert_eq!(tvm.stdout, reference.stdout);
    assert_eq!(tvm.ticks, reference.ticks);
}

#[test]
fn runs_from_reset_agree() {
    let mut tvm = started(get_test_program());
    run(&mut tvm, 500);
    let first = (tvm.memory.clone(), tvm.stdout.clone(), tvm.stack_pointer);
    tvm.reset();
    assert_eq!(tvm.stdout, "");
    tvm.start();
    run(&mut tvm, 500);
    assert_eq!(first, (tvm.memory.clone(), tvm.stdout.clone(), tvm.stack_pointer));
}

#[test]
fn loop_without_break_keeps_running() {
    let body = ins(push(Frame::builder(), 0), Instruction::Break);
    let main = ins(Frame::builder(), Instruction::Loop).frame(body.build());
    let mut tvm = started(single_function(0, main));
    for _ in 0..300 {
        tvm.tick();
    }
    assert!(!tvm.is_halted());
    assert_eq!(tvm.get_error(), None);
    assert!(tvm.get_states().iter().any(|s| matches!(s, TvmState::Loop(_))));
}

#[test]
fn division_by_zero_halts() {
    let body = ins(push(push(Frame::builder(), 1), 0), Instruction::Div);
    let mut tvm = started(single_function(0, body));
    run(&mut tvm, 100);
    assert_eq!(tvm.get_error(), Some(TvmError::DivisionByZero));
    let body = ins(push(push(Frame::builder(), 1), 0), Instruction::Mod);
    let mut tvm = started(single_function(0, body));
    run(&mut tvm, 100);
    assert_eq!(tvm.get_error(), Some(TvmError::DivisionByZero));
}

#[test]
fn break_outside_loop_halts() {
    let body = ins(push(Frame::builder(), 1), Instruction::Break);
    let mut tvm = started(single_function(0, body));
    run(&mut tvm, 100);
    assert_eq!(tvm.get_error(), Some(TvmError::UnbalancedControlFlow));
    assert!(tvm.is_halted());
}

#[test]
fn empty_entry_function_halts_after_its_epilogue() {
    let mut tvm = started(single_function(0, Frame::builder()));
    tvm.push(7).unwrap();
    tvm.tick();
    tvm.tick();
    tvm.tick();
    assert!(tvm.is_halted());
    assert_eq!(tvm.get_error(), None);
}

#[test]
fn invalid_entry_point_halts() {
    let p = Program::builder().entry_point(3).build();
    let mut tvm = started(p);
    tvm.tick();
    assert!(tvm.is_halted());
    assert_eq!(tvm.get_error(), Some(TvmError::InvalidCallable));
}

#[test]
fn random_draw_is_below_the_bound() {
    for _ in 0..20 {
        let body = call(push(Frame::builder(), 5), -106);
        let mut tvm = started(single_function(0, body));
        run(&mut tvm, 100);
        assert_eq!(tvm.get_error(), None);
        let v = tvm.get_stack()[0];
        assert!((0..5).contains(&v));
    }
}

#[test]
fn tick_with_pushes_the_given_draw() {
    let body = call(push(Frame::builder(), 1000), -106);
    let mut tvm = started(single_function(0, body));
    for _ in 0..4 {
        tvm.tick_with(0);
    }
    assert!(matches!(tvm.get_state(), TvmState::Call(CallState { callable: Callable::Native(NativeFunction::Random) })));
    tvm.tick_with(617);
    assert_eq!(tvm.peek(), 617);
}

#[test]
fn sread_prompt_comes_from_memory() {
    let body = call(push(push(Frame::builder(), 0), 10), -104);
    let p = Program::builder()
        .entry_point(0)
        .heap(vec![(0, 'n' as i32), (1, 'a' as i32), (2, 'm' as i32), (3, 'e' as i32), (4, 0)])
        .function(Function::builder().id(0).name("main".to_string()).frame(body.build()).build())
        .build();
    let mut tvm = started(p);
    assert_eq!(tvm.input_request(), None);
    for _ in 0..6 {
        tvm.tick();
    }
    assert!(tvm.awaits_input());
    assert_eq!(tvm.input_request(), Some("name".to_string()));
    tvm.provide_input("bob".to_string());
    run(&mut tvm, 100);
    assert_eq!(tvm.a2s(10), "bob");
}

#[test]
fn iread_waits_for_input() {
    let body = call(call(push(Frame::builder(), -1), -103), -101);
    let mut tvm = started(single_function(0, body));
    for _ in 0..6 {
        tvm.tick();
    }
    assert!(tvm.awaits_input());
    let t = tvm.ticks;
    tvm.tick();
    assert_eq!(tvm.ticks, t);
    assert_eq!(tvm.input_request(), Some("Integer input: ".to_string()));
    tvm.provide_input("  31\n".to_string());
    run(&mut tvm, 100);
    assert_eq!(tvm.stdout, "31");
}

#[test]
fn stack_overflow_in_prologue_halts() {
    let p = Program::builder()
        .entry_point(0)
        .heap(vec![(0, 0); 4])
        .function(Function::builder().id(0).name("big".to_string()).locals(70000).build())
        .build();
    let mut tvm = started(p);
    tvm.tick();
    assert_eq!(tvm.get_error(), Some(TvmError::StackOverflow));
}

#[test]
fn call_native_through_tape_slot() {
    let body = ins(push(Frame::builder(), 9), Instruction::Call).callable(-101, vec![]);
    let mut tvm = started(single_function(0, body));
    run(&mut tvm, 100);
    assert_eq!(tvm.stdout, "9");
    assert!(matches!(NativeFunction::get_native(-101), NativeFunction::IPrint));
}

fn num(n: i64) -> Json {
    Json::Int(n)
}

fn arr(v: Vec<Json>) -> Json {
    Json::Array(v)
}

#[test]
fn tape_decodes_into_a_program() {
    let body = arr(vec![num(1), num(3), num(1), num(4), num(10), num(8), num(-101), arr(vec![num(100)])]);
    let f = arr(vec![num(0), Json::Text("main".to_string()), num(0), num(2), body]);
    let tape = arr(vec![arr(vec![num(0), num(2)]), arr(vec![arr(vec![num(0), num(72)]), arr(vec![num(1), num(0)])]), f]);
    let p = Program::from_json(&tape).unwrap();
    assert_eq!(p.entry_point, 0);
    assert_eq!(p.heap_size, 2);
    assert_eq!(p.heap, vec![(0, 72), (1, 0)]);
    assert_eq!(p.functions.len(), 1);
    let f = &p.functions[0];
    assert_eq!(f.name, "main");
    assert_eq!(f.locals, 2);
    assert_eq!(f.frame.name, "main-frame");
    assert_eq!(f.frame.data.len(), 8);
    assert_eq!(f.frame.data[0], tvm::frame::FrameData::Instruction(Instruction::Push, vec![]));
    assert_eq!(f.frame.data[1], tvm::frame::FrameData::Instruction(Instruction::Store, vec![]));
    assert_eq!(f.frame.data[4], tvm::frame::FrameData::Instruction(Instruction::Add, vec![]));
    assert_eq!(f.frame.data[6], tvm::frame::FrameData::Callable(Callable::Native(NativeFunction::IPrint), vec![]));
    assert!(matches!(&f.frame.data[7], tvm::frame::FrameData::Frame(c) if c.data == vec![tvm::frame::FrameData::Primitive(100)] && c.id == 0 && c.name.is_empty()));
}

#[test]
fn malformed_tapes_are_refused() {
    assert_eq!(Program::from_json(&num(1)).err(), Some(TvmError::MalformedTape));
    assert_eq!(Program::from_json(&arr(vec![arr(vec![num(0), num(0)])])).err(), Some(TvmError::MalformedTape));
    let bad_body = arr(vec![num(0), Json::Text("f".to_string()), num(0), num(0), arr(vec![Json::Other])]);
    let tape = arr(vec![arr(vec![num(0), num(0)]), arr(vec![]), bad_body]);
    assert_eq!(Program::from_json(&tape).err(), Some(TvmError::MalformedTape));
    let big = arr(vec![num(0), Json::Text("f".to_string()), num(0), num(0), arr(vec![num(1i64 << 40)])]);
    let tape = arr(vec![arr(vec![num(0), num(0)]), arr(vec![]), big]);
    assert_eq!(Program::from_json(&tape).err(), Some(TvmError::MalformedTape));
    let neg = arr(vec![arr(vec![num(-1), num(0)]), arr(vec![])]);
    assert_eq!(Program::from_json(&neg).err(), Some(TvmError::MalformedTape));
}
