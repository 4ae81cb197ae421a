use tvm::callable::Callable;
use tvm::frame::{Frame, FrameData};
use tvm::function::Function;
use tvm::instruction::Instruction;
use tvm::native::NativeFunction;
use tvm::program::Program;

#[test]
fn test_builder() {
    let frame = Frame::builder()
        .id(1)
        .name("test".to_string())
        .frame(Frame::builder().id(2).name("test2".to_string()).build())
        .callable(-101, vec![1, 2, 3])
        .instruction(Instruction::get_instruction(1).unwrap(), vec![1, 2, 3])
        .primitive(1)
        .build();
    assert_eq!(frame.id, 1);
    assert_eq!(frame.name, "test");
    assert_eq!(frame.data.len(), 4);
    assert!(
        matches!(&frame.data[0], FrameData::Frame(frame) if frame.name == "test2" && frame.id == 2)
    );
    assert!(
        matches!(&frame.data[1], FrameData::Callable(Callable::Native(native), _) if native.id() == -101)
    );
    assert!(
        matches!(&frame.data[2], FrameData::Instruction(instruction, _) if instruction.op() == 1)
    );
    assert!(matches!(&frame.data[3], FrameData::Primitive(n) if *n == 1));
}

#[test]
fn test_function_builder() {
    let function = Function::builder()
        .id(1)
        .name("test".to_string())
        .args(2)
        .locals(3)
        .frame(Frame::builder().build())
        .build();
    assert_eq!(function.id, 1);
    assert_eq!(function.name, "test");
    assert_eq!(function.args, 2);
    assert_eq!(function.locals, 3);
    assert_eq!(function.frame, Frame::builder().build());
}

#[test]
fn instruction_opcodes_round_trip() {
    for op in 1..=27u32 {
        let ins = Instruction::get_instruction(op).unwrap();
        assert_eq!(ins.op(), op);
        assert_eq!(Instruction::from_op(op as i32), Ok(ins));
    }
    assert_eq!(Instruction::get_instruction(0), Err(tvm::error::TvmError::InvalidOpcode));
    assert_eq!(Instruction::get_instruction(28), Err(tvm::error::TvmError::InvalidOpcode));
    assert_eq!(Instruction::get_instruction(u32::MAX), Err(tvm::error::TvmError::InvalidOpcode));
    assert_eq!(Instruction::get_instruction(9).unwrap(), Instruction::FPPlus);
    assert_eq!(Instruction::get_instruction(27).unwrap().name(), "rshift");
    assert_eq!(Instruction::OR.name(), "or");
}

#[test]
fn instruction_from_op_rejects_out_of_range() {
    assert_eq!(Instruction::from_op(0), Err(tvm::error::TvmError::InvalidOpcode));
    assert_eq!(Instruction::from_op(28), Err(tvm::error::TvmError::InvalidOpcode));
    assert_eq!(Instruction::from_op(-101), Err(tvm::error::TvmError::InvalidOpcode));
}

#[test]
fn native_ids_and_names() {
    assert_eq!(NativeFunction::get_native(-101), NativeFunction::IPrint);
    assert_eq!(NativeFunction::get_native(-111), NativeFunction::I2S);
    assert_eq!(NativeFunction::get_native(-109).name(), "alloc");
    assert_eq!(NativeFunction::get_native(-104).args(), 2);
    assert_eq!(NativeFunction::get_native(-50), NativeFunction::Unknown(-50));
    assert_eq!(NativeFunction::Unknown(-50).name(), "Unknown(-50)");
    assert_eq!(NativeFunction::Unknown(-50).id(), -50);
    for id in -111..=-101 {
        assert_eq!(NativeFunction::get_native(id).id(), id);
    }
}

#[test]
fn callable_resolution_and_names() {
    let functions = vec![Function::builder().id(0).name("main".to_string()).build()];
    assert_eq!(Callable::resolve(-102, 1), Some(Callable::Native(NativeFunction::SPrint)));
    assert_eq!(Callable::resolve(0, 1), Some(Callable::Function(0)));
    assert_eq!(Callable::resolve(1, 1), None);
    assert_eq!(Callable::resolve(-100, 1), None);
    assert_eq!(Callable::resolve(-112, 1), None);
    assert_eq!(Callable::Function(0).name(&functions), "main");
    assert_eq!(Callable::Function(3).name(&functions), "");
    assert_eq!(Callable::get_native(-105).name(&functions), "nl");
    assert_eq!(Callable::get_native(-105).get_id(), -105);
    assert_eq!(Callable::Function(7).get_id(), 7);
}

#[test]
fn frame_data_ids() {
    assert_eq!(FrameData::Primitive(-7).get_id(), -7);
    assert_eq!(FrameData::Instruction(Instruction::Mul, vec![]).get_id(), 12);
    assert_eq!(FrameData::Callable(Callable::get_native(-110), vec![]).get_id(), -110);
    let f = Frame::builder().id(4).build();
    assert_eq!(FrameData::Frame(f).get_id(), 4);
    let g = Frame::builder().primitive(5).primitive(6).build();
    assert_eq!(g.get_current(), &FrameData::Primitive(5));
}

#[test]
fn program_builder_counts_heap() {
    let p = Program::builder()
        .entry_point(1)
        .heap(vec![(0, 1), (1, 2)])
        .function(Function::builder().id(0).build())
        .function(Function::builder().id(1).build())
        .build();
    assert_eq!(p.entry_point, 1);
    assert_eq!(p.heap_size, 2);
    assert_eq!(p.functions.len(), 2);
    let q = Program::new(0, 10, vec![], vec![]);
    assert_eq!(q.heap_size, 10);
}
