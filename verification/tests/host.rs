use compiler::bytecode::FloatSize;
use compiler::bytecode::Instruction;
use compiler::vm::host::Action;
use compiler::vm::host::Event;
use compiler::vm::host::FloatOp;
use compiler::vm::host::IO_ERROR;
use compiler::vm::Fault;
use compiler::vm::VM;

const START: u64 = VM::STACK_START;

fn machine(program: Vec<Instruction>) -> VM {
    VM::new(program, vec![0; 64], vec![], 256).unwrap()
}

fn transfer(vm: &mut VM, descriptor: u32, addr: u64, len: u16) {
    vm.push_u16(len).unwrap();
    vm.push_u64(addr).unwrap();
    vm.push_u32(descriptor).unwrap();
}

#[test]
fn the_error_count_is_all_ones() {
    assert_eq!(IO_ERROR, 0xffff);
}

#[test]
fn float_arithmetic_asks_the_host_and_changes_nothing() {
    for (instruction, op) in [
        (Instruction::Addf(FloatSize::F32), FloatOp::Add),
        (Instruction::Subf(FloatSize::F32), FloatOp::Sub),
        (Instruction::Mulf(FloatSize::F32), FloatOp::Mul),
        (Instruction::Divf(FloatSize::F32), FloatOp::Div),
        (Instruction::Modf(FloatSize::F32), FloatOp::Rem),
    ] {
        let mut vm = machine(vec![instruction]);
        vm.push_u32(1.5f32.to_bits()).unwrap();
        vm.push_u32(2.25f32.to_bits()).unwrap();
        let asked = Action::Float {
            op,
            size: FloatSize::F32,
            a: 1.5f32.to_bits() as u64,
            b: 2.25f32.to_bits() as u64,
        };
        assert_eq!(vm.tick(Event::Tick), Ok(asked));
        assert_eq!(vm.program_counter(), 0);
        assert_eq!(vm.stack_pointer(), START + 8);
        assert_eq!(vm.tick(Event::Tick), Ok(asked));
        assert_eq!(vm.program_counter(), 0);
        assert_eq!(vm.stack_pointer(), START + 8);
    }
}

#[test]
fn float_arithmetic_pushes_the_result_of_the_host() {
    let mut vm = machine(vec![Instruction::Addf(FloatSize::F32)]);
    vm.push_u32(1.5f32.to_bits()).unwrap();
    vm.push_u32(2.25f32.to_bits()).unwrap();
    let sum = match vm.tick(Event::Tick) {
        Ok(Action::Float { op: FloatOp::Add, size: FloatSize::F32, a, b }) => {
            f32::from_bits(a as u32) + f32::from_bits(b as u32)
        }
        other => panic!("unexpected {:?}", other),
    };
    assert_eq!(vm.tick(Event::Float(sum.to_bits() as u64)), Ok(Action::Continue));
    assert_eq!(vm.program_counter(), 1);
    assert_eq!(vm.stack_pointer(), START + 4);
    assert_eq!(vm.pop_u32().map(f32::from_bits), Ok(3.75));
}

#[test]
fn float_arithmetic_hands_out_the_operands_in_order() {
    let mut vm = machine(vec![Instruction::Subf(FloatSize::F64)]);
    vm.push_u64(10.0f64.to_bits()).unwrap();
    vm.push_u64(4.0f64.to_bits()).unwrap();
    let difference = match vm.tick(Event::Tick) {
        Ok(Action::Float { op: FloatOp::Sub, size: FloatSize::F64, a, b }) => {
            f64::from_bits(a) - f64::from_bits(b)
        }
        other => panic!("unexpected {:?}", other),
    };
    assert_eq!(difference, 6.0);
    assert_eq!(vm.tick(Event::Float(difference.to_bits())), Ok(Action::Continue));
    assert_eq!(vm.stack_pointer(), START + 8);
    assert_eq!(vm.pop_u64().map(f64::from_bits), Ok(6.0));
}

#[test]
fn a_result_wider_than_the_operands_is_no_answer() {
    let mut vm = machine(vec![Instruction::Mulf(FloatSize::F32)]);
    vm.push_u32(7).unwrap();
    vm.push_u32(9).unwrap();
    let asked = Action::Float { op: FloatOp::Mul, size: FloatSize::F32, a: 7, b: 9 };
    assert_eq!(vm.tick(Event::Float(0x1_0000_0000)), Ok(asked));
    assert_eq!(vm.stack_pointer(), START + 8);
    assert_eq!(vm.program_counter(), 0);
    assert_eq!(vm.tick(Event::Float(0xffff_ffff)), Ok(Action::Continue));
    assert_eq!(vm.pop_u32(), Ok(0xffff_ffff));
}

#[test]
fn an_event_of_another_kind_is_no_answer() {
    let mut vm = machine(vec![Instruction::Divf(FloatSize::F64)]);
    vm.push_u64(7).unwrap();
    vm.push_u64(9).unwrap();
    let asked = Action::Float { op: FloatOp::Div, size: FloatSize::F64, a: 7, b: 9 };
    assert_eq!(vm.tick(Event::Written(1)), Ok(asked));
    assert_eq!(vm.tick(Event::ReadFailed), Ok(asked));
    assert_eq!(vm.tick(Event::Read(vec![])), Ok(asked));
    assert_eq!(vm.stack_pointer(), START + 16);
}

#[test]
fn float_arithmetic_short_of_an_operand_restores_the_stack() {
    let mut vm = machine(vec![Instruction::Addf(FloatSize::F64)]);
    vm.push_u64(7).unwrap();
    vm.push_u32(9).unwrap();
    assert_eq!(vm.tick(Event::Float(1)), Err(Fault::SegmentationFault));
    assert_eq!(vm.stack_pointer(), START + 12);
    assert_eq!(vm.program_counter(), 1);
}

#[test]
fn read_asks_the_host_for_at_most_the_given_length() {
    let mut vm = machine(vec![Instruction::Read]);
    transfer(&mut vm, 0, 8, 5);
    assert_eq!(vm.tick(Event::Tick), Ok(Action::Read { max_len: 5 }));
    assert_eq!(vm.program_counter(), 0);
    assert_eq!(vm.stack_pointer(), START + 14);
}

#[test]
fn read_stores_the_bytes_and_pushes_their_number() {
    let mut vm = machine(vec![Instruction::Read]);
    transfer(&mut vm, 0, 8, 5);
    assert_eq!(vm.tick(Event::Read(vec![b'a', b'b', b'c'])), Ok(Action::Continue));
    assert_eq!(vm.program_counter(), 1);
    assert_eq!(vm.stack_pointer(), START + 2);
    assert_eq!(vm.pop_u16(), Ok(3));
    assert_eq!(vm.get_bytes(7, 5).unwrap(), &[0, b'a', b'b', b'c', 0]);
}

#[test]
fn read_of_nothing_pushes_zero() {
    let mut vm = machine(vec![Instruction::Read]);
    transfer(&mut vm, 0, 8, 5);
    assert_eq!(vm.tick(Event::Read(vec![])), Ok(Action::Continue));
    assert_eq!(vm.pop_u16(), Ok(0));
}

#[test]
fn read_that_failed_pushes_the_error_count() {
    let mut vm = machine(vec![Instruction::Read]);
    transfer(&mut vm, 0, 1000, 5);
    assert_eq!(vm.tick(Event::ReadFailed), Ok(Action::Continue));
    assert_eq!(vm.stack_pointer(), START + 2);
    assert_eq!(vm.pop_u16(), Ok(0xffff));
}

#[test]
fn more_bytes_than_were_asked_for_are_no_answer() {
    let mut vm = machine(vec![Instruction::Read]);
    transfer(&mut vm, 0, 8, 2);
    assert_eq!(vm.tick(Event::Read(vec![1, 2, 3])), Ok(Action::Read { max_len: 2 }));
    assert_eq!(vm.stack_pointer(), START + 14);
    assert_eq!(vm.get_bytes(8, 3).unwrap(), &[0, 0, 0]);
    assert_eq!(vm.tick(Event::Read(vec![1, 2])), Ok(Action::Continue));
    assert_eq!(vm.get_bytes(8, 3).unwrap(), &[1, 2, 0]);
}

#[test]
fn read_from_another_descriptor_is_unsupported() {
    for descriptor in [1u32, 2, u32::MAX] {
        let mut vm = machine(vec![Instruction::Read]);
        transfer(&mut vm, descriptor, 8, 5);
        assert_eq!(vm.tick(Event::Tick), Err(Fault::UnsupportedDescriptor));
        assert_eq!(vm.stack_pointer(), START + 14);
        assert_eq!(vm.program_counter(), 1);
    }
    let mut vm = machine(vec![Instruction::Read]);
    transfer(&mut vm, 1, 8, 5);
    assert_eq!(vm.tick(Event::Read(vec![1])), Err(Fault::UnsupportedDescriptor));
    assert_eq!(vm.get_u8(8), Ok(0));
}

#[test]
fn read_to_an_address_that_nothing_backs_faults_and_changes_nothing() {
    let mut vm = machine(vec![Instruction::Read]);
    transfer(&mut vm, 0, 62, 5);
    assert_eq!(vm.tick(Event::Tick), Ok(Action::Read { max_len: 5 }));
    assert_eq!(vm.tick(Event::Read(vec![1, 2, 3])), Err(Fault::SegmentationFault));
    assert_eq!(vm.stack_pointer(), START + 14);
    assert_eq!(vm.program_counter(), 1);
    assert_eq!(vm.get_bytes(0, 63).unwrap(), &[0u8; 63]);
    assert_eq!(vm.pop_u32(), Ok(0));
    assert_eq!(vm.pop_u64(), Ok(62));
    assert_eq!(vm.pop_u16(), Ok(5));
}

#[test]
fn a_short_read_fits_where_the_full_length_would_not() {
    let mut vm = machine(vec![Instruction::Read]);
    transfer(&mut vm, 0, 60, 100);
    assert_eq!(vm.tick(Event::Read(vec![1, 2, 3])), Ok(Action::Continue));
    assert_eq!(vm.get_bytes(60, 3).unwrap(), &[1, 2, 3]);
    assert_eq!(vm.pop_u16(), Ok(3));
}

#[test]
fn read_short_of_an_operand_restores_the_stack() {
    let mut vm = machine(vec![Instruction::Read]);
    vm.push_u64(8).unwrap();
    vm.push_u32(0).unwrap();
    assert_eq!(vm.tick(Event::Tick), Err(Fault::SegmentationFault));
    assert_eq!(vm.stack_pointer(), START + 12);
}

#[test]
fn read_into_the_stack_zone_lands_below_the_pushed_count() {
    let mut vm = machine(vec![Instruction::Read]);
    vm.push_u64(0).unwrap();
    transfer(&mut vm, 0, START, 4);
    assert_eq!(vm.tick(Event::Read(vec![9, 8, 7, 6])), Ok(Action::Continue));
    assert_eq!(vm.pop_u16(), Ok(4));
    assert_eq!(vm.pop_u64(), Ok(0x0000_0000_0607_0809));
}

#[test]
fn write_asks_the_host_to_write_the_memory() {
    let mut vm = machine(vec![Instruction::Write]);
    vm.set_bytes(8, b"hello").unwrap();
    transfer(&mut vm, 1, 8, 5);
    assert_eq!(vm.tick(Event::Tick), Ok(Action::Write { src: 8, len: 5 }));
    assert_eq!(vm.program_counter(), 0);
    assert_eq!(vm.stack_pointer(), START + 14);
    assert_eq!(vm.get_bytes(8, 5).unwrap(), b"hello");
}

#[test]
fn write_pushes_the_number_of_bytes_written() {
    let mut vm = machine(vec![Instruction::Write]);
    transfer(&mut vm, 1, 8, 5);
    assert_eq!(vm.tick(Event::Written(4)), Ok(Action::Continue));
    assert_eq!(vm.program_counter(), 1);
    assert_eq!(vm.stack_pointer(), START + 2);
    assert_eq!(vm.pop_u16(), Ok(4));
}

#[test]
fn write_that_failed_pushes_the_error_count() {
    let mut vm = machine(vec![Instruction::Write]);
    transfer(&mut vm, 1, 8, 5);
    assert_eq!(vm.tick(Event::WriteFailed), Ok(Action::Continue));
    assert_eq!(vm.pop_u16(), Ok(0xffff));
}

#[test]
fn more_bytes_written_than_were_given_are_no_answer() {
    let mut vm = machine(vec![Instruction::Write]);
    transfer(&mut vm, 1, 8, 5);
    assert_eq!(vm.tick(Event::Written(6)), Ok(Action::Write { src: 8, len: 5 }));
    assert_eq!(vm.stack_pointer(), START + 14);
    assert_eq!(vm.tick(Event::Written(5)), Ok(Action::Continue));
    assert_eq!(vm.pop_u16(), Ok(5));
}

#[test]
fn write_to_another_descriptor_is_unsupported() {
    for descriptor in [0u32, 2, u32::MAX] {
        let mut vm = machine(vec![Instruction::Write]);
        transfer(&mut vm, descriptor, 8, 5);
        assert_eq!(vm.tick(Event::Written(5)), Err(Fault::UnsupportedDescriptor));
        assert_eq!(vm.stack_pointer(), START + 14);
        assert_eq!(vm.program_counter(), 1);
    }
}

#[test]
fn write_from_an_address_that_nothing_backs_faults() {
    let mut vm = machine(vec![Instruction::Write]);
    transfer(&mut vm, 1, 60, 5);
    assert_eq!(vm.tick(Event::Tick), Err(Fault::SegmentationFault));
    assert_eq!(vm.stack_pointer(), START + 14);
    let mut vm = machine(vec![Instruction::Write]);
    transfer(&mut vm, 7, 60, 5);
    assert_eq!(vm.tick(Event::Tick), Err(Fault::SegmentationFault));
}

#[test]
fn a_host_loop_echoes_its_input() {
    // read to address 16, then write from there as many bytes as were read:
    // the count that the read pushes is the length operand of the write
    let mut program = vec![Instruction::Read];
    for byte in 16u64.to_le_bytes() {
        program.push(Instruction::Push(byte));
    }
    for byte in 1u32.to_le_bytes() {
        program.push(Instruction::Push(byte));
    }
    program.push(Instruction::Write);
    let mut vm = machine(program);
    transfer(&mut vm, 0, 16, 32);
    let input = b"echo".to_vec();
    let mut output = Vec::new();
    let mut event = Event::Tick;
    let fault = loop {
        match vm.tick(event) {
            Ok(Action::Continue) => event = Event::Tick,
            Ok(Action::Read { max_len }) => {
                assert_eq!(max_len, 32);
                event = Event::Read(input.clone());
            }
            Ok(Action::Write { src, len }) => {
                output.extend_from_slice(vm.get_bytes(src, len as u64).unwrap());
                event = Event::Written(len);
            }
            Ok(action) => panic!("unexpected {:?}", action),
            Err(fault) => break fault,
        }
    };
    assert_eq!(fault, Fault::ProgramEnded);
    assert_eq!(output, b"echo");
    assert_eq!(vm.program_counter(), 14);
    assert_eq!(vm.stack_pointer(), START + 2);
    assert_eq!(vm.pop_u16(), Ok(4));
}
