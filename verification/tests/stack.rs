use compiler::vm::Fault;
use compiler::vm::VM;

const START: u64 = VM::STACK_START;

fn machine(max_stack: u64) -> VM {
    VM::new(vec![], vec![0; 16], vec![], max_stack).unwrap()
}

#[test]
fn push_then_pop_returns_the_value_and_restores_the_stack_pointer() {
    let mut vm = machine(64);
    vm.push_u16(0x0102).unwrap();
    let before = vm.stack_pointer();

    assert_eq!(vm.push_u8(0xab), Ok(()));
    assert_eq!(vm.stack_pointer(), before + 1);
    assert_eq!(vm.pop_u8(), Ok(0xab));
    assert_eq!(vm.stack_pointer(), before);

    assert_eq!(vm.push_u16(0xbeef), Ok(()));
    assert_eq!(vm.stack_pointer(), before + 2);
    assert_eq!(vm.pop_u16(), Ok(0xbeef));
    assert_eq!(vm.stack_pointer(), before);

    assert_eq!(vm.push_u32(0xdead_beef), Ok(()));
    assert_eq!(vm.stack_pointer(), before + 4);
    assert_eq!(vm.pop_u32(), Ok(0xdead_beef));
    assert_eq!(vm.stack_pointer(), before);

    assert_eq!(vm.push_u64(u64::MAX - 5), Ok(()));
    assert_eq!(vm.stack_pointer(), before + 8);
    assert_eq!(vm.pop_u64(), Ok(u64::MAX - 5));
    assert_eq!(vm.stack_pointer(), before);

    assert_eq!(vm.pop_u16(), Ok(0x0102));
}

#[test]
fn push_bytes_then_pop_bytes_returns_them_in_address_order() {
    let mut vm = machine(64);
    assert_eq!(vm.push_bytes(&[1, 2, 3, 4, 5]), Ok(()));
    assert_eq!(vm.stack_pointer(), START + 5);
    assert_eq!(vm.pop_bytes(3).unwrap(), &[3, 4, 5]);
    assert_eq!(vm.stack_pointer(), START + 2);
    assert_eq!(vm.pop_bytes(2).unwrap(), &[1, 2]);
    assert_eq!(vm.stack_pointer(), START);
}

#[test]
fn pushed_values_lie_least_significant_byte_first() {
    let mut vm = machine(64);
    vm.push_u32(0x0102_0304).unwrap();
    assert_eq!(vm.pop_bytes(4).unwrap(), &[4, 3, 2, 1]);
    vm.push_bytes(&[0xef, 0xcd, 0xab, 0x89, 0x67, 0x45, 0x23, 0x01]).unwrap();
    assert_eq!(vm.pop_u64(), Ok(0x0123_4567_89ab_cdef));
}

#[test]
fn push_i64_pushes_the_twos_complement_pattern() {
    let mut vm = machine(64);
    vm.push_i64(-1).unwrap();
    assert_eq!(vm.pop_u64(), Ok(u64::MAX));
    vm.push_i64(i64::MIN).unwrap();
    assert_eq!(vm.pop_u64(), Ok(0x8000_0000_0000_0000));
    vm.push_i64(42).unwrap();
    assert_eq!(vm.pop_u64(), Ok(42));
}

#[test]
fn pop_faults_below_the_stack_base() {
    let mut vm = machine(64);
    assert_eq!(vm.pop_u8(), Err(Fault::SegmentationFault));
    assert_eq!(vm.pop_bytes(1), Err(Fault::SegmentationFault));
    vm.push_u16(7).unwrap();
    assert_eq!(vm.pop_u32(), Err(Fault::SegmentationFault));
    assert_eq!(vm.pop_bytes(3), Err(Fault::SegmentationFault));
    assert_eq!(vm.pop_bytes(u64::MAX), Err(Fault::SegmentationFault));
    assert_eq!(vm.stack_pointer(), START + 2);
    assert_eq!(vm.pop_u16(), Ok(7));
}

#[test]
fn pop_of_nothing_succeeds_on_an_empty_stack() {
    let mut vm = machine(64);
    assert_eq!(vm.pop_bytes(0).unwrap().len(), 0);
    assert_eq!(vm.stack_pointer(), START);
}

#[test]
fn push_overflows_exactly_when_it_reaches_the_ceiling() {
    let mut vm = machine(8);
    assert_eq!(vm.push_u32(1), Ok(()));
    assert_eq!(vm.push_u32(2), Err(Fault::StackOverflow));
    assert_eq!(vm.stack_pointer(), START + 4);
    assert_eq!(vm.push_bytes(&[1, 2, 3]), Ok(()));
    assert_eq!(vm.stack_pointer(), START + 7);
    assert_eq!(vm.push_u8(1), Err(Fault::StackOverflow));
    assert_eq!(vm.push_bytes(&[]), Ok(()));
    assert_eq!(vm.stack_pointer(), START + 7);
}

#[test]
fn repeated_pushes_overflow_never_before_the_ceiling() {
    let mut vm = machine(100);
    for pushed in 0..99u64 {
        assert_eq!(vm.stack_pointer(), START + pushed);
        assert_eq!(vm.push_u8(pushed as u8), Ok(()));
    }
    assert_eq!(vm.stack_pointer(), START + 99);
    assert_eq!(vm.push_u8(0), Err(Fault::StackOverflow));
    assert_eq!(vm.stack_pointer(), START + 99);
    assert_eq!(vm.pop_u8(), Ok(98));
}

#[test]
fn a_ceiling_of_zero_admits_no_push() {
    let mut vm = machine(0);
    assert_eq!(vm.push_bytes(&[]), Err(Fault::StackOverflow));
    assert_eq!(vm.ensure_stack(0), Err(Fault::StackOverflow));
    assert_eq!(vm.push_u8(1), Err(Fault::StackOverflow));
    assert_eq!(vm.stack_pointer(), START);
}

#[test]
fn ensure_stack_faults_exactly_at_the_ceiling() {
    let mut vm = machine(16);
    assert_eq!(vm.ensure_stack(15), Ok(()));
    assert_eq!(vm.ensure_stack(16), Err(Fault::StackOverflow));
    assert_eq!(vm.ensure_stack(u64::MAX), Err(Fault::StackOverflow));
    vm.push_u64(0).unwrap();
    assert_eq!(vm.ensure_stack(7), Ok(()));
    assert_eq!(vm.ensure_stack(8), Err(Fault::StackOverflow));
}

#[test]
fn ensure_stack_grows_the_buffer_with_zeroes() {
    let mut vm = machine(64);
    assert_eq!(vm.get_bytes(START, 3), Err(Fault::SegmentationFault));
    assert_eq!(vm.ensure_stack(4), Ok(()));
    assert_eq!(vm.stack_pointer(), START);
    assert_eq!(vm.get_bytes(START, 3).unwrap(), &[0, 0, 0]);
    assert_eq!(vm.get_bytes(START, 4), Err(Fault::SegmentationFault));
}

#[test]
fn ensure_stack_keeps_a_buffer_that_is_large_enough() {
    let mut vm = VM::new(vec![], vec![], vec![7, 8, 9, 10], 64).unwrap();
    assert_eq!(vm.ensure_stack(2), Ok(()));
    assert_eq!(vm.get_bytes(START, 3).unwrap(), &[7, 8, 9]);
    assert_eq!(vm.get_bytes(START, 4), Err(Fault::SegmentationFault));
}

#[test]
fn an_initial_stack_buffer_holds_no_operands() {
    let mut vm = VM::new(vec![], vec![], vec![7, 8, 9, 10], 64).unwrap();
    assert_eq!(vm.stack_pointer(), START);
    assert_eq!(vm.pop_u8(), Err(Fault::SegmentationFault));
    assert_eq!(vm.push_u16(0x0201), Ok(()));
    assert_eq!(vm.get_bytes(START, 3).unwrap(), &[1, 2, 9]);
}

#[test]
fn popped_bytes_stay_in_the_buffer() {
    let mut vm = machine(64);
    vm.push_u32(0x0403_0201).unwrap();
    vm.pop_u32().unwrap();
    assert_eq!(vm.get_bytes(START, 3).unwrap(), &[1, 2, 3]);
}
