use compiler::bytecode::FloatSize;
use compiler::bytecode::Instruction;
use compiler::vm::host::Action;
use compiler::vm::host::Event;
use compiler::vm::order::compare_floats;
use compiler::vm::order::compare_unsigned;
use compiler::vm::VM;

const START: u64 = VM::STACK_START;

fn expected32(a: f32, b: f32) -> i64 {
    match a.partial_cmp(&b) {
        Some(std::cmp::Ordering::Less) => -1,
        Some(std::cmp::Ordering::Equal) => 0,
        Some(std::cmp::Ordering::Greater) => 1,
        None => {
            if a.is_nan() && b.is_nan() {
                0
            } else if a.is_nan() {
                1
            } else {
                -1
            }
        }
    }
}

fn expected64(a: f64, b: f64) -> i64 {
    match a.partial_cmp(&b) {
        Some(std::cmp::Ordering::Less) => -1,
        Some(std::cmp::Ordering::Equal) => 0,
        Some(std::cmp::Ordering::Greater) => 1,
        None => {
            if a.is_nan() && b.is_nan() {
                0
            } else if a.is_nan() {
                1
            } else {
                -1
            }
        }
    }
}

#[test]
fn compare_unsigned_is_three_way() {
    assert_eq!(compare_unsigned(3, 10), -1);
    assert_eq!(compare_unsigned(10, 3), 1);
    assert_eq!(compare_unsigned(7, 7), 0);
    assert_eq!(compare_unsigned(0, u64::MAX), -1);
    assert_eq!(compare_unsigned(u64::MAX, 0), 1);
}

#[test]
fn compare_floats_orders_single_precision_numbers() {
    let samples = [
        0.0f32,
        -0.0,
        1.0,
        -1.0,
        1.5,
        -1.5,
        f32::MIN_POSITIVE,
        -f32::MIN_POSITIVE,
        f32::from_bits(1),
        f32::from_bits(0x8000_0001),
        f32::MAX,
        f32::MIN,
        f32::INFINITY,
        f32::NEG_INFINITY,
        f32::NAN,
        -f32::NAN,
        f32::from_bits(0x7f80_0001),
        f32::from_bits(0xffff_ffff),
        3.25e10,
        -7.5e-20,
    ];
    for a in samples {
        for b in samples {
            let got = compare_floats(FloatSize::F32, a.to_bits() as u64, b.to_bits() as u64);
            assert_eq!(got, expected32(a, b), "{:?} against {:?}", a, b);
        }
    }
}

#[test]
fn compare_floats_orders_double_precision_numbers() {
    let samples = [
        0.0f64,
        -0.0,
        1.0,
        -1.0,
        1.5,
        -1.5,
        f64::MIN_POSITIVE,
        -f64::MIN_POSITIVE,
        f64::from_bits(1),
        f64::from_bits(0x8000_0000_0000_0001),
        f64::MAX,
        f64::MIN,
        f64::INFINITY,
        f64::NEG_INFINITY,
        f64::NAN,
        -f64::NAN,
        f64::from_bits(0x7ff0_0000_0000_0001),
        f64::from_bits(u64::MAX),
        3.25e100,
        -7.5e-200,
    ];
    for a in samples {
        for b in samples {
            let got = compare_floats(FloatSize::F64, a.to_bits(), b.to_bits());
            assert_eq!(got, expected64(a, b), "{:?} against {:?}", a, b);
        }
    }
}

#[test]
fn the_two_zeroes_are_equal() {
    assert_eq!(compare_floats(FloatSize::F32, 0, 0x8000_0000), 0);
    assert_eq!(compare_floats(FloatSize::F32, 0x8000_0000, 0), 0);
    assert_eq!(compare_floats(FloatSize::F64, 0, 0x8000_0000_0000_0000), 0);
}

#[test]
fn nan_ranks_above_every_number_and_equal_to_nan() {
    let nan = f64::NAN.to_bits();
    assert_eq!(compare_floats(FloatSize::F64, nan, f64::INFINITY.to_bits()), 1);
    assert_eq!(compare_floats(FloatSize::F64, f64::INFINITY.to_bits(), nan), -1);
    assert_eq!(compare_floats(FloatSize::F64, nan, f64::NEG_INFINITY.to_bits()), 1);
    assert_eq!(compare_floats(FloatSize::F64, 0f64.to_bits(), nan), -1);
    assert_eq!(compare_floats(FloatSize::F64, nan, (-f64::NAN).to_bits()), 0);
    assert_eq!(compare_floats(FloatSize::F64, nan, nan), 0);
}

#[test]
fn cmpf_pushes_how_two_numbers_compare() {
    for (a, b, expected) in [(10.0f32, 3.0f32, 1i64), (3.0, 10.0, -1), (7.0, 7.0, 0), (-2.0, 1.0, -1)] {
        let mut vm = VM::new(vec![Instruction::Cmpf(FloatSize::F32)], vec![], vec![], 64).unwrap();
        vm.push_u32(a.to_bits()).unwrap();
        vm.push_u32(b.to_bits()).unwrap();
        assert_eq!(vm.tick(Event::Tick), Ok(Action::Continue));
        assert_eq!(vm.stack_pointer(), START + 8);
        assert_eq!(vm.pop_u64().map(|v| v as i64), Ok(expected));
    }
}

#[test]
fn cmpf_compares_double_precision_numbers() {
    for (a, b, expected) in [(1e300f64, 1e-300f64, 1i64), (-1e300, 1e-300, -1), (0.0, -0.0, 0)] {
        let mut vm = VM::new(vec![Instruction::Cmpf(FloatSize::F64)], vec![], vec![], 64).unwrap();
        vm.push_u64(a.to_bits()).unwrap();
        vm.push_u64(b.to_bits()).unwrap();
        assert_eq!(vm.tick(Event::Tick), Ok(Action::Continue));
        assert_eq!(vm.stack_pointer(), START + 8);
        assert_eq!(vm.pop_u64().map(|v| v as i64), Ok(expected));
    }
}

#[test]
fn cmpf_with_a_nan_does_not_fault() {
    let mut vm = VM::new(vec![Instruction::Cmpf(FloatSize::F32)], vec![], vec![], 64).unwrap();
    vm.push_u32(f32::NAN.to_bits()).unwrap();
    vm.push_u32(1.0f32.to_bits()).unwrap();
    assert_eq!(vm.tick(Event::Tick), Ok(Action::Continue));
    assert_eq!(vm.pop_u64(), Ok(1));
}
