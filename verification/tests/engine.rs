use potassium::assembler::assemble;
use potassium::vm::{Stop, REGISTER_COUNT, STEP_LIMIT, VM};

fn machine(program: Vec<[u8; 4]>) -> VM {
    let mut vm = VM::new();
    vm.set_program(program);
    vm
}

#[test]
fn a_new_machine_is_blank() {
    let vm = VM::new();
    assert_eq!(vm.registers, [0; 32]);
    assert_eq!(vm.pc, 0);
    assert!(vm.program.is_empty());
    assert_eq!(vm.remainder, 0);
    assert!(!vm.equal_flag);
}

#[test]
fn set_program_lays_the_words_end_to_end_and_keeps_the_rest() {
    let mut vm = machine(vec![[1, 0, 0, 9], [0, 0, 0, 0]]);
    assert_eq!(vm.run_once(), 0);
    vm.set_program(vec![[9, 8, 7, 6], [5, 4, 3, 2], [1, 0, 255, 254]]);
    assert_eq!(vm.program, vec![9, 8, 7, 6, 5, 4, 3, 2, 1, 0, 255, 254]);
    assert_eq!(vm.pc, 4);
    assert_eq!(vm.registers[0], 9);
    vm.set_program(vec![]);
    assert!(vm.program.is_empty());
}

#[test]
fn the_limits_are_as_documented() {
    assert_eq!(STEP_LIMIT, u64::MAX);
    assert_eq!(REGISTER_COUNT, 32);
}

#[test]
fn each_stop_has_its_code_and_trace() {
    assert_eq!(Stop::Halt.exit_code(), 0);
    assert_eq!(Stop::Halt.trace(), "HLT encountered.");
    assert_eq!(
        Stop::Overrun.trace(),
        "Program counter has exceeded program length! Did you forget to include an HLT?"
    );
    assert_eq!(Stop::Unrecognized.trace(), "Unrecognized opcode found. Terminating!");
    let others = [
        Stop::Overrun,
        Stop::Unrecognized,
        Stop::Truncated,
        Stop::NoRegister,
        Stop::DivisionByZero,
        Stop::OutOfRange,
        Stop::OutOfSteps,
    ];
    for (i, stop) in others.iter().enumerate() {
        assert_eq!(stop.exit_code(), -1);
        for other in &others[i + 1..] {
            assert_ne!(stop.trace(), other.trace());
        }
    }
}

#[test]
fn a_stop_says_why() {
    let cases: Vec<(Vec<u8>, i32, Option<Stop>, usize)> = vec![
        (vec![], 0, Some(Stop::Overrun), 0),
        (vec![0], 0, Some(Stop::Halt), 1),
        (vec![17], 0, Some(Stop::Unrecognized), 1),
        (vec![1, 0, 0], 0, Some(Stop::Truncated), 1),
        (vec![2, 0, 0], 0, Some(Stop::Truncated), 1),
        (vec![14, 0], 0, Some(Stop::Truncated), 1),
        (vec![16], 0, Some(Stop::Truncated), 1),
        (vec![1, 32, 0, 0], 0, Some(Stop::NoRegister), 4),
        (vec![5, 0, 32, 0], 0, Some(Stop::NoRegister), 4),
        (vec![5, 1, 0, 2], 0, Some(Stop::DivisionByZero), 4),
        (vec![5, 0, 0, 2], 3, None, 4),
        (vec![6, 0], -1, Some(Stop::OutOfRange), 2),
        (vec![7, 0], -3, Some(Stop::OutOfRange), 2),
        (vec![8, 0], 3, Some(Stop::OutOfRange), 2),
        (vec![8, 0], 2, None, 0),
        (vec![7, 0], -2, None, 0),
        (vec![6, 0], 77, None, 77),
    ];
    for (program, value, stop, pc) in cases {
        let mut vm = VM::new();
        vm.program = program.clone();
        vm.registers[0] = value;
        assert_eq!(vm.step(), stop);
        assert_eq!(vm.pc, pc);
        let mut vm = VM::new();
        vm.program = program;
        vm.registers[0] = value;
        assert_eq!(vm.execute_instruction(), stop.map(|s| s.exit_code()));
    }
}

#[test]
fn a_run_says_why_it_ended() {
    let mut vm = machine(vec![[1, 0, 0, 8], [5, 0, 1, 2], [0, 0, 0, 0]]);
    assert_eq!(vm.run_to_stop(), Stop::DivisionByZero);
    assert_eq!(vm.pc, 8);
    vm.registers[1] = 3;
    vm.pc = 4;
    assert_eq!(vm.run_to_stop(), Stop::Halt);
    assert_eq!(vm.pc, 9);
    assert_eq!(vm.registers[2], 2);
    assert_eq!(vm.remainder, 2);
    assert_eq!(vm.run_to_stop(), Stop::Halt);
    assert_eq!(vm.pc, 10);
    vm.pc = 12;
    assert_eq!(vm.run_to_stop(), Stop::Overrun);
    assert_eq!(vm.pc, 12);
}

#[test]
fn halt_exits_with_zero_behind_its_opcode_byte() {
    let mut vm = machine(assemble("HLT").unwrap());
    assert_eq!(vm.program, vec![0, 0, 0, 0]);
    assert_eq!(vm.run(), 0);
    assert_eq!(vm.pc, 1);
    assert_eq!(vm.registers, [0; 32]);
}

#[test]
fn load_then_halt_leaves_the_number() {
    let mut program = assemble("LOAD $0 #500").unwrap();
    assert_eq!(program, vec![[1, 0, 1, 244]]);
    program.push([0, 0, 0, 0]);
    let mut vm = machine(program);
    assert_eq!(vm.run(), 0);
    assert_eq!(vm.registers[0], 500);
    assert_eq!(vm.pc, 5);
}

#[test]
fn load_holds_every_number_of_sixteen_bits() {
    for (r, n) in [(0u8, 0i32), (1, 1), (7, 255), (15, 256), (30, 32768), (31, 65535)] {
        let source = format!("LOAD ${} #{}\nHLT", r, n);
        let mut vm = machine(assemble(&source).unwrap());
        assert_eq!(vm.run(), 0);
        assert_eq!(vm.registers[r as usize], n);
        assert_eq!(vm.pc, 5);
    }
}

#[test]
fn load_of_a_negative_number_keeps_its_low_sixteen_bits() {
    let mut vm = machine(assemble("LOAD $2 #-5 HLT").unwrap());
    assert_eq!(vm.program, vec![1, 2, 255, 251, 0, 0, 0, 0]);
    assert_eq!(vm.run(), 0);
    assert_eq!(vm.registers[2], 65531);
}

#[test]
fn run_once_returns_zero_for_a_step_that_goes_on() {
    let mut vm = machine(vec![[1, 0, 0, 8], [0, 0, 0, 0]]);
    assert_eq!(vm.execute_instruction(), None);
    assert_eq!(vm.pc, 4);
    assert_eq!(vm.execute_instruction(), Some(0));
    assert_eq!(vm.pc, 5);
    let mut vm = machine(vec![[1, 0, 0, 8], [0, 0, 0, 0]]);
    assert_eq!(vm.run_once(), 0);
    assert_eq!(vm.run_once(), 0);
    assert_eq!(vm.pc, 5);
}

#[test]
fn a_step_past_the_end_is_fatal_and_changes_nothing() {
    let mut vm = VM::new();
    assert_eq!(vm.run_once(), -1);
    assert_eq!(vm.pc, 0);
    assert_eq!(vm.run(), -1);
    let mut vm = machine(vec![[1, 0, 0, 8]]);
    assert_eq!(vm.run(), -1);
    assert_eq!(vm.pc, 4);
    assert_eq!(vm.registers[0], 8);
}

#[test]
fn an_illegal_opcode_is_fatal_behind_its_byte() {
    for byte in [17u8, 18, 100, 255] {
        let mut vm = machine(vec![[byte, 0, 0, 0]]);
        assert_eq!(vm.run_once(), -1);
        assert_eq!(vm.pc, 1);
        assert_eq!(vm.registers, [0; 32]);
    }
}

#[test]
fn a_register_index_above_31_is_fatal() {
    let programs: Vec<[u8; 4]> = vec![
        [1, 32, 0, 1],
        [2, 32, 0, 0],
        [3, 0, 32, 0],
        [4, 0, 0, 32],
        [5, 0, 0, 255],
        [6, 32, 0, 0],
        [7, 40, 0, 0],
        [8, 50, 0, 0],
        [9, 32, 0, 0],
        [10, 0, 32, 0],
        [11, 99, 0, 0],
        [12, 0, 99, 0],
        [13, 255, 0, 0],
        [14, 0, 255, 0],
        [15, 32, 0, 0],
        [16, 32, 0, 0],
    ];
    for word in programs {
        let fetched = match word[0] {
            1..=5 => 4,
            9..=14 => 3,
            _ => 2,
        };
        let mut vm = machine(vec![word]);
        assert_eq!(vm.execute_instruction(), Some(-1));
        assert_eq!(vm.pc, fetched);
        assert_eq!(vm.registers, [0; 32]);
        assert!(!vm.equal_flag);
    }
}

#[test]
fn operands_cut_off_by_the_end_are_fatal_behind_the_opcode_byte() {
    let mut vm = VM::new();
    vm.program = vec![1, 0, 0];
    assert_eq!(vm.run_once(), -1);
    assert_eq!(vm.pc, 1);
    let mut vm = VM::new();
    vm.program = vec![9, 0];
    assert_eq!(vm.run_once(), -1);
    assert_eq!(vm.pc, 1);
    let mut vm = VM::new();
    vm.program = vec![6];
    assert_eq!(vm.run_once(), -1);
    assert_eq!(vm.pc, 1);
    let mut vm = VM::new();
    vm.program = vec![0];
    assert_eq!(vm.run_once(), 0);
    assert_eq!(vm.pc, 1);
    let mut vm = VM::new();
    vm.program = vec![9, 0, 1];
    assert_eq!(vm.run_once(), 0);
    assert_eq!(vm.pc, 4);
    assert!(vm.equal_flag);
}

#[test]
fn arithmetic_wraps() {
    let mut vm = machine(vec![[2, 0, 1, 2], [3, 3, 1, 4], [4, 0, 0, 5], [4, 0, 6, 7]]);
    vm.registers[0] = i32::MAX;
    vm.registers[1] = 1;
    vm.registers[3] = i32::MIN;
    vm.registers[6] = -3;
    assert_eq!(vm.run_once(), 0);
    assert_eq!(vm.registers[2], i32::MIN);
    assert_eq!(vm.run_once(), 0);
    assert_eq!(vm.registers[4], i32::MAX);
    assert_eq!(vm.run_once(), 0);
    assert_eq!(vm.registers[5], i32::MAX.wrapping_mul(i32::MAX));
    assert_eq!(vm.registers[5], 1);
    assert_eq!(vm.run_once(), 0);
    assert_eq!(vm.registers[7], i32::MAX.wrapping_mul(-3));
    assert_eq!(vm.pc, 16);
}

#[test]
fn arithmetic_agrees_with_the_wrapping_operations() {
    let values = [0, 1, -1, 2, -2, 7, -7, 1000, -1000, 65536, -65536, i32::MAX, i32::MIN, i32::MAX - 1, i32::MIN + 1];
    for x in values {
        for y in values {
            let mut vm = machine(vec![[2, 0, 1, 2], [3, 0, 1, 3], [4, 0, 1, 4], [5, 0, 1, 5]]);
            vm.registers[0] = x;
            vm.registers[1] = y;
            assert_eq!(vm.run_once(), 0);
            assert_eq!(vm.run_once(), 0);
            assert_eq!(vm.run_once(), 0);
            assert_eq!(vm.registers[2], x.wrapping_add(y));
            assert_eq!(vm.registers[3], x.wrapping_sub(y));
            assert_eq!(vm.registers[4], x.wrapping_mul(y));
            if y == 0 {
                assert_eq!(vm.run_once(), -1);
                assert_eq!(vm.registers[5], 0);
                assert_eq!(vm.remainder, 0);
            } else {
                assert_eq!(vm.run_once(), 0);
                assert_eq!(vm.registers[5], x.wrapping_div(y));
                assert_eq!(vm.remainder, x.wrapping_rem(y) as u32);
            }
            assert_eq!(vm.pc, 16);
        }
    }
}

#[test]
fn division_truncates_toward_zero() {
    let cases = [
        (8, 6, 1, 2u32),
        (-8, 6, -1, 4294967294),
        (8, -6, -1, 2),
        (-8, -6, 1, 4294967294),
        (-7, 2, -3, 4294967295),
        (6, 3, 2, 0),
        (0, 5, 0, 0),
        (i32::MIN, -1, i32::MIN, 0),
        (i32::MIN, 1, i32::MIN, 0),
        (i32::MIN, 2, -1073741824, 0),
        (i32::MAX, -1, -i32::MAX, 0),
    ];
    for (x, y, quotient, remainder) in cases {
        let mut vm = machine(vec![[5, 0, 1, 2]]);
        vm.registers[0] = x;
        vm.registers[1] = y;
        assert_eq!(vm.run_once(), 0);
        assert_eq!(vm.registers[2], quotient);
        assert_eq!(vm.remainder, remainder);
        assert_eq!(vm.pc, 4);
    }
}

#[test]
fn division_by_zero_is_fatal() {
    let mut vm = machine(vec![[1, 0, 0, 8], [5, 0, 1, 2], [0, 0, 0, 0]]);
    vm.remainder = 3;
    assert_eq!(vm.run(), -1);
    assert_eq!(vm.pc, 8);
    assert_eq!(vm.registers[2], 0);
    assert_eq!(vm.remainder, 3);
}

#[test]
fn comparisons_set_the_flag_for_every_pair() {
    let values = [0, 1, -1, 5, -5, i32::MAX, i32::MIN];
    for a in values {
        for b in values {
            for (code, expected) in
                [(9u8, a == b), (10, a != b), (11, a > b), (12, a < b), (13, a >= b), (14, a <= b)]
            {
                let mut vm = machine(vec![[code, 3, 4, 0]]);
                vm.registers[3] = a;
                vm.registers[4] = b;
                vm.equal_flag = !expected;
                assert_eq!(vm.run_once(), 0);
                assert_eq!(vm.equal_flag, expected);
                assert_eq!(vm.pc, 4);
                assert_eq!(vm.registers[3], a);
                assert_eq!(vm.registers[4], b);
            }
        }
    }
}

#[test]
fn a_comparison_does_not_read_its_padding_byte() {
    let mut vm = VM::new();
    vm.program = vec![9, 0, 1, 200];
    assert_eq!(vm.run_once(), 0);
    assert!(vm.equal_flag);
    assert_eq!(vm.pc, 4);
}

#[test]
fn jumps_count_in_bytes() {
    let mut vm = machine(vec![[6, 0, 0, 0]]);
    vm.registers[0] = 1234;
    assert_eq!(vm.run_once(), 0);
    assert_eq!(vm.pc, 1234);
    assert_eq!(vm.run_once(), -1);
    assert_eq!(vm.pc, 1234);

    let mut vm = machine(vec![[7, 1, 0, 0]]);
    vm.registers[1] = 10;
    assert_eq!(vm.run_once(), 0);
    assert_eq!(vm.pc, 12);

    let mut vm = machine(vec![[0, 0, 0, 0], [8, 1, 0, 0]]);
    vm.pc = 4;
    vm.registers[1] = 6;
    assert_eq!(vm.run_once(), 0);
    assert_eq!(vm.pc, 0);
    assert_eq!(vm.run_once(), 0);
    assert_eq!(vm.pc, 1);
}

#[test]
fn a_relative_jump_by_a_negative_number_goes_the_other_way() {
    let mut vm = machine(vec![[0, 0, 0, 0], [7, 1, 0, 0]]);
    vm.pc = 4;
    vm.registers[1] = -6;
    assert_eq!(vm.run_once(), 0);
    assert_eq!(vm.pc, 0);

    let mut vm = machine(vec![[8, 1, 0, 0]]);
    vm.registers[1] = -6;
    assert_eq!(vm.run_once(), 0);
    assert_eq!(vm.pc, 8);
}

#[test]
fn a_jump_below_zero_is_fatal() {
    let mut vm = machine(vec![[8, 0, 0, 0]]);
    vm.registers[0] = 3;
    assert_eq!(vm.run_once(), -1);
    assert_eq!(vm.pc, 2);

    let mut vm = machine(vec![[7, 0, 0, 0]]);
    vm.registers[0] = -3;
    assert_eq!(vm.run_once(), -1);
    assert_eq!(vm.pc, 2);

    let mut vm = machine(vec![[6, 0, 0, 0]]);
    vm.registers[0] = -1;
    assert_eq!(vm.run_once(), -1);
    assert_eq!(vm.pc, 2);

    let mut vm = machine(vec![[15, 0, 0, 0]]);
    vm.registers[0] = i32::MIN;
    vm.equal_flag = true;
    assert_eq!(vm.run_once(), -1);
    assert_eq!(vm.pc, 2);

    let mut vm = machine(vec![[8, 0, 0, 0]]);
    vm.registers[0] = 2;
    assert_eq!(vm.run_once(), 0);
    assert_eq!(vm.pc, 0);
}

#[test]
fn conditional_jumps_take_two_bytes_or_four() {
    for (code, flag, taken) in [(15u8, true, true), (15, false, false), (16, true, false), (16, false, true)] {
        let mut vm = machine(vec![[code, 5, 0, 0]]);
        vm.registers[5] = 40;
        vm.equal_flag = flag;
        assert_eq!(vm.run_once(), 0);
        assert_eq!(vm.pc, if taken { 40 } else { 4 });
        assert_eq!(vm.equal_flag, flag);
    }
}

#[test]
fn each_step_moves_the_program_counter_by_its_count() {
    let cases: Vec<([u8; 4], usize)> = vec![
        ([0, 0, 0, 0], 1),
        ([1, 0, 0, 1], 4),
        ([2, 0, 0, 0], 4),
        ([3, 0, 0, 0], 4),
        ([4, 0, 0, 0], 4),
        ([5, 0, 1, 0], 4),
        ([9, 0, 0, 0], 4),
        ([10, 0, 0, 0], 4),
        ([11, 0, 0, 0], 4),
        ([12, 0, 0, 0], 4),
        ([13, 0, 0, 0], 4),
        ([14, 0, 0, 0], 4),
        ([7, 2, 0, 0], 2),
        ([8, 2, 0, 0], 2),
        ([15, 0, 0, 0], 4),
    ];
    for (word, count) in cases {
        let mut vm = machine(vec![[0, 0, 0, 0], word]);
        vm.pc = 4;
        vm.registers[1] = 1;
        let code = vm.run_once();
        assert_eq!(code, 0);
        assert_eq!(vm.pc, 4 + count);
        assert_eq!(vm.program, vec![0, 0, 0, 0, word[0], word[1], word[2], word[3]]);
    }
}

#[test]
fn a_straight_program_stops_behind_its_first_halt() {
    let source = "LOAD $0 #10 LOAD $1 #3 ADD $0 $1 $2 SUB $0 $1 $3 MUL $0 $1 $4 DIV $0 $1 $5 HLT LOAD $6 #1 HLT";
    let mut vm = machine(assemble(source).unwrap());
    assert_eq!(vm.run(), 0);
    assert_eq!(vm.pc, 6 * 4 + 1);
    assert_eq!(&vm.registers[0..7], &[10, 3, 13, 7, 30, 3, 0]);
    assert_eq!(vm.remainder, 1);
    assert_eq!(vm.program[vm.pc - 1], 0);
}

#[test]
fn a_loop_runs_until_its_condition_fails() {
    let source = "
        LOAD $0 #0
        LOAD $1 #1
        LOAD $2 #5
        LOAD $3 #16
        ADD $0 $1 $0
        LT $0 $2
        JEQ $3
        HLT
    ";
    let mut vm = machine(assemble(source).unwrap());
    assert_eq!(vm.run(), 0);
    assert_eq!(vm.registers[0], 5);
    assert_eq!(vm.pc, 29);
    assert!(!vm.equal_flag);
}

#[test]
fn the_fetchers_read_at_the_program_counter() {
    let mut vm = machine(vec![[12, 1, 2, 3], [4, 5, 6, 7]]);
    assert_eq!(vm.next_8_bits(), 12);
    assert_eq!(vm.pc, 1);
    assert_eq!(vm.next_16_bits(), 1 * 256 + 2);
    assert_eq!(vm.pc, 3);
    assert_eq!(vm.next_16_bits(), 3 * 256 + 4);
    assert_eq!(vm.pc, 5);
    assert_eq!(vm.decode_opcode(), Some(potassium::opcode::Opcode::DIV));
    assert_eq!(vm.pc, 6);
    vm.program[6] = 17;
    assert_eq!(vm.decode_opcode(), None);
    assert_eq!(vm.pc, 7);
    vm.program[7] = 255;
    vm.program[6] = 255;
    vm.pc = 6;
    assert_eq!(vm.next_16_bits(), 65535);
    assert_eq!(vm.pc, 8);
}
