use synacor::console::{line_is_blank, render_output, strip_carriage_returns, Emission};
use synacor::door::{door_equation, find_door_order, solve_door};
use synacor::loader::{load_program, LoadError};
use synacor::machine::{decode, Action, Instruction, Machine};
use synacor::operand::{
    complement, get_mem, get_value, product_mod, set_mem, set_value, sum_mod, VmError, MEMORY_SIZE,
};

fn machine_with(words: &[u16]) -> Machine {
    let mut memory = vec![0u16; MEMORY_SIZE];
    memory[..words.len()].copy_from_slice(words);
    Machine::new(memory)
}

fn run_to_stop(m: &mut Machine) -> (Result<Action, VmError>, Vec<u16>) {
    let mut out = Vec::new();
    loop {
        match m.step() {
            Ok(Action::Continue) => {}
            Ok(Action::Output(c)) => out.push(c),
            other => return (other, out),
        }
    }
}

fn bytes_of(words: &[u16]) -> Vec<u8> {
    let mut bytes = Vec::new();
    for w in words {
        bytes.push((*w & 0xff) as u8);
        bytes.push((*w >> 8) as u8);
    }
    bytes
}

#[test]
fn set_then_read_register() {
    for v in [0u16, 1, 65, 12345, 32767] {
        let mut m = machine_with(&[1, 32770, v, 0]);
        assert_eq!(m.step(), Ok(Action::Continue));
        assert_eq!(get_value(32770, &m.registers), Ok(v));
        assert_eq!(m.ip, 3);
    }
}

#[test]
fn get_value_classifies_operands() {
    let regs = vec![10u16, 11, 12, 13, 14, 15, 16, 17];
    assert_eq!(get_value(5, &regs), Ok(5));
    assert_eq!(get_value(32767, &regs), Ok(32767));
    assert_eq!(get_value(32768, &regs), Ok(10));
    assert_eq!(get_value(32775, &regs), Ok(17));
    assert_eq!(get_value(32776, &regs), Err(VmError::InvalidOperand));
}

#[test]
fn set_value_needs_a_register() {
    let mut regs = vec![0u16; 8];
    assert_eq!(set_value(32771, &mut regs, 9), Ok(()));
    assert_eq!(regs, vec![0, 0, 0, 9, 0, 0, 0, 0]);
    assert_eq!(set_value(7, &mut regs, 9), Err(VmError::InvalidDestination));
    assert_eq!(set_value(32776, &mut regs, 9), Err(VmError::InvalidDestination));
}

#[test]
fn memory_access_is_bounded() {
    let mut mem = vec![0u16; MEMORY_SIZE];
    assert_eq!(set_mem(32767, &mut mem, 4), Ok(()));
    assert_eq!(get_mem(32767, &mem), Ok(4));
    assert_eq!(get_mem(32768, &mem), Err(VmError::InvalidAddress));
    assert_eq!(set_mem(40000, &mut mem, 1), Err(VmError::InvalidWriteAddress));
    assert_eq!(set_mem(32768, &mut mem, 21), Err(VmError::InvalidWriteAddress));
    assert_eq!(mem[32767], 4);
    assert!(mem[..32767].iter().all(|&w| w == 0));
}

#[test]
fn arithmetic_wraps_modulo_32768() {
    assert_eq!(sum_mod(32758, 15), 5);
    assert_eq!(sum_mod(32767, 32767), 32766);
    assert_eq!(product_mod(200, 200), 7232);
    assert_eq!(product_mod(32767, 32767), 1);
    for a in [0u16, 1, 1000, 32767] {
        for b in [0u16, 7, 32767] {
            assert!(sum_mod(a, b) < 32768);
            assert!(product_mod(a, b) < 32768);
        }
    }
}

#[test]
fn add_and_mult_through_the_machine() {
    let mut m = machine_with(&[9, 32768, 32758, 15, 10, 32769, 200, 200, 0]);
    let (r, out) = run_to_stop(&mut m);
    assert_eq!(r, Ok(Action::Halt));
    assert!(out.is_empty());
    assert_eq!(m.registers[0], 5);
    assert_eq!(m.registers[1], 7232);
}

#[test]
fn not_twice_restores_value() {
    assert_eq!(complement(0), 32767);
    assert_eq!(complement(32767), 0);
    assert_eq!(complement(21845), 10922);
    for x in [0u16, 1, 123, 21845, 32767] {
        assert_eq!(complement(complement(x)), x);
    }
    let mut m = machine_with(&[14, 32768, 123, 14, 32768, 32768, 0]);
    assert_eq!(m.step(), Ok(Action::Continue));
    assert_eq!(m.registers[0], 32767 - 123);
    assert_eq!(m.step(), Ok(Action::Continue));
    assert_eq!(m.registers[0], 123);
}

#[test]
fn comparisons_and_bitwise() {
    let mut m = machine_with(&[
        4, 32768, 7, 7, 4, 32769, 7, 8, 5, 32770, 9, 8, 5, 32771, 8, 9, 12, 32772, 12, 10, 13,
        32773, 12, 10, 11, 32774, 17, 5, 0,
    ]);
    let (r, _) = run_to_stop(&mut m);
    assert_eq!(r, Ok(Action::Halt));
    assert_eq!(m.registers, vec![1, 0, 1, 0, 8, 14, 2, 0]);
}

#[test]
fn stack_round_trip_reverses() {
    let mut m = machine_with(&[2, 11, 2, 22, 2, 33, 3, 32768, 3, 32769, 3, 32770, 0]);
    let (r, _) = run_to_stop(&mut m);
    assert_eq!(r, Ok(Action::Halt));
    assert_eq!(&m.registers[..3], &[33, 22, 11]);
    assert!(m.stack.is_empty());
}

#[test]
fn jumps_fire_or_fall_through() {
    // jt taken
    let mut m = machine_with(&[7, 1, 100]);
    assert_eq!(m.step(), Ok(Action::Continue));
    assert_eq!(m.ip, 100);
    // jt not taken
    let mut m = machine_with(&[7, 0, 100]);
    assert_eq!(m.step(), Ok(Action::Continue));
    assert_eq!(m.ip, 3);
    // jf taken
    let mut m = machine_with(&[8, 0, 100]);
    assert_eq!(m.step(), Ok(Action::Continue));
    assert_eq!(m.ip, 100);
    // jf not taken
    let mut m = machine_with(&[8, 5, 100]);
    assert_eq!(m.step(), Ok(Action::Continue));
    assert_eq!(m.ip, 3);
    // jmp through a register, also to address zero
    let mut m = machine_with(&[6, 32768]);
    assert_eq!(m.step(), Ok(Action::Continue));
    assert_eq!(m.ip, 0);
    let mut m = machine_with(&[1, 32768, 42, 6, 32768]);
    m.step().unwrap();
    m.step().unwrap();
    assert_eq!(m.ip, 42);
}

#[test]
fn call_and_return() {
    let mut m = machine_with(&[17, 5, 19, 66, 0, 19, 65, 18]);
    let (r, out) = run_to_stop(&mut m);
    assert_eq!(r, Ok(Action::Halt));
    assert_eq!(out, vec![65, 66]);
}

#[test]
fn memory_read_and_write_opcodes() {
    let mut m = machine_with(&[16, 100, 77, 15, 32768, 100, 0]);
    let (r, _) = run_to_stop(&mut m);
    assert_eq!(r, Ok(Action::Halt));
    assert_eq!(m.memory[100], 77);
    assert_eq!(m.registers[0], 77);
}

#[test]
fn set_set_out_prints_a() {
    let mut m = machine_with(&[1, 32768, 65, 1, 32769, 66, 19, 32768, 0]);
    let (r, out) = run_to_stop(&mut m);
    assert_eq!(r, Ok(Action::Halt));
    assert_eq!(out, vec![65]);
    assert_eq!(render_output(out[0]), Emission::Char('A'));
}

#[test]
fn add_registers_then_out() {
    let mut m = machine_with(&[9, 32768, 32769, 4, 19, 32768]);
    m.registers[0] = 65;
    m.registers[1] = 66;
    assert_eq!(m.step(), Ok(Action::Continue));
    assert_eq!(m.step(), Ok(Action::Output(70)));
    assert_eq!(render_output(70), Emission::Char('F'));
}

#[test]
fn lone_ret_finishes_cleanly() {
    let mut m = machine_with(&[18]);
    let (r, out) = run_to_stop(&mut m);
    assert_eq!(r, Ok(Action::Finished));
    assert!(out.is_empty());
}

#[test]
fn input_line_is_consumed_one_char_at_a_time() {
    let mut m = machine_with(&[20, 32768, 20, 32769, 20, 32770, 20, 32771]);
    assert_eq!(m.step(), Ok(Action::NeedInput));
    assert_eq!(m.ip, 0);
    assert!(!m.provide_line(&"   \n".chars().collect()));
    assert!(m.provide_line(&"hi\r\n".chars().collect()));
    assert!(!m.provide_line(&"again\n".chars().collect()));
    for _ in 0..3 {
        assert_eq!(m.step(), Ok(Action::Continue));
    }
    assert_eq!(&m.registers[..3], &['h' as u16, 'i' as u16, '\n' as u16]);
    assert_eq!(m.step(), Ok(Action::NeedInput));
    assert_eq!(m.ip, 6);
}

#[test]
fn oversized_input_character_is_fatal() {
    let mut m = machine_with(&[20, 32768]);
    assert!(m.provide_line(&vec!['\u{8000}', '\n']));
    assert_eq!(m.step(), Err(VmError::InputTooLarge));
}

#[test]
fn fatal_conditions() {
    assert_eq!(machine_with(&[3, 32768]).step(), Err(VmError::EmptyStack));
    assert_eq!(machine_with(&[22]).step(), Err(VmError::InvalidOpcode(22)));
    assert_eq!(machine_with(&[32767]).step(), Err(VmError::InvalidOpcode(32767)));
    assert_eq!(machine_with(&[1, 5, 5]).step(), Err(VmError::InvalidDestination));
    assert_eq!(machine_with(&[2, 32776]).step(), Err(VmError::InvalidOperand));
    assert_eq!(machine_with(&[11, 32768, 5, 0]).step(), Err(VmError::ZeroModulus));
    let mut m = machine_with(&[15, 32768, 10, 6, 32768, 0, 0, 0, 0, 0, 32770]);
    assert_eq!(m.step(), Ok(Action::Continue));
    assert_eq!(m.step(), Ok(Action::Continue));
    assert_eq!(m.ip, 32770);
    assert_eq!(m.step(), Err(VmError::InvalidAddress));
    let mut m = machine_with(&[6, 32767]);
    m.memory[32767] = 1;
    m.step().unwrap();
    assert_eq!(m.step(), Err(VmError::InvalidAddress));
}

#[test]
fn memory_address_failures_differ_for_read_and_write() {
    // r0 := mem[20] (32770); wmem r0 5
    let mut words = vec![15u16, 32768, 20, 16, 32768, 5, 0];
    words.resize(21, 0);
    words[20] = 32770;
    let mut m = machine_with(&words);
    assert_eq!(m.step(), Ok(Action::Continue));
    assert_eq!(m.registers[0], 32770);
    let before = m.memory.clone();
    let e = m.step().unwrap_err();
    assert_eq!(e, VmError::InvalidWriteAddress);
    assert_eq!(e.exit_code(), 8);
    assert_eq!(m.memory, before);
    // r0 := mem[20] (32770); rmem r1 r0
    words[3] = 15;
    words[4] = 32769;
    words[5] = 32768;
    let mut m = machine_with(&words);
    m.step().unwrap();
    let e = m.step().unwrap_err();
    assert_eq!(e, VmError::InvalidAddress);
    assert_eq!(e.exit_code(), 7);
}

#[test]
fn whitespace_classification() {
    assert!(line_is_blank(&vec!['\u{85}', '\u{a0}', '\u{2000}', '\u{200a}', '\u{205f}']));
    assert!(!line_is_blank(&vec!['\u{200b}']));
    assert!(!line_is_blank(&vec!['\u{8}']));
}

#[test]
fn exit_codes_are_distinct() {
    let codes = [
        LoadError::TruncatedInput.exit_code(),
        LoadError::InvalidWord.exit_code(),
        VmError::InvalidOpcode(30000).exit_code(),
        VmError::EmptyStack.exit_code(),
        VmError::InvalidDestination.exit_code(),
        VmError::InvalidAddress.exit_code(),
        VmError::InvalidWriteAddress.exit_code(),
        VmError::InputTooLarge.exit_code(),
        VmError::InvalidOperand.exit_code(),
        VmError::ZeroModulus.exit_code(),
    ];
    assert_eq!(codes, [2, 3, 4, 5, 6, 7, 8, 9, 11, 12]);
}

#[test]
fn decode_reads_operands() {
    let mut mem = vec![0u16; MEMORY_SIZE];
    mem[0] = 9;
    mem[1] = 32768;
    mem[2] = 1;
    mem[3] = 2;
    assert_eq!(decode(&mem, 0), Ok(Instruction::Add(32768, 1, 2)));
    assert_eq!(decode(&mem, 1), Err(VmError::InvalidOpcode(32768)));
    assert_eq!(decode(&mem, 4), Ok(Instruction::Halt));
    assert_eq!(decode(&mem, MEMORY_SIZE), Err(VmError::InvalidAddress));
    mem[32766] = 7;
    assert_eq!(decode(&mem, 32766), Err(VmError::InvalidAddress));
}

#[test]
fn loader_rejects_out_of_range_word() {
    let bytes = bytes_of(&[21, 40000, 0]);
    assert_eq!(load_program(&bytes), Err(LoadError::InvalidWord));
    let bytes = bytes_of(&[21, 32776]);
    assert_eq!(load_program(&bytes), Err(LoadError::InvalidWord));
}

#[test]
fn loader_rejects_odd_length() {
    assert_eq!(load_program(&vec![1, 2, 3]), Err(LoadError::TruncatedInput));
}

#[test]
fn loader_decodes_little_endian_and_pads() {
    let mem = load_program(&vec![0x13, 0x00, 0x41, 0x00, 0x00, 0x80]).unwrap();
    assert_eq!(mem.len(), MEMORY_SIZE);
    assert_eq!(&mem[..4], &[19, 65, 32768, 0]);
    assert!(mem[3..].iter().all(|&w| w == 0));
    assert_eq!(load_program(&Vec::new()).unwrap(), vec![0u16; MEMORY_SIZE]);
}

#[test]
fn loaded_program_runs() {
    let bytes = bytes_of(&[19, 72, 19, 105, 0]);
    let mut m = Machine::new(load_program(&bytes).unwrap());
    let (r, out) = run_to_stop(&mut m);
    assert_eq!(r, Ok(Action::Halt));
    assert_eq!(out, vec![72, 105]);
}

#[test]
fn output_rendering() {
    assert_eq!(render_output(65), Emission::Char('A'));
    assert_eq!(render_output(10), Emission::Char('\n'));
    assert_eq!(render_output(0xd800), Emission::Placeholder(0xd800));
    assert_eq!(render_output(0xe000), Emission::Char('\u{e000}'));
}

#[test]
fn blank_lines_and_carriage_returns() {
    assert!(line_is_blank(&" \t\r\n".chars().collect()));
    assert!(line_is_blank(&Vec::new()));
    assert!(line_is_blank(&vec!['\u{3000}']));
    assert!(!line_is_blank(&" x \n".chars().collect()));
    assert_eq!(strip_carriage_returns(&"a\rb\r\n".chars().collect()), vec!['a', 'b', '\n']);
}

#[test]
fn door_puzzle_solution() {
    assert_eq!(door_equation(&vec![9, 2, 5, 7, 3]), 399);
    assert_eq!(door_equation(&vec![2, 3, 5, 7, 9]), 2 + 75 + 343 - 9);
    assert_eq!(solve_door(), Some(vec![9, 2, 5, 7, 3]));
    assert_eq!(find_door_order(&vec![1, 1, 1, 1, 1]), None);
}
