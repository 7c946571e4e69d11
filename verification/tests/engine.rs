use intel4004_emu::intel4004::{Intel4004, Stack};

// --- Control transfer ---

#[test]
fn scenario_subroutine_call_and_return() {
    let mut cpu = Intel4004::new();
    cpu.set_pc(0x010);
    cpu.rom.rom[0x011] = 0x23; // operand byte of the two-word call

    // JMS with high target nibble 1: target 0x123, return address pushed.
    cpu.decode_op(0x51);
    assert_eq!(cpu.get_pc(), 0x123);
    assert_eq!(cpu.get_stack()[0], 0x010);

    // BBL 0x5: restore the saved program counter, load 5 into the accumulator.
    cpu.decode_op(0xC5);
    assert_eq!(cpu.get_pc(), 0x010);
    assert_eq!(cpu.get_acc(), 0x5);
}

#[test]
fn jun_jumps_to_twelve_bit_target() {
    let mut cpu = Intel4004::new();
    cpu.set_pc(0x080);
    cpu.rom.rom[0x081] = 0x34;

    cpu.decode_op(0x42);
    assert_eq!(cpu.get_pc(), 0x234);
}

#[test]
fn bbl_on_empty_stack_reads_zero_slot() {
    let mut cpu = Intel4004::new();
    cpu.set_pc(0x2AB);

    cpu.decode_op(0xC7);
    assert_eq!(cpu.get_pc(), 0x000);
    assert_eq!(cpu.get_acc(), 0x7);
}

#[test]
fn scenario_jcn_invert_bit_falls_through() {
    // All three testable conditions hold, but the invert bit suppresses the jump.
    let mut cpu = Intel4004::new();
    cpu.set_pc(0x020);
    cpu.set_acc(0x0);
    cpu.set_carry(true);
    cpu.rom.rom[0x021] = 0x77; // operand that must not be jumped to

    cpu.decode_op(0x1E); // condition 0b1110: invert + zero-test + carry-test
    assert_eq!(cpu.get_pc(), 0x022);
    assert_eq!(cpu.get_carry(), true);
    assert_eq!(cpu.get_acc(), 0x0);
}

#[test]
fn jcn_taken_on_zero_accumulator() {
    let mut cpu = Intel4004::new();
    cpu.set_pc(0x020);
    cpu.set_acc(0x0);
    cpu.rom.rom[0x021] = 0x77;

    cpu.decode_op(0x14); // condition 0b0100: jump when the accumulator is zero
    assert_eq!(cpu.get_pc(), 0x077);
}

#[test]
fn jcn_taken_on_carry() {
    let mut cpu = Intel4004::new();
    cpu.set_pc(0x020);
    cpu.set_acc(0x5);
    cpu.set_carry(true);
    cpu.rom.rom[0x021] = 0x66;

    cpu.decode_op(0x12); // condition 0b0010: jump when the carry is set
    assert_eq!(cpu.get_pc(), 0x066);
}

#[test]
fn jcn_not_taken_falls_through() {
    let mut cpu = Intel4004::new();
    cpu.set_pc(0x020);
    cpu.set_acc(0x5);
    cpu.rom.rom[0x021] = 0x66;

    cpu.decode_op(0x14); // accumulator is not zero, so no jump
    assert_eq!(cpu.get_pc(), 0x022);
}

// --- Register and immediate instructions ---

#[test]
fn fim_loads_operand_nibble_into_even_register() {
    let mut cpu = Intel4004::new();
    cpu.rom.rom[1] = 0xAB;

    cpu.decode_op(0x24); // pair 2: registers 4 and 5
    assert_eq!(cpu.get_index()[4], 0x0B); // operand masked to a nibble
    assert_eq!(cpu.get_pc(), 0x002);
}

#[test]
fn src_selects_data_memory_address() {
    let mut cpu = Intel4004::new();

    cpu.decode_op(0x27); // odd low nibble: send register control
    assert_eq!(cpu.get_ram_addrs(), 0x3);
    assert_eq!(cpu.get_pc(), 0x001);
}

#[test]
fn fin_fetches_indirect_through_register_zero() {
    let mut cpu = Intel4004::new();
    let mut index = vec![0u8; 16];
    index[0] = 0x5;
    cpu.set_index(index);
    cpu.rom.rom[0x5] = 0x79;

    cpu.decode_op(0x36); // pair 3: registers 6 and 7
    assert_eq!(cpu.get_index()[6], 0x9);
    assert_eq!(cpu.get_pc(), 0x001);
}

#[test]
fn jin_copies_even_register_to_address() {
    let mut cpu = Intel4004::new();
    let mut index = vec![0u8; 16];
    index[4] = 0x9;
    cpu.set_index(index);

    cpu.decode_op(0x35); // pair 2: registers 4 and 5
    assert_eq!(cpu.get_ram_addrs(), 0x9);
}

#[test]
fn inc_wraps_at_four_bits() {
    let mut cpu = Intel4004::new();
    let mut index = vec![0u8; 16];
    index[3] = 0xF;
    cpu.set_index(index);

    cpu.decode_op(0x63);
    assert_eq!(cpu.get_index()[3], 0x0);
}

#[test]
fn isz_branches_while_nonzero() {
    let mut cpu = Intel4004::new();
    let mut index = vec![0u8; 16];
    index[2] = 0x7;
    cpu.set_index(index);
    cpu.rom.rom[1] = 0x50;

    cpu.decode_op(0x72);
    assert_eq!(cpu.get_index()[2], 0x8);
    assert_eq!(cpu.get_pc(), 0x050);
}

#[test]
fn isz_falls_through_on_wrap_to_zero() {
    let mut cpu = Intel4004::new();
    let mut index = vec![0u8; 16];
    index[2] = 0xF;
    cpu.set_index(index);
    cpu.rom.rom[1] = 0x50;

    cpu.decode_op(0x72);
    assert_eq!(cpu.get_index()[2], 0x0);
    assert_eq!(cpu.get_pc(), 0x002);
}

#[test]
fn ld_copies_register_to_accumulator() {
    let mut cpu = Intel4004::new();
    let mut index = vec![0u8; 16];
    index[9] = 0xC;
    cpu.set_index(index);

    cpu.decode_op(0xA9);
    assert_eq!(cpu.get_acc(), 0xC);
    assert_eq!(cpu.get_index()[9], 0xC);
}

#[test]
fn xch_swaps_register_and_accumulator() {
    let mut cpu = Intel4004::new();
    let mut index = vec![0u8; 16];
    index[5] = 0x3;
    cpu.set_index(index);
    cpu.set_acc(0xA);

    cpu.decode_op(0xB5);
    assert_eq!(cpu.get_acc(), 0x3);
    assert_eq!(cpu.get_index()[5], 0xA);
}

#[test]
fn ldm_loads_immediate_nibble() {
    let mut cpu = Intel4004::new();

    cpu.decode_op(0xDC);
    assert_eq!(cpu.get_acc(), 0xC);
}

// --- Arithmetic ---

#[test]
fn add_formula_with_carry_in_and_overflow() {
    // 0xF + 0xF + 1 = 31: accumulator (31 mod 16) = 0xF, carry set.
    let mut cpu = Intel4004::new();
    let mut index = vec![0u8; 16];
    index[2] = 0xF;
    cpu.set_index(index);
    cpu.set_acc(0xF);
    cpu.set_carry(true);

    cpu.decode_op(0x82);
    assert_eq!(cpu.get_acc(), 0xF);
    assert_eq!(cpu.get_carry(), true);
}

#[test]
fn add_without_overflow_clears_carry() {
    let mut cpu = Intel4004::new();
    let mut index = vec![0u8; 16];
    index[2] = 0x4;
    cpu.set_index(index);
    cpu.set_acc(0x7);
    cpu.set_carry(true); // carry-in participates in the sum

    cpu.decode_op(0x82);
    assert_eq!(cpu.get_acc(), 0xC); // 7 + 4 + 1
    assert_eq!(cpu.get_carry(), false);
}

#[test]
fn sub_without_borrow() {
    // Carry clear means borrow 1 extra: 7 - 4 - 1 = 2, no underflow.
    let mut cpu = Intel4004::new();
    let mut index = vec![0u8; 16];
    index[3] = 0x4;
    cpu.set_index(index);
    cpu.set_acc(0x7);

    cpu.decode_op(0x93);
    assert_eq!(cpu.get_acc(), 0x2);
    assert_eq!(cpu.get_carry(), false);
}

#[test]
fn sub_underflow_sets_carry() {
    // Carry set means no extra borrow: 3 - 5 wraps to 0xE, underflow flagged.
    let mut cpu = Intel4004::new();
    let mut index = vec![0u8; 16];
    index[3] = 0x5;
    cpu.set_index(index);
    cpu.set_acc(0x3);
    cpu.set_carry(true);

    cpu.decode_op(0x93);
    assert_eq!(cpu.get_acc(), 0xE);
    assert_eq!(cpu.get_carry(), true);
}

#[test]
fn iac_wraps_and_sets_carry() {
    let mut cpu = Intel4004::new();
    cpu.set_acc(0xF);

    cpu.decode_op(0xF2);
    assert_eq!(cpu.get_acc(), 0x0);
    assert_eq!(cpu.get_carry(), true);
}

#[test]
fn dac_wraps_at_zero_with_inverted_carry() {
    let mut cpu = Intel4004::new();
    cpu.set_acc(0x0);
    cpu.set_carry(true);

    cpu.decode_op(0xF8);
    assert_eq!(cpu.get_acc(), 0xF);
    assert_eq!(cpu.get_carry(), false);
}

#[test]
fn scenario_daa_adjusts_accumulator_above_nine() {
    let mut cpu = Intel4004::new();
    cpu.set_acc(0xB); // 11 > 9, carry clear
    cpu.set_carry(false);

    cpu.decode_op(0xFB);
    assert_eq!(cpu.get_acc(), 0x1); // 11 + 6 = 17, masked to 1
    assert_eq!(cpu.get_carry(), true);
}

#[test]
fn daa_leaves_small_accumulator_alone() {
    let mut cpu = Intel4004::new();
    cpu.set_acc(0x9);
    cpu.set_carry(false);

    cpu.decode_op(0xFB);
    assert_eq!(cpu.get_acc(), 0x9);
    assert_eq!(cpu.get_carry(), false);
}

#[test]
fn rotate_left_then_right_restores_state() {
    let mut cpu = Intel4004::new();
    cpu.set_acc(0xA);
    cpu.set_carry(false);

    cpu.decode_op(0xF5);
    cpu.decode_op(0xF6);
    assert_eq!(cpu.get_acc(), 0xA);
    assert_eq!(cpu.get_carry(), false);

    cpu.decode_op(0xF6);
    cpu.decode_op(0xF5);
    assert_eq!(cpu.get_acc(), 0xA);
    assert_eq!(cpu.get_carry(), false);
}

#[test]
fn kbp_one_hot_mapping() {
    for acc in 0u8..16 {
        let mut cpu = Intel4004::new();
        cpu.set_acc(acc);
        cpu.decode_op(0xFC);
        let expected = match acc {
            0b0000 => 0,
            0b0001 => 1,
            0b0010 => 2,
            0b0100 => 3,
            0b1000 => 4,
            _ => 0xF,
        };
        assert_eq!(cpu.get_acc(), expected);
    }
}

// --- Stack ---

#[test]
fn stack_lifo_with_saturation() {
    let mut stack = Stack::new();
    stack.push(0x111);
    stack.push(0x222);
    stack.push(0x333);
    stack.push(0x444); // overflows: the oldest entry 0x111 is dropped

    assert_eq!(stack.pop(), 0x444);
    assert_eq!(stack.pop(), 0x333);
    assert_eq!(stack.pop(), 0x222);
    assert_eq!(stack.pop(), 0x000); // below empty: the cleared bottom slot
}

#[test]
fn stack_pop_clears_slot() {
    let mut stack = Stack::new();
    stack.push(0xABC);
    assert_eq!(stack.pop(), 0xABC);
    assert_eq!(stack.pop(), 0x000);
}

// --- Engine plumbing ---

#[test]
fn nop_advances_program_counter() {
    let mut cpu = Intel4004::new();
    cpu.decode_op(0x00);
    assert_eq!(cpu.get_pc(), 0x001);
}

#[test]
fn unknown_opcode_is_a_nop() {
    let mut cpu = Intel4004::new();
    cpu.set_acc(0x5);
    cpu.set_carry(true);
    cpu.decode_op(0xFE); // unassigned accumulator-group code
    assert_eq!(cpu.get_pc(), 0x001);
    assert_eq!(cpu.get_acc(), 0x5);
    assert_eq!(cpu.get_carry(), true);
}

#[test]
fn program_counter_wraps_at_twelve_bits() {
    let mut cpu = Intel4004::new();
    cpu.set_pc(0xFFF);
    cpu.decode_op(0x00);
    assert_eq!(cpu.get_pc(), 0x000);
}

#[test]
fn clock_fetches_and_executes_at_pc() {
    let mut cpu = Intel4004::new();
    let mut program = vec![0u8; 256];
    program[0] = 0xD7; // LDM 7
    program[1] = 0xF2; // IAC
    cpu.rom.load_rom(&program);

    cpu.clock();
    assert_eq!(cpu.get_acc(), 0x7);
    assert_eq!(cpu.get_pc(), 0x001);
    cpu.clock();
    assert_eq!(cpu.get_acc(), 0x8);
    assert_eq!(cpu.get_pc(), 0x002);
}

#[test]
fn wrm_out_of_range_selector_leaves_memory() {
    let mut cpu = Intel4004::new();
    cpu.set_acc(0x7);
    cpu.set_ram_addrs(0xC8); // 200: outside the 64-character array

    cpu.decode_op(0xE0);
    assert!(cpu.ram.ram.iter().all(|&v| v == 0));
    assert_eq!(cpu.get_pc(), 0x001);
}

#[test]
fn status_bank_follows_selector_high_bits() {
    let mut cpu = Intel4004::new();
    cpu.set_ram_addrs(0x35); // bank 3
    cpu.set_acc(0x9);

    cpu.decode_op(0xE5); // write status character 1
    assert_eq!(cpu.ram.status[3 * 4 + 1], 0x9);

    cpu.set_acc(0x0);
    cpu.decode_op(0xED); // read it back
    assert_eq!(cpu.get_acc(), 0x9);
}

// --- Accessor masking ---

#[test]
fn setters_mask_to_field_widths() {
    let mut cpu = Intel4004::new();
    cpu.set_acc(0x1F);
    assert_eq!(cpu.get_acc(), 0xF);
    cpu.set_pc(0x1234);
    assert_eq!(cpu.get_pc(), 0x234);
    cpu.set_cc(0xAB);
    assert_eq!(cpu.get_cc(), 0xB);

    let mut index = vec![0u8; 16];
    index[7] = 0x12;
    cpu.set_index(index);
    assert_eq!(cpu.get_index()[7], 0x2);

    cpu.set_stack(vec![0x1234, 0x2, 0x3]);
    assert_eq!(cpu.get_stack()[0], 0x234);
    assert_eq!(cpu.get_stack()[1], 0x2);
    assert_eq!(cpu.get_stack()[2], 0x3);
}
