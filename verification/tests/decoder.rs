use isa::instruction::descriptor_table;
use isa::{Instruction, InvalidInstruction};

#[test]
fn test_opcode() {
    let inst = Instruction::LOAD;
    assert_eq!(inst.opcode(), 0b110000);
}

#[test]
fn test_get_instruction() {
    let code = 0b100000_111_000_000_1; // ADDC
    assert_eq!(
        Instruction::get_instruction(code).unwrap(),
        Instruction::ADDC
    );
}

#[test]
fn test_decode_load() {
    let mem = 0b1100001000100011; // LOAD
    assert_eq!(Instruction::get_instruction(mem), Ok(Instruction::LOAD));
}

#[test]
fn test_decode_addc_differs_from_add_by_bit_zero() {
    let with_carry = 0b100000_111_000_000_1;
    let without_carry = 0b100000_111_000_000_0;
    assert_eq!(
        Instruction::get_instruction(with_carry),
        Ok(Instruction::ADDC)
    );
    assert_eq!(
        Instruction::get_instruction(without_carry),
        Ok(Instruction::ADD)
    );
}

#[test]
fn test_decode_zero_is_nop() {
    assert_eq!(Instruction::get_instruction(0), Ok(Instruction::NOP));
}

#[test]
fn test_decode_unassigned_pattern_fails() {
    let word = 0b001001_000_000_000_0;
    assert_eq!(
        Instruction::get_instruction(word),
        Err(InvalidInstruction { code: word })
    );
}

#[test]
fn test_decode_error_carries_the_word() {
    for word in [0b001001_000_000_000_0_u16, 0b001010_101_010_101_0, 0x07FE] {
        match Instruction::get_instruction(word) {
            Ok(i) => panic!("{} decoded as {}", word, i.name()),
            Err(e) => assert_eq!(e.code, word),
        }
    }
}

#[test]
fn test_decode_is_deterministic() {
    for word in [0u16, 0b1100001000100011, 0b100000_111_000_000_1, 0xFFFF, 0x07FE] {
        assert_eq!(
            Instruction::get_instruction(word),
            Instruction::get_instruction(word)
        );
    }
}

#[test]
fn test_decode_matches_first_table_entry() {
    // Decoding every 16-bit word agrees with a scan of the descriptor table
    // in declared order: the first descriptor whose masked comparison
    // succeeds wins.
    let table = descriptor_table();
    for word in 0..=0xFFFF_u16 {
        let expected = table
            .iter()
            .find(|d| word & d.mask == d.code)
            .map(|d| d.instr)
            .ok_or(InvalidInstruction { code: word });
        assert_eq!(Instruction::get_instruction(word), expected);
    }
}

#[test]
fn test_table_shape() {
    let table = descriptor_table();
    assert_eq!(table.len(), 71);
    assert_eq!(table[0].instr, Instruction::LOAD);
    assert_eq!(table[70].instr, Instruction::BREAKP);
    // Every entry keeps the structural invariant: the bits its code fixes
    // are covered by its mask.
    for d in &table {
        assert_eq!(d.code & d.mask, d.code);
    }
    // Each descriptor agrees with the accessors of its instruction.
    for d in &table {
        assert_eq!(d.code, d.instr.code());
        assert_eq!(d.mask, d.instr.mask());
    }
}

#[test]
fn test_opcode_shared_within_family() {
    // Add with and without carry differ only in bit 0: same family selector.
    assert_eq!(Instruction::ADD.opcode(), Instruction::ADDC.opcode());
    // Increment and decrement differ only in bit 6.
    assert_eq!(Instruction::INC.opcode(), Instruction::DEC.opcode());
    // The four shifts and two rotations share one 6-bit opcode.
    let shifts = [
        Instruction::SHIFTL0,
        Instruction::SHIFTL1,
        Instruction::SHIFTR0,
        Instruction::SHIFTR1,
        Instruction::ROTL,
        Instruction::ROTR,
    ];
    for i in shifts {
        assert_eq!(i.opcode(), Instruction::SHIFTL0.opcode());
    }
    // The opcode never exceeds 6 bits, whatever the instruction's own mask.
    for d in &descriptor_table() {
        assert!(d.instr.opcode() < 64);
    }
}

#[test]
fn test_opcode_values() {
    assert_eq!(Instruction::NOP.opcode(), 0);
    assert_eq!(Instruction::OUTPUT.opcode(), 0b111111);
    assert_eq!(Instruction::JMP.opcode(), 0b000010);
}

#[test]
fn test_code_and_mask_accessors() {
    assert_eq!(Instruction::LOAD.code(), 0b110000_000_000_000_0);
    assert_eq!(Instruction::LOAD.mask(), 0b111111_000_000_000_0);
    assert_eq!(Instruction::ADD.mask(), 0b111111_000_000_000_1);
    assert_eq!(Instruction::JEQ.code(), 0b000010_000_100_000_0);
}

#[test]
fn test_name() {
    assert_eq!(Instruction::LOAD.name(), "LOAD");
    assert_eq!(Instruction::ADDC.name(), "ADDC");
    assert_eq!(Instruction::BREAKP.name(), "BREAKP");
}

#[test]
fn test_default_is_nop() {
    assert_eq!(Instruction::default(), Instruction::NOP);
}

#[test]
fn test_every_code_decodes_to_its_instruction() {
    // Each instruction's own defining code decodes back to that instruction:
    // the table has no pair of entries where a later code is shadowed by an
    // earlier mask.
    for d in &descriptor_table() {
        assert_eq!(Instruction::get_instruction(d.code), Ok(d.instr));
    }
}
