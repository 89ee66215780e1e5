use zasm::zasmenv::Binding;
use zasm::{Instruction, Param};

#[test]
fn test_instr_to_bytes() {
    let instr = Instruction::from(0x21, 0x7, 0x8, 0x0);
    let actual = instr.to_bytes();
    assert_eq!(actual, [0x21, 0x78, 0x0, 0x0]);
}

#[test]
fn test_instr_to_bytes_imm() {
    let instr = Instruction::from(0x21, 0x0, 0x0, 0x2040);
    let bytes = instr.to_bytes();
    assert_eq!(bytes, [0x21, 0x0, 0x20, 0x40]);
}

#[test]
fn instr_from_params() {
    let instr = Instruction::from_params(0x21, Param::Register(0x7), Param::Immediate(0x2));
    let actual = instr.to_bytes();
    assert_eq!(actual, [0x21, 0x70, 0x0, 0x2]);
}

#[test]
fn a_new_instruction_is_all_zero() {
    assert_eq!(Instruction::new(), Instruction::from(0, 0, 0, 0));
    assert_eq!(Instruction::new().to_bytes(), [0, 0, 0, 0]);
}

#[test]
fn fields_are_stored_as_given() {
    let instr = Instruction::from(0xAB, 0x3, 0xC, 0xBEEF);
    assert_eq!(instr.opcode, 0xAB);
    assert_eq!(instr.r1, 0x3);
    assert_eq!(instr.r2, 0xC);
    assert_eq!(instr.imm, 0xBEEF);
    assert_eq!(instr.to_bytes(), [0xAB, 0x3C, 0xBE, 0xEF]);
}

#[test]
fn operands_fill_slots_and_immediate() {
    let deref = || Param::Deref(Box::new(Param::Register(0x9)));
    let cases = [
        (Param::Register(1), Param::Register(2), (1, 2, 0)),
        (Param::Register(1), Param::Immediate(0x1234), (1, 0, 0x1234)),
        (Param::Register(1), deref(), (1, 0, 0)),
        (deref(), Param::Register(2), (0, 2, 0)),
        (deref(), Param::Immediate(7), (0, 0, 7)),
        // An immediate in the first place leaves no trace.
        (Param::Immediate(0xFFFF), Param::Register(2), (0, 2, 0)),
        (Param::Immediate(0xFFFF), Param::Immediate(5), (0, 0, 5)),
        (deref(), deref(), (0, 0, 0)),
    ];
    for (p1, p2, (r1, r2, imm)) in cases {
        assert_eq!(Instruction::from_params(0x55, p1, p2), Instruction::from(0x55, r1, r2, imm));
    }
}

#[test]
fn every_instruction_with_small_slots_can_be_read_back() {
    for r1 in 0..16u8 {
        for r2 in 0..16u8 {
            for imm in [0u16, 1, 0xFF, 0x100, 0x2040, 0xFFFF] {
                let bytes = Instruction::from(0x42, r1, r2, imm).to_bytes();
                assert_eq!(bytes[0], 0x42);
                assert_eq!(bytes[1], 16 * r1 + r2);
                assert_eq!(u16::from_be_bytes([bytes[2], bytes[3]]), imm);
            }
        }
    }
}

#[test]
fn a_slot_of_more_than_four_bits_loses_its_high_bits() {
    assert_eq!(Instruction::from(0, 0x1F, 0, 0).to_bytes(), [0, 0xF0, 0, 0]);
    assert_eq!(Instruction::from(0, 0x10, 0x3, 0).to_bytes(), [0, 0x03, 0, 0]);
    assert_eq!(Instruction::from(0, 0x1, 0x80, 0).to_bytes(), [0, 0x90, 0, 0]);
}

#[test]
fn a_binding_holds_what_it_was_made_of() {
    let binding = Binding::new("greeting".to_string(), 0x0100, vec![0x68, 0x69, 0x00]);
    assert_eq!(binding.ident(), "greeting");
    assert_eq!(binding.address(), 0x0100);
    assert_eq!(binding.bytes(), [0x68, 0x69, 0x00]);
}
