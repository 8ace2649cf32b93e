use fuel_core::gas::{cost, GasMeter, Instruction, Opcode};

#[test]
fn fixed_costs_are_exact() {
    assert_eq!(cost(&Instruction { opcode: Opcode::Add, operand: 0 }), 1);
    assert_eq!(cost(&Instruction { opcode: Opcode::Mul, operand: 7 }), 3);
    assert_eq!(cost(&Instruction { opcode: Opcode::Jump, operand: 1 }), 2);
    assert_eq!(cost(&Instruction { opcode: Opcode::Trap, operand: 0 }), 1);
}

#[test]
fn dependent_costs_scale_with_operand() {
    // base 10 + 1 gas per 8-byte unit: 16 bytes are 2 units.
    assert_eq!(cost(&Instruction { opcode: Opcode::MemCopy, operand: 16 }), 12);
    // 9 bytes round up to 2 units of 2 gas each on top of base 40.
    assert_eq!(cost(&Instruction { opcode: Opcode::Hash, operand: 9 }), 44);
    assert_eq!(cost(&Instruction { opcode: Opcode::StateRead, operand: 2 }), 76);
    assert_eq!(cost(&Instruction { opcode: Opcode::StateWrite, operand: 3 }), 168);
    // A zero-size operation costs only the base.
    assert_eq!(cost(&Instruction { opcode: Opcode::MemCopy, operand: 0 }), 10);
}

#[test]
fn cost_is_idempotent_across_calls() {
    let a = Instruction { opcode: Opcode::Hash, operand: 123_456 };
    let b = Instruction { opcode: Opcode::Hash, operand: 123_456 };
    let first = cost(&a);
    for _ in 0..10 {
        assert_eq!(cost(&a), first);
        assert_eq!(cost(&b), first);
    }
}

#[test]
fn meter_charges_until_exhaustion_and_caps() {
    let mut m = GasMeter::new(5);
    assert!(m.charge(&Instruction { opcode: Opcode::Mul, operand: 0 }));
    assert_eq!(m.used, 3);
    // The next charge would reach 6 > 5: refused, used pinned at the limit.
    assert!(!m.charge(&Instruction { opcode: Opcode::Mul, operand: 0 }));
    assert_eq!(m.used, 5);
}

#[test]
fn meter_exact_fit_succeeds() {
    let mut m = GasMeter::new(4);
    assert!(m.charge(&Instruction { opcode: Opcode::Mul, operand: 0 }));
    assert!(m.charge(&Instruction { opcode: Opcode::Add, operand: 0 }));
    assert_eq!(m.used, 4);
}

#[test]
fn huge_operand_does_not_overflow() {
    let c = cost(&Instruction { opcode: Opcode::StateWrite, operand: u64::MAX });
    assert_eq!(c, 120 + 16 * (u64::MAX as u128));
}
