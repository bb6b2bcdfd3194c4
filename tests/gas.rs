use lancher::{GasMeter, GasMetering, GasPoints, Opcode, DEF_GAS_PRIORITY};

#[test]
fn default_costs_by_class() {
    let g = GasMetering::new();
    assert_eq!(DEF_GAS_PRIORITY, 1);
    assert_eq!(g.default_consumption(Opcode::I32Const), 1);
    assert_eq!(g.default_consumption(Opcode::I32Add), 45);
    assert_eq!(g.default_consumption(Opcode::I32Popcnt), 45);
    assert_eq!(g.default_consumption(Opcode::I32Shl), 67);
    assert_eq!(g.default_consumption(Opcode::I32Rotr), 90);
    assert_eq!(g.default_consumption(Opcode::I32DivU), 36000);
    assert_eq!(g.default_consumption(Opcode::I32RemS), 36000);
    assert_eq!(g.default_consumption(Opcode::CallIndirect), 10000);
    assert_eq!(g.default_consumption(Opcode::Call), 90);
    assert_eq!(g.default_consumption(Opcode::Return), 90);
    assert_eq!(g.default_consumption(Opcode::BrTable), 120);
    assert_eq!(g.default_consumption(Opcode::Drop), 120);
    assert_eq!(g.default_consumption(Opcode::Select), 120);
    assert_eq!(g.default_consumption(Opcode::Unreachable), 1);
    assert_eq!(g.default_consumption(Opcode::Other), 1);
}

#[test]
fn add_function_cost_within_budget() {
    // local.get is priced as any other instruction; the body adds, then returns.
    let g = GasMetering::new();
    let cost = g.default_consumption(Opcode::Other) * 2
        + g.default_consumption(Opcode::I32Add)
        + g.default_consumption(Opcode::Return);
    let mut meter = GasMeter::new();
    meter.inject(1000);
    assert!(meter.charge(cost));
    assert_eq!(meter.remaining(), 1000 - 137);
    assert!(meter.remaining() < 1000);
}

#[test]
fn indirect_call_exceeds_unit_budget() {
    let g = GasMetering::new();
    let mut meter = GasMeter::new();
    meter.inject(1);
    assert!(!meter.charge(g.default_consumption(Opcode::CallIndirect)));
    assert!(meter.charge(1));
    assert_eq!(meter.remaining(), 0);
}

#[test]
fn get_left_reads_exhausted_as_zero() {
    let g = GasMetering::new();
    assert_eq!(g.get_left(GasPoints::Remaining(17)), 17);
    assert_eq!(g.get_left(GasPoints::Exhausted), 0);
}

#[test]
fn gas_decrease_outcomes() {
    assert_eq!(GasMetering::gas_decrease(GasPoints::Remaining(10), 4), Some(6));
    assert_eq!(GasMetering::gas_decrease(GasPoints::Remaining(10), 10), Some(0));
    assert_eq!(GasMetering::gas_decrease(GasPoints::Remaining(3), 4), None);
    assert_eq!(GasMetering::gas_decrease(GasPoints::Exhausted, 0), Some(0));
    assert_eq!(GasMetering::gas_decrease(GasPoints::Exhausted, 1), None);
}

#[test]
fn unit_charges_succeed_exactly_budget_times() {
    let n: u64 = 5;
    let mut meter = GasMeter::new();
    meter.inject(n);
    for _ in 0..n {
        assert!(meter.charge(1));
    }
    assert!(!meter.charge(1));
    assert_eq!(meter.remaining(), 0);
    assert!(!meter.charge(1));
    assert_eq!(meter.remaining(), 0);
}

#[test]
fn failed_charge_leaves_budget() {
    let mut meter = GasMeter::new();
    meter.inject(7);
    assert!(!meter.charge(8));
    assert_eq!(meter.remaining(), 7);
    assert!(meter.charge(7));
    assert_eq!(meter.remaining(), 0);
}

#[test]
fn fresh_meter_is_zero_and_reinjection_restarts() {
    let mut meter = GasMeter::new();
    assert_eq!(meter.remaining(), 0);
    assert!(!meter.charge(1));
    assert!(meter.charge(0));
    meter.inject(3);
    assert!(meter.charge(3));
    meter.inject(2);
    assert_eq!(meter.remaining(), 2);
    assert_eq!(GasMeter::from_points(GasPoints::Exhausted).remaining(), 0);
    assert_eq!(GasMeter::from_points(GasPoints::Remaining(9)).remaining(), 9);
}
