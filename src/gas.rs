use vstd::prelude::*;

verus! {

/// The instruction classes that the cost table prices; every other
/// instruction falls under `Other`.
#[derive(Clone, Copy, Debug, PartialEq, Eq, Structural)]
pub enum Opcode {
    BrTable,
    Return,
    Call,
    CallIndirect,
    I32Const,
    I32Add,
    I32Sub,
    I32Mul,
    I32DivS,
    I32DivU,
    I32RemS,
    I32RemU,
    I32And,
    I32Or,
    I32Xor,
    I32Shl,
    I32ShrU,
    I32ShrS,
    I32Rotl,
    I32Rotr,
    I32Eq,
    I32Eqz,
    I32Ne,
    I32LtS,
    I32LtU,
    I32LeS,
    I32LeU,
    I32GtS,
    I32GtU,
    I32GeS,
    I32GeU,
    I32Clz,
    I32Ctz,
    I32Popcnt,
    Drop,
    Select,
    Unreachable,
    Other,
}

/// The built-in price of one instruction, before the priority multiplier.
pub open spec fn base_cost(op: Opcode) -> u64 {
    match op {
        Opcode::BrTable => 120,
        Opcode::Return => 90,
        Opcode::Call => 90,
        Opcode::CallIndirect => 10000,
        Opcode::I32Const => 1,
        Opcode::I32DivS | Opcode::I32DivU | Opcode::I32RemS | Opcode::I32RemU => 36000,
        Opcode::I32Shl | Opcode::I32ShrU | Opcode::I32ShrS => 67,
        Opcode::I32Rotl | Opcode::I32Rotr => 90,
        Opcode::I32Add | Opcode::I32Sub | Opcode::I32Mul | Opcode::I32And | Opcode::I32Or
        | Opcode::I32Xor | Opcode::I32Eq | Opcode::I32Eqz | Opcode::I32Ne | Opcode::I32LtS
        | Opcode::I32LtU | Opcode::I32LeS | Opcode::I32LeU | Opcode::I32GtS | Opcode::I32GtU
        | Opcode::I32GeS | Opcode::I32GeU | Opcode::I32Clz | Opcode::I32Ctz
        | Opcode::I32Popcnt => 45,
        Opcode::Drop | Opcode::Select => 120,
        Opcode::Unreachable => 1,
        Opcode::Other => 1,
    }
}

/// The priority multiplier applied to every built-in price.
pub const DEF_GAS_PRIORITY: u64 = 1;

/// What the engine reports of a store's budget.
#[derive(Clone, Copy, Debug, PartialEq, Eq, Structural)]
pub enum GasPoints {
    Remaining(u64),
    Exhausted,
}

/// The budget that a report shows: an exhausted budget reads as zero.
pub open spec fn points_left(p: GasPoints) -> u64 {
    match p {
        GasPoints::Remaining(n) => n,
        GasPoints::Exhausted => 0,
    }
}

/// The outcome of charging `amount` against `rem`: whether it succeeded, and
/// the budget after it.
pub open spec fn charged(rem: u64, amount: u64) -> (bool, u64) {
    if amount <= rem {
        (true, (rem - amount) as u64)
    } else {
        (false, rem)
    }
}

/// After `k` charges of one unit from `rem`: how many succeeded, and the
/// budget left.
pub open spec fn unit_charges(rem: u64, k: nat) -> (nat, u64)
    decreases k,
{
    if k == 0 {
        (0, rem)
    } else {
        let prev = unit_charges(rem, (k - 1) as nat);
        let step = charged(prev.1, 1);
        (if step.0 {
            prev.0 + 1
        } else {
            prev.0
        }, step.1)
    }
}

/// The gas-metering component: the cost table and the rules that read and
/// charge a store's budget.
#[derive(Debug)]
pub struct GasMetering;

impl GasMetering {
    /// The metering component; it holds no state of its own.
    pub fn new() -> (r: GasMetering) {
        GasMetering
    }

    /// The built-in price of one instruction, scaled by the priority multiplier.
    pub fn default_consumption(&self, op: Opcode) -> (r: u64)
        ensures
            r == base_cost(op) * DEF_GAS_PRIORITY,
            r >= 1,
    {
        let gas_by_opcode: u64 = match op {
            Opcode::BrTable => 120,
            Opcode::Return => 90,
            Opcode::Call => 90,
            Opcode::CallIndirect => 10000,
            Opcode::I32Const => 1,
            Opcode::I32Add => 45,
            Opcode::I32Sub => 45,
            Opcode::I32Mul => 45,
            Opcode::I32DivS => 36000,
            Opcode::I32DivU => 36000,
            Opcode::I32RemS => 36000,
            Opcode::I32RemU => 36000,
            Opcode::I32And => 45,
            Opcode::I32Or => 45,
            Opcode::I32Xor => 45,
            Opcode::I32Shl => 67,
            Opcode::I32ShrU => 67,
            Opcode::I32ShrS => 67,
            Opcode::I32Rotl => 90,
            Opcode::I32Rotr => 90,
            Opcode::I32Eq => 45,
            Opcode::I32Eqz => 45,
            Opcode::I32Ne => 45,
            Opcode::I32LtS => 45,
            Opcode::I32LtU => 45,
            Opcode::I32LeS => 45,
            Opcode::I32LeU => 45,
            Opcode::I32GtS => 45,
            Opcode::I32GtU => 45,
            Opcode::I32GeS => 45,
            Opcode::I32GeU => 45,
            Opcode::I32Clz => 45,
            Opcode::I32Ctz => 45,
            Opcode::I32Popcnt => 45,
            Opcode::Drop => 120,
            Opcode::Select => 120,
            Opcode::Unreachable => 1,
            Opcode::Other => 1,
        };
        gas_by_opcode * DEF_GAS_PRIORITY
    }

    /// The budget left that an engine report shows; an exhausted budget is zero.
    pub fn get_left(&self, points: GasPoints) -> (r: u64)
        ensures
            r == points_left(points),
    {
        match points {
            GasPoints::Remaining(n) => n,
            GasPoints::Exhausted => 0,
        }
    }

    /// Charges `gas_expected` against the budget that `points` reports: the
    /// budget to write back, or `None` when too little is left (and nothing
    /// is to be written).
    pub fn gas_decrease(points: GasPoints, gas_expected: u64) -> (r: Option<u64>)
        ensures
            charged(points_left(points), gas_expected).0 ==> r == Some(
                charged(points_left(points), gas_expected).1,
            ),
            !charged(points_left(points), gas_expected).0 ==> r.is_none(),
    {
        let gas_left = GasMetering.get_left(points);
        if gas_left < gas_expected {
            return None;
        }
        Some(gas_left - gas_expected)
    }
}

/// The library's model of a store's gas counter: a budget that is injected,
/// read and charged. It is not tied to a store; a host copies the store's
/// points in (`from_points`) and writes `remaining` back.
pub struct GasMeter {
    remaining: u64,
}

impl View for GasMeter {
    type V = u64;

    closed spec fn view(&self) -> u64 {
        self.remaining
    }
}

impl GasMeter {
    /// A meter with the zero budget that a freshly compiled module carries.
    pub fn new() -> (r: GasMeter)
        ensures
            r@ == 0,
    {
        GasMeter { remaining: 0 }
    }

    /// A meter holding what the engine reports; an exhausted budget is zero.
    pub fn from_points(points: GasPoints) -> (r: GasMeter)
        ensures
            r@ == points_left(points),
    {
        GasMeter { remaining: GasMetering.get_left(points) }
    }

    /// Overwrites the budget with `budget`.
    pub fn inject(&mut self, budget: u64)
        ensures
            final(self)@ == budget,
    {
        self.remaining = budget;
    }

    /// The budget left.
    pub fn remaining(&self) -> (r: u64)
        ensures
            r == self@,
    {
        self.remaining
    }

    /// Takes `amount` from the budget if at least that much is left, and says
    /// whether it did; otherwise the budget stays as it was.
    pub fn charge(&mut self, amount: u64) -> (r: bool)
        ensures
            (r, final(self)@) == charged(old(self)@, amount),
            r <==> amount <= old(self)@,
            !r ==> final(self)@ == old(self)@,
            r ==> final(self)@ == old(self)@ - amount,
    {
        match GasMetering::gas_decrease(GasPoints::Remaining(self.remaining), amount) {
            Some(left) => {
                self.remaining = left;
                true
            },
            None => false,
        }
    }
}

/// After a budget of `n` is injected, charges of one unit succeed exactly `n`
/// times; every later one fails, and the budget then reads zero.
pub proof fn lemma_unit_charges(n: u64, k: nat)
    ensures
        k <= n ==> unit_charges(n, k) == (k, (n - k) as u64),
        k > n ==> unit_charges(n, k) == (n as nat, 0u64),
        k >= n ==> charged(unit_charges(n, k).1, 1) == (false, 0u64),
    decreases k,
{
    if k > 0 {
        lemma_unit_charges(n, (k - 1) as nat);
    }
}

/// A charge of more than the budget left fails and leaves the budget as it was.
pub proof fn lemma_charge_atomic(rem: u64, amount: u64)
    requires
        amount > rem,
    ensures
        charged(rem, amount) == (false, rem),
{
}

} // verus!
