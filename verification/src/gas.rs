//! Deterministic gas metering: a pure cost model mapping an instruction and
//! its operand to a gas amount, and a meter that accumulates cost against a
//! per-transaction limit.
//!
//! Costs come in two families: a fixed per-opcode cost, and a dependent
//! cost `base + per_unit * ceil(operand / unit_size)` for operations whose
//! cost scales with data size. The model is a pure function of the
//! instruction alone, so identical instruction streams always produce
//! identical totals on every host.

use vstd::prelude::*;

verus! {

/// Closed set of operations a script may contain. The execution semantics
/// beyond the cost model are out of scope; `Trap` is the one opcode that
/// aborts a script.
#[derive(Clone, Copy, Debug, PartialEq, Eq, Structural)]
pub enum Opcode {
    /// Arithmetic on registers; fixed cost.
    Add,
    /// Multiplication; fixed cost.
    Mul,
    /// Register move; fixed cost.
    Move,
    /// Conditional jump; fixed cost.
    Jump,
    /// No operation; fixed cost.
    Noop,
    /// Explicit abort of the script; fixed cost.
    Trap,
    /// Memory copy of `operand` bytes; dependent cost.
    MemCopy,
    /// Hash of `operand` bytes; dependent cost.
    Hash,
    /// Contract-state read of `operand` slots; dependent cost.
    StateRead,
    /// Contract-state write of `operand` slots; dependent cost.
    StateWrite,
}

/// One script step: a fixed-shape opcode plus its numeric operand.
/// Immutable once bound to a transaction. Opcodes of the fixed-cost family
/// ignore the operand when metered.
#[derive(Clone, Copy, Debug, PartialEq, Eq, Structural)]
pub struct Instruction {
    /// The operation performed.
    pub opcode: Opcode,
    /// Numeric operand; for dependent-cost opcodes, the data size the cost
    /// scales with.
    pub operand: u64,
}

/// Fixed component of an opcode's cost.
pub open spec fn base_cost(op: Opcode) -> nat {
    match op {
        Opcode::Add => 1,
        Opcode::Mul => 3,
        Opcode::Move => 1,
        Opcode::Jump => 2,
        Opcode::Noop => 1,
        Opcode::Trap => 1,
        Opcode::MemCopy => 10,
        Opcode::Hash => 40,
        Opcode::StateRead => 60,
        Opcode::StateWrite => 120,
    }
}

/// Gas charged per operand unit; zero for the fixed-cost family.
pub open spec fn per_unit_cost(op: Opcode) -> nat {
    match op {
        Opcode::Add => 0,
        Opcode::Mul => 0,
        Opcode::Move => 0,
        Opcode::Jump => 0,
        Opcode::Noop => 0,
        Opcode::Trap => 0,
        Opcode::MemCopy => 1,
        Opcode::Hash => 2,
        Opcode::StateRead => 8,
        Opcode::StateWrite => 16,
    }
}

/// Operand units an opcode's dependent cost is charged in (bytes or slots
/// per unit); at least 1 for every opcode.
pub open spec fn unit_size(op: Opcode) -> nat {
    match op {
        Opcode::Add => 1,
        Opcode::Mul => 1,
        Opcode::Move => 1,
        Opcode::Jump => 1,
        Opcode::Noop => 1,
        Opcode::Trap => 1,
        Opcode::MemCopy => 8,
        Opcode::Hash => 8,
        Opcode::StateRead => 1,
        Opcode::StateWrite => 1,
    }
}

/// Number of units covering `operand` bytes: `ceil(operand / unit)`.
pub open spec fn ceil_units(operand: nat, unit: nat) -> nat
    recommends
        unit >= 1,
{
    (((operand + unit - 1) as int / (unit as int)) as nat)
}

/// The cost model: gas charged for one instruction, as an unbounded
/// mathematical amount. A pure function of opcode and operand, so metering
/// is deterministic and host-speed-independent.
pub open spec fn instr_cost(i: Instruction) -> nat {
    base_cost(i.opcode) + per_unit_cost(i.opcode) * ceil_units(i.operand as nat, unit_size(i.opcode))
}

/// Whether an opcode belongs to the dependent-cost family.
pub open spec fn is_dependent_cost(op: Opcode) -> bool {
    per_unit_cost(op) > 0
}

/// Largest per-unit cost in the table; with a 64-bit operand every
/// instruction cost fits well inside a `u128`.
pub proof fn lemma_instr_cost_bound(i: Instruction)
    ensures
        instr_cost(i) <= 120 + 16 * (u64::MAX as nat),
{
    assert(unit_size(i.opcode) >= 1);
    assert(ceil_units(i.operand as nat, unit_size(i.opcode)) <= i.operand as nat) by {
        let operand = i.operand as nat;
        let unit = unit_size(i.opcode);
        assert((operand + unit - 1) / (unit as int) <= operand) by (nonlinear_arith)
            requires
                unit >= 1,
                operand >= 0,
        ;
    }
    assert(per_unit_cost(i.opcode) * ceil_units(i.operand as nat, unit_size(i.opcode)) <= 16 * (u64::MAX as nat)) by (nonlinear_arith)
        requires
            per_unit_cost(i.opcode) <= 16,
            ceil_units(i.operand as nat, unit_size(i.opcode)) <= u64::MAX as nat,
    ;
}

/// Computes the cost model. Returns a `u128` so that even the largest
/// 64-bit operand is metered without overflow or saturation.
pub fn cost(i: &Instruction) -> (c: u128)
    ensures
        c == instr_cost(*i),
{
    proof {
        lemma_instr_cost_bound(*i);
    }
    let (base, per_unit, unit): (u64, u64, u64) = match i.opcode {
        Opcode::Add => (1, 0, 1),
        Opcode::Mul => (3, 0, 1),
        Opcode::Move => (1, 0, 1),
        Opcode::Jump => (2, 0, 1),
        Opcode::Noop => (1, 0, 1),
        Opcode::Trap => (1, 0, 1),
        Opcode::MemCopy => (10, 1, 8),
        Opcode::Hash => (40, 2, 8),
        Opcode::StateRead => (60, 8, 1),
        Opcode::StateWrite => (120, 16, 1),
    };
    let units: u128 = (i.operand as u128 + unit as u128 - 1) / unit as u128;
    assert(units == ceil_units(i.operand as nat, unit_size(i.opcode)));
    base as u128 + per_unit as u128 * units
}

/// Identical `(instruction, operand)` pairs always yield identical cost:
/// the cost model is a pure function of its argument, independent of host
/// speed, process, or machine.
pub proof fn lemma_cost_deterministic(a: Instruction, b: Instruction)
    requires
        a.opcode == b.opcode,
        a.operand == b.operand,
    ensures
        instr_cost(a) == instr_cost(b),
{
}

/// Running per-transaction gas meter. `used` never exceeds `limit`; when a
/// charge would push it past the limit the meter reports exhaustion and
/// pins `used` at exactly `limit` (the capped total, never the uncapped
/// attempted one).
#[derive(Clone, Copy, Debug)]
pub struct GasMeter {
    /// Gas available to the transaction being metered.
    pub limit: u64,
    /// Gas charged so far.
    pub used: u64,
}

impl GasMeter {
    /// The meter never records more gas than its limit.
    pub open spec fn wf(self) -> bool {
        self.used <= self.limit
    }

    /// Fresh meter for one transaction.
    pub fn new(limit: u64) -> (m: GasMeter)
        ensures
            m.wf(),
            m.limit == limit,
            m.used == 0,
    {
        GasMeter { limit, used: 0 }
    }

    /// Charges one instruction. Returns `true` and adds the cost when it
    /// fits; otherwise returns `false` and caps `used` at the limit.
    pub fn charge(&mut self, i: &Instruction) -> (ok: bool)
        requires
            old(self).wf(),
        ensures
            final(self).wf(),
            final(self).limit == old(self).limit,
            ok == (old(self).used + instr_cost(*i) <= old(self).limit),
            ok ==> final(self).used == old(self).used + instr_cost(*i),
            !ok ==> final(self).used == old(self).limit,
    {
        let c: u128 = cost(i);
        if self.used as u128 + c <= self.limit as u128 {
            self.used = (self.used as u128 + c) as u64;
            true
        } else {
            self.used = self.limit;
            false
        }
    }
}

} // verus!
