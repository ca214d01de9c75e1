use vstd::prelude::*;

verus! {

/// One metered operation reported while a message executes. The pricing
/// model is total over these categories: an operation always has a cost.
#[derive(Clone, Copy, PartialEq, Eq, Structural, Debug)]
pub enum Operation {
    /// A syscall with a parameter-dependent number of units.
    Syscall { units: u64 },
    /// Memory allocation, scaled by the number of bytes.
    Memory { bytes: u64 },
    /// Execution-engine compute, scaled by the reported step count.
    Compute { steps: u64 },
    /// Storage read, scaled by the content size.
    StorageGet { bytes: u64 },
    /// Storage write, scaled by the content size.
    StoragePut { bytes: u64 },
    /// Fixed cost of one message send (call-stack bookkeeping).
    Send,
}

/// Deterministic gas prices. Cost is a function of the operation and its
/// declared parameters alone.
#[derive(Clone, Copy, PartialEq, Eq, Structural, Debug)]
pub struct PriceList {
    pub syscall_base: u64,
    pub syscall_per_unit: u64,
    pub memory_per_byte: u64,
    pub compute_per_step: u64,
    pub storage_get_base: u64,
    pub storage_get_per_byte: u64,
    pub storage_put_base: u64,
    pub storage_put_per_byte: u64,
    pub send_base: u64,
}

/// `base + per * units`, saturating at the largest representable gas value.
/// Saturation is harmless: a cost at the ceiling exhausts any gas limit.
pub open spec fn scaled_cost(base: u64, per: u64, units: u64) -> u64 {
    if base + per * units > u64::MAX {
        u64::MAX
    } else {
        (base + per * units) as u64
    }
}

impl PriceList {
    /// The gas cost of one operation.
    pub open spec fn spec_cost(self, op: Operation) -> u64 {
        match op {
            Operation::Syscall { units } => scaled_cost(
                self.syscall_base,
                self.syscall_per_unit,
                units,
            ),
            Operation::Memory { bytes } => scaled_cost(0, self.memory_per_byte, bytes),
            Operation::Compute { steps } => scaled_cost(0, self.compute_per_step, steps),
            Operation::StorageGet { bytes } => scaled_cost(
                self.storage_get_base,
                self.storage_get_per_byte,
                bytes,
            ),
            Operation::StoragePut { bytes } => scaled_cost(
                self.storage_put_base,
                self.storage_put_per_byte,
                bytes,
            ),
            Operation::Send => self.send_base,
        }
    }

    /// Total pricing function over all operation categories.
    pub fn cost(&self, op: Operation) -> (r: u64)
        ensures
            r == self.spec_cost(op),
    {
        match op {
            Operation::Syscall { units } => scaled(self.syscall_base, self.syscall_per_unit, units),
            Operation::Memory { bytes } => scaled(0, self.memory_per_byte, bytes),
            Operation::Compute { steps } => scaled(0, self.compute_per_step, steps),
            Operation::StorageGet { bytes } => scaled(
                self.storage_get_base,
                self.storage_get_per_byte,
                bytes,
            ),
            Operation::StoragePut { bytes } => scaled(
                self.storage_put_base,
                self.storage_put_per_byte,
                bytes,
            ),
            Operation::Send => self.send_base,
        }
    }
}

fn scaled(base: u64, per: u64, units: u64) -> (r: u64)
    ensures
        r == scaled_cost(base, per, units),
{
    proof {
        assert((per as int) * (units as int) <= (u64::MAX as int) * (u64::MAX as int))
            by (nonlinear_arith)
            requires
                per <= u64::MAX,
                units <= u64::MAX,
        ;
    }
    let wide: u128 = (per as u128) * (units as u128) + (base as u128);
    if wide > u64::MAX as u128 {
        u64::MAX
    } else {
        wide as u64
    }
}

/// The result of charging `cost` against a budget of `limit` with `used`
/// already spent: the new total and whether the charge fit. A charge that
/// does not fit consumes all remaining gas, so gas used never exceeds the
/// limit and is never silently truncated.
pub open spec fn spec_charge(limit: u64, used: u64, cost: u64) -> (u64, bool) {
    if used + cost <= limit {
        ((used + cost) as u64, true)
    } else {
        (limit, false)
    }
}

/// The single gas counter shared by every frame of one top-level message.
#[derive(Clone, Copy, PartialEq, Eq, Structural, Debug)]
pub struct GasTracker {
    pub gas_limit: u64,
    pub gas_used: u64,
}

impl GasTracker {
    /// Gas already spent never exceeds the declared limit.
    pub open spec fn wf(self) -> bool {
        self.gas_used <= self.gas_limit
    }

    pub fn new(gas_limit: u64) -> (t: GasTracker)
        ensures
            t.wf(),
            t.gas_limit == gas_limit,
            t.gas_used == 0,
    {
        GasTracker { gas_limit, gas_used: 0 }
    }

    /// Charge `cost` units of gas. On exhaustion the whole remaining budget
    /// is consumed and `false` is returned (the out-of-gas outcome).
    pub fn charge(&mut self, cost: u64) -> (ok: bool)
        requires
            old(self).wf(),
        ensures
            final(self).wf(),
            final(self).gas_limit == old(self).gas_limit,
            (final(self).gas_used, ok) == spec_charge(
                old(self).gas_limit,
                old(self).gas_used,
                cost,
            ),
    {
        if cost <= self.gas_limit - self.gas_used {
            self.gas_used = self.gas_used + cost;
            true
        } else {
            self.gas_used = self.gas_limit;
            false
        }
    }
}

} // verus!
