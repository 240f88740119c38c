//! Sequences of cycles.

use vstd::prelude::*;
use crate::cpu::invariants::lemma_next_wf;
use crate::cpu::model::CpuView;
use crate::cpu::state::BusAccess;

verus! {

impl CpuView {
    /// The state after `n` cycles in which the bus answered with
    /// `data[0]`, ..., `data[n - 1]`.
    pub open spec fn after(self, data: Seq<u8>, n: nat) -> CpuView
        decreases n,
    {
        if n == 0 {
            self
        } else {
            self.after(data, (n - 1) as nat).next(data[n - 1])
        }
    }

    /// The bus access of cycle `n`, counted from zero.
    pub open spec fn access_at(self, data: Seq<u8>, n: nat) -> BusAccess {
        self.after(data, n).bus_access()
    }

    /// The bus accesses of the first `n` cycles, in order: one per cycle.
    pub open spec fn accesses(self, data: Seq<u8>, n: nat) -> Seq<BusAccess> {
        Seq::new(n, |k: int| self.access_at(data, k as nat))
    }
}

/// The state after `n + 1` cycles is the state after `n` cycles, stepped once
/// with `data[n]`.
pub proof fn lemma_after_next(cpu: CpuView, data: Seq<u8>, n: nat)
    ensures
        cpu.after(data, n + 1) == cpu.after(data, n).next(data[n as int]),
        cpu.after(data, 0) == cpu,
{
    assert(cpu.after(data, n + 1) == cpu.after(data, ((n + 1) - 1) as nat).next(
        data[(n + 1) - 1],
    ));
}

/// After `n` cycles the cycle counter has advanced by exactly `n`, modulo
/// 2^32, whatever the program and whatever the bus answered.
pub proof fn lemma_cycles_counted(cpu: CpuView, data: Seq<u8>, n: nat)
    ensures
        cpu.after(data, n).cycles == (cpu.cycles + n) % 0x1_0000_0000,
    decreases n,
{
    if n > 0 {
        lemma_cycles_counted(cpu, data, (n - 1) as nat);
        let before = cpu.after(data, (n - 1) as nat);
        assert(cpu.after(data, n).cycles == (before.cycles + 1) % 0x1_0000_0000);
        assert(((cpu.cycles + (n - 1)) % 0x1_0000_0000 + 1) % 0x1_0000_0000 == (cpu.cycles + n)
            % 0x1_0000_0000) by {
            vstd::arithmetic::div_mod::lemma_add_mod_noop(
                cpu.cycles + (n - 1),
                1,
                0x1_0000_0000,
            );
        }
    }
}

/// However many cycles run, the state can be stepped again and the status
/// register holds neither `Break` nor `Unused`.
pub proof fn lemma_always_wf(cpu: CpuView, data: Seq<u8>, n: nat)
    requires
        cpu.wf(),
    ensures
        cpu.after(data, n).wf(),
        cpu.after(data, n).registers.status.storable(),
        cpu.after(data, n).registers.status.bits() & 0b0011_0000 == 0,
    decreases n,
{
    if n > 0 {
        lemma_always_wf(cpu, data, (n - 1) as nat);
        lemma_next_wf(cpu.after(data, (n - 1) as nat), data[n - 1]);
    }
    crate::cpu::status_flags::lemma_storable_bits(cpu.after(data, n).registers.status);
}

} // verus!
