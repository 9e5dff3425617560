//! Cycle-counted interpreter for the Game Boy's LR35902 processor, together
//! with the cartridge memory bank controllers that the processor reaches
//! through its bus.

pub mod bitwise;
pub mod cpu;
pub mod hardware;

use crate::cpu::instructions::{execute, UnimplementedInstruction};
use crate::cpu::{CpuState, GameboyCPU, LR35902};
use crate::hardware::bus::Bus;
use crate::hardware::mmu::MmuState;
use vstd::prelude::*;

verus! {

/// The machine after `n` more instructions from `(s, m)`, or at the first
/// fault among them, together with that fault.
pub open spec fn run(s: CpuState, m: MmuState, n: nat) -> (CpuState, MmuState, Option<
    UnimplementedInstruction,
>)
    decreases n,
{
    if n == 0 {
        (s, m, None)
    } else {
        match execute(s, m) {
            Ok(t) => run(t.cpu, t.mem, (n - 1) as nat),
            Err(e) => (s, m, Some(e)),
        }
    }
}

/// A processor wired to a cartridge through its bus.
pub struct Gameboy {
    cpu: LR35902,
    bus: Bus,
}

impl View for Gameboy {
    type V = (CpuState, MmuState);

    closed spec fn view(&self) -> (CpuState, MmuState) {
        (self.cpu@, self.bus@)
    }
}

impl Gameboy {
    pub fn new(cpu: LR35902, bus: Bus) -> (r: Gameboy)
        ensures
            r@ == (cpu@, bus@),
    {
        Gameboy { cpu, bus }
    }

    pub fn cpu(&self) -> (r: &LR35902)
        ensures
            r@ == self@.0,
    {
        &self.cpu
    }

    pub fn bus(&self) -> (r: &Bus)
        ensures
            r@ == self@.1,
    {
        &self.bus
    }

    /// Runs instructions until `max_steps` have run or one faults, checking
    /// the budget between instructions; a fault is returned with the
    /// machine left at the faulting instruction.
    pub fn start(&mut self, max_steps: u64) -> (r: Result<(), UnimplementedInstruction>)
        ensures
            final(self)@.0 == run(old(self)@.0, old(self)@.1, max_steps as nat).0,
            final(self)@.1 == run(old(self)@.0, old(self)@.1, max_steps as nat).1,
            r == (match run(old(self)@.0, old(self)@.1, max_steps as nat).2 {
                Some(e) => Err(e),
                None => Ok(()),
            }),
    {
        let ghost s0 = self@;
        let mut i: u64 = 0;
        let mut fault: Option<UnimplementedInstruction> = None;
        while i < max_steps && fault.is_none()
            invariant
                i <= max_steps,
                match fault {
                    None => run(s0.0, s0.1, max_steps as nat) == run(
                        self@.0,
                        self@.1,
                        (max_steps - i) as nat,
                    ),
                    Some(e) => run(s0.0, s0.1, max_steps as nat) == (self@.0, self@.1, Some(e)),
                },
            decreases max_steps - i,
        {
            let ghost before = self@;
            match self.cpu.step(&mut self.bus) {
                Ok(_) => {},
                Err(e) => {
                    assert(run(before.0, before.1, (max_steps - i) as nat) == (
                        before.0,
                        before.1,
                        Some(e),
                    ));
                    fault = Some(e);
                },
            }
            i = i + 1;
        }
        match fault {
            Some(e) => Err(e),
            None => Ok(()),
        }
    }
}

} // verus!
