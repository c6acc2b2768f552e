//! A generic clock. It counts in machine cycles.

use vstd::prelude::*;
use crate::dcpu::{Device, HardwareInfo, Machine};
use crate::semantics::{CpuState, REG_A, REG_B, REG_C};

verus! {

/// Cycles of the machine in one second.
pub const CYCLE_HZ: usize = 100000;

/// The clock: how many cycles make one tick (`None` while it is off),
/// the cycles gone by in the current tick, the ticks counted, and the
/// message of the interrupt that each tick sends, if any.
#[derive(Clone, Copy, PartialEq, Eq, Structural, Debug)]
pub struct DeviceClockGeneric {
    pub cycles_between_ticks: Option<usize>,
    pub cycles_in_current_tick: usize,
    pub ticks: u16,
    pub interrupt_message: Option<u16>,
}

impl View for DeviceClockGeneric {
    type V = DeviceClockGeneric;

    open spec fn view(&self) -> DeviceClockGeneric {
        *self
    }
}

/// Cycles in one tick of a clock set to `60 / rate` ticks a second.
pub open spec fn cycles_per_tick(rate: u16) -> usize {
    ((CYCLE_HZ * rate) / 60) as usize
}

/// The clock and the machine once every tick that is due has been
/// counted: as long as the cycles gone by make a tick, a tick is taken
/// off them and counted, and its interrupt, if one is set, is queued.
pub open spec fn settle(clock: DeviceClockGeneric, cpu: CpuState) -> (DeviceClockGeneric, CpuState)
    decreases clock.cycles_in_current_tick,
{
    match clock.cycles_between_ticks {
        Some(n) => if n > 0 && clock.cycles_in_current_tick >= n {
            settle(
                DeviceClockGeneric {
                    cycles_in_current_tick: (clock.cycles_in_current_tick - n) as usize,
                    ticks: clock.ticks.wrapping_add(1),
                    ..clock
                },
                match clock.interrupt_message {
                    Some(m) => cpu.enqueue(m),
                    None => cpu,
                },
            )
        } else {
            (clock, cpu)
        },
        None => (clock, cpu),
    }
}

impl DeviceClockGeneric {
    /// A clock that is off.
    pub fn new() -> (clock: DeviceClockGeneric)
        ensures
            clock == (DeviceClockGeneric {
                cycles_between_ticks: None,
                cycles_in_current_tick: 0,
                ticks: 0,
                interrupt_message: None,
            }),
    {
        DeviceClockGeneric {
            cycles_between_ticks: None,
            cycles_in_current_tick: 0,
            ticks: 0,
            interrupt_message: None,
        }
    }
}

impl Device for DeviceClockGeneric {
    open spec fn info(model: DeviceClockGeneric) -> HardwareInfo {
        HardwareInfo {
            hardware_id_lower: 0xb402,
            hardware_id_upper: 0x12d0,
            version: 1,
            manufacturer_id_lower: 0,
            manufacturer_id_upper: 0,
        }
    }

    /// `A` selects: 0 sets the rate from `B` (zero turns the clock off)
    /// and starts counting anew; 1 writes the ticks counted to `C`; 2
    /// sets the interrupt message from `B` (zero for none).
    open spec fn on_interrupt(model: DeviceClockGeneric, cpu: CpuState) -> (
        DeviceClockGeneric,
        CpuState,
    ) {
        let a = cpu.reg[REG_A as int];
        let b = cpu.reg[REG_B as int];
        if a == 0 {
            (
                DeviceClockGeneric {
                    cycles_between_ticks: if b == 0 { None } else { Some(cycles_per_tick(b)) },
                    cycles_in_current_tick: 0,
                    ticks: 0,
                    ..model
                },
                cpu,
            )
        } else if a == 1 {
            (model, CpuState { reg: cpu.reg.update(REG_C as int, model.ticks), ..cpu })
        } else if a == 2 {
            (
                DeviceClockGeneric {
                    interrupt_message: if b != 0 { Some(b) } else { None },
                    ..model
                },
                cpu,
            )
        } else {
            (model, cpu)
        }
    }

    /// A clock that is on adds the cycles to those gone by and counts
    /// the ticks that are due.
    open spec fn on_run(model: DeviceClockGeneric, cpu: CpuState, cycles: usize) -> (
        DeviceClockGeneric,
        CpuState,
    ) {
        match model.cycles_between_ticks {
            Some(_) => settle(
                DeviceClockGeneric {
                    cycles_in_current_tick: model.cycles_in_current_tick.saturating_add(cycles),
                    ..model
                },
                cpu,
            ),
            None => (model, cpu),
        }
    }

    fn info_hardware_id_upper(&self) -> (r: u16) {
        0x12d0
    }

    fn info_hardware_id_lower(&self) -> (r: u16) {
        0xb402
    }

    fn info_manufacturer_id_upper(&self) -> (r: u16) {
        0x0
    }

    fn info_manufacturer_id_lower(&self) -> (r: u16) {
        0x0
    }

    fn info_version(&self) -> (r: u16) {
        1
    }

    fn process_interrupt(&mut self, cpu: &mut Machine) {
        let reg_a = cpu.reg[REG_A];
        let reg_b = cpu.reg[REG_B];
        if reg_a == 0 {
            if reg_b == 0 {
                self.cycles_between_ticks = None;
            } else {
                self.cycles_between_ticks = Some(((CYCLE_HZ as u64 * reg_b as u64) / 60) as usize);
            }
            self.cycles_in_current_tick = 0;
            self.ticks = 0;
        } else if reg_a == 1 {
            cpu.reg[REG_C] = self.ticks;
        } else if reg_a == 2 {
            self.interrupt_message = if reg_b != 0 { Some(reg_b) } else { None };
        }
    }

    fn run(&mut self, cpu: &mut Machine, cycles: usize) {
        match self.cycles_between_ticks {
            Some(n_cycles) => {
                self.cycles_in_current_tick = self.cycles_in_current_tick.saturating_add(cycles);
                while n_cycles > 0 && self.cycles_in_current_tick >= n_cycles
                    invariant
                        self.cycles_between_ticks == Some(n_cycles),
                        settle(*self, cpu@) == Self::on_run(*old(self), old(cpu)@, cycles),
                    decreases self.cycles_in_current_tick,
                {
                    self.cycles_in_current_tick = self.cycles_in_current_tick - n_cycles;
                    self.ticks = self.ticks.wrapping_add(1);
                    if let Some(m) = self.interrupt_message {
                        cpu.interrupt(m);
                    }
                }
            },
            None => {},
        }
    }
}

} // verus!
