//! One type for the devices of this crate, so that a machine can have
//! devices of several kinds.

use vstd::prelude::*;
use crate::dcpu::{Device, HardwareInfo, Machine};
use crate::devices::clock_generic::DeviceClockGeneric;
use crate::devices::floppy_m35fd::{DeviceFloppyM35FD, FloppyModel};
use crate::devices::keyboard_generic::{DeviceKeyboardGeneric, KeyboardModel};
use crate::devices::monitor_lem1802::DeviceMonitorLEM1802;
use crate::semantics::CpuState;

verus! {

/// A clock, a keyboard, a floppy drive or a monitor.
pub enum Peripheral {
    Clock(DeviceClockGeneric),
    Keyboard(DeviceKeyboardGeneric),
    Floppy(DeviceFloppyM35FD),
    Monitor(DeviceMonitorLEM1802),
}

/// The view of a [`Peripheral`]: the view of the device it is.
pub enum PeripheralModel {
    Clock(DeviceClockGeneric),
    Keyboard(KeyboardModel),
    Floppy(FloppyModel),
    Monitor(DeviceMonitorLEM1802),
}

impl View for Peripheral {
    type V = PeripheralModel;

    open spec fn view(&self) -> PeripheralModel {
        match self {
            Peripheral::Clock(d) => PeripheralModel::Clock(d@),
            Peripheral::Keyboard(d) => PeripheralModel::Keyboard(d@),
            Peripheral::Floppy(d) => PeripheralModel::Floppy(d@),
            Peripheral::Monitor(d) => PeripheralModel::Monitor(d@),
        }
    }
}

/// A device and a machine as a peripheral and a machine.
pub open spec fn as_clock(r: (DeviceClockGeneric, CpuState)) -> (PeripheralModel, CpuState) {
    (PeripheralModel::Clock(r.0), r.1)
}

pub open spec fn as_keyboard(r: (KeyboardModel, CpuState)) -> (PeripheralModel, CpuState) {
    (PeripheralModel::Keyboard(r.0), r.1)
}

pub open spec fn as_floppy(r: (FloppyModel, CpuState)) -> (PeripheralModel, CpuState) {
    (PeripheralModel::Floppy(r.0), r.1)
}

pub open spec fn as_monitor(r: (DeviceMonitorLEM1802, CpuState)) -> (PeripheralModel, CpuState) {
    (PeripheralModel::Monitor(r.0), r.1)
}

/// A peripheral is in everything the device that it is.
impl Device for Peripheral {
    open spec fn info(model: PeripheralModel) -> HardwareInfo {
        match model {
            PeripheralModel::Clock(d) => DeviceClockGeneric::info(d),
            PeripheralModel::Keyboard(d) => DeviceKeyboardGeneric::info(d),
            PeripheralModel::Floppy(d) => DeviceFloppyM35FD::info(d),
            PeripheralModel::Monitor(d) => DeviceMonitorLEM1802::info(d),
        }
    }

    open spec fn on_interrupt(model: PeripheralModel, cpu: CpuState) -> (PeripheralModel, CpuState) {
        match model {
            PeripheralModel::Clock(d) => as_clock(DeviceClockGeneric::on_interrupt(d, cpu)),
            PeripheralModel::Keyboard(d) => as_keyboard(
                DeviceKeyboardGeneric::on_interrupt(d, cpu),
            ),
            PeripheralModel::Floppy(d) => as_floppy(DeviceFloppyM35FD::on_interrupt(d, cpu)),
            PeripheralModel::Monitor(d) => as_monitor(DeviceMonitorLEM1802::on_interrupt(d, cpu)),
        }
    }

    open spec fn on_run(model: PeripheralModel, cpu: CpuState, cycles: usize) -> (
        PeripheralModel,
        CpuState,
    ) {
        match model {
            PeripheralModel::Clock(d) => as_clock(DeviceClockGeneric::on_run(d, cpu, cycles)),
            PeripheralModel::Keyboard(d) => as_keyboard(
                DeviceKeyboardGeneric::on_run(d, cpu, cycles),
            ),
            PeripheralModel::Floppy(d) => as_floppy(DeviceFloppyM35FD::on_run(d, cpu, cycles)),
            PeripheralModel::Monitor(d) => as_monitor(
                DeviceMonitorLEM1802::on_run(d, cpu, cycles),
            ),
        }
    }

    fn info_hardware_id_upper(&self) -> (r: u16) {
        match self {
            Peripheral::Clock(d) => d.info_hardware_id_upper(),
            Peripheral::Keyboard(d) => d.info_hardware_id_upper(),
            Peripheral::Floppy(d) => d.info_hardware_id_upper(),
            Peripheral::Monitor(d) => d.info_hardware_id_upper(),
        }
    }

    fn info_hardware_id_lower(&self) -> (r: u16) {
        match self {
            Peripheral::Clock(d) => d.info_hardware_id_lower(),
            Peripheral::Keyboard(d) => d.info_hardware_id_lower(),
            Peripheral::Floppy(d) => d.info_hardware_id_lower(),
            Peripheral::Monitor(d) => d.info_hardware_id_lower(),
        }
    }

    fn info_manufacturer_id_upper(&self) -> (r: u16) {
        match self {
            Peripheral::Clock(d) => d.info_manufacturer_id_upper(),
            Peripheral::Keyboard(d) => d.info_manufacturer_id_upper(),
            Peripheral::Floppy(d) => d.info_manufacturer_id_upper(),
            Peripheral::Monitor(d) => d.info_manufacturer_id_upper(),
        }
    }

    fn info_manufacturer_id_lower(&self) -> (r: u16) {
        match self {
            Peripheral::Clock(d) => d.info_manufacturer_id_lower(),
            Peripheral::Keyboard(d) => d.info_manufacturer_id_lower(),
            Peripheral::Floppy(d) => d.info_manufacturer_id_lower(),
            Peripheral::Monitor(d) => d.info_manufacturer_id_lower(),
        }
    }

    fn info_version(&self) -> (r: u16) {
        match self {
            Peripheral::Clock(d) => d.info_version(),
            Peripheral::Keyboard(d) => d.info_version(),
            Peripheral::Floppy(d) => d.info_version(),
            Peripheral::Monitor(d) => d.info_version(),
        }
    }

    fn process_interrupt(&mut self, cpu: &mut Machine) {
        match self {
            Peripheral::Clock(d) => d.process_interrupt(cpu),
            Peripheral::Keyboard(d) => d.process_interrupt(cpu),
            Peripheral::Floppy(d) => d.process_interrupt(cpu),
            Peripheral::Monitor(d) => d.process_interrupt(cpu),
        }
    }

    fn run(&mut self, cpu: &mut Machine, cycles: usize) {
        match self {
            Peripheral::Clock(d) => d.run(cpu, cycles),
            Peripheral::Keyboard(d) => d.run(cpu, cycles),
            Peripheral::Floppy(d) => d.run(cpu, cycles),
            Peripheral::Monitor(d) => d.run(cpu, cycles),
        }
    }
}

} // verus!
