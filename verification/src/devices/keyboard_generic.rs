//! A generic keyboard with a buffer of typed keys.

use vstd::prelude::*;
use crate::dcpu::{Device, HardwareInfo, Machine};
use crate::semantics::{CpuState, REG_A, REG_B, REG_C};

verus! {

/// Keys that the buffer holds at most. A key typed into a full buffer
/// empties it first.
pub const MAX_BUFFER: usize = 256;

/// Number of keys whose state (down or up) is tracked.
pub const KEY_COUNT: usize = 0x92;

/// The key that `key` gives while shift is held.
pub open spec fn shifted(key: u16) -> u16 {
    if key == 0x30 {
        0x29
    } else if key == 0x31 {
        0x21
    } else if key == 0x32 {
        0x40
    } else if key == 0x33 {
        0x23
    } else if key == 0x34 {
        0x24
    } else if key == 0x35 {
        0x25
    } else if key == 0x36 {
        0x5e
    } else if key == 0x37 {
        0x26
    } else if key == 0x38 {
        0x2a
    } else if key == 0x39 {
        0x28
    } else if key == 0x3b {
        0x3a
    } else if key == 0x2a {
        0x3c
    } else if key == 0x2e {
        0x3e
    } else if key == 0x2f {
        0x3f
    } else if key == 0x2d {
        0x5f
    } else if key == 0x3d {
        0x2b
    } else if 0x61 <= key <= 0x7a {
        (key - 32) as u16
    } else if 0x5b <= key <= 0x5d {
        (key + 32) as u16
    } else {
        key
    }
}

/// The key that `key` gives while shift is held.
pub fn with_shift(key: u16) -> (r: u16)
    ensures
        r == shifted(key),
{
    if key == 0x30 {
        0x29
    } else if key == 0x31 {
        0x21
    } else if key == 0x32 {
        0x40
    } else if key == 0x33 {
        0x23
    } else if key == 0x34 {
        0x24
    } else if key == 0x35 {
        0x25
    } else if key == 0x36 {
        0x5e
    } else if key == 0x37 {
        0x26
    } else if key == 0x38 {
        0x2a
    } else if key == 0x39 {
        0x28
    } else if key == 0x3b {
        0x3a
    } else if key == 0x2a {
        0x3c
    } else if key == 0x2e {
        0x3e
    } else if key == 0x2f {
        0x3f
    } else if key == 0x2d {
        0x5f
    } else if key == 0x3d {
        0x2b
    } else if 0x61 <= key && key <= 0x7a {
        key - 32
    } else if 0x5b <= key && key <= 0x5d {
        key + 32
    } else {
        key
    }
}

/// The keyboard: the keys typed and not yet read, the message of the
/// interrupt that a key event sends, if any, and which keys are down.
pub struct DeviceKeyboardGeneric {
    pub buffer: Vec<u16>,
    pub interrupt_message: Option<u16>,
    pub pressed: [bool; 0x92],
}

/// The view of a [`DeviceKeyboardGeneric`].
pub struct KeyboardModel {
    pub buffer: Seq<u16>,
    pub interrupt_message: Option<u16>,
    pub pressed: Seq<bool>,
}

impl View for DeviceKeyboardGeneric {
    type V = KeyboardModel;

    open spec fn view(&self) -> KeyboardModel {
        KeyboardModel {
            buffer: self.buffer@,
            interrupt_message: self.interrupt_message,
            pressed: self.pressed@,
        }
    }
}

impl KeyboardModel {
    /// A keyboard on which nothing was typed.
    pub open spec fn initial() -> KeyboardModel {
        KeyboardModel {
            buffer: Seq::empty(),
            interrupt_message: None,
            pressed: Seq::new(KEY_COUNT as nat, |i: int| false),
        }
    }

    /// The machine with this keyboard's interrupt queued, if one is set.
    pub open spec fn notify(self, cpu: CpuState) -> CpuState {
        match self.interrupt_message {
            Some(m) => cpu.enqueue(m),
            None => cpu,
        }
    }

    /// `key` goes down. Unless it is shift (0x90) or control (0x91) it
    /// enters the buffer, in its shifted form while shift is down; a
    /// full buffer is emptied first. A key below 0x92 is marked down.
    pub open spec fn press(self, key: u16) -> KeyboardModel {
        let room = if self.buffer.len() >= MAX_BUFFER { Seq::empty() } else { self.buffer };
        KeyboardModel {
            buffer: if key != 0x90 && key != 0x91 {
                room.push(if self.pressed[0x90] { shifted(key) } else { key })
            } else {
                self.buffer
            },
            pressed: if key < KEY_COUNT { self.pressed.update(key as int, true) } else { self.pressed },
            ..self
        }
    }

    /// `key` goes up: a key below 0x92 is marked up.
    pub open spec fn release(self, key: u16) -> KeyboardModel {
        KeyboardModel {
            pressed: if key < KEY_COUNT { self.pressed.update(key as int, false) } else { self.pressed },
            ..self
        }
    }
}

impl DeviceKeyboardGeneric {
    /// A keyboard on which nothing was typed.
    pub fn new() -> (keyboard: DeviceKeyboardGeneric)
        ensures
            keyboard@ == KeyboardModel::initial(),
    {
        let keyboard = DeviceKeyboardGeneric {
            buffer: Vec::new(),
            interrupt_message: None,
            pressed: [false; 0x92],
        };
        assert forall|i: int| 0 <= i < 0x92 implies #[trigger] keyboard.pressed@[i] == false by {
        }
        assert(keyboard@.pressed =~= KeyboardModel::initial().pressed);
        assert(keyboard@.buffer =~= KeyboardModel::initial().buffer);
        keyboard
    }

    /// Records that `key` went down and queues the keyboard's interrupt.
    pub fn register_press(&mut self, cpu: &mut Machine, key: u16)
        ensures
            final(self)@ == old(self)@.press(key),
            final(cpu)@ == old(self)@.notify(old(cpu)@),
    {
        if key != 0x90 && key != 0x91 {
            if self.buffer.len() >= MAX_BUFFER {
                self.buffer.clear();
            }
            if self.pressed[0x90] {
                self.buffer.push(with_shift(key));
            } else {
                self.buffer.push(key);
            }
        }
        if key < 0x92 {
            self.pressed[key as usize] = true;
        }
        if let Some(m) = self.interrupt_message {
            cpu.interrupt(m);
        }
        assert(self@.buffer =~= old(self)@.press(key).buffer);
    }

    /// Records that `key` went up and queues the keyboard's interrupt.
    pub fn register_release(&mut self, cpu: &mut Machine, key: u16)
        ensures
            final(self)@ == old(self)@.release(key),
            final(cpu)@ == old(self)@.notify(old(cpu)@),
    {
        if key < 0x92 {
            self.pressed[key as usize] = false;
        }
        if let Some(m) = self.interrupt_message {
            cpu.interrupt(m);
        }
    }
}

impl Device for DeviceKeyboardGeneric {
    open spec fn info(model: KeyboardModel) -> HardwareInfo {
        HardwareInfo {
            hardware_id_lower: 0x7406,
            hardware_id_upper: 0x30cf,
            version: 1,
            manufacturer_id_lower: 0,
            manufacturer_id_upper: 0,
        }
    }

    /// `A` selects: 0 empties the buffer; 1 takes the key typed last out
    /// of the buffer into `C`, or zero from an empty buffer; 2 writes to
    /// `C` whether key `B` is down; 3 sets the interrupt message from
    /// `B` (zero for none).
    open spec fn on_interrupt(model: KeyboardModel, cpu: CpuState) -> (KeyboardModel, CpuState) {
        let a = cpu.reg[REG_A as int];
        let b = cpu.reg[REG_B as int];
        if a == 0 {
            (KeyboardModel { buffer: Seq::empty(), ..model }, cpu)
        } else if a == 1 {
            if model.buffer.len() > 0 {
                (
                    KeyboardModel { buffer: model.buffer.drop_last(), ..model },
                    CpuState { reg: cpu.reg.update(REG_C as int, model.buffer.last()), ..cpu },
                )
            } else {
                (model, CpuState { reg: cpu.reg.update(REG_C as int, 0), ..cpu })
            }
        } else if a == 2 {
            (
                model,
                CpuState {
                    reg: cpu.reg.update(
                        REG_C as int,
                        if b < KEY_COUNT && model.pressed[b as int] { 1u16 } else { 0u16 },
                    ),
                    ..cpu
                },
            )
        } else if a == 3 {
            (KeyboardModel { interrupt_message: if b != 0 { Some(b) } else { None }, ..model }, cpu)
        } else {
            (model, cpu)
        }
    }

    open spec fn on_run(model: KeyboardModel, cpu: CpuState, cycles: usize) -> (
        KeyboardModel,
        CpuState,
    ) {
        (model, cpu)
    }

    fn info_hardware_id_upper(&self) -> (r: u16) {
        0x30cf
    }

    fn info_hardware_id_lower(&self) -> (r: u16) {
        0x7406
    }

    fn info_manufacturer_id_upper(&self) -> (r: u16) {
        0x0
    }

    fn info_manufacturer_id_lower(&self) -> (r: u16) {
        0x0
    }

    fn info_version(&self) -> (r: u16) {
        1
    }

    fn process_interrupt(&mut self, cpu: &mut Machine) {
        let reg_a = cpu.reg[REG_A];
        let reg_b = cpu.reg[REG_B];
        if reg_a == 0 {
            self.buffer.clear();
        } else if reg_a == 1 {
            let v = match self.buffer.pop() {
                Some(key) => key,
                None => 0,
            };
            cpu.reg[REG_C] = v;
        } else if reg_a == 2 {
            cpu.reg[REG_C] = if reg_b < 0x92 && self.pressed[reg_b as usize] { 1 } else { 0 };
        } else if reg_a == 3 {
            self.interrupt_message = if reg_b != 0 { Some(reg_b) } else { None };
        }
        assert(self@.buffer =~= Self::on_interrupt(old(self)@, old(cpu)@).0.buffer);
    }

    fn run(&mut self, cpu: &mut Machine, cycles: usize) {
    }
}

} // verus!
