//! The M35FD floppy drive. A read or a write takes time: it is asked
//! for by an interrupt and carried out when enough cycles have passed.

use vstd::prelude::*;
use crate::dcpu::{Device, HardwareInfo, Machine};
use crate::semantics::{block, with_block, CpuState, REG_A, REG_B, REG_C, REG_X, REG_Y};

verus! {

pub const FLOPPY_SECTOR_SIZE: usize = 512;
pub const FLOPPY_NUM_SECTORS: usize = 1440;

/// Cycles that the transfer of one sector takes.
pub const READ_WRITE_WAIT_CYCLES: usize = 1667;

/// Cycles that the head takes from one track to the next.
pub const READ_WRITE_TRACK_SEEK_CYCLES: usize = 240;

pub const ERROR_NONE: u16 = 0x0000;
pub const ERROR_BUSY: u16 = 0x0001;
pub const ERROR_NO_MEDIA: u16 = 0x0002;
pub const ERROR_PROTECTED: u16 = 0x0003;
pub const ERROR_EJECT: u16 = 0x0004;
pub const ERROR_BAD_SECTOR: u16 = 0x0005;
pub const ERROR_BROKEN: u16 = 0xffff;

pub const STATE_NO_MEDIA: u16 = 0x0000;
pub const STATE_READY: u16 = 0x0001;
pub const STATE_READY_WP: u16 = 0x0002;
pub const STATE_BUSY: u16 = 0x0003;

/// A disk: the sectors that have been written, and whether it is
/// protected against writing. A sector that the disk does not hold
/// reads as zeros.
pub struct FloppyDisk {
    pub sectors: Vec<[u16; 512]>,
    pub write_protected: bool,
}

/// The view of a [`FloppyDisk`].
pub struct FloppyDiskModel {
    pub sectors: Seq<Seq<u16>>,
    pub write_protected: bool,
}

/// The sectors as sequences of words.
pub open spec fn sector_views(sectors: Seq<[u16; 512]>) -> Seq<Seq<u16>> {
    Seq::new(sectors.len(), |i: int| sectors[i]@)
}

impl View for FloppyDisk {
    type V = FloppyDiskModel;

    open spec fn view(&self) -> FloppyDiskModel {
        FloppyDiskModel {
            sectors: sector_views(self.sectors@),
            write_protected: self.write_protected,
        }
    }
}

impl FloppyDisk {
    /// A disk without sectors that can be written to.
    pub fn new() -> (disk: FloppyDisk)
        ensures
            disk@ == (FloppyDiskModel { sectors: Seq::empty(), write_protected: false }),
    {
        let disk = FloppyDisk { sectors: Vec::new(), write_protected: false };
        assert(disk@.sectors =~= Seq::empty());
        disk
    }
}

/// What the drive is waiting to do.
#[derive(Clone, Copy, PartialEq, Eq, Structural, Debug)]
pub enum FloppyInternalState {
    Idle,
    WaitToRead,
    WaitToWrite,
}

/// The drive.
pub struct DeviceFloppyM35FD {
    pub state: u16,
    pub error: u16,
    pub interrupt_message: u16,
    pub disk: Option<FloppyDisk>,
    pub internal_state: FloppyInternalState,
    /// The sector of the transfer asked for, or of the last one.
    pub rw_sector: u16,
    pub rw_dcpu_address: u16,
    pub rw_wait_cycles: usize,
    /// The state or the error has changed since the last interrupt.
    pub interrupt_queued: bool,
}

/// The view of a [`DeviceFloppyM35FD`].
pub struct FloppyModel {
    pub state: u16,
    pub error: u16,
    pub interrupt_message: u16,
    pub disk: Option<FloppyDiskModel>,
    pub internal_state: FloppyInternalState,
    pub rw_sector: u16,
    pub rw_dcpu_address: u16,
    pub rw_wait_cycles: usize,
    pub interrupt_queued: bool,
}

impl View for DeviceFloppyM35FD {
    type V = FloppyModel;

    open spec fn view(&self) -> FloppyModel {
        FloppyModel {
            state: self.state,
            error: self.error,
            interrupt_message: self.interrupt_message,
            disk: match self.disk {
                Some(disk) => Some(disk@),
                None => None,
            },
            internal_state: self.internal_state,
            rw_sector: self.rw_sector,
            rw_dcpu_address: self.rw_dcpu_address,
            rw_wait_cycles: self.rw_wait_cycles,
            interrupt_queued: self.interrupt_queued,
        }
    }
}

/// A sector of zeros.
pub open spec fn zero_sector() -> Seq<u16> {
    Seq::new(FLOPPY_SECTOR_SIZE as nat, |i: int| 0u16)
}

/// The sectors with sectors of zeros behind them, so that there are at
/// least `count`.
pub open spec fn padded(sectors: Seq<Seq<u16>>, count: nat) -> Seq<Seq<u16>> {
    Seq::new(
        if sectors.len() >= count { sectors.len() } else { count },
        |i: int| if i < sectors.len() { sectors[i] } else { zero_sector() },
    )
}

/// The state that a drive is in when it holds `disk` and is not busy.
pub open spec fn ready_state(disk: FloppyDiskModel) -> u16 {
    if disk.write_protected {
        STATE_READY_WP
    } else {
        STATE_READY
    }
}

/// Tracks between sector `from` and sector `to`; a track has 18 sectors.
pub open spec fn track_distance(from: u16, to: u16) -> int {
    if from / 18 >= to / 18 {
        from / 18 - to / 18
    } else {
        to / 18 - from / 18
    }
}

impl FloppyModel {
    /// A drive without a disk.
    pub open spec fn initial() -> FloppyModel {
        FloppyModel {
            state: 0,
            error: 0,
            interrupt_message: 0,
            disk: None,
            internal_state: FloppyInternalState::Idle,
            rw_sector: 0,
            rw_dcpu_address: 0,
            rw_wait_cycles: 0,
            interrupt_queued: false,
        }
    }

    /// The state set to `state`; a change is to be told by an interrupt.
    pub open spec fn with_state(self, state: u16) -> FloppyModel {
        FloppyModel {
            interrupt_queued: self.interrupt_queued || self.state != state,
            state,
            ..self
        }
    }

    /// The error set to `error`; a change is to be told by an interrupt.
    pub open spec fn with_error(self, error: u16) -> FloppyModel {
        FloppyModel {
            interrupt_queued: self.interrupt_queued || self.error != error,
            error,
            ..self
        }
    }

    /// The answer to a request to read (`write` false) or to write
    /// sector `sector`: no media, busy, protected (writing only), bad
    /// sector from 1440 on, none where the transfer can start, broken in
    /// a state that is none of the four.
    pub open spec fn request_error(self, write: bool, sector: u16) -> u16 {
        if self.state == STATE_NO_MEDIA {
            ERROR_NO_MEDIA
        } else if self.state == STATE_BUSY {
            ERROR_BUSY
        } else if self.state == STATE_READY_WP && write {
            ERROR_PROTECTED
        } else if self.state == STATE_READY || self.state == STATE_READY_WP {
            if sector < FLOPPY_NUM_SECTORS {
                ERROR_NONE
            } else {
                ERROR_BAD_SECTOR
            }
        } else {
            ERROR_BROKEN
        }
    }

    /// The drive after a request to read or write `sector` from or to
    /// memory at `address`. A transfer that can start makes the drive
    /// busy for the time of the transfer and, when reading, of the way
    /// of the head from the sector of the transfer before.
    pub open spec fn request(self, write: bool, sector: u16, address: u16) -> FloppyModel {
        let error = self.request_error(write, sector);
        if error == ERROR_NONE {
            FloppyModel {
                internal_state: if write {
                    FloppyInternalState::WaitToWrite
                } else {
                    FloppyInternalState::WaitToRead
                },
                rw_sector: sector,
                rw_dcpu_address: address,
                rw_wait_cycles: if write {
                    READ_WRITE_WAIT_CYCLES
                } else {
                    (READ_WRITE_WAIT_CYCLES + track_distance(self.rw_sector, sector)
                        * READ_WRITE_TRACK_SEEK_CYCLES) as usize
                },
                ..self
            }.with_state(STATE_BUSY).with_error(error)
        } else {
            self.with_error(error)
        }
    }

    /// The drive and the machine once the transfer that was waited for
    /// is carried out. Without a disk the error is eject. A sector that
    /// the disk does not hold reads as zeros; a write makes the disk
    /// hold every sector up to the one written.
    pub open spec fn transfer(self, cpu: CpuState) -> (FloppyModel, CpuState) {
        let idle = FloppyModel {
            internal_state: FloppyInternalState::Idle,
            rw_wait_cycles: 0,
            ..self
        };
        match self.disk {
            None => (idle.with_state(self.state).with_error(ERROR_EJECT), cpu),
            Some(disk) => if self.internal_state == FloppyInternalState::WaitToRead {
                let data = if self.rw_sector < disk.sectors.len() {
                    disk.sectors[self.rw_sector as int]
                } else {
                    zero_sector()
                };
                (
                    idle.with_state(ready_state(disk)).with_error(ERROR_NONE),
                    CpuState { mem: with_block(cpu.mem, self.rw_dcpu_address, data), ..cpu },
                )
            } else {
                let written = FloppyDiskModel {
                    sectors: padded(disk.sectors, (self.rw_sector + 1) as nat).update(
                        self.rw_sector as int,
                        block(cpu.mem, self.rw_dcpu_address, FLOPPY_SECTOR_SIZE as nat),
                    ),
                    ..disk
                };
                (
                    FloppyModel { disk: Some(written), ..idle }.with_state(
                        ready_state(disk),
                    ).with_error(ERROR_NONE),
                    cpu,
                )
            },
        }
    }

    /// The drive and the machine after `cycles` cycles of waiting.
    pub open spec fn wait(self, cpu: CpuState, cycles: usize) -> (FloppyModel, CpuState) {
        if self.internal_state == FloppyInternalState::Idle {
            (self, cpu)
        } else if self.rw_wait_cycles > cycles {
            (FloppyModel { rw_wait_cycles: (self.rw_wait_cycles - cycles) as usize, ..self }, cpu)
        } else {
            self.transfer(cpu)
        }
    }

    /// The drive and the machine after a change, if there was one, has
    /// been told: by an interrupt if a message is set.
    pub open spec fn tell(self, cpu: CpuState) -> (FloppyModel, CpuState) {
        if self.interrupt_queued {
            (
                FloppyModel { interrupt_queued: false, ..self },
                if self.interrupt_message != 0 { cpu.enqueue(self.interrupt_message) } else { cpu },
            )
        } else {
            (self, cpu)
        }
    }
}

/// A sector of zeros.
fn empty_sector() -> (sector: [u16; 512])
    ensures
        sector@ == zero_sector(),
{
    let mut words = [0u16; 512];
    let mut i: usize = 0;
    while i < 512
        invariant
            i <= 512,
            forall|j: int| 0 <= j < i ==> words@[j] == 0u16,
        decreases 512 - i,
    {
        words[i] = 0;
        i = i + 1;
    }
    assert(words@ =~= zero_sector());
    words
}

impl DeviceFloppyM35FD {
    /// A drive without a disk.
    pub fn new() -> (drive: DeviceFloppyM35FD)
        ensures
            drive@ == FloppyModel::initial(),
    {
        DeviceFloppyM35FD {
            state: 0,
            error: 0,
            interrupt_message: 0,
            disk: None,
            internal_state: FloppyInternalState::Idle,
            rw_sector: 0,
            rw_dcpu_address: 0x0,
            rw_wait_cycles: 0,
            interrupt_queued: false,
        }
    }

    pub fn state(&self) -> (state: u16)
        ensures
            state == self@.state,
    {
        self.state
    }

    pub fn set_state(&mut self, state: u16)
        ensures
            final(self)@ == old(self)@.with_state(state),
    {
        if self.state != state {
            self.interrupt_queued = true;
        }
        self.state = state;
    }

    pub fn error(&self) -> (error: u16)
        ensures
            error == self@.error,
    {
        self.error
    }

    pub fn set_error(&mut self, error: u16)
        ensures
            final(self)@ == old(self)@.with_error(error),
    {
        if self.error != error {
            self.interrupt_queued = true;
        }
        self.error = error;
    }

    /// Puts `disk` into the drive, which becomes ready.
    pub fn insert(&mut self, disk: FloppyDisk)
        ensures
            final(self)@ == (FloppyModel { disk: Some(disk@), ..old(self)@ }).with_state(STATE_READY),
    {
        self.disk = Some(disk);
        self.set_state(STATE_READY);
    }

    /// Takes the disk, if there is one, out of the drive.
    pub fn eject(&mut self) -> (disk: Option<FloppyDisk>)
        ensures
            final(self)@ == (FloppyModel { disk: None, ..old(self)@ }).with_state(STATE_NO_MEDIA),
            match disk {
                Some(d) => old(self)@.disk == Some(d@),
                None => old(self)@.disk is None,
            },
    {
        self.set_state(STATE_NO_MEDIA);
        self.disk.take()
    }

    /// Handles a request to read or write a sector.
    fn request(&mut self, write: bool, sector: u16, address: u16)
        ensures
            final(self)@ == old(self)@.request(write, sector, address),
    {
        let error = if self.state == STATE_NO_MEDIA {
            ERROR_NO_MEDIA
        } else if self.state == STATE_BUSY {
            ERROR_BUSY
        } else if self.state == STATE_READY_WP && write {
            ERROR_PROTECTED
        } else if self.state == STATE_READY || self.state == STATE_READY_WP {
            if (sector as usize) < FLOPPY_NUM_SECTORS {
                ERROR_NONE
            } else {
                ERROR_BAD_SECTOR
            }
        } else {
            ERROR_BROKEN
        };
        if error == ERROR_NONE {
            let track1 = self.rw_sector / 18;
            let track2 = sector / 18;
            let distance = if track1 >= track2 { track1 - track2 } else { track2 - track1 };
            if write {
                self.internal_state = FloppyInternalState::WaitToWrite;
                self.rw_wait_cycles = READ_WRITE_WAIT_CYCLES;
            } else {
                self.internal_state = FloppyInternalState::WaitToRead;
                self.rw_wait_cycles = READ_WRITE_WAIT_CYCLES + (distance as usize)
                    * READ_WRITE_TRACK_SEEK_CYCLES;
            }
            self.rw_sector = sector;
            self.rw_dcpu_address = address;
            self.set_state(STATE_BUSY);
        }
        self.set_error(error);
    }

    /// Carries out the transfer that was waited for.
    fn transfer(&mut self, cpu: &mut Machine)
        requires
            old(self).internal_state != FloppyInternalState::Idle,
        ensures
            (final(self)@, final(cpu)@) == old(self)@.transfer(old(cpu)@),
    {
        let reading = self.internal_state == FloppyInternalState::WaitToRead;
        self.internal_state = FloppyInternalState::Idle;
        self.rw_wait_cycles = 0;
        let sector = self.rw_sector as usize;
        match self.disk.take() {
            None => {
                self.set_error(ERROR_EJECT);
            },
            Some(mut disk) => {
                let ghost before = disk@;
                let state = if disk.write_protected { STATE_READY_WP } else { STATE_READY };
                if reading {
                    if sector < disk.sectors.len() {
                        cpu.write_block(self.rw_dcpu_address, disk.sectors[sector].as_slice());
                    } else {
                        let zeros = empty_sector();
                        cpu.write_block(self.rw_dcpu_address, zeros.as_slice());
                    }
                } else {
                    while disk.sectors.len() <= sector
                        invariant
                            disk.write_protected == before.write_protected,
                            before.sectors.len() <= disk@.sectors.len(),
                            disk@.sectors.len() <= sector + 1 || disk@.sectors.len()
                                == before.sectors.len(),
                            disk@.sectors =~= padded(before.sectors, disk@.sectors.len()),
                        decreases sector + 1 - disk.sectors.len(),
                    {
                        let zeros = empty_sector();
                        let ghost held = disk@.sectors;
                        disk.sectors.push(zeros);
                        assert(disk@.sectors =~= held.push(zero_sector()));
                    }
                    let data = cpu.read_block(self.rw_dcpu_address, FLOPPY_SECTOR_SIZE);
                    let mut words = [0u16; 512];
                    let mut i: usize = 0;
                    while i < FLOPPY_SECTOR_SIZE
                        invariant
                            i <= FLOPPY_SECTOR_SIZE,
                            data@.len() == FLOPPY_SECTOR_SIZE,
                            forall|j: int| 0 <= j < i ==> words@[j] == data@[j],
                        decreases FLOPPY_SECTOR_SIZE - i,
                    {
                        words[i] = data[i];
                        i = i + 1;
                    }
                    assert(words@ =~= data@);
                    disk.sectors[sector] = words;
                    assert(disk@.sectors =~= padded(before.sectors, (sector + 1) as nat).update(
                        sector as int,
                        data@,
                    ));
                }
                self.disk = Some(disk);
                self.set_state(state);
                self.set_error(ERROR_NONE);
            },
        }
    }
}

impl Device for DeviceFloppyM35FD {
    open spec fn info(model: FloppyModel) -> HardwareInfo {
        HardwareInfo {
            hardware_id_lower: 0x24c5,
            hardware_id_upper: 0x4fd5,
            version: 0x000b,
            manufacturer_id_lower: 0x7e91,
            manufacturer_id_upper: 0x1eb3,
        }
    }

    /// `A` selects: 0 writes the state to `B` and the error to `C` and
    /// clears the error; 1 sets the interrupt message from `X`; 2 asks
    /// for sector `X` to be read to memory at `Y`; 3 asks for it to be
    /// written from there.
    open spec fn on_interrupt(model: FloppyModel, cpu: CpuState) -> (FloppyModel, CpuState) {
        let a = cpu.reg[REG_A as int];
        let x = cpu.reg[REG_X as int];
        let y = cpu.reg[REG_Y as int];
        if a == 0 {
            (
                FloppyModel { error: ERROR_NONE, ..model },
                CpuState {
                    reg: cpu.reg.update(REG_B as int, model.state).update(
                        REG_C as int,
                        model.error,
                    ),
                    ..cpu
                },
            )
        } else if a == 1 {
            (FloppyModel { interrupt_message: x, ..model }, cpu)
        } else if a == 2 {
            (model.request(false, x, y), cpu)
        } else if a == 3 {
            (model.request(true, x, y), cpu)
        } else {
            (model, cpu)
        }
    }

    /// The drive waits, carries out the transfer when the wait is over,
    /// and tells a change of its state or error.
    open spec fn on_run(model: FloppyModel, cpu: CpuState, cycles: usize) -> (FloppyModel, CpuState) {
        let (waited, after) = model.wait(cpu, cycles);
        waited.tell(after)
    }

    fn info_hardware_id_upper(&self) -> (r: u16) {
        0x4fd5
    }

    fn info_hardware_id_lower(&self) -> (r: u16) {
        0x24c5
    }

    fn info_manufacturer_id_upper(&self) -> (r: u16) {
        0x1eb3
    }

    fn info_manufacturer_id_lower(&self) -> (r: u16) {
        0x7e91
    }

    fn info_version(&self) -> (r: u16) {
        0x000b
    }

    fn process_interrupt(&mut self, cpu: &mut Machine) {
        let a = cpu.reg[REG_A];
        let x = cpu.reg[REG_X];
        let y = cpu.reg[REG_Y];
        if a == 0 {
            cpu.reg[REG_B] = self.state;
            cpu.reg[REG_C] = self.error;
            self.error = ERROR_NONE;
        } else if a == 1 {
            self.interrupt_message = x;
        } else if a == 2 {
            self.request(false, x, y);
        } else if a == 3 {
            self.request(true, x, y);
        }
    }

    fn run(&mut self, cpu: &mut Machine, cycles: usize) {
        match self.internal_state {
            FloppyInternalState::Idle => {},
            _ => {
                if self.rw_wait_cycles > cycles {
                    self.rw_wait_cycles = self.rw_wait_cycles - cycles;
                } else {
                    self.transfer(cpu);
                }
            },
        }
        if self.interrupt_queued {
            if self.interrupt_message != 0 {
                cpu.interrupt(self.interrupt_message);
            }
            self.interrupt_queued = false;
        }
    }
}

} // verus!
