use dcpu16::dcpu::{Device, Machine, DCPU};
use dcpu16::devices::clock_generic::{DeviceClockGeneric, CYCLE_HZ};
use dcpu16::devices::floppy_m35fd::{
    DeviceFloppyM35FD, FloppyDisk, FloppyInternalState, ERROR_BAD_SECTOR, ERROR_BROKEN,
    ERROR_BUSY, ERROR_EJECT, ERROR_NONE, ERROR_NO_MEDIA, ERROR_PROTECTED, STATE_BUSY,
    STATE_NO_MEDIA, STATE_READY, STATE_READY_WP,
};
use dcpu16::devices::keyboard_generic::{with_shift, DeviceKeyboardGeneric};
use dcpu16::devices::peripheral::Peripheral;
use dcpu16::devices::monitor_lem1802::{
    DeviceMonitorLEM1802, DEFAULT_FONT, DEFAULT_PALETTE, LOGO_PIXELS, MONITOR_HEIGHT,
    MONITOR_WIDTH,
};

fn interrupt<D: Device>(device: &mut D, cpu: &mut Machine, a: u16, b: u16) {
    cpu.reg[0] = a;
    cpu.reg[1] = b;
    device.process_interrupt(cpu);
}

#[test]
fn clock_info() {
    let clock = DeviceClockGeneric::new();
    assert_eq!(clock.info_hardware_id_upper(), 0x12d0);
    assert_eq!(clock.info_hardware_id_lower(), 0xb402);
    assert_eq!(clock.info_manufacturer_id_upper(), 0);
    assert_eq!(clock.info_manufacturer_id_lower(), 0);
    assert_eq!(clock.info_version(), 1);
    assert_eq!(CYCLE_HZ, 100000);
}

#[test]
fn clock_counts_ticks() {
    let mut cpu = Machine::new();
    let mut clock = DeviceClockGeneric::new();
    clock.run(&mut cpu, 1000);
    assert_eq!(clock.ticks, 0);
    assert_eq!(clock.cycles_in_current_tick, 0);
    interrupt(&mut clock, &mut cpu, 0, 60);
    assert_eq!(clock.cycles_between_ticks, Some(100000));
    clock.run(&mut cpu, 250000);
    assert_eq!(clock.ticks, 2);
    assert_eq!(clock.cycles_in_current_tick, 50000);
    clock.run(&mut cpu, 50000);
    assert_eq!(clock.ticks, 3);
    assert_eq!(clock.cycles_in_current_tick, 0);
    interrupt(&mut clock, &mut cpu, 1, 0);
    assert_eq!(cpu.reg[2], 3);
    assert!(cpu.interrupt_queue.is_empty());
    interrupt(&mut clock, &mut cpu, 0, 7);
    assert_eq!(clock.cycles_between_ticks, Some(11666));
    assert_eq!(clock.ticks, 0);
    interrupt(&mut clock, &mut cpu, 0, 0xffff);
    assert_eq!(clock.cycles_between_ticks, Some(109225000));
    interrupt(&mut clock, &mut cpu, 0, 0);
    assert_eq!(clock.cycles_between_ticks, None);
    interrupt(&mut clock, &mut cpu, 9, 5);
    assert_eq!(clock, DeviceClockGeneric::new());
}

#[test]
fn clock_sends_interrupts() {
    let mut cpu = Machine::new();
    let mut clock = DeviceClockGeneric::new();
    interrupt(&mut clock, &mut cpu, 2, 0x77);
    assert_eq!(clock.interrupt_message, Some(0x77));
    interrupt(&mut clock, &mut cpu, 0, 1);
    assert_eq!(clock.cycles_between_ticks, Some(1666));
    clock.run(&mut cpu, 5000);
    assert_eq!(clock.ticks, 3);
    assert_eq!(clock.cycles_in_current_tick, 2);
    assert_eq!(cpu.interrupt_queue, vec![0x77, 0x77, 0x77]);
    interrupt(&mut clock, &mut cpu, 2, 0);
    assert_eq!(clock.interrupt_message, None);
    clock.run(&mut cpu, 1664);
    assert_eq!(clock.ticks, 4);
    assert_eq!(cpu.interrupt_queue.len(), 3);
    clock.ticks = 0xffff;
    clock.run(&mut cpu, 1666);
    assert_eq!(clock.ticks, 0);
}

#[test]
fn keyboard_shift() {
    assert_eq!(with_shift(0x30), 0x29);
    assert_eq!(with_shift(0x31), 0x21);
    assert_eq!(with_shift(0x32), 0x40);
    assert_eq!(with_shift(0x33), 0x23);
    assert_eq!(with_shift(0x34), 0x24);
    assert_eq!(with_shift(0x35), 0x25);
    assert_eq!(with_shift(0x36), 0x5e);
    assert_eq!(with_shift(0x37), 0x26);
    assert_eq!(with_shift(0x38), 0x2a);
    assert_eq!(with_shift(0x39), 0x28);
    assert_eq!(with_shift(0x3b), 0x3a);
    assert_eq!(with_shift(0x2a), 0x3c);
    assert_eq!(with_shift(0x2e), 0x3e);
    assert_eq!(with_shift(0x2f), 0x3f);
    assert_eq!(with_shift(0x2d), 0x5f);
    assert_eq!(with_shift(0x3d), 0x2b);
    assert_eq!(with_shift(0x61), 0x41);
    assert_eq!(with_shift(0x7a), 0x5a);
    assert_eq!(with_shift(0x5b), 0x7b);
    assert_eq!(with_shift(0x5d), 0x7d);
    assert_eq!(with_shift(0x20), 0x20);
    assert_eq!(with_shift(0x41), 0x41);
    assert_eq!(with_shift(0x7b), 0x7b);
    assert_eq!(with_shift(0xffff), 0xffff);
}

#[test]
fn keyboard_buffers_keys() {
    let mut cpu = Machine::new();
    let mut keyboard = DeviceKeyboardGeneric::new();
    assert_eq!(keyboard.info_hardware_id_upper(), 0x30cf);
    assert_eq!(keyboard.info_hardware_id_lower(), 0x7406);
    assert_eq!(keyboard.info_version(), 1);
    keyboard.register_press(&mut cpu, 0x61);
    keyboard.register_release(&mut cpu, 0x61);
    keyboard.register_press(&mut cpu, 0x90);
    keyboard.register_press(&mut cpu, 0x62);
    keyboard.register_release(&mut cpu, 0x90);
    keyboard.register_press(&mut cpu, 0x91);
    keyboard.register_press(&mut cpu, 0x1000);
    assert_eq!(keyboard.buffer, vec![0x61, 0x42, 0x1000]);
    assert!(keyboard.pressed[0x62]);
    assert!(keyboard.pressed[0x91]);
    assert!(!keyboard.pressed[0x61]);
    assert!(!keyboard.pressed[0x90]);
    assert!(cpu.interrupt_queue.is_empty());
    // is key B down?
    interrupt(&mut keyboard, &mut cpu, 2, 0x62);
    assert_eq!(cpu.reg[2], 1);
    interrupt(&mut keyboard, &mut cpu, 2, 0x61);
    assert_eq!(cpu.reg[2], 0);
    interrupt(&mut keyboard, &mut cpu, 2, 0x92);
    assert_eq!(cpu.reg[2], 0);
    // the key typed last comes out first
    interrupt(&mut keyboard, &mut cpu, 1, 0);
    assert_eq!(cpu.reg[2], 0x1000);
    interrupt(&mut keyboard, &mut cpu, 1, 0);
    assert_eq!(cpu.reg[2], 0x42);
    interrupt(&mut keyboard, &mut cpu, 0, 0);
    assert!(keyboard.buffer.is_empty());
    interrupt(&mut keyboard, &mut cpu, 1, 0);
    assert_eq!(cpu.reg[2], 0);
    keyboard.run(&mut cpu, 1000);
    assert!(keyboard.buffer.is_empty());
}

#[test]
fn keyboard_full_buffer_is_emptied() {
    let mut cpu = Machine::new();
    let mut keyboard = DeviceKeyboardGeneric::new();
    for i in 0..256 {
        keyboard.register_press(&mut cpu, 0x100 + i);
    }
    assert_eq!(keyboard.buffer.len(), 256);
    keyboard.register_press(&mut cpu, 0x33);
    assert_eq!(keyboard.buffer, vec![0x33]);
}

#[test]
fn keyboard_sends_interrupts() {
    let mut cpu = Machine::new();
    let mut keyboard = DeviceKeyboardGeneric::new();
    interrupt(&mut keyboard, &mut cpu, 3, 0x55);
    assert_eq!(keyboard.interrupt_message, Some(0x55));
    keyboard.register_press(&mut cpu, 0x90);
    keyboard.register_release(&mut cpu, 0x90);
    assert_eq!(cpu.interrupt_queue, vec![0x55, 0x55]);
    interrupt(&mut keyboard, &mut cpu, 3, 0);
    assert_eq!(keyboard.interrupt_message, None);
    keyboard.register_press(&mut cpu, 0x41);
    assert_eq!(cpu.interrupt_queue.len(), 2);
}

fn floppy_request(drive: &mut DeviceFloppyM35FD, cpu: &mut Machine, a: u16, x: u16, y: u16) {
    cpu.reg[0] = a;
    cpu.reg[3] = x;
    cpu.reg[4] = y;
    drive.process_interrupt(cpu);
}

#[test]
fn floppy_info_and_state() {
    let mut drive = DeviceFloppyM35FD::new();
    assert_eq!(drive.info_hardware_id_upper(), 0x4fd5);
    assert_eq!(drive.info_hardware_id_lower(), 0x24c5);
    assert_eq!(drive.info_manufacturer_id_upper(), 0x1eb3);
    assert_eq!(drive.info_manufacturer_id_lower(), 0x7e91);
    assert_eq!(drive.info_version(), 0x000b);
    assert_eq!(drive.state(), STATE_NO_MEDIA);
    assert_eq!(drive.error(), ERROR_NONE);
    assert!(!drive.interrupt_queued);
    drive.set_state(STATE_NO_MEDIA);
    drive.set_error(ERROR_NONE);
    assert!(!drive.interrupt_queued);
    drive.set_error(ERROR_BUSY);
    assert!(drive.interrupt_queued);
    assert_eq!(drive.error(), ERROR_BUSY);
    drive.interrupt_queued = false;
    drive.set_state(STATE_READY);
    assert!(drive.interrupt_queued);
    assert_eq!(drive.state(), STATE_READY);
    let disk = FloppyDisk::new();
    assert!(disk.sectors.is_empty());
    assert!(!disk.write_protected);
}

#[test]
fn floppy_insert_eject_and_poll() {
    let mut cpu = Machine::new();
    let mut drive = DeviceFloppyM35FD::new();
    assert!(drive.eject().is_none());
    assert!(!drive.interrupt_queued);
    drive.insert(FloppyDisk::new());
    assert_eq!(drive.state(), STATE_READY);
    assert!(drive.interrupt_queued);
    // tell the change: no message is set, so nothing is queued
    drive.run(&mut cpu, 10);
    assert!(!drive.interrupt_queued);
    assert!(cpu.interrupt_queue.is_empty());
    floppy_request(&mut drive, &mut cpu, 1, 0x99, 0);
    assert_eq!(drive.interrupt_message, 0x99);
    drive.set_error(ERROR_EJECT);
    floppy_request(&mut drive, &mut cpu, 0, 0, 0);
    assert_eq!(cpu.reg[1], STATE_READY);
    assert_eq!(cpu.reg[2], ERROR_EJECT);
    assert_eq!(drive.error(), ERROR_NONE);
    drive.run(&mut cpu, 10);
    assert_eq!(cpu.interrupt_queue, vec![0x99]);
    assert!(drive.eject().is_some());
    assert_eq!(drive.state(), STATE_NO_MEDIA);
    assert!(drive.disk.is_none());
}

#[test]
fn floppy_refuses_requests() {
    let mut cpu = Machine::new();
    let mut drive = DeviceFloppyM35FD::new();
    floppy_request(&mut drive, &mut cpu, 2, 0, 0);
    assert_eq!(drive.error(), ERROR_NO_MEDIA);
    floppy_request(&mut drive, &mut cpu, 3, 0, 0);
    assert_eq!(drive.error(), ERROR_NO_MEDIA);
    drive.insert(FloppyDisk::new());
    floppy_request(&mut drive, &mut cpu, 2, 1440, 0);
    assert_eq!(drive.error(), ERROR_BAD_SECTOR);
    floppy_request(&mut drive, &mut cpu, 3, 1440, 0);
    assert_eq!(drive.error(), ERROR_BAD_SECTOR);
    assert_eq!(drive.state(), STATE_READY);
    drive.set_state(STATE_READY_WP);
    floppy_request(&mut drive, &mut cpu, 3, 0, 0);
    assert_eq!(drive.error(), ERROR_PROTECTED);
    drive.set_state(STATE_BUSY);
    floppy_request(&mut drive, &mut cpu, 2, 0, 0);
    assert_eq!(drive.error(), ERROR_BUSY);
    floppy_request(&mut drive, &mut cpu, 3, 0, 0);
    assert_eq!(drive.error(), ERROR_BUSY);
    drive.set_state(9);
    floppy_request(&mut drive, &mut cpu, 2, 0, 0);
    assert_eq!(drive.error(), ERROR_BROKEN);
    assert_eq!(drive.internal_state, FloppyInternalState::Idle);
    floppy_request(&mut drive, &mut cpu, 7, 0, 0);
    assert_eq!(drive.error(), ERROR_BROKEN);
}

#[test]
fn floppy_writes_and_reads_a_sector() {
    let mut cpu = Machine::new();
    let mut drive = DeviceFloppyM35FD::new();
    drive.insert(FloppyDisk::new());
    for i in 0..512usize {
        cpu.mem[(0xff00 + i) % 0x10000] = i as u16 + 1;
    }
    floppy_request(&mut drive, &mut cpu, 3, 2, 0xff00);
    assert_eq!(drive.state(), STATE_BUSY);
    assert_eq!(drive.error(), ERROR_NONE);
    assert_eq!(drive.internal_state, FloppyInternalState::WaitToWrite);
    assert_eq!(drive.rw_wait_cycles, 1667);
    drive.run(&mut cpu, 1000);
    assert_eq!(drive.rw_wait_cycles, 667);
    assert_eq!(drive.state(), STATE_BUSY);
    drive.run(&mut cpu, 667);
    assert_eq!(drive.state(), STATE_READY);
    assert_eq!(drive.internal_state, FloppyInternalState::Idle);
    {
        let disk = drive.disk.as_ref().unwrap();
        assert_eq!(disk.sectors.len(), 3);
        assert_eq!(disk.sectors[0], [0u16; 512]);
        assert_eq!(disk.sectors[2][0], 1);
        assert_eq!(disk.sectors[2][255], 256);
        assert_eq!(disk.sectors[2][256], 257);
        assert_eq!(disk.sectors[2][511], 512);
    }
    // read it back; the head is on track 0 and stays there
    floppy_request(&mut drive, &mut cpu, 2, 2, 0x2000);
    assert_eq!(drive.internal_state, FloppyInternalState::WaitToRead);
    assert_eq!(drive.rw_wait_cycles, 1667);
    drive.run(&mut cpu, 1667);
    assert_eq!(cpu.mem[0x2000], 1);
    assert_eq!(cpu.mem[0x21ff], 512);
    assert_eq!(cpu.mem[0x2200], 0);
    // a sector that the disk does not hold reads as zeros
    floppy_request(&mut drive, &mut cpu, 2, 100, 0x2000);
    assert_eq!(drive.rw_wait_cycles, 1667 + 5 * 240);
    drive.run(&mut cpu, 5000);
    assert_eq!(cpu.mem[0x2000], 0);
    assert_eq!(cpu.mem[0x21ff], 0);
    assert_eq!(drive.disk.as_ref().unwrap().sectors.len(), 3);
    floppy_request(&mut drive, &mut cpu, 2, 17, 0x2000);
    assert_eq!(drive.rw_wait_cycles, 1667 + 5 * 240);
}

#[test]
fn floppy_without_disk_at_transfer_time() {
    let mut cpu = Machine::new();
    let mut drive = DeviceFloppyM35FD::new();
    drive.insert(FloppyDisk::new());
    floppy_request(&mut drive, &mut cpu, 2, 0, 0);
    drive.disk = None;
    drive.run(&mut cpu, 2000);
    assert_eq!(drive.error(), ERROR_EJECT);
    assert_eq!(drive.state(), STATE_BUSY);
    assert_eq!(drive.internal_state, FloppyInternalState::Idle);
    let mut protected = FloppyDisk::new();
    protected.write_protected = true;
    drive.insert(protected);
    assert_eq!(drive.state(), STATE_READY);
    floppy_request(&mut drive, &mut cpu, 2, 0, 0);
    drive.run(&mut cpu, 2000);
    assert_eq!(drive.state(), STATE_READY_WP);
}

#[test]
fn monitor_info_and_builders() {
    let monitor = DeviceMonitorLEM1802::new();
    assert_eq!(monitor.info_hardware_id_upper(), 0x7349);
    assert_eq!(monitor.info_hardware_id_lower(), 0xf615);
    assert_eq!(monitor.info_manufacturer_id_upper(), 0x1c6c);
    assert_eq!(monitor.info_manufacturer_id_lower(), 0x8b36);
    assert_eq!(monitor.info_version(), 0x1802);
    assert!(!monitor.connected);
    let monitor = monitor.with_pre_connect(0x8000).with_font_location(0x9000);
    assert!(monitor.connected);
    assert_eq!(monitor.ram_location, 0x8000);
    assert_eq!(monitor.font_location, Some(0x9000));
    assert_eq!(monitor.palette_location, None);
    assert_eq!((MONITOR_WIDTH, MONITOR_HEIGHT), (128, 96));
}

#[test]
fn monitor_interrupts() {
    let mut cpu = Machine::new();
    let mut monitor = DeviceMonitorLEM1802::new();
    interrupt(&mut monitor, &mut cpu, 0, 0x8000);
    assert!(monitor.connected);
    assert_eq!(monitor.ram_location, 0x8000);
    interrupt(&mut monitor, &mut cpu, 0, 0);
    assert!(!monitor.connected);
    interrupt(&mut monitor, &mut cpu, 1, 0x9000);
    assert_eq!(monitor.font_location, Some(0x9000));
    interrupt(&mut monitor, &mut cpu, 1, 0);
    assert_eq!(monitor.font_location, None);
    interrupt(&mut monitor, &mut cpu, 2, 0xa000);
    assert_eq!(monitor.palette_location, Some(0xa000));
    interrupt(&mut monitor, &mut cpu, 2, 0);
    assert_eq!(monitor.palette_location, None);
    interrupt(&mut monitor, &mut cpu, 3, 0x12f7);
    assert_eq!(monitor.border_color_index, 7);
    interrupt(&mut monitor, &mut cpu, 4, 0xff80);
    assert_eq!(cpu.mem[0xff80], DEFAULT_FONT[0]);
    assert_eq!(cpu.mem[0xffff], DEFAULT_FONT[127]);
    assert_eq!(cpu.mem[0x0000], DEFAULT_FONT[128]);
    assert_eq!(cpu.mem[0x007f], DEFAULT_FONT[255]);
    assert_eq!(cpu.mem[0x0080], 0);
    assert_eq!(cpu.overshot_cycles, 256);
    cpu.inside_run = true;
    interrupt(&mut monitor, &mut cpu, 5, 0x4000);
    assert_eq!(&cpu.mem[0x4000..0x4010], &DEFAULT_PALETTE[..]);
    assert_eq!(cpu.cycle(), 16);
    monitor.run(&mut cpu, 100);
    assert_eq!(cpu.cycle(), 16);
}

#[test]
fn monitor_colors() {
    let mut cpu = Machine::new();
    let monitor = DeviceMonitorLEM1802::new();
    assert_eq!(DeviceMonitorLEM1802::to_rgb(0x0fa5), (0xff, 0xaa, 0x55));
    assert_eq!(DeviceMonitorLEM1802::to_rgb(0xf000), (0, 0, 0));
    assert_eq!(monitor.get_color(&cpu, 1), 0x000a);
    assert_eq!(monitor.get_color(&cpu, 15), 0x0fff);
    assert_eq!(monitor.get_border_color_rgb(&cpu), (0, 0, 170));
    let mut connected = monitor.with_pre_connect(0x8000);
    connected.border_color_index = 6;
    assert_eq!(connected.get_border_color_rgb(&cpu), (0xaa, 0x55, 0x00));
    connected.palette_location = Some(0xfffe);
    cpu.mem[4] = 0x0123;
    assert_eq!(connected.get_color(&cpu, 6), 0x0123);
    assert_eq!(connected.get_border_color_rgb(&cpu), (0x11, 0x22, 0x33));
}

#[test]
fn monitor_font() {
    let mut cpu = Machine::new();
    let monitor = DeviceMonitorLEM1802::new();
    assert_eq!(monitor.get_font_character(&cpu, 0x41), 0x7e097e00);
    assert_eq!(monitor.get_font_character(&cpu, 0x20), 0);
    assert_eq!(monitor.get_font_character(&cpu, 0), 0xb79e388e);
    assert_eq!(monitor.get_font_character(&cpu, 127), 0x02050200);
    let mapped = monitor.with_font_location(0xffff);
    cpu.mem[0xffff] = 0x1234;
    cpu.mem[0] = 0x5678;
    cpu.mem[1] = 0x9abc;
    assert_eq!(mapped.get_font_character(&cpu, 0), 0x12345678);
    assert_eq!(mapped.get_font_character(&cpu, 1), 0x9abc0000);
}

fn pixel(picture: &[u8], x: usize, y: usize) -> (u8, u8, u8) {
    let at = (y * 128 + x) * 3;
    (picture[at], picture[at + 1], picture[at + 2])
}

#[test]
fn monitor_picture_when_not_connected() {
    let cpu = Machine::new();
    let picture = DeviceMonitorLEM1802::new().data(&cpu, false);
    assert_eq!(picture.len(), 128 * 96 * 3);
    for p in 0..128 * 96 {
        let expected = if LOGO_PIXELS.contains(&p) { (255, 255, 0) } else { (0, 0, 170) };
        assert_eq!((picture[p * 3], picture[p * 3 + 1], picture[p * 3 + 2]), expected);
    }
    assert_eq!(pixel(&picture, 3379 % 128, 3379 / 128), (255, 255, 0));
    assert_eq!(pixel(&picture, 0, 0), (0, 0, 170));
}

#[test]
fn monitor_picture_of_a_character() {
    let mut cpu = Machine::new();
    let monitor = DeviceMonitorLEM1802::new().with_pre_connect(0xfffe);
    // cell 2 (row 0, column 2): 'A', foreground 15, background 1
    cpu.mem[0] = 0xf141;
    // cell 33 (row 1, column 1): 'A' blinking, foreground 4, background 2
    cpu.mem[31] = 0x42c1;
    let picture = monitor.data(&cpu, false);
    assert_eq!(picture.len(), 128 * 96 * 3);
    // 'A' is 0x7e097e00: the left column has rows 1 to 6 set
    assert_eq!(pixel(&picture, 8, 0), (0, 0, 0xaa));
    assert_eq!(pixel(&picture, 8, 1), (0xff, 0xff, 0xff));
    assert_eq!(pixel(&picture, 8, 6), (0xff, 0xff, 0xff));
    assert_eq!(pixel(&picture, 8, 7), (0, 0, 0xaa));
    // the second column is 0x09: rows 0 and 3
    assert_eq!(pixel(&picture, 9, 0), (0xff, 0xff, 0xff));
    assert_eq!(pixel(&picture, 9, 1), (0, 0, 0xaa));
    assert_eq!(pixel(&picture, 9, 3), (0xff, 0xff, 0xff));
    // the fourth column is empty
    assert_eq!(pixel(&picture, 11, 3), (0, 0, 0xaa));
    // an empty cell shows character 0 on black
    assert_eq!(pixel(&picture, 12, 0), (0, 0, 0));
    // the blinking cell
    assert_eq!(pixel(&picture, 4, 9), (0xaa, 0, 0));
    assert_eq!(pixel(&picture, 4, 8), (0, 0xaa, 0));
    let blinked = monitor.data(&cpu, true);
    assert_eq!(pixel(&blinked, 4, 9), (0, 0xaa, 0));
    assert_eq!(pixel(&blinked, 8, 1), (0xff, 0xff, 0xff));
}

#[test]
fn machine_counts_and_queries_devices() {
    let mut cpu: DCPU<DeviceClockGeneric> = DCPU::new();
    // HWN A / HWQ A / HWQ B / HWN [0x1000]
    cpu.mem[0] = 0x0200;
    cpu.mem[1] = 0x0220;
    cpu.mem[2] = 0x0620;
    cpu.tick();
    assert_eq!(cpu.reg[0], 0);
    assert_eq!(cpu.cycle(), 2);
    cpu.mem[3] = 0x0200;
    cpu.pc = 3;
    cpu.add_device(DeviceClockGeneric::new());
    cpu.add_device(DeviceClockGeneric::new());
    cpu.tick();
    assert_eq!(cpu.reg[0], 2);
    cpu.pc = 1;
    cpu.reg[0] = 1;
    cpu.reg[5] = 99;
    cpu.tick();
    assert_eq!(cpu.reg, [0xb402, 0x12d0, 1, 0, 0, 99, 0, 0]);
    assert_eq!(cpu.cycle(), 8);
    // no such device: zeros
    cpu.tick();
    assert_eq!(cpu.reg, [0, 0, 0, 0, 0, 99, 0, 0]);
}

#[test]
fn machine_interrupts_a_device() {
    let mut cpu: DCPU<DeviceClockGeneric> = DCPU::new();
    cpu.add_device(DeviceClockGeneric::new());
    cpu.add_device(DeviceClockGeneric::new());
    // SET B, 60 / HWI 0 / HWI 5 / SET A, 1 / HWI 1
    let program = [0x7c21, 60, 0x8640, 0x9a40, 0x8801, 0x8a40];
    for (i, w) in program.iter().enumerate() {
        cpu.mem[i] = *w;
    }
    cpu.tick();
    cpu.tick();
    assert_eq!(cpu.devices[0].cycles_between_ticks, Some(100000));
    assert_eq!(cpu.devices[1].cycles_between_ticks, None);
    assert_eq!(cpu.cycle(), 2 + 4);
    cpu.tick();
    assert_eq!(cpu.cycle(), 10);
    assert_eq!(cpu.devices.len(), 2);
    cpu.devices[1].ticks = 42;
    cpu.tick();
    cpu.tick();
    assert_eq!(cpu.reg[2], 42);
    assert_eq!(cpu.devices[0].cycles_between_ticks, Some(100000));
}

#[test]
fn batch_tells_every_device() {
    let mut cpu: DCPU<DeviceClockGeneric> = DCPU::new();
    let mut fast = DeviceClockGeneric::new();
    fast.cycles_between_ticks = Some(10);
    fast.interrupt_message = Some(1);
    let mut slow = DeviceClockGeneric::new();
    slow.cycles_between_ticks = Some(25);
    slow.interrupt_message = Some(2);
    cpu.add_device(fast);
    cpu.add_device(slow);
    for i in 0..0x10000usize {
        cpu.mem[i] = 0x8802;
    }
    cpu.run(30);
    assert_eq!(cpu.reg[0], 15);
    assert_eq!(cpu.devices[0].ticks, 3);
    assert_eq!(cpu.devices[1].ticks, 1);
    assert_eq!(cpu.devices[1].cycles_in_current_tick, 5);
    assert_eq!(cpu.interrupt_queue, vec![1, 1, 1, 2]);
    // a batch that only pays back still tells the devices
    cpu.halt(100);
    cpu.run(30);
    assert_eq!(cpu.reg[0], 15);
    assert_eq!(cpu.devices[0].ticks, 6);
    assert_eq!(cpu.overshot_cycles, 70);
}

#[test]
fn device_that_halts_inside_a_batch() {
    let mut cpu: DCPU<DeviceMonitorLEM1802> = DCPU::new();
    cpu.add_device(DeviceMonitorLEM1802::new());
    // SET A, 5 / SET B, 0x4000 / HWI 0 / SET A, 1 ...
    let program = [0x9801, 0x7c21, 0x4000, 0x8640];
    for (i, w) in program.iter().enumerate() {
        cpu.mem[i] = *w;
    }
    for i in 4..0x100usize {
        cpu.mem[i] = 0x8801;
    }
    cpu.run(10);
    // 1 + 2 + 4 cycles, then the halt of 16 passes the budget
    assert_eq!(cpu.pc, 4);
    assert_eq!(cpu.mem[0x4001], 0x000a);
    assert_eq!(cpu.cycle(), 23);
    assert_eq!(cpu.overshot_cycles, 13);
}

#[test]
fn machine_with_devices_of_several_kinds() {
    let mut cpu: DCPU<Peripheral> = DCPU::new();
    cpu.add_device(Peripheral::Clock(DeviceClockGeneric::new()));
    cpu.add_device(Peripheral::Keyboard(DeviceKeyboardGeneric::new()));
    cpu.add_device(Peripheral::Floppy(DeviceFloppyM35FD::new()));
    cpu.add_device(Peripheral::Monitor(DeviceMonitorLEM1802::new()));
    let ids = [
        [0xb402, 0x12d0, 1, 0, 0],
        [0x7406, 0x30cf, 1, 0, 0],
        [0x24c5, 0x4fd5, 0x000b, 0x7e91, 0x1eb3],
        [0xf615, 0x7349, 0x1802, 0x8b36, 0x1c6c],
    ];
    for (i, expected) in ids.iter().enumerate() {
        // HWQ A
        cpu.pc = 0;
        cpu.mem[0] = 0x0220;
        cpu.reg[0] = i as u16;
        cpu.tick();
        assert_eq!(&cpu.reg[..5], &expected[..]);
    }
    // HWN A
    cpu.pc = 0;
    cpu.mem[0] = 0x0200;
    cpu.tick();
    assert_eq!(cpu.reg[0], 4);
    // the keyboard is told to send interrupts, a key is pressed
    cpu.pc = 0;
    cpu.mem[0] = 0x8a40; // HWI 1
    cpu.reg[0] = 3;
    cpu.reg[1] = 0x44;
    cpu.tick();
    match &mut cpu.devices[1] {
        Peripheral::Keyboard(keyboard) => {
            assert_eq!(keyboard.interrupt_message, Some(0x44));
            keyboard.register_press(&mut cpu.core, 0x41);
        }
        _ => panic!("device 1 is the keyboard"),
    }
    assert_eq!(cpu.interrupt_queue, vec![0x44]);
    // the monitor is connected
    cpu.pc = 0;
    cpu.mem[0] = 0x9240; // HWI 3
    cpu.reg[0] = 0;
    cpu.reg[1] = 0x8000;
    cpu.tick();
    assert!(matches!(cpu.devices[3], Peripheral::Monitor(m) if m.connected && m.ram_location == 0x8000));
    // a batch tells the clock
    cpu.devices[0] = Peripheral::Clock(DeviceClockGeneric {
        cycles_between_ticks: Some(5),
        cycles_in_current_tick: 0,
        ticks: 0,
        interrupt_message: None,
    });
    cpu.run(12);
    assert!(matches!(cpu.devices[0], Peripheral::Clock(c) if c.ticks == 2 && c.cycles_in_current_tick == 2));
    let clock = Peripheral::Clock(DeviceClockGeneric::new());
    assert_eq!(clock.info_version(), 1);
    let floppy = Peripheral::Floppy(DeviceFloppyM35FD::new());
    assert_eq!(floppy.info_manufacturer_id_upper(), 0x1eb3);
    assert_eq!(floppy.info_manufacturer_id_lower(), 0x7e91);
    assert_eq!(floppy.info_hardware_id_upper(), 0x4fd5);
    assert_eq!(floppy.info_hardware_id_lower(), 0x24c5);
}
