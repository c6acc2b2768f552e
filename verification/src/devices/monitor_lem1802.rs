//! The LEM1802 monitor: a screen of 32 by 12 characters of 4 by 8
//! pixels, mapped into the machine's memory.

use vstd::prelude::*;
use crate::dcpu::{Device, HardwareInfo, Machine};
use crate::semantics::{with_block, CpuState, REG_A, REG_B};

verus! {

pub const ROWS: usize = 12;
pub const COLS: usize = 32;
pub const FONT_WIDTH: usize = 4;
pub const FONT_HEIGHT: usize = 8;
pub const MONITOR_WIDTH: u32 = 128;
pub const MONITOR_HEIGHT: u32 = 96;
pub const SCALE: u32 = 5;
pub const BORDER: u32 = 25;

/// Pixels of the screen.
pub const PIXELS: usize = 12288;

/// The built-in font: two words for each of 128 characters.
pub const DEFAULT_FONT: [u16; 256] = [
    0xb79e, 0x388e, 0x722c, 0x75f4, 0x19bb, 0x7f8f, 0x85f9, 0xb158, 0x242e, 0x2400, 0x082a, 0x0800,
    0x0008, 0x0000, 0x0808, 0x0808, 0x00ff, 0x0000, 0x00f8, 0x0808, 0x08f8, 0x0000, 0x080f, 0x0000,
    0x000f, 0x0808, 0x00ff, 0x0808, 0x08f8, 0x0808, 0x08ff, 0x0000, 0x080f, 0x0808, 0x08ff, 0x0808,
    0x6633, 0x99cc, 0x9933, 0x66cc, 0xfef8, 0xe080, 0x7f1f, 0x0701, 0x0107, 0x1f7f, 0x80e0, 0xf8fe,
    0x5500, 0xaa00, 0x55aa, 0x55aa, 0xffaa, 0xff55, 0x0f0f, 0x0f0f, 0xf0f0, 0xf0f0, 0x0000, 0xffff,
    0xffff, 0x0000, 0xffff, 0xffff, 0x0000, 0x0000, 0x005f, 0x0000, 0x0300, 0x0300, 0x3e14, 0x3e00,
    0x266b, 0x3200, 0x611c, 0x4300, 0x3629, 0x7650, 0x0002, 0x0100, 0x1c22, 0x4100, 0x4122, 0x1c00,
    0x1408, 0x1400, 0x081c, 0x0800, 0x4020, 0x0000, 0x0808, 0x0800, 0x0040, 0x0000, 0x601c, 0x0300,
    0x3e49, 0x3e00, 0x427f, 0x4000, 0x6259, 0x4600, 0x2249, 0x3600, 0x0f08, 0x7f00, 0x2745, 0x3900,
    0x3e49, 0x3200, 0x6119, 0x0700, 0x3649, 0x3600, 0x2649, 0x3e00, 0x0024, 0x0000, 0x4024, 0x0000,
    0x0814, 0x2241, 0x1414, 0x1400, 0x4122, 0x1408, 0x0259, 0x0600, 0x3e59, 0x5e00, 0x7e09, 0x7e00,
    0x7f49, 0x3600, 0x3e41, 0x2200, 0x7f41, 0x3e00, 0x7f49, 0x4100, 0x7f09, 0x0100, 0x3e41, 0x7a00,
    0x7f08, 0x7f00, 0x417f, 0x4100, 0x2040, 0x3f00, 0x7f08, 0x7700, 0x7f40, 0x4000, 0x7f06, 0x7f00,
    0x7f01, 0x7e00, 0x3e41, 0x3e00, 0x7f09, 0x0600, 0x3e41, 0xbe00, 0x7f09, 0x7600, 0x2649, 0x3200,
    0x017f, 0x0100, 0x3f40, 0x3f00, 0x1f60, 0x1f00, 0x7f30, 0x7f00, 0x7708, 0x7700, 0x0778, 0x0700,
    0x7149, 0x4700, 0x007f, 0x4100, 0x031c, 0x6000, 0x0041, 0x7f00, 0x0201, 0x0200, 0x8080, 0x8000,
    0x0001, 0x0200, 0x2454, 0x7800, 0x7f44, 0x3800, 0x3844, 0x2800, 0x3844, 0x7f00, 0x3854, 0x5800,
    0x087e, 0x0900, 0x4854, 0x3c00, 0x7f04, 0x7800, 0x447d, 0x4000, 0x2040, 0x3d00, 0x7f10, 0x6c00,
    0x417f, 0x4000, 0x7c18, 0x7c00, 0x7c04, 0x7800, 0x3844, 0x3800, 0x7c14, 0x0800, 0x0814, 0x7c00,
    0x7c04, 0x0800, 0x4854, 0x2400, 0x043e, 0x4400, 0x3c40, 0x7c00, 0x1c60, 0x1c00, 0x7c30, 0x7c00,
    0x6c10, 0x6c00, 0x4c50, 0x3c00, 0x6454, 0x4c00, 0x0836, 0x4100, 0x0077, 0x0000, 0x4136, 0x0800,
    0x0201, 0x0201, 0x0205, 0x0200,
];

/// The built-in palette of sixteen colours, four bits each for red,
/// green and blue.
pub const DEFAULT_PALETTE: [u16; 16] = [
    0x0000, 0x000a, 0x00a0, 0x00aa, 0x0a00, 0x0a0a, 0x0a50, 0x0aaa,
    0x0555, 0x055f, 0x05f5, 0x05ff, 0x0f55, 0x0f5f, 0x0ff5, 0x0fff,
];

/// The pixels, counted row by row, that are yellow on the screen of a
/// monitor that is not connected.
pub const LOGO_PIXELS: [usize; 187] = [
    3379, 3389, 3507, 3517, 3636, 3645, 3764, 3773, 3893, 3901, 4014,
    4021, 4029, 4142, 4150, 4157, 4270, 4271, 4278, 4285, 4398, 4399,
    4407, 4413, 4422, 4423, 4424, 4425, 4426, 4427, 4428, 4429, 4430,
    4431, 4432, 4433, 4526, 4528, 4535, 4541, 4654, 4656, 4664, 4669,
    4782, 4785, 4792, 4797, 4910, 4913, 4921, 4925, 5038, 5042, 5049,
    5053, 5166, 5170, 5178, 5181, 5294, 5299, 5306, 5309, 5422, 5427,
    5435, 5437, 5550, 5556, 5563, 5565, 5678, 5684, 5692, 5693, 5702,
    5703, 5704, 5705, 5706, 5707, 5708, 5709, 5710, 5711, 5712, 5713,
    5806, 5813, 5820, 5821, 5934, 5941, 5949, 6062, 6070, 6077, 6190,
    6198, 6318, 6327, 6446, 6455, 6574, 6584, 6702, 6712, 7462, 7463,
    7466, 7468, 7471, 7472, 7477, 7478, 7479, 7481, 7485, 7486, 7487,
    7489, 7491, 7493, 7494, 7495, 7497, 7498, 7499, 7501, 7504, 7505,
    7507, 7509, 7512, 7513, 7590, 7592, 7594, 7595, 7596, 7598, 7599,
    7600, 7605, 7606, 7609, 7613, 7614, 7617, 7618, 7622, 7625, 7626,
    7629, 7632, 7635, 7636, 7639, 7640, 7641, 7718, 7720, 7723, 7726,
    7728, 7733, 7734, 7735, 7737, 7738, 7739, 7741, 7742, 7743, 7745,
    7747, 7750, 7753, 7755, 7757, 7759, 7760, 7763, 7765, 7767, 7769,
];

/// The monitor: whether it is connected, where in memory its screen
/// is, where its font and its palette are (`None` for the built-in
/// ones), and the colour of its border.
#[derive(Clone, Copy, PartialEq, Eq, Structural, Debug)]
pub struct DeviceMonitorLEM1802 {
    pub connected: bool,
    pub ram_location: u16,
    pub font_location: Option<u16>,
    pub palette_location: Option<u16>,
    pub border_color_index: u16,
}

impl View for DeviceMonitorLEM1802 {
    type V = DeviceMonitorLEM1802;

    open spec fn view(&self) -> DeviceMonitorLEM1802 {
        *self
    }
}

/// The eight bits that the four bits of a colour channel are shown as:
/// the four bits twice.
pub open spec fn spread(nibble: u16) -> u8 {
    ((nibble % 16) * 17) as u8
}

/// Red, green and blue of a colour of the palette.
pub open spec fn rgb(color: u16) -> (u8, u8, u8) {
    (spread(color / 256), spread(color / 16), spread(color))
}

/// The colour of a screen that is not connected.
pub open spec fn blue() -> (u8, u8, u8) {
    (0, 0, 170)
}

/// The colour of the logo on a screen that is not connected.
pub open spec fn yellow() -> (u8, u8, u8) {
    (255, 255, 0)
}

/// Whether pixel `p` belongs to the logo.
pub open spec fn in_logo(p: int) -> bool {
    exists|k: int| 0 <= k < LOGO_PIXELS@.len() && #[trigger] LOGO_PIXELS@[k] == p
}

/// One of the three bytes of a colour.
pub open spec fn channel(color: (u8, u8, u8), k: int) -> u8 {
    if k == 0 {
        color.0
    } else if k == 1 {
        color.1
    } else {
        color.2
    }
}

impl DeviceMonitorLEM1802 {
    /// The 32 bits of character `c`, its columns from left to right in
    /// the four bytes from the top one down.
    pub open spec fn font_character(self, cpu: CpuState, c: int) -> u32 {
        match self.font_location {
            Some(loc) => (cpu.mem[(loc + c * 2) % 0x10000] * 0x10000 + cpu.mem[(loc + c * 2 + 1)
                % 0x10000]) as u32,
            None => (DEFAULT_FONT@[c * 2] * 0x10000 + DEFAULT_FONT@[c * 2 + 1]) as u32,
        }
    }

    /// Colour `color_index` of the palette.
    pub open spec fn color(self, cpu: CpuState, color_index: u16) -> u16 {
        match self.palette_location {
            Some(loc) => cpu.mem[loc.wrapping_add(color_index) as int],
            None => DEFAULT_PALETTE@[color_index as int],
        }
    }

    /// The colour of the border.
    pub open spec fn border_color(self, cpu: CpuState) -> (u8, u8, u8) {
        if self.connected {
            rgb(self.color(cpu, self.border_color_index))
        } else {
            blue()
        }
    }

    /// The colour of pixel `p`, pixels counted row by row.
    ///
    /// On a connected screen the pixel lies in the character cell of
    /// its row and column. The cell's word gives the character in its
    /// low seven bits, the blink bit above them, then the background
    /// and the foreground colour. The pixel has the foreground colour
    /// where the character's bit for it is set, unless the character
    /// blinks and `blinkout` is set.
    pub open spec fn pixel(self, cpu: CpuState, blinkout: bool, p: int) -> (u8, u8, u8) {
        if self.connected {
            let row = (p / 128) / 8;
            let y = (p / 128) % 8;
            let col = (p % 128) / 4;
            let x = (p % 128) % 4;
            let cell = cpu.mem[(self.ram_location + row * 32 + col) % 0x10000];
            let blink = (cell / 128) % 2 == 1;
            let glyph = if !blinkout || !blink {
                self.font_character(cpu, (cell % 128) as int)
            } else {
                0
            };
            let lit = (glyph >> (((3 - x) * 8 + y) as u32)) & 1 == 1;
            rgb(self.color(cpu, if lit { cell / 4096 } else { (cell / 256) % 16 }))
        } else if in_logo(p) {
            yellow()
        } else {
            blue()
        }
    }

    /// The first `count` bytes of the picture: three bytes a pixel.
    pub open spec fn frame(self, cpu: CpuState, blinkout: bool, count: nat) -> Seq<u8> {
        Seq::new(count, |k: int| channel(self.pixel(cpu, blinkout, k / 3), k % 3))
    }

    /// A monitor that is not connected.
    pub fn new() -> (monitor: DeviceMonitorLEM1802)
        ensures
            monitor == (DeviceMonitorLEM1802 {
                connected: false,
                ram_location: 0,
                font_location: None,
                palette_location: None,
                border_color_index: 0,
            }),
    {
        DeviceMonitorLEM1802 {
            connected: false,
            ram_location: 0,
            font_location: None,
            palette_location: None,
            border_color_index: 0,
        }
    }

    /// The monitor connected, with its screen at `location`.
    pub fn with_pre_connect(self, location: u16) -> (monitor: DeviceMonitorLEM1802)
        ensures
            monitor == (DeviceMonitorLEM1802 { connected: true, ram_location: location, ..self }),
    {
        let mut new_self = self;
        new_self.connected = true;
        new_self.ram_location = location;
        new_self
    }

    /// The monitor with its font at `location`.
    pub fn with_font_location(self, location: u16) -> (monitor: DeviceMonitorLEM1802)
        ensures
            monitor == (DeviceMonitorLEM1802 { font_location: Some(location), ..self }),
    {
        let mut new_self = self;
        new_self.font_location = Some(location);
        new_self
    }

    /// The 32 bits of character `c`.
    pub fn get_font_character(&self, cpu: &Machine, c: usize) -> (bits: u32)
        requires
            c < 128,
        ensures
            bits == self.font_character(cpu@, c as int),
    {
        match self.font_location {
            Some(loc) => {
                let upper = cpu.mem[(loc as usize + c * 2) % 0x10000];
                let lower = cpu.mem[(loc as usize + c * 2 + 1) % 0x10000];
                (upper as u32) * 0x10000 + (lower as u32)
            },
            None => (DEFAULT_FONT[c * 2] as u32) * 0x10000 + (DEFAULT_FONT[c * 2 + 1] as u32),
        }
    }

    /// Colour `color_index` of the palette.
    pub fn get_color(&self, cpu: &Machine, color_index: u16) -> (color: u16)
        requires
            self.palette_location is None ==> color_index < 16,
        ensures
            color == self.color(cpu@, color_index),
    {
        match self.palette_location {
            Some(loc) => cpu.mem[loc.wrapping_add(color_index) as usize],
            None => DEFAULT_PALETTE[color_index as usize],
        }
    }

    /// Red, green and blue of a colour of the palette.
    pub fn to_rgb(color: u16) -> (r: (u8, u8, u8))
        ensures
            r == rgb(color),
    {
        (
            (((color / 256) % 16) * 17) as u8,
            (((color / 16) % 16) * 17) as u8,
            ((color % 16) * 17) as u8,
        )
    }

    /// The colour of the border.
    pub fn get_border_color_rgb(&self, cpu: &Machine) -> (r: (u8, u8, u8))
        requires
            self.connected && self.palette_location is None ==> self.border_color_index < 16,
        ensures
            r == self.border_color(cpu@),
    {
        if self.connected {
            let color = self.get_color(cpu, self.border_color_index);
            Self::to_rgb(color)
        } else {
            (0, 0, 170)
        }
    }

    /// Whether pixel `p` belongs to the logo.
    fn logo_has(p: usize) -> (r: bool)
        ensures
            r == in_logo(p as int),
    {
        let mut k: usize = 0;
        while k < 187
            invariant
                k <= 187,
                LOGO_PIXELS@.len() == 187,
                forall|j: int| 0 <= j < k ==> #[trigger] LOGO_PIXELS@[j] != p,
            decreases 187 - k,
        {
            if LOGO_PIXELS[k] == p {
                return true;
            }
            k = k + 1;
        }
        false
    }

    /// The colour of pixel `p`.
    fn get_pixel(&self, cpu: &Machine, blinkout: bool, p: usize) -> (r: (u8, u8, u8))
        requires
            p < PIXELS,
        ensures
            r == self.pixel(cpu@, blinkout, p as int),
    {
        if self.connected {
            let row = (p / 128) / 8;
            let y = (p / 128) % 8;
            let col = (p % 128) / 4;
            let x = (p % 128) % 4;
            let cell = cpu.mem[(self.ram_location as usize + row * 32 + col) % 0x10000];
            let blink = (cell / 128) % 2 == 1;
            let glyph = if !blinkout || !blink {
                self.get_font_character(cpu, (cell % 128) as usize)
            } else {
                0
            };
            let lit = (glyph >> (((3 - x) * 8 + y) as u32)) & 1 == 1;
            let color = self.get_color(cpu, if lit { cell / 4096 } else { (cell / 256) % 16 });
            Self::to_rgb(color)
        } else if Self::logo_has(p) {
            (255, 255, 0)
        } else {
            (0, 0, 170)
        }
    }

    /// The picture on the screen: for each pixel, row by row, its red,
    /// green and blue.
    pub fn data(&self, cpu: &Machine, blinkout: bool) -> (picture: Vec<u8>)
        ensures
            picture@ == self.frame(cpu@, blinkout, (3 * PIXELS) as nat),
    {
        let mut picture: Vec<u8> = Vec::new();
        let mut p: usize = 0;
        while p < PIXELS
            invariant
                p <= PIXELS,
                picture@ == self.frame(cpu@, blinkout, (3 * p) as nat),
            decreases PIXELS - p,
        {
            let (red, green, blue) = self.get_pixel(cpu, blinkout, p);
            picture.push(red);
            picture.push(green);
            picture.push(blue);
            assert(picture@ =~= self.frame(cpu@, blinkout, (3 * (p + 1)) as nat));
            p = p + 1;
        }
        picture
    }
}

impl Device for DeviceMonitorLEM1802 {
    open spec fn info(model: DeviceMonitorLEM1802) -> HardwareInfo {
        HardwareInfo {
            hardware_id_lower: 0xf615,
            hardware_id_upper: 0x7349,
            version: 0x1802,
            manufacturer_id_lower: 0x8b36,
            manufacturer_id_upper: 0x1c6c,
        }
    }

    /// `A` selects: 0 maps the screen at `B` and connects the monitor
    /// (zero disconnects it); 1 maps the font at `B`, 2 the palette
    /// (zero for the built-in one); 3 sets the border colour to the low
    /// four bits of `B`; 4 writes the built-in font to memory at `B` and
    /// halts the machine for 256 cycles; 5 does so with the built-in
    /// palette and 16 cycles.
    open spec fn on_interrupt(model: DeviceMonitorLEM1802, cpu: CpuState) -> (
        DeviceMonitorLEM1802,
        CpuState,
    ) {
        let a = cpu.reg[REG_A as int];
        let b = cpu.reg[REG_B as int];
        if a == 0 {
            if b > 0 {
                (DeviceMonitorLEM1802 { ram_location: b, connected: true, ..model }, cpu)
            } else {
                (DeviceMonitorLEM1802 { connected: false, ..model }, cpu)
            }
        } else if a == 1 {
            (DeviceMonitorLEM1802 { font_location: if b > 0 { Some(b) } else { None }, ..model }, cpu)
        } else if a == 2 {
            (
                DeviceMonitorLEM1802 {
                    palette_location: if b > 0 { Some(b) } else { None },
                    ..model
                },
                cpu,
            )
        } else if a == 3 {
            (DeviceMonitorLEM1802 { border_color_index: b % 16, ..model }, cpu)
        } else if a == 4 {
            (model, CpuState { mem: with_block(cpu.mem, b, DEFAULT_FONT@), ..cpu }.halted(256))
        } else if a == 5 {
            (model, CpuState { mem: with_block(cpu.mem, b, DEFAULT_PALETTE@), ..cpu }.halted(16))
        } else {
            (model, cpu)
        }
    }

    open spec fn on_run(model: DeviceMonitorLEM1802, cpu: CpuState, cycles: usize) -> (
        DeviceMonitorLEM1802,
        CpuState,
    ) {
        (model, cpu)
    }

    fn info_hardware_id_upper(&self) -> (r: u16) {
        0x7349
    }

    fn info_hardware_id_lower(&self) -> (r: u16) {
        0xf615
    }

    fn info_manufacturer_id_upper(&self) -> (r: u16) {
        0x1c6c
    }

    fn info_manufacturer_id_lower(&self) -> (r: u16) {
        0x8b36
    }

    fn info_version(&self) -> (r: u16) {
        0x1802
    }

    fn process_interrupt(&mut self, cpu: &mut Machine) {
        let a = cpu.reg[REG_A];
        let b = cpu.reg[REG_B];
        if a == 0 {
            if b > 0 {
                self.ram_location = b;
                self.connected = true;
            } else {
                self.connected = false;
            }
        } else if a == 1 {
            self.font_location = if b > 0 { Some(b) } else { None };
        } else if a == 2 {
            self.palette_location = if b > 0 { Some(b) } else { None };
        } else if a == 3 {
            self.border_color_index = b % 16;
        } else if a == 4 {
            let font = DEFAULT_FONT;
            cpu.write_block(b, font.as_slice());
            cpu.halt(256);
        } else if a == 5 {
            let palette = DEFAULT_PALETTE;
            cpu.write_block(b, palette.as_slice());
            cpu.halt(16);
        }
    }

    fn run(&mut self, cpu: &mut Machine, cycles: usize) {
    }
}

} // verus!
