use vstd::prelude::*;
use crate::bits::lemma_two_bit_color;

verus! {

/// Width of the screen in pixels.
pub const SCREEN_W: usize = 160;

/// Height of the screen in pixels.
pub const SCREEN_H: usize = 144;

/// Bytes in one RGBA frame: four for each pixel of the screen.
pub const FRAME_BYTES: usize = 92160;

/// Clock cycles in one scanline.
pub const LINE_CYCLES: u32 = 456;

/// Scanlines in one frame: 144 visible ones, then ten of vertical blank.
pub const FRAME_LINES: u8 = 154;

/// The first scanline of the vertical blank.
pub const VBLANK_LINE: u8 = 144;

/// The pixel-processing unit: its registers, its place in the current
/// scanline, and the last frame it drew.
pub struct Ppu {
    /// The frame, RGBA, row by row from the top.
    pub fb: Vec<u8>,
    pub lcdc: u8,
    pub stat: u8,
    pub scy: u8,
    pub scx: u8,
    pub ly: u8,
    pub lyc: u8,
    pub bgp: u8,
    pub wy: u8,
    pub wx: u8,
    /// Cycles spent on the current scanline.
    pub cycle_acc: u32,
    /// 0 horizontal blank, 1 vertical blank, 2 OAM scan, 3 pixel transfer.
    pub mode: u8,
}

/// The mathematical value of a `Ppu`: the same registers, with the frame as a
/// sequence of bytes.
pub struct PpuView {
    pub fb: Seq<u8>,
    pub lcdc: u8,
    pub stat: u8,
    pub scy: u8,
    pub scx: u8,
    pub ly: u8,
    pub lyc: u8,
    pub bgp: u8,
    pub wy: u8,
    pub wx: u8,
    pub cycle_acc: u32,
    pub mode: u8,
}

/// A frame in which every byte is 0xFF: what a disabled display shows.
pub open spec fn blank_frame() -> Seq<u8> {
    Seq::new(FRAME_BYTES as nat, |i: int| 0xFFu8)
}

/// The two-bit colour number of one pixel of a tile row: `byte1` gives the
/// high bit, `byte0` the low bit, both at position `bit`.
pub open spec fn color_id(byte0: u8, byte1: u8, bit: u8) -> u8 {
    (((byte1 >> bit) & 1) << 1) | ((byte0 >> bit) & 1)
}

/// The grey level that `palette` assigns to colour number `color`.
pub open spec fn shade_of(palette: u8, color: u8) -> u8 {
    let sel = (palette >> ((color * 2) as u8)) & 0x03;
    if sel == 0 {
        0xFF
    } else if sel == 1 {
        0xAA
    } else if sel == 2 {
        0x55
    } else {
        0x00
    }
}

/// Where in video RAM tile map `high` starts (0x9C00 or 0x9800 on the bus).
pub open spec fn tile_map_base(high: bool) -> int {
    if high {
        0x1C00
    } else {
        0x1800
    }
}

/// Where in a tile map the entry for map pixel (`px`, `py`) stands.
pub open spec fn tile_map_index(base: int, px: int, py: int) -> int {
    base + (py / 8) * 32 + px / 8
}

/// Where in video RAM row `line` of tile `tile` starts. With LCDC bit 4 set
/// tiles are counted up from 0x8000; otherwise `tile` is a signed offset
/// from 0x9000.
pub open spec fn tile_row_index(lcdc: u8, tile: u8, line: int) -> int {
    if lcdc & 0x10 != 0 {
        tile * 16 + line * 2
    } else if tile < 128 {
        0x1000 + tile * 16 + line * 2
    } else {
        0x1000 - (256 - tile) * 16 + line * 2
    }
}

/// The grey level of map pixel (`px`, `py`) of the layer whose tile map
/// starts at `base`.
pub open spec fn layer_shade(lcdc: u8, bgp: u8, base: int, vram: Seq<u8>, px: int, py: int) -> u8 {
    let tile = vram[tile_map_index(base, px, py)];
    let row = tile_row_index(lcdc, tile, py % 8);
    shade_of(bgp, color_id(vram[row], vram[row + 1], (7 - px % 8) as u8))
}

/// The mode that the unit is in on scanline `ly` after `acc` cycles of it.
pub open spec fn mode_at(ly: u8, acc: u32) -> u8 {
    if ly >= VBLANK_LINE {
        1
    } else if acc < 80 {
        2
    } else if acc < 252 {
        3
    } else {
        0
    }
}

/// STAT after maintenance: the enable bits and bit 7 stay, bit 2 says
/// whether LY equals LYC, bits 0 and 1 hold the mode.
pub open spec fn stat_byte(stat: u8, ly: u8, lyc: u8, mode: u8) -> u8 {
    (stat & 0xF8) | (if ly == lyc { 0x04u8 } else { 0x00u8 }) | (mode & 0x03)
}

/// Whether one of the sources that STAT enables is active: the LYC match
/// (bit 6), OAM scan (bit 5), vertical blank (bit 4), horizontal blank (bit 3).
pub open spec fn stat_irq(stat: u8, ly: u8, lyc: u8, mode: u8) -> bool {
    ||| ly == lyc && stat & 0x40 != 0
    ||| mode == 2 && stat & 0x20 != 0
    ||| mode == 1 && stat & 0x10 != 0
    ||| mode == 0 && stat & 0x08 != 0
}

impl PpuView {
    /// The frame has its full size, the scanline and its clock are in range.
    pub open spec fn wf(self) -> bool {
        &&& self.fb.len() == FRAME_BYTES
        &&& self.ly < FRAME_LINES
        &&& self.cycle_acc < LINE_CYCLES
        &&& self.mode <= 3
    }

    /// The state after power-on.
    pub open spec fn initial() -> PpuView {
        PpuView {
            fb: Seq::new(FRAME_BYTES as nat, |i: int| 0u8),
            lcdc: 0x91,
            stat: 0x85,
            scy: 0,
            scx: 0,
            ly: 0,
            lyc: 0,
            bgp: 0xFC,
            wy: 0,
            wx: 0,
            cycle_acc: 0,
            mode: 1,
        }
    }

    /// The grey level of the background at screen pixel (`x`, `y`): the
    /// background map scrolled by (`scx`, `scy`), wrapping at 256.
    pub open spec fn bg_shade(self, vram: Seq<u8>, x: int, y: int) -> u8 {
        layer_shade(
            self.lcdc,
            self.bgp,
            tile_map_base(self.lcdc & 0x08 != 0),
            vram,
            (x + self.scx) % 256,
            (y + self.scy) % 256,
        )
    }

    /// The screen column of the window's left edge, `wx - 7`: negative for
    /// a `wx` below 7, when the window's first columns lie off the screen.
    pub open spec fn window_left(self) -> int {
        self.wx - 7
    }

    /// Whether the window is enabled and covers screen pixel (`x`, `y`).
    pub open spec fn in_window(self, x: int, y: int) -> bool {
        self.lcdc & 0x20 != 0 && y >= self.wy && x >= self.window_left()
    }

    /// The grey level of the window at screen pixel (`x`, `y`), which it
    /// covers.
    pub open spec fn window_shade(self, vram: Seq<u8>, x: int, y: int) -> u8 {
        layer_shade(
            self.lcdc,
            self.bgp,
            tile_map_base(self.lcdc & 0x40 != 0),
            vram,
            x - self.window_left(),
            y - self.wy,
        )
    }

    /// The grey level of screen pixel (`x`, `y`): the window where it covers
    /// the pixel, the background elsewhere.
    pub open spec fn pixel_shade(self, vram: Seq<u8>, x: int, y: int) -> u8 {
        if self.in_window(x, y) {
            self.window_shade(vram, x, y)
        } else {
            self.bg_shade(vram, x, y)
        }
    }

    /// Byte `i` of the background layer alone, drawn over the whole screen.
    pub open spec fn bg_frame_byte(self, vram: Seq<u8>, i: int) -> u8 {
        if i % 4 == 3 {
            0xFF
        } else {
            self.bg_shade(vram, (i / 4) % 160, i / 640)
        }
    }

    /// Byte `i` of the drawn frame: red, green and blue carry the pixel's
    /// grey level, alpha is 0xFF.
    pub open spec fn frame_byte(self, vram: Seq<u8>, i: int) -> u8 {
        if i % 4 == 3 {
            0xFF
        } else {
            self.pixel_shade(vram, (i / 4) % 160, i / 640)
        }
    }

    /// The frame that these registers draw from `vram`.
    pub open spec fn rendered(self, vram: Seq<u8>) -> Seq<u8> {
        Seq::new(FRAME_BYTES as nat, |i: int| self.frame_byte(vram, i))
    }

    /// What the renderer leaves in the frame: a blank frame while the
    /// display is disabled, the drawn frame otherwise.
    pub open spec fn render(self, vram: Seq<u8>) -> PpuView {
        PpuView {
            fb: if self.lcdc & 0x80 == 0 {
                blank_frame()
            } else {
                self.rendered(vram)
            },
            ..self
        }
    }

    /// Scanlines completed when `cycles` more cycles have passed.
    pub open spec fn lines_after(self, cycles: u32) -> int {
        (self.cycle_acc + cycles) / (LINE_CYCLES as int)
    }

    /// STAT maintenance for the current scanline and mode.
    pub open spec fn update_stat(self) -> (PpuView, bool) {
        (
            PpuView { stat: stat_byte(self.stat, self.ly, self.lyc, self.mode), ..self },
            stat_irq(self.stat, self.ly, self.lyc, self.mode),
        )
    }

    /// One step of `cycles` cycles: the new state, whether the vertical
    /// blank began, and whether a STAT source is active.
    ///
    /// While the display is disabled LY and the mode are held at 0 and the
    /// frame is blank. Otherwise the scanline clock advances; LY counts the
    /// completed scanlines modulo 154; the vertical blank begins when LY
    /// reaches 144; and whenever LY returns to 0 the frame is drawn.
    pub open spec fn step(self, cycles: u32, vram: Seq<u8>) -> (PpuView, bool, bool) {
        if self.lcdc & 0x80 == 0 {
            (
                PpuView {
                    ly: 0,
                    mode: 0,
                    fb: blank_frame(),
                    stat: stat_byte(self.stat, 0, self.lyc, 0),
                    ..self
                },
                false,
                false,
            )
        } else {
            let lines = self.lines_after(cycles);
            let ly = ((self.ly + lines) % (FRAME_LINES as int)) as u8;
            let acc = ((self.cycle_acc + cycles) % (LINE_CYCLES as int)) as u32;
            let mode = mode_at(ly, acc);
            (
                PpuView {
                    ly,
                    cycle_acc: acc,
                    mode,
                    fb: if self.ly + lines >= FRAME_LINES {
                        self.rendered(vram)
                    } else {
                        self.fb
                    },
                    stat: stat_byte(self.stat, ly, self.lyc, mode),
                    ..self
                },
                (self.ly < VBLANK_LINE && self.ly + lines >= VBLANK_LINE) || self.ly + lines
                    >= VBLANK_LINE + FRAME_LINES,
                stat_irq(self.stat, ly, self.lyc, mode),
            )
        }
    }
}

impl Ppu {
    pub open spec fn view(&self) -> PpuView {
        PpuView {
            fb: self.fb@,
            lcdc: self.lcdc,
            stat: self.stat,
            scy: self.scy,
            scx: self.scx,
            ly: self.ly,
            lyc: self.lyc,
            bgp: self.bgp,
            wy: self.wy,
            wx: self.wx,
            cycle_acc: self.cycle_acc,
            mode: self.mode,
        }
    }

    pub open spec fn wf(&self) -> bool {
        self@.wf()
    }

    /// The unit as the boot sequence leaves it: display on, vertical blank,
    /// an all-zero frame.
    pub fn new() -> (r: Ppu)
        ensures
            r@ == PpuView::initial(),
            r.wf(),
    {
        let r = Ppu {
            fb: vec![0u8; FRAME_BYTES],
            lcdc: 0x91,
            stat: 0x85,
            scy: 0,
            scx: 0,
            ly: 0,
            lyc: 0,
            bgp: 0xFC,
            wy: 0,
            wx: 0,
            cycle_acc: 0,
            mode: 1,
        };
        assert(r.fb@ =~= PpuView::initial().fb);
        r
    }

    /// Whether the unit is valid: the frame has its full size, LY is below
    /// 154, the scanline clock below 456, the mode at most 3.
    pub fn is_valid(&self) -> (ok: bool)
        ensures
            ok == self.wf(),
    {
        self.fb.len() == FRAME_BYTES && self.ly < FRAME_LINES && self.cycle_acc < LINE_CYCLES
            && self.mode <= 3
    }

    /// The latest frame: 160 x 144 pixels, four bytes each.
    pub fn framebuffer_rgba(&self) -> (r: &[u8])
        ensures
            r@ == self@.fb,
    {
        self.fb.as_slice()
    }

    /// Looks a colour number up in a palette register.
    pub fn map_palette(palette: u8, color: u8) -> (r: u8)
        requires
            color <= 3,
        ensures
            r == shade_of(palette, color),
    {
        let shift: u8 = color * 2;
        let sel: u8 = (palette >> shift) & 0x03;
        if sel == 0 {
            0xFF
        } else if sel == 1 {
            0xAA
        } else if sel == 2 {
            0x55
        } else {
            0x00
        }
    }

    /// Looks up one pixel of the layer whose tile map starts at `base`.
    fn layer_pixel(&self, vram: &[u8], base: usize, px: usize, py: usize) -> (r: u8)
        requires
            vram@.len() == 0x2000,
            base == 0x1800 || base == 0x1C00,
            px < 256,
            py < 256,
        ensures
            r == layer_shade(self.lcdc, self.bgp, base as int, vram@, px as int, py as int),
    {
        let tile: u8 = vram[base + (py / 8) * 32 + px / 8];
        let line: usize = py % 8;
        let row: usize = if self.lcdc & 0x10 != 0 {
            tile as usize * 16 + line * 2
        } else if tile < 128 {
            0x1000 + tile as usize * 16 + line * 2
        } else {
            0x1000 - (256 - tile as usize) * 16 + line * 2
        };
        let byte0: u8 = vram[row];
        let byte1: u8 = vram[row + 1];
        let bit: u8 = (7 - px % 8) as u8;
        let color: u8 = (((byte1 >> bit) & 1) << 1) | ((byte0 >> bit) & 1);
        proof {
            lemma_two_bit_color(byte0, byte1, bit);
        }
        Self::map_palette(self.bgp, color)
    }

    /// Sets every byte of the frame to 0xFF.
    fn blank(&mut self)
        ensures
            final(self)@ == (PpuView {
                fb: Seq::new(old(self)@.fb.len(), |i: int| 0xFFu8),
                ..old(self)@
            }),
    {
        let n: usize = self.fb.len();
        let mut i: usize = 0;
        while i < n
            invariant
                i <= n,
                n == self.fb@.len(),
                self@ == (PpuView { fb: self.fb@, ..old(self)@ }),
                forall|j: int| 0 <= j < i ==> self.fb@[j] == 0xFFu8,
            decreases n - i,
        {
            self.fb[i] = 0xFF;
            i += 1;
        }
        assert(self.fb@ =~= Seq::new(old(self)@.fb.len(), |i: int| 0xFFu8));
    }

    /// Draws the background, then the window over it, from the current
    /// registers; a disabled display gets a blank frame.
    pub fn render_background(&mut self, vram: &[u8])
        requires
            old(self)@.fb.len() == FRAME_BYTES,
            vram@.len() == 0x2000,
        ensures
            final(self)@ == old(self)@.render(vram@),
    {
        if self.lcdc & 0x80 == 0 {
            self.blank();
            return ;
        }
        let ghost v = self@;
        let bg_base: usize = if self.lcdc & 0x08 != 0 {
            0x1C00
        } else {
            0x1800
        };
        let mut y: usize = 0;
        while y < SCREEN_H
            invariant
                y <= SCREEN_H,
                vram@.len() == 0x2000,
                self.fb@.len() == FRAME_BYTES,
                self@ == (PpuView { fb: self.fb@, ..v }),
                bg_base as int == tile_map_base(v.lcdc & 0x08 != 0),
                forall|i: int| 0 <= i < y * 640 ==> self.fb@[i] == v.bg_frame_byte(vram@, i),
            decreases SCREEN_H - y,
        {
            let sy: usize = (y + self.scy as usize) % 256;
            let mut x: usize = 0;
            while x < SCREEN_W
                invariant
                    y < SCREEN_H,
                    x <= SCREEN_W,
                    vram@.len() == 0x2000,
                    self.fb@.len() == FRAME_BYTES,
                    self@ == (PpuView { fb: self.fb@, ..v }),
                    bg_base as int == tile_map_base(v.lcdc & 0x08 != 0),
                    sy as int == (y + v.scy) % 256,
                    forall|i: int|
                        0 <= i < y * 640 + x * 4 ==> self.fb@[i] == v.bg_frame_byte(vram@, i),
                decreases SCREEN_W - x,
            {
                let sx: usize = (x + self.scx as usize) % 256;
                let shade: u8 = self.layer_pixel(vram, bg_base, sx, sy);
                let idx: usize = (y * SCREEN_W + x) * 4;
                self.fb[idx] = shade;
                self.fb[idx + 1] = shade;
                self.fb[idx + 2] = shade;
                self.fb[idx + 3] = 0xFF;
                proof {
                    assert(shade == v.bg_shade(vram@, x as int, y as int));
                    assert forall|i: int| idx <= i < idx + 4 implies self.fb@[i]
                        == v.bg_frame_byte(vram@, i) by {
                        assert(i / 4 == y * 160 + x);
                        assert((i / 4) % 160 == x);
                        assert(i / 640 == y);
                    }
                }
                x += 1;
            }
            y += 1;
        }
        if self.lcdc & 0x20 != 0 {
            let win_base: usize = if self.lcdc & 0x40 != 0 {
                0x1C00
            } else {
                0x1800
            };
            let win_x: usize = self.wx as usize;
            let win_y: usize = self.wy as usize;
            let mut y: usize = 0;
            while y < SCREEN_H
                invariant
                    y <= SCREEN_H,
                    vram@.len() == 0x2000,
                    self.fb@.len() == FRAME_BYTES,
                    self@ == (PpuView { fb: self.fb@, ..v }),
                    v.lcdc & 0x20 != 0,
                    win_base as int == tile_map_base(v.lcdc & 0x40 != 0),
                    win_x == v.wx,
                    win_y == v.wy,
                    forall|i: int| 0 <= i < y * 640 ==> self.fb@[i] == v.frame_byte(vram@, i),
                    forall|i: int|
                        y * 640 <= i < FRAME_BYTES ==> self.fb@[i] == v.bg_frame_byte(vram@, i),
                decreases SCREEN_H - y,
            {
                let mut x: usize = 0;
                while x < SCREEN_W
                    invariant
                        y < SCREEN_H,
                        x <= SCREEN_W,
                        vram@.len() == 0x2000,
                        self.fb@.len() == FRAME_BYTES,
                        self@ == (PpuView { fb: self.fb@, ..v }),
                        v.lcdc & 0x20 != 0,
                        win_base as int == tile_map_base(v.lcdc & 0x40 != 0),
                        win_x == v.wx,
                        win_y == v.wy,
                        forall|i: int|
                            0 <= i < y * 640 + x * 4 ==> self.fb@[i] == v.frame_byte(vram@, i),
                        forall|i: int|
                            y * 640 + x * 4 <= i < FRAME_BYTES ==> self.fb@[i] == v.bg_frame_byte(
                                vram@,
                                i,
                            ),
                    decreases SCREEN_W - x,
                {
                    let idx: usize = (y * SCREEN_W + x) * 4;
                    let ghost before = self.fb@;
                    if y >= win_y && x + 7 >= win_x {
                        let shade: u8 = self.layer_pixel(
                            vram,
                            win_base,
                            x + 7 - win_x,
                            y - win_y,
                        );
                        self.fb[idx] = shade;
                        self.fb[idx + 1] = shade;
                        self.fb[idx + 2] = shade;
                        self.fb[idx + 3] = 0xFF;
                        proof {
                            assert(v.in_window(x as int, y as int));
                            assert(shade == v.pixel_shade(vram@, x as int, y as int));
                        }
                    } else {
                        proof {
                            assert(!v.in_window(x as int, y as int));
                        }
                    }
                    proof {
                        assert forall|i: int| idx <= i < idx + 4 implies self.fb@[i]
                            == v.frame_byte(vram@, i) by {
                            assert(i / 4 == y * 160 + x);
                            assert((i / 4) % 160 == x);
                            assert(i / 640 == y);
                            assert(before[i] == v.bg_frame_byte(vram@, i));
                        }
                    }
                    x += 1;
                }
                y += 1;
            }
        } else {
            proof {
                assert forall|i: int| 0 <= i < FRAME_BYTES implies v.frame_byte(vram@, i)
                    == v.bg_frame_byte(vram@, i) by {
                    assert(!v.in_window((i / 4) % 160, i / 640));
                }
            }
        }
        assert(self.fb@ =~= v.rendered(vram@));
    }

    /// Brings STAT up to date with LY, LYC and the mode, and says whether a
    /// source that it enables is active.
    pub fn update_stat(&mut self) -> (irq: bool)
        ensures
            (final(self)@, irq) == old(self)@.update_stat(),
    {
        let enables: u8 = self.stat;
        let lyc_match: bool = self.ly == self.lyc;
        let match_bit: u8 = if lyc_match {
            0x04
        } else {
            0x00
        };
        self.stat = (enables & 0xF8) | match_bit | (self.mode & 0x03);
        (lyc_match && enables & 0x40 != 0) || (self.mode == 2 && enables & 0x20 != 0) || (self.mode
            == 1 && enables & 0x10 != 0) || (self.mode == 0 && enables & 0x08 != 0)
    }

    /// Advances the unit by `cycles` cycles, reading tiles from `vram`.
    /// Returns whether the vertical blank began and whether a STAT source is
    /// active, for the bus to latch as interrupt requests.
    pub fn step(&mut self, cycles: u32, vram: &[u8]) -> (r: (bool, bool))
        requires
            old(self).wf(),
            vram@.len() == 0x2000,
        ensures
            (final(self)@, r.0, r.1) == old(self)@.step(cycles, vram@),
            final(self).wf(),
    {
        if self.lcdc & 0x80 == 0 {
            self.ly = 0;
            self.blank();
            self.mode = 0;
            self.update_stat();
            assert(self.fb@ =~= blank_frame());
            return (false, false);
        }
        let ghost v = self@;
        let ghost total: int = v.cycle_acc + cycles;
        let ghost mut done: int = 0;
        let mut acc: u64 = self.cycle_acc as u64 + cycles as u64;
        let mut vblank: bool = false;
        while acc >= 456
            invariant
                vram@.len() == 0x2000,
                v.wf(),
                v.lcdc & 0x80 != 0,
                0 <= done,
                acc + 456 * done == total,
                total < 0x2_0000_0000,
                self.ly as int == (v.ly + done) % 154,
                vblank == ((v.ly < 144 && v.ly + done >= 144) || v.ly + done >= 298),
                self@ == (PpuView {
                    ly: self.ly,
                    fb: if v.ly + done >= 154 {
                        v.rendered(vram@)
                    } else {
                        v.fb
                    },
                    ..v
                }),
            decreases acc,
        {
            acc -= 456;
            self.ly = self.ly.wrapping_add(1);
            if self.ly == VBLANK_LINE {
                vblank = true;
            } else if self.ly >= FRAME_LINES {
                self.ly = 0;
                self.render_background(vram);
                assert(self.fb@ == v.rendered(vram@)) by {
                    assert(self.fb@ =~= v.rendered(vram@));
                }
            }
            proof {
                done = done + 1;
            }
        }
        assert(done == total / 456 && acc == total % 456);
        self.cycle_acc = acc as u32;
        self.mode = if self.ly >= VBLANK_LINE {
            1
        } else if acc < 80 {
            2
        } else if acc < 252 {
            3
        } else {
            0
        };
        let irq: bool = self.update_stat();
        (vblank, irq)
    }
}

} // verus!
