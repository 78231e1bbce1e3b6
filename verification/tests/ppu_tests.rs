use gb_emu::Ppu;

const W: usize = 160;
const H: usize = 144;

fn pixel(ppu: &Ppu, x: usize, y: usize) -> [u8; 4] {
    let i = (y * W + x) * 4;
    [ppu.fb[i], ppu.fb[i + 1], ppu.fb[i + 2], ppu.fb[i + 3]]
}

fn grey(shade: u8) -> [u8; 4] {
    [shade, shade, shade, 0xFF]
}

/// Fills all sixteen bytes of tile `tile` (counted from 0x8000) so that
/// every pixel has colour number `color`.
fn solid_tile(vram: &mut [u8], tile: usize, color: u8) {
    for line in 0..8 {
        vram[tile * 16 + line * 2] = if color & 1 != 0 { 0xFF } else { 0x00 };
        vram[tile * 16 + line * 2 + 1] = if color & 2 != 0 { 0xFF } else { 0x00 };
    }
}

#[test]
fn new_ppu_is_in_vertical_blank_with_a_zero_frame() {
    let ppu = Ppu::new();
    assert_eq!(ppu.fb.len(), W * H * 4);
    assert!(ppu.fb.iter().all(|b| *b == 0));
    assert_eq!(ppu.framebuffer_rgba().len(), 92160);
    assert_eq!((ppu.lcdc, ppu.stat, ppu.bgp), (0x91, 0x85, 0xFC));
    assert_eq!((ppu.scy, ppu.scx, ppu.ly, ppu.lyc, ppu.wy, ppu.wx), (0, 0, 0, 0, 0, 0));
    assert_eq!(ppu.cycle_acc, 0);
    assert_eq!(ppu.mode, 1);
    assert!(ppu.is_valid());
}

#[test]
fn is_valid_checks_each_bound() {
    let mut ppu = Ppu::new();
    ppu.ly = 153;
    ppu.cycle_acc = 455;
    ppu.mode = 3;
    assert!(ppu.is_valid());
    ppu.ly = 154;
    assert!(!ppu.is_valid());
    ppu.ly = 0;
    ppu.cycle_acc = 456;
    assert!(!ppu.is_valid());
    ppu.cycle_acc = 0;
    ppu.mode = 4;
    assert!(!ppu.is_valid());
    ppu.mode = 0;
    ppu.fb.pop();
    assert!(!ppu.is_valid());
}

#[test]
fn disabled_display_holds_ly_and_blanks_the_frame() {
    let vram = vec![0u8; 0x2000];
    let mut ppu = Ppu::new();
    ppu.lcdc = 0x11;
    ppu.ly = 50;
    ppu.lyc = 50;
    ppu.stat = 0xFD;
    ppu.cycle_acc = 100;
    for cycles in [0u32, 1, 456, 1000, 70224, u32::MAX] {
        assert_eq!(ppu.step(cycles, &vram), (false, false));
        assert_eq!(ppu.ly, 0);
        assert_eq!(ppu.mode, 0);
        assert_eq!(ppu.cycle_acc, 100);
        assert_eq!(ppu.stat, 0xF8);
        assert_eq!(ppu.fb.len(), 92160);
        assert!(ppu.fb.iter().all(|b| *b == 0xFF));
    }
    ppu.lyc = 0;
    ppu.step(4, &vram);
    assert_eq!(ppu.stat, 0xFC);
}

#[test]
fn ly_stays_below_154_on_every_step() {
    let vram = vec![0u8; 0x2000];
    let mut ppu = Ppu::new();
    let mut cycles: u32 = 1;
    for _ in 0..3000 {
        ppu.step(cycles, &vram);
        assert!(ppu.ly <= 153);
        assert!(ppu.cycle_acc < 456);
        assert!(ppu.is_valid());
        cycles = (cycles * 7 + 3) % 1500;
    }
}

#[test]
fn a_frame_is_154_lines_of_456_cycles() {
    let vram = vec![0u8; 0x2000];
    let mut ppu = Ppu::new();
    let mut blanks = 0;
    for line in 1..=154u32 {
        let (vblank, _) = ppu.step(456, &vram);
        assert_eq!(ppu.ly as u32, line % 154);
        assert_eq!(ppu.cycle_acc, 0);
        assert_eq!(vblank, line == 144);
        if vblank {
            blanks += 1;
        }
    }
    assert_eq!(blanks, 1);
    assert_eq!(154 * 456, 70224);

    // One step of a whole frame comes back to the same point.
    let mut ppu = Ppu::new();
    ppu.ly = 100;
    ppu.cycle_acc = 321;
    let (vblank, _) = ppu.step(70224, &vram);
    assert!(vblank);
    assert_eq!(ppu.ly, 100);
    assert_eq!(ppu.cycle_acc, 321);
}

#[test]
fn vertical_blank_is_reported_when_ly_reaches_144() {
    let vram = vec![0u8; 0x2000];
    let mut ppu = Ppu::new();
    ppu.ly = 143;
    ppu.cycle_acc = 455;
    assert_eq!(ppu.step(1, &vram).0, true);
    assert_eq!(ppu.ly, 144);
    assert_eq!(ppu.mode, 1);
    // Within the blank nothing new is reported.
    assert_eq!(ppu.step(456, &vram).0, false);
    assert_eq!(ppu.ly, 145);
    // A step from the blank around to line 144 reports it again.
    assert_eq!(ppu.step(153 * 456, &vram).0, true);
    assert_eq!(ppu.ly, 144);
    // A step that stops short of line 144 does not.
    let mut ppu = Ppu::new();
    ppu.ly = 150;
    assert_eq!(ppu.step(147 * 456, &vram).0, false);
    assert_eq!(ppu.ly, 143);
}

#[test]
fn mode_follows_the_position_in_the_scanline() {
    let vram = vec![0u8; 0x2000];
    for (acc, mode) in [(0u32, 2u8), (79, 2), (80, 3), (251, 3), (252, 0), (455, 0)] {
        let mut ppu = Ppu::new();
        ppu.stat = 0x80;
        ppu.lyc = 99;
        ppu.step(acc, &vram);
        assert_eq!(ppu.mode, mode, "cycle {}", acc);
        assert_eq!(ppu.stat, 0x80 | mode);
        ppu.ly = 144;
        ppu.step(0, &vram);
        assert_eq!(ppu.mode, 1);
        assert_eq!(ppu.stat, 0x81);
    }
}

#[test]
fn update_stat_sets_match_and_mode_bits_and_reports_enabled_sources() {
    // (stat, ly, lyc, mode, stat after, request)
    let cases: [(u8, u8, u8, u8, u8, bool); 10] = [
        (0x00, 5, 5, 0, 0x04, false),
        (0x40, 5, 5, 3, 0x47, true),
        (0x40, 5, 6, 3, 0x43, false),
        (0x20, 5, 6, 2, 0x22, true),
        (0x20, 5, 6, 3, 0x23, false),
        (0x10, 150, 6, 1, 0x11, true),
        (0x10, 5, 6, 0, 0x10, false),
        (0x08, 5, 6, 0, 0x08, true),
        (0x08, 5, 6, 2, 0x0A, false),
        (0xFF, 1, 2, 3, 0xFB, false),
    ];
    for (stat, ly, lyc, mode, after, irq) in cases {
        let mut ppu = Ppu::new();
        ppu.stat = stat;
        ppu.ly = ly;
        ppu.lyc = lyc;
        ppu.mode = mode;
        assert_eq!(ppu.update_stat(), irq, "stat {:#04x}", stat);
        assert_eq!(ppu.stat, after, "stat {:#04x}", stat);
    }
}

#[test]
fn map_palette_picks_two_bits_per_colour() {
    assert_eq!(Ppu::map_palette(0xE4, 0), 0xFF);
    assert_eq!(Ppu::map_palette(0xE4, 1), 0xAA);
    assert_eq!(Ppu::map_palette(0xE4, 2), 0x55);
    assert_eq!(Ppu::map_palette(0xE4, 3), 0x00);
    assert_eq!(Ppu::map_palette(0xFC, 0), 0xFF);
    assert_eq!(Ppu::map_palette(0xFC, 1), 0x00);
    assert_eq!(Ppu::map_palette(0x1B, 0), 0x00);
    assert_eq!(Ppu::map_palette(0x1B, 1), 0x55);
    assert_eq!(Ppu::map_palette(0x1B, 2), 0xAA);
    assert_eq!(Ppu::map_palette(0x1B, 3), 0xFF);
}

#[test]
fn tile_line_ff_00_draws_eight_pixels_of_shade_one() {
    let mut vram = vec![0u8; 0x2000];
    vram[0] = 0xFF;
    vram[1] = 0x00;
    let mut ppu = Ppu::new();
    ppu.bgp = 0xE4;
    ppu.render_background(&vram);
    for x in 0..8 {
        assert_eq!(pixel(&ppu, x, 0), [0xAA, 0xAA, 0xAA, 0xFF]);
    }
    // The other lines of the tile are colour 0.
    for x in 0..8 {
        assert_eq!(pixel(&ppu, x, 1), grey(0xFF));
    }
    // The map is all tile 0, so every eighth line looks the same.
    assert_eq!(pixel(&ppu, 159, 136), grey(0xAA));
    assert_eq!(pixel(&ppu, 159, 143), grey(0xFF));
}

#[test]
fn colour_number_takes_the_high_bit_from_the_second_byte() {
    let mut vram = vec![0u8; 0x2000];
    // Line 0 of tile 0: pixels 0..8 have colours 3, 2, 1, 0, 3, 2, 1, 0.
    vram[0] = 0b1010_1010;
    vram[1] = 0b1100_1100;
    let mut ppu = Ppu::new();
    ppu.bgp = 0xE4;
    ppu.render_background(&vram);
    let shades = [0x00, 0x55, 0xAA, 0xFF, 0x00, 0x55, 0xAA, 0xFF];
    for x in 0..8 {
        assert_eq!(pixel(&ppu, x, 0), grey(shades[x]), "pixel {}", x);
    }
}

#[test]
fn every_pixel_is_grey_with_full_alpha() {
    let mut vram = vec![0u8; 0x2000];
    for (i, b) in vram.iter_mut().enumerate() {
        *b = (i * 31 + 7) as u8;
    }
    let mut ppu = Ppu::new();
    ppu.bgp = 0xE4;
    ppu.scx = 13;
    ppu.scy = 200;
    ppu.lcdc = 0xF1;
    ppu.wx = 50;
    ppu.wy = 60;
    ppu.render_background(&vram);
    for y in 0..H {
        for x in 0..W {
            let p = pixel(&ppu, x, y);
            assert!(p[0] == p[1] && p[1] == p[2] && p[3] == 0xFF);
            assert!([0xFF, 0xAA, 0x55, 0x00].contains(&p[0]));
        }
    }
}

#[test]
fn tile_map_and_tile_data_are_selected_by_lcdc() {
    let mut vram = vec![0u8; 0x2000];
    solid_tile(&mut vram, 1, 3);
    solid_tile(&mut vram, 0x80, 2);
    solid_tile(&mut vram, 0x101, 1);
    // Map at 0x9800 says tile 1 everywhere, map at 0x9C00 says tile 0x80.
    for i in 0..0x400 {
        vram[0x1800 + i] = 0x01;
        vram[0x1C00 + i] = 0x80;
    }
    let mut ppu = Ppu::new();
    ppu.bgp = 0xE4;
    // Unsigned tile data, map 0x9800: tile 1 at 0x8010.
    ppu.lcdc = 0x91;
    ppu.render_background(&vram);
    assert_eq!(pixel(&ppu, 0, 0), grey(0x00));
    // Signed tile data, map 0x9800: tile 1 at 0x9010.
    ppu.lcdc = 0x81;
    ppu.render_background(&vram);
    assert_eq!(pixel(&ppu, 0, 0), grey(0xAA));
    // Unsigned tile data, map 0x9C00: tile 0x80 at 0x8800.
    ppu.lcdc = 0x99;
    ppu.render_background(&vram);
    assert_eq!(pixel(&ppu, 0, 0), grey(0x55));
    // Signed tile data, map 0x9C00: tile -128 at 0x8800 too.
    ppu.lcdc = 0x89;
    ppu.render_background(&vram);
    assert_eq!(pixel(&ppu, 0, 0), grey(0x55));
}

#[test]
fn signed_tile_numbers_reach_both_ends_of_their_region() {
    let mut vram = vec![0u8; 0x2000];
    // Tile 0x7F signed is at 0x97F0, tile 0xFF signed at 0x8FF0.
    solid_tile(&mut vram, 0x17F, 1);
    solid_tile(&mut vram, 0x0FF, 2);
    vram[0x1800] = 0x7F;
    vram[0x1801] = 0xFF;
    let mut ppu = Ppu::new();
    ppu.bgp = 0xE4;
    ppu.lcdc = 0x81;
    ppu.render_background(&vram);
    assert_eq!(pixel(&ppu, 0, 7), grey(0xAA));
    assert_eq!(pixel(&ppu, 8, 7), grey(0x55));
    assert_eq!(pixel(&ppu, 16, 7), grey(0xFF));
}

#[test]
fn background_scrolls_and_wraps_at_256() {
    let mut vram = vec![0u8; 0x2000];
    solid_tile(&mut vram, 1, 3);
    // Tile 1 in map column 1 of row 0, and in column 0 of row 31.
    vram[0x1800 + 1] = 1;
    vram[0x1800 + 31 * 32] = 1;
    let mut ppu = Ppu::new();
    ppu.bgp = 0xE4;
    ppu.render_background(&vram);
    assert_eq!(pixel(&ppu, 7, 0), grey(0xFF));
    assert_eq!(pixel(&ppu, 8, 0), grey(0x00));
    assert_eq!(pixel(&ppu, 15, 7), grey(0x00));
    assert_eq!(pixel(&ppu, 16, 0), grey(0xFF));
    assert_eq!(pixel(&ppu, 8, 8), grey(0xFF));

    ppu.scx = 8;
    ppu.render_background(&vram);
    assert_eq!(pixel(&ppu, 0, 0), grey(0x00));
    assert_eq!(pixel(&ppu, 8, 0), grey(0xFF));

    ppu.scx = 250;
    ppu.scy = 0;
    ppu.render_background(&vram);
    // Screen x = 14 is map x = 264 mod 256 = 8.
    assert_eq!(pixel(&ppu, 13, 0), grey(0xFF));
    assert_eq!(pixel(&ppu, 14, 0), grey(0x00));

    ppu.scx = 0;
    ppu.scy = 248;
    ppu.render_background(&vram);
    // Screen y = 0 is map y = 248, row 31; y = 8 wraps to row 0.
    assert_eq!(pixel(&ppu, 0, 0), grey(0x00));
    assert_eq!(pixel(&ppu, 8, 0), grey(0xFF));
    assert_eq!(pixel(&ppu, 0, 8), grey(0xFF));
    assert_eq!(pixel(&ppu, 8, 8), grey(0x00));
}

#[test]
fn window_covers_the_background_from_its_origin() {
    let mut vram = vec![0u8; 0x2000];
    solid_tile(&mut vram, 1, 3);
    solid_tile(&mut vram, 2, 1);
    // Window map at 0x9C00: tile 1 at its top left, tile 2 elsewhere.
    for i in 0..0x400 {
        vram[0x1C00 + i] = 2;
    }
    vram[0x1C00] = 1;
    let mut ppu = Ppu::new();
    ppu.bgp = 0xE4;
    ppu.lcdc = 0xF1;
    ppu.wx = 87;
    ppu.wy = 72;
    ppu.scx = 3;
    ppu.scy = 5;
    ppu.render_background(&vram);
    assert_eq!(pixel(&ppu, 79, 72), grey(0xFF));
    assert_eq!(pixel(&ppu, 80, 71), grey(0xFF));
    assert_eq!(pixel(&ppu, 80, 72), grey(0x00));
    assert_eq!(pixel(&ppu, 87, 79), grey(0x00));
    assert_eq!(pixel(&ppu, 88, 72), grey(0xAA));
    assert_eq!(pixel(&ppu, 80, 80), grey(0xAA));
    assert_eq!(pixel(&ppu, 159, 143), grey(0xAA));

    // Window disabled: background only.
    ppu.lcdc = 0xD1;
    ppu.render_background(&vram);
    assert_eq!(pixel(&ppu, 80, 72), grey(0xFF));

    // Window map at 0x9800, which is empty here.
    ppu.lcdc = 0xB1;
    ppu.render_background(&vram);
    assert_eq!(pixel(&ppu, 80, 72), grey(0xFF));

    // wx = 7 puts the window at the left edge.
    ppu.lcdc = 0xF1;
    ppu.wx = 7;
    ppu.wy = 0;
    ppu.render_background(&vram);
    assert_eq!(pixel(&ppu, 0, 0), grey(0x00));
    assert_eq!(pixel(&ppu, 8, 0), grey(0xAA));
}

#[test]
fn window_with_wx_below_seven_starts_left_of_the_screen() {
    let mut vram = vec![0u8; 0x2000];
    solid_tile(&mut vram, 1, 3);
    solid_tile(&mut vram, 2, 1);
    // Window map: tile 1 in column 0, tile 2 in column 1, tile 0 beyond.
    for row in 0..32 {
        vram[0x1C00 + row * 32] = 1;
        vram[0x1C00 + row * 32 + 1] = 2;
    }
    let mut ppu = Ppu::new();
    ppu.bgp = 0xE4;
    ppu.lcdc = 0xF1;
    for wx in 0..7usize {
        ppu.wx = wx as u8;
        ppu.render_background(&vram);
        // Screen column x shows window column x + 7 - wx.
        for x in 0..20 {
            let column = x + 7 - wx;
            let shade = match column / 8 {
                0 => 0x00,
                1 => 0xAA,
                _ => 0xFF,
            };
            assert_eq!(pixel(&ppu, x, 0), grey(shade), "wx {} x {}", wx, x);
            assert_eq!(pixel(&ppu, x, 143), grey(shade));
        }
    }
}

#[test]
fn window_past_the_right_or_bottom_edge_is_not_drawn() {
    let mut vram = vec![0u8; 0x2000];
    solid_tile(&mut vram, 1, 3);
    for i in 0..0x400 {
        vram[0x1C00 + i] = 1;
    }
    let mut ppu = Ppu::new();
    ppu.bgp = 0xE4;
    ppu.lcdc = 0xF1;
    ppu.wx = 166;
    ppu.render_background(&vram);
    assert_eq!(pixel(&ppu, 158, 0), grey(0xFF));
    assert_eq!(pixel(&ppu, 159, 0), grey(0x00));
    for wx in [167u8, 200, 255] {
        ppu.wx = wx;
        ppu.render_background(&vram);
        assert!(ppu.fb.iter().all(|b| *b == 0xFF));
    }
    ppu.wx = 7;
    ppu.wy = 144;
    ppu.render_background(&vram);
    assert!(ppu.fb.iter().all(|b| *b == 0xFF));
    ppu.wy = 143;
    ppu.render_background(&vram);
    assert_eq!(pixel(&ppu, 0, 142), grey(0xFF));
    assert_eq!(pixel(&ppu, 0, 143), grey(0x00));
}

#[test]
fn render_of_a_disabled_display_is_blank() {
    let mut vram = vec![0u8; 0x2000];
    solid_tile(&mut vram, 0, 3);
    let mut ppu = Ppu::new();
    ppu.lcdc = 0x11;
    ppu.render_background(&vram);
    assert!(ppu.fb.iter().all(|b| *b == 0xFF));
}

#[test]
fn a_pixel_depends_on_its_map_entry_and_tile_row_only() {
    let mut vram = vec![0u8; 0x2000];
    for (i, b) in vram.iter_mut().enumerate() {
        *b = (i * 13 + 5) as u8;
    }
    let mut ppu = Ppu::new();
    ppu.bgp = 0xE4;
    ppu.scx = 21;
    ppu.scy = 37;
    let (x, y) = (50usize, 60usize);
    // The three bytes the pixel is drawn from.
    let (sx, sy) = ((x + 21) % 256, (y + 37) % 256);
    let map = 0x1800 + (sy / 8) * 32 + sx / 8;
    let row = vram[map] as usize * 16 + (sy % 8) * 2;
    ppu.render_background(&vram);
    let before = pixel(&ppu, x, y);
    // Changing every other byte leaves the pixel as it was.
    let mut other = vram.clone();
    for (i, b) in other.iter_mut().enumerate() {
        if i != map && i != row && i != row + 1 {
            *b = !*b;
        }
    }
    ppu.render_background(&other);
    assert_eq!(pixel(&ppu, x, y), before);
    // Changing the tile row changes it.
    let bit = 7 - (sx % 8);
    let mut changed = vram.clone();
    changed[row] ^= 1 << bit;
    ppu.render_background(&changed);
    assert_ne!(pixel(&ppu, x, y), before);
}

#[test]
fn frame_is_drawn_when_ly_wraps_to_zero() {
    let mut vram = vec![0u8; 0x2000];
    solid_tile(&mut vram, 0, 3);
    let mut ppu = Ppu::new();
    ppu.bgp = 0xE4;
    ppu.ly = 153;
    ppu.step(455, &vram);
    assert_eq!(ppu.ly, 153);
    assert!(ppu.fb.iter().all(|b| *b == 0));
    assert_eq!(ppu.step(1, &vram), (false, false));
    assert_eq!(ppu.ly, 0);
    assert_eq!(ppu.mode, 2);
    assert_eq!(pixel(&ppu, 0, 0), grey(0x00));
    assert_eq!(pixel(&ppu, 159, 143), grey(0x00));
}

#[test]
fn step_takes_any_number_of_cycles() {
    let vram = vec![0u8; 0x2000];
    let mut ppu = Ppu::new();
    ppu.ly = 10;
    ppu.cycle_acc = 400;
    // 1_000_000 + 400 = 2193 lines and 392 cycles; 10 + 2193 = 14 * 154 + 47.
    let (vblank, _) = ppu.step(1_000_000, &vram);
    assert!(vblank);
    assert_eq!(ppu.ly, 47);
    assert_eq!(ppu.cycle_acc, 392);
    assert_eq!(ppu.mode, 0);
    assert!(ppu.fb.chunks(4).all(|p| p == [0xFF, 0xFF, 0xFF, 0xFF]));
}
