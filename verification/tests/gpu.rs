//! Tests of the GPU's command decoding, colours and VRAM access.

use psemu::gpu::{blend_texel, too_far_apart, Color, Gpu, TextureBlendingMode, TextureCoords, Vertex};
use psemu::interrupts::InterruptController;

#[test]
fn test_vertex_from_command() {
    let command = 0x0400_03ff;
    let vertex = Vertex::from_command(command);
    assert_eq!(vertex.x, 1023);
    assert_eq!(vertex.y, -1024);
}

#[test]
fn test_color_conversions() {
    assert_eq!(Gpu::rgb888_to_bgr555(0xff, 0x00, 0x80), 0x401f);
    assert_eq!(Gpu::bgr555_to_rgb888(0x401f), (0xf8, 0x00, 0x80));
    assert_eq!(Gpu::command_to_rgb888(0x0012_3456), (0x56, 0x34, 0x12));
    let c = Color::from_bgr555(0x7fff);
    assert_eq!((c.r, c.g, c.b), (255, 255, 255));
    assert!(!c.transparent);
    assert!(Color::from_bgr555(0x8000).transparent);
}

#[test]
fn test_modulate_color() {
    // 0x80 leaves a channel as it is, 0xff nearly doubles it (saturating).
    assert_eq!(Gpu::modulate_color_555(0x001f, 0x0080_8080), 0x001f);
    assert_eq!(Gpu::modulate_color_555(0x0010, 0x0000_00ff), 0x001f);
    assert_eq!(Gpu::modulate_color_555(0x001f, 0x0000_0000), 0x0000);
}

#[test]
fn test_gpustat_after_reset() {
    let mut gpu = Gpu::new();
    let stat = gpu.read(0x1f80_1814);
    assert_eq!(stat, gpu.gpustat());
    assert_eq!(gpu.read(0x1f80_1810), 0);
}

#[test]
fn test_vertices_too_far_apart() {
    let o = Vertex::new(0, 0);
    assert!(!too_far_apart(o, Vertex::new(1023, 0), Vertex::new(0, 511)));
    assert!(too_far_apart(Vertex::new(-1, 0), Vertex::new(1023, 0), o));
    assert!(too_far_apart(o, o, Vertex::new(0, 512)));
    assert!(too_far_apart(o, Vertex::new(5, -512), Vertex::new(5, 0)));
}

#[test]
fn test_blend_texel() {
    let black = Color::new(0, 0, 0, false);
    let white = Color::new(255, 255, 255, false);
    assert_eq!(blend_texel(black, TextureBlendingMode::Raw, white, white), None);
    let masked_black = Color::new(0, 0, 0, true);
    assert_eq!(blend_texel(masked_black, TextureBlendingMode::Raw, white, white), Some(masked_black));
    let tex = Color::new(255, 128, 0, false);
    let grey = Color::new(128, 128, 128, false);
    assert_eq!(blend_texel(tex, TextureBlendingMode::Shaded, grey, white), Some(Color::new(127, 64, 0, false)));
    let main = Color::new(0x80, 0xff, 0x40, false);
    assert_eq!(blend_texel(tex, TextureBlendingMode::Modulated, grey, main), Some(Color::new(255, 255, 0, false)));
}

#[test]
fn test_plot_pixel_offset_wrap_and_clip() {
    let mut gpu = Gpu::new();
    gpu.x_offset = 10;
    gpu.y_offset = -3;
    let red = Color::new(0xff, 0, 0, false);
    gpu.plot_pixel(1020, 1, red, false);
    // 1020 + 10 wraps to column 6; 1 - 3 wraps to row 510.
    assert_eq!(gpu.vram[510 * 1024 + 6], 0x001f);

    gpu.max_x = 100;
    gpu.plot_pixel(200, 5, red, false);
    assert_eq!(gpu.vram[2 * 1024 + 210], 0);

    // Dithering at (1, 0) raises each channel by 4.
    let grey = Color::new(0x7c, 0x7c, 0x7c, false);
    gpu.plot_pixel(-9, 3, grey, true);
    assert_eq!(gpu.vram[1], 0x4210);
    gpu.plot_pixel(-8, 3, grey, false);
    assert_eq!(gpu.vram[2], 0x3def);
}

#[test]
fn test_texture_color_through_clut() {
    let mut gpu = Gpu::new();
    // A 4-bit page at (0, 0); texel (5, 2) is nibble 1 of VRAM[2 * 1024 + 1].
    gpu.vram[2 * 1024 + 1] = 0x0070;
    let clut: u16 = (3 << 6) | 2; // CLUT at column 32, row 3.
    gpu.vram[3 * 1024 + 32 + 7] = 0x7c00;
    let coords = TextureCoords::new(5, 2);
    assert!(gpu.can_read_texture(coords, clut));
    let c = gpu.texture_color(coords, clut);
    assert_eq!((c.r, c.g, c.b), (0, 0, 255));

    gpu.tex_page_depth = 2;
    gpu.vram[2 * 1024 + 5] = 0x001f;
    let c = gpu.texture_color(coords, clut);
    assert_eq!((c.r, c.g, c.b), (255, 0, 0));
    assert!(!gpu.can_read_texture(TextureCoords::new(256, 0), clut));
}

#[test]
fn test_end_scanline() {
    let mut gpu = Gpu::new();
    let mut intc = InterruptController::new();
    gpu.is_in_hblank = true;
    gpu.scanline = 254;
    gpu.end_scanline(7, &mut intc);
    assert_eq!((gpu.scanline, gpu.dots, gpu.is_in_hblank, gpu.is_in_vblank), (255, 7, false, false));
    assert!(gpu.even_odd);
    gpu.end_scanline(0, &mut intc);
    assert!(gpu.is_in_vblank);
    assert_eq!(intc.i_stat & 1, 1);

    gpu.scanline = 261;
    gpu.end_scanline(0, &mut intc);
    assert_eq!(gpu.scanline, 0);
    gpu.scanline = 15;
    gpu.end_scanline(0, &mut intc);
    assert!(!gpu.is_in_vblank);
}
