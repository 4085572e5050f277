//! The GPU's command processor: the GP0 command FIFO and the GP1 display
//! control port, VRAM transfers, fills and copies, rectangles, the drawing
//! settings and the status register. Polygons and lines are decoded here
//! and handed out as `Draw` commands for the rasterizer.

use vstd::prelude::*;

use crate::bits::lemma_and_le;
use crate::interrupts::InterruptController;

verus! {

pub const VRAM_WIDTH: usize = 1024;
pub const VRAM_HEIGHT: usize = 512;
pub const VRAM_SIZE: usize = 524288;
/// The words the command FIFO can hold.
pub const FIFO_SIZE: usize = 100000;

/// How a texel's colour combines with the primitive's colour.
#[derive(Debug, Clone, Copy, PartialEq, Eq, Structural)]
pub enum TextureBlendingMode {
    /// The texel colour as it is.
    Raw,
    /// The texel colour scaled by the interpolated vertex colours.
    Shaded,
    /// The texel colour scaled by the primitive's colour (0x80 is 1).
    Modulated,
}

/// A screen position in VRAM coordinates.
#[derive(Debug, Clone, Copy, PartialEq, Eq, Structural)]
pub struct Vertex {
    pub x: isize,
    pub y: isize,
}

/// An 8-bit-per-channel colour with the mask (semi-transparency) bit.
#[derive(Debug, Clone, Copy, PartialEq, Eq, Structural)]
pub struct Color {
    pub r: u8,
    pub g: u8,
    pub b: u8,
    pub transparent: bool,
}

/// A position in the current texture page.
#[derive(Debug, Clone, Copy, PartialEq, Eq, Structural)]
pub struct TextureCoords {
    pub x: usize,
    pub y: usize,
}

/// A width and height.
#[derive(Debug, Clone, Copy, PartialEq, Eq, Structural)]
pub struct Sizing {
    pub width: usize,
    pub height: usize,
}

/// A vertex with its colour.
#[derive(Debug, Clone, Copy, PartialEq, Eq, Structural)]
pub struct VertexData {
    pub color: Color,
    pub vertex: Vertex,
}

/// A vertex with its colour and texture coordinates.
#[derive(Debug, Clone, Copy, PartialEq, Eq, Structural)]
pub struct TexturedVertexData {
    pub color: Color,
    pub vertex: Vertex,
    pub texture_coords: TextureCoords,
}

/// A primitive for the rasterizer.
#[derive(Debug, Clone)]
pub enum Draw {
    /// A triangle, flat-shaded (the first vertex's colour) or Gouraud
    /// shaded.
    Triangle(VertexData, VertexData, VertexData, bool, bool),
    /// A textured triangle with its CLUT, semi-transparency and blending.
    TexturedTriangle(TexturedVertexData, TexturedVertexData, TexturedVertexData, u16, bool, TextureBlendingMode),
    /// Lines through the vertices in order.
    Polyline(Vec<VertexData>, bool),
}

/// A GP0 command the GPU cannot execute.
#[derive(Debug, Clone, Copy, PartialEq, Eq, Structural)]
pub enum GpuError {
    /// The command byte is not one the GPU knows.
    UnknownCommand(u32),
    /// The command would touch memory outside VRAM or the FIFO.
    OutOfBounds(u32),
    /// A polyline whose terminator is missing from the FIFO.
    UnterminatedPolyline,
}

/// A vertex word: two 11-bit signed coordinates, X in bits 10..0 and Y
/// in bits 26..16.
pub open spec fn sext11(v: u32) -> int {
    if v & 0x400 != 0 {
        (v & 0x7ff) as int - 0x800
    } else {
        (v & 0x7ff) as int
    }
}

pub open spec fn vertex_of(command: u32) -> Vertex {
    Vertex { x: sext11(command) as isize, y: sext11(command >> 16u32) as isize }
}

/// The colour of a 24-bit command colour, opaque.
pub open spec fn color_of(rgb: u32) -> Color {
    Color { r: (rgb & 0xff) as u8, g: ((rgb >> 8u32) & 0xff) as u8, b: ((rgb >> 16u32) & 0xff) as u8, transparent: false }
}

/// A 5-bit channel scaled to 8 bits: floor(c * 255 / 31).
pub open spec fn expand5(c: int) -> u8 {
    (c * 255 / 31) as u8
}

/// A 15-bit BGR colour with its mask bit 15.
/// A colour scaled by another (0x80 is 1), saturated; the mask bit of the
/// first is kept.
pub open spec fn modulated(c: Color, by: Color) -> Color {
    Color {
        r: modulate_channel(c.r, by.r),
        g: modulate_channel(c.g, by.g),
        b: modulate_channel(c.b, by.b),
        transparent: c.transparent,
    }
}

/// The product of two colours, channel by channel, divided by 256; the mask
/// bit is set if either has it.
pub open spec fn multiplied(a: Color, b: Color) -> Color {
    Color {
        r: ((a.r as int * b.r as int) / 256) as u8,
        g: ((a.g as int * b.g as int) / 256) as u8,
        b: ((a.b as int * b.b as int) / 256) as u8,
        transparent: a.transparent || b.transparent,
    }
}

/// A colour with the ordered-dither offset of screen position (x, y) added
/// to each channel, clamped.
pub open spec fn dithered(x: int, y: int, color: Color) -> Color {
    Color {
        r: dither_channel(color.r, dither_offset(x, y)),
        g: dither_channel(color.g, dither_offset(x, y)),
        b: dither_channel(color.b, dither_offset(x, y)),
        transparent: color.transparent,
    }
}

/// Whether two of three vertices lie 1024 or more pixels apart
/// horizontally, or 512 or more vertically: such triangles are not drawn.
pub open spec fn far_apart(a: Vertex, b: Vertex, c: Vertex) -> bool {
    ||| abs_int(a.x - b.x) >= 1024
    ||| abs_int(b.x - c.x) >= 1024
    ||| abs_int(c.x - a.x) >= 1024
    ||| abs_int(a.y - b.y) >= 512
    ||| abs_int(b.y - c.y) >= 512
    ||| abs_int(c.y - a.y) >= 512
}

/// The absolute value of an integer.
pub open spec fn abs_int(v: int) -> int {
    if v < 0 { -v } else { v }
}

/// A coordinate small enough that differences and offsets of it fit.
pub open spec fn coordinate_fits(v: isize) -> bool {
    -0x3fff_ffff <= v <= 0x3fff_ffff
}

/// The colour a texel of a textured primitive turns into by blending
/// `mode`, with `shade` the interpolated vertex colour and `main` the
/// primitive's colour; `None` for a black texel without the mask bit,
/// which is not drawn.
pub open spec fn blended(tex: Color, mode: TextureBlendingMode, shade: Color, main: Color) -> Option<Color> {
    if tex.r == 0 && tex.g == 0 && tex.b == 0 && !tex.transparent {
        None
    } else {
        Some(
            match mode {
                TextureBlendingMode::Raw => tex,
                TextureBlendingMode::Shaded => multiplied(tex, shade),
                TextureBlendingMode::Modulated => modulated(tex, main),
            },
        )
    }
}

/// Whether two of three vertices lie too far apart for a triangle to be
/// drawn.
pub fn too_far_apart(a: Vertex, b: Vertex, c: Vertex) -> (r: bool)
    requires
        coordinate_fits(a.x) && coordinate_fits(a.y),
        coordinate_fits(b.x) && coordinate_fits(b.y),
        coordinate_fits(c.x) && coordinate_fits(c.y),
    ensures
        r == far_apart(a, b, c),
{
    let dx01 = if a.x >= b.x { a.x - b.x } else { b.x - a.x };
    let dx12 = if b.x >= c.x { b.x - c.x } else { c.x - b.x };
    let dx20 = if c.x >= a.x { c.x - a.x } else { a.x - c.x };
    let dy01 = if a.y >= b.y { a.y - b.y } else { b.y - a.y };
    let dy12 = if b.y >= c.y { b.y - c.y } else { c.y - b.y };
    let dy20 = if c.y >= a.y { c.y - a.y } else { a.y - c.y };
    dx01 >= 1024 || dx12 >= 1024 || dx20 >= 1024 || dy01 >= 512 || dy12 >= 512 || dy20 >= 512
}

/// Blends a texel's colour as a textured primitive's mode says; `None`
/// for a black texel without the mask bit, which is not drawn.
pub fn blend_texel(tex: Color, mode: TextureBlendingMode, shade: Color, main: Color) -> (r: Option<Color>)
    ensures
        r == blended(tex, mode, shade, main),
{
    if tex.r == 0 && tex.g == 0 && tex.b == 0 && !tex.transparent {
        None
    } else {
        Some(
            match mode {
                TextureBlendingMode::Raw => tex,
                TextureBlendingMode::Shaded => tex.multiply(&shade),
                TextureBlendingMode::Modulated => tex.modulate(&main),
            },
        )
    }
}

pub open spec fn color_of_bgr555(color: u16) -> Color {
    Color {
        r: expand5((color & 0x1f) as int),
        g: expand5(((color >> 5u16) & 0x1f) as int),
        b: expand5(((color >> 10u16) & 0x1f) as int),
        transparent: color & 0x8000 != 0,
    }
}

/// The 15-bit BGR form of a colour: the top 5 bits of each channel, and
/// bit 15 from the mask bit.
pub open spec fn bgr555_of(c: Color) -> u16 {
    ((c.r >> 3u8) as u16) | (((c.g >> 3u8) as u16) << 5u16) | (((c.b >> 3u8) as u16) << 10u16) | (
    if c.transparent { 0x8000u16 } else { 0 })
}

/// A channel scaled by a modulation channel, where 0x80 is 1, saturated.
pub open spec fn modulate_channel(c: u8, m: u8) -> u8 {
    let v = c as int * m as int / 128;
    if v > 255 { 255 } else { v as u8 }
}

/// The number of words a GP0 command takes, from its first word, the word
/// last written (which ends a polyline) and the third word (the size of a
/// CPU-to-VRAM transfer, whose pixels follow two to a word).
pub open spec fn expected_words_spec(first: u32, last: u32, third: u32, index: usize) -> int {
    let command = first >> 24u32;
    let primary = command >> 5u32;
    if primary == 0 {
        if command == 2 { 3 } else { 1 }
    } else if primary == 1 {
        let gouraud = command & 0x10 != 0;
        let quad = command & 0x8 != 0;
        let textured = command & 0x4 != 0;
        let per_vertex: int = if gouraud { if textured { 3 } else { 2 } } else { if textured { 2 } else { 1 } };
        (if quad { 4int } else { 3int }) * per_vertex + (if !gouraud { 1int } else { 0int })
    } else if primary == 2 {
        if command & 0x8 != 0 {
            if last & 0x5000_5000 == 0x5000_5000 { index as int } else { 10000 }
        } else if command & 0x10 != 0 {
            4
        } else {
            3
        }
    } else if primary == 3 {
        let size = (command >> 3u32) & 3;
        if command & 0x4 != 0 {
            if size == 0 { 4 } else { 3 }
        } else {
            if size == 0 { 3 } else { 2 }
        }
    } else if primary == 4 {
        4
    } else if primary == 5 {
        3 + ((third >> 16u32) * (third & 0xffff) + 1) / 2
    } else if primary == 6 {
        3
    } else {
        1
    }
}

impl Vertex {
    pub fn new(x: isize, y: isize) -> (r: Self)
        ensures
            r == (Vertex { x, y }),
    {
        Vertex { x, y }
    }

    /// The coordinates as a pair.
    pub fn explode(self) -> (r: (isize, isize))
        ensures
            r == (self.x, self.y),
    {
        (self.x, self.y)
    }

    /// Decodes a vertex word: each coordinate is 11 bits, sign-extended.
    pub fn from_command(command: u32) -> (r: Self)
        ensures
            r == vertex_of(command),
            -1024 <= r.x < 1024 && -1024 <= r.y < 1024,
    {
        let x = sign_extend11(command);
        let y = sign_extend11(command >> 16u32);
        Vertex { x: x as isize, y: y as isize }
    }
}

/// Bit 10 of an 11-bit field splits its range in halves.
proof fn lemma_bit10(v: u32)
    by (bit_vector)
    ensures
        v & 0x7ff <= 0x7ff,
        v & 0x400 != 0 ==> v & 0x7ff >= 0x400,
        v & 0x400 == 0 ==> v & 0x7ff < 0x400,
{
}

fn sign_extend11(v: u32) -> (r: i16)
    ensures
        r == sext11(v),
        -1024 <= r < 1024,
{
    let low = v & 0x7ff;
    proof {
        lemma_bit10(v);
    }
    if v & 0x400 != 0 {
        (low as i16) - 0x800
    } else {
        low as i16
    }
}

impl Color {
    /// The 15-bit form of a 24-bit command colour, without the mask bit.
    pub open spec fn bgr555_plain(rgb: u32) -> u16 {
        ((((rgb & 0xff) as u8) >> 3u8) as u16) | (((((rgb >> 8u32) & 0xff) as u8 >> 3u8) as u16) << 5u16) | ((((
        (rgb >> 16u32) & 0xff) as u8 >> 3u8) as u16) << 10u16)
    }

    pub fn new(r: u8, g: u8, b: u8, t: bool) -> (c: Self)
        ensures
            c == (Color { r, g, b, transparent: t }),
    {
        Color { r, g, b, transparent: t }
    }

    pub fn to_rgb888(&self) -> (c: (u8, u8, u8))
        ensures
            c == (self.r, self.g, self.b),
    {
        (self.r, self.g, self.b)
    }

    /// Expands a 15-bit BGR colour to 8 bits per channel (c * 255 / 31,
    /// rounded down) and its mask bit.
    pub fn from_bgr555(color: u16) -> (c: Self)
        ensures
            c == color_of_bgr555(color),
    {
        let r = color & 0x1f;
        let g = (color >> 5u16) & 0x1f;
        let b = (color >> 10u16) & 0x1f;
        proof {
            lemma_and_le(color as u32, 0x1f);
            lemma_and_le((color >> 5u16) as u32, 0x1f);
            lemma_and_le((color >> 10u16) as u32, 0x1f);
            assert(r as u32 == (color as u32) & 0x1f);
            assert(g as u32 == ((color >> 5u16) as u32) & 0x1f);
            assert(b as u32 == ((color >> 10u16) as u32) & 0x1f);
        }
        Color {
            r: expand_channel(r as u32),
            g: expand_channel(g as u32),
            b: expand_channel(b as u32),
            transparent: color & 0x8000 != 0,
        }
    }

    /// Decodes a 24-bit command colour, opaque.
    pub fn from_command(rgb: u32) -> (c: Self)
        ensures
            c == color_of(rgb),
    {
        let r = (rgb & 0xff) as u8;
        let g = ((rgb >> 8u32) & 0xff) as u8;
        let b = ((rgb >> 16u32) & 0xff) as u8;
        Color::new(r, g, b, false)
    }

    /// The 15-bit BGR form, with the mask bit.
    pub fn to_bgr555(&self) -> (c: u16)
        ensures
            c == bgr555_of(*self),
    {
        let r = (self.r >> 3u8) as u16;
        let g = (self.g >> 3u8) as u16;
        let b = (self.b >> 3u8) as u16;
        let t: u16 = if self.transparent { 0x8000 } else { 0 };
        r | (g << 5u16) | (b << 10u16) | t
    }

    /// This colour scaled by `other` (0x80 is 1), saturated at 255; the
    /// mask bit is kept.
    pub fn modulate(&self, other: &Color) -> (c: Color)
        ensures
            c == modulated(*self, *other),
    {
        Color::new(
            modulate_one(self.r, other.r),
            modulate_one(self.g, other.g),
            modulate_one(self.b, other.b),
            self.transparent,
        )
    }

    /// The product of two colours, channel by channel, divided by 256;
    /// the mask bit is set if either has it.
    pub fn multiply(&self, other: &Color) -> (c: Color)
        ensures
            c == multiplied(*self, *other),
    {
        Color::new(
            product_high(self.r, other.r),
            product_high(self.g, other.g),
            product_high(self.b, other.b),
            self.transparent || other.transparent,
        )
    }
}

fn expand_channel(c: u32) -> (r: u8)
    requires
        c <= 31,
    ensures
        r == expand5(c as int),
{
    assert(c * 255 / 31 <= 255) by (nonlinear_arith) requires c <= 31;
    (c * 255 / 31) as u8
}

fn modulate_one(c: u8, m: u8) -> (r: u8)
    ensures
        r == modulate_channel(c, m),
{
    assert((c as u32) * (m as u32) <= 0xfe01) by (nonlinear_arith) requires c <= 255, m <= 255;
    let v = (c as u32) * (m as u32) / 128;
    if v > 255 {
        255
    } else {
        v as u8
    }
}

fn product_high(a: u8, b: u8) -> (r: u8)
    ensures
        r == ((a as int * b as int) / 256) as u8,
{
    assert((a as u32) * (b as u32) <= 0xfe01) by (nonlinear_arith) requires a <= 255, b <= 255;
    assert((a as u32) * (b as u32) / 256 <= 255) by (nonlinear_arith) requires (a as u32) * (b as u32) <= 0xfe01;
    ((a as u32) * (b as u32) / 256) as u8
}

impl Sizing {
    pub fn new(width: usize, height: usize) -> (r: Self)
        ensures
            r == (Sizing { width, height }),
    {
        Sizing { width, height }
    }

    /// Decodes a size word: width in bits 9..0, height in bits 24..16.
    pub fn from_command(command: u32) -> (r: Self)
        ensures
            r.width == command & 0x3ff,
            r.height == (command >> 16u32) & 0x1ff,
    {
        Sizing::new((command & 0x3ff) as usize, ((command >> 16u32) & 0x1ff) as usize)
    }
}

impl TextureCoords {
    pub fn new(x: usize, y: usize) -> (r: Self)
        ensures
            r == (TextureCoords { x, y }),
    {
        TextureCoords { x, y }
    }

    /// Decodes texture coordinates: X in bits 7..0, Y in bits 15..8.
    pub fn from_command(command: u32) -> (r: Self)
        ensures
            r.x == command & 0xff,
            r.y == (command >> 8u32) & 0xff,
            r.x <= 255 && r.y <= 255,
    {
        proof {
            lemma_and_le(command, 0xff);
            crate::bits::lemma_field_le(command, 8, 0xff);
        }
        TextureCoords::new((command & 0xff) as usize, ((command >> 8u32) & 0xff) as usize)
    }
}

impl VertexData {
    /// A vertex from its colour word and vertex word.
    pub fn from_command(color_word: u32, vertex_word: u32) -> (r: Self)
        ensures
            r == (VertexData { color: color_of(color_word), vertex: vertex_of(vertex_word) }),
            -1024 <= r.vertex.x < 1024 && -1024 <= r.vertex.y < 1024,
    {
        VertexData { color: Color::from_command(color_word), vertex: Vertex::from_command(vertex_word) }
    }
}

/// A vertex with its colour, from its command words.
pub open spec fn vertex_data(color_word: u32, vertex_word: u32) -> VertexData {
    VertexData { color: color_of(color_word), vertex: vertex_of(vertex_word) }
}

/// Texture coordinates from their command word.
pub open spec fn coords_of(command: u32) -> TextureCoords {
    TextureCoords { x: (command & 0xff) as usize, y: ((command >> 8u32) & 0xff) as usize }
}

/// A textured vertex, from its command words.
pub open spec fn textured_vertex(color_word: u32, vertex_word: u32, texture_word: u32) -> TexturedVertexData {
    TexturedVertexData {
        color: color_of(color_word),
        vertex: vertex_of(vertex_word),
        texture_coords: coords_of(texture_word),
    }
}

impl TexturedVertexData {
    /// A textured vertex from its colour, vertex and texture words.
    pub fn from_command(color_word: u32, vertex_word: u32, texture_word: u32) -> (r: Self)
        ensures
            r == textured_vertex(color_word, vertex_word, texture_word),
    {
        TexturedVertexData {
            color: Color::from_command(color_word),
            vertex: Vertex::from_command(vertex_word),
            texture_coords: TextureCoords::from_command(texture_word),
        }
    }
}


/// The channels of a colour.
pub open spec fn rgb_of(c: Color) -> (u8, u8, u8) {
    (c.r, c.g, c.b)
}

/// The dither offset added to a channel at a screen position: the 4x4
/// ordered-dither matrix, shifted up by 4.
pub open spec fn dither_offset(x: int, y: int) -> int {
    let row = y % 4;
    let col = x % 4;
    4 + if row == 0 {
        if col == 0 { -4int } else if col == 1 { 0int } else if col == 2 { -3int } else { 1int }
    } else if row == 1 {
        if col == 0 { 2int } else if col == 1 { -2int } else if col == 2 { 3int } else { -1int }
    } else if row == 2 {
        if col == 0 { -3int } else if col == 1 { 1int } else if col == 2 { -4int } else { 0int }
    } else {
        if col == 0 { 3int } else if col == 1 { -1int } else if col == 2 { 2int } else { -2int }
    }
}

/// A channel plus a dither offset, clamped to a byte.
pub open spec fn dither_channel(c: u8, d: int) -> u8 {
    let v = c as int + d;
    if v < 0 { 0 } else if v > 255 { 255 } else { v as u8 }
}

/// The GPU's state, apart from the timing counters that the display
/// clock drives.
pub struct Gpu {
    /// The words of the GP0 command being received.
    pub fifo: Vec<u32>,
    pub fifo_index: usize,
    /// Video RAM: 1024x512 15-bit pixels.
    pub vram: Vec<u16>,
    /// Words of a VRAM-to-CPU transfer still to be read.
    pub is_reading: usize,
    pub reading_x: usize,
    pub reading_y: usize,
    pub reading_size_x: usize,
    pub reading_size_y: usize,
    pub reading_cur_x: usize,
    pub reading_cur_y: usize,
    /// The drawing offset added to rectangles.
    pub x_offset: isize,
    pub y_offset: isize,
    /// The clipping rectangle.
    pub min_x: usize,
    pub min_y: usize,
    pub max_x: usize,
    pub max_y: usize,
    /// Where the displayed area starts in VRAM.
    pub display_x_start: usize,
    pub display_y_start: usize,
    /// The visible range, in dot clocks and scanlines.
    pub display_x1: usize,
    pub display_y1: usize,
    pub display_x2: usize,
    pub display_y2: usize,
    pub display_enable: bool,
    /// The DMA direction: 0 off, 1 FIFO, 2 CPU to GPU, 3 GPU to CPU.
    pub dma_direction: u32,
    pub enable_dithering: bool,
    pub tex_page_x: usize,
    pub tex_page_y: usize,
    pub opacity_flag: usize,
    /// The texture colour depth: 0 4-bit, 1 8-bit, 2 and 3 15-bit.
    pub tex_page_depth: usize,
    pub last_cycle: usize,
    pub dots: u64,
    pub scanline: usize,
    /// The dot clock divider: 4, 5, 7, 8 or 10.
    pub dotclock_divider: u8,
    pub interlace: bool,
    pub is_pal: bool,
    pub is_24bit: bool,
    pub is_in_vblank: bool,
    pub is_in_hblank: bool,
    pub even_odd: bool,
}

/// The GPUSTAT bits of a dot clock divider: 0 to 3 in bits 18..17, or
/// bit 16 for 368-pixel mode (divider 7).
pub open spec fn divider_bits(d: u8) -> u32 {
    if d == 4 {
        0
    } else if d == 5 {
        1u32 << 17u32
    } else if d == 8 {
        2u32 << 17u32
    } else if d == 10 {
        3u32 << 17u32
    } else {
        1u32 << 16u32
    }
}

impl Gpu {
    pub open spec fn wf(&self) -> bool {
        &&& self.vram@.len() == VRAM_SIZE
        &&& self.fifo@.len() == FIFO_SIZE
        &&& self.fifo_index <= FIFO_SIZE
        &&& self.dotclock_divider == 4 || self.dotclock_divider == 5 || self.dotclock_divider == 7
            || self.dotclock_divider == 8 || self.dotclock_divider == 10
        &&& self.max_x <= 1023 && self.max_y <= 511
        &&& self.tex_page_x <= 960 && self.tex_page_y <= 256 && self.tex_page_depth <= 3
        &&& self.reading_x <= 1023 && self.reading_y <= 511
        &&& self.reading_size_x <= 1023 && self.reading_cur_x <= 1023 && self.reading_cur_y < 512
        &&& self.display_x_start <= 1023 && self.display_y_start <= 511
        &&& -1024 <= self.x_offset < 1024 && -1024 <= self.y_offset < 1024
    }

    /// The status register as read.
    pub open spec fn gpustat_spec(&self) -> u32 {
        ((self.tex_page_x & 0xf) as u32) | (((self.tex_page_y & 1) << 4usize) as u32) | (((
        self.opacity_flag & 3) << 5usize) as u32) | (((self.tex_page_depth & 3) << 7usize) as u32) | ((
        if self.enable_dithering { 1u32 } else { 0 }) << 9u32) | ((if self.interlace { 1u32 } else { 0 })
            << 13u32) | divider_bits(self.dotclock_divider) | ((if self.interlace { 1u32 } else { 0 })
            << 19u32) | ((if self.is_pal { 1u32 } else { 0 }) << 20u32) | ((if self.is_24bit { 1u32 } else {
            0
        }) << 21u32) | ((if self.interlace { 1u32 } else { 0 }) << 22u32) | ((if self.display_enable {
            1u32
        } else {
            0
        }) << 23u32) | ((if self.dma_direction == 1 || self.dma_direction == 3 {
            1u32
        } else if self.dma_direction == 2 {
            (self.is_reading as u32)
        } else {
            0
        }) << 25u32) | (0x7u32 << 26u32) | (self.dma_direction << 29u32) | ((if self.even_odd
            && !self.is_in_vblank { 1u32 } else { 0 }) << 31u32)
    }

    /// The GPU after reset: VRAM cleared, display off, 320-pixel NTSC.
    pub fn new() -> (r: Self)
        ensures
            r.wf(),
            r.fifo_index == 0,
            forall|i: int| 0 <= i < VRAM_SIZE ==> r.vram@[i] == 0,
            r.display_x1 == 512 && r.display_x2 == 3072,
            r.display_y1 == 16 && r.display_y2 == 256,
            r.dotclock_divider == 8,
            !r.display_enable,
    {
        Gpu {
            fifo: vec![0u32; FIFO_SIZE],
            fifo_index: 0,
            vram: vec![0u16; VRAM_SIZE],
            is_reading: 0,
            reading_x: 0,
            reading_y: 0,
            reading_size_x: 0,
            reading_size_y: 0,
            reading_cur_x: 0,
            reading_cur_y: 0,
            x_offset: 0,
            y_offset: 0,
            min_x: 0,
            min_y: 0,
            max_x: 1023,
            max_y: 511,
            display_x_start: 0,
            display_y_start: 0,
            display_x1: 512,
            display_y1: 16,
            display_x2: 3072,
            display_y2: 256,
            display_enable: false,
            dma_direction: 0,
            enable_dithering: false,
            tex_page_x: 0,
            tex_page_y: 0,
            opacity_flag: 0,
            tex_page_depth: 0,
            last_cycle: 0,
            dots: 0,
            scanline: 0,
            dotclock_divider: 8,
            interlace: false,
            is_pal: false,
            is_24bit: false,
            is_in_vblank: false,
            is_in_hblank: false,
            even_odd: false,
        }
    }

    /// The number of scanlines of a frame: 313 in PAL, 262 in NTSC.
    pub open spec fn lines_per_frame(&self) -> int {
        if self.is_pal {
            313
        } else {
            262
        }
    }

    /// Ends the current scanline. The next one starts outside horizontal
    /// blanking with `dots` dot clocks counted; vertical blanking starts,
    /// raising the VBlank interrupt (IRQ 0), at the display's last line and
    /// ends at its first; the field flips every line without interlacing
    /// and every frame with it; the count wraps after the frame's last line.
    pub fn end_scanline(&mut self, dots: u64, intc: &mut InterruptController)
        requires
            old(self).wf(),
            old(self).scanline < usize::MAX,
        ensures
            final(self).wf(),
            ({
                let next = old(self).scanline + 1;
                let wraps = next >= old(self).lines_per_frame();
                let field = if old(self).interlace { old(self).even_odd } else { !old(self).even_odd };
                &&& final(self).scanline == (if wraps { 0 } else { next })
                &&& final(self).dots == dots
                &&& !final(self).is_in_hblank
                &&& final(self).is_in_vblank == (if next == old(self).display_y2 {
                    true
                } else if next == old(self).display_y1 {
                    false
                } else {
                    old(self).is_in_vblank
                })
                &&& final(self).even_odd == (if wraps && old(self).interlace { !field } else { field })
                &&& next == old(self).display_y2 ==> final(intc).i_stat == old(intc).i_stat | (1u16 << 0usize)
                    && final(intc).i_mask == old(intc).i_mask
                &&& next != old(self).display_y2 ==> *final(intc) == *old(intc)
            }),
            *final(self) == (Gpu {
                scanline: final(self).scanline,
                dots: final(self).dots,
                is_in_hblank: final(self).is_in_hblank,
                is_in_vblank: final(self).is_in_vblank,
                even_odd: final(self).even_odd,
                ..*old(self)
            }),
    {
        self.scanline = self.scanline + 1;
        self.dots = dots;
        self.is_in_hblank = false;
        if self.scanline == self.display_y2 {
            self.is_in_vblank = true;
            intc.trigger_irq(0);
        } else if self.scanline == self.display_y1 {
            self.is_in_vblank = false;
        }
        if !self.interlace {
            self.even_odd = !self.even_odd;
        }
        let lines: usize = if self.is_pal { 313 } else { 262 };
        if self.scanline >= lines {
            self.scanline = 0;
            if self.interlace {
                self.even_odd = !self.even_odd;
            }
        }
    }

    /// The displayed width in pixels (the visible dot clocks over the
    /// divider) and the height, 486 lines.
    pub fn effective_resolution(&self) -> (r: (usize, usize))
        requires
            self.wf(),
            self.display_x1 <= self.display_x2,
        ensures
            r.0 == (self.display_x2 - self.display_x1) / (self.dotclock_divider as int),
            r.1 == 486,
    {
        let x = (self.display_x2 - self.display_x1) / self.dotclock_divider as usize;
        (x, 486)
    }

    /// The colour of a VRAM pixel, expanded to 8 bits per channel.
    pub fn get_raw_vram_color(&self, x: usize, y: usize) -> (r: (u8, u8, u8))
        requires
            self.wf(),
            x < VRAM_WIDTH,
            y < VRAM_HEIGHT,
        ensures
            r == rgb_of(color_of_bgr555(self.vram@[y * 1024 + x])),
    {
        let c = Color::from_bgr555(self.vram[y * 1024 + x]);
        c.to_rgb888()
    }

    /// The VRAM position of screen pixel (x, y): the display area wraps
    /// in VRAM; without interlacing each line shows twice.
    pub open spec fn screen_position(&self, x: usize, y: usize) -> (int, int) {
        let yy = if self.interlace { y as int } else { y as int / 2 };
        ((self.display_x_start + x % 1024) % 1024, (self.display_y_start + yy % 512) % 512)
    }

    /// The colour of screen pixel (x, y). In 24-bit mode pixels are 3
    /// bytes across VRAM half-words, and the pixel must lie inside VRAM.
    pub fn get_screen_pixel(&self, x: usize, y: usize) -> (r: (u8, u8, u8))
        requires
            self.wf(),
            self.is_24bit ==> self.screen_position(x, y).1 * 1024 + self.screen_position(x, y).0 * 3 / 2
                + 1 < VRAM_SIZE,
        ensures
            ({
                let (sx, sy) = self.screen_position(x, y);
                !self.is_24bit ==> r == rgb_of(color_of_bgr555(self.vram@[sy * 1024 + sx]))
            }),
            ({
                let (sx, sy) = self.screen_position(x, y);
                let h0 = self.vram@[sy * 1024 + sx * 3 / 2];
                let h1 = self.vram@[sy * 1024 + sx * 3 / 2 + 1];
                self.is_24bit ==> r == (if sx % 2 == 0 {
                    ((h0 & 0xff) as u8, ((h0 >> 8u16) & 0xff) as u8, (h1 & 0xff) as u8)
                } else {
                    ((h0 >> 8u16) as u8, (h1 & 0xff) as u8, ((h1 >> 8u16) & 0xff) as u8)
                })
            }),
    {
        let sx = (self.display_x_start + x % 1024) % 1024;
        let yy = if self.interlace { y } else { y / 2 };
        let sy = (self.display_y_start + yy % 512) % 512;
        if self.is_24bit {
            let pixel_index = sy * 1024 + sx * 3 / 2;
            let h0 = self.vram[pixel_index];
            let h1 = self.vram[pixel_index + 1];
            if sx % 2 == 0 {
                ((h0 & 0xff) as u8, ((h0 >> 8u16) & 0xff) as u8, (h1 & 0xff) as u8)
            } else {
                ((h0 >> 8u16) as u8, (h1 & 0xff) as u8, ((h1 >> 8u16) & 0xff) as u8)
            }
        } else {
            let c = Color::from_bgr555(self.vram[sy * 1024 + sx]);
            c.to_rgb888()
        }
    }
}


/// The GPU after a GP1 (display control) command.
pub open spec fn gp1_spec(g: Gpu, value: u32) -> Gpu {
    let cmd = value >> 24u32;
    if cmd == 0x00 {
        Gpu {
            display_enable: false,
            dma_direction: 0,
            display_x_start: 0,
            display_y_start: 0,
            display_x1: 512,
            display_y1: 16,
            display_x2: 3072,
            display_y2: 256,
            ..g
        }
    } else if cmd == 0x03 {
        Gpu { display_enable: value & 1 == 0, ..g }
    } else if cmd == 0x04 {
        Gpu { dma_direction: cmd & 3, ..g }
    } else if cmd == 0x05 {
        Gpu { display_x_start: (value & 0x3ff) as usize, display_y_start: ((value >> 10u32) & 0x1ff) as usize, ..g }
    } else if cmd == 0x06 {
        Gpu { display_x1: (value & 0xfff) as usize, display_x2: ((value >> 12u32) & 0xfff) as usize, ..g }
    } else if cmd == 0x07 {
        Gpu { display_y1: (value & 0x3ff) as usize, display_y2: ((value >> 10u32) & 0x3ff) as usize, ..g }
    } else if cmd == 0x08 {
        let d = value & 3;
        Gpu {
            dotclock_divider: if value & 0x40 != 0 {
                7u8
            } else if d == 0 {
                10u8
            } else if d == 1 {
                8u8
            } else if d == 2 {
                5u8
            } else {
                4u8
            },
            interlace: value & 0x24 == 0x24,
            is_pal: value & 0x8 != 0,
            is_24bit: value & 0x10 != 0,
            ..g
        }
    } else {
        g
    }
}

/// The texture page fields from a texture page word.
pub open spec fn texture_page_spec(g: Gpu, page: u32) -> Gpu {
    Gpu {
        tex_page_x: ((page & 0xf) * 64) as usize,
        tex_page_y: (((page >> 4u32) & 1) * 256) as usize,
        opacity_flag: ((page >> 5u32) & 3) as usize,
        tex_page_depth: ((page >> 7u32) & 3) as usize,
        ..g
    }
}

/// The triangles of a polygon command: one, or two sharing an edge for a
/// quad.
pub open spec fn polygon_draws(first: Draw, second: Draw, quad: bool) -> Seq<Draw> {
    if quad { seq![first, second] } else { seq![first] }
}

impl Gpu {
    /// Reads GPUSTAT (0x1f80_1814) or GPUREAD: the next two pixels of a
    /// VRAM-to-CPU transfer, or 0 when none is under way.
    pub fn read(&mut self, address: u32) -> (r: u32)
        requires
            old(self).wf(),
        ensures
            final(self).wf(),
            address == 0x1f80_1814 ==> r == old(self).gpustat_spec() && *final(self) == *old(self),
            address != 0x1f80_1814 && old(self).is_reading == 0 ==> r == 0 && *final(self) == *old(self),
            address != 0x1f80_1814 && old(self).is_reading > 0 ==> final(self).is_reading == old(self).is_reading - 1
                && final(self).vram == old(self).vram,
    {
        if address == 0x1f80_1814 {
            return self.gpustat();
        }
        if self.is_reading > 0 {
            let px0 = self.next_read_pixel();
            let px1 = self.next_read_pixel();
            self.is_reading = self.is_reading - 1;
            (px0 as u32) | ((px1 as u32) << 16u32)
        } else {
            0
        }
    }

    /// The pixel at the read position, which then advances along the row
    /// and on to the next row.
    fn next_read_pixel(&mut self) -> (r: u16)
        requires
            old(self).wf(),
        ensures
            final(self).wf(),
            r == old(self).vram@[((old(self).reading_y + old(self).reading_cur_y) % 512) * 1024 + (old(
                self,
            ).reading_x + old(self).reading_cur_x) % 1024],
            final(self).vram == old(self).vram,
            final(self).is_reading == old(self).is_reading,
    {
        let x = (self.reading_x + self.reading_cur_x) % 1024;
        let y = (self.reading_y + self.reading_cur_y) % 512;
        let px = self.vram[y * 1024 + x];
        self.reading_cur_x = self.reading_cur_x + 1;
        if self.reading_cur_x >= self.reading_size_x {
            self.reading_cur_x = 0;
            self.reading_cur_y = (self.reading_cur_y + 1) % 512;
        }
        px
    }

    /// The status register.
    pub fn gpustat(&self) -> (r: u32)
        requires
            self.wf(),
        ensures
            r == self.gpustat_spec(),
    {
        let divider: u32 = match self.dotclock_divider {
            4 => 0,
            5 => 1u32 << 17u32,
            8 => 2u32 << 17u32,
            10 => 3u32 << 17u32,
            _ => 1u32 << 16u32,
        };
        let transfer: u32 = if self.dma_direction == 1 || self.dma_direction == 3 {
            1
        } else if self.dma_direction == 2 {
            self.is_reading as u32
        } else {
            0
        };
        ((self.tex_page_x & 0xf) as u32) | (((self.tex_page_y & 1) << 4usize) as u32) | (((
        self.opacity_flag & 3) << 5usize) as u32) | (((self.tex_page_depth & 3) << 7usize) as u32) | ((
        if self.enable_dithering { 1u32 } else { 0 }) << 9u32) | ((if self.interlace { 1u32 } else { 0 })
            << 13u32) | divider | ((if self.interlace { 1u32 } else { 0 }) << 19u32) | ((if self.is_pal {
            1u32
        } else {
            0
        }) << 20u32) | ((if self.is_24bit { 1u32 } else { 0 }) << 21u32) | ((if self.interlace {
            1u32
        } else {
            0
        }) << 22u32) | ((if self.display_enable { 1u32 } else { 0 }) << 23u32) | (transfer << 25u32) | (
        0x7u32 << 26u32) | (self.dma_direction << 29u32) | ((if self.even_odd && !self.is_in_vblank {
            1u32
        } else {
            0
        }) << 31u32)
    }

    /// Writes GP0 (0x1f80_1810), the command FIFO, or GP1 (0x1f80_1814),
    /// display control. A GP0 word completes a command when the FIFO holds
    /// as many words as the command takes: it then runs, and the drawing
    /// it asks of the rasterizer is returned.
    #[verifier::spinoff_prover]
    pub fn write(&mut self, address: u32, value: u32) -> (r: Result<Vec<Draw>, GpuError>)
        requires
            old(self).wf(),
            address == 0x1f80_1810 || address == 0x1f80_1814,
        ensures
            final(self).wf(),
            address == 0x1f80_1814 ==> r is Ok && r.unwrap()@.len() == 0 && *final(self) == gp1_spec(*old(self), value),
            address == 0x1f80_1810 && value >> 24u32 == 0 && old(self).fifo_index == 0 ==> r is Ok
                && r.unwrap()@.len() == 0 && *final(self) == *old(self),
            address == 0x1f80_1810 && old(self).fifo_index == FIFO_SIZE && !(value >> 24u32 == 0 && old(self).fifo_index == 0)
                ==> r == Err::<Vec<Draw>, GpuError>(GpuError::OutOfBounds(value >> 24u32)),
            address == 0x1f80_1810 && !(value >> 24u32 == 0 && old(self).fifo_index == 0) && old(self).fifo_index < FIFO_SIZE
                && old(self).fifo_index + 1 != expected_words_spec(
                    if old(self).fifo_index == 0 { value } else { old(self).fifo@[0] },
                    value,
                    if old(self).fifo_index == 2 { value } else { old(self).fifo@[2] },
                    (old(self).fifo_index + 1) as usize,
                ) ==> r is Ok && final(self).fifo@ == old(self).fifo@.update(old(self).fifo_index as int, value)
                && final(self).fifo_index == old(self).fifo_index + 1 && final(self).vram == old(self).vram,
            address == 0x1f80_1810 && !(value >> 24u32 == 0 && old(self).fifo_index == 0) && old(self).fifo_index < FIFO_SIZE
                && old(self).fifo_index + 1 == expected_words_spec(
                    if old(self).fifo_index == 0 { value } else { old(self).fifo@[0] },
                    value,
                    if old(self).fifo_index == 2 { value } else { old(self).fifo@[2] },
                    (old(self).fifo_index + 1) as usize,
                ) ==> final(self).fifo_index == 0 && old(self).completed_by(value, *final(self), r),
    {
        if address == 0x1f80_1814 {
            self.gp1(value);
            return Ok(Vec::new());
        }
        if value >> 24u32 == 0 && self.fifo_index == 0 {
            return Ok(Vec::new());
        }
        if self.fifo_index >= FIFO_SIZE {
            return Err(GpuError::OutOfBounds(value >> 24u32));
        }
        let index = self.fifo_index;
        self.fifo.set(index, value);
        self.fifo_index = index + 1;
        if self.fifo_index == self.expected_words() {
            let ghost full = *self;
            proof {
                assert(full == (Gpu { fifo: full.fifo, fifo_index: (old(self).fifo_index + 1) as usize, ..*old(self) }));
            }
            let r = self.run_command();
            proof {
                lemma_completed_by(*old(self), value, full, *self, r);
            }
            r
        } else {
            Ok(Vec::new())
        }
    }

    /// Runs the complete command in the FIFO and empties the FIFO.
    #[verifier::spinoff_prover]
    fn run_command(&mut self) -> (r: Result<Vec<Draw>, GpuError>)
        requires
            old(self).wf(),
            old(self).fifo_index > 0,
        ensures
            final(self).wf(),
            final(self).fifo_index == 0,
            old(self).executed(*final(self), r),
    {
        let r = self.execute();
        let ghost ran = *self;
        self.fifo_index = 0;
        proof {
            assert((Gpu { fifo_index: 0, ..*self }) == (Gpu { fifo_index: 0, ..ran }));
        }
        r
    }

    fn gp1(&mut self, value: u32)
        requires
            old(self).wf(),
        ensures
            final(self).wf(),
            *final(self) == gp1_spec(*old(self), value),
    {
        let cmd = value >> 24u32;
        if cmd == 0x00 {
            self.display_enable = false;
            self.dma_direction = 0;
            self.display_x_start = 0;
            self.display_y_start = 0;
            self.display_x1 = 512;
            self.display_y1 = 16;
            self.display_x2 = 3072;
            self.display_y2 = 256;
        } else if cmd == 0x03 {
            self.display_enable = (value & 1) == 0;
        } else if cmd == 0x04 {
            self.dma_direction = cmd & 3;
        } else if cmd == 0x05 {
            proof {
                lemma_and_le(value, 0x3ff);
                crate::bits::lemma_field_le(value, 10, 0x1ff);
            }
            self.display_x_start = (value & 0x3ff) as usize;
            self.display_y_start = ((value >> 10u32) & 0x1ff) as usize;
        } else if cmd == 0x06 {
            self.display_x1 = (value & 0xfff) as usize;
            self.display_x2 = ((value >> 12u32) & 0xfff) as usize;
        } else if cmd == 0x07 {
            self.display_y1 = (value & 0x3ff) as usize;
            self.display_y2 = ((value >> 10u32) & 0x3ff) as usize;
        } else if cmd == 0x08 {
            let d = value & 3;
            self.dotclock_divider = if value & 0x40 != 0 {
                7
            } else if d == 0 {
                10
            } else if d == 1 {
                8
            } else if d == 2 {
                5
            } else {
                4
            };
            self.interlace = (value & 0x24) == 0x24;
            self.is_pal = value & 0x8 != 0;
            self.is_24bit = value & 0x10 != 0;
        }
    }

    /// The number of words the command in the FIFO takes.
    pub fn expected_words(&self) -> (r: usize)
        requires
            self.wf(),
            self.fifo_index >= 1,
        ensures
            r == expected_words_spec(self.fifo@[0], self.fifo@[self.fifo_index - 1], self.fifo@[2], self.fifo_index),
    {
        let first = self.fifo[0];
        let command = first >> 24u32;
        let primary = command >> 5u32;
        if primary == 0 {
            if command == 2 { 3 } else { 1 }
        } else if primary == 1 {
            let gouraud = command & 0x10 != 0;
            let quad = command & 0x8 != 0;
            let textured = command & 0x4 != 0;
            let per_vertex: usize = if gouraud {
                if textured { 3 } else { 2 }
            } else {
                if textured { 2 } else { 1 }
            };
            let vertices: usize = if quad { 4 } else { 3 };
            vertices * per_vertex + if !gouraud { 1 } else { 0 }
        } else if primary == 2 {
            if command & 0x8 != 0 {
                if self.fifo[self.fifo_index - 1] & 0x5000_5000 == 0x5000_5000 {
                    self.fifo_index
                } else {
                    10000
                }
            } else if command & 0x10 != 0 {
                4
            } else {
                3
            }
        } else if primary == 3 {
            let size = (command >> 3u32) & 3;
            if command & 0x4 != 0 {
                if size == 0 { 4 } else { 3 }
            } else {
                if size == 0 { 3 } else { 2 }
            }
        } else if primary == 4 {
            4
        } else if primary == 5 {
            let third = self.fifo[2];
            let ys = third >> 16u32;
            let xs = third & 0xffff;
            proof {
                lemma_and_le(third, 0xffff);
                crate::bits::lemma_field_le(third, 16, 0xffff);
            }
            assert(ys <= 0xffff) by {
                assert(third >> 16u32 <= 0xffff) by (bit_vector);
            }
            assert(ys * xs <= 0xfffe_0001) by (nonlinear_arith) requires ys <= 0xffff, xs <= 0xffff;
            3 + ((ys * xs + 1) / 2) as usize
        } else if primary == 6 {
            3
        } else {
            1
        }
    }

    /// Sets the texture page: X base in 64-pixel steps (bits 3..0), Y base
    /// 0 or 256 (bit 4), the blending mode (bits 6..5) and the colour depth
    /// (bits 8..7).
    pub fn update_texture_page(&mut self, page: u32)
        requires
            old(self).wf(),
        ensures
            final(self).wf(),
            *final(self) == texture_page_spec(*old(self), page),
    {
        proof {
            lemma_and_le(page, 0xf);
            crate::bits::lemma_field_le(page, 4, 1);
            crate::bits::lemma_field_le(page, 7, 3);
        }
        self.tex_page_x = ((page & 0xf) * 64) as usize;
        self.tex_page_y = (((page >> 4u32) & 1) * 256) as usize;
        self.opacity_flag = ((page >> 5u32) & 3) as usize;
        self.tex_page_depth = ((page >> 7u32) & 3) as usize;
    }
}


/// The 4x4 dither matrix entry at a position, plus 4.
fn dither_value(x: usize, y: usize) -> (r: i16)
    ensures
        r == dither_offset(x as int, y as int),
{
    let row = y % 4;
    let col = x % 4;
    let d: i16 = if row == 0 {
        if col == 0 { -4 } else if col == 1 { 0 } else if col == 2 { -3 } else { 1 }
    } else if row == 1 {
        if col == 0 { 2 } else if col == 1 { -2 } else if col == 2 { 3 } else { -1 }
    } else if row == 2 {
        if col == 0 { -3 } else if col == 1 { 1 } else if col == 2 { -4 } else { 0 }
    } else {
        if col == 0 { 3 } else if col == 1 { -1 } else if col == 2 { 2 } else { -2 }
    };
    d + 4
}

fn dither_one(c: u8, d: i16) -> (r: u8)
    requires
        0 <= d <= 8,
    ensures
        r == dither_channel(c, d as int),
{
    let v = c as i16 + d;
    if v < 0 {
        0
    } else if v > 255 {
        255
    } else {
        v as u8
    }
}

impl Gpu {
    /// The VRAM index of a texel of the current texture page.
    pub open spec fn texel_index(&self, coords: TextureCoords) -> int {
        let step: int = if self.tex_page_depth == 0 {
            coords.x as int / 4
        } else if self.tex_page_depth == 1 {
            coords.x as int / 2
        } else {
            coords.x as int
        };
        (self.tex_page_y + coords.y) * 1024 + self.tex_page_x + step
    }

    /// A texel of the current texture page: a 4-bit or 8-bit CLUT index, or
    /// a 15-bit colour.
    pub open spec fn texel_spec(&self, coords: TextureCoords) -> u16 {
        texel_in(*self, self.vram@, coords)
    }

    /// Reads a texel of the current texture page.
    pub fn sample_texture(&self, coords: TextureCoords) -> (r: u16)
        requires
            self.wf(),
            coords.x <= 255 && coords.y <= 255,
            self.texel_index(coords) < VRAM_SIZE,
        ensures
            r == self.texel_spec(coords),
    {
        let tex_y = self.tex_page_y + coords.y;
        let tex_x = if self.tex_page_depth == 0 {
            self.tex_page_x + coords.x / 4
        } else if self.tex_page_depth == 1 {
            self.tex_page_x + coords.x / 2
        } else {
            self.tex_page_x + coords.x
        };
        let h = self.vram[tex_y * 1024 + tex_x];
        if self.tex_page_depth == 0 {
            (h >> ((coords.x % 4) * 4) as u16) & 0xf
        } else if self.tex_page_depth == 1 {
            (h >> ((coords.x % 2) * 8) as u16) & 0xff
        } else {
            h
        }
    }

    /// The channels of a 24-bit command colour.
    pub fn command_to_rgb888(command: u32) -> (r: (u8, u8, u8))
        ensures
            r == ((command & 0xff) as u8, ((command >> 8u32) & 0xff) as u8, ((command >> 16u32) & 0xff) as u8),
    {
        ((command & 0xff) as u8, ((command >> 8u32) & 0xff) as u8, ((command >> 16u32) & 0xff) as u8)
    }

    /// The 15-bit BGR form of an 8-bit-per-channel colour.
    pub fn rgb888_to_bgr555(r: u8, g: u8, b: u8) -> (c: u16)
        ensures
            c == ((r >> 3u8) as u16) | (((g >> 3u8) as u16) << 5u16) | (((b >> 3u8) as u16) << 10u16),
    {
        ((r >> 3u8) as u16) | (((g >> 3u8) as u16) << 5u16) | (((b >> 3u8) as u16) << 10u16)
    }

    /// The channels of a 15-bit BGR colour, each shifted up to 8 bits.
    pub fn bgr555_to_rgb888(color: u16) -> (r: (u8, u8, u8))
        ensures
            r == (((color & 0x1f) << 3u16) as u8, (((color >> 5u16) & 0x1f) << 3u16) as u8, (((color >> 10u16)
                & 0x1f) << 3u16) as u8),
    {
        (((color & 0x1f) << 3u16) as u8, (((color >> 5u16) & 0x1f) << 3u16) as u8, (((color >> 10u16) & 0x1f)
            << 3u16) as u8)
    }

    /// A colour with the ordered-dither offset of its screen position
    /// added, clamped.
    pub fn dither(&self, x: usize, y: usize, color: Color) -> (r: Color)
        ensures
            r == dithered(x as int, y as int, color),
    {
        let d = dither_value(x, y);
        Color::new(dither_one(color.r, d), dither_one(color.g, d), dither_one(color.b, d), color.transparent)
    }

    /// Where a drawn pixel at (x, y) lands in VRAM: the drawing offset
    /// added, wrapping at 1024 columns and 512 rows.
    pub open spec fn plot_position(&self, x: isize, y: isize) -> (int, int) {
        (((x + self.x_offset) as isize & 0x3ff) as int, ((y + self.y_offset) as isize & 0x1ff) as int)
    }

    /// Whether a VRAM position lies inside the clipping rectangle.
    pub open spec fn clips(&self, px: int, py: int) -> bool {
        self.min_x <= px <= self.max_x && self.min_y <= py <= self.max_y
    }

    /// Draws one pixel of a primitive at (x, y): the drawing offset is
    /// added and the position wraps in VRAM; outside the clipping rectangle
    /// nothing is drawn; with `dither` the colour is dithered first.
    pub fn plot_pixel(&mut self, x: isize, y: isize, color: Color, dither: bool)
        requires
            old(self).wf(),
            coordinate_fits(x) && coordinate_fits(y),
        ensures
            final(self).wf(),
            ({
                let (px, py) = old(self).plot_position(x, y);
                let c = if dither { dithered(px, py, color) } else { color };
                &&& old(self).clips(px, py) ==> final(self).vram@ == old(self).vram@.update(
                    py * 1024 + px,
                    bgr555_of(c),
                )
                &&& !old(self).clips(px, py) ==> final(self).vram@ == old(self).vram@
            }),
            *final(self) == (Gpu { vram: final(self).vram, ..*old(self) }),
    {
        let wx: isize = x + self.x_offset;
        let wy: isize = y + self.y_offset;
        proof {
            crate::bits::lemma_isize_low_bits(wx);
            crate::bits::lemma_isize_low_bits(wy);
        }
        let px = (wx & 0x3ff) as usize;
        let py = (wy & 0x1ff) as usize;
        if px < self.min_x || px > self.max_x || py < self.min_y || py > self.max_y {
            return;
        }
        let c = if dither { self.dither(px, py, color) } else { color };
        self.vram.set(py * 1024 + px, c.to_bgr555());
    }

    /// The CLUT entry a texel indexes: 16-entry blocks along row bits
    /// 14..6 of `clut`, at column 16 times its bits 5..0.
    pub open spec fn clut_index(clut: u16) -> int {
        ((clut as int / 64) % 512) * 1024 + (clut as int % 64) * 16
    }

    /// The colour of a texel of the current texture page: looked up in the
    /// CLUT for 4-bit and 8-bit pages, the texel itself for 15-bit pages.
    pub open spec fn texture_color_spec(&self, coords: TextureCoords, clut: u16) -> Color {
        let texel = self.texel_spec(coords);
        if self.tex_page_depth <= 1 {
            color_of_bgr555(self.vram@[Self::clut_index(clut) + texel])
        } else {
            color_of_bgr555(texel)
        }
    }

    /// Whether the colour of a texel can be looked up: its coordinates are
    /// in the page, and it and its CLUT entry lie in VRAM.
    pub open spec fn texture_readable(&self, coords: TextureCoords, clut: u16) -> bool {
        &&& coords.x <= 255 && coords.y <= 255
        &&& self.texel_index(coords) < VRAM_SIZE
        &&& self.tex_page_depth <= 1 ==> Self::clut_index(clut) + self.texel_spec(coords) < VRAM_SIZE
    }

    /// Whether the colour of a texel can be looked up.
    pub fn can_read_texture(&self, coords: TextureCoords, clut: u16) -> (r: bool)
        requires
            self.wf(),
        ensures
            r == self.texture_readable(coords, clut),
    {
        if coords.x > 255 || coords.y > 255 || self.texel_address(coords) >= VRAM_SIZE {
            return false;
        }
        if self.tex_page_depth > 1 {
            return true;
        }
        let texel = self.sample_texture(coords) as usize;
        proof {
            crate::bits::lemma_clut_fields(clut);
        }
        let clut_x = (clut as usize & 0x3f) * 16;
        let clut_y = (clut as usize >> 6usize) & 0x1ff;
        clut_y * 1024 + clut_x + texel < VRAM_SIZE
    }

    /// The colour of a texel of the current texture page, through the CLUT
    /// `clut` for 4-bit and 8-bit pages.
    pub fn texture_color(&self, coords: TextureCoords, clut: u16) -> (r: Color)
        requires
            self.wf(),
            self.texture_readable(coords, clut),
        ensures
            r == self.texture_color_spec(coords, clut),
    {
        let texel = self.sample_texture(coords);
        if self.tex_page_depth <= 1 {
            proof {
                crate::bits::lemma_clut_fields(clut);
            }
            let clut_x = (clut as usize & 0x3f) * 16;
            let clut_y = (clut as usize >> 6usize) & 0x1ff;
            Color::from_bgr555(self.vram[clut_y * 1024 + clut_x + texel as usize])
        } else {
            Color::from_bgr555(texel)
        }
    }

    /// A 15-bit colour scaled channel by channel by a 24-bit modulation
    /// colour (0x80 is 1), saturated.
    pub fn modulate_color_555(orig_color_555: u16, modulation_color_888: u32) -> (r: u16)
        ensures
            ({
                let (r0, g0, b0) = (((orig_color_555 & 0x1f) << 3u16) as u8, (((orig_color_555 >> 5u16) & 0x1f)
                    << 3u16) as u8, (((orig_color_555 >> 10u16) & 0x1f) << 3u16) as u8);
                let (mr, mg, mb) = ((modulation_color_888 & 0xff) as u8, ((modulation_color_888 >> 8u32) & 0xff) as u8,
                ((modulation_color_888 >> 16u32) & 0xff) as u8);
                let (r1, g1, b1) = (modulate_channel(r0, mr), modulate_channel(g0, mg), modulate_channel(b0, mb));
                r == ((r1 >> 3u8) as u16) | (((g1 >> 3u8) as u16) << 5u16) | (((b1 >> 3u8) as u16) << 10u16)
            }),
    {
        let (mr, mg, mb) = Self::command_to_rgb888(modulation_color_888);
        let (r, g, b) = Self::bgr555_to_rgb888(orig_color_555);
        Self::rgb888_to_bgr555(modulate_one(r, mr), modulate_one(g, mg), modulate_one(b, mb))
    }

    /// Draws the single pixel of a GP0(68h)-style command: the colour in
    /// 15 bits at (X, Y) of the second word, when inside VRAM.
    pub fn render_pixel(&mut self)
        requires
            old(self).wf(),
        ensures
            final(self).wf(),
            ({
                let rgb = old(self).fifo@[0] & 0xff_ffff;
                let x = old(self).fifo@[1] & 0xffff;
                let y = old(self).fifo@[1] >> 16u32;
                &&& x < 1024 && y < 512 ==> final(self).vram@ == old(self).vram@.update(
                    y * 1024 + x,
                    (((rgb >> 3u32) & 0x1f) as u16) | ((((rgb >> 11u32) & 0x1f) as u16) << 5u16) | ((((rgb
                        >> 19u32) & 0x1f) as u16) << 10u16),
                )
                &&& !(x < 1024 && y < 512) ==> final(self).vram == old(self).vram
            }),
    {
        let rgb = self.fifo[0] & 0xff_ffff;
        let x = (self.fifo[1] & 0xffff) as usize;
        let y = (self.fifo[1] >> 16u32) as usize;
        if x >= 1024 || y >= 512 {
            return;
        }
        let r = ((rgb >> 3u32) & 0x1f) as u16;
        let g = ((rgb >> 11u32) & 0x1f) as u16;
        let b = ((rgb >> 19u32) & 0x1f) as u16;
        self.vram.set(y * 1024 + x, r | (g << 5u16) | (b << 10u16));
    }

    /// Fills a VRAM rectangle with the command's colour: position in the
    /// second word, size in the third, both wrapping around VRAM.
    fn fill_rectangle(&mut self)
        requires
            old(self).wf(),
            old(self).fifo_index >= 3,
        ensures
            final(self).wf(),
            final(self).vram@ == after_pixels(old(self).vram@, rect_pixels(old(self).fifo@[2]), fill_step(old(self).fifo@)),
            *final(self) == (Gpu { vram: final(self).vram, ..*old(self) }),
    {
        let (r, g, b) = Self::command_to_rgb888(self.fifo[0] & 0xff_ffff);
        let c = Self::rgb888_to_bgr555(r, g, b);
        let f1 = self.fifo[1];
        let f2 = self.fifo[2];
        proof {
            lemma_and_le(f1, 0x3ff);
            crate::bits::lemma_field_le(f1, 16, 0x1ff);
            lemma_and_le(f2, 0x3ff);
            crate::bits::lemma_field_le(f2, 16, 0x1ff);
            let f0 = self.fifo@[0];
            assert((f0 & 0xff_ffff) & 0xff == f0 & 0xff && ((f0 & 0xff_ffff) >> 8u32) & 0xff == (f0 >> 8u32) & 0xff
                && ((f0 & 0xff_ffff) >> 16u32) & 0xff == (f0 >> 16u32) & 0xff) by (bit_vector);
        }
        let x0 = (f1 & 0x3ff) as usize;
        let y0 = ((f1 >> 16u32) & 0x1ff) as usize;
        let w = (f2 & 0x3ff) as usize;
        let h = ((f2 >> 16u32) & 0x1ff) as usize;
        let ghost step = fill_step(self.fifo@);
        let mut y: usize = 0;
        while y < h
            invariant
                self.wf(),
                y <= h,
                h <= 0x1ff && w <= 0x3ff && x0 <= 0x3ff && y0 <= 0x1ff,
                x0 == self.fifo@[1] & 0x3ff && y0 == (self.fifo@[1] >> 16u32) & 0x1ff,
                w == self.fifo@[2] & 0x3ff && h == (self.fifo@[2] >> 16u32) & 0x1ff,
                c == Color::bgr555_plain(self.fifo@[0]),
                step == fill_step(self.fifo@),
                *self == (Gpu { vram: self.vram, ..*old(self) }),
                self.vram@ == after_pixels(old(self).vram@, (y * w) as nat, step),
            decreases h - y,
        {
            let mut x: usize = 0;
            while x < w
                invariant
                    self.wf(),
                    y < h,
                    x <= w,
                    h <= 0x1ff && w <= 0x3ff && x0 <= 0x3ff && y0 <= 0x1ff,
                    x0 == self.fifo@[1] & 0x3ff && y0 == (self.fifo@[1] >> 16u32) & 0x1ff,
                    w == self.fifo@[2] & 0x3ff && h == (self.fifo@[2] >> 16u32) & 0x1ff,
                    c == Color::bgr555_plain(self.fifo@[0]),
                    step == fill_step(self.fifo@),
                    *self == (Gpu { vram: self.vram, ..*old(self) }),
                    self.vram@ == after_pixels(old(self).vram@, (y * w + x) as nat, step),
                decreases w - x,
            {
                proof {
                    lemma_pixel_position(y as int, x as int, w as int);
                }
                let idx = ((y0 + y) % 512) * 1024 + (x0 + x) % 1024;
                self.vram.set(idx, c);
                x = x + 1;
            }
            proof {
                if w > 0 {
                    lemma_pixel_position(y as int, 0, w as int);
                } else {
                    assert((y + 1) * w == y * w) by (nonlinear_arith) requires w == 0;
                }
            }
            y = y + 1;
        }
        proof {
            assert(h * w == (self.fifo@[2] & 0x3ff) * ((self.fifo@[2] >> 16u32) & 0x1ff)) by (nonlinear_arith)
                requires w == self.fifo@[2] & 0x3ff, h == (self.fifo@[2] >> 16u32) & 0x1ff;
        }
    }
}


/// VRAM after the first `k` pixels of an operation that visits the pixels
/// of a rectangle row by row, with `step` doing pixel `i` on VRAM as the
/// pixels before it left it.
pub open spec fn after_pixels(v: Seq<u16>, k: nat, step: spec_fn(Seq<u16>, int) -> Seq<u16>) -> Seq<u16>
    decreases k,
{
    if k == 0 {
        v
    } else {
        step(after_pixels(v, (k - 1) as nat, step), k - 1)
    }
}

/// Pixel `k` of a `w`-wide rectangle is in row `k / w` and column `k % w`.
proof fn lemma_pixel_position(row: int, col: int, w: int)
    requires
        0 <= row,
        0 <= col < w,
    ensures
        (row * w + col) / w == row,
        (row * w + col) % w == col,
        (row + 1) * w == row * w + w,
{
    vstd::arithmetic::div_mod::lemma_fundamental_div_mod_converse(row * w + col, w, row, col);
    vstd::arithmetic::mul::lemma_mul_is_distributive_add_other_way(w, row, 1);
}

/// A fill: pixel `k` of the rectangle at the second word, of the size in
/// the third, each wrapping around VRAM, takes the command's colour.
pub open spec fn fill_step(f: Seq<u32>) -> spec_fn(Seq<u16>, int) -> Seq<u16> {
    |v: Seq<u16>, k: int|
        {
            let x0 = (f[1] & 0x3ff) as int;
            let y0 = ((f[1] >> 16u32) & 0x1ff) as int;
            let w = (f[2] & 0x3ff) as int;
            v.update(((y0 + k / w) % 512) * 1024 + (x0 + k % w) % 1024, Color::bgr555_plain(f[0]))
        }
}

/// A VRAM copy: pixel `k` of the rectangle at the third word takes the
/// pixel at the same place in the rectangle at the second word (as VRAM
/// stands then), both wrapping around VRAM; the size is in the fourth word.
pub open spec fn copy_step(f: Seq<u32>) -> spec_fn(Seq<u16>, int) -> Seq<u16> {
    |v: Seq<u16>, k: int|
        {
            let src = vertex_of(f[1]);
            let dst = vertex_of(f[2]);
            let w = (f[3] & 0x3ff) as int;
            let from = ((src.y + 1024 + k / w) % 512) * 1024 + (src.x + 1024 + k % w) % 1024;
            v.update(((dst.y + 1024 + k / w) % 512) * 1024 + (dst.x + 1024 + k % w) % 1024, v[from])
        }
}

/// The width of a CPU-to-VRAM transfer: the size word's, 0 meaning 1024.
pub open spec fn upload_width(size: u32) -> int {
    if size & 0x3ff == 0 {
        1024
    } else {
        (size & 0x3ff) as int
    }
}

/// The height of a CPU-to-VRAM transfer: the size word's, 0 meaning 512.
pub open spec fn upload_height(size: u32) -> int {
    if (size >> 16u32) & 0x1ff == 0 {
        512
    } else {
        ((size >> 16u32) & 0x1ff) as int
    }
}

/// Where pixel `k` of a CPU-to-VRAM transfer goes: row by row from the
/// position in the second word, without wrapping.
pub open spec fn upload_index(f: Seq<u32>, k: int) -> int {
    let w = upload_width(f[2]);
    (((f[1] >> 16u32) & 0x1ff) + k / w) * 1024 + (f[1] & 0x3ff) + k % w
}

/// Pixel `k` of a CPU-to-VRAM transfer: the low, then the high half of each
/// data word after the three-word header.
pub open spec fn upload_value(f: Seq<u32>, k: int) -> u16 {
    let word = f[3 + k / 2];
    (if k % 2 == 0 { word } else { word >> 16u32 }) as u16
}

/// Whether pixel `k` of a CPU-to-VRAM transfer lands in VRAM and its data
/// lies in the FIFO.
pub open spec fn upload_fits(f: Seq<u32>, k: int) -> bool {
    upload_index(f, k) < VRAM_SIZE && 3 + k / 2 < FIFO_SIZE
}

/// A CPU-to-VRAM transfer: pixel `k` is stored where it goes.
pub open spec fn upload_step(f: Seq<u32>) -> spec_fn(Seq<u16>, int) -> Seq<u16> {
    |v: Seq<u16>, k: int| v.update(upload_index(f, k), upload_value(f, k))
}

/// A texel of `g`'s texture page, read from VRAM `v`: a 4-bit or 8-bit
/// CLUT index, or a 15-bit colour.
pub open spec fn texel_in(g: Gpu, v: Seq<u16>, coords: TextureCoords) -> u16 {
    let h = v[g.texel_index(coords)];
    if g.tex_page_depth == 0 {
        (h >> ((coords.x % 4) * 4) as u16) & 0xf
    } else if g.tex_page_depth == 1 {
        (h >> ((coords.x % 2) * 8) as u16) & 0xff
    } else {
        h
    }
}

/// The width and height of a rectangle command: its size word's (the
/// third word, or the fourth when textured) for a variable size, else 1, 8
/// or 16 square.
pub open spec fn rect_size(f: Seq<u32>, command: u32) -> (int, int) {
    let size = (command >> 3u32) & 3;
    if size == 0 {
        let line = if command & 4 != 0 { f[3] } else { f[2] };
        ((line & 0x3ff) as int, ((line >> 16u32) & 0x1ff) as int)
    } else if size == 1 {
        (1, 1)
    } else if size == 2 {
        (8, 8)
    } else {
        (16, 16)
    }
}

/// Where pixel `k` of a rectangle lands, before clipping: its vertex plus
/// the drawing offset, wrapped in VRAM, then `k % w` columns right and
/// `k / w` rows down.
pub open spec fn rect_pixel(g: Gpu, command: u32, k: int) -> (int, int) {
    let v0 = vertex_of(g.fifo@[1]);
    let w = rect_size(g.fifo@, command).0;
    ((v0.x + g.x_offset + 2048) % 1024 + k % w, (v0.y + g.y_offset + 2048) % 512 + k / w)
}

/// The texture coordinates of pixel `k` of a textured rectangle: those of
/// its third word plus the pixel's column and row, wrapping at 256.
pub open spec fn rect_coords(g: Gpu, command: u32, k: int) -> TextureCoords {
    let t = coords_of(g.fifo@[2]);
    let w = rect_size(g.fifo@, command).0;
    TextureCoords { x: ((t.x + k % w) % 256) as usize, y: ((t.y + k / w) % 256) as usize }
}

/// Whether pixel `k` of a rectangle can be drawn on VRAM `v`: outside the
/// clipping area or untextured it can; textured, its texel and, for 4-bit
/// and 8-bit pages, its CLUT entry must lie in VRAM.
pub open spec fn rect_fits(g: Gpu, v: Seq<u16>, command: u32, k: int) -> bool {
    let (x, y) = rect_pixel(g, command, k);
    let coords = rect_coords(g, command, k);
    let clut = Gpu::clut_index((g.fifo@[2] >> 16u32) as u16);
    g.clips(x, y) && command & 4 != 0 ==> g.texel_index(coords) < VRAM_SIZE && (g.tex_page_depth <= 1 ==> clut
        + texel_in(g, v, coords) < VRAM_SIZE)
}

/// A rectangle: pixel `k`, when inside the clipping area, takes the
/// command's colour, or, textured, its texel's colour (through the CLUT for
/// 4-bit and 8-bit pages) as it is (raw, command bit 0) or scaled by the
/// command's colour; black texels without the mask bit are not drawn.
pub open spec fn rect_step(g: Gpu, command: u32) -> spec_fn(Seq<u16>, int) -> Seq<u16> {
    |v: Seq<u16>, k: int|
        {
            let (x, y) = rect_pixel(g, command, k);
            let color = color_of(g.fifo@[0]);
            let coords = rect_coords(g, command, k);
            let texel = texel_in(g, v, coords);
            let tex = if g.tex_page_depth <= 1 {
                color_of_bgr555(v[Gpu::clut_index((g.fifo@[2] >> 16u32) as u16) + texel])
            } else {
                color_of_bgr555(texel)
            };
            if !g.clips(x, y) {
                v
            } else if command & 4 == 0 {
                v.update(y * 1024 + x, bgr555_of(color))
            } else if tex.r == 0 && tex.g == 0 && tex.b == 0 && !tex.transparent {
                v
            } else {
                v.update(y * 1024 + x, bgr555_of(if command & 1 != 0 { tex } else { modulated(tex, color) }))
            }
        }
}

/// The number of pixels of a rectangle of the size in a size word.
pub open spec fn rect_pixels(size: u32) -> nat {
    ((size & 0x3ff) * ((size >> 16u32) & 0x1ff)) as nat
}

/// Whether a command byte draws a flat-coloured polygon.
pub open spec fn is_mono_polygon(c: u32) -> bool {
    c == 0x20 || c == 0x22 || c == 0x28 || c == 0x2a
}

/// Whether a command byte draws a Gouraud-shaded polygon.
pub open spec fn is_shaded_polygon(c: u32) -> bool {
    c == 0x30 || c == 0x32 || c == 0x38 || c == 0x3a
}

/// Whether a command byte draws a textured polygon with flat colour.
pub open spec fn is_flat_textured_polygon(c: u32) -> bool {
    (0x24 <= c <= 0x27) || (0x2c <= c <= 0x2f)
}

/// Whether a command byte draws a textured, Gouraud-shaded polygon.
pub open spec fn is_shaded_textured_polygon(c: u32) -> bool {
    c == 0x34 || c == 0x36 || c == 0x3c || c == 0x3e
}

/// Whether a command byte draws a flat-coloured line or polyline.
pub open spec fn is_mono_line(c: u32) -> bool {
    c == 0x40 || c == 0x42 || c == 0x48 || c == 0x4a
}

/// Whether a command byte draws a Gouraud-shaded line or polyline.
pub open spec fn is_shaded_line(c: u32) -> bool {
    c == 0x50 || c == 0x52 || c == 0x58 || c == 0x5a
}

/// Where a polyline's vertex words end: the first word from `i` on, going
/// `step` words at a time, that is a terminator (5xxx5xxxh), or where the
/// search leaves the first `limit` words of the FIFO.
pub open spec fn polyline_end(f: Seq<u32>, i: int, step: int, limit: int) -> int
    decreases if i < limit { limit - i } else { 0 },
{
    if step <= 0 || i >= limit {
        i
    } else if f[i] & 0x5000_5000 == 0x5000_5000 {
        i
    } else {
        polyline_end(f, i + step, step, limit)
    }
}

/// The vertices of a flat polyline whose vertex words (from the second
/// word on) end before `end`, each with the command's colour.
pub open spec fn polyline_vertices(f: Seq<u32>, end: int) -> Seq<VertexData> {
    Seq::new((end - 1) as nat, |j: int| vertex_data(f[0], f[j + 1]))
}

impl Gpu {
    /// Whether two GPU states agree but for the FIFO's fill level.
    pub open spec fn same_but_fifo_index(self, other: Gpu) -> bool {
        Gpu { fifo_index: 0, ..self } == Gpu { fifo_index: 0, ..other }
    }

    /// What running the command in the FIFO returns (`r`) and leaves
    /// (`after`, but for the FIFO's fill level), by its command byte (the
    /// top byte of the first word): fills, copies and transfers act on VRAM,
    /// settings on the GPU's state; polygons and lines are returned for the
    /// rasterizer; rectangles are drawn.
    pub open spec fn executed(self, after: Gpu, r: Result<Vec<Draw>, GpuError>) -> bool {
        self.command_effect(Gpu { fifo_index: 0, ..after }, r)
    }

    /// What running the command in the FIFO returns (`r`) and leaves
    /// (`after`, its FIFO fill level set to 0); see `executed`.
    #[verifier::opaque]
    pub open spec fn command_effect(self, after: Gpu, r: Result<Vec<Draw>, GpuError>) -> bool {
        let c = self.fifo@[0] >> 24u32;
        if c == 0x02 || c == 0xa0 || c == 0x80 || c == 0xc0 || 0x60 <= c <= 0x7f {
            self.vram_effect(after, r)
        } else if is_mono_polygon(c) || is_flat_textured_polygon(c) || is_shaded_polygon(c)
            || is_shaded_textured_polygon(c) {
            self.polygon_effect(after, r)
        } else if is_mono_line(c) || is_shaded_line(c) {
            self.line_effect(after, r)
        } else if c == 0x01 || c == 0x1a || 0xe1 <= c <= 0xe6 {
            self.setting_effect(after, r)
        } else {
            r == Err::<Vec<Draw>, GpuError>(GpuError::UnknownCommand(c)) && after.same_but_fifo_index(self)
        }
    }

    /// A command acting on VRAM: a fill, a CPU-to-VRAM transfer, a copy,
    /// the start of a VRAM-to-CPU transfer, or a rectangle.
    #[verifier::opaque]
    pub open spec fn vram_effect(self, after: Gpu, r: Result<Vec<Draw>, GpuError>) -> bool {
        let f = self.fifo@;
        let c = f[0] >> 24u32;
        let semi = c & 2 != 0;
        let quad = c & 8 != 0;
        let nothing = r is Ok && r.unwrap()@.len() == 0;
        let kept = after.same_but_fifo_index(self);
        let only_vram = after.same_but_fifo_index(Gpu { vram: after.vram, ..self });
        if c == 0x02 {
            if self.fifo_index < 3 {
                r == Err::<Vec<Draw>, GpuError>(GpuError::OutOfBounds(c)) && kept
            } else {
                nothing && only_vram && after.vram@ == after_pixels(self.vram@, rect_pixels(f[2]), fill_step(f))
            }
        } else if c == 0xa0 {
            let n = upload_width(f[2]) * upload_height(f[2]);
            &&& only_vram
            &&& r is Ok <==> forall|k: int| 0 <= k < n ==> #[trigger] upload_fits(f, k)
            &&& r is Ok ==> nothing && after.vram@ == after_pixels(self.vram@, n as nat, upload_step(f))
            &&& r is Err ==> r == Err::<Vec<Draw>, GpuError>(GpuError::OutOfBounds(0xa0))
        } else if c == 0x80 {
            nothing && only_vram && after.vram@ == after_pixels(self.vram@, rect_pixels(f[3]), copy_step(f))
        } else if c == 0xc0 {
            nothing && after.same_but_fifo_index(self.vram_read_started())
        } else {
            let n = rect_size(f, c).0 * rect_size(f, c).1;
            let step = rect_step(self, c);
            &&& only_vram
            &&& r is Ok <==> forall|k: int| 0 <= k < n ==> #[trigger] rect_fits(self, after_pixels(self.vram@, k as nat, step), c, k)
            &&& r is Ok ==> nothing && after.vram@ == after_pixels(self.vram@, n as nat, step)
            &&& r is Err ==> r == Err::<Vec<Draw>, GpuError>(GpuError::OutOfBounds(c))
        }
    }

    /// A polygon command: its triangles are returned, and a textured one
    /// selects its texture page.
    #[verifier::opaque]
    pub open spec fn polygon_effect(self, after: Gpu, r: Result<Vec<Draw>, GpuError>) -> bool {
        let f = self.fifo@;
        let c = f[0] >> 24u32;
        let semi = c & 2 != 0;
        let quad = c & 8 != 0;
        let nothing = r is Ok && r.unwrap()@.len() == 0;
        let kept = after.same_but_fifo_index(self);
        let only_vram = after.same_but_fifo_index(Gpu { vram: after.vram, ..self });
        if is_mono_polygon(c) {
            &&& r is Ok && r.unwrap()@ == polygon_draws(
                Draw::Triangle(vertex_data(f[0], f[1]), vertex_data(f[0], f[2]), vertex_data(f[0], f[3]), semi, true),
                Draw::Triangle(vertex_data(f[0], f[2]), vertex_data(f[0], f[3]), vertex_data(f[0], f[4]), semi, true),
                quad,
            )
            &&& kept
        } else if is_flat_textured_polygon(c) {
            let blending = if c & 1 != 0 { TextureBlendingMode::Raw } else { TextureBlendingMode::Modulated };
            let clut = (f[2] >> 16u32) as u16;
            &&& r is Ok && r.unwrap()@ == polygon_draws(
                Draw::TexturedTriangle(
                    textured_vertex(f[0], f[1], f[2]),
                    textured_vertex(f[0], f[3], f[4]),
                    textured_vertex(f[0], f[5], f[6]),
                    clut,
                    semi,
                    blending,
                ),
                Draw::TexturedTriangle(
                    textured_vertex(f[0], f[3], f[4]),
                    textured_vertex(f[0], f[5], f[6]),
                    textured_vertex(f[0], f[7], f[8]),
                    clut,
                    semi,
                    blending,
                ),
                quad,
            )
            &&& after.same_but_fifo_index(texture_page_spec(self, f[4] >> 16u32))
        } else if is_shaded_polygon(c) {
            &&& r is Ok && r.unwrap()@ == polygon_draws(
                Draw::Triangle(vertex_data(f[0], f[1]), vertex_data(f[2], f[3]), vertex_data(f[4], f[5]), semi, false),
                Draw::Triangle(vertex_data(f[2], f[3]), vertex_data(f[4], f[5]), vertex_data(f[6], f[7]), semi, false),
                quad,
            )
            &&& kept
        } else {
            let clut = (f[2] >> 16u32) as u16;
            &&& r is Ok && r.unwrap()@ == polygon_draws(
                Draw::TexturedTriangle(
                    textured_vertex(f[0], f[1], f[2]),
                    textured_vertex(f[3], f[4], f[5]),
                    textured_vertex(f[6], f[7], f[8]),
                    clut,
                    semi,
                    TextureBlendingMode::Shaded,
                ),
                Draw::TexturedTriangle(
                    textured_vertex(f[3], f[4], f[5]),
                    textured_vertex(f[6], f[7], f[8]),
                    textured_vertex(f[9], f[10], f[11]),
                    clut,
                    semi,
                    TextureBlendingMode::Shaded,
                ),
                quad,
            )
            &&& after.same_but_fifo_index(texture_page_spec(self, f[5] >> 16u32))
        }
    }

    /// A line command: its vertices are returned; a polyline's vertex
    /// words must end with a terminator within the FIFO.
    #[verifier::opaque]
    pub open spec fn line_effect(self, after: Gpu, r: Result<Vec<Draw>, GpuError>) -> bool {
        let f = self.fifo@;
        let c = f[0] >> 24u32;
        let semi = c & 2 != 0;
        let quad = c & 8 != 0;
        let nothing = r is Ok && r.unwrap()@.len() == 0;
        let kept = after.same_but_fifo_index(self);
        let only_vram = after.same_but_fifo_index(Gpu { vram: after.vram, ..self });
        if is_mono_line(c) {
            let end = if quad { polyline_end(f, 3, 1, self.fifo_index as int) } else { 3 };
            &&& kept
            &&& quad && end == self.fifo_index ==> r == Err::<Vec<Draw>, GpuError>(GpuError::UnterminatedPolyline)
            &&& !(quad && end == self.fifo_index) ==> r is Ok && r.unwrap()@.len() == 1 && (r.unwrap()@[0] matches Draw::Polyline(
                points,
                s,
            ) && s == semi && points@ == polyline_vertices(f, end))
        } else {
            let end = polyline_end(f, 4, 2, self.fifo_index as int);
            &&& kept
            &&& quad && end == self.fifo_index ==> r == Err::<Vec<Draw>, GpuError>(GpuError::UnterminatedPolyline)
            &&& !(quad && end == self.fifo_index) ==> r is Ok && r.unwrap()@.len() == 1 && (r.unwrap()@[0] matches Draw::Polyline(
                points,
                s,
            ) && s == semi && points@ == seq![vertex_data(f[0], f[1]), vertex_data(f[2], f[3])])
        }
    }

    /// A settings command: the FIFO clear and the no-ops change nothing; the
    /// others set the texture page and dithering, a clipping corner or the
    /// drawing offset.
    #[verifier::opaque]
    pub open spec fn setting_effect(self, after: Gpu, r: Result<Vec<Draw>, GpuError>) -> bool {
        let f = self.fifo@;
        let c = f[0] >> 24u32;
        let semi = c & 2 != 0;
        let quad = c & 8 != 0;
        let nothing = r is Ok && r.unwrap()@.len() == 0;
        let kept = after.same_but_fifo_index(self);
        let only_vram = after.same_but_fifo_index(Gpu { vram: after.vram, ..self });
        if c == 0x01 || c == 0x1a || c == 0xe2 || c == 0xe6 {
            nothing && kept
        } else if c == 0xe1 {
            nothing && after.same_but_fifo_index(Gpu { enable_dithering: f[0] & 0x200 != 0, ..texture_page_spec(self, f[0]) })
        } else if c == 0xe3 {
            nothing && after.same_but_fifo_index(Gpu {
                min_x: (f[0] & 0x3ff) as usize,
                min_y: ((f[0] >> 10u32) & 0x1ff) as usize,
                ..self
            })
        } else if c == 0xe4 {
            nothing && after.same_but_fifo_index(Gpu {
                max_x: (f[0] & 0x3ff) as usize,
                max_y: ((f[0] >> 10u32) & 0x1ff) as usize,
                ..self
            })
        } else {
            nothing && after.same_but_fifo_index(Gpu {
                x_offset: sext11(f[0]) as isize,
                y_offset: sext11(f[0] >> 11u32) as isize,
                ..self
            })
        }
    }
}

impl Gpu {
    /// What a word that completes the command in the FIFO does: the FIFO
    /// with the word stored runs its command (see `executed`).
    #[verifier::opaque]
    pub open spec fn completed_by(self, value: u32, after: Gpu, r: Result<Vec<Draw>, GpuError>) -> bool {
        exists|full: Gpu|
            #![trigger full.executed(after, r)]
            full.fifo@ == self.fifo@.update(self.fifo_index as int, value) && full == (Gpu {
                fifo: full.fifo,
                fifo_index: (self.fifo_index + 1) as usize,
                ..self
            }) && full.executed(after, r)
    }
}

/// A command run on the FIFO with a word stored is what that word
/// completes.
proof fn lemma_completed_by(g: Gpu, value: u32, full: Gpu, after: Gpu, r: Result<Vec<Draw>, GpuError>)
    requires
        full.fifo@ == g.fifo@.update(g.fifo_index as int, value),
        full == (Gpu { fifo: full.fifo, fifo_index: (g.fifo_index + 1) as usize, ..g }),
        full.executed(after, r),
    ensures
        g.completed_by(value, after, r),
{
    reveal(Gpu::completed_by);
}

impl Gpu {
    /// Runs the command in the FIFO. Settings, fills, copies, transfers and
    /// rectangles act on the GPU's state and VRAM; polygons and lines are
    /// returned for the rasterizer.
    pub fn execute(&mut self) -> (r: Result<Vec<Draw>, GpuError>)
        requires
            old(self).wf(),
        ensures
            final(self).wf(),
            old(self).fifo_index == 0 ==> r is Ok && r.unwrap()@.len() == 0 && *final(self) == *old(self),
            old(self).fifo_index > 0 ==> old(self).executed(*final(self), r),
            old(self).fifo_index > 0 && old(self).fifo@[0] >> 24u32 == 0x01 ==> final(self).fifo_index == 0,
            !(old(self).fifo_index > 0 && old(self).fifo@[0] >> 24u32 == 0x01) ==> final(self).fifo_index == old(self).fifo_index,
    {
        proof {
            reveal(Gpu::command_effect);
        }
        if self.fifo_index == 0 {
            return Ok(Vec::new());
        }
        let command = self.fifo[0] >> 24u32;
        if command == 0x20 || command == 0x22 || command == 0x28 || command == 0x2a || (0x24 <= command
            && command <= 0x27) || (0x2c <= command && command <= 0x2f) || command == 0x30 || command == 0x32
            || command == 0x38 || command == 0x3a || command == 0x34 || command == 0x36 || command == 0x3c
            || command == 0x3e {
            Ok(self.polygon(command))
        } else if command == 0x40 || command == 0x42 || command == 0x48 || command == 0x4a || command == 0x50
            || command == 0x52 || command == 0x58 || command == 0x5a {
            self.lines(command)
        } else if command == 0x02 || command == 0xa0 || command == 0x80 || command == 0xc0 || (0x60 <= command
            && command <= 0x7f) {
            self.vram_command(command)
        } else if command == 0x01 || command == 0x1a || (0xe1 <= command && command <= 0xe6) {
            self.setting(command)
        } else {
            Err(GpuError::UnknownCommand(command))
        }
    }

    /// Runs a polygon command: its triangles go to the rasterizer, and a
    /// textured one selects its texture page.
    #[verifier::spinoff_prover]
    fn polygon(&mut self, command: u32) -> (draws: Vec<Draw>)
        requires
            old(self).wf(),
            old(self).fifo_index > 0,
            command == old(self).fifo@[0] >> 24u32,
            is_mono_polygon(command) || is_flat_textured_polygon(command) || is_shaded_polygon(command)
                || is_shaded_textured_polygon(command),
        ensures
            final(self).wf(),
            old(self).executed(*final(self), Ok(draws)),
            final(self).fifo_index == old(self).fifo_index,
    {
        proof {
            reveal(Gpu::command_effect);
            reveal(Gpu::polygon_effect);
        }
        let first = self.fifo[0];
        let mut draws: Vec<Draw> = Vec::new();
        if command == 0x20 || command == 0x22 || command == 0x28 || command == 0x2a {
            let semi = command & 2 != 0;
            let v1 = VertexData::from_command(first, self.fifo[1]);
            let v2 = VertexData::from_command(first, self.fifo[2]);
            let v3 = VertexData::from_command(first, self.fifo[3]);
            draws.push(Draw::Triangle(v1, v2, v3, semi, true));
            if command & 8 != 0 {
                let v4 = VertexData::from_command(first, self.fifo[4]);
                draws.push(Draw::Triangle(v2, v3, v4, semi, true));
            }
            proof {
                assert(draws@ =~= polygon_draws(
                    Draw::Triangle(v1, v2, v3, semi, true),
                    Draw::Triangle(v2, v3, vertex_data(first, self.fifo@[4]), semi, true),
                    command & 8 != 0,
                ));
            }
        } else if (0x24 <= command && command <= 0x27) || (0x2c <= command && command <= 0x2f) {
            let semi = command & 2 != 0;
            let blending = if command & 1 != 0 {
                TextureBlendingMode::Raw
            } else {
                TextureBlendingMode::Modulated
            };
            let clut = (self.fifo[2] >> 16u32) as u16;
            self.update_texture_page(self.fifo[4] >> 16u32);
            let v1 = TexturedVertexData::from_command(first, self.fifo[1], self.fifo[2]);
            let v2 = TexturedVertexData::from_command(first, self.fifo[3], self.fifo[4]);
            let v3 = TexturedVertexData::from_command(first, self.fifo[5], self.fifo[6]);
            draws.push(Draw::TexturedTriangle(v1, v2, v3, clut, semi, blending));
            if command & 8 != 0 {
                let v4 = TexturedVertexData::from_command(first, self.fifo[7], self.fifo[8]);
                draws.push(Draw::TexturedTriangle(v2, v3, v4, clut, semi, blending));
            }
            proof {
                assert(draws@ =~= polygon_draws(
                    Draw::TexturedTriangle(v1, v2, v3, clut, semi, blending),
                    Draw::TexturedTriangle(v2, v3, textured_vertex(first, self.fifo@[7], self.fifo@[8]), clut, semi, blending),
                    command & 8 != 0,
                ));
            }
        } else if command == 0x30 || command == 0x32 || command == 0x38 || command == 0x3a {
            let semi = command & 2 != 0;
            let v1 = VertexData::from_command(first, self.fifo[1]);
            let v2 = VertexData::from_command(self.fifo[2], self.fifo[3]);
            let v3 = VertexData::from_command(self.fifo[4], self.fifo[5]);
            draws.push(Draw::Triangle(v1, v2, v3, semi, false));
            if command & 8 != 0 {
                let v4 = VertexData::from_command(self.fifo[6], self.fifo[7]);
                draws.push(Draw::Triangle(v2, v3, v4, semi, false));
            }
            proof {
                assert(draws@ =~= polygon_draws(
                    Draw::Triangle(v1, v2, v3, semi, false),
                    Draw::Triangle(v2, v3, vertex_data(self.fifo@[6], self.fifo@[7]), semi, false),
                    command & 8 != 0,
                ));
            }
        } else if command == 0x34 || command == 0x36 || command == 0x3c || command == 0x3e {
            let semi = command & 2 != 0;
            let clut = (self.fifo[2] >> 16u32) as u16;
            self.update_texture_page(self.fifo[5] >> 16u32);
            let v1 = TexturedVertexData::from_command(first, self.fifo[1], self.fifo[2]);
            let v2 = TexturedVertexData::from_command(self.fifo[3], self.fifo[4], self.fifo[5]);
            let v3 = TexturedVertexData::from_command(self.fifo[6], self.fifo[7], self.fifo[8]);
            draws.push(Draw::TexturedTriangle(v1, v2, v3, clut, semi, TextureBlendingMode::Shaded));
            if command & 8 != 0 {
                let v4 = TexturedVertexData::from_command(self.fifo[9], self.fifo[10], self.fifo[11]);
                draws.push(Draw::TexturedTriangle(v2, v3, v4, clut, semi, TextureBlendingMode::Shaded));
            }
            proof {
                assert(draws@ =~= polygon_draws(
                    Draw::TexturedTriangle(v1, v2, v3, clut, semi, TextureBlendingMode::Shaded),
                    Draw::TexturedTriangle(
                        v2,
                        v3,
                        textured_vertex(self.fifo@[9], self.fifo@[10], self.fifo@[11]),
                        clut,
                        semi,
                        TextureBlendingMode::Shaded,
                    ),
                    command & 8 != 0,
                ));
            }
        }
        draws
    }

    /// Runs a line command: its vertices go to the rasterizer; a polyline's
    /// vertex words must end with a terminator within the FIFO.
    #[verifier::spinoff_prover]
    fn lines(&mut self, command: u32) -> (r: Result<Vec<Draw>, GpuError>)
        requires
            old(self).wf(),
            old(self).fifo_index > 0,
            command == old(self).fifo@[0] >> 24u32,
            is_mono_line(command) || is_shaded_line(command),
        ensures
            final(self).wf(),
            old(self).executed(*final(self), r),
            *final(self) == *old(self),
    {
        proof {
            reveal(Gpu::command_effect);
            reveal(Gpu::line_effect);
        }
        let first = self.fifo[0];
        let semi = command & 2 != 0;
        let mut draws: Vec<Draw> = Vec::new();
        if command == 0x40 || command == 0x42 || command == 0x48 || command == 0x4a {
            let v1 = VertexData::from_command(first, self.fifo[1]);
            let v2 = VertexData::from_command(first, self.fifo[2]);
            let mut points: Vec<VertexData> = Vec::new();
            points.push(v1);
            points.push(v2);
            proof {
                assert(points@ =~= polyline_vertices(self.fifo@, 3));
            }
            if command & 8 != 0 {
                let ghost f = self.fifo@;
                let ghost limit = self.fifo_index as int;
                let ghost end = polyline_end(f, 3, 1, limit);
                let mut i: usize = 3;
                let mut ended = false;
                while i < self.fifo_index && !ended
                    invariant
                        self.wf(),
                        *self == *old(self),
                        f == self.fifo@,
                        first == f[0],
                        limit == self.fifo_index,
                        end == polyline_end(f, 3, 1, limit),
                        3 <= i <= FIFO_SIZE + 1,
                        i <= limit || i == 3,
                        !ended ==> polyline_end(f, i as int, 1, limit) == end,
                        ended ==> i == end && i < limit,
                        points@ =~= polyline_vertices(f, i as int),
                    decreases FIFO_SIZE + 2 - i + (if ended { 0int } else { 1int }),
                {
                    if self.fifo[i] & 0x5000_5000 == 0x5000_5000 {
                        ended = true;
                    } else {
                        points.push(VertexData::from_command(first, self.fifo[i]));
                        i = i + 1;
                        proof {
                            assert(points@ =~= polyline_vertices(f, i as int));
                        }
                    }
                }
                if i == self.fifo_index {
                    return Err(GpuError::UnterminatedPolyline);
                }
            }
            draws.push(Draw::Polyline(points, semi));
        } else {
            let v1 = VertexData::from_command(first, self.fifo[1]);
            let v2 = VertexData::from_command(self.fifo[2], self.fifo[3]);
            if command & 8 != 0 {
                let ghost f = self.fifo@;
                let ghost limit = self.fifo_index as int;
                let ghost end = polyline_end(f, 4, 2, limit);
                let mut i: usize = 4;
                let mut ended = false;
                while i < self.fifo_index && !ended
                    invariant
                        self.wf(),
                        *self == *old(self),
                        f == self.fifo@,
                        limit == self.fifo_index,
                        end == polyline_end(f, 4, 2, limit),
                        4 <= i <= FIFO_SIZE + 2,
                        !ended ==> polyline_end(f, i as int, 2, limit) == end,
                        ended ==> i == end,
                    decreases FIFO_SIZE + 3 - i + (if ended { 0int } else { 1int }),
                {
                    if self.fifo[i] & 0x5000_5000 == 0x5000_5000 {
                        ended = true;
                    } else {
                        i = i + 2;
                    }
                }
                if i == self.fifo_index {
                    return Err(GpuError::UnterminatedPolyline);
                }
            }
            let mut points: Vec<VertexData> = Vec::new();
            points.push(v1);
            points.push(v2);
            proof {
                assert(points@ =~= seq![v1, v2]);
            }
            draws.push(Draw::Polyline(points, semi));
        }
        Ok(draws)
    }

    /// Runs a command that acts on VRAM: a fill, a CPU-to-VRAM transfer, a
    /// copy, the start of a VRAM-to-CPU transfer, or a rectangle.
    #[verifier::spinoff_prover]
    fn vram_command(&mut self, command: u32) -> (r: Result<Vec<Draw>, GpuError>)
        requires
            old(self).wf(),
            old(self).fifo_index > 0,
            command == old(self).fifo@[0] >> 24u32,
            command == 0x02 || command == 0xa0 || command == 0x80 || command == 0xc0 || 0x60 <= command <= 0x7f,
        ensures
            final(self).wf(),
            old(self).executed(*final(self), r),
            final(self).fifo_index == old(self).fifo_index,
    {
        proof {
            reveal(Gpu::command_effect);
            reveal(Gpu::vram_effect);
        }
        if command == 0x02 {
            if self.fifo_index < 3 {
                return Err(GpuError::OutOfBounds(command));
            }
            self.fill_rectangle();
        } else if command == 0xa0 {
            match self.cpu_to_vram() {
                Ok(()) => {},
                Err(e) => {
                    return Err(e);
                },
            }
        } else if command == 0x80 {
            self.vram_copy();
        } else if command == 0xc0 {
            self.start_vram_read();
        } else {
            match self.draw_rectangle(command) {
                Ok(()) => {},
                Err(e) => {
                    return Err(e);
                },
            }
        }
        Ok(Vec::new())
    }

    /// Runs a settings command: the FIFO clear, or the drawing settings
    /// (texture page and dithering, clipping corners, drawing offset).
    #[verifier::spinoff_prover]
    #[verifier::rlimit(100)]
    fn setting(&mut self, command: u32) -> (r: Result<Vec<Draw>, GpuError>)
        requires
            old(self).wf(),
            old(self).fifo_index > 0,
            command == old(self).fifo@[0] >> 24u32,
            command == 0x01 || command == 0x1a || 0xe1 <= command <= 0xe6,
        ensures
            final(self).wf(),
            old(self).executed(*final(self), r),
            command == 0x01 ==> final(self).fifo_index == 0,
            command != 0x01 ==> final(self).fifo_index == old(self).fifo_index,
    {
        proof {
            reveal(Gpu::command_effect);
            reveal(Gpu::setting_effect);
        }
        let first = self.fifo[0];
        if command == 0x01 {
            self.fifo_index = 0;
        } else if command == 0xe1 {
            self.update_texture_page(first);
            self.enable_dithering = first & 0x200 != 0;
        } else if command == 0xe3 {
            proof {
                lemma_and_le(first, 0x3ff);
                crate::bits::lemma_field_le(first, 10, 0x1ff);
            }
            self.min_x = (first & 0x3ff) as usize;
            self.min_y = ((first >> 10u32) & 0x1ff) as usize;
        } else if command == 0xe4 {
            proof {
                lemma_and_le(first, 0x3ff);
                crate::bits::lemma_field_le(first, 10, 0x1ff);
            }
            self.max_x = (first & 0x3ff) as usize;
            self.max_y = ((first >> 10u32) & 0x1ff) as usize;
        } else if command == 0xe5 {
            self.x_offset = sign_extend11(first) as isize;
            self.y_offset = sign_extend11(first >> 11u32) as isize;
        }
        Ok(Vec::new())
    }

    /// A CPU-to-VRAM transfer: the pixels that follow the header, two to
    /// a word, go row by row into the rectangle at the destination (a zero
    /// size means the full width or height).
    fn cpu_to_vram(&mut self) -> (r: Result<(), GpuError>)
        requires
            old(self).wf(),
        ensures
            final(self).wf(),
            *final(self) == (Gpu { vram: final(self).vram, ..*old(self) }),
            ({
                let f = old(self).fifo@;
                let n = upload_width(f[2]) * upload_height(f[2]);
                &&& r is Ok <==> forall|k: int| 0 <= k < n ==> #[trigger] upload_fits(f, k)
                &&& r is Ok ==> final(self).vram@ == after_pixels(old(self).vram@, n as nat, upload_step(f))
                &&& r is Err ==> r == Err::<(), GpuError>(GpuError::OutOfBounds(0xa0))
            }),
    {
        let f1 = self.fifo[1];
        let f2 = self.fifo[2];
        proof {
            lemma_and_le(f1, 0x3ff);
            crate::bits::lemma_field_le(f1, 16, 0x1ff);
            lemma_and_le(f2, 0x3ff);
            crate::bits::lemma_field_le(f2, 16, 0x1ff);
        }
        let dest_x = (f1 & 0x3ff) as usize;
        let dest_y = ((f1 >> 16u32) & 0x1ff) as usize;
        let mut xs = (f2 & 0x3ff) as usize;
        let mut ys = ((f2 >> 16u32) & 0x1ff) as usize;
        if xs == 0 {
            xs = 1024;
        }
        if ys == 0 {
            ys = 512;
        }
        let ghost f = self.fifo@;
        let ghost step = upload_step(f);
        let mut src_idx: usize = 0;
        let mut dst_idx: usize = dest_y * 1024 + dest_x;
        let mut row: usize = 0;
        while row < ys
            invariant
                self.wf(),
                f == self.fifo@,
                step == upload_step(f),
                1 <= xs <= 1024 && xs == upload_width(f[2]),
                row <= ys <= 512 && ys == upload_height(f[2]),
                dest_x == f[1] & 0x3ff && dest_y == (f[1] >> 16u32) & 0x1ff,
                dest_x <= 0x3ff && dest_y <= 0x1ff,
                src_idx == row * xs,
                dst_idx == (dest_y + row) * 1024 + dest_x,
                forall|k: int| 0 <= k < src_idx ==> #[trigger] upload_fits(f, k),
                *self == (Gpu { vram: self.vram, ..*old(self) }),
                self.vram@ == after_pixels(old(self).vram@, src_idx as nat, step),
            decreases ys - row,
        {
            let mut xoffs: usize = 0;
            while xoffs < xs
                invariant
                    self.wf(),
                    f == self.fifo@,
                    step == upload_step(f),
                    1 <= xs <= 1024 && xs == upload_width(f[2]),
                    row < ys <= 512 && ys == upload_height(f[2]),
                    dest_x == f[1] & 0x3ff && dest_y == (f[1] >> 16u32) & 0x1ff,
                    dest_x <= 0x3ff && dest_y <= 0x1ff,
                    xoffs <= xs,
                    src_idx == row * xs + xoffs,
                    dst_idx == (dest_y + row) * 1024 + dest_x,
                    forall|k: int| 0 <= k < src_idx ==> #[trigger] upload_fits(f, k),
                    *self == (Gpu { vram: self.vram, ..*old(self) }),
                    self.vram@ == after_pixels(old(self).vram@, src_idx as nat, step),
                decreases xs - xoffs,
            {
                proof {
                    lemma_pixel_position(row as int, xoffs as int, xs as int);
                    assert(row * xs <= 511 * 1024) by (nonlinear_arith) requires row < 512, xs <= 1024;
                }
                let word_index = 3 + src_idx / 2;
                if dst_idx + xoffs >= VRAM_SIZE || word_index >= FIFO_SIZE {
                    proof {
                        assert(!upload_fits(f, src_idx as int));
                        assert(src_idx < upload_width(f[2]) * upload_height(f[2])) by (nonlinear_arith)
                            requires
                                src_idx == row * xs + xoffs,
                                xoffs < xs,
                                row < ys,
                                xs == upload_width(f[2]),
                                ys == upload_height(f[2]),
                        ;
                    }
                    return Err(GpuError::OutOfBounds(0xa0));
                }
                let word = self.fifo[word_index];
                #[verifier::truncate]
                let half = (if src_idx % 2 == 0 { word } else { word >> 16u32 }) as u16;
                self.vram.set(dst_idx + xoffs, half);
                src_idx = src_idx + 1;
                xoffs = xoffs + 1;
            }
            proof {
                lemma_pixel_position(row as int, 0, xs as int);
            }
            dst_idx = dst_idx + 1024;
            row = row + 1;
        }
        proof {
            assert(src_idx == upload_width(f[2]) * upload_height(f[2])) by (nonlinear_arith)
                requires src_idx == row * xs, row == ys, xs == upload_width(f[2]), ys == upload_height(f[2]);
        }
        Ok(())
    }

    /// Copies a VRAM rectangle (source in the second word, destination in
    /// the third, size in the fourth), both wrapping around VRAM.
    fn vram_copy(&mut self)
        requires
            old(self).wf(),
        ensures
            final(self).wf(),
            final(self).vram@ == after_pixels(old(self).vram@, rect_pixels(old(self).fifo@[3]), copy_step(old(self).fifo@)),
            *final(self) == (Gpu { vram: final(self).vram, ..*old(self) }),
    {
        let src = Vertex::from_command(self.fifo[1]);
        let dst = Vertex::from_command(self.fifo[2]);
        let f3 = self.fifo[3];
        proof {
            lemma_and_le(f3, 0x3ff);
            crate::bits::lemma_field_le(f3, 16, 0x1ff);
        }
        let width = (f3 & 0x3ff) as usize;
        let height = ((f3 >> 16u32) & 0x1ff) as usize;
        let sx0 = (src.x + 1024) as usize;
        let sy0 = (src.y + 1024) as usize;
        let dx0 = (dst.x + 1024) as usize;
        let dy0 = (dst.y + 1024) as usize;
        let ghost step = copy_step(self.fifo@);
        let mut y: usize = 0;
        while y < height
            invariant
                self.wf(),
                y <= height <= 0x1ff,
                width <= 0x3ff,
                sx0 < 2048 && sy0 < 2048 && dx0 < 2048 && dy0 < 2048,
                width == self.fifo@[3] & 0x3ff && height == (self.fifo@[3] >> 16u32) & 0x1ff,
                sx0 == vertex_of(self.fifo@[1]).x + 1024 && sy0 == vertex_of(self.fifo@[1]).y + 1024,
                dx0 == vertex_of(self.fifo@[2]).x + 1024 && dy0 == vertex_of(self.fifo@[2]).y + 1024,
                step == copy_step(self.fifo@),
                *self == (Gpu { vram: self.vram, ..*old(self) }),
                self.vram@ == after_pixels(old(self).vram@, (y * width) as nat, step),
            decreases height - y,
        {
            let mut x: usize = 0;
            while x < width
                invariant
                    self.wf(),
                    y < height <= 0x1ff,
                    x <= width <= 0x3ff,
                    sx0 < 2048 && sy0 < 2048 && dx0 < 2048 && dy0 < 2048,
                    width == self.fifo@[3] & 0x3ff && height == (self.fifo@[3] >> 16u32) & 0x1ff,
                    sx0 == vertex_of(self.fifo@[1]).x + 1024 && sy0 == vertex_of(self.fifo@[1]).y + 1024,
                    dx0 == vertex_of(self.fifo@[2]).x + 1024 && dy0 == vertex_of(self.fifo@[2]).y + 1024,
                    step == copy_step(self.fifo@),
                    *self == (Gpu { vram: self.vram, ..*old(self) }),
                    self.vram@ == after_pixels(old(self).vram@, (y * width + x) as nat, step),
                decreases width - x,
            {
                proof {
                    lemma_pixel_position(y as int, x as int, width as int);
                }
                let src_idx = ((sy0 + y) % 512) * 1024 + (sx0 + x) % 1024;
                let dst_idx = ((dy0 + y) % 512) * 1024 + (dx0 + x) % 1024;
                let p = self.vram[src_idx];
                self.vram.set(dst_idx, p);
                x = x + 1;
            }
            proof {
                if width > 0 {
                    lemma_pixel_position(y as int, 0, width as int);
                } else {
                    assert((y + 1) * width == y * width) by (nonlinear_arith) requires width == 0;
                }
            }
            y = y + 1;
        }
        proof {
            assert(height * width == (self.fifo@[3] & 0x3ff) * ((self.fifo@[3] >> 16u32) & 0x1ff)) by (nonlinear_arith)
                requires width == self.fifo@[3] & 0x3ff, height == (self.fifo@[3] >> 16u32) & 0x1ff;
        }
    }

    /// The GPU once a VRAM-to-CPU transfer of the rectangle at the second
    /// word, of the size in the third, has started: the read position is at
    /// its corner, and half its pixel count (rounded up) is left to read.
    pub open spec fn vram_read_started(self) -> Gpu {
        let f = self.fifo@;
        let w = f[2] & 0x3ff;
        let h = (f[2] >> 16u32) & 0x1ff;
        Gpu {
            reading_x: (f[1] & 0x3ff) as usize,
            reading_y: ((f[1] >> 16u32) & 0x1ff) as usize,
            reading_cur_x: 0,
            reading_cur_y: 0,
            reading_size_x: w as usize,
            reading_size_y: h as usize,
            is_reading: ((w * h + 1) / 2) as usize,
            ..self
        }
    }

    /// Starts a VRAM-to-CPU transfer of the rectangle at the second word,
    /// of the size in the third: GPUREAD then yields its pixels two by two.
    fn start_vram_read(&mut self)
        requires
            old(self).wf(),
        ensures
            final(self).wf(),
            *final(self) == old(self).vram_read_started(),
    {
        let f1 = self.fifo[1];
        let f2 = self.fifo[2];
        proof {
            lemma_and_le(f1, 0x3ff);
            crate::bits::lemma_field_le(f1, 16, 0x1ff);
            lemma_and_le(f2, 0x3ff);
            crate::bits::lemma_field_le(f2, 16, 0x1ff);
        }
        self.reading_x = (f1 & 0x3ff) as usize;
        self.reading_y = ((f1 >> 16u32) & 0x1ff) as usize;
        self.reading_cur_x = 0;
        self.reading_cur_y = 0;
        let size_x = (f2 & 0x3ff) as usize;
        let size_y = ((f2 >> 16u32) & 0x1ff) as usize;
        self.reading_size_x = size_x;
        self.reading_size_y = size_y;
        assert(size_x * size_y <= 0x3ff * 0x1ff) by (nonlinear_arith) requires size_x <= 0x3ff, size_y <= 0x1ff;
        self.is_reading = (size_x * size_y + 1) / 2;
    }

    /// Draws a rectangle: at the first vertex plus the drawing offset,
    /// wrapping in VRAM; of the size the command gives or of its third (or,
    /// textured, fourth) word; flat or textured from the current page and
    /// the CLUT of its third word; pixels outside the clipping area are
    /// skipped, and black texels without the mask bit are transparent.
    fn draw_rectangle(&mut self, command: u32) -> (r: Result<(), GpuError>)
        requires
            old(self).wf(),
        ensures
            final(self).wf(),
            *final(self) == (Gpu { vram: final(self).vram, ..*old(self) }),
            ({
                let g = *old(self);
                let n = rect_size(g.fifo@, command).0 * rect_size(g.fifo@, command).1;
                let step = rect_step(g, command);
                &&& r is Ok <==> forall|k: int|
                    0 <= k < n ==> #[trigger] rect_fits(g, after_pixels(g.vram@, k as nat, step), command, k)
                &&& r is Ok ==> final(self).vram@ == after_pixels(g.vram@, n as nat, step)
                &&& r is Err ==> r == Err::<(), GpuError>(GpuError::OutOfBounds(command))
            }),
    {
        let ghost g = *self;
        let ghost step = rect_step(g, command);
        let textured = command & 4 != 0;
        let v0 = VertexData::from_command(self.fifo[0], self.fifo[1]);
        let size = (command >> 3u32) & 3;
        let (w, h): (usize, usize) = if size == 0 {
            let line = if textured { self.fifo[3] } else { self.fifo[2] };
            proof {
                lemma_and_le(line, 0x3ff);
                crate::bits::lemma_field_le(line, 16, 0x1ff);
            }
            ((line & 0x3ff) as usize, ((line >> 16u32) & 0x1ff) as usize)
        } else if size == 1 {
            (1, 1)
        } else if size == 2 {
            (8, 8)
        } else {
            (16, 16)
        };
        let base_x = ((v0.vertex.x + self.x_offset + 2048) as usize) % 1024;
        let base_y = ((v0.vertex.y + self.y_offset + 2048) as usize) % 512;
        let raw = command & 1 != 0;
        let clut = (self.fifo[2] >> 16u32) as usize;
        let (clut_x, clut_y): (usize, usize) = if textured {
            ((clut % 64) * 16, (clut / 64) % 512)
        } else {
            (0, 0)
        };
        let tex = if textured {
            TextureCoords::from_command(self.fifo[2])
        } else {
            TextureCoords::new(0, 0)
        };
        proof {
            let f2: u32 = g.fifo@[2];
            assert(f2 >> 16u32 <= 0xffff) by (bit_vector);
        }
        let mut yoff: usize = 0;
        while yoff < h
            invariant
                self.wf(),
                yoff <= h <= 0x1ff,
                w <= 0x3ff,
                (w as int, h as int) == rect_size(g.fifo@, command),
                base_x < 1024 && base_y < 512,
                base_x == (vertex_of(g.fifo@[1]).x + g.x_offset + 2048) % 1024,
                base_y == (vertex_of(g.fifo@[1]).y + g.y_offset + 2048) % 512,
                clut_x <= 1008 && clut_y < 512,
                tex.x <= 255 && tex.y <= 255,
                textured == (command & 4 != 0),
                raw == (command & 1 != 0),
                v0 == vertex_data(g.fifo@[0], g.fifo@[1]),
                textured ==> tex == coords_of(g.fifo@[2]),
                textured ==> clut_y * 1024 + clut_x == Gpu::clut_index((g.fifo@[2] >> 16u32) as u16),
                step == rect_step(g, command),
                g == *old(self),
                *self == (Gpu { vram: self.vram, ..g }),
                forall|k: int| 0 <= k < yoff * w ==> #[trigger] rect_fits(g, after_pixels(g.vram@, k as nat, step), command, k),
                self.vram@ == after_pixels(g.vram@, (yoff * w) as nat, step),
            decreases h - yoff,
        {
            let mut xoff: usize = 0;
            while xoff < w
                invariant
                    self.wf(),
                    yoff < h <= 0x1ff,
                    xoff <= w <= 0x3ff,
                    (w as int, h as int) == rect_size(g.fifo@, command),
                    base_x < 1024 && base_y < 512,
                    base_x == (vertex_of(g.fifo@[1]).x + g.x_offset + 2048) % 1024,
                    base_y == (vertex_of(g.fifo@[1]).y + g.y_offset + 2048) % 512,
                    clut_x <= 1008 && clut_y < 512,
                    tex.x <= 255 && tex.y <= 255,
                    textured == (command & 4 != 0),
                    raw == (command & 1 != 0),
                    v0 == vertex_data(g.fifo@[0], g.fifo@[1]),
                    textured ==> tex == coords_of(g.fifo@[2]),
                    textured ==> clut_y * 1024 + clut_x == Gpu::clut_index((g.fifo@[2] >> 16u32) as u16),
                    step == rect_step(g, command),
                    g == *old(self),
                    *self == (Gpu { vram: self.vram, ..g }),
                    forall|k: int| 0 <= k < yoff * w + xoff ==> #[trigger] rect_fits(g, after_pixels(g.vram@, k as nat, step), command, k),
                    self.vram@ == after_pixels(g.vram@, (yoff * w + xoff) as nat, step),
                decreases w - xoff,
            {
                proof {
                    lemma_pixel_position(yoff as int, xoff as int, w as int);
                    assert(yoff * w + xoff < w * h) by (nonlinear_arith) requires yoff < h, xoff < w;
                }
                let ghost k = (yoff * w + xoff) as int;
                let x = base_x + xoff;
                let y = base_y + yoff;
                if !(x < self.min_x || x > self.max_x || y < self.min_y || y > self.max_y) {
                    let idx = y * 1024 + x;
                    if textured {
                        let coords = TextureCoords::new((tex.x + xoff) % 256, (tex.y + yoff) % 256);
                        if self.texel_address(coords) >= VRAM_SIZE {
                            proof {
                                assert(!rect_fits(g, after_pixels(g.vram@, k as nat, step), command, k));
                            }
                            return Err(GpuError::OutOfBounds(command));
                        }
                        let texel = self.sample_texture(coords);
                        let tex_color = if self.tex_page_depth <= 1 {
                            let clut_index = clut_y * 1024 + clut_x + texel as usize;
                            if clut_index >= VRAM_SIZE {
                                proof {
                                    assert(!rect_fits(g, after_pixels(g.vram@, k as nat, step), command, k));
                                }
                                return Err(GpuError::OutOfBounds(command));
                            }
                            Color::from_bgr555(self.vram[clut_index])
                        } else {
                            Color::from_bgr555(texel)
                        };
                        let invisible = tex_color.r == 0 && tex_color.g == 0 && tex_color.b == 0
                            && !tex_color.transparent;
                        if !invisible {
                            let color = if raw {
                                tex_color
                            } else {
                                tex_color.modulate(&v0.color)
                            };
                            self.vram.set(idx, color.to_bgr555());
                        }
                    } else {
                        self.vram.set(idx, v0.color.to_bgr555());
                    }
                }
                xoff = xoff + 1;
            }
            proof {
                if w > 0 {
                    lemma_pixel_position(yoff as int, 0, w as int);
                } else {
                    assert((yoff + 1) * w == yoff * w) by (nonlinear_arith) requires w == 0;
                }
            }
            yoff = yoff + 1;
        }
        proof {
            assert(yoff * w == w * h) by (nonlinear_arith) requires yoff == h;
        }
        Ok(())
    }

    /// The VRAM index of a texel of the current texture page.
    pub fn texel_address(&self, coords: TextureCoords) -> (r: usize)
        requires
            self.wf(),
            coords.x <= 255 && coords.y <= 255,
        ensures
            r == self.texel_index(coords),
    {
        let step = if self.tex_page_depth == 0 {
            coords.x / 4
        } else if self.tex_page_depth == 1 {
            coords.x / 2
        } else {
            coords.x
        };
        (self.tex_page_y + coords.y) * 1024 + self.tex_page_x + step
    }
}

/// A display-mode write (GP1 08h) takes PAL timing from bit 3 of the value,
/// 24-bit colour from bit 4, interlacing from bits 2 and 5 together, and the
/// dot clock divider from the horizontal resolution: 7 when bit 6 is set,
/// else 10, 8, 5 or 4 by bits 1..0.
pub proof fn lemma_display_mode_bits(g: Gpu, value: u32)
    requires
        value >> 24u32 == 0x08,
    ensures
        gp1_spec(g, value).is_pal == (value & 0x8 != 0),
        gp1_spec(g, value).is_24bit == (value & 0x10 != 0),
        gp1_spec(g, value).interlace == (value & 0x4 != 0 && value & 0x20 != 0),
        gp1_spec(g, value).dotclock_divider == (if value & 0x40 != 0 {
            7u8
        } else if value & 3 == 0 {
            10
        } else if value & 3 == 1 {
            8
        } else if value & 3 == 2 {
            5
        } else {
            4
        }),
{
    assert(value & 0x24 == 0x24 <==> (value & 0x4 != 0 && value & 0x20 != 0)) by (bit_vector);
}
} // verus!
