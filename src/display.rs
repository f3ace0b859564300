//! Framebuffer colours and pixel formats, and the drawing operations of a
//! display on top of a linear framebuffer.
use vstd::prelude::*;
use crate::pmem::spec_overwrite;

verus! {

/// A 24-bit colour: red in bits 16..24, green in bits 8..16, blue in bits
/// 0..8.
#[derive(Clone, Copy, Debug, PartialEq, Eq, Structural)]
pub struct RgbColor(u32);

impl View for RgbColor {
    type V = u32;

    closed spec fn view(&self) -> u32 {
        self.0
    }
}

/// The byte of `raw` that starts at bit `8 * k`.
pub open spec fn byte_of(raw: u32, k: nat) -> u8 {
    if k == 0 {
        (raw % 0x100) as u8
    } else if k == 1 {
        ((raw / 0x100) % 0x100) as u8
    } else if k == 2 {
        ((raw / 0x1_0000) % 0x100) as u8
    } else {
        ((raw / 0x100_0000) % 0x100) as u8
    }
}

impl RgbColor {
    /// The colour with these channel values.
    pub fn new(r: u8, g: u8, b: u8) -> (c: RgbColor)
        ensures
            c@ == r * 0x1_0000 + g * 0x100 + b,
            c@ < 0x100_0000,
    {
        RgbColor((r as u32) * 0x1_0000 + (g as u32) * 0x100 + b as u32)
    }

    /// Red channel.
    pub fn r(self) -> (v: u8)
        ensures
            v == byte_of(self@, 2),
    {
        ((self.0 / 0x1_0000) % 0x100) as u8
    }

    /// Green channel.
    pub fn g(self) -> (v: u8)
        ensures
            v == byte_of(self@, 1),
    {
        ((self.0 / 0x100) % 0x100) as u8
    }

    /// Blue channel.
    pub fn b(self) -> (v: u8)
        ensures
            v == byte_of(self@, 0),
    {
        (self.0 % 0x100) as u8
    }

    /// The packed 32-bit value.
    pub fn raw_value(self) -> (v: u32)
        ensures
            v == self@,
    {
        self.0
    }
}

/// Colour format of one pixel.
#[derive(Clone, Copy, Debug, PartialEq, Eq, Structural)]
pub enum ColorFormat {
    RGB332,
    RGB565,
    RGB888,
    ARGB8888,
}

/// Bits per pixel of a format.
pub open spec fn spec_depth(f: ColorFormat) -> u8 {
    match f {
        ColorFormat::RGB332 => 8,
        ColorFormat::RGB565 => 16,
        ColorFormat::RGB888 => 24,
        ColorFormat::ARGB8888 => 32,
    }
}

impl ColorFormat {
    /// Number of bits per pixel.
    pub fn depth(self) -> (r: u8)
        ensures
            r == spec_depth(self),
    {
        match self {
            ColorFormat::RGB332 => 8,
            ColorFormat::RGB565 => 16,
            ColorFormat::RGB888 => 24,
            ColorFormat::ARGB8888 => 32,
        }
    }

    /// Number of bytes per pixel.
    pub fn bytes(self) -> (r: u8)
        ensures
            r == spec_depth(self) / 8,
            1 <= r <= 4,
    {
        self.depth() / 8
    }
}

/// A rectangle of pixels.
#[derive(Clone, Copy, Debug, PartialEq, Eq, Structural)]
pub struct Rectangle {
    pub x: u32,
    pub y: u32,
    pub width: u32,
    pub height: u32,
}

/// Geometry and framebuffer of a display.
#[derive(Clone, Copy, Debug, PartialEq, Eq, Structural)]
pub struct DisplayInfo {
    /// Visible width.
    pub width: u32,
    /// Visible height.
    pub height: u32,
    /// Colour format of each pixel.
    pub format: ColorFormat,
    /// Virtual base address of the framebuffer.
    pub fb_base_vaddr: usize,
    /// Framebuffer size in bytes.
    pub fb_size: usize,
}

impl DisplayInfo {
    /// Number of bytes between the starts of two rows.
    pub fn pitch(self) -> (r: u32)
        requires
            self.width * (spec_depth(self.format) / 8) <= u32::MAX,
        ensures
            r == self.width * (spec_depth(self.format) / 8),
    {
        self.width * self.format.bytes() as u32
    }
}

/// Pack three channel values, red highest: blue in the low bits, green
/// shifted up by `b_bits`, red shifted up by `g_bits + b_bits`, all or-ed
/// together.
pub open spec fn spec_pack_channel(r_val: u8, g_val: u8, g_bits: u8, b_val: u8, b_bits: u8) -> u32 {
    ((r_val as u32) << ((g_bits + b_bits) as u32)) | ((g_val as u32) << (b_bits as u32)) | (
    b_val as u32)
}

/// Pack three channel values, red highest; `_r_bits` is the width of the
/// red field, which only bounds the result from above. The shifts must stay
/// within the 32-bit result.
pub fn pack_channel(r_val: u8, _r_bits: u8, g_val: u8, g_bits: u8, b_val: u8, b_bits: u8) -> (r: u32)
    requires
        g_bits + b_bits < 32,
    ensures
        r == spec_pack_channel(r_val, g_val, g_bits, b_val, b_bits),
{
    let n: u32 = (g_bits + b_bits) as u32;
    ((r_val as u32) << n) | ((g_val as u32) << (b_bits as u32)) | (b_val as u32)
}

/// Bytes of one pixel of colour `raw` in format `f`, lowest address first
/// (multi-byte pixels are stored little-endian).
pub open spec fn spec_color_bytes(raw: u32, f: ColorFormat) -> Seq<u8> {
    let (r, g, b) = (byte_of(raw, 2) as int, byte_of(raw, 1) as int, byte_of(raw, 0) as int);
    match f {
        ColorFormat::RGB332 => seq![((r / 32) * 32 + (g / 32) * 4 + b / 64) as u8],
        ColorFormat::RGB565 => {
            let v = (r / 8) * 2048 + (g / 4) * 32 + b / 8;
            seq![(v % 256) as u8, (v / 256) as u8]
        },
        ColorFormat::RGB888 => seq![b as u8, g as u8, r as u8],
        ColorFormat::ARGB8888 => seq![
            byte_of(raw, 0),
            byte_of(raw, 1),
            byte_of(raw, 2),
            byte_of(raw, 3),
        ],
    }
}

/// Encode one pixel of `color` in `format`.
pub fn color_bytes(color: RgbColor, format: ColorFormat) -> (v: Vec<u8>)
    ensures
        v@ == spec_color_bytes(color@, format),
        v@.len() == spec_depth(format) / 8,
{
    let (r, g, b) = (color.r(), color.g(), color.b());
    match format {
        ColorFormat::RGB332 => {
            let (x, y, z) = (r / 32, g / 32, b / 64);
            let v = pack_channel(x, 3, y, 3, z, 2);
            let (x32, y32, z32) = (x as u32, y as u32, z as u32);
            assert(((x32 << 5u32) | (y32 << 2u32) | z32) == x32 * 32 + y32 * 4 + z32) by (bit_vector)
                requires
                    x32 < 8,
                    y32 < 8,
                    z32 < 4,
            ;
            vec![v as u8]
        },
        ColorFormat::RGB565 => {
            let (x, y, z) = (r / 8, g / 4, b / 8);
            let v = pack_channel(x, 5, y, 6, z, 5);
            let (x32, y32, z32) = (x as u32, y as u32, z as u32);
            assert(((x32 << 11u32) | (y32 << 5u32) | z32) == x32 * 2048 + y32 * 32 + z32) by (bit_vector)
                requires
                    x32 < 32,
                    y32 < 64,
                    z32 < 32,
            ;
            vec![(v % 256) as u8, (v / 256) as u8]
        },
        ColorFormat::RGB888 => vec![b, g, r],
        ColorFormat::ARGB8888 => {
            let raw = color.raw_value();
            vec![
                (raw % 0x100) as u8,
                ((raw / 0x100) % 0x100) as u8,
                ((raw / 0x1_0000) % 0x100) as u8,
                ((raw / 0x100_0000) % 0x100) as u8,
            ]
        },
    }
}

/// Byte offset of pixel `(x, y)` in a framebuffer of `info`'s geometry.
pub open spec fn pixel_offset(info: DisplayInfo, x: int, y: int) -> int {
    (x + y * info.width) * (spec_depth(info.format) / 8)
}

/// Framebuffer `fb` after pixel `(x, y)` is set to `color`: the pixel's
/// bytes are replaced when they lie wholly inside the framebuffer, and
/// nothing changes otherwise.
pub open spec fn spec_draw_pixel(fb: Seq<u8>, info: DisplayInfo, x: int, y: int, color: u32) -> Seq<
    u8,
> {
    let off = pixel_offset(info, x, y);
    if off + spec_depth(info.format) / 8 <= fb.len() {
        spec_overwrite(fb, off, spec_color_bytes(color, info.format))
    } else {
        fb
    }
}

/// `fb` after pixels `left..i` of row `y` are drawn, left to right.
pub open spec fn spec_fill_row(fb: Seq<u8>, info: DisplayInfo, left: int, i: int, y: int, color: u32) -> Seq<
    u8,
>
    decreases i - left,
{
    if i <= left {
        fb
    } else {
        spec_draw_pixel(spec_fill_row(fb, info, left, i - 1, y, color), info, i - 1, y, color)
    }
}

/// `fb` after columns `left..right` of rows `top..j` are drawn, row by row.
pub open spec fn spec_fill_rows(
    fb: Seq<u8>,
    info: DisplayInfo,
    left: int,
    right: int,
    top: int,
    j: int,
    color: u32,
) -> Seq<u8>
    decreases j - top,
{
    if j <= top {
        fb
    } else {
        spec_fill_row(
            spec_fill_rows(fb, info, left, right, top, j - 1, color),
            info,
            left,
            right,
            j - 1,
            color,
        )
    }
}

/// The part of `rect` that lies on a `width` by `height` screen, as
/// `(left, right, top, bottom)`.
pub open spec fn spec_clip(rect: Rectangle, width: u32, height: u32) -> (int, int, int, int) {
    let left = if rect.x < width { rect.x as int } else { width as int };
    let right = if left + rect.width < width { left + rect.width } else { width as int };
    let top = if rect.y < height { rect.y as int } else { height as int };
    let bottom = if top + rect.height < height { top + rect.height } else { height as int };
    (left, right, top, bottom)
}

/// `fb` after every on-screen pixel of `rect` is set to `color`.
pub open spec fn spec_fill_rect(fb: Seq<u8>, info: DisplayInfo, rect: Rectangle, color: u32) -> Seq<u8> {
    let (left, right, top, bottom) = spec_clip(rect, info.width, info.height);
    spec_fill_rows(fb, info, left, right, top, bottom, color)
}

/// Why a display operation failed.
#[derive(Clone, Copy, Debug, PartialEq, Eq, Structural)]
pub enum DeviceError {
    /// The device cannot do what was asked.
    NotSupported,
}

/// A display driven through a linear framebuffer.
pub trait DisplayScheme {
    /// Geometry and format of the display.
    spec fn spec_info(&self) -> DisplayInfo;

    /// Contents of the framebuffer.
    spec fn spec_fb(&self) -> Seq<u8>;

    /// Geometry and format of the display.
    fn info(&self) -> (r: DisplayInfo)
        ensures
            r == self.spec_info(),
    ;

    /// Length of the framebuffer in bytes.
    fn fb_len(&self) -> (r: usize)
        ensures
            r == self.spec_fb().len(),
    ;

    /// Store `data` in the framebuffer at byte `offset`.
    fn write_fb(&mut self, offset: usize, data: &[u8])
        requires
            offset + data@.len() <= old(self).spec_fb().len(),
        ensures
            final(self).spec_fb() == spec_overwrite(old(self).spec_fb(), offset as int, data@),
            final(self).spec_info() == old(self).spec_info(),
    ;

    /// Set pixel `(x, y)` to `color`; a pixel outside the framebuffer is
    /// ignored.
    fn draw_pixel(&mut self, x: u32, y: u32, color: RgbColor)
        ensures
            final(self).spec_fb() == spec_draw_pixel(
                old(self).spec_fb(),
                old(self).spec_info(),
                x as int,
                y as int,
                color@,
            ),
            final(self).spec_info() == old(self).spec_info(),
    {
        let info = self.info();
        let bpp = info.format.bytes() as u128;
        let (xx, yy, ww) = (x as u128, y as u128, info.width as u128);
        proof {
            assert(yy * ww <= 0xffff_ffffu128 * 0xffff_ffffu128) by (nonlinear_arith)
                requires
                    yy <= 0xffff_ffffu128,
                    ww <= 0xffff_ffffu128,
            ;
        }
        let index = xx + yy * ww;
        proof {
            assert(index * bpp <= 0x1_0000_0000_0000_0000u128 * 4) by (nonlinear_arith)
                requires
                    bpp <= 4,
                    index <= 0x1_0000_0000_0000_0000u128,
            ;
        }
        let offset: u128 = index * bpp;
        if offset + bpp <= self.fb_len() as u128 {
            let bytes = color_bytes(color, info.format);
            self.write_fb(offset as usize, bytes.as_slice());
        }
    }

    /// Set every on-screen pixel of `rect` to `color`.
    fn fill_rect(&mut self, rect: &Rectangle, color: RgbColor)
        ensures
            final(self).spec_fb() == spec_fill_rect(
                old(self).spec_fb(),
                old(self).spec_info(),
                *rect,
                color@,
            ),
            final(self).spec_info() == old(self).spec_info(),
    {
        let info = self.info();
        let left = if rect.x < info.width { rect.x } else { info.width };
        let right = if (left as u64 + rect.width as u64) < info.width as u64 {
            left + rect.width
        } else {
            info.width
        };
        let top = if rect.y < info.height { rect.y } else { info.height };
        let bottom = if (top as u64 + rect.height as u64) < info.height as u64 {
            top + rect.height
        } else {
            info.height
        };
        assert(left <= right);
        let ghost fb0 = self.spec_fb();
        let mut j = top;
        while j < bottom
            invariant
                top <= j <= bottom,
                left <= right,
                self.spec_info() == info,
                self.spec_fb() == spec_fill_rows(
                    fb0,
                    info,
                    left as int,
                    right as int,
                    top as int,
                    j as int,
                    color@,
                ),
            decreases bottom - j,
        {
            let ghost row_start = self.spec_fb();
            let mut i = left;
            while i < right
                invariant
                    left <= i <= right,
                    self.spec_info() == info,
                    self.spec_fb() == spec_fill_row(
                        row_start,
                        info,
                        left as int,
                        i as int,
                        j as int,
                        color@,
                    ),
                decreases right - i,
            {
                self.draw_pixel(i, j, color);
                i = i + 1;
            }
            j = j + 1;
        }
    }

    /// Set every pixel of the screen to `color`.
    fn clear(&mut self, color: RgbColor)
        ensures
            final(self).spec_fb() == spec_fill_rect(
                old(self).spec_fb(),
                old(self).spec_info(),
                Rectangle {
                    x: 0,
                    y: 0,
                    width: old(self).spec_info().width,
                    height: old(self).spec_info().height,
                },
                color@,
            ),
            final(self).spec_info() == old(self).spec_info(),
    {
        let info = self.info();
        self.fill_rect(&Rectangle { x: 0, y: 0, width: info.width, height: info.height }, color)
    }

    /// Whether the framebuffer must be flushed to reach the screen.
    fn need_flush(&self) -> (r: bool)
        ensures
            r == false,
    {
        false
    }

    /// Flush the framebuffer to the screen.
    fn flush(&mut self) -> (r: Result<(), DeviceError>)
        ensures
            r is Ok,
            final(self).spec_fb() == old(self).spec_fb(),
            final(self).spec_info() == old(self).spec_info(),
    {
        Ok(())
    }
}

/// A display whose framebuffer is ordinary memory.
pub struct FrameBuffer {
    info: DisplayInfo,
    fb: Vec<u8>,
}

impl FrameBuffer {
    /// A zero-filled framebuffer of `info.fb_size` bytes.
    pub fn new(info: DisplayInfo) -> (r: FrameBuffer)
        ensures
            r.spec_info() == info,
            r.spec_fb() == Seq::new(info.fb_size as nat, |i: int| 0u8),
    {
        let mut fb: Vec<u8> = Vec::new();
        let mut i: usize = 0;
        while i < info.fb_size
            invariant
                i <= info.fb_size,
                fb@ == Seq::new(i as nat, |k: int| 0u8),
            decreases info.fb_size - i,
        {
            fb.push(0u8);
            i = i + 1;
            assert(fb@ =~= Seq::new(i as nat, |k: int| 0u8));
        }
        FrameBuffer { info, fb }
    }

    /// Contents of the framebuffer.
    pub fn contents(&self) -> (r: &Vec<u8>)
        ensures
            r@ == self.spec_fb(),
    {
        &self.fb
    }
}

impl DisplayScheme for FrameBuffer {
    closed spec fn spec_info(&self) -> DisplayInfo {
        self.info
    }

    closed spec fn spec_fb(&self) -> Seq<u8> {
        self.fb@
    }

    fn info(&self) -> (r: DisplayInfo) {
        self.info
    }

    fn fb_len(&self) -> (r: usize) {
        self.fb.len()
    }

    fn write_fb(&mut self, offset: usize, data: &[u8]) {
        let ghost before = self.fb@;
        let len = self.fb.len();
        let n = data.len();
        let mut i: usize = 0;
        while i < n
            invariant
                n == data@.len(),
                offset + n <= before.len(),
                before.len() == len,
                i <= n,
                self.info == old(self).info,
                self.fb@.len() == before.len(),
                forall|k: int|
                    0 <= k < self.fb@.len() ==> self.fb@[k] == if offset <= k < offset + i {
                        data@[k - offset]
                    } else {
                        before[k]
                    },
            decreases n - i,
        {
            self.fb.set(offset + i, data[i]);
            i = i + 1;
        }
        assert(self.fb@ =~= spec_overwrite(before, offset as int, data@));
    }
}

} // verus!
