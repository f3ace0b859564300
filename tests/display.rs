use kernel_hal::display::{
    color_bytes, pack_channel, ColorFormat, DisplayInfo, DisplayScheme, FrameBuffer, Rectangle,
    RgbColor,
};

fn info(format: ColorFormat, width: u32, height: u32) -> DisplayInfo {
    let size = (width * height * format.bytes() as u32) as usize;
    DisplayInfo { width, height, format, fb_base_vaddr: 0, fb_size: size }
}

#[test]
fn color_channels() {
    let c = RgbColor::new(0x12, 0x34, 0x56);
    assert_eq!(c.raw_value(), 0x123456);
    assert_eq!((c.r(), c.g(), c.b()), (0x12, 0x34, 0x56));
}

#[test]
fn format_sizes() {
    assert_eq!(ColorFormat::RGB332.depth(), 8);
    assert_eq!(ColorFormat::RGB565.bytes(), 2);
    assert_eq!(ColorFormat::RGB888.bytes(), 3);
    assert_eq!(ColorFormat::ARGB8888.depth(), 32);
    assert_eq!(info(ColorFormat::RGB888, 10, 2).pitch(), 30);
}

#[test]
fn channel_packing() {
    assert_eq!(pack_channel(7, 3, 7, 3, 3, 2), 0xff);
    assert_eq!(pack_channel(31, 5, 0, 6, 0, 5), 0xf800);
    assert_eq!(pack_channel(1, 5, 1, 6, 1, 5), 0x0821);
}

#[test]
fn pixel_encodings() {
    let c = RgbColor::new(0xff, 0x80, 0x40);
    assert_eq!(color_bytes(c, ColorFormat::RGB332), vec![0xe0 | 0x10 | 0x01]);
    let v: u16 = (0x1f << 11) | (0x20 << 5) | 0x08;
    assert_eq!(color_bytes(c, ColorFormat::RGB565), v.to_le_bytes().to_vec());
    assert_eq!(color_bytes(c, ColorFormat::RGB888), vec![0x40, 0x80, 0xff]);
    assert_eq!(color_bytes(c, ColorFormat::ARGB8888), vec![0x40, 0x80, 0xff, 0]);
}

#[test]
fn draw_and_fill() {
    let mut fb = FrameBuffer::new(info(ColorFormat::RGB888, 4, 3));
    let red = RgbColor::new(0xff, 0, 0);
    fb.draw_pixel(1, 2, red);
    let off = (1 + 2 * 4) * 3;
    assert_eq!(&fb.contents()[off..off + 3], &[0, 0, 0xff]);
    // Off-screen rows beyond the buffer are ignored.
    fb.draw_pixel(0, 3, red);
    assert_eq!(fb.contents().len(), 36);

    let blue = RgbColor::new(0, 0, 0xff);
    fb.fill_rect(&Rectangle { x: 2, y: 0, width: 10, height: 1 }, blue);
    assert_eq!(&fb.contents()[6..12], &[0xff, 0, 0, 0xff, 0, 0]);
    assert_eq!(&fb.contents()[0..6], &[0, 0, 0, 0, 0, 0]);

    fb.clear(RgbColor::new(1, 2, 3));
    assert!(fb.contents().chunks(3).all(|p| p == [3, 2, 1]));
    assert!(!fb.need_flush());
    assert!(fb.flush().is_ok());
}
