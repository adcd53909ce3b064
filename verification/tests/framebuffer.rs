use openpager::display::{ByteOrder, Display, FbBitfield, FbFixScreeninfo, FbVarScreeninfo,
    Framebuffer};

fn panel(xres: u32, yres: u32, stride: u32, bits: u32, order: ByteOrder) -> Framebuffer {
    let var_info = FbVarScreeninfo { xres, yres, bits_per_pixel: bits, ..Default::default() };
    let fix_info = FbFixScreeninfo { line_length: stride, ..Default::default() };
    Framebuffer::new(var_info, fix_info, order)
}

#[test]
fn descriptors_default_to_zero() {
    let zero = FbBitfield { offset: 0, length: 0, msb_right: 0 };
    assert_eq!(FbBitfield::default(), zero);
    assert_eq!(
        FbVarScreeninfo::default(),
        FbVarScreeninfo {
            xres: 0,
            yres: 0,
            xres_virtual: 0,
            yres_virtual: 0,
            xoffset: 0,
            yoffset: 0,
            bits_per_pixel: 0,
            grayscale: 0,
            red: zero,
            green: zero,
            blue: zero,
            transp: zero,
            nonstd: 0,
            activate: 0,
            height: 0,
            width: 0,
            accel_flags: 0,
            pixclock: 0,
            left_margin: 0,
            right_margin: 0,
            upper_margin: 0,
            lower_margin: 0,
            hsync_len: 0,
            vsync_len: 0,
            sync: 0,
            vmode: 0,
            rotate: 0,
            colorspace: 0,
            reserved: [0; 4],
        }
    );
    assert_eq!(
        FbFixScreeninfo::default(),
        FbFixScreeninfo {
            id: [0; 16],
            smem_start: 0,
            smem_len: 0,
            fb_type: 0,
            type_aux: 0,
            visual: 0,
            xpanstep: 0,
            ypanstep: 0,
            ywrapstep: 0,
            line_length: 0,
            mmio_start: 0,
            mmio_len: 0,
            accel: 0,
            capabilities: 0,
            reserved: [0; 2],
        }
    );
}

#[test]
fn new_framebuffer_has_stride_times_rows_zero_bytes() {
    let fb = panel(3, 2, 8, 16, ByteOrder::LittleEndian);
    assert_eq!(fb.width(), 3);
    assert_eq!(fb.height(), 2);
    assert_eq!(fb.bpp(), 16);
    assert!(fb.is_rgb565());
    assert_eq!(fb.line_length(), 8);
    assert!(fb.is_addressable());
    assert_eq!(fb.buffer(), &[0u8; 16][..]);
    assert_eq!(fb.byte_order, ByteOrder::LittleEndian);
}

#[test]
fn short_rows_are_not_addressable() {
    assert!(!panel(3, 2, 5, 16, ByteOrder::LittleEndian).is_addressable());
    assert!(panel(3, 2, 6, 16, ByteOrder::LittleEndian).is_addressable());
    assert!(panel(0, 0, 0, 16, ByteOrder::LittleEndian).is_addressable());
    assert!(!panel(u32::MAX, 0, u32::MAX, 16, ByteOrder::LittleEndian).is_addressable());
}

#[test]
fn set_pixel_addresses_rows_by_stride() {
    let mut fb = panel(3, 2, 8, 16, ByteOrder::LittleEndian);
    fb.set_pixel(2, 1, 0x1234);
    fb.set_pixel(0, 0, 0xABCD);
    let mut expected = [0u8; 16];
    expected[8 + 4] = 0x34;
    expected[8 + 5] = 0x12;
    expected[0] = 0xCD;
    expected[1] = 0xAB;
    assert_eq!(fb.buffer(), &expected[..]);
    assert_eq!(fb.get_pixel(2, 1), 0x1234);
    assert_eq!(fb.get_pixel(0, 0), 0xABCD);
    assert_eq!(fb.get_pixel(1, 1), 0);
}

#[test]
fn set_pixel_in_big_endian_order() {
    let mut fb = panel(2, 1, 4, 16, ByteOrder::BigEndian);
    fb.set_pixel(1, 0, 0x1234);
    assert_eq!(fb.buffer(), &[0, 0, 0x12, 0x34][..]);
    assert_eq!(fb.get_pixel(1, 0), 0x1234);
}

#[test]
fn set_pixel_off_the_display_is_ignored() {
    let mut fb = panel(3, 2, 8, 16, ByteOrder::LittleEndian);
    fb.set_pixel(3, 0, 0xFFFF);
    fb.set_pixel(0, 2, 0xFFFF);
    fb.set_pixel(u32::MAX, u32::MAX, 0xFFFF);
    assert_eq!(fb.buffer(), &[0u8; 16][..]);
}

#[test]
fn set_pixel_unchecked_may_write_padding() {
    let mut fb = panel(3, 2, 8, 16, ByteOrder::LittleEndian);
    fb.set_pixel_unchecked(3, 0, 0x0102);
    let mut expected = [0u8; 16];
    expected[6] = 0x02;
    expected[7] = 0x01;
    assert_eq!(fb.buffer(), &expected[..]);
}

#[test]
fn clear_fills_two_bytes_at_a_time() {
    let mut fb = panel(2, 2, 4, 16, ByteOrder::LittleEndian);
    fb.clear(0x1234);
    assert_eq!(fb.buffer(), &[0x34, 0x12, 0x34, 0x12, 0x34, 0x12, 0x34, 0x12][..]);
    for y in 0..2 {
        for x in 0..2 {
            assert_eq!(fb.get_pixel(x, y), 0x1234);
        }
    }
    let mut fb = panel(2, 2, 4, 16, ByteOrder::BigEndian);
    fb.clear(0x1234);
    assert_eq!(fb.buffer(), &[0x12, 0x34, 0x12, 0x34, 0x12, 0x34, 0x12, 0x34][..]);
}

#[test]
fn clear_leaves_a_last_odd_byte() {
    let mut fb = panel(1, 1, 3, 16, ByteOrder::LittleEndian);
    fb.buffer_mut()[2] = 0x77;
    fb.clear(0xA1B2);
    assert_eq!(fb.buffer(), &[0xB2, 0xA1, 0x77][..]);
}

#[test]
fn clear_does_nothing_at_other_depths() {
    let mut fb = panel(2, 1, 8, 32, ByteOrder::LittleEndian);
    assert!(!fb.is_rgb565());
    fb.clear(0xFFFF);
    assert_eq!(fb.buffer(), &[0u8; 8][..]);
}

#[test]
fn buffer_mut_writes_through() {
    let mut fb = panel(2, 1, 4, 16, ByteOrder::LittleEndian);
    fb.buffer_mut()[2] = 0xEF;
    fb.buffer_mut()[3] = 0xBE;
    assert_eq!(fb.get_pixel(1, 0), 0xBEEF);
    assert_eq!(fb.buffer().len(), 4);
}

#[test]
fn framebuffer_through_the_display_trait() {
    fn paint<D: Display>(display: &mut D) -> (u32, u32) {
        display.clear(0x0F0F);
        display.set_pixel(1, 1, 0xF00F);
        display.set_pixel(9, 9, 0xFFFF);
        (display.width(), display.height())
    }
    let mut fb = panel(2, 2, 4, 16, ByteOrder::LittleEndian);
    assert_eq!(paint(&mut fb), (2, 2));
    assert_eq!(fb.get_pixel(0, 0), 0x0F0F);
    assert_eq!(fb.get_pixel(1, 0), 0x0F0F);
    assert_eq!(fb.get_pixel(0, 1), 0x0F0F);
    assert_eq!(fb.get_pixel(1, 1), 0xF00F);
}

#[test]
fn a_display_of_another_kind() {
    struct Counting {
        cleared: u32,
        set: Vec<(u32, u32, u16)>,
    }
    impl Display for Counting {
        fn width(&self) -> u32 {
            7
        }
        fn height(&self) -> u32 {
            5
        }
        fn clear(&mut self, _color: u16) {
            self.cleared += 1;
        }
        fn set_pixel(&mut self, x: u32, y: u32, color: u16) {
            self.set.push((x, y, color));
        }
    }
    fn paint<D: Display>(display: &mut D) -> (u32, u32) {
        display.clear(1);
        display.set_pixel(2, 3, 4);
        (display.width(), display.height())
    }
    let mut counting = Counting { cleared: 0, set: Vec::new() };
    assert_eq!(paint(&mut counting), (7, 5));
    assert_eq!(counting.cleared, 1);
    assert_eq!(counting.set, vec![(2, 3, 4)]);
}
