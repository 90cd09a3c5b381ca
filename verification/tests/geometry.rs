use mctk::geometry::{DevicePixels, Half, IsZero, PixelAABB, PixelPoint, PixelSize};

#[test]
fn pixel_size_area() {
    let s = PixelSize::new(3, 4);
    assert_eq!(s.width, 3);
    assert_eq!(s.height, 4);
    assert_eq!(s.area(), 12);
}

#[test]
fn pixel_aabb_measures() {
    let b = PixelAABB { pos: PixelPoint::new(2, 3), bottom_right: PixelPoint::new(7, 11) };
    assert_eq!(b.width(), 5);
    assert_eq!(b.height(), 8);
    assert_eq!(b.size(), PixelSize::new(5, 8));
    assert_eq!(b.area(), 40);
}

#[test]
fn device_pixels_bytes_and_half() {
    assert_eq!(DevicePixels(10).to_bytes(4), 40);
    assert_eq!(DevicePixels(-1).to_bytes(1), u32::MAX);
    assert_eq!(DevicePixels(-3).half(), DevicePixels(-1));
    assert_eq!(DevicePixels(7).half(), DevicePixels(3));
    assert!(DevicePixels(0).is_zero());
    assert!(!DevicePixels(5).is_zero());
}

#[test]
fn device_pixels_conversions() {
    let d: DevicePixels = 5i32.into();
    assert_eq!(d, DevicePixels(5));
    let back: i32 = d.into();
    assert_eq!(back, 5);
    let u: u32 = DevicePixels(-2).into();
    assert_eq!(u, u32::MAX - 1);
    let from_u: DevicePixels = (u32::MAX).into();
    assert_eq!(from_u, DevicePixels(-1));
}

#[test]
fn pixel_aabb_empty_box() {
    let p = PixelPoint::new(4, 4);
    let b = PixelAABB { pos: p, bottom_right: p };
    assert_eq!(b.area(), 0);
    assert_eq!(b.size(), PixelSize::default());
}

#[test]
fn device_pixels_arithmetic() {
    assert_eq!(DevicePixels(3) + DevicePixels(4), DevicePixels(7));
    assert_eq!(DevicePixels(3) - DevicePixels(4), DevicePixels(-1));
    assert_eq!(DevicePixels(7) / 2, DevicePixels(3));
    assert_eq!(DevicePixels(-7) / 2, DevicePixels(-3));
}

#[test]
fn device_pixels_wide_conversions() {
    assert_eq!(u64::from(DevicePixels(5)), 5);
    assert_eq!(u64::from(DevicePixels(-1)), u64::MAX);
    assert_eq!(DevicePixels::from(5u64), DevicePixels(5));
    assert_eq!(DevicePixels::from(0x1_0000_0005u64), DevicePixels(5));
    assert_eq!(DevicePixels::from(0xFFFF_FFFFu64), DevicePixels(-1));
    assert_eq!(usize::from(DevicePixels(9)), 9);
    assert_eq!(DevicePixels::from(9usize), DevicePixels(9));
}

#[test]
fn device_pixels_debug_text() {
    assert_eq!(DevicePixels(10).debug_text(), "10 px (device)");
    assert_eq!(DevicePixels(-3).debug_text(), "-3 px (device)");
    assert_eq!(DevicePixels(0).debug_text(), "0 px (device)");
    assert_eq!(DevicePixels(i32::MIN).debug_text(), format!("{} px (device)", i32::MIN));
    assert_eq!(DevicePixels(1234567).debug_text(), "1234567 px (device)");
}
