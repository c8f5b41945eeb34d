use glutin_osmesa::buffer::OsMesaBuffer;
use glutin_osmesa::dpi::PhysicalSize;

fn buffer(width: u32, height: u32) -> OsMesaBuffer {
    OsMesaBuffer::new(PhysicalSize::new(width, height)).expect("a buffer is always created")
}

#[test]
fn storage_holds_four_bytes_per_pixel() {
    assert_eq!(buffer(64, 64).storage().len(), 16384);
    assert_eq!(buffer(1, 1).storage().len(), 4);
    assert_eq!(buffer(3, 5).storage().len(), 60);
    assert_eq!(buffer(640, 480).storage().len(), 1_228_800);
}

#[test]
fn storage_length_follows_width_and_height() {
    for width in 1..20u32 {
        for height in 1..20u32 {
            let created = buffer(width, height);
            assert_eq!(created.storage().len(), width as usize * height as usize * 4);
        }
    }
}

#[test]
fn buffer_keeps_its_dimensions() {
    let created = buffer(17, 9);
    assert_eq!(created.width(), 17);
    assert_eq!(created.height(), 9);
    let wide = buffer(1024, 1);
    assert_eq!(wide.width(), 1024);
    assert_eq!(wide.height(), 1);
}

#[test]
fn buffer_without_pixels_has_no_storage() {
    let flat = buffer(0, 7);
    assert_eq!(flat.storage().len(), 0);
    assert_eq!(flat.width(), 0);
    assert_eq!(flat.height(), 7);
    assert_eq!(buffer(7, 0).storage().len(), 0);
    assert_eq!(buffer(0, 0).storage().len(), 0);
    assert_eq!(buffer(u32::MAX, 0).width(), u32::MAX);
}

#[test]
fn physical_size_holds_width_then_height() {
    let size = PhysicalSize::new(800u32, 600u32);
    assert_eq!(size.width, 800);
    assert_eq!(size.height, 600);
    assert_eq!(size, PhysicalSize { width: 800, height: 600 });
}

#[test]
fn sizes_fit_in_memory_up_to_the_largest_allocation() {
    let sides = [0u32, 1, 64, 0x8000, 0x1_0000, 0x2000_0000, 0x4000_0000, 0x8000_0000, u32::MAX];
    for width in sides {
        for height in sides {
            let bytes = u128::from(width) * u128::from(height) * 4;
            assert_eq!(
                OsMesaBuffer::fits_in_memory(PhysicalSize::new(width, height)),
                bytes <= isize::MAX as u128
            );
        }
    }
    assert!(OsMesaBuffer::fits_in_memory(PhysicalSize::new(64, 64)));
    assert!(OsMesaBuffer::fits_in_memory(PhysicalSize::new(u32::MAX, 0)));
    assert!(!OsMesaBuffer::fits_in_memory(PhysicalSize::new(u32::MAX, u32::MAX)));
}
