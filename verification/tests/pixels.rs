use softbuffer::native::{buffer_fills, byte_count};
use softbuffer::pattern::{gradient, gradient_at};
use softbuffer::pixel::{blue, encode, green, pack_rgb, pixel_bytes, red, PixelLayout};

#[test]
fn pack_rgb_puts_red_highest() {
    assert_eq!(pack_rgb(0xaa, 0xbb, 0xcc), 0x00aa_bbcc);
    assert_eq!(pack_rgb(0, 0, 0), 0);
    assert_eq!(pack_rgb(255, 255, 255), 0x00ff_ffff);
    assert_eq!(pack_rgb(1, 0, 0), 0x0001_0000);
}

#[test]
fn channels_ignore_the_top_byte() {
    assert_eq!(red(0x12aa_bbcc), 0xaa);
    assert_eq!(green(0x12aa_bbcc), 0xbb);
    assert_eq!(blue(0x12aa_bbcc), 0xcc);
}

#[test]
fn packing_round_trips() {
    for r in [0u8, 1, 127, 128, 254, 255] {
        for g in [0u8, 3, 200, 255] {
            for b in [0u8, 9, 77, 255] {
                let p = pack_rgb(r, g, b);
                assert_eq!((red(p), green(p), blue(p)), (r, g, b));
                assert_eq!(p >> 24, 0);
            }
        }
    }
}

#[test]
fn bgrx_is_the_little_endian_word() {
    assert_eq!(pixel_bytes(0x1234_5678, PixelLayout::Bgrx), [0x78, 0x56, 0x34, 0x12]);
    assert_eq!(pixel_bytes(0x1234_5678, PixelLayout::Bgrx), 0x1234_5678u32.to_le_bytes());
    assert_eq!(pixel_bytes(0x00aa_bbcc, PixelLayout::Bgrx), [0xcc, 0xbb, 0xaa, 0x00]);
}

#[test]
fn rgba_is_always_opaque() {
    assert_eq!(pixel_bytes(0x00aa_bbcc, PixelLayout::Rgba), [0xaa, 0xbb, 0xcc, 0xff]);
    assert_eq!(pixel_bytes(0x12aa_bbcc, PixelLayout::Rgba), [0xaa, 0xbb, 0xcc, 0xff]);
    assert_eq!(pixel_bytes(0, PixelLayout::Rgba), [0, 0, 0, 0xff]);
}

#[test]
fn encode_keeps_pixel_order() {
    let buffer = [0x0001_0203u32, 0x0004_0506, 0xff07_0809];
    assert_eq!(
        encode(&buffer, PixelLayout::Bgrx),
        vec![3, 2, 1, 0, 6, 5, 4, 0, 9, 8, 7, 0xff]
    );
    assert_eq!(
        encode(&buffer, PixelLayout::Rgba),
        vec![1, 2, 3, 255, 4, 5, 6, 255, 7, 8, 9, 255]
    );
}

#[test]
fn encode_of_nothing_is_nothing() {
    assert_eq!(encode(&[], PixelLayout::Bgrx), Vec::<u8>::new());
    assert_eq!(encode(&[], PixelLayout::Rgba), Vec::<u8>::new());
}

#[test]
fn byte_count_is_four_per_pixel() {
    assert_eq!(byte_count(256, 128), 131_072);
    assert_eq!(byte_count(0, 128), 0);
    assert_eq!(byte_count(1, 1), 4);
    assert_eq!(byte_count(65_535, 65_535), 17_179_344_900);
}

#[test]
fn buffer_fills_compares_with_the_product() {
    assert!(buffer_fills(32_768, 256, 128));
    assert!(!buffer_fills(32_767, 256, 128));
    assert!(!buffer_fills(32_769, 256, 128));
    assert!(buffer_fills(0, 0, 7));
    assert!(!buffer_fills(1, 0, 7));
    assert!(!buffer_fills(8_192, 256, 128));
}

#[test]
fn gradient_pixels_follow_the_coordinates() {
    assert_eq!(gradient_at(0, 0), 0);
    assert_eq!(gradient_at(1, 1), 0x0001_0101);
    assert_eq!(gradient_at(255, 1), 0x0000_0100);
    assert_eq!(gradient_at(254, 127), 0x00fe_7f80);
    assert_eq!(gradient_at(256, 0), 0x0001_0000);
    assert_eq!(gradient_at(65_535, 65_535), 0);
}

#[test]
fn gradient_is_row_major() {
    let buffer = gradient(256, 128);
    assert_eq!(buffer.len(), 256 * 128);
    for (index, pixel) in buffer.iter().enumerate() {
        let x = index % 256;
        let y = index / 256;
        let expected = ((x * y) % 255) | ((y % 255) << 8) | ((x % 255) << 16);
        assert_eq!(*pixel, expected as u32);
    }
    assert_eq!(buffer[256 * 127 + 254], 0x00fe_7f80);
}

#[test]
fn gradient_of_an_empty_frame_is_empty() {
    assert!(gradient(0, 10).is_empty());
    assert!(gradient(10, 0).is_empty());
    assert_eq!(gradient(3, 2).len(), 6);
}
