//! Tests of the magic validator and the whole-image codec.

use bootimg::errors::BadHeaderError;
use bootimg::errors::LayoutError;
use bootimg::errors::ReadBootImageError;
use bootimg::header_kind::HeaderKind;
use bootimg::image::read;
use bootimg::image::BootImage;
use bootimg::magic::validate_magic;
use bootimg::magic::HeaderFormat;
use bootimg::SamsungHeader;

fn pattern(len: usize, seed: u8) -> Vec<u8> {
    let mut v = Vec::with_capacity(len);
    for i in 0..len {
        v.push(seed.wrapping_add((i % 249) as u8));
    }
    v
}

fn sample_image() -> BootImage {
    let mut h = SamsungHeader::default();
    h.kernel_size = 5000;
    h.ramdisk_size = 3000;
    BootImage {
        header: HeaderKind::Samsung(h),
        kernel: pattern(5000, 1),
        ramdisk: pattern(3000, 2),
        second: Vec::new(),
        device_tree: Vec::new(),
    }
}

#[test]
fn validate_magic_accepts_android() {
    let mut buf = vec![0u8; 64];
    buf[0..8].copy_from_slice(b"ANDROID!");
    assert_eq!(validate_magic(&buf), Ok(HeaderFormat::Samsung));
}

#[test]
fn validate_magic_rejects_unknown_prefix() {
    let mut buf = vec![0u8; 64];
    buf[0..8].copy_from_slice(b"ANDROIX!");
    assert_eq!(validate_magic(&buf), Err(BadHeaderError::UnrecognizedMagic));
    let zeros = vec![0u8; 8];
    assert_eq!(
        validate_magic(&zeros),
        Err(BadHeaderError::UnrecognizedMagic)
    );
}

#[test]
fn write_layout_at_page_2048() {
    let img = sample_image();
    let bytes = bootimg::image::write(&img).unwrap();
    // header record padded to 2048, kernel 5000 padded to 6144,
    // ramdisk 3000 padded to 4096
    assert_eq!(bytes.len(), 2048 + 6144 + 4096);
    // the kernel occupies [2048, 2048 + 5000)
    assert_eq!(&bytes[2048..2048 + 5000], &pattern(5000, 1)[..]);
    // padding after the kernel is zero up to the next page boundary
    assert!(bytes[2048 + 5000..8192].iter().all(|b| *b == 0));
    // the ramdisk follows at the next 2048 boundary
    assert_eq!(&bytes[8192..8192 + 3000], &pattern(3000, 2)[..]);
    assert!(bytes[8192 + 3000..12288].iter().all(|b| *b == 0));
    // the header record itself leads the image
    assert_eq!(&bytes[0..8], b"ANDROID!");
    assert!(bytes[616..2048].iter().all(|b| *b == 0));
}

#[test]
fn write_then_read_roundtrip() {
    let img = sample_image();
    let bytes = bootimg::image::write(&img).unwrap();
    let back = read(&bytes).unwrap();
    assert_eq!(back, img);
}

#[test]
fn write_then_read_roundtrip_with_all_sections() {
    let mut h = SamsungHeader::default();
    h.kernel_size = 5000;
    h.ramdisk_size = 3000;
    h.second_size = 100;
    h.device_tree_size = 2049;
    let img = BootImage {
        header: HeaderKind::Samsung(h),
        kernel: pattern(5000, 1),
        ramdisk: pattern(3000, 2),
        second: pattern(100, 3),
        device_tree: pattern(2049, 4),
    };
    let bytes = bootimg::image::write(&img).unwrap();
    assert_eq!(bytes.len(), 2048 + 6144 + 4096 + 2048 + 4096);
    let back = read(&bytes).unwrap();
    assert_eq!(back, img);
}

#[test]
fn write_then_read_header_only() {
    let img = BootImage {
        header: HeaderKind::Samsung(SamsungHeader::default()),
        kernel: Vec::new(),
        ramdisk: Vec::new(),
        second: Vec::new(),
        device_tree: Vec::new(),
    };
    let bytes = bootimg::image::write(&img).unwrap();
    assert_eq!(bytes.len(), 2048);
    let back = read(&bytes).unwrap();
    assert_eq!(back, img);
}

#[test]
fn write_zero_page_size() {
    let mut h = SamsungHeader::default();
    h.page_size = 0;
    let img = BootImage {
        header: HeaderKind::Samsung(h),
        kernel: Vec::new(),
        ramdisk: Vec::new(),
        second: Vec::new(),
        device_tree: Vec::new(),
    };
    assert_eq!(bootimg::image::write(&img), Err(LayoutError::InvalidPageSize));
}

#[test]
fn write_size_overflow() {
    let mut h = SamsungHeader::default();
    h.page_size = u32::MAX;
    h.kernel_size = 1;
    let img = BootImage {
        header: HeaderKind::Samsung(h),
        kernel: vec![5u8],
        ramdisk: Vec::new(),
        second: Vec::new(),
        device_tree: Vec::new(),
    };
    assert_eq!(bootimg::image::write(&img), Err(LayoutError::SizeOverflow));
}

#[test]
fn read_rejects_bad_magic() {
    let img = sample_image();
    let mut bytes = bootimg::image::write(&img).unwrap();
    bytes[0] = b'Z';
    assert_eq!(
        read(&bytes),
        Err(ReadBootImageError::BadHeader(
            BadHeaderError::UnrecognizedMagic
        ))
    );
}

#[test]
fn read_rejects_buffer_shorter_than_magic() {
    let bytes = b"AND".to_vec();
    assert_eq!(read(&bytes), Err(ReadBootImageError::TruncatedInput));
}

#[test]
fn read_rejects_buffer_shorter_than_header() {
    let mut bytes = vec![0u8; 100];
    bytes[0..8].copy_from_slice(b"ANDROID!");
    assert_eq!(read(&bytes), Err(ReadBootImageError::TruncatedInput));
}

#[test]
fn read_rejects_truncated_last_section() {
    let img = sample_image();
    let bytes = bootimg::image::write(&img).unwrap();
    // the ramdisk's declared 3000 bytes start at 8192; cut one byte short
    let cut = &bytes[..8192 + 2999];
    assert_eq!(read(cut), Err(ReadBootImageError::TruncatedInput));
    // cutting mid-kernel fails the same way
    let cut = &bytes[..2048 + 4999];
    assert_eq!(read(cut), Err(ReadBootImageError::TruncatedInput));
}

#[test]
fn read_accepts_image_without_trailing_padding() {
    let img = sample_image();
    let bytes = bootimg::image::write(&img).unwrap();
    // everything after the ramdisk's declared bytes is padding; a reader
    // only needs the declared bytes themselves
    let cut = &bytes[..8192 + 3000];
    let back = read(cut).unwrap();
    assert_eq!(back, img);
}

#[test]
fn read_zero_page_size_header() {
    let mut h = SamsungHeader::default();
    h.page_size = 0;
    let bytes = h.serialize();
    assert_eq!(
        read(&bytes),
        Err(ReadBootImageError::Layout(LayoutError::InvalidPageSize))
    );
}

#[test]
fn read_layout_overflow() {
    let mut h = SamsungHeader::default();
    h.page_size = u32::MAX;
    h.kernel_size = 1;
    h.ramdisk_size = 1;
    let bytes = h.serialize();
    assert_eq!(
        read(&bytes),
        Err(ReadBootImageError::Layout(LayoutError::SizeOverflow))
    );
}

#[test]
fn is_consistent_checks_declared_sizes() {
    let img = sample_image();
    assert!(img.is_consistent());
    let mut bad = sample_image();
    bad.kernel.pop();
    assert!(!bad.is_consistent());
}

#[test]
fn header_kind_parse_dispatch() {
    let h3 = bootimg::aosp_header::AospHeader3::default();
    let bytes = h3.serialize();
    assert_eq!(HeaderKind::format_length(HeaderFormat::Aosp3), 1580);
    let kind = HeaderKind::parse(HeaderFormat::Aosp3, &bytes);
    assert_eq!(kind, HeaderKind::Aosp3(h3));
    assert!(kind.has_correct_magic());
    assert_eq!(kind.header_length(), 1580);

    let hs = SamsungHeader::default();
    let bytes = hs.serialize();
    assert_eq!(HeaderKind::format_length(HeaderFormat::Samsung), 616);
    let kind = HeaderKind::parse(HeaderFormat::Samsung, &bytes);
    assert_eq!(kind, HeaderKind::Samsung(hs));
}

#[test]
fn header_kind_serialize_matches_variant() {
    let h0 = bootimg::aosp_header::AospHeader0::default();
    let direct = h0.serialize();
    let kind = HeaderKind::Aosp0(h0);
    assert_eq!(kind.serialize(), direct);
    assert_eq!(kind.kernel_size(), 0);
    assert_eq!(kind.ramdisk_size(), 0);
    assert_eq!(kind.page_size(), 2048);
}
