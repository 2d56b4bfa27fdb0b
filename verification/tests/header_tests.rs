//! Round-trip and byte-layout tests for the five header formats.

use bootimg::aosp_header::AospHeader0;
use bootimg::aosp_header::AospHeader1;
use bootimg::aosp_header::AospHeader2;
use bootimg::aosp_header::AospHeader3;
use bootimg::errors::ReadBootImageError;
use bootimg::SamsungHeader;
use bootimg::SAMSUNG_HEADER_SIZE;

fn filled(len: usize, seed: u8) -> Vec<u8> {
    let mut v = Vec::with_capacity(len);
    for i in 0..len {
        v.push(seed.wrapping_add((i % 251) as u8));
    }
    v
}

#[test]
fn samsung_default_values() {
    let h = SamsungHeader::default();
    assert_eq!(h.magic, b"ANDROID!".to_vec());
    assert_eq!(h.kernel_size, 0);
    assert_eq!(h.kernel_load_address, 0x10008000);
    assert_eq!(h.ramdisk_load_address, 0x11000000);
    assert_eq!(h.second_load_address, 0x100F0000);
    assert_eq!(h.kernel_tags_address, 0x10000100);
    assert_eq!(h.page_size, 2048);
    assert_eq!(h.product_name, vec![0u8; 24]);
    assert_eq!(h.boot_arguments, vec![0u8; 512]);
    assert_eq!(h.unique_id, vec![0u8; 32]);
}

#[test]
fn samsung_serialize_is_616_bytes() {
    let h = SamsungHeader::default();
    let bytes = h.serialize();
    assert_eq!(bytes.len(), SAMSUNG_HEADER_SIZE);
    assert_eq!(bytes.len(), 616);
}

#[test]
fn samsung_serialize_field_layout() {
    let mut h = SamsungHeader::default();
    h.kernel_size = 0x11223344;
    h.ramdisk_size = 0xAABBCCDD;
    let bytes = h.serialize();
    // magic
    assert_eq!(&bytes[0..8], b"ANDROID!");
    // kernel_size, little-endian, at offset 8
    assert_eq!(&bytes[8..12], &[0x44, 0x33, 0x22, 0x11]);
    // kernel_load_address at offset 12
    assert_eq!(&bytes[12..16], &[0x00, 0x80, 0x00, 0x10]);
    // ramdisk_size at offset 16
    assert_eq!(&bytes[16..20], &[0xDD, 0xCC, 0xBB, 0xAA]);
    // page_size at offset 44
    assert_eq!(&bytes[44..48], &[0x00, 0x08, 0x00, 0x00]);
}

#[test]
fn samsung_parse_serialize_roundtrip() {
    let mut h = SamsungHeader::default();
    h.kernel_size = 5000;
    h.ramdisk_size = 3000;
    h.second_size = 77;
    h.device_tree_size = 123456;
    h.kernel_tags_address = 0xDEADBEEF;
    h.product_name = filled(24, 3);
    h.boot_arguments = filled(512, 7);
    h.unique_id = filled(32, 11);
    let bytes = h.serialize();
    let back = SamsungHeader::parse(&bytes);
    assert_eq!(back, h);
}

#[test]
fn samsung_parse_reads_fixed_offsets() {
    let mut buf = vec![0u8; 700];
    buf[0..8].copy_from_slice(b"ANDROID!");
    // kernel_size = 2 at offset 8
    buf[8] = 2;
    // page_size = 2048 at offset 44
    buf[45] = 0x08;
    // product_name begins at offset 48
    buf[48] = b'x';
    // unique_id begins at offset 584
    buf[584] = 0xEE;
    let h = SamsungHeader::parse(&buf);
    assert_eq!(h.kernel_size, 2);
    assert_eq!(h.page_size, 2048);
    assert_eq!(h.product_name[0], b'x');
    assert_eq!(h.unique_id[0], 0xEE);
    assert!(h.has_correct_magic());
}

#[test]
fn samsung_read_from_truncated_fails() {
    let buf = vec![0u8; SAMSUNG_HEADER_SIZE - 1];
    assert_eq!(
        SamsungHeader::read_from(&buf),
        Err(ReadBootImageError::TruncatedInput)
    );
}

#[test]
fn samsung_read_from_whole_buffer() {
    let h = SamsungHeader::default();
    let bytes = h.serialize();
    let back = SamsungHeader::read_from(&bytes).unwrap();
    assert_eq!(back, h);
}

#[test]
fn samsung_magic_check() {
    let mut h = SamsungHeader::default();
    assert!(h.has_correct_magic());
    h.magic = b"BNDROID!".to_vec();
    assert!(!h.has_correct_magic());
}

#[test]
fn aosp0_parse_serialize_roundtrip() {
    let mut h = AospHeader0::default();
    h.kernel_size = 99;
    h.ramdisk_size = 1000;
    h.second_size = 4;
    h.os_version = 0x12345678;
    h.product_name = filled(16, 1);
    h.boot_arguments = filled(512, 2);
    h.unique_id = filled(32, 3);
    h.extra_boot_arguments = filled(1024, 4);
    let bytes = h.serialize();
    assert_eq!(bytes.len(), 1632);
    let back = AospHeader0::parse(&bytes);
    assert_eq!(back, h);
}

#[test]
fn aosp1_parse_serialize_roundtrip() {
    let mut h = AospHeader1::default();
    h.kernel_size = 11;
    h.recovery_dtbo_size = 512;
    h.recovery_dtbo_offset = 0x1122334455667788;
    let bytes = h.serialize();
    assert_eq!(bytes.len(), 1648);
    let back = AospHeader1::parse(&bytes);
    assert_eq!(back, h);
    assert_eq!(back.header_size, 1648);
    assert_eq!(back.header_version, 1);
}

#[test]
fn aosp2_parse_serialize_roundtrip() {
    let mut h = AospHeader2::default();
    h.dtb_size = 640;
    h.dtb_address = 0xCAFEBABE12345678;
    h.recovery_dtbo_size = 7;
    let bytes = h.serialize();
    assert_eq!(bytes.len(), 1660);
    let back = AospHeader2::parse(&bytes);
    assert_eq!(back, h);
    assert_eq!(back.header_version, 2);
}

#[test]
fn aosp3_parse_serialize_roundtrip() {
    let mut h = AospHeader3::default();
    h.kernel_size = 42;
    h.ramdisk_size = 43;
    h.reserved = filled(16, 9);
    h.boot_arguments = filled(1536, 5);
    let bytes = h.serialize();
    assert_eq!(bytes.len(), 1580);
    let back = AospHeader3::parse(&bytes);
    assert_eq!(back, h);
    // the reserved block round-trips unchanged
    assert_eq!(back.reserved, filled(16, 9));
    assert_eq!(back.header_version, 3);
}

#[test]
fn aosp_magic_checks() {
    assert!(AospHeader0::default().has_correct_magic());
    assert!(AospHeader1::default().has_correct_magic());
    assert!(AospHeader2::default().has_correct_magic());
    assert!(AospHeader3::default().has_correct_magic());
    let mut h = AospHeader3::default();
    h.magic = vec![0u8; 8];
    assert!(!h.has_correct_magic());
}

#[test]
fn aosp1_field_layout_after_shared_prefix() {
    let mut h = AospHeader1::default();
    h.recovery_dtbo_size = 0x01020304;
    let bytes = h.serialize();
    // shared prefix ends at 1632; recovery_dtbo_size comes first after it
    assert_eq!(&bytes[1632..1636], &[0x04, 0x03, 0x02, 0x01]);
    // header_size, little-endian 1648, at offset 1644
    assert_eq!(&bytes[1644..1648], &[0x70, 0x06, 0x00, 0x00]);
}

#[test]
fn aosp3_field_layout() {
    let mut h = AospHeader3::default();
    h.kernel_size = 0x0A0B0C0D;
    let bytes = h.serialize();
    assert_eq!(&bytes[0..8], b"ANDROID!");
    assert_eq!(&bytes[8..12], &[0x0D, 0x0C, 0x0B, 0x0A]);
    // header_version = 3 at offset 40
    assert_eq!(&bytes[40..44], &[3, 0, 0, 0]);
    // header_size = 1580 at offset 20
    assert_eq!(&bytes[20..24], &[0x2C, 0x06, 0x00, 0x00]);
}
