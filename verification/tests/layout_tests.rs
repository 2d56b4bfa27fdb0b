//! Tests of the layout calculator and the section locator.

use bootimg::errors::LayoutError;
use bootimg::errors::LocateSectionError;
use bootimg::header_kind::HeaderKind;
use bootimg::image;
use bootimg::image::BootImage;
use bootimg::layout::locate;
use bootimg::layout::padded_length;
use bootimg::layout::section_offset;
use bootimg::layout::Section;
use bootimg::SamsungHeader;

fn samsung_kind(kernel_size: u32, ramdisk_size: u32) -> HeaderKind {
    let mut h = SamsungHeader::default();
    h.kernel_size = kernel_size;
    h.ramdisk_size = ramdisk_size;
    HeaderKind::Samsung(h)
}

#[test]
fn padded_length_exact_values() {
    assert_eq!(padded_length(5000, 2048), Ok(6144));
    assert_eq!(padded_length(3000, 2048), Ok(4096));
    assert_eq!(padded_length(616, 2048), Ok(2048));
    assert_eq!(padded_length(2048, 2048), Ok(2048));
    assert_eq!(padded_length(1, 2048), Ok(2048));
    assert_eq!(padded_length(0, 2048), Ok(0));
    assert_eq!(padded_length(0, 1), Ok(0));
    assert_eq!(padded_length(17, 1), Ok(17));
}

#[test]
fn padded_length_is_aligned_and_large_enough() {
    for &page in &[1u32, 2, 512, 2048, 4096, 3000] {
        for &size in &[0u32, 1, 511, 512, 513, 5000, 65537] {
            let padded = padded_length(size, page).unwrap();
            assert_eq!(padded % page, 0);
            assert!(padded >= size);
            assert!(padded < size + page);
        }
        assert_eq!(padded_length(0, page), Ok(0));
    }
}

#[test]
fn padded_length_zero_page_size() {
    assert_eq!(padded_length(0, 0), Err(LayoutError::InvalidPageSize));
    assert_eq!(padded_length(5000, 0), Err(LayoutError::InvalidPageSize));
    assert_eq!(
        padded_length(u32::MAX, 0),
        Err(LayoutError::InvalidPageSize)
    );
}

#[test]
fn padded_length_overflow() {
    assert_eq!(padded_length(u32::MAX, 2048), Err(LayoutError::SizeOverflow));
    assert_eq!(
        padded_length(u32::MAX - 1, u32::MAX),
        Ok(u32::MAX)
    );
}

#[test]
fn section_offsets_at_page_2048() {
    let kind = samsung_kind(5000, 3000);
    assert_eq!(section_offset(Section::Header, &kind), Ok(0));
    // the 616-byte header padded to 2048
    assert_eq!(section_offset(Section::Kernel, &kind), Ok(2048));
    // kernel padded: 5000 -> 6144
    assert_eq!(section_offset(Section::Ramdisk, &kind), Ok(2048 + 6144));
    // ramdisk padded: 3000 -> 4096
    assert_eq!(
        section_offset(Section::Second, &kind),
        Ok(2048 + 6144 + 4096)
    );
    // absent second contributes nothing
    assert_eq!(
        section_offset(Section::DeviceTree, &kind),
        Ok(2048 + 6144 + 4096)
    );
}

#[test]
fn section_offset_zero_page_size() {
    let mut h = SamsungHeader::default();
    h.page_size = 0;
    let kind = HeaderKind::Samsung(h);
    assert_eq!(
        section_offset(Section::Kernel, &kind),
        Err(LayoutError::InvalidPageSize)
    );
    assert_eq!(
        section_offset(Section::Header, &kind),
        Err(LayoutError::InvalidPageSize)
    );
}

#[test]
fn section_offset_overflow() {
    let mut h = SamsungHeader::default();
    h.page_size = u32::MAX;
    h.kernel_size = 1;
    let kind = HeaderKind::Samsung(h);
    // header padded to u32::MAX, kernel padded to u32::MAX: their sum
    // does not fit
    assert_eq!(
        section_offset(Section::Ramdisk, &kind),
        Err(LayoutError::SizeOverflow)
    );
    assert_eq!(section_offset(Section::Kernel, &kind), Ok(u32::MAX));
}

#[test]
fn locate_kernel_and_ramdisk() {
    let mut h = SamsungHeader::default();
    h.kernel_size = 5000;
    h.ramdisk_size = 3000;
    let img = BootImage {
        header: HeaderKind::Samsung(h),
        kernel: vec![7u8; 5000],
        ramdisk: vec![9u8; 3000],
        second: Vec::new(),
        device_tree: Vec::new(),
    };
    let bytes = image::write(&img).unwrap();
    let kind = &img.header;
    assert_eq!(locate(&bytes, kind, Section::Header), Ok((0, 616)));
    assert_eq!(locate(&bytes, kind, Section::Kernel), Ok((2048, 5000)));
    assert_eq!(locate(&bytes, kind, Section::Ramdisk), Ok((8192, 3000)));
}

#[test]
fn locate_absent_second_section() {
    let kind = samsung_kind(5000, 3000);
    let buffer = vec![0u8; 1 << 16];
    assert_eq!(
        locate(&buffer, &kind, Section::Second),
        Err(LocateSectionError::SectionAbsent)
    );
    assert_eq!(
        locate(&buffer, &kind, Section::DeviceTree),
        Err(LocateSectionError::SectionAbsent)
    );
}

#[test]
fn locate_range_out_of_bounds() {
    let kind = samsung_kind(5000, 3000);
    // kernel ends at 2048 + 5000 = 7048; one byte short
    let buffer = vec![0u8; 7047];
    assert_eq!(
        locate(&buffer, &kind, Section::Kernel),
        Err(LocateSectionError::RangeOutOfBounds)
    );
    let buffer = vec![0u8; 7048];
    assert_eq!(locate(&buffer, &kind, Section::Kernel), Ok((2048, 5000)));
}

#[test]
fn locate_zero_page_size() {
    let mut h = SamsungHeader::default();
    h.page_size = 0;
    h.second_size = 0;
    let kind = HeaderKind::Samsung(h);
    let buffer = vec![0u8; 4096];
    // the zero page size is reported even where the section is absent
    assert_eq!(
        locate(&buffer, &kind, Section::Second),
        Err(LocateSectionError::Layout(LayoutError::InvalidPageSize))
    );
}

#[test]
fn locate_layout_overflow() {
    let mut h = SamsungHeader::default();
    h.page_size = u32::MAX;
    h.kernel_size = 1;
    h.ramdisk_size = 1;
    let kind = HeaderKind::Samsung(h);
    let buffer = vec![0u8; 4096];
    assert_eq!(
        locate(&buffer, &kind, Section::Ramdisk),
        Err(LocateSectionError::Layout(LayoutError::SizeOverflow))
    );
}

#[test]
fn aosp3_layout_uses_fixed_page_size() {
    let h = bootimg::aosp_header::AospHeader3::default();
    let kind = HeaderKind::Aosp3(h);
    assert_eq!(kind.page_size(), 4096);
    assert_eq!(kind.second_size(), 0);
    assert_eq!(kind.device_tree_size(), 0);
    // the 1580-byte record padded to 4096
    assert_eq!(section_offset(Section::Kernel, &kind), Ok(4096));
}

#[test]
fn device_tree_slot_per_variant() {
    let mut h1 = bootimg::aosp_header::AospHeader1::default();
    h1.recovery_dtbo_size = 77;
    assert_eq!(HeaderKind::Aosp1(h1).device_tree_size(), 77);
    let mut h2 = bootimg::aosp_header::AospHeader2::default();
    h2.dtb_size = 88;
    assert_eq!(HeaderKind::Aosp2(h2).device_tree_size(), 88);
    let h0 = bootimg::aosp_header::AospHeader0::default();
    assert_eq!(HeaderKind::Aosp0(h0).device_tree_size(), 0);
}

#[test]
fn section_names() {
    assert_eq!(Section::Header.name(), "header");
    assert_eq!(Section::Kernel.name(), "kernel");
    assert_eq!(Section::Ramdisk.name(), "ramdisk");
    assert_eq!(Section::Second.name(), "second");
    assert_eq!(Section::DeviceTree.name(), "device tree");
}
