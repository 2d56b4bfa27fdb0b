//! The boot-image codec: decoding a whole container from bytes and
//! serializing it back with page padding.
//!
//! Reading identifies the format from the magic bytes, parses the matching
//! header, computes every section's offset with the layout calculator and
//! copies exactly the declared bytes of each present section into newly
//! owned storage; inter-section padding is skipped without validating its
//! content, and any failure aborts the whole read.  Writing emits the header
//! record and then each present section in fixed order, each followed by
//! zero padding up to the next page boundary.

use crate::bytes::copy_range;
use crate::bytes::push_bytes;
use crate::bytes::push_zeros;
use crate::bytes::zero_bytes;
use crate::errors::BadHeaderError;
use crate::errors::LayoutError;
use crate::errors::ReadBootImageError;
use crate::header_kind::HeaderKind;
use crate::header_kind::HeaderKindView;
use crate::layout::padded_length;
use crate::layout::spec_padded_len;
use crate::layout::spec_section_offset;
use crate::layout::spec_total_length;
use crate::layout::Section;
use crate::magic::spec_android_magic;
use crate::magic::validate_magic;
use crate::magic::MAGIC_SIZE;
use crate::samsung_header::spec_parse;
use crate::samsung_header::SamsungHeader;
use crate::samsung_header::SAMSUNG_HEADER_SIZE;
use vstd::prelude::*;

verus! {

/// The mathematical image of a decoded boot image: the header and the bytes
/// of each section (empty when the section is absent).
#[verifier::ext_equal]
pub ghost struct BootImageView {
    /// The parsed header.
    pub header: HeaderKindView,
    /// Kernel bytes.
    pub kernel: Seq<u8>,
    /// Ramdisk bytes.
    pub ramdisk: Seq<u8>,
    /// Second-stage loader bytes; empty when absent.
    pub second: Seq<u8>,
    /// Device-tree bytes; empty when absent.
    pub device_tree: Seq<u8>,
}

impl BootImageView {
    /// The header is well formed and every section holds exactly as many
    /// bytes as the header declares for it.
    pub open spec fn wf(self) -> bool {
        &&& self.header.wf()
        &&& self.kernel.len() == self.header.kernel_size()
        &&& self.ramdisk.len() == self.header.ramdisk_size()
        &&& self.second.len() == self.header.second_size()
        &&& self.device_tree.len() == self.header.device_tree_size()
    }
}

/// A decoded boot-image container: one header plus the owned bytes of its
/// sections.  An absent optional section is an empty vector.
#[derive(Clone, Debug, PartialEq)]
pub struct BootImage {
    /// The header record.
    pub header: HeaderKind,
    /// Kernel bytes.
    pub kernel: Vec<u8>,
    /// Ramdisk bytes.
    pub ramdisk: Vec<u8>,
    /// Second-stage loader bytes; empty when absent.
    pub second: Vec<u8>,
    /// Device-tree bytes; empty when absent.
    pub device_tree: Vec<u8>,
}

impl View for BootImage {
    type V = BootImageView;

    open spec fn view(&self) -> BootImageView {
        BootImageView {
            header: self.header@,
            kernel: self.kernel@,
            ramdisk: self.ramdisk@,
            second: self.second@,
            device_tree: self.device_tree@,
        }
    }
}

impl BootImage {
    /// The header is well formed and every section holds exactly as many
    /// bytes as the header declares.
    pub open spec fn wf(self) -> bool {
        self@.wf()
    }

    /// Checks at run time that every section holds exactly as many bytes as
    /// the header declares for it.
    pub fn is_consistent(&self) -> (r: bool)
        requires
            self@.header.wf(),
        ensures
            r == self@.wf(),
    {
        self.kernel.len() == self.header.kernel_size() as usize && self.ramdisk.len()
            == self.header.ramdisk_size() as usize && self.second.len()
            == self.header.second_size() as usize && self.device_tree.len()
            == self.header.device_tree_size() as usize
    }
}

/// `bytes` followed by zero padding up to the next multiple of `page`.
pub open spec fn spec_padded_section(bytes: Seq<u8>, page: int) -> Seq<u8>
    recommends
        page > 0,
{
    bytes + zero_bytes(spec_padded_len(bytes.len() as int, page) - bytes.len())
}

/// The exact byte encoding of a whole image: the header record and then
/// each section in fixed order, each padded to the page size.  An absent
/// section contributes no bytes, not even padding.
pub open spec fn spec_write(v: BootImageView) -> Seq<u8>
    recommends
        v.header.page_size() > 0,
{
    let page = v.header.page_size() as int;
    spec_padded_section(v.header.encode(), page) + spec_padded_section(v.kernel, page)
        + spec_padded_section(v.ramdisk, page) + spec_padded_section(v.second, page)
        + spec_padded_section(v.device_tree, page)
}

/// Serializes a whole image into a buffer: header record, then each present
/// section page-padded with zeros, in fixed order.  Fails with
/// `InvalidPageSize` when the header declares a zero page size and with
/// `SizeOverflow` when the total laid-out size does not fit in 32 bits.
#[verifier::rlimit(60)]
pub fn write(image: &BootImage) -> (r: Result<Vec<u8>, LayoutError>)
    requires
        image@.wf(),
    ensures
        match r {
            Ok(bytes) => image@.header.page_size() > 0 && spec_total_length(image@.header)
                <= u32::MAX && bytes@ == spec_write(image@) && bytes@.len() == spec_total_length(
                image@.header,
            ),
            Err(LayoutError::InvalidPageSize) => image@.header.page_size() == 0,
            Err(LayoutError::SizeOverflow) => image@.header.page_size() > 0 && spec_total_length(
                image@.header,
            ) > u32::MAX,
        },
{
    let page = image.header.page_size();
    if page == 0 {
        return Err(LayoutError::InvalidPageSize);
    }
    proof {
        crate::layout::lemma_padded_len_properties(image@.header.header_length(), page as int);
        crate::layout::lemma_padded_len_properties(image@.header.kernel_size() as int, page as int);
        crate::layout::lemma_padded_len_properties(
            image@.header.ramdisk_size() as int,
            page as int,
        );
        crate::layout::lemma_padded_len_properties(image@.header.second_size() as int, page as int);
        crate::layout::lemma_padded_len_properties(
            image@.header.device_tree_size() as int,
            page as int,
        );
    }
    let header_len = image.header.header_length();
    let header_padded = match padded_length(header_len as u32, page) {
        Ok(v) => v,
        Err(e) => {
            return Err(e);
        },
    };
    let kernel_padded = match padded_length(image.header.kernel_size(), page) {
        Ok(v) => v,
        Err(e) => {
            return Err(e);
        },
    };
    let ramdisk_padded = match padded_length(image.header.ramdisk_size(), page) {
        Ok(v) => v,
        Err(e) => {
            return Err(e);
        },
    };
    let second_padded = match padded_length(image.header.second_size(), page) {
        Ok(v) => v,
        Err(e) => {
            return Err(e);
        },
    };
    let device_tree_padded = match padded_length(image.header.device_tree_size(), page) {
        Ok(v) => v,
        Err(e) => {
            return Err(e);
        },
    };
    if header_padded > u32::MAX - kernel_padded {
        return Err(LayoutError::SizeOverflow);
    }
    let after_kernel = header_padded + kernel_padded;
    if after_kernel > u32::MAX - ramdisk_padded {
        return Err(LayoutError::SizeOverflow);
    }
    let after_ramdisk = after_kernel + ramdisk_padded;
    if after_ramdisk > u32::MAX - second_padded {
        return Err(LayoutError::SizeOverflow);
    }
    let after_second = after_ramdisk + second_padded;
    if after_second > u32::MAX - device_tree_padded {
        return Err(LayoutError::SizeOverflow);
    }
    let total = after_second + device_tree_padded;
    proof {
        crate::header_kind::lemma_kind_encode_len(image@.header);
    }
    let header_bytes = image.header.serialize();
    let mut out: Vec<u8> = Vec::new();
    push_bytes(&mut out, header_bytes.as_slice());
    push_zeros(&mut out, (header_padded as usize) - header_len);
    push_bytes(&mut out, image.kernel.as_slice());
    push_zeros(&mut out, (kernel_padded - image.header.kernel_size()) as usize);
    push_bytes(&mut out, image.ramdisk.as_slice());
    push_zeros(&mut out, (ramdisk_padded - image.header.ramdisk_size()) as usize);
    push_bytes(&mut out, image.second.as_slice());
    push_zeros(&mut out, (second_padded - image.header.second_size()) as usize);
    push_bytes(&mut out, image.device_tree.as_slice());
    push_zeros(&mut out, (device_tree_padded - image.header.device_tree_size()) as usize);
    proof {
        assert(out@ =~= spec_write(image@));
        assert(total == spec_total_length(image@.header));
    }
    Ok(out)
}

/// What decoding a buffer yields: the decoded image, or the first failure
/// in order — a buffer too short for the magic, an unrecognized magic, a
/// buffer too short for the identified header, a zero page size, a section
/// offset overflowing 32 bits, or a declared section whose bytes are not
/// fully present.
pub open spec fn spec_read(b: Seq<u8>) -> Result<BootImageView, ReadBootImageError> {
    if b.len() < MAGIC_SIZE {
        Err(ReadBootImageError::TruncatedInput)
    } else if b.subrange(0, MAGIC_SIZE as int) != spec_android_magic() {
        Err(ReadBootImageError::BadHeader(BadHeaderError::UnrecognizedMagic))
    } else if b.len() < SAMSUNG_HEADER_SIZE {
        Err(ReadBootImageError::TruncatedInput)
    } else {
        let h = spec_parse(b);
        let hv = HeaderKindView::Samsung(h);
        if h.page_size == 0 {
            Err(ReadBootImageError::Layout(LayoutError::InvalidPageSize))
        } else if spec_section_offset(Section::DeviceTree, hv) > u32::MAX {
            Err(ReadBootImageError::Layout(LayoutError::SizeOverflow))
        } else if (h.kernel_size > 0 && spec_section_offset(Section::Kernel, hv) + h.kernel_size
            > b.len()) || (h.ramdisk_size > 0 && spec_section_offset(Section::Ramdisk, hv)
            + h.ramdisk_size > b.len()) || (h.second_size > 0 && spec_section_offset(
            Section::Second,
            hv,
        ) + h.second_size > b.len()) || (h.device_tree_size > 0 && spec_section_offset(
            Section::DeviceTree,
            hv,
        ) + h.device_tree_size > b.len()) {
            Err(ReadBootImageError::TruncatedInput)
        } else {
            Ok(
                BootImageView {
                    header: hv,
                    kernel: if h.kernel_size == 0 {
                        Seq::empty()
                    } else {
                        b.subrange(
                            spec_section_offset(Section::Kernel, hv),
                            spec_section_offset(Section::Kernel, hv) + h.kernel_size,
                        )
                    },
                    ramdisk: if h.ramdisk_size == 0 {
                        Seq::empty()
                    } else {
                        b.subrange(
                            spec_section_offset(Section::Ramdisk, hv),
                            spec_section_offset(Section::Ramdisk, hv) + h.ramdisk_size,
                        )
                    },
                    second: if h.second_size == 0 {
                        Seq::empty()
                    } else {
                        b.subrange(
                            spec_section_offset(Section::Second, hv),
                            spec_section_offset(Section::Second, hv) + h.second_size,
                        )
                    },
                    device_tree: if h.device_tree_size == 0 {
                        Seq::empty()
                    } else {
                        b.subrange(
                            spec_section_offset(Section::DeviceTree, hv),
                            spec_section_offset(Section::DeviceTree, hv) + h.device_tree_size,
                        )
                    },
                },
            )
        }
    }
}

/// Decodes a whole boot image from a buffer.  The magic bytes identify the
/// format, the matching header is parsed, and each declared section's bytes
/// are copied into newly owned storage at their page-aligned offsets.  Any
/// failure aborts the whole read; no partial image is returned.
pub fn read(buffer: &[u8]) -> (r: Result<BootImage, ReadBootImageError>)
    ensures
        match r {
            Ok(img) => spec_read(buffer@) == Ok::<BootImageView, ReadBootImageError>(img@)
                && img@.wf(),
            Err(e) => spec_read(buffer@) == Err::<BootImageView, ReadBootImageError>(e),
        },
{
    let buffer_len = buffer.len();
    if buffer_len < MAGIC_SIZE {
        return Err(ReadBootImageError::TruncatedInput);
    }
    match validate_magic(buffer) {
        Ok(_) => (),
        Err(e) => {
            return Err(ReadBootImageError::BadHeader(e));
        },
    }
    if buffer_len < SAMSUNG_HEADER_SIZE {
        return Err(ReadBootImageError::TruncatedInput);
    }
    let header = SamsungHeader::parse(buffer);
    let kind = HeaderKind::Samsung(header);
    let page = kind.page_size();
    if page == 0 {
        return Err(ReadBootImageError::Layout(LayoutError::InvalidPageSize));
    }
    proof {
        crate::layout::lemma_padded_len_properties(kind@.header_length(), page as int);
        crate::layout::lemma_padded_len_properties(kind@.kernel_size() as int, page as int);
        crate::layout::lemma_padded_len_properties(kind@.ramdisk_size() as int, page as int);
        crate::layout::lemma_padded_len_properties(kind@.second_size() as int, page as int);
    }
    let header_padded = match padded_length(SAMSUNG_HEADER_SIZE as u32, page) {
        Ok(v) => v,
        Err(e) => {
            return Err(ReadBootImageError::Layout(e));
        },
    };
    let kernel_padded = match padded_length(kind.kernel_size(), page) {
        Ok(v) => v,
        Err(e) => {
            return Err(ReadBootImageError::Layout(e));
        },
    };
    let ramdisk_padded = match padded_length(kind.ramdisk_size(), page) {
        Ok(v) => v,
        Err(e) => {
            return Err(ReadBootImageError::Layout(e));
        },
    };
    let second_padded = match padded_length(kind.second_size(), page) {
        Ok(v) => v,
        Err(e) => {
            return Err(ReadBootImageError::Layout(e));
        },
    };
    if header_padded > u32::MAX - kernel_padded {
        return Err(ReadBootImageError::Layout(LayoutError::SizeOverflow));
    }
    let ramdisk_offset = header_padded + kernel_padded;
    if ramdisk_offset > u32::MAX - ramdisk_padded {
        return Err(ReadBootImageError::Layout(LayoutError::SizeOverflow));
    }
    let second_offset = ramdisk_offset + ramdisk_padded;
    if second_offset > u32::MAX - second_padded {
        return Err(ReadBootImageError::Layout(LayoutError::SizeOverflow));
    }
    let device_tree_offset = second_offset + second_padded;
    let kernel_offset = header_padded;
    let kernel_size = kind.kernel_size();
    let ramdisk_size = kind.ramdisk_size();
    let second_size = kind.second_size();
    let device_tree_size = kind.device_tree_size();
    if kernel_size > 0 && (kernel_offset as u64) + (kernel_size as u64) > (buffer_len as u64) {
        return Err(ReadBootImageError::TruncatedInput);
    }
    if ramdisk_size > 0 && (ramdisk_offset as u64) + (ramdisk_size as u64) > (buffer_len as u64) {
        return Err(ReadBootImageError::TruncatedInput);
    }
    if second_size > 0 && (second_offset as u64) + (second_size as u64) > (buffer_len as u64) {
        return Err(ReadBootImageError::TruncatedInput);
    }
    if device_tree_size > 0 && (device_tree_offset as u64) + (device_tree_size as u64) > (
    buffer_len as u64) {
        return Err(ReadBootImageError::TruncatedInput);
    }
    let kernel = if kernel_size == 0 {
        Vec::new()
    } else {
        copy_range(buffer, kernel_offset as usize, kernel_size as usize)
    };
    let ramdisk = if ramdisk_size == 0 {
        Vec::new()
    } else {
        copy_range(buffer, ramdisk_offset as usize, ramdisk_size as usize)
    };
    let second = if second_size == 0 {
        Vec::new()
    } else {
        copy_range(buffer, second_offset as usize, second_size as usize)
    };
    let device_tree = if device_tree_size == 0 {
        Vec::new()
    } else {
        copy_range(buffer, device_tree_offset as usize, device_tree_size as usize)
    };
    Ok(BootImage { header: kind, kernel, ramdisk, second, device_tree })
}


/// Codec round-trip law: decoding a serialized image yields a boot image
/// equal to the original in header fields and section contents; padding
/// bytes are not part of the observable value.  Every supported format
/// shares the magic constant and decoding identifies the format from the
/// magic alone, with Samsung first in precedence, so the law is stated for
/// images whose header is the Samsung variant and carries the correct
/// magic.
pub proof fn lemma_write_read_roundtrip(v: BootImageView)
    requires
        v.wf(),
        v.header is Samsung,
        v.header.magic() == spec_android_magic(),
        v.header.page_size() > 0,
        spec_total_length(v.header) <= u32::MAX,
    ensures
        spec_read(spec_write(v)) == Ok::<BootImageView, ReadBootImageError>(v),
{
    let page = v.header.page_size() as int;
    let e = v.header.encode();
    let h = v.header->Samsung_0;
    crate::header_kind::lemma_kind_encode_len(v.header);
    crate::samsung_header::lemma_parse_encode(h);
    crate::layout::lemma_padded_len_properties(SAMSUNG_HEADER_SIZE as int, page);
    crate::layout::lemma_padded_len_properties(h.kernel_size as int, page);
    crate::layout::lemma_padded_len_properties(h.ramdisk_size as int, page);
    crate::layout::lemma_padded_len_properties(h.second_size as int, page);
    crate::layout::lemma_padded_len_properties(h.device_tree_size as int, page);
    let header_padded = spec_padded_len(SAMSUNG_HEADER_SIZE as int, page);
    let kernel_padded = spec_padded_len(h.kernel_size as int, page);
    let ramdisk_padded = spec_padded_len(h.ramdisk_size as int, page);
    let second_padded = spec_padded_len(h.second_size as int, page);
    let device_tree_padded = spec_padded_len(h.device_tree_size as int, page);
    let part_header = spec_padded_section(e, page);
    let part_kernel = spec_padded_section(v.kernel, page);
    let part_ramdisk = spec_padded_section(v.ramdisk, page);
    let part_second = spec_padded_section(v.second, page);
    let part_device_tree = spec_padded_section(v.device_tree, page);
    let b = spec_write(v);
    assert(part_header.len() == header_padded);
    assert(part_kernel.len() == kernel_padded);
    assert(part_ramdisk.len() == ramdisk_padded);
    assert(part_second.len() == second_padded);
    assert(part_device_tree.len() == device_tree_padded);
    assert(b.len() == header_padded + kernel_padded + ramdisk_padded + second_padded
        + device_tree_padded);
    assert(b.len() == spec_total_length(v.header));
    // The magic survives at the front of the serialized image.
    assert(b.subrange(0, MAGIC_SIZE as int) =~= spec_android_magic()) by {
        assert(forall|i: int| 0 <= i < MAGIC_SIZE ==> b[i] == e[i]);
        assert(forall|i: int| 0 <= i < MAGIC_SIZE ==> e[i] == h.magic[i]);
    }
    // The parsed header is the one that was written.
    assert(b.subrange(0, SAMSUNG_HEADER_SIZE as int) =~= e.subrange(
        0,
        SAMSUNG_HEADER_SIZE as int,
    )) by {
        assert(forall|i: int| 0 <= i < SAMSUNG_HEADER_SIZE ==> b[i] == e[i]);
    }
    crate::samsung_header::lemma_parse_prefix(b, e);
    let hv = HeaderKindView::Samsung(spec_parse(b));
    assert(hv == v.header);
    // Section offsets inside the serialized image.
    let kernel_offset = spec_section_offset(Section::Kernel, hv);
    let ramdisk_offset = spec_section_offset(Section::Ramdisk, hv);
    let second_offset = spec_section_offset(Section::Second, hv);
    let device_tree_offset = spec_section_offset(Section::DeviceTree, hv);
    assert(kernel_offset == header_padded);
    assert(ramdisk_offset == header_padded + kernel_padded);
    assert(second_offset == header_padded + kernel_padded + ramdisk_padded);
    assert(device_tree_offset == header_padded + kernel_padded + ramdisk_padded + second_padded);
    // Every declared section lies fully inside the serialized image.
    assert(kernel_offset + h.kernel_size <= b.len());
    assert(ramdisk_offset + h.ramdisk_size <= b.len());
    assert(second_offset + h.second_size <= b.len());
    assert(device_tree_offset + h.device_tree_size <= b.len());
    // Each section's bytes read back unchanged.
    if h.kernel_size > 0 {
        assert(b.subrange(kernel_offset, kernel_offset + h.kernel_size) =~= v.kernel) by {
            assert(forall|i: int|
                0 <= i < h.kernel_size ==> b[kernel_offset + i] == v.kernel[i]);
        }
    }
    if h.ramdisk_size > 0 {
        assert(b.subrange(ramdisk_offset, ramdisk_offset + h.ramdisk_size) =~= v.ramdisk) by {
            assert(forall|i: int|
                0 <= i < h.ramdisk_size ==> b[ramdisk_offset + i] == v.ramdisk[i]);
        }
    }
    if h.second_size > 0 {
        assert(b.subrange(second_offset, second_offset + h.second_size) =~= v.second) by {
            assert(forall|i: int|
                0 <= i < h.second_size ==> b[second_offset + i] == v.second[i]);
        }
    }
    if h.device_tree_size > 0 {
        assert(b.subrange(device_tree_offset, device_tree_offset + h.device_tree_size)
            =~= v.device_tree) by {
            assert(forall|i: int|
                0 <= i < h.device_tree_size ==> b[device_tree_offset + i] == v.device_tree[i]);
        }
    }
    if h.kernel_size == 0 {
        assert(v.kernel =~= Seq::<u8>::empty());
    }
    if h.ramdisk_size == 0 {
        assert(v.ramdisk =~= Seq::<u8>::empty());
    }
    if h.second_size == 0 {
        assert(v.second =~= Seq::<u8>::empty());
    }
    if h.device_tree_size == 0 {
        assert(v.device_tree =~= Seq::<u8>::empty());
    }
    assert(spec_read(b) is Ok);
    assert(spec_read(b)->Ok_0 =~= v);
}

} // verus!
