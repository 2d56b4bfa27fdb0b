//! The layout calculator: page-aligned offsets and padded lengths of every
//! logical section of a serialized boot image.
//!
//! Sections follow the header in fixed order — kernel, ramdisk, second-stage
//! loader, device tree — each padded up to the next multiple of the header's
//! declared page size.  All arithmetic is unsigned 32-bit and checked: an
//! offset or padded length that does not fit is reported as an overflow, and
//! a zero page size is rejected before any division or modulus is performed.

use crate::errors::LayoutError;
use crate::errors::LocateSectionError;
use crate::header_kind::HeaderKind;
use crate::header_kind::HeaderKindView;
use vstd::arithmetic::div_mod::lemma_fundamental_div_mod;
use vstd::arithmetic::div_mod::lemma_mod_bound;
use vstd::arithmetic::div_mod::lemma_mod_multiples_basic;
use vstd::arithmetic::mul::lemma_mul_is_distributive_add;
use vstd::prelude::*;

verus! {

/// One logical, contiguous region of a serialized boot image.
#[derive(Clone, Copy, Debug, PartialEq, Eq, Structural)]
pub enum Section {
    /// The header record itself.
    Header,
    /// The kernel blob.
    Kernel,
    /// The ramdisk blob.
    Ramdisk,
    /// The optional second-stage loader blob.
    Second,
    /// The optional device-tree blob.
    DeviceTree,
}

/// The diagnostic name of a section.
pub open spec fn spec_section_name(section: Section) -> Seq<char> {
    match section {
        Section::Header => "header"@,
        Section::Kernel => "kernel"@,
        Section::Ramdisk => "ramdisk"@,
        Section::Second => "second"@,
        Section::DeviceTree => "device tree"@,
    }
}

impl Section {
    /// The section's diagnostic name.
    pub fn name(&self) -> (r: &'static str)
        ensures
            r@ == spec_section_name(*self),
    {
        match self {
            Section::Header => "header",
            Section::Kernel => "kernel",
            Section::Ramdisk => "ramdisk",
            Section::Second => "second",
            Section::DeviceTree => "device tree",
        }
    }
}

/// `size` rounded up to the next multiple of `page`; a size of zero stays
/// zero.
pub open spec fn spec_padded_len(size: int, page: int) -> int
    recommends
        page > 0,
{
    if size % page == 0 {
        size
    } else {
        size + (page - size % page)
    }
}

/// Padding laws: the padded length is a multiple of the page size, is never
/// smaller than the size, gains less than one full page, and an absent
/// (zero-sized) section contributes no bytes at all.
pub proof fn lemma_padded_len_properties(size: int, page: int)
    requires
        page > 0,
        size >= 0,
    ensures
        spec_padded_len(size, page) % page == 0,
        spec_padded_len(size, page) >= size,
        spec_padded_len(size, page) < size + page,
        spec_padded_len(0, page) == 0,
{
    lemma_mod_bound(size, page);
    let r = size % page;
    if r != 0 {
        lemma_fundamental_div_mod(size, page);
        let q = size / page;
        lemma_mul_is_distributive_add(page, q, 1);
        assert(size + (page - r) == (q + 1) * page) by {
            assert(size == page * q + r);
            assert(page * (q + 1) == page * q + page * 1);
        }
        lemma_mod_multiples_basic(q + 1, page);
    }
}

/// Rounds `size` up to the next multiple of `page_size`.  Fails with
/// `InvalidPageSize` when the page size is zero and with `SizeOverflow`
/// when the padded length does not fit in 32 bits.
pub fn padded_length(size: u32, page_size: u32) -> (r: Result<u32, LayoutError>)
    ensures
        match r {
            Ok(p) => page_size > 0 && p == spec_padded_len(size as int, page_size as int),
            Err(LayoutError::InvalidPageSize) => page_size == 0,
            Err(LayoutError::SizeOverflow) => page_size > 0 && spec_padded_len(
                size as int,
                page_size as int,
            ) > u32::MAX,
        },
{
    if page_size == 0 {
        return Err(LayoutError::InvalidPageSize);
    }
    let rem = size % page_size;
    if rem == 0 {
        Ok(size)
    } else {
        let pad = page_size - rem;
        if size > u32::MAX - pad {
            Err(LayoutError::SizeOverflow)
        } else {
            Ok(size + pad)
        }
    }
}

/// The byte offset of `section` inside a serialized image with header `h`:
/// the page-padded header record followed by the preceding sections' padded
/// lengths, in fixed order kernel, ramdisk, second, device tree.
pub open spec fn spec_section_offset(section: Section, h: HeaderKindView) -> int
    recommends
        h.page_size() > 0,
{
    let page = h.page_size() as int;
    let header_padded = spec_padded_len(h.header_length(), page);
    let kernel_padded = spec_padded_len(h.kernel_size() as int, page);
    let ramdisk_padded = spec_padded_len(h.ramdisk_size() as int, page);
    let second_padded = spec_padded_len(h.second_size() as int, page);
    match section {
        Section::Header => 0,
        Section::Kernel => header_padded,
        Section::Ramdisk => header_padded + kernel_padded,
        Section::Second => header_padded + kernel_padded + ramdisk_padded,
        Section::DeviceTree => header_padded + kernel_padded + ramdisk_padded + second_padded,
    }
}

/// The total length of a serialized image with header `h`: the device-tree
/// offset plus the padded device-tree length.
pub open spec fn spec_total_length(h: HeaderKindView) -> int
    recommends
        h.page_size() > 0,
{
    spec_section_offset(Section::DeviceTree, h) + spec_padded_len(
        h.device_tree_size() as int,
        h.page_size() as int,
    )
}

/// The declared length of `section` under header `h`, in bytes.
pub open spec fn spec_section_length(section: Section, h: HeaderKindView) -> int {
    match section {
        Section::Header => h.header_length(),
        Section::Kernel => h.kernel_size() as int,
        Section::Ramdisk => h.ramdisk_size() as int,
        Section::Second => h.second_size() as int,
        Section::DeviceTree => h.device_tree_size() as int,
    }
}

/// Computes the byte offset of `section` inside an image laid out for
/// `header`.  Fails with `InvalidPageSize` when the declared page size is
/// zero and with `SizeOverflow` when the offset does not fit in 32 bits.
pub fn section_offset(section: Section, header: &HeaderKind) -> (r: Result<u32, LayoutError>)
    ensures
        match r {
            Ok(o) => header@.page_size() > 0 && o == spec_section_offset(section, header@),
            Err(LayoutError::InvalidPageSize) => header@.page_size() == 0,
            Err(LayoutError::SizeOverflow) => header@.page_size() > 0 && spec_section_offset(
                section,
                header@,
            ) > u32::MAX,
        },
{
    let page = header.page_size();
    if page == 0 {
        return Err(LayoutError::InvalidPageSize);
    }
    proof {
        lemma_padded_len_properties(header@.header_length(), page as int);
        lemma_padded_len_properties(header@.kernel_size() as int, page as int);
        lemma_padded_len_properties(header@.ramdisk_size() as int, page as int);
        lemma_padded_len_properties(header@.second_size() as int, page as int);
    }
    if matches!(section, Section::Header) {
        return Ok(0);
    }
    let header_len = header.header_length();
    let header_padded = match padded_length(header_len as u32, page) {
        Ok(v) => v,
        Err(e) => {
            return Err(e);
        },
    };
    if matches!(section, Section::Kernel) {
        return Ok(header_padded);
    }
    let kernel_padded = match padded_length(header.kernel_size(), page) {
        Ok(v) => v,
        Err(e) => {
            return Err(e);
        },
    };
    if header_padded > u32::MAX - kernel_padded {
        return Err(LayoutError::SizeOverflow);
    }
    let after_kernel = header_padded + kernel_padded;
    if matches!(section, Section::Ramdisk) {
        return Ok(after_kernel);
    }
    let ramdisk_padded = match padded_length(header.ramdisk_size(), page) {
        Ok(v) => v,
        Err(e) => {
            return Err(e);
        },
    };
    if after_kernel > u32::MAX - ramdisk_padded {
        return Err(LayoutError::SizeOverflow);
    }
    let after_ramdisk = after_kernel + ramdisk_padded;
    if matches!(section, Section::Second) {
        return Ok(after_ramdisk);
    }
    let second_padded = match padded_length(header.second_size(), page) {
        Ok(v) => v,
        Err(e) => {
            return Err(e);
        },
    };
    if after_ramdisk > u32::MAX - second_padded {
        return Err(LayoutError::SizeOverflow);
    }
    Ok(after_ramdisk + second_padded)
}

/// What locating `section` in a buffer of `buffer_len` bytes laid out for
/// header `h` yields: the `(offset, length)` pair, or the first failure in
/// order — zero page size, absent section, layout overflow, range past the
/// buffer's end.
pub open spec fn spec_locate(buffer_len: int, h: HeaderKindView, section: Section) -> Result<
    (u32, u32),
    LocateSectionError,
> {
    if h.page_size() == 0 {
        Err(LocateSectionError::Layout(LayoutError::InvalidPageSize))
    } else if section != Section::Header && spec_section_length(section, h) == 0 {
        Err(LocateSectionError::SectionAbsent)
    } else if spec_section_offset(section, h) > u32::MAX {
        Err(LocateSectionError::Layout(LayoutError::SizeOverflow))
    } else if spec_section_offset(section, h) + spec_section_length(section, h) > buffer_len {
        Err(LocateSectionError::RangeOutOfBounds)
    } else {
        Ok(
            (
                spec_section_offset(section, h) as u32,
                spec_section_length(section, h) as u32,
            ),
        )
    }
}

/// Returns the `(offset, length)` byte range of `section` inside `buffer`
/// without copying any section bytes, for a header already parsed from the
/// buffer.  Fails when the requested section is declared absent, when the
/// layout arithmetic fails, or when the computed range exceeds the buffer.
pub fn locate(buffer: &[u8], header: &HeaderKind, section: Section) -> (r: Result<
    (u32, u32),
    LocateSectionError,
>)
    ensures
        r == spec_locate(buffer@.len() as int, header@, section),
{
    let page = header.page_size();
    if page == 0 {
        return Err(LocateSectionError::Layout(LayoutError::InvalidPageSize));
    }
    let length_u32: u32 = match section {
        Section::Header => {
            let l = header.header_length();
            proof {
                assert(header@.header_length() <= u32::MAX);
            }
            l as u32
        },
        Section::Kernel => header.kernel_size(),
        Section::Ramdisk => header.ramdisk_size(),
        Section::Second => header.second_size(),
        Section::DeviceTree => header.device_tree_size(),
    };
    let is_header = matches!(section, Section::Header);
    if !is_header && length_u32 == 0 {
        return Err(LocateSectionError::SectionAbsent);
    }
    let offset = match section_offset(section, header) {
        Ok(o) => o,
        Err(e) => {
            return Err(LocateSectionError::Layout(e));
        },
    };
    let end: u64 = (offset as u64) + (length_u32 as u64);
    if end > buffer.len() as u64 {
        return Err(LocateSectionError::RangeOutOfBounds);
    }
    Ok((offset, length_u32))
}

} // verus!
