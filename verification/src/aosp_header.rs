//! The AOSP boot-image headers, generations 0 through 3.
//!
//! Generations 0, 1 and 2 share a common little-endian prefix: magic
//! (8 bytes), eight 32-bit words (kernel size and load address, ramdisk size
//! and load address, second-stage size and load address, kernel tags address,
//! page size), the header version, the OS version/patch level, product name
//! (16 bytes), boot arguments (512 bytes), unique identifier (32 bytes) and
//! extra boot arguments (1024 bytes) — 1632 bytes in all.  Generation 1
//! appends the recovery DTBO size, its 64-bit image offset and the header's
//! own size (1648 bytes); generation 2 further appends the DTB size and its
//! 64-bit load address (1660 bytes).  Generation 3 is a redesign: magic,
//! kernel size, ramdisk size, OS version, header size, a 16-byte reserved
//! block, the header version and a 1536-byte boot-argument block (1580
//! bytes), with the page size fixed at 4096.

use crate::bytes::copy_range;
use crate::bytes::push_bytes;
use crate::bytes::push_u32_le;
use crate::bytes::push_u64_le;
use crate::bytes::read_u32_at;
use crate::bytes::read_u64_at;
use crate::bytes::zero_bytes;
use crate::bytes::zero_vec;
use crate::magic::android_magic;
use crate::magic::spec_android_magic;
use vstd::bytes::lemma_auto_spec_u32_to_from_le_bytes;
use vstd::bytes::lemma_auto_spec_u64_to_from_le_bytes;
use vstd::bytes::spec_u32_from_le_bytes;
use vstd::bytes::spec_u32_to_le_bytes;
use vstd::bytes::spec_u64_from_le_bytes;
use vstd::bytes::spec_u64_to_le_bytes;
use vstd::prelude::*;

verus! {

/// On-wire size of a generation-0 header.
pub const AOSP0_HEADER_SIZE: usize = 1632;

/// On-wire size of a generation-1 header.
pub const AOSP1_HEADER_SIZE: usize = 1648;

/// On-wire size of a generation-2 header.
pub const AOSP2_HEADER_SIZE: usize = 1660;

/// On-wire size of a generation-3 header.
pub const AOSP3_HEADER_SIZE: usize = 1580;

/// The page size every generation-3 image uses; the record itself carries
/// no page-size field.
pub const AOSP3_PAGE_SIZE: u32 = 4096;

/// The mathematical image of a generation-0 header.
#[verifier::ext_equal]
pub ghost struct AospHeader0View {
    /// Header magic bytes.
    pub magic: Seq<u8>,
    /// Kernel size, in bytes.
    pub kernel_size: u32,
    /// Address the kernel is loaded to.
    pub kernel_load_address: u32,
    /// Ramdisk size, in bytes.
    pub ramdisk_size: u32,
    /// Address the ramdisk is loaded to.
    pub ramdisk_load_address: u32,
    /// Size of the optional second-stage loader, in bytes.
    pub second_size: u32,
    /// Address the second-stage loader is loaded to.
    pub second_load_address: u32,
    /// Physical address of the kernel boot tags.
    pub kernel_tags_address: u32,
    /// Alignment unit for every section boundary.
    pub page_size: u32,
    /// Header generation tag; zero for this layout.
    pub header_version: u32,
    /// OS version and security patch level.
    pub os_version: u32,
    /// Null-terminated ASCII product identifier.
    pub product_name: Seq<u8>,
    /// Kernel boot arguments.
    pub boot_arguments: Seq<u8>,
    /// Unique image identifier.
    pub unique_id: Seq<u8>,
    /// Extra kernel boot arguments.
    pub extra_boot_arguments: Seq<u8>,
}

impl AospHeader0View {
    /// Every variable-width field has its fixed on-wire length.
    pub open spec fn wf(self) -> bool {
        &&& self.magic.len() == 8
        &&& self.product_name.len() == 16
        &&& self.boot_arguments.len() == 512
        &&& self.unique_id.len() == 32
        &&& self.extra_boot_arguments.len() == 1024
    }
}

/// The exact byte encoding of a generation-0 header.
pub open spec fn spec_encode_v0(h: AospHeader0View) -> Seq<u8> {
    h.magic + spec_u32_to_le_bytes(h.kernel_size) + spec_u32_to_le_bytes(h.kernel_load_address)
        + spec_u32_to_le_bytes(h.ramdisk_size) + spec_u32_to_le_bytes(h.ramdisk_load_address)
        + spec_u32_to_le_bytes(h.second_size) + spec_u32_to_le_bytes(h.second_load_address)
        + spec_u32_to_le_bytes(h.kernel_tags_address) + spec_u32_to_le_bytes(h.page_size)
        + spec_u32_to_le_bytes(h.header_version) + spec_u32_to_le_bytes(h.os_version)
        + h.product_name + h.boot_arguments + h.unique_id + h.extra_boot_arguments
}

/// The generation-0 header denoted by the first 1632 bytes of `b`.
pub open spec fn spec_parse_v0(b: Seq<u8>) -> AospHeader0View
    recommends
        b.len() >= AOSP0_HEADER_SIZE,
{
    AospHeader0View {
        magic: b.subrange(0, 8),
        kernel_size: spec_u32_from_le_bytes(b.subrange(8, 12)),
        kernel_load_address: spec_u32_from_le_bytes(b.subrange(12, 16)),
        ramdisk_size: spec_u32_from_le_bytes(b.subrange(16, 20)),
        ramdisk_load_address: spec_u32_from_le_bytes(b.subrange(20, 24)),
        second_size: spec_u32_from_le_bytes(b.subrange(24, 28)),
        second_load_address: spec_u32_from_le_bytes(b.subrange(28, 32)),
        kernel_tags_address: spec_u32_from_le_bytes(b.subrange(32, 36)),
        page_size: spec_u32_from_le_bytes(b.subrange(36, 40)),
        header_version: spec_u32_from_le_bytes(b.subrange(40, 44)),
        os_version: spec_u32_from_le_bytes(b.subrange(44, 48)),
        product_name: b.subrange(48, 64),
        boot_arguments: b.subrange(64, 576),
        unique_id: b.subrange(576, 608),
        extra_boot_arguments: b.subrange(608, 1632),
    }
}

/// A serialized generation-0 header is 1632 bytes long.
pub proof fn lemma_encode_len_v0(h: AospHeader0View)
    requires
        h.wf(),
    ensures
        spec_encode_v0(h).len() == AOSP0_HEADER_SIZE,
{
    lemma_auto_spec_u32_to_from_le_bytes();
}

/// Round-trip law for generation 0: parsing a serialized header recovers
/// every field.
pub proof fn lemma_parse_encode_v0(h: AospHeader0View)
    requires
        h.wf(),
    ensures
        spec_parse_v0(spec_encode_v0(h)) == h,
{
    lemma_auto_spec_u32_to_from_le_bytes();
    let e = spec_encode_v0(h);
    assert(e.subrange(0, 8) =~= h.magic);
    assert(e.subrange(8, 12) =~= spec_u32_to_le_bytes(h.kernel_size));
    assert(e.subrange(12, 16) =~= spec_u32_to_le_bytes(h.kernel_load_address));
    assert(e.subrange(16, 20) =~= spec_u32_to_le_bytes(h.ramdisk_size));
    assert(e.subrange(20, 24) =~= spec_u32_to_le_bytes(h.ramdisk_load_address));
    assert(e.subrange(24, 28) =~= spec_u32_to_le_bytes(h.second_size));
    assert(e.subrange(28, 32) =~= spec_u32_to_le_bytes(h.second_load_address));
    assert(e.subrange(32, 36) =~= spec_u32_to_le_bytes(h.kernel_tags_address));
    assert(e.subrange(36, 40) =~= spec_u32_to_le_bytes(h.page_size));
    assert(e.subrange(40, 44) =~= spec_u32_to_le_bytes(h.header_version));
    assert(e.subrange(44, 48) =~= spec_u32_to_le_bytes(h.os_version));
    assert(e.subrange(48, 64) =~= h.product_name);
    assert(e.subrange(64, 576) =~= h.boot_arguments);
    assert(e.subrange(576, 608) =~= h.unique_id);
    assert(e.subrange(608, 1632) =~= h.extra_boot_arguments);
    assert(spec_parse_v0(e) =~= h);
}

/// The opposite direction for generation 0: re-serializing a parsed
/// header reproduces the original record byte for byte.
pub proof fn lemma_encode_parse_v0(b: Seq<u8>)
    requires
        b.len() >= AOSP0_HEADER_SIZE,
    ensures
        spec_encode_v0(spec_parse_v0(b)) == b.subrange(0, AOSP0_HEADER_SIZE as int),
{
    lemma_auto_spec_u32_to_from_le_bytes();
    let h = spec_parse_v0(b);
    assert(spec_u32_to_le_bytes(h.kernel_size) =~= b.subrange(8, 12));
    assert(spec_u32_to_le_bytes(h.kernel_load_address) =~= b.subrange(12, 16));
    assert(spec_u32_to_le_bytes(h.ramdisk_size) =~= b.subrange(16, 20));
    assert(spec_u32_to_le_bytes(h.ramdisk_load_address) =~= b.subrange(20, 24));
    assert(spec_u32_to_le_bytes(h.second_size) =~= b.subrange(24, 28));
    assert(spec_u32_to_le_bytes(h.second_load_address) =~= b.subrange(28, 32));
    assert(spec_u32_to_le_bytes(h.kernel_tags_address) =~= b.subrange(32, 36));
    assert(spec_u32_to_le_bytes(h.page_size) =~= b.subrange(36, 40));
    assert(spec_u32_to_le_bytes(h.header_version) =~= b.subrange(40, 44));
    assert(spec_u32_to_le_bytes(h.os_version) =~= b.subrange(44, 48));
    assert(spec_encode_v0(h) =~= b.subrange(0, AOSP0_HEADER_SIZE as int));
}

/// An AOSP generation-0 boot image header.
#[derive(Clone, Debug, PartialEq)]
pub struct AospHeader0 {
    /// Header magic bytes (8 bytes).
    pub magic: Vec<u8>,
    /// Kernel size, in bytes.
    pub kernel_size: u32,
    /// Address the kernel should be loaded to.
    pub kernel_load_address: u32,
    /// Ramdisk size, in bytes.
    pub ramdisk_size: u32,
    /// Address the ramdisk should be loaded to.
    pub ramdisk_load_address: u32,
    /// Size of an optional second file.
    pub second_size: u32,
    /// Address the optional second file should be loaded to.
    pub second_load_address: u32,
    /// Physical address of the kernel tags.
    pub kernel_tags_address: u32,
    /// The page size.
    pub page_size: u32,
    /// Header generation tag; zero for this layout.
    pub header_version: u32,
    /// OS version and security patch level.
    pub os_version: u32,
    /// Name of the product (16 bytes), null-terminated ASCII.
    pub product_name: Vec<u8>,
    /// Arguments to pass to the kernel during boot (512 bytes).
    pub boot_arguments: Vec<u8>,
    /// Used to uniquely identify boot images (32 bytes).
    pub unique_id: Vec<u8>,
    /// Extra room for kernel boot arguments (1024 bytes).
    pub extra_boot_arguments: Vec<u8>,
}

impl View for AospHeader0 {
    type V = AospHeader0View;

    open spec fn view(&self) -> AospHeader0View {
        AospHeader0View {
            magic: self.magic@,
            kernel_size: self.kernel_size,
            kernel_load_address: self.kernel_load_address,
            ramdisk_size: self.ramdisk_size,
            ramdisk_load_address: self.ramdisk_load_address,
            second_size: self.second_size,
            second_load_address: self.second_load_address,
            kernel_tags_address: self.kernel_tags_address,
            page_size: self.page_size,
            header_version: self.header_version,
            os_version: self.os_version,
            product_name: self.product_name@,
            boot_arguments: self.boot_arguments@,
            unique_id: self.unique_id@,
            extra_boot_arguments: self.extra_boot_arguments@,
        }
    }
}

impl AospHeader0 {
    /// Decodes a header from the leading 1632 bytes of `source`; performs
    /// no magic check and cannot fail.
    pub fn parse(source: &[u8]) -> (r: Self)
        requires
            source@.len() >= AOSP0_HEADER_SIZE,
        ensures
            r@ == spec_parse_v0(source@),
            r@.wf(),
    {
        AospHeader0 {
            magic: copy_range(source, 0, 8),
            kernel_size: read_u32_at(source, 8),
            kernel_load_address: read_u32_at(source, 12),
            ramdisk_size: read_u32_at(source, 16),
            ramdisk_load_address: read_u32_at(source, 20),
            second_size: read_u32_at(source, 24),
            second_load_address: read_u32_at(source, 28),
            kernel_tags_address: read_u32_at(source, 32),
            page_size: read_u32_at(source, 36),
            header_version: read_u32_at(source, 40),
            os_version: read_u32_at(source, 44),
            product_name: copy_range(source, 48, 16),
            boot_arguments: copy_range(source, 64, 512),
            unique_id: copy_range(source, 576, 32),
            extra_boot_arguments: copy_range(source, 608, 1024),
        }
    }

    /// Serializes every field in the fixed order and byte width used by
    /// `parse`, producing exactly 1632 bytes.
    pub fn serialize(&self) -> (r: Vec<u8>)
        requires
            self@.wf(),
        ensures
            r@ == spec_encode_v0(self@),
            r@.len() == AOSP0_HEADER_SIZE,
    {
        let mut out: Vec<u8> = Vec::new();
        push_bytes(&mut out, self.magic.as_slice());
        push_u32_le(&mut out, self.kernel_size);
        push_u32_le(&mut out, self.kernel_load_address);
        push_u32_le(&mut out, self.ramdisk_size);
        push_u32_le(&mut out, self.ramdisk_load_address);
        push_u32_le(&mut out, self.second_size);
        push_u32_le(&mut out, self.second_load_address);
        push_u32_le(&mut out, self.kernel_tags_address);
        push_u32_le(&mut out, self.page_size);
        push_u32_le(&mut out, self.header_version);
        push_u32_le(&mut out, self.os_version);
        push_bytes(&mut out, self.product_name.as_slice());
        push_bytes(&mut out, self.boot_arguments.as_slice());
        push_bytes(&mut out, self.unique_id.as_slice());
        push_bytes(&mut out, self.extra_boot_arguments.as_slice());
        proof {
            assert(out@ =~= spec_encode_v0(self@));
            lemma_encode_len_v0(self@);
        }
        out
    }

    /// Compares the stored magic bytes to the format's constant.
    pub fn has_correct_magic(&self) -> (r: bool)
        ensures
            r == (self@.magic == spec_android_magic()),
    {
        let magic = android_magic();
        crate::bytes::bytes_eq(self.magic.as_slice(), magic.as_slice())
    }
}

/// Conventional defaults for a programmatically built generation-0 header.
pub open spec fn spec_default_v0() -> AospHeader0View {
    AospHeader0View {
        magic: spec_android_magic(),
        kernel_size: 0,
        kernel_load_address: 0x10008000,
        ramdisk_size: 0,
        ramdisk_load_address: 0x11000000,
        second_size: 0,
        second_load_address: 0x100F0000,
        kernel_tags_address: 0x10000100,
        page_size: 2048,
        header_version: 0,
        os_version: 0,
        product_name: zero_bytes(16),
        boot_arguments: zero_bytes(512),
        unique_id: zero_bytes(32),
        extra_boot_arguments: zero_bytes(1024),
    }
}

impl Default for AospHeader0 {
    /// Produces the conventional default header for programmatic
    /// construction.
    fn default() -> (r: Self)
        ensures
            r@ == spec_default_v0(),
            r@.wf(),
    {
        AospHeader0 {
            magic: android_magic(),
            kernel_size: 0,
            kernel_load_address: 0x10008000,
            ramdisk_size: 0,
            ramdisk_load_address: 0x11000000,
            second_size: 0,
            second_load_address: 0x100F0000,
            kernel_tags_address: 0x10000100,
            page_size: 2048,
            header_version: 0,
            os_version: 0,
            product_name: zero_vec(16),
            boot_arguments: zero_vec(512),
            unique_id: zero_vec(32),
            extra_boot_arguments: zero_vec(1024),
        }
    }
}


/// The mathematical image of a generation-1 header.
#[verifier::ext_equal]
pub ghost struct AospHeader1View {
    /// Header magic bytes.
    pub magic: Seq<u8>,
    /// Kernel size, in bytes.
    pub kernel_size: u32,
    /// Address the kernel is loaded to.
    pub kernel_load_address: u32,
    /// Ramdisk size, in bytes.
    pub ramdisk_size: u32,
    /// Address the ramdisk is loaded to.
    pub ramdisk_load_address: u32,
    /// Size of the optional second-stage loader, in bytes.
    pub second_size: u32,
    /// Address the second-stage loader is loaded to.
    pub second_load_address: u32,
    /// Physical address of the kernel boot tags.
    pub kernel_tags_address: u32,
    /// Alignment unit for every section boundary.
    pub page_size: u32,
    /// Header generation tag; one for this layout.
    pub header_version: u32,
    /// OS version and security patch level.
    pub os_version: u32,
    /// Null-terminated ASCII product identifier.
    pub product_name: Seq<u8>,
    /// Kernel boot arguments.
    pub boot_arguments: Seq<u8>,
    /// Unique image identifier.
    pub unique_id: Seq<u8>,
    /// Extra kernel boot arguments.
    pub extra_boot_arguments: Seq<u8>,
    /// Size of the recovery DTBO blob, in bytes.
    pub recovery_dtbo_size: u32,
    /// Offset of the recovery DTBO blob in the image.
    pub recovery_dtbo_offset: u64,
    /// The header record's own size, in bytes.
    pub header_size: u32,
}

impl AospHeader1View {
    /// Every variable-width field has its fixed on-wire length.
    pub open spec fn wf(self) -> bool {
        &&& self.magic.len() == 8
        &&& self.product_name.len() == 16
        &&& self.boot_arguments.len() == 512
        &&& self.unique_id.len() == 32
        &&& self.extra_boot_arguments.len() == 1024
    }
}

/// The exact byte encoding of a generation-1 header.
pub open spec fn spec_encode_v1(h: AospHeader1View) -> Seq<u8> {
    h.magic + spec_u32_to_le_bytes(h.kernel_size) + spec_u32_to_le_bytes(h.kernel_load_address)
        + spec_u32_to_le_bytes(h.ramdisk_size) + spec_u32_to_le_bytes(h.ramdisk_load_address)
        + spec_u32_to_le_bytes(h.second_size) + spec_u32_to_le_bytes(h.second_load_address)
        + spec_u32_to_le_bytes(h.kernel_tags_address) + spec_u32_to_le_bytes(h.page_size)
        + spec_u32_to_le_bytes(h.header_version) + spec_u32_to_le_bytes(h.os_version)
        + h.product_name + h.boot_arguments + h.unique_id + h.extra_boot_arguments
        + spec_u32_to_le_bytes(h.recovery_dtbo_size) + spec_u64_to_le_bytes(h.recovery_dtbo_offset)
        + spec_u32_to_le_bytes(h.header_size)
}

/// The generation-1 header denoted by the first 1648 bytes of `b`.
pub open spec fn spec_parse_v1(b: Seq<u8>) -> AospHeader1View
    recommends
        b.len() >= AOSP1_HEADER_SIZE,
{
    AospHeader1View {
        magic: b.subrange(0, 8),
        kernel_size: spec_u32_from_le_bytes(b.subrange(8, 12)),
        kernel_load_address: spec_u32_from_le_bytes(b.subrange(12, 16)),
        ramdisk_size: spec_u32_from_le_bytes(b.subrange(16, 20)),
        ramdisk_load_address: spec_u32_from_le_bytes(b.subrange(20, 24)),
        second_size: spec_u32_from_le_bytes(b.subrange(24, 28)),
        second_load_address: spec_u32_from_le_bytes(b.subrange(28, 32)),
        kernel_tags_address: spec_u32_from_le_bytes(b.subrange(32, 36)),
        page_size: spec_u32_from_le_bytes(b.subrange(36, 40)),
        header_version: spec_u32_from_le_bytes(b.subrange(40, 44)),
        os_version: spec_u32_from_le_bytes(b.subrange(44, 48)),
        product_name: b.subrange(48, 64),
        boot_arguments: b.subrange(64, 576),
        unique_id: b.subrange(576, 608),
        extra_boot_arguments: b.subrange(608, 1632),
        recovery_dtbo_size: spec_u32_from_le_bytes(b.subrange(1632, 1636)),
        recovery_dtbo_offset: spec_u64_from_le_bytes(b.subrange(1636, 1644)),
        header_size: spec_u32_from_le_bytes(b.subrange(1644, 1648)),
    }
}

/// A serialized generation-1 header is 1648 bytes long.
pub proof fn lemma_encode_len_v1(h: AospHeader1View)
    requires
        h.wf(),
    ensures
        spec_encode_v1(h).len() == AOSP1_HEADER_SIZE,
{
    lemma_auto_spec_u32_to_from_le_bytes();
    lemma_auto_spec_u64_to_from_le_bytes();
}

/// Round-trip law for generation 1: parsing a serialized header recovers
/// every field.
pub proof fn lemma_parse_encode_v1(h: AospHeader1View)
    requires
        h.wf(),
    ensures
        spec_parse_v1(spec_encode_v1(h)) == h,
{
    lemma_auto_spec_u32_to_from_le_bytes();
    lemma_auto_spec_u64_to_from_le_bytes();
    let e = spec_encode_v1(h);
    assert(e.subrange(0, 8) =~= h.magic);
    assert(e.subrange(8, 12) =~= spec_u32_to_le_bytes(h.kernel_size));
    assert(e.subrange(12, 16) =~= spec_u32_to_le_bytes(h.kernel_load_address));
    assert(e.subrange(16, 20) =~= spec_u32_to_le_bytes(h.ramdisk_size));
    assert(e.subrange(20, 24) =~= spec_u32_to_le_bytes(h.ramdisk_load_address));
    assert(e.subrange(24, 28) =~= spec_u32_to_le_bytes(h.second_size));
    assert(e.subrange(28, 32) =~= spec_u32_to_le_bytes(h.second_load_address));
    assert(e.subrange(32, 36) =~= spec_u32_to_le_bytes(h.kernel_tags_address));
    assert(e.subrange(36, 40) =~= spec_u32_to_le_bytes(h.page_size));
    assert(e.subrange(40, 44) =~= spec_u32_to_le_bytes(h.header_version));
    assert(e.subrange(44, 48) =~= spec_u32_to_le_bytes(h.os_version));
    assert(e.subrange(48, 64) =~= h.product_name);
    assert(e.subrange(64, 576) =~= h.boot_arguments);
    assert(e.subrange(576, 608) =~= h.unique_id);
    assert(e.subrange(608, 1632) =~= h.extra_boot_arguments);
    assert(e.subrange(1632, 1636) =~= spec_u32_to_le_bytes(h.recovery_dtbo_size));
    assert(e.subrange(1636, 1644) =~= spec_u64_to_le_bytes(h.recovery_dtbo_offset));
    assert(e.subrange(1644, 1648) =~= spec_u32_to_le_bytes(h.header_size));
    assert(spec_parse_v1(e) =~= h);
}

/// The opposite direction for generation 1: re-serializing a parsed
/// header reproduces the original record byte for byte.
pub proof fn lemma_encode_parse_v1(b: Seq<u8>)
    requires
        b.len() >= AOSP1_HEADER_SIZE,
    ensures
        spec_encode_v1(spec_parse_v1(b)) == b.subrange(0, AOSP1_HEADER_SIZE as int),
{
    lemma_auto_spec_u32_to_from_le_bytes();
    lemma_auto_spec_u64_to_from_le_bytes();
    let h = spec_parse_v1(b);
    assert(spec_u32_to_le_bytes(h.kernel_size) =~= b.subrange(8, 12));
    assert(spec_u32_to_le_bytes(h.kernel_load_address) =~= b.subrange(12, 16));
    assert(spec_u32_to_le_bytes(h.ramdisk_size) =~= b.subrange(16, 20));
    assert(spec_u32_to_le_bytes(h.ramdisk_load_address) =~= b.subrange(20, 24));
    assert(spec_u32_to_le_bytes(h.second_size) =~= b.subrange(24, 28));
    assert(spec_u32_to_le_bytes(h.second_load_address) =~= b.subrange(28, 32));
    assert(spec_u32_to_le_bytes(h.kernel_tags_address) =~= b.subrange(32, 36));
    assert(spec_u32_to_le_bytes(h.page_size) =~= b.subrange(36, 40));
    assert(spec_u32_to_le_bytes(h.header_version) =~= b.subrange(40, 44));
    assert(spec_u32_to_le_bytes(h.os_version) =~= b.subrange(44, 48));
    assert(spec_u32_to_le_bytes(h.recovery_dtbo_size) =~= b.subrange(1632, 1636));
    assert(spec_u32_to_le_bytes(h.header_size) =~= b.subrange(1644, 1648));
    assert(spec_u64_to_le_bytes(h.recovery_dtbo_offset) =~= b.subrange(1636, 1644));
    assert(spec_encode_v1(h) =~= b.subrange(0, AOSP1_HEADER_SIZE as int));
}

/// An AOSP generation-1 boot image header.
#[derive(Clone, Debug, PartialEq)]
pub struct AospHeader1 {
    /// Header magic bytes (8 bytes).
    pub magic: Vec<u8>,
    /// Kernel size, in bytes.
    pub kernel_size: u32,
    /// Address the kernel should be loaded to.
    pub kernel_load_address: u32,
    /// Ramdisk size, in bytes.
    pub ramdisk_size: u32,
    /// Address the ramdisk should be loaded to.
    pub ramdisk_load_address: u32,
    /// Size of an optional second file.
    pub second_size: u32,
    /// Address the optional second file should be loaded to.
    pub second_load_address: u32,
    /// Physical address of the kernel tags.
    pub kernel_tags_address: u32,
    /// The page size.
    pub page_size: u32,
    /// Header generation tag; one for this layout.
    pub header_version: u32,
    /// OS version and security patch level.
    pub os_version: u32,
    /// Name of the product (16 bytes), null-terminated ASCII.
    pub product_name: Vec<u8>,
    /// Arguments to pass to the kernel during boot (512 bytes).
    pub boot_arguments: Vec<u8>,
    /// Used to uniquely identify boot images (32 bytes).
    pub unique_id: Vec<u8>,
    /// Extra room for kernel boot arguments (1024 bytes).
    pub extra_boot_arguments: Vec<u8>,
    /// Size of the recovery DTBO blob, in bytes.
    pub recovery_dtbo_size: u32,
    /// Offset of the recovery DTBO blob in the image.
    pub recovery_dtbo_offset: u64,
    /// The header record's own size, in bytes.
    pub header_size: u32,
}

impl View for AospHeader1 {
    type V = AospHeader1View;

    open spec fn view(&self) -> AospHeader1View {
        AospHeader1View {
            magic: self.magic@,
            kernel_size: self.kernel_size,
            kernel_load_address: self.kernel_load_address,
            ramdisk_size: self.ramdisk_size,
            ramdisk_load_address: self.ramdisk_load_address,
            second_size: self.second_size,
            second_load_address: self.second_load_address,
            kernel_tags_address: self.kernel_tags_address,
            page_size: self.page_size,
            header_version: self.header_version,
            os_version: self.os_version,
            product_name: self.product_name@,
            boot_arguments: self.boot_arguments@,
            unique_id: self.unique_id@,
            extra_boot_arguments: self.extra_boot_arguments@,
            recovery_dtbo_size: self.recovery_dtbo_size,
            recovery_dtbo_offset: self.recovery_dtbo_offset,
            header_size: self.header_size,
        }
    }
}

impl AospHeader1 {
    /// Decodes a header from the leading 1648 bytes of `source`; performs
    /// no magic check and cannot fail.
    pub fn parse(source: &[u8]) -> (r: Self)
        requires
            source@.len() >= AOSP1_HEADER_SIZE,
        ensures
            r@ == spec_parse_v1(source@),
            r@.wf(),
    {
        AospHeader1 {
            magic: copy_range(source, 0, 8),
            kernel_size: read_u32_at(source, 8),
            kernel_load_address: read_u32_at(source, 12),
            ramdisk_size: read_u32_at(source, 16),
            ramdisk_load_address: read_u32_at(source, 20),
            second_size: read_u32_at(source, 24),
            second_load_address: read_u32_at(source, 28),
            kernel_tags_address: read_u32_at(source, 32),
            page_size: read_u32_at(source, 36),
            header_version: read_u32_at(source, 40),
            os_version: read_u32_at(source, 44),
            product_name: copy_range(source, 48, 16),
            boot_arguments: copy_range(source, 64, 512),
            unique_id: copy_range(source, 576, 32),
            extra_boot_arguments: copy_range(source, 608, 1024),
            recovery_dtbo_size: read_u32_at(source, 1632),
            recovery_dtbo_offset: read_u64_at(source, 1636),
            header_size: read_u32_at(source, 1644),
        }
    }

    /// Serializes every field in the fixed order and byte width used by
    /// `parse`, producing exactly 1648 bytes.
    pub fn serialize(&self) -> (r: Vec<u8>)
        requires
            self@.wf(),
        ensures
            r@ == spec_encode_v1(self@),
            r@.len() == AOSP1_HEADER_SIZE,
    {
        let mut out: Vec<u8> = Vec::new();
        push_bytes(&mut out, self.magic.as_slice());
        push_u32_le(&mut out, self.kernel_size);
        push_u32_le(&mut out, self.kernel_load_address);
        push_u32_le(&mut out, self.ramdisk_size);
        push_u32_le(&mut out, self.ramdisk_load_address);
        push_u32_le(&mut out, self.second_size);
        push_u32_le(&mut out, self.second_load_address);
        push_u32_le(&mut out, self.kernel_tags_address);
        push_u32_le(&mut out, self.page_size);
        push_u32_le(&mut out, self.header_version);
        push_u32_le(&mut out, self.os_version);
        push_bytes(&mut out, self.product_name.as_slice());
        push_bytes(&mut out, self.boot_arguments.as_slice());
        push_bytes(&mut out, self.unique_id.as_slice());
        push_bytes(&mut out, self.extra_boot_arguments.as_slice());
        push_u32_le(&mut out, self.recovery_dtbo_size);
        push_u64_le(&mut out, self.recovery_dtbo_offset);
        push_u32_le(&mut out, self.header_size);
        proof {
            assert(out@ =~= spec_encode_v1(self@));
            lemma_encode_len_v1(self@);
        }
        out
    }

    /// Compares the stored magic bytes to the format's constant.
    pub fn has_correct_magic(&self) -> (r: bool)
        ensures
            r == (self@.magic == spec_android_magic()),
    {
        let magic = android_magic();
        crate::bytes::bytes_eq(self.magic.as_slice(), magic.as_slice())
    }
}

/// Conventional defaults for a programmatically built generation-1 header.
pub open spec fn spec_default_v1() -> AospHeader1View {
    AospHeader1View {
        magic: spec_android_magic(),
        kernel_size: 0,
        kernel_load_address: 0x10008000,
        ramdisk_size: 0,
        ramdisk_load_address: 0x11000000,
        second_size: 0,
        second_load_address: 0x100F0000,
        kernel_tags_address: 0x10000100,
        page_size: 2048,
        header_version: 1,
        os_version: 0,
        product_name: zero_bytes(16),
        boot_arguments: zero_bytes(512),
        unique_id: zero_bytes(32),
        extra_boot_arguments: zero_bytes(1024),
        recovery_dtbo_size: 0,
        recovery_dtbo_offset: 0,
        header_size: AOSP1_HEADER_SIZE as u32,
    }
}

impl Default for AospHeader1 {
    /// Produces the conventional default header for programmatic
    /// construction.
    fn default() -> (r: Self)
        ensures
            r@ == spec_default_v1(),
            r@.wf(),
    {
        AospHeader1 {
            magic: android_magic(),
            kernel_size: 0,
            kernel_load_address: 0x10008000,
            ramdisk_size: 0,
            ramdisk_load_address: 0x11000000,
            second_size: 0,
            second_load_address: 0x100F0000,
            kernel_tags_address: 0x10000100,
            page_size: 2048,
            header_version: 1,
            os_version: 0,
            product_name: zero_vec(16),
            boot_arguments: zero_vec(512),
            unique_id: zero_vec(32),
            extra_boot_arguments: zero_vec(1024),
            recovery_dtbo_size: 0,
            recovery_dtbo_offset: 0,
            header_size: 1648,
        }
    }
}


/// The mathematical image of a generation-2 header.
#[verifier::ext_equal]
pub ghost struct AospHeader2View {
    /// Header magic bytes.
    pub magic: Seq<u8>,
    /// Kernel size, in bytes.
    pub kernel_size: u32,
    /// Address the kernel is loaded to.
    pub kernel_load_address: u32,
    /// Ramdisk size, in bytes.
    pub ramdisk_size: u32,
    /// Address the ramdisk is loaded to.
    pub ramdisk_load_address: u32,
    /// Size of the optional second-stage loader, in bytes.
    pub second_size: u32,
    /// Address the second-stage loader is loaded to.
    pub second_load_address: u32,
    /// Physical address of the kernel boot tags.
    pub kernel_tags_address: u32,
    /// Alignment unit for every section boundary.
    pub page_size: u32,
    /// Header generation tag; two for this layout.
    pub header_version: u32,
    /// OS version and security patch level.
    pub os_version: u32,
    /// Null-terminated ASCII product identifier.
    pub product_name: Seq<u8>,
    /// Kernel boot arguments.
    pub boot_arguments: Seq<u8>,
    /// Unique image identifier.
    pub unique_id: Seq<u8>,
    /// Extra kernel boot arguments.
    pub extra_boot_arguments: Seq<u8>,
    /// Size of the recovery DTBO blob, in bytes.
    pub recovery_dtbo_size: u32,
    /// Offset of the recovery DTBO blob in the image.
    pub recovery_dtbo_offset: u64,
    /// The header record's own size, in bytes.
    pub header_size: u32,
    /// Size of the device-tree blob, in bytes.
    pub dtb_size: u32,
    /// Address the device-tree blob is loaded to.
    pub dtb_address: u64,
}

impl AospHeader2View {
    /// Every variable-width field has its fixed on-wire length.
    pub open spec fn wf(self) -> bool {
        &&& self.magic.len() == 8
        &&& self.product_name.len() == 16
        &&& self.boot_arguments.len() == 512
        &&& self.unique_id.len() == 32
        &&& self.extra_boot_arguments.len() == 1024
    }
}

/// The exact byte encoding of a generation-2 header.
pub open spec fn spec_encode_v2(h: AospHeader2View) -> Seq<u8> {
    h.magic + spec_u32_to_le_bytes(h.kernel_size) + spec_u32_to_le_bytes(h.kernel_load_address)
        + spec_u32_to_le_bytes(h.ramdisk_size) + spec_u32_to_le_bytes(h.ramdisk_load_address)
        + spec_u32_to_le_bytes(h.second_size) + spec_u32_to_le_bytes(h.second_load_address)
        + spec_u32_to_le_bytes(h.kernel_tags_address) + spec_u32_to_le_bytes(h.page_size)
        + spec_u32_to_le_bytes(h.header_version) + spec_u32_to_le_bytes(h.os_version)
        + h.product_name + h.boot_arguments + h.unique_id + h.extra_boot_arguments
        + spec_u32_to_le_bytes(h.recovery_dtbo_size) + spec_u64_to_le_bytes(h.recovery_dtbo_offset)
        + spec_u32_to_le_bytes(h.header_size) + spec_u32_to_le_bytes(h.dtb_size)
        + spec_u64_to_le_bytes(h.dtb_address)
}

/// The generation-2 header denoted by the first 1660 bytes of `b`.
pub open spec fn spec_parse_v2(b: Seq<u8>) -> AospHeader2View
    recommends
        b.len() >= AOSP2_HEADER_SIZE,
{
    AospHeader2View {
        magic: b.subrange(0, 8),
        kernel_size: spec_u32_from_le_bytes(b.subrange(8, 12)),
        kernel_load_address: spec_u32_from_le_bytes(b.subrange(12, 16)),
        ramdisk_size: spec_u32_from_le_bytes(b.subrange(16, 20)),
        ramdisk_load_address: spec_u32_from_le_bytes(b.subrange(20, 24)),
        second_size: spec_u32_from_le_bytes(b.subrange(24, 28)),
        second_load_address: spec_u32_from_le_bytes(b.subrange(28, 32)),
        kernel_tags_address: spec_u32_from_le_bytes(b.subrange(32, 36)),
        page_size: spec_u32_from_le_bytes(b.subrange(36, 40)),
        header_version: spec_u32_from_le_bytes(b.subrange(40, 44)),
        os_version: spec_u32_from_le_bytes(b.subrange(44, 48)),
        product_name: b.subrange(48, 64),
        boot_arguments: b.subrange(64, 576),
        unique_id: b.subrange(576, 608),
        extra_boot_arguments: b.subrange(608, 1632),
        recovery_dtbo_size: spec_u32_from_le_bytes(b.subrange(1632, 1636)),
        recovery_dtbo_offset: spec_u64_from_le_bytes(b.subrange(1636, 1644)),
        header_size: spec_u32_from_le_bytes(b.subrange(1644, 1648)),
        dtb_size: spec_u32_from_le_bytes(b.subrange(1648, 1652)),
        dtb_address: spec_u64_from_le_bytes(b.subrange(1652, 1660)),
    }
}

/// A serialized generation-2 header is 1660 bytes long.
pub proof fn lemma_encode_len_v2(h: AospHeader2View)
    requires
        h.wf(),
    ensures
        spec_encode_v2(h).len() == AOSP2_HEADER_SIZE,
{
    lemma_auto_spec_u32_to_from_le_bytes();
    lemma_auto_spec_u64_to_from_le_bytes();
}

/// Round-trip law for generation 2: parsing a serialized header recovers
/// every field.
pub proof fn lemma_parse_encode_v2(h: AospHeader2View)
    requires
        h.wf(),
    ensures
        spec_parse_v2(spec_encode_v2(h)) == h,
{
    lemma_auto_spec_u32_to_from_le_bytes();
    lemma_auto_spec_u64_to_from_le_bytes();
    let e = spec_encode_v2(h);
    assert(e.subrange(0, 8) =~= h.magic);
    assert(e.subrange(8, 12) =~= spec_u32_to_le_bytes(h.kernel_size));
    assert(e.subrange(12, 16) =~= spec_u32_to_le_bytes(h.kernel_load_address));
    assert(e.subrange(16, 20) =~= spec_u32_to_le_bytes(h.ramdisk_size));
    assert(e.subrange(20, 24) =~= spec_u32_to_le_bytes(h.ramdisk_load_address));
    assert(e.subrange(24, 28) =~= spec_u32_to_le_bytes(h.second_size));
    assert(e.subrange(28, 32) =~= spec_u32_to_le_bytes(h.second_load_address));
    assert(e.subrange(32, 36) =~= spec_u32_to_le_bytes(h.kernel_tags_address));
    assert(e.subrange(36, 40) =~= spec_u32_to_le_bytes(h.page_size));
    assert(e.subrange(40, 44) =~= spec_u32_to_le_bytes(h.header_version));
    assert(e.subrange(44, 48) =~= spec_u32_to_le_bytes(h.os_version));
    assert(e.subrange(48, 64) =~= h.product_name);
    assert(e.subrange(64, 576) =~= h.boot_arguments);
    assert(e.subrange(576, 608) =~= h.unique_id);
    assert(e.subrange(608, 1632) =~= h.extra_boot_arguments);
    assert(e.subrange(1632, 1636) =~= spec_u32_to_le_bytes(h.recovery_dtbo_size));
    assert(e.subrange(1636, 1644) =~= spec_u64_to_le_bytes(h.recovery_dtbo_offset));
    assert(e.subrange(1644, 1648) =~= spec_u32_to_le_bytes(h.header_size));
    assert(e.subrange(1648, 1652) =~= spec_u32_to_le_bytes(h.dtb_size));
    assert(e.subrange(1652, 1660) =~= spec_u64_to_le_bytes(h.dtb_address));
    assert(spec_parse_v2(e) =~= h);
}

/// The opposite direction for generation 2: re-serializing a parsed
/// header reproduces the original record byte for byte.
pub proof fn lemma_encode_parse_v2(b: Seq<u8>)
    requires
        b.len() >= AOSP2_HEADER_SIZE,
    ensures
        spec_encode_v2(spec_parse_v2(b)) == b.subrange(0, AOSP2_HEADER_SIZE as int),
{
    lemma_auto_spec_u32_to_from_le_bytes();
    lemma_auto_spec_u64_to_from_le_bytes();
    let h = spec_parse_v2(b);
    assert(spec_u32_to_le_bytes(h.kernel_size) =~= b.subrange(8, 12));
    assert(spec_u32_to_le_bytes(h.kernel_load_address) =~= b.subrange(12, 16));
    assert(spec_u32_to_le_bytes(h.ramdisk_size) =~= b.subrange(16, 20));
    assert(spec_u32_to_le_bytes(h.ramdisk_load_address) =~= b.subrange(20, 24));
    assert(spec_u32_to_le_bytes(h.second_size) =~= b.subrange(24, 28));
    assert(spec_u32_to_le_bytes(h.second_load_address) =~= b.subrange(28, 32));
    assert(spec_u32_to_le_bytes(h.kernel_tags_address) =~= b.subrange(32, 36));
    assert(spec_u32_to_le_bytes(h.page_size) =~= b.subrange(36, 40));
    assert(spec_u32_to_le_bytes(h.header_version) =~= b.subrange(40, 44));
    assert(spec_u32_to_le_bytes(h.os_version) =~= b.subrange(44, 48));
    assert(spec_u32_to_le_bytes(h.recovery_dtbo_size) =~= b.subrange(1632, 1636));
    assert(spec_u32_to_le_bytes(h.header_size) =~= b.subrange(1644, 1648));
    assert(spec_u32_to_le_bytes(h.dtb_size) =~= b.subrange(1648, 1652));
    assert(spec_u64_to_le_bytes(h.recovery_dtbo_offset) =~= b.subrange(1636, 1644));
    assert(spec_u64_to_le_bytes(h.dtb_address) =~= b.subrange(1652, 1660));
    assert(spec_encode_v2(h) =~= b.subrange(0, AOSP2_HEADER_SIZE as int));
}

/// An AOSP generation-2 boot image header.
#[derive(Clone, Debug, PartialEq)]
pub struct AospHeader2 {
    /// Header magic bytes (8 bytes).
    pub magic: Vec<u8>,
    /// Kernel size, in bytes.
    pub kernel_size: u32,
    /// Address the kernel should be loaded to.
    pub kernel_load_address: u32,
    /// Ramdisk size, in bytes.
    pub ramdisk_size: u32,
    /// Address the ramdisk should be loaded to.
    pub ramdisk_load_address: u32,
    /// Size of an optional second file.
    pub second_size: u32,
    /// Address the optional second file should be loaded to.
    pub second_load_address: u32,
    /// Physical address of the kernel tags.
    pub kernel_tags_address: u32,
    /// The page size.
    pub page_size: u32,
    /// Header generation tag; two for this layout.
    pub header_version: u32,
    /// OS version and security patch level.
    pub os_version: u32,
    /// Name of the product (16 bytes), null-terminated ASCII.
    pub product_name: Vec<u8>,
    /// Arguments to pass to the kernel during boot (512 bytes).
    pub boot_arguments: Vec<u8>,
    /// Used to uniquely identify boot images (32 bytes).
    pub unique_id: Vec<u8>,
    /// Extra room for kernel boot arguments (1024 bytes).
    pub extra_boot_arguments: Vec<u8>,
    /// Size of the recovery DTBO blob, in bytes.
    pub recovery_dtbo_size: u32,
    /// Offset of the recovery DTBO blob in the image.
    pub recovery_dtbo_offset: u64,
    /// The header record's own size, in bytes.
    pub header_size: u32,
    /// Size of the device-tree blob, in bytes.
    pub dtb_size: u32,
    /// Address the device-tree blob should be loaded to.
    pub dtb_address: u64,
}

impl View for AospHeader2 {
    type V = AospHeader2View;

    open spec fn view(&self) -> AospHeader2View {
        AospHeader2View {
            magic: self.magic@,
            kernel_size: self.kernel_size,
            kernel_load_address: self.kernel_load_address,
            ramdisk_size: self.ramdisk_size,
            ramdisk_load_address: self.ramdisk_load_address,
            second_size: self.second_size,
            second_load_address: self.second_load_address,
            kernel_tags_address: self.kernel_tags_address,
            page_size: self.page_size,
            header_version: self.header_version,
            os_version: self.os_version,
            product_name: self.product_name@,
            boot_arguments: self.boot_arguments@,
            unique_id: self.unique_id@,
            extra_boot_arguments: self.extra_boot_arguments@,
            recovery_dtbo_size: self.recovery_dtbo_size,
            recovery_dtbo_offset: self.recovery_dtbo_offset,
            header_size: self.header_size,
            dtb_size: self.dtb_size,
            dtb_address: self.dtb_address,
        }
    }
}

impl AospHeader2 {
    /// Decodes a header from the leading 1660 bytes of `source`; performs
    /// no magic check and cannot fail.
    pub fn parse(source: &[u8]) -> (r: Self)
        requires
            source@.len() >= AOSP2_HEADER_SIZE,
        ensures
            r@ == spec_parse_v2(source@),
            r@.wf(),
    {
        AospHeader2 {
            magic: copy_range(source, 0, 8),
            kernel_size: read_u32_at(source, 8),
            kernel_load_address: read_u32_at(source, 12),
            ramdisk_size: read_u32_at(source, 16),
            ramdisk_load_address: read_u32_at(source, 20),
            second_size: read_u32_at(source, 24),
            second_load_address: read_u32_at(source, 28),
            kernel_tags_address: read_u32_at(source, 32),
            page_size: read_u32_at(source, 36),
            header_version: read_u32_at(source, 40),
            os_version: read_u32_at(source, 44),
            product_name: copy_range(source, 48, 16),
            boot_arguments: copy_range(source, 64, 512),
            unique_id: copy_range(source, 576, 32),
            extra_boot_arguments: copy_range(source, 608, 1024),
            recovery_dtbo_size: read_u32_at(source, 1632),
            recovery_dtbo_offset: read_u64_at(source, 1636),
            header_size: read_u32_at(source, 1644),
            dtb_size: read_u32_at(source, 1648),
            dtb_address: read_u64_at(source, 1652),
        }
    }

    /// Serializes every field in the fixed order and byte width used by
    /// `parse`, producing exactly 1660 bytes.
    pub fn serialize(&self) -> (r: Vec<u8>)
        requires
            self@.wf(),
        ensures
            r@ == spec_encode_v2(self@),
            r@.len() == AOSP2_HEADER_SIZE,
    {
        let mut out: Vec<u8> = Vec::new();
        push_bytes(&mut out, self.magic.as_slice());
        push_u32_le(&mut out, self.kernel_size);
        push_u32_le(&mut out, self.kernel_load_address);
        push_u32_le(&mut out, self.ramdisk_size);
        push_u32_le(&mut out, self.ramdisk_load_address);
        push_u32_le(&mut out, self.second_size);
        push_u32_le(&mut out, self.second_load_address);
        push_u32_le(&mut out, self.kernel_tags_address);
        push_u32_le(&mut out, self.page_size);
        push_u32_le(&mut out, self.header_version);
        push_u32_le(&mut out, self.os_version);
        push_bytes(&mut out, self.product_name.as_slice());
        push_bytes(&mut out, self.boot_arguments.as_slice());
        push_bytes(&mut out, self.unique_id.as_slice());
        push_bytes(&mut out, self.extra_boot_arguments.as_slice());
        push_u32_le(&mut out, self.recovery_dtbo_size);
        push_u64_le(&mut out, self.recovery_dtbo_offset);
        push_u32_le(&mut out, self.header_size);
        push_u32_le(&mut out, self.dtb_size);
        push_u64_le(&mut out, self.dtb_address);
        proof {
            assert(out@ =~= spec_encode_v2(self@));
            lemma_encode_len_v2(self@);
        }
        out
    }

    /// Compares the stored magic bytes to the format's constant.
    pub fn has_correct_magic(&self) -> (r: bool)
        ensures
            r == (self@.magic == spec_android_magic()),
    {
        let magic = android_magic();
        crate::bytes::bytes_eq(self.magic.as_slice(), magic.as_slice())
    }
}

/// Conventional defaults for a programmatically built generation-2 header.
pub open spec fn spec_default_v2() -> AospHeader2View {
    AospHeader2View {
        magic: spec_android_magic(),
        kernel_size: 0,
        kernel_load_address: 0x10008000,
        ramdisk_size: 0,
        ramdisk_load_address: 0x11000000,
        second_size: 0,
        second_load_address: 0x100F0000,
        kernel_tags_address: 0x10000100,
        page_size: 2048,
        header_version: 2,
        os_version: 0,
        product_name: zero_bytes(16),
        boot_arguments: zero_bytes(512),
        unique_id: zero_bytes(32),
        extra_boot_arguments: zero_bytes(1024),
        recovery_dtbo_size: 0,
        recovery_dtbo_offset: 0,
        header_size: AOSP2_HEADER_SIZE as u32,
        dtb_size: 0,
        dtb_address: 0,
    }
}

impl Default for AospHeader2 {
    /// Produces the conventional default header for programmatic
    /// construction.
    fn default() -> (r: Self)
        ensures
            r@ == spec_default_v2(),
            r@.wf(),
    {
        AospHeader2 {
            magic: android_magic(),
            kernel_size: 0,
            kernel_load_address: 0x10008000,
            ramdisk_size: 0,
            ramdisk_load_address: 0x11000000,
            second_size: 0,
            second_load_address: 0x100F0000,
            kernel_tags_address: 0x10000100,
            page_size: 2048,
            header_version: 2,
            os_version: 0,
            product_name: zero_vec(16),
            boot_arguments: zero_vec(512),
            unique_id: zero_vec(32),
            extra_boot_arguments: zero_vec(1024),
            recovery_dtbo_size: 0,
            recovery_dtbo_offset: 0,
            header_size: 1660,
            dtb_size: 0,
            dtb_address: 0,
        }
    }
}

/// The mathematical image of a generation-3 header.
#[verifier::ext_equal]
pub ghost struct AospHeader3View {
    /// Header magic bytes.
    pub magic: Seq<u8>,
    /// Kernel size, in bytes.
    pub kernel_size: u32,
    /// Ramdisk size, in bytes.
    pub ramdisk_size: u32,
    /// OS version and security patch level.
    pub os_version: u32,
    /// The header record's own size, in bytes.
    pub header_size: u32,
    /// Reserved block; round-trips unchanged but carries no meaning.
    pub reserved: Seq<u8>,
    /// Header generation tag; three for this layout.
    pub header_version: u32,
    /// Kernel boot arguments.
    pub boot_arguments: Seq<u8>,
}

impl AospHeader3View {
    /// Every variable-width field has its fixed on-wire length.
    pub open spec fn wf(self) -> bool {
        &&& self.magic.len() == 8
        &&& self.reserved.len() == 16
        &&& self.boot_arguments.len() == 1536
    }
}

/// The exact byte encoding of a generation-3 header.
pub open spec fn spec_encode_v3(h: AospHeader3View) -> Seq<u8> {
    h.magic + spec_u32_to_le_bytes(h.kernel_size) + spec_u32_to_le_bytes(h.ramdisk_size)
        + spec_u32_to_le_bytes(h.os_version) + spec_u32_to_le_bytes(h.header_size) + h.reserved
        + spec_u32_to_le_bytes(h.header_version) + h.boot_arguments
}

/// The generation-3 header denoted by the first 1580 bytes of `b`.
pub open spec fn spec_parse_v3(b: Seq<u8>) -> AospHeader3View
    recommends
        b.len() >= AOSP3_HEADER_SIZE,
{
    AospHeader3View {
        magic: b.subrange(0, 8),
        kernel_size: spec_u32_from_le_bytes(b.subrange(8, 12)),
        ramdisk_size: spec_u32_from_le_bytes(b.subrange(12, 16)),
        os_version: spec_u32_from_le_bytes(b.subrange(16, 20)),
        header_size: spec_u32_from_le_bytes(b.subrange(20, 24)),
        reserved: b.subrange(24, 40),
        header_version: spec_u32_from_le_bytes(b.subrange(40, 44)),
        boot_arguments: b.subrange(44, 1580),
    }
}

/// A serialized generation-3 header is 1580 bytes long.
pub proof fn lemma_encode_len_v3(h: AospHeader3View)
    requires
        h.wf(),
    ensures
        spec_encode_v3(h).len() == AOSP3_HEADER_SIZE,
{
    lemma_auto_spec_u32_to_from_le_bytes();
}

/// Round-trip law for generation 3: parsing a serialized header recovers
/// every field, the reserved block included.
pub proof fn lemma_parse_encode_v3(h: AospHeader3View)
    requires
        h.wf(),
    ensures
        spec_parse_v3(spec_encode_v3(h)) == h,
{
    lemma_auto_spec_u32_to_from_le_bytes();
    let e = spec_encode_v3(h);
    assert(e.subrange(0, 8) =~= h.magic);
    assert(e.subrange(8, 12) =~= spec_u32_to_le_bytes(h.kernel_size));
    assert(e.subrange(12, 16) =~= spec_u32_to_le_bytes(h.ramdisk_size));
    assert(e.subrange(16, 20) =~= spec_u32_to_le_bytes(h.os_version));
    assert(e.subrange(20, 24) =~= spec_u32_to_le_bytes(h.header_size));
    assert(e.subrange(24, 40) =~= h.reserved);
    assert(e.subrange(40, 44) =~= spec_u32_to_le_bytes(h.header_version));
    assert(e.subrange(44, 1580) =~= h.boot_arguments);
    assert(spec_parse_v3(e) =~= h);
}

/// The opposite direction for generation 3: re-serializing a parsed
/// header reproduces the original record byte for byte.
pub proof fn lemma_encode_parse_v3(b: Seq<u8>)
    requires
        b.len() >= AOSP3_HEADER_SIZE,
    ensures
        spec_encode_v3(spec_parse_v3(b)) == b.subrange(0, AOSP3_HEADER_SIZE as int),
{
    lemma_auto_spec_u32_to_from_le_bytes();
    let h = spec_parse_v3(b);
    assert(spec_u32_to_le_bytes(h.kernel_size) =~= b.subrange(8, 12));
    assert(spec_u32_to_le_bytes(h.ramdisk_size) =~= b.subrange(12, 16));
    assert(spec_u32_to_le_bytes(h.os_version) =~= b.subrange(16, 20));
    assert(spec_u32_to_le_bytes(h.header_size) =~= b.subrange(20, 24));
    assert(spec_u32_to_le_bytes(h.header_version) =~= b.subrange(40, 44));
    assert(spec_encode_v3(h) =~= b.subrange(0, AOSP3_HEADER_SIZE as int));
}

/// An AOSP generation-3 boot image header.
#[derive(Clone, Debug, PartialEq)]
pub struct AospHeader3 {
    /// Header magic bytes (8 bytes).
    pub magic: Vec<u8>,
    /// Kernel size, in bytes.
    pub kernel_size: u32,
    /// Ramdisk size, in bytes.
    pub ramdisk_size: u32,
    /// OS version and security patch level.
    pub os_version: u32,
    /// The header record's own size, in bytes.
    pub header_size: u32,
    /// Reserved block (16 bytes); carries no meaning but round-trips
    /// unchanged.
    pub reserved: Vec<u8>,
    /// Header generation tag; three for this layout.
    pub header_version: u32,
    /// Arguments to pass to the kernel during boot (1536 bytes).
    pub boot_arguments: Vec<u8>,
}

impl View for AospHeader3 {
    type V = AospHeader3View;

    open spec fn view(&self) -> AospHeader3View {
        AospHeader3View {
            magic: self.magic@,
            kernel_size: self.kernel_size,
            ramdisk_size: self.ramdisk_size,
            os_version: self.os_version,
            header_size: self.header_size,
            reserved: self.reserved@,
            header_version: self.header_version,
            boot_arguments: self.boot_arguments@,
        }
    }
}

impl AospHeader3 {
    /// Decodes a header from the leading 1580 bytes of `source`; performs
    /// no magic check and cannot fail.
    pub fn parse(source: &[u8]) -> (r: Self)
        requires
            source@.len() >= AOSP3_HEADER_SIZE,
        ensures
            r@ == spec_parse_v3(source@),
            r@.wf(),
    {
        AospHeader3 {
            magic: copy_range(source, 0, 8),
            kernel_size: read_u32_at(source, 8),
            ramdisk_size: read_u32_at(source, 12),
            os_version: read_u32_at(source, 16),
            header_size: read_u32_at(source, 20),
            reserved: copy_range(source, 24, 16),
            header_version: read_u32_at(source, 40),
            boot_arguments: copy_range(source, 44, 1536),
        }
    }

    /// Serializes every field in the fixed order and byte width used by
    /// `parse`, producing exactly 1580 bytes.
    pub fn serialize(&self) -> (r: Vec<u8>)
        requires
            self@.wf(),
        ensures
            r@ == spec_encode_v3(self@),
            r@.len() == AOSP3_HEADER_SIZE,
    {
        let mut out: Vec<u8> = Vec::new();
        push_bytes(&mut out, self.magic.as_slice());
        push_u32_le(&mut out, self.kernel_size);
        push_u32_le(&mut out, self.ramdisk_size);
        push_u32_le(&mut out, self.os_version);
        push_u32_le(&mut out, self.header_size);
        push_bytes(&mut out, self.reserved.as_slice());
        push_u32_le(&mut out, self.header_version);
        push_bytes(&mut out, self.boot_arguments.as_slice());
        proof {
            assert(out@ =~= spec_encode_v3(self@));
            lemma_encode_len_v3(self@);
        }
        out
    }

    /// Compares the stored magic bytes to the format's constant.
    pub fn has_correct_magic(&self) -> (r: bool)
        ensures
            r == (self@.magic == spec_android_magic()),
    {
        let magic = android_magic();
        crate::bytes::bytes_eq(self.magic.as_slice(), magic.as_slice())
    }
}

/// Conventional defaults for a programmatically built generation-3 header.
pub open spec fn spec_default_v3() -> AospHeader3View {
    AospHeader3View {
        magic: spec_android_magic(),
        kernel_size: 0,
        ramdisk_size: 0,
        os_version: 0,
        header_size: AOSP3_HEADER_SIZE as u32,
        reserved: zero_bytes(16),
        header_version: 3,
        boot_arguments: zero_bytes(1536),
    }
}

impl Default for AospHeader3 {
    /// Produces the conventional default header for programmatic
    /// construction.
    fn default() -> (r: Self)
        ensures
            r@ == spec_default_v3(),
            r@.wf(),
    {
        AospHeader3 {
            magic: android_magic(),
            kernel_size: 0,
            ramdisk_size: 0,
            os_version: 0,
            header_size: 1580,
            reserved: zero_vec(16),
            header_version: 3,
            boot_arguments: zero_vec(1536),
        }
    }
}

} // verus!
