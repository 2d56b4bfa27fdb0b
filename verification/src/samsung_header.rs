//! The Samsung boot-image header: a 616-byte little-endian record.
//!
//! On the wire the record is, in order: magic (8 bytes), kernel size and
//! load address, ramdisk size and load address, second-stage size and load
//! address, device-tree size, a reserved word, kernel tags address and page
//! size (eleven 32-bit little-endian words in all, 44 bytes), product name
//! (24 bytes), kernel boot arguments (512 bytes) and a unique identifier
//! (32 bytes).

use crate::bytes::copy_range;
use crate::bytes::push_bytes;
use crate::bytes::push_u32_le;
use crate::bytes::read_u32_at;
use crate::bytes::zero_bytes;
use crate::bytes::zero_vec;
use crate::errors::ReadBootImageError;
use crate::magic::android_magic;
use crate::magic::spec_android_magic;
use vstd::bytes::lemma_auto_spec_u32_to_from_le_bytes;
use vstd::bytes::spec_u32_from_le_bytes;
use vstd::bytes::spec_u32_to_le_bytes;
use vstd::prelude::*;

verus! {

/// The number of bytes a serialized Samsung header occupies.
pub const SAMSUNG_HEADER_SIZE: usize = 616;

/// The mathematical image of a Samsung header: each field as a plain word
/// or byte sequence.
#[verifier::ext_equal]
pub ghost struct SamsungHeaderView {
    /// Header magic bytes.
    pub magic: Seq<u8>,
    /// Kernel size, in bytes.
    pub kernel_size: u32,
    /// Address the kernel is loaded to.
    pub kernel_load_address: u32,
    /// Ramdisk size, in bytes.
    pub ramdisk_size: u32,
    /// Address the ramdisk is loaded to.
    pub ramdisk_load_address: u32,
    /// Size of the optional second-stage loader, in bytes.
    pub second_size: u32,
    /// Address the second-stage loader is loaded to.
    pub second_load_address: u32,
    /// Size of the device tree, in bytes.
    pub device_tree_size: u32,
    /// Reserved word; round-trips unchanged but carries no meaning.
    pub reserved: u32,
    /// Physical address of the kernel boot tags.
    pub kernel_tags_address: u32,
    /// Alignment unit for every section boundary.
    pub page_size: u32,
    /// Null-terminated ASCII product identifier.
    pub product_name: Seq<u8>,
    /// Kernel boot arguments.
    pub boot_arguments: Seq<u8>,
    /// Unique image identifier.
    pub unique_id: Seq<u8>,
}

impl SamsungHeaderView {
    /// Every variable-width field has its fixed on-wire length.
    pub open spec fn wf(self) -> bool {
        &&& self.magic.len() == 8
        &&& self.product_name.len() == 24
        &&& self.boot_arguments.len() == 512
        &&& self.unique_id.len() == 32
    }
}

/// The exact byte encoding of a header: every field in declared order, each
/// multi-byte word little-endian.
pub open spec fn spec_encode(h: SamsungHeaderView) -> Seq<u8> {
    h.magic + spec_u32_to_le_bytes(h.kernel_size) + spec_u32_to_le_bytes(h.kernel_load_address)
        + spec_u32_to_le_bytes(h.ramdisk_size) + spec_u32_to_le_bytes(h.ramdisk_load_address)
        + spec_u32_to_le_bytes(h.second_size) + spec_u32_to_le_bytes(h.second_load_address)
        + spec_u32_to_le_bytes(h.device_tree_size) + spec_u32_to_le_bytes(h.reserved)
        + spec_u32_to_le_bytes(h.kernel_tags_address) + spec_u32_to_le_bytes(h.page_size)
        + h.product_name + h.boot_arguments + h.unique_id
}

/// The header denoted by the first 616 bytes of `b`: each field decoded at
/// its fixed offset.
pub open spec fn spec_parse(b: Seq<u8>) -> SamsungHeaderView
    recommends
        b.len() >= SAMSUNG_HEADER_SIZE,
{
    SamsungHeaderView {
        magic: b.subrange(0, 8),
        kernel_size: spec_u32_from_le_bytes(b.subrange(8, 12)),
        kernel_load_address: spec_u32_from_le_bytes(b.subrange(12, 16)),
        ramdisk_size: spec_u32_from_le_bytes(b.subrange(16, 20)),
        ramdisk_load_address: spec_u32_from_le_bytes(b.subrange(20, 24)),
        second_size: spec_u32_from_le_bytes(b.subrange(24, 28)),
        second_load_address: spec_u32_from_le_bytes(b.subrange(28, 32)),
        device_tree_size: spec_u32_from_le_bytes(b.subrange(32, 36)),
        reserved: spec_u32_from_le_bytes(b.subrange(36, 40)),
        kernel_tags_address: spec_u32_from_le_bytes(b.subrange(40, 44)),
        page_size: spec_u32_from_le_bytes(b.subrange(44, 48)),
        product_name: b.subrange(48, 72),
        boot_arguments: b.subrange(72, 584),
        unique_id: b.subrange(584, 616),
    }
}

/// A serialized header is 616 bytes long.
pub proof fn lemma_encode_len(h: SamsungHeaderView)
    requires
        h.wf(),
    ensures
        spec_encode(h).len() == SAMSUNG_HEADER_SIZE,
{
    lemma_auto_spec_u32_to_from_le_bytes();
}

/// Round-trip law: parsing a serialized header recovers every field,
/// the reserved padding word included.
pub proof fn lemma_parse_encode(h: SamsungHeaderView)
    requires
        h.wf(),
    ensures
        spec_parse(spec_encode(h)) == h,
{
    lemma_auto_spec_u32_to_from_le_bytes();
    let e = spec_encode(h);
    assert(e.subrange(0, 8) =~= h.magic);
    assert(e.subrange(8, 12) =~= spec_u32_to_le_bytes(h.kernel_size));
    assert(e.subrange(12, 16) =~= spec_u32_to_le_bytes(h.kernel_load_address));
    assert(e.subrange(16, 20) =~= spec_u32_to_le_bytes(h.ramdisk_size));
    assert(e.subrange(20, 24) =~= spec_u32_to_le_bytes(h.ramdisk_load_address));
    assert(e.subrange(24, 28) =~= spec_u32_to_le_bytes(h.second_size));
    assert(e.subrange(28, 32) =~= spec_u32_to_le_bytes(h.second_load_address));
    assert(e.subrange(32, 36) =~= spec_u32_to_le_bytes(h.device_tree_size));
    assert(e.subrange(36, 40) =~= spec_u32_to_le_bytes(h.reserved));
    assert(e.subrange(40, 44) =~= spec_u32_to_le_bytes(h.kernel_tags_address));
    assert(e.subrange(44, 48) =~= spec_u32_to_le_bytes(h.page_size));
    assert(e.subrange(48, 72) =~= h.product_name);
    assert(e.subrange(72, 584) =~= h.boot_arguments);
    assert(e.subrange(584, 616) =~= h.unique_id);
    assert(spec_parse(e) =~= h);
}

/// The opposite direction: re-serializing a parsed header reproduces the
/// original record byte for byte, so a decoded foreign image can be
/// written back bit-exactly.
pub proof fn lemma_encode_parse(b: Seq<u8>)
    requires
        b.len() >= SAMSUNG_HEADER_SIZE,
    ensures
        spec_encode(spec_parse(b)) == b.subrange(0, SAMSUNG_HEADER_SIZE as int),
{
    lemma_auto_spec_u32_to_from_le_bytes();
    let h = spec_parse(b);
    assert(spec_u32_to_le_bytes(h.kernel_size) =~= b.subrange(8, 12));
    assert(spec_u32_to_le_bytes(h.kernel_load_address) =~= b.subrange(12, 16));
    assert(spec_u32_to_le_bytes(h.ramdisk_size) =~= b.subrange(16, 20));
    assert(spec_u32_to_le_bytes(h.ramdisk_load_address) =~= b.subrange(20, 24));
    assert(spec_u32_to_le_bytes(h.second_size) =~= b.subrange(24, 28));
    assert(spec_u32_to_le_bytes(h.second_load_address) =~= b.subrange(28, 32));
    assert(spec_u32_to_le_bytes(h.device_tree_size) =~= b.subrange(32, 36));
    assert(spec_u32_to_le_bytes(h.reserved) =~= b.subrange(36, 40));
    assert(spec_u32_to_le_bytes(h.kernel_tags_address) =~= b.subrange(40, 44));
    assert(spec_u32_to_le_bytes(h.page_size) =~= b.subrange(44, 48));
    assert(spec_encode(h) =~= b.subrange(0, SAMSUNG_HEADER_SIZE as int));
}

/// Parsing looks only at the first 616 bytes.
pub proof fn lemma_parse_prefix(b1: Seq<u8>, b2: Seq<u8>)
    requires
        b1.len() >= SAMSUNG_HEADER_SIZE,
        b2.len() >= SAMSUNG_HEADER_SIZE,
        b1.subrange(0, SAMSUNG_HEADER_SIZE as int) == b2.subrange(0, SAMSUNG_HEADER_SIZE as int),
    ensures
        spec_parse(b1) == spec_parse(b2),
{
    let p1 = b1.subrange(0, SAMSUNG_HEADER_SIZE as int);
    let p2 = b2.subrange(0, SAMSUNG_HEADER_SIZE as int);
    assert forall|i: int, j: int|
        0 <= i <= j <= SAMSUNG_HEADER_SIZE implies b1.subrange(i, j) == b2.subrange(i, j) by {
        assert forall|k: int| 0 <= k < j - i implies b1.subrange(i, j)[k] == b2.subrange(i, j)[k] by {
            assert(b1.subrange(i, j)[k] == p1[i + k]);
            assert(b2.subrange(i, j)[k] == p2[i + k]);
        }
        assert(b1.subrange(i, j) =~= b2.subrange(i, j));
    }
    assert(spec_parse(b1) =~= spec_parse(b2));
}

/// A Samsung-format boot image header.
#[derive(Clone, Debug, PartialEq)]
pub struct SamsungHeader {
    /// Header magic bytes (8 bytes). Used to make sure this is in fact a
    /// header.
    pub magic: Vec<u8>,
    /// Kernel size, in bytes.
    pub kernel_size: u32,
    /// Address the kernel should be loaded to.
    pub kernel_load_address: u32,
    /// Ramdisk size, in bytes.
    pub ramdisk_size: u32,
    /// Address the ramdisk should be loaded to.
    pub ramdisk_load_address: u32,
    /// Size of an optional second file.
    pub second_size: u32,
    /// Address the optional second file should be loaded to.
    pub second_load_address: u32,
    /// The size of the device tree, in bytes.
    pub device_tree_size: u32,
    /// Room for future expansion; carries no meaning but round-trips
    /// unchanged.
    pub reserved: u32,
    /// Physical address of the kernel tags.
    pub kernel_tags_address: u32,
    /// The page size.
    pub page_size: u32,
    /// Name of the product (24 bytes). This is a null-terminated ASCII
    /// string.
    pub product_name: Vec<u8>,
    /// Arguments to pass to the kernel during boot (512 bytes).
    pub boot_arguments: Vec<u8>,
    /// Used to uniquely identify boot images (32 bytes).
    pub unique_id: Vec<u8>,
}

impl View for SamsungHeader {
    type V = SamsungHeaderView;

    open spec fn view(&self) -> SamsungHeaderView {
        SamsungHeaderView {
            magic: self.magic@,
            kernel_size: self.kernel_size,
            kernel_load_address: self.kernel_load_address,
            ramdisk_size: self.ramdisk_size,
            ramdisk_load_address: self.ramdisk_load_address,
            second_size: self.second_size,
            second_load_address: self.second_load_address,
            device_tree_size: self.device_tree_size,
            reserved: self.reserved,
            kernel_tags_address: self.kernel_tags_address,
            page_size: self.page_size,
            product_name: self.product_name@,
            boot_arguments: self.boot_arguments@,
            unique_id: self.unique_id@,
        }
    }
}

impl SamsungHeader {
    /// Decodes a header from the leading 616 bytes of `source`. This does
    /// not perform the magic check, and as a result cannot fail; validation
    /// is the caller's responsibility.
    pub fn parse(source: &[u8]) -> (r: Self)
        requires
            source@.len() >= SAMSUNG_HEADER_SIZE,
        ensures
            r@ == spec_parse(source@),
            r@.wf(),
    {
        SamsungHeader {
            magic: copy_range(source, 0, 8),
            kernel_size: read_u32_at(source, 8),
            kernel_load_address: read_u32_at(source, 12),
            ramdisk_size: read_u32_at(source, 16),
            ramdisk_load_address: read_u32_at(source, 20),
            second_size: read_u32_at(source, 24),
            second_load_address: read_u32_at(source, 28),
            device_tree_size: read_u32_at(source, 32),
            reserved: read_u32_at(source, 36),
            kernel_tags_address: read_u32_at(source, 40),
            page_size: read_u32_at(source, 44),
            product_name: copy_range(source, 48, 24),
            boot_arguments: copy_range(source, 72, 512),
            unique_id: copy_range(source, 584, 32),
        }
    }

    /// Decodes a header from a byte source, failing when fewer than 616
    /// bytes are available.
    pub fn read_from(source: &[u8]) -> (r: Result<Self, ReadBootImageError>)
        ensures
            match r {
                Ok(h) => source@.len() >= SAMSUNG_HEADER_SIZE && h@ == spec_parse(source@)
                    && h@.wf(),
                Err(e) => source@.len() < SAMSUNG_HEADER_SIZE && e
                    == ReadBootImageError::TruncatedInput,
            },
    {
        if source.len() < SAMSUNG_HEADER_SIZE {
            Err(ReadBootImageError::TruncatedInput)
        } else {
            Ok(Self::parse(source))
        }
    }

    /// Serializes every field in the fixed order and byte width used by
    /// `parse`, producing exactly 616 bytes.
    pub fn serialize(&self) -> (r: Vec<u8>)
        requires
            self@.wf(),
        ensures
            r@ == spec_encode(self@),
            r@.len() == SAMSUNG_HEADER_SIZE,
    {
        let mut out: Vec<u8> = Vec::new();
        push_bytes(&mut out, self.magic.as_slice());
        push_u32_le(&mut out, self.kernel_size);
        push_u32_le(&mut out, self.kernel_load_address);
        push_u32_le(&mut out, self.ramdisk_size);
        push_u32_le(&mut out, self.ramdisk_load_address);
        push_u32_le(&mut out, self.second_size);
        push_u32_le(&mut out, self.second_load_address);
        push_u32_le(&mut out, self.device_tree_size);
        push_u32_le(&mut out, self.reserved);
        push_u32_le(&mut out, self.kernel_tags_address);
        push_u32_le(&mut out, self.page_size);
        push_bytes(&mut out, self.product_name.as_slice());
        push_bytes(&mut out, self.boot_arguments.as_slice());
        push_bytes(&mut out, self.unique_id.as_slice());
        proof {
            assert(out@ =~= spec_encode(self@));
            lemma_encode_len(self@);
        }
        out
    }

    /// Compares the stored magic bytes to the format's constant.
    pub fn has_correct_magic(&self) -> (r: bool)
        ensures
            r == (self@.magic == spec_android_magic()),
    {
        let magic = android_magic();
        crate::bytes::bytes_eq(self.magic.as_slice(), magic.as_slice())
    }
}

/// The conventional defaults for a programmatically built header: zero
/// section sizes, the customary load addresses, a 2048-byte page and zeroed
/// strings and identifier.
pub open spec fn spec_default_header() -> SamsungHeaderView {
    SamsungHeaderView {
        magic: spec_android_magic(),
        kernel_size: 0,
        kernel_load_address: 0x10008000,
        ramdisk_size: 0,
        ramdisk_load_address: 0x11000000,
        second_size: 0,
        second_load_address: 0x100F0000,
        device_tree_size: 0,
        reserved: 0x02000000,
        kernel_tags_address: 0x10000100,
        page_size: 2048,
        product_name: zero_bytes(24),
        boot_arguments: zero_bytes(512),
        unique_id: zero_bytes(32),
    }
}

impl Default for SamsungHeader {
    /// Produces the conventional default header for programmatic
    /// construction.
    fn default() -> (r: Self)
        ensures
            r@ == spec_default_header(),
            r@.wf(),
    {
        SamsungHeader {
            magic: android_magic(),
            kernel_size: 0,
            kernel_load_address: 0x10008000,
            ramdisk_size: 0,
            ramdisk_load_address: 0x11000000,
            second_size: 0,
            second_load_address: 0x100F0000,
            device_tree_size: 0,
            reserved: 0x02000000,
            kernel_tags_address: 0x10000100,
            page_size: 2048,
            product_name: zero_vec(24),
            boot_arguments: zero_vec(512),
            unique_id: zero_vec(32),
        }
    }
}

} // verus!
