//! Header-format polymorphism: one tagged variant over the five supported
//! header layouts, exposing the shared semantic fields — section sizes, page
//! size, record length, magic check and byte encoding — behind a single
//! abstraction.
//!
//! The page-aligned layout of an image names at most four sections after the
//! header: kernel, ramdisk, second-stage loader and device tree.  The
//! device-tree slot is the variant's device-tree-like blob: the device tree
//! itself for Samsung, the recovery DTBO for generation 1 and the DTB for
//! generation 2; generations 0 and 3 declare none.  Generation 3 also fixes
//! the page size at 4096 and never carries a second-stage loader.

use crate::aosp_header::lemma_encode_len_v0;
use crate::aosp_header::lemma_encode_len_v1;
use crate::aosp_header::lemma_encode_len_v2;
use crate::aosp_header::lemma_encode_len_v3;
use crate::aosp_header::spec_encode_v0;
use crate::aosp_header::spec_encode_v1;
use crate::aosp_header::spec_encode_v2;
use crate::aosp_header::spec_encode_v3;
use crate::aosp_header::spec_parse_v0;
use crate::aosp_header::spec_parse_v1;
use crate::aosp_header::spec_parse_v2;
use crate::aosp_header::spec_parse_v3;
use crate::aosp_header::AospHeader0;
use crate::aosp_header::AospHeader0View;
use crate::aosp_header::AospHeader1;
use crate::aosp_header::AospHeader1View;
use crate::aosp_header::AospHeader2;
use crate::aosp_header::AospHeader2View;
use crate::aosp_header::AospHeader3;
use crate::aosp_header::AospHeader3View;
use crate::aosp_header::AOSP0_HEADER_SIZE;
use crate::aosp_header::AOSP1_HEADER_SIZE;
use crate::aosp_header::AOSP2_HEADER_SIZE;
use crate::aosp_header::AOSP3_HEADER_SIZE;
use crate::aosp_header::AOSP3_PAGE_SIZE;
use crate::magic::spec_android_magic;
use crate::magic::HeaderFormat;
use crate::samsung_header::spec_parse;
use crate::samsung_header::SamsungHeader;
use crate::samsung_header::SamsungHeaderView;
use crate::samsung_header::SAMSUNG_HEADER_SIZE;
use vstd::prelude::*;

verus! {

/// The mathematical image of a header of any supported format.
#[verifier::ext_equal]
pub ghost enum HeaderKindView {
    /// A Samsung-format header.
    Samsung(SamsungHeaderView),
    /// An AOSP generation-0 header.
    Aosp0(AospHeader0View),
    /// An AOSP generation-1 header.
    Aosp1(AospHeader1View),
    /// An AOSP generation-2 header.
    Aosp2(AospHeader2View),
    /// An AOSP generation-3 header.
    Aosp3(AospHeader3View),
}

impl HeaderKindView {
    /// The carried header is well formed.
    pub open spec fn wf(self) -> bool {
        match self {
            HeaderKindView::Samsung(h) => h.wf(),
            HeaderKindView::Aosp0(h) => h.wf(),
            HeaderKindView::Aosp1(h) => h.wf(),
            HeaderKindView::Aosp2(h) => h.wf(),
            HeaderKindView::Aosp3(h) => h.wf(),
        }
    }

    /// The on-wire length of the header record, in bytes.
    pub open spec fn header_length(self) -> int {
        match self {
            HeaderKindView::Samsung(_) => SAMSUNG_HEADER_SIZE as int,
            HeaderKindView::Aosp0(_) => AOSP0_HEADER_SIZE as int,
            HeaderKindView::Aosp1(_) => AOSP1_HEADER_SIZE as int,
            HeaderKindView::Aosp2(_) => AOSP2_HEADER_SIZE as int,
            HeaderKindView::Aosp3(_) => AOSP3_HEADER_SIZE as int,
        }
    }

    /// The declared alignment unit for section boundaries.
    pub open spec fn page_size(self) -> u32 {
        match self {
            HeaderKindView::Samsung(h) => h.page_size,
            HeaderKindView::Aosp0(h) => h.page_size,
            HeaderKindView::Aosp1(h) => h.page_size,
            HeaderKindView::Aosp2(h) => h.page_size,
            HeaderKindView::Aosp3(_) => AOSP3_PAGE_SIZE,
        }
    }

    /// The declared kernel size, in bytes.
    pub open spec fn kernel_size(self) -> u32 {
        match self {
            HeaderKindView::Samsung(h) => h.kernel_size,
            HeaderKindView::Aosp0(h) => h.kernel_size,
            HeaderKindView::Aosp1(h) => h.kernel_size,
            HeaderKindView::Aosp2(h) => h.kernel_size,
            HeaderKindView::Aosp3(h) => h.kernel_size,
        }
    }

    /// The declared ramdisk size, in bytes.
    pub open spec fn ramdisk_size(self) -> u32 {
        match self {
            HeaderKindView::Samsung(h) => h.ramdisk_size,
            HeaderKindView::Aosp0(h) => h.ramdisk_size,
            HeaderKindView::Aosp1(h) => h.ramdisk_size,
            HeaderKindView::Aosp2(h) => h.ramdisk_size,
            HeaderKindView::Aosp3(h) => h.ramdisk_size,
        }
    }

    /// The declared second-stage loader size; zero means absent.
    pub open spec fn second_size(self) -> u32 {
        match self {
            HeaderKindView::Samsung(h) => h.second_size,
            HeaderKindView::Aosp0(h) => h.second_size,
            HeaderKindView::Aosp1(h) => h.second_size,
            HeaderKindView::Aosp2(h) => h.second_size,
            HeaderKindView::Aosp3(_) => 0,
        }
    }

    /// The declared size of the variant's device-tree-like blob; zero means
    /// absent.
    pub open spec fn device_tree_size(self) -> u32 {
        match self {
            HeaderKindView::Samsung(h) => h.device_tree_size,
            HeaderKindView::Aosp0(_) => 0,
            HeaderKindView::Aosp1(h) => h.recovery_dtbo_size,
            HeaderKindView::Aosp2(h) => h.dtb_size,
            HeaderKindView::Aosp3(_) => 0,
        }
    }

    /// The stored magic bytes.
    pub open spec fn magic(self) -> Seq<u8> {
        match self {
            HeaderKindView::Samsung(h) => h.magic,
            HeaderKindView::Aosp0(h) => h.magic,
            HeaderKindView::Aosp1(h) => h.magic,
            HeaderKindView::Aosp2(h) => h.magic,
            HeaderKindView::Aosp3(h) => h.magic,
        }
    }

    /// The byte encoding of the carried header.
    pub open spec fn encode(self) -> Seq<u8> {
        match self {
            HeaderKindView::Samsung(h) => crate::samsung_header::spec_encode(h),
            HeaderKindView::Aosp0(h) => spec_encode_v0(h),
            HeaderKindView::Aosp1(h) => spec_encode_v1(h),
            HeaderKindView::Aosp2(h) => spec_encode_v2(h),
            HeaderKindView::Aosp3(h) => spec_encode_v3(h),
        }
    }
}

/// A serialized header of any format has its format's record length.
pub proof fn lemma_kind_encode_len(h: HeaderKindView)
    requires
        h.wf(),
    ensures
        h.encode().len() == h.header_length(),
{
    match h {
        HeaderKindView::Samsung(v) => crate::samsung_header::lemma_encode_len(v),
        HeaderKindView::Aosp0(v) => lemma_encode_len_v0(v),
        HeaderKindView::Aosp1(v) => lemma_encode_len_v1(v),
        HeaderKindView::Aosp2(v) => lemma_encode_len_v2(v),
        HeaderKindView::Aosp3(v) => lemma_encode_len_v3(v),
    }
}

/// A parsed header of one of the supported formats.
#[derive(Clone, Debug, PartialEq)]
pub enum HeaderKind {
    /// A Samsung-format header.
    Samsung(SamsungHeader),
    /// An AOSP generation-0 header.
    Aosp0(AospHeader0),
    /// An AOSP generation-1 header.
    Aosp1(AospHeader1),
    /// An AOSP generation-2 header.
    Aosp2(AospHeader2),
    /// An AOSP generation-3 header.
    Aosp3(AospHeader3),
}

impl View for HeaderKind {
    type V = HeaderKindView;

    open spec fn view(&self) -> HeaderKindView {
        match self {
            HeaderKind::Samsung(h) => HeaderKindView::Samsung(h@),
            HeaderKind::Aosp0(h) => HeaderKindView::Aosp0(h@),
            HeaderKind::Aosp1(h) => HeaderKindView::Aosp1(h@),
            HeaderKind::Aosp2(h) => HeaderKindView::Aosp2(h@),
            HeaderKind::Aosp3(h) => HeaderKindView::Aosp3(h@),
        }
    }
}

/// The on-wire record length of the format `f` parses.
pub open spec fn spec_format_length(f: HeaderFormat) -> int {
    match f {
        HeaderFormat::Samsung => SAMSUNG_HEADER_SIZE as int,
        HeaderFormat::Aosp0 => AOSP0_HEADER_SIZE as int,
        HeaderFormat::Aosp1 => AOSP1_HEADER_SIZE as int,
        HeaderFormat::Aosp2 => AOSP2_HEADER_SIZE as int,
        HeaderFormat::Aosp3 => AOSP3_HEADER_SIZE as int,
    }
}

/// The header the format `f` decodes from the leading bytes of `b`.
pub open spec fn spec_parse_kind(f: HeaderFormat, b: Seq<u8>) -> HeaderKindView
    recommends
        b.len() >= spec_format_length(f),
{
    match f {
        HeaderFormat::Samsung => HeaderKindView::Samsung(spec_parse(b)),
        HeaderFormat::Aosp0 => HeaderKindView::Aosp0(spec_parse_v0(b)),
        HeaderFormat::Aosp1 => HeaderKindView::Aosp1(spec_parse_v1(b)),
        HeaderFormat::Aosp2 => HeaderKindView::Aosp2(spec_parse_v2(b)),
        HeaderFormat::Aosp3 => HeaderKindView::Aosp3(spec_parse_v3(b)),
    }
}

impl HeaderKind {
    /// The record length of `f`, for sizing a parse buffer.
    pub fn format_length(f: HeaderFormat) -> (r: usize)
        ensures
            r == spec_format_length(f),
    {
        match f {
            HeaderFormat::Samsung => SAMSUNG_HEADER_SIZE,
            HeaderFormat::Aosp0 => AOSP0_HEADER_SIZE,
            HeaderFormat::Aosp1 => AOSP1_HEADER_SIZE,
            HeaderFormat::Aosp2 => AOSP2_HEADER_SIZE,
            HeaderFormat::Aosp3 => AOSP3_HEADER_SIZE,
        }
    }

    /// Decodes a header of the selected format from the leading bytes of
    /// `source`; performs no magic check and cannot fail.
    pub fn parse(f: HeaderFormat, source: &[u8]) -> (r: Self)
        requires
            source@.len() >= spec_format_length(f),
        ensures
            r@ == spec_parse_kind(f, source@),
            r@.wf(),
    {
        match f {
            HeaderFormat::Samsung => HeaderKind::Samsung(SamsungHeader::parse(source)),
            HeaderFormat::Aosp0 => HeaderKind::Aosp0(AospHeader0::parse(source)),
            HeaderFormat::Aosp1 => HeaderKind::Aosp1(AospHeader1::parse(source)),
            HeaderFormat::Aosp2 => HeaderKind::Aosp2(AospHeader2::parse(source)),
            HeaderFormat::Aosp3 => HeaderKind::Aosp3(AospHeader3::parse(source)),
        }
    }

    /// Serializes the carried header in its format's fixed field order.
    pub fn serialize(&self) -> (r: Vec<u8>)
        requires
            self@.wf(),
        ensures
            r@ == self@.encode(),
            r@.len() == self@.header_length(),
    {
        match self {
            HeaderKind::Samsung(h) => h.serialize(),
            HeaderKind::Aosp0(h) => h.serialize(),
            HeaderKind::Aosp1(h) => h.serialize(),
            HeaderKind::Aosp2(h) => h.serialize(),
            HeaderKind::Aosp3(h) => h.serialize(),
        }
    }

    /// Compares the stored magic bytes to the format's constant.
    pub fn has_correct_magic(&self) -> (r: bool)
        ensures
            r == (self@.magic() == spec_android_magic()),
    {
        match self {
            HeaderKind::Samsung(h) => h.has_correct_magic(),
            HeaderKind::Aosp0(h) => h.has_correct_magic(),
            HeaderKind::Aosp1(h) => h.has_correct_magic(),
            HeaderKind::Aosp2(h) => h.has_correct_magic(),
            HeaderKind::Aosp3(h) => h.has_correct_magic(),
        }
    }

    /// The on-wire length of the header record, in bytes.
    pub fn header_length(&self) -> (r: usize)
        ensures
            r == self@.header_length(),
    {
        match self {
            HeaderKind::Samsung(_) => SAMSUNG_HEADER_SIZE,
            HeaderKind::Aosp0(_) => AOSP0_HEADER_SIZE,
            HeaderKind::Aosp1(_) => AOSP1_HEADER_SIZE,
            HeaderKind::Aosp2(_) => AOSP2_HEADER_SIZE,
            HeaderKind::Aosp3(_) => AOSP3_HEADER_SIZE,
        }
    }

    /// The declared alignment unit for section boundaries.
    pub fn page_size(&self) -> (r: u32)
        ensures
            r == self@.page_size(),
    {
        match self {
            HeaderKind::Samsung(h) => h.page_size,
            HeaderKind::Aosp0(h) => h.page_size,
            HeaderKind::Aosp1(h) => h.page_size,
            HeaderKind::Aosp2(h) => h.page_size,
            HeaderKind::Aosp3(_) => AOSP3_PAGE_SIZE,
        }
    }

    /// The declared kernel size, in bytes.
    pub fn kernel_size(&self) -> (r: u32)
        ensures
            r == self@.kernel_size(),
    {
        match self {
            HeaderKind::Samsung(h) => h.kernel_size,
            HeaderKind::Aosp0(h) => h.kernel_size,
            HeaderKind::Aosp1(h) => h.kernel_size,
            HeaderKind::Aosp2(h) => h.kernel_size,
            HeaderKind::Aosp3(h) => h.kernel_size,
        }
    }

    /// The declared ramdisk size, in bytes.
    pub fn ramdisk_size(&self) -> (r: u32)
        ensures
            r == self@.ramdisk_size(),
    {
        match self {
            HeaderKind::Samsung(h) => h.ramdisk_size,
            HeaderKind::Aosp0(h) => h.ramdisk_size,
            HeaderKind::Aosp1(h) => h.ramdisk_size,
            HeaderKind::Aosp2(h) => h.ramdisk_size,
            HeaderKind::Aosp3(h) => h.ramdisk_size,
        }
    }

    /// The declared second-stage loader size; zero means absent.
    pub fn second_size(&self) -> (r: u32)
        ensures
            r == self@.second_size(),
    {
        match self {
            HeaderKind::Samsung(h) => h.second_size,
            HeaderKind::Aosp0(h) => h.second_size,
            HeaderKind::Aosp1(h) => h.second_size,
            HeaderKind::Aosp2(h) => h.second_size,
            HeaderKind::Aosp3(_) => 0,
        }
    }

    /// The declared size of the variant's device-tree-like blob; zero means
    /// absent.
    pub fn device_tree_size(&self) -> (r: u32)
        ensures
            r == self@.device_tree_size(),
    {
        match self {
            HeaderKind::Samsung(h) => h.device_tree_size,
            HeaderKind::Aosp0(_) => 0,
            HeaderKind::Aosp1(h) => h.recovery_dtbo_size,
            HeaderKind::Aosp2(h) => h.dtb_size,
            HeaderKind::Aosp3(_) => 0,
        }
    }
}

} // verus!
