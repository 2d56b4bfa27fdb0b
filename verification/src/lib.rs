//! A verified codec for Android-family boot image containers.
//!
//! A boot image is a fixed-layout header record followed by page-aligned
//! binary sections (kernel, ramdisk, optional second-stage loader, optional
//! device tree).  This crate parses raw bytes into a structured
//! representation, serializes it back byte-exactly, computes the page-aligned
//! layout of every section, validates the leading magic bytes, and locates
//! section byte ranges without copying.  Five historical header formats are
//! supported: the Samsung variant and four generations of the AOSP layout.

pub mod aosp_header;
pub mod bytes;
pub mod errors;
pub mod header_kind;
pub mod image;
pub mod layout;
pub mod magic;
pub mod samsung_header;

pub use aosp_header::AospHeader0;
pub use aosp_header::AospHeader1;
pub use aosp_header::AospHeader2;
pub use aosp_header::AospHeader3;
pub use errors::BadHeaderError;
pub use errors::LayoutError;
pub use errors::LocateSectionError;
pub use errors::ReadBootImageError;
pub use header_kind::HeaderKind;
pub use image::BootImage;
pub use layout::Section;
pub use magic::HeaderFormat;
pub use samsung_header::SamsungHeader;
pub use samsung_header::SAMSUNG_HEADER_SIZE;
