//! Image container signatures, as the codec's format detection reads them.

use vstd::prelude::*;

verus! {

/// The classes of recognised image container that the service tells apart.
#[derive(Clone, Copy, Debug, PartialEq, Eq, Structural)]
pub enum ImageKind {
    Gif,
    Png,
    /// Any other container the codec recognises (JPEG, BMP, TIFF, ...).
    Other,
}

/// `b` begins with the bytes `p`.
pub open spec fn has_prefix(b: Seq<u8>, p: Seq<u8>) -> bool {
    p.len() <= b.len() && b.subrange(0, p.len() as int) =~= p
}

pub open spec fn png_signature() -> Seq<u8> {
    seq![0x89u8, 0x50, 0x4e, 0x47, 0x0d, 0x0a, 0x1a, 0x0a]
}

/// "GIF89a", the header every GIF the codec writes starts with.
pub open spec fn gif89a_signature() -> Seq<u8> {
    seq![0x47u8, 0x49, 0x46, 0x38, 0x39, 0x61]
}

/// "GIF87a".
pub open spec fn gif87a_signature() -> Seq<u8> {
    seq![0x47u8, 0x49, 0x46, 0x38, 0x37, 0x61]
}

/// The magic prefixes of the containers other than PNG and GIF that the
/// codec recognises: JPEG, WebP ("RIFF"), TIFF (both byte orders), DDS, BMP,
/// ICO, Radiance HDR, the seven PNM variants, farbfeld, AVIF (two forms),
/// OpenEXR and QOI.
pub open spec fn other_signature(b: Seq<u8>) -> bool {
    ||| has_prefix(b, seq![0xffu8, 0xd8, 0xff])
    ||| has_prefix(b, seq![0x52u8, 0x49, 0x46, 0x46])
    ||| has_prefix(b, seq![0x4du8, 0x4d, 0x00, 0x2a])
    ||| has_prefix(b, seq![0x49u8, 0x49, 0x2a, 0x00])
    ||| has_prefix(b, seq![0x44u8, 0x44, 0x53, 0x20])
    ||| has_prefix(b, seq![0x42u8, 0x4d])
    ||| has_prefix(b, seq![0x00u8, 0x00, 0x01, 0x00])
    ||| has_prefix(b, seq![0x23u8, 0x3f, 0x52, 0x41, 0x44, 0x49, 0x41, 0x4e, 0x43, 0x45])
    ||| (has_prefix(b, seq![0x50u8]) && b.len() >= 2 && 0x31 <= b[1] <= 0x37)
    ||| has_prefix(b, seq![0x66u8, 0x61, 0x72, 0x62, 0x66, 0x65, 0x6c, 0x64])
    ||| has_prefix(b, seq![0x00u8, 0x00, 0x00, 0x20, 0x66, 0x74, 0x79, 0x70, 0x61, 0x76, 0x69, 0x66])
    ||| has_prefix(b, seq![0x00u8, 0x00, 0x00, 0x1c, 0x66, 0x74, 0x79, 0x70, 0x61, 0x76, 0x69, 0x66])
    ||| has_prefix(b, seq![0x76u8, 0x2f, 0x31, 0x01])
    ||| has_prefix(b, seq![0x71u8, 0x6f, 0x69, 0x66])
}

/// The container that the magic bytes at the start of `b` announce, or
/// `None` where they match no known container. No two signatures can both
/// match, so the order of the tests does not matter.
pub open spec fn container_kind(b: Seq<u8>) -> Option<ImageKind> {
    if has_prefix(b, png_signature()) {
        Some(ImageKind::Png)
    } else if has_prefix(b, gif89a_signature()) || has_prefix(b, gif87a_signature()) {
        Some(ImageKind::Gif)
    } else if other_signature(b) {
        Some(ImageKind::Other)
    } else {
        None
    }
}

} // verus!
