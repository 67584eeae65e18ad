//! Preview image records.
//!
//! The properties table may carry a preview image and a compressed
//! preview image. Their payloads are opaque to this library: the table
//! walker notes the records and skips their bodies.

use vstd::prelude::*;

verus! {

/// Marker for a preview image record; its payload is not decoded.
#[derive(Debug, Clone, Copy, PartialEq, Eq, Structural)]
pub struct PreviewImage;

/// Marker for a compressed preview image record; its payload is not
/// decoded.
#[derive(Debug, Clone, Copy, PartialEq, Eq, Structural)]
pub struct CompressedPreviewImage;

impl Default for PreviewImage {
    fn default() -> (r: PreviewImage) {
        PreviewImage
    }
}

impl Default for CompressedPreviewImage {
    fn default() -> (r: CompressedPreviewImage) {
        CompressedPreviewImage
    }
}

} // verus!
