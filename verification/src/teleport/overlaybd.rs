//! Converting an image to overlaybd when teleport found no streamable format.
use vstd::prelude::*;

verus! {

/// Plugin for formatting overlaybd.
pub struct FormatOverlayBD;

impl FormatOverlayBD {
    /// Conversion runs only when teleport marked the image as requiring it.
    pub fn converts(requires_conversion: Option<bool>) -> (b: bool)
        ensures
            b == (requires_conversion == Some(true)),
    {
        match requires_conversion {
            Some(b) => b,
            None => false,
        }
    }
}

} // verus!
