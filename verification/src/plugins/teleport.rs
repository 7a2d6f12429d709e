//! Swapping a manifest resolution to a streamable image, and the format
//! conversions that produce one.
use vstd::prelude::*;

verus! {

/// Plugin to handle swapping out the manifest resolution to a teleportable image.
pub struct Teleport;

/// Plugin for formatting nydus.
pub struct FormatNydus;

/// Plugin for formatting overlaybd.
pub struct FormatOverlayBD;

impl Teleport {
    /// The digest the resolution answers with: the first streamable
    /// descriptor's digest when there is one, else the digest being resolved.
    pub fn answer_digest(streamable: Option<String>, current: String) -> (d: String)
        ensures
            d@ == (match streamable {
                Some(s) => s@,
                None => current@,
            }),
    {
        match streamable {
            Some(s) => s,
            None => current,
        }
    }
}

impl FormatNydus {
    /// The process that converts an image to nydus.
    pub fn process() -> (p: &'static str)
        ensures
            p@ == "sh format-nydus.sh"@,
    {
        "sh format-nydus.sh"
    }
}

impl FormatOverlayBD {
    /// The process that converts an image to overlaybd.
    pub fn process() -> (p: &'static str)
        ensures
            p@ == "sh format-overlaybd.sh"@,
    {
        "sh format-overlaybd.sh"
    }
}

} // verus!
