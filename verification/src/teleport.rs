//! Teleport: resolving an image to a streamable format when the registry
//! has one.
use vstd::prelude::*;
use crate::content::Descriptor;
use crate::consts::DOCKER_V2_MANIFEST;
use crate::text::str_eq;

pub mod overlaybd;

verus! {

/// Plugin to handle swapping out the manifest resolution to a teleportable image.
pub struct Teleport;

/// How a teleport attribute value asks for the image to be swapped.
#[derive(Debug, PartialEq, Eq, Clone, Copy)]
pub enum TeleportMode {
    /// Follow the overlaybd referrer of the image.
    OverlayBd,
    /// Swap one digest for another by hand.
    Manual,
    /// Anything else.
    Unrecognized,
}

/// Index of the first blob that is a docker v2 manifest.
pub open spec fn first_docker_v2(blobs: Seq<Descriptor>) -> Option<int>
    decreases blobs.len(),
{
    if blobs.len() == 0 {
        None
    } else {
        match first_docker_v2(blobs.drop_last()) {
            Some(k) => Some(k),
            None => if blobs.last().media_type@ == DOCKER_V2_MANIFEST@ {
                Some(blobs.len() - 1)
            } else {
                None
            },
        }
    }
}

proof fn lemma_first_docker_v2_prefix(ds: Seq<Descriptor>, n: int, k: int)
    requires
        0 < n <= ds.len(),
        first_docker_v2(ds.take(n)) == Some(k),
    ensures
        first_docker_v2(ds) == Some(k),
    decreases ds.len() - n,
{
    if n < ds.len() {
        assert(ds.take(n + 1).drop_last() == ds.take(n));
        lemma_first_docker_v2_prefix(ds, n + 1, k);
    } else {
        assert(ds.take(n) == ds);
    }
}

impl Teleport {
    /// Reads the teleport format.
    pub fn mode(format: &str) -> (m: TeleportMode)
        ensures
            m == (if format@ == "overlaybd"@ {
                TeleportMode::OverlayBd
            } else if format@ == "manual"@ {
                TeleportMode::Manual
            } else {
                TeleportMode::Unrecognized
            }),
    {
        if str_eq(format, "overlaybd") {
            TeleportMode::OverlayBd
        } else if str_eq(format, "manual") {
            TeleportMode::Manual
        } else {
            TeleportMode::Unrecognized
        }
    }

    /// Finds the streamable manifest among an artifact's blobs: the first
    /// blob that is a docker v2 manifest.
    pub fn streamable_manifest(blobs: &Vec<Descriptor>) -> (r: Option<usize>)
        ensures
            match r {
                Some(k) => first_docker_v2(blobs@) == Some(k as int),
                None => first_docker_v2(blobs@) is None,
            },
    {
        let mut i: usize = 0;
        while i < blobs.len()
            invariant
                i <= blobs@.len(),
                first_docker_v2(blobs@.take(i as int)) is None,
            decreases blobs@.len() - i,
        {
            assert(blobs@.take(i + 1).drop_last() == blobs@.take(i as int));
            assert(blobs@.take(i + 1).last() == blobs@[i as int]);
            if str_eq(blobs[i].media_type.as_str(), DOCKER_V2_MANIFEST) {
                proof {
                    lemma_first_docker_v2_prefix(blobs@, i + 1, i as int);
                }
                return Some(i);
            }
            i = i + 1;
        }
        assert(blobs@.take(blobs@.len() as int) == blobs@);
        None
    }

    /// In manual mode, the swap applies to the image being resolved when its
    /// digest is the one to swap from.
    pub fn swaps(digest: &str, from: &str) -> (b: bool)
        ensures
            b == (digest@ == from@),
    {
        str_eq(digest, from)
    }
}

} // verus!
