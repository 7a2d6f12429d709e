//! The mirror plugin: hosts a registry mirror configured for containerd.
use vstd::prelude::*;

verus! {

/// Hosts a registry mirror, to extend registry capabilities at runtime.
pub struct Mirror;

} // verus!
