//! The commands of the adapter SDK.

use vstd::prelude::*;

verus! {

/// A command the SDK runs for an adapter: emit its manifest, probe a
/// document, or serve one protocol request from standard input.
#[derive(Clone, Debug, PartialEq, Eq)]
pub enum SdkCommand {
    Manifest,
    Probe { path: String },
    Invoke,
}

} // verus!
