//! The private supertrait that keeps the marker traits closed to this crate.

use vstd::prelude::*;

verus! {

pub trait Sealed {}

} // verus!
