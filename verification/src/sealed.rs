//! The seal of the typestate traits.

use vstd::prelude::*;

verus! {

/// A token that code outside this crate cannot reach; the typestate traits carry
/// it so that no other crate can implement them.
pub struct Sealed;

} // verus!
