//! The members of a service builder that are set at most once.

use vstd::prelude::*;

verus! {

#[allow(non_camel_case_types)]
pub struct handlers;

#[allow(non_camel_case_types)]
pub struct options;

} // verus!
