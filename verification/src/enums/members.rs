//! The members of an enum builder that are set at most once.

use vstd::prelude::*;

verus! {

#[allow(non_camel_case_types)]
pub struct variants;

#[allow(non_camel_case_types)]
pub struct reserved_numbers;

#[allow(non_camel_case_types)]
pub struct reserved_ranges;

#[allow(non_camel_case_types)]
pub struct reserved_names;

#[allow(non_camel_case_types)]
pub struct options;

} // verus!
