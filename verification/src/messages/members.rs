//! The members of a message builder that are set at most once.

use vstd::prelude::*;

verus! {

#[allow(non_camel_case_types)]
pub struct fields;

#[allow(non_camel_case_types)]
pub struct reserved_numbers;

#[allow(non_camel_case_types)]
pub struct reserved_ranges;

#[allow(non_camel_case_types)]
pub struct reserved_names;

#[allow(non_camel_case_types)]
pub struct oneofs;

} // verus!
