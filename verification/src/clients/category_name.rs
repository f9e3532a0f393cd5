use vstd::prelude::*;

verus! {

/// The stored name of the information category.
pub const INFORMASI: &'static str = "informasi";

} // verus!
