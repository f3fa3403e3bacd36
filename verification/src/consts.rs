//! Size units shared by the memory model and the loaders.

use vstd::prelude::*;

verus! {

#[allow(non_upper_case_globals)]
pub const KiB: usize = 1024;

#[allow(non_upper_case_globals)]
pub const MiB: usize = 1024 * 1024;

#[allow(non_upper_case_globals)]
pub const GiB: usize = 1024 * 1024 * 1024;

pub const PAGE_SIZE: usize = 4096;

} // verus!
