//! `MTLStorageMode` raw values.
use vstd::prelude::*;

verus! {

pub const SHARED: usize = 0;
pub const MANAGED: usize = 1;
pub const PRIVATE: usize = 2;
pub const MEMORYLESS: usize = 3;

} // verus!
