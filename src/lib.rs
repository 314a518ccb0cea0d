//! Scoped helpers for large buffers under memory pressure: page locking,
//! page-access advice and a file-backed mapped region.
use vstd::prelude::*;

pub mod advisor;
pub mod locker;
pub mod mapper;
pub mod range;

verus! {

} // verus!
