//! Bounded vectors over fixed storage regions that never grow, with an
//! exclusive-access flag per region that lets at most one handle live at a time.

pub mod region;
pub mod vec;

pub use region::Region;
pub use vec::Vec;

use vstd::prelude::*;

verus! {

/// The recoverable error of `Region::acquire`: a live handle holds the region.
#[derive(Debug, PartialEq, Eq, Structural)]
pub enum Error {
    Locked,
}

} // verus!
