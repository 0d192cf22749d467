use vstd::prelude::*;

pub mod app;
pub mod spotify;
pub mod text;

verus! {

/// Number of items asked for per search page; a page this full may have a
/// successor.
pub const PAGE_SIZE: usize = 10;

} // verus!
