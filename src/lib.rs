use vstd::prelude::*;

pub mod entry;
pub mod fspath;
pub mod screen;
pub mod session;
pub mod tree;
pub mod tree_copy;

verus! {

} // verus!
