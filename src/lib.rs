use vstd::prelude::*;

pub mod comment;
pub mod decl;
pub mod files;
pub mod laws;
pub mod model;
pub mod parse;
pub mod render;
pub mod scan;
pub mod text;

verus! {

} // verus!
