use vstd::prelude::*;

pub mod ansi;
pub mod position;
pub mod signature;
pub mod ir;
pub mod laws;
pub mod text;

verus! {

} // verus!
