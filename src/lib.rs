use vstd::prelude::*;

pub mod args_parser;
pub mod bootstrap;
pub mod consts;
pub mod environment;
pub mod error;
pub mod sandbox_lib;

verus! {

} // verus!
