use vstd::prelude::*;

pub mod args;
pub mod config;
pub mod launch;
pub mod strings;
pub mod tee;
pub mod tempfile;
pub mod trace;

verus! {

/// The exit status reported when the wrapper itself fails.
pub const FAILURE_EXIT_CODE: i32 = 1;

} // verus!
