//! Where the program keeps its files, and what it logs to them.

use vstd::prelude::*;

pub mod event_logger;
pub mod logger;

verus! {

/// The three names by which the platform's conventions place the program's
/// data directory.
pub const QUALIFIER: &'static str = "xyz";

pub const ORGANIZATION: &'static str = "mufanc";

pub const APPLICATION: &'static str = "boa";

} // verus!
