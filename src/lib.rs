//! A two-layer lock's admission rules (`flocking`), a `key=value` splitter
//! (`kv`), a dotted-path compiler (`mappath`) and a helper that maps a base
//! value over a list of modifiers (`variants`).
use vstd::prelude::*;

pub mod flocking;
pub mod kv;
pub mod mappath;
pub mod variants;

verus! {

} // verus!
