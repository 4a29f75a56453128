//! Storage, mutation and sharing of the CSS rules of a stylesheet.
//!
//! Rules live in cells that belong to a lock domain and are read or written
//! only with a guard of that domain. The rule store classifies, serializes and
//! deep-clones the rule kinds; the insertion engine parses one rule for a
//! position in a rule list; URL data handles are compacted for sharing between
//! processes.
use vstd::prelude::*;

pub mod media_features;
pub mod parser;
pub mod properties;
pub mod shared_lock;
pub mod stylesheets;

verus! {

} // verus!
