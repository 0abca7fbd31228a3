//! Rendering of typed database values and result sets as text and JSON.
use vstd::prelude::*;

pub mod digits;
pub mod value;
pub mod fmt_util;
pub mod calendar;
pub mod render;
pub mod source;
pub mod table;
pub mod json;
pub mod pipeline;
pub mod laws;

verus! {

} // verus!
