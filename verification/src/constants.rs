use vstd::prelude::*;

verus! {

/// The name the viewer shows in window titles.
pub const APP_NAME: &'static str = "kurumi";

/// The largest zoom, in percent of the natural page size.
pub const SCALE_MAX_PERCENT: i32 = 500;

/// The smallest zoom, in percent of the natural page size.
pub const SCALE_MIN_PERCENT: i32 = 10;

} // verus!
