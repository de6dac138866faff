use vstd::prelude::*;

pub mod clock_text;
pub mod countdown;
pub mod particles;
pub mod overlay;
pub mod duration_input;

verus! {

} // verus!
