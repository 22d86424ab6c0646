//! Turns decoded bitmaps and PNG byte streams into one plain image record
//! (dimensions, raw pixel bytes, PNG color model and bit depth).
use vstd::prelude::*;

pub mod color;
pub mod decode;
pub mod dynamic;
pub mod record;

verus! {

} // verus!
