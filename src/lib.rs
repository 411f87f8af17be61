//! Core of a small wallpaper browser: the image descriptors fetched from the
//! daily-image service, the on-disk cache layout and download plan, and the
//! state machine that tracks which image is shown.
use vstd::prelude::*;

pub mod cache;
pub mod descriptor;
pub mod fetch;
pub mod text;
pub mod viewer;

verus! {

} // verus!
