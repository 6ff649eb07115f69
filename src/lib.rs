//! The decisions of a fly-camera demo: when the application quits, and where
//! it looks for its resources. Rendering, input bindings and asset loading
//! belong to the engine and stay with the program that drives this library.

use vstd::prelude::*;

pub mod events;
pub mod state;
pub mod resources;
