//! Batch compositing of foreground images onto background images: the
//! decisions of the job (which pairs, where each foreground goes, what each
//! result is called) as verified functions.

pub mod config;
pub mod naming;
pub mod placement;
pub mod plan;
pub mod raster;
