//! A rotozoomer for a monochrome display of 128 columns and 64 rows: a
//! fixed-point affine transform, the animation that drives it from the beat
//! of the music, and the rasterizer that samples a 128 x 128 bitmap through
//! the transform, with the bitmap repeating in both directions.

pub mod affine_lemmas;
pub mod affine_matrix;
pub mod animation;
pub mod audio;
pub mod bitmap;
pub mod congruence;
pub mod display;
pub mod fixed_point;
pub mod raster;
pub mod render_loop;
