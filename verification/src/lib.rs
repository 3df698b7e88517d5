//! Software presentation of CPU-rendered pixel buffers onto native windows.
//!
//! The crate decides; it performs no native call itself. Each operation on a
//! surface checks its arguments and returns the native calls that put the
//! decision into effect, in the order in which they are to be made. Whoever
//! makes the calls hands back how the run ended, and the surface goes on
//! from there: a frame counts as presented only once its calls were made.
pub mod adapter;
pub mod canvas;
pub mod cg;
pub mod context;
pub mod dib;
pub mod error;
pub mod handle;
pub mod native;
pub mod pattern;
pub mod pixel;
pub mod pool;
pub mod shm;
pub mod surface;
