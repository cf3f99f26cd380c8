//! Removal of compression artifacts from block-compressed images, integer
//! side: per-channel coefficient records and their geometry, the index maps
//! that move samples between the raster and block-major layouts and that
//! upsample subsampled channels, the dequantized frequency-domain reference,
//! and the per-frequency feasibility intervals that the optimizer's
//! projection stage enforces. The floating-point descent loop itself
//! consumes these values outside the library.

pub mod feasible;
pub mod jpeg;
pub mod layout;
pub mod upsample;
