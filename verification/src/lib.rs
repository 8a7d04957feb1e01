//! Frame-local engine turning an ordered list of immediate-mode 2D drawing
//! primitives into the three buffers a tile-based GPU shader consumes:
//!
//! - a packed buffer of encoded primitive rows ([`primitive::Slot`] values,
//!   one per 4-byte shader slot),
//! - a uniform-grid spatial index mapping each screen tile to the packed
//!   indices of the sub-primitives overlapping it ([`tiles::Tiles`]),
//! - an ordered sequence of draw batches that preserves paint order while
//!   grouping texture-compatible sub-primitives ([`batch::prepare_frame`]).
//!
//! All geometry is carried as exact integers (device pixels) and all encoded
//! slot values as exact rationals or raw 32-bit patterns, so every step of
//! the pipeline is verified: the encoding layout, the tile-grid binning with
//! its edge-exclusion rule, and the order-preserving batch merge.

pub mod batch;
pub mod canvas;
pub mod geom;
pub mod packed;
pub mod primitive;
pub mod scaling;
pub mod shapes;
pub mod text;
pub mod tiles;
