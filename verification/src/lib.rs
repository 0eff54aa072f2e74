//! Safe, saturating numeric conversions between integer widths, a family of
//! half-range clampers built on them, and a dense row/column addressable 2D
//! grid container, all with verified contracts.

mod cast;
mod clamper;
mod error;
mod grid2d;

pub use cast::clamped;
pub use clamper::Clamper16;
pub use clamper::Clamper32;
pub use clamper::Clamper64;
pub use clamper::Clamper8;
pub use clamper::lemma_half_range;
pub use cast::lemma_sat_cast_in_range;
pub use cast::lemma_sat_cast_overflow;
pub use cast::lemma_sat_cast_round_trip;
pub use cast::narrowed;
pub use cast::sat_cast;
pub use cast::wrap_to_range;
pub use error::Error;
pub use grid2d::Grid2d;
pub use grid2d::exact_clones;
pub use grid2d::flatten_rows;
pub use grid2d::lemma_flatten_rows_uniform;
pub use grid2d::lemma_from_cols_as_cols_identity;
pub use grid2d::lemma_from_rows_as_row_order_is_flatten;
pub use grid2d::lemma_row_order_col_order_agree;
pub use grid2d::lemma_col_order_bijection;
pub use grid2d::lemma_index_coords_bijection;
pub use grid2d::seq_cloned;
