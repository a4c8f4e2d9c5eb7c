//! A reader for SRTM elevation tiles (`.hgt` files).
//!
//! A tile is a square grid of big-endian signed 16-bit elevation samples with
//! no header: the byte length of the file tells the grid's resolution, and the
//! file's name tells which one-degree cell of the globe it covers.
//!
//! Coordinates are fixed-point numbers, in units of 10⁻⁷ degree, so that every
//! computation of the library is exact integer arithmetic.

pub mod coords;
pub mod error;
pub mod grid;
pub mod names;
pub mod resolutions;
pub mod tiles;

pub use coords::Coord;
pub use error::Error;
pub use names::get_lat_long;
pub use resolutions::Resolution;
pub use tiles::{parse_hgt, Source, Tile};

use vstd::prelude::*;

verus! {

/// The name of the file that holds the elevation of `coord`, such as
/// `N44E015.hgt`.
pub fn get_filename(coord: Coord) -> (name: String)
    requires
        coord.wf(),
    ensures
        name@ == coord.spec_filename(),
{
    coord.get_filename()
}

} // verus!
