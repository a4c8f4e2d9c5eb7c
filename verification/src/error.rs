use vstd::prelude::*;

verus! {

/// What can go wrong while a coordinate is made or a tile is loaded.
#[derive(Debug, Clone, Copy, PartialEq, Eq, Structural)]
pub enum Error {
    /// The file is missing or cannot be opened. The library itself opens no
    /// file: this kind is for the caller that does.
    NotFound,
    /// The stem of the file's name is not a sign letter and two digits followed
    /// by a sign letter and three digits.
    ParseLatLong,
    /// The byte length of the file is not that of any supported resolution, or
    /// it could not be found out.
    Filesize,
    /// The body of the file is shorter than its resolution asks for.
    Read,
    /// A latitude or longitude lies outside the globe.
    OutOfRange,
}

} // verus!
