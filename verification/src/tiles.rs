use crate::coords::{floor_degrees, Coord};
use crate::error::Error;
use crate::grid::{lemma_offsets_in_grid, spec_col, spec_row};
use crate::names::{get_lat_long, lemma_filename_round_trip, spec_lat_lon};
use crate::resolutions::Resolution;
use vstd::prelude::*;

verus! {

/// The sample that marks a place without a known elevation.
pub const NO_DATA: i16 = -9999;

/// The sample does not hold an elevation: it is `-9999` or the least `i16`.
pub open spec fn spec_is_no_data(sample: i16) -> bool {
    sample == -9999 || sample == i16::MIN
}

/// Tells whether the sample marks a place without a known elevation.
pub fn is_no_data(sample: i16) -> (res: bool)
    ensures
        res == spec_is_no_data(sample),
{
    sample == NO_DATA || sample == i16::MIN
}

/// The sample that two bytes hold: a signed 16-bit number, high byte first.
pub open spec fn spec_sample(hi: u8, lo: u8) -> i16 {
    if hi < 128 {
        (256 * hi + lo) as i16
    } else {
        (256 * hi + lo - 65536) as i16
    }
}

/// The first `n` samples that `bytes` hold, row by row.
pub open spec fn spec_samples(bytes: Seq<u8>, n: nat) -> Seq<i16> {
    Seq::new(n, |i: int| spec_sample(bytes[2 * i], bytes[2 * i + 1]))
}

/// The sample that two bytes hold.
pub fn sample(hi: u8, lo: u8) -> (s: i16)
    ensures
        s == spec_sample(hi, lo),
{
    let wide: i32 = 256 * (hi as i32) + (lo as i32);
    if hi < 128 {
        wide as i16
    } else {
        (wide - 65536) as i16
    }
}

/// The samples that the body of a file of resolution `res` holds, or `Read`
/// where the body is too short. Bytes beyond the last sample are not looked at.
pub open spec fn spec_parse_hgt(bytes: Seq<u8>, res: Resolution) -> Result<Seq<i16>, Error> {
    if bytes.len() < res.spec_byte_len() {
        Err(Error::Read)
    } else {
        Ok(spec_samples(bytes, res.spec_total_len()))
    }
}

/// The tile that a file gives, from its path, its byte length and its body.
/// The length is looked at first, then the name, then the body.
pub open spec fn spec_load(path: Seq<char>, file_len: u64, body: Seq<u8>) -> Result<
    TileView,
    Error,
> {
    match Resolution::spec_from_byte_length(file_len) {
        Err(e) => Err(e),
        Ok(res) => match spec_lat_lon(path) {
            Err(e) => Err(e),
            Ok(cell) => match spec_parse_hgt(body, res) {
                Err(e) => Err(e),
                Ok(data) => Ok(
                    TileView { latitude: cell.0, longitude: cell.1, resolution: res, data },
                ),
            },
        },
    }
}

/// What an attempt to read a file brought.
#[derive(Debug, Clone, PartialEq, Eq)]
pub enum Source {
    /// The file is missing or could not be opened.
    Missing,
    /// The file was opened, but its byte length could not be found out.
    Unmeasured,
    /// The file was opened and measured.
    Bytes {
        /// the byte length of the file
        len: u64,
        /// the bytes that could be read of it, from its start
        body: Vec<u8>,
    },
}

/// The tile that an attempt to read the file at `path` gives: `NotFound`
/// for a file that could not be opened, `Filesize` for one that could not be
/// measured, and else what its length, its name and its body give.
pub open spec fn spec_load_source(path: Seq<char>, source: Source) -> Result<TileView, Error> {
    match source {
        Source::Missing => Err(Error::NotFound),
        Source::Unmeasured => Err(Error::Filesize),
        Source::Bytes { len, body } => spec_load(path, len, body@),
    }
}

/// `m` is the greatest of `data`, or 0 where `data` is empty.
pub open spec fn spec_is_max(data: Seq<i16>, m: i16) -> bool {
    if data.len() == 0 {
        m == 0
    } else {
        data.contains(m) && forall|i: int| 0 <= i < data.len() ==> data[i] <= m
    }
}

/// `m` is the least of `data`, or 0 where `data` is empty.
pub open spec fn spec_is_min(data: Seq<i16>, m: i16) -> bool {
    if data.len() == 0 {
        m == 0
    } else {
        data.contains(m) && forall|i: int| 0 <= i < data.len() ==> data[i] >= m
    }
}

/// Reads the samples from the body of a file of resolution `res`: signed
/// 16-bit numbers, high byte first, row by row. A body that is too short gives
/// `Read`; bytes beyond the last sample are not looked at.
pub fn parse_hgt(bytes: &[u8], res: Resolution) -> (parsed: Result<Vec<i16>, Error>)
    ensures
        match parsed {
            Ok(data) => spec_parse_hgt(bytes@, res) == Ok::<Seq<i16>, Error>(data@),
            Err(e) => spec_parse_hgt(bytes@, res) == Err::<Seq<i16>, Error>(e),
        },
{
    let n: usize = res.total_len();
    if bytes.len() < 2 * n {
        return Err(Error::Read);
    }
    let mut elevations: Vec<i16> = Vec::with_capacity(n);
    let mut i: usize = 0;
    while i < n
        invariant
            i <= n <= 51_854_401,
            2 * n <= bytes@.len(),
            elevations@ == spec_samples(bytes@, i as nat),
        decreases n - i,
    {
        elevations.push(sample(bytes[2 * i], bytes[2 * i + 1]));
        i = i + 1;
        assert(elevations@ =~= spec_samples(bytes@, i as nat));
    }
    Ok(elevations)
}

/// What a tile is: the cell it covers, its resolution and its samples.
pub struct TileView {
    pub latitude: i8,
    pub longitude: i16,
    pub resolution: Resolution,
    pub data: Seq<i16>,
}

/// An SRTM tile: the elevations of one cell of the globe, one degree wide and
/// one degree high.
#[derive(Debug, Clone, PartialEq, Eq)]
pub struct Tile {
    /// the whole degrees of latitude that the file's name gives
    pub latitude: i8,
    /// the whole degrees of longitude that the file's name gives
    pub longitude: i16,
    /// the spacing of the samples
    pub resolution: Resolution,
    /// the samples, row by row from the north, each row from the west
    pub data: Vec<i16>,
}

impl View for Tile {
    type V = TileView;

    open spec fn view(&self) -> TileView {
        TileView {
            latitude: self.latitude,
            longitude: self.longitude,
            resolution: self.resolution,
            data: self.data@,
        }
    }
}

impl Tile {
    /// The tile holds as many samples as its resolution asks for.
    pub open spec fn wf(&self) -> bool {
        self.data@.len() == self.resolution.spec_total_len()
    }

    /// The place of the sample in column `x` of row `y`.
    pub open spec fn spec_idx(&self, x: int, y: int) -> int {
        y * self.resolution.spec_extent() + x
    }

    /// The sample in column `x` of row `y`, if the tile reaches that far.
    pub open spec fn spec_at_offset(&self, x: int, y: int) -> Option<i16> {
        if 0 <= self.spec_idx(x, y) < self.data@.len() {
            Some(self.data@[self.spec_idx(x, y)])
        } else {
            None
        }
    }

    /// The elevation that the tile holds for a point, if it holds one.
    pub open spec fn spec_get(&self, coord: Coord) -> Option<i16> {
        let row = spec_row(coord.lat as int, self.resolution.spec_extent() as int);
        let col = spec_col(coord.lon as int, self.resolution.spec_extent() as int);
        match self.spec_at_offset(col, row) {
            Some(sample) => if spec_is_no_data(sample) {
                None
            } else {
                Some(sample)
            },
            None => None,
        }
    }

    /// The point belongs to this tile: its cell is not south or west of the
    /// tile's, and it does not lie on a whole degree of latitude, which is the
    /// row beyond the last.
    pub open spec fn spec_holds(&self, coord: Coord) -> bool {
        &&& coord.wf()
        &&& self.latitude <= coord.spec_trunc_lat()
        &&& self.longitude <= coord.spec_trunc_lon()
        &&& spec_row(coord.lat as int, self.resolution.spec_extent() as int)
            < self.resolution.spec_extent()
    }

    /// A point of the globe that does not lie on a whole degree of latitude
    /// belongs to the tile of its own cell.
    pub proof fn lemma_own_cell_holds(&self, coord: Coord)
        requires
            coord.wf(),
            coord.lat % 10_000_000 != 0,
            self.latitude == coord.spec_trunc_lat(),
            self.longitude == coord.spec_trunc_lon(),
        ensures
            self.spec_holds(coord),
    {
        lemma_offsets_in_grid(
            coord.lat as int,
            coord.lon as int,
            self.resolution.spec_extent() as int,
        );
    }

    /// A tile with all its samples has one for every point that belongs to
    /// it, and gives that sample as the point's elevation unless the sample
    /// marks a place without data: then it gives nothing.
    pub proof fn lemma_get_is_sample(&self, coord: Coord)
        requires
            self.wf(),
            self.spec_holds(coord),
        ensures
            ({
                let row = spec_row(coord.lat as int, self.resolution.spec_extent() as int);
                let col = spec_col(coord.lon as int, self.resolution.spec_extent() as int);
                let i = self.spec_idx(col, row);
                &&& 0 <= row < self.resolution.spec_extent()
                &&& 0 <= col < self.resolution.spec_extent()
                &&& 0 <= i < self.data@.len()
                &&& self.spec_get(coord) == if spec_is_no_data(self.data@[i]) {
                    None
                } else {
                    Some(self.data@[i])
                }
            }),
    {
        let extent = self.resolution.spec_extent() as int;
        let row = spec_row(coord.lat as int, extent);
        let col = spec_col(coord.lon as int, extent);
        lemma_offsets_in_grid(coord.lat as int, coord.lon as int, extent);
        assert(0 <= row * extent + col < extent * extent) by (nonlinear_arith)
            requires
                0 <= row < extent,
                0 <= col < extent,
        ;
    }

    /// A tile loaded from the file that is named after a point covers the
    /// cell of that point and has all the samples of its resolution.
    pub proof fn lemma_loaded_tile_covers(coord: Coord, file_len: u64, body: Seq<u8>)
        requires
            coord.wf(),
            spec_load(coord.spec_filename(), file_len, body).is_ok(),
        ensures
            ({
                let tile = spec_load(coord.spec_filename(), file_len, body).unwrap();
                &&& tile.latitude == coord.spec_trunc_lat()
                &&& tile.longitude == coord.spec_trunc_lon()
                &&& Resolution::spec_from_byte_length(file_len) == Ok::<Resolution, Error>(
                    tile.resolution,
                )
                &&& tile.data.len() == tile.resolution.spec_total_len()
            }),
    {
        lemma_filename_round_trip(coord);
    }

    /// What is loaded from a file does not depend on bytes that follow its
    /// last sample: two bodies that hold the same bytes as far as the
    /// resolution asks for give the same result.
    pub proof fn lemma_load_ignores_trailing_bytes(
        path: Seq<char>,
        file_len: u64,
        body: Seq<u8>,
        longer: Seq<u8>,
        res: Resolution,
    )
        requires
            Resolution::spec_from_byte_length(file_len) == Ok::<Resolution, Error>(res),
            body.len() == res.spec_byte_len(),
            longer.len() >= body.len(),
            longer.take(body.len() as int) == body,
        ensures
            spec_load(path, file_len, longer) == spec_load(path, file_len, body),
    {
        let n = res.spec_total_len();
        assert forall|i: int| 0 <= i < n implies #[trigger] spec_samples(longer, n)[i]
            == spec_samples(body, n)[i] by {
            assert(longer[2 * i] == longer.take(body.len() as int)[2 * i]);
            assert(longer[2 * i + 1] == longer.take(body.len() as int)[2 * i + 1]);
        }
        assert(spec_samples(longer, n) =~= spec_samples(body, n));
    }

    /// A tile of the given cell and resolution with the given samples.
    pub fn new(lat: i8, lon: i16, res: Resolution, data: Vec<i16>) -> (tile: Tile)
        ensures
            tile.latitude == lat,
            tile.longitude == lon,
            tile.resolution == res,
            tile.data == data,
    {
        Tile { latitude: lat, longitude: lon, resolution: res, data }
    }

    /// A tile of the given cell and resolution that holds no sample yet.
    pub fn empty(lat: i8, lon: i16, res: Resolution) -> (tile: Tile)
        ensures
            tile@ == (TileView { latitude: lat, longitude: lon, resolution: res, data: Seq::empty() }),
    {
        Tile { latitude: lat, longitude: lon, resolution: res, data: Vec::with_capacity(res.total_len()) }
    }

    /// The place in `data` of the sample in column `x` of row `y`.
    pub fn idx(&self, x: usize, y: usize) -> (i: usize)
        requires
            x < self.resolution.spec_extent(),
            y < self.resolution.spec_extent(),
        ensures
            i == self.spec_idx(x as int, y as int),
            i < self.resolution.spec_total_len(),
    {
        let extent: usize = self.resolution.extent();
        assert(y * extent + x < extent * extent && y * extent <= 7201 * 7201) by (nonlinear_arith)
            requires
                x < extent,
                y < extent,
                extent <= 7201,
        ;
        y * extent + x
    }

    /// The sample in column `x` of row `y`.
    pub fn get_at_offset(&self, x: usize, y: usize) -> (sample: Option<&i16>)
        requires
            x < self.resolution.spec_extent(),
            y < self.resolution.spec_extent(),
        ensures
            match sample {
                Some(s) => self.spec_at_offset(x as int, y as int) == Some(*s),
                None => self.spec_at_offset(x as int, y as int).is_none(),
            },
    {
        let i: usize = self.idx(x, y);
        if i < self.data.len() {
            Some(&self.data[i])
        } else {
            None
        }
    }

    /// The north-west corner of the one-degree cell that holds the point: the
    /// next whole degree north of it, and the whole degree at or west of it.
    pub fn get_origin(&self, coord: Coord) -> (origin: Coord)
        requires
            coord.wf(),
        ensures
            origin.lat == (floor_degrees(coord.lat as int) + 1) * 10_000_000,
            origin.lon == floor_degrees(coord.lon as int) * 10_000_000,
    {
        let north: i64 = (coord.lat as i64 + 900_000_000) % 10_000_000;
        let east: i64 = (coord.lon as i64 + 1_800_000_000) % 10_000_000;
        Coord { lat: (coord.lat as i64 - north + 10_000_000) as i32, lon: (coord.lon as i64 - east) as i32 }
    }

    /// The row and the column of the grid in which the point falls.
    pub fn get_offset(&self, coord: Coord) -> (offset: (usize, usize))
        requires
            coord.wf(),
        ensures
            offset.0 == spec_row(coord.lat as int, self.resolution.spec_extent() as int),
            offset.1 == spec_col(coord.lon as int, self.resolution.spec_extent() as int),
            offset.0 <= self.resolution.spec_extent(),
            offset.1 < self.resolution.spec_extent(),
    {
        let origin = self.get_origin(coord);
        let extent: u64 = self.resolution.extent() as u64;
        let south: u64 = (origin.lat - coord.lat) as u64;
        let east: u64 = (coord.lon - origin.lon) as u64;
        assert(south * extent <= 10_000_000 * extent <= 72_010_000_000 && east * extent
            <= 9_999_999 * extent <= 72_010_000_000) by (nonlinear_arith)
            requires
                south <= 10_000_000,
                east <= 9_999_999,
                extent <= 7201,
        ;
        let row: u64 = south * extent / 10_000_000;
        let col: u64 = east * extent / 10_000_000;
        (row as usize, col as usize)
    }

    /// Tells whether the point belongs to this tile, so that `get` may be
    /// asked for its elevation.
    pub fn holds(&self, coord: Coord) -> (res: bool)
        ensures
            res == self.spec_holds(coord),
    {
        if !coord.is_valid() {
            return false;
        }
        let (lat, lon) = coord.trunc();
        let offset = self.get_offset(coord);
        self.latitude <= lat && self.longitude <= lon && offset.0 < self.resolution.extent()
    }

    /// The elevation of a point of this tile, or `None` where the tile has no
    /// valid elevation for it.
    pub fn get(&self, coord: Coord) -> (elevation: Option<&i16>)
        requires
            self.spec_holds(coord),
        ensures
            match elevation {
                Some(e) => self.spec_get(coord) == Some(*e),
                None => self.spec_get(coord).is_none(),
            },
    {
        let offset = self.get_offset(coord);
        match self.get_at_offset(offset.1, offset.0) {
            Some(sample) => if is_no_data(*sample) {
                None
            } else {
                Some(sample)
            },
            None => None,
        }
    }

    /// The greatest elevation in this tile, or 0 where it holds no sample.
    pub fn max_height(&self) -> (m: i16)
        ensures
            spec_is_max(self.data@, m),
    {
        if self.data.len() == 0 {
            return 0;
        }
        let mut m: i16 = self.data[0];
        let mut i: usize = 1;
        while i < self.data.len()
            invariant
                1 <= i <= self.data@.len(),
                self.data@.contains(m),
                forall|j: int| 0 <= j < i ==> self.data@[j] <= m,
            decreases self.data@.len() - i,
        {
            if self.data[i] > m {
                m = self.data[i];
            }
            i = i + 1;
        }
        m
    }

    /// The least elevation in this tile, or 0 where it holds no sample.
    pub fn min_height(&self) -> (m: i16)
        ensures
            spec_is_min(self.data@, m),
    {
        if self.data.len() == 0 {
            return 0;
        }
        let mut m: i16 = self.data[0];
        let mut i: usize = 1;
        while i < self.data.len()
            invariant
                1 <= i <= self.data@.len(),
                self.data@.contains(m),
                forall|j: int| 0 <= j < i ==> self.data@[j] >= m,
            decreases self.data@.len() - i,
        {
            if self.data[i] < m {
                m = self.data[i];
            }
            i = i + 1;
        }
        m
    }

    /// Reads the samples from the body of a file of resolution `res`: signed
    /// 16-bit numbers, high byte first, row by row.
    pub fn parse_hgt(bytes: &[u8], res: Resolution) -> (parsed: Result<Vec<i16>, Error>)
        ensures
            match parsed {
                Ok(data) => spec_parse_hgt(bytes@, res) == Ok::<Seq<i16>, Error>(data@),
                Err(e) => spec_parse_hgt(bytes@, res) == Err::<Seq<i16>, Error>(e),
            },
    {
        parse_hgt(bytes, res)
    }

    /// Reads the cell that a tile covers from the path of its file, such as
    /// `N35E138.hgt` or `data/S02W087.hgt`. Components of the path are
    /// separated by `/`.
    pub fn get_lat_lon(path: &str) -> (res: Result<(i8, i16), Error>)
        ensures
            res == spec_lat_lon(path@),
    {
        get_lat_long(path)
    }

    /// Makes a tile from what was read of its file: the path, the byte length
    /// that the file system gives for it, and the bytes of the body, which may
    /// be fewer when reading stopped early.
    pub fn from_bytes(path: &str, file_len: u64, body: &[u8]) -> (loaded: Result<Tile, Error>)
        ensures
            match loaded {
                Ok(tile) => spec_load(path@, file_len, body@) == Ok::<TileView, Error>(tile@)
                    && tile.wf(),
                Err(e) => spec_load(path@, file_len, body@) == Err::<TileView, Error>(e),
            },
    {
        let res = match Resolution::from_byte_length(file_len) {
            Ok(res) => res,
            Err(e) => {
                return Err(e);
            },
        };
        let (lat, lon) = match Tile::get_lat_lon(path) {
            Ok(cell) => cell,
            Err(e) => {
                return Err(e);
            },
        };
        match Tile::parse_hgt(body, res) {
            Ok(data) => Ok(Tile::new(lat, lon, res, data)),
            Err(e) => Err(e),
        }
    }

    /// Makes a tile from what an attempt to read the file at `path` brought.
    pub fn from_source(path: &str, source: &Source) -> (loaded: Result<Tile, Error>)
        ensures
            match loaded {
                Ok(tile) => spec_load_source(path@, *source) == Ok::<TileView, Error>(tile@)
                    && tile.wf(),
                Err(e) => spec_load_source(path@, *source) == Err::<TileView, Error>(e),
            },
    {
        match source {
            Source::Missing => Err(Error::NotFound),
            Source::Unmeasured => Err(Error::Filesize),
            Source::Bytes { len, body } => Tile::from_bytes(path, *len, body.as_slice()),
        }
    }
}

impl Default for Tile {
    /// A tile at the equator and the prime meridian, of one arc-second, that
    /// holds no sample.
    fn default() -> (tile: Tile)
        ensures
            tile@ == (TileView {
                latitude: 0,
                longitude: 0,
                resolution: Resolution::SRTM1,
                data: Seq::empty(),
            }),
    {
        Tile { latitude: 0, longitude: 0, resolution: Resolution::SRTM1, data: Vec::new() }
    }
}

} // verus!
