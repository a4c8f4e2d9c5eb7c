use crate::error::Error;
use crate::names::{digit_str, spec_digit_char};
use vstd::prelude::*;

verus! {

/// How many units of a coordinate make one degree.
pub const UNITS_PER_DEGREE: i32 = 10_000_000;

/// The northernmost latitude, in units; the southernmost is its negative.
pub const MAX_LAT: i32 = 900_000_000;

/// The easternmost longitude, in units; the westernmost is its negative.
pub const MAX_LON: i32 = 1_800_000_000;

/// A latitude between 90° south and 90° north, both included.
pub open spec fn valid_lat(lat: int) -> bool {
    -900_000_000 <= lat <= 900_000_000
}

/// A longitude between 180° west and 180° east, both included.
pub open spec fn valid_lon(lon: int) -> bool {
    -1_800_000_000 <= lon <= 1_800_000_000
}

/// The whole degrees of an angle given in units, rounded toward zero.
pub open spec fn trunc_degrees(units: int) -> int {
    if units >= 0 {
        units / 10_000_000
    } else {
        -((-units) / 10_000_000)
    }
}

/// The whole degrees of an angle given in units, rounded toward the south or
/// west.
pub open spec fn floor_degrees(units: int) -> int {
    units / 10_000_000
}

/// A point on the globe. Latitude and longitude are fixed-point numbers of
/// degrees with seven decimal places: `lat == 444_480_403` is 44.4480403° north,
/// `lon == -70_000_000` is 7° west.
#[derive(Clone, Copy, Debug, PartialEq, Eq, PartialOrd, Ord, Hash, Structural)]
pub struct Coord {
    /// latitude, north-south, in units of 10⁻⁷ degree
    pub lat: i32,
    /// longitude, east-west, in units of 10⁻⁷ degree
    pub lon: i32,
}

impl Coord {
    /// The point lies on the globe.
    pub open spec fn wf(self) -> bool {
        valid_lat(self.lat as int) && valid_lon(self.lon as int)
    }

    /// The whole degrees of the latitude, rounded toward zero.
    pub open spec fn spec_trunc_lat(self) -> int {
        trunc_degrees(self.lat as int)
    }

    /// The whole degrees of the longitude, rounded toward zero.
    pub open spec fn spec_trunc_lon(self) -> int {
        trunc_degrees(self.lon as int)
    }

    /// Tells whether the point lies on the globe.
    pub fn is_valid(&self) -> (res: bool)
        ensures
            res == self.wf(),
    {
        -MAX_LAT <= self.lat && self.lat <= MAX_LAT && -MAX_LON <= self.lon && self.lon <= MAX_LON
    }

    /// The point at `lat`, `lon` if it lies on the globe.
    pub fn opt_new(lat: i32, lon: i32) -> (res: Option<Coord>)
        ensures
            res == if valid_lat(lat as int) && valid_lon(lon as int) {
                Some(Coord { lat, lon })
            } else {
                None
            },
    {
        let coord = Coord { lat, lon };
        if coord.is_valid() {
            Some(coord)
        } else {
            None
        }
    }

    /// The point at `lat`, `lon`, or `OutOfRange` if it does not lie on the
    /// globe.
    pub fn try_new(lat: i32, lon: i32) -> (res: Result<Coord, Error>)
        ensures
            res == if valid_lat(lat as int) && valid_lon(lon as int) {
                Ok::<Coord, Error>(Coord { lat, lon })
            } else {
                Err::<Coord, Error>(Error::OutOfRange)
            },
    {
        match Coord::opt_new(lat, lon) {
            Some(c) => Ok(c),
            None => Err(Error::OutOfRange),
        }
    }

    /// The point at `lat`, `lon`, for a caller who knows that it lies on the
    /// globe.
    pub fn new(lat: i32, lon: i32) -> (res: Coord)
        requires
            valid_lat(lat as int),
            valid_lon(lon as int),
        ensures
            res == (Coord { lat, lon }),
            res.wf(),
    {
        Coord { lat, lon }
    }

    /// The same point moved to the latitude `lat`.
    pub fn with_lat(self, lat: i32) -> (res: Coord)
        requires
            valid_lat(lat as int),
            valid_lon(self.lon as int),
        ensures
            res == (Coord { lat, lon: self.lon }),
            res.wf(),
    {
        Coord::new(lat, self.lon)
    }

    /// The same point moved to the longitude `lon`.
    pub fn with_lon(self, lon: i32) -> (res: Coord)
        requires
            valid_lat(self.lat as int),
            valid_lon(lon as int),
        ensures
            res == (Coord { lat: self.lat, lon }),
            res.wf(),
    {
        Coord::new(self.lat, lon)
    }

    /// The same point moved north by `lat` units (south if negative).
    pub fn add_to_lat(self, lat: i32) -> (res: Coord)
        requires
            valid_lat(self.lat + lat),
            valid_lon(self.lon as int),
        ensures
            res.lat == self.lat + lat,
            res.lon == self.lon,
            res.wf(),
    {
        self.with_lat(self.lat + lat)
    }

    /// The same point moved east by `lon` units (west if negative).
    pub fn add_to_lon(self, lon: i32) -> (res: Coord)
        requires
            valid_lat(self.lat as int),
            valid_lon(self.lon + lon),
        ensures
            res.lat == self.lat,
            res.lon == self.lon + lon,
            res.wf(),
    {
        self.with_lon(self.lon + lon)
    }

    /// The whole degrees of latitude and longitude, each rounded toward zero:
    /// the key of the one-degree cell that holds the point.
    pub fn trunc(&self) -> (res: (i8, i16))
        requires
            self.wf(),
        ensures
            res.0 == self.spec_trunc_lat(),
            res.1 == self.spec_trunc_lon(),
    {
        let lat: i32 = self.lat / UNITS_PER_DEGREE;
        let lon: i32 = self.lon / UNITS_PER_DEGREE;
        (lat as i8, lon as i16)
    }

    /// The letter, `N` or `S`, that a file's name has for the latitude.
    pub open spec fn spec_lat_letter(self) -> char {
        if self.lat >= 0 {
            'N'
        } else {
            'S'
        }
    }

    /// The letter, `E` or `W`, that a file's name has for the longitude.
    pub open spec fn spec_lon_letter(self) -> char {
        if self.lon >= 0 {
            'E'
        } else {
            'W'
        }
    }

    /// The whole degrees of the latitude without their sign.
    pub open spec fn spec_abs_lat(self) -> int {
        if self.lat >= 0 {
            self.spec_trunc_lat()
        } else {
            -self.spec_trunc_lat()
        }
    }

    /// The whole degrees of the longitude without their sign.
    pub open spec fn spec_abs_lon(self) -> int {
        if self.lon >= 0 {
            self.spec_trunc_lon()
        } else {
            -self.spec_trunc_lon()
        }
    }

    /// The stem of the name of the file that holds the point's cell: the
    /// letter of the latitude and its whole degrees in two digits, then the
    /// letter of the longitude and its whole degrees in three digits.
    pub open spec fn spec_stem(self) -> Seq<char> {
        seq![
            self.spec_lat_letter(),
            spec_digit_char(self.spec_abs_lat() / 10),
            spec_digit_char(self.spec_abs_lat() % 10),
            self.spec_lon_letter(),
            spec_digit_char(self.spec_abs_lon() / 100),
            spec_digit_char((self.spec_abs_lon() / 10) % 10),
            spec_digit_char(self.spec_abs_lon() % 10),
        ]
    }

    /// The name of the file that holds the point's cell: the stem and the
    /// extension `.hgt`.
    pub open spec fn spec_filename(self) -> Seq<char> {
        self.spec_stem() + seq!['.', 'h', 'g', 't']
    }

    /// The name of the file that holds the elevation of this point, such as
    /// `N44E015.hgt`.
    pub fn get_filename(self) -> (name: String)
        requires
            self.wf(),
        ensures
            name@ == self.spec_filename(),
    {
        let (lat, lon) = self.trunc();
        let lat: u8 = if lat >= 0 {
            lat as u8
        } else {
            (-lat) as u8
        };
        let lon: u8 = if lon >= 0 {
            lon as u8
        } else {
            (-lon) as u8
        };
        proof {
            reveal_strlit("N");
            reveal_strlit("S");
            reveal_strlit("E");
            reveal_strlit("W");
            reveal_strlit(".hgt");
        }
        let mut name = String::new();
        name.append(if self.lat >= 0 { "N" } else { "S" });
        name.append(digit_str(lat / 10));
        name.append(digit_str(lat % 10));
        name.append(if self.lon >= 0 { "E" } else { "W" });
        name.append(digit_str(lon / 100));
        name.append(digit_str((lon / 10) % 10));
        name.append(digit_str(lon % 10));
        name.append(".hgt");
        assert(name@ =~= self.spec_filename());
        name
    }
}

impl Default for Coord {
    /// The point where the equator meets the prime meridian.
    fn default() -> (res: Coord)
        ensures
            res == (Coord { lat: 0, lon: 0 }),
    {
        Coord { lat: 0, lon: 0 }
    }
}

impl From<(i32, i32)> for Coord {
    /// The point with the latitude and the longitude of the pair, in this
    /// order. Nothing is tested: the point may lie off the globe.
    fn from(value: (i32, i32)) -> (res: Coord) {
        Coord { lat: value.0, lon: value.1 }
    }
}

impl vstd::std_specs::convert::FromSpecImpl<(i32, i32)> for Coord {
    open spec fn obeys_from_spec() -> bool {
        true
    }

    open spec fn from_spec(value: (i32, i32)) -> Coord {
        Coord { lat: value.0, lon: value.1 }
    }
}

} // verus!
