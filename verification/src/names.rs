use crate::coords::Coord;
use crate::error::Error;
use vstd::prelude::*;
use vstd::string::StrSliceExecFns;

verus! {

/// The character that stands for the digit `d`.
pub open spec fn spec_digit_char(d: int) -> char {
    (48 + d) as char
}

/// The character is one of `0` to `9`.
pub open spec fn spec_is_digit(c: char) -> bool {
    48 <= c as int <= 57
}

/// The number that the digit `c` stands for.
pub open spec fn spec_digit_value(c: char) -> int {
    c as int - 48
}

/// The one-character string that stands for the digit `d`.
pub fn digit_str(d: u8) -> (s: &'static str)
    requires
        d < 10,
    ensures
        s@ == seq![spec_digit_char(d as int)],
{
    proof {
        reveal_strlit("0");
        reveal_strlit("1");
        reveal_strlit("2");
        reveal_strlit("3");
        reveal_strlit("4");
        reveal_strlit("5");
        reveal_strlit("6");
        reveal_strlit("7");
        reveal_strlit("8");
        reveal_strlit("9");
    }
    let s = match d {
        0 => "0",
        1 => "1",
        2 => "2",
        3 => "3",
        4 => "4",
        5 => "5",
        6 => "6",
        7 => "7",
        8 => "8",
        _ => "9",
    };
    assert(s@ =~= seq![spec_digit_char(d as int)]);
    s
}

/// The number that the digit `c` stands for, if `c` is a digit.
pub fn digit_value(c: char) -> (res: Option<u8>)
    ensures
        res == if spec_is_digit(c) {
            Some(spec_digit_value(c) as u8)
        } else {
            None
        },
{
    if c >= '0' && c <= '9' {
        let v: u32 = c as u32;
        Some((v - 48) as u8)
    } else {
        None
    }
}

/// The position of the last `c` in `s`, or -1 where `s` holds none.
pub open spec fn spec_last_index_of(s: Seq<char>, c: char) -> int
    decreases s.len(),
{
    if s.len() == 0 {
        -1
    } else if s.last() == c {
        s.len() - 1
    } else {
        spec_last_index_of(s.drop_last(), c)
    }
}

/// A position that holds `c` and has no `c` behind it is the last one, and -1
/// is the answer where there is no `c` at all.
pub proof fn lemma_last_index_of(s: Seq<char>, c: char, i: int)
    requires
        -1 <= i < s.len(),
        i >= 0 ==> s[i] == c,
        forall|j: int| i < j < s.len() ==> s[j] != c,
    ensures
        spec_last_index_of(s, c) == i,
    decreases s.len(),
{
    if s.len() > 0 && s.last() != c {
        lemma_last_index_of(s.drop_last(), c, i);
    }
}

/// The last component of a path whose components are separated by `/`.
pub open spec fn spec_base_name(path: Seq<char>) -> Seq<char> {
    path.skip(spec_last_index_of(path, '/') + 1)
}

/// A file name without its extension: what stands before the last `.`, or
/// the whole name where it holds no `.` or only one at its start.
pub open spec fn spec_strip_extension(name: Seq<char>) -> Seq<char> {
    if spec_last_index_of(name, '.') <= 0 {
        name
    } else {
        name.take(spec_last_index_of(name, '.'))
    }
}

/// The stem of the file that a path names.
pub open spec fn spec_file_stem(path: Seq<char>) -> Seq<char> {
    spec_strip_extension(spec_base_name(path))
}

/// The cell that a stem names. A stem is `N` or `S`, two digits, `E` or `W`
/// and three digits, and nothing else; `S` and `W` make the number negative.
pub open spec fn spec_parse_stem(stem: Seq<char>) -> Result<(i8, i16), Error> {
    if stem.len() == 7 && (stem[0] == 'N' || stem[0] == 'S') && spec_is_digit(stem[1])
        && spec_is_digit(stem[2]) && (stem[3] == 'E' || stem[3] == 'W') && spec_is_digit(stem[4])
        && spec_is_digit(stem[5]) && spec_is_digit(stem[6]) {
        let lat = 10 * spec_digit_value(stem[1]) + spec_digit_value(stem[2]);
        let lon = 100 * spec_digit_value(stem[4]) + 10 * spec_digit_value(stem[5])
            + spec_digit_value(stem[6]);
        Ok(
            (
                (if stem[0] == 'N' {
                    lat
                } else {
                    -lat
                }) as i8,
                (if stem[3] == 'E' {
                    lon
                } else {
                    -lon
                }) as i16,
            ),
        )
    } else {
        Err(Error::ParseLatLong)
    }
}

/// The cell that the file at `path` holds, told from its name.
pub open spec fn spec_lat_lon(path: Seq<char>) -> Result<(i8, i16), Error> {
    spec_parse_stem(spec_file_stem(path))
}

/// The position of the last `c` in `s`.
pub fn last_index_of(s: &str, c: char) -> (res: Option<usize>)
    ensures
        match res {
            Some(i) => i < s@.len() && spec_last_index_of(s@, c) == i,
            None => spec_last_index_of(s@, c) == -1,
        },
{
    let n: usize = s.unicode_len();
    let mut i: usize = n;
    while i > 0
        invariant
            i <= n,
            n == s@.len(),
            forall|j: int| i <= j < n ==> s@[j] != c,
        decreases i,
    {
        i = i - 1;
        if s.get_char(i) == c {
            proof {
                lemma_last_index_of(s@, c, i as int);
            }
            return Some(i);
        }
    }
    proof {
        lemma_last_index_of(s@, c, -1);
    }
    None
}

/// The stem of the file that `path` names: the last component of the path,
/// without its extension.
pub fn file_stem<'a>(path: &'a str) -> (stem: &'a str)
    ensures
        stem@ == spec_file_stem(path@),
{
    let n: usize = path.unicode_len();
    let start: usize = match last_index_of(path, '/') {
        Some(i) => i + 1,
        None => 0,
    };
    let name = path.substring_char(start, n);
    assert(name@ =~= spec_base_name(path@));
    match last_index_of(name, '.') {
        Some(k) => {
            if k == 0 {
                name
            } else {
                let stem = name.substring_char(0, k);
                assert(stem@ =~= name@.take(k as int));
                stem
            }
        },
        None => name,
    }
}

/// Reads the cell from the stem of a tile's file name, such as `N44E015`
/// or `S02W087`.
pub fn parse_stem(stem: &str) -> (res: Result<(i8, i16), Error>)
    ensures
        res == spec_parse_stem(stem@),
{
    if stem.unicode_len() != 7 {
        return Err(Error::ParseLatLong);
    }
    let lat_letter = stem.get_char(0);
    let lon_letter = stem.get_char(3);
    if (lat_letter != 'N' && lat_letter != 'S') || (lon_letter != 'E' && lon_letter != 'W') {
        return Err(Error::ParseLatLong);
    }
    let digits = (
        digit_value(stem.get_char(1)),
        digit_value(stem.get_char(2)),
        digit_value(stem.get_char(4)),
        digit_value(stem.get_char(5)),
        digit_value(stem.get_char(6)),
    );
    match digits {
        (Some(a), Some(b), Some(c), Some(d), Some(e)) => {
            let lat: i8 = (10 * a + b) as i8;
            let lon: i16 = 100 * (c as i16) + 10 * (d as i16) + (e as i16);
            Ok(
                (
                    if lat_letter == 'N' {
                        lat
                    } else {
                        -lat
                    },
                    if lon_letter == 'E' {
                        lon
                    } else {
                        -lon
                    },
                ),
            )
        },
        _ => Err(Error::ParseLatLong),
    }
}

/// Reads the cell from the name of the file at `path`. Components of the
/// path are separated by `/`.
pub fn get_lat_long(path: &str) -> (res: Result<(i8, i16), Error>)
    ensures
        res == spec_lat_lon(path@),
{
    parse_stem(file_stem(path))
}

/// Reading a stem gives back the cell from which the stem was written: the
/// whole degrees of the point, which are at most 90 and 180 either way.
pub proof fn lemma_stem_round_trip(coord: Coord)
    requires
        coord.wf(),
    ensures
        -90 <= coord.spec_trunc_lat() <= 90,
        -180 <= coord.spec_trunc_lon() <= 180,
        spec_parse_stem(coord.spec_stem()) == Ok::<(i8, i16), Error>(
            (coord.spec_trunc_lat() as i8, coord.spec_trunc_lon() as i16),
        ),
{
}

/// Reading a file name gives back the cell from which the name was written.
pub proof fn lemma_filename_round_trip(coord: Coord)
    requires
        coord.wf(),
    ensures
        spec_file_stem(coord.spec_filename()) == coord.spec_stem(),
        spec_lat_lon(coord.spec_filename()) == Ok::<(i8, i16), Error>(
            (coord.spec_trunc_lat() as i8, coord.spec_trunc_lon() as i16),
        ),
{
    let name = coord.spec_filename();
    lemma_stem_round_trip(coord);
    lemma_last_index_of(name, '/', -1);
    assert(spec_base_name(name) =~= name);
    lemma_last_index_of(name, '.', 7);
    assert(name.take(7) =~= coord.spec_stem());
}

} // verus!
