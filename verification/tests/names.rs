use srtm_reader::names::{digit_str, digit_value, file_stem, last_index_of, get_lat_long, parse_stem};
use srtm_reader::{Coord, Error, Tile};

#[test]
fn lib_parse_latitute_and_longitude() {
    let ne = "N35E138.hgt";
    assert_eq!(get_lat_long(ne).unwrap(), (35, 138));

    let nw = "N35W138.hgt";
    assert_eq!(get_lat_long(nw).unwrap(), (35, -138));

    let se = "S35E138.hgt";
    assert_eq!(get_lat_long(se).unwrap(), (-35, 138));

    let sw = "S35W138.hgt";
    assert_eq!(get_lat_long(sw).unwrap(), (-35, -138));
}

#[test]
fn tests_parse_latitute_and_longitude() {
    let ne = "N35E138.hgt";
    assert_eq!(Tile::get_lat_lon(ne).unwrap(), (35, 138));

    let nw = "N35W138.hgt";
    assert_eq!(Tile::get_lat_lon(nw).unwrap(), (35, -138));

    let se = "S35E138.hgt";
    assert_eq!(Tile::get_lat_lon(se).unwrap(), (-35, 138));

    let sw = "S35W138.hgt";
    assert_eq!(Tile::get_lat_lon(sw).unwrap(), (-35, -138));
}

#[test]
fn stems_of_all_four_quadrants() {
    assert_eq!(parse_stem("N35E138"), Ok((35, 138)));
    assert_eq!(parse_stem("N35W138"), Ok((35, -138)));
    assert_eq!(parse_stem("S35E138"), Ok((-35, 138)));
    assert_eq!(parse_stem("S35W138"), Ok((-35, -138)));
    assert_eq!(parse_stem("N00E000"), Ok((0, 0)));
    assert_eq!(parse_stem("S00W000"), Ok((0, 0)));
    assert_eq!(parse_stem("S99W999"), Ok((-99, -999)));
    assert_eq!(parse_stem("N99E999"), Ok((99, 999)));
}

#[test]
fn stems_of_the_wrong_shape_are_refused() {
    for stem in [
        "",
        "N35E13",
        "N35E1388",
        "n35E138",
        "N35e138",
        "X35E138",
        "N35X138",
        "E35N138",
        "N3 E138",
        "N+5E138",
        "N-5E138",
        "N35E+38",
        "N35E1a8",
        "N35E13/",
        "N3५E138",
        "N35É138",
        "N35E138.hgt",
    ] {
        assert_eq!(parse_stem(stem), Err(Error::ParseLatLong), "{stem:?}");
    }
}

#[test]
fn the_stem_is_the_last_component_without_its_extension() {
    assert_eq!(file_stem("N44E015.hgt"), "N44E015");
    assert_eq!(file_stem("N44E015"), "N44E015");
    assert_eq!(file_stem("data/srtm/N44E015.hgt"), "N44E015");
    assert_eq!(file_stem("/N44E015.hgt"), "N44E015");
    assert_eq!(file_stem("data.d/N44E015"), "N44E015");
    assert_eq!(file_stem("N44E015.hgt.zip"), "N44E015.hgt");
    assert_eq!(file_stem(".hgt"), ".hgt");
    assert_eq!(file_stem("dir/.hidden"), ".hidden");
    assert_eq!(file_stem("N44E015."), "N44E015");
    assert_eq!(file_stem("dir/"), "");
    assert_eq!(file_stem(""), "");
    assert_eq!(file_stem("tuiles/é.hgt"), "é");
}

#[test]
fn paths_lead_to_the_cell() {
    assert_eq!(Tile::get_lat_lon("data/srtm/N44E015.hgt"), Ok((44, 15)));
    assert_eq!(Tile::get_lat_lon("/S02W087.hgt"), Ok((-2, -87)));
    assert_eq!(Tile::get_lat_lon("S02W087"), Ok((-2, -87)));
    assert_eq!(Tile::get_lat_lon("N44E015/readme.txt"), Err(Error::ParseLatLong));
    assert_eq!(Tile::get_lat_lon("N44E015.hgt/"), Err(Error::ParseLatLong));
    assert_eq!(Tile::get_lat_lon("N44E015.hgt.zip"), Err(Error::ParseLatLong));
    assert_eq!(Tile::get_lat_lon(""), Err(Error::ParseLatLong));
}

#[test]
fn a_file_name_leads_back_to_the_cell_it_was_written_for() {
    for (lat, lon) in [
        (444_480_403, 150_733_053),
        (-23_000_000, 870_000_000),
        (350_000_000, -70_000_000),
        (-355_000_000, -1_385_000_000),
        (0, 0),
        (-1, -1),
        (900_000_000, 1_800_000_000),
        (-900_000_000, -1_800_000_000),
        (-9_999_999, 9_999_999),
    ] {
        let c = Coord::new(lat, lon);
        assert_eq!(Tile::get_lat_lon(&c.get_filename()), Ok(c.trunc()));
    }
}

#[test]
fn every_cell_of_the_globe_survives_the_round_trip() {
    for lat in -90i32..=90 {
        for lon in -180i32..=180 {
            let c = Coord::new(lat * 10_000_000, lon * 10_000_000);
            assert_eq!(c.trunc(), (lat as i8, lon as i16));
            assert_eq!(Tile::get_lat_lon(&c.get_filename()), Ok((lat as i8, lon as i16)));
        }
    }
}

#[test]
fn digits_and_their_values() {
    let digits = ["0", "1", "2", "3", "4", "5", "6", "7", "8", "9"];
    for d in 0u8..10 {
        assert_eq!(digit_str(d), digits[d as usize]);
        assert_eq!(digit_value(digits[d as usize].chars().next().unwrap()), Some(d));
    }
    for c in ['/', ':', 'a', ' ', '+', '-', '٣'] {
        assert_eq!(digit_value(c), None);
    }
}

#[test]
fn last_index_counts_characters() {
    assert_eq!(last_index_of("a/b/c", '/'), Some(3));
    assert_eq!(last_index_of("abc", '/'), None);
    assert_eq!(last_index_of("", '/'), None);
    assert_eq!(last_index_of("/", '/'), Some(0));
    assert_eq!(last_index_of("é.é.é", '.'), Some(3));
}
