use wspr_beacon::beacon::qth::{qth_square, qth_subsquare, Coordinates, QthError};

/// A position from decimal degrees, to the nearest microdegree.
fn at(latitude: f64, longitude: f64) -> Coordinates {
    Coordinates {
        lat_udeg: (latitude * 1e6).round() as i32,
        lon_udeg: (longitude * 1e6).round() as i32,
    }
}

#[test]
fn subsquare_cities() {
    // (name, latitude, longitude, expected)
    let cases: [(&str, f64, f64, &str); 15] = [
        ("Munich", 48.14666, 11.60833, "JN58td"),
        ("Cairo", 30.0444, 31.2357, "KM50ob"),
        ("Tokyo", 35.6895, 139.6917, "PM95uq"),
        ("New York", 40.7128, -74.0060, "FN20xr"),
        ("Rio de Janeiro", -22.9068, -43.1729, "GG87jc"),
        ("Sydney", -33.8688, 151.2093, "QF56od"),
        ("McMurdo", -77.8419, 166.6863, "RB32id"),
        ("London", 51.5074, -0.1278, "IO91wm"),
        ("Edinburgh", 55.9533, -3.1883, "IO85jw"),
        ("St. Petersburg", 59.9343, 30.3351, "KO59ew"),
        ("Hong Kong", 22.3193, 114.1694, "OL72ch"),
        ("Beijing", 39.9042, 116.4074, "OM89ev"),
        ("Melbourne", -37.8136, 144.9631, "QF22le"),
        ("Santiago", -33.4489, -70.6693, "FF46pn"),
        ("Toronto", 43.6532, -79.3832, "FN03hp"),
    ];

    for (name, latitude, longitude, expected) in cases {
        let mut buf = [0u8; 6];
        let got = qth_subsquare(at(latitude, longitude), &mut buf).unwrap();
        assert_eq!(got, expected, "subsquare mismatch for {name}");
    }
}

#[test]
fn square_cities() {
    let cases: [(&str, f64, f64, &str); 15] = [
        ("Munich", 48.14666, 11.60833, "JN58"),
        ("Cairo", 30.0444, 31.2357, "KM50"),
        ("Tokyo", 35.6895, 139.6917, "PM95"),
        ("New York", 40.7128, -74.0060, "FN20"),
        ("Rio de Janeiro", -22.9068, -43.1729, "GG87"),
        ("Sydney", -33.8688, 151.2093, "QF56"),
        ("McMurdo", -77.8419, 166.6863, "RB32"),
        ("London", 51.5074, -0.1278, "IO91"),
        ("Edinburgh", 55.9533, -3.1883, "IO85"),
        ("St. Petersburg", 59.9343, 30.3351, "KO59"),
        ("Hong Kong", 22.3193, 114.1694, "OL72"),
        ("Beijing", 39.9042, 116.4074, "OM89"),
        ("Melbourne", -37.8136, 144.9631, "QF22"),
        ("Santiago", -33.4489, -70.6693, "FF46"),
        ("Toronto", 43.6532, -79.3832, "FN03"),
    ];

    for (name, latitude, longitude, expected) in cases {
        let mut buf = [0u8; 4];
        let got = qth_square(at(latitude, longitude), &mut buf).unwrap();
        assert_eq!(got, expected, "square mismatch for {name}");
    }
}

#[test]
fn boundary_corners() {
    let mut buf4 = [0u8; 4];
    let mut buf6 = [0u8; 6];

    // Lower corner: origin of the grid.
    assert_eq!(qth_square(at(-90.0, -180.0), &mut buf4), Ok("AA00"));
    assert_eq!(qth_subsquare(at(-90.0, -180.0), &mut buf6), Ok("AA00aa"));

    // Upper corner: the value that would overflow to 'S' without clamping.
    assert_eq!(qth_square(at(90.0, 180.0), &mut buf4), Ok("RR99"));
    assert_eq!(qth_subsquare(at(90.0, 180.0), &mut buf6), Ok("RR99xx"));

    // Just inside the upper edge lands in the same last cell.
    assert_eq!(qth_subsquare(at(89.999, 179.999), &mut buf6), Ok("RR99xx"));
}

#[test]
fn rejects_out_of_range() {
    let mut buf6 = [0u8; 6];
    assert_eq!(qth_subsquare(at(91.0, 0.0), &mut buf6), Err(QthError::LatitudeOutOfRange));
    assert_eq!(qth_subsquare(at(0.0, -181.0), &mut buf6), Err(QthError::LongitudeOutOfRange));

    let mut buf4 = [0u8; 4];
    assert_eq!(qth_square(at(-90.5, 0.0), &mut buf4), Err(QthError::LatitudeOutOfRange));
    assert_eq!(qth_square(at(0.0, 200.0), &mut buf4), Err(QthError::LongitudeOutOfRange));
}

#[test]
fn rejected_position_leaves_buffer_alone() {
    let mut buf = *b"abcd";
    assert_eq!(qth_square(at(0.0, 180.000001), &mut buf), Err(QthError::LongitudeOutOfRange));
    assert_eq!(&buf, b"abcd");
    // Latitude is checked first.
    assert_eq!(qth_square(at(-91.0, 181.0), &mut buf), Err(QthError::LatitudeOutOfRange));
}

#[test]
fn subsquare_starts_with_square() {
    let mut buf4 = [0u8; 4];
    let mut buf6 = [0u8; 6];
    let c = at(48.14666, 11.60833);
    let square = qth_square(c, &mut buf4).unwrap().to_string();
    let subsquare = qth_subsquare(c, &mut buf6).unwrap().to_string();
    assert!(subsquare.starts_with(&square));
    // The grid origin sits at the south-west corner of AA00aa; the exact
    // edge of a square belongs to the square above it.
    assert_eq!(qth_square(at(0.0, 0.0), &mut buf4), Ok("JJ00"));
    assert_eq!(qth_square(at(-0.000001, -0.000001), &mut buf4), Ok("II99"));
}
