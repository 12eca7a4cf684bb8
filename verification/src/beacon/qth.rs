//! GPS position to Maidenhead (QTH) locator.
//!
//! Input is a WGS84 position in signed microdegrees. GPS fixes are already
//! referenced to the WGS84 datum, which is also the datum the Maidenhead
//! locator system is defined against, so no datum transformation is done.
//!
//! Naming follows the official Maidenhead precision levels:
//! field (2 chars) -> *square* (4 chars) -> *subsquare* (6 chars).

use vstd::prelude::*;
use crate::text::{all_ascii, ascii_chars, ascii_str};

verus! {

/// Microdegrees in one degree.
pub const UDEG: i64 = 1_000_000;

/// A WGS84 GPS position in signed microdegrees.
///
/// Named fields (rather than a bare pair) prevent accidentally swapping
/// latitude and longitude at the call site.
#[derive(Debug, Clone, Copy, PartialEq, Eq, Structural)]
pub struct Coordinates {
    /// Latitude, `-90_000_000..=90_000_000` (negative = South).
    pub lat_udeg: i32,
    /// Longitude, `-180_000_000..=180_000_000` (negative = West).
    pub lon_udeg: i32,
}

/// Error returned when a coordinate is outside the valid GPS range.
#[derive(Debug, Clone, Copy, PartialEq, Eq, Structural)]
pub enum QthError {
    /// Latitude was outside `-90..=90` degrees.
    LatitudeOutOfRange,
    /// Longitude was outside `-180..=180` degrees.
    LongitudeOutOfRange,
}

/// The validation verdict on a position: latitude checked first.
pub open spec fn validate_spec(c: Coordinates) -> Result<(), QthError> {
    if !(-90 * UDEG <= c.lat_udeg <= 90 * UDEG) {
        Err(QthError::LatitudeOutOfRange)
    } else if !(-180 * UDEG <= c.lon_udeg <= 180 * UDEG) {
        Err(QthError::LongitudeOutOfRange)
    } else {
        Ok(())
    }
}

pub open spec fn min_int(a: int, b: int) -> int {
    if a < b { a } else { b }
}

/// Longitude shifted into `0..=360` degrees.
pub open spec fn lon_pos(c: Coordinates) -> int {
    c.lon_udeg + 180 * UDEG
}

/// Latitude shifted into `0..=180` degrees.
pub open spec fn lat_pos(c: Coordinates) -> int {
    c.lat_udeg + 90 * UDEG
}

/// Field indices: longitude in 20 degree cells, latitude in 10 degree cells,
/// clamped to the last field (R) at the upper edge.
pub open spec fn lon_field(c: Coordinates) -> int {
    min_int(lon_pos(c) / 20_000_000int, 17)
}

pub open spec fn lat_field(c: Coordinates) -> int {
    min_int(lat_pos(c) / 10_000_000int, 17)
}

/// Square indices within the field: longitude in 2 degree cells, latitude in
/// 1 degree cells, clamped to 9.
pub open spec fn lon_square(c: Coordinates) -> int {
    min_int((lon_pos(c) - lon_field(c) * 20 * UDEG) / 2_000_000int, 9)
}

pub open spec fn lat_square(c: Coordinates) -> int {
    min_int((lat_pos(c) - lat_field(c) * 10 * UDEG) / 1_000_000int, 9)
}

/// Subsquare indices within the square: 24 subdivisions each way, clamped
/// to 23.
pub open spec fn lon_subsquare(c: Coordinates) -> int {
    min_int((lon_pos(c) - lon_field(c) * 20 * UDEG - lon_square(c) * 2 * UDEG) * 12 / 1_000_000int, 23)
}

pub open spec fn lat_subsquare(c: Coordinates) -> int {
    min_int((lat_pos(c) - lat_field(c) * 10 * UDEG - lat_square(c) * UDEG) * 24 / 1_000_000int, 23)
}

/// The 4-character square of a valid position, e.g. `JN58`.
pub open spec fn square_bytes(c: Coordinates) -> Seq<u8> {
    seq![
        (65 + lon_field(c)) as u8,
        (65 + lat_field(c)) as u8,
        (48 + lon_square(c)) as u8,
        (48 + lat_square(c)) as u8,
    ]
}

/// The 6-character subsquare of a valid position, e.g. `JN58td`.
pub open spec fn subsquare_bytes(c: Coordinates) -> Seq<u8> {
    square_bytes(c) + seq![(97 + lon_subsquare(c)) as u8, (97 + lat_subsquare(c)) as u8]
}

/// Reject coordinates that fall outside the valid GPS range.
fn validate(coord: Coordinates) -> (r: Result<(), QthError>)
    ensures
        r == validate_spec(coord),
{
    if !(-90_000_000 <= coord.lat_udeg && coord.lat_udeg <= 90_000_000) {
        return Err(QthError::LatitudeOutOfRange);
    }
    if !(-180_000_000 <= coord.lon_udeg && coord.lon_udeg <= 180_000_000) {
        return Err(QthError::LongitudeOutOfRange);
    }
    Ok(())
}

/// Field and square indices of a valid position, each in range.
fn square_indices(coord: Coordinates) -> (r: (u8, u8, u8, u8, i64, i64))
    requires
        validate_spec(coord) is Ok,
    ensures
        r.0 == lon_field(coord) && r.0 <= 17,
        r.1 == lat_field(coord) && r.1 <= 17,
        r.2 == lon_square(coord) && r.2 <= 9,
        r.3 == lat_square(coord) && r.3 <= 9,
        r.4 == lon_pos(coord) - lon_field(coord) * 20 * UDEG - lon_square(coord) * 2 * UDEG,
        r.5 == lat_pos(coord) - lat_field(coord) * 10 * UDEG - lat_square(coord) * UDEG,
        0 <= r.4 <= 4 * UDEG,
        0 <= r.5 <= 2 * UDEG,
{
    // Shift into positive ranges: longitude 0..360, latitude 0..180.
    let lon: i64 = coord.lon_udeg as i64 + 180 * UDEG;
    let lat: i64 = coord.lat_udeg as i64 + 90 * UDEG;

    // Field: longitude in 20 degree cells, latitude in 10 degree cells
    // (letters A..R). Clamp to the last valid index (R = 17): at the exact
    // upper edge the division yields 18, which would emit 'S', one past the
    // Maidenhead range.
    let lon_q: i64 = lon / (20 * UDEG);
    let lon_field: i64 = if lon_q < 17 { lon_q } else { 17 };
    let lat_q: i64 = lat / (10 * UDEG);
    let lat_field: i64 = if lat_q < 17 { lat_q } else { 17 };
    let lon: i64 = lon - lon_field * 20 * UDEG;
    let lat: i64 = lat - lat_field * 10 * UDEG;

    // Square: longitude in 2 degree cells, latitude in 1 degree cells
    // (digits 0..9). Clamp likewise: at the upper edge the clamped field
    // leaves a full residual, so the raw index would be 10.
    let lon_q: i64 = lon / (2 * UDEG);
    let lon_sq: i64 = if lon_q < 9 { lon_q } else { 9 };
    let lat_q: i64 = lat / UDEG;
    let lat_sq: i64 = if lat_q < 9 { lat_q } else { 9 };
    let lon: i64 = lon - lon_sq * 2 * UDEG;
    let lat: i64 = lat - lat_sq * UDEG;
    (lon_field as u8, lat_field as u8, lon_sq as u8, lat_sq as u8, lon, lat)
}

/// Coarse conversion: GPS coordinates -> 4-character Maidenhead square, e.g.
/// `"JN58"`.
///
/// Writes into `buf` and returns a `&str` borrowing it. Returns [`QthError`]
/// if the coordinate is out of range, leaving `buf` alone.
pub fn qth_square<'a>(coord: Coordinates, buf: &'a mut [u8; 4]) -> (r: Result<&'a str, QthError>)
    ensures
        validate_spec(coord) matches Err(e) ==> r == Err::<&str, QthError>(e) && final(buf)@ == old(buf)@,
        validate_spec(coord) is Ok ==> (r matches Ok(s) && final(buf)@ == square_bytes(coord) && s@ == ascii_chars(square_bytes(coord))),
{
    if let Err(e) = validate(coord) {
        return Err(e);
    }
    let (lon_field, lat_field, lon_sq, lat_sq, _, _) = square_indices(coord);
    *buf = [65u8 + lon_field, 65u8 + lat_field, 48u8 + lon_sq, 48u8 + lat_sq];
    assert(buf@ =~= square_bytes(coord));
    assert(all_ascii(buf@));
    // Every byte is ASCII by construction, so this never fails.
    match ascii_str(buf) {
        Some(s) => Ok(s),
        None => Err(QthError::LatitudeOutOfRange),
    }
}

/// Fine conversion: GPS coordinates -> 6-character Maidenhead subsquare,
/// e.g. `"JN58td"`.
///
/// Writes into `buf` and returns a `&str` borrowing it. Returns [`QthError`]
/// if the coordinate is out of range, leaving `buf` alone.
pub fn qth_subsquare<'a>(coord: Coordinates, buf: &'a mut [u8; 6]) -> (r: Result<&'a str, QthError>)
    ensures
        validate_spec(coord) matches Err(e) ==> r == Err::<&str, QthError>(e) && final(buf)@ == old(buf)@,
        validate_spec(coord) is Ok ==> (r matches Ok(s) && final(buf)@ == subsquare_bytes(coord) && s@ == ascii_chars(subsquare_bytes(coord))),
{
    if let Err(e) = validate(coord) {
        return Err(e);
    }
    let (lon_field, lat_field, lon_sq, lat_sq, lon, lat) = square_indices(coord);

    // Subsquare: 24 subdivisions per square (letters a..x). Clamp to the
    // last valid index (x = 23); the cascade makes the corner "RR99xx".
    let lon_q: i64 = lon * 12 / UDEG;
    let lon_sub: i64 = if lon_q < 23 { lon_q } else { 23 };
    let lat_q: i64 = lat * 24 / UDEG;
    let lat_sub: i64 = if lat_q < 23 { lat_q } else { 23 };
    *buf = [
        65u8 + lon_field,
        65u8 + lat_field,
        48u8 + lon_sq,
        48u8 + lat_sq,
        97u8 + lon_sub as u8,
        97u8 + lat_sub as u8,
    ];
    assert(buf@ =~= subsquare_bytes(coord));
    assert(all_ascii(buf@));
    // Every byte is ASCII by construction, so this never fails.
    match ascii_str(buf) {
        Some(s) => Ok(s),
        None => Err(QthError::LatitudeOutOfRange),
    }
}

/// Every locator stays inside the Maidenhead alphabet: fields `A..=R`,
/// squares `0..=9`, subsquares `a..=x` - the upper corner included.
pub proof fn lemma_locator_in_range(c: Coordinates)
    requires
        validate_spec(c) is Ok,
    ensures
        65 <= subsquare_bytes(c)[0] <= 82,
        65 <= subsquare_bytes(c)[1] <= 82,
        48 <= subsquare_bytes(c)[2] <= 57,
        48 <= subsquare_bytes(c)[3] <= 57,
        97 <= subsquare_bytes(c)[4] <= 120,
        97 <= subsquare_bytes(c)[5] <= 120,
{
}

/// The subsquare refines the square: its first four characters are the
/// square.
pub proof fn lemma_subsquare_extends_square(c: Coordinates)
    ensures
        subsquare_bytes(c).subrange(0, 4) == square_bytes(c),
{
    assert(subsquare_bytes(c).subrange(0, 4) =~= square_bytes(c));
}

/// The square contains the position: its south-west corner is at or below
/// the position, and the position is less than one square beyond it, except
/// on the upper edge of the grid (longitude 180 or latitude 90), which is
/// folded into the last square.
pub proof fn lemma_square_contains_position(c: Coordinates)
    requires
        validate_spec(c) is Ok,
    ensures
        lon_field(c) * 20 * UDEG + lon_square(c) * 2 * UDEG <= lon_pos(c),
        lon_pos(c) < lon_field(c) * 20 * UDEG + lon_square(c) * 2 * UDEG + 2 * UDEG || lon_pos(c) == 360 * UDEG,
        lat_field(c) * 10 * UDEG + lat_square(c) * UDEG <= lat_pos(c),
        lat_pos(c) < lat_field(c) * 10 * UDEG + lat_square(c) * UDEG + UDEG || lat_pos(c) == 180 * UDEG,
{
}

} // verus!
