//! Reading a fix out of the values that a provider on the bus sends.

use super::double;
use super::{Coordinates, Error, Freshness, LocationData, Result};
use crate::text;
use crate::time::Timestamp;
use vstd::prelude::*;

verus! {

/// A value as it came over the bus.
#[derive(Clone, Copy, Debug, PartialEq, Eq, Structural)]
pub enum FixValue {
    /// A double, as its bit pattern.
    Double(u64),
    /// Two unsigned numbers.
    Pair(u64, u64),
    /// Any other type.
    Other,
}

/// A named value of a fix.
#[derive(Debug)]
pub struct FixField {
    pub name: String,
    pub value: FixValue,
}

/// The value of that name, if there is one.
pub open spec fn lookup(fields: Seq<FixField>, name: Seq<char>) -> Option<FixValue>
    decreases fields.len(),
{
    if fields.len() == 0 {
        None
    } else if fields[0].name@ == name {
        Some(fields[0].value)
    } else {
        lookup(fields.drop_first(), name)
    }
}

fn find_value(fields: &Vec<FixField>, name: &str) -> (r: Option<FixValue>)
    ensures
        r == lookup(fields@, name@),
{
    assert(fields@.subrange(0, fields@.len() as int) == fields@);
    for i in 0..fields.len()
        invariant
            lookup(fields@, name@) == lookup(
                fields@.subrange(i as int, fields@.len() as int),
                name@,
            ),
    {
        assert(fields@.subrange(i as int, fields@.len() as int).drop_first() == fields@.subrange(
            i + 1,
            fields@.len() as int,
        ));
        if text::same(&fields[i].name, name) {
            return Some(fields[i].value);
        }
    }
    None
}

/// A coordinate: it has to be there, and to be a finite double of at most that size.
pub open spec fn coordinate(value: Option<FixValue>, limit: u64) -> Option<u64> {
    match value {
        Some(FixValue::Double(bits)) => if double::finite(bits) && -double::rank(limit)
            <= double::rank(bits) <= double::rank(limit) {
            Some(bits)
        } else {
            None
        },
        _ => None,
    }
}

/// A number that a provider may leave out, or mark as unknown with a special value. `Err` where
/// what it sent makes no sense.
pub open spec fn optional_number(
    value: Option<FixValue>,
    unknown: u64,
    sensible: spec_fn(u64) -> bool,
) -> std::result::Result<Option<u64>, ()> {
    match value {
        None => Ok(None),
        Some(FixValue::Double(bits)) => if bits == unknown {
            Ok(None)
        } else if sensible(bits) {
            Ok(Some(bits))
        } else {
            Err(())
        },
        Some(_) => Err(()),
    }
}

pub open spec fn sensible_altitude(bits: u64) -> bool {
    double::finite(bits)
}

pub open spec fn sensible_speed(bits: u64) -> bool {
    double::finite(bits) && double::rank(bits) >= 0
}

pub open spec fn sensible_bearing(bits: u64) -> bool {
    double::finite(bits) && 0 <= double::rank(bits) < double::rank(double::FULL_TURN)
}

/// A time as seconds and microseconds since the Unix epoch, which a provider may leave out. `Err`
/// where it is not one: the microseconds have to be below a million, and the seconds to fit the
/// system's clock.
pub open spec fn fix_time(value: Option<FixValue>) -> std::result::Result<Option<Timestamp>, ()> {
    match value {
        None => Ok(None),
        Some(FixValue::Pair(seconds, microseconds)) => if microseconds < 1_000_000 && seconds
            <= i64::MAX {
            Ok(Some(Timestamp { secs: seconds as i64, nanos: (microseconds * 1000) as u32 }))
        } else {
            Err(())
        },
        Some(_) => Err(()),
    }
}

/// The fix that the values describe, if they describe one.
pub open spec fn parsed(fields: Seq<FixField>) -> Option<LocationData> {
    let latitude = coordinate(lookup(fields, "Latitude"@), double::NINETY);
    let longitude = coordinate(lookup(fields, "Longitude"@), double::HALF_TURN);
    let altitude = optional_number(
        lookup(fields, "Altitude"@),
        double::LEAST,
        |bits: u64| sensible_altitude(bits),
    );
    let speed = optional_number(
        lookup(fields, "Speed"@),
        double::MINUS_ONE,
        |bits: u64| sensible_speed(bits),
    );
    let bearing = optional_number(
        lookup(fields, "Heading"@),
        double::MINUS_ONE,
        |bits: u64| sensible_bearing(bits),
    );
    let time = fix_time(lookup(fields, "Timestamp"@));
    if latitude is Some && longitude is Some && altitude is Ok && speed is Ok && bearing is Ok
        && time is Ok {
        Some(
            LocationData {
                coordinates: Coordinates { latitude: latitude->0, longitude: longitude->0 },
                altitude: altitude->Ok_0,
                bearing: bearing->Ok_0,
                speed: speed->Ok_0,
                time: time->Ok_0,
                freshness: Freshness::Live,
            },
        )
    } else {
        None
    }
}

fn required_double(fields: &Vec<FixField>, name: &str) -> (r: Result<u64>)
    ensures
        r == match lookup(fields@, name@) {
            Some(FixValue::Double(bits)) => Ok::<u64, Error>(bits),
            _ => Err(Error::Unknown),
        },
{
    match find_value(fields, name) {
        Some(FixValue::Double(bits)) => Ok(bits),
        _ => Err(Error::Unknown),
    }
}

/// A double that may be absent, and counts as absent where it is `unknown`.
fn optional_double(fields: &Vec<FixField>, name: &str, unknown: u64) -> (r: Result<Option<u64>>)
    ensures
        r == match lookup(fields@, name@) {
            None => Ok::<Option<u64>, Error>(None),
            Some(FixValue::Double(bits)) => Ok(
                if bits == unknown {
                    None
                } else {
                    Some(bits)
                },
            ),
            Some(_) => Err(Error::Unknown),
        },
{
    match find_value(fields, name) {
        None => Ok(None),
        Some(FixValue::Double(bits)) => if bits == unknown {
            Ok(None)
        } else {
            Ok(Some(bits))
        },
        Some(_) => Err(Error::Unknown),
    }
}

fn parse_time(value: Option<FixValue>) -> (r: Result<Option<Timestamp>>)
    ensures
        r == match fix_time(value) {
            Ok(time) => Ok::<Option<Timestamp>, Error>(time),
            Err(_) => Err(Error::Unknown),
        },
{
    match value {
        None => Ok(None),
        Some(FixValue::Pair(seconds, microseconds)) => {
            if microseconds >= 1_000_000 || seconds > 0x7fff_ffff_ffff_ffff {
                return Err(Error::Unknown);
            }
            Ok(Some(Timestamp { secs: seconds as i64, nanos: (microseconds * 1000) as u32 }))
        },
        Some(_) => Err(Error::Unknown),
    }
}

/// Reads a live fix. Coordinates have to be there; the other values may be absent or marked as
/// unknown. Anything that makes no sense spoils the whole fix.
pub fn parse_location(fields: &Vec<FixField>) -> (r: Result<LocationData>)
    ensures
        r == match parsed(fields@) {
            Some(location) => Ok::<LocationData, Error>(location),
            None => Err(Error::Unknown),
        },
{
    let latitude: u64 = match required_double(fields, "Latitude") {
        Ok(bits) => bits,
        Err(error) => return Err(error),
    };
    let longitude: u64 = match required_double(fields, "Longitude") {
        Ok(bits) => bits,
        Err(error) => return Err(error),
    };
    if !double::is_finite(latitude) || !double::is_finite(longitude) || !double::is_within(
        latitude,
        double::NINETY,
    ) || !double::is_within(longitude, double::HALF_TURN) {
        return Err(Error::Unknown);
    }
    let altitude = match optional_double(fields, "Altitude", double::LEAST) {
        Ok(altitude) => altitude,
        Err(error) => return Err(error),
    };
    if let Some(bits) = altitude {
        if !double::is_finite(bits) {
            return Err(Error::Unknown);
        }
    }
    let speed = match optional_double(fields, "Speed", double::MINUS_ONE) {
        Ok(speed) => speed,
        Err(error) => return Err(error),
    };
    if let Some(bits) = speed {
        if !double::is_finite(bits) || double::is_negative(bits) {
            return Err(Error::Unknown);
        }
    }
    let bearing = match optional_double(fields, "Heading", double::MINUS_ONE) {
        Ok(bearing) => bearing,
        Err(error) => return Err(error),
    };
    if let Some(bits) = bearing {
        if !double::is_finite(bits) || !double::is_nonnegative_below(bits, double::FULL_TURN) {
            return Err(Error::Unknown);
        }
    }
    let time = match parse_time(find_value(fields, "Timestamp")) {
        Ok(time) => time,
        Err(error) => return Err(error),
    };
    Ok(
        LocationData {
            coordinates: Coordinates { latitude, longitude },
            altitude,
            bearing,
            speed,
            time,
            freshness: Freshness::Live,
        },
    )
}

/// Every fix that is read lies on the globe and makes sense: no number in it is infinite or not a
/// number, its speed is not negative, and its bearing is below a full turn.
pub proof fn parsed_fixes_make_sense(fields: Seq<FixField>)
    ensures
        parsed(fields) matches Some(fix) ==> {
            &&& double::finite(fix.coordinates.latitude)
            &&& double::finite(fix.coordinates.longitude)
            &&& -double::NINETY <= double::rank(fix.coordinates.latitude) <= double::NINETY
            &&& -double::HALF_TURN <= double::rank(fix.coordinates.longitude) <= double::HALF_TURN
            &&& fix.altitude matches Some(altitude) ==> double::finite(altitude)
            &&& fix.speed matches Some(speed) ==> sensible_speed(speed)
            &&& fix.bearing matches Some(bearing) ==> sensible_bearing(bearing)
            &&& fix.time matches Some(time) ==> time.secs >= 0 && time.nanos < 1_000_000_000
            &&& fix.freshness == Freshness::Live
        },
{
}

} // verus!
