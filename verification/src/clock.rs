//! The clock's reading, kept within the years 0 to 9999 that the mail and
//! memory formats can render.

use crate::trusted::{before_unix_epoch, duration_micros, since_unix_epoch, system_now};
use vstd::prelude::*;

verus! {

/// The first microsecond of the year 0, the earliest instant the library
/// stamps on anything (RFC 2822 dates cannot show earlier years).
pub const EARLIEST_MICROS: i64 = -62167219200000000;

/// The last microsecond of the year 9999, the latest instant the library
/// stamps on anything.
pub const LATEST_MICROS: i64 = 253402300799999999;

/// The current time in microseconds since the Unix epoch, negative before
/// it, held within `EARLIEST_MICROS..=LATEST_MICROS`.
pub fn now_micros() -> (r: i64)
    ensures
        EARLIEST_MICROS <= r <= LATEST_MICROS,
{
    let now = system_now();
    match since_unix_epoch(&now) {
        Some(d) => clamp_micros(duration_micros(&d)),
        None => match before_unix_epoch(&now) {
            Some(d) => clamp_micros_before(duration_micros(&d)),
            // `SystemTime` orders every reading against the epoch, so one of
            // the two calls succeeds; the epoch stands in otherwise.
            None => 0,
        },
    }
}

/// A count of microseconds after the epoch, capped at `LATEST_MICROS`.
pub fn clamp_micros(m: u128) -> (r: i64)
    ensures
        r == if m <= LATEST_MICROS as u128 { m as int } else { LATEST_MICROS as int },
{
    if m <= 253402300799999999u128 {
        m as i64
    } else {
        LATEST_MICROS
    }
}

/// The instant `m` microseconds before the epoch, held at `EARLIEST_MICROS`.
pub fn clamp_micros_before(m: u128) -> (r: i64)
    ensures
        r == if m <= 62167219200000000 { -(m as int) } else { EARLIEST_MICROS as int },
{
    if m <= 62167219200000000u128 {
        let k = m as i64;
        -k
    } else {
        EARLIEST_MICROS
    }
}

} // verus!
