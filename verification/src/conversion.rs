//! From the two bytes that the sensor answers with to calibrated readings.
//!
//! Readings are integers scaled by one hundred: a humidity of `4578` stands for
//! 45.78 %RH, a temperature of `2333` for 23.33 °C.

use vstd::prelude::*;

verus! {

/// The raw sensor code held in a two-byte response, most significant byte
/// first.
pub open spec fn raw_code(response: Seq<u8>) -> int {
    response[0] as int * 256 + response[1] as int
}

/// Relative humidity in hundredths of a percent for a raw code:
/// `floor(12500 * code / 65536) - 600`.
pub open spec fn humidity_centi(code: int) -> int {
    12500 * code / 65536 - 600
}

/// Temperature in hundredths of a degree Celsius for a raw code:
/// `floor(17572 * code / 65536) - 4685`.
pub open spec fn temperature_centi(code: int) -> int {
    17572 * code / 65536 - 4685
}

/// The smallest raw code whose humidity is not negative.
pub const HUMIDITY_FLOOR_CODE: u16 = 3146;

/// The humidity reading as the sixteen-bit word that the driver reports.
///
/// The reading is not clamped. Codes below [`HUMIDITY_FLOOR_CODE`] give a
/// negative humidity, which an unsigned word cannot hold: it is reported
/// modulo 65536.
pub open spec fn humidity_word(code: int) -> int {
    humidity_centi(code) % 65536
}

/// Reads the raw code out of a response.
pub fn code_from_response(response: [u8; 2]) -> (code: u16)
    ensures
        code == raw_code(response@),
{
    let high: u16 = response[0] as u16;
    let low: u16 = response[1] as u16;
    high * 256 + low
}

/// Converts a raw code to relative humidity, in hundredths of a percent.
pub fn humidity_from_code(code: u16) -> (humidity: u16)
    ensures
        humidity == humidity_word(code as int),
        code >= HUMIDITY_FLOOR_CODE ==> humidity == humidity_centi(code as int),
{
    let scaled: u32 = 12500 * (code as u32) / 65536;
    (scaled as u16).wrapping_sub(600)
}

/// Converts a raw code to temperature, in hundredths of a degree Celsius.
pub fn temperature_from_code(code: u16) -> (temperature: i16)
    ensures
        temperature == temperature_centi(code as int),
{
    let scaled: i32 = 17572 * (code as i32) / 65536;
    (scaled - 4685) as i16
}

/// Humidity never decreases as the raw code grows.
pub proof fn humidity_is_monotonic(low: u16, high: u16)
    requires
        low <= high,
    ensures
        humidity_centi(low as int) <= humidity_centi(high as int),
{
}

/// Humidity lies between -6.00 % and 118.99 %, and is negative exactly below
/// [`HUMIDITY_FLOOR_CODE`].
pub proof fn humidity_bounds(code: u16)
    ensures
        -600 <= humidity_centi(code as int) <= 11899,
        humidity_centi(code as int) >= 0 <==> code >= HUMIDITY_FLOOR_CODE,
{
}

/// The reported word is the humidity itself from [`HUMIDITY_FLOOR_CODE`] on,
/// and the humidity plus 65536 below it.
pub proof fn humidity_word_of_code(code: u16)
    ensures
        0 <= humidity_word(code as int) <= 65535,
        code >= HUMIDITY_FLOOR_CODE ==> humidity_word(code as int) == humidity_centi(code as int),
        code < HUMIDITY_FLOOR_CODE ==> humidity_word(code as int) == humidity_centi(code as int)
            + 65536,
{
}

/// The reported word never decreases as the raw code grows, as long as the
/// two codes lie on the same side of [`HUMIDITY_FLOOR_CODE`].
pub proof fn humidity_word_is_monotonic(low: u16, high: u16)
    requires
        low <= high,
        low >= HUMIDITY_FLOOR_CODE || high < HUMIDITY_FLOOR_CODE,
    ensures
        humidity_word(low as int) <= humidity_word(high as int),
{
}

/// Temperature never decreases as the raw code grows.
pub proof fn temperature_is_monotonic(low: u16, high: u16)
    requires
        low <= high,
    ensures
        temperature_centi(low as int) <= temperature_centi(high as int),
{
}

/// Temperature lies between -46.85 °C and 128.86 °C, and so fits a signed
/// sixteen-bit word.
pub proof fn temperature_bounds(code: u16)
    ensures
        -4685 <= temperature_centi(code as int) <= 12886,
{
}

} // verus!
