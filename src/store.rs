use vstd::prelude::*;

use crate::resolver::pair;
use crate::settings::MonitorSettings;

verus! {

/// Why the stored record could not be read or written.
#[derive(Clone, Copy, Debug, PartialEq, Eq, Structural)]
pub enum StoreError {
    NotFound,
    Malformed,
    IoFailure,
}

/// The character of one decimal digit.
pub open spec fn digit_char(d: int) -> char {
    seq!['0', '1', '2', '3', '4', '5', '6', '7', '8', '9'][d]
}

/// The decimal digits of a natural number, without leading zeros.
pub open spec fn digits(n: nat) -> Seq<char>
    decreases n,
{
    if n < 10 {
        seq![digit_char(n as int)]
    } else {
        digits(n / 10).push(digit_char((n % 10) as int))
    }
}

/// An integer written in decimal, with a minus sign when negative.
pub open spec fn decimal(i: int) -> Seq<char> {
    if i < 0 {
        seq!['-'] + digits((-i) as nat)
    } else {
        digits(i as nat)
    }
}

/// The stored record: a compact JSON object with the two fields in order.
pub open spec fn record_text(s: MonitorSettings) -> Seq<char> {
    "{\"brightness\":"@ + decimal(s.brightness as int) + ",\"contrast\":"@ + decimal(
        s.contrast as int,
    ) + "}"@
}

/// The integers that a JSON text holds under "brightness" and "contrast", or
/// none when the text is no JSON or either field is not an integer.
pub uninterp spec fn json_record_fields(text: Seq<char>) -> Option<(int, int)>;

/// A pair of 64-bit integers read as mathematical integers.
pub open spec fn widen(o: Option<(i64, i64)>) -> Option<(int, int)> {
    match o {
        Some((b, c)) => Some((b as int, c as int)),
        None => None,
    }
}

/// Whether an integer fits in 32 bits.
pub open spec fn fits_i32(x: int) -> bool {
    i32::MIN <= x <= i32::MAX
}

/// What a stored text decodes to.
pub open spec fn decode_spec(text: Seq<char>) -> Result<MonitorSettings, StoreError> {
    match json_record_fields(text) {
        Some((b, c)) => if fits_i32(b) && fits_i32(c) {
            Ok(pair(b, c))
        } else {
            Err(StoreError::Malformed)
        },
        None => Err(StoreError::Malformed),
    }
}

/// Relies on serde_json::from_str into a Value, then Value::get and
/// Value::as_i64 on the two fields.
#[verifier::external_body]
fn read_record(text: &str) -> (r: Option<(i64, i64)>)
    ensures
        widen(r) == json_record_fields(text@),
{
    let v: serde_json::Value = serde_json::from_str(text).ok()?;
    let b = v.get("brightness")?.as_i64()?;
    let c = v.get("contrast")?.as_i64()?;
    Some((b, c))
}

/// Relies on serde_json::to_string of a Value object holding two integers:
/// compact output, keys in sorted order, integers in decimal; what it writes
/// serde_json reads back to the same integers.
#[verifier::external_body]
fn render_record(brightness: i32, contrast: i32) -> (r: String)
    ensures
        r@ == record_text(pair(brightness as int, contrast as int)),
        json_record_fields(r@) == Some((brightness as int, contrast as int)),
{
    let mut m = serde_json::Map::new();
    m.insert("brightness".to_string(), serde_json::Value::from(brightness));
    m.insert("contrast".to_string(), serde_json::Value::from(contrast));
    serde_json::to_string(&serde_json::Value::Object(m)).unwrap_or_default()
}

/// Reads settings from the stored text; anything but an object with two
/// integer fields that fit is malformed.
pub fn decode_settings(text: &str) -> (r: Result<MonitorSettings, StoreError>)
    ensures
        r == decode_spec(text@),
{
    match read_record(text) {
        Some((b, c)) => {
            if i32::MIN as i64 <= b && b <= i32::MAX as i64 && i32::MIN as i64 <= c && c
                <= i32::MAX as i64 {
                Ok(MonitorSettings { brightness: b as i32, contrast: c as i32 })
            } else {
                Err(StoreError::Malformed)
            }
        },
        None => Err(StoreError::Malformed),
    }
}

/// Writes settings as the stored text. Decoding the text gives the same
/// settings back, for every pair of integers.
pub fn encode_settings(s: &MonitorSettings) -> (r: String)
    ensures
        r@ == record_text(*s),
        decode_spec(r@) == Ok::<MonitorSettings, StoreError>(*s),
{
    render_record(s.brightness, s.contrast)
}

/// Reads the stored settings from the outcome of reading the file: an error
/// of the read is passed on, a text is decoded.
pub fn load(contents: Result<String, StoreError>) -> (r: Result<MonitorSettings, StoreError>)
    ensures
        match contents {
            Ok(t) => r == decode_spec(t@),
            Err(e) => r == Err::<MonitorSettings, StoreError>(e),
        },
{
    match contents {
        Ok(t) => decode_settings(t.as_str()),
        Err(e) => Err(e),
    }
}

} // verus!
