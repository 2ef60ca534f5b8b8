//! The requests to the weather service: the geocoding and forecast addresses,
//! and the choice among the places found.
use vstd::prelude::*;
use crate::effects::color::hex_byte;
use crate::text::{concat2, concat3, owned};

verus! {

/// A byte that URL encoding keeps: an ASCII letter or digit, `-`, `.`, `_`
/// or `~`.
pub open spec fn unreserved(b: u8) -> bool {
    ||| 48 <= b <= 57
    ||| 65 <= b <= 90
    ||| 97 <= b <= 122
    ||| b == 45
    ||| b == 46
    ||| b == 95
    ||| b == 126
}

/// One byte URL-encoded: kept when unreserved, otherwise `%` and its two
/// upper-case hexadecimal digits.
pub open spec fn percent_byte(b: u8) -> Seq<char> {
    if unreserved(b) {
        seq![b as char]
    } else {
        seq!['%'] + hex_byte(b)
    }
}

/// The bytes URL-encoded one after another.
pub open spec fn url_encoded(bytes: Seq<u8>) -> Seq<char>
    decreases bytes.len(),
{
    if bytes.len() == 0 {
        Seq::empty()
    } else {
        url_encoded(bytes.drop_last()) + percent_byte(bytes.last())
    }
}

/// What `serde_qs::to_string` writes for a list of name and value pairs.
pub uninterp spec fn query_text(pairs: Seq<(Seq<char>, Seq<char>)>) -> Seq<char>;

/// Calls `urlencoding::encode`, which takes the UTF-8 bytes of the text and
/// keeps each unreserved byte, writing every other byte as `%` and two
/// upper-case hexadecimal digits.
#[verifier::external_body]
fn encode_component(text: &str) -> (r: String)
    ensures
        r@ == url_encoded(vstd::utf8::encode_utf8(text@)),
{
    urlencoding::encode(text).into_owned()
}

/// The pairs as plain values.
pub open spec fn pair_views(pairs: Seq<(String, String)>) -> Seq<(Seq<char>, Seq<char>)> {
    Seq::new(pairs.len(), |i: int| (pairs[i].0@, pairs[i].1@))
}

/// Calls `serde_qs::to_string` on the list of pairs; its result is named
/// `query_text`. On a list of string pairs it does not fail: it writes into
/// an in-memory buffer, every element gets a key, and what it writes is
/// percent-encoded ASCII, so the error it could return never comes.
#[verifier::external_body]
fn encode_query(pairs: &Vec<(String, String)>) -> (r: String)
    ensures
        r@ == query_text(pair_views(pairs@)),
{
    serde_qs::to_string(pairs).unwrap_or_default()
}

/// The geocoding address that looks up a place by name, asking for one result.
pub fn geocoding_url(location: &str) -> (r: String)
    ensures
        r@ == "https://geocoding-api.open-meteo.com/v1/search?name="@ + url_encoded(
            vstd::utf8::encode_utf8(location@),
        ) + "&count=1"@,
{
    let name = encode_component(location);
    concat3("https://geocoding-api.open-meteo.com/v1/search?name=", name.as_str(), "&count=1")
}

/// The measurements asked of the forecast service.
pub open spec fn current_fields() -> Seq<char> {
    "temperature_2m,relative_humidity_2m,apparent_temperature,precipitation,rain,snowfall,weather_code,cloud_cover,wind_speed_10m,wind_direction_10m,wind_gusts_10m"@
}

/// The query pairs of a forecast request for the written coordinates.
pub open spec fn forecast_pairs(latitude: Seq<char>, longitude: Seq<char>) -> Seq<(Seq<char>, Seq<char>)> {
    seq![
        ("latitude"@, latitude),
        ("longitude"@, longitude),
        ("current"@, current_fields()),
        ("timezone"@, "auto"@),
    ]
}

/// The forecast address below `base` for the written coordinates, asking for
/// the current measurements in the local time zone.
pub fn forecast_url(base: &str, latitude: &str, longitude: &str) -> (r: String)
    ensures
        r@ == base@ + "?"@ + query_text(forecast_pairs(latitude@, longitude@)),
{
    let mut pairs: Vec<(String, String)> = Vec::new();
    pairs.push((owned("latitude"), owned(latitude)));
    pairs.push((owned("longitude"), owned(longitude)));
    pairs.push((
        owned("current"),
        owned(
            "temperature_2m,relative_humidity_2m,apparent_temperature,precipitation,rain,snowfall,weather_code,cloud_cover,wind_speed_10m,wind_direction_10m,wind_gusts_10m",
        ),
    ));
    pairs.push((owned("timezone"), owned("auto")));
    assert(pair_views(pairs@) =~= forecast_pairs(latitude@, longitude@));
    let q = encode_query(&pairs);
    concat3(base, "?", q.as_str())
}

/// The place chosen among those found: the last one, or an error naming the
/// location when none was found.
pub fn pick_result<T>(found: Option<Vec<T>>, location: &str) -> (r: Result<T, String>)
    ensures
        match found {
            Some(v) => v@.len() > 0 ==> r == Ok::<T, String>(v@.last()),
            None => true,
        },
        r is Err <==> (found is None || found->0@.len() == 0),
        r matches Err(e) ==> e@ == "Location not found: "@ + location@,
{
    match found {
        Some(mut v) => {
            match v.pop() {
                Some(place) => Ok(place),
                None => Err(concat2("Location not found: ", location)),
            }
        },
        None => Err(concat2("Location not found: ", location)),
    }
}

/// URL encoding goes byte by byte: ASCII letters and digits and `-`, `.`,
/// `_`, `~` stay as they are, every other byte becomes `%` and its two
/// upper-case hexadecimal digits; the empty text stays empty.
pub proof fn lemma_url_encoding_steps(bytes: Seq<u8>, b: u8)
    ensures
        url_encoded(Seq::<u8>::empty()) == Seq::<char>::empty(),
        ((48 <= b <= 57) || (65 <= b <= 90) || (97 <= b <= 122) || b == 45 || b == 46 || b == 95 || b
            == 126) ==> url_encoded(bytes.push(b)) == url_encoded(bytes) + seq![b as char],
        !((48 <= b <= 57) || (65 <= b <= 90) || (97 <= b <= 122) || b == 45 || b == 46 || b == 95 || b
            == 126) ==> url_encoded(bytes.push(b)) == url_encoded(bytes) + seq![
            '%',
            crate::effects::color::hex_digit(b as int / 16),
            crate::effects::color::hex_digit(b as int % 16),
        ],
{
    assert(bytes.push(b).drop_last() =~= bytes);
    assert(seq!['%'] + hex_byte(b) =~= seq![
        '%',
        crate::effects::color::hex_digit(b as int / 16),
        crate::effects::color::hex_digit(b as int % 16),
    ]);
}

/// The forecast query asks, in this order, for the latitude, the longitude,
/// the eleven current measurements and the local time zone.
pub proof fn lemma_forecast_query(latitude: Seq<char>, longitude: Seq<char>)
    ensures
        forecast_pairs(latitude, longitude) == seq![
            ("latitude"@, latitude),
            ("longitude"@, longitude),
            (
                "current"@,
                "temperature_2m,relative_humidity_2m,apparent_temperature,precipitation,rain,snowfall,weather_code,cloud_cover,wind_speed_10m,wind_direction_10m,wind_gusts_10m"@,
            ),
            ("timezone"@, "auto"@),
        ],
{
}

} // verus!
