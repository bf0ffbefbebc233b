//! Construction of the forecast request URL: the fixed query shape with
//! the decoded latitude, longitude and percent-encoded timezone embedded.

use vstd::prelude::*;

use crate::decode::Geolocation;

verus! {

/// Relies on std's `String::push`: appends the given character to the end
/// of the string.
#[verifier::external_body]
fn push_char(s: &mut String, c: char)
    ensures
        final(s)@ == old(s)@.push(c),
{
    s.push(c)
}

/// The text with every '/' written as "%2F" and every other character kept.
pub open spec fn percent_encoded(s: Seq<char>) -> Seq<char>
    decreases s.len(),
{
    if s.len() == 0 {
        Seq::empty()
    } else {
        percent_encoded(s.drop_last()) + (if s.last() == '/' {
            seq!['%', '2', 'F']
        } else {
            seq![s.last()]
        })
    }
}

/// Percent-encodes the path separators of a timezone identifier.
pub fn percent_encode(s: &str) -> (r: String)
    ensures
        r@ == percent_encoded(s@),
{
    let n = s.unicode_len();
    let mut out = String::new();
    let mut i: usize = 0;
    while i < n
        invariant
            n == s@.len(),
            i <= n,
            out@ == percent_encoded(s@.take(i as int)),
        decreases n - i,
    {
        let c = s.get_char(i);
        proof {
            assert(s@.take(i + 1).drop_last() =~= s@.take(i as int));
            assert(s@.take(i + 1).last() == s@[i as int]);
        }
        if c == '/' {
            out.append("%2F");
            proof {
                reveal_strlit("%2F");
                assert("%2F"@ =~= seq!['%', '2', 'F']);
                assert(out@ =~= percent_encoded(s@.take(i + 1)));
            }
        } else {
            push_char(&mut out, c);
            proof {
                assert(out@ =~= percent_encoded(s@.take(i + 1)));
            }
        }
        i += 1;
    }
    proof {
        assert(s@.take(n as int) =~= s@);
    }
    out
}

/// The full forecast request: the fixed endpoint and query shape with the
/// given coordinate texts and percent-encoded timezone embedded, asking
/// for two days of hourly and daily series.
pub open spec fn forecast_url_text(lat: Seq<char>, lon: Seq<char>, tz: Seq<char>) -> Seq<char> {
    "https://api.open-meteo.com/v1/forecast?latitude="@ + lat + "&longitude="@ + lon
        + "&hourly=temperature_2m,apparent_temperature,weather_code,wind_speed_10m&daily=weather_code,temperature_2m_max,temperature_2m_min,apparent_temperature_max,apparent_temperature_min&timezone="@
        + percent_encoded(tz) + "&forecast_days=2"@
}

/// Builds the forecast request URL for a decoded geolocation.
pub fn forecast_url(g: &Geolocation) -> (r: String)
    ensures
        r@ == forecast_url_text(g.latitude@, g.longitude@, g.timezone@),
{
    let mut url = String::new();
    url.append("https://api.open-meteo.com/v1/forecast?latitude=");
    url.append(g.latitude.as_str());
    url.append("&longitude=");
    url.append(g.longitude.as_str());
    url.append(
        "&hourly=temperature_2m,apparent_temperature,weather_code,wind_speed_10m&daily=weather_code,temperature_2m_max,temperature_2m_min,apparent_temperature_max,apparent_temperature_min&timezone=",
    );
    let enc = percent_encode(g.timezone.as_str());
    url.append(enc.as_str());
    url.append("&forecast_days=2");
    proof {
        assert(url@ =~= forecast_url_text(g.latitude@, g.longitude@, g.timezone@));
    }
    url
}

} // verus!
