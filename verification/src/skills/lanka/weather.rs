//! Sri Lanka weather: districts, monsoon seasons and the Department of
//! Meteorology forecast endpoint.

use vstd::prelude::*;
use crate::text::{url_encode, url_encoded};

verus! {

/// Public page of the Department of Meteorology.
pub const METEO_BASE_URL: &'static str = "https://www.meteo.gov.lk";

/// Forecast JSON endpoint of the Department of Meteorology.
pub const METEO_FORECAST_API: &'static str = "https://www.meteo.gov.lk/api/forecast";

/// Sri Lanka districts for weather queries.
pub const DISTRICTS: [&'static str; 25] = [
    "Colombo", "Gampaha", "Kalutara", "Kandy", "Matale", "Nuwara Eliya",
    "Galle", "Matara", "Hambantota", "Jaffna", "Kilinochchi", "Mannar",
    "Vavuniya", "Mullaitivu", "Batticaloa", "Ampara", "Trincomalee",
    "Kurunegala", "Puttalam", "Anuradhapura", "Polonnaruwa", "Badulla",
    "Monaragala", "Ratnapura", "Kegalle",
];

/// Active monsoon seasons in Sri Lanka.
#[derive(Debug, Clone, Copy, PartialEq, Eq, Structural)]
pub enum MonsoonSeason {
    /// South-West monsoon: May–September (affects western/southern coast)
    SouthWest,
    /// North-East monsoon: November–February (affects eastern/northern coast)
    NorthEast,
    /// Inter-monsoon: transitional periods (April, October)
    InterMonsoon,
    /// Dry season
    Dry,
}

/// The season that a month number (1–12) falls in; any other number is
/// treated as the dry season.
pub open spec fn season_of_month(month: int) -> MonsoonSeason {
    if 5 <= month <= 9 {
        MonsoonSeason::SouthWest
    } else if (11 <= month <= 12) || (1 <= month <= 2) {
        MonsoonSeason::NorthEast
    } else if month == 4 || month == 10 {
        MonsoonSeason::InterMonsoon
    } else {
        MonsoonSeason::Dry
    }
}

/// Determine the current monsoon season based on month (1–12).
pub fn current_monsoon_season(month: u8) -> (season: MonsoonSeason)
    ensures
        season == season_of_month(month as int),
{
    match month {
        5..=9 => MonsoonSeason::SouthWest,
        11..=12 | 1..=2 => MonsoonSeason::NorthEast,
        4 | 10 => MonsoonSeason::InterMonsoon,
        _ => MonsoonSeason::Dry,
    }
}

/// The advisory for each season.
pub open spec fn season_advisory(season: MonsoonSeason) -> Seq<char> {
    match season {
        MonsoonSeason::SouthWest => "South-West monsoon active (May–Sep). Western and southern coasts experience heavy rain. \
             East coast (Trincomalee, Arugam Bay) is ideal now."@,
        MonsoonSeason::NorthEast => "North-East monsoon active (Nov–Feb). Eastern and northern regions experience rain. \
             West coast (Colombo, Galle, Mirissa) is ideal now."@,
        MonsoonSeason::InterMonsoon => "Inter-monsoon period. Thunderstorms possible island-wide. \
             Check district forecasts before travel."@,
        MonsoonSeason::Dry => "Dry season. Generally good conditions island-wide for tourism."@,
    }
}

/// Return a tourist-friendly monsoon advisory for the given month.
pub fn monsoon_advisory(month: u8) -> (r: &'static str)
    ensures
        r@ == season_advisory(season_of_month(month as int)),
{
    match current_monsoon_season(month) {
        MonsoonSeason::SouthWest => {
            "South-West monsoon active (May–Sep). Western and southern coasts experience heavy rain. \
             East coast (Trincomalee, Arugam Bay) is ideal now."
        }
        MonsoonSeason::NorthEast => {
            "North-East monsoon active (Nov–Feb). Eastern and northern regions experience rain. \
             West coast (Colombo, Galle, Mirissa) is ideal now."
        }
        MonsoonSeason::InterMonsoon => {
            "Inter-monsoon period. Thunderstorms possible island-wide. \
             Check district forecasts before travel."
        }
        MonsoonSeason::Dry => {
            "Dry season. Generally good conditions island-wide for tourism."
        }
    }
}

/// The advisory follows the month. May to September gives the south-west
/// monsoon advisory; November, December, January and February the
/// north-east monsoon advisory; April and October the inter-monsoon advisory
/// (thunderstorms possible island-wide); any other number the dry-season
/// advisory. Advisories of different seasons are different texts.
pub proof fn advisory_follows_the_month(month: int, s1: MonsoonSeason, s2: MonsoonSeason)
    ensures
        5 <= month <= 9 ==> season_advisory(season_of_month(month))
            == "South-West monsoon active (May–Sep). Western and southern coasts experience heavy rain. East coast (Trincomalee, Arugam Bay) is ideal now."@,
        (month == 11 || month == 12 || month == 1 || month == 2) ==> season_advisory(
            season_of_month(month),
        )
            == "North-East monsoon active (Nov–Feb). Eastern and northern regions experience rain. West coast (Colombo, Galle, Mirissa) is ideal now."@,
        (month == 4 || month == 10) ==> season_advisory(season_of_month(month))
            == "Inter-monsoon period. Thunderstorms possible island-wide. Check district forecasts before travel."@,
        !(1 <= month <= 12) || month == 3 ==> season_advisory(season_of_month(month))
            == "Dry season. Generally good conditions island-wide for tourism."@,
        s1 != s2 ==> season_advisory(s1) != season_advisory(s2),
{
    reveal_strlit("South-West monsoon active (May–Sep). Western and southern coasts experience heavy rain. \
             East coast (Trincomalee, Arugam Bay) is ideal now.");
    reveal_strlit("South-West monsoon active (May–Sep). Western and southern coasts experience heavy rain. East coast (Trincomalee, Arugam Bay) is ideal now.");
    reveal_strlit("North-East monsoon active (Nov–Feb). Eastern and northern regions experience rain. \
             West coast (Colombo, Galle, Mirissa) is ideal now.");
    reveal_strlit("North-East monsoon active (Nov–Feb). Eastern and northern regions experience rain. West coast (Colombo, Galle, Mirissa) is ideal now.");
    reveal_strlit("Inter-monsoon period. Thunderstorms possible island-wide. \
             Check district forecasts before travel.");
    reveal_strlit("Inter-monsoon period. Thunderstorms possible island-wide. Check district forecasts before travel.");
    reveal_strlit("Dry season. Generally good conditions island-wide for tourism.");
    if s1 != s2 {
        assert(season_advisory(s1)[0] != season_advisory(s2)[0]);
    }
}

/// The forecast request for a district: the forecast endpoint with the
/// percent-encoded district name as query parameter.
pub fn district_forecast_url(district: &str) -> (r: String)
    ensures
        r@ == METEO_FORECAST_API@ + "?district="@ + url_encoded(district@),
{
    let mut url = METEO_FORECAST_API.to_string();
    url.append("?district=");
    url.append(url_encode(district).as_str());
    url
}

/// The text of the fallback forecast: a pointer to the official site.
pub open spec fn forecast_pointer_text() -> Seq<char> {
    "See "@ + METEO_BASE_URL@ + " for current forecast"@
}

/// The condition reported when the forecast service does not answer.
pub fn forecast_pointer() -> (r: String)
    ensures
        r@ == forecast_pointer_text(),
{
    let mut text = "See ".to_string();
    text.append(METEO_BASE_URL);
    text.append(" for current forecast");
    text
}

} // verus!
