//! Sri Lanka Railways schedule and fare queries.
//!
//! Source: <https://www.railway.gov.lk>
//!
//! The Kandy–Ella hill country train is consistently rated one of the
//! world's most scenic rail journeys. This module provides route tips,
//! train classes, and the request and fallback of the schedule lookup.

use vstd::prelude::*;
use crate::text::{str_equals, url_encode, url_encoded};

verus! {

/// The Sri Lanka Railways site.
pub const SLR_BASE_URL: &'static str = "https://www.railway.gov.lk";

/// The schedule JSON endpoint of Sri Lanka Railways.
pub const SLR_SCHEDULE_API: &'static str = "https://www.railway.gov.lk/api/schedule";

/// Major tourist rail routes in Sri Lanka.
pub const TOURIST_ROUTES: [(&'static str, &'static str, &'static str); 6] = [
    ("Colombo Fort", "Kandy",       "Up-country line — 2h 45m approx"),
    ("Kandy",        "Ella",        "Iconic hill country — 7h approx, observation car recommended"),
    ("Colombo Fort", "Galle",       "Coastal line — 2h 30m approx"),
    ("Colombo Fort", "Jaffna",      "Northern line — 6h approx"),
    ("Colombo Fort", "Anuradhapura","North-Central line — 4h approx"),
    ("Colombo Fort", "Batticaloa",  "East Coast line — 8h approx"),
];

/// Train classes available in Sri Lanka.
#[derive(Debug, Clone, Copy, PartialEq, Eq, Structural)]
pub enum TrainClass {
    /// Air-conditioned (intercity express only)
    FirstClassAC,
    /// Reserved seating
    SecondClass,
    /// Unreserved
    ThirdClass,
    /// Observation saloon (Kandy–Ella, tourist-specific)
    ObservationCar,
}

/// The display name of each train class.
pub open spec fn train_class_text(c: TrainClass) -> Seq<char> {
    match c {
        TrainClass::FirstClassAC => "1st Class (A/C)"@,
        TrainClass::SecondClass => "2nd Class (Reserved)"@,
        TrainClass::ThirdClass => "3rd Class (Unreserved)"@,
        TrainClass::ObservationCar => "Observation Car (Tourist)"@,
    }
}

impl TrainClass {
    /// Human-readable name of the class.
    pub fn display_name(&self) -> (r: &str)
        ensures
            r@ == train_class_text(*self),
    {
        match self {
            TrainClass::FirstClassAC => "1st Class (A/C)",
            TrainClass::SecondClass => "2nd Class (Reserved)",
            TrainClass::ThirdClass => "3rd Class (Unreserved)",
            TrainClass::ObservationCar => "Observation Car (Tourist)",
        }
    }
}

/// A train schedule entry.
#[derive(Debug, Clone)]
pub struct TrainSchedule {
    pub train_number: String,
    pub train_name: String,
    pub origin: String,
    pub destination: String,
    pub departure: String,
    pub arrival: String,
    pub duration_mins: u32,
    pub classes: Vec<TrainClass>,
    pub days_of_operation: Vec<String>,
    pub tourist_recommended: bool,
}

/// The tip for the Kandy–Ella hill country line.
pub open spec fn hill_country_tip() -> Seq<char> {
    "Book the Observation Car (tourist class) well in advance — seats sell out weeks ahead. \
     Sit on the right side Kandy→Ella for the best valley views. \
     Train 1005 (Podi Menike) and 1015 (Udarata Menike) are the most popular."@
}

/// The tip for the Colombo Fort–Galle coastal line.
pub open spec fn coastal_line_tip() -> Seq<char> {
    "The coastal line hugs the ocean for much of the journey. \
     Morning trains offer the best light for photography. \
     Buy tickets at the station — no advance booking required for 2nd/3rd class."@
}

/// Whether a journey runs between stations `a` and `b`, in either direction.
pub open spec fn connects(origin: Seq<char>, destination: Seq<char>, a: Seq<char>, b: Seq<char>) -> bool {
    (origin == a && destination == b) || (origin == b && destination == a)
}

/// The tourist tip for a journey, if there is one.
pub open spec fn tip_for(origin: Seq<char>, destination: Seq<char>) -> Option<Seq<char>> {
    if connects(origin, destination, "Kandy"@, "Ella"@) {
        Some(hill_country_tip())
    } else if connects(origin, destination, "Colombo Fort"@, "Galle"@) {
        Some(coastal_line_tip())
    } else {
        None
    }
}

/// The view of an optional string slice.
pub open spec fn opt_str_view(o: Option<&str>) -> Option<Seq<char>> {
    match o {
        Some(s) => Some(s@),
        None => None,
    }
}

/// Return tourist tips for a given route.
pub fn tourist_tip(origin: &str, destination: &str) -> (r: Option<&'static str>)
    ensures
        opt_str_view(r) == tip_for(origin@, destination@),
{
    if (str_equals(origin, "Kandy") && str_equals(destination, "Ella")) || (str_equals(
        origin,
        "Ella",
    ) && str_equals(destination, "Kandy")) {
        Some(
            "Book the Observation Car (tourist class) well in advance — seats sell out weeks ahead. \
             Sit on the right side Kandy→Ella for the best valley views. \
             Train 1005 (Podi Menike) and 1015 (Udarata Menike) are the most popular.",
        )
    } else if (str_equals(origin, "Colombo Fort") && str_equals(destination, "Galle")) || (
    str_equals(origin, "Galle") && str_equals(destination, "Colombo Fort")) {
        Some(
            "The coastal line hugs the ocean for much of the journey. \
             Morning trains offer the best light for photography. \
             Buy tickets at the station — no advance booking required for 2nd/3rd class.",
        )
    } else {
        None
    }
}

/// A tip holds for a journey exactly when it holds for the journey back:
/// the tip for (`origin`, `destination`) is the tip for (`destination`,
/// `origin`).
pub proof fn tip_is_symmetric(origin: Seq<char>, destination: Seq<char>)
    ensures
        tip_for(origin, destination) == tip_for(destination, origin),
{
}

/// Only the two scenic lines have tips. The journey between Kandy and Ella,
/// in either direction, gets the observation-car tip; the journey between
/// Colombo Fort and Galle, in either direction, gets the coastal-line tip;
/// every other pair of stations gets none.
pub proof fn tips_only_for_the_two_scenic_lines(origin: Seq<char>, destination: Seq<char>)
    ensures
        ((origin == "Kandy"@ && destination == "Ella"@) || (origin == "Ella"@ && destination
            == "Kandy"@)) ==> tip_for(origin, destination) == Some(
            "Book the Observation Car (tourist class) well in advance — seats sell out weeks ahead. Sit on the right side Kandy→Ella for the best valley views. Train 1005 (Podi Menike) and 1015 (Udarata Menike) are the most popular."@,
        ),
        ((origin == "Colombo Fort"@ && destination == "Galle"@) || (origin == "Galle"@
            && destination == "Colombo Fort"@)) ==> tip_for(origin, destination) == Some(
            "The coastal line hugs the ocean for much of the journey. Morning trains offer the best light for photography. Buy tickets at the station — no advance booking required for 2nd/3rd class."@,
        ),
        !((origin == "Kandy"@ && destination == "Ella"@) || (origin == "Ella"@ && destination
            == "Kandy"@) || (origin == "Colombo Fort"@ && destination == "Galle"@) || (origin
            == "Galle"@ && destination == "Colombo Fort"@)) ==> tip_for(origin, destination) is None,
{
    reveal_strlit("Kandy");
    reveal_strlit("Ella");
    reveal_strlit("Colombo Fort");
    reveal_strlit("Galle");
    assert("Galle"@[0] != "Kandy"@[0] && "Galle"@[0] != "Ella"@[0]);
    assert("Colombo Fort"@.len() != "Kandy"@.len() && "Colombo Fort"@.len() != "Ella"@.len());
    reveal_strlit("Book the Observation Car (tourist class) well in advance — seats sell out weeks ahead. \
     Sit on the right side Kandy→Ella for the best valley views. \
     Train 1005 (Podi Menike) and 1015 (Udarata Menike) are the most popular.");
    reveal_strlit("Book the Observation Car (tourist class) well in advance — seats sell out weeks ahead. Sit on the right side Kandy→Ella for the best valley views. Train 1005 (Podi Menike) and 1015 (Udarata Menike) are the most popular.");
    reveal_strlit("The coastal line hugs the ocean for much of the journey. \
     Morning trains offer the best light for photography. \
     Buy tickets at the station — no advance booking required for 2nd/3rd class.");
    reveal_strlit("The coastal line hugs the ocean for much of the journey. Morning trains offer the best light for photography. Buy tickets at the station — no advance booking required for 2nd/3rd class.");
}

/// The schedule request between two stations: the schedule endpoint with
/// the percent-encoded station names as query parameters.
pub fn schedule_url(origin: &str, destination: &str) -> (r: String)
    ensures
        r@ == SLR_SCHEDULE_API@ + "?from="@ + url_encoded(origin@) + "&to="@ + url_encoded(
            destination@,
        ),
{
    let mut url = SLR_SCHEDULE_API.to_string();
    url.append("?from=");
    url.append(url_encode(origin).as_str());
    url.append("&to=");
    url.append(url_encode(destination).as_str());
    url
}

/// The train name of the fallback schedule: a pointer to the official site.
pub open spec fn schedule_pointer_text() -> Seq<char> {
    "See "@ + SLR_BASE_URL@ + " for schedules"@
}

/// The schedules reported when the railway service does not answer: one
/// entry that keeps the stations asked about and points to the official
/// site, with no times, classes or days.
pub fn schedule_fallback(origin: &str, destination: &str) -> (r: Vec<TrainSchedule>)
    ensures
        r@.len() == 1,
        r@[0].train_number@ == "N/A"@,
        r@[0].train_name@ == schedule_pointer_text(),
        r@[0].origin@ == origin@,
        r@[0].destination@ == destination@,
        r@[0].departure@ == "N/A"@,
        r@[0].arrival@ == "N/A"@,
        r@[0].duration_mins == 0,
        r@[0].classes@.len() == 0,
        r@[0].days_of_operation@.len() == 0,
        !r@[0].tourist_recommended,
{
    let mut train_name = "See ".to_string();
    train_name.append(SLR_BASE_URL);
    train_name.append(" for schedules");
    vec![TrainSchedule {
        train_number: "N/A".to_string(),
        train_name,
        origin: origin.to_string(),
        destination: destination.to_string(),
        departure: "N/A".to_string(),
        arrival: "N/A".to_string(),
        duration_mins: 0,
        classes: Vec::new(),
        days_of_operation: Vec::new(),
        tourist_recommended: false,
    }]
}

} // verus!
