//! Sri Lanka Tourism Development Authority (SLTDA) licensed operator lookup.
//!
//! Source: <https://www.sltda.gov.lk>
//!
//! SLTDA licenses hotels, guesthouses, tour operators, tour guides, and
//! tourist vehicles. Checking SLTDA registration protects tourists from
//! unlicensed operators and scams.

use vstd::prelude::*;
use crate::text::{strip_leading, trim_start_matches_char, url_encode, url_encoded};

verus! {

/// The SLTDA site.
pub const SLTDA_BASE_URL: &'static str = "https://www.sltda.gov.lk";

/// The SLTDA registry search endpoint.
pub const SLTDA_SEARCH_API: &'static str = "https://www.sltda.gov.lk/api/search";

/// SLTDA-registered establishment types.
#[derive(Debug, Clone, Copy, PartialEq, Eq, Structural)]
pub enum EstablishmentType {
    Hotel,
    Guesthouse,
    Boutique,
    Homestay,
    TourOperator,
    TourGuide,
    TouristVehicle,
    Restaurant,
    SpaWellness,
}

/// The display text of each establishment type.
pub open spec fn establishment_text(t: EstablishmentType) -> Seq<char> {
    match t {
        EstablishmentType::Hotel => "Hotel"@,
        EstablishmentType::Guesthouse => "Guesthouse"@,
        EstablishmentType::Boutique => "Boutique Hotel"@,
        EstablishmentType::Homestay => "Homestay"@,
        EstablishmentType::TourOperator => "Licensed Tour Operator"@,
        EstablishmentType::TourGuide => "Licensed Tour Guide"@,
        EstablishmentType::TouristVehicle => "Tourist Vehicle"@,
        EstablishmentType::Restaurant => "Restaurant"@,
        EstablishmentType::SpaWellness => "Spa & Wellness"@,
    }
}

impl EstablishmentType {
    /// Human-readable name of the establishment type.
    pub fn display(&self) -> (r: &str)
        ensures
            r@ == establishment_text(*self),
    {
        match self {
            EstablishmentType::Hotel          => "Hotel",
            EstablishmentType::Guesthouse     => "Guesthouse",
            EstablishmentType::Boutique       => "Boutique Hotel",
            EstablishmentType::Homestay       => "Homestay",
            EstablishmentType::TourOperator   => "Licensed Tour Operator",
            EstablishmentType::TourGuide      => "Licensed Tour Guide",
            EstablishmentType::TouristVehicle => "Tourist Vehicle",
            EstablishmentType::Restaurant     => "Restaurant",
            EstablishmentType::SpaWellness    => "Spa & Wellness",
        }
    }
}

/// Star classification for hotels.
#[derive(Debug, Clone, Copy, PartialEq, Eq, Structural)]
pub enum StarRating {
    One,
    Two,
    Three,
    Four,
    Five,
    Unclassified,
}

/// An SLTDA-registered tourism operator or establishment.
#[derive(Debug, Clone)]
pub struct SltdaOperator {
    pub registration_number: String,
    pub name: String,
    pub establishment_type: EstablishmentType,
    pub star_rating: Option<StarRating>,
    pub district: String,
    pub address: String,
    pub phone: Option<String>,
    pub email: Option<String>,
    pub website: Option<String>,
    pub license_valid_until: Option<String>,
    pub is_active: bool,
}

/// Search parameters for SLTDA operator lookup.
#[derive(Debug, Clone)]
pub struct SltdaSearchParams {
    pub name: Option<String>,
    pub district: Option<String>,
    pub establishment_type: Option<EstablishmentType>,
    pub registration_number: Option<String>,
}

/// One query parameter `&key=value` with the value percent-encoded, or
/// nothing when the value is absent.
pub open spec fn query_param(key: Seq<char>, value: Option<String>) -> Seq<char> {
    match value {
        Some(v) => "&"@ + key + "="@ + url_encoded(v@),
        None => seq![],
    }
}

/// The query of a registry search: name, district and registration number,
/// in that order, each when given, with the leading `&` removed. The
/// establishment type is not part of the query.
pub open spec fn search_query(params: SltdaSearchParams) -> Seq<char> {
    strip_leading(
        query_param("name"@, params.name) + query_param("district"@, params.district)
            + query_param("reg"@, params.registration_number),
        '&',
    )
}

/// Appends `&key=value` with the value percent-encoded, when it is given.
fn append_param(query: &mut String, key: &str, value: &Option<String>)
    ensures
        final(query)@ == old(query)@ + query_param(key@, *value),
{
    match value {
        Some(v) => {
            query.append("&");
            query.append(key);
            query.append("=");
            query.append(url_encode(v.as_str()).as_str());
        },
        None => {},
    }
}

/// The registry search request for the given parameters.
pub fn search_url(params: &SltdaSearchParams) -> (r: String)
    ensures
        r@ == SLTDA_SEARCH_API@ + "?"@ + search_query(*params),
{
    let mut query = String::new();
    append_param(&mut query, "name", &params.name);
    append_param(&mut query, "district", &params.district);
    append_param(&mut query, "reg", &params.registration_number);
    assert(query@ =~= query_param("name"@, params.name) + query_param("district"@, params.district)
        + query_param("reg"@, params.registration_number));

    let mut url = SLTDA_SEARCH_API.to_string();
    url.append("?");
    url.append(trim_start_matches_char(query.as_str(), '&'));
    url
}

/// The `key=value` item of a search parameter, value percent-encoded, as a
/// one-item list; an empty list when the parameter is not given.
pub open spec fn given_param(key: Seq<char>, value: Option<String>) -> Seq<Seq<char>> {
    match value {
        Some(v) => seq![key + "="@ + url_encoded(v@)],
        None => seq![],
    }
}

/// Texts joined with `&` between consecutive ones.
pub open spec fn joined_with_ampersands(items: Seq<Seq<char>>) -> Seq<char>
    decreases items.len(),
{
    if items.len() == 0 {
        seq![]
    } else if items.len() == 1 {
        items[0]
    } else {
        items[0] + "&"@ + joined_with_ampersands(items.drop_first())
    }
}

/// Removing the leading `&` of `&` followed by a text that does not start
/// with `&` gives that text.
proof fn lemma_strip_one_ampersand(rest: Seq<char>)
    requires
        rest.len() > 0,
        rest[0] != '&',
    ensures
        strip_leading("&"@ + rest, '&') == rest,
{
    reveal_strlit("&");
    reveal_with_fuel(strip_leading, 2);
    assert(("&"@ + rest).drop_first() =~= rest);
}

/// The search query is made of the given parameters only: each given one
/// written `key=value` with its value percent-encoded, in the order name,
/// district, registration number, consecutive ones separated by a single
/// `&`, and no `&` before the first nor after the last.
pub proof fn search_query_joins_the_given_parameters(params: SltdaSearchParams)
    ensures
        search_query(params) == joined_with_ampersands(
            given_param("name"@, params.name) + given_param("district"@, params.district)
                + given_param("reg"@, params.registration_number),
        ),
{
    reveal_strlit("&");
    reveal_strlit("=");
    reveal_strlit("name");
    reveal_strlit("district");
    reveal_strlit("reg");
    let q = query_param("name"@, params.name) + query_param("district"@, params.district)
        + query_param("reg"@, params.registration_number);
    let items = given_param("name"@, params.name) + given_param("district"@, params.district)
        + given_param("reg"@, params.registration_number);
    reveal_with_fuel(joined_with_ampersands, 4);
    match (params.name, params.district, params.registration_number) {
        (None, None, None) => {
            assert(q =~= seq![]);
            assert(items =~= seq![]);
        },
        (Some(a), None, None) => {
            let pa = "name"@ + "="@ + url_encoded(a@);
            assert(items =~= seq![pa]);
            assert(q =~= "&"@ + pa);
            lemma_strip_one_ampersand(pa);
        },
        (None, Some(b), None) => {
            let pb = "district"@ + "="@ + url_encoded(b@);
            assert(items =~= seq![pb]);
            assert(q =~= "&"@ + pb);
            lemma_strip_one_ampersand(pb);
        },
        (None, None, Some(c)) => {
            let pc = "reg"@ + "="@ + url_encoded(c@);
            assert(items =~= seq![pc]);
            assert(q =~= "&"@ + pc);
            lemma_strip_one_ampersand(pc);
        },
        (Some(a), Some(b), None) => {
            let pa = "name"@ + "="@ + url_encoded(a@);
            let pb = "district"@ + "="@ + url_encoded(b@);
            assert(items =~= seq![pa, pb]);
            assert(items.drop_first() =~= seq![pb]);
            assert(q =~= "&"@ + (pa + "&"@ + pb));
            lemma_strip_one_ampersand(pa + "&"@ + pb);
        },
        (Some(a), None, Some(c)) => {
            let pa = "name"@ + "="@ + url_encoded(a@);
            let pc = "reg"@ + "="@ + url_encoded(c@);
            assert(items =~= seq![pa, pc]);
            assert(items.drop_first() =~= seq![pc]);
            assert(q =~= "&"@ + (pa + "&"@ + pc));
            lemma_strip_one_ampersand(pa + "&"@ + pc);
        },
        (None, Some(b), Some(c)) => {
            let pb = "district"@ + "="@ + url_encoded(b@);
            let pc = "reg"@ + "="@ + url_encoded(c@);
            assert(items =~= seq![pb, pc]);
            assert(items.drop_first() =~= seq![pc]);
            assert(q =~= "&"@ + (pb + "&"@ + pc));
            lemma_strip_one_ampersand(pb + "&"@ + pc);
        },
        (Some(a), Some(b), Some(c)) => {
            let pa = "name"@ + "="@ + url_encoded(a@);
            let pb = "district"@ + "="@ + url_encoded(b@);
            let pc = "reg"@ + "="@ + url_encoded(c@);
            assert(items =~= seq![pa, pb, pc]);
            assert(items.drop_first() =~= seq![pb, pc]);
            assert(items.drop_first().drop_first() =~= seq![pc]);
            assert(q =~= "&"@ + (pa + "&"@ + (pb + "&"@ + pc)));
            lemma_strip_one_ampersand(pa + "&"@ + (pb + "&"@ + pc));
        },
    }
}

/// The name of the fallback entry: a pointer to the registry page.
pub open spec fn registry_pointer_text() -> Seq<char> {
    "Search at "@ + SLTDA_BASE_URL@ + "/en/registered-establishments"@
}

/// The operators reported when the registry does not answer: one inactive
/// placeholder entry that points to the registry page and the SLTDA site.
pub fn search_fallback() -> (r: Vec<SltdaOperator>)
    ensures
        r@.len() == 1,
        r@[0].registration_number@ == "N/A"@,
        r@[0].name@ == registry_pointer_text(),
        r@[0].establishment_type == EstablishmentType::Hotel,
        r@[0].star_rating is None,
        r@[0].district@ == "N/A"@,
        r@[0].address@.len() == 0,
        r@[0].phone is None,
        r@[0].email is None,
        r@[0].website matches Some(w) && w@ == SLTDA_BASE_URL@,
        r@[0].license_valid_until is None,
        !r@[0].is_active,
{
    let mut name = "Search at ".to_string();
    name.append(SLTDA_BASE_URL);
    name.append("/en/registered-establishments");
    vec![SltdaOperator {
        registration_number: "N/A".to_string(),
        name,
        establishment_type: EstablishmentType::Hotel,
        star_rating: None,
        district: "N/A".to_string(),
        address: String::new(),
        phone: None,
        email: None,
        website: Some(SLTDA_BASE_URL.to_string()),
        license_valid_until: None,
        is_active: false,
    }]
}

/// The booking safety advisory.
pub open spec fn booking_safety_text() -> Seq<char> {
    "Always verify your hotel or tour operator is SLTDA-registered before paying. \
     Licensed operators display their SLTDA registration certificate on-site. \
     Report unlicensed operators to SLTDA on +94 11 2 426900 or info@sltda.gov.lk. \
     Tourist Police hotline: 1912."@
}

/// Generate a tourist safety advisory for booking accommodation.
pub fn booking_safety_advisory() -> (r: &'static str)
    ensures
        r@ == booking_safety_text(),
{
    "Always verify your hotel or tour operator is SLTDA-registered before paying. \
     Licensed operators display their SLTDA registration certificate on-site. \
     Report unlicensed operators to SLTDA on +94 11 2 426900 or info@sltda.gov.lk. \
     Tourist Police hotline: 1912."
}

/// Key tourist areas with what they are known for, in the order listed.
pub open spec fn tourist_area_table() -> Seq<(Seq<char>, Seq<char>)> {
    seq![
        ("Colombo"@, "Commercial capital — business hotels, city tours"@),
        ("Kandy"@, "Cultural triangle — temples, hill country gateway"@),
        ("Ella"@, "Backpacker hub — hiking, tea country, scenic train"@),
        ("Galle"@, "Colonial fort, beaches, diving — southwest coast"@),
        ("Mirissa"@, "Whale watching, surfing, beaches"@),
        ("Sigiriya"@, "Rock fortress — UNESCO World Heritage Site"@),
        ("Trincomalee"@, "East coast beaches, diving — best Jun–Sep"@),
        ("Arugam Bay"@, "World-class surfing — best May–Oct"@),
        ("Nuwara Eliya"@, "Tea country, cool climate, colonial charm"@),
        ("Anuradhapura"@, "Ancient kingdom — UNESCO World Heritage Site"@),
        ("Yala"@, "Wildlife safari — leopards, elephants"@),
        ("Bentota"@, "Beach resort, water sports, Ayurveda"@),
    ]
}

/// The view of an (area, description) pair of string slices.
pub open spec fn area_view(p: (&str, &str)) -> (Seq<char>, Seq<char>) {
    (p.0@, p.1@)
}

/// Key tourist areas in Sri Lanka with typical operator density.
pub fn tourist_areas() -> (r: &'static [(&'static str, &'static str)])
    ensures
        r@.map_values(|p: (&str, &str)| area_view(p)) == tourist_area_table(),
{
    let r: &'static [(&'static str, &'static str)] = &[
        ("Colombo",       "Commercial capital — business hotels, city tours"),
        ("Kandy",         "Cultural triangle — temples, hill country gateway"),
        ("Ella",          "Backpacker hub — hiking, tea country, scenic train"),
        ("Galle",         "Colonial fort, beaches, diving — southwest coast"),
        ("Mirissa",       "Whale watching, surfing, beaches"),
        ("Sigiriya",      "Rock fortress — UNESCO World Heritage Site"),
        ("Trincomalee",   "East coast beaches, diving — best Jun–Sep"),
        ("Arugam Bay",    "World-class surfing — best May–Oct"),
        ("Nuwara Eliya",  "Tea country, cool climate, colonial charm"),
        ("Anuradhapura",  "Ancient kingdom — UNESCO World Heritage Site"),
        ("Yala",          "Wildlife safari — leopards, elephants"),
        ("Bentota",       "Beach resort, water sports, Ayurveda"),
    ];
    assert(r@.map_values(|p: (&str, &str)| area_view(p)) =~= tourist_area_table());
    r
}

} // verus!
