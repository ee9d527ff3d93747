//! Sri Lanka Electronic Travel Authorization (ETA) visa checker.
//!
//! Source: <https://www.eta.gov.lk>
//!
//! Most tourists require an ETA before arrival. This module provides
//! eligibility checking and the request and fallback of the application
//! status lookup.

use vstd::prelude::*;
use crate::text::{ascii_lower, eq_ignore_ascii_case, trim, trim_ws, url_encode, url_encoded};

verus! {

/// The ETA portal.
pub const ETA_BASE_URL: &'static str = "https://www.eta.gov.lk";

/// The ETA application status endpoint.
pub const ETA_STATUS_API: &'static str = "https://www.eta.gov.lk/slvisa/visainfo/api/status";

/// Visa-free countries for Sri Lanka (short stay, no ETA required).
/// Source: Department of Immigration and Emigration, 2025.
pub const VISA_FREE_COUNTRIES: [&'static str; 3] = ["Maldives", "Seychelles", "Singapore"];

/// Countries eligible for free ETA (tourist).
pub const FREE_ETA_COUNTRIES: [&'static str; 27] = [
    "Australia", "Austria", "Belgium", "Canada", "Denmark", "Finland",
    "France", "Germany", "Greece", "Ireland", "Italy", "Japan", "Luxembourg",
    "Netherlands", "New Zealand", "Norway", "Portugal", "Spain", "Sweden",
    "Switzerland", "United Kingdom", "United States",
    // SAARC countries
    "Bangladesh", "Bhutan", "India", "Nepal", "Pakistan",
];

/// ETA visa types.
#[derive(Debug, Clone, Copy, PartialEq, Eq, Structural)]
pub enum EtaType {
    /// Short visit (up to 30 days, extendable to 6 months)
    ShortVisit,
    /// Transit (up to 2 days)
    Transit,
    /// Double entry
    DoubleEntry,
}

/// The display text of each ETA type.
pub open spec fn eta_type_text(t: EtaType) -> Seq<char> {
    match t {
        EtaType::ShortVisit => "Short Visit (30 days, extendable)"@,
        EtaType::Transit => "Transit (48 hours)"@,
        EtaType::DoubleEntry => "Double Entry"@,
    }
}

impl EtaType {
    /// Human-readable name of the visa type.
    pub fn display(&self) -> (r: &str)
        ensures
            r@ == eta_type_text(*self),
    {
        match self {
            EtaType::ShortVisit => "Short Visit (30 days, extendable)",
            EtaType::Transit => "Transit (48 hours)",
            EtaType::DoubleEntry => "Double Entry",
        }
    }
}

/// ETA application status.
#[derive(Debug, Clone)]
pub struct EtaStatus {
    pub reference_number: String,
    pub status: String,
    pub visa_type: Option<EtaType>,
    pub valid_from: Option<String>,
    pub valid_until: Option<String>,
    pub passport_number: String,
    pub note: Option<String>,
}

/// Eligibility result for a nationality. The ETA fee is in whole US dollars.
#[derive(Debug, Clone)]
pub struct VisaEligibility {
    pub nationality: String,
    pub requires_eta: bool,
    pub eta_is_free: bool,
    pub eta_fee_usd: Option<u32>,
    pub max_stay_days: u32,
    pub advisory: String,
    pub apply_url: String,
}

/// A `VisaEligibility` with its texts as character sequences.
pub struct VisaEligibilityView {
    pub nationality: Seq<char>,
    pub requires_eta: bool,
    pub eta_is_free: bool,
    pub eta_fee_usd: Option<u32>,
    pub max_stay_days: u32,
    pub advisory: Seq<char>,
    pub apply_url: Seq<char>,
}

impl View for VisaEligibility {
    type V = VisaEligibilityView;

    open spec fn view(&self) -> VisaEligibilityView {
        VisaEligibilityView {
            nationality: self.nationality@,
            requires_eta: self.requires_eta,
            eta_is_free: self.eta_is_free,
            eta_fee_usd: self.eta_fee_usd,
            max_stay_days: self.max_stay_days,
            advisory: self.advisory@,
            apply_url: self.apply_url@,
        }
    }
}

/// The three visa regimes a nationality can fall under.
#[derive(Debug, Clone, Copy, PartialEq, Eq, Structural)]
pub enum VisaCategory {
    /// No ETA needed.
    VisaFree,
    /// ETA needed, issued free of charge.
    FreeEta,
    /// ETA needed, for a fee.
    PaidEta,
}

/// Whether a country list names `norm`, ignoring ASCII case.
pub open spec fn lists_country(list: Seq<&str>, norm: Seq<char>) -> bool {
    exists|i: int| 0 <= i < list.len() && ascii_lower(#[trigger] list[i]@) == ascii_lower(norm)
}

/// The visa regime of a trimmed nationality.
pub open spec fn visa_category(norm: Seq<char>) -> VisaCategory {
    if lists_country(VISA_FREE_COUNTRIES@, norm) {
        VisaCategory::VisaFree
    } else if lists_country(FREE_ETA_COUNTRIES@, norm) {
        VisaCategory::FreeEta
    } else {
        VisaCategory::PaidEta
    }
}

/// The advisory for visa-free nationalities.
pub open spec fn visa_free_advisory() -> Seq<char> {
    "No ETA required. Free entry on arrival for up to 30 days."@
}

/// The advisory for nationalities with a free ETA.
pub open spec fn free_eta_advisory() -> Seq<char> {
    "Free ETA required. Apply online before travel. \
     Extendable up to 6 months at the Department of Immigration in Colombo."@
}

/// The advisory for nationalities with a paid ETA.
pub open spec fn paid_eta_advisory() -> Seq<char> {
    "ETA required (USD 20). Apply at "@ + ETA_BASE_URL@
        + " before travel. Processing time: 24–72 hours. Extendable on arrival."@
}

/// The ETA application page.
pub open spec fn eta_apply_url() -> Seq<char> {
    ETA_BASE_URL@ + "/slvisa/"@
}

/// The eligibility of a nationality as typed by a user.
pub open spec fn eligibility_for(nationality: Seq<char>) -> VisaEligibilityView {
    let norm = trim_ws(nationality);
    match visa_category(norm) {
        VisaCategory::VisaFree => VisaEligibilityView {
            nationality: norm,
            requires_eta: false,
            eta_is_free: false,
            eta_fee_usd: None,
            max_stay_days: 30,
            advisory: visa_free_advisory(),
            apply_url: ETA_BASE_URL@,
        },
        VisaCategory::FreeEta => VisaEligibilityView {
            nationality: norm,
            requires_eta: true,
            eta_is_free: true,
            eta_fee_usd: Some(0),
            max_stay_days: 30,
            advisory: free_eta_advisory(),
            apply_url: eta_apply_url(),
        },
        VisaCategory::PaidEta => VisaEligibilityView {
            nationality: norm,
            requires_eta: true,
            eta_is_free: false,
            eta_fee_usd: Some(20),
            max_stay_days: 30,
            advisory: paid_eta_advisory(),
            apply_url: eta_apply_url(),
        },
    }
}

/// Whether `list` names `norm`, ignoring ASCII case.
fn country_listed(list: &[&str], norm: &str) -> (r: bool)
    ensures
        r == lists_country(list@, norm@),
{
    let n = list.len();
    let mut i: usize = 0;
    while i < n
        invariant
            n == list@.len(),
            i <= n,
            forall|j: int| 0 <= j < i ==> ascii_lower(#[trigger] list@[j]@) != ascii_lower(norm@),
        decreases n - i,
    {
        if eq_ignore_ascii_case(list[i], norm) {
            return true;
        }
        i += 1;
    }
    false
}

/// The ETA application page.
fn apply_url() -> (r: String)
    ensures
        r@ == eta_apply_url(),
{
    let mut u = ETA_BASE_URL.to_string();
    u.append("/slvisa/");
    u
}

/// Check visa eligibility for a given nationality.
pub fn check_eligibility(nationality: &str) -> (r: VisaEligibility)
    ensures
        r@ == eligibility_for(nationality@),
{
    let norm = trim(nationality);

    if country_listed(&VISA_FREE_COUNTRIES, norm) {
        return VisaEligibility {
            nationality: norm.to_string(),
            requires_eta: false,
            eta_is_free: false,
            eta_fee_usd: None,
            max_stay_days: 30,
            advisory: "No ETA required. Free entry on arrival for up to 30 days.".to_string(),
            apply_url: ETA_BASE_URL.to_string(),
        };
    }

    if country_listed(&FREE_ETA_COUNTRIES, norm) {
        return VisaEligibility {
            nationality: norm.to_string(),
            requires_eta: true,
            eta_is_free: true,
            eta_fee_usd: Some(0),
            max_stay_days: 30,
            advisory: "Free ETA required. Apply online before travel. \
                       Extendable up to 6 months at the Department of Immigration in Colombo."
                .to_string(),
            apply_url: apply_url(),
        };
    }

    // Default: paid ETA
    let mut advisory = "ETA required (USD 20). Apply at ".to_string();
    advisory.append(ETA_BASE_URL);
    advisory.append(" before travel. Processing time: 24–72 hours. Extendable on arrival.");
    VisaEligibility {
        nationality: norm.to_string(),
        requires_eta: true,
        eta_is_free: false,
        eta_fee_usd: Some(20),
        max_stay_days: 30,
        advisory,
        apply_url: apply_url(),
    }
}

/// The status request for an application: the status endpoint with the
/// percent-encoded reference and passport numbers as query parameters.
pub fn eta_status_url(reference_number: &str, passport_number: &str) -> (r: String)
    ensures
        r@ == ETA_STATUS_API@ + "?ref="@ + url_encoded(reference_number@) + "&passport="@
            + url_encoded(passport_number@),
{
    let mut url = ETA_STATUS_API.to_string();
    url.append("?ref=");
    url.append(url_encode(reference_number).as_str());
    url.append("&passport=");
    url.append(url_encode(passport_number).as_str());
    url
}

/// The status page on the ETA portal.
pub open spec fn eta_check_status_text() -> Seq<char> {
    "Check status at "@ + ETA_BASE_URL@ + "/slvisa/visainfo/checkstatus"@
}

/// The note given when the status service cannot be reached.
pub open spec fn eta_unavailable_note() -> Seq<char> {
    "API unavailable. Please check status directly on the ETA portal."@
}

/// The status reported when the ETA service does not answer: it points the
/// user to the portal and keeps the numbers that were asked about.
pub fn eta_status_fallback(reference_number: &str, passport_number: &str) -> (r: EtaStatus)
    ensures
        r.reference_number@ == reference_number@,
        r.passport_number@ == passport_number@,
        r.status@ == eta_check_status_text(),
        r.visa_type is None,
        r.valid_from is None,
        r.valid_until is None,
        r.note matches Some(n) && n@ == eta_unavailable_note(),
{
    let mut status = "Check status at ".to_string();
    status.append(ETA_BASE_URL);
    status.append("/slvisa/visainfo/checkstatus");
    EtaStatus {
        reference_number: reference_number.to_string(),
        passport_number: passport_number.to_string(),
        status,
        visa_type: None,
        valid_from: None,
        valid_until: None,
        note: Some("API unavailable. Please check status directly on the ETA portal.".to_string()),
    }
}

/// Eligibility ignores surrounding whitespace and the case of ASCII letters
/// in the nationality: two inputs that agree once trimmed and case-folded
/// get the same answer (only the echoed nationality text may differ).
pub proof fn eligibility_ignores_case_and_padding(a: Seq<char>, b: Seq<char>)
    requires
        ascii_lower(trim_ws(a)) == ascii_lower(trim_ws(b)),
    ensures
        eligibility_for(a).requires_eta == eligibility_for(b).requires_eta,
        eligibility_for(a).eta_is_free == eligibility_for(b).eta_is_free,
        eligibility_for(a).eta_fee_usd == eligibility_for(b).eta_fee_usd,
        eligibility_for(a).max_stay_days == eligibility_for(b).max_stay_days,
        eligibility_for(a).advisory == eligibility_for(b).advisory,
        eligibility_for(a).apply_url == eligibility_for(b).apply_url,
{
    assert(visa_category(trim_ws(a)) == visa_category(trim_ws(b)));
}

/// Every eligibility answer is consistent: the nationality is echoed
/// trimmed; an ETA is required exactly when the nationality is not
/// visa-free; a free ETA is an ETA; a fee is quoted exactly when an ETA is
/// required, and it is zero exactly when the ETA is free, 20 otherwise; the
/// stay is always 30 days.
pub proof fn eligibility_is_consistent(nationality: Seq<char>)
    ensures
        ({
            let e = eligibility_for(nationality);
            &&& e.nationality == trim_ws(nationality)
            &&& e.requires_eta == !lists_country(VISA_FREE_COUNTRIES@, trim_ws(nationality))
            &&& e.eta_is_free ==> e.requires_eta
            &&& e.requires_eta <==> e.eta_fee_usd is Some
            &&& e.eta_is_free <==> e.eta_fee_usd == Some(0u32)
            &&& (e.requires_eta && !e.eta_is_free) <==> e.eta_fee_usd == Some(20u32)
            &&& e.max_stay_days == 30
        }),
{
}

/// The countries of `VISA_FREE_COUNTRIES`, as their lowercased names.
proof fn lemma_visa_free_countries(norm: Seq<char>)
    ensures
        lists_country(VISA_FREE_COUNTRIES@, norm) <==> ({
            let key = ascii_lower(norm);
            key == "maldives"@ ||
            key == "seychelles"@ ||
            key == "singapore"@
        }),
{
    reveal_strlit("Maldives");
    reveal_strlit("maldives");
    assert(ascii_lower("Maldives"@) =~= "maldives"@);
    reveal_strlit("Seychelles");
    reveal_strlit("seychelles");
    assert(ascii_lower("Seychelles"@) =~= "seychelles"@);
    reveal_strlit("Singapore");
    reveal_strlit("singapore");
    assert(ascii_lower("Singapore"@) =~= "singapore"@);
    let key = ascii_lower(norm);
    if lists_country(VISA_FREE_COUNTRIES@, norm) {
        let i = choose|i: int| 0 <= i < VISA_FREE_COUNTRIES@.len() && ascii_lower(#[trigger] VISA_FREE_COUNTRIES@[i]@) == key;
        assert(i == 0 || i == 1 || i == 2);
    }
    if key == "maldives"@ {
        assert(ascii_lower(VISA_FREE_COUNTRIES@[0]@) == key);
    }
    if key == "seychelles"@ {
        assert(ascii_lower(VISA_FREE_COUNTRIES@[1]@) == key);
    }
    if key == "singapore"@ {
        assert(ascii_lower(VISA_FREE_COUNTRIES@[2]@) == key);
    }
}

/// The countries of `FREE_ETA_COUNTRIES`, as their lowercased names.
proof fn lemma_free_eta_countries(norm: Seq<char>)
    ensures
        lists_country(FREE_ETA_COUNTRIES@, norm) <==> ({
            let key = ascii_lower(norm);
            key == "australia"@ ||
            key == "austria"@ ||
            key == "belgium"@ ||
            key == "canada"@ ||
            key == "denmark"@ ||
            key == "finland"@ ||
            key == "france"@ ||
            key == "germany"@ ||
            key == "greece"@ ||
            key == "ireland"@ ||
            key == "italy"@ ||
            key == "japan"@ ||
            key == "luxembourg"@ ||
            key == "netherlands"@ ||
            key == "new zealand"@ ||
            key == "norway"@ ||
            key == "portugal"@ ||
            key == "spain"@ ||
            key == "sweden"@ ||
            key == "switzerland"@ ||
            key == "united kingdom"@ ||
            key == "united states"@ ||
            key == "bangladesh"@ ||
            key == "bhutan"@ ||
            key == "india"@ ||
            key == "nepal"@ ||
            key == "pakistan"@
        }),
{
    reveal_strlit("Australia");
    reveal_strlit("australia");
    assert(ascii_lower("Australia"@) =~= "australia"@);
    reveal_strlit("Austria");
    reveal_strlit("austria");
    assert(ascii_lower("Austria"@) =~= "austria"@);
    reveal_strlit("Belgium");
    reveal_strlit("belgium");
    assert(ascii_lower("Belgium"@) =~= "belgium"@);
    reveal_strlit("Canada");
    reveal_strlit("canada");
    assert(ascii_lower("Canada"@) =~= "canada"@);
    reveal_strlit("Denmark");
    reveal_strlit("denmark");
    assert(ascii_lower("Denmark"@) =~= "denmark"@);
    reveal_strlit("Finland");
    reveal_strlit("finland");
    assert(ascii_lower("Finland"@) =~= "finland"@);
    reveal_strlit("France");
    reveal_strlit("france");
    assert(ascii_lower("France"@) =~= "france"@);
    reveal_strlit("Germany");
    reveal_strlit("germany");
    assert(ascii_lower("Germany"@) =~= "germany"@);
    reveal_strlit("Greece");
    reveal_strlit("greece");
    assert(ascii_lower("Greece"@) =~= "greece"@);
    reveal_strlit("Ireland");
    reveal_strlit("ireland");
    assert(ascii_lower("Ireland"@) =~= "ireland"@);
    reveal_strlit("Italy");
    reveal_strlit("italy");
    assert(ascii_lower("Italy"@) =~= "italy"@);
    reveal_strlit("Japan");
    reveal_strlit("japan");
    assert(ascii_lower("Japan"@) =~= "japan"@);
    reveal_strlit("Luxembourg");
    reveal_strlit("luxembourg");
    assert(ascii_lower("Luxembourg"@) =~= "luxembourg"@);
    reveal_strlit("Netherlands");
    reveal_strlit("netherlands");
    assert(ascii_lower("Netherlands"@) =~= "netherlands"@);
    reveal_strlit("New Zealand");
    reveal_strlit("new zealand");
    assert(ascii_lower("New Zealand"@) =~= "new zealand"@);
    reveal_strlit("Norway");
    reveal_strlit("norway");
    assert(ascii_lower("Norway"@) =~= "norway"@);
    reveal_strlit("Portugal");
    reveal_strlit("portugal");
    assert(ascii_lower("Portugal"@) =~= "portugal"@);
    reveal_strlit("Spain");
    reveal_strlit("spain");
    assert(ascii_lower("Spain"@) =~= "spain"@);
    reveal_strlit("Sweden");
    reveal_strlit("sweden");
    assert(ascii_lower("Sweden"@) =~= "sweden"@);
    reveal_strlit("Switzerland");
    reveal_strlit("switzerland");
    assert(ascii_lower("Switzerland"@) =~= "switzerland"@);
    reveal_strlit("United Kingdom");
    reveal_strlit("united kingdom");
    assert(ascii_lower("United Kingdom"@) =~= "united kingdom"@);
    reveal_strlit("United States");
    reveal_strlit("united states");
    assert(ascii_lower("United States"@) =~= "united states"@);
    reveal_strlit("Bangladesh");
    reveal_strlit("bangladesh");
    assert(ascii_lower("Bangladesh"@) =~= "bangladesh"@);
    reveal_strlit("Bhutan");
    reveal_strlit("bhutan");
    assert(ascii_lower("Bhutan"@) =~= "bhutan"@);
    reveal_strlit("India");
    reveal_strlit("india");
    assert(ascii_lower("India"@) =~= "india"@);
    reveal_strlit("Nepal");
    reveal_strlit("nepal");
    assert(ascii_lower("Nepal"@) =~= "nepal"@);
    reveal_strlit("Pakistan");
    reveal_strlit("pakistan");
    assert(ascii_lower("Pakistan"@) =~= "pakistan"@);
    let key = ascii_lower(norm);
    if lists_country(FREE_ETA_COUNTRIES@, norm) {
        let i = choose|i: int| 0 <= i < FREE_ETA_COUNTRIES@.len() && ascii_lower(#[trigger] FREE_ETA_COUNTRIES@[i]@) == key;
        assert(i == 0 || i == 1 || i == 2 || i == 3 || i == 4 || i == 5 || i == 6 || i == 7 || i == 8 || i == 9 || i == 10 || i == 11 || i == 12 || i == 13 || i == 14 || i == 15 || i == 16 || i == 17 || i == 18 || i == 19 || i == 20 || i == 21 || i == 22 || i == 23 || i == 24 || i == 25 || i == 26);
    }
    if key == "australia"@ {
        assert(ascii_lower(FREE_ETA_COUNTRIES@[0]@) == key);
    }
    if key == "austria"@ {
        assert(ascii_lower(FREE_ETA_COUNTRIES@[1]@) == key);
    }
    if key == "belgium"@ {
        assert(ascii_lower(FREE_ETA_COUNTRIES@[2]@) == key);
    }
    if key == "canada"@ {
        assert(ascii_lower(FREE_ETA_COUNTRIES@[3]@) == key);
    }
    if key == "denmark"@ {
        assert(ascii_lower(FREE_ETA_COUNTRIES@[4]@) == key);
    }
    if key == "finland"@ {
        assert(ascii_lower(FREE_ETA_COUNTRIES@[5]@) == key);
    }
    if key == "france"@ {
        assert(ascii_lower(FREE_ETA_COUNTRIES@[6]@) == key);
    }
    if key == "germany"@ {
        assert(ascii_lower(FREE_ETA_COUNTRIES@[7]@) == key);
    }
    if key == "greece"@ {
        assert(ascii_lower(FREE_ETA_COUNTRIES@[8]@) == key);
    }
    if key == "ireland"@ {
        assert(ascii_lower(FREE_ETA_COUNTRIES@[9]@) == key);
    }
    if key == "italy"@ {
        assert(ascii_lower(FREE_ETA_COUNTRIES@[10]@) == key);
    }
    if key == "japan"@ {
        assert(ascii_lower(FREE_ETA_COUNTRIES@[11]@) == key);
    }
    if key == "luxembourg"@ {
        assert(ascii_lower(FREE_ETA_COUNTRIES@[12]@) == key);
    }
    if key == "netherlands"@ {
        assert(ascii_lower(FREE_ETA_COUNTRIES@[13]@) == key);
    }
    if key == "new zealand"@ {
        assert(ascii_lower(FREE_ETA_COUNTRIES@[14]@) == key);
    }
    if key == "norway"@ {
        assert(ascii_lower(FREE_ETA_COUNTRIES@[15]@) == key);
    }
    if key == "portugal"@ {
        assert(ascii_lower(FREE_ETA_COUNTRIES@[16]@) == key);
    }
    if key == "spain"@ {
        assert(ascii_lower(FREE_ETA_COUNTRIES@[17]@) == key);
    }
    if key == "sweden"@ {
        assert(ascii_lower(FREE_ETA_COUNTRIES@[18]@) == key);
    }
    if key == "switzerland"@ {
        assert(ascii_lower(FREE_ETA_COUNTRIES@[19]@) == key);
    }
    if key == "united kingdom"@ {
        assert(ascii_lower(FREE_ETA_COUNTRIES@[20]@) == key);
    }
    if key == "united states"@ {
        assert(ascii_lower(FREE_ETA_COUNTRIES@[21]@) == key);
    }
    if key == "bangladesh"@ {
        assert(ascii_lower(FREE_ETA_COUNTRIES@[22]@) == key);
    }
    if key == "bhutan"@ {
        assert(ascii_lower(FREE_ETA_COUNTRIES@[23]@) == key);
    }
    if key == "india"@ {
        assert(ascii_lower(FREE_ETA_COUNTRIES@[24]@) == key);
    }
    if key == "nepal"@ {
        assert(ascii_lower(FREE_ETA_COUNTRIES@[25]@) == key);
    }
    if key == "pakistan"@ {
        assert(ascii_lower(FREE_ETA_COUNTRIES@[26]@) == key);
    }
}

/// Eligibility follows the published country lists. Whatever the user
/// types, its trimmed text with ASCII letters lowercased decides: Maldives,
/// Seychelles and Singapore need no ETA and pay nothing; the free-ETA
/// countries (Australia, Austria, ..., the United States, and the SAARC
/// members Bangladesh, Bhutan, India, Nepal and Pakistan) need an ETA that
/// costs nothing; every other nationality needs an ETA for USD 20. The stay
/// is 30 days, the echoed nationality is the trimmed text, and the advisory
/// and application page are those of the regime.
pub proof fn eligibility_follows_the_country_lists(nationality: Seq<char>)
    ensures
        ({
            let key = ascii_lower(trim_ws(nationality));
            let e = eligibility_for(nationality);
            let visa_free = key == "maldives"@ ||
                key == "seychelles"@ ||
                key == "singapore"@;
            let free_eta = key == "australia"@ ||
                key == "austria"@ ||
                key == "belgium"@ ||
                key == "canada"@ ||
                key == "denmark"@ ||
                key == "finland"@ ||
                key == "france"@ ||
                key == "germany"@ ||
                key == "greece"@ ||
                key == "ireland"@ ||
                key == "italy"@ ||
                key == "japan"@ ||
                key == "luxembourg"@ ||
                key == "netherlands"@ ||
                key == "new zealand"@ ||
                key == "norway"@ ||
                key == "portugal"@ ||
                key == "spain"@ ||
                key == "sweden"@ ||
                key == "switzerland"@ ||
                key == "united kingdom"@ ||
                key == "united states"@ ||
                key == "bangladesh"@ ||
                key == "bhutan"@ ||
                key == "india"@ ||
                key == "nepal"@ ||
                key == "pakistan"@;
            &&& e.nationality == trim_ws(nationality)
            &&& e.max_stay_days == 30
            &&& visa_free ==> {
                &&& !e.requires_eta
                &&& !e.eta_is_free
                &&& e.eta_fee_usd is None
                &&& e.advisory == "No ETA required. Free entry on arrival for up to 30 days."@
                &&& e.apply_url == "https://www.eta.gov.lk"@
            }
            &&& (!visa_free && free_eta) ==> {
                &&& e.requires_eta
                &&& e.eta_is_free
                &&& e.eta_fee_usd == Some(0u32)
                &&& e.advisory == "Free ETA required. Apply online before travel. Extendable up to 6 months at the Department of Immigration in Colombo."@
                &&& e.apply_url == "https://www.eta.gov.lk/slvisa/"@
            }
            &&& (!visa_free && !free_eta) ==> {
                &&& e.requires_eta
                &&& !e.eta_is_free
                &&& e.eta_fee_usd == Some(20u32)
                &&& e.advisory == "ETA required (USD 20). Apply at https://www.eta.gov.lk before travel. Processing time: 24–72 hours. Extendable on arrival."@
                &&& e.apply_url == "https://www.eta.gov.lk/slvisa/"@
            }
        }),
{
    lemma_visa_free_countries(trim_ws(nationality));
    lemma_free_eta_countries(trim_ws(nationality));
    reveal_strlit("https://www.eta.gov.lk");
    reveal_strlit("/slvisa/");
    reveal_strlit("https://www.eta.gov.lk/slvisa/");
    assert(eta_apply_url() =~= "https://www.eta.gov.lk/slvisa/"@);
    reveal_strlit("ETA required (USD 20). Apply at ");
    reveal_strlit(" before travel. Processing time: 24–72 hours. Extendable on arrival.");
    reveal_strlit("ETA required (USD 20). Apply at https://www.eta.gov.lk before travel. Processing time: 24–72 hours. Extendable on arrival.");
    assert(paid_eta_advisory() =~= "ETA required (USD 20). Apply at https://www.eta.gov.lk before travel. Processing time: 24–72 hours. Extendable on arrival."@);
    reveal_strlit("Free ETA required. Apply online before travel. \
     Extendable up to 6 months at the Department of Immigration in Colombo.");
    reveal_strlit("Free ETA required. Apply online before travel. Extendable up to 6 months at the Department of Immigration in Colombo.");
}

} // verus!
