//! Sri Lanka cultural calendar — public holidays, Poya days, and festivals.
//!
//! Poya days (full moon) are public holidays in Sri Lanka. Most businesses,
//! tourist sites, and alcohol sales are restricted. Tourists frequently get
//! caught out — this module helps agents warn and inform proactively.

use vstd::prelude::*;
use crate::text::{ascii_lower, contains_ascii_folded, contains_str, has_substring, lemma_absent_substring, lemma_substring_of_itself, lowercase_of, matches_from, occurs_from, to_lowercase};
use vstd::utf8::is_ascii_chars;

verus! {

/// Kinds of calendar events.
#[derive(Debug, Clone, Copy, PartialEq, Eq, Structural)]
pub enum EventType {
    /// Full-moon Poya day (public holiday)
    Poya,
    /// National public holiday
    NationalHoliday,
    /// Religious festival (may not be a holiday)
    Festival,
    /// Cultural/seasonal event
    Cultural,
}

/// How an event affects a visitor.
#[derive(Debug, Clone, Copy, PartialEq, Eq, Structural)]
pub enum TouristImpact {
    /// Alcohol sales banned, many businesses closed
    High,
    /// Some closures, reduced services
    Medium,
    /// Crowds and traffic expected
    Low,
    /// Positive — great time to visit
    Positive,
}

/// The advisory text for each tourist impact.
pub open spec fn impact_advisory(impact: TouristImpact) -> Seq<char> {
    match impact {
        TouristImpact::High => "Alcohol sales banned island-wide. Many shops and restaurants closed. Plan ahead."@,
        TouristImpact::Medium => "Some businesses closed. Reduced transport services possible."@,
        TouristImpact::Low => "Expect crowds and traffic in major cities and sites."@,
        TouristImpact::Positive => "Excellent time to experience Sri Lankan culture. Book accommodation early."@,
    }
}

impl TouristImpact {
    /// A short advisory for visitors.
    pub fn advisory(&self) -> (r: &str)
        ensures
            r@ == impact_advisory(*self),
    {
        match self {
            TouristImpact::High => "Alcohol sales banned island-wide. Many shops and restaurants closed. Plan ahead.",
            TouristImpact::Medium => "Some businesses closed. Reduced transport services possible.",
            TouristImpact::Low => "Expect crowds and traffic in major cities and sites.",
            TouristImpact::Positive => "Excellent time to experience Sri Lankan culture. Book accommodation early.",
        }
    }
}

/// A public holiday or cultural event in Sri Lanka.
#[derive(Debug, Clone)]
pub struct CulturalEvent {
    pub name: String,
    pub name_si: String,
    pub name_ta: String,
    pub date: String,
    pub event_type: EventType,
    pub tourist_impact: TouristImpact,
    pub description: String,
}

/// A `CulturalEvent` with its texts as character sequences.
pub struct CulturalEventView {
    pub name: Seq<char>,
    pub name_si: Seq<char>,
    pub name_ta: Seq<char>,
    pub date: Seq<char>,
    pub event_type: EventType,
    pub tourist_impact: TouristImpact,
    pub description: Seq<char>,
}

impl View for CulturalEvent {
    type V = CulturalEventView;

    open spec fn view(&self) -> CulturalEventView {
        CulturalEventView {
            name: self.name@,
            name_si: self.name_si@,
            name_ta: self.name_ta@,
            date: self.date@,
            event_type: self.event_type,
            tourist_impact: self.tourist_impact,
            description: self.description@,
        }
    }
}

/// Builds the view of one calendar entry.
pub open spec fn event_view(
    name: Seq<char>,
    name_si: Seq<char>,
    name_ta: Seq<char>,
    date: Seq<char>,
    event_type: EventType,
    tourist_impact: TouristImpact,
    description: Seq<char>,
) -> CulturalEventView {
    CulturalEventView { name, name_si, name_ta, date, event_type, tourist_impact, description }
}

/// The public holidays and major festivals that fall on the same dates
/// every year, in calendar order.
pub open spec fn fixed_holiday_table() -> Seq<CulturalEventView> {
    seq![
        event_view(
            "Tamil Thai Pongal Day"@,
            "තෛ පොංගල් දිනය"@,
            "தமிழ் தை பொங்கல் நாள்"@,
            "January 14"@,
            EventType::NationalHoliday,
            TouristImpact::Positive,
            "Tamil harvest festival. Celebrated with kolam, sugarcane, and sweet rice."@,
        ),
        event_view(
            "Independence Day"@,
            "නිදහස් දිනය"@,
            "சுதந்திர தினம்"@,
            "February 4"@,
            EventType::NationalHoliday,
            TouristImpact::Positive,
            "Sri Lanka's independence from British rule (1948). Parade in Colombo."@,
        ),
        event_view(
            "Sinhala & Tamil New Year"@,
            "සිංහල හා දෙමළ අලුත් අවුරුදු"@,
            "சிங்கள தமிழ் புத்தாண்டு"@,
            "April 13–14"@,
            EventType::NationalHoliday,
            TouristImpact::High,
            "The most important cultural celebration. Country-wide festivities. \
             Transport and accommodation fully booked. Many businesses closed for a week."@,
        ),
        event_view(
            "Esala Perahera"@,
            "එසල පෙරහැර"@,
            "ஆடி பெரகரா"@,
            "July–August (10 days, Kandy)"@,
            EventType::Festival,
            TouristImpact::Positive,
            "One of Asia's grandest festivals. Elephants, dancers, drummers parade \
             through Kandy for the Sacred Tooth Relic. Book Kandy accommodation \
             6+ months in advance."@,
        ),
        event_view(
            "Christmas Day"@,
            "නත්තල් දිනය"@,
            "கிறிஸ்மஸ் தினம்"@,
            "December 25"@,
            EventType::NationalHoliday,
            TouristImpact::Low,
            "Public holiday. Peak tourist season — beaches packed, prices high."@,
        ),
    ]
}

/// Builds one calendar entry from its texts.
fn make_event(
    name: &str,
    name_si: &str,
    name_ta: &str,
    date: &str,
    event_type: EventType,
    tourist_impact: TouristImpact,
    description: &str,
) -> (e: CulturalEvent)
    ensures
        e@ == event_view(name@, name_si@, name_ta@, date@, event_type, tourist_impact, description@),
{
    CulturalEvent {
        name: name.to_string(),
        name_si: name_si.to_string(),
        name_ta: name_ta.to_string(),
        date: date.to_string(),
        event_type,
        tourist_impact,
        description: description.to_string(),
    }
}

/// Return the fixed public holidays for Sri Lanka (year-independent dates).
/// Poya dates vary annually — use `poya_dates_2026()` for specific years.
pub fn fixed_public_holidays() -> (r: Vec<CulturalEvent>)
    ensures
        r@.map_values(|e: CulturalEvent| e@) == fixed_holiday_table(),
{
    let r = vec![
        make_event(
            "Tamil Thai Pongal Day",
            "තෛ පොංගල් දිනය",
            "தமிழ் தை பொங்கல் நாள்",
            "January 14",
            EventType::NationalHoliday,
            TouristImpact::Positive,
            "Tamil harvest festival. Celebrated with kolam, sugarcane, and sweet rice.",
        ),
        make_event(
            "Independence Day",
            "නිදහස් දිනය",
            "சுதந்திர தினம்",
            "February 4",
            EventType::NationalHoliday,
            TouristImpact::Positive,
            "Sri Lanka's independence from British rule (1948). Parade in Colombo.",
        ),
        make_event(
            "Sinhala & Tamil New Year",
            "සිංහල හා දෙමළ අලුත් අවුරුදු",
            "சிங்கள தமிழ் புத்தாண்டு",
            "April 13–14",
            EventType::NationalHoliday,
            TouristImpact::High,
            "The most important cultural celebration. Country-wide festivities. \
             Transport and accommodation fully booked. Many businesses closed for a week.",
        ),
        make_event(
            "Esala Perahera",
            "එසල පෙරහැර",
            "ஆடி பெரகரா",
            "July–August (10 days, Kandy)",
            EventType::Festival,
            TouristImpact::Positive,
            "One of Asia's grandest festivals. Elephants, dancers, drummers parade \
             through Kandy for the Sacred Tooth Relic. Book Kandy accommodation \
             6+ months in advance.",
        ),
        make_event(
            "Christmas Day",
            "නත්තල් දිනය",
            "கிறிஸ்மஸ் தினம்",
            "December 25",
            EventType::NationalHoliday,
            TouristImpact::Low,
            "Public holiday. Peak tourist season — beaches packed, prices high.",
        ),
    ];
    assert(r@.map_values(|e: CulturalEvent| e@) =~= fixed_holiday_table());
    r
}

/// The Poya (full moon) days of 2026: date and name, in calendar order.
pub open spec fn poya_table_2026() -> Seq<(Seq<char>, Seq<char>)> {
    seq![
        ("January 13"@, "Duruthu Poya"@),
        ("February 12"@, "Navam Poya"@),
        ("March 13"@, "Medin Poya"@),
        ("April 12"@, "Bak Poya"@),
        ("May 12"@, "Vesak Poya — most sacred"@),
        ("June 11"@, "Poson Poya"@),
        ("July 10"@, "Esala Poya"@),
        ("August 9"@, "Nikini Poya"@),
        ("September 7"@, "Binara Poya"@),
        ("October 6"@, "Vap Poya"@),
        ("November 5"@, "Il Poya"@),
        ("December 4"@, "Unduvap Poya"@),
    ]
}

/// The view of a (date, name) pair of string slices.
pub open spec fn pair_view(p: (&str, &str)) -> (Seq<char>, Seq<char>) {
    (p.0@, p.1@)
}

/// Return all Poya (full moon) dates for 2026.
pub fn poya_dates_2026() -> (r: Vec<(&'static str, &'static str)>)
    ensures
        r@.map_values(|p: (&str, &str)| pair_view(p)) == poya_table_2026(),
{
    let r = vec![
        ("January 13",  "Duruthu Poya"),
        ("February 12", "Navam Poya"),
        ("March 13",    "Medin Poya"),
        ("April 12",    "Bak Poya"),
        ("May 12",      "Vesak Poya — most sacred"),
        ("June 11",     "Poson Poya"),
        ("July 10",     "Esala Poya"),
        ("August 9",    "Nikini Poya"),
        ("September 7", "Binara Poya"),
        ("October 6",   "Vap Poya"),
        ("November 5",  "Il Poya"),
        ("December 4",  "Unduvap Poya"),
    ];
    assert(r@.map_values(|p: (&str, &str)| pair_view(p)) =~= poya_table_2026());
    r
}

/// The advisory text for a Poya day.
pub open spec fn poya_advisory_text(date: Seq<char>, name: Seq<char>) -> Seq<char> {
    "⚠️  "@ + date + " is a Poya day ("@ + name
        + "). Alcohol sales banned island-wide. Many shops closed. Plan purchases and restaurant bookings in advance."@
}

/// Whether a lowercased date text mentions the Poya day at `i` of the 2026
/// table (compared with that date lowercased; the dates are ASCII, so
/// lowercasing only turns `A`–`Z` into `a`–`z`).
pub open spec fn mentions_poya(date_lower: Seq<char>, i: int) -> bool {
    has_substring(date_lower, ascii_lower(poya_table_2026()[i].0))
}

/// The Poya dates of the table are ASCII text.
proof fn lemma_poya_dates_are_ascii()
    ensures
        forall|i: int| 0 <= i < 12 ==> is_ascii_chars(#[trigger] poya_table_2026()[i].0),
{
    reveal_strlit("January 13");
    reveal_strlit("February 12");
    reveal_strlit("March 13");
    reveal_strlit("April 12");
    reveal_strlit("May 12");
    reveal_strlit("June 11");
    reveal_strlit("July 10");
    reveal_strlit("August 9");
    reveal_strlit("September 7");
    reveal_strlit("October 6");
    reveal_strlit("November 5");
    reveal_strlit("December 4");
}

/// The advisory for the first Poya day, from `i` on, that a lowercased
/// date text mentions; `None` when it mentions none of them.
pub open spec fn poya_advisory_from(date_lower: Seq<char>, i: int) -> Option<Seq<char>>
    decreases 12 - i,
{
    if i < 0 || i >= 12 {
        None
    } else if mentions_poya(date_lower, i) {
        Some(poya_advisory_text(poya_table_2026()[i].0, poya_table_2026()[i].1))
    } else {
        poya_advisory_from(date_lower, i + 1)
    }
}

/// The view of an optional owned string.
pub open spec fn opt_string_view(o: Option<String>) -> Option<Seq<char>> {
    match o {
        Some(s) => Some(s@),
        None => None,
    }
}

/// The Poya advisory for a date text that has already been lowercased:
/// the advisory of the first 2026 Poya day whose lowercased date occurs in
/// `date_lower`, or `None`.
pub fn poya_advisory_for_lowered(date_lower: &str) -> (r: Option<String>)
    ensures
        opt_string_view(r) == poya_advisory_from(date_lower@, 0),
{
    let table = poya_dates_2026();
    let n = table.len();
    let mut i: usize = 0;
    assert(table@.map_values(|p: (&str, &str)| pair_view(p)).len() == 12);
    while i < n
        invariant
            n == table@.len() == 12,
            table@.map_values(|p: (&str, &str)| pair_view(p)) == poya_table_2026(),
            i <= n,
            poya_advisory_from(date_lower@, 0) == poya_advisory_from(date_lower@, i as int),
        decreases n - i,
    {
        let (poya_date, poya_name) = table[i];
        proof {
            assert(pair_view(table@[i as int]) == poya_table_2026()[i as int]);
            lemma_poya_dates_are_ascii();
        }
        let poya_lower = to_lowercase(poya_date);
        if contains_str(date_lower, poya_lower.as_str()) {
            let mut msg = "⚠️  ".to_string();
            msg.append(poya_date);
            msg.append(" is a Poya day (");
            msg.append(poya_name);
            msg.append(
                "). Alcohol sales banned island-wide. Many shops closed. Plan purchases and restaurant bookings in advance.",
            );
            return Some(msg);
        }
        i += 1;
    }
    None
}

/// The advisory text for a fixed holiday or festival.
pub open spec fn holiday_advisory_text(
    date: Seq<char>,
    name: Seq<char>,
    impact: TouristImpact,
) -> Seq<char> {
    "⚠️  "@ + date + " is "@ + name + ". "@ + impact_advisory(impact)
}

/// Whether a lowercased date text mentions the fixed holiday at `i` of the
/// holiday table (compared with that date, its ASCII letters lowercased).
pub open spec fn mentions_holiday(date_lower: Seq<char>, i: int) -> bool {
    has_substring(date_lower, ascii_lower(fixed_holiday_table()[i].date))
}

/// The advisory for the first fixed holiday, from `i` on, that a lowercased
/// date text mentions; `None` when it mentions none of them.
pub open spec fn holiday_advisory_from(date_lower: Seq<char>, i: int) -> Option<Seq<char>>
    decreases 5 - i,
{
    if i < 0 || i >= 5 {
        None
    } else if mentions_holiday(date_lower, i) {
        let e = fixed_holiday_table()[i];
        Some(holiday_advisory_text(e.date, e.name, e.tourist_impact))
    } else {
        holiday_advisory_from(date_lower, i + 1)
    }
}

/// The advisory for a lowercased date text: that of the first 2026 Poya day
/// it mentions; failing that, that of the first fixed holiday it mentions;
/// `None` when it mentions neither.
pub open spec fn date_advisory(date_lower: Seq<char>) -> Option<Seq<char>> {
    if poya_advisory_from(date_lower, 0) is Some {
        poya_advisory_from(date_lower, 0)
    } else {
        holiday_advisory_from(date_lower, 0)
    }
}

/// The holiday advisory for a date text that has already been lowercased:
/// the advisory of the first fixed holiday whose date, ASCII letters
/// lowercased, occurs in `date_lower`, or `None`.
pub fn holiday_advisory_for_lowered(date_lower: &str) -> (r: Option<String>)
    ensures
        opt_string_view(r) == holiday_advisory_from(date_lower@, 0),
{
    let holidays = fixed_public_holidays();
    let n = holidays.len();
    let mut i: usize = 0;
    assert(holidays@.map_values(|e: CulturalEvent| e@).len() == 5);
    while i < n
        invariant
            n == holidays@.len() == 5,
            holidays@.map_values(|e: CulturalEvent| e@) == fixed_holiday_table(),
            i <= n,
            holiday_advisory_from(date_lower@, 0) == holiday_advisory_from(date_lower@, i as int),
        decreases n - i,
    {
        let e = &holidays[i];
        proof {
            assert(holidays@[i as int]@ == fixed_holiday_table()[i as int]);
        }
        if contains_ascii_folded(date_lower, e.date.as_str()) {
            let mut msg = "⚠️  ".to_string();
            msg.append(e.date.as_str());
            msg.append(" is ");
            msg.append(e.name.as_str());
            msg.append(". ");
            msg.append(e.tourist_impact.advisory());
            return Some(msg);
        }
        i += 1;
    }
    None
}

/// The advisory for a date text that has already been lowercased: the Poya
/// advisory when there is one, the fixed-holiday advisory otherwise.
pub fn date_advisory_for_lowered(date_lower: &str) -> (r: Option<String>)
    ensures
        opt_string_view(r) == date_advisory(date_lower@),
{
    match poya_advisory_for_lowered(date_lower) {
        Some(m) => Some(m),
        None => holiday_advisory_for_lowered(date_lower),
    }
}

/// Check if a given date string matches a Poya or major holiday.
/// Returns a tourist advisory if it does.
pub fn check_date_advisory(date_str: &str) -> (r: Option<String>)
    ensures
        opt_string_view(r) == date_advisory(lowercase_of(date_str@)),
        is_ascii_chars(date_str@) ==> opt_string_view(r) == date_advisory(ascii_lower(date_str@)),
{
    let date_lower = to_lowercase(date_str);
    date_advisory_for_lowered(date_lower.as_str())
}

/// The advisory for a date, when there is one, is the text of a Poya day
/// that the date mentions, at or after position `i` of the table.
proof fn lemma_advisory_is_for_a_mentioned_day(date_lower: Seq<char>, i: int)
    requires
        0 <= i <= 12,
    ensures
        poya_advisory_from(date_lower, i) matches Some(m) ==> exists|j: int|
            i <= j < 12 && mentions_poya(date_lower, j) && m == poya_advisory_text(
                #[trigger] poya_table_2026()[j].0,
                poya_table_2026()[j].1,
            ),
    decreases 12 - i,
{
    if i < 12 && !mentions_poya(date_lower, i) {
        lemma_advisory_is_for_a_mentioned_day(date_lower, i + 1);
    }
}

/// Every Poya advisory text calls the day a Poya day.
proof fn lemma_advisory_text_says_poya(date: Seq<char>, name: Seq<char>)
    ensures
        has_substring(poya_advisory_text(date, name), "Poya"@),
{
    reveal_strlit(" is a Poya day (");
    reveal_strlit("Poya");
    let pre = "⚠️  "@;
    let mid = " is a Poya day ("@;
    let post = "). Alcohol sales banned island-wide. Many shops closed. Plan purchases and restaurant bookings in advance."@;
    let text = poya_advisory_text(date, name);
    assert(text == pre + date + mid + name + post);
    let k: int = pre.len() + date.len() + 6int;
    assert(text.subrange(k, k + "Poya"@.len() as int) =~= "Poya"@) by {
        assert forall|u: int| k <= u < k + 4 implies #[trigger] text[u] == mid[u - k + 6] by {
            assert((pre + date + mid + name + post)[u] == (pre + date + mid)[u]);
            assert((pre + date + mid)[u] == mid[u - k + 6]);
        }
    }
}

/// A Poya advisory is only ever given for a 2026 Poya day that the date
/// mentions, it is that day's advisory, and it says "Poya".
pub proof fn poya_advisory_is_for_a_mentioned_poya_day(date_lower: Seq<char>)
    ensures
        poya_advisory_from(date_lower, 0) matches Some(m) ==> {
            &&& has_substring(m, "Poya"@)
            &&& exists|j: int|
                0 <= j < 12 && mentions_poya(date_lower, j) && m == poya_advisory_text(
                    #[trigger] poya_table_2026()[j].0,
                    poya_table_2026()[j].1,
                )
        },
{
    lemma_advisory_is_for_a_mentioned_day(date_lower, 0);
    if let Some(m) = poya_advisory_from(date_lower, 0) {
        let j = choose|j: int|
            0 <= j < 12 && mentions_poya(date_lower, j) && m == poya_advisory_text(
                #[trigger] poya_table_2026()[j].0,
                poya_table_2026()[j].1,
            );
        lemma_advisory_text_says_poya(poya_table_2026()[j].0, poya_table_2026()[j].1);
    }
}

/// The holiday advisory for a date, when there is one, is the text of a
/// fixed holiday that the date mentions, at or after position `i`.
proof fn lemma_holiday_advisory_is_for_a_mentioned_day(date_lower: Seq<char>, i: int)
    requires
        0 <= i <= 5,
    ensures
        holiday_advisory_from(date_lower, i) matches Some(m) ==> exists|j: int|
            i <= j < 5 && mentions_holiday(date_lower, j) && m == holiday_advisory_text(
                #[trigger] fixed_holiday_table()[j].date,
                fixed_holiday_table()[j].name,
                fixed_holiday_table()[j].tourist_impact,
            ),
    decreases 5 - i,
{
    if i < 5 && !mentions_holiday(date_lower, i) {
        lemma_holiday_advisory_is_for_a_mentioned_day(date_lower, i + 1);
    }
}

/// A date advisory is only ever given for a day the date mentions: either
/// a 2026 Poya day, whose advisory says "Poya", or, when the date mentions
/// no Poya day, a fixed holiday; the advisory is that day's text.
pub proof fn date_advisory_is_for_a_mentioned_day(date_lower: Seq<char>)
    ensures
        date_advisory(date_lower) matches Some(m) ==> {
            ||| {
                &&& has_substring(m, "Poya"@)
                &&& exists|j: int|
                    0 <= j < 12 && mentions_poya(date_lower, j) && m == poya_advisory_text(
                        #[trigger] poya_table_2026()[j].0,
                        poya_table_2026()[j].1,
                    )
            }
            ||| {
                &&& poya_advisory_from(date_lower, 0) is None
                &&& exists|j: int|
                    0 <= j < 5 && mentions_holiday(date_lower, j) && m == holiday_advisory_text(
                        #[trigger] fixed_holiday_table()[j].date,
                        fixed_holiday_table()[j].name,
                        fixed_holiday_table()[j].tourist_impact,
                    )
            }
        },
{
    poya_advisory_is_for_a_mentioned_poya_day(date_lower);
    lemma_holiday_advisory_is_for_a_mentioned_day(date_lower, 0);
}

/// A Poya day mentioned at `j` gives an advisory from any `i <= j`.
proof fn lemma_poya_mention_gives_advisory(date_lower: Seq<char>, i: int, j: int)
    requires
        0 <= i <= j < 12,
        mentions_poya(date_lower, j),
    ensures
        poya_advisory_from(date_lower, i) is Some,
    decreases j - i,
{
    if !mentions_poya(date_lower, i) {
        lemma_poya_mention_gives_advisory(date_lower, i + 1, j);
    }
}

/// A fixed holiday mentioned at `j` gives an advisory from any `i <= j`.
proof fn lemma_holiday_mention_gives_advisory(date_lower: Seq<char>, i: int, j: int)
    requires
        0 <= i <= j < 5,
        mentions_holiday(date_lower, j),
    ensures
        holiday_advisory_from(date_lower, i) is Some,
    decreases j - i,
{
    if !mentions_holiday(date_lower, i) {
        lemma_holiday_mention_gives_advisory(date_lower, i + 1, j);
    }
}

/// Text around a date does not take its advisory away: if a lowercased date
/// text gets an advisory, so does that text with anything added before and
/// after it.
pub proof fn date_advisory_survives_surrounding_text(
    before: Seq<char>,
    date_lower: Seq<char>,
    after: Seq<char>,
)
    requires
        date_advisory(date_lower) is Some,
    ensures
        date_advisory(before + date_lower + after) is Some,
{
    let whole = before + date_lower + after;
    date_advisory_is_for_a_mentioned_day(date_lower);
    if poya_advisory_from(date_lower, 0) is Some {
        poya_advisory_is_for_a_mentioned_poya_day(date_lower);
        let j = choose|j: int|
            0 <= j < 12 && mentions_poya(date_lower, j) && poya_advisory_from(date_lower, 0)
                == Some(
                poya_advisory_text(#[trigger] poya_table_2026()[j].0, poya_table_2026()[j].1),
            );
        crate::text::lemma_substring_in_context(
            before,
            date_lower,
            after,
            ascii_lower(poya_table_2026()[j].0),
        );
        lemma_poya_mention_gives_advisory(whole, 0, j);
    } else {
        lemma_holiday_advisory_is_for_a_mentioned_day(date_lower, 0);
        let j = choose|j: int|
            0 <= j < 5 && mentions_holiday(date_lower, j) && holiday_advisory_from(date_lower, 0)
                == Some(
                holiday_advisory_text(
                    #[trigger] fixed_holiday_table()[j].date,
                    fixed_holiday_table()[j].name,
                    fixed_holiday_table()[j].tourist_impact,
                ),
            );
        crate::text::lemma_substring_in_context(
            before,
            date_lower,
            after,
            ascii_lower(fixed_holiday_table()[j].date),
        );
        lemma_holiday_mention_gives_advisory(whole, 0, j);
        if poya_advisory_from(whole, 0) is None {
        }
    }
}

/// For ASCII date texts, `check_date_advisory` ignores letter case: two
/// texts that agree once their letters are lowercased get the same advisory.
pub proof fn ascii_date_advisory_ignores_case(a: Seq<char>, b: Seq<char>)
    requires
        ascii_lower(a) == ascii_lower(b),
    ensures
        date_advisory(ascii_lower(a)) == date_advisory(ascii_lower(b)),
{
}

/// For ASCII date texts, text added around a date that gets an advisory
/// does not take the advisory away.
pub proof fn ascii_date_advisory_survives_surrounding_text(
    before: Seq<char>,
    date: Seq<char>,
    after: Seq<char>,
)
    requires
        date_advisory(ascii_lower(date)) is Some,
    ensures
        date_advisory(ascii_lower(before + date + after)) is Some,
{
    assert(ascii_lower(before + date + after) =~= ascii_lower(before) + ascii_lower(date)
        + ascii_lower(after));
    date_advisory_survives_surrounding_text(ascii_lower(before), ascii_lower(date), ascii_lower(after));
}

/// The 2026 Poya dates with their letters lowercased.
proof fn lemma_poya_dates_lowered()
    ensures
        ascii_lower(poya_table_2026()[0].0) == "january 13"@,
        ascii_lower(poya_table_2026()[1].0) == "february 12"@,
        ascii_lower(poya_table_2026()[2].0) == "march 13"@,
        ascii_lower(poya_table_2026()[3].0) == "april 12"@,
        ascii_lower(poya_table_2026()[4].0) == "may 12"@,
        ascii_lower(poya_table_2026()[5].0) == "june 11"@,
        ascii_lower(poya_table_2026()[6].0) == "july 10"@,
        ascii_lower(poya_table_2026()[7].0) == "august 9"@,
        ascii_lower(poya_table_2026()[8].0) == "september 7"@,
        ascii_lower(poya_table_2026()[9].0) == "october 6"@,
        ascii_lower(poya_table_2026()[10].0) == "november 5"@,
        ascii_lower(poya_table_2026()[11].0) == "december 4"@,
{
    reveal_strlit("January 13");
    reveal_strlit("january 13");
    reveal_strlit("February 12");
    reveal_strlit("february 12");
    reveal_strlit("March 13");
    reveal_strlit("march 13");
    reveal_strlit("April 12");
    reveal_strlit("april 12");
    reveal_strlit("May 12");
    reveal_strlit("may 12");
    reveal_strlit("June 11");
    reveal_strlit("june 11");
    reveal_strlit("July 10");
    reveal_strlit("july 10");
    reveal_strlit("August 9");
    reveal_strlit("august 9");
    reveal_strlit("September 7");
    reveal_strlit("september 7");
    reveal_strlit("October 6");
    reveal_strlit("october 6");
    reveal_strlit("November 5");
    reveal_strlit("november 5");
    reveal_strlit("December 4");
    reveal_strlit("december 4");
    assert(ascii_lower("January 13"@) =~= "january 13"@);
    assert(ascii_lower("February 12"@) =~= "february 12"@);
    assert(ascii_lower("March 13"@) =~= "march 13"@);
    assert(ascii_lower("April 12"@) =~= "april 12"@);
    assert(ascii_lower("May 12"@) =~= "may 12"@);
    assert(ascii_lower("June 11"@) =~= "june 11"@);
    assert(ascii_lower("July 10"@) =~= "july 10"@);
    assert(ascii_lower("August 9"@) =~= "august 9"@);
    assert(ascii_lower("September 7"@) =~= "september 7"@);
    assert(ascii_lower("October 6"@) =~= "october 6"@);
    assert(ascii_lower("November 5"@) =~= "november 5"@);
    assert(ascii_lower("December 4"@) =~= "december 4"@);
}

/// The lowercased date of the Poya day at 0 of the table gets that day's advisory.
proof fn lemma_poya_day_0_advisory()
    ensures
        date_advisory("january 13"@) == Some(poya_advisory_text(poya_table_2026()[0].0, poya_table_2026()[0].1)),
{
    lemma_poya_dates_lowered();
    reveal_with_fuel(occurs_from, 12);
    reveal_with_fuel(matches_from, 4);
    reveal_with_fuel(poya_advisory_from, 2);
    reveal_strlit("january 13");
    lemma_substring_of_itself("january 13"@);
}

/// The lowercased date of the Poya day at 1 of the table gets that day's advisory.
proof fn lemma_poya_day_1_advisory()
    ensures
        date_advisory("february 12"@) == Some(poya_advisory_text(poya_table_2026()[1].0, poya_table_2026()[1].1)),
{
    lemma_poya_dates_lowered();
    reveal_with_fuel(occurs_from, 12);
    reveal_with_fuel(matches_from, 4);
    reveal_with_fuel(poya_advisory_from, 3);
    reveal_strlit("february 12");
    reveal_strlit("january 13");
    lemma_absent_substring("february 12"@, "january 13"@);
    lemma_substring_of_itself("february 12"@);
}

/// The lowercased date of the Poya day at 2 of the table gets that day's advisory.
proof fn lemma_poya_day_2_advisory()
    ensures
        date_advisory("march 13"@) == Some(poya_advisory_text(poya_table_2026()[2].0, poya_table_2026()[2].1)),
{
    lemma_poya_dates_lowered();
    reveal_with_fuel(occurs_from, 12);
    reveal_with_fuel(matches_from, 4);
    reveal_with_fuel(poya_advisory_from, 4);
    reveal_strlit("march 13");
    reveal_strlit("january 13");
    lemma_absent_substring("march 13"@, "january 13"@);
    reveal_strlit("february 12");
    lemma_absent_substring("march 13"@, "february 12"@);
    lemma_substring_of_itself("march 13"@);
}

/// The lowercased date of the Poya day at 3 of the table gets that day's advisory.
proof fn lemma_poya_day_3_advisory()
    ensures
        date_advisory("april 12"@) == Some(poya_advisory_text(poya_table_2026()[3].0, poya_table_2026()[3].1)),
{
    lemma_poya_dates_lowered();
    reveal_with_fuel(occurs_from, 12);
    reveal_with_fuel(matches_from, 4);
    reveal_with_fuel(poya_advisory_from, 5);
    reveal_strlit("april 12");
    reveal_strlit("january 13");
    lemma_absent_substring("april 12"@, "january 13"@);
    reveal_strlit("february 12");
    lemma_absent_substring("april 12"@, "february 12"@);
    reveal_strlit("march 13");
    lemma_absent_substring("april 12"@, "march 13"@);
    lemma_substring_of_itself("april 12"@);
}

/// The lowercased date of the Poya day at 4 of the table gets that day's advisory.
proof fn lemma_poya_day_4_advisory()
    ensures
        date_advisory("may 12"@) == Some(poya_advisory_text(poya_table_2026()[4].0, poya_table_2026()[4].1)),
{
    lemma_poya_dates_lowered();
    reveal_with_fuel(occurs_from, 12);
    reveal_with_fuel(matches_from, 4);
    reveal_with_fuel(poya_advisory_from, 6);
    reveal_strlit("may 12");
    reveal_strlit("january 13");
    lemma_absent_substring("may 12"@, "january 13"@);
    reveal_strlit("february 12");
    lemma_absent_substring("may 12"@, "february 12"@);
    reveal_strlit("march 13");
    lemma_absent_substring("may 12"@, "march 13"@);
    reveal_strlit("april 12");
    lemma_absent_substring("may 12"@, "april 12"@);
    lemma_substring_of_itself("may 12"@);
}

/// The lowercased date of the Poya day at 5 of the table gets that day's advisory.
proof fn lemma_poya_day_5_advisory()
    ensures
        date_advisory("june 11"@) == Some(poya_advisory_text(poya_table_2026()[5].0, poya_table_2026()[5].1)),
{
    lemma_poya_dates_lowered();
    reveal_with_fuel(occurs_from, 12);
    reveal_with_fuel(matches_from, 4);
    reveal_with_fuel(poya_advisory_from, 7);
    reveal_strlit("june 11");
    reveal_strlit("january 13");
    lemma_absent_substring("june 11"@, "january 13"@);
    reveal_strlit("february 12");
    lemma_absent_substring("june 11"@, "february 12"@);
    reveal_strlit("march 13");
    lemma_absent_substring("june 11"@, "march 13"@);
    reveal_strlit("april 12");
    lemma_absent_substring("june 11"@, "april 12"@);
    reveal_strlit("may 12");
    lemma_absent_substring("june 11"@, "may 12"@);
    lemma_substring_of_itself("june 11"@);
}

/// The lowercased date of the Poya day at 6 of the table gets that day's advisory.
proof fn lemma_poya_day_6_advisory()
    ensures
        date_advisory("july 10"@) == Some(poya_advisory_text(poya_table_2026()[6].0, poya_table_2026()[6].1)),
{
    lemma_poya_dates_lowered();
    reveal_with_fuel(occurs_from, 12);
    reveal_with_fuel(matches_from, 4);
    reveal_with_fuel(poya_advisory_from, 8);
    reveal_strlit("july 10");
    reveal_strlit("january 13");
    lemma_absent_substring("july 10"@, "january 13"@);
    reveal_strlit("february 12");
    lemma_absent_substring("july 10"@, "february 12"@);
    reveal_strlit("march 13");
    lemma_absent_substring("july 10"@, "march 13"@);
    reveal_strlit("april 12");
    lemma_absent_substring("july 10"@, "april 12"@);
    reveal_strlit("may 12");
    lemma_absent_substring("july 10"@, "may 12"@);
    reveal_strlit("june 11");
    lemma_absent_substring("july 10"@, "june 11"@);
    lemma_substring_of_itself("july 10"@);
}

/// The lowercased date of the Poya day at 7 of the table gets that day's advisory.
proof fn lemma_poya_day_7_advisory()
    ensures
        date_advisory("august 9"@) == Some(poya_advisory_text(poya_table_2026()[7].0, poya_table_2026()[7].1)),
{
    lemma_poya_dates_lowered();
    reveal_with_fuel(occurs_from, 12);
    reveal_with_fuel(matches_from, 4);
    reveal_with_fuel(poya_advisory_from, 9);
    reveal_strlit("august 9");
    reveal_strlit("january 13");
    lemma_absent_substring("august 9"@, "january 13"@);
    reveal_strlit("february 12");
    lemma_absent_substring("august 9"@, "february 12"@);
    reveal_strlit("march 13");
    lemma_absent_substring("august 9"@, "march 13"@);
    reveal_strlit("april 12");
    lemma_absent_substring("august 9"@, "april 12"@);
    reveal_strlit("may 12");
    lemma_absent_substring("august 9"@, "may 12"@);
    reveal_strlit("june 11");
    lemma_absent_substring("august 9"@, "june 11"@);
    reveal_strlit("july 10");
    lemma_absent_substring("august 9"@, "july 10"@);
    lemma_substring_of_itself("august 9"@);
}

/// The lowercased date of the Poya day at 8 of the table gets that day's advisory.
proof fn lemma_poya_day_8_advisory()
    ensures
        date_advisory("september 7"@) == Some(poya_advisory_text(poya_table_2026()[8].0, poya_table_2026()[8].1)),
{
    lemma_poya_dates_lowered();
    reveal_with_fuel(occurs_from, 12);
    reveal_with_fuel(matches_from, 4);
    reveal_with_fuel(poya_advisory_from, 10);
    reveal_strlit("september 7");
    reveal_strlit("january 13");
    lemma_absent_substring("september 7"@, "january 13"@);
    reveal_strlit("february 12");
    lemma_absent_substring("september 7"@, "february 12"@);
    reveal_strlit("march 13");
    lemma_absent_substring("september 7"@, "march 13"@);
    reveal_strlit("april 12");
    lemma_absent_substring("september 7"@, "april 12"@);
    reveal_strlit("may 12");
    lemma_absent_substring("september 7"@, "may 12"@);
    reveal_strlit("june 11");
    lemma_absent_substring("september 7"@, "june 11"@);
    reveal_strlit("july 10");
    lemma_absent_substring("september 7"@, "july 10"@);
    reveal_strlit("august 9");
    lemma_absent_substring("september 7"@, "august 9"@);
    lemma_substring_of_itself("september 7"@);
}

/// The lowercased date of the Poya day at 9 of the table gets that day's advisory.
proof fn lemma_poya_day_9_advisory()
    ensures
        date_advisory("october 6"@) == Some(poya_advisory_text(poya_table_2026()[9].0, poya_table_2026()[9].1)),
{
    lemma_poya_dates_lowered();
    reveal_with_fuel(occurs_from, 12);
    reveal_with_fuel(matches_from, 4);
    reveal_with_fuel(poya_advisory_from, 11);
    reveal_strlit("october 6");
    reveal_strlit("january 13");
    lemma_absent_substring("october 6"@, "january 13"@);
    reveal_strlit("february 12");
    lemma_absent_substring("october 6"@, "february 12"@);
    reveal_strlit("march 13");
    lemma_absent_substring("october 6"@, "march 13"@);
    reveal_strlit("april 12");
    lemma_absent_substring("october 6"@, "april 12"@);
    reveal_strlit("may 12");
    lemma_absent_substring("october 6"@, "may 12"@);
    reveal_strlit("june 11");
    lemma_absent_substring("october 6"@, "june 11"@);
    reveal_strlit("july 10");
    lemma_absent_substring("october 6"@, "july 10"@);
    reveal_strlit("august 9");
    lemma_absent_substring("october 6"@, "august 9"@);
    reveal_strlit("september 7");
    lemma_absent_substring("october 6"@, "september 7"@);
    lemma_substring_of_itself("october 6"@);
}

/// The lowercased date of the Poya day at 10 of the table gets that day's advisory.
proof fn lemma_poya_day_10_advisory()
    ensures
        date_advisory("november 5"@) == Some(poya_advisory_text(poya_table_2026()[10].0, poya_table_2026()[10].1)),
{
    lemma_poya_dates_lowered();
    reveal_with_fuel(occurs_from, 12);
    reveal_with_fuel(matches_from, 4);
    reveal_with_fuel(poya_advisory_from, 12);
    reveal_strlit("november 5");
    reveal_strlit("january 13");
    lemma_absent_substring("november 5"@, "january 13"@);
    reveal_strlit("february 12");
    lemma_absent_substring("november 5"@, "february 12"@);
    reveal_strlit("march 13");
    lemma_absent_substring("november 5"@, "march 13"@);
    reveal_strlit("april 12");
    lemma_absent_substring("november 5"@, "april 12"@);
    reveal_strlit("may 12");
    lemma_absent_substring("november 5"@, "may 12"@);
    reveal_strlit("june 11");
    lemma_absent_substring("november 5"@, "june 11"@);
    reveal_strlit("july 10");
    lemma_absent_substring("november 5"@, "july 10"@);
    reveal_strlit("august 9");
    lemma_absent_substring("november 5"@, "august 9"@);
    reveal_strlit("september 7");
    lemma_absent_substring("november 5"@, "september 7"@);
    reveal_strlit("october 6");
    lemma_absent_substring("november 5"@, "october 6"@);
    lemma_substring_of_itself("november 5"@);
}

/// The lowercased date of the Poya day at 11 of the table gets that day's advisory.
proof fn lemma_poya_day_11_advisory()
    ensures
        date_advisory("december 4"@) == Some(poya_advisory_text(poya_table_2026()[11].0, poya_table_2026()[11].1)),
{
    lemma_poya_dates_lowered();
    reveal_with_fuel(occurs_from, 12);
    reveal_with_fuel(matches_from, 4);
    reveal_with_fuel(poya_advisory_from, 13);
    reveal_strlit("december 4");
    reveal_strlit("january 13");
    lemma_absent_substring("december 4"@, "january 13"@);
    reveal_strlit("february 12");
    lemma_absent_substring("december 4"@, "february 12"@);
    reveal_strlit("march 13");
    lemma_absent_substring("december 4"@, "march 13"@);
    reveal_strlit("april 12");
    lemma_absent_substring("december 4"@, "april 12"@);
    reveal_strlit("may 12");
    lemma_absent_substring("december 4"@, "may 12"@);
    reveal_strlit("june 11");
    lemma_absent_substring("december 4"@, "june 11"@);
    reveal_strlit("july 10");
    lemma_absent_substring("december 4"@, "july 10"@);
    reveal_strlit("august 9");
    lemma_absent_substring("december 4"@, "august 9"@);
    reveal_strlit("september 7");
    lemma_absent_substring("december 4"@, "september 7"@);
    reveal_strlit("october 6");
    lemma_absent_substring("december 4"@, "october 6"@);
    reveal_strlit("november 5");
    lemma_absent_substring("december 4"@, "november 5"@);
    lemma_substring_of_itself("december 4"@);
}

/// Every Poya day of 2026 gets its advisory. For each of the twelve
/// full-moon days of 2026 (listed here with their names), the date text
/// itself, in any letter case, gets the advisory that calls that date a Poya
/// day and names it, and any text that contains the date gets an advisory.
pub proof fn every_2026_poya_day_gets_its_advisory()
    ensures
        date_advisory(ascii_lower("January 13"@)) == Some(
            "⚠️  "@ + "January 13"@ + " is a Poya day ("@ + "Duruthu Poya"@ + "). Alcohol sales banned island-wide. Many shops closed. Plan purchases and restaurant bookings in advance."@,
        ),
        forall|before: Seq<char>, after: Seq<char>|
            #[trigger] date_advisory(before + ascii_lower("January 13"@) + after) is Some,
        date_advisory(ascii_lower("February 12"@)) == Some(
            "⚠️  "@ + "February 12"@ + " is a Poya day ("@ + "Navam Poya"@ + "). Alcohol sales banned island-wide. Many shops closed. Plan purchases and restaurant bookings in advance."@,
        ),
        forall|before: Seq<char>, after: Seq<char>|
            #[trigger] date_advisory(before + ascii_lower("February 12"@) + after) is Some,
        date_advisory(ascii_lower("March 13"@)) == Some(
            "⚠️  "@ + "March 13"@ + " is a Poya day ("@ + "Medin Poya"@ + "). Alcohol sales banned island-wide. Many shops closed. Plan purchases and restaurant bookings in advance."@,
        ),
        forall|before: Seq<char>, after: Seq<char>|
            #[trigger] date_advisory(before + ascii_lower("March 13"@) + after) is Some,
        date_advisory(ascii_lower("April 12"@)) == Some(
            "⚠️  "@ + "April 12"@ + " is a Poya day ("@ + "Bak Poya"@ + "). Alcohol sales banned island-wide. Many shops closed. Plan purchases and restaurant bookings in advance."@,
        ),
        forall|before: Seq<char>, after: Seq<char>|
            #[trigger] date_advisory(before + ascii_lower("April 12"@) + after) is Some,
        date_advisory(ascii_lower("May 12"@)) == Some(
            "⚠️  "@ + "May 12"@ + " is a Poya day ("@ + "Vesak Poya — most sacred"@ + "). Alcohol sales banned island-wide. Many shops closed. Plan purchases and restaurant bookings in advance."@,
        ),
        forall|before: Seq<char>, after: Seq<char>|
            #[trigger] date_advisory(before + ascii_lower("May 12"@) + after) is Some,
        date_advisory(ascii_lower("June 11"@)) == Some(
            "⚠️  "@ + "June 11"@ + " is a Poya day ("@ + "Poson Poya"@ + "). Alcohol sales banned island-wide. Many shops closed. Plan purchases and restaurant bookings in advance."@,
        ),
        forall|before: Seq<char>, after: Seq<char>|
            #[trigger] date_advisory(before + ascii_lower("June 11"@) + after) is Some,
        date_advisory(ascii_lower("July 10"@)) == Some(
            "⚠️  "@ + "July 10"@ + " is a Poya day ("@ + "Esala Poya"@ + "). Alcohol sales banned island-wide. Many shops closed. Plan purchases and restaurant bookings in advance."@,
        ),
        forall|before: Seq<char>, after: Seq<char>|
            #[trigger] date_advisory(before + ascii_lower("July 10"@) + after) is Some,
        date_advisory(ascii_lower("August 9"@)) == Some(
            "⚠️  "@ + "August 9"@ + " is a Poya day ("@ + "Nikini Poya"@ + "). Alcohol sales banned island-wide. Many shops closed. Plan purchases and restaurant bookings in advance."@,
        ),
        forall|before: Seq<char>, after: Seq<char>|
            #[trigger] date_advisory(before + ascii_lower("August 9"@) + after) is Some,
        date_advisory(ascii_lower("September 7"@)) == Some(
            "⚠️  "@ + "September 7"@ + " is a Poya day ("@ + "Binara Poya"@ + "). Alcohol sales banned island-wide. Many shops closed. Plan purchases and restaurant bookings in advance."@,
        ),
        forall|before: Seq<char>, after: Seq<char>|
            #[trigger] date_advisory(before + ascii_lower("September 7"@) + after) is Some,
        date_advisory(ascii_lower("October 6"@)) == Some(
            "⚠️  "@ + "October 6"@ + " is a Poya day ("@ + "Vap Poya"@ + "). Alcohol sales banned island-wide. Many shops closed. Plan purchases and restaurant bookings in advance."@,
        ),
        forall|before: Seq<char>, after: Seq<char>|
            #[trigger] date_advisory(before + ascii_lower("October 6"@) + after) is Some,
        date_advisory(ascii_lower("November 5"@)) == Some(
            "⚠️  "@ + "November 5"@ + " is a Poya day ("@ + "Il Poya"@ + "). Alcohol sales banned island-wide. Many shops closed. Plan purchases and restaurant bookings in advance."@,
        ),
        forall|before: Seq<char>, after: Seq<char>|
            #[trigger] date_advisory(before + ascii_lower("November 5"@) + after) is Some,
        date_advisory(ascii_lower("December 4"@)) == Some(
            "⚠️  "@ + "December 4"@ + " is a Poya day ("@ + "Unduvap Poya"@ + "). Alcohol sales banned island-wide. Many shops closed. Plan purchases and restaurant bookings in advance."@,
        ),
        forall|before: Seq<char>, after: Seq<char>|
            #[trigger] date_advisory(before + ascii_lower("December 4"@) + after) is Some,
{
    lemma_poya_dates_lowered();
    lemma_poya_day_0_advisory();
    lemma_poya_day_1_advisory();
    lemma_poya_day_2_advisory();
    lemma_poya_day_3_advisory();
    lemma_poya_day_4_advisory();
    lemma_poya_day_5_advisory();
    lemma_poya_day_6_advisory();
    lemma_poya_day_7_advisory();
    lemma_poya_day_8_advisory();
    lemma_poya_day_9_advisory();
    lemma_poya_day_10_advisory();
    lemma_poya_day_11_advisory();
    assert forall|before: Seq<char>, after: Seq<char>|
        #[trigger] date_advisory(before + ascii_lower("January 13"@) + after) is Some by {
        date_advisory_survives_surrounding_text(before, ascii_lower(poya_table_2026()[0].0), after);
    }
    assert forall|before: Seq<char>, after: Seq<char>|
        #[trigger] date_advisory(before + ascii_lower("February 12"@) + after) is Some by {
        date_advisory_survives_surrounding_text(before, ascii_lower(poya_table_2026()[1].0), after);
    }
    assert forall|before: Seq<char>, after: Seq<char>|
        #[trigger] date_advisory(before + ascii_lower("March 13"@) + after) is Some by {
        date_advisory_survives_surrounding_text(before, ascii_lower(poya_table_2026()[2].0), after);
    }
    assert forall|before: Seq<char>, after: Seq<char>|
        #[trigger] date_advisory(before + ascii_lower("April 12"@) + after) is Some by {
        date_advisory_survives_surrounding_text(before, ascii_lower(poya_table_2026()[3].0), after);
    }
    assert forall|before: Seq<char>, after: Seq<char>|
        #[trigger] date_advisory(before + ascii_lower("May 12"@) + after) is Some by {
        date_advisory_survives_surrounding_text(before, ascii_lower(poya_table_2026()[4].0), after);
    }
    assert forall|before: Seq<char>, after: Seq<char>|
        #[trigger] date_advisory(before + ascii_lower("June 11"@) + after) is Some by {
        date_advisory_survives_surrounding_text(before, ascii_lower(poya_table_2026()[5].0), after);
    }
    assert forall|before: Seq<char>, after: Seq<char>|
        #[trigger] date_advisory(before + ascii_lower("July 10"@) + after) is Some by {
        date_advisory_survives_surrounding_text(before, ascii_lower(poya_table_2026()[6].0), after);
    }
    assert forall|before: Seq<char>, after: Seq<char>|
        #[trigger] date_advisory(before + ascii_lower("August 9"@) + after) is Some by {
        date_advisory_survives_surrounding_text(before, ascii_lower(poya_table_2026()[7].0), after);
    }
    assert forall|before: Seq<char>, after: Seq<char>|
        #[trigger] date_advisory(before + ascii_lower("September 7"@) + after) is Some by {
        date_advisory_survives_surrounding_text(before, ascii_lower(poya_table_2026()[8].0), after);
    }
    assert forall|before: Seq<char>, after: Seq<char>|
        #[trigger] date_advisory(before + ascii_lower("October 6"@) + after) is Some by {
        date_advisory_survives_surrounding_text(before, ascii_lower(poya_table_2026()[9].0), after);
    }
    assert forall|before: Seq<char>, after: Seq<char>|
        #[trigger] date_advisory(before + ascii_lower("November 5"@) + after) is Some by {
        date_advisory_survives_surrounding_text(before, ascii_lower(poya_table_2026()[10].0), after);
    }
    assert forall|before: Seq<char>, after: Seq<char>|
        #[trigger] date_advisory(before + ascii_lower("December 4"@) + after) is Some by {
        date_advisory_survives_surrounding_text(before, ascii_lower(poya_table_2026()[11].0), after);
    }
}

/// Whether a text holds a character in the code point range `lo..=hi`.
pub open spec fn has_char_in(s: Seq<char>, lo: u32, hi: u32) -> bool {
    exists|i: int| 0 <= i < s.len() && lo <= (#[trigger] s[i]) as u32 <= hi
}

/// A Sinhala label: it holds Sinhala letters and no Tamil ones.
pub open spec fn is_sinhala_label(s: Seq<char>) -> bool {
    has_char_in(s, 0x0d80, 0x0dff) && !has_char_in(s, 0x0b80, 0x0bff)
}

/// A Tamil label: it holds Tamil letters and no Sinhala ones.
pub open spec fn is_tamil_label(s: Seq<char>) -> bool {
    has_char_in(s, 0x0b80, 0x0bff) && !has_char_in(s, 0x0d80, 0x0dff)
}

/// The fixed holidays are year-independent: none is a Poya day, and no date
/// "varies".
pub proof fn fixed_holidays_have_fixed_dates()
    ensures
        forall|i: int|
            0 <= i < fixed_holiday_table().len() ==> {
                &&& (#[trigger] fixed_holiday_table()[i]).event_type != EventType::Poya
                &&& !has_substring(fixed_holiday_table()[i].date, "varies"@)
            },
{
    reveal_strlit("varies");
    reveal_strlit("January 14");
    reveal_strlit("February 4");
    reveal_strlit("April 13–14");
    reveal_strlit("July–August (10 days, Kandy)");
    reveal_strlit("December 25");
    assert forall|i: int| 0 <= i < fixed_holiday_table().len() implies !has_substring(
        #[trigger] fixed_holiday_table()[i].date,
        "varies"@,
    ) by {
        let d = fixed_holiday_table()[i].date;
        assert forall|k: int| 0 <= k < d.len() implies #[trigger] d[k] != 'v' by {}
        if has_substring(d, "varies"@) {
            let k = choose|k: int|
                0 <= k && k + "varies"@.len() <= d.len() && #[trigger] d.subrange(
                    k,
                    k + "varies"@.len(),
                ) == "varies"@;
            assert(d.subrange(k, k + "varies"@.len())[0] == 'v');
        }
    }
}

/// Every fixed holiday carries a Sinhala label in Sinhala script and a
/// Tamil label in Tamil script.
pub proof fn holiday_labels_are_in_their_scripts()
    ensures
        forall|i: int|
            0 <= i < fixed_holiday_table().len() ==> is_sinhala_label(
                (#[trigger] fixed_holiday_table()[i]).name_si,
            ) && is_tamil_label(fixed_holiday_table()[i].name_ta),
{
    reveal_strlit("තෛ පොංගල් දිනය");
    reveal_strlit("தமிழ் தை பொங்கல் நாள்");
    reveal_strlit("නිදහස් දිනය");
    reveal_strlit("சுதந்திர தினம்");
    reveal_strlit("සිංහල හා දෙමළ අලුත් අවුරුදු");
    reveal_strlit("சிங்கள தமிழ் புத்தாண்டு");
    reveal_strlit("එසල පෙරහැර");
    reveal_strlit("ஆடி பெரகரா");
    reveal_strlit("නත්තල් දිනය");
    reveal_strlit("கிறிஸ்மஸ் தினம்");
    assert forall|i: int| 0 <= i < fixed_holiday_table().len() implies is_sinhala_label(
        (#[trigger] fixed_holiday_table()[i]).name_si,
    ) && is_tamil_label(fixed_holiday_table()[i].name_ta) by {
        let si = fixed_holiday_table()[i].name_si;
        let ta = fixed_holiday_table()[i].name_ta;
        assert(0x0d80 <= si[0] as u32 <= 0x0dff);
        assert(0x0b80 <= ta[0] as u32 <= 0x0bff);
    }
}

} // verus!
