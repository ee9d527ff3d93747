use apeclaw::skills::lanka::cultural_calendar::{
    check_date_advisory, fixed_public_holidays, poya_advisory_for_lowered, poya_dates_2026,
    EventType, TouristImpact,
};

#[test]
fn fixed_holidays_non_empty() {
    let holidays = fixed_public_holidays();
    assert!(!holidays.is_empty());
}

#[test]
fn poya_2026_has_12_entries() {
    assert_eq!(poya_dates_2026().len(), 12);
}

#[test]
fn vesak_is_most_sacred() {
    let poya = poya_dates_2026();
    let vesak = poya.iter().find(|(_, name)| name.contains("Vesak"));
    assert!(vesak.is_some());
}

#[test]
fn check_date_advisory_finds_poya() {
    let advisory = check_date_advisory("May 12");
    assert!(advisory.is_some());
    assert!(advisory.unwrap().contains("Poya"));
}

#[test]
fn check_date_advisory_none_for_normal_day() {
    assert!(check_date_advisory("June 15").is_none());
}

#[test]
fn tourist_impact_advisory_non_empty() {
    for impact in [
        TouristImpact::High,
        TouristImpact::Medium,
        TouristImpact::Low,
        TouristImpact::Positive,
    ] {
        assert!(!impact.advisory().is_empty());
    }
}

#[test]
fn sinhala_tamil_labels_valid_utf8() {
    let events = fixed_public_holidays();
    for e in &events {
        assert!(e.name_si.chars().count() > 0);
        assert!(e.name_ta.chars().count() > 0);
    }
}

#[test]
fn poya_advisory_full_text() {
    assert_eq!(
        check_date_advisory("May 12"),
        Some(
            "⚠️  May 12 is a Poya day (Vesak Poya — most sacred). Alcohol sales banned island-wide. \
             Many shops closed. Plan purchases and restaurant bookings in advance."
                .to_string()
        )
    );
}

#[test]
fn poya_advisory_ignores_case_and_surrounding_text() {
    let advisory = check_date_advisory("Trip on DECEMBER 4, 2026").unwrap();
    assert!(advisory.starts_with("⚠️  December 4 is a Poya day (Unduvap Poya)"));
}

#[test]
fn poya_advisory_takes_the_first_listed_match() {
    // "January 13" is listed before "March 13"; both occur.
    let advisory = check_date_advisory("march 13 or january 13").unwrap();
    assert!(advisory.contains("January 13 is a Poya day (Duruthu Poya)"));
}

#[test]
fn poya_advisory_for_lowered_input_is_case_sensitive() {
    assert!(poya_advisory_for_lowered("june 11").is_some());
    assert!(poya_advisory_for_lowered("JUNE 11").is_none());
}

#[test]
fn fixed_holidays_contents() {
    let holidays = fixed_public_holidays();
    assert_eq!(holidays.len(), 5);
    assert_eq!(holidays[0].name, "Tamil Thai Pongal Day");
    assert_eq!(holidays[1].date, "February 4");
    assert_eq!(holidays[2].tourist_impact, TouristImpact::High);
    assert_eq!(holidays[3].event_type, EventType::Festival);
    assert_eq!(holidays[4].name_ta, "கிறிஸ்மஸ் தினம்");
}

#[test]
fn fixed_holidays_are_year_independent() {
    for e in fixed_public_holidays() {
        assert!(e.event_type != EventType::Poya);
        assert!(!e.date.contains("varies"));
    }
}

#[test]
fn labels_are_in_their_scripts() {
    let sinhala = |c: char| ('\u{d80}'..='\u{dff}').contains(&c);
    let tamil = |c: char| ('\u{b80}'..='\u{bff}').contains(&c);
    for e in fixed_public_holidays() {
        assert!(e.name_si.chars().any(sinhala) && !e.name_si.chars().any(tamil));
        assert!(e.name_ta.chars().any(tamil) && !e.name_ta.chars().any(sinhala));
    }
}

#[test]
fn major_holidays_get_an_advisory() {
    assert_eq!(
        check_date_advisory("December 25"),
        Some(
            "⚠️  December 25 is Christmas Day. Expect crowds and traffic in major cities and sites."
                .to_string()
        )
    );
    assert!(check_date_advisory("arriving on 4 february? no: FEBRUARY 4").unwrap().contains("Independence Day"));
    assert_eq!(
        check_date_advisory("January 14"),
        Some(
            "⚠️  January 14 is Tamil Thai Pongal Day. Excellent time to experience Sri Lankan \
             culture. Book accommodation early."
                .to_string()
        )
    );
}

#[test]
fn poya_days_come_before_holidays() {
    // January 13 is a Poya day, January 14 a holiday: both mentioned.
    let a = check_date_advisory("January 14 and January 13").unwrap();
    assert!(a.contains("Duruthu Poya"));
}

#[test]
fn advisory_ignores_case_and_surrounding_text() {
    assert_eq!(check_date_advisory("DECEMBER 25"), check_date_advisory("december 25"));
    assert!(check_date_advisory("flight on December 25, 2026 at noon").is_some());
}

#[test]
fn impact_advisory_texts() {
    assert_eq!(
        TouristImpact::Low.advisory(),
        "Expect crowds and traffic in major cities and sites."
    );
    assert_eq!(
        TouristImpact::High.advisory(),
        "Alcohol sales banned island-wide. Many shops and restaurants closed. Plan ahead."
    );
}
