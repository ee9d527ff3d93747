use apeclaw::skills::lanka::weather::{
    current_monsoon_season, district_forecast_url, forecast_pointer, monsoon_advisory,
    MonsoonSeason, DISTRICTS,
};

#[test]
fn monsoon_season_june_is_southwest() {
    assert!(matches!(current_monsoon_season(6), MonsoonSeason::SouthWest));
}

#[test]
fn monsoon_season_december_is_northeast() {
    assert!(matches!(current_monsoon_season(12), MonsoonSeason::NorthEast));
}

#[test]
fn monsoon_advisory_is_non_empty() {
    for month in 1u8..=12 {
        assert!(!monsoon_advisory(month).is_empty());
    }
}

#[test]
fn all_districts_listed() {
    assert!(DISTRICTS.contains(&"Colombo"));
    assert!(DISTRICTS.contains(&"Jaffna"));
    assert!(DISTRICTS.contains(&"Galle"));
    assert_eq!(DISTRICTS.len(), 25);
}

#[test]
fn sinhala_tamil_stub_strings_valid_utf8() {
    let si = "දත්ත නොමැත";
    let ta = "தரவு இல்லை";
    assert!(si.chars().count() > 0);
    assert!(ta.chars().count() > 0);
}

#[test]
fn monsoon_calendar() {
    for m in 5u8..=9 {
        assert_eq!(current_monsoon_season(m), MonsoonSeason::SouthWest);
    }
    for m in [11u8, 12, 1, 2] {
        assert_eq!(current_monsoon_season(m), MonsoonSeason::NorthEast);
    }
    assert_eq!(current_monsoon_season(4), MonsoonSeason::InterMonsoon);
    assert_eq!(current_monsoon_season(10), MonsoonSeason::InterMonsoon);
    assert_eq!(current_monsoon_season(3), MonsoonSeason::Dry);
    assert_eq!(current_monsoon_season(0), MonsoonSeason::Dry);
    assert_eq!(current_monsoon_season(13), MonsoonSeason::Dry);
}

#[test]
fn monsoon_advisory_texts() {
    assert_eq!(
        monsoon_advisory(3),
        "Dry season. Generally good conditions island-wide for tourism."
    );
    assert!(monsoon_advisory(7).starts_with("South-West monsoon active (May–Sep)."));
    assert!(monsoon_advisory(1).starts_with("North-East monsoon active (Nov–Feb)."));
}

#[test]
fn forecast_request_and_pointer() {
    assert_eq!(
        district_forecast_url("Nuwara Eliya"),
        "https://www.meteo.gov.lk/api/forecast?district=Nuwara%20Eliya"
    );
    assert_eq!(
        district_forecast_url("කොළඹ"),
        "https://www.meteo.gov.lk/api/forecast?district=%E0%B6%9A%E0%B7%9C%E0%B7%85%E0%B6%B9"
    );
    assert_eq!(forecast_pointer(), "See https://www.meteo.gov.lk for current forecast");
}
