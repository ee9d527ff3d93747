use apeclaw::skills::lanka::train::{
    schedule_fallback, schedule_url, tourist_tip, TrainClass, TOURIST_ROUTES,
};

#[test]
fn tourist_routes_non_empty() {
    assert!(!TOURIST_ROUTES.is_empty());
}

#[test]
fn kandy_ella_tip_exists() {
    let tip = tourist_tip("Kandy", "Ella");
    assert!(tip.is_some());
    assert!(tip.unwrap().contains("Observation Car"));
}

#[test]
fn train_class_display_names_non_empty() {
    let classes = [
        TrainClass::FirstClassAC,
        TrainClass::SecondClass,
        TrainClass::ThirdClass,
        TrainClass::ObservationCar,
    ];
    for c in &classes {
        assert!(!c.display_name().is_empty());
    }
}

#[test]
fn ella_kandy_tip_also_matches() {
    assert!(tourist_tip("Ella", "Kandy").is_some());
}

#[test]
fn tips_are_symmetric_and_exact_match() {
    assert_eq!(tourist_tip("Galle", "Colombo Fort"), tourist_tip("Colombo Fort", "Galle"));
    assert!(tourist_tip("Galle", "Colombo Fort").unwrap().starts_with("The coastal line"));
    assert!(tourist_tip("kandy", "Ella").is_none());
    assert!(tourist_tip("Kandy", "Galle").is_none());
}

#[test]
fn schedule_url_encodes_stations() {
    assert_eq!(
        schedule_url("Colombo Fort", "Kandy"),
        "https://www.railway.gov.lk/api/schedule?from=Colombo%20Fort&to=Kandy"
    );
}

#[test]
fn schedule_fallback_keeps_stations() {
    let s = schedule_fallback("Kandy", "Ella");
    assert_eq!(s.len(), 1);
    assert_eq!(s[0].train_name, "See https://www.railway.gov.lk for schedules");
    assert_eq!(s[0].origin, "Kandy");
    assert_eq!(s[0].destination, "Ella");
    assert_eq!(s[0].duration_mins, 0);
    assert!(s[0].classes.is_empty());
}

#[test]
fn train_class_names() {
    assert_eq!(TrainClass::ObservationCar.display_name(), "Observation Car (Tourist)");
}
