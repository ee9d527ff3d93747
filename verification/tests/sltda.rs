use apeclaw::skills::lanka::sltda::{
    booking_safety_advisory, search_fallback, search_url, tourist_areas, EstablishmentType,
    SltdaSearchParams,
};

#[test]
fn tourist_areas_non_empty() {
    assert!(!tourist_areas().is_empty());
}

#[test]
fn tourist_areas_contains_kandy() {
    assert!(tourist_areas().iter().any(|(area, _)| *area == "Kandy"));
}

#[test]
fn booking_safety_advisory_non_empty() {
    assert!(!booking_safety_advisory().is_empty());
    assert!(booking_safety_advisory().contains("1912"));
}

#[test]
fn establishment_type_display_non_empty() {
    let types = [
        EstablishmentType::Hotel,
        EstablishmentType::TourOperator,
        EstablishmentType::TourGuide,
        EstablishmentType::TouristVehicle,
    ];
    for t in &types {
        assert!(!t.display().is_empty());
    }
}

#[test]
fn search_params_builder() {
    let params = SltdaSearchParams {
        name: Some("Cinnamon".to_string()),
        district: Some("Colombo".to_string()),
        establishment_type: Some(EstablishmentType::Hotel),
        registration_number: None,
    };
    assert_eq!(params.name.as_deref(), Some("Cinnamon"));
}

#[test]
fn search_url_encodes_and_joins_parameters() {
    let params = SltdaSearchParams {
        name: Some("Cinnamon Grand".to_string()),
        district: None,
        establishment_type: Some(EstablishmentType::Hotel),
        registration_number: Some("SL/123&x".to_string()),
    };
    assert_eq!(
        search_url(&params),
        "https://www.sltda.gov.lk/api/search?name=Cinnamon%20Grand&reg=SL%2F123%26x"
    );
}

#[test]
fn search_url_without_parameters() {
    let params = SltdaSearchParams {
        name: None,
        district: None,
        establishment_type: None,
        registration_number: None,
    };
    assert_eq!(search_url(&params), "https://www.sltda.gov.lk/api/search?");
}

#[test]
fn search_url_district_only() {
    let params = SltdaSearchParams {
        name: None,
        district: Some("Nuwara Eliya".to_string()),
        establishment_type: None,
        registration_number: None,
    };
    assert_eq!(
        search_url(&params),
        "https://www.sltda.gov.lk/api/search?district=Nuwara%20Eliya"
    );
}

#[test]
fn search_fallback_points_to_registry() {
    let ops = search_fallback();
    assert_eq!(ops.len(), 1);
    assert_eq!(ops[0].registration_number, "N/A");
    assert_eq!(
        ops[0].name,
        "Search at https://www.sltda.gov.lk/en/registered-establishments"
    );
    assert_eq!(ops[0].website.as_deref(), Some("https://www.sltda.gov.lk"));
    assert!(!ops[0].is_active);
    assert!(ops[0].star_rating.is_none());
}

#[test]
fn establishment_type_display_texts() {
    assert_eq!(EstablishmentType::Boutique.display(), "Boutique Hotel");
    assert_eq!(EstablishmentType::SpaWellness.display(), "Spa & Wellness");
}
