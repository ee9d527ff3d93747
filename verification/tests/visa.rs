use apeclaw::skills::lanka::visa::{
    check_eligibility, eta_status_fallback, eta_status_url, EtaType,
};

#[test]
fn uk_nationals_get_free_eta() {
    let result = check_eligibility("United Kingdom");
    assert!(result.requires_eta);
    assert!(result.eta_is_free);
    assert_eq!(result.eta_fee_usd.map(f64::from), Some(0.0));
}

#[test]
fn maldives_visa_free() {
    let result = check_eligibility("Maldives");
    assert!(!result.requires_eta);
}

#[test]
fn unknown_country_requires_paid_eta() {
    let result = check_eligibility("Ruritania");
    assert!(result.requires_eta);
    assert!(!result.eta_is_free);
    assert_eq!(result.eta_fee_usd.map(f64::from), Some(20.0));
}

#[test]
fn case_insensitive_lookup() {
    let result = check_eligibility("united states");
    assert!(result.eta_is_free);
}

#[test]
fn apply_url_contains_eta_domain() {
    let result = check_eligibility("Germany");
    assert!(result.apply_url.contains("eta.gov.lk"));
}

#[test]
fn eta_type_display_non_empty() {
    for t in [EtaType::ShortVisit, EtaType::Transit, EtaType::DoubleEntry] {
        assert!(!t.display().is_empty());
    }
}

#[test]
fn padding_and_case_do_not_change_the_answer() {
    let a = check_eligibility("  sEyChElLeS \t");
    let b = check_eligibility("Seychelles");
    assert_eq!(a.nationality, "sEyChElLeS");
    assert_eq!(a.requires_eta, b.requires_eta);
    assert_eq!(a.eta_fee_usd, b.eta_fee_usd);
    assert_eq!(a.advisory, b.advisory);
    assert_eq!(a.apply_url, b.apply_url);
    assert!(!a.requires_eta);
    assert_eq!(a.eta_fee_usd, None);
}

#[test]
fn unicode_whitespace_is_trimmed() {
    let r = check_eligibility("\u{3000}India\u{a0}");
    assert_eq!(r.nationality, "India");
    assert!(r.eta_is_free);
}

#[test]
fn eligibility_texts() {
    let free = check_eligibility("Japan");
    assert_eq!(free.apply_url, "https://www.eta.gov.lk/slvisa/");
    assert_eq!(free.max_stay_days, 30);
    let paid = check_eligibility("Ruritania");
    assert_eq!(
        paid.advisory,
        "ETA required (USD 20). Apply at https://www.eta.gov.lk before travel. \
         Processing time: 24–72 hours. Extendable on arrival."
    );
    let none = check_eligibility("Singapore");
    assert_eq!(none.apply_url, "https://www.eta.gov.lk");
    assert_eq!(
        none.advisory,
        "No ETA required. Free entry on arrival for up to 30 days."
    );
}

#[test]
fn partial_names_are_not_listed() {
    let r = check_eligibility("United");
    assert_eq!(r.eta_fee_usd, Some(20));
}

#[test]
fn eta_status_request_and_fallback() {
    assert_eq!(
        eta_status_url("AB 12", "N1234567"),
        "https://www.eta.gov.lk/slvisa/visainfo/api/status?ref=AB%2012&passport=N1234567"
    );
    let s = eta_status_fallback("AB 12", "N1234567");
    assert_eq!(s.reference_number, "AB 12");
    assert_eq!(s.passport_number, "N1234567");
    assert_eq!(
        s.status,
        "Check status at https://www.eta.gov.lk/slvisa/visainfo/checkstatus"
    );
    assert!(s.visa_type.is_none());
    assert_eq!(
        s.note.as_deref(),
        Some("API unavailable. Please check status directly on the ETA portal.")
    );
}
