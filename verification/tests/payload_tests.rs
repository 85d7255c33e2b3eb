use update_flow::payload::{
    check_for_updates, contains_critical_marker, no_update_payload, payload_from_check,
    CheckOutcome, UpdatePayload,
};

#[test]
fn marker_found_mid_string() {
    assert!(contains_critical_marker("Fixes a hole. \u{26a0}\u{fe0f} CRITICAL UPDATE required."));
}

#[test]
fn marker_is_whole_string() {
    assert!(contains_critical_marker("CRITICAL UPDATE"));
}

#[test]
fn marker_at_start() {
    assert!(contains_critical_marker("CRITICAL UPDATE: install now"));
}

#[test]
fn marker_at_end() {
    assert!(contains_critical_marker("This release is a CRITICAL UPDATE"));
}

#[test]
fn marker_absent() {
    assert!(!contains_critical_marker("routine maintenance release"));
}

#[test]
fn marker_truncated_does_not_count() {
    assert!(!contains_critical_marker("CRITICAL UPDAT"));
}

#[test]
fn marker_is_case_sensitive() {
    assert!(!contains_critical_marker("critical update"));
}

#[test]
fn marker_not_in_empty_notes() {
    assert!(!contains_critical_marker(""));
}

#[test]
fn no_update_payload_is_all_empty() {
    let p = no_update_payload();
    assert_eq!(
        p,
        UpdatePayload {
            update_available: false,
            version: None,
            notes: None,
            critical: false,
            date: None,
        }
    );
}

#[test]
fn up_to_date_maps_to_empty_payload() {
    let p = payload_from_check(CheckOutcome::UpToDate);
    assert_eq!(p, no_update_payload());
}

#[test]
fn available_update_fills_payload() {
    let p = payload_from_check(CheckOutcome::Available {
        version: "1.2.3".to_string(),
        body: Some("Bug fixes".to_string()),
        date: Some("2024-05-01".to_string()),
    });
    assert!(p.update_available);
    assert_eq!(p.version.as_deref(), Some("1.2.3"));
    assert!(!p.version.unwrap().is_empty());
    assert_eq!(p.notes.as_deref(), Some("Bug fixes"));
    assert!(!p.critical);
    assert_eq!(p.date.as_deref(), Some("2024-05-01"));
}

#[test]
fn critical_notes_set_the_flag() {
    let p = payload_from_check(CheckOutcome::Available {
        version: "2.0.0".to_string(),
        body: Some("\u{26a0}\u{fe0f} CRITICAL UPDATE: fixes a vulnerability".to_string()),
        date: None,
    });
    assert!(p.update_available);
    assert!(p.critical);
}

#[test]
fn absent_body_becomes_empty_notes() {
    let p = payload_from_check(CheckOutcome::Available {
        version: "1.0.1".to_string(),
        body: None,
        date: None,
    });
    assert!(p.update_available);
    assert_eq!(p.notes.as_deref(), Some(""));
    assert!(!p.critical);
    assert_eq!(p.date, None);
}

#[test]
fn check_success_yields_payload() {
    let r = check_for_updates(Ok(CheckOutcome::Available {
        version: "3.1.4".to_string(),
        body: Some("notes".to_string()),
        date: None,
    }));
    let p = r.expect("check should succeed");
    assert!(p.update_available);
    assert_eq!(p.version.as_deref(), Some("3.1.4"));
}

#[test]
fn check_no_update_yields_empty_payload() {
    let r = check_for_updates(Ok(CheckOutcome::UpToDate));
    assert_eq!(r, Ok(no_update_payload()));
}

#[test]
fn check_error_propagates_verbatim() {
    let r = check_for_updates(Err("could not fetch the update manifest".to_string()));
    assert_eq!(r, Err("could not fetch the update manifest".to_string()));
}
