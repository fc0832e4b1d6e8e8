use stellui::clock::zone_override;

#[test]
fn known_zone_override_is_kept() {
    assert_eq!(zone_override(Some("America/Chicago".to_string())), Some("America/Chicago".to_string()));
    assert_eq!(zone_override(Some("UTC".to_string())), Some("UTC".to_string()));
    assert_eq!(zone_override(Some("Europe/Oslo".to_string())), Some("Europe/Oslo".to_string()));
}

#[test]
fn unknown_zone_override_is_dropped() {
    assert_eq!(zone_override(Some("Mars/Olympus".to_string())), None);
    assert_eq!(zone_override(Some("america/chicago".to_string())), None);
    assert_eq!(zone_override(Some(String::new())), None);
    assert_eq!(zone_override(None), None);
}
