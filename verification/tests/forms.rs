use hideseek::forms::{
    host_submit_disabled, map_info_submit_disabled, optional_label, parse_map_size, prefill_code,
    size_choices, validate_boundary_step, validate_host_setup, validate_join, validate_landing_code,
    team_role_name, validate_map_info, validate_zone_form, FormError, MapSize, TeamRole,
};

#[test]
fn landing_code_is_trimmed_and_upper_cased() {
    assert_eq!(validate_landing_code("  a3x7k2 "), Ok("A3X7K2".to_string()));
    assert_eq!(validate_landing_code("A3X7K2"), Ok::<String, FormError>("A3X7K2".to_string()));
}

#[test]
fn landing_code_must_have_six_bytes() {
    assert_eq!(validate_landing_code("abc"), Err(FormError::BadGameCode));
    assert_eq!(validate_landing_code("a3x7k2z"), Err(FormError::BadGameCode));
    assert_eq!(validate_landing_code(""), Err(FormError::BadGameCode));
    // six characters, but "é" takes two bytes
    assert_eq!(validate_landing_code("a3x7ké"), Err(FormError::BadGameCode));
    // "ß" becomes "SS" in upper case, which makes six bytes
    assert_eq!(validate_landing_code("a3x7ß"), Ok::<String, FormError>("A3X7SS".to_string()));
    assert_eq!(FormError::BadGameCode.message(), "Enter the 6-character game code");
}

#[test]
fn prefilled_code() {
    assert_eq!(prefill_code(" q1w2e3\n"), Some("Q1W2E3".to_string()));
    assert_eq!(prefill_code(""), None);
    assert_eq!(prefill_code("q1w2"), None);
}

#[test]
fn join_form_checks_in_order() {
    assert_eq!(validate_join("abc", "", "", TeamRole::Hider).err(), Some(FormError::BadGameCode));
    assert_eq!(validate_join("abcdef", "  ", "Red", TeamRole::Hider).err(), Some(FormError::MissingDisplayName));
    assert_eq!(validate_join("abcdef", "Alice", " \t", TeamRole::Hider).err(), Some(FormError::MissingTeamName));
    let req = validate_join(" abcdef ", " Alice ", " Team Red ", TeamRole::Seeker).ok().unwrap();
    assert_eq!(req.code, "ABCDEF");
    assert_eq!(req.display_name, "Alice");
    assert_eq!(req.team_name, "Team Red");
    assert_eq!(req.role, TeamRole::Seeker);
    assert_eq!(FormError::MissingDisplayName.message(), "Enter your display name");
    assert_eq!(FormError::MissingTeamName.message(), "Enter your team name");
}

#[test]
fn host_form() {
    assert_eq!(validate_host_setup("  ", Some(7)).err(), Some(FormError::MissingHostName));
    assert_eq!(validate_host_setup("  ", None).err(), Some(FormError::MissingHostName));
    assert_eq!(validate_host_setup("Host", None).err(), Some(FormError::NoMapSelected));
    let req = validate_host_setup(" Hostess ", Some(7)).ok().unwrap();
    assert_eq!(req.map_id, 7);
    assert_eq!(req.host_display_name, "Hostess");
    assert_eq!(FormError::MissingHostName.message(), "Enter your name");
    assert_eq!(FormError::NoMapSelected.message(), "Select a map");
    assert!(host_submit_disabled(true, "Host", Some(1)));
    assert!(host_submit_disabled(false, " ", Some(1)));
    assert!(host_submit_disabled(false, "Host", None));
    assert!(!host_submit_disabled(false, "Host", Some(1)));
}

#[test]
fn map_size_choice() {
    assert_eq!(parse_map_size("small"), MapSize::Small);
    assert_eq!(parse_map_size("large"), MapSize::Large);
    assert_eq!(parse_map_size("medium"), MapSize::Medium);
    assert_eq!(parse_map_size("Small"), MapSize::Medium);
    assert_eq!(parse_map_size(""), MapSize::Medium);
    let choices = size_choices();
    assert_eq!(choices.len(), 3);
    assert_eq!((choices[0].size, choices[0].label, choices[0].description), (MapSize::Small, "Small", "Neighbourhood / city district"));
    assert_eq!((choices[1].size, choices[1].label, choices[1].description), (MapSize::Medium, "Medium", "City / metro region"));
    assert_eq!((choices[2].size, choices[2].label, choices[2].description), (MapSize::Large, "Large", "Region / country"));
}

#[test]
fn map_info_form() {
    assert_eq!(validate_map_info("   ", MapSize::Large).err(), Some(FormError::MissingMapName));
    let req = validate_map_info(" Gothenburg Central ", MapSize::Large).ok().unwrap();
    assert_eq!(req.name, "Gothenburg Central");
    assert_eq!(req.size, MapSize::Large);
    assert_eq!(FormError::MissingMapName.message(), "Map name is required.");
    assert!(map_info_submit_disabled(true, "x"));
    assert!(map_info_submit_disabled(false, ""));
    assert!(!map_info_submit_disabled(false, "x"));
}

#[test]
fn boundary_step_needs_a_polygon() {
    assert_eq!(validate_boundary_step(0), Err(FormError::BoundaryTooFewPoints));
    assert_eq!(validate_boundary_step(2), Err(FormError::BoundaryTooFewPoints));
    assert_eq!(validate_boundary_step(3), Ok(()));
    assert_eq!(FormError::BoundaryTooFewPoints.message(), "Draw at least 3 boundary points before continuing.");
}

#[test]
fn zone_form_checks_each_field() {
    assert_eq!(validate_zone_form::<f64>(None, None, "x", "", false).err(), Some(FormError::InvalidLatitude));
    assert_eq!(validate_zone_form(Some(51.5), None, "500", "", false).err(), Some(FormError::InvalidLongitude));
    assert_eq!(validate_zone_form(Some(51.5), Some(-0.1), "abc", "", false).err(), Some(FormError::InvalidRadius));
    assert_eq!(validate_zone_form(Some(51.5), Some(-0.1), "-5", "", false).err(), Some(FormError::InvalidRadius));
    assert_eq!(validate_zone_form(Some(51.5), Some(-0.1), "4294967296", "", false).err(), Some(FormError::InvalidRadius));
    assert_eq!(validate_zone_form(Some(51.5), Some(-0.1), "+", "", false).err(), Some(FormError::InvalidRadius));
    assert_eq!(validate_zone_form(Some(51.5), Some(-0.1), "", "", false).err(), Some(FormError::InvalidRadius));
    let d = validate_zone_form(Some(51.5074), Some(-0.1278), " 500 ", "  City centre ", true).ok().unwrap();
    assert_eq!((d.lat, d.lng, d.radius_m, d.exclude_outside), (51.5074, -0.1278, 500, true));
    assert_eq!(d.label, Some("City centre".to_string()));
    let d = validate_zone_form(Some(1.0), Some(2.0), "+0042", "   ", false).ok().unwrap();
    assert_eq!(d.radius_m, 42);
    assert_eq!(d.label, None);
    let d = validate_zone_form(Some(1.0), Some(2.0), "4294967295", "x", false).ok().unwrap();
    assert_eq!(d.radius_m, u32::MAX);
    assert_eq!(FormError::InvalidLatitude.message(), "Invalid latitude");
    assert_eq!(FormError::InvalidLongitude.message(), "Invalid longitude");
    assert_eq!(FormError::InvalidRadius.message(), "Invalid radius");
}

#[test]
fn optional_labels() {
    assert_eq!(optional_label(""), None);
    assert_eq!(optional_label(" \u{3000} "), None);
    assert_eq!(optional_label(" a b "), Some("a b".to_string()));
}

#[test]
fn wizard_messages() {
    assert_eq!(FormError::WizardMissingMapName.message(), "Map name is required");
    assert_eq!(FormError::WizardTooFewPoints.message(), "At least 3 boundary points required");
}

#[test]
fn role_names() {
    assert_eq!(team_role_name(TeamRole::Hider), "Hider");
    assert_eq!(team_role_name(TeamRole::Seeker), "Seeker");
}
