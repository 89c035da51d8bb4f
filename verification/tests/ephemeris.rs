use solar_navigator::ephemeris::{
    fallback_model_for_target, horizons_command_for_target, orbit_for_target,
    spice_supports_target, spice_utc_timestamp_input, FallbackModel, OrbitBody, PositionSource,
    Satellite, SpiceEphemeris, TimestampSource,
};

#[test]
fn fallback_position_au_unknown_target_defaults_to_origin() {
    assert_eq!(
        fallback_model_for_target("NOT_A_REAL_TARGET"),
        FallbackModel::AtOrigin
    );
}

#[test]
fn position_au_at_utc_timestamp_matches_day_zero_without_spice() {
    let ephemeris = SpiceEphemeris::new_without_spice();
    let at_timestamp = ephemeris.timestamp_source("EARTH", "2026-04-19 12:00:00");
    let day_zero = ephemeris.position_source("EARTH");
    let model = FallbackModel::Planet(OrbitBody::Earth);
    assert_eq!(day_zero, PositionSource::Fallback(model));
    assert_eq!(at_timestamp, TimestampSource::FallbackAtDayZero(model));
}

#[test]
fn horizons_commands_match_table() {
    assert_eq!(horizons_command_for_target("SUN"), Some("10"));
    assert_eq!(horizons_command_for_target("MOON"), Some("301"));
    assert_eq!(horizons_command_for_target("CERES"), Some("1;"));
    assert_eq!(horizons_command_for_target("VESTA"), Some("4;"));
    assert_eq!(horizons_command_for_target("PLUTO"), Some("999"));
    assert_eq!(horizons_command_for_target("CHARON"), Some("901"));
    assert_eq!(horizons_command_for_target("EARTH"), Some("399"));
    assert_eq!(horizons_command_for_target("EARTH BARYCENTER"), Some("3"));
    assert_eq!(horizons_command_for_target("NOT_A_REAL_TARGET"), None);
    assert_eq!(horizons_command_for_target("moon"), None);
}

#[test]
fn spice_targets_are_barycenters_sun_earth_and_moon() {
    assert!(spice_supports_target("SUN"));
    assert!(spice_supports_target("MOON"));
    assert!(spice_supports_target("PLUTO BARYCENTER"));
    assert!(spice_supports_target("EARTH"));
    assert!(!spice_supports_target("earth"));
    assert!(!spice_supports_target("VESTA"));
    assert!(!spice_supports_target("CHARON"));
    assert!(!spice_supports_target("CERES"));
}

#[test]
fn spice_timestamp_gets_utc_suffix_only_when_missing() {
    assert_eq!(
        spice_utc_timestamp_input("2026-04-19 12:00:00"),
        "2026-04-19 12:00:00 UTC"
    );
    assert_eq!(spice_utc_timestamp_input("2026-04-19T12:00:00Z"), "2026-04-19T12:00:00Z");
    assert_eq!(spice_utc_timestamp_input("2026-04-19 12:00 utc"), "2026-04-19 12:00 utc");
    let once = spice_utc_timestamp_input("2026-01-01");
    assert_eq!(spice_utc_timestamp_input(&once), once);
}

#[test]
fn fallback_models_cover_satellites_and_planets() {
    assert_eq!(
        fallback_model_for_target("moon"),
        FallbackModel::Satellite { satellite: Satellite::Moon, primary: OrbitBody::Earth }
    );
    assert_eq!(
        fallback_model_for_target("Charon"),
        FallbackModel::Satellite { satellite: Satellite::Charon, primary: OrbitBody::Pluto }
    );
    assert_eq!(orbit_for_target("EARTH"), Some(OrbitBody::Earth));
    assert_eq!(orbit_for_target("PLUTO BARYCENTER"), Some(OrbitBody::Pluto));
    assert_eq!(orbit_for_target("earth"), None);
}

#[test]
fn position_sources_follow_ephemeris_mode() {
    let spice = SpiceEphemeris::new_spice_loaded("a.tls", "b.bsp", None, Some("g.tpc"));
    assert!(spice.is_spice_enabled());
    assert_eq!(spice.status_line(), "SPICE mode active: loaded a.tls, b.bsp, g.tpc");
    assert_eq!(spice.position_source("sun"), PositionSource::Origin);
    assert_eq!(spice.position_source("MARS BARYCENTER"), PositionSource::Spice);
    assert_eq!(spice.position_source("EARTH"), PositionSource::Spice);
    assert_eq!(
        spice.position_source("CERES"),
        PositionSource::Fallback(FallbackModel::Planet(OrbitBody::Ceres))
    );
    assert_eq!(
        spice.timestamp_source("MOON", "2026-04-19 12:00:00"),
        TimestampSource::Spice { utc: "2026-04-19 12:00:00 UTC".to_string() }
    );
    assert_eq!(
        spice.timestamp_source("VESTA", "2026-04-19Z"),
        TimestampSource::FallbackSinceBase {
            utc: "2026-04-19Z".to_string(),
            model: FallbackModel::Planet(OrbitBody::Vesta),
        }
    );
}

#[test]
fn fallback_status_lines() {
    let missing = SpiceEphemeris::new_missing_kernels("k/naif0012.tls", "k/de440s.bsp");
    assert!(!missing.is_spice_enabled());
    assert_eq!(
        missing.status_line(),
        "Fallback orbit mode active: missing kernels. Expected k/naif0012.tls and k/de440s.bsp"
    );
    let locked = SpiceEphemeris::new_lock_unavailable("busy");
    assert_eq!(
        locked.status_line(),
        "Fallback orbit mode active: could not acquire SPICE lock (busy)"
    );
    assert_eq!(
        SpiceEphemeris::new_without_spice().status_line(),
        "Fallback orbit mode active: app was compiled without the `spice` feature"
    );
}
