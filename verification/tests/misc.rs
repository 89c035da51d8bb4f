use chrono::{Datelike, NaiveDate};
use solar_navigator::bodies::{
    body_catalogue, body_display_name, body_index_for_target, body_matches_filter,
    body_spice_target, BodyIdentity, BODY_COUNT,
};
use solar_navigator::ephemeris::{horizons_command_for_target, spice_supports_target};
use solar_navigator::calendar::{clamp_picker_day, days_in_month, is_leap};
use solar_navigator::rng::advance_seed;
use solar_navigator::text::decimal_text;
use solar_navigator::textures::{texture_asset_path, texture_load_candidates};

/// The picker's month length as the date library computes it.
fn chrono_days_in_month(year: i32, month: u32) -> u32 {
    let (next_year, next_month) = if month == 12 { (year + 1, 1) } else { (year, month + 1) };
    NaiveDate::from_ymd_opt(next_year, next_month, 1)
        .and_then(|d| d.pred_opt())
        .map(|d| d.day())
        .unwrap_or(31)
}

#[test]
fn days_in_month_matches_calendar() {
    assert_eq!(days_in_month(2024, 2), 29);
    assert_eq!(days_in_month(2023, 2), 28);
    assert_eq!(days_in_month(1900, 2), 28);
    assert_eq!(days_in_month(2000, 2), 29);
    assert_eq!(days_in_month(2026, 4), 30);
    assert_eq!(days_in_month(2026, 12), 31);
    assert_eq!(days_in_month(2026, 0), 31);
    assert_eq!(days_in_month(2026, 13), 31);
}

#[test]
fn days_in_month_agrees_with_date_library() {
    let years = [-262143, -262142, -401, -400, -100, -1, 0, 1, 1600, 1900, 2000, 2024, 2100, 2200, 262141, 262142, 262143, 300000, -300000];
    for &year in &years {
        for month in 0..=14u32 {
            assert_eq!(
                days_in_month(year, month),
                chrono_days_in_month(year, month),
                "year {year} month {month}"
            );
        }
    }
    assert!(is_leap(-4));
    assert!(!is_leap(-100));
    assert!(is_leap(-400));
}

#[test]
fn advance_seed_matches_wrapping_lcg() {
    let mut seed: u64 = 0x9E37_79B9_7F4A_7C15;
    let mut reference = seed;
    for _ in 0..100 {
        let sample = advance_seed(&mut seed);
        reference = reference
            .wrapping_mul(6364136223846793005)
            .wrapping_add(1442695040888963407);
        assert_eq!(seed, reference);
        assert_eq!(sample, (reference >> 32) as u32);
    }
    let mut zero: u64 = 0;
    assert_eq!(advance_seed(&mut zero), (1442695040888963407u64 >> 32) as u32);
}

#[test]
fn decimal_text_writes_numbers() {
    assert_eq!(decimal_text(0), "0");
    assert_eq!(decimal_text(7), "7");
    assert_eq!(decimal_text(1234), "1234");
    assert_eq!(decimal_text(u64::MAX), u64::MAX.to_string());
}

fn catalogue() -> Vec<BodyIdentity> {
    [("Sun", "SUN"), ("Pluto", "PLUTO BARYCENTER"), ("Charon", "CHARON")]
        .iter()
        .map(|(n, t)| BodyIdentity { display_name: n.to_string(), spice_target: t.to_string() })
        .collect()
}

#[test]
fn body_index_for_target_finds_first_match() {
    let bodies = catalogue();
    assert_eq!(body_index_for_target(&bodies, "PLUTO BARYCENTER"), Some(1));
    assert_eq!(body_index_for_target(&bodies, "CHARON"), Some(2));
    assert_eq!(body_index_for_target(&bodies, "charon"), None);
}

#[test]
fn target_filter_is_trimmed_and_case_insensitive() {
    assert!(body_matches_filter("Jupiter", ""));
    assert!(body_matches_filter("Jupiter", "   "));
    assert!(body_matches_filter("Jupiter", " JUP "));
    assert!(body_matches_filter("Jupiter", "iter"));
    assert!(!body_matches_filter("Jupiter", "sat"));
    assert!(!body_matches_filter("Moon", "moons"));
}

#[test]
fn texture_candidates_prefer_compressed_variants() {
    assert_eq!(
        texture_load_candidates("earth.jpg"),
        vec!["earth.ktx2".to_string(), "earth.dds".to_string(), "earth.jpg".to_string()]
    );
    assert_eq!(
        texture_load_candidates("saturn_ring.png"),
        vec![
            "saturn_ring.ktx2".to_string(),
            "saturn_ring.dds".to_string(),
            "saturn_ring.png".to_string()
        ]
    );
    assert_eq!(texture_load_candidates(""), vec!["".to_string()]);
    assert_eq!(texture_asset_path("earth.dds"), "textures/earth.dds");
}

#[test]
fn picker_day_is_clamped_to_month() {
    assert_eq!(clamp_picker_day(31, 2023, 2), 28);
    assert_eq!(clamp_picker_day(31, 2024, 2), 29);
    assert_eq!(clamp_picker_day(0, 2024, 7), 1);
    assert_eq!(clamp_picker_day(15, 2024, 7), 15);
    assert_eq!(clamp_picker_day(31, 2024, 4), 30);
}

#[test]
fn body_catalogue_lists_the_fourteen_bodies_in_order() {
    let expected = [
        ("Sun", "SUN"),
        ("Mercury", "MERCURY BARYCENTER"),
        ("Venus", "VENUS BARYCENTER"),
        ("Earth", "EARTH"),
        ("Moon", "MOON"),
        ("Mars", "MARS BARYCENTER"),
        ("Ceres", "CERES"),
        ("Vesta", "VESTA"),
        ("Jupiter", "JUPITER BARYCENTER"),
        ("Saturn", "SATURN BARYCENTER"),
        ("Uranus", "URANUS BARYCENTER"),
        ("Neptune", "NEPTUNE BARYCENTER"),
        ("Pluto", "PLUTO BARYCENTER"),
        ("Charon", "CHARON"),
    ];
    let bodies = body_catalogue();
    assert_eq!(bodies.len(), BODY_COUNT);
    for (i, (name, target)) in expected.iter().enumerate() {
        assert_eq!(bodies[i].display_name, *name);
        assert_eq!(bodies[i].spice_target, *target);
        assert_eq!(body_display_name(i), *name);
        assert_eq!(body_spice_target(i), *target);
    }
    assert_eq!(body_index_for_target(&bodies, "EARTH"), Some(3));
}

#[test]
fn catalogue_sources_spice_all_but_three() {
    for i in 0..BODY_COUNT {
        let target = body_spice_target(i);
        assert!(horizons_command_for_target(target).is_some(), "{target}");
        let fallback_only = matches!(target, "CERES" | "VESTA" | "CHARON");
        assert_eq!(spice_supports_target(target), !fallback_only, "{target}");
    }
}
