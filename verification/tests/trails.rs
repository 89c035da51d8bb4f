use solar_navigator::labels::{mode_label, window_title};
use solar_navigator::trails::{clear_trails, record_trail_sample, TRAIL_MAX_POINTS};
use solar_navigator::textures::{texture_status, TextureEntry, TextureLoad};
use std::collections::VecDeque;

#[test]
fn trail_keeps_newest_points_up_to_cap() {
    let mut trail: VecDeque<u32> = VecDeque::new();
    for i in 0..10 {
        record_trail_sample(&mut trail, i, false, 4);
    }
    assert_eq!(trail, VecDeque::from(vec![6, 7, 8, 9]));
    record_trail_sample(&mut trail, 42, true, 4);
    assert_eq!(trail, VecDeque::from(vec![6, 7, 8, 9]));
    let mut long: VecDeque<usize> = VecDeque::new();
    for i in 0..(TRAIL_MAX_POINTS + 10) {
        record_trail_sample(&mut long, i, false, TRAIL_MAX_POINTS);
    }
    assert_eq!(long.len(), TRAIL_MAX_POINTS);
    assert_eq!(long.front(), Some(&10));
}

#[test]
fn clearing_trails_keeps_one_per_body() {
    let mut trails = vec![VecDeque::from(vec![1, 2]), VecDeque::new(), VecDeque::from(vec![3])];
    clear_trails(&mut trails);
    assert_eq!(trails.len(), 3);
    assert!(trails.iter().all(|t| t.is_empty()));
}

#[test]
fn window_title_reports_mode_speed_camera_and_selection() {
    assert_eq!(mode_label(true), "SPICE");
    assert_eq!(
        window_title(false, "1.00x realtime", false, None),
        "Solar Navigator [Fallback] | Speed: 1.00x realtime"
    );
    assert_eq!(
        window_title(true, "1000x realtime", true, Some("Mars")),
        "Solar Navigator [SPICE] | Speed: 1000x realtime | Free cam | Selected: Mars"
    );
}

#[test]
fn texture_status_counts_loaded_and_reports_failures() {
    let entry = |name: &str, load: TextureLoad| TextureEntry {
        body_name: name.to_string(),
        path: format!("textures/{}.jpg", name.to_lowercase()),
        load,
    };
    let entries = vec![
        entry("Earth", TextureLoad::Loaded),
        entry("Mars", TextureLoad::Failed("bad header".to_string())),
        entry("Moon", TextureLoad::Pending),
        entry("Sun", TextureLoad::Loaded),
    ];
    let (summary, failed) = texture_status(&entries);
    assert_eq!(summary, "Textures: 2/4 loaded");
    assert_eq!(failed, vec!["Mars (textures/mars.jpg): bad header".to_string()]);
    assert_eq!(texture_status(&Vec::new()).0, "Textures: 0/0 loaded");
}
