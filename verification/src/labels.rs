//! The short texts that report the navigator's state.

use vstd::prelude::*;

verus! {

broadcast use vstd::string::group_string_axioms;

/// The name of the ephemeris mode.
pub open spec fn mode_name(spice_enabled: bool) -> Seq<char> {
    if spice_enabled {
        "SPICE"@
    } else {
        "Fallback"@
    }
}

/// The name of the ephemeris mode shown in the panel and the title.
pub fn mode_label(spice_enabled: bool) -> (label: &'static str)
    ensures
        label@ == mode_name(spice_enabled),
{
    if spice_enabled {
        "SPICE"
    } else {
        "Fallback"
    }
}

/// The window title: the mode, the simulation speed (already written), a
/// note when the free camera is active, and the selected body if any.
pub open spec fn title_text(
    spice_enabled: bool,
    speed: Seq<char>,
    free_camera: bool,
    selected: Option<Seq<char>>,
) -> Seq<char> {
    "Solar Navigator ["@ + mode_name(spice_enabled) + "] | Speed: "@ + speed + (if free_camera {
        " | Free cam"@
    } else {
        Seq::empty()
    }) + match selected {
        Some(name) => " | Selected: "@ + name,
        None => Seq::empty(),
    }
}

/// The window title for the current state.
pub fn window_title(
    spice_enabled: bool,
    speed: &str,
    free_camera: bool,
    selected: Option<&str>,
) -> (title: String)
    ensures
        title@ == title_text(
            spice_enabled,
            speed@,
            free_camera,
            match selected {
                Some(s) => Some(s@),
                None => None,
            },
        ),
{
    let mut title = "Solar Navigator [".to_string();
    title.append(mode_label(spice_enabled));
    title.append("] | Speed: ");
    title.append(speed);
    let ghost after_speed = title@;
    if free_camera {
        title.append(" | Free cam");
    } else {
        assert(title@ =~= after_speed + Seq::<char>::empty());
    }
    let ghost after_camera = title@;
    match selected {
        Some(name) => {
            title.append(" | Selected: ");
            title.append(name);
        },
        None => {
            assert(title@ =~= after_camera + Seq::<char>::empty());
        },
    }
    title
}

} // verus!
