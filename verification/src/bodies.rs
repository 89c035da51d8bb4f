//! The catalogue of bodies as the logic sees it: names only.

use vstd::prelude::*;
use crate::ephemeris::{
    fallback_model, fallback_orbit, horizons_command, lemma_orbit_names, spice_target,
    FallbackModel, OrbitBody,
};
use crate::sync::{is_sun, planned_targets, sync_target_count, unmapped_failures};
use crate::text::{
    chars_contain, chars_equal, chars_of, contains_seq, lower_ascii, lower_ascii_chars, trim,
    trim_chars, upper_ascii,
};

verus! {

broadcast use vstd::string::group_string_axioms;

/// A body of the catalogue: its display name and SPICE target name.
pub struct BodyIdentity {
    pub display_name: String,
    pub spice_target: String,
}

/// The mathematical form of a [`BodyIdentity`].
pub struct BodyIdentityView {
    pub display_name: Seq<char>,
    pub spice_target: Seq<char>,
}

impl View for BodyIdentity {
    type V = BodyIdentityView;

    open spec fn view(&self) -> BodyIdentityView {
        BodyIdentityView { display_name: self.display_name@, spice_target: self.spice_target@ }
    }
}

/// The views of a slice of bodies.
pub open spec fn body_views(bodies: Seq<BodyIdentity>) -> Seq<BodyIdentityView> {
    bodies.map_values(|b: BodyIdentity| b@)
}


/// The number of bodies in the catalogue.
pub const BODY_COUNT: usize = 14;

/// The catalogue of bodies, in display order: the Sun first, then the
/// planets, dwarf planets and moons by distance from the Sun.
pub open spec fn catalogue() -> Seq<BodyIdentityView> {
    seq![
        BodyIdentityView { display_name: "Sun"@, spice_target: "SUN"@ },
        BodyIdentityView { display_name: "Mercury"@, spice_target: "MERCURY BARYCENTER"@ },
        BodyIdentityView { display_name: "Venus"@, spice_target: "VENUS BARYCENTER"@ },
        BodyIdentityView { display_name: "Earth"@, spice_target: "EARTH"@ },
        BodyIdentityView { display_name: "Moon"@, spice_target: "MOON"@ },
        BodyIdentityView { display_name: "Mars"@, spice_target: "MARS BARYCENTER"@ },
        BodyIdentityView { display_name: "Ceres"@, spice_target: "CERES"@ },
        BodyIdentityView { display_name: "Vesta"@, spice_target: "VESTA"@ },
        BodyIdentityView { display_name: "Jupiter"@, spice_target: "JUPITER BARYCENTER"@ },
        BodyIdentityView { display_name: "Saturn"@, spice_target: "SATURN BARYCENTER"@ },
        BodyIdentityView { display_name: "Uranus"@, spice_target: "URANUS BARYCENTER"@ },
        BodyIdentityView { display_name: "Neptune"@, spice_target: "NEPTUNE BARYCENTER"@ },
        BodyIdentityView { display_name: "Pluto"@, spice_target: "PLUTO BARYCENTER"@ },
        BodyIdentityView { display_name: "Charon"@, spice_target: "CHARON"@ },
    ]
}

/// The display name of catalogue body `index`.
pub fn body_display_name(index: usize) -> (name: &'static str)
    requires
        index < BODY_COUNT,
    ensures
        name@ == catalogue()[index as int].display_name,
{
    match index {
        0 => "Sun",
        1 => "Mercury",
        2 => "Venus",
        3 => "Earth",
        4 => "Moon",
        5 => "Mars",
        6 => "Ceres",
        7 => "Vesta",
        8 => "Jupiter",
        9 => "Saturn",
        10 => "Uranus",
        11 => "Neptune",
        12 => "Pluto",
        _ => "Charon",
    }
}

/// The SPICE target name of catalogue body `index`.
pub fn body_spice_target(index: usize) -> (target: &'static str)
    requires
        index < BODY_COUNT,
    ensures
        target@ == catalogue()[index as int].spice_target,
{
    match index {
        0 => "SUN",
        1 => "MERCURY BARYCENTER",
        2 => "VENUS BARYCENTER",
        3 => "EARTH",
        4 => "MOON",
        5 => "MARS BARYCENTER",
        6 => "CERES",
        7 => "VESTA",
        8 => "JUPITER BARYCENTER",
        9 => "SATURN BARYCENTER",
        10 => "URANUS BARYCENTER",
        11 => "NEPTUNE BARYCENTER",
        12 => "PLUTO BARYCENTER",
        _ => "CHARON",
    }
}

/// The whole catalogue.
pub fn body_catalogue() -> (bodies: Vec<BodyIdentity>)
    ensures
        body_views(bodies@) == catalogue(),
{
    let mut bodies: Vec<BodyIdentity> = Vec::new();
    let mut i: usize = 0;
    while i < BODY_COUNT
        invariant
            i <= BODY_COUNT,
            body_views(bodies@) =~= catalogue().take(i as int),
        decreases BODY_COUNT - i,
    {
        let b = BodyIdentity {
            display_name: body_display_name(i).to_string(),
            spice_target: body_spice_target(i).to_string(),
        };
        let ghost before = bodies@;
        bodies.push(b);
        assert(body_views(bodies@) =~= body_views(before).push(b@));
        assert(catalogue().take((i + 1) as int) =~= catalogue().take(i as int).push(catalogue()[i as int]));
        i = i + 1;
    }
    assert(catalogue().take(BODY_COUNT as int) =~= catalogue());
    bodies
}

/// The lengths of the target names that the catalogue and the SPICE table
/// use, and the first letters of those of equal length that must be told
/// apart.
proof fn lemma_target_names()
    ensures
        "SUN"@.len() == 3,
        "MOON"@.len() == 4,
        "EARTH"@.len() == 5,
        "CERES"@.len() == 5,
        "VESTA"@.len() == 5,
        "CHARON"@.len() == 6,
        "MARS BARYCENTER"@.len() == 15,
        "VENUS BARYCENTER"@.len() == 16,
        "EARTH BARYCENTER"@.len() == 16,
        "PLUTO BARYCENTER"@.len() == 16,
        "SATURN BARYCENTER"@.len() == 17,
        "URANUS BARYCENTER"@.len() == 17,
        "MERCURY BARYCENTER"@.len() == 18,
        "JUPITER BARYCENTER"@.len() == 18,
        "NEPTUNE BARYCENTER"@.len() == 18,
        "CERES"@[0] == 'C',
        "EARTH"@[0] == 'E',
        "VESTA"@[0] == 'V',
{
    reveal_strlit("SUN");
    reveal_strlit("MOON");
    reveal_strlit("EARTH");
    reveal_strlit("CERES");
    reveal_strlit("VESTA");
    reveal_strlit("CHARON");
    reveal_strlit("MARS BARYCENTER");
    reveal_strlit("VENUS BARYCENTER");
    reveal_strlit("EARTH BARYCENTER");
    reveal_strlit("PLUTO BARYCENTER");
    reveal_strlit("SATURN BARYCENTER");
    reveal_strlit("URANUS BARYCENTER");
    reveal_strlit("MERCURY BARYCENTER");
    reveal_strlit("JUPITER BARYCENTER");
    reveal_strlit("NEPTUNE BARYCENTER");
}

/// Every catalogue body has a Horizons command, and SPICE serves every
/// catalogue body but Ceres, Vesta and Charon (which use fallback orbits).
pub proof fn lemma_catalogue_sources(i: int)
    requires
        0 <= i < BODY_COUNT,
    ensures
        horizons_command(catalogue()[i].spice_target) is Some,
        spice_target(catalogue()[i].spice_target) <==> !(catalogue()[i].spice_target == "CERES"@
            || catalogue()[i].spice_target == "VESTA"@ || catalogue()[i].spice_target
            == "CHARON"@),
{
    lemma_target_names();
    assert(!spice_target("CERES"@) && !spice_target("VESTA"@) && !spice_target("CHARON"@));
}

/// Every catalogue body but the Sun has a fallback position model: the Moon
/// and Charon circle the body listed just before them (the Earth and the
/// Pluto barycenter), and every other body keeps the fallback orbit of the
/// body its display name names.
pub proof fn lemma_catalogue_fallbacks(i: int)
    requires
        0 <= i < BODY_COUNT,
    ensures
        (fallback_model(catalogue()[i].spice_target) is AtOrigin) <==> i == 0,
        i == 4 || i == 13 ==> (fallback_model(catalogue()[i].spice_target) matches FallbackModel::Satellite {
            primary,
            ..
        } && fallback_orbit(catalogue()[i - 1].spice_target) == Some(primary)),
        i != 0 && i != 4 && i != 13 ==> {
            &&& fallback_orbit(catalogue()[i].spice_target) is Some
            &&& fallback_orbit(catalogue()[i].spice_target) == fallback_orbit(
                upper_ascii(catalogue()[i].display_name),
            )
        },
{
    lemma_target_names();
    reveal_strlit("SUN");
    reveal_strlit("MOON");
    reveal_strlit("CHARON");
    reveal_strlit("Mercury");
    reveal_strlit("MERCURY");
    reveal_strlit("Venus");
    reveal_strlit("VENUS");
    reveal_strlit("Earth");
    reveal_strlit("EARTH");
    reveal_strlit("Mars");
    reveal_strlit("MARS");
    reveal_strlit("Ceres");
    reveal_strlit("CERES");
    reveal_strlit("Vesta");
    reveal_strlit("VESTA");
    reveal_strlit("Jupiter");
    reveal_strlit("JUPITER");
    reveal_strlit("Saturn");
    reveal_strlit("SATURN");
    reveal_strlit("Uranus");
    reveal_strlit("URANUS");
    reveal_strlit("Neptune");
    reveal_strlit("NEPTUNE");
    reveal_strlit("Pluto");
    reveal_strlit("PLUTO");
    let t = catalogue()[i].spice_target;
    assert(lower_ascii(t).len() == t.len() && lower_ascii("MOON"@).len() == 4 && lower_ascii(
        "CHARON"@,
    ).len() == 6);
    reveal_strlit(" BARYCENTER");
    if i == 4 {
        lemma_orbit_names(OrbitBody::Earth);
    } else if i == 13 {
        lemma_orbit_names(OrbitBody::Pluto);
        assert("PLUTO"@ + " BARYCENTER"@ =~= "PLUTO BARYCENTER"@);
    } else if i == 1 {
        lemma_orbit_names(OrbitBody::Mercury);
        assert(upper_ascii("Mercury"@) =~= "MERCURY"@);
        assert("MERCURY"@ + " BARYCENTER"@ =~= "MERCURY BARYCENTER"@);
    } else if i == 2 {
        lemma_orbit_names(OrbitBody::Venus);
        assert(upper_ascii("Venus"@) =~= "VENUS"@);
        assert("VENUS"@ + " BARYCENTER"@ =~= "VENUS BARYCENTER"@);
    } else if i == 3 {
        lemma_orbit_names(OrbitBody::Earth);
        assert(upper_ascii("Earth"@) =~= "EARTH"@);
    } else if i == 5 {
        lemma_orbit_names(OrbitBody::Mars);
        assert(upper_ascii("Mars"@) =~= "MARS"@);
        assert("MARS"@ + " BARYCENTER"@ =~= "MARS BARYCENTER"@);
    } else if i == 6 {
        lemma_orbit_names(OrbitBody::Ceres);
        assert(upper_ascii("Ceres"@) =~= "CERES"@);
    } else if i == 7 {
        lemma_orbit_names(OrbitBody::Vesta);
        assert(upper_ascii("Vesta"@) =~= "VESTA"@);
    } else if i == 8 {
        lemma_orbit_names(OrbitBody::Jupiter);
        assert(upper_ascii("Jupiter"@) =~= "JUPITER"@);
        assert("JUPITER"@ + " BARYCENTER"@ =~= "JUPITER BARYCENTER"@);
    } else if i == 9 {
        lemma_orbit_names(OrbitBody::Saturn);
        assert(upper_ascii("Saturn"@) =~= "SATURN"@);
        assert("SATURN"@ + " BARYCENTER"@ =~= "SATURN BARYCENTER"@);
    } else if i == 10 {
        lemma_orbit_names(OrbitBody::Uranus);
        assert(upper_ascii("Uranus"@) =~= "URANUS"@);
        assert("URANUS"@ + " BARYCENTER"@ =~= "URANUS BARYCENTER"@);
    } else if i == 11 {
        lemma_orbit_names(OrbitBody::Neptune);
        assert(upper_ascii("Neptune"@) =~= "NEPTUNE"@);
        assert("NEPTUNE"@ + " BARYCENTER"@ =~= "NEPTUNE BARYCENTER"@);
    } else if i == 12 {
        lemma_orbit_names(OrbitBody::Pluto);
        assert(upper_ascii("Pluto"@) =~= "PLUTO"@);
        assert("PLUTO"@ + " BARYCENTER"@ =~= "PLUTO BARYCENTER"@);
    }
}

/// With every non-Sun body mapped, nothing is reported up front and every
/// covered body is queried.
proof fn lemma_all_mapped(bodies: Seq<BodyIdentityView>)
    requires
        forall|i: int| 0 <= i < bodies.len() ==> horizons_command(#[trigger] bodies[i].spice_target) is Some,
    ensures
        unmapped_failures(bodies) =~= Seq::<Seq<char>>::empty(),
        planned_targets(bodies).len() == sync_target_count(bodies),
    decreases bodies.len(),
{
    if bodies.len() > 0 {
        let d = bodies.drop_last();
        assert forall|i: int| 0 <= i < d.len() implies horizons_command(#[trigger] d[i].spice_target) is Some by {
            assert(d[i] == bodies[i]);
        }
        lemma_all_mapped(d);
        assert(horizons_command(bodies[bodies.len() - 1].spice_target) is Some);
    }
}

/// Only the first of `bodies` is the Sun: a sync round covers the rest.
proof fn lemma_count_all_but_first(bodies: Seq<BodyIdentityView>)
    requires
        bodies.len() >= 1,
        is_sun(bodies[0]),
        forall|i: int| 1 <= i < bodies.len() ==> !is_sun(#[trigger] bodies[i]),
    ensures
        sync_target_count(bodies) == bodies.len() - 1,
    decreases bodies.len(),
{
    if bodies.len() > 1 {
        let d = bodies.drop_last();
        assert forall|i: int| 1 <= i < d.len() implies !is_sun(#[trigger] d[i]) by {
            assert(d[i] == bodies[i]);
        }
        assert(d[0] == bodies[0]);
        lemma_count_all_but_first(d);
        assert(!is_sun(bodies.last()));
    } else {
        assert(bodies.drop_last().len() == 0);
        assert(is_sun(bodies.last()));
    }
    assert(sync_target_count(bodies) == sync_target_count(bodies.drop_last()) + if is_sun(
        bodies.last(),
    ) {
        0nat
    } else {
        1nat
    });
}

/// A Horizons sync round over the catalogue covers every body but the Sun,
/// queries every one of them, and reports no body as unmapped.
pub proof fn lemma_catalogue_fully_synced()
    ensures
        sync_target_count(catalogue()) == BODY_COUNT - 1,
        planned_targets(catalogue()).len() == BODY_COUNT - 1,
        unmapped_failures(catalogue()).len() == 0,
{
    let c = catalogue();
    assert forall|i: int| 0 <= i < c.len() implies horizons_command(#[trigger] c[i].spice_target) is Some by {
        lemma_catalogue_sources(i);
    }
    lemma_all_mapped(c);
    assert forall|i: int| 1 <= i < c.len() implies !is_sun(#[trigger] c[i]) by {
        lemma_target_names();
        assert(lower_ascii(c[i].spice_target).len() != lower_ascii("SUN"@).len());
    }
    lemma_count_all_but_first(c);
}

/// The index of the first body whose SPICE target name is `target`.
pub fn body_index_for_target(bodies: &Vec<BodyIdentity>, target: &str) -> (r: Option<usize>)
    ensures
        match r {
            Some(i) => i < bodies@.len() && bodies@[i as int].spice_target@ == target@ && forall|
                j: int,
            | 0 <= j < i ==> bodies@[j].spice_target@ != target@,
            None => forall|j: int| 0 <= j < bodies@.len() ==> bodies@[j].spice_target@ != target@,
        },
{
    let t = chars_of(target);
    let mut i: usize = 0;
    while i < bodies.len()
        invariant
            i <= bodies.len(),
            t@ == target@,
            forall|j: int| 0 <= j < i ==> bodies@[j].spice_target@ != target@,
        decreases bodies.len() - i,
    {
        if chars_equal(&chars_of(bodies[i].spice_target.as_str()), &t) {
            return Some(i);
        }
        i = i + 1;
    }
    None
}

/// Whether a body labelled `label` is listed under the search text
/// `filter`: the trimmed filter is empty, or occurs in the label, both
/// compared with ASCII letters lowered.
pub open spec fn listed_under(label: Seq<char>, filter: Seq<char>) -> bool {
    let f = lower_ascii(trim(filter));
    f.len() == 0 || contains_seq(lower_ascii(label), f)
}

/// Whether the target list shows `label` for the search text `filter`.
pub fn body_matches_filter(label: &str, filter: &str) -> (shown: bool)
    ensures
        shown == listed_under(label@, filter@),
{
    let f = lower_ascii_chars(&trim_chars(&chars_of(filter)));
    if f.len() == 0 {
        return true;
    }
    chars_contain(&lower_ascii_chars(&chars_of(label)), &f)
}

/// Whether the ASCII-lowered `label` has the characters of `f` at the
/// consecutive positions from `k` on.
pub open spec fn lowered_run_at(label: Seq<char>, f: Seq<char>, k: int) -> bool {
    &&& 0 <= k
    &&& k + f.len() <= label.len()
    &&& forall|m: int| 0 <= m < f.len() ==> lower_ascii(label)[k + m] == #[trigger] f[m]
}

/// The search is a substring search: a body is listed exactly when the
/// filter is blank, or the trimmed, lowered filter occurs as one unbroken
/// run of characters in the lowered label.
pub proof fn lemma_filter_is_substring_search(label: Seq<char>, filter: Seq<char>)
    ensures
        listed_under(label, filter) <==> (trim(filter).len() == 0 || exists|k: int|
            lowered_run_at(label, lower_ascii(trim(filter)), k)),
{
    let f = lower_ascii(trim(filter));
    let l = lower_ascii(label);
    if trim(filter).len() > 0 {
        if listed_under(label, filter) {
            let k = choose|k: int| crate::text::occurs_at(l, f, k);
            assert forall|m: int| 0 <= m < f.len() implies l[k + m] == #[trigger] f[m] by {
                assert(l.subrange(k, k + f.len())[m] == l[k + m]);
            }
            assert(lowered_run_at(label, f, k));
        }
        if exists|k: int| lowered_run_at(label, f, k) {
            let k = choose|k: int| lowered_run_at(label, f, k);
            assert(l.subrange(k, k + f.len()) =~= f);
            assert(crate::text::occurs_at(l, f, k));
        }
    }
}

/// An empty or all-blank search lists every body.
pub proof fn lemma_blank_filter_lists_all(label: Seq<char>, filter: Seq<char>)
    requires
        trim(filter).len() == 0,
    ensures
        listed_under(label, filter),
{
}

/// A label is always listed under itself, in any ASCII case.
pub proof fn lemma_label_listed_under_itself(label: Seq<char>)
    requires
        trim(label) == label,
    ensures
        listed_under(label, label),
{
    let f = lower_ascii(label);
    if f.len() > 0 {
        assert(f.subrange(0, f.len() as int) =~= f);
        assert(crate::text::occurs_at(f, f, 0));
    }
}

} // verus!
