//! Ephemeris target catalogues and the choice of position source.
//!
//! Positions come from SPICE kernels when they are loaded and the target is
//! one SPICE serves, from a fallback orbit model otherwise, and the Sun sits
//! at the origin. This module decides which; the numeric models run outside.

use vstd::prelude::*;
use crate::text::{
    decimal, chars_eq_ignore_ascii_case, chars_equal, chars_of, chars_contain, contains_seq,
    eq_ignore_ascii_case, upper_ascii, upper_ascii_chars,
};

verus! {

broadcast use vstd::string::group_string_axioms;

/// Whether `a` and `b` hold the same text.
fn same_text(a: &str, b: &str) -> (r: bool)
    ensures
        r == (a@ == b@),
{
    chars_equal(&chars_of(a), &chars_of(b))
}

/// Whether `a` equals `b` up to ASCII case.
fn same_text_ignore_case(a: &str, b: &str) -> (r: bool)
    ensures
        r == eq_ignore_ascii_case(a@, b@),
{
    chars_eq_ignore_ascii_case(&chars_of(a), &chars_of(b))
}

/// The Horizons `COMMAND` code of a SPICE target name.
pub open spec fn horizons_command(target: Seq<char>) -> Option<Seq<char>> {
    if target == "SUN"@ {
        Some("10"@)
    } else if target == "MERCURY BARYCENTER"@ {
        Some("1"@)
    } else if target == "VENUS BARYCENTER"@ {
        Some("2"@)
    } else if target == "EARTH BARYCENTER"@ {
        Some("3"@)
    } else if target == "EARTH"@ {
        Some("399"@)
    } else if target == "MOON"@ {
        Some("301"@)
    } else if target == "MARS BARYCENTER"@ {
        Some("4"@)
    } else if target == "JUPITER BARYCENTER"@ {
        Some("5"@)
    } else if target == "SATURN BARYCENTER"@ {
        Some("6"@)
    } else if target == "URANUS BARYCENTER"@ {
        Some("7"@)
    } else if target == "NEPTUNE BARYCENTER"@ {
        Some("8"@)
    } else if target == "CERES"@ {
        Some("1;"@)
    } else if target == "VESTA"@ {
        Some("4;"@)
    } else if target == "PLUTO BARYCENTER"@ {
        Some("9"@)
    } else if target == "PLUTO"@ {
        Some("999"@)
    } else if target == "CHARON"@ {
        Some("901"@)
    } else {
        None
    }
}

/// The Horizons `COMMAND` code for a SPICE target name, if there is one.
pub fn horizons_command_for_target(target: &str) -> (r: Option<&'static str>)
    ensures
        match r {
            Some(code) => horizons_command(target@) == Some(code@),
            None => horizons_command(target@) is None,
        },
{
    if same_text(target, "SUN") {
        Some("10")
    } else if same_text(target, "MERCURY BARYCENTER") {
        Some("1")
    } else if same_text(target, "VENUS BARYCENTER") {
        Some("2")
    } else if same_text(target, "EARTH BARYCENTER") {
        Some("3")
    } else if same_text(target, "EARTH") {
        Some("399")
    } else if same_text(target, "MOON") {
        Some("301")
    } else if same_text(target, "MARS BARYCENTER") {
        Some("4")
    } else if same_text(target, "JUPITER BARYCENTER") {
        Some("5")
    } else if same_text(target, "SATURN BARYCENTER") {
        Some("6")
    } else if same_text(target, "URANUS BARYCENTER") {
        Some("7")
    } else if same_text(target, "NEPTUNE BARYCENTER") {
        Some("8")
    } else if same_text(target, "CERES") {
        Some("1;")
    } else if same_text(target, "VESTA") {
        Some("4;")
    } else if same_text(target, "PLUTO BARYCENTER") {
        Some("9")
    } else if same_text(target, "PLUTO") {
        Some("999")
    } else if same_text(target, "CHARON") {
        Some("901")
    } else {
        None
    }
}

/// The planets in order from the Sun, by the names the ephemeris
/// catalogues use.
pub open spec fn planets_from_sun() -> Seq<Seq<char>> {
    seq![
        "MERCURY"@,
        "VENUS"@,
        "EARTH"@,
        "MARS"@,
        "JUPITER"@,
        "SATURN"@,
        "URANUS"@,
        "NEPTUNE"@,
        "PLUTO"@,
    ]
}

/// Horizons commands are NAIF IDs: the barycenter of the `k + 1`-th planet
/// from the Sun is `k + 1`, and the planet itself, where it has a command,
/// is `(k + 1) * 100 + 99`.
pub proof fn lemma_horizons_commands_are_naif_ids(k: int)
    requires
        0 <= k < 9,
    ensures
        horizons_command(planets_from_sun()[k] + " BARYCENTER"@) == Some(decimal((k + 1) as nat)),
        horizons_command(planets_from_sun()[k]) is Some ==> horizons_command(planets_from_sun()[k])
            == Some(decimal(((k + 1) * 100 + 99) as nat)),
{
    reveal_strlit("SUN");
    reveal_strlit("MERCURY");
    reveal_strlit("VENUS");
    reveal_strlit("EARTH");
    reveal_strlit("MARS");
    reveal_strlit("JUPITER");
    reveal_strlit("SATURN");
    reveal_strlit("URANUS");
    reveal_strlit("NEPTUNE");
    reveal_strlit("PLUTO");
    reveal_strlit(" BARYCENTER");
    reveal_strlit("MERCURY BARYCENTER");
    reveal_strlit("VENUS BARYCENTER");
    reveal_strlit("EARTH BARYCENTER");
    reveal_strlit("MARS BARYCENTER");
    reveal_strlit("JUPITER BARYCENTER");
    reveal_strlit("SATURN BARYCENTER");
    reveal_strlit("URANUS BARYCENTER");
    reveal_strlit("NEPTUNE BARYCENTER");
    reveal_strlit("PLUTO BARYCENTER");
    reveal_strlit("MOON");
    reveal_strlit("CERES");
    reveal_strlit("VESTA");
    reveal_strlit("CHARON");
    reveal_strlit("10");
    reveal_strlit("1");
    reveal_strlit("2");
    reveal_strlit("3");
    reveal_strlit("399");
    reveal_strlit("301");
    reveal_strlit("4");
    reveal_strlit("5");
    reveal_strlit("6");
    reveal_strlit("7");
    reveal_strlit("8");
    reveal_strlit("1;");
    reveal_strlit("4;");
    reveal_strlit("9");
    reveal_strlit("999");
    reveal_strlit("901");
    assert("SUN"@.len() == 3 && "MERCURY"@.len() == 7 && "VENUS"@.len() == 5 && "EARTH"@.len() == 5 && "MARS"@.len() == 4 && "JUPITER"@.len() == 7 && "SATURN"@.len() == 6 && "URANUS"@.len() == 6 && "NEPTUNE"@.len() == 7 && "PLUTO"@.len() == 5 && "MERCURY BARYCENTER"@.len() == 18 && "VENUS BARYCENTER"@.len() == 16 && "EARTH BARYCENTER"@.len() == 16 && "MARS BARYCENTER"@.len() == 15 && "JUPITER BARYCENTER"@.len() == 18 && "SATURN BARYCENTER"@.len() == 17 && "URANUS BARYCENTER"@.len() == 17 && "NEPTUNE BARYCENTER"@.len() == 18 && "PLUTO BARYCENTER"@.len() == 16 && "MOON"@.len() == 4 && "CERES"@.len() == 5 && "VESTA"@.len() == 5 && "CHARON"@.len() == 6);
    assert("SUN"@[0] == 'S' && "MERCURY"@[0] == 'M' && "VENUS"@[0] == 'V' && "EARTH"@[0] == 'E' && "MARS"@[0] == 'M' && "JUPITER"@[0] == 'J' && "SATURN"@[0] == 'S' && "URANUS"@[0] == 'U' && "NEPTUNE"@[0] == 'N' && "PLUTO"@[0] == 'P' && "MERCURY BARYCENTER"@[0] == 'M' && "VENUS BARYCENTER"@[0] == 'V' && "EARTH BARYCENTER"@[0] == 'E' && "MARS BARYCENTER"@[0] == 'M' && "JUPITER BARYCENTER"@[0] == 'J' && "SATURN BARYCENTER"@[0] == 'S' && "URANUS BARYCENTER"@[0] == 'U' && "NEPTUNE BARYCENTER"@[0] == 'N' && "PLUTO BARYCENTER"@[0] == 'P' && "MOON"@[0] == 'M' && "CERES"@[0] == 'C' && "VESTA"@[0] == 'V' && "CHARON"@[0] == 'C');
    reveal_with_fuel(decimal, 3);
    let p = planets_from_sun()[k];
    assert("VENUS"@[2] == 'N' && "VESTA"@[2] == 'S' && "MARS"@[1] == 'A' && "MOON"@[1] == 'O');
    let barycenter_id: nat = (k + 1) as nat;
    let planet_id: nat = ((k + 1) * 100 + 99) as nat;
    let b = p + " BARYCENTER"@;
    if k == 0 {
        assert(b =~= "MERCURY BARYCENTER"@);
        assert(barycenter_id == 1 && decimal(1) =~= "1"@);
    } else if k == 1 {
        assert(b =~= "VENUS BARYCENTER"@);
        assert(barycenter_id == 2 && decimal(2) =~= "2"@);
    } else if k == 2 {
        assert(b =~= "EARTH BARYCENTER"@);
        assert(barycenter_id == 3 && decimal(3) =~= "3"@);
        assert(planet_id == 399 && decimal(399) =~= "399"@);
    } else if k == 3 {
        assert(b =~= "MARS BARYCENTER"@);
        assert(barycenter_id == 4 && decimal(4) =~= "4"@);
    } else if k == 4 {
        assert(b =~= "JUPITER BARYCENTER"@);
        assert(barycenter_id == 5 && decimal(5) =~= "5"@);
    } else if k == 5 {
        assert(b =~= "SATURN BARYCENTER"@);
        assert(barycenter_id == 6 && decimal(6) =~= "6"@);
    } else if k == 6 {
        assert(b =~= "URANUS BARYCENTER"@);
        assert(barycenter_id == 7 && decimal(7) =~= "7"@);
    } else if k == 7 {
        assert(b =~= "NEPTUNE BARYCENTER"@);
        assert(barycenter_id == 8 && decimal(8) =~= "8"@);
    } else {
        assert(b =~= "PLUTO BARYCENTER"@);
        assert(barycenter_id == 9 && decimal(9) =~= "9"@);
        assert(planet_id == 999 && decimal(999) =~= "999"@);
    }
}

/// The Sun is NAIF body 10, and a moon is numbered after its planet: the
/// Moon is the first moon of the third planet, Charon of the ninth. Minor
/// planets go by their catalogue number followed by `;`: Ceres is 1, Vesta 4.
pub proof fn lemma_horizons_sun_moon_and_asteroid_ids()
    ensures
        horizons_command("CERES"@) == Some(decimal(1) + ";"@),
        horizons_command("VESTA"@) == Some(decimal(4) + ";"@),
        horizons_command("SUN"@) == Some(decimal(10)),
        horizons_command("MOON"@) == Some(decimal(301)),
        horizons_command("CHARON"@) == Some(decimal(901)),
{
    reveal_strlit("SUN");
    reveal_strlit("MERCURY");
    reveal_strlit("VENUS");
    reveal_strlit("EARTH");
    reveal_strlit("MARS");
    reveal_strlit("JUPITER");
    reveal_strlit("SATURN");
    reveal_strlit("URANUS");
    reveal_strlit("NEPTUNE");
    reveal_strlit("PLUTO");
    reveal_strlit(" BARYCENTER");
    reveal_strlit("MERCURY BARYCENTER");
    reveal_strlit("VENUS BARYCENTER");
    reveal_strlit("EARTH BARYCENTER");
    reveal_strlit("MARS BARYCENTER");
    reveal_strlit("JUPITER BARYCENTER");
    reveal_strlit("SATURN BARYCENTER");
    reveal_strlit("URANUS BARYCENTER");
    reveal_strlit("NEPTUNE BARYCENTER");
    reveal_strlit("PLUTO BARYCENTER");
    reveal_strlit("MOON");
    reveal_strlit("CERES");
    reveal_strlit("VESTA");
    reveal_strlit("CHARON");
    reveal_strlit("10");
    reveal_strlit("1");
    reveal_strlit("2");
    reveal_strlit("3");
    reveal_strlit("399");
    reveal_strlit("301");
    reveal_strlit("4");
    reveal_strlit("5");
    reveal_strlit("6");
    reveal_strlit("7");
    reveal_strlit("8");
    reveal_strlit("1;");
    reveal_strlit("4;");
    reveal_strlit("9");
    reveal_strlit("999");
    reveal_strlit("901");
    assert("SUN"@.len() == 3 && "MERCURY"@.len() == 7 && "VENUS"@.len() == 5 && "EARTH"@.len() == 5 && "MARS"@.len() == 4 && "JUPITER"@.len() == 7 && "SATURN"@.len() == 6 && "URANUS"@.len() == 6 && "NEPTUNE"@.len() == 7 && "PLUTO"@.len() == 5 && "MERCURY BARYCENTER"@.len() == 18 && "VENUS BARYCENTER"@.len() == 16 && "EARTH BARYCENTER"@.len() == 16 && "MARS BARYCENTER"@.len() == 15 && "JUPITER BARYCENTER"@.len() == 18 && "SATURN BARYCENTER"@.len() == 17 && "URANUS BARYCENTER"@.len() == 17 && "NEPTUNE BARYCENTER"@.len() == 18 && "PLUTO BARYCENTER"@.len() == 16 && "MOON"@.len() == 4 && "CERES"@.len() == 5 && "VESTA"@.len() == 5 && "CHARON"@.len() == 6);
    assert("SUN"@[0] == 'S' && "MERCURY"@[0] == 'M' && "VENUS"@[0] == 'V' && "EARTH"@[0] == 'E' && "MARS"@[0] == 'M' && "JUPITER"@[0] == 'J' && "SATURN"@[0] == 'S' && "URANUS"@[0] == 'U' && "NEPTUNE"@[0] == 'N' && "PLUTO"@[0] == 'P' && "MERCURY BARYCENTER"@[0] == 'M' && "VENUS BARYCENTER"@[0] == 'V' && "EARTH BARYCENTER"@[0] == 'E' && "MARS BARYCENTER"@[0] == 'M' && "JUPITER BARYCENTER"@[0] == 'J' && "SATURN BARYCENTER"@[0] == 'S' && "URANUS BARYCENTER"@[0] == 'U' && "NEPTUNE BARYCENTER"@[0] == 'N' && "PLUTO BARYCENTER"@[0] == 'P' && "MOON"@[0] == 'M' && "CERES"@[0] == 'C' && "VESTA"@[0] == 'V' && "CHARON"@[0] == 'C');
    reveal_with_fuel(decimal, 3);
    reveal_strlit(";");
    assert(decimal(1) + ";"@ =~= "1;"@);
    assert(decimal(4) + ";"@ =~= "4;"@);
    assert(decimal(10) =~= "10"@);
    assert(decimal(301) =~= "301"@);
    assert(decimal(901) =~= "901"@);
}

/// The target whose Horizons command is `command`.
spec fn target_of_command(command: Seq<char>) -> Seq<char> {
    if command == "10"@ {
        "SUN"@
    } else if command == "1"@ {
        "MERCURY BARYCENTER"@
    } else if command == "2"@ {
        "VENUS BARYCENTER"@
    } else if command == "3"@ {
        "EARTH BARYCENTER"@
    } else if command == "399"@ {
        "EARTH"@
    } else if command == "301"@ {
        "MOON"@
    } else if command == "4"@ {
        "MARS BARYCENTER"@
    } else if command == "5"@ {
        "JUPITER BARYCENTER"@
    } else if command == "6"@ {
        "SATURN BARYCENTER"@
    } else if command == "7"@ {
        "URANUS BARYCENTER"@
    } else if command == "8"@ {
        "NEPTUNE BARYCENTER"@
    } else if command == "1;"@ {
        "CERES"@
    } else if command == "4;"@ {
        "VESTA"@
    } else if command == "9"@ {
        "PLUTO BARYCENTER"@
    } else if command == "999"@ {
        "PLUTO"@
    } else if command == "901"@ {
        "CHARON"@
    } else {
        Seq::empty()
    }
}

/// A Horizons command names its target: looking the command up again gives
/// the target back.
proof fn lemma_command_names_target(target: Seq<char>)
    requires
        horizons_command(target) is Some,
    ensures
        target_of_command(horizons_command(target)->0) == target,
{
    reveal_strlit("SUN");
    reveal_strlit("MERCURY");
    reveal_strlit("VENUS");
    reveal_strlit("EARTH");
    reveal_strlit("MARS");
    reveal_strlit("JUPITER");
    reveal_strlit("SATURN");
    reveal_strlit("URANUS");
    reveal_strlit("NEPTUNE");
    reveal_strlit("PLUTO");
    reveal_strlit(" BARYCENTER");
    reveal_strlit("MERCURY BARYCENTER");
    reveal_strlit("VENUS BARYCENTER");
    reveal_strlit("EARTH BARYCENTER");
    reveal_strlit("MARS BARYCENTER");
    reveal_strlit("JUPITER BARYCENTER");
    reveal_strlit("SATURN BARYCENTER");
    reveal_strlit("URANUS BARYCENTER");
    reveal_strlit("NEPTUNE BARYCENTER");
    reveal_strlit("PLUTO BARYCENTER");
    reveal_strlit("MOON");
    reveal_strlit("CERES");
    reveal_strlit("VESTA");
    reveal_strlit("CHARON");
    reveal_strlit("10");
    reveal_strlit("1");
    reveal_strlit("2");
    reveal_strlit("3");
    reveal_strlit("399");
    reveal_strlit("301");
    reveal_strlit("4");
    reveal_strlit("5");
    reveal_strlit("6");
    reveal_strlit("7");
    reveal_strlit("8");
    reveal_strlit("1;");
    reveal_strlit("4;");
    reveal_strlit("9");
    reveal_strlit("999");
    reveal_strlit("901");
    assert("SUN"@.len() == 3 && "MERCURY"@.len() == 7 && "VENUS"@.len() == 5 && "EARTH"@.len() == 5 && "MARS"@.len() == 4 && "JUPITER"@.len() == 7 && "SATURN"@.len() == 6 && "URANUS"@.len() == 6 && "NEPTUNE"@.len() == 7 && "PLUTO"@.len() == 5 && "MERCURY BARYCENTER"@.len() == 18 && "VENUS BARYCENTER"@.len() == 16 && "EARTH BARYCENTER"@.len() == 16 && "MARS BARYCENTER"@.len() == 15 && "JUPITER BARYCENTER"@.len() == 18 && "SATURN BARYCENTER"@.len() == 17 && "URANUS BARYCENTER"@.len() == 17 && "NEPTUNE BARYCENTER"@.len() == 18 && "PLUTO BARYCENTER"@.len() == 16 && "MOON"@.len() == 4 && "CERES"@.len() == 5 && "VESTA"@.len() == 5 && "CHARON"@.len() == 6);
    assert("SUN"@[0] == 'S' && "MERCURY"@[0] == 'M' && "VENUS"@[0] == 'V' && "EARTH"@[0] == 'E' && "MARS"@[0] == 'M' && "JUPITER"@[0] == 'J' && "SATURN"@[0] == 'S' && "URANUS"@[0] == 'U' && "NEPTUNE"@[0] == 'N' && "PLUTO"@[0] == 'P' && "MERCURY BARYCENTER"@[0] == 'M' && "VENUS BARYCENTER"@[0] == 'V' && "EARTH BARYCENTER"@[0] == 'E' && "MARS BARYCENTER"@[0] == 'M' && "JUPITER BARYCENTER"@[0] == 'J' && "SATURN BARYCENTER"@[0] == 'S' && "URANUS BARYCENTER"@[0] == 'U' && "NEPTUNE BARYCENTER"@[0] == 'N' && "PLUTO BARYCENTER"@[0] == 'P' && "MOON"@[0] == 'M' && "CERES"@[0] == 'C' && "VESTA"@[0] == 'V' && "CHARON"@[0] == 'C');
    assert("1"@.len() == 1 && "2"@.len() == 1 && "3"@.len() == 1 && "4"@.len() == 1 && "5"@.len()
        == 1 && "6"@.len() == 1 && "7"@.len() == 1 && "8"@.len() == 1 && "9"@.len() == 1);
    assert("10"@.len() == 2 && "1;"@.len() == 2 && "4;"@.len() == 2);
    assert("399"@.len() == 3 && "301"@.len() == 3 && "999"@.len() == 3 && "901"@.len() == 3);
    assert("1"@[0] == '1' && "2"@[0] == '2' && "3"@[0] == '3' && "4"@[0] == '4' && "5"@[0] == '5'
        && "6"@[0] == '6' && "7"@[0] == '7' && "8"@[0] == '8' && "9"@[0] == '9');
    assert("10"@[1] == '0' && "1;"@[1] == ';' && "4;"@[0] == '4');
    assert("399"@[0] == '3' && "301"@[0] == '3' && "301"@[1] == '0' && "999"@[1] == '9'
        && "901"@[0] == '9' && "901"@[1] == '0');
    if target == "SUN"@ {
        assert(target_of_command("10"@) == "SUN"@);
    } else if target == "MERCURY BARYCENTER"@ {
        assert(target_of_command("1"@) == "MERCURY BARYCENTER"@);
    } else if target == "VENUS BARYCENTER"@ {
        assert(target_of_command("2"@) == "VENUS BARYCENTER"@);
    } else if target == "EARTH BARYCENTER"@ {
        assert(target_of_command("3"@) == "EARTH BARYCENTER"@);
    } else if target == "EARTH"@ {
        assert(target_of_command("399"@) == "EARTH"@);
    } else if target == "MOON"@ {
        assert(target_of_command("301"@) == "MOON"@);
    } else if target == "MARS BARYCENTER"@ {
        assert(target_of_command("4"@) == "MARS BARYCENTER"@);
    } else if target == "JUPITER BARYCENTER"@ {
        assert(target_of_command("5"@) == "JUPITER BARYCENTER"@);
    } else if target == "SATURN BARYCENTER"@ {
        assert(target_of_command("6"@) == "SATURN BARYCENTER"@);
    } else if target == "URANUS BARYCENTER"@ {
        assert(target_of_command("7"@) == "URANUS BARYCENTER"@);
    } else if target == "NEPTUNE BARYCENTER"@ {
        assert(target_of_command("8"@) == "NEPTUNE BARYCENTER"@);
    } else if target == "CERES"@ {
        assert(target_of_command("1;"@) == "CERES"@);
    } else if target == "VESTA"@ {
        assert(target_of_command("4;"@) == "VESTA"@);
    } else if target == "PLUTO BARYCENTER"@ {
        assert(target_of_command("9"@) == "PLUTO BARYCENTER"@);
    } else if target == "PLUTO"@ {
        assert(target_of_command("999"@) == "PLUTO"@);
    } else if target == "CHARON"@ {
        assert(target_of_command("901"@) == "CHARON"@);
    }
}

/// Distinct targets get distinct Horizons commands.
pub proof fn lemma_horizons_commands_distinct(a: Seq<char>, b: Seq<char>)
    requires
        horizons_command(a) is Some,
        horizons_command(a) == horizons_command(b),
    ensures
        a == b,
{
    lemma_command_names_target(a);
    lemma_command_names_target(b);
}

/// The targets whose positions the loaded SPICE kernels provide.
pub open spec fn spice_target(target: Seq<char>) -> bool {
    ||| target == "SUN"@
    ||| target == "MERCURY BARYCENTER"@
    ||| target == "VENUS BARYCENTER"@
    ||| target == "EARTH BARYCENTER"@
    ||| target == "EARTH"@
    ||| target == "MOON"@
    ||| target == "MARS BARYCENTER"@
    ||| target == "JUPITER BARYCENTER"@
    ||| target == "SATURN BARYCENTER"@
    ||| target == "URANUS BARYCENTER"@
    ||| target == "NEPTUNE BARYCENTER"@
    ||| target == "PLUTO BARYCENTER"@
}

/// Whether the loaded SPICE kernels provide positions for `target`.
pub fn spice_supports_target(target: &str) -> (b: bool)
    ensures
        b == spice_target(target@),
{
    same_text(target, "SUN") || same_text(target, "MERCURY BARYCENTER") || same_text(
        target,
        "VENUS BARYCENTER",
    ) || same_text(target, "EARTH BARYCENTER") || same_text(target, "EARTH") || same_text(
        target,
        "MOON",
    ) || same_text(
        target,
        "MARS BARYCENTER",
    ) || same_text(target, "JUPITER BARYCENTER") || same_text(target, "SATURN BARYCENTER")
        || same_text(target, "URANUS BARYCENTER") || same_text(target, "NEPTUNE BARYCENTER")
        || same_text(target, "PLUTO BARYCENTER")
}

/// Whether a timestamp already names its time scale: it ends in `Z`, or
/// contains `UTC` in any ASCII case.
pub open spec fn names_utc(timestamp: Seq<char>) -> bool {
    ||| (timestamp.len() > 0 && timestamp.last() == 'Z')
    ||| contains_seq(upper_ascii(timestamp), "UTC"@)
}

/// The timestamp as SPICE reads it: unchanged when it names its time scale,
/// otherwise followed by ` UTC`.
pub open spec fn spice_utc_input(timestamp: Seq<char>) -> Seq<char> {
    if names_utc(timestamp) {
        timestamp
    } else {
        timestamp + " UTC"@
    }
}

/// A UTC timestamp in the form SPICE's `str2et` reads.
pub fn spice_utc_timestamp_input(utc_timestamp: &str) -> (r: String)
    ensures
        r@ == spice_utc_input(utc_timestamp@),
{
    let cs = chars_of(utc_timestamp);
    let ends_z = cs.len() > 0 && cs[cs.len() - 1] == 'Z';
    let upper = upper_ascii_chars(&cs);
    let utc = chars_of("UTC");
    if ends_z || chars_contain(&upper, &utc) {
        utc_timestamp.to_string()
    } else {
        let mut r = utc_timestamp.to_string();
        r.append(" UTC");
        r
    }
}


/// Every target that SPICE serves can also be looked up in Horizons, so a
/// SPICE position can always be cross-checked.
pub proof fn lemma_spice_targets_have_horizons_commands(target: Seq<char>)
    requires
        spice_target(target),
    ensures
        horizons_command(target) is Some,
{
}

/// Normalising a timestamp for SPICE twice changes nothing more than doing
/// it once: the normalised form always names its time scale.
pub proof fn lemma_spice_utc_input_idempotent(timestamp: Seq<char>)
    ensures
        names_utc(spice_utc_input(timestamp)),
        spice_utc_input(spice_utc_input(timestamp)) == spice_utc_input(timestamp),
{
    if !names_utc(timestamp) {
        let out = timestamp + " UTC"@;
        reveal_strlit(" UTC");
        reveal_strlit("UTC");
        let n = timestamp.len() as int;
        let up = upper_ascii(out);
        assert(up.subrange(n + 1, n + 4) =~= "UTC"@);
        assert(crate::text::occurs_at(up, "UTC"@, n + 1));
    }
}


/// The bodies that have a fallback orbit (a circular, inclined orbit about
/// the Sun, with elements kept by the numeric model).
#[derive(Clone, Copy, Debug, PartialEq, Eq, Structural)]
pub enum OrbitBody {
    Mercury,
    Venus,
    Earth,
    Mars,
    Ceres,
    Vesta,
    Jupiter,
    Saturn,
    Uranus,
    Neptune,
    Pluto,
}

/// The fallback orbit of a target name; planets answer to their own name and
/// to their barycenter's.
pub open spec fn fallback_orbit(target: Seq<char>) -> Option<OrbitBody> {
    if target == "MERCURY"@ || target == "MERCURY BARYCENTER"@ {
        Some(OrbitBody::Mercury)
    } else if target == "VENUS"@ || target == "VENUS BARYCENTER"@ {
        Some(OrbitBody::Venus)
    } else if target == "EARTH"@ || target == "EARTH BARYCENTER"@ {
        Some(OrbitBody::Earth)
    } else if target == "MARS"@ || target == "MARS BARYCENTER"@ {
        Some(OrbitBody::Mars)
    } else if target == "CERES"@ {
        Some(OrbitBody::Ceres)
    } else if target == "VESTA"@ {
        Some(OrbitBody::Vesta)
    } else if target == "JUPITER"@ || target == "JUPITER BARYCENTER"@ {
        Some(OrbitBody::Jupiter)
    } else if target == "SATURN"@ || target == "SATURN BARYCENTER"@ {
        Some(OrbitBody::Saturn)
    } else if target == "URANUS"@ || target == "URANUS BARYCENTER"@ {
        Some(OrbitBody::Uranus)
    } else if target == "NEPTUNE"@ || target == "NEPTUNE BARYCENTER"@ {
        Some(OrbitBody::Neptune)
    } else if target == "PLUTO"@ || target == "PLUTO BARYCENTER"@ {
        Some(OrbitBody::Pluto)
    } else {
        None
    }
}

/// The fallback orbit for a target name, if it has one.
pub fn orbit_for_target(target: &str) -> (r: Option<OrbitBody>)
    ensures
        r == fallback_orbit(target@),
{
    if same_text(target, "MERCURY") || same_text(target, "MERCURY BARYCENTER") {
        Some(OrbitBody::Mercury)
    } else if same_text(target, "VENUS") || same_text(target, "VENUS BARYCENTER") {
        Some(OrbitBody::Venus)
    } else if same_text(target, "EARTH") || same_text(target, "EARTH BARYCENTER") {
        Some(OrbitBody::Earth)
    } else if same_text(target, "MARS") || same_text(target, "MARS BARYCENTER") {
        Some(OrbitBody::Mars)
    } else if same_text(target, "CERES") {
        Some(OrbitBody::Ceres)
    } else if same_text(target, "VESTA") {
        Some(OrbitBody::Vesta)
    } else if same_text(target, "JUPITER") || same_text(target, "JUPITER BARYCENTER") {
        Some(OrbitBody::Jupiter)
    } else if same_text(target, "SATURN") || same_text(target, "SATURN BARYCENTER") {
        Some(OrbitBody::Saturn)
    } else if same_text(target, "URANUS") || same_text(target, "URANUS BARYCENTER") {
        Some(OrbitBody::Uranus)
    } else if same_text(target, "NEPTUNE") || same_text(target, "NEPTUNE BARYCENTER") {
        Some(OrbitBody::Neptune)
    } else if same_text(target, "PLUTO") || same_text(target, "PLUTO BARYCENTER") {
        Some(OrbitBody::Pluto)
    } else {
        None
    }
}

/// The name by which the catalogues know each body with a fallback orbit.
pub open spec fn orbit_body_name(body: OrbitBody) -> Seq<char> {
    match body {
        OrbitBody::Mercury => "MERCURY"@,
        OrbitBody::Venus => "VENUS"@,
        OrbitBody::Earth => "EARTH"@,
        OrbitBody::Mars => "MARS"@,
        OrbitBody::Ceres => "CERES"@,
        OrbitBody::Vesta => "VESTA"@,
        OrbitBody::Jupiter => "JUPITER"@,
        OrbitBody::Saturn => "SATURN"@,
        OrbitBody::Uranus => "URANUS"@,
        OrbitBody::Neptune => "NEPTUNE"@,
        OrbitBody::Pluto => "PLUTO"@,
    }
}

/// Whether a body is a minor planet (it has no barycenter of its own in the
/// kernels).
pub open spec fn is_minor_planet(body: OrbitBody) -> bool {
    body == OrbitBody::Ceres || body == OrbitBody::Vesta
}

/// Each body with a fallback orbit answers to its own name, and a planet's
/// barycenter shares the planet's fallback orbit.
pub proof fn lemma_orbit_names(body: OrbitBody)
    ensures
        fallback_orbit(orbit_body_name(body)) == Some(body),
        !is_minor_planet(body) ==> fallback_orbit(orbit_body_name(body) + " BARYCENTER"@) == Some(
            body,
        ),
{
    reveal_strlit(" BARYCENTER");
    reveal_strlit("MERCURY");
    reveal_strlit("VENUS");
    reveal_strlit("EARTH");
    reveal_strlit("MARS");
    reveal_strlit("CERES");
    reveal_strlit("VESTA");
    reveal_strlit("JUPITER");
    reveal_strlit("SATURN");
    reveal_strlit("URANUS");
    reveal_strlit("NEPTUNE");
    reveal_strlit("PLUTO");
    reveal_strlit("MERCURY BARYCENTER");
    reveal_strlit("VENUS BARYCENTER");
    reveal_strlit("EARTH BARYCENTER");
    reveal_strlit("MARS BARYCENTER");
    reveal_strlit("JUPITER BARYCENTER");
    reveal_strlit("SATURN BARYCENTER");
    reveal_strlit("URANUS BARYCENTER");
    reveal_strlit("NEPTUNE BARYCENTER");
    reveal_strlit("PLUTO BARYCENTER");
    let n = orbit_body_name(body);
    let b = n + " BARYCENTER"@;
    assert("MERCURY BARYCENTER"@.len() == 18 && "JUPITER BARYCENTER"@.len() == 18
        && "VENUS BARYCENTER"@.len() == 16 && "EARTH BARYCENTER"@.len() == 16
        && "MARS BARYCENTER"@.len() == 15 && "SATURN BARYCENTER"@.len() == 17);
    match body {
        OrbitBody::Mercury => {
            assert(b =~= "MERCURY BARYCENTER"@);
        },
        OrbitBody::Venus => {
            assert(b =~= "VENUS BARYCENTER"@);
            assert("VENUS"@[0] != "MERCURY"@[0]);
        },
        OrbitBody::Earth => {
            assert(b =~= "EARTH BARYCENTER"@);
            assert("EARTH BARYCENTER"@[0] != "VENUS BARYCENTER"@[0]);
        },
        OrbitBody::Mars => {
            assert(b =~= "MARS BARYCENTER"@);
        },
        OrbitBody::Ceres => {
            assert("CERES"@[0] != "EARTH"@[0] && "CERES"@[0] != "VENUS"@[0]);
        },
        OrbitBody::Vesta => {
            assert("VESTA"@[0] != "EARTH"@[0] && "VESTA"@[2] != "VENUS"@[2]);
        },
        OrbitBody::Jupiter => {
            assert(b =~= "JUPITER BARYCENTER"@);
            assert("JUPITER"@[0] != "MERCURY"@[0]);
            assert("JUPITER BARYCENTER"@[0] != "MERCURY BARYCENTER"@[0]);
        },
        OrbitBody::Saturn => {
            assert(b =~= "SATURN BARYCENTER"@);
            assert("SATURN BARYCENTER"@[0] != "URANUS BARYCENTER"@[0]);
        },
        OrbitBody::Uranus => {
            assert(b =~= "URANUS BARYCENTER"@);
            assert("URANUS"@[0] != "SATURN"@[0]);
        },
        OrbitBody::Neptune => {
            assert(b =~= "NEPTUNE BARYCENTER"@);
            assert("NEPTUNE"@[0] != "MERCURY"@[0] && "NEPTUNE"@[0] != "JUPITER"@[0]);
            assert("NEPTUNE BARYCENTER"@[0] != "MERCURY BARYCENTER"@[0]);
            assert("NEPTUNE BARYCENTER"@[0] != "JUPITER BARYCENTER"@[0]);
        },
        OrbitBody::Pluto => {
            assert(b =~= "PLUTO BARYCENTER"@);
            assert("PLUTO"@[0] != "EARTH"@[0] && "PLUTO"@[0] != "VENUS"@[0]);
            assert("PLUTO"@[0] != "CERES"@[0] && "PLUTO"@[0] != "VESTA"@[0]);
            assert("PLUTO BARYCENTER"@[0] != "VENUS BARYCENTER"@[0]);
            assert("PLUTO BARYCENTER"@[0] != "EARTH BARYCENTER"@[0]);
        },
    }
}

/// The satellites that the fallback model moves about their primary.
#[derive(Clone, Copy, Debug, PartialEq, Eq, Structural)]
pub enum Satellite {
    Moon,
    Charon,
}

/// How the fallback model places a target.
#[derive(Clone, Copy, Debug, PartialEq, Eq, Structural)]
pub enum FallbackModel {
    /// On a small circle about the fallback position of `primary`.
    Satellite { satellite: Satellite, primary: OrbitBody },
    /// On its own fallback orbit.
    Planet(OrbitBody),
    /// At the origin: the target has no fallback orbit.
    AtOrigin,
}

/// The fallback model of a target: the Moon (about the Earth) and Charon
/// (about the Pluto barycenter) in any ASCII case, else its fallback orbit,
/// else the origin.
pub open spec fn fallback_model(target: Seq<char>) -> FallbackModel {
    if eq_ignore_ascii_case(target, "MOON"@) {
        FallbackModel::Satellite { satellite: Satellite::Moon, primary: OrbitBody::Earth }
    } else if eq_ignore_ascii_case(target, "CHARON"@) {
        FallbackModel::Satellite { satellite: Satellite::Charon, primary: OrbitBody::Pluto }
    } else {
        match fallback_orbit(target) {
            Some(body) => FallbackModel::Planet(body),
            None => FallbackModel::AtOrigin,
        }
    }
}

/// The fallback model for a target name.
pub fn fallback_model_for_target(target: &str) -> (m: FallbackModel)
    ensures
        m == fallback_model(target@),
{
    if same_text_ignore_case(target, "MOON") {
        FallbackModel::Satellite { satellite: Satellite::Moon, primary: OrbitBody::Earth }
    } else if same_text_ignore_case(target, "CHARON") {
        FallbackModel::Satellite { satellite: Satellite::Charon, primary: OrbitBody::Pluto }
    } else {
        match orbit_for_target(target) {
            Some(body) => FallbackModel::Planet(body),
            None => FallbackModel::AtOrigin,
        }
    }
}

/// Where the position of a target at a simulated elapsed time comes from.
#[derive(Clone, Copy, Debug, PartialEq, Eq, Structural)]
pub enum PositionSource {
    /// The Sun, at the origin.
    Origin,
    /// The loaded SPICE kernels.
    Spice,
    /// The fallback model at the same elapsed time.
    Fallback(FallbackModel),
}

/// Where the position of a target at a UTC timestamp comes from.
#[derive(Debug, PartialEq, Eq)]
pub enum TimestampSource {
    /// The Sun, at the origin.
    Origin,
    /// The SPICE kernels at the epoch that SPICE reads from `utc`.
    Spice { utc: String },
    /// The fallback model, at the time between the base epoch and the epoch
    /// that SPICE reads from `utc`.
    FallbackSinceBase { utc: String, model: FallbackModel },
    /// The fallback model at elapsed time zero.
    FallbackAtDayZero(FallbackModel),
}

/// The ephemeris state that the position logic reads: whether SPICE kernels
/// are loaded, and the line that reports how the ephemeris was set up.
pub struct SpiceEphemeris {
    spice_enabled: bool,
    status_line: String,
}

/// The status when the build carries no SPICE support.
pub open spec fn status_without_feature() -> Seq<char> {
    "Fallback orbit mode active: app was compiled without the `spice` feature"@
}

/// The status when a required kernel file is missing.
pub open spec fn status_missing_kernels(leap: Seq<char>, planetary: Seq<char>) -> Seq<char> {
    "Fallback orbit mode active: missing kernels. Expected "@ + leap + " and "@ + planetary
}

/// The status when the SPICE lock cannot be taken.
pub open spec fn status_lock_unavailable(error: Seq<char>) -> Seq<char> {
    "Fallback orbit mode active: could not acquire SPICE lock ("@ + error + ")"@
}

/// `, <path>` for a loaded optional kernel, nothing otherwise.
pub open spec fn optional_kernel_note(path: Option<Seq<char>>) -> Seq<char> {
    match path {
        Some(p) => ", "@ + p,
        None => Seq::empty(),
    }
}

/// The status once the kernels are loaded.
pub open spec fn status_loaded(
    leap: Seq<char>,
    planetary: Seq<char>,
    text_pck: Option<Seq<char>>,
    gravity: Option<Seq<char>>,
) -> Seq<char> {
    "SPICE mode active: loaded "@ + leap + ", "@ + planetary + optional_kernel_note(text_pck)
        + optional_kernel_note(gravity)
}

/// The view of an optional text.
pub open spec fn opt_text(t: Option<&str>) -> Option<Seq<char>> {
    match t {
        Some(s) => Some(s@),
        None => None,
    }
}

impl SpiceEphemeris {
    /// Whether SPICE kernels are loaded.
    pub closed spec fn spice_mode(&self) -> bool {
        self.spice_enabled
    }

    /// The status line.
    pub closed spec fn status(&self) -> Seq<char> {
        self.status_line@
    }

    /// The ephemeris of a build without SPICE support: fallback orbits only.
    pub fn new_without_spice() -> (e: Self)
        ensures
            !e.spice_mode(),
            e.status() == status_without_feature(),
    {
        SpiceEphemeris {
            spice_enabled: false,
            status_line: "Fallback orbit mode active: app was compiled without the `spice` feature".to_string(),
        }
    }

    /// Fallback orbits, because the leap-second or planetary kernel file is
    /// missing at the given paths.
    pub fn new_missing_kernels(leap_seconds: &str, planetary: &str) -> (e: Self)
        ensures
            !e.spice_mode(),
            e.status() == status_missing_kernels(leap_seconds@, planetary@),
    {
        let mut line = "Fallback orbit mode active: missing kernels. Expected ".to_string();
        line.append(leap_seconds);
        line.append(" and ");
        line.append(planetary);
        SpiceEphemeris { spice_enabled: false, status_line: line }
    }

    /// Fallback orbits, because the SPICE lock could not be taken.
    pub fn new_lock_unavailable(error: &str) -> (e: Self)
        ensures
            !e.spice_mode(),
            e.status() == status_lock_unavailable(error@),
    {
        let mut line = "Fallback orbit mode active: could not acquire SPICE lock (".to_string();
        line.append(error);
        line.append(")");
        SpiceEphemeris { spice_enabled: false, status_line: line }
    }

    /// SPICE mode, with the required kernels and whichever optional text
    /// PCK and gravity kernels were present loaded.
    pub fn new_spice_loaded(
        leap_seconds: &str,
        planetary: &str,
        text_pck: Option<&str>,
        gravity: Option<&str>,
    ) -> (e: Self)
        ensures
            e.spice_mode(),
            e.status() == status_loaded(leap_seconds@, planetary@, opt_text(text_pck), opt_text(gravity)),
    {
        let mut line = "SPICE mode active: loaded ".to_string();
        line.append(leap_seconds);
        line.append(", ");
        line.append(planetary);
        let ghost base = line@;
        match text_pck {
            Some(p) => {
                line.append(", ");
                line.append(p);
            },
            None => {
                assert(line@ =~= base + optional_kernel_note(None));
            },
        }
        let ghost mid = line@;
        match gravity {
            Some(p) => {
                line.append(", ");
                line.append(p);
            },
            None => {
                assert(line@ =~= mid + optional_kernel_note(None));
            },
        }
        SpiceEphemeris { spice_enabled: true, status_line: line }
    }

    /// The status line.
    pub fn status_line(&self) -> (s: &str)
        ensures
            s@ == self.status(),
    {
        self.status_line.as_str()
    }

    /// Whether SPICE kernels are loaded.
    pub fn is_spice_enabled(&self) -> (b: bool)
        ensures
            b == self.spice_mode(),
    {
        self.spice_enabled
    }

    /// Where the position of `target` at a simulated elapsed time comes
    /// from: the Sun (any ASCII case) is at the origin; SPICE serves its own
    /// targets when kernels are loaded; every other case uses the fallback.
    pub open spec fn source_of(&self, target: Seq<char>) -> PositionSource {
        if eq_ignore_ascii_case(target, "SUN"@) {
            PositionSource::Origin
        } else if self.spice_mode() && spice_target(target) {
            PositionSource::Spice
        } else {
            PositionSource::Fallback(fallback_model(target))
        }
    }

    /// Where the position of `target` at a UTC timestamp comes from. With
    /// kernels loaded, SPICE reads the epoch from the timestamp; targets it
    /// does not serve use the fallback at that epoch. Without kernels the
    /// fallback is taken at elapsed time zero.
    pub open spec fn timestamp_source_of(&self, target: Seq<char>, utc: Seq<char>) -> TimestampSourceView {
        if eq_ignore_ascii_case(target, "SUN"@) {
            TimestampSourceView::Origin
        } else if self.spice_mode() {
            if spice_target(target) {
                TimestampSourceView::Spice { utc: spice_utc_input(utc) }
            } else {
                TimestampSourceView::FallbackSinceBase {
                    utc: spice_utc_input(utc),
                    model: fallback_model(target),
                }
            }
        } else {
            TimestampSourceView::FallbackAtDayZero(fallback_model(target))
        }
    }

    /// The position source for `target` at a simulated elapsed time.
    pub fn position_source(&self, target: &str) -> (s: PositionSource)
        ensures
            s == self.source_of(target@),
    {
        if same_text_ignore_case(target, "SUN") {
            PositionSource::Origin
        } else if self.spice_enabled && spice_supports_target(target) {
            PositionSource::Spice
        } else {
            PositionSource::Fallback(fallback_model_for_target(target))
        }
    }

    /// The position source for `target` at a UTC timestamp.
    pub fn timestamp_source(&self, target: &str, utc_timestamp: &str) -> (s: TimestampSource)
        ensures
            s.view() == self.timestamp_source_of(target@, utc_timestamp@),
    {
        if same_text_ignore_case(target, "SUN") {
            TimestampSource::Origin
        } else if self.spice_enabled {
            let utc = spice_utc_timestamp_input(utc_timestamp);
            if spice_supports_target(target) {
                TimestampSource::Spice { utc }
            } else {
                TimestampSource::FallbackSinceBase { utc, model: fallback_model_for_target(target) }
            }
        } else {
            TimestampSource::FallbackAtDayZero(fallback_model_for_target(target))
        }
    }
}

/// The mathematical form of a [`TimestampSource`].
pub enum TimestampSourceView {
    Origin,
    Spice { utc: Seq<char> },
    FallbackSinceBase { utc: Seq<char>, model: FallbackModel },
    FallbackAtDayZero(FallbackModel),
}

impl View for TimestampSource {
    type V = TimestampSourceView;

    open spec fn view(&self) -> TimestampSourceView {
        match self {
            TimestampSource::Origin => TimestampSourceView::Origin,
            TimestampSource::Spice { utc } => TimestampSourceView::Spice { utc: utc@ },
            TimestampSource::FallbackSinceBase { utc, model } => TimestampSourceView::FallbackSinceBase {
                utc: utc@,
                model: *model,
            },
            TimestampSource::FallbackAtDayZero(m) => TimestampSourceView::FallbackAtDayZero(*m),
        }
    }
}

/// Without SPICE kernels, the source for a timestamp is the source for
/// elapsed time zero: the timestamp plays no part.
pub proof fn lemma_timestamp_source_without_spice(e: &SpiceEphemeris, target: Seq<char>, utc: Seq<char>)
    requires
        !e.spice_mode(),
    ensures
        e.source_of(target) == PositionSource::Origin ==> e.timestamp_source_of(target, utc)
            == TimestampSourceView::Origin,
        forall|m: FallbackModel| e.source_of(target) == PositionSource::Fallback(m)
            ==> e.timestamp_source_of(target, utc) == TimestampSourceView::FallbackAtDayZero(m),
        e.source_of(target) != PositionSource::Spice,
{
}

/// The Sun is at the origin whatever the ephemeris state and the time.
pub proof fn lemma_sun_at_origin(e: &SpiceEphemeris, target: Seq<char>, utc: Seq<char>)
    requires
        eq_ignore_ascii_case(target, "SUN"@),
    ensures
        e.source_of(target) == PositionSource::Origin,
        e.timestamp_source_of(target, utc) == TimestampSourceView::Origin,
{
}

/// SPICE positions are used only for targets SPICE serves, and only with
/// kernels loaded.
pub proof fn lemma_spice_source_only_when_served(e: &SpiceEphemeris, target: Seq<char>)
    ensures
        e.source_of(target) == PositionSource::Spice <==> (e.spice_mode() && spice_target(target)
            && !eq_ignore_ascii_case(target, "SUN"@)),
{
}

} // verus!
