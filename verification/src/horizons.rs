//! Reading the vector table of a JPL Horizons text response.
//!
//! A response carries its data rows between a `$$SOE` line and a `$$EOE`
//! line. The first non-empty row after `$$SOE` holds, as comma-separated
//! fields, the Julian date, the calendar date and the X, Y, Z components of
//! the heliocentric position in AU (possibly in Fortran `D` exponent form).

use vstd::prelude::*;
use crate::text::{
    chars_of, lemma_split_on_nonempty, split_chars, split_on, string_of, trim, trim_chars, chars_equal,
};

verus! {

broadcast use vstd::string::group_string_axioms;

/// The fields of a data row: the row split at commas, each piece trimmed,
/// empty pieces dropped.
pub open spec fn row_fields(row: Seq<char>) -> Seq<Seq<char>> {
    kept_fields(split_on(row, ','))
}

/// The trimmed, non-empty pieces among `pieces`, in order.
pub open spec fn kept_fields(pieces: Seq<Seq<char>>) -> Seq<Seq<char>>
    decreases pieces.len(),
{
    if pieces.len() == 0 {
        Seq::empty()
    } else {
        let before = kept_fields(pieces.drop_last());
        let last = trim(pieces.last());
        if last.len() > 0 {
            before.push(last)
        } else {
            before
        }
    }
}

/// The first data row at or after line `i`: lines are taken trimmed; a
/// `$$SOE` line opens the data block, a `$$EOE` line ends the search, and
/// within the block the first non-empty line is the row.
pub open spec fn data_row_from(lines: Seq<Seq<char>>, i: int, in_data: bool) -> Option<Seq<char>>
    decreases lines.len() - i,
{
    if i < 0 || i >= lines.len() {
        None
    } else {
        let t = trim(lines[i]);
        if t == "$$SOE"@ {
            data_row_from(lines, i + 1, true)
        } else if t == "$$EOE"@ {
            None
        } else if !in_data || t.len() == 0 {
            data_row_from(lines, i + 1, in_data)
        } else {
            Some(t)
        }
    }
}

/// The data row of a response, if it has one.
pub open spec fn data_row(raw: Seq<char>) -> Option<Seq<char>> {
    data_row_from(split_on(raw, '\n'), 0, false)
}

/// The first line of `raw` as `str::lines` yields it (a `\r` before the
/// first `\n` is dropped), or `no response body` when `raw` is empty.
pub open spec fn first_line(raw: Seq<char>) -> Seq<char> {
    if raw.len() == 0 {
        "no response body"@
    } else {
        let p = split_on(raw, '\n')[0];
        if p.len() < raw.len() && p.len() > 0 && p.last() == '\r' {
            p.drop_last()
        } else {
            p
        }
    }
}

/// What reading a response gives: the X, Y and Z fields of its data row,
/// or the error message.
pub open spec fn vector_row_result(raw: Seq<char>) -> Result<Seq<Seq<char>>, Seq<char>> {
    match data_row(raw) {
        Some(row) => if row_fields(row).len() >= 5 {
            Ok(row_fields(row).subrange(2, 5))
        } else {
            Err("unexpected data row: "@ + row)
        },
        None => Err("missing Horizons vector data block ("@ + first_line(raw) + ")"@),
    }
}

/// The text of a numeric field with Fortran `D` exponents written as `E`.
pub open spec fn numeric_text(field: Seq<char>) -> Seq<char> {
    field.map_values(|c: char| if c == 'D' { 'E' } else { c })
}

/// The fields of a data row.
fn row_fields_of(row: &Vec<char>) -> (fields: Vec<Vec<char>>)
    ensures
        fields.deep_view() == row_fields(row@),
{
    let pieces = split_chars(row, ',');
    let ghost pv = pieces.deep_view();
    let mut fields: Vec<Vec<char>> = Vec::new();
    let mut i: usize = 0;
    assert(pv.take(0) =~= Seq::<Seq<char>>::empty());
    while i < pieces.len()
        invariant
            pv == pieces.deep_view(),
            pv == split_on(row@, ','),
            i <= pieces.len(),
            fields.deep_view() =~= kept_fields(pv.take(i as int)),
        decreases pieces.len() - i,
    {
        let t = trim_chars(&pieces[i]);
        assert(pv.take((i + 1) as int).drop_last() =~= pv.take(i as int));
        assert(pv[i as int] =~= pieces@[i as int]@);
        if t.len() > 0 {
            let ghost before = fields.deep_view();
            assert(t.deep_view() =~= t@);
            fields.push(t);
            assert(fields.deep_view() =~= before.push(t@));
        }
        i = i + 1;
    }
    assert(pv.take(pieces.len() as int) =~= pv);
    fields
}

/// Finds the data row among the lines of a response.
fn find_data_row(lines: &Vec<Vec<char>>) -> (row: Option<Vec<char>>)
    ensures
        match row {
            Some(r) => data_row_from(lines.deep_view(), 0, false) == Some(r@),
            None => data_row_from(lines.deep_view(), 0, false) is None,
        },
{
    let soe = chars_of("$$SOE");
    let eoe = chars_of("$$EOE");
    let ghost lv = lines.deep_view();
    let mut in_data = false;
    let mut i: usize = 0;
    while i < lines.len()
        invariant
            lv == lines.deep_view(),
            soe@ == "$$SOE"@,
            eoe@ == "$$EOE"@,
            i <= lines.len(),
            data_row_from(lv, 0, false) == data_row_from(lv, i as int, in_data),
        decreases lines.len() - i,
    {
        let t = trim_chars(&lines[i]);
        assert(lv[i as int] =~= lines@[i as int]@);
        if chars_equal(&t, &soe) {
            in_data = true;
        } else if chars_equal(&t, &eoe) {
            return None;
        } else if in_data && t.len() > 0 {
            return Some(t);
        }
        i = i + 1;
    }
    None
}

/// A `String` made of `a` followed by the characters `b`.
fn joined(a: &str, b: &Vec<char>) -> (s: String)
    ensures
        s@ == a@ + b@,
{
    let mut s = a.to_string();
    let tail = string_of(b);
    s.append(tail.as_str());
    s
}

/// Reads the position row of a Horizons vector-table response.
///
/// On success gives the X, Y and Z fields of the first data row between
/// `$$SOE` and `$$EOE`, as text in AU. A row with fewer than five fields
/// gives `unexpected data row: <row>`; a response without a data row gives
/// `missing Horizons vector data block (<first line>)`.
pub fn parse_horizons_vector_row_au(raw: &str) -> (r: Result<[String; 3], String>)
    ensures
        match r {
            Ok(xyz) => vector_row_result(raw@) == Ok::<Seq<Seq<char>>, Seq<char>>(
                seq![xyz[0]@, xyz[1]@, xyz[2]@],
            ),
            Err(msg) => vector_row_result(raw@) == Err::<Seq<Seq<char>>, Seq<char>>(msg@),
        },
{
    let chars = chars_of(raw);
    let lines = split_chars(&chars, '\n');
    proof {
        lemma_split_on_nonempty(chars@, '\n');
    }
    match find_data_row(&lines) {
        Some(row) => {
            let fields = row_fields_of(&row);
            if fields.len() >= 5 {
                let x = string_of(&fields[2]);
                let y = string_of(&fields[3]);
                let z = string_of(&fields[4]);
                proof {
                    let fv = fields.deep_view();
                    assert(fv[2] =~= fields@[2]@);
                    assert(fv[3] =~= fields@[3]@);
                    assert(fv[4] =~= fields@[4]@);
                    assert(fv.subrange(2, 5) =~= seq![x@, y@, z@]);
                }
                Ok([x, y, z])
            } else {
                Err(joined("unexpected data row: ", &row))
            }
        },
        None => {
            let mut line: Vec<char> = Vec::new();
            if chars.len() == 0 {
                let msg = chars_of("no response body");
                line = msg;
            } else {
                let first = &lines[0];
                assert(lines.deep_view()[0] =~= first@);
                let mut k: usize = 0;
                let keep = if first.len() < chars.len() && first.len() > 0 && first[first.len()
                    - 1] == '\r' {
                    first.len() - 1
                } else {
                    first.len()
                };
                while k < keep
                    invariant
                        keep <= first.len(),
                        k <= keep,
                        line@ == first@.take(k as int),
                    decreases keep - k,
                {
                    line.push(first[k]);
                    assert(first@.take(k as int).push(first@[k as int]) =~= first@.take(
                        (k + 1) as int,
                    ));
                    k = k + 1;
                }
                assert(first@.take(first.len() as int) =~= first@);
                assert(first@.take(first.len() - 1) =~= first@.drop_last());
            }
            let mut msg = joined("missing Horizons vector data block (", &line);
            msg.append(")");
            Err(msg)
        },
    }
}

/// The text of a numeric field with each `D` written as `E`, so that a
/// Fortran exponent (`1.5D+00`) reads as a Rust float literal.
pub fn numeric_field_text(field: &str) -> (t: String)
    ensures
        t@ == numeric_text(field@),
{
    let cs = chars_of(field);
    let mut out: Vec<char> = Vec::new();
    let mut i: usize = 0;
    while i < cs.len()
        invariant
            i <= cs.len(),
            out@ =~= numeric_text(cs@.take(i as int)),
        decreases cs.len() - i,
    {
        let c = cs[i];
        out.push(if c == 'D' { 'E' } else { c });
        assert(numeric_text(cs@.take((i + 1) as int)) =~= numeric_text(cs@.take(i as int)).push(
            if c == 'D' { 'E' } else { c },
        ));
        i = i + 1;
    }
    assert(cs@.take(cs.len() as int) =~= cs@);
    string_of(&out)
}


/// The query of a Horizons vector-table request for the body `command` at
/// the UTC time `utc_time`: heliocentric (`500@10`) ecliptic positions in AU,
/// as CSV text without labels, with the command and time quoted.
pub open spec fn horizons_query_spec(command: Seq<char>, utc_time: Seq<char>) -> Seq<(Seq<char>, Seq<char>)> {
    seq![
        ("format"@, "text"@),
        ("MAKE_EPHEM"@, "YES"@),
        ("OBJ_DATA"@, "NO"@),
        ("EPHEM_TYPE"@, "VECTORS"@),
        ("COMMAND"@, "'"@ + command + "'"@),
        ("CENTER"@, "'500@10'"@),
        ("TLIST"@, "'"@ + utc_time + "'"@),
        ("TIME_TYPE"@, "UT"@),
        ("REF_SYSTEM"@, "ICRF"@),
        ("REF_PLANE"@, "ECLIPTIC"@),
        ("OUT_UNITS"@, "AU-D"@),
        ("VEC_CORR"@, "NONE"@),
        ("VEC_TABLE"@, "1"@),
        ("CSV_FORMAT"@, "YES"@),
        ("VEC_LABELS"@, "NO"@),
    ]
}

/// The views of a list of query parameters.
pub open spec fn query_views(q: Seq<(String, String)>) -> Seq<(Seq<char>, Seq<char>)> {
    q.map_values(|p: (String, String)| (p.0@, p.1@))
}

/// A text quoted in single quotes.
fn quoted(text: &str) -> (q: String)
    ensures
        q@ == "'"@ + text@ + "'"@,
{
    let mut q = "'".to_string();
    q.append(text);
    q.append("'");
    q
}

/// Appends one query parameter.
fn push_param(q: &mut Vec<(String, String)>, key: &str, value: String)
    ensures
        query_views(final(q)@) == query_views(old(q)@).push((key@, value@)),
{
    let ghost before = q@;
    q.push((key.to_string(), value));
    assert(query_views(q@) =~= query_views(before).push((key@, value@)));
}

/// The query parameters of the Horizons API request for the position of
/// the body `command` at `utc_time`.
pub fn horizons_query(command: &str, utc_time: &str) -> (q: Vec<(String, String)>)
    ensures
        query_views(q@) == horizons_query_spec(command@, utc_time@),
{
    let mut q: Vec<(String, String)> = Vec::new();
    assert(query_views(q@) =~= Seq::<(Seq<char>, Seq<char>)>::empty());
    push_param(&mut q, "format", "text".to_string());
    push_param(&mut q, "MAKE_EPHEM", "YES".to_string());
    push_param(&mut q, "OBJ_DATA", "NO".to_string());
    push_param(&mut q, "EPHEM_TYPE", "VECTORS".to_string());
    push_param(&mut q, "COMMAND", quoted(command));
    push_param(&mut q, "CENTER", "'500@10'".to_string());
    push_param(&mut q, "TLIST", quoted(utc_time));
    push_param(&mut q, "TIME_TYPE", "UT".to_string());
    push_param(&mut q, "REF_SYSTEM", "ICRF".to_string());
    push_param(&mut q, "REF_PLANE", "ECLIPTIC".to_string());
    push_param(&mut q, "OUT_UNITS", "AU-D".to_string());
    push_param(&mut q, "VEC_CORR", "NONE".to_string());
    push_param(&mut q, "VEC_TABLE", "1".to_string());
    push_param(&mut q, "CSV_FORMAT", "YES".to_string());
    push_param(&mut q, "VEC_LABELS", "NO".to_string());
    assert(query_views(q@) =~= horizons_query_spec(command@, utc_time@));
    q
}

/// Rewriting a numeric field touches nothing but Fortran `D` exponent
/// markers: the length is kept, every `D` becomes `E`, every other
/// character stays where it was, and no `D` is left.
pub proof fn lemma_numeric_text_rewrites_only_d(field: Seq<char>)
    ensures
        numeric_text(field).len() == field.len(),
        forall|i: int| 0 <= i < field.len() && field[i] != 'D' ==> numeric_text(field)[i] == field[i],
        forall|i: int| 0 <= i < field.len() && field[i] == 'D' ==> numeric_text(field)[i] == 'E',
        !numeric_text(field).contains('D'),
{
    let t = numeric_text(field);
    assert forall|i: int| 0 <= i < t.len() implies t[i] != 'D' by {}
}

/// Every query asks for exactly the requested body at exactly the requested
/// UT time, as a heliocentric (`500@10`) ecliptic ICRF vector table in AU
/// and days (the units the row reader assumes), uncorrected, as label-free
/// CSV text without object data; it has these fifteen parameters and names
/// each once.
pub proof fn lemma_query_asks_heliocentric_au_vectors(command: Seq<char>, utc_time: Seq<char>)
    ensures
        horizons_query_spec(command, utc_time).contains(("COMMAND"@, "'"@ + command + "'"@)),
        horizons_query_spec(command, utc_time).contains(("TLIST"@, "'"@ + utc_time + "'"@)),
        horizons_query_spec(command, utc_time).contains(("OUT_UNITS"@, "AU-D"@)),
        horizons_query_spec(command, utc_time).contains(("CENTER"@, "'500@10'"@)),
        horizons_query_spec(command, utc_time).contains(("REF_PLANE"@, "ECLIPTIC"@)),
        horizons_query_spec(command, utc_time).contains(("EPHEM_TYPE"@, "VECTORS"@)),
        horizons_query_spec(command, utc_time).contains(("VEC_TABLE"@, "1"@)),
        horizons_query_spec(command, utc_time).contains(("CSV_FORMAT"@, "YES"@)),
        horizons_query_spec(command, utc_time).contains(("VEC_LABELS"@, "NO"@)),
        horizons_query_spec(command, utc_time).contains(("format"@, "text"@)),
        horizons_query_spec(command, utc_time).contains(("MAKE_EPHEM"@, "YES"@)),
        horizons_query_spec(command, utc_time).contains(("OBJ_DATA"@, "NO"@)),
        horizons_query_spec(command, utc_time).contains(("TIME_TYPE"@, "UT"@)),
        horizons_query_spec(command, utc_time).contains(("REF_SYSTEM"@, "ICRF"@)),
        horizons_query_spec(command, utc_time).contains(("VEC_CORR"@, "NONE"@)),
        horizons_query_spec(command, utc_time).len() == 15,
        forall|i: int, j: int|
            0 <= i < j < horizons_query_spec(command, utc_time).len() ==> (#[trigger] horizons_query_spec(
                command,
                utc_time,
            )[i]).0 != (#[trigger] horizons_query_spec(command, utc_time)[j]).0,
{
    let q = horizons_query_spec(command, utc_time);
    assert(q[4] == ("COMMAND"@, "'"@ + command + "'"@));
    assert(q[6] == ("TLIST"@, "'"@ + utc_time + "'"@));
    assert(q[10] == ("OUT_UNITS"@, "AU-D"@));
    assert(q[5] == ("CENTER"@, "'500@10'"@));
    assert(q[9] == ("REF_PLANE"@, "ECLIPTIC"@));
    assert(q[3] == ("EPHEM_TYPE"@, "VECTORS"@));
    assert(q[12] == ("VEC_TABLE"@, "1"@));
    assert(q[13] == ("CSV_FORMAT"@, "YES"@));
    assert(q[14] == ("VEC_LABELS"@, "NO"@));
    assert(q[0] == ("format"@, "text"@));
    assert(q[1] == ("MAKE_EPHEM"@, "YES"@));
    assert(q[2] == ("OBJ_DATA"@, "NO"@));
    assert(q[7] == ("TIME_TYPE"@, "UT"@));
    assert(q[8] == ("REF_SYSTEM"@, "ICRF"@));
    assert(q[11] == ("VEC_CORR"@, "NONE"@));
    reveal_strlit("format");
    reveal_strlit("MAKE_EPHEM");
    reveal_strlit("OBJ_DATA");
    reveal_strlit("EPHEM_TYPE");
    reveal_strlit("COMMAND");
    reveal_strlit("CENTER");
    reveal_strlit("TLIST");
    reveal_strlit("TIME_TYPE");
    reveal_strlit("REF_SYSTEM");
    reveal_strlit("REF_PLANE");
    reveal_strlit("OUT_UNITS");
    reveal_strlit("VEC_CORR");
    reveal_strlit("VEC_TABLE");
    reveal_strlit("CSV_FORMAT");
    reveal_strlit("VEC_LABELS");
    assert forall|i: int, j: int| 0 <= i < j < q.len() implies (#[trigger] q[i]).0 != (
    #[trigger] q[j]).0 by {
        assert(q[i].0.len() != q[j].0.len() || q[i].0[0] != q[j].0[0] || q[i].0[4] != q[j].0[4]
            || q[i].0[5] != q[j].0[5]);
    }
}

} // verus!
