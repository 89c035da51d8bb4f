use solar_navigator::horizons::{horizons_query, numeric_field_text, parse_horizons_vector_row_au};

const EPS: f64 = 1e-10;

fn assert_close(actual: f64, expected: f64, epsilon: f64) {
    assert!(
        (actual - expected).abs() <= epsilon,
        "expected {expected}, got {actual} (|delta| = {})",
        (actual - expected).abs()
    );
}

/// Reads the three position fields as numbers, the way the app does.
fn to_au(fields: &[String; 3]) -> Result<[f64; 3], String> {
    let mut out = [0.0; 3];
    for (slot, field) in out.iter_mut().zip(fields.iter()) {
        *slot = numeric_field_text(field)
            .parse::<f64>()
            .map_err(|err| format!("invalid numeric field `{field}`: {err}"))?;
    }
    Ok(out)
}

#[test]
fn parse_horizons_vector_row_au_parses_nominal_csv_row() {
    let raw = "\
*******************************************************************************
$$SOE
2460400.500000000, A.D. 2024-Apr-01 00:00:00.0000, 1.0, -2.5, 3.25,
$$EOE
*******************************************************************************
";

    let fields = parse_horizons_vector_row_au(raw).expect("expected parse success");
    let parsed = to_au(&fields).expect("expected parse success");
    assert_eq!(parsed, [1.0, -2.5, 3.25]);
}

#[test]
fn parse_horizons_vector_row_au_parses_fortran_d_notation() {
    let raw = "\
$$SOE
2460400.500000000, A.D. 2024-Apr-01 00:00:00.0000, 1.234D+00, -5.000D-01, 9.900D+01,
$$EOE
";

    let fields = parse_horizons_vector_row_au(raw).expect("expected parse success");
    let parsed = to_au(&fields).expect("expected parse success");
    assert_close(parsed[0], 1.234, EPS);
    assert_close(parsed[1], -0.5, EPS);
    assert_close(parsed[2], 99.0, EPS);
}

#[test]
fn parse_horizons_vector_row_au_errors_when_data_block_is_missing() {
    let raw = "Horizons response without SOE/EOE markers";
    let err = parse_horizons_vector_row_au(raw).expect_err("expected parse failure");
    assert!(err.contains("missing Horizons vector data block"));
}

#[test]
fn parse_horizons_vector_row_au_errors_on_short_data_row() {
    let raw = "\
$$SOE
2460400.500000000, A.D. 2024-Apr-01 00:00:00.0000, 1.0
$$EOE
";
    let err = parse_horizons_vector_row_au(raw).expect_err("expected parse failure");
    assert!(err.contains("unexpected data row"));
}

#[test]
fn parse_returns_raw_position_fields_in_order() {
    let raw = "$$SOE\n1.5, date, 1.0D+00 , -2 ,3,4\n$$EOE\n";
    let fields = parse_horizons_vector_row_au(raw).unwrap();
    assert_eq!(fields, ["1.0D+00".to_string(), "-2".to_string(), "3".to_string()]);
}

#[test]
fn parse_error_messages_are_exact() {
    assert_eq!(
        parse_horizons_vector_row_au("first line\r\nsecond"),
        Err("missing Horizons vector data block (first line)".to_string())
    );
    assert_eq!(
        parse_horizons_vector_row_au(""),
        Err("missing Horizons vector data block (no response body)".to_string())
    );
    assert_eq!(
        parse_horizons_vector_row_au("$$SOE\n  a, ,b,c  \n$$EOE"),
        Err("unexpected data row: a, ,b,c".to_string())
    );
}

#[test]
fn parse_skips_blank_rows_and_stops_at_end_marker() {
    let raw = "$$SOE\n   \n\t\n1,2,3,4,5\n$$EOE";
    assert_eq!(
        parse_horizons_vector_row_au(raw).unwrap(),
        ["3".to_string(), "4".to_string(), "5".to_string()]
    );
    let early_end = "$$EOE\n$$SOE\n1,2,3,4,5\n";
    assert!(parse_horizons_vector_row_au(early_end)
        .unwrap_err()
        .starts_with("missing Horizons vector data block ($$EOE)"));
    let rows_before_block = "1,2,3,4,5\n$$SOE\n6,7,8,9,10\n$$EOE";
    assert_eq!(
        parse_horizons_vector_row_au(rows_before_block).unwrap(),
        ["8".to_string(), "9".to_string(), "10".to_string()]
    );
}

#[test]
fn numeric_field_text_rewrites_fortran_exponent() {
    assert_eq!(numeric_field_text("9.900D+01"), "9.900E+01");
    assert_eq!(numeric_field_text("-1.0"), "-1.0");
}

#[test]
fn horizons_query_quotes_command_and_time() {
    let q = horizons_query("301", "2026-04-19 12:00:00");
    assert_eq!(q.len(), 15);
    assert_eq!(q[0], ("format".to_string(), "text".to_string()));
    assert_eq!(q[4], ("COMMAND".to_string(), "'301'".to_string()));
    assert_eq!(q[5], ("CENTER".to_string(), "'500@10'".to_string()));
    assert_eq!(q[6], ("TLIST".to_string(), "'2026-04-19 12:00:00'".to_string()));
    assert_eq!(q[14], ("VEC_LABELS".to_string(), "NO".to_string()));
}
