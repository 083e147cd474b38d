use sheets_fdw::error::ScanError;
use sheets_fdw::mapper::{cell_pointer, coerce, project, project_cell, read_scalar, SourceScalar};
use sheets_fdw::schema::{ColumnDescriptor, TargetCell, TargetType};

fn json(text: &str) -> serde_json::Value {
    serde_json::from_str(text).unwrap()
}

fn column(ordinal: u32, name: &str, target: TargetType) -> ColumnDescriptor {
    ColumnDescriptor::new(ordinal, name.to_string(), target)
}

#[test]
fn column_descriptor_keeps_what_it_was_given() {
    let c = column(3, "age", TargetType::Integer);
    assert_eq!(c.ordinal(), 3);
    assert_eq!(c.name(), "age");
    assert_eq!(c.target(), TargetType::Integer);
}

#[test]
fn cell_pointer_counts_cells_from_zero() {
    assert_eq!(cell_pointer(1), "/c/0/v");
    assert_eq!(cell_pointer(2), "/c/1/v");
    assert_eq!(cell_pointer(10), "/c/9/v");
    assert_eq!(cell_pointer(11), "/c/10/v");
    assert_eq!(cell_pointer(101), "/c/100/v");
    assert_eq!(cell_pointer(1235), "/c/1234/v");
    assert_eq!(cell_pointer(u32::MAX), "/c/4294967294/v");
}

#[test]
fn read_scalar_tells_numbers_strings_and_the_rest_apart() {
    assert_eq!(read_scalar(&json("1.5")), SourceScalar::Number(1.5f64.to_bits()));
    assert_eq!(read_scalar(&json("7")), SourceScalar::Number(7.0f64.to_bits()));
    assert_eq!(read_scalar(&json("-7")), SourceScalar::Number((-7.0f64).to_bits()));
    assert_eq!(read_scalar(&json("\"7\"")), SourceScalar::Text("7".to_string()));
    assert_eq!(read_scalar(&json("\"\"")), SourceScalar::Text(String::new()));
    assert_eq!(read_scalar(&json("null")), SourceScalar::Neither);
    assert_eq!(read_scalar(&json("true")), SourceScalar::Neither);
    assert_eq!(read_scalar(&json("[1]")), SourceScalar::Neither);
    assert_eq!(read_scalar(&json("{\"v\":1}")), SourceScalar::Neither);
}

#[test]
fn coerce_to_integer() {
    let c = column(1, "n", TargetType::Integer);
    assert_eq!(
        coerce(SourceScalar::Number(3.9f64.to_bits()), &c),
        Ok(Some(TargetCell::Integer(3)))
    );
    assert_eq!(
        coerce(SourceScalar::Number((-3.9f64).to_bits()), &c),
        Ok(Some(TargetCell::Integer(-3)))
    );
    assert_eq!(coerce(SourceScalar::Text("3".to_string()), &c), Ok(None));
    assert_eq!(coerce(SourceScalar::Neither, &c), Ok(None));
}

#[test]
fn coerce_to_text() {
    let c = column(1, "s", TargetType::Text);
    assert_eq!(
        coerce(SourceScalar::Text("Alice".to_string()), &c),
        Ok(Some(TargetCell::Text("Alice".to_string())))
    );
    assert_eq!(coerce(SourceScalar::Number(1.0f64.to_bits()), &c), Ok(None));
    assert_eq!(coerce(SourceScalar::Neither, &c), Ok(None));
}

#[test]
fn coerce_to_another_type_fails_whatever_the_scalar() {
    let c = column(1, "when", TargetType::Other);
    let expected = Err(ScanError::UnsupportedColumnType("when".to_string()));
    assert_eq!(coerce(SourceScalar::Number(1.0f64.to_bits()), &c), expected);
    assert_eq!(coerce(SourceScalar::Text("x".to_string()), &c), expected);
    assert_eq!(coerce(SourceScalar::Neither, &c), expected);
}

#[test]
fn fractional_numbers_are_truncated_not_rounded() {
    let row = json(r#"{"c":[{"v":3.9},{"v":-3.9},{"v":0.99},{"v":-0.99},{"v":2.5},{"v":1e3}]}"#);
    let columns: Vec<ColumnDescriptor> = (1..=6)
        .map(|n| column(n, "n", TargetType::Integer))
        .collect();
    assert_eq!(
        project(&row, &columns),
        Ok(vec![
            Some(TargetCell::Integer(3)),
            Some(TargetCell::Integer(-3)),
            Some(TargetCell::Integer(0)),
            Some(TargetCell::Integer(0)),
            Some(TargetCell::Integer(2)),
            Some(TargetCell::Integer(1000)),
        ])
    );
}

#[test]
fn integers_beyond_the_range_become_the_nearest_bound() {
    let row = json(r#"{"c":[{"v":18446744073709551615},{"v":1e300},{"v":-1e300},{"v":-9223372036854775808},{"v":9223372036854775807}]}"#);
    let columns: Vec<ColumnDescriptor> = (1..=5)
        .map(|n| column(n, "n", TargetType::Integer))
        .collect();
    assert_eq!(
        project(&row, &columns),
        Ok(vec![
            Some(TargetCell::Integer(i64::MAX)),
            Some(TargetCell::Integer(i64::MAX)),
            Some(TargetCell::Integer(i64::MIN)),
            Some(TargetCell::Integer(i64::MIN)),
            Some(TargetCell::Integer(i64::MAX)),
        ])
    );
}

#[test]
fn absent_cells_are_absent_for_every_type() {
    let rows = [
        json(r#"{"c":[]}"#),
        json(r#"{"c":[null]}"#),
        json(r#"{"c":[{}]}"#),
        json(r#"{"c":[{"f":"1"}]}"#),
        json(r#"{}"#),
        json(r#"{"c":null}"#),
        json(r#"null"#),
        json(r#"[{"v":1}]"#),
    ];
    for row in rows.iter() {
        for target in [TargetType::Integer, TargetType::Text, TargetType::Other] {
            assert_eq!(project_cell(row, &column(1, "a", target)), Ok(None));
            assert_eq!(project(row, &vec![column(1, "a", target)]), Ok(vec![None]));
        }
    }
}

#[test]
fn a_cell_past_the_end_of_the_row_is_absent() {
    let row = json(r#"{"c":[{"v":1},{"v":"x"}]}"#);
    for target in [TargetType::Integer, TargetType::Text, TargetType::Other] {
        assert_eq!(project_cell(&row, &column(3, "a", target)), Ok(None));
        assert_eq!(project_cell(&row, &column(12, "a", target)), Ok(None));
    }
}

#[test]
fn a_null_scalar_is_absent_in_a_supported_column() {
    let row = json(r#"{"c":[{"v":null}]}"#);
    assert_eq!(project_cell(&row, &column(1, "a", TargetType::Integer)), Ok(None));
    assert_eq!(project_cell(&row, &column(1, "a", TargetType::Text)), Ok(None));
}

#[test]
fn a_scalar_of_the_wrong_shape_is_absent_not_an_error() {
    let row = json(r#"{"c":[{"v":"12"},{"v":12},{"v":true},{"v":false},{"v":[1]},{"v":{"v":1}}]}"#);
    let columns = vec![
        column(1, "a", TargetType::Integer),
        column(2, "b", TargetType::Text),
        column(3, "c", TargetType::Integer),
        column(4, "d", TargetType::Text),
        column(5, "e", TargetType::Integer),
        column(6, "f", TargetType::Text),
    ];
    assert_eq!(project(&row, &columns), Ok(vec![None, None, None, None, None, None]));
}

#[test]
fn the_formatted_value_is_not_read() {
    let row = json(r#"{"c":[{"v":1.0,"f":"one"},{"v":"Erlich Bachman","f":"EB"}]}"#);
    let columns = vec![
        column(1, "id", TargetType::Integer),
        column(2, "name", TargetType::Text),
    ];
    assert_eq!(
        project(&row, &columns),
        Ok(vec![
            Some(TargetCell::Integer(1)),
            Some(TargetCell::Text("Erlich Bachman".to_string())),
        ])
    );
}

#[test]
fn columns_read_cells_by_position_not_by_order() {
    let row = json(r#"{"c":[{"v":1},{"v":"two"},null,{"v":4},{"v":"five"}]}"#);
    let columns = vec![
        column(5, "e", TargetType::Text),
        column(1, "a", TargetType::Integer),
        column(3, "c", TargetType::Text),
        column(4, "d", TargetType::Integer),
        column(1, "again", TargetType::Integer),
    ];
    assert_eq!(
        project(&row, &columns),
        Ok(vec![
            Some(TargetCell::Text("five".to_string())),
            Some(TargetCell::Integer(1)),
            None,
            Some(TargetCell::Integer(4)),
            Some(TargetCell::Integer(1)),
        ])
    );
}

#[test]
fn a_cell_at_a_two_digit_index_is_found() {
    let row = json(
        r#"{"c":[{"v":0},{"v":1},{"v":2},{"v":3},{"v":4},{"v":5},{"v":6},{"v":7},{"v":8},{"v":9},{"v":10},{"v":11}]}"#,
    );
    assert_eq!(
        project_cell(&row, &column(11, "k", TargetType::Integer)),
        Ok(Some(TargetCell::Integer(10)))
    );
    assert_eq!(
        project_cell(&row, &column(12, "l", TargetType::Integer)),
        Ok(Some(TargetCell::Integer(11)))
    );
}

#[test]
fn an_unsupported_column_fails_the_row_whatever_the_others_hold() {
    let rows = [
        json(r#"{"c":[{"v":1},{"v":"x"},{"v":2}]}"#),
        json(r#"{"c":[null,{"v":null},null]}"#),
        json(r#"{"c":[{"v":"bad"},{"v":7},{"v":true}]}"#),
    ];
    let columns = vec![
        column(1, "a", TargetType::Integer),
        column(2, "b", TargetType::Other),
        column(3, "c", TargetType::Text),
    ];
    for row in rows.iter() {
        assert_eq!(
            project(row, &columns),
            Err(ScanError::UnsupportedColumnType("b".to_string()))
        );
    }
}

#[test]
fn the_first_unsupported_column_is_the_one_reported() {
    let row = json(r#"{"c":[{"v":1},{"v":2},{"v":3}]}"#);
    let columns = vec![
        column(3, "third", TargetType::Other),
        column(1, "first", TargetType::Other),
        column(2, "second", TargetType::Integer),
    ];
    assert_eq!(
        project(&row, &columns),
        Err(ScanError::UnsupportedColumnType("third".to_string()))
    );
}

#[test]
fn an_unsupported_column_without_a_cell_is_absent() {
    let row = json(r#"{"c":[null,{"v":5}]}"#);
    let columns = vec![
        column(1, "a", TargetType::Other),
        column(2, "b", TargetType::Integer),
    ];
    assert_eq!(
        project(&row, &columns),
        Ok(vec![None, Some(TargetCell::Integer(5))])
    );
}

#[test]
fn no_columns_give_an_empty_row() {
    let row = json(r#"{"c":[{"v":1}]}"#);
    assert_eq!(project(&row, &Vec::new()), Ok(Vec::new()));
}
