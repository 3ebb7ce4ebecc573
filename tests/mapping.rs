use portfolio_api::json::rows_to_json;
use portfolio_api::query::{query_result, QueryError};
use portfolio_api::row::{column_kind, map_row, map_rows, ColumnKind, Diagnostic, Row};
use portfolio_api::value::{AccessError, Accessor, Date, SqlResult, Tag, Time};

fn date(y: i32, m: u32, d: u32) -> Date {
    Date::new(y, m, d).unwrap()
}

fn sample_row() -> Row {
    let mut row = Row::new();
    row.push("id", "INT4", SqlResult::I32(7));
    row.push("name", "TEXT", SqlResult::String("Echo".to_string()));
    row.push("active", "BOOL", SqlResult::BOOL(true));
    row.push("joined", "DATE", SqlResult::DATE(date(2021, 3, 5)));
    row.push("unknown_col", "XML", SqlResult::UnknownType);
    row
}

#[test]
fn scenario_row_maps_to_json() {
    let mut diags: Vec<Diagnostic> = Vec::new();
    let r = map_row(&sample_row(), &mut diags);
    assert_eq!(
        r.to_json(),
        r#"{"id":7,"name":"Echo","active":true,"joined":"2021-03-05","unknown_col":null}"#
    );
    assert_eq!(diags.len(), 1);
    assert_eq!(diags[0].column, "unknown_col");
    assert_eq!(diags[0].sql_type, "XML");
}

#[test]
fn entries_keep_column_names_and_order() {
    let mut diags: Vec<Diagnostic> = Vec::new();
    let r = map_row(&sample_row(), &mut diags);
    assert_eq!(r.len(), 5);
    let names: Vec<&str> = (0..r.len()).map(|i| r.name(i).as_str()).collect();
    assert_eq!(names, vec!["id", "name", "active", "joined", "unknown_col"]);
    assert_eq!(r.value(0), &SqlResult::I32(7));
    assert_eq!(r.value(1), &SqlResult::String("Echo".to_string()));
    assert_eq!(r.value(2), &SqlResult::BOOL(true));
    assert_eq!(r.value(3), &SqlResult::DATE(date(2021, 3, 5)));
    assert_eq!(r.value(4), &SqlResult::UnknownType);
}

#[test]
fn empty_row_maps_to_empty_object() {
    let mut diags: Vec<Diagnostic> = Vec::new();
    let r = map_row(&Row::new(), &mut diags);
    assert_eq!(r.len(), 0);
    assert_eq!(r.to_json(), "{}");
    assert!(diags.is_empty());
}

#[test]
fn null_columns_map_to_null_whatever_their_type() {
    let mut row = Row::new();
    row.push("a", "INT4", SqlResult::Null);
    row.push("b", "TEXT", SqlResult::Null);
    row.push("c", "JSONB", SqlResult::Null);
    let mut diags: Vec<Diagnostic> = Vec::new();
    let r = map_row(&row, &mut diags);
    for i in 0..3 {
        assert_eq!(r.value(i), &SqlResult::Null);
    }
    assert!(diags.is_empty());
    assert_eq!(r.to_json(), r#"{"a":null,"b":null,"c":null}"#);
}

#[test]
fn integer_round_trips_through_accessor() {
    let mut row = Row::new();
    row.push("n", "INT4", SqlResult::I32(42));
    let mut diags: Vec<Diagnostic> = Vec::new();
    let r = map_row(&row, &mut diags);
    assert_eq!(r.value(0).clone().to_i32(), Ok(42));
}

#[test]
fn every_recognized_type_round_trips() {
    let t = Time::new(8, 15, 30, 0).unwrap();
    let mut row = Row::new();
    row.push("b", "BOOL", SqlResult::BOOL(false));
    row.push("s", "TEXT", SqlResult::String("x y".to_string()));
    row.push("i", "INT4", SqlResult::I32(-3));
    row.push("d", "DATE", SqlResult::DATE(date(1999, 12, 31)));
    row.push("t", "TIME", SqlResult::TIME(t));
    let mut diags: Vec<Diagnostic> = Vec::new();
    let r = map_row(&row, &mut diags);
    assert!(diags.is_empty());
    assert_eq!(r.value(0).clone().to_bool(), Ok(false));
    assert_eq!(r.value(1).clone().to_string(), Ok("x y".to_string()));
    assert_eq!(r.value(2).clone().to_i32(), Ok(-3));
    assert_eq!(r.value(3).clone().to_date(), Ok(date(1999, 12, 31)));
    assert_eq!(r.value(4).clone().to_time(), Ok(t));
}

#[test]
fn unrecognized_type_maps_to_unknown_with_diagnostic() {
    let mut row = Row::new();
    row.push("title", "VARCHAR", SqlResult::String("kept out".to_string()));
    row.push("amount", "NUMERIC", SqlResult::UnknownType);
    let mut diags: Vec<Diagnostic> = Vec::new();
    let r = map_row(&row, &mut diags);
    assert_eq!(r.value(0), &SqlResult::UnknownType);
    assert_eq!(r.value(1), &SqlResult::UnknownType);
    assert_eq!(diags.len(), 2);
    assert_eq!(diags[0].column, "title");
    assert_eq!(diags[0].sql_type, "VARCHAR");
    assert_eq!(diags[1].column, "amount");
    assert_eq!(diags[1].sql_type, "NUMERIC");
}

#[test]
fn value_of_another_type_than_declared_is_unknown() {
    let mut row = Row::new();
    row.push("n", "INT4", SqlResult::String("7".to_string()));
    let mut diags: Vec<Diagnostic> = Vec::new();
    let r = map_row(&row, &mut diags);
    assert_eq!(r.value(0), &SqlResult::UnknownType);
    assert_eq!(diags.len(), 1);
    assert_eq!(diags[0].sql_type, "INT4");
}

#[test]
fn diagnostics_are_appended() {
    let mut diags: Vec<Diagnostic> = vec![Diagnostic {
        column: "earlier".to_string(),
        sql_type: "BYTEA".to_string(),
    }];
    let _ = map_row(&sample_row(), &mut diags);
    assert_eq!(diags.len(), 2);
    assert_eq!(diags[0].column, "earlier");
    assert_eq!(diags[1].column, "unknown_col");
}

#[test]
fn type_table() {
    assert_eq!(column_kind(&"BOOL".to_string()), Some(ColumnKind::Bool));
    assert_eq!(column_kind(&"TEXT".to_string()), Some(ColumnKind::Text));
    assert_eq!(column_kind(&"INT4".to_string()), Some(ColumnKind::Int4));
    assert_eq!(column_kind(&"DATE".to_string()), Some(ColumnKind::Date));
    assert_eq!(column_kind(&"TIME".to_string()), Some(ColumnKind::Time));
    assert_eq!(column_kind(&"INT8".to_string()), None);
    assert_eq!(column_kind(&"bool".to_string()), None);
    assert_eq!(column_kind(&"".to_string()), None);
}

#[test]
fn get_finds_first_column_of_that_name() {
    let mut row = Row::new();
    row.push("x", "INT4", SqlResult::I32(1));
    row.push("y", "INT4", SqlResult::I32(2));
    row.push("x", "INT4", SqlResult::I32(3));
    let mut diags: Vec<Diagnostic> = Vec::new();
    let r = map_row(&row, &mut diags);
    assert_eq!(r.get("x"), Some(&SqlResult::I32(1)));
    assert_eq!(r.get("y"), Some(&SqlResult::I32(2)));
    assert_eq!(r.get("z"), None);
}

#[test]
fn mapping_twice_gives_the_same_result() {
    let row = sample_row();
    let mut d1: Vec<Diagnostic> = Vec::new();
    let mut d2: Vec<Diagnostic> = Vec::new();
    let first = map_row(&row, &mut d1);
    let second = map_row(&row, &mut d2);
    assert_eq!(first.len(), second.len());
    for i in 0..first.len() {
        assert_eq!(first.name(i), second.name(i));
        assert_eq!(first.value(i), second.value(i));
    }
    assert_eq!(first.to_json(), second.to_json());
    assert_eq!(d1.len(), d2.len());
}

#[test]
fn empty_result_set_serializes_to_empty_array() {
    let rows: Vec<Row> = Vec::new();
    let mut diags: Vec<Diagnostic> = Vec::new();
    let results = map_rows(&rows, &mut diags);
    assert!(results.is_empty());
    assert_eq!(rows_to_json(&results), "[]");
}

#[test]
fn rows_keep_their_order() {
    let mut a = Row::new();
    a.push("id", "INT4", SqlResult::I32(1));
    let mut b = Row::new();
    b.push("id", "INT4", SqlResult::I32(2));
    let rows = vec![a, b];
    let mut diags: Vec<Diagnostic> = Vec::new();
    let results = map_rows(&rows, &mut diags);
    assert_eq!(rows_to_json(&results), r#"[{"id":1},{"id":2}]"#);
}

#[test]
fn query_failure_gives_query_failed_and_no_rows() {
    let mut diags: Vec<Diagnostic> = Vec::new();
    let fetched: Result<Vec<Row>, String> = Err("syntax error at or near \"selec\"".to_string());
    let r = query_result(fetched, &mut diags);
    match r {
        Err(QueryError::QueryFailed(e)) => assert_eq!(e, "syntax error at or near \"selec\""),
        Ok(_) => panic!("a failed query gave rows"),
    }
    assert!(diags.is_empty());
}

#[test]
fn query_success_maps_every_row() {
    let mut diags: Vec<Diagnostic> = Vec::new();
    let fetched: Result<Vec<Row>, String> = Ok(vec![sample_row(), Row::new()]);
    match query_result(fetched, &mut diags) {
        Ok(results) => {
            assert_eq!(results.len(), 2);
            assert_eq!(results[0].len(), 5);
            assert_eq!(results[1].len(), 0);
        }
        Err(_) => panic!("rows were dropped"),
    }
    assert_eq!(diags.len(), 1);
}

#[test]
fn text_accessor_on_null_is_empty() {
    assert_eq!(SqlResult::Null.to_string(), Ok(String::new()));
}

#[test]
fn text_accessor_on_boolean_is_type_mismatch() {
    assert_eq!(
        SqlResult::BOOL(true).to_string(),
        Err(AccessError::TypeMismatch { accessor: Accessor::ToString, found: Tag::Bool })
    );
}

#[test]
fn accessors_reject_other_variants() {
    assert_eq!(
        SqlResult::Null.to_i32(),
        Err(AccessError::TypeMismatch { accessor: Accessor::ToI32, found: Tag::Null })
    );
    assert_eq!(
        SqlResult::I32(1).to_bool(),
        Err(AccessError::TypeMismatch { accessor: Accessor::ToBool, found: Tag::I32 })
    );
    assert_eq!(
        SqlResult::String("2021-03-05".to_string()).to_date(),
        Err(AccessError::TypeMismatch { accessor: Accessor::ToDate, found: Tag::String })
    );
    assert_eq!(
        SqlResult::UnknownType.to_time(),
        Err(AccessError::TypeMismatch { accessor: Accessor::ToTime, found: Tag::UnknownType })
    );
    assert_eq!(
        SqlResult::UnknownType.to_string(),
        Err(AccessError::TypeMismatch { accessor: Accessor::ToString, found: Tag::UnknownType })
    );
    assert_eq!(
        SqlResult::DATE(date(2000, 1, 1)).to_i32(),
        Err(AccessError::TypeMismatch { accessor: Accessor::ToI32, found: Tag::Date })
    );
}

#[test]
fn tags() {
    assert_eq!(SqlResult::BOOL(true).tag(), Tag::Bool);
    assert_eq!(SqlResult::String(String::new()).tag(), Tag::String);
    assert_eq!(SqlResult::I32(0).tag(), Tag::I32);
    assert_eq!(SqlResult::Null.tag(), Tag::Null);
    assert_eq!(SqlResult::UnknownType.tag(), Tag::UnknownType);
}
