use querygate::cascade::{assemble_query_result, ProbeOutcome};
use querygate::values::CellValue;

#[test]
fn one_text_one_integer_row_yields_the_uniform_shape() {
    let columns = vec!["col1".to_string(), "col2".to_string()];
    let raw = vec![vec![
        ProbeOutcome::Text("abc".to_string()),
        ProbeOutcome::Int(5),
    ]];
    let r = assemble_query_result(columns, &raw, 12);
    assert_eq!(r.columns, vec!["col1".to_string(), "col2".to_string()]);
    assert_eq!(
        r.rows,
        vec![vec![CellValue::Text("abc".to_string()), CellValue::Int(5)]]
    );
    assert_eq!(r.execution_time_ms, 12);
    assert_eq!(r.affected_rows, 0);
}

#[test]
fn every_row_aligns_with_the_column_list() {
    let columns = vec!["a".to_string(), "b".to_string()];
    let raw = vec![
        vec![ProbeOutcome::Int(1), ProbeOutcome::Null],
        vec![ProbeOutcome::Bool(false), ProbeOutcome::Text("x".to_string())],
    ];
    let r = assemble_query_result(columns, &raw, 0);
    for row in &r.rows {
        assert_eq!(row.len(), r.columns.len());
    }
}

#[test]
fn zero_matching_rows_is_a_success_with_described_columns() {
    let columns = vec!["id".to_string(), "name".to_string()];
    let raw: Vec<Vec<ProbeOutcome>> = Vec::new();
    let r = assemble_query_result(columns, &raw, 3);
    assert_eq!(r.columns.len(), 2);
    assert!(r.rows.is_empty());
    assert_eq!(r.affected_rows, 0);
}

#[test]
fn zero_rows_with_failed_describe_keeps_columns_empty() {
    let columns: Vec<String> = Vec::new();
    let raw: Vec<Vec<ProbeOutcome>> = Vec::new();
    let r = assemble_query_result(columns, &raw, 0);
    assert!(r.columns.is_empty());
    assert!(r.rows.is_empty());
}

#[test]
fn null_integer_cell_decodes_to_explicit_null() {
    let columns = vec!["n".to_string()];
    let raw = vec![vec![ProbeOutcome::Null], vec![ProbeOutcome::Int(0)]];
    let r = assemble_query_result(columns, &raw, 0);
    assert_eq!(r.rows[0][0], CellValue::Null);
    assert_eq!(r.rows[1][0], CellValue::Int(0));
    assert_ne!(r.rows[0][0], r.rows[1][0]);
}
