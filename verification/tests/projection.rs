use query_gateway::projection::{
    Field, FieldValue, ProjectedRow, RawColumn, RawRow, RawValue, project_row, project_rows,
};

fn raw(name: &str, value: RawValue) -> RawColumn {
    RawColumn { name: String::from(name), value }
}

#[test]
fn projects_every_column() {
    let row = RawRow {
        columns: vec![
            raw("a", RawValue::Text(String::from("x"))),
            raw("b", RawValue::Null),
            raw("c", RawValue::Uncoercible),
        ],
    };
    let p = project_row(&row);
    assert_eq!(p.fields.len(), 3);
    assert_eq!(p.fields[0].name, "a");
    assert_eq!(p.fields[0].value, FieldValue::Text(String::from("x")));
    assert_eq!(p.fields[1].name, "b");
    assert_eq!(p.fields[1].value, FieldValue::Null);
    assert_eq!(p.fields[2].name, "c");
    assert_eq!(p.fields[2].value, FieldValue::Null);
}

#[test]
fn keeps_name_collisions() {
    let row = RawRow {
        columns: vec![
            raw("n", RawValue::Text(String::from("1"))),
            raw("n", RawValue::Text(String::from("2"))),
        ],
    };
    let p = project_row(&row);
    assert_eq!(p.fields.len(), 2);
    assert_eq!(p.fields[0].name, "n");
    assert_eq!(p.fields[0].value, FieldValue::Text(String::from("1")));
    assert_eq!(p.fields[1].name, "n");
    assert_eq!(p.fields[1].value, FieldValue::Text(String::from("2")));
}

#[test]
fn empty_row_projects_empty() {
    let p = project_row(&RawRow { columns: vec![] });
    assert_eq!(p.fields.len(), 0);
}

#[test]
fn uncoercible_cell_is_isolated() {
    let rows = vec![
        RawRow {
            columns: vec![
                raw("good", RawValue::Text(String::from("ok"))),
                raw("bad", RawValue::Uncoercible),
            ],
        },
        RawRow { columns: vec![raw("good", RawValue::Text(String::from("still ok")))] },
    ];
    let p: Vec<ProjectedRow> = project_rows(&rows);
    assert_eq!(p.len(), 2);
    assert_eq!(p[0].fields.len(), 2);
    assert_eq!(
        p[0].fields[0],
        Field { name: String::from("good"), value: FieldValue::Text(String::from("ok")) }
    );
    assert_eq!(
        p[0].fields[1],
        Field { name: String::from("bad"), value: FieldValue::Null }
    );
    assert_eq!(p[1].fields.len(), 1);
    assert_eq!(
        p[1].fields[0],
        Field { name: String::from("good"), value: FieldValue::Text(String::from("still ok")) }
    );
}

#[test]
fn projects_rows_in_order() {
    let rows = vec![
        RawRow { columns: vec![raw("k", RawValue::Text(String::from("first")))] },
        RawRow { columns: vec![raw("k", RawValue::Text(String::from("second")))] },
    ];
    let p = project_rows(&rows);
    assert_eq!(p[0].fields[0].value, FieldValue::Text(String::from("first")));
    assert_eq!(p[1].fields[0].value, FieldValue::Text(String::from("second")));
}
