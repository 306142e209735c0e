use turso_mappers::build_mapping_plan;
use turso_mappers::map_rows;
use turso_mappers::map_rows_as;
use turso_mappers::ColumnIndices;
use turso_mappers::FieldDef;
use turso_mappers::FieldValue;
use turso_mappers::MappingPlan;
use turso_mappers::Row;
use turso_mappers::TryFromRowByIndex;
use turso_mappers::TursoMapperError;
use turso_mappers::TursoMapperResult;
use turso_mappers::TypeExpr;
use turso_mappers::Value;

fn path(head: &str) -> TypeExpr {
    TypeExpr::Path { head: head.to_string(), args: vec![] }
}

fn path_of(head: &str, inner: &str) -> TypeExpr {
    TypeExpr::Path { head: head.to_string(), args: vec![path(inner)] }
}

fn field(name: &str, ty: TypeExpr) -> FieldDef {
    FieldDef { name: name.to_string(), ty }
}

fn customer_plan() -> MappingPlan {
    build_mapping_plan(&vec![
        field("id", path("i64")),
        field("name", path("String")),
        field("value", path("f64")),
        field("image", path_of("Vec", "u8")),
    ])
    .expect("every customer field is a supported kind")
}

fn customer_rows() -> Vec<Row> {
    vec![
        Row::from_values(vec![
            Value::Integer(1),
            Value::Text("Charlie".to_string()),
            Value::Real(3.12f64.to_bits()),
            Value::Blob(vec![0, 1, 2, 3]),
        ]),
        Row::from_values(vec![
            Value::Integer(2),
            Value::Text("Sarah".to_string()),
            Value::Real(0.99f64.to_bits()),
            Value::Blob(vec![9, 8, 7, 6]),
        ]),
    ]
}

struct CustomerWithManualTryFromRow {
    id: i64,
    name: String,
    value: f64,
    image: Vec<u8>,
}

impl TryFromRowByIndex for CustomerWithManualTryFromRow {
    fn try_from_row(row: &Row) -> TursoMapperResult<Self> {
        Ok(CustomerWithManualTryFromRow {
            id: row
                .get_value(0)?
                .as_integer()
                .ok_or_else(|| TursoMapperError::ConversionError("id is not an integer".to_string()))?,
            name: row
                .get_value(1)?
                .as_text()
                .ok_or_else(|| TursoMapperError::ConversionError("name is not a string".to_string()))?,
            value: f64::from_bits(
                row.get_value(2)?
                    .as_real()
                    .ok_or_else(|| TursoMapperError::ConversionError("value is not a real".to_string()))?,
            ),
            image: row
                .get_value(3)?
                .as_blob()
                .ok_or_else(|| TursoMapperError::ConversionError("image is not a blob".to_string()))?,
        })
    }
}

#[test]
fn can_get_values_using_map() {
    let rows = customer_rows();

    let customer_names = map_rows(&rows, |row: &Row| {
        row.get_value(1)?
            .as_text()
            .ok_or_else(|| TursoMapperError::ConversionError("name is not a string".to_string()))
    })
    .unwrap();

    assert_eq!(customer_names.len(), 2);

    assert_eq!(customer_names[0], "Charlie");
    assert_eq!(customer_names[1], "Sarah");
}

#[test]
fn can_get_values_using_map_with_names() {
    let rows = customer_rows();

    let column_indices = ColumnIndices::new(vec![
        "id".to_string(),
        "name".to_string(),
        "value".to_string(),
        "image".to_string(),
    ]);
    let name_column_index = column_indices.get_index("name").unwrap();

    let customer_names = map_rows(&rows, |row: &Row| {
        row.get_value(name_column_index)?
            .as_text()
            .ok_or_else(|| TursoMapperError::ConversionError("name is not a string".to_string()))
    })
    .unwrap();

    assert_eq!(customer_names.len(), 2);

    assert_eq!(customer_names[0], "Charlie");
    assert_eq!(customer_names[1], "Sarah");
}

#[test]
fn manual_try_from_row_impl_works() {
    let row = Row::from_values(vec![
        Value::Integer(1),
        Value::Text("Charlie".to_string()),
        Value::Real(3.12f64.to_bits()),
        Value::Blob(vec![1, 2, 3]),
    ]);

    let customer = CustomerWithManualTryFromRow::try_from_row(&row).unwrap();

    assert_eq!(customer.id, 1);
    assert_eq!(customer.name, "Charlie");
    assert_eq!(customer.value, 3.12);
    assert_eq!(customer.image, vec![1, 2, 3]);
}

#[test]
fn derive_macro_try_from_row_impl_works() {
    let row = Row::from_values(vec![
        Value::Integer(1),
        Value::Text("Charlie".to_string()),
        Value::Real(3.12f64.to_bits()),
        Value::Blob(vec![1, 2, 3]),
    ]);

    let customer = customer_plan().try_from_row(&row).unwrap();

    assert_eq!(customer[0], FieldValue::Integer64(1));
    assert_eq!(customer[1], FieldValue::Text("Charlie".to_string()));
    assert_eq!(customer[2], FieldValue::Real64(3.12f64.to_bits()));
    assert_eq!(customer[3], FieldValue::Blob(vec![1, 2, 3]));
}

#[test]
fn end_to_end_test_with_map_rows_and_try_from_row() {
    let rows = customer_rows();

    let customers: Vec<CustomerWithManualTryFromRow> = map_rows_as(&rows).unwrap();

    assert_eq!(customers.len(), 2);

    assert_eq!(customers[0].id, 1);
    assert_eq!(customers[0].name, "Charlie");
    assert_eq!(customers[0].value, 3.12);
    assert_eq!(customers[0].image, vec![0, 1, 2, 3]);

    assert_eq!(customers[1].id, 2);
    assert_eq!(customers[1].name, "Sarah");
    assert_eq!(customers[1].value, 0.99);
    assert_eq!(customers[1].image, vec![9, 8, 7, 6]);
}

#[test]
fn end_to_end_test_with_generated_plan() {
    let rows = customer_rows();
    let plan = customer_plan();

    let customers = map_rows(&rows, |row: &Row| plan.try_from_row(row)).unwrap();

    assert_eq!(customers.len(), 2);

    assert_eq!(customers[0][0], FieldValue::Integer64(1));
    assert_eq!(customers[0][1], FieldValue::Text("Charlie".to_string()));
    assert_eq!(customers[0][2], FieldValue::Real64(3.12f64.to_bits()));
    assert_eq!(customers[0][3], FieldValue::Blob(vec![0, 1, 2, 3]));

    assert_eq!(customers[1][0], FieldValue::Integer64(2));
    assert_eq!(customers[1][1], FieldValue::Text("Sarah".to_string()));
    assert_eq!(customers[1][2], FieldValue::Real64(0.99f64.to_bits()));
    assert_eq!(customers[1][3], FieldValue::Blob(vec![9, 8, 7, 6]));
}

#[test]
fn option_types_support_works() {
    let plan = build_mapping_plan(&vec![
        field("id", path("i64")),
        field("name", path("String")),
        field("optional_value", path_of("Option", "f64")),
        field("optional_note", path_of("Option", "String")),
        field("optional_data", TypeExpr::Path {
            head: "Option".to_string(),
            args: vec![path_of("Vec", "u8")],
        }),
        field("optional_count", path_of("Option", "i64")),
    ])
    .expect("every optional field wraps a supported kind");

    let row = Row::from_values(vec![
        Value::Integer(1),
        Value::Text("Charlie".to_string()),
        Value::Real(3.12f64.to_bits()),
        Value::Null,
        Value::Blob(vec![1, 2, 3]),
        Value::Null,
    ]);

    let customer = plan.try_from_row(&row).unwrap();

    assert_eq!(customer[0], FieldValue::Integer64(1));
    assert_eq!(customer[1], FieldValue::Text("Charlie".to_string()));
    assert_eq!(customer[2], FieldValue::OptionalReal64(Some(3.12f64.to_bits())));
    assert_eq!(customer[3], FieldValue::OptionalText(None));
    assert_eq!(customer[4], FieldValue::OptionalBlob(Some(vec![1, 2, 3])));
    assert_eq!(customer[5], FieldValue::OptionalInteger64(None));

    let row = Row::from_values(vec![
        Value::Integer(2),
        Value::Text("Sarah".to_string()),
        Value::Real(0.99f64.to_bits()),
        Value::Text("Some note".to_string()),
        Value::Blob(vec![9, 8, 7, 6]),
        Value::Integer(42),
    ]);

    let customer = plan.try_from_row(&row).unwrap();

    assert_eq!(customer[0], FieldValue::Integer64(2));
    assert_eq!(customer[1], FieldValue::Text("Sarah".to_string()));
    assert_eq!(customer[2], FieldValue::OptionalReal64(Some(0.99f64.to_bits())));
    assert_eq!(customer[3], FieldValue::OptionalText(Some("Some note".to_string())));
    assert_eq!(customer[4], FieldValue::OptionalBlob(Some(vec![9, 8, 7, 6])));
    assert_eq!(customer[5], FieldValue::OptionalInteger64(Some(42)));
}
