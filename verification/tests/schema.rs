use paper_index::schema::{has_layout, table_schema, vector_width, Column, ColumnType};

#[test]
fn schema_has_five_required_columns_in_order() {
    let columns = table_schema(384);
    let names: Vec<&str> = columns.iter().map(|c| c.name.as_str()).collect();
    assert_eq!(names, vec!["id", "text", "vector", "chunk_index", "text_length"]);
    let types: Vec<ColumnType> = columns.iter().map(|c| c.data_type).collect();
    assert_eq!(
        types,
        vec![
            ColumnType::Utf8,
            ColumnType::Utf8,
            ColumnType::FloatVector { width: 384 },
            ColumnType::Int32,
            ColumnType::Int32,
        ]
    );
    assert!(columns.iter().all(|c| !c.nullable));
}

#[test]
fn width_is_read_back_from_the_layout() {
    assert_eq!(vector_width(&table_schema(4)), Some(4));
    assert_eq!(vector_width(&table_schema(1)), Some(1));
    assert_eq!(vector_width(&table_schema(2147483647)), Some(2147483647));
}

#[test]
fn any_other_layout_has_no_width() {
    assert_eq!(vector_width(&Vec::new()), None);

    let mut short = table_schema(4);
    short.pop();
    assert_eq!(vector_width(&short), None);

    let mut renamed = table_schema(4);
    renamed[1].name = "body".to_string();
    assert_eq!(vector_width(&renamed), None);

    let mut nullable = table_schema(4);
    nullable[3].nullable = true;
    assert_eq!(vector_width(&nullable), None);

    let mut retyped = table_schema(4);
    retyped[2].data_type = ColumnType::Other;
    assert_eq!(vector_width(&retyped), None);

    let mut zero = table_schema(4);
    zero[2].data_type = ColumnType::FloatVector { width: 0 };
    assert_eq!(vector_width(&zero), None);

    let mut swapped = table_schema(4);
    swapped.swap(3, 4);
    assert_eq!(vector_width(&swapped), None);

    let mut longer = table_schema(4);
    longer.push(Column { name: "extra".to_string(), data_type: ColumnType::Int32, nullable: false });
    assert_eq!(vector_width(&longer), None);
}

#[test]
fn layout_read_back_is_held_against_the_width_written() {
    assert!(has_layout(&table_schema(4), 4));
    assert!(!has_layout(&table_schema(4), 5));
    assert!(!has_layout(&table_schema(4), 0));
    assert!(!has_layout(&Vec::new(), 4));
    let mut nullable = table_schema(4);
    nullable[0].nullable = true;
    assert!(!has_layout(&nullable, 4));
}
