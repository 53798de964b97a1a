use shema::declaration::{
    add_output, annotate, derive_code, describe, error_detail_of, extract_declared_type,
    extract_type_path, extract_type_path_segment, field_of, from_struct, mark, mark_all,
    marks_of, outputs_of, outputs_of_items, table_schema_of, Attribute, DeclaredType, DocValue,
    FieldInput, FieldMarks, Meta, MetaItem, MetaValue, StructInput, TypeArgument, TypeArguments,
    TypePath,
};
use shema::model::{
    Field, FieldFlag, FieldFlagContainer, FieldType, ItemError, Outputs, SchemaError,
    TableSchema, TypeError,
};

fn word(name: &str) -> MetaItem {
    MetaItem { meta: Meta::Path(Some(name.to_owned())), shown: format!("Path({})", name) }
}

fn long_path(shown: &str) -> MetaItem {
    MetaItem { meta: Meta::Path(None), shown: shown.to_owned() }
}

fn name_value(name: &str, value: MetaValue) -> MetaItem {
    MetaItem {
        meta: Meta::NameValue { name: Some(name.to_owned()), value },
        shown: format!("NameValue({})", name),
    }
}

fn rename(value: &str) -> MetaItem {
    name_value("rename", MetaValue::Str(value.to_owned()))
}

fn list(shown: &str) -> MetaItem {
    MetaItem { meta: Meta::List, shown: shown.to_owned() }
}

fn shema(items: Vec<MetaItem>) -> Attribute {
    Attribute::Shema(Ok(items))
}

fn doc(text: &str) -> Attribute {
    Attribute::Doc(DocValue::Str(text.to_owned()))
}

fn type_path(ident: &str, arguments: TypeArguments) -> TypePath {
    TypePath { ident: ident.to_owned(), arguments }
}

fn path(ident: &str) -> DeclaredType {
    DeclaredType::Path(type_path(ident, TypeArguments::Absent))
}

fn angle(arguments: Vec<TypeArgument>) -> TypeArguments {
    TypeArguments::AngleBracketed(arguments)
}

fn option_of(argument: &str) -> DeclaredType {
    DeclaredType::Path(type_path("Option", angle(vec![TypeArgument::Path(argument.to_owned())])))
}

fn field(ident: &str, attrs: Vec<Attribute>, ty: DeclaredType) -> FieldInput {
    FieldInput { ident: Some(ident.to_owned()), attrs, ty, type_text: "Spelled".to_owned() }
}

fn record(attrs: Vec<Attribute>, fields: Vec<FieldInput>) -> StructInput {
    StructInput {
        ident: "LogLine".to_owned(),
        impl_generics: String::new(),
        type_generics: String::new(),
        attrs,
        fields,
    }
}

fn no_marks() -> FieldMarks {
    FieldMarks {
        name: None,
        docstring: String::new(),
        typ_flags: FieldFlagContainer(0),
        type_override: None,
    }
}

fn no_outputs() -> Outputs {
    Outputs {
        firehose_schema: false,
        firehose_parquet_schema: false,
        firehose_partition_code: false,
        parquet_code: false,
    }
}

fn refused(input: &StructInput) -> SchemaError {
    let error = from_struct(input).unwrap_err();
    assert_eq!(table_schema_of(input).err(), Some(error));
    error
}

#[test]
fn type_names_have_their_field_types() {
    let cases = [
        ("bool", FieldType::Boolean),
        ("i8", FieldType::Byte),
        ("i16", FieldType::Short),
        ("i32", FieldType::Integer),
        ("i64", FieldType::Long),
        ("isize", FieldType::Long),
        ("f32", FieldType::Float),
        ("f64", FieldType::Double),
        ("OffsetDateTime", FieldType::TimestampZ),
        ("String", FieldType::String),
        ("str", FieldType::String),
        ("Vec", FieldType::Array),
        ("HashSet", FieldType::Array),
        ("BTreeSet", FieldType::Array),
        ("HashMap", FieldType::Object),
        ("BTreeMap", FieldType::Object),
    ];
    for (ident, typ) in cases {
        assert_eq!(extract_type_path_segment(ident), Ok(typ), "{}", ident);
    }
}

#[test]
fn unsigned_integers_are_refused() {
    for ident in ["u8", "u16", "u32", "u64", "usize"] {
        assert_eq!(extract_type_path_segment(ident), Err(TypeError::Unsigned), "{}", ident);
    }
}

#[test]
fn other_type_names_are_not_recognized() {
    for ident in ["Struct", " BTreeSet", "VecDeque", "Option", "", "Bool", "i128", "string"] {
        assert_eq!(extract_type_path_segment(ident), Err(TypeError::Unrecognized), "{}", ident);
    }
}

#[test]
fn option_makes_the_field_optional() {
    let string = type_path("Option", angle(vec![TypeArgument::Path("String".to_owned())]));
    assert_eq!(extract_type_path(&string, None), Ok((true, FieldType::String)));
    let plain = type_path("i32", TypeArguments::Absent);
    assert_eq!(extract_type_path(&plain, None), Ok((false, FieldType::Integer)));
    let vec = type_path("Vec", angle(vec![TypeArgument::Path("u8".to_owned())]));
    assert_eq!(extract_type_path(&vec, None), Ok((false, FieldType::Array)));
}

#[test]
fn a_given_type_stands_in_place_of_the_declared_one() {
    let unknown = type_path("Struct", TypeArguments::Absent);
    assert_eq!(
        extract_type_path(&unknown, Some(FieldType::Object)),
        Ok((false, FieldType::Object))
    );
    let optional = type_path("Option", TypeArguments::Absent);
    assert_eq!(extract_type_path(&optional, Some(FieldType::Enum)), Ok((true, FieldType::Enum)));
    let unsigned = type_path("u8", TypeArguments::Absent);
    assert_eq!(extract_type_path(&unsigned, Some(FieldType::Enum)), Ok((false, FieldType::Enum)));
}

#[test]
fn option_needs_one_type_path_as_argument() {
    let cases = [
        (TypeArguments::Absent, TypeError::OptionWithoutArgument),
        (angle(vec![]), TypeError::OptionWithoutArgument),
        (TypeArguments::Parenthesized, TypeError::OptionWrongBrackets),
        (angle(vec![TypeArgument::Other]), TypeError::OptionArgumentUnexpected),
        (
            angle(vec![TypeArgument::Path("i8".to_owned()), TypeArgument::Path("i8".to_owned())]),
            TypeError::OptionTooManyArguments,
        ),
        (angle(vec![TypeArgument::Path("u8".to_owned())]), TypeError::Unsigned),
        (angle(vec![TypeArgument::Path("Struct".to_owned())]), TypeError::Unrecognized),
        (angle(vec![TypeArgument::Path("Option".to_owned())]), TypeError::Unrecognized),
    ];
    for (arguments, error) in cases {
        assert_eq!(extract_type_path(&type_path("Option", arguments), None), Err(error));
    }
}

#[test]
fn a_reference_is_read_as_the_type_it_points_to() {
    let reference = DeclaredType::Reference(type_path("str", TypeArguments::Absent));
    assert_eq!(extract_declared_type(&reference, None), Ok((false, FieldType::String)));
    assert_eq!(extract_declared_type(&path("f64"), None), Ok((false, FieldType::Double)));
    assert_eq!(extract_declared_type(&DeclaredType::Other, None), Err(TypeError::NotPath));
    assert_eq!(
        extract_declared_type(&DeclaredType::Other, Some(FieldType::Object)),
        Err(TypeError::NotPath)
    );
}

#[test]
fn outputs_are_named_by_words() {
    let attrs = vec![
        doc("ignored"),
        shema(vec![word("firehose_schema"), word("parquet_code")]),
        Attribute::Other,
        shema(vec![word("firehose_partition_code")]),
    ];
    assert_eq!(
        outputs_of(&attrs),
        Ok(Outputs {
            firehose_schema: true,
            firehose_parquet_schema: false,
            firehose_partition_code: true,
            parquet_code: true,
        })
    );
    assert_eq!(outputs_of(&vec![]), Ok(no_outputs()));
    assert_eq!(
        add_output(no_outputs(), &word("firehose_parquet_schema"), 0, 0),
        Ok(Outputs {
            firehose_schema: false,
            firehose_parquet_schema: true,
            firehose_partition_code: false,
            parquet_code: false,
        })
    );
    assert_eq!(
        outputs_of_items(no_outputs(), &vec![word("parquet_code"), word("parquet_code")], 3),
        Ok(Outputs {
            firehose_schema: false,
            firehose_parquet_schema: false,
            firehose_partition_code: false,
            parquet_code: true,
        })
    );
}

#[test]
fn unknown_outputs_are_refused() {
    let input = record(vec![Attribute::Other, shema(vec![word("parquet_code"), word("index")])], vec![]);
    let error = refused(&input);
    assert_eq!(error, SchemaError::UnknownOutput { attr: 1, item: 1 });
    assert_eq!(describe(&input, &error), "Unknown attribute passed to shema");

    let input = record(vec![shema(vec![long_path("a :: b")])], vec![]);
    assert_eq!(refused(&input), SchemaError::UnknownOutput { attr: 0, item: 0 });

    let input = record(
        vec![shema(vec![name_value("parquet_code", MetaValue::Other)])],
        vec![],
    );
    let error = refused(&input);
    assert_eq!(error, SchemaError::UnexpectedOutputItem { attr: 0, item: 0 });
    assert_eq!(
        describe(&input, &error),
        "Unknown attribute passed to shema: NameValue(parquet_code)"
    );

    let input = record(vec![shema(vec![list("List(x)")])], vec![]);
    let error = refused(&input);
    assert_eq!(error, SchemaError::UnexpectedOutputItem { attr: 0, item: 0 });
    assert_eq!(error_detail_of(&input, &error), "List(x)");
}

#[test]
fn outputs_that_cannot_be_parsed_are_refused() {
    let input = record(
        vec![shema(vec![word("parquet_code")]), Attribute::Shema(Err("expected `,`".to_owned()))],
        vec![field("a", vec![], DeclaredType::Other)],
    );
    let error = refused(&input);
    assert_eq!(error, SchemaError::OutputsNotParsed { attr: 1 });
    assert_eq!(describe(&input, &error), "shema input is not valid: expected `,`");
}

#[test]
fn errors_of_the_record_come_before_those_of_the_fields() {
    let input = record(
        vec![shema(vec![word("nothing")])],
        vec![FieldInput {
            ident: None,
            attrs: vec![],
            ty: path("i8"),
            type_text: "i8".to_owned(),
        }],
    );
    assert_eq!(refused(&input), SchemaError::UnknownOutput { attr: 0, item: 0 });
}

#[test]
fn a_field_without_name_is_refused() {
    let input = record(
        vec![],
        vec![
            field("a", vec![], path("i8")),
            FieldInput {
                ident: None,
                attrs: vec![shema(vec![word("nothing")])],
                ty: DeclaredType::Other,
                type_text: "()".to_owned(),
            },
        ],
    );
    let error = refused(&input);
    assert_eq!(error, SchemaError::MissingFieldName { field: 1 });
    assert_eq!(describe(&input, &error), "Field is missing name");
}

#[test]
fn words_mark_a_field() {
    let marks = mark(no_marks(), &word("json")).unwrap();
    assert_eq!(marks.type_override, Some(FieldType::Object));
    let marks = mark(marks, &word("enumeration")).unwrap();
    assert_eq!(marks.type_override, Some(FieldType::Enum));
    let marks = mark(marks, &word("index")).unwrap();
    assert!(marks.typ_flags.is_type_flag(FieldFlag::Index));
    assert!(!marks.typ_flags.is_type_flag(FieldFlag::FirehoseDateIndex));
    let marks = mark(marks, &word("firehose_date_index")).unwrap();
    assert!(marks.typ_flags.is_type_flag(FieldFlag::Index));
    assert!(marks.typ_flags.is_type_flag(FieldFlag::FirehoseDateIndex));
    assert!(!marks.typ_flags.is_type_flag(FieldFlag::Optional));
    assert_eq!(marks.type_override, Some(FieldType::Enum));
    assert_eq!(marks.name, None);
    assert_eq!(marks.docstring, "");
}

#[test]
fn rename_gives_the_trimmed_name() {
    let marks = mark(no_marks(), &rename("  stroka\t\n")).unwrap();
    assert_eq!(marks.name.as_deref(), Some("stroka"));
    let marks = mark(marks, &rename("other name")).unwrap();
    assert_eq!(marks.name.as_deref(), Some("other name"));
    assert_eq!(mark(no_marks(), &rename("")).err(), Some(ItemError::EmptyRename));
    assert_eq!(mark(no_marks(), &rename(" \u{a0}\t ")).err(), Some(ItemError::EmptyRename));
}

#[test]
fn items_that_mark_nothing_are_refused() {
    assert_eq!(mark(no_marks(), &word("optional")).err(), Some(ItemError::UnexpectedPath));
    assert_eq!(mark(no_marks(), &word("rename")).err(), Some(ItemError::UnexpectedPath));
    assert_eq!(mark(no_marks(), &long_path("a :: json")).err(), Some(ItemError::UnexpectedPath));
    assert_eq!(
        mark(no_marks(), &name_value("rename", MetaValue::Other)).err(),
        Some(ItemError::RenameNotString)
    );
    assert_eq!(
        mark(no_marks(), &name_value("json", MetaValue::Str("x".to_owned()))).err(),
        Some(ItemError::UnexpectedNameValue)
    );
    assert_eq!(mark(no_marks(), &list("index(x)")).err(), Some(ItemError::UnexpectedValue));
}

#[test]
fn errors_of_items_carry_their_place() {
    let items = vec![word("index"), word("json"), word("nothing"), list("x")];
    assert_eq!(
        mark_all(no_marks(), &items, 4, 2).err(),
        Some(SchemaError::Item { field: 4, attr: 2, item: 2, fault: ItemError::UnexpectedPath })
    );
    let input = record(
        vec![],
        vec![
            field("a", vec![], path("i8")),
            field("b", vec![doc("text"), shema(vec![word("index"), list("index(x)")])], path("i8")),
        ],
    );
    let error = refused(&input);
    assert_eq!(
        error,
        SchemaError::Item { field: 1, attr: 1, item: 1, fault: ItemError::UnexpectedValue }
    );
    assert_eq!(describe(&input, &error), "Unexpected value provided to 'shema': index(x)");

    let input = record(vec![], vec![field("a", vec![shema(vec![rename("  ")])], path("i8"))]);
    let error = refused(&input);
    assert_eq!(
        error,
        SchemaError::Item { field: 0, attr: 0, item: 0, fault: ItemError::EmptyRename }
    );
    assert_eq!(describe(&input, &error), "'rename' requires non-empty string");
}

#[test]
fn documentation_is_joined_by_spaces() {
    let attrs = vec![
        doc("First line"),
        Attribute::Other,
        doc("second line"),
        Attribute::Doc(DocValue::Literal),
        doc(""),
        doc("last"),
    ];
    let marks = marks_of(&attrs, 0).unwrap();
    assert_eq!(marks.docstring, "First line second line  last ");
    let made = field_of(&field("a", attrs, path("i8")), 0).unwrap();
    assert_eq!(made.docstring, "First line second line  last");
    assert_eq!(field_of(&field("a", vec![], path("i8")), 0).unwrap().docstring, "");
    let marks = annotate(no_marks(), &doc("x"), 0, 0).unwrap();
    assert_eq!(marks.docstring, "x ");
}

#[test]
fn documentation_that_is_no_literal_is_refused() {
    let input = record(
        vec![],
        vec![field("a", vec![doc("fine"), Attribute::Doc(DocValue::NotLiteral)], path("i8"))],
    );
    let error = refused(&input);
    assert_eq!(error, SchemaError::DocNotLiteral { field: 0, attr: 1 });
    assert_eq!(describe(&input, &error), "Docstring should be literal string");
}

#[test]
fn attributes_that_cannot_be_parsed_are_refused() {
    let input = record(
        vec![],
        vec![field("a", vec![Attribute::Shema(Err("unexpected token".to_owned()))], path("i8"))],
    );
    let error = refused(&input);
    assert_eq!(error, SchemaError::AttributeNotParsed { field: 0, attr: 0 });
    assert_eq!(describe(&input, &error), "'shema' attribute input is not valid: unexpected token");
}

#[test]
fn types_that_are_refused_name_the_field() {
    let input = record(
        vec![],
        vec![field("a", vec![], path("i8")), field("b", vec![], path("Struct"))],
    );
    let error = refused(&input);
    assert_eq!(error, SchemaError::Type { field: 1, error: TypeError::Unrecognized });
    assert_eq!(describe(&input, &error), "Unrecognized type: Struct");

    let input = record(vec![], vec![field("a", vec![], option_of("Inner"))]);
    let error = refused(&input);
    assert_eq!(error, SchemaError::Type { field: 0, error: TypeError::Unrecognized });
    assert_eq!(describe(&input, &error), "Unrecognized type: Inner");

    let input = record(vec![], vec![field("a", vec![], path("u64"))]);
    let error = refused(&input);
    assert_eq!(error, SchemaError::Type { field: 0, error: TypeError::Unsigned });
    assert_eq!(describe(&input, &error), "Unsigned integers are not supported");

    let input = record(vec![], vec![field("a", vec![], DeclaredType::Other)]);
    let error = refused(&input);
    assert_eq!(error, SchemaError::Type { field: 0, error: TypeError::NotPath });
    assert_eq!(describe(&input, &error), "Field type should be type path");
}

#[test]
fn a_date_index_that_is_no_timestamp_is_refused() {
    let input = record(
        vec![shema(vec![word("firehose_schema")])],
        vec![
            field("a", vec![], path("OffsetDateTime")),
            field("b", vec![shema(vec![word("index"), word("firehose_date_index")])], path("i64")),
        ],
    );
    let error = refused(&input);
    assert_eq!(error, SchemaError::DateIndexNotTimestamp { field: 1, typ: FieldType::Long });
    assert_eq!(describe(&input, &error), "Firehose date index should be timestamp but got Long");

    let input = record(
        vec![],
        vec![field(
            "b",
            vec![shema(vec![word("json"), word("firehose_date_index")])],
            path("OffsetDateTime"),
        )],
    );
    assert_eq!(
        refused(&input),
        SchemaError::DateIndexNotTimestamp { field: 0, typ: FieldType::Object }
    );
}

#[test]
fn a_second_date_index_is_refused() {
    let date = || vec![shema(vec![word("firehose_date_index")])];
    let input = record(
        vec![],
        vec![
            field("a", date(), path("OffsetDateTime")),
            field("b", vec![], path("OffsetDateTime")),
            field("c", date(), option_of("OffsetDateTime")),
        ],
    );
    let error = refused(&input);
    assert_eq!(error, SchemaError::SecondDateIndex { field: 2 });
    assert_eq!(describe(&input, &error), "Firehose date index is set on more than one field");
}

#[test]
fn the_first_error_of_a_field_is_reported() {
    let input = record(
        vec![],
        vec![field(
            "a",
            vec![shema(vec![word("firehose_date_index")]), shema(vec![word("nothing")])],
            path("u8"),
        )],
    );
    assert_eq!(
        refused(&input),
        SchemaError::Item { field: 0, attr: 1, item: 0, fault: ItemError::UnexpectedPath }
    );
    let input = record(
        vec![],
        vec![field("a", vec![shema(vec![word("firehose_date_index")])], path("u8"))],
    );
    assert_eq!(refused(&input), SchemaError::Type { field: 0, error: TypeError::Unsigned });
}

#[test]
fn a_field_keeps_its_declared_name_unless_renamed() {
    let made = field_of(&field("r#type", vec![], path("String")), 0).unwrap();
    assert_eq!(made.name, "r#type");
    assert_eq!(made.original_name, "r#type");
    assert_eq!(made.original_type, "Spelled");
    assert_eq!(made.typ, FieldType::String);
    assert_eq!(made.typ_flags.0, 0);
    assert_eq!(made.table_field_name(), "type");

    let made = field_of(
        &field("r#type", vec![shema(vec![rename(" kind "), word("index")])], option_of("i16")),
        3,
    )
    .unwrap();
    assert_eq!(made.name, "kind");
    assert_eq!(made.original_name, "r#type");
    assert_eq!(made.typ, FieldType::Short);
    assert!(made.typ_flags.is_type_flag(FieldFlag::Optional));
    assert!(made.typ_flags.is_type_flag(FieldFlag::Index));
    assert!(!made.typ_flags.is_type_flag(FieldFlag::FirehoseDateIndex));
}

#[test]
fn schema_of_a_declaration_keeps_the_order_of_the_fields() {
    let input = record(
        vec![shema(vec![word("parquet_code")])],
        vec![
            field("b", vec![], path("i8")),
            field("a", vec![shema(vec![word("firehose_date_index")])], path("OffsetDateTime")),
            field("c", vec![], path("bool")),
        ],
    );
    let schema: TableSchema = table_schema_of(&input).unwrap();
    assert_eq!(schema.name, "LogLine");
    let names: Vec<&str> = schema.fields.iter().map(|made: &Field| made.name.as_str()).collect();
    assert_eq!(names, ["b", "a", "c"]);
    assert!(schema.outputs.parquet_code && !schema.outputs.firehose_schema);
    assert_eq!(schema.validate(), Ok(()));
    assert_eq!(schema.index_time_field().map(|found| found.name.as_str()), Some("a"));
}

#[test]
fn derive_code_refuses_a_schema_that_is_not_valid() {
    let mut typ_flags = FieldFlagContainer(0);
    typ_flags.set_type_flag(FieldFlag::FirehoseDateIndex);
    let schema = TableSchema {
        name: "T".to_owned(),
        fields: vec![Field {
            name: "a".to_owned(),
            typ: FieldType::Boolean,
            original_name: "a".to_owned(),
            original_type: "bool".to_owned(),
            typ_flags,
            docstring: String::new(),
        }],
        outputs: no_outputs(),
    };
    assert_eq!(
        derive_code(&schema, "", ""),
        Err(SchemaError::DateIndexNotTimestamp { field: 0, typ: FieldType::Boolean })
    );
}

#[test]
fn derive_code_of_a_table_without_outputs() {
    let schema = TableSchema { name: "HTTPLog".to_owned(), fields: vec![], outputs: no_outputs() };
    assert_eq!(
        derive_code(&schema, "< T : Clone >", "< T >"),
        Ok("impl< T : Clone > HTTPLog< T > {\n    pub const SHEMA_TABLE_NAME: &'static str = \"http_log\";\n}"
            .to_owned())
    );
}

#[test]
fn details_of_errors_without_a_place_are_empty() {
    let input = record(vec![], vec![]);
    for error in [
        SchemaError::OutputsNotParsed { attr: 0 },
        SchemaError::UnexpectedOutputItem { attr: 0, item: 0 },
        SchemaError::AttributeNotParsed { field: 0, attr: 0 },
        SchemaError::Item { field: 0, attr: 0, item: 0, fault: ItemError::UnexpectedValue },
        SchemaError::Type { field: 0, error: TypeError::Unrecognized },
        SchemaError::MissingFieldName { field: 0 },
    ] {
        assert_eq!(error_detail_of(&input, &error), "");
    }
}
