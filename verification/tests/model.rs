use shema::model::{
    Field, FieldFlag, FieldFlagContainer, FieldType, ItemError, Outputs, SchemaError,
    TableSchema, TypeError,
};
use shema::text::{decimal, push_decimal};

fn field(name: &str, typ: FieldType, flags: &[FieldFlag]) -> Field {
    let mut typ_flags = FieldFlagContainer(0);
    for flag in flags {
        typ_flags.set_type_flag(*flag);
    }
    Field {
        name: name.to_owned(),
        typ,
        original_name: name.to_owned(),
        original_type: "T".to_owned(),
        typ_flags,
        docstring: String::new(),
    }
}

fn table(name: &str, fields: Vec<Field>) -> TableSchema {
    TableSchema {
        name: name.to_owned(),
        fields,
        outputs: Outputs {
            firehose_schema: false,
            firehose_parquet_schema: false,
            firehose_partition_code: false,
            parquet_code: false,
        },
    }
}

const ALL_TYPES: [FieldType; 12] = [
    FieldType::Byte,
    FieldType::Short,
    FieldType::Integer,
    FieldType::Long,
    FieldType::Float,
    FieldType::Double,
    FieldType::String,
    FieldType::Boolean,
    FieldType::TimestampZ,
    FieldType::Array,
    FieldType::Object,
    FieldType::Enum,
];

const ALL_FLAGS: [FieldFlag; 3] =
    [FieldFlag::Optional, FieldFlag::Index, FieldFlag::FirehoseDateIndex];

#[test]
fn only_string_is_a_string_type() {
    for typ in ALL_TYPES {
        assert_eq!(typ.is_string_type(), typ == FieldType::String, "{:?}", typ);
    }
}

#[test]
fn type_names_are_the_names_of_the_variants() {
    for typ in ALL_TYPES {
        assert_eq!(typ.name(), format!("{:?}", typ));
    }
}

#[test]
fn flags_have_one_bit_each() {
    assert_eq!(FieldFlag::Optional.bit(), 1);
    assert_eq!(FieldFlag::Index.bit(), 2);
    assert_eq!(FieldFlag::FirehoseDateIndex.bit(), 4);
}

#[test]
fn setting_a_flag_sets_it_and_no_other() {
    for start in 0..=255u8 {
        for flag in ALL_FLAGS {
            let mut flags = FieldFlagContainer(start);
            flags.set_type_flag(flag);
            assert_eq!(flags.0, start | flag.bit());
            for other in ALL_FLAGS {
                let before = FieldFlagContainer(start).is_type_flag(other);
                assert_eq!(flags.is_type_flag(other), other == flag || before);
            }
        }
    }
}

#[test]
fn no_flag_is_set_at_first() {
    for flag in ALL_FLAGS {
        assert!(!FieldFlagContainer(0).is_type_flag(flag));
    }
}

#[test]
fn flags_of_a_field() {
    let plain = field("a", FieldType::Long, &[]);
    assert!(!plain.is_optional() && !plain.is_date_index() && !plain.is_partition_key());
    let key = field("a", FieldType::Long, &[FieldFlag::Index, FieldFlag::Optional]);
    assert!(key.is_optional() && !key.is_date_index() && key.is_partition_key());
    let date = field("a", FieldType::TimestampZ, &[FieldFlag::Index, FieldFlag::FirehoseDateIndex]);
    assert!(!date.is_optional() && date.is_date_index() && !date.is_partition_key());
    let date_only = field("a", FieldType::TimestampZ, &[FieldFlag::FirehoseDateIndex]);
    assert!(date_only.is_date_index() && !date_only.is_partition_key());
}

#[test]
fn table_field_name_drops_the_raw_prefix() {
    let cases = [
        ("r#client_id", "client_id"),
        ("client_id", "client_id"),
        ("r#", ""),
        ("r", "r"),
        ("#r", "#r"),
        ("xr#a", "xr#a"),
        ("r#r#a", "r#a"),
        ("", ""),
    ];
    for (name, expected) in cases {
        assert_eq!(field(name, FieldType::Long, &[]).table_field_name(), expected);
    }
}

#[test]
fn table_name_is_the_record_name_in_snake_case() {
    assert_eq!(table("AnalyticsEvent", vec![]).lower_cased_table_name(), "analytics_event");
    assert_eq!(table("HTTPLog", vec![]).lower_cased_table_name(), "http_log");
}

#[test]
fn index_time_field_is_the_first_date_index() {
    let date = &[FieldFlag::FirehoseDateIndex];
    let none = table("T", vec![field("a", FieldType::Long, &[FieldFlag::Index])]);
    assert!(none.index_time_field().is_none());
    assert!(table("T", vec![]).index_time_field().is_none());
    let one = table(
        "T",
        vec![field("a", FieldType::Long, &[]), field("b", FieldType::TimestampZ, date)],
    );
    assert_eq!(one.index_time_field().map(|found| found.name.as_str()), Some("b"));
    let two = table(
        "T",
        vec![field("a", FieldType::TimestampZ, date), field("b", FieldType::TimestampZ, date)],
    );
    assert_eq!(two.index_time_field().map(|found| found.name.as_str()), Some("a"));
}

#[test]
fn validate_accepts_at_most_one_date_index_that_is_a_timestamp() {
    let date = &[FieldFlag::FirehoseDateIndex];
    assert_eq!(table("T", vec![]).validate(), Ok(()));
    assert_eq!(table("T", vec![field("a", FieldType::Long, &[FieldFlag::Index])]).validate(), Ok(()));
    assert_eq!(table("T", vec![field("a", FieldType::TimestampZ, date)]).validate(), Ok(()));
    assert_eq!(
        table(
            "T",
            vec![field("a", FieldType::TimestampZ, &[]), field("b", FieldType::TimestampZ, date)]
        )
        .validate(),
        Ok(())
    );
}

#[test]
fn validate_refuses_a_date_index_that_is_no_timestamp() {
    let date = &[FieldFlag::FirehoseDateIndex];
    for typ in ALL_TYPES {
        let schema = table("T", vec![field("a", FieldType::Long, &[]), field("b", typ, date)]);
        if typ == FieldType::TimestampZ {
            assert_eq!(schema.validate(), Ok(()));
        } else {
            assert_eq!(
                schema.validate(),
                Err(SchemaError::DateIndexNotTimestamp { field: 1, typ })
            );
        }
    }
}

#[test]
fn validate_refuses_a_second_date_index() {
    let date = &[FieldFlag::FirehoseDateIndex];
    let schema = table(
        "T",
        vec![
            field("a", FieldType::TimestampZ, date),
            field("b", FieldType::Long, &[]),
            field("c", FieldType::TimestampZ, date),
        ],
    );
    assert_eq!(schema.validate(), Err(SchemaError::SecondDateIndex { field: 2 }));
}

#[test]
fn validate_reports_the_first_fault() {
    let date = &[FieldFlag::FirehoseDateIndex];
    let schema = table(
        "T",
        vec![
            field("a", FieldType::TimestampZ, date),
            field("b", FieldType::TimestampZ, date),
            field("c", FieldType::Long, date),
        ],
    );
    assert_eq!(schema.validate(), Err(SchemaError::SecondDateIndex { field: 1 }));
    let schema = table(
        "T",
        vec![field("a", FieldType::Long, date), field("b", FieldType::TimestampZ, date)],
    );
    assert_eq!(
        schema.validate(),
        Err(SchemaError::DateIndexNotTimestamp { field: 0, typ: FieldType::Long })
    );
}

#[test]
fn numbers_in_decimal_digits() {
    assert_eq!(decimal(0), "0");
    assert_eq!(decimal(7), "7");
    assert_eq!(decimal(10), "10");
    assert_eq!(decimal(1234567890), "1234567890");
    assert_eq!(decimal(u128::MAX), u128::MAX.to_string());
    let mut out = "n=".to_owned();
    push_decimal(&mut out, 305);
    assert_eq!(out, "n=305");
}

#[test]
fn messages_of_the_errors() {
    let cases = [
        (SchemaError::OutputsNotParsed { attr: 0 }, "shema input is not valid: <detail>"),
        (SchemaError::UnknownOutput { attr: 0, item: 0 }, "Unknown attribute passed to shema"),
        (
            SchemaError::UnexpectedOutputItem { attr: 0, item: 0 },
            "Unknown attribute passed to shema: <detail>",
        ),
        (SchemaError::MissingFieldName { field: 0 }, "Field is missing name"),
        (SchemaError::DocNotLiteral { field: 0, attr: 0 }, "Docstring should be literal string"),
        (
            SchemaError::AttributeNotParsed { field: 0, attr: 0 },
            "'shema' attribute input is not valid: <detail>",
        ),
        (
            SchemaError::Item { field: 0, attr: 0, item: 0, fault: ItemError::UnexpectedPath },
            "Unexpected path attribute specified for 'shema'. Allowed: json, enumeration, index",
        ),
        (
            SchemaError::Item { field: 0, attr: 0, item: 0, fault: ItemError::RenameNotString },
            "'rename' should be literal string",
        ),
        (
            SchemaError::Item { field: 0, attr: 0, item: 0, fault: ItemError::EmptyRename },
            "'rename' requires non-empty string",
        ),
        (
            SchemaError::Item { field: 0, attr: 0, item: 0, fault: ItemError::UnexpectedNameValue },
            "Unexpected name value attribute specified for 'shema'. Allowed: rename",
        ),
        (
            SchemaError::Item { field: 0, attr: 0, item: 0, fault: ItemError::UnexpectedValue },
            "Unexpected value provided to 'shema': <detail>",
        ),
        (
            SchemaError::Type { field: 0, error: TypeError::Unsigned },
            "Unsigned integers are not supported",
        ),
        (
            SchemaError::Type { field: 0, error: TypeError::Unrecognized },
            "Unrecognized type: <detail>",
        ),
        (
            SchemaError::Type { field: 0, error: TypeError::OptionWithoutArgument },
            "Option without type argument. Fix it",
        ),
        (
            SchemaError::Type { field: 0, error: TypeError::OptionArgumentUnexpected },
            "Option should have type argument, but got something unexpected. Fix it",
        ),
        (
            SchemaError::Type { field: 0, error: TypeError::OptionTooManyArguments },
            "Option has too many type arguments. Fix it",
        ),
        (
            SchemaError::Type { field: 0, error: TypeError::OptionWrongBrackets },
            "You got wrong brackets for your Option. Fix it",
        ),
        (
            SchemaError::Type { field: 0, error: TypeError::NotPath },
            "Field type should be type path",
        ),
        (
            SchemaError::DateIndexNotTimestamp { field: 0, typ: FieldType::Integer },
            "Firehose date index should be timestamp but got Integer",
        ),
        (
            SchemaError::SecondDateIndex { field: 1 },
            "Firehose date index is set on more than one field",
        ),
    ];
    for (error, expected) in cases {
        assert_eq!(error.message("<detail>"), expected, "{:?}", error);
    }
}
