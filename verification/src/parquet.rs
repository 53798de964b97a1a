//! The Parquet side: the physical type of each field type, the message schema
//! that a Firehose stream writes, and source text for a record writer.

use crate::model::{
    lemma_fields_split, lemma_fields_take, payload_fields, variant_name, Field, FieldType,
    FieldView, SchemaError, TableSchema, TableSchemaView,
};
use vstd::prelude::*;

verus! {

/// The physical type that Parquet stores a field type in.
pub open spec fn parquet_physical_type(typ: FieldType) -> Seq<char> {
    match typ {
        FieldType::Byte | FieldType::Short | FieldType::Integer => "INT32"@,
        FieldType::Long => "INT64"@,
        FieldType::Float => "FLOAT"@,
        FieldType::Double => "DOUBLE"@,
        FieldType::String => "BYTE_ARRAY"@,
        FieldType::Boolean => "BOOLEAN"@,
        FieldType::TimestampZ => "INT96"@,
        FieldType::Array | FieldType::Object | FieldType::Enum => "BYTE_ARRAY"@,
    }
}

/// Whether a field type is stored as text: a string, or a value written as JSON.
pub open spec fn parquet_is_utf8(typ: FieldType) -> bool {
    typ is String || typ is Array || typ is Object || typ is Enum
}

impl FieldType {
    /// Whether the column is annotated as UTF8.
    pub fn is_aws_firehose_parquet_utf8_converted(&self) -> (utf8: bool)
        ensures
            utf8 == parquet_is_utf8(*self),
    {
        matches!(self, FieldType::String | FieldType::Array | FieldType::Object | FieldType::Enum)
    }

    /// The physical type of the column. A timestamp is an INT96, as the Hive
    /// serializer of Firehose writes it.
    pub fn aws_firehose_parquet(&self) -> (name: &'static str)
        ensures
            name@ == parquet_physical_type(*self),
    {
        match self {
            Self::Byte | Self::Short | Self::Integer => "INT32",
            Self::Long => "INT64",
            Self::Float => "FLOAT",
            Self::Double => "DOUBLE",
            Self::String => "BYTE_ARRAY",
            Self::Boolean => "BOOLEAN",
            Self::TimestampZ => "INT96",
            Self::Array | Self::Object | Self::Enum => "BYTE_ARRAY",
        }
    }
}

/// A column is annotated as UTF8 exactly when its physical type is BYTE_ARRAY.
pub proof fn lemma_utf8_iff_byte_array(typ: FieldType)
    ensures
        parquet_is_utf8(typ) <==> parquet_physical_type(typ) == "BYTE_ARRAY"@,
{
    reveal_strlit("INT32");
    reveal_strlit("INT64");
    reveal_strlit("FLOAT");
    reveal_strlit("DOUBLE");
    reveal_strlit("BYTE_ARRAY");
    reveal_strlit("BOOLEAN");
    reveal_strlit("INT96");
    if !parquet_is_utf8(typ) {
        assert(parquet_physical_type(typ).len() != "BYTE_ARRAY"@.len());
    }
}

/// The line of one column in the message schema.
pub open spec fn parquet_column_line(field: FieldView) -> Seq<char> {
    "  "@ + (if field.is_optional() {
        "OPTIONAL "@
    } else {
        "REQUIRED "@
    }) + parquet_physical_type(field.typ) + " "@ + field.table_field_name() + (if parquet_is_utf8(
        field.typ,
    ) {
        " (UTF8)"@
    } else {
        ""@
    }) + ";\n"@
}

/// The lines of the given columns, one after the other.
pub open spec fn parquet_column_lines(columns: Seq<FieldView>) -> Seq<char>
    decreases columns.len(),
{
    if columns.len() == 0 {
        Seq::empty()
    } else {
        parquet_column_lines(columns.drop_last()) + parquet_column_line(columns.last())
    }
}

/// The message schema of a table: one line for each field that is no partition
/// key, in the order of the fields.
pub open spec fn parquet_schema_text(schema: TableSchemaView) -> Seq<char> {
    "message "@ + schema.lower_cased_table_name() + " {\n"@ + parquet_column_lines(
        payload_fields(schema.fields),
    ) + "}"@
}

/// A field that is an index and not the date index has no line in the message
/// schema: no column is a field that is an index and not the date index.
pub proof fn lemma_index_is_no_column(schema: TableSchemaView, at: int)
    requires
        0 <= at < schema.fields.len(),
        schema.fields[at].is_partition_key(),
    ensures
        !payload_fields(schema.fields).contains(schema.fields[at]),
        forall|k: int|
            0 <= k < payload_fields(schema.fields).len() ==> !(#[trigger] payload_fields(
                schema.fields,
            )[k]).is_partition_key(),
{
    let fields = schema.fields;
    let rows = payload_fields(fields);
    lemma_fields_split(fields);
    if rows.contains(fields[at]) {
        let k = choose|k: int| 0 <= k < rows.len() && rows[k] == fields[at];
        assert(!rows[k].is_partition_key());
    }
}

/// No column of the message schema has the name of a field that is an index and
/// not the date index, where no field that is a column shares that name.
pub proof fn lemma_index_name_is_no_column(schema: TableSchemaView, at: int)
    requires
        0 <= at < schema.fields.len(),
        schema.fields[at].is_partition_key(),
        forall|j: int|
            0 <= j < schema.fields.len() && !(#[trigger] schema.fields[j]).is_partition_key()
                ==> schema.fields[j].table_field_name() != schema.fields[at].table_field_name(),
    ensures
        forall|k: int|
            0 <= k < payload_fields(schema.fields).len() ==> (#[trigger] payload_fields(
                schema.fields,
            )[k]).table_field_name() != schema.fields[at].table_field_name(),
{
    let fields = schema.fields;
    let rows = payload_fields(fields);
    lemma_fields_split(fields);
    assert forall|k: int| 0 <= k < rows.len() implies (#[trigger] rows[k]).table_field_name()
        != fields[at].table_field_name() by {
        assert(fields.contains(rows[k]));
        let j = choose|j: int| 0 <= j < fields.len() && fields[j] == rows[k];
        assert(!fields[j].is_partition_key());
    }
}

/// The line of one column in the message schema.
pub fn parquet_column_text(field: &Field) -> (line: String)
    ensures
        line@ == parquet_column_line(field@),
{
    let mut line = "  ".to_owned();
    line.append(if field.is_optional() { "OPTIONAL " } else { "REQUIRED " });
    line.append(field.typ.aws_firehose_parquet());
    line.append(" ");
    line.append(field.table_field_name());
    line.append(if field.typ.is_aws_firehose_parquet_utf8_converted() { " (UTF8)" } else { "" });
    line.append(";\n");
    line
}

/// The message schema of the table.
pub fn parquet_schema_code(schema: &TableSchema) -> (text: String)
    ensures
        text@ == parquet_schema_text(schema@),
{
    let mut lines = String::new();
    let mut i: usize = 0;
    proof {
        lemma_fields_split(schema@.fields);
    }
    while i < schema.fields.len()
        invariant
            i <= schema.fields.len(),
            schema@.fields.len() == schema.fields.len(),
            lines@ == parquet_column_lines(payload_fields(schema@.fields.take(i as int))),
        decreases schema.fields.len() - i,
    {
        let field = &schema.fields[i];
        proof {
            assert(schema@.fields[i as int] == field@);
            lemma_fields_take(schema@.fields, i as int);
            let before = payload_fields(schema@.fields.take(i as int));
            assert(before.push(field@).drop_last() == before);
        }
        if !field.is_partition_key() {
            lines.append(parquet_column_text(field).as_str());
        }
        i += 1;
    }
    assert(schema@.fields.take(i as int) == schema@.fields);
    let mut text = "message ".to_owned();
    text.append(schema.lower_cased_table_name().as_str());
    text.append(" {\n");
    text.append(lines.as_str());
    text.append("}");
    text
}

/// Appends the message schema of the table to `out`, or refuses a schema that
/// is not valid and leaves `out` as it is.
pub fn generate_parquet_schema(schema: &TableSchema, out: &mut String) -> (done: Result<
    (),
    SchemaError,
>)
    ensures
        match done {
            Ok(_) => schema@.fault() is None && final(out)@ == old(out)@ + parquet_schema_text(
                schema@,
            ),
            Err(fault) => schema@.fault() == Some(fault) && final(out)@ == old(out)@,
        },
{
    match schema.validate() {
        Err(fault) => { return Err(fault); },
        Ok(_) => {},
    }
    out.append(parquet_schema_code(schema).as_str());
    Ok(())
}

/// The variant of the column writer that takes the values of a field type.
pub open spec fn column_writer_name(typ: FieldType) -> Seq<char> {
    match typ {
        FieldType::Boolean => "BoolColumnWriter"@,
        FieldType::Byte | FieldType::Short | FieldType::Integer => "Int32ColumnWriter"@,
        FieldType::Long => "Int64ColumnWriter"@,
        FieldType::Float => "FloatColumnWriter"@,
        FieldType::Double => "DoubleColumnWriter"@,
        FieldType::String => "ByteArrayColumnWriter"@,
        FieldType::TimestampZ => "Int96ColumnWriter"@,
        FieldType::Array | FieldType::Object | FieldType::Enum => "ByteArrayColumnWriter"@,
    }
}

/// The lane that the values of a field type are widened to; empty for the types
/// that are not written by a cast.
pub open spec fn lane_name(typ: FieldType) -> Seq<char> {
    match typ {
        FieldType::Boolean => "bool"@,
        FieldType::Byte | FieldType::Short | FieldType::Integer => "i32"@,
        FieldType::Long => "i64"@,
        FieldType::Float => "f32"@,
        FieldType::Double => "f64"@,
        _ => ""@,
    }
}

impl FieldType {
    /// The variant of the column writer that takes the values of the type.
    pub fn column_writer(&self) -> (name: &'static str)
        ensures
            name@ == column_writer_name(*self),
    {
        match self {
            Self::Boolean => "BoolColumnWriter",
            Self::Byte | Self::Short | Self::Integer => "Int32ColumnWriter",
            Self::Long => "Int64ColumnWriter",
            Self::Float => "FloatColumnWriter",
            Self::Double => "DoubleColumnWriter",
            Self::String => "ByteArrayColumnWriter",
            Self::TimestampZ => "Int96ColumnWriter",
            Self::Array | Self::Object | Self::Enum => "ByteArrayColumnWriter",
        }
    }

    /// The lane that the values of the type are widened to.
    pub fn lane(&self) -> (name: &'static str)
        ensures
            name@ == lane_name(*self),
    {
        match self {
            Self::Boolean => "bool",
            Self::Byte | Self::Short | Self::Integer => "i32",
            Self::Long => "i64",
            Self::Float => "f32",
            Self::Double => "f64",
            _ => "",
        }
    }
}

/// The definition levels of a column: 1 for a record that has the value and 0
/// for one that has not, or no levels for a field that is not optional.
pub open spec fn definition_levels_text(field: FieldView) -> Seq<char> {
    if field.is_optional() {
        "let definition_levels = records.iter().map(|rec| if rec."@ + field.original_name
            + ".is_some() { 1 } else { 0 }).collect::<Vec<i16>>();"@
            + "let definition_levels = Some(definition_levels.as_slice());\n"@
    } else {
        "let definition_levels = None::<&[i16]>;\n"@
    }
}

/// The values of a column whose type is written by a cast to `lane`. An
/// optional column holds the values of the records that have one.
pub open spec fn cast_values_text(name: Seq<char>, optional: bool, lane: Seq<char>) -> Seq<char> {
    if optional {
        "\n            let vals = records.iter().filter_map(|rec| rec."@ + name
            + ".map(|field| field as "@ + lane + ")).collect::<Vec<_>>();"@
    } else {
        "\n            let vals = records.iter().map(|rec| rec."@ + name + " as "@ + lane
            + ").collect::<Vec<_>>();"@
    }
}

/// The values of a string column: the bytes of each string.
pub open spec fn string_values_text(name: Seq<char>, optional: bool) -> Seq<char> {
    if optional {
        "\n            let vals = records.iter().filter_map(|rec| rec."@ + name
            + ".as_ref().map(|field| field.as_bytes().into())).collect::<Vec<_>>();"@
    } else {
        "\n            let vals = records.iter().map(|rec| rec."@ + name
            + ".as_bytes().into()).collect::<Vec<_>>();"@
    }
}

/// The statements that write one timestamp as an INT96: the nanoseconds since
/// midnight in two halves of 32 bits, the low one first, then the Julian day.
pub open spec fn int96_timestamp_text() -> Seq<char> {
    "\n                let julian_day = record.to_julian_day() as u32;\n                let time = time::Duration::hours(record.hour() as _) + time::Duration::minutes(record.minute() as _) + time::Duration::seconds(record.second() as _) + time::Duration::nanoseconds(record.nanosecond() as _);\n\n                let time_nanos = time.whole_nanoseconds() as u64;\n                let time_nanos: [u8; 8] = time_nanos.to_le_bytes();\n                let mut timestamp = ::parquet::data_type::Int96::new();\n                timestamp.set_data(\n                    u32::from_ne_bytes([time_nanos[0], time_nanos[1], time_nanos[2], time_nanos[3]]),\n                    u32::from_ne_bytes([time_nanos[4], time_nanos[5], time_nanos[6], time_nanos[7]]),\n                    julian_day.to_le()\n                );\n\n                vals.push(timestamp);\n        "@
}

/// The values of a timestamp column.
pub open spec fn timestamp_values_text(name: Seq<char>, optional: bool) -> Seq<char> {
    if optional {
        "\n            let mut vals = Vec::new();\n            for record in records.iter() {\n                if let Some(record) = record."@
            + name + ".as_ref() {\n                    "@ + int96_timestamp_text()
            + "\n                }\n            }"@
    } else {
        "\n            let mut vals = Vec::new();\n            for record in records.iter() {\n                let record = &record."@
            + name + ";\n                "@ + int96_timestamp_text() + "\n            }"@
    }
}

/// The values of a column that is written as JSON text. A value that cannot be
/// written ends the batch with an error that names the column.
pub open spec fn json_values_text(name: Seq<char>, optional: bool) -> Seq<char> {
    if optional {
        "\n            let mut vals = Vec::new();\n            for record in records.iter() {\n                if let Some(record) = record."@
            + name
            + ".as_ref() {\n                    match serde_json::to_vec(record) {\n                        Ok(rec) => vals.push(rec.into()),\n                        Err(error) => return Err(::parquet::errors::ParquetError::General(format!(\"Column '"@
            + name
            + "' cannot be serialized: {error}\").into()))\n                    }\n                }\n            }"@
    } else {
        "\n            let mut vals = Vec::new();\n            for record in records.iter() {\n                match serde_json::to_vec(&record."@
            + name
            + ") {\n                    Ok(rec) => vals.push(rec.into()),\n                    Err(error) => return Err(::parquet::errors::ParquetError::General(format!(\"Column '"@
            + name + "' cannot be serialized: {error}\").into()))\n                }\n            }"@
    }
}

/// The values of a column.
pub open spec fn values_text(field: FieldView) -> Seq<char> {
    match field.typ {
        FieldType::Boolean => cast_values_text(
            field.original_name,
            field.is_optional(),
            lane_name(field.typ),
        ) + (if field.is_optional() {
            "\n                "@
        } else {
            ""@
        }),
        FieldType::Byte | FieldType::Short | FieldType::Integer | FieldType::Long
        | FieldType::Float | FieldType::Double => cast_values_text(
            field.original_name,
            field.is_optional(),
            lane_name(field.typ),
        ),
        FieldType::String => string_values_text(field.original_name, field.is_optional()),
        FieldType::TimestampZ => timestamp_values_text(field.original_name, field.is_optional()),
        FieldType::Array | FieldType::Object | FieldType::Enum => json_values_text(
            field.original_name,
            field.is_optional(),
        ),
    }
}

/// The statement that names the variant of the column writer that was handed
/// out.
pub open spec fn actual_writer_text() -> Seq<char> {
    "                let actual = match column_writer.untyped() {\n                    ColumnWriter::BoolColumnWriter(_) => \"BoolColumnWriter\",\n                    ColumnWriter::Int32ColumnWriter(_) => \"Int32ColumnWriter\",\n                    ColumnWriter::Int64ColumnWriter(_) => \"Int64ColumnWriter\",\n                    ColumnWriter::Int96ColumnWriter(_) => \"Int96ColumnWriter\",\n                    ColumnWriter::FloatColumnWriter(_) => \"FloatColumnWriter\",\n                    ColumnWriter::DoubleColumnWriter(_) => \"DoubleColumnWriter\",\n                    ColumnWriter::ByteArrayColumnWriter(_) => \"ByteArrayColumnWriter\",\n                    ColumnWriter::FixedLenByteArrayColumnWriter(_) => \"FixedLenByteArrayColumnWriter\",\n                };\n"@
}

/// The statements that hand the values to the column writer. Where the writer
/// is of another variant than the field type expects, they fail with an error
/// that names the column, the field type with the variant it expects, and the
/// variant that was handed out.
pub open spec fn write_batch_text(field: FieldView) -> Seq<char> {
    "\n            if let ColumnWriter::"@ + column_writer_name(field.typ)
        + "(typed) = column_writer.untyped() {\n                typed.write_batch(&vals[..], definition_levels, None)?;\n            } else {\n"@
        + actual_writer_text()
        + "                return Err(::parquet::errors::ParquetError::General(format!(\"Column '"@
        + field.original_name + "' expects "@ + variant_name(field.typ) + " ("@
        + column_writer_name(field.typ) + ") but got {actual}\")));\n            }"@
}

/// The statements that write one column: its definition levels, its values, and
/// the call of the column writer.
pub open spec fn field_writer_text(field: FieldView) -> Seq<char> {
    definition_levels_text(field) + values_text(field) + write_batch_text(field)
}

/// The logical type of a column: a signed integer of the width of the field
/// type, a string for what is stored as text, or none.
pub open spec fn logical_type_text(typ: FieldType) -> Seq<char> {
    match typ {
        FieldType::Byte => "Some(::parquet::basic::LogicalType::Integer { bit_width: 8, is_signed: true })"@,
        FieldType::Short => "Some(::parquet::basic::LogicalType::Integer { bit_width: 16, is_signed: true })"@,
        FieldType::Integer => "Some(::parquet::basic::LogicalType::Integer { bit_width: 32, is_signed: true })"@,
        FieldType::Long => "Some(::parquet::basic::LogicalType::Integer { bit_width: 64, is_signed: true })"@,
        FieldType::Float | FieldType::Double | FieldType::Boolean | FieldType::TimestampZ => "None"@,
        FieldType::String | FieldType::Array | FieldType::Object | FieldType::Enum => "Some(::parquet::basic::LogicalType::String)"@,
    }
}

/// The repetition of a column.
pub open spec fn repetition_text(optional: bool) -> Seq<char> {
    if optional {
        "::parquet::basic::Repetition::OPTIONAL"@
    } else {
        "::parquet::basic::Repetition::REQUIRED"@
    }
}

/// The expression that builds the schema of one column: its name, its physical
/// type, its logical type and its repetition.
pub open spec fn field_schema_text(field: FieldView) -> Seq<char> {
    "::parquet::schema::types::Type::primitive_type_builder(\""@ + field.table_field_name()
        + "\", ::parquet::basic::Type::"@ + parquet_physical_type(field.typ)
        + ").with_logical_type("@ + logical_type_text(field.typ) + ").with_repetition("@
        + repetition_text(field.is_optional()) + ").build().unwrap().into()"@
}

/// The values of a column whose type is written by a cast.
pub fn cast_values(name: &str, optional: bool, lane: &str) -> (text: String)
    ensures
        text@ == cast_values_text(name@, optional, lane@),
{
    if optional {
        let mut text = "\n            let vals = records.iter().filter_map(|rec| rec.".to_owned();
        text.append(name);
        text.append(".map(|field| field as ");
        text.append(lane);
        text.append(")).collect::<Vec<_>>();");
        text
    } else {
        let mut text = "\n            let vals = records.iter().map(|rec| rec.".to_owned();
        text.append(name);
        text.append(" as ");
        text.append(lane);
        text.append(").collect::<Vec<_>>();");
        text
    }
}

/// The values of a string column.
pub fn string_values(name: &str, optional: bool) -> (text: String)
    ensures
        text@ == string_values_text(name@, optional),
{
    if optional {
        let mut text = "\n            let vals = records.iter().filter_map(|rec| rec.".to_owned();
        text.append(name);
        text.append(".as_ref().map(|field| field.as_bytes().into())).collect::<Vec<_>>();");
        text
    } else {
        let mut text = "\n            let vals = records.iter().map(|rec| rec.".to_owned();
        text.append(name);
        text.append(".as_bytes().into()).collect::<Vec<_>>();");
        text
    }
}

/// The statements that write one timestamp as an INT96.
pub fn int96_timestamp() -> (text: &'static str)
    ensures
        text@ == int96_timestamp_text(),
{
    "\n                let julian_day = record.to_julian_day() as u32;\n                let time = time::Duration::hours(record.hour() as _) + time::Duration::minutes(record.minute() as _) + time::Duration::seconds(record.second() as _) + time::Duration::nanoseconds(record.nanosecond() as _);\n\n                let time_nanos = time.whole_nanoseconds() as u64;\n                let time_nanos: [u8; 8] = time_nanos.to_le_bytes();\n                let mut timestamp = ::parquet::data_type::Int96::new();\n                timestamp.set_data(\n                    u32::from_ne_bytes([time_nanos[0], time_nanos[1], time_nanos[2], time_nanos[3]]),\n                    u32::from_ne_bytes([time_nanos[4], time_nanos[5], time_nanos[6], time_nanos[7]]),\n                    julian_day.to_le()\n                );\n\n                vals.push(timestamp);\n        "
}

/// The values of a timestamp column.
pub fn timestamp_values(name: &str, optional: bool) -> (text: String)
    ensures
        text@ == timestamp_values_text(name@, optional),
{
    if optional {
        let mut text =
            "\n            let mut vals = Vec::new();\n            for record in records.iter() {\n                if let Some(record) = record.".to_owned();
        text.append(name);
        text.append(".as_ref() {\n                    ");
        text.append(int96_timestamp());
        text.append("\n                }\n            }");
        text
    } else {
        let mut text =
            "\n            let mut vals = Vec::new();\n            for record in records.iter() {\n                let record = &record.".to_owned();
        text.append(name);
        text.append(";\n                ");
        text.append(int96_timestamp());
        text.append("\n            }");
        text
    }
}

/// The values of a column that is written as JSON text.
pub fn json_values(name: &str, optional: bool) -> (text: String)
    ensures
        text@ == json_values_text(name@, optional),
{
    if optional {
        let mut text =
            "\n            let mut vals = Vec::new();\n            for record in records.iter() {\n                if let Some(record) = record.".to_owned();
        text.append(name);
        text.append(
            ".as_ref() {\n                    match serde_json::to_vec(record) {\n                        Ok(rec) => vals.push(rec.into()),\n                        Err(error) => return Err(::parquet::errors::ParquetError::General(format!(\"Column '",
        );
        text.append(name);
        text.append(
            "' cannot be serialized: {error}\").into()))\n                    }\n                }\n            }",
        );
        text
    } else {
        let mut text =
            "\n            let mut vals = Vec::new();\n            for record in records.iter() {\n                match serde_json::to_vec(&record.".to_owned();
        text.append(name);
        text.append(
            ") {\n                    Ok(rec) => vals.push(rec.into()),\n                    Err(error) => return Err(::parquet::errors::ParquetError::General(format!(\"Column '",
        );
        text.append(name);
        text.append("' cannot be serialized: {error}\").into()))\n                }\n            }");
        text
    }
}

/// The statement that names the variant of the column writer that was handed
/// out.
pub fn actual_writer() -> (text: &'static str)
    ensures
        text@ == actual_writer_text(),
{
    "                let actual = match column_writer.untyped() {\n                    ColumnWriter::BoolColumnWriter(_) => \"BoolColumnWriter\",\n                    ColumnWriter::Int32ColumnWriter(_) => \"Int32ColumnWriter\",\n                    ColumnWriter::Int64ColumnWriter(_) => \"Int64ColumnWriter\",\n                    ColumnWriter::Int96ColumnWriter(_) => \"Int96ColumnWriter\",\n                    ColumnWriter::FloatColumnWriter(_) => \"FloatColumnWriter\",\n                    ColumnWriter::DoubleColumnWriter(_) => \"DoubleColumnWriter\",\n                    ColumnWriter::ByteArrayColumnWriter(_) => \"ByteArrayColumnWriter\",\n                    ColumnWriter::FixedLenByteArrayColumnWriter(_) => \"FixedLenByteArrayColumnWriter\",\n                };\n"
}

/// The statements that write one column of a record batch.
pub struct ParquetFieldWriter<'a>(pub &'a Field);

impl<'a> ParquetFieldWriter<'a> {
    /// The definition levels of the column.
    pub fn definition_levels(&self) -> (text: String)
        ensures
            text@ == definition_levels_text(self.0@),
    {
        if self.0.is_optional() {
            let mut text = "let definition_levels = records.iter().map(|rec| if rec.".to_owned();
            text.append(self.0.original_name.as_str());
            text.append(".is_some() { 1 } else { 0 }).collect::<Vec<i16>>();");
            text.append("let definition_levels = Some(definition_levels.as_slice());\n");
            text
        } else {
            "let definition_levels = None::<&[i16]>;\n".to_owned()
        }
    }

    /// The values of the column.
    pub fn values(&self) -> (text: String)
        ensures
            text@ == values_text(self.0@),
    {
        let name = self.0.original_name.as_str();
        let optional = self.0.is_optional();
        match self.0.typ {
            FieldType::Boolean => {
                let mut text = cast_values(name, optional, self.0.typ.lane());
                text.append(if optional { "\n                " } else { "" });
                text
            },
            FieldType::Byte | FieldType::Short | FieldType::Integer | FieldType::Long
            | FieldType::Float | FieldType::Double => cast_values(
                name,
                optional,
                self.0.typ.lane(),
            ),
            FieldType::String => string_values(name, optional),
            FieldType::TimestampZ => timestamp_values(name, optional),
            FieldType::Array | FieldType::Object | FieldType::Enum => json_values(name, optional),
        }
    }

    /// The call of the column writer.
    pub fn write_batch(&self) -> (text: String)
        ensures
            text@ == write_batch_text(self.0@),
    {
        let mut text = "\n            if let ColumnWriter::".to_owned();
        text.append(self.0.typ.column_writer());
        text.append(
            "(typed) = column_writer.untyped() {\n                typed.write_batch(&vals[..], definition_levels, None)?;\n            } else {\n",
        );
        text.append(actual_writer());
        text.append(
            "                return Err(::parquet::errors::ParquetError::General(format!(\"Column '",
        );
        text.append(self.0.original_name.as_str());
        text.append("' expects ");
        text.append(self.0.typ.name());
        text.append(" (");
        text.append(self.0.typ.column_writer());
        text.append(") but got {actual}\")));\n            }");
        text
    }

    /// Appends the statements that write the column.
    pub fn fmt(&self, out: &mut String)
        ensures
            final(out)@ == old(out)@ + field_writer_text(self.0@),
    {
        out.append(self.to_string().as_str());
    }

    /// The statements that write the column.
    pub fn to_string(&self) -> (text: String)
        ensures
            text@ == field_writer_text(self.0@),
    {
        let mut text = self.definition_levels();
        text.append(self.values().as_str());
        text.append(self.write_batch().as_str());
        text
    }
}

/// The expression that builds the schema of one column.
pub struct ParquetFieldSchema<'a>(pub &'a Field);

impl<'a> ParquetFieldSchema<'a> {
    /// The logical type of the column.
    pub fn logical_type(&self) -> (text: &'static str)
        ensures
            text@ == logical_type_text(self.0.typ),
    {
        match self.0.typ {
            FieldType::Byte => "Some(::parquet::basic::LogicalType::Integer { bit_width: 8, is_signed: true })",
            FieldType::Short => "Some(::parquet::basic::LogicalType::Integer { bit_width: 16, is_signed: true })",
            FieldType::Integer => "Some(::parquet::basic::LogicalType::Integer { bit_width: 32, is_signed: true })",
            FieldType::Long => "Some(::parquet::basic::LogicalType::Integer { bit_width: 64, is_signed: true })",
            FieldType::Float | FieldType::Double | FieldType::Boolean | FieldType::TimestampZ => "None",
            FieldType::String | FieldType::Array | FieldType::Object | FieldType::Enum => "Some(::parquet::basic::LogicalType::String)",
        }
    }

    /// Appends the expression.
    pub fn fmt(&self, out: &mut String)
        ensures
            final(out)@ == old(out)@ + field_schema_text(self.0@),
    {
        out.append(self.to_string().as_str());
    }

    /// The expression.
    pub fn to_string(&self) -> (text: String)
        ensures
            text@ == field_schema_text(self.0@),
    {
        let mut text = "::parquet::schema::types::Type::primitive_type_builder(\"".to_owned();
        text.append(self.0.table_field_name());
        text.append("\", ::parquet::basic::Type::");
        text.append(self.0.typ.aws_firehose_parquet());
        text.append(").with_logical_type(");
        text.append(self.logical_type());
        text.append(").with_repetition(");
        text.append(
            if self.0.is_optional() {
                "::parquet::basic::Repetition::OPTIONAL"
            } else {
                "::parquet::basic::Repetition::REQUIRED"
            },
        );
        text.append(").build().unwrap().into()");
        text
    }
}

/// The block that writes one column: it takes the next column writer, writes
/// the column and closes the writer, or fails where no column writer is left.
pub open spec fn column_block_text(field: FieldView) -> Seq<char> {
    "\n        //write '"@ + field.table_field_name()
        + "' column\n        if let Some(mut column_writer) = row_group_writer.next_column()? {\n            "@
        + field_writer_text(field)
        + "\n            column_writer.close()?;\n        } else {\n            return Err(::parquet::errors::ParquetError::General(\"Failed to get '"@
        + field.table_field_name() + "' column\".into()));\n        }\n        "@ + "\n"@
}

/// The blocks that write the given columns, one after the other.
pub open spec fn column_blocks_text(columns: Seq<FieldView>) -> Seq<char>
    decreases columns.len(),
{
    if columns.len() == 0 {
        Seq::empty()
    } else {
        column_blocks_text(columns.drop_last()) + column_block_text(columns.last())
    }
}

/// The method that writes a batch of records to a row group, column by column.
pub open spec fn write_to_row_group_text(columns: Seq<FieldView>) -> Seq<char> {
    "\n    fn write_to_row_group<W: ::std::io::Write + Send>(&self, row_group_writer: &mut ::parquet::file::writer::SerializedRowGroupWriter<'_, W>) -> ::core::result::Result<(), ::parquet::errors::ParquetError> {\n        use ::parquet::column::writer::ColumnWriter;\n\n        let mut row_group_writer = row_group_writer;\n        let records = &self;\n"@
        + "\n"@ + column_blocks_text(columns) + "\n        Ok(())\n    }"@ + "\n"@
}

/// The statement that adds the schema of one column.
pub open spec fn schema_push_text(field: FieldView) -> Seq<char> {
    "        //write '"@ + field.table_field_name() + "' column\n"@ + "        fields.push("@
        + field_schema_text(field) + ");\n"@
}

/// The statements that add the schemas of the given columns.
pub open spec fn schema_pushes_text(columns: Seq<FieldView>) -> Seq<char>
    decreases columns.len(),
{
    if columns.len() == 0 {
        Seq::empty()
    } else {
        schema_pushes_text(columns.drop_last()) + schema_push_text(columns.last())
    }
}

/// The method that builds the schema of the table named `table` from the
/// schemas of its columns.
pub open spec fn schema_method_text(table: Seq<char>, columns: Seq<FieldView>) -> Seq<char> {
    "    fn schema(&self) -> ::core::result::Result<::parquet::schema::types::TypePtr, ::parquet::errors::ParquetError> {\n"@
        + "        let mut fields = Vec::<::parquet::schema::types::TypePtr>::new();\n\n"@
        + schema_pushes_text(columns)
        + "\n        ::parquet::schema::types::Type::group_type_builder(\""@ + table
        + "\").with_fields(fields).build().map(Into::into)\n"@ + "    }\n"@
}

/// The two methods of a record writer: one writes a batch of records, the other
/// builds the schema. Both go through the fields that are no partition keys, in
/// the order of the fields.
pub open spec fn writer_interface_text(schema: TableSchemaView) -> Seq<char> {
    write_to_row_group_text(payload_fields(schema.fields)) + schema_method_text(
        schema.lower_cased_table_name(),
        payload_fields(schema.fields),
    )
}

/// The block that writes one column.
pub fn column_block(field: &Field) -> (text: String)
    ensures
        text@ == column_block_text(field@),
{
    let mut text = "\n        //write '".to_owned();
    text.append(field.table_field_name());
    text.append(
        "' column\n        if let Some(mut column_writer) = row_group_writer.next_column()? {\n            ",
    );
    text.append(ParquetFieldWriter(field).to_string().as_str());
    text.append(
        "\n            column_writer.close()?;\n        } else {\n            return Err(::parquet::errors::ParquetError::General(\"Failed to get '",
    );
    text.append(field.table_field_name());
    text.append("' column\".into()));\n        }\n        ");
    text.append("\n");
    text
}

/// The statement that adds the schema of one column.
pub fn schema_push(field: &Field) -> (text: String)
    ensures
        text@ == schema_push_text(field@),
{
    let mut text = "        //write '".to_owned();
    text.append(field.table_field_name());
    text.append("' column\n");
    text.append("        fields.push(");
    text.append(ParquetFieldSchema(field).to_string().as_str());
    text.append(");\n");
    text
}

/// The method that writes a batch of records to a row group.
pub fn write_to_row_group_code(schema: &TableSchema) -> (text: String)
    ensures
        text@ == write_to_row_group_text(payload_fields(schema@.fields)),
{
    let mut blocks = String::new();
    let mut i: usize = 0;
    proof {
        lemma_fields_split(schema@.fields);
    }
    while i < schema.fields.len()
        invariant
            i <= schema.fields.len(),
            schema@.fields.len() == schema.fields.len(),
            blocks@ == column_blocks_text(payload_fields(schema@.fields.take(i as int))),
        decreases schema.fields.len() - i,
    {
        let field = &schema.fields[i];
        proof {
            assert(schema@.fields[i as int] == field@);
            lemma_fields_take(schema@.fields, i as int);
            let before = payload_fields(schema@.fields.take(i as int));
            assert(before.push(field@).drop_last() == before);
        }
        if !field.is_partition_key() {
            blocks.append(column_block(field).as_str());
        }
        i += 1;
    }
    assert(schema@.fields.take(i as int) == schema@.fields);
    let mut text =
        "\n    fn write_to_row_group<W: ::std::io::Write + Send>(&self, row_group_writer: &mut ::parquet::file::writer::SerializedRowGroupWriter<'_, W>) -> ::core::result::Result<(), ::parquet::errors::ParquetError> {\n        use ::parquet::column::writer::ColumnWriter;\n\n        let mut row_group_writer = row_group_writer;\n        let records = &self;\n".to_owned();
    text.append("\n");
    text.append(blocks.as_str());
    text.append("\n        Ok(())\n    }");
    text.append("\n");
    text
}

/// The method that builds the schema of the table.
pub fn schema_method_code(schema: &TableSchema) -> (text: String)
    ensures
        text@ == schema_method_text(
            schema@.lower_cased_table_name(),
            payload_fields(schema@.fields),
        ),
{
    let mut pushes = String::new();
    let mut i: usize = 0;
    proof {
        lemma_fields_split(schema@.fields);
    }
    while i < schema.fields.len()
        invariant
            i <= schema.fields.len(),
            schema@.fields.len() == schema.fields.len(),
            pushes@ == schema_pushes_text(payload_fields(schema@.fields.take(i as int))),
        decreases schema.fields.len() - i,
    {
        let field = &schema.fields[i];
        proof {
            assert(schema@.fields[i as int] == field@);
            lemma_fields_take(schema@.fields, i as int);
            let before = payload_fields(schema@.fields.take(i as int));
            assert(before.push(field@).drop_last() == before);
        }
        if !field.is_partition_key() {
            pushes.append(schema_push(field).as_str());
        }
        i += 1;
    }
    assert(schema@.fields.take(i as int) == schema@.fields);
    let mut text =
        "    fn schema(&self) -> ::core::result::Result<::parquet::schema::types::TypePtr, ::parquet::errors::ParquetError> {\n".to_owned();
    text.append("        let mut fields = Vec::<::parquet::schema::types::TypePtr>::new();\n\n");
    text.append(pushes.as_str());
    text.append("\n        ::parquet::schema::types::Type::group_type_builder(\"");
    text.append(schema.lower_cased_table_name().as_str());
    text.append("\").with_fields(fields).build().map(Into::into)\n");
    text.append("    }\n");
    text
}

/// The two methods of a record writer.
pub fn writer_interface_code(schema: &TableSchema) -> (text: String)
    ensures
        text@ == writer_interface_text(schema@),
{
    let mut text = write_to_row_group_code(schema);
    text.append(schema_method_code(schema).as_str());
    text
}

/// Appends the two methods of a record writer to `out`, or refuses a schema that
/// is not valid and leaves `out` as it is.
pub fn generate_parquet_writer_interface_code(schema: &TableSchema, out: &mut String) -> (done:
    Result<(), SchemaError>)
    ensures
        match done {
            Ok(_) => schema@.fault() is None && final(out)@ == old(out)@ + writer_interface_text(
                schema@,
            ),
            Err(fault) => schema@.fault() == Some(fault) && final(out)@ == old(out)@,
        },
{
    match schema.validate() {
        Err(fault) => { return Err(fault); },
        Ok(_) => {},
    }
    out.append(writer_interface_code(schema).as_str());
    Ok(())
}

} // verus!
