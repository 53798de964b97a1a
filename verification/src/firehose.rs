//! The Firehose side: the Glue type of each field type, the table schema with
//! its partition keys and columns as a JSON document, and source text for the
//! accessors of a record's partition keys.

use crate::model::{
    lemma_fields_split, lemma_fields_take, lemma_single_date_index, lemma_single_partition_key,
    partition_fields, payload_fields, Field, FieldType, FieldView, SchemaError, TableSchema,
    TableSchemaView,
};
use crate::text::{decimal, decimal_text};
use vstd::prelude::*;

verus! {

/// The Glue (Hive) column type of a field type. What has no flat form is a string.
pub open spec fn glue_type(typ: FieldType) -> Seq<char> {
    match typ {
        FieldType::Byte => "tinyint"@,
        FieldType::Short => "smallint"@,
        FieldType::Integer => "int"@,
        FieldType::Long => "bigint"@,
        FieldType::Float => "float"@,
        FieldType::Double => "double"@,
        FieldType::String => "string"@,
        FieldType::Boolean => "boolean"@,
        FieldType::TimestampZ => "timestamp"@,
        FieldType::Array | FieldType::Object | FieldType::Enum => "string"@,
    }
}

impl FieldType {
    /// The Glue (Hive) column type.
    pub fn aws_glue_type(&self) -> (name: &'static str)
        ensures
            name@ == glue_type(*self),
    {
        match self {
            Self::Byte => "tinyint",
            Self::Short => "smallint",
            Self::Integer => "int",
            Self::Long => "bigint",
            Self::Float => "float",
            Self::Double => "double",
            Self::String => "string",
            Self::Boolean => "boolean",
            Self::TimestampZ => "timestamp",
            Self::Array | Self::Object | Self::Enum => "string",
        }
    }
}

/// A table together with the field from which year, month and day are derived.
#[derive(Copy, Clone)]
pub struct FirehoseInput<'a> {
    pub schema: &'a TableSchema,
    pub index_time_field: Option<&'a Field>,
}

/// A Firehose input as contracts see it.
pub struct FirehoseInputView {
    pub schema: TableSchemaView,
    pub index_time_field: Option<FieldView>,
}

impl<'a> View for FirehoseInput<'a> {
    type V = FirehoseInputView;

    open spec fn view(&self) -> FirehoseInputView {
        FirehoseInputView {
            schema: self.schema@,
            index_time_field: match self.index_time_field {
                Some(field) => Some(field@),
                None => None,
            },
        }
    }
}

impl<'a> FirehoseInput<'a> {
    /// The table with its first date index.
    pub fn new(schema: &'a TableSchema) -> (input: Self)
        ensures
            input.schema == schema,
            input@ == firehose_input(schema@),
    {
        FirehoseInput { schema, index_time_field: schema.index_time_field() }
    }
}

/// One partition key or column of the Firehose schema.
pub struct FirehoseType {
    pub name: String,
    pub typ: String,
    pub comment: String,
    /// The expression that takes the value out of a record; partition keys only.
    pub mapping: Option<String>,
}

/// A partition key or column as contracts see it.
pub struct FirehoseTypeView {
    pub name: Seq<char>,
    pub typ: Seq<char>,
    pub comment: Seq<char>,
    pub mapping: Option<Seq<char>>,
}

impl View for FirehoseType {
    type V = FirehoseTypeView;

    open spec fn view(&self) -> FirehoseTypeView {
        FirehoseTypeView {
            name: self.name@,
            typ: self.typ@,
            comment: self.comment@,
            mapping: match self.mapping {
                Some(mapping) => Some(mapping@),
                None => None,
            },
        }
    }
}

/// The Firehose schema of a table.
pub struct FirehoseSchema {
    pub name: String,
    pub partition_keys: Vec<FirehoseType>,
    pub columns: Vec<FirehoseType>,
}

/// A Firehose schema as contracts see it.
pub struct FirehoseSchemaView {
    pub name: Seq<char>,
    pub partition_keys: Seq<FirehoseTypeView>,
    pub columns: Seq<FirehoseTypeView>,
}

impl View for FirehoseSchema {
    type V = FirehoseSchemaView;

    open spec fn view(&self) -> FirehoseSchemaView {
        FirehoseSchemaView {
            name: self.name@,
            partition_keys: self.partition_keys@.map_values(|entry: FirehoseType| entry@),
            columns: self.columns@.map_values(|entry: FirehoseType| entry@),
        }
    }
}

/// The comment of the three keys derived from the date index named `name`.
pub open spec fn date_key_comment(name: Seq<char>) -> Seq<char> {
    "Extracted from '"@ + name + "'"@
}

/// The year of the date index named `name`: what precedes the first `-` of its
/// RFC 3339 form.
pub open spec fn year_key(name: Seq<char>) -> FirehoseTypeView {
    FirehoseTypeView {
        name: "year"@,
        typ: "string"@,
        comment: date_key_comment(name),
        mapping: Some("(."@ + name + "|split(\"-\")[0])"@),
    }
}

/// The month: what stands between the first and the second `-`.
pub open spec fn month_key(name: Seq<char>) -> FirehoseTypeView {
    FirehoseTypeView {
        name: "month"@,
        typ: "string"@,
        comment: date_key_comment(name),
        mapping: Some("(."@ + name + "|split(\"-\")[1])"@),
    }
}

/// The day: what stands between the second `-` and a `T` that may follow.
pub open spec fn day_key(name: Seq<char>) -> FirehoseTypeView {
    FirehoseTypeView {
        name: "day"@,
        typ: "string"@,
        comment: date_key_comment(name),
        mapping: Some("(."@ + name + "|split(\"-\")[2]|split(\"T\")[0])"@),
    }
}

/// The keys derived from the date index: year, month and day, in this order.
pub open spec fn date_keys(index_time_field: Option<FieldView>) -> Seq<FirehoseTypeView> {
    match index_time_field {
        Some(field) => seq![
            year_key(field.table_field_name()),
            month_key(field.table_field_name()),
            day_key(field.table_field_name()),
        ],
        None => Seq::empty(),
    }
}

/// The entry of a field: a partition key maps to the field itself, a column has
/// no mapping.
pub open spec fn firehose_entry(field: FieldView) -> FirehoseTypeView {
    FirehoseTypeView {
        name: field.table_field_name(),
        typ: glue_type(field.typ),
        comment: field.docstring,
        mapping: if field.is_partition_key() {
            Some("."@ + field.table_field_name())
        } else {
            None
        },
    }
}

/// The entries of the given fields, in their order.
pub open spec fn firehose_entries(fields: Seq<FieldView>) -> Seq<FirehoseTypeView> {
    fields.map_values(|field: FieldView| firehose_entry(field))
}

/// The Firehose schema of a table. The keys derived from the date index come
/// first, then the partition keys in the order of the fields. Every other field
/// is a column, the date index among them.
pub open spec fn firehose_schema(input: FirehoseInputView) -> FirehoseSchemaView {
    FirehoseSchemaView {
        name: input.schema.lower_cased_table_name(),
        partition_keys: date_keys(input.index_time_field) + firehose_entries(
            partition_fields(input.schema.fields),
        ),
        columns: firehose_entries(payload_fields(input.schema.fields)),
    }
}

/// The input that `FirehoseInput::new` makes of a table.
pub open spec fn firehose_input(schema: TableSchemaView) -> FirehoseInputView {
    FirehoseInputView { schema, index_time_field: schema.index_time_field() }
}

/// In a table with one date index and one other index, the partition keys are
/// year, month and day of the date index and then the other index, whichever of
/// the two fields is declared first and whatever fields stand around them.
pub proof fn lemma_date_keys_precede_index(schema: TableSchemaView, date: int, key: int)
    requires
        0 <= date < schema.fields.len(),
        0 <= key < schema.fields.len(),
        forall|i: int|
            0 <= i < schema.fields.len() ==> ((#[trigger] schema.fields[i]).is_date_index() <==> i
                == date),
        forall|i: int|
            0 <= i < schema.fields.len() ==> ((#[trigger] schema.fields[i]).is_partition_key()
                <==> i == key),
    ensures
        firehose_schema(firehose_input(schema)).partition_keys == seq![
            year_key(schema.fields[date].table_field_name()),
            month_key(schema.fields[date].table_field_name()),
            day_key(schema.fields[date].table_field_name()),
            firehose_entry(schema.fields[key]),
        ],
{
    lemma_single_date_index(schema, date);
    lemma_single_partition_key(schema.fields, key);
    assert(firehose_entries(seq![schema.fields[key]]) == seq![firehose_entry(schema.fields[key])]);
}

/// A field that is an index and not the date index is among the partition keys,
/// under its name and mapped to itself; no column has a mapping.
pub proof fn lemma_index_is_partition_key(input: FirehoseInputView, at: int)
    requires
        0 <= at < input.schema.fields.len(),
        input.schema.fields[at].is_partition_key(),
    ensures
        firehose_schema(input).partition_keys.contains(firehose_entry(input.schema.fields[at])),
        firehose_entry(input.schema.fields[at]).name == input.schema.fields[at].table_field_name(),
        firehose_entry(input.schema.fields[at]).mapping == Some(
            "."@ + input.schema.fields[at].table_field_name(),
        ),
        forall|k: int|
            0 <= k < firehose_schema(input).columns.len() ==> (#[trigger] firehose_schema(
                input,
            ).columns[k]).mapping is None,
{
    let fields = input.schema.fields;
    let doc = firehose_schema(input);
    lemma_fields_split(fields);
    let keys = partition_fields(fields);
    let k = choose|k: int| 0 <= k < keys.len() && keys[k] == fields[at];
    let dates = date_keys(input.index_time_field);
    assert(doc.partition_keys[dates.len() + k] == firehose_entry(fields[at]));
    let rows = payload_fields(fields);
    assert forall|k: int| 0 <= k < doc.columns.len() implies (
    #[trigger] doc.columns[k]).mapping is None by {
        assert(doc.columns[k] == firehose_entry(rows[k]));
    }
}

/// No column has the name of a field that is an index and not the date index,
/// where no field that is a column shares that name.
pub proof fn lemma_index_name_is_no_column(input: FirehoseInputView, at: int)
    requires
        0 <= at < input.schema.fields.len(),
        input.schema.fields[at].is_partition_key(),
        forall|j: int|
            0 <= j < input.schema.fields.len() && !(
            #[trigger] input.schema.fields[j]).is_partition_key()
                ==> input.schema.fields[j].table_field_name()
                != input.schema.fields[at].table_field_name(),
    ensures
        forall|k: int|
            0 <= k < firehose_schema(input).columns.len() ==> (#[trigger] firehose_schema(
                input,
            ).columns[k]).name != input.schema.fields[at].table_field_name(),
{
    let fields = input.schema.fields;
    let doc = firehose_schema(input);
    lemma_fields_split(fields);
    let rows = payload_fields(fields);
    assert forall|k: int| 0 <= k < doc.columns.len() implies (#[trigger] doc.columns[k]).name
        != fields[at].table_field_name() by {
        assert(doc.columns[k] == firehose_entry(rows[k]));
        assert(fields.contains(rows[k]));
        let j = choose|j: int| 0 <= j < fields.len() && fields[j] == rows[k];
        assert(!fields[j].is_partition_key());
    }
}

/// One of the three keys derived from the date index named `name`; `mapping` is
/// what follows the name in the expression.
fn date_key(key: &str, name: &str, mapping: &str) -> (entry: FirehoseType)
    ensures
        entry@ == (FirehoseTypeView {
            name: key@,
            typ: "string"@,
            comment: date_key_comment(name@),
            mapping: Some("(."@ + name@ + mapping@),
        }),
{
    let mut comment = "Extracted from '".to_owned();
    comment.append(name);
    comment.append("'");
    let mut expression = "(.".to_owned();
    expression.append(name);
    expression.append(mapping);
    FirehoseType {
        name: key.to_owned(),
        typ: "string".to_owned(),
        comment,
        mapping: Some(expression),
    }
}

/// The entry of a field.
pub fn firehose_entry_of(field: &Field) -> (entry: FirehoseType)
    ensures
        entry@ == firehose_entry(field@),
{
    let name = field.table_field_name();
    let mapping = if field.is_partition_key() {
        let mut expression = ".".to_owned();
        expression.append(name);
        Some(expression)
    } else {
        None
    };
    FirehoseType {
        name: name.to_owned(),
        typ: field.typ.aws_glue_type().to_owned(),
        comment: field.docstring.clone(),
        mapping,
    }
}

/// The Firehose schema of a table: its name, its partition keys and its columns.
pub fn build_firehose_schema(input: FirehoseInput<'_>) -> (doc: FirehoseSchema)
    ensures
        doc@ == firehose_schema(input@),
{
    let schema = input.schema;
    let mut partition_keys: Vec<FirehoseType> = Vec::new();
    let mut columns: Vec<FirehoseType> = Vec::new();
    if let Some(field) = input.index_time_field {
        let name = field.table_field_name();
        partition_keys.push(date_key("year", name, "|split(\"-\")[0])"));
        partition_keys.push(date_key("month", name, "|split(\"-\")[1])"));
        partition_keys.push(date_key("day", name, "|split(\"-\")[2]|split(\"T\")[0])"));
    }
    let ghost dates = date_keys(input@.index_time_field);
    assert(partition_keys@.map_values(|entry: FirehoseType| entry@) == dates);
    let mut i: usize = 0;
    proof {
        lemma_fields_split(schema@.fields);
    }
    while i < schema.fields.len()
        invariant
            i <= schema.fields.len(),
            schema@.fields.len() == schema.fields.len(),
            partition_keys@.map_values(|entry: FirehoseType| entry@) == dates + firehose_entries(
                partition_fields(schema@.fields.take(i as int)),
            ),
            columns@.map_values(|entry: FirehoseType| entry@) == firehose_entries(
                payload_fields(schema@.fields.take(i as int)),
            ),
        decreases schema.fields.len() - i,
    {
        let field = &schema.fields[i];
        let entry = firehose_entry_of(field);
        proof {
            assert(schema@.fields[i as int] == field@);
            lemma_fields_take(schema@.fields, i as int);
        }
        let ghost keys_before = partition_keys@.map_values(|entry: FirehoseType| entry@);
        let ghost columns_before = columns@.map_values(|entry: FirehoseType| entry@);
        if field.is_partition_key() {
            partition_keys.push(entry);
            assert(partition_keys@.map_values(|entry: FirehoseType| entry@) == keys_before.push(
                firehose_entry(field@),
            ));
        } else {
            columns.push(entry);
            assert(columns@.map_values(|entry: FirehoseType| entry@) == columns_before.push(
                firehose_entry(field@),
            ));
        }
        i += 1;
    }
    assert(schema@.fields.take(i as int) == schema@.fields);
    FirehoseSchema { name: schema.lower_cased_table_name(), partition_keys, columns }
}

/// The error of `serde_json`.
#[verifier::external_type_specification]
#[verifier::external_body]
pub struct ExJsonError(serde_json::Error);

/// The JSON string that `serde_json::to_string` writes for a text, quotes
/// included.
pub uninterp spec fn json_string_literal(text: Seq<char>) -> Seq<char>;

/// `serde_json::to_string` on a string: the text as a JSON string, which this
/// crate only names. It reports no error: the serializer fails only where its
/// writer fails, the writer is a vector of bytes here, and a string is written
/// without a call of any other serializer.
#[verifier::external_body]
fn json_string(text: &str) -> (quoted: Result<String, serde_json::Error>)
    ensures
        quoted is Ok,
        quoted matches Ok(literal) ==> literal@ == json_string_literal(text@),
{
    serde_json::to_string(text)
}

/// An entry as a JSON object, indented as an item of an array of the document.
/// All arguments are JSON strings already.
pub open spec fn entry_text(
    name: Seq<char>,
    typ: Seq<char>,
    comment: Seq<char>,
    mapping: Option<Seq<char>>,
) -> Seq<char> {
    "    {\n      \"name\": "@ + name + ",\n      \"type\": "@ + typ + ",\n      \"comment\": "@
        + comment + (match mapping {
        Some(mapping) => ",\n      \"mapping\": "@ + mapping,
        None => ""@,
    }) + "\n    }"@
}

/// The given items with `,` and a line break between them.
pub open spec fn array_items_text(items: Seq<Seq<char>>) -> Seq<char>
    decreases items.len(),
{
    if items.len() == 0 {
        Seq::empty()
    } else if items.len() == 1 {
        items[0]
    } else {
        array_items_text(items.drop_last()) + ",\n"@ + items.last()
    }
}

/// An array of the document: its items on lines of their own, or `[]`.
pub open spec fn array_text(items: Seq<Seq<char>>) -> Seq<char> {
    if items.len() == 0 {
        "[]"@
    } else {
        "[\n"@ + array_items_text(items) + "\n  ]"@
    }
}

/// The document: the table's name, its partition keys and its columns, indented
/// by two spaces a level. `name` is a JSON string, and the items are objects as
/// `entry_text` writes them.
pub open spec fn document_text(
    name: Seq<char>,
    partition_keys: Seq<Seq<char>>,
    columns: Seq<Seq<char>>,
) -> Seq<char> {
    "{\n  \"name\": "@ + name + ",\n  \"partition_keys\": "@ + array_text(partition_keys)
        + ",\n  \"columns\": "@ + array_text(columns) + "\n}"@
}

/// An entry as a JSON object: its name, type and comment, and its mapping where
/// it has one, each as a JSON string.
pub open spec fn entry_json(entry: FirehoseTypeView) -> Seq<char> {
    entry_text(
        json_string_literal(entry.name),
        json_string_literal(entry.typ),
        json_string_literal(entry.comment),
        match entry.mapping {
            Some(mapping) => Some(json_string_literal(mapping)),
            None => None,
        },
    )
}

/// The entries as JSON objects.
pub open spec fn entries_json(entries: Seq<FirehoseTypeView>) -> Seq<Seq<char>> {
    entries.map_values(|entry: FirehoseTypeView| entry_json(entry))
}

/// A Firehose schema as a JSON document.
pub open spec fn firehose_schema_json(doc: FirehoseSchemaView) -> Seq<char> {
    document_text(
        json_string_literal(doc.name),
        entries_json(doc.partition_keys),
        entries_json(doc.columns),
    )
}

/// An entry as a JSON object, from JSON strings.
pub fn firehose_entry_text(name: &str, typ: &str, comment: &str, mapping: Option<&str>) -> (text:
    String)
    ensures
        text@ == entry_text(
            name@,
            typ@,
            comment@,
            match mapping {
                Some(mapping) => Some(mapping@),
                None => None,
            },
        ),
{
    let mut text = "    {\n      \"name\": ".to_owned();
    text.append(name);
    text.append(",\n      \"type\": ");
    text.append(typ);
    text.append(",\n      \"comment\": ");
    text.append(comment);
    let mut tail = String::new();
    match mapping {
        Some(mapping) => {
            tail = ",\n      \"mapping\": ".to_owned();
            tail.append(mapping);
        },
        None => {
            tail = "".to_owned();
        },
    }
    text.append(tail.as_str());
    text.append("\n    }");
    text
}

/// The texts that the strings of `items` hold.
pub open spec fn texts_of(items: Seq<String>) -> Seq<Seq<char>> {
    items.map_values(|item: String| item@)
}

/// An array of the document, from its items.
pub fn firehose_array_text(items: &Vec<String>) -> (text: String)
    ensures
        text@ == array_text(texts_of(items@)),
{
    if items.len() == 0 {
        return "[]".to_owned();
    }
    let ghost texts = texts_of(items@);
    let mut inner = items[0].clone();
    let mut i: usize = 1;
    assert(texts.take(1).len() == 1 && texts.take(1)[0] == items[0]@);
    while i < items.len()
        invariant
            1 <= i <= items.len(),
            texts == texts_of(items@),
            inner@ == array_items_text(texts.take(i as int)),
        decreases items.len() - i,
    {
        proof {
            let seen = texts.take(i + 1);
            assert(seen.drop_last() == texts.take(i as int));
            assert(seen.last() == items[i as int]@);
        }
        inner.append(",\n");
        inner.append(items[i].as_str());
        i += 1;
    }
    assert(texts.take(i as int) == texts);
    let mut text = "[\n".to_owned();
    text.append(inner.as_str());
    text.append("\n  ]");
    text
}

/// The document, from the table's name as a JSON string and the entries as
/// JSON objects.
pub fn firehose_document_text(name: &str, partition_keys: &Vec<String>, columns: &Vec<String>) -> (text:
    String)
    ensures
        text@ == document_text(name@, texts_of(partition_keys@), texts_of(columns@)),
{
    let mut text = "{\n  \"name\": ".to_owned();
    text.append(name);
    text.append(",\n  \"partition_keys\": ");
    text.append(firehose_array_text(partition_keys).as_str());
    text.append(",\n  \"columns\": ");
    text.append(firehose_array_text(columns).as_str());
    text.append("\n}");
    text
}

/// A text as a JSON string.
fn json_text(text: &str) -> (quoted: String)
    ensures
        quoted@ == json_string_literal(text@),
{
    match json_string(text) {
        Ok(literal) => literal,
        Err(_) => vstd::pervasive::unreached(),
    }
}

/// An entry as a JSON object.
pub fn firehose_entry_json(entry: &FirehoseType) -> (text: String)
    ensures
        text@ == entry_json(entry@),
{
    let name = json_text(entry.name.as_str());
    let typ = json_text(entry.typ.as_str());
    let comment = json_text(entry.comment.as_str());
    match &entry.mapping {
        Some(mapping) => {
            let mapping = json_text(mapping.as_str());
            firehose_entry_text(
                name.as_str(),
                typ.as_str(),
                comment.as_str(),
                Some(mapping.as_str()),
            )
        },
        None => firehose_entry_text(name.as_str(), typ.as_str(), comment.as_str(), None),
    }
}

/// The entries as JSON objects.
fn firehose_entries_json(entries: &Vec<FirehoseType>) -> (texts: Vec<String>)
    ensures
        texts_of(texts@) == entries_json(entries@.map_values(|entry: FirehoseType| entry@)),
{
    let ghost views = entries@.map_values(|entry: FirehoseType| entry@);
    let mut texts: Vec<String> = Vec::new();
    let mut i: usize = 0;
    while i < entries.len()
        invariant
            i <= entries.len(),
            views == entries@.map_values(|entry: FirehoseType| entry@),
            texts.len() == i,
            forall|k: int| 0 <= k < i ==> entry_json(#[trigger] views[k]) == texts[k]@,
        decreases entries.len() - i,
    {
        assert(views[i as int] == entries[i as int]@);
        texts.push(firehose_entry_json(&entries[i]));
        i += 1;
    }
    assert(texts_of(texts@) == entries_json(views));
    texts
}

/// A Firehose schema as a JSON document.
pub fn firehose_schema_text(doc: &FirehoseSchema) -> (text: String)
    ensures
        text@ == firehose_schema_json(doc@),
{
    let name = json_text(doc.name.as_str());
    let partition_keys = firehose_entries_json(&doc.partition_keys);
    let columns = firehose_entries_json(&doc.columns);
    firehose_document_text(name.as_str(), &partition_keys, &columns)
}

/// Appends the Firehose schema of the table to `out` as a JSON document, or
/// refuses a schema that is not valid and leaves `out` as it is.
pub fn generate_firehose_schema(input: FirehoseInput<'_>, out: &mut String) -> (done: Result<
    (),
    SchemaError,
>)
    ensures
        match done {
            Ok(_) => input@.schema.fault() is None && final(out)@ == old(out)@
                + firehose_schema_json(firehose_schema(input@)),
            Err(fault) => input@.schema.fault() == Some(fault) && final(out)@ == old(out)@,
        },
{
    match input.schema.validate() {
        Err(fault) => { return Err(fault); },
        Ok(_) => {},
    }
    out.append(firehose_schema_text(&build_firehose_schema(input)).as_str());
    Ok(())
}

/// One of the texts that the accessors hold for each partition key.
#[derive(Copy, Clone, PartialEq, Eq, Debug, Structural)]
pub enum KeyPart {
    /// The type of a borrowed key.
    RefType,
    /// A borrow of the key.
    Ref,
    /// The type of an owned key.
    OwnedType,
    /// A clone of the key.
    Clone,
    /// The key's part of the path format.
    PathFormat,
    /// The key's argument to the path format.
    PathArgument,
}

/// The text of one part for the partition key `field`, which stands at
/// `position` in the tuple of keys. The record is read by the name that the
/// field has in the declaration; the path is written with the name that the
/// field has in the table.
pub open spec fn key_part_text(part: KeyPart, field: FieldView, position: nat) -> Seq<char> {
    match part {
        KeyPart::RefType => "&'_int "@ + field.original_type + ","@,
        KeyPart::Ref => "&self."@ + field.original_name + ","@,
        KeyPart::OwnedType => field.original_type + ","@,
        KeyPart::Clone => "self."@ + field.original_name + ".clone(),"@,
        KeyPart::PathFormat => field.table_field_name() + "={"@ + field.table_field_name() + "}/"@,
        KeyPart::PathArgument => field.table_field_name() + "=self.0."@ + decimal_text(position)
            + ","@,
    }
}

/// The texts of one part for the partition keys `keys`, of which the first
/// stands at `first` in the tuple of keys.
pub open spec fn key_parts_text(part: KeyPart, keys: Seq<FieldView>, first: nat) -> Seq<char>
    decreases keys.len(),
{
    if keys.len() == 0 {
        Seq::empty()
    } else {
        key_parts_text(part, keys.drop_last(), first) + key_part_text(
            part,
            keys.last(),
            first + (keys.len() - 1) as nat,
        )
    }
}

/// Where the first partition key stands in the tuple of keys: behind year, month
/// and day where there is a date index.
pub open spec fn first_key_position(date: Option<FieldView>) -> nat {
    if date is Some {
        3
    } else {
        0
    }
}

/// The types of year, month and day.
pub open spec fn date_types_text(date: Option<FieldView>) -> Seq<char> {
    if date is Some {
        "i32,u8,u8,"@
    } else {
        ""@
    }
}

/// Year, month and day of the date index, read from the calendar. The record is
/// read by the name that the field has in the declaration.
pub open spec fn date_values_text(date: Option<FieldView>) -> Seq<char> {
    match date {
        Some(field) => "self."@ + field.original_name + ".year(), self."@ + field.original_name
            + ".month() as _, self."@ + field.original_name + ".day(),"@,
        None => ""@,
    }
}

/// The path of year, month and day: four digits, then two and two.
pub open spec fn date_path_format_text(date: Option<FieldView>) -> Seq<char> {
    if date is Some {
        "year={year:04}/month={month:02}/day={day:02}/"@
    } else {
        ""@
    }
}

/// The arguments to the path of year, month and day.
pub open spec fn date_path_arguments_text(date: Option<FieldView>) -> Seq<char> {
    if date is Some {
        "year=self.0.0, month=self.0.1 as u8, day=self.0.2,"@
    } else {
        ""@
    }
}

/// The type of the tuple of borrowed keys.
pub open spec fn reference_type_text(date: Option<FieldView>, keys: Seq<FieldView>) -> Seq<char> {
    "("@ + date_types_text(date) + key_parts_text(KeyPart::RefType, keys, first_key_position(date))
        + ")"@
}

/// The method that borrows the keys.
pub open spec fn partition_keys_ref_text(date: Option<FieldView>, keys: Seq<FieldView>) -> Seq<
    char,
> {
    "    ///Returns tuple with reference to all partition keys\n"@
        + "    pub fn partition_keys_ref<'_int>(&'_int self) -> "@ + reference_type_text(date, keys)
        + " {\n"@ + "        ("@ + date_values_text(date) + key_parts_text(
        KeyPart::Ref,
        keys,
        first_key_position(date),
    ) + ")\n"@ + "    }\n\n"@
}

/// The method that clones the keys.
pub open spec fn partition_keys_text(date: Option<FieldView>, keys: Seq<FieldView>) -> Seq<char> {
    "    ///Returns owned tuple with reference to all partition keys\n"@
        + "    pub fn partition_keys(&self) -> ("@ + date_types_text(date) + key_parts_text(
        KeyPart::OwnedType,
        keys,
        first_key_position(date),
    ) + ") {\n"@ + "        ("@ + date_values_text(date) + key_parts_text(
        KeyPart::Clone,
        keys,
        first_key_position(date),
    ) + ")\n"@ + "    }\n\n"@
}

/// The method that writes the path prefix: `year=YYYY/month=MM/day=DD/` where
/// there is a date index, then `name=value/` for each partition key.
pub open spec fn path_prefix_text(date: Option<FieldView>, keys: Seq<FieldView>) -> Seq<char> {
    "    ///Returns fmt::Display that can be used to write partitioned path prefix for s3 destination\n"@
        + "    pub fn firehose_s3_path_prefix(&self) -> impl core::fmt::Display + '_ {\n"@
        + "        pub struct DisplayImpl<'_int>("@ + reference_type_text(date, keys) + ");\n"@
        + "        impl core::fmt::Display for DisplayImpl<'_> {\n"@
        + "            fn fmt(&self, fmt: &mut core::fmt::Formatter<'_>) -> core::fmt::Result {\n"@
        + "                fmt.write_fmt(format_args!(\""@ + date_path_format_text(date)
        + key_parts_text(KeyPart::PathFormat, keys, first_key_position(date)) + "\","@
        + date_path_arguments_text(date) + key_parts_text(
        KeyPart::PathArgument,
        keys,
        first_key_position(date),
    ) + "))\n"@ + "            }\n\n"@ + "        }\n\n"@
        + "        DisplayImpl(self.partition_keys_ref())\n\n"@ + "    }\n\n"@
}

/// The accessors of a record's partition keys: year, month and day of the date
/// index where there is one, then the partition keys in the order of the fields.
pub open spec fn partition_accessor_text(input: FirehoseInputView) -> Seq<char> {
    partition_keys_ref_text(input.index_time_field, partition_fields(input.schema.fields))
        + partition_keys_text(input.index_time_field, partition_fields(input.schema.fields))
        + path_prefix_text(input.index_time_field, partition_fields(input.schema.fields))
}

/// The text of one part for a partition key.
pub fn key_part(part: KeyPart, field: &Field, position: u128) -> (text: String)
    ensures
        text@ == key_part_text(part, field@, position as nat),
{
    match part {
        KeyPart::RefType => {
            let mut text = "&'_int ".to_owned();
            text.append(field.original_type.as_str());
            text.append(",");
            text
        },
        KeyPart::Ref => {
            let mut text = "&self.".to_owned();
            text.append(field.original_name.as_str());
            text.append(",");
            text
        },
        KeyPart::OwnedType => {
            let mut text = field.original_type.clone();
            text.append(",");
            text
        },
        KeyPart::Clone => {
            let mut text = "self.".to_owned();
            text.append(field.original_name.as_str());
            text.append(".clone(),");
            text
        },
        KeyPart::PathFormat => {
            let mut text = field.table_field_name().to_owned();
            text.append("={");
            text.append(field.table_field_name());
            text.append("}/");
            text
        },
        KeyPart::PathArgument => {
            let mut text = field.table_field_name().to_owned();
            text.append("=self.0.");
            text.append(decimal(position).as_str());
            text.append(",");
            text
        },
    }
}

/// The texts of one part for the partition keys of the table.
pub fn key_parts(part: KeyPart, input: FirehoseInput<'_>) -> (text: String)
    ensures
        text@ == key_parts_text(
            part,
            partition_fields(input@.schema.fields),
            first_key_position(input@.index_time_field),
        ),
{
    let schema = input.schema;
    let first: u128 = if input.index_time_field.is_some() { 3 } else { 0 };
    let mut text = String::new();
    let mut count: usize = 0;
    let mut i: usize = 0;
    proof {
        lemma_fields_split(schema@.fields);
    }
    while i < schema.fields.len()
        invariant
            i <= schema.fields.len(),
            schema@.fields.len() == schema.fields.len(),
            first == first_key_position(input@.index_time_field),
            count <= i,
            count == partition_fields(schema@.fields.take(i as int)).len(),
            text@ == key_parts_text(
                part,
                partition_fields(schema@.fields.take(i as int)),
                first as nat,
            ),
        decreases schema.fields.len() - i,
    {
        let field = &schema.fields[i];
        proof {
            assert(schema@.fields[i as int] == field@);
            lemma_fields_take(schema@.fields, i as int);
            let before = partition_fields(schema@.fields.take(i as int));
            assert(before.push(field@).drop_last() == before);
        }
        if field.is_partition_key() {
            text.append(key_part(part, field, first + count as u128).as_str());
            count += 1;
        }
        i += 1;
    }
    assert(schema@.fields.take(i as int) == schema@.fields);
    text
}

/// Year, month and day of the date index, read from the calendar.
pub fn date_values(date: Option<&Field>) -> (text: String)
    ensures
        text@ == date_values_text(
            match date {
                Some(field) => Some(field@),
                None => None,
            },
        ),
{
    match date {
        Some(field) => {
            let name = field.original_name.as_str();
            let mut text = "self.".to_owned();
            text.append(name);
            text.append(".year(), self.");
            text.append(name);
            text.append(".month() as _, self.");
            text.append(name);
            text.append(".day(),");
            text
        },
        None => "".to_owned(),
    }
}

/// The type of the tuple of borrowed keys.
pub fn reference_type(input: FirehoseInput<'_>) -> (text: String)
    ensures
        text@ == reference_type_text(
            input@.index_time_field,
            partition_fields(input@.schema.fields),
        ),
{
    let mut text = "(".to_owned();
    text.append(if input.index_time_field.is_some() { "i32,u8,u8," } else { "" });
    text.append(key_parts(KeyPart::RefType, input).as_str());
    text.append(")");
    text
}

/// The method that borrows the keys.
pub fn partition_keys_ref_code(input: FirehoseInput<'_>) -> (text: String)
    ensures
        text@ == partition_keys_ref_text(
            input@.index_time_field,
            partition_fields(input@.schema.fields),
        ),
{
    let mut text = "    ///Returns tuple with reference to all partition keys\n".to_owned();
    text.append("    pub fn partition_keys_ref<'_int>(&'_int self) -> ");
    text.append(reference_type(input).as_str());
    text.append(" {\n");
    text.append("        (");
    text.append(date_values(input.index_time_field).as_str());
    text.append(key_parts(KeyPart::Ref, input).as_str());
    text.append(")\n");
    text.append("    }\n\n");
    text
}

/// The method that clones the keys.
pub fn partition_keys_code(input: FirehoseInput<'_>) -> (text: String)
    ensures
        text@ == partition_keys_text(
            input@.index_time_field,
            partition_fields(input@.schema.fields),
        ),
{
    let mut text = "    ///Returns owned tuple with reference to all partition keys\n".to_owned();
    text.append("    pub fn partition_keys(&self) -> (");
    text.append(if input.index_time_field.is_some() { "i32,u8,u8," } else { "" });
    text.append(key_parts(KeyPart::OwnedType, input).as_str());
    text.append(") {\n");
    text.append("        (");
    text.append(date_values(input.index_time_field).as_str());
    text.append(key_parts(KeyPart::Clone, input).as_str());
    text.append(")\n");
    text.append("    }\n\n");
    text
}

/// The method that writes the path prefix.
pub fn path_prefix_code(input: FirehoseInput<'_>) -> (text: String)
    ensures
        text@ == path_prefix_text(input@.index_time_field, partition_fields(input@.schema.fields)),
{
    let dated = input.index_time_field.is_some();
    let mut text =
        "    ///Returns fmt::Display that can be used to write partitioned path prefix for s3 destination\n".to_owned();
    text.append("    pub fn firehose_s3_path_prefix(&self) -> impl core::fmt::Display + '_ {\n");
    text.append("        pub struct DisplayImpl<'_int>(");
    text.append(reference_type(input).as_str());
    text.append(");\n");
    text.append("        impl core::fmt::Display for DisplayImpl<'_> {\n");
    text.append(
        "            fn fmt(&self, fmt: &mut core::fmt::Formatter<'_>) -> core::fmt::Result {\n",
    );
    text.append("                fmt.write_fmt(format_args!(\"");
    text.append(if dated { "year={year:04}/month={month:02}/day={day:02}/" } else { "" });
    text.append(key_parts(KeyPart::PathFormat, input).as_str());
    text.append("\",");
    text.append(if dated { "year=self.0.0, month=self.0.1 as u8, day=self.0.2," } else { "" });
    text.append(key_parts(KeyPart::PathArgument, input).as_str());
    text.append("))\n");
    text.append("            }\n\n");
    text.append("        }\n\n");
    text.append("        DisplayImpl(self.partition_keys_ref())\n\n");
    text.append("    }\n\n");
    text
}

/// The accessors of a record's partition keys.
pub fn partition_accessor_code(input: FirehoseInput<'_>) -> (text: String)
    ensures
        text@ == partition_accessor_text(input@),
{
    let mut text = partition_keys_ref_code(input);
    text.append(partition_keys_code(input).as_str());
    text.append(path_prefix_code(input).as_str());
    text
}

/// Appends the accessors of a record's partition keys to `out`, or refuses a
/// schema that is not valid and leaves `out` as it is.
pub fn generate_firehose_partition_accessor(input: FirehoseInput<'_>, out: &mut String) -> (done:
    Result<(), SchemaError>)
    ensures
        match done {
            Ok(_) => input@.schema.fault() is None && final(out)@ == old(out)@
                + partition_accessor_text(input@),
            Err(fault) => input@.schema.fault() == Some(fault) && final(out)@ == old(out)@,
        },
{
    match input.schema.validate() {
        Err(fault) => { return Err(fault); },
        Ok(_) => {},
    }
    out.append(partition_accessor_code(input).as_str());
    Ok(())
}

} // verus!
