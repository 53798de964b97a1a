//! The schema model: fields, their types and flags, and the table they form.

use crate::text::strip_prefix;
use crate::utils::{lower_case_by_sep, to_lower_case_by_sep};
use vstd::prelude::*;

verus! {

/// The type of a field, as the targets know it. `Array`, `Object` and `Enum` are
/// written as JSON text wherever the target is flat.
#[derive(Copy, Clone, PartialEq, Eq, Debug, Structural)]
pub enum FieldType {
    Byte,
    Short,
    Integer,
    Long,
    Float,
    Double,
    String,
    Boolean,
    TimestampZ,
    Array,
    Object,
    Enum,
}

/// The name of a field type, as messages show it.
pub open spec fn variant_name(typ: FieldType) -> Seq<char> {
    match typ {
        FieldType::Byte => "Byte"@,
        FieldType::Short => "Short"@,
        FieldType::Integer => "Integer"@,
        FieldType::Long => "Long"@,
        FieldType::Float => "Float"@,
        FieldType::Double => "Double"@,
        FieldType::String => "String"@,
        FieldType::Boolean => "Boolean"@,
        FieldType::TimestampZ => "TimestampZ"@,
        FieldType::Array => "Array"@,
        FieldType::Object => "Object"@,
        FieldType::Enum => "Enum"@,
    }
}

impl FieldType {
    /// Whether the field is a plain string.
    pub fn is_string_type(&self) -> (string: bool)
        ensures
            string == (*self is String),
    {
        matches!(self, Self::String)
    }

    /// The name of the type, as messages show it.
    pub fn name(&self) -> (name: &'static str)
        ensures
            name@ == variant_name(*self),
    {
        match self {
            Self::Byte => "Byte",
            Self::Short => "Short",
            Self::Integer => "Integer",
            Self::Long => "Long",
            Self::Float => "Float",
            Self::Double => "Double",
            Self::String => "String",
            Self::Boolean => "Boolean",
            Self::TimestampZ => "TimestampZ",
            Self::Array => "Array",
            Self::Object => "Object",
            Self::Enum => "Enum",
        }
    }
}

/// One facet of a field.
#[derive(Copy, Clone, PartialEq, Eq, Debug, Structural)]
pub enum FieldFlag {
    /// The value may be absent.
    Optional,
    /// The field is a partition key.
    Index,
    /// The field is the timestamp from which year, month and day are derived.
    FirehoseDateIndex,
}

impl FieldFlag {
    /// The bit that stands for the flag.
    pub open spec fn spec_bit(self) -> u8 {
        match self {
            FieldFlag::Optional => 1u8,
            FieldFlag::Index => 2u8,
            FieldFlag::FirehoseDateIndex => 4u8,
        }
    }

    #[verifier::when_used_as_spec(spec_bit)]
    pub fn bit(self) -> (bit: u8)
        ensures
            bit == self.spec_bit(),
    {
        match self {
            FieldFlag::Optional => 1u8,
            FieldFlag::Index => 2u8,
            FieldFlag::FirehoseDateIndex => 4u8,
        }
    }
}

/// The flags of one field, one bit each.
#[derive(Copy, Clone, PartialEq, Eq, Debug, Structural)]
pub struct FieldFlagContainer(pub u8);

impl FieldFlagContainer {
    /// Whether `flag` is set.
    pub open spec fn has(self, flag: FieldFlag) -> bool {
        self.0 & flag.spec_bit() == flag.spec_bit()
    }

    /// Sets `flag` and leaves the others as they are.
    pub fn set_type_flag(&mut self, flag: FieldFlag)
        ensures
            final(self).0 == old(self).0 | flag.spec_bit(),
            forall|other: FieldFlag|
                #[trigger] final(self).has(other) == (other == flag || old(self).has(other)),
    {
        let bits: u8 = self.0;
        let bit: u8 = flag.bit();
        proof {
            lemma_set_bit(bits, flag);
        }
        self.0 = bits | bit;
    }

    /// Whether `flag` is set.
    pub fn is_type_flag(&self, flag: FieldFlag) -> (set: bool)
        ensures
            set == self.has(flag),
    {
        let bit: u8 = flag.bit();
        self.0 & bit == bit
    }
}

/// Setting one flag's bit sets that flag and changes no other.
pub proof fn lemma_set_bit(bits: u8, flag: FieldFlag)
    ensures
        forall|other: FieldFlag|
            #[trigger] FieldFlagContainer(bits | flag.spec_bit()).has(other) == (other == flag
                || FieldFlagContainer(bits).has(other)),
{
    assert forall|other: FieldFlag|
        #[trigger] FieldFlagContainer(bits | flag.spec_bit()).has(other) == (other == flag
            || FieldFlagContainer(bits).has(other)) by {
        let f: u8 = flag.spec_bit();
        let o: u8 = other.spec_bit();
        assert((f == 1 || f == 2 || f == 4) && (o == 1 || o == 2 || o == 4));
        assert((f == 1 || f == 2 || f == 4) && (o == 1 || o == 2 || o == 4) ==> (((bits | f) & o
            == o) == (o == f || bits & o == o))) by (bit_vector);
    }
}

/// One field of a record.
pub struct Field {
    /// The name used in everything that is emitted.
    pub name: String,
    pub typ: FieldType,
    /// The identifier in the declaration, by which generated code reads the record.
    pub original_name: String,
    /// The declared type as it was spelled.
    pub original_type: String,
    pub typ_flags: FieldFlagContainer,
    /// Documentation of the field; empty where there is none.
    pub docstring: String,
}

/// A field as contracts see it.
pub struct FieldView {
    pub name: Seq<char>,
    pub typ: FieldType,
    pub original_name: Seq<char>,
    pub original_type: Seq<char>,
    pub typ_flags: FieldFlagContainer,
    pub docstring: Seq<char>,
}

impl View for Field {
    type V = FieldView;

    open spec fn view(&self) -> FieldView {
        FieldView {
            name: self.name@,
            typ: self.typ,
            original_name: self.original_name@,
            original_type: self.original_type@,
            typ_flags: self.typ_flags,
            docstring: self.docstring@,
        }
    }
}

/// `name` without the prefix `r#` of a raw identifier.
pub open spec fn without_raw_prefix(name: Seq<char>) -> Seq<char> {
    if name.len() >= 2 && name[0] == 'r' && name[1] == '#' {
        name.skip(2)
    } else {
        name
    }
}

impl FieldView {
    /// The name under which the field is serialized.
    pub open spec fn table_field_name(self) -> Seq<char> {
        without_raw_prefix(self.name)
    }

    pub open spec fn is_optional(self) -> bool {
        self.typ_flags.has(FieldFlag::Optional)
    }

    pub open spec fn is_date_index(self) -> bool {
        self.typ_flags.has(FieldFlag::FirehoseDateIndex)
    }

    /// Whether the field goes into the storage path and not into the row: it is
    /// an index, and not the date index.
    pub open spec fn is_partition_key(self) -> bool {
        self.typ_flags.has(FieldFlag::Index) && !self.typ_flags.has(FieldFlag::FirehoseDateIndex)
    }
}

impl Field {
    /// The name under which the field is serialized: its name without the prefix
    /// of a raw identifier.
    pub fn table_field_name(&self) -> (name: &str)
        ensures
            name@ == self@.table_field_name(),
    {
        proof {
            reveal_strlit("r#");
        }
        let name = self.name.as_str();
        match strip_prefix(name, "r#") {
            Some(rest) => {
                assert(name@[0] == ("r#"@ + rest@)[0] && name@[1] == ("r#"@ + rest@)[1]);
                assert(name@.skip(2) == rest@);
                rest
            },
            None => {
                assert(!(name@.len() >= 2 && name@[0] == 'r' && name@[1] == '#')) by {
                    if name@.len() >= 2 && name@[0] == 'r' && name@[1] == '#' {
                        assert("r#"@ == name@.subrange(0, 2));
                    }
                }
                name
            },
        }
    }

    pub fn is_optional(&self) -> (set: bool)
        ensures
            set == self@.is_optional(),
    {
        self.typ_flags.is_type_flag(FieldFlag::Optional)
    }

    pub fn is_date_index(&self) -> (set: bool)
        ensures
            set == self@.is_date_index(),
    {
        self.typ_flags.is_type_flag(FieldFlag::FirehoseDateIndex)
    }

    /// Whether the field is an index and not the date index.
    pub fn is_partition_key(&self) -> (key: bool)
        ensures
            key == self@.is_partition_key(),
    {
        self.typ_flags.is_type_flag(FieldFlag::Index) && !self.typ_flags.is_type_flag(
            FieldFlag::FirehoseDateIndex,
        )
    }
}

/// The fields that are partition keys, in their order.
pub open spec fn partition_fields(fields: Seq<FieldView>) -> Seq<FieldView> {
    fields.filter(|f: FieldView| f.is_partition_key())
}

/// The fields that are stored in the row, in their order: all but the partition
/// keys.
pub open spec fn payload_fields(fields: Seq<FieldView>) -> Seq<FieldView> {
    fields.filter(|f: FieldView| !f.is_partition_key())
}

/// A field that is appended goes to the end of the partition keys or to the end
/// of the payload.
pub proof fn lemma_fields_push(fields: Seq<FieldView>, field: FieldView)
    ensures
        partition_fields(fields.push(field)) == if field.is_partition_key() {
            partition_fields(fields).push(field)
        } else {
            partition_fields(fields)
        },
        payload_fields(fields.push(field)) == if field.is_partition_key() {
            payload_fields(fields)
        } else {
            payload_fields(fields).push(field)
        },
{
    reveal(Seq::filter);
    assert(fields.push(field).drop_last() == fields);
}

/// The first `n + 1` fields are the first `n` and the field at `n`.
pub proof fn lemma_fields_take(fields: Seq<FieldView>, n: int)
    requires
        0 <= n < fields.len(),
    ensures
        fields.take(n + 1) == fields.take(n).push(fields[n]),
        partition_fields(fields.take(n + 1)) == if fields[n].is_partition_key() {
            partition_fields(fields.take(n)).push(fields[n])
        } else {
            partition_fields(fields.take(n))
        },
        payload_fields(fields.take(n + 1)) == if fields[n].is_partition_key() {
            payload_fields(fields.take(n))
        } else {
            payload_fields(fields.take(n)).push(fields[n])
        },
{
    assert(fields.take(n + 1) == fields.take(n).push(fields[n]));
    lemma_fields_push(fields.take(n), fields[n]);
}

/// No field is a partition key and part of the payload; every field is one of
/// the two.
pub proof fn lemma_fields_split(fields: Seq<FieldView>)
    ensures
        partition_fields(Seq::<FieldView>::empty()) == Seq::<FieldView>::empty(),
        payload_fields(Seq::<FieldView>::empty()) == Seq::<FieldView>::empty(),
        forall|k: int|
            0 <= k < partition_fields(fields).len() ==> (#[trigger] partition_fields(
                fields,
            )[k]).is_partition_key(),
        forall|k: int|
            0 <= k < payload_fields(fields).len() ==> !(#[trigger] payload_fields(
                fields,
            )[k]).is_partition_key(),
        forall|i: int|
            0 <= i < fields.len() && (#[trigger] fields[i]).is_partition_key()
                ==> partition_fields(fields).contains(fields[i]),
        forall|i: int|
            0 <= i < fields.len() && !(#[trigger] fields[i]).is_partition_key() ==> payload_fields(
                fields,
            ).contains(fields[i]),
        forall|k: int|
            0 <= k < partition_fields(fields).len() ==> fields.contains(
                #[trigger] partition_fields(fields)[k],
            ),
        forall|k: int|
            0 <= k < payload_fields(fields).len() ==> fields.contains(
                #[trigger] payload_fields(fields)[k],
            ),
    decreases fields.len(),
{
    reveal(Seq::filter);
    if fields.len() > 0 {
        let front = fields.drop_last();
        let last = fields.last();
        lemma_fields_split(front);
        assert(front.push(last) == fields);
        lemma_fields_push(front, last);
        let keys = partition_fields(fields);
        let rows = payload_fields(fields);
        assert(fields[fields.len() - 1] == last);
        assert forall|k: int| 0 <= k < keys.len() implies fields.contains(#[trigger] keys[k]) by {
            if k < partition_fields(front).len() {
                let j = choose|j: int| 0 <= j < front.len() && front[j] == partition_fields(front)[k];
                assert(fields[j] == keys[k]);
            }
        }
        assert forall|k: int| 0 <= k < rows.len() implies fields.contains(#[trigger] rows[k]) by {
            if k < payload_fields(front).len() {
                let j = choose|j: int| 0 <= j < front.len() && front[j] == payload_fields(front)[k];
                assert(fields[j] == rows[k]);
            }
        }
        assert forall|i: int|
            0 <= i < fields.len() && (#[trigger] fields[i]).is_partition_key() implies keys.contains(
            fields[i],
        ) by {
            if i < front.len() {
                assert(front[i] == fields[i]);
                let k = choose|k: int|
                    0 <= k < partition_fields(front).len() && partition_fields(front)[k]
                        == fields[i];
                assert(keys[k] == fields[i]);
            } else {
                assert(keys[keys.len() - 1] == fields[i]);
            }
        }
        assert forall|i: int|
            0 <= i < fields.len() && !(#[trigger] fields[i]).is_partition_key() implies rows.contains(
            fields[i],
        ) by {
            if i < front.len() {
                assert(front[i] == fields[i]);
                let k = choose|k: int|
                    0 <= k < payload_fields(front).len() && payload_fields(front)[k] == fields[i];
                assert(rows[k] == fields[i]);
            } else {
                assert(rows[rows.len() - 1] == fields[i]);
            }
        }
    }
}

/// Where the field at `at` is the only partition key, the partition keys are
/// that field alone.
pub proof fn lemma_single_partition_key(fields: Seq<FieldView>, at: int)
    requires
        0 <= at < fields.len(),
        forall|i: int| 0 <= i < fields.len() ==> ((#[trigger] fields[i]).is_partition_key() <==> i == at),
    ensures
        partition_fields(fields) == seq![fields[at]],
    decreases fields.len(),
{
    let front = fields.drop_last();
    let last = fields.last();
    assert(front.push(last) == fields);
    lemma_fields_push(front, last);
    assert(last == fields[fields.len() - 1]);
    assert forall|i: int| 0 <= i < front.len() implies ((#[trigger] front[i]).is_partition_key() <==> i
        == at) by {
        assert(front[i] == fields[i]);
    }
    if at == fields.len() - 1 {
        lemma_fields_split(front);
        if partition_fields(front).len() > 0 {
            let first = partition_fields(front)[0];
            assert(front.contains(first));
            assert(first.is_partition_key());
        }
        assert(partition_fields(front) == Seq::<FieldView>::empty());
    } else {
        lemma_single_partition_key(front, at);
        assert(front[at] == fields[at]);
    }
}

/// Where the field at `at` is the only date index, it is the table's date index.
pub proof fn lemma_single_date_index(schema: TableSchemaView, at: int)
    requires
        0 <= at < schema.fields.len(),
        forall|i: int|
            0 <= i < schema.fields.len() ==> ((#[trigger] schema.fields[i]).is_date_index() <==> i
                == at),
    ensures
        schema.index_time_field() == Some(schema.fields[at]),
{
    lemma_date_index_position(schema.fields);
    let first = date_index_position(schema.fields);
    assert(schema.fields[at].is_date_index());
    if first < schema.fields.len() {
        assert(schema.fields[first].is_date_index());
    }
}

/// The outputs that a derivation is asked for.
#[derive(Copy, Clone, PartialEq, Eq, Debug, Structural)]
pub struct Outputs {
    pub firehose_schema: bool,
    pub firehose_parquet_schema: bool,
    pub firehose_partition_code: bool,
    pub parquet_code: bool,
}

/// A record type: its name, its fields in the order of their declaration, and
/// the outputs asked for.
pub struct TableSchema {
    pub name: String,
    pub fields: Vec<Field>,
    pub outputs: Outputs,
}

/// A table as contracts see it.
pub struct TableSchemaView {
    pub name: Seq<char>,
    pub fields: Seq<FieldView>,
    pub outputs: Outputs,
}

impl View for TableSchema {
    type V = TableSchemaView;

    open spec fn view(&self) -> TableSchemaView {
        TableSchemaView {
            name: self.name@,
            fields: self.fields@.map_values(|f: Field| f@),
            outputs: self.outputs,
        }
    }
}

/// Why the declared type of a field is refused.
#[derive(Copy, Clone, PartialEq, Eq, Debug, Structural)]
pub enum TypeError {
    /// The type is an unsigned integer.
    Unsigned,
    /// The type is none of those that have a field type.
    Unrecognized,
    /// `Option` has no type argument.
    OptionWithoutArgument,
    /// The argument of `Option` is no type path.
    OptionArgumentUnexpected,
    /// `Option` has more than one argument.
    OptionTooManyArguments,
    /// The arguments of `Option` stand in round brackets.
    OptionWrongBrackets,
    /// The type is neither a type path nor a reference to one.
    NotPath,
}

/// Why an item of a field's `shema` attribute is refused.
#[derive(Copy, Clone, PartialEq, Eq, Debug, Structural)]
pub enum ItemError {
    /// A word that is none of `json`, `enumeration`, `index`, `firehose_date_index`.
    UnexpectedPath,
    /// The value of `rename` is no string.
    RenameNotString,
    /// The value of `rename` is empty once trimmed.
    EmptyRename,
    /// A name with a value, and the name is not `rename`.
    UnexpectedNameValue,
    /// Neither a word nor a name with a value.
    UnexpectedValue,
}

/// Why a declaration or a schema is refused. Positions count from 0.
#[derive(Copy, Clone, PartialEq, Eq, Debug, Structural)]
pub enum SchemaError {
    /// The `shema` attribute of the record at this position could not be parsed.
    OutputsNotParsed { attr: usize },
    /// An item of a `shema` attribute of the record is a word that names no output.
    UnknownOutput { attr: usize, item: usize },
    /// An item of a `shema` attribute of the record is no word.
    UnexpectedOutputItem { attr: usize, item: usize },
    /// The field at this position has no name.
    MissingFieldName { field: usize },
    /// The documentation of a field is no literal.
    DocNotLiteral { field: usize, attr: usize },
    /// A `shema` attribute of a field could not be parsed.
    AttributeNotParsed { field: usize, attr: usize },
    /// An item of a `shema` attribute of a field is refused.
    Item { field: usize, attr: usize, item: usize, fault: ItemError },
    /// The declared type of a field is refused.
    Type { field: usize, error: TypeError },
    /// The field at this position is marked as the date index and is no timestamp.
    DateIndexNotTimestamp { field: usize, typ: FieldType },
    /// The field at this position is marked as the date index, and so is an
    /// earlier one.
    SecondDateIndex { field: usize },
}

/// What is said of an error. `detail` is what the declaration holds at the place
/// of the error: the message of the parser, the item as it is shown, or the name
/// of the type. It is used where the message ends in a colon.
pub open spec fn message_text(error: SchemaError, detail: Seq<char>) -> Seq<char> {
    match error {
        SchemaError::OutputsNotParsed { .. } => "shema input is not valid: "@ + detail,
        SchemaError::UnknownOutput { .. } => "Unknown attribute passed to shema"@,
        SchemaError::UnexpectedOutputItem { .. } => "Unknown attribute passed to shema: "@ + detail,
        SchemaError::MissingFieldName { .. } => "Field is missing name"@,
        SchemaError::DocNotLiteral { .. } => "Docstring should be literal string"@,
        SchemaError::AttributeNotParsed { .. } => "'shema' attribute input is not valid: "@ + detail,
        SchemaError::Item { fault: ItemError::UnexpectedPath, .. } => "Unexpected path attribute specified for 'shema'. Allowed: json, enumeration, index"@,
        SchemaError::Item { fault: ItemError::RenameNotString, .. } => "'rename' should be literal string"@,
        SchemaError::Item { fault: ItemError::EmptyRename, .. } => "'rename' requires non-empty string"@,
        SchemaError::Item { fault: ItemError::UnexpectedNameValue, .. } => "Unexpected name value attribute specified for 'shema'. Allowed: rename"@,
        SchemaError::Item { fault: ItemError::UnexpectedValue, .. } => "Unexpected value provided to 'shema': "@ + detail,
        SchemaError::Type { error: TypeError::Unsigned, .. } => "Unsigned integers are not supported"@,
        SchemaError::Type { error: TypeError::Unrecognized, .. } => "Unrecognized type: "@ + detail,
        SchemaError::Type { error: TypeError::OptionWithoutArgument, .. } => "Option without type argument. Fix it"@,
        SchemaError::Type { error: TypeError::OptionArgumentUnexpected, .. } => "Option should have type argument, but got something unexpected. Fix it"@,
        SchemaError::Type { error: TypeError::OptionTooManyArguments, .. } => "Option has too many type arguments. Fix it"@,
        SchemaError::Type { error: TypeError::OptionWrongBrackets, .. } => "You got wrong brackets for your Option. Fix it"@,
        SchemaError::Type { error: TypeError::NotPath, .. } => "Field type should be type path"@,
        SchemaError::SecondDateIndex { .. } => "Firehose date index is set on more than one field"@,
        SchemaError::DateIndexNotTimestamp { typ, .. } => "Firehose date index should be timestamp but got "@
            + variant_name(typ),
    }
}

impl SchemaError {
    /// What is said of the error; `detail` is what the declaration holds at its
    /// place.
    pub fn message(&self, detail: &str) -> (text: String)
        ensures
            text@ == message_text(*self, detail@),
    {
        match self {
            SchemaError::OutputsNotParsed { .. } => {
                let mut text = "shema input is not valid: ".to_owned();
                text.append(detail);
                text
            },
            SchemaError::UnknownOutput { .. } => "Unknown attribute passed to shema".to_owned(),
            SchemaError::UnexpectedOutputItem { .. } => {
                let mut text = "Unknown attribute passed to shema: ".to_owned();
                text.append(detail);
                text
            },
            SchemaError::MissingFieldName { .. } => "Field is missing name".to_owned(),
            SchemaError::DocNotLiteral { .. } => "Docstring should be literal string".to_owned(),
            SchemaError::AttributeNotParsed { .. } => {
                let mut text = "'shema' attribute input is not valid: ".to_owned();
                text.append(detail);
                text
            },
            SchemaError::Item { fault: ItemError::UnexpectedPath, .. } => "Unexpected path attribute specified for 'shema'. Allowed: json, enumeration, index".to_owned(),
            SchemaError::Item { fault: ItemError::RenameNotString, .. } => "'rename' should be literal string".to_owned(),
            SchemaError::Item { fault: ItemError::EmptyRename, .. } => "'rename' requires non-empty string".to_owned(),
            SchemaError::Item { fault: ItemError::UnexpectedNameValue, .. } => "Unexpected name value attribute specified for 'shema'. Allowed: rename".to_owned(),
            SchemaError::Item { fault: ItemError::UnexpectedValue, .. } => {
                let mut text = "Unexpected value provided to 'shema': ".to_owned();
                text.append(detail);
                text
            },
            SchemaError::Type { error: TypeError::Unsigned, .. } => "Unsigned integers are not supported".to_owned(),
            SchemaError::Type { error: TypeError::Unrecognized, .. } => {
                let mut text = "Unrecognized type: ".to_owned();
                text.append(detail);
                text
            },
            SchemaError::Type { error: TypeError::OptionWithoutArgument, .. } => "Option without type argument. Fix it".to_owned(),
            SchemaError::Type { error: TypeError::OptionArgumentUnexpected, .. } => "Option should have type argument, but got something unexpected. Fix it".to_owned(),
            SchemaError::Type { error: TypeError::OptionTooManyArguments, .. } => "Option has too many type arguments. Fix it".to_owned(),
            SchemaError::Type { error: TypeError::OptionWrongBrackets, .. } => "You got wrong brackets for your Option. Fix it".to_owned(),
            SchemaError::Type { error: TypeError::NotPath, .. } => "Field type should be type path".to_owned(),
            SchemaError::SecondDateIndex { .. } => "Firehose date index is set on more than one field".to_owned(),
            SchemaError::DateIndexNotTimestamp { typ, .. } => {
                let mut text = "Firehose date index should be timestamp but got ".to_owned();
                text.append(typ.name());
                text
            },
        }
    }
}

/// The position of the first field marked as the date index, or the number of
/// fields where none is.
pub open spec fn date_index_position(fields: Seq<FieldView>) -> int
    decreases fields.len(),
{
    if fields.len() == 0 {
        0
    } else if fields[0].is_date_index() {
        0
    } else {
        1 + date_index_position(fields.drop_first())
    }
}

/// What is wrong with the field at `position`, if anything: it is marked as the
/// date index and is no timestamp, or an earlier field is marked too.
pub open spec fn fault_at(fields: Seq<FieldView>, position: int) -> Option<SchemaError> {
    if !fields[position].is_date_index() {
        None
    } else if !(fields[position].typ is TimestampZ) {
        Some(
            SchemaError::DateIndexNotTimestamp {
                field: position as usize,
                typ: fields[position].typ,
            },
        )
    } else if date_index_position(fields) < position {
        Some(SchemaError::SecondDateIndex { field: position as usize })
    } else {
        None
    }
}

/// The position of the first field with a fault, or the number of fields where
/// none has one.
pub open spec fn first_fault_position(fields: Seq<FieldView>, from: int) -> int
    decreases fields.len() - from,
{
    if from >= fields.len() {
        fields.len() as int
    } else if from >= 0 && fault_at(fields, from) is Some {
        from
    } else if from >= 0 {
        first_fault_position(fields, from + 1)
    } else {
        fields.len() as int
    }
}

impl TableSchemaView {
    /// The name of the table: the record's name in snake case.
    pub open spec fn lower_cased_table_name(self) -> Seq<char> {
        lower_case_by_sep(self.name, '_')
    }

    /// The first field marked as the date index.
    pub open spec fn index_time_field(self) -> Option<FieldView> {
        if date_index_position(self.fields) < self.fields.len() {
            Some(self.fields[date_index_position(self.fields)])
        } else {
            None
        }
    }

    /// The first fault of the schema in the order of its fields.
    pub open spec fn fault(self) -> Option<SchemaError> {
        if first_fault_position(self.fields, 0) < self.fields.len() {
            fault_at(self.fields, first_fault_position(self.fields, 0))
        } else {
            None
        }
    }

    /// At most one field is marked as the date index, and it is a timestamp.
    pub open spec fn is_valid(self) -> bool {
        valid_fields(self.fields)
    }
}

/// At most one of the fields is marked as the date index, and it is a timestamp.
pub open spec fn valid_fields(fields: Seq<FieldView>) -> bool {
    &&& forall|i: int|
        0 <= i < fields.len() && (#[trigger] fields[i]).is_date_index() ==> fields[i].typ is TimestampZ
    &&& forall|i: int, j: int|
        0 <= i < fields.len() && 0 <= j < fields.len() && (#[trigger] fields[i]).is_date_index() && (
        #[trigger] fields[j]).is_date_index() ==> i == j
}

/// Whether one of the fields is marked as the date index.
pub open spec fn has_date_index(fields: Seq<FieldView>) -> bool {
    date_index_position(fields) < fields.len()
}

/// With one more field, a date index is among the fields where it was before or
/// where the new field is one.
pub proof fn lemma_has_date_index_push(fields: Seq<FieldView>, field: FieldView)
    ensures
        has_date_index(fields.push(field)) <==> has_date_index(fields) || field.is_date_index(),
{
    let more = fields.push(field);
    lemma_date_index_position(fields);
    lemma_date_index_position(more);
    let p = date_index_position(fields);
    let q = date_index_position(more);
    if p < fields.len() {
        assert(more[p] == fields[p]);
    }
    if q < fields.len() {
        assert(more[q] == fields[q]);
    }
    if field.is_date_index() {
        assert(more[fields.len() as int] == field);
    }
}

/// Valid fields stay valid with one more field that is no date index, or that is
/// a timestamp and the only date index.
pub proof fn lemma_valid_fields_push(fields: Seq<FieldView>, field: FieldView)
    requires
        valid_fields(fields),
        field.is_date_index() ==> field.typ is TimestampZ && !has_date_index(fields),
    ensures
        valid_fields(fields.push(field)),
{
    let more = fields.push(field);
    lemma_date_index_position(fields);
    assert forall|i: int| 0 <= i < more.len() && (#[trigger] more[i]).is_date_index() implies more[i].typ is TimestampZ by {
        if i < fields.len() {
            assert(more[i] == fields[i]);
        }
    }
    assert forall|i: int, j: int|
        0 <= i < more.len() && 0 <= j < more.len() && (#[trigger] more[i]).is_date_index() && (
        #[trigger] more[j]).is_date_index() implies i == j by {
        if i < fields.len() {
            assert(more[i] == fields[i]);
        }
        if j < fields.len() {
            assert(more[j] == fields[j]);
        }
    }
}

/// The first date index lies within the fields or just behind them; it is marked,
/// and no field before it is.
pub proof fn lemma_date_index_position(fields: Seq<FieldView>)
    ensures
        0 <= date_index_position(fields) <= fields.len(),
        date_index_position(fields) < fields.len() ==> fields[date_index_position(
            fields,
        )].is_date_index(),
        forall|i: int|
            0 <= i < date_index_position(fields) ==> !(#[trigger] fields[i]).is_date_index(),
    decreases fields.len(),
{
    if fields.len() > 0 && !fields[0].is_date_index() {
        let rest = fields.drop_first();
        lemma_date_index_position(rest);
        assert forall|i: int| 0 <= i < date_index_position(fields) implies !(
        #[trigger] fields[i]).is_date_index() by {
            if i > 0 {
                assert(fields[i] == rest[i - 1]);
            }
        }
    }
}

/// The first fault lies at or behind `from`, within the fields or just behind
/// them; the field there has a fault, and no field between `from` and it has.
pub proof fn lemma_first_fault_position(fields: Seq<FieldView>, from: int)
    requires
        0 <= from <= fields.len(),
    ensures
        from <= first_fault_position(fields, from) <= fields.len(),
        first_fault_position(fields, from) < fields.len() ==> fault_at(
            fields,
            first_fault_position(fields, from),
        ) is Some,
        forall|i: int|
            from <= i < first_fault_position(fields, from) ==> fault_at(fields, i) is None,
    decreases fields.len() - from,
{
    if from < fields.len() && fault_at(fields, from) is None {
        lemma_first_fault_position(fields, from + 1);
    }
}

/// A schema is valid exactly when it has no fault.
pub proof fn lemma_valid_iff_no_fault(schema: TableSchemaView)
    ensures
        schema.is_valid() <==> schema.fault() is None,
{
    let fields = schema.fields;
    lemma_date_index_position(fields);
    lemma_first_fault_position(fields, 0);
    let first = date_index_position(fields);
    if schema.fault() is None {
        assert forall|i: int| 0 <= i < fields.len() implies fault_at(fields, i) is None by {}
        assert forall|i: int, j: int|
            0 <= i < fields.len() && 0 <= j < fields.len() && (#[trigger] fields[i]).is_date_index()
                && (#[trigger] fields[j]).is_date_index() implies i == j by {
            assert(fault_at(fields, i) is None);
            assert(fault_at(fields, j) is None);
            assert(i == first && j == first);
        }
        assert forall|i: int|
            0 <= i < fields.len() && (#[trigger] fields[i]).is_date_index() implies fields[i].typ is TimestampZ by {
            assert(fault_at(fields, i) is None);
        }
    } else {
        let at = first_fault_position(fields, 0);
        assert(fields[at].is_date_index());
        if fields[at].typ is TimestampZ {
            assert(fields[first].is_date_index());
            assert(first != at);
        }
    }
}

/// A schema with a field that is marked as the date index and is no timestamp
/// has a fault: whatever writes from the schema refuses it.
pub proof fn lemma_misplaced_date_index_is_a_fault(schema: TableSchemaView, at: int)
    requires
        0 <= at < schema.fields.len(),
        schema.fields[at].is_date_index(),
        !(schema.fields[at].typ is TimestampZ),
    ensures
        !schema.is_valid(),
        schema.fault() is Some,
{
    lemma_valid_iff_no_fault(schema);
}

impl TableSchema {
    /// The name of the table: the record's name in snake case.
    pub fn lower_cased_table_name(&self) -> (name: String)
        ensures
            name@ == self@.lower_cased_table_name(),
    {
        to_lower_case_by_sep(self.name.as_str(), '_')
    }

    /// The first field marked as the date index, if any is.
    pub fn index_time_field(&self) -> (found: Option<&Field>)
        ensures
            match found {
                Some(field) => self@.index_time_field() == Some(field@) && date_index_position(
                    self@.fields,
                ) < self.fields.len() && *field == self.fields[date_index_position(
                    self@.fields,
                )],
                None => self@.index_time_field() is None,
            },
    {
        let mut i: usize = 0;
        proof {
            lemma_date_index_position(self@.fields);
        }
        while i < self.fields.len()
            invariant
                0 <= i <= date_index_position(self@.fields) <= self.fields.len(),
                self@.fields.len() == self.fields.len(),
                forall|k: int| 0 <= k < date_index_position(self@.fields) ==> !(
                #[trigger] self@.fields[k]).is_date_index(),
                date_index_position(self@.fields) < self.fields.len() ==> self@.fields[date_index_position(
                    self@.fields,
                )].is_date_index(),
            decreases self.fields.len() - i,
        {
            assert(self@.fields[i as int] == self.fields[i as int]@);
            if self.fields[i].is_date_index() {
                return Some(&self.fields[i]);
            }
            i += 1;
        }
        None
    }

    /// Checks that at most one field is marked as the date index and that it is
    /// a timestamp; reports the first field that breaks this.
    pub fn validate(&self) -> (checked: Result<(), SchemaError>)
        ensures
            checked is Ok <==> self@.is_valid(),
            match checked {
                Ok(_) => self@.fault() is None,
                Err(fault) => self@.fault() == Some(fault),
            },
    {
        let mut i: usize = 0;
        let mut seen = false;
        proof {
            lemma_date_index_position(self@.fields);
            lemma_first_fault_position(self@.fields, 0);
            lemma_valid_iff_no_fault(self@);
        }
        while i < self.fields.len()
            invariant
                0 <= i <= first_fault_position(self@.fields, 0) <= self.fields.len(),
                self@.fields.len() == self.fields.len(),
                seen == (date_index_position(self@.fields) < i),
                0 <= date_index_position(self@.fields) <= self.fields.len(),
                forall|k: int| 0 <= k < date_index_position(self@.fields) ==> !(
                #[trigger] self@.fields[k]).is_date_index(),
                date_index_position(self@.fields) < self.fields.len() ==> self@.fields[date_index_position(
                    self@.fields,
                )].is_date_index(),
                first_fault_position(self@.fields, 0) < self.fields.len() ==> fault_at(
                    self@.fields,
                    first_fault_position(self@.fields, 0),
                ) is Some,
                forall|k: int|
                    0 <= k < first_fault_position(self@.fields, 0) ==> fault_at(self@.fields, k) is None,
            decreases self.fields.len() - i,
        {
            assert(self@.fields[i as int] == self.fields[i as int]@);
            let field = &self.fields[i];
            if field.is_date_index() {
                if !matches!(field.typ, FieldType::TimestampZ) {
                    assert(fault_at(self@.fields, i as int) is Some);
                    return Err(SchemaError::DateIndexNotTimestamp { field: i, typ: field.typ });
                }
                if seen {
                    assert(fault_at(self@.fields, i as int) is Some);
                    return Err(SchemaError::SecondDateIndex { field: i });
                }
                seen = true;
            }
            assert(fault_at(self@.fields, i as int) is None);
            i += 1;
        }
        Ok(())
    }
}

} // verus!
