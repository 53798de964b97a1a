//! From the declaration of a record to its schema: what a front end has read of
//! a struct, the field type of each declared type, and the marks that the
//! attributes of a field leave on it.

use crate::firehose::{
    build_firehose_schema, firehose_input, firehose_schema, firehose_schema_json,
    firehose_schema_text, partition_accessor_code, partition_accessor_text, FirehoseInput,
};
use crate::model::{
    has_date_index, lemma_has_date_index_push, lemma_valid_fields_push,
    lemma_valid_iff_no_fault, message_text, valid_fields, Field, FieldFlag, FieldFlagContainer,
    FieldType, FieldView, ItemError, Outputs, SchemaError, TableSchema, TableSchemaView,
    TypeError,
};
use crate::parquet::{
    parquet_schema_code, parquet_schema_text, writer_interface_code, writer_interface_text,
};
use crate::text::{same_text, trim, trimmed_text};
use vstd::prelude::*;

verus! {

/// One argument between the angle brackets of a type.
pub enum TypeArgument {
    /// A type path; the name is that of its last segment.
    Path(String),
    /// Anything else: a lifetime, a constant, a type that is no path.
    Other,
}

/// The arguments of the last segment of a type path.
pub enum TypeArguments {
    Absent,
    AngleBracketed(Vec<TypeArgument>),
    Parenthesized,
}

/// The last segment of a type path: its name and its arguments.
pub struct TypePath {
    pub ident: String,
    pub arguments: TypeArguments,
}

/// The declared type of a field.
pub enum DeclaredType {
    Path(TypePath),
    /// A reference to a type path.
    Reference(TypePath),
    Other,
}

/// The value of a name in an attribute.
pub enum MetaValue {
    /// A literal string.
    Str(String),
    Other,
}

/// One item between the brackets of a `shema` attribute. A word or a name is
/// `None` where it is a path of more than one identifier.
pub enum Meta {
    Path(Option<String>),
    NameValue { name: Option<String>, value: MetaValue },
    List,
}

/// An item and how a message shows it.
pub struct MetaItem {
    pub meta: Meta,
    pub shown: String,
}

/// The value of a `doc` attribute.
pub enum DocValue {
    Str(String),
    /// A literal that is no string.
    Literal,
    NotLiteral,
}

/// One attribute of a record or of a field.
pub enum Attribute {
    /// `#[doc = ...]`, as a documentation comment leaves it.
    Doc(DocValue),
    /// `#[shema(...)]`: its items, or the message of the parser that refused them.
    Shema(Result<Vec<MetaItem>, String>),
    Other,
}

/// A field of the declaration.
pub struct FieldInput {
    pub ident: Option<String>,
    pub attrs: Vec<Attribute>,
    pub ty: DeclaredType,
    /// The declared type as it is spelled.
    pub type_text: String,
}

/// The declaration of a record.
pub struct StructInput {
    pub ident: String,
    /// The generics as they follow `impl`.
    pub impl_generics: String,
    /// The generics as they follow the name of the type, with the `where` clause.
    pub type_generics: String,
    pub attrs: Vec<Attribute>,
    pub fields: Vec<FieldInput>,
}

/// A type argument as contracts see it.
pub enum TypeArgumentView {
    Path(Seq<char>),
    Other,
}

/// The arguments of a type path as contracts see them.
pub enum TypeArgumentsView {
    Absent,
    AngleBracketed(Seq<TypeArgumentView>),
    Parenthesized,
}

/// A type path as contracts see it.
pub struct TypePathView {
    pub ident: Seq<char>,
    pub arguments: TypeArgumentsView,
}

/// A declared type as contracts see it.
pub enum DeclaredTypeView {
    Path(TypePathView),
    Reference(TypePathView),
    Other,
}

/// The value of a name as contracts see it.
pub enum MetaValueView {
    Str(Seq<char>),
    Other,
}

/// An item of a `shema` attribute as contracts see it.
pub enum MetaView {
    Path(Option<Seq<char>>),
    NameValue { name: Option<Seq<char>>, value: MetaValueView },
    List,
}

/// An item and how it is shown, as contracts see them.
pub struct MetaItemView {
    pub meta: MetaView,
    pub shown: Seq<char>,
}

/// The value of a `doc` attribute as contracts see it.
pub enum DocValueView {
    Str(Seq<char>),
    Literal,
    NotLiteral,
}

/// An attribute as contracts see it.
pub enum AttributeView {
    Doc(DocValueView),
    Shema(Result<Seq<MetaItemView>, Seq<char>>),
    Other,
}

/// A field of the declaration as contracts see it.
pub struct FieldInputView {
    pub ident: Option<Seq<char>>,
    pub attrs: Seq<AttributeView>,
    pub ty: DeclaredTypeView,
    pub type_text: Seq<char>,
}

/// The declaration of a record as contracts see it.
pub struct StructInputView {
    pub ident: Seq<char>,
    pub impl_generics: Seq<char>,
    pub type_generics: Seq<char>,
    pub attrs: Seq<AttributeView>,
    pub fields: Seq<FieldInputView>,
}

/// A word of an attribute as contracts see it.
pub open spec fn word_view(word: Option<String>) -> Option<Seq<char>> {
    match word {
        Some(word) => Some(word@),
        None => None,
    }
}

/// Type arguments as contracts see them.
pub open spec fn arguments_view(arguments: Seq<TypeArgument>) -> Seq<TypeArgumentView> {
    arguments.map_values(|argument: TypeArgument| argument@)
}

/// Items as contracts see them.
pub open spec fn items_view(items: Seq<MetaItem>) -> Seq<MetaItemView> {
    items.map_values(|item: MetaItem| item@)
}

/// Attributes as contracts see them.
pub open spec fn attrs_view(attrs: Seq<Attribute>) -> Seq<AttributeView> {
    attrs.map_values(|attribute: Attribute| attribute@)
}

/// Fields of a declaration as contracts see them.
pub open spec fn field_inputs_view(fields: Seq<FieldInput>) -> Seq<FieldInputView> {
    fields.map_values(|field: FieldInput| field@)
}

impl View for TypeArgument {
    type V = TypeArgumentView;

    open spec fn view(&self) -> TypeArgumentView {
        match *self {
            TypeArgument::Path(ident) => TypeArgumentView::Path(ident@),
            TypeArgument::Other => TypeArgumentView::Other,
        }
    }
}

impl View for TypeArguments {
    type V = TypeArgumentsView;

    open spec fn view(&self) -> TypeArgumentsView {
        match *self {
            TypeArguments::Absent => TypeArgumentsView::Absent,
            TypeArguments::AngleBracketed(arguments) => TypeArgumentsView::AngleBracketed(
                arguments_view(arguments@),
            ),
            TypeArguments::Parenthesized => TypeArgumentsView::Parenthesized,
        }
    }
}

impl View for TypePath {
    type V = TypePathView;

    open spec fn view(&self) -> TypePathView {
        TypePathView { ident: self.ident@, arguments: self.arguments@ }
    }
}

impl View for DeclaredType {
    type V = DeclaredTypeView;

    open spec fn view(&self) -> DeclaredTypeView {
        match *self {
            DeclaredType::Path(path) => DeclaredTypeView::Path(path@),
            DeclaredType::Reference(path) => DeclaredTypeView::Reference(path@),
            DeclaredType::Other => DeclaredTypeView::Other,
        }
    }
}

impl View for MetaValue {
    type V = MetaValueView;

    open spec fn view(&self) -> MetaValueView {
        match *self {
            MetaValue::Str(text) => MetaValueView::Str(text@),
            MetaValue::Other => MetaValueView::Other,
        }
    }
}

impl View for Meta {
    type V = MetaView;

    open spec fn view(&self) -> MetaView {
        match *self {
            Meta::Path(word) => MetaView::Path(word_view(word)),
            Meta::NameValue { name, value } => MetaView::NameValue {
                name: word_view(name),
                value: value@,
            },
            Meta::List => MetaView::List,
        }
    }
}

impl View for MetaItem {
    type V = MetaItemView;

    open spec fn view(&self) -> MetaItemView {
        MetaItemView { meta: self.meta@, shown: self.shown@ }
    }
}

impl View for DocValue {
    type V = DocValueView;

    open spec fn view(&self) -> DocValueView {
        match *self {
            DocValue::Str(text) => DocValueView::Str(text@),
            DocValue::Literal => DocValueView::Literal,
            DocValue::NotLiteral => DocValueView::NotLiteral,
        }
    }
}

impl View for Attribute {
    type V = AttributeView;

    open spec fn view(&self) -> AttributeView {
        match *self {
            Attribute::Doc(value) => AttributeView::Doc(value@),
            Attribute::Shema(Ok(items)) => AttributeView::Shema(Ok(items_view(items@))),
            Attribute::Shema(Err(message)) => AttributeView::Shema(Err(message@)),
            Attribute::Other => AttributeView::Other,
        }
    }
}

impl View for FieldInput {
    type V = FieldInputView;

    open spec fn view(&self) -> FieldInputView {
        FieldInputView {
            ident: word_view(self.ident),
            attrs: attrs_view(self.attrs@),
            ty: self.ty@,
            type_text: self.type_text@,
        }
    }
}

impl View for StructInput {
    type V = StructInputView;

    open spec fn view(&self) -> StructInputView {
        StructInputView {
            ident: self.ident@,
            impl_generics: self.impl_generics@,
            type_generics: self.type_generics@,
            attrs: attrs_view(self.attrs@),
            fields: field_inputs_view(self.fields@),
        }
    }
}

/// The field type of a type named `ident`.
pub open spec fn segment_type(ident: Seq<char>) -> Result<FieldType, TypeError> {
    if ident == "bool"@ {
        Ok(FieldType::Boolean)
    } else if ident == "i8"@ {
        Ok(FieldType::Byte)
    } else if ident == "i16"@ {
        Ok(FieldType::Short)
    } else if ident == "i32"@ {
        Ok(FieldType::Integer)
    } else if ident == "i64"@ || ident == "isize"@ {
        Ok(FieldType::Long)
    } else if ident == "f32"@ {
        Ok(FieldType::Float)
    } else if ident == "f64"@ {
        Ok(FieldType::Double)
    } else if ident == "OffsetDateTime"@ {
        Ok(FieldType::TimestampZ)
    } else if ident == "String"@ || ident == "str"@ {
        Ok(FieldType::String)
    } else if ident == "Vec"@ || ident == "HashSet"@ || ident == "BTreeSet"@ {
        Ok(FieldType::Array)
    } else if ident == "HashMap"@ || ident == "BTreeMap"@ {
        Ok(FieldType::Object)
    } else if ident == "u8"@ || ident == "u16"@ || ident == "u32"@ || ident == "u64"@ || ident
        == "usize"@ {
        Err(TypeError::Unsigned)
    } else {
        Err(TypeError::Unrecognized)
    }
}

/// Whether the declared type is optional, and its field type. A type given by
/// an attribute stands in place of the declared one; the field is then optional
/// where the declared type is an `Option`.
pub open spec fn path_type(ty: TypePathView, type_override: Option<FieldType>) -> Result<
    (bool, FieldType),
    TypeError,
> {
    if type_override is Some {
        Ok((ty.ident == "Option"@, type_override->0))
    } else if ty.ident == "Option"@ {
        match ty.arguments {
            TypeArgumentsView::AngleBracketed(args) => if args.len() == 0 {
                Err(TypeError::OptionWithoutArgument)
            } else if args.len() == 1 {
                match args[0] {
                    TypeArgumentView::Path(ident) => match segment_type(ident) {
                        Ok(typ) => Ok((true, typ)),
                        Err(error) => Err(error),
                    },
                    TypeArgumentView::Other => Err(TypeError::OptionArgumentUnexpected),
                }
            } else {
                Err(TypeError::OptionTooManyArguments)
            },
            TypeArgumentsView::Absent => Err(TypeError::OptionWithoutArgument),
            TypeArgumentsView::Parenthesized => Err(TypeError::OptionWrongBrackets),
        }
    } else {
        match segment_type(ty.ident) {
            Ok(typ) => Ok((false, typ)),
            Err(error) => Err(error),
        }
    }
}

/// Whether the declared type is optional, and its field type.
pub open spec fn declared_type(ty: DeclaredTypeView, type_override: Option<FieldType>) -> Result<
    (bool, FieldType),
    TypeError,
> {
    match ty {
        DeclaredTypeView::Path(path) => path_type(path, type_override),
        DeclaredTypeView::Reference(path) => path_type(path, type_override),
        DeclaredTypeView::Other => Err(TypeError::NotPath),
    }
}

/// The field type of a type named `ident`.
pub fn extract_type_path_segment(ident: &str) -> (typ: Result<FieldType, TypeError>)
    ensures
        typ == segment_type(ident@),
{
    if same_text(ident, "bool") {
        Ok(FieldType::Boolean)
    } else if same_text(ident, "i8") {
        Ok(FieldType::Byte)
    } else if same_text(ident, "i16") {
        Ok(FieldType::Short)
    } else if same_text(ident, "i32") {
        Ok(FieldType::Integer)
    } else if same_text(ident, "i64") || same_text(ident, "isize") {
        Ok(FieldType::Long)
    } else if same_text(ident, "f32") {
        Ok(FieldType::Float)
    } else if same_text(ident, "f64") {
        Ok(FieldType::Double)
    } else if same_text(ident, "OffsetDateTime") {
        Ok(FieldType::TimestampZ)
    } else if same_text(ident, "String") || same_text(ident, "str") {
        Ok(FieldType::String)
    } else if same_text(ident, "Vec") || same_text(ident, "HashSet") || same_text(
        ident,
        "BTreeSet",
    ) {
        Ok(FieldType::Array)
    } else if same_text(ident, "HashMap") || same_text(ident, "BTreeMap") {
        Ok(FieldType::Object)
    } else if same_text(ident, "u8") || same_text(ident, "u16") || same_text(ident, "u32")
        || same_text(ident, "u64") || same_text(ident, "usize") {
        Err(TypeError::Unsigned)
    } else {
        Err(TypeError::Unrecognized)
    }
}

/// Whether the declared type is optional, and its field type.
pub fn extract_type_path(ty: &TypePath, type_override: Option<FieldType>) -> (typ: Result<
    (bool, FieldType),
    TypeError,
>)
    ensures
        typ == path_type(ty@, type_override),
{
    let optional = same_text(ty.ident.as_str(), "Option");
    if let Some(typ) = type_override {
        Ok((optional, typ))
    } else if optional {
        match &ty.arguments {
            TypeArguments::AngleBracketed(args) => {
                if args.len() == 0 {
                    Err(TypeError::OptionWithoutArgument)
                } else if args.len() == 1 {
                    match &args[0] {
                        TypeArgument::Path(ident) => match extract_type_path_segment(
                            ident.as_str(),
                        ) {
                            Ok(typ) => Ok((true, typ)),
                            Err(error) => Err(error),
                        },
                        TypeArgument::Other => Err(TypeError::OptionArgumentUnexpected),
                    }
                } else {
                    Err(TypeError::OptionTooManyArguments)
                }
            },
            TypeArguments::Absent => Err(TypeError::OptionWithoutArgument),
            TypeArguments::Parenthesized => Err(TypeError::OptionWrongBrackets),
        }
    } else {
        match extract_type_path_segment(ty.ident.as_str()) {
            Ok(typ) => Ok((false, typ)),
            Err(error) => Err(error),
        }
    }
}

/// Whether the declared type is optional, and its field type.
pub fn extract_declared_type(ty: &DeclaredType, type_override: Option<FieldType>) -> (typ: Result<
    (bool, FieldType),
    TypeError,
>)
    ensures
        typ == declared_type(ty@, type_override),
{
    match ty {
        DeclaredType::Path(path) => extract_type_path(path, type_override),
        DeclaredType::Reference(path) => extract_type_path(path, type_override),
        DeclaredType::Other => Err(TypeError::NotPath),
    }
}

/// Whether a word of an attribute is the identifier `expected`.
pub open spec fn is_word(word: Option<Seq<char>>, expected: Seq<char>) -> bool {
    word == Some(expected)
}

fn word_is(word: &Option<String>, expected: &str) -> (same: bool)
    ensures
        same == is_word(word_view(*word), expected@),
{
    match word {
        Some(word) => same_text(word.as_str(), expected),
        None => false,
    }
}

/// No output.
pub open spec fn no_outputs() -> Outputs {
    Outputs {
        firehose_schema: false,
        firehose_parquet_schema: false,
        firehose_partition_code: false,
        parquet_code: false,
    }
}

/// The outputs with the one that `item` names, which is an item of the
/// attribute at `attr` of the record.
pub open spec fn with_output(outputs: Outputs, item: MetaItemView, attr: int, at: int) -> Result<
    Outputs,
    SchemaError,
> {
    match item.meta {
        MetaView::Path(word) => if is_word(word, "firehose_schema"@) {
            Ok(
                Outputs {
                    firehose_schema: true,
                    firehose_parquet_schema: outputs.firehose_parquet_schema,
                    firehose_partition_code: outputs.firehose_partition_code,
                    parquet_code: outputs.parquet_code,
                },
            )
        } else if is_word(word, "firehose_parquet_schema"@) {
            Ok(
                Outputs {
                    firehose_schema: outputs.firehose_schema,
                    firehose_parquet_schema: true,
                    firehose_partition_code: outputs.firehose_partition_code,
                    parquet_code: outputs.parquet_code,
                },
            )
        } else if is_word(word, "firehose_partition_code"@) {
            Ok(
                Outputs {
                    firehose_schema: outputs.firehose_schema,
                    firehose_parquet_schema: outputs.firehose_parquet_schema,
                    firehose_partition_code: true,
                    parquet_code: outputs.parquet_code,
                },
            )
        } else if is_word(word, "parquet_code"@) {
            Ok(
                Outputs {
                    firehose_schema: outputs.firehose_schema,
                    firehose_parquet_schema: outputs.firehose_parquet_schema,
                    firehose_partition_code: outputs.firehose_partition_code,
                    parquet_code: true,
                },
            )
        } else {
            Err(SchemaError::UnknownOutput { attr: attr as usize, item: at as usize })
        },
        _ => Err(SchemaError::UnexpectedOutputItem { attr: attr as usize, item: at as usize }),
    }
}

/// The outputs after the items from `at` on, or the first error among them.
pub open spec fn outputs_from_items(
    outputs: Outputs,
    items: Seq<MetaItemView>,
    attr: int,
    at: int,
) -> Result<Outputs, SchemaError>
    decreases items.len() - at,
{
    if at < 0 || at >= items.len() {
        Ok(outputs)
    } else {
        match with_output(outputs, items[at], attr, at) {
            Ok(next) => outputs_from_items(next, items, attr, at + 1),
            Err(error) => Err(error),
        }
    }
}

/// The outputs after the attributes of the record from `at` on, or the first
/// error among them. Only `shema` attributes count.
pub open spec fn outputs_from_attrs(outputs: Outputs, attrs: Seq<AttributeView>, at: int) -> Result<
    Outputs,
    SchemaError,
>
    decreases attrs.len() - at,
{
    if at < 0 || at >= attrs.len() {
        Ok(outputs)
    } else {
        match attrs[at] {
            AttributeView::Shema(Ok(items)) => match outputs_from_items(outputs, items, at, 0) {
                Ok(next) => outputs_from_attrs(next, attrs, at + 1),
                Err(error) => Err(error),
            },
            AttributeView::Shema(Err(_)) => Err(
                SchemaError::OutputsNotParsed { attr: at as usize },
            ),
            _ => outputs_from_attrs(outputs, attrs, at + 1),
        }
    }
}

/// The outputs that the attributes of a record ask for.
pub open spec fn declared_outputs(attrs: Seq<AttributeView>) -> Result<Outputs, SchemaError> {
    outputs_from_attrs(no_outputs(), attrs, 0)
}

/// The outputs with the one that an item names.
pub fn add_output(outputs: Outputs, item: &MetaItem, attr: usize, at: usize) -> (next: Result<
    Outputs,
    SchemaError,
>)
    ensures
        next == with_output(outputs, item@, attr as int, at as int),
{
    let mut next = outputs;
    match &item.meta {
        Meta::Path(word) => {
            if word_is(word, "firehose_schema") {
                next.firehose_schema = true;
            } else if word_is(word, "firehose_parquet_schema") {
                next.firehose_parquet_schema = true;
            } else if word_is(word, "firehose_partition_code") {
                next.firehose_partition_code = true;
            } else if word_is(word, "parquet_code") {
                next.parquet_code = true;
            } else {
                return Err(SchemaError::UnknownOutput { attr, item: at });
            }
            Ok(next)
        },
        _ => Err(SchemaError::UnexpectedOutputItem { attr, item: at }),
    }
}

/// The outputs after the items of one attribute of the record.
pub fn outputs_of_items(outputs: Outputs, items: &Vec<MetaItem>, attr: usize) -> (next: Result<
    Outputs,
    SchemaError,
>)
    ensures
        next == outputs_from_items(outputs, items_view(items@), attr as int, 0),
{
    let mut next = outputs;
    let mut k: usize = 0;
    while k < items.len()
        invariant
            k <= items.len(),
            outputs_from_items(outputs, items_view(items@), attr as int, 0) == outputs_from_items(
                next,
                items_view(items@),
                attr as int,
                k as int,
            ),
        decreases items.len() - k,
    {
        match add_output(next, &items[k], attr, k) {
            Ok(with) => {
                next = with;
            },
            Err(error) => {
                return Err(error);
            },
        }
        k += 1;
    }
    Ok(next)
}

/// The outputs that the attributes of a record ask for.
pub fn outputs_of(attrs: &Vec<Attribute>) -> (outputs: Result<Outputs, SchemaError>)
    ensures
        outputs == declared_outputs(attrs_view(attrs@)),
{
    let mut outputs = Outputs {
        firehose_schema: false,
        firehose_parquet_schema: false,
        firehose_partition_code: false,
        parquet_code: false,
    };
    let mut i: usize = 0;
    while i < attrs.len()
        invariant
            i <= attrs.len(),
            declared_outputs(attrs_view(attrs@)) == outputs_from_attrs(
                outputs,
                attrs_view(attrs@),
                i as int,
            ),
        decreases attrs.len() - i,
    {
        match &attrs[i] {
            Attribute::Shema(Ok(items)) => {
                match outputs_of_items(outputs, items, i) {
                    Ok(next) => {
                        outputs = next;
                    },
                    Err(error) => {
                        return Err(error);
                    },
                }
            },
            Attribute::Shema(Err(_)) => {
                return Err(SchemaError::OutputsNotParsed { attr: i });
            },
            _ => {},
        }
        i += 1;
    }
    Ok(outputs)
}

/// What the attributes of a field say of it.
pub struct FieldMarks {
    /// The name that `rename` gives.
    pub name: Option<String>,
    pub docstring: String,
    pub typ_flags: FieldFlagContainer,
    /// The type that `json` or `enumeration` gives.
    pub type_override: Option<FieldType>,
}

/// The marks of a field as contracts see them.
pub struct FieldMarksView {
    pub name: Option<Seq<char>>,
    pub docstring: Seq<char>,
    pub typ_flags: FieldFlagContainer,
    pub type_override: Option<FieldType>,
}

impl View for FieldMarks {
    type V = FieldMarksView;

    open spec fn view(&self) -> FieldMarksView {
        FieldMarksView {
            name: match self.name {
                Some(name) => Some(name@),
                None => None,
            },
            docstring: self.docstring@,
            typ_flags: self.typ_flags,
            type_override: self.type_override,
        }
    }
}

/// The marks of a field without attributes.
pub open spec fn no_marks() -> FieldMarksView {
    FieldMarksView {
        name: None,
        docstring: Seq::empty(),
        typ_flags: FieldFlagContainer(0),
        type_override: None,
    }
}

/// The flags with one more set.
pub open spec fn with_flag(flags: FieldFlagContainer, flag: FieldFlag) -> FieldFlagContainer {
    FieldFlagContainer(flags.0 | flag.spec_bit())
}

/// The marks after one item of a `shema` attribute: `json` and `enumeration`
/// give the type, `index` and `firehose_date_index` set a flag, and `rename`
/// gives the name, which is the value without the white space at its ends and
/// may not be empty.
pub open spec fn marked_by(marks: FieldMarksView, item: MetaItemView) -> Result<
    FieldMarksView,
    ItemError,
> {
    match item.meta {
        MetaView::Path(word) => if is_word(word, "json"@) {
            Ok(
                FieldMarksView {
                    name: marks.name,
                    docstring: marks.docstring,
                    typ_flags: marks.typ_flags,
                    type_override: Some(FieldType::Object),
                },
            )
        } else if is_word(word, "enumeration"@) {
            Ok(
                FieldMarksView {
                    name: marks.name,
                    docstring: marks.docstring,
                    typ_flags: marks.typ_flags,
                    type_override: Some(FieldType::Enum),
                },
            )
        } else if is_word(word, "index"@) {
            Ok(
                FieldMarksView {
                    name: marks.name,
                    docstring: marks.docstring,
                    typ_flags: with_flag(marks.typ_flags, FieldFlag::Index),
                    type_override: marks.type_override,
                },
            )
        } else if is_word(word, "firehose_date_index"@) {
            Ok(
                FieldMarksView {
                    name: marks.name,
                    docstring: marks.docstring,
                    typ_flags: with_flag(marks.typ_flags, FieldFlag::FirehoseDateIndex),
                    type_override: marks.type_override,
                },
            )
        } else {
            Err(ItemError::UnexpectedPath)
        },
        MetaView::NameValue { name, value } => if is_word(name, "rename"@) {
            match value {
                MetaValueView::Str(text) => if trimmed_text(text).len() == 0 {
                    Err(ItemError::EmptyRename)
                } else {
                    Ok(
                        FieldMarksView {
                            name: Some(trimmed_text(text)),
                            docstring: marks.docstring,
                            typ_flags: marks.typ_flags,
                            type_override: marks.type_override,
                        },
                    )
                },
                MetaValueView::Other => Err(ItemError::RenameNotString),
            }
        } else {
            Err(ItemError::UnexpectedNameValue)
        },
        MetaView::List => Err(ItemError::UnexpectedValue),
    }
}

/// The marks after the items from `at` on of the attribute at `attr` of the
/// field at `field`, or the first error among them.
pub open spec fn marks_from_items(
    marks: FieldMarksView,
    items: Seq<MetaItemView>,
    field: int,
    attr: int,
    at: int,
) -> Result<FieldMarksView, SchemaError>
    decreases items.len() - at,
{
    if at < 0 || at >= items.len() {
        Ok(marks)
    } else {
        match marked_by(marks, items[at]) {
            Ok(next) => marks_from_items(next, items, field, attr, at + 1),
            Err(fault) => Err(
                SchemaError::Item {
                    field: field as usize,
                    attr: attr as usize,
                    item: at as usize,
                    fault,
                },
            ),
        }
    }
}

/// The marks after one attribute. The texts of the documentation are joined,
/// with a space after each.
pub open spec fn annotated_by(
    marks: FieldMarksView,
    attribute: AttributeView,
    field: int,
    attr: int,
) -> Result<FieldMarksView, SchemaError> {
    match attribute {
        AttributeView::Doc(DocValueView::Str(text)) => Ok(
            FieldMarksView {
                name: marks.name,
                docstring: (marks.docstring + text).push(' '),
                typ_flags: marks.typ_flags,
                type_override: marks.type_override,
            },
        ),
        AttributeView::Doc(DocValueView::Literal) => Ok(marks),
        AttributeView::Doc(DocValueView::NotLiteral) => Err(
            SchemaError::DocNotLiteral { field: field as usize, attr: attr as usize },
        ),
        AttributeView::Shema(Ok(items)) => marks_from_items(marks, items, field, attr, 0),
        AttributeView::Shema(Err(_)) => Err(
            SchemaError::AttributeNotParsed { field: field as usize, attr: attr as usize },
        ),
        AttributeView::Other => Ok(marks),
    }
}

/// The marks after the attributes from `at` on of the field at `field`, or the
/// first error among them.
pub open spec fn marks_from_attrs(
    marks: FieldMarksView,
    attrs: Seq<AttributeView>,
    field: int,
    at: int,
) -> Result<FieldMarksView, SchemaError>
    decreases attrs.len() - at,
{
    if at < 0 || at >= attrs.len() {
        Ok(marks)
    } else {
        match annotated_by(marks, attrs[at], field, at) {
            Ok(next) => marks_from_attrs(next, attrs, field, at + 1),
            Err(error) => Err(error),
        }
    }
}

/// The documentation without the space after its last text.
pub open spec fn closed_docstring(docstring: Seq<char>) -> Seq<char> {
    if docstring.len() > 0 {
        docstring.drop_last()
    } else {
        docstring
    }
}

/// The field that the declaration at `field` describes, or why it is refused: it
/// has no name, an attribute or its type is refused, or it is marked as the date
/// index and is no timestamp. The field has its declared name unless `rename`
/// gives another.
pub open spec fn declared_field(input: FieldInputView, field: int) -> Result<FieldView, SchemaError> {
    if input.ident is None {
        Err(SchemaError::MissingFieldName { field: field as usize })
    } else {
        match marks_from_attrs(no_marks(), input.attrs, field, 0) {
            Err(error) => Err(error),
            Ok(marks) => match declared_type(input.ty, marks.type_override) {
                Err(error) => Err(SchemaError::Type { field: field as usize, error }),
                Ok((optional, typ)) => {
                    let typ_flags = if optional {
                        with_flag(marks.typ_flags, FieldFlag::Optional)
                    } else {
                        marks.typ_flags
                    };
                    if typ_flags.has(FieldFlag::FirehoseDateIndex) && !(typ is TimestampZ) {
                        Err(SchemaError::DateIndexNotTimestamp { field: field as usize, typ })
                    } else {
                        Ok(
                            FieldView {
                                name: match marks.name {
                                    Some(name) => name,
                                    None => input.ident->0,
                                },
                                typ,
                                original_name: input.ident->0,
                                original_type: input.type_text,
                                typ_flags,
                                docstring: closed_docstring(marks.docstring),
                            },
                        )
                    }
                },
            },
        }
    }
}

/// The fields `built` and those that the declarations from `at` on describe,
/// or the first error among them. A second date index is an error.
pub open spec fn fields_from(
    built: Seq<FieldView>,
    fields: Seq<FieldInputView>,
    at: int,
) -> Result<Seq<FieldView>, SchemaError>
    decreases fields.len() - at,
{
    if at < 0 || at >= fields.len() {
        Ok(built)
    } else {
        match declared_field(fields[at], at) {
            Err(error) => Err(error),
            Ok(field) => if field.is_date_index() && has_date_index(built) {
                Err(SchemaError::SecondDateIndex { field: at as usize })
            } else {
                fields_from(built.push(field), fields, at + 1)
            },
        }
    }
}

/// The schema that a declaration describes, or why the declaration is refused:
/// the first error of the record's attributes, else the first error of a field.
pub open spec fn declared_schema(input: StructInputView) -> Result<TableSchemaView, SchemaError> {
    match declared_outputs(input.attrs) {
        Err(error) => Err(error),
        Ok(outputs) => match fields_from(Seq::empty(), input.fields, 0) {
            Err(error) => Err(error),
            Ok(fields) => Ok(TableSchemaView { name: input.ident, fields, outputs }),
        },
    }
}

/// The marks after one item of a `shema` attribute.
pub fn mark(marks: FieldMarks, item: &MetaItem) -> (next: Result<FieldMarks, ItemError>)
    ensures
        match next {
            Ok(next) => marked_by(marks@, item@) == Ok::<FieldMarksView, ItemError>(next@),
            Err(fault) => marked_by(marks@, item@) == Err::<FieldMarksView, ItemError>(fault),
        },
{
    let mut next = marks;
    match &item.meta {
        Meta::Path(word) => {
            if word_is(word, "json") {
                next.type_override = Some(FieldType::Object);
            } else if word_is(word, "enumeration") {
                next.type_override = Some(FieldType::Enum);
            } else if word_is(word, "index") {
                next.typ_flags.set_type_flag(FieldFlag::Index);
            } else if word_is(word, "firehose_date_index") {
                next.typ_flags.set_type_flag(FieldFlag::FirehoseDateIndex);
            } else {
                return Err(ItemError::UnexpectedPath);
            }
            Ok(next)
        },
        Meta::NameValue { name, value } => {
            if word_is(name, "rename") {
                match value {
                    MetaValue::Str(text) => {
                        let new_name = trim(text.as_str());
                        if new_name.is_empty() {
                            return Err(ItemError::EmptyRename);
                        }
                        next.name = Some(new_name.to_owned());
                        Ok(next)
                    },
                    MetaValue::Other => Err(ItemError::RenameNotString),
                }
            } else {
                Err(ItemError::UnexpectedNameValue)
            }
        },
        Meta::List => Err(ItemError::UnexpectedValue),
    }
}

/// The marks after the items of one `shema` attribute of a field.
pub fn mark_all(marks: FieldMarks, items: &Vec<MetaItem>, field: usize, attr: usize) -> (next:
    Result<FieldMarks, SchemaError>)
    ensures
        match next {
            Ok(next) => marks_from_items(marks@, items_view(items@), field as int, attr as int, 0) == Ok::<
                FieldMarksView,
                SchemaError,
            >(next@),
            Err(error) => marks_from_items(marks@, items_view(items@), field as int, attr as int, 0) == Err::<
                FieldMarksView,
                SchemaError,
            >(error),
        },
{
    let ghost start = marks@;
    let mut next = marks;
    let mut k: usize = 0;
    while k < items.len()
        invariant
            k <= items.len(),
            start == marks@,
            marks_from_items(start, items_view(items@), field as int, attr as int, 0)
                == marks_from_items(
                next@,
                items_view(items@),
                field as int,
                attr as int,
                k as int,
            ),
        decreases items.len() - k,
    {
        match mark(next, &items[k]) {
            Ok(marked) => {
                next = marked;
            },
            Err(fault) => {
                return Err(SchemaError::Item { field, attr, item: k, fault });
            },
        }
        k += 1;
    }
    Ok(next)
}

/// The marks after one attribute of a field.
pub fn annotate(marks: FieldMarks, attribute: &Attribute, field: usize, attr: usize) -> (next:
    Result<FieldMarks, SchemaError>)
    ensures
        match next {
            Ok(next) => annotated_by(marks@, attribute@, field as int, attr as int) == Ok::<
                FieldMarksView,
                SchemaError,
            >(next@),
            Err(error) => annotated_by(marks@, attribute@, field as int, attr as int) == Err::<
                FieldMarksView,
                SchemaError,
            >(error),
        },
{
    match attribute {
        Attribute::Doc(DocValue::Str(text)) => {
            let mut next = marks;
            next.docstring.append(text.as_str());
            next.docstring.push(' ');
            Ok(next)
        },
        Attribute::Doc(DocValue::Literal) => Ok(marks),
        Attribute::Doc(DocValue::NotLiteral) => Err(SchemaError::DocNotLiteral { field, attr }),
        Attribute::Shema(Ok(items)) => mark_all(marks, items, field, attr),
        Attribute::Shema(Err(_)) => Err(SchemaError::AttributeNotParsed { field, attr }),
        Attribute::Other => Ok(marks),
    }
}

/// The marks that the attributes of a field leave.
pub fn marks_of(attrs: &Vec<Attribute>, field: usize) -> (marks: Result<FieldMarks, SchemaError>)
    ensures
        match marks {
            Ok(marks) => marks_from_attrs(no_marks(), attrs_view(attrs@), field as int, 0) == Ok::<
                FieldMarksView,
                SchemaError,
            >(marks@),
            Err(error) => marks_from_attrs(no_marks(), attrs_view(attrs@), field as int, 0) == Err::<
                FieldMarksView,
                SchemaError,
            >(error),
        },
{
    let mut marks = FieldMarks {
        name: None,
        docstring: String::new(),
        typ_flags: FieldFlagContainer(0),
        type_override: None,
    };
    let mut i: usize = 0;
    while i < attrs.len()
        invariant
            i <= attrs.len(),
            marks_from_attrs(no_marks(), attrs_view(attrs@), field as int, 0) == marks_from_attrs(
                marks@,
                attrs_view(attrs@),
                field as int,
                i as int,
            ),
        decreases attrs.len() - i,
    {
        match annotate(marks, &attrs[i], field, i) {
            Ok(next) => {
                marks = next;
            },
            Err(error) => {
                return Err(error);
            },
        }
        i += 1;
    }
    Ok(marks)
}

/// The field that a declaration describes.
pub fn field_of(input: &FieldInput, field: usize) -> (made: Result<Field, SchemaError>)
    ensures
        match made {
            Ok(made) => declared_field(input@, field as int) == Ok::<FieldView, SchemaError>(made@),
            Err(error) => declared_field(input@, field as int) == Err::<FieldView, SchemaError>(
                error,
            ),
        },
{
    let original_name = match &input.ident {
        Some(ident) => ident.clone(),
        None => {
            return Err(SchemaError::MissingFieldName { field });
        },
    };
    let marks = match marks_of(&input.attrs, field) {
        Ok(marks) => marks,
        Err(error) => {
            return Err(error);
        },
    };
    let (optional, typ) = match extract_declared_type(&input.ty, marks.type_override) {
        Ok(found) => found,
        Err(error) => {
            return Err(SchemaError::Type { field, error });
        },
    };
    let mut docstring = marks.docstring;
    docstring.pop();
    let mut typ_flags = marks.typ_flags;
    if optional {
        typ_flags.set_type_flag(FieldFlag::Optional);
    }
    if typ_flags.is_type_flag(FieldFlag::FirehoseDateIndex) && !matches!(typ, FieldType::TimestampZ) {
        return Err(SchemaError::DateIndexNotTimestamp { field, typ });
    }
    let name = match marks.name {
        Some(name) => name,
        None => original_name.clone(),
    };
    Ok(
        Field {
            name,
            typ,
            original_name,
            original_type: input.type_text.clone(),
            typ_flags,
            docstring,
        },
    )
}

/// The schema that a declaration describes. It is valid.
pub fn table_schema_of(input: &StructInput) -> (made: Result<TableSchema, SchemaError>)
    ensures
        match made {
            Ok(schema) => declared_schema(input@) == Ok::<TableSchemaView, SchemaError>(schema@)
                && schema@.is_valid(),
            Err(error) => declared_schema(input@) == Err::<TableSchemaView, SchemaError>(error),
        },
{
    let outputs = match outputs_of(&input.attrs) {
        Ok(outputs) => outputs,
        Err(error) => {
            return Err(error);
        },
    };
    let mut fields: Vec<Field> = Vec::new();
    let mut dated = false;
    let mut i: usize = 0;
    assert(fields@.map_values(|f: Field| f@) == Seq::<FieldView>::empty());
    while i < input.fields.len()
        invariant
            i <= input.fields.len(),
            fields_from(Seq::empty(), input@.fields, 0) == fields_from(
                fields@.map_values(|f: Field| f@),
                input@.fields,
                i as int,
            ),
            dated == has_date_index(fields@.map_values(|f: Field| f@)),
            valid_fields(fields@.map_values(|f: Field| f@)),
            declared_outputs(input@.attrs) == Ok::<Outputs, SchemaError>(outputs),
        decreases input.fields.len() - i,
    {
        let field = match field_of(&input.fields[i], i) {
            Ok(field) => field,
            Err(error) => {
                return Err(error);
            },
        };
        let is_date = field.is_date_index();
        if is_date && dated {
            return Err(SchemaError::SecondDateIndex { field: i });
        }
        let ghost before = fields@.map_values(|f: Field| f@);
        proof {
            lemma_has_date_index_push(before, field@);
            lemma_valid_fields_push(before, field@);
        }
        fields.push(field);
        assert(fields@.map_values(|f: Field| f@) == before.push(field@));
        dated = dated || is_date;
        i += 1;
    }
    Ok(TableSchema { name: input.ident.clone(), fields, outputs })
}

/// A declaration that is accepted describes a valid schema.
pub proof fn lemma_declared_schema_is_valid(input: StructInputView)
    ensures
        declared_schema(input) is Ok ==> declared_schema(input)->Ok_0.is_valid(),
{
    if declared_schema(input) is Ok {
        lemma_fields_from_valid(Seq::empty(), input.fields, 0);
    }
}

/// Valid fields stay valid with the fields that declarations add.
pub proof fn lemma_fields_from_valid(
    built: Seq<FieldView>,
    fields: Seq<FieldInputView>,
    at: int,
)
    requires
        valid_fields(built),
        0 <= at,
    ensures
        fields_from(built, fields, at) is Ok ==> valid_fields(fields_from(built, fields, at)->Ok_0),
    decreases fields.len() - at,
{
    if at < fields.len() {
        match declared_field(fields[at], at) {
            Err(_) => {},
            Ok(field) => {
                if !(field.is_date_index() && has_date_index(built)) {
                    lemma_valid_fields_push(built, field);
                    lemma_fields_from_valid(built.push(field), fields, at + 1);
                }
            },
        }
    }
}

/// The Firehose schema of a table as a JSON document.
pub open spec fn firehose_json(schema: TableSchemaView) -> Seq<char> {
    firehose_schema_json(firehose_schema(firehose_input(schema)))
}

/// The source text derived for a record: an `impl` block with the table's name
/// and, as far as they are asked for, the Firehose schema, the accessors of the
/// partition keys and the Parquet schema; then, if asked for, the record writer.
pub open spec fn derived_code(
    schema: TableSchemaView,
    impl_generics: Seq<char>,
    type_generics: Seq<char>,
) -> Seq<char> {
    "impl"@ + impl_generics + " "@ + schema.name + type_generics + " {\n"@
        + "    pub const SHEMA_TABLE_NAME: &'static str = \""@ + schema.lower_cased_table_name()
        + "\";\n"@ + (if schema.outputs.firehose_schema {
        "    pub const SHEMA_FIREHOSE_SCHEMA: &'static str = r#\""@ + firehose_json(schema)
            + "\"#;\n"@
    } else {
        ""@
    }) + (if schema.outputs.firehose_partition_code {
        partition_accessor_text(firehose_input(schema))
    } else {
        ""@
    }) + (if schema.outputs.firehose_parquet_schema {
        "    pub const SHEMA_FIREHOSE_PARQUET_SCHEMA: &'static str = r#\""@ + parquet_schema_text(
            schema,
        ) + "\"#;\n"@
    } else {
        ""@
    }) + "}"@ + (if schema.outputs.parquet_code {
        "\nimpl"@ + impl_generics + " parquet::record::RecordWriter<"@ + schema.name
            + type_generics + "> for &["@ + schema.name + type_generics + "] {"@ + "\n"@
            + writer_interface_text(schema) + "}\n"@
    } else {
        ""@
    })
}

/// The source text derived for a table, or the fault of a schema that is not
/// valid.
pub fn derive_code(schema: &TableSchema, impl_generics: &str, type_generics: &str) -> (code:
    Result<String, SchemaError>)
    ensures
        match code {
            Ok(text) => schema@.fault() is None && text@ == derived_code(
                schema@,
                impl_generics@,
                type_generics@,
            ),
            Err(fault) => schema@.fault() == Some(fault),
        },
{
    match schema.validate() {
        Err(fault) => { return Err(fault); },
        Ok(_) => {},
    }
    let input = FirehoseInput::new(schema);
    let mut firehose = "".to_owned();
    if schema.outputs.firehose_schema {
        firehose = "    pub const SHEMA_FIREHOSE_SCHEMA: &'static str = r#\"".to_owned();
        firehose.append(firehose_schema_text(&build_firehose_schema(input)).as_str());
        firehose.append("\"#;\n");
    }
    let accessor = if schema.outputs.firehose_partition_code {
        partition_accessor_code(input)
    } else {
        "".to_owned()
    };
    let mut parquet = "".to_owned();
    if schema.outputs.firehose_parquet_schema {
        parquet = "    pub const SHEMA_FIREHOSE_PARQUET_SCHEMA: &'static str = r#\"".to_owned();
        parquet.append(parquet_schema_code(schema).as_str());
        parquet.append("\"#;\n");
    }
    let mut writer = "".to_owned();
    if schema.outputs.parquet_code {
        writer = "\nimpl".to_owned();
        writer.append(impl_generics);
        writer.append(" parquet::record::RecordWriter<");
        writer.append(schema.name.as_str());
        writer.append(type_generics);
        writer.append("> for &[");
        writer.append(schema.name.as_str());
        writer.append(type_generics);
        writer.append("] {");
        writer.append("\n");
        writer.append(writer_interface_code(schema).as_str());
        writer.append("}\n");
    }
    let mut text = "impl".to_owned();
    text.append(impl_generics);
    text.append(" ");
    text.append(schema.name.as_str());
    text.append(type_generics);
    text.append(" {\n");
    text.append("    pub const SHEMA_TABLE_NAME: &'static str = \"");
    text.append(schema.lower_cased_table_name().as_str());
    text.append("\";\n");
    text.append(firehose.as_str());
    text.append(accessor.as_str());
    text.append(parquet.as_str());
    text.append("}");
    text.append(writer.as_str());
    Ok(text)
}

/// The source text derived for a declaration, or why the declaration is
/// refused.
pub fn from_struct(input: &StructInput) -> (code: Result<String, SchemaError>)
    ensures
        match code {
            Ok(text) => declared_schema(input@) is Ok && text@ == derived_code(
                declared_schema(input@)->Ok_0,
                input@.impl_generics,
                input@.type_generics,
            ),
            Err(error) => declared_schema(input@) == Err::<TableSchemaView, SchemaError>(error),
        },
{
    let schema = match table_schema_of(input) {
        Ok(schema) => schema,
        Err(error) => { return Err(error); },
    };
    proof {
        lemma_valid_iff_no_fault(schema@);
    }
    derive_code(&schema, input.impl_generics.as_str(), input.type_generics.as_str())
}

/// The message of the parser that refused the `shema` attribute at `attr`; empty
/// where there is no such attribute.
pub open spec fn parser_message(attrs: Seq<AttributeView>, attr: int) -> Seq<char> {
    if 0 <= attr < attrs.len() {
        match attrs[attr] {
            AttributeView::Shema(Err(message)) => message,
            _ => ""@,
        }
    } else {
        ""@
    }
}

/// How the item at `item` of the `shema` attribute at `attr` is shown; empty
/// where there is no such item.
pub open spec fn shown_item(attrs: Seq<AttributeView>, attr: int, item: int) -> Seq<char> {
    if 0 <= attr < attrs.len() {
        match attrs[attr] {
            AttributeView::Shema(Ok(items)) => if 0 <= item < items.len() {
                items[item].shown
            } else {
                ""@
            },
            _ => ""@,
        }
    } else {
        ""@
    }
}

/// The name that is looked up for a declared type: that of the type, or of the
/// one type argument of an `Option`; empty where there is none.
pub open spec fn looked_up_name(ty: DeclaredTypeView) -> Seq<char> {
    match ty {
        DeclaredTypeView::Path(path) => looked_up_path_name(path),
        DeclaredTypeView::Reference(path) => looked_up_path_name(path),
        DeclaredTypeView::Other => ""@,
    }
}

/// The name that is looked up for a type path.
pub open spec fn looked_up_path_name(path: TypePathView) -> Seq<char> {
    if path.ident == "Option"@ {
        match path.arguments {
            TypeArgumentsView::AngleBracketed(args) => if args.len() == 1 {
                match args[0] {
                    TypeArgumentView::Path(ident) => ident,
                    TypeArgumentView::Other => ""@,
                }
            } else {
                ""@
            },
            _ => ""@,
        }
    } else {
        path.ident
    }
}

/// What the declaration holds at the place of an error: the message of the
/// parser, the item as it is shown, or the name of the type.
pub open spec fn error_detail(input: StructInputView, error: SchemaError) -> Seq<char> {
    match error {
        SchemaError::OutputsNotParsed { attr } => parser_message(input.attrs, attr as int),
        SchemaError::UnexpectedOutputItem { attr, item } => shown_item(
            input.attrs,
            attr as int,
            item as int,
        ),
        SchemaError::AttributeNotParsed { field, attr } => if field < input.fields.len() {
            parser_message(input.fields[field as int].attrs, attr as int)
        } else {
            ""@
        },
        SchemaError::Item { field, attr, item, .. } => if field < input.fields.len() {
            shown_item(input.fields[field as int].attrs, attr as int, item as int)
        } else {
            ""@
        },
        SchemaError::Type { field, .. } => if field < input.fields.len() {
            looked_up_name(input.fields[field as int].ty)
        } else {
            ""@
        },
        _ => ""@,
    }
}

/// What is said of an error of a declaration.
pub open spec fn error_text(input: StructInputView, error: SchemaError) -> Seq<char> {
    message_text(error, error_detail(input, error))
}

fn parser_message_of<'a>(attrs: &'a Vec<Attribute>, attr: usize) -> (message: &'a str)
    ensures
        message@ == parser_message(attrs_view(attrs@), attr as int),
{
    if attr < attrs.len() {
        match &attrs[attr] {
            Attribute::Shema(Err(message)) => message.as_str(),
            _ => "",
        }
    } else {
        ""
    }
}

fn shown_item_of<'a>(attrs: &'a Vec<Attribute>, attr: usize, item: usize) -> (shown: &'a str)
    ensures
        shown@ == shown_item(attrs_view(attrs@), attr as int, item as int),
{
    if attr < attrs.len() {
        match &attrs[attr] {
            Attribute::Shema(Ok(items)) => {
                if item < items.len() {
                    items[item].shown.as_str()
                } else {
                    ""
                }
            },
            _ => "",
        }
    } else {
        ""
    }
}

fn looked_up_path_name_of<'a>(path: &'a TypePath) -> (name: &'a str)
    ensures
        name@ == looked_up_path_name(path@),
{
    if same_text(path.ident.as_str(), "Option") {
        match &path.arguments {
            TypeArguments::AngleBracketed(args) => {
                if args.len() == 1 {
                    match &args[0] {
                        TypeArgument::Path(ident) => ident.as_str(),
                        TypeArgument::Other => "",
                    }
                } else {
                    ""
                }
            },
            _ => "",
        }
    } else {
        path.ident.as_str()
    }
}

/// What the declaration holds at the place of an error.
pub fn error_detail_of<'a>(input: &'a StructInput, error: &SchemaError) -> (detail: &'a str)
    ensures
        detail@ == error_detail(input@, *error),
{
    match error {
        SchemaError::OutputsNotParsed { attr } => parser_message_of(&input.attrs, *attr),
        SchemaError::UnexpectedOutputItem { attr, item } => shown_item_of(
            &input.attrs,
            *attr,
            *item,
        ),
        SchemaError::AttributeNotParsed { field, attr } => {
            if *field < input.fields.len() {
                parser_message_of(&input.fields[*field].attrs, *attr)
            } else {
                ""
            }
        },
        SchemaError::Item { field, attr, item, .. } => {
            if *field < input.fields.len() {
                shown_item_of(&input.fields[*field].attrs, *attr, *item)
            } else {
                ""
            }
        },
        SchemaError::Type { field, .. } => {
            if *field < input.fields.len() {
                match &input.fields[*field].ty {
                    DeclaredType::Path(path) => looked_up_path_name_of(path),
                    DeclaredType::Reference(path) => looked_up_path_name_of(path),
                    DeclaredType::Other => "",
                }
            } else {
                ""
            }
        },
        _ => "",
    }
}

/// What is said of an error of a declaration.
pub fn describe(input: &StructInput, error: &SchemaError) -> (text: String)
    ensures
        text@ == error_text(input@, *error),
{
    error.message(error_detail_of(input, error))
}

} // verus!
