//! Documents: the form in which the models are persisted.
//!
//! A document is a list of named values. A value is missing, a text, a whole
//! number, a flag, a list of texts, or a document of its own.
use vstd::prelude::*;

verus! {

/// A value of a document.
#[derive(Debug, PartialEq, Eq)]
pub enum Value {
    Null,
    Text(String),
    Int(i64),
    Flag(bool),
    Texts(Vec<String>),
    Doc(Vec<(String, Value)>),
}

/// What a `Value` holds.
pub enum ValueView {
    Null,
    Text(Seq<char>),
    Int(i64),
    Flag(bool),
    Texts(Seq<Seq<char>>),
    Doc(Seq<(Seq<char>, ValueView)>),
}

/// What a value holds.
pub open spec fn value_view(value: Value) -> ValueView
    decreases value, 0nat,
{
    match value {
        Value::Null => ValueView::Null,
        Value::Text(text) => ValueView::Text(text@),
        Value::Int(value) => ValueView::Int(value),
        Value::Flag(flag) => ValueView::Flag(flag),
        Value::Texts(items) => ValueView::Texts(items.deep_view()),
        Value::Doc(fields) => ValueView::Doc(fields_view(fields@)),
    }
}

/// What the fields of a document hold, field by field.
pub open spec fn fields_view(fields: Seq<(String, Value)>) -> Seq<(Seq<char>, ValueView)>
    decreases fields, 1nat,
{
    if fields.len() == 0 {
        Seq::empty()
    } else {
        fields_view(fields.drop_last()).push((fields.last().0@, value_view(fields.last().1)))
    }
}

impl View for Value {
    type V = ValueView;

    open spec fn view(&self) -> ValueView {
        value_view(*self)
    }
}

impl DeepView for Value {
    type V = ValueView;

    open spec fn deep_view(&self) -> ValueView {
        self@
    }
}

/// Why a document cannot be decoded into a model.
#[derive(Clone, Copy, Debug, PartialEq, Eq)]
pub enum DecodeError {
    /// The value is not a document.
    NotADocument,
    /// The document has no field of this name.
    MissingField(&'static str),
    /// The field of this name does not hold what the model needs.
    InvalidField(&'static str),
}

/// What a `DecodeError` holds.
pub enum DecodeErrorView {
    NotADocument,
    MissingField(Seq<char>),
    InvalidField(Seq<char>),
}

impl View for DecodeError {
    type V = DecodeErrorView;

    open spec fn view(&self) -> DecodeErrorView {
        match self {
            DecodeError::NotADocument => DecodeErrorView::NotADocument,
            DecodeError::MissingField(name) => DecodeErrorView::MissingField(name@),
            DecodeError::InvalidField(name) => DecodeErrorView::InvalidField(name@),
        }
    }
}

impl DeepView for DecodeError {
    type V = DecodeErrorView;

    open spec fn deep_view(&self) -> DecodeErrorView {
        self@
    }
}

/// The fields of a document.
pub type Fields = Seq<(Seq<char>, ValueView)>;

/// The value of the first field called `name` at or behind the position
/// `from`, if there is one.
pub open spec fn field_from(fields: Fields, name: Seq<char>, from: int) -> Option<ValueView>
    decreases fields.len() - from,
{
    if from < 0 || from >= fields.len() {
        None
    } else if fields[from].0 == name {
        Some(fields[from].1)
    } else {
        field_from(fields, name, from + 1)
    }
}

/// The value of the first field called `name`, if there is one.
pub open spec fn field(fields: Fields, name: Seq<char>) -> Option<ValueView> {
    field_from(fields, name, 0)
}

/// The fields of a value that is a document.
pub open spec fn fields_of(value: ValueView) -> core::result::Result<Fields, DecodeErrorView> {
    match value {
        ValueView::Doc(fields) => Ok(fields),
        _ => Err(DecodeErrorView::NotADocument),
    }
}

/// The text that the field `name` holds.
pub open spec fn text_field(fields: Fields, name: Seq<char>) -> core::result::Result<
    Seq<char>,
    DecodeErrorView,
> {
    match field(fields, name) {
        Some(ValueView::Text(text)) => Ok(text),
        Some(_) => Err(DecodeErrorView::InvalidField(name)),
        None => Err(DecodeErrorView::MissingField(name)),
    }
}

/// The text that the field `name` holds, if it holds one: a field that is
/// missing, or present without a value, holds none.
pub open spec fn optional_text_field(fields: Fields, name: Seq<char>) -> core::result::Result<
    Option<Seq<char>>,
    DecodeErrorView,
> {
    match field(fields, name) {
        Some(ValueView::Text(text)) => Ok(Some(text)),
        Some(ValueView::Null) => Ok(None),
        Some(_) => Err(DecodeErrorView::InvalidField(name)),
        None => Ok(None),
    }
}

/// The texts that the field `name` holds.
pub open spec fn texts_field(fields: Fields, name: Seq<char>) -> core::result::Result<
    Seq<Seq<char>>,
    DecodeErrorView,
> {
    match field(fields, name) {
        Some(ValueView::Texts(texts)) => Ok(texts),
        Some(_) => Err(DecodeErrorView::InvalidField(name)),
        None => Err(DecodeErrorView::MissingField(name)),
    }
}

/// The number that the field `name` holds.
pub open spec fn int_field(fields: Fields, name: Seq<char>) -> core::result::Result<
    i64,
    DecodeErrorView,
> {
    match field(fields, name) {
        Some(ValueView::Int(value)) => Ok(value),
        Some(_) => Err(DecodeErrorView::InvalidField(name)),
        None => Err(DecodeErrorView::MissingField(name)),
    }
}

/// The value that the field `name` holds.
pub open spec fn value_field(fields: Fields, name: Seq<char>) -> core::result::Result<
    ValueView,
    DecodeErrorView,
> {
    match field(fields, name) {
        Some(value) => Ok(value),
        None => Err(DecodeErrorView::MissingField(name)),
    }
}

/// What the fields of a document hold, field by field.
pub open spec fn doc_view(fields: &Vec<(String, Value)>) -> Fields {
    fields_view(fields@)
}

/// The view of the fields of a document lists the view of each field in order.
pub proof fn lemma_fields_view(fields: Seq<(String, Value)>)
    ensures
        fields_view(fields).len() == fields.len(),
        forall|i: int|
            0 <= i < fields.len() ==> (#[trigger] fields_view(fields)[i]) == (
                fields[i].0@,
                fields[i].1@,
            ),
    decreases fields.len(),
{
    if fields.len() > 0 {
        lemma_fields_view(fields.drop_last());
        assert forall|i: int| 0 <= i < fields.len() implies (#[trigger] fields_view(fields)[i])
            == (fields[i].0@, fields[i].1@) by {
            if i < fields.len() - 1 {
                assert(fields.drop_last()[i] == fields[i]);
            }
        }
    }
}

/// Adding a field to a document adds its view to the view of the document.
pub proof fn lemma_fields_view_push(fields: Seq<(String, Value)>, field: (String, Value))
    ensures
        fields_view(fields.push(field)) == fields_view(fields).push((field.0@, field.1@)),
{
    assert(fields.push(field).drop_last() =~= fields);
}

/// The fields of a value that is a document.
pub fn get_fields(value: &Value) -> (fields: core::result::Result<
    &Vec<(String, Value)>,
    DecodeError,
>)
    ensures
        match fields {
            Ok(fields) => fields_of(value@) == Ok::<Fields, DecodeErrorView>(doc_view(fields)),
            Err(error) => fields_of(value@) == Err::<Fields, DecodeErrorView>(error@),
        },
{
    match value {
        Value::Doc(fields) => Ok(fields),
        _ => Err(DecodeError::NotADocument),
    }
}

/// The value of the first field called `name`, if there is one.
pub fn get<'a>(fields: &'a Vec<(String, Value)>, name: &str) -> (found: Option<&'a Value>)
    ensures
        found.deep_view() == field(doc_view(fields), name@),
{
    let ghost all = doc_view(fields);
    proof {
        lemma_fields_view(fields@);
    }
    let mut i: usize = 0;
    while i < fields.len()
        invariant
            i <= fields.len(),
            all == doc_view(fields),
            all.len() == fields.len(),
            forall|k: int|
                0 <= k < fields.len() ==> (#[trigger] all[k]) == (fields@[k].0@, fields@[k].1@),
            field(all, name@) == field_from(all, name@, i as int),
        decreases fields.len() - i,
    {
        if crate::text::str_eq(fields[i].0.as_str(), name) {
            assert(all[i as int].0 == name@);
            return Some(&fields[i].1);
        }
        assert(all[i as int].0 != name@);
        i += 1;
    }
    None
}

/// The text that the field `name` holds.
pub fn get_text(fields: &Vec<(String, Value)>, name: &'static str) -> (found:
    core::result::Result<String, DecodeError>)
    ensures
        crate::text::result_view(found) == text_field(doc_view(fields), name@),
{
    match get(fields, name) {
        Some(Value::Text(text)) => Ok(text.clone()),
        Some(_) => Err(DecodeError::InvalidField(name)),
        None => Err(DecodeError::MissingField(name)),
    }
}

/// The text that the field `name` holds, if it holds one.
pub fn get_optional_text(fields: &Vec<(String, Value)>, name: &'static str) -> (found:
    core::result::Result<Option<String>, DecodeError>)
    ensures
        crate::text::result_view(found) == optional_text_field(doc_view(fields), name@),
{
    match get(fields, name) {
        Some(Value::Text(text)) => Ok(Some(text.clone())),
        Some(Value::Null) => Ok(None),
        Some(_) => Err(DecodeError::InvalidField(name)),
        None => Ok(None),
    }
}

/// The texts that the field `name` holds.
pub fn get_texts(fields: &Vec<(String, Value)>, name: &'static str) -> (found:
    core::result::Result<Vec<String>, DecodeError>)
    ensures
        crate::text::result_view(found) == texts_field(doc_view(fields), name@),
{
    match get(fields, name) {
        Some(Value::Texts(texts)) => Ok(crate::text::clone_strings(texts)),
        Some(_) => Err(DecodeError::InvalidField(name)),
        None => Err(DecodeError::MissingField(name)),
    }
}

/// The number that the field `name` holds.
pub fn get_int(fields: &Vec<(String, Value)>, name: &'static str) -> (found: core::result::Result<
    i64,
    DecodeError,
>)
    ensures
        match found {
            Ok(value) => int_field(doc_view(fields), name@) == Ok::<i64, DecodeErrorView>(value),
            Err(error) => int_field(doc_view(fields), name@) == Err::<i64, DecodeErrorView>(
                error@,
            ),
        },
{
    match get(fields, name) {
        Some(Value::Int(value)) => Ok(*value),
        Some(_) => Err(DecodeError::InvalidField(name)),
        None => Err(DecodeError::MissingField(name)),
    }
}

/// The value that the field `name` holds.
pub fn get_value<'a>(fields: &'a Vec<(String, Value)>, name: &'static str) -> (found:
    core::result::Result<&'a Value, DecodeError>)
    ensures
        match found {
            Ok(value) => value_field(doc_view(fields), name@) == Ok::<ValueView, DecodeErrorView>(
                value@,
            ),
            Err(error) => value_field(doc_view(fields), name@) == Err::<
                ValueView,
                DecodeErrorView,
            >(error@),
        },
{
    match get(fields, name) {
        Some(value) => Ok(value),
        None => Err(DecodeError::MissingField(name)),
    }
}

/// A field that holds a text.
pub fn text(name: &str, value: &String) -> (named: (String, Value))
    ensures
        named.0@ == name@,
        named.1@ == ValueView::Text(value@),
{
    (name.to_owned(), Value::Text(value.clone()))
}

/// A document of the given fields.
pub fn doc(fields: Vec<(String, Value)>) -> (value: Value)
    ensures
        value@ == ValueView::Doc(doc_view(&fields)),
{
    Value::Doc(fields)
}

} // verus!
