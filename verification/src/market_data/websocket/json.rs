//! JSON text of outbound messages and the fields read from inbound ones.
//!
//! Encoding and decoding are `serde_json`'s. What it returns is named here,
//! and the rest of the library states its contracts over those names.

use serde_json::Value;
use vstd::prelude::*;
use crate::text::text_outcome;

verus! {

/// The value of one member of an outbound object.
#[derive(Debug, PartialEq, Eq)]
pub enum ParamValue {
    Null,
    Text(String),
    Integer(i64),
    Flag(bool),
    TextList(Vec<String>),
}

/// Mathematical view of [`ParamValue`].
pub enum ParamValueView {
    Null,
    Text(Seq<char>),
    Integer(int),
    Flag(bool),
    TextList(Seq<Seq<char>>),
}

impl View for ParamValue {
    type V = ParamValueView;

    open spec fn view(&self) -> ParamValueView {
        match self {
            ParamValue::Null => ParamValueView::Null,
            ParamValue::Text(text) => ParamValueView::Text(text@),
            ParamValue::Integer(number) => ParamValueView::Integer(*number as int),
            ParamValue::Flag(flag) => ParamValueView::Flag(*flag),
            ParamValue::TextList(items) => ParamValueView::TextList(items.deep_view()),
        }
    }
}

/// A copy of a list of strings.
fn clone_texts(items: &Vec<String>) -> (copy: Vec<String>)
    ensures
        copy.deep_view() == items.deep_view(),
{
    let mut copy: Vec<String> = Vec::new();
    let mut i: usize = 0;
    while i < items.len()
        invariant
            i <= items.len(),
            copy.len() == i,
            forall|j: int| 0 <= j < i ==> (#[trigger] copy[j])@ == items[j]@,
        decreases items.len() - i,
    {
        copy.push(items[i].clone());
        i = i + 1;
    }
    assert(copy.deep_view() =~= items.deep_view());
    copy
}

impl Clone for ParamValue {
    fn clone(&self) -> (copy: Self)
        ensures
            copy@ == self@,
    {
        match self {
            ParamValue::Null => ParamValue::Null,
            ParamValue::Text(text) => ParamValue::Text(text.clone()),
            ParamValue::Integer(number) => ParamValue::Integer(*number),
            ParamValue::Flag(flag) => ParamValue::Flag(*flag),
            ParamValue::TextList(items) => ParamValue::TextList(clone_texts(items)),
        }
    }
}

/// A named member of an outbound object.
#[derive(Debug, PartialEq, Eq)]
pub struct Param {
    pub name: String,
    pub value: ParamValue,
}

/// Mathematical view of [`Param`].
pub struct ParamView {
    pub name: Seq<char>,
    pub value: ParamValueView,
}

impl View for Param {
    type V = ParamView;

    open spec fn view(&self) -> ParamView {
        ParamView { name: self.name@, value: self.value@ }
    }
}

impl DeepView for Param {
    type V = ParamView;

    open spec fn deep_view(&self) -> ParamView {
        self@
    }
}

impl Clone for Param {
    fn clone(&self) -> (copy: Self)
        ensures
            copy@ == self@,
    {
        Param { name: self.name.clone(), value: self.value.clone() }
    }
}

/// A copy of a list of members.
pub fn clone_params(members: &Vec<Param>) -> (copy: Vec<Param>)
    ensures
        copy.deep_view() == members.deep_view(),
{
    let mut copy: Vec<Param> = Vec::new();
    let mut i: usize = 0;
    while i < members.len()
        invariant
            i <= members.len(),
            copy.len() == i,
            forall|j: int| 0 <= j < i ==> (#[trigger] copy[j])@ == members[j]@,
        decreases members.len() - i,
    {
        copy.push(members[i].clone());
        i = i + 1;
    }
    assert(copy.deep_view() =~= members.deep_view());
    copy
}

/// A named member of an outbound object that holds an object of its own.
#[derive(Debug, PartialEq, Eq)]
pub struct ParamGroup {
    pub name: String,
    pub members: Vec<Param>,
}

/// Mathematical view of [`ParamGroup`].
pub struct ParamGroupView {
    pub name: Seq<char>,
    pub members: Seq<ParamView>,
}

impl View for ParamGroup {
    type V = ParamGroupView;

    open spec fn view(&self) -> ParamGroupView {
        ParamGroupView { name: self.name@, members: self.members.deep_view() }
    }
}

impl DeepView for ParamGroup {
    type V = ParamGroupView;

    open spec fn deep_view(&self) -> ParamGroupView {
        self@
    }
}

impl Clone for ParamGroup {
    fn clone(&self) -> (copy: Self)
        ensures
            copy@ == self@,
    {
        ParamGroup { name: self.name.clone(), members: clone_params(&self.members) }
    }
}

/// What `serde_json::to_string` returns for the JSON object that holds the
/// members `fields`, collected in order, and then the members `groups`,
/// collected in order, each holding the object of its own members: the text,
/// or the description of the error.
pub uninterp spec fn json_object_text(
    fields: Seq<ParamView>,
    groups: Seq<ParamGroupView>,
) -> Result<Seq<char>, Seq<char>>;

/// What is found in the JSON document `text` along `path`: the text is parsed
/// by `serde_json::from_str`, each name of `path` in turn selects a member
/// with `Value::get`, and `Value::as_str` reads what is reached. `None` when
/// the text is not JSON, when a step selects nothing, or when what is reached
/// is not a string.
pub uninterp spec fn json_text_at(text: Seq<char>, path: Seq<Seq<char>>) -> Option<Seq<char>>;

/// Encodes, with `serde_json`, the JSON object that holds the members
/// `fields` and the object-valued members `groups`.
///
/// Trusted: the members are collected, in the order given, into a
/// `serde_json::Value` that is an object, and the object is handed to
/// `serde_json::to_string`; its answer, with an error replaced by its
/// description, is the value that [`json_object_text`] names for these
/// arguments. The answer is a text: `to_string` fails only on a map whose
/// keys are no strings or on a value that refuses to be serialized, and an
/// object of nulls, texts, integers, flags and lists of texts under names
/// that are strings is neither.
#[verifier::external_body]
pub(crate) fn encode_object(fields: &Vec<Param>, groups: &Vec<ParamGroup>) -> (encoded: Result<
    String,
    String,
>)
    ensures
        text_outcome(encoded) == json_object_text(fields.deep_view(), groups.deep_view()),
        encoded is Ok,
{
    let member = |p: &Param| (p.name.clone(), match &p.value {
        ParamValue::Null => Value::Null,
        ParamValue::Text(text) => Value::from(text.as_str()),
        ParamValue::Integer(number) => Value::from(*number),
        ParamValue::Flag(flag) => Value::from(*flag),
        ParamValue::TextList(items) => Value::from(items.as_slice()),
    });
    let group = |g: &ParamGroup| (g.name.clone(), Value::from_iter(g.members.iter().map(member)));
    let root = Value::from_iter(fields.iter().map(member).chain(groups.iter().map(group)));
    serde_json::to_string(&root).map_err(|e| e.to_string())
}

/// Reads, with `serde_json`, the string found in the JSON document `text`
/// along `path`.
///
/// Trusted: the text is parsed by `serde_json::from_str`, the names of `path`
/// are followed with `Value::get`, and `Value::as_str` reads the end; the
/// answer is the value that [`json_text_at`] names for these arguments.
#[verifier::external_body]
pub(crate) fn read_text_at(text: &str, path: &Vec<&str>) -> (found: Option<String>)
    ensures
        found.deep_view() == json_text_at(text@, path.deep_view()),
{
    let root: Value = serde_json::from_str(text).ok()?;
    let end = path.iter().try_fold(&root, |at, name| at.get(name))?;
    end.as_str().map(|s| s.to_string())
}

} // verus!
