use vstd::prelude::*;

verus! {

#[verifier::external_type_specification]
#[verifier::external_body]
pub struct ExTomlSerError(toml::ser::Error);

#[verifier::external_type_specification]
#[verifier::external_body]
pub struct ExTomlDeError(toml::de::Error);

/// A value written under a top-level key of a TOML document.
#[derive(Debug, Clone, PartialEq, Eq)]
pub enum TomlValue {
    Text(String),
    TextList(Vec<String>),
}

pub enum TomlValueModel {
    Text(Seq<char>),
    TextList(Seq<Seq<char>>),
}

impl View for TomlValue {
    type V = TomlValueModel;

    open spec fn view(&self) -> TomlValueModel {
        match self {
            TomlValue::Text(s) => TomlValueModel::Text(s@),
            TomlValue::TextList(l) => TomlValueModel::TextList(l@.map_values(|s: String| s@)),
        }
    }
}

/// A value read under a top-level key of a TOML document: a string, an array
/// (with the string elements kept and every other element as `None`), or
/// anything else.
#[derive(Debug, Clone, PartialEq, Eq)]
pub enum TomlItem {
    Text(String),
    List(Vec<Option<String>>),
    Other,
}

pub enum TomlItemModel {
    Text(Seq<char>),
    List(Seq<Option<Seq<char>>>),
    Other,
}

pub open spec fn option_text_view(o: Option<String>) -> Option<Seq<char>> {
    match o {
        Some(s) => Some(s@),
        None => None,
    }
}

impl View for TomlItem {
    type V = TomlItemModel;

    open spec fn view(&self) -> TomlItemModel {
        match self {
            TomlItem::Text(s) => TomlItemModel::Text(s@),
            TomlItem::List(l) => TomlItemModel::List(l@.map_values(|o: Option<String>| option_text_view(o))),
            TomlItem::Other => TomlItemModel::Other,
        }
    }
}

/// The entries of a table, keys and values each seen through their view.
pub open spec fn entries_view<T: View>(entries: Seq<(String, T)>) -> Seq<(Seq<char>, T::V)> {
    entries.map_values(|e: (String, T)| (e.0@, e.1@))
}

/// How a written value reads back from a TOML document.
pub open spec fn as_read(v: TomlValueModel) -> TomlItemModel {
    match v {
        TomlValueModel::Text(s) => TomlItemModel::Text(s),
        TomlValueModel::TextList(l) => TomlItemModel::List(l.map_values(|s: Seq<char>| Some(s))),
    }
}

/// The TOML text that the toml crate renders for a table.
pub uninterp spec fn toml_text_of(table: Seq<(Seq<char>, TomlValueModel)>) -> Seq<char>;

/// The top-level entries that the toml crate reads from a text, or `None`
/// where the text is not a TOML document.
pub uninterp spec fn toml_table_of(text: Seq<char>) -> Option<Seq<(Seq<char>, TomlItemModel)>>;

/// Relies on `toml::to_string` applied to a `toml::value::Table`: renders the
/// table as TOML text. The serializer's error paths (unsupported types, dates,
/// a plain value after a table) cannot be reached by a table whose values are
/// strings and arrays of strings, so it succeeds.
#[verifier::external_body]
pub(crate) fn render_table(entries: &Vec<(String, TomlValue)>) -> (r: Result<String, toml::ser::Error>)
    ensures
        r is Ok,
        r is Ok ==> r->Ok_0@ == toml_text_of(entries_view(entries@)),
{
    let mut table = toml::value::Table::new();
    for (key, value) in entries.iter() {
        let value = match value {
            TomlValue::Text(s) => toml::Value::String(s.clone()),
            TomlValue::TextList(l) => toml::Value::Array(l.iter().map(|s| toml::Value::String(s.clone())).collect()),
        };
        table.insert(key.clone(), value);
    }
    toml::to_string(&table)
}

/// The most nesting marks (`[`, `{` and `.`) that a text handed to the toml
/// parser may hold. The parser descends by recursion, without a depth limit,
/// into nested arrays and inline tables, into each further part of a dotted
/// key, and into each further part of a table header; each such level is
/// opened by one of these marks, so this bound keeps its stack use small.
pub const MAX_NESTING_MARKS: usize = 512;

pub open spec fn is_nesting_mark(c: char) -> bool {
    c == '[' || c == '{' || c == '.'
}

/// How many nesting marks a text holds.
pub open spec fn nesting_marks(s: Seq<char>) -> nat
    decreases s.len(),
{
    if s.len() == 0 {
        0
    } else {
        nesting_marks(s.drop_last()) + if is_nesting_mark(s.last()) { 1nat } else { 0nat }
    }
}

/// Counts the nesting marks of a text.
pub fn count_nesting_marks(text: &str) -> (r: usize)
    ensures
        r == nesting_marks(text@),
{
    let n = text.unicode_len();
    let mut count: usize = 0;
    for c in it: text.chars()
        invariant
            n == text@.len(),
            it.seq() == text@,
            count <= it.index(),
            count == nesting_marks(text@.take(it.index() as int)),
    {
        proof {
            let i = it.index() as int;
            assert(text@.take(i + 1).drop_last() =~= text@.take(i));
        }
        if c == '[' || c == '{' || c == '.' {
            count = count + 1;
        }
    }
    assert(text@.take(text@.len() as int) =~= text@);
    count
}

/// Relies on `toml::from_str` into a `toml::value::Table`: reads the top-level
/// entries of a TOML document, or fails with the crate's parse error.
#[verifier::external_body]
pub(crate) fn parse_table(text: &str) -> (r: Result<Vec<(String, TomlItem)>, toml::de::Error>)
    requires
        nesting_marks(text@) <= MAX_NESTING_MARKS,
    ensures
        r is Ok <==> toml_table_of(text@) is Some,
        r is Ok ==> toml_table_of(text@) == Some(entries_view(r->Ok_0@)),
{
    let table: toml::value::Table = toml::from_str(text)?;
    Ok(table.into_iter().map(|(key, value)| (key, match value {
        toml::Value::String(s) => TomlItem::Text(s),
        toml::Value::Array(a) => TomlItem::List(a.into_iter().map(|v| match v {
            toml::Value::String(s) => Some(s),
            _ => None,
        }).collect()),
        _ => TomlItem::Other,
    })).collect())
}

} // verus!
