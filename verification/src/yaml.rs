//! What the library reads of `dbt_yaml` values.
//!
//! A YAML value is described by a tree of type [`Yaml`]. The functions that
//! call into `dbt_yaml` and `serde_json` are trusted: their contracts say, over
//! that tree, what each call returns.

use vstd::prelude::*;

verus! {

/// The contents of a YAML value, without source positions.
pub enum Yaml {
    Null,
    Bool(bool),
    /// A number, by the text that it is printed as.
    Number(Seq<char>),
    Text(Seq<char>),
    Sequence(Seq<Yaml>),
    /// The entries of a mapping, in order of insertion.
    Mapping(Seq<(Yaml, Yaml)>),
    Tagged(Seq<char>, Box<Yaml>),
}

impl Yaml {
    /// The value below all tags.
    pub open spec fn untagged(self) -> Yaml
        decreases self,
    {
        match self {
            Yaml::Tagged(_, inner) => inner.untagged(),
            _ => self,
        }
    }

    /// The text of a string, tagged or not.
    pub open spec fn text(self) -> Option<Seq<char>> {
        match self.untagged() {
            Yaml::Text(s) => Some(s),
            _ => None,
        }
    }

    /// The text of an untagged scalar: a string as it is, a boolean as `true`
    /// or `false`, a number as it is printed.
    pub open spec fn scalar_text(self) -> Option<Seq<char>> {
        match self {
            Yaml::Text(s) => Some(s),
            Yaml::Bool(b) => Some(bool_text(b)),
            Yaml::Number(n) => Some(n),
            _ => None,
        }
    }

    /// Whether JSON has a counterpart of the value: no value in it is tagged,
    /// and every key of a mapping in it is a string (which may be tagged).
    pub open spec fn is_json(self) -> bool
        decreases self,
    {
        match self {
            Yaml::Sequence(items) => forall|i: int|
                0 <= i < items.len() ==> (#[trigger] items[i]).is_json(),
            Yaml::Mapping(entries) => forall|i: int| #![trigger entries[i]]
                0 <= i < entries.len() ==> entries[i].0.text() is Some && entries[i].1.is_json(),
            Yaml::Tagged(..) => false,
            _ => true,
        }
    }
}

/// A boolean in words.
pub open spec fn bool_text(b: bool) -> Seq<char> {
    if b {
        "true"@
    } else {
        "false"@
    }
}

/// The value that the entries hold under a string key.
pub open spec fn lookup(entries: Seq<(Yaml, Yaml)>, key: Seq<char>) -> Option<Yaml>
    decreases entries.len(),
{
    if entries.len() == 0 {
        None
    } else if entries[0].0 == Yaml::Text(key) {
        Some(entries[0].1)
    } else {
        lookup(entries.drop_first(), key)
    }
}

/// `dbt_yaml::Mapping`, known by the entries that it holds.
#[verifier::external_type_specification]
#[verifier::external_body]
pub struct ExMapping(dbt_yaml::Mapping);

/// `dbt_yaml::Value`, known by the tree that it holds.
#[verifier::external_type_specification]
#[verifier::external_body]
pub struct ExValue(dbt_yaml::Value);

/// `dbt_yaml::Error`, which is only passed on.
#[verifier::external_type_specification]
#[verifier::external_body]
pub struct ExYamlError(dbt_yaml::Error);

/// The entries of a mapping, in order of insertion, each key once.
pub uninterp spec fn mapping_entries(mapping: dbt_yaml::Mapping) -> Seq<(Yaml, Yaml)>;

/// What a value holds.
pub uninterp spec fn value_tree(value: dbt_yaml::Value) -> Yaml;

/// The JSON text of a YAML value that JSON has a counterpart of.
pub uninterp spec fn json_text(tree: Yaml) -> Seq<char>;

/// `dbt_yaml::Mapping::get` with a string as the index: the value of the entry
/// whose key is that string, untagged, if the mapping has one.
#[verifier::external_body]
pub(crate) fn mapping_get<'a>(mapping: &'a dbt_yaml::Mapping, key: &str) -> (found: Option<
    &'a dbt_yaml::Value,
>)
    ensures
        found matches Some(value) ==> lookup(mapping_entries(*mapping), key@) == Some(
            value_tree(*value),
        ),
        found is None ==> lookup(mapping_entries(*mapping), key@) is None,
{
    mapping.get(key)
}

/// `dbt_yaml::Value::as_str`: the text of a string, looked for below any tags,
/// and nothing for a value of another kind.
#[verifier::external_body]
pub(crate) fn value_as_str(value: &dbt_yaml::Value) -> (text: Option<&str>)
    ensures
        text matches Some(s) ==> value_tree(*value).text() == Some(s@),
        text is None ==> value_tree(*value).text() is None,
{
    value.as_str()
}

/// What kind of value stands at the root, with the contents of a scalar.
#[derive(Debug)]
pub enum ValueKind {
    Null,
    Bool(bool),
    Number(String),
    String(String),
    Sequence,
    Mapping,
    Tagged,
}

impl ValueKind {
    /// Whether this is the kind of the tree's root.
    pub open spec fn describes(self, tree: Yaml) -> bool {
        match self {
            ValueKind::Null => tree is Null,
            ValueKind::Bool(b) => tree == Yaml::Bool(b),
            ValueKind::Number(n) => tree == Yaml::Number(n@),
            ValueKind::String(s) => tree == Yaml::Text(s@),
            ValueKind::Sequence => tree is Sequence,
            ValueKind::Mapping => tree is Mapping,
            ValueKind::Tagged => tree is Tagged,
        }
    }
}

/// Tells the variants of `dbt_yaml::Value` apart; a number comes out as the
/// text that `dbt_yaml::Number` prints.
#[verifier::external_body]
pub(crate) fn value_kind(value: &dbt_yaml::Value) -> (kind: ValueKind)
    ensures
        kind.describes(value_tree(*value)),
{
    match value {
        dbt_yaml::Value::Null(..) => ValueKind::Null,
        dbt_yaml::Value::Bool(b, ..) => ValueKind::Bool(*b),
        dbt_yaml::Value::Number(n, ..) => ValueKind::Number(n.to_string()),
        dbt_yaml::Value::String(s, ..) => ValueKind::String(s.clone()),
        dbt_yaml::Value::Sequence(..) => ValueKind::Sequence,
        dbt_yaml::Value::Mapping(..) => ValueKind::Mapping,
        dbt_yaml::Value::Tagged(..) => ValueKind::Tagged,
    }
}

/// `dbt_yaml::from_value` into a `serde_json::Value`, written out as text.
///
/// The conversion succeeds only where JSON has a counterpart of the value, and
/// the text then follows from what the value holds. That it succeeds is not
/// promised: `dbt_yaml` keeps a mark per thread while it deserializes a value of
/// its own, and every conversion fails as long as the mark is set, in a callback
/// that `dbt_yaml` runs or after one that panicked. What an error says is left
/// unsaid too: it names source positions, which the tree leaves out. The
/// conversion recurses as deep as the value is nested.
#[verifier::external_body]
pub(crate) fn value_to_json(value: &dbt_yaml::Value) -> (json: Result<String, dbt_yaml::Error>)
    ensures
        json is Ok ==> value_tree(*value).is_json(),
        json matches Ok(text) ==> text@ == json_text(value_tree(*value)),
{
    let json: serde_json::Value = dbt_yaml::from_value(value.clone())?;
    Ok(json.to_string())
}

} // verus!
