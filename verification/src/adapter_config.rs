//! Read access to the settings of one profile target.

use crate::yaml::{
    lookup, mapping_entries, mapping_get, value_as_str, value_kind, value_tree, ValueKind, Yaml,
};
use vstd::prelude::*;

verus! {

/// The text that the entries hold under a key, where it is a string.
pub open spec fn text_at(entries: Seq<(Yaml, Yaml)>, key: Seq<char>) -> Option<Seq<char>> {
    match lookup(entries, key) {
        Some(value) => value.text(),
        None => None,
    }
}

/// The text of the scalar that the entries hold under a key.
pub open spec fn scalar_at(entries: Seq<(Yaml, Yaml)>, key: Seq<char>) -> Option<Seq<char>> {
    match lookup(entries, key) {
        Some(value) => value.scalar_text(),
        None => None,
    }
}

/// The settings of a profile target, as they stand in its YAML mapping.
pub struct AdapterConfig {
    repr: dbt_yaml::Mapping,
}

impl View for AdapterConfig {
    type V = Seq<(Yaml, Yaml)>;

    closed spec fn view(&self) -> Seq<(Yaml, Yaml)> {
        mapping_entries(self.repr)
    }
}

impl AdapterConfig {
    pub fn new(config: dbt_yaml::Mapping) -> (r: Self)
        ensures
            r@ == mapping_entries(config),
    {
        AdapterConfig { repr: config }
    }

    /// The value of a field.
    pub fn get(&self, field: &str) -> (value: Option<&dbt_yaml::Value>)
        ensures
            value matches Some(v) ==> lookup(self@, field@) == Some(value_tree(*v)),
            value is None ==> lookup(self@, field@) is None,
    {
        mapping_get(&self.repr, field)
    }

    /// The text of a field that holds a string.
    pub fn get_str(&self, field: &str) -> (text: Option<&str>)
        ensures
            text matches Some(s) ==> text_at(self@, field@) == Some(s@),
            text is None ==> text_at(self@, field@) is None,
    {
        match self.get(field) {
            Some(value) => value_as_str(value),
            None => None,
        }
    }

    /// The text of a field that holds a string, a boolean or a number.
    pub fn get_string(&self, field: &str) -> (text: Option<String>)
        ensures
            text matches Some(s) ==> scalar_at(self@, field@) == Some(s@),
            text is None ==> scalar_at(self@, field@) is None,
    {
        match self.get(field) {
            Some(value) => match value_kind(value) {
                ValueKind::String(s) => Some(s),
                ValueKind::Number(n) => Some(n),
                ValueKind::Bool(b) => if b {
                    Some("true".to_owned())
                } else {
                    Some("false".to_owned())
                },
                _ => None,
            },
            None => None,
        }
    }
}

} // verus!
