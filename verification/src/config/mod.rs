//! Table configuration: raw options and the values that they resolve to.
use vstd::prelude::*;

use crate::text_map;
use crate::text_map::TextMap;

pub mod write;

verus! {

/// The options of a table, by key.
#[derive(Debug)]
pub struct HudiConfigs {
    options: TextMap,
}

impl View for HudiConfigs {
    type V = Map<Seq<char>, Seq<char>>;

    closed spec fn view(&self) -> Map<Seq<char>, Seq<char>> {
        self.options@
    }
}

impl HudiConfigs {
    /// The options of a list of keys and values. A later entry replaces an earlier one of the same
    /// key.
    pub fn new(options: Vec<(String, String)>) -> (r: Self)
        ensures
            r@ == text_map::entries_map(options@),
    {
        HudiConfigs { options: TextMap::new(options) }
    }

    /// The raw value under a key.
    pub fn raw(&self, key: &str) -> (r: Option<&String>)
        ensures
            r is Some <==> self@.contains_key(key@),
            r matches Some(value) ==> value@ == self@[key@],
    {
        self.options.get(key)
    }
}

/// Another key that a setting may be given under.
#[derive(Clone, Copy, Debug)]
pub struct ConfigAlias {
    pub key: &'static str,
    pub deprecated: bool,
}

impl ConfigAlias {
    /// A key that is still read but should no longer be used.
    pub fn deprecated(key: &'static str) -> (r: Self)
        ensures
            r.key@ == key@,
            r.deprecated,
    {
        ConfigAlias { key, deprecated: true }
    }
}

/// The value of a setting.
#[derive(Debug, PartialEq, Eq)]
pub enum HudiConfigValue {
    String(String),
    UInteger(usize),
}

/// The value of a setting by its text or number.
pub enum ConfigValueModel {
    Text(Seq<char>),
    Count(usize),
}

impl View for HudiConfigValue {
    type V = ConfigValueModel;

    open spec fn view(&self) -> ConfigValueModel {
        match self {
            HudiConfigValue::String(text) => ConfigValueModel::Text(text@),
            HudiConfigValue::UInteger(count) => ConfigValueModel::Count(*count),
        }
    }
}

} // verus!
