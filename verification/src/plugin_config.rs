//! The policy that a plugin runs under: its name and its two allow-lists.

use vstd::prelude::*;
use vstd::string::*;
use toml::{Table, Value};

verus! {

/// A plugin's policy. An allow-list that is absent allows nothing.
#[derive(Debug, PartialEq, Eq)]
pub struct PluginConfig {
    pub name: String,
    pub allowed_env_vars: Option<Vec<String>>,
    pub allowed_domains: Option<Vec<String>>,
}

/// A policy as plain values.
pub struct PluginConfigView {
    pub name: Seq<char>,
    pub allowed_env_vars: Option<Seq<Seq<char>>>,
    pub allowed_domains: Option<Seq<Seq<char>>>,
}

impl View for PluginConfig {
    type V = PluginConfigView;

    open spec fn view(&self) -> PluginConfigView {
        PluginConfigView {
            name: self.name@,
            allowed_env_vars: self.allowed_env_vars.deep_view(),
            allowed_domains: self.allowed_domains.deep_view(),
        }
    }
}

impl PluginConfigView {
    /// Whether the policy lets the plugin read the variable `key`: the list
    /// is present and holds exactly that name.
    pub open spec fn allows_env_var(self, key: Seq<char>) -> bool {
        match self.allowed_env_vars {
            Some(vars) => vars.contains(key),
            None => false,
        }
    }
}

/// A copy of a list of strings, item by item.
pub fn clone_strings(items: &Vec<String>) -> (copy: Vec<String>)
    ensures
        copy.deep_view() == items.deep_view(),
{
    let mut copy: Vec<String> = Vec::new();
    let mut i: usize = 0;
    while i < items.len()
        invariant
            i <= items.len(),
            copy.len() == i,
            forall|j: int| 0 <= j < i ==> copy[j]@ == items[j]@,
        decreases items.len() - i,
    {
        copy.push(items[i].clone());
        i += 1;
    }
    assert(copy.deep_view() =~= items.deep_view());
    copy
}

impl Clone for PluginConfig {
    fn clone(&self) -> (copy: Self)
        ensures
            copy@ == self@,
    {
        let allowed_env_vars = match &self.allowed_env_vars {
            Some(vars) => Some(clone_strings(vars)),
            None => None,
        };
        let allowed_domains = match &self.allowed_domains {
            Some(domains) => Some(clone_strings(domains)),
            None => None,
        };
        PluginConfig { name: self.name.clone(), allowed_env_vars, allowed_domains }
    }
}

/// `toml::map::Map`, the table of the `toml` crate, as an opaque type.
#[verifier::external_type_specification]
#[verifier::external_body]
#[verifier::reject_recursive_types(K)]
#[verifier::reject_recursive_types(V)]
pub struct ExTomlMap<K, V>(toml::map::Map<K, V>);

/// `toml::Value`, a value of a TOML document, as an opaque type.
#[verifier::external_type_specification]
#[verifier::external_body]
pub struct ExTomlValue(toml::Value);

/// `toml::de::Error`, the error of the TOML parser, as an opaque type.
#[verifier::external_type_specification]
#[verifier::external_body]
pub struct ExTomlError(toml::de::Error);

/// The top-level keys of the TOML document that `text` is, each with its
/// value; `None` where `text` is no TOML document.
pub uninterp spec fn toml_document(text: Seq<char>) -> Option<Map<Seq<char>, Value>>;

/// The keys that a table holds, each with its value.
pub uninterp spec fn table_entries(table: Table) -> Map<Seq<char>, Value>;

/// The text of a value that is a string; `None` for a value of another kind.
pub uninterp spec fn text_of(value: Value) -> Option<Seq<char>>;

/// The items of a value that is an array, in their order; `None` for a value
/// of another kind.
pub uninterp spec fn items_of(value: Value) -> Option<Seq<Value>>;

/// Calls `toml::from_str` for a table. The contract names the outcome, which
/// depends on the text alone: the table holds the document's top-level keys,
/// and a text that is no document gives the parser's error.
#[verifier::external_body]
pub(crate) fn parse_document(text: &str) -> (document: Result<Table, toml::de::Error>)
    ensures
        match document {
            Ok(table) => toml_document(text@) == Some(table_entries(table)),
            Err(_) => toml_document(text@) is None,
        },
{
    toml::from_str::<Table>(text)
}

/// Calls `toml::map::Map::get` on a table: the value under `key` where the
/// table holds that key, and `None` where it does not.
#[verifier::external_body]
pub(crate) fn table_get<'a>(table: &'a Table, key: &str) -> (value: Option<&'a Value>)
    ensures
        match value {
            Some(found) => table_entries(*table).contains_key(key@) && table_entries(*table)[key@]
                == *found,
            None => !table_entries(*table).contains_key(key@),
        },
{
    table.get(key)
}

/// `toml::Value::as_str` gives the text of a string value and `None` for any
/// other value.
pub assume_specification<'a>[ toml::Value::as_str ](value: &'a Value) -> (text: Option<&'a str>)
    ensures
        match text {
            Some(text) => text_of(*value) == Some(text@),
            None => text_of(*value) is None,
        },
;

/// `toml::Value::as_array` gives the items of an array value and `None` for
/// any other value.
pub assume_specification<'a>[ toml::Value::as_array ](value: &'a Value) -> (items: Option<
    &'a Vec<Value>,
>)
    ensures
        match items {
            Some(items) => items_of(*value) == Some(items@),
            None => items_of(*value) is None,
        },
;

/// The list of strings that a value is: an array whose items are all
/// strings. Any other value is no such list.
pub open spec fn spec_text_list(value: Value) -> Option<Seq<Seq<char>>> {
    match items_of(value) {
        Some(items) => if forall|i: int| 0 <= i < items.len() ==> text_of(#[trigger] items[i]) is Some {
            Some(Seq::new(items.len(), |i: int| text_of(items[i])->0))
        } else {
            None
        },
        None => None,
    }
}

/// An allow-list under `key`: absent where the key is absent, the list where
/// the key holds a list of strings; `None` where it holds anything else.
pub open spec fn spec_allow_list(entries: Map<Seq<char>, Value>, key: Seq<char>) -> Option<
    Option<Seq<Seq<char>>>,
> {
    if !entries.contains_key(key) {
        Some(None)
    } else {
        match spec_text_list(entries[key]) {
            Some(list) => Some(Some(list)),
            None => None,
        }
    }
}

/// The policy that three readings give: the name, which must have been
/// read and may not be empty, and the two allow-lists, each of which must
/// have been read, as a list or as absent.
pub open spec fn spec_config_of_parts(
    name: Option<Seq<char>>,
    allowed_env_vars: Option<Option<Seq<Seq<char>>>>,
    allowed_domains: Option<Option<Seq<Seq<char>>>>,
) -> Option<PluginConfigView> {
    match (name, allowed_env_vars, allowed_domains) {
        (Some(name), Some(allowed_env_vars), Some(allowed_domains)) => if name.len() == 0 {
            None
        } else {
            Some(PluginConfigView { name, allowed_env_vars, allowed_domains })
        },
        _ => None,
    }
}

/// The name that the top-level keys of a document give: the text under
/// `name`, where that key is there and holds a string.
pub open spec fn spec_name_of_entries(entries: Map<Seq<char>, Value>) -> Option<Seq<char>> {
    if entries.contains_key("name"@) {
        text_of(entries["name"@])
    } else {
        None
    }
}

/// The policy that the top-level keys of a document describe. `name` must be
/// there and be a string that is not empty; each of the two allow-lists may
/// be absent and must else be a list of strings. Keys other than these three
/// are ignored.
pub open spec fn spec_config_of_entries(entries: Map<Seq<char>, Value>) -> Option<PluginConfigView> {
    spec_config_of_parts(
        spec_name_of_entries(entries),
        spec_allow_list(entries, "allowed_env_vars"@),
        spec_allow_list(entries, "allowed_domains"@),
    )
}

/// The policy that a text describes: that of its top-level keys where the
/// text is a TOML document, and none where it is not.
pub open spec fn spec_config_of_text(text: Seq<char>) -> Option<PluginConfigView> {
    match toml_document(text) {
        Some(entries) => spec_config_of_entries(entries),
        None => None,
    }
}

/// The plain values of a policy that may be missing.
pub open spec fn spec_config_view(config: Option<PluginConfig>) -> Option<PluginConfigView> {
    match config {
        Some(config) => Some(config@),
        None => None,
    }
}

/// Reads a value as a list of strings.
pub fn text_list(value: &Value) -> (list: Option<Vec<String>>)
    ensures
        list.deep_view() == spec_text_list(*value),
{
    match value.as_array() {
        None => None,
        Some(items) => {
            let mut list: Vec<String> = Vec::new();
            let mut i: usize = 0;
            while i < items.len()
                invariant
                    i <= items.len(),
                    list.len() == i,
                    items_of(*value) == Some(items@),
                    forall|j: int| 0 <= j < i ==> text_of(#[trigger] items[j]) == Some(list[j]@),
                decreases items.len() - i,
            {
                match items[i].as_str() {
                    None => {
                        assert(text_of(items@[i as int]) is None);
                        return None;
                    },
                    Some(text) => {
                        list.push(text.to_owned());
                    },
                }
                i += 1;
            }
            assert(list.deep_view() =~= Seq::new(items@.len(), |i: int| text_of(items@[i])->0));
            Some(list)
        },
    }
}

/// Reads the allow-list under `key` from a table. The outer `None` says that
/// the key holds something that is no list of strings.
pub fn allow_list(table: &Table, key: &str) -> (list: Option<Option<Vec<String>>>)
    ensures
        list.deep_view() == spec_allow_list(table_entries(*table), key@),
{
    match table_get(table, key) {
        None => Some(None),
        Some(value) => match text_list(value) {
            Some(list) => Some(Some(list)),
            None => None,
        },
    }
}

impl PluginConfig {
    /// Makes a policy of three readings: the name, and the two allow-lists.
    /// For each, `None` says that it could not be read; for an allow-list,
    /// `Some(None)` says that it is absent. A name that is missing or empty,
    /// or a list that could not be read, gives no policy.
    pub fn from_parts(
        name: Option<String>,
        allowed_env_vars: Option<Option<Vec<String>>>,
        allowed_domains: Option<Option<Vec<String>>>,
    ) -> (config: Option<Self>)
        ensures
            spec_config_view(config) == spec_config_of_parts(
                name.deep_view(),
                allowed_env_vars.deep_view(),
                allowed_domains.deep_view(),
            ),
    {
        match (name, allowed_env_vars, allowed_domains) {
            (Some(name), Some(allowed_env_vars), Some(allowed_domains)) => {
                if name.as_str().unicode_len() == 0 {
                    None
                } else {
                    Some(PluginConfig { name, allowed_env_vars, allowed_domains })
                }
            },
            _ => None,
        }
    }

    /// Reads a policy from the top-level keys of a document.
    pub fn from_table(table: &Table) -> (config: Option<Self>)
        ensures
            spec_config_view(config) == spec_config_of_entries(table_entries(*table)),
    {
        let name = match table_get(table, "name") {
            None => None,
            Some(value) => match value.as_str() {
                None => None,
                Some(text) => Some(text.to_owned()),
            },
        };
        let allowed_env_vars = allow_list(table, "allowed_env_vars");
        let allowed_domains = allow_list(table, "allowed_domains");
        Self::from_parts(name, allowed_env_vars, allowed_domains)
    }

    /// Reads a policy from the text of a config file. A text that is no TOML
    /// document, or whose keys describe no policy, gives `None`: there is no
    /// partial policy.
    pub fn new_from_str(config: &str) -> (parsed: Option<Self>)
        ensures
            spec_config_view(parsed) == spec_config_of_text(config@),
    {
        match parse_document(config) {
            Ok(table) => Self::from_table(&table),
            Err(_) => None,
        }
    }

    /// Reads a policy from what reading the config file gave: its text, or
    /// the reason why it could not be read, which gives no policy.
    pub fn new_from_file(contents: Result<String, String>) -> (parsed: Option<Self>)
        ensures
            spec_config_view(parsed) == (match contents {
                Ok(text) => spec_config_of_text(text@),
                Err(_) => None,
            }),
    {
        match contents {
            Ok(text) => Self::new_from_str(text.as_str()),
            Err(_) => None,
        }
    }
}

} // verus!
