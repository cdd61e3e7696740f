//! The configuration file: two optional paths, kept as a JSON object with the
//! keys `dataFilePath` and `syncPath`.
//!
//! Reading never fails: a file that is missing, is not JSON or does not have
//! this shape counts as a file that sets nothing. Writing leaves out the key
//! of a path that is not set.

use crate::json::{
    empty_members, insert_member, json_is_null, json_member, json_object, json_parsed,
    json_pretty, json_string, json_text, member, object_value, parse, pretty, text_value,
};
use crate::texts::{owned_text_of, text_of};
use serde_json::Value;
use vstd::prelude::*;

verus! {

/// The paths that the user may override.
#[derive(Debug, Clone, PartialEq, Eq)]
pub struct Configuration {
    /// Where the data file lives, if not at its default place.
    pub data_file_path: Option<String>,
    /// Where the sync directory lives, if not at its default place.
    pub sync_path: Option<String>,
}

/// A `Configuration` with its paths as sequences of characters.
pub struct ConfigurationView {
    pub data_file_path: Option<Seq<char>>,
    pub sync_path: Option<Seq<char>>,
}

impl View for Configuration {
    type V = ConfigurationView;

    open spec fn view(&self) -> ConfigurationView {
        ConfigurationView {
            data_file_path: owned_text_of(self.data_file_path),
            sync_path: owned_text_of(self.sync_path),
        }
    }
}

/// The configuration that sets nothing.
pub open spec fn unset() -> ConfigurationView {
    ConfigurationView { data_file_path: None, sync_path: None }
}

/// What a JSON value holds under `key`, read as an optional string: nothing
/// where there is no such member or the member is null, the string where the
/// member is one. `None` says that the member is of another kind.
pub open spec fn field_of(value: Value, key: Seq<char>) -> Option<Option<Seq<char>>> {
    match json_member(value, key) {
        None => Some(None),
        Some(found) => if json_is_null(found) {
            Some(None)
        } else {
            match json_string(found) {
                Some(s) => Some(Some(s)),
                None => None,
            }
        },
    }
}

/// The configuration that a JSON value holds. A value in which either path
/// is of the wrong kind sets nothing at all.
pub open spec fn configuration_in(value: Value) -> ConfigurationView {
    match (field_of(value, "dataFilePath"@), field_of(value, "syncPath"@)) {
        (Some(data_file_path), Some(sync_path)) => ConfigurationView { data_file_path, sync_path },
        _ => unset(),
    }
}

/// The configuration that the file's content stands for; `None` is a file
/// that is missing or cannot be read.
pub open spec fn stored_configuration(content: Option<Seq<char>>) -> ConfigurationView {
    match content {
        None => unset(),
        Some(text) => match json_parsed(text) {
            Ok(value) => configuration_in(value),
            Err(_) => unset(),
        },
    }
}

/// `members` with the JSON string for `path` under `key` where the path is
/// set, and `members` as they are where it is not.
pub open spec fn with_field(
    members: Map<Seq<char>, Value>,
    key: Seq<char>,
    path: Option<Seq<char>>,
) -> Map<Seq<char>, Value> {
    match path {
        Some(p) => members.insert(key, json_text(p)),
        None => members,
    }
}

/// The members of the object that is written for a configuration: a key
/// stands in it only for a path that is set.
pub open spec fn members_of(config: ConfigurationView) -> Map<Seq<char>, Value> {
    with_field(
        with_field(Map::empty(), "dataFilePath"@, config.data_file_path),
        "syncPath"@,
        config.sync_path,
    )
}

/// The text that is written for a configuration: the indented JSON of the
/// object with those members.
pub open spec fn configuration_text(config: ConfigurationView) -> Seq<char> {
    json_pretty(json_object(members_of(config)))
}

/// A configuration together with the text to store for it.
#[derive(Debug, Clone, PartialEq, Eq)]
pub struct ConfigurationUpdate {
    /// The configuration after the change.
    pub configuration: Configuration,
    /// The content to write to the configuration file.
    pub text: String,
}

/// A `ConfigurationUpdate` by its views.
pub struct ConfigurationUpdateView {
    pub configuration: ConfigurationView,
    pub text: Seq<char>,
}

impl View for ConfigurationUpdate {
    type V = ConfigurationUpdateView;

    open spec fn view(&self) -> ConfigurationUpdateView {
        ConfigurationUpdateView { configuration: self.configuration@, text: self.text@ }
    }
}

/// Setting the sync directory to `path` in the configuration that `content`
/// stands for: the data file's path is kept, the sync path replaced, and the
/// text is that of the new configuration.
pub open spec fn updated(content: Option<Seq<char>>, path: Seq<char>) -> ConfigurationUpdateView {
    let configuration = ConfigurationView {
        data_file_path: stored_configuration(content).data_file_path,
        sync_path: Some(path),
    };
    ConfigurationUpdateView { configuration, text: configuration_text(configuration) }
}

fn read_field(value: &Value, key: &str) -> (field: Option<Option<String>>)
    ensures
        match field {
            Some(path) => field_of(*value, key@) == Some(owned_text_of(path)),
            None => field_of(*value, key@) is None,
        },
{
    match member(value, key) {
        None => Some(None),
        Some(found) => {
            if found.is_null() {
                Some(None)
            } else {
                match found.as_str() {
                    Some(s) => Some(Some(s.to_owned())),
                    None => None,
                }
            }
        },
    }
}

fn write_field(members: &mut serde_json::Map<String, Value>, key: &str, path: &Option<String>)
    ensures
        crate::json::json_members(*final(members)) == with_field(
            crate::json::json_members(*old(members)),
            key@,
            owned_text_of(*path),
        ),
        owned_text_of(*path) matches Some(p) ==> json_string(json_text(p)) == Some(p)
            && !json_is_null(json_text(p)),
{
    match path {
        Some(p) => insert_member(members, key, text_value(p.as_str())),
        None => {},
    }
}

impl Configuration {
    /// The configuration that sets nothing.
    pub fn new() -> (config: Configuration)
        ensures
            config@ == unset(),
    {
        Configuration { data_file_path: None, sync_path: None }
    }

    /// The configuration that a JSON value holds: each path is the string
    /// under its key, and unset where the key is missing or holds null. A
    /// value that holds anything else under either key sets nothing.
    pub fn from_value(value: &Value) -> (config: Configuration)
        ensures
            config@ == configuration_in(*value),
    {
        let data_file_path = read_field(value, "dataFilePath");
        let sync_path = read_field(value, "syncPath");
        match (data_file_path, sync_path) {
            (Some(data_file_path), Some(sync_path)) => Configuration { data_file_path, sync_path },
            _ => Configuration::new(),
        }
    }

    /// The JSON object that is written for this configuration: its members
    /// are the paths that are set. Read as a configuration, the object gives
    /// this configuration back.
    pub fn to_value(&self) -> (value: Value)
        ensures
            value == json_object(members_of(self@)),
            configuration_in(value) == self@,
    {
        let mut members = empty_members();
        write_field(&mut members, "dataFilePath", &self.data_file_path);
        write_field(&mut members, "syncPath", &self.sync_path);
        let value = object_value(members);
        proof {
            reveal_strlit("dataFilePath");
            reveal_strlit("syncPath");
            assert("dataFilePath"@ != "syncPath"@) by {
                assert("dataFilePath"@.len() != "syncPath"@.len());
            }
            assert(field_of(value, "dataFilePath"@) == Some(self@.data_file_path));
            assert(field_of(value, "syncPath"@) == Some(self@.sync_path));
        }
        value
    }

    /// Reads the configuration from the file's content, `None` standing for
    /// a file that is missing or unreadable. Whatever is wrong with the file,
    /// the answer is the configuration that sets nothing.
    pub fn load(content: Option<&str>) -> (config: Configuration)
        ensures
            config@ == stored_configuration(text_of(content)),
    {
        match content {
            None => Configuration::new(),
            Some(text) => match parse(text) {
                Ok(value) => Configuration::from_value(&value),
                Err(_) => Configuration::new(),
            },
        }
    }

    /// The text to store for this configuration.
    pub fn save(&self) -> (text: String)
        ensures
            text@ == configuration_text(self@),
    {
        let value = self.to_value();
        match pretty(&value) {
            Ok(text) => text,
            Err(_) => unreached(),
        }
    }

    /// This configuration with the sync directory set to `path`; the data
    /// file's path stays as it is.
    pub fn with_sync_path(self, path: &str) -> (config: Configuration)
        ensures
            config@.sync_path == Some(path@),
            config@.data_file_path == self@.data_file_path,
    {
        Configuration { data_file_path: self.data_file_path, sync_path: Some(path.to_owned()) }
    }
}

impl Default for Configuration {
    fn default() -> (config: Configuration)
        ensures
            config@ == unset(),
    {
        Configuration::new()
    }
}

/// A key stands in the written object exactly for a path that is set, with
/// the JSON string of that path under it; the object has no other members.
pub proof fn lemma_written_members(config: ConfigurationView)
    ensures
        members_of(config).dom().contains("dataFilePath"@) <==> config.data_file_path is Some,
        members_of(config).dom().contains("syncPath"@) <==> config.sync_path is Some,
        config.data_file_path matches Some(p) ==> members_of(config)["dataFilePath"@] == json_text(
            p,
        ),
        config.sync_path matches Some(p) ==> members_of(config)["syncPath"@] == json_text(p),
        forall|key: Seq<char>| #[trigger]
            members_of(config).dom().contains(key) ==> key == "dataFilePath"@ || key
                == "syncPath"@,
        config == unset() ==> members_of(config) == Map::<Seq<char>, Value>::empty(),
{
    reveal_strlit("dataFilePath");
    reveal_strlit("syncPath");
    assert("dataFilePath"@.len() != "syncPath"@.len());
}

/// Sets the sync directory: reads the stored configuration from `content`
/// (nothing set where the file is missing or malformed), sets the sync path
/// and returns the new configuration with the text to store for it.
pub fn set_sync_path(content: Option<&str>, path: &str) -> (update: ConfigurationUpdate)
    ensures
        update@ == updated(text_of(content), path@),
{
    let configuration = Configuration::load(content).with_sync_path(path);
    let text = configuration.save();
    ConfigurationUpdate { configuration, text }
}

} // verus!
