use focus_gtd::config::{set_sync_path, Configuration};
use serde_json::Value;

fn config(data_file_path: Option<&str>, sync_path: Option<&str>) -> Configuration {
    Configuration {
        data_file_path: data_file_path.map(str::to_owned),
        sync_path: sync_path.map(str::to_owned),
    }
}

#[test]
fn new_configuration_sets_nothing() {
    assert_eq!(Configuration::new(), config(None, None));
    assert_eq!(Configuration::default(), config(None, None));
}

#[test]
fn load_of_missing_file_sets_nothing() {
    assert_eq!(Configuration::load(None), config(None, None));
}

#[test]
fn load_of_malformed_file_sets_nothing() {
    for text in ["", "   ", "{", "not json", "[]", "3", "\"x\"", "null", "{\"syncPath\": \"/a\",}"] {
        assert_eq!(Configuration::load(Some(text)), config(None, None), "{:?}", text);
    }
}

#[test]
fn load_reads_both_fields() {
    assert_eq!(
        Configuration::load(Some(
            "{\"dataFilePath\": \"/tmp/d.json\", \"syncPath\": \"/mnt/shared\"}"
        )),
        config(Some("/tmp/d.json"), Some("/mnt/shared"))
    );
}

#[test]
fn load_reads_one_field_and_leaves_the_other_unset() {
    assert_eq!(
        Configuration::load(Some("{\"syncPath\": \"/mnt/shared\"}")),
        config(None, Some("/mnt/shared"))
    );
    assert_eq!(
        Configuration::load(Some("{\"dataFilePath\": \"/tmp/d.json\", \"syncPath\": null}")),
        config(Some("/tmp/d.json"), None)
    );
}

#[test]
fn load_keeps_an_empty_string_as_it_is_stored() {
    assert_eq!(
        Configuration::load(Some("{\"dataFilePath\": \"\"}")),
        config(Some(""), None)
    );
}

#[test]
fn load_ignores_unknown_members() {
    assert_eq!(
        Configuration::load(Some("{\"theme\": {\"dark\": true}, \"syncPath\": \"/s\"}")),
        config(None, Some("/s"))
    );
}

#[test]
fn load_rejects_the_whole_file_when_a_field_has_the_wrong_kind() {
    assert_eq!(
        Configuration::load(Some("{\"dataFilePath\": 1, \"syncPath\": \"/mnt/shared\"}")),
        config(None, None)
    );
    assert_eq!(
        Configuration::load(Some("{\"dataFilePath\": \"/tmp/d.json\", \"syncPath\": {}}")),
        config(None, None)
    );
    assert_eq!(
        Configuration::load(Some("{\"syncPath\": false}")),
        config(None, None)
    );
}

#[test]
fn save_writes_both_keys_indented() {
    assert_eq!(
        config(Some("/tmp/d.json"), Some("/mnt/new")).save(),
        "{\n  \"dataFilePath\": \"/tmp/d.json\",\n  \"syncPath\": \"/mnt/new\"\n}"
    );
}

#[test]
fn save_leaves_out_the_key_of_an_unset_field() {
    assert_eq!(config(None, None).save(), "{}");
    assert_eq!(
        config(None, Some("/mnt/new")).save(),
        "{\n  \"syncPath\": \"/mnt/new\"\n}"
    );
    assert_eq!(
        config(Some("/tmp/d.json"), None).save(),
        "{\n  \"dataFilePath\": \"/tmp/d.json\"\n}"
    );
}

#[test]
fn save_keeps_the_key_of_an_empty_path() {
    assert_eq!(
        config(Some(""), None).save(),
        "{\n  \"dataFilePath\": \"\"\n}"
    );
}

#[test]
fn save_escapes_what_json_must_escape() {
    assert_eq!(
        config(Some("C:\\data\\\"my\" file\n.json"), None).save(),
        "{\n  \"dataFilePath\": \"C:\\\\data\\\\\\\"my\\\" file\\n.json\"\n}"
    );
}

fn expected_object(c: &Configuration) -> Value {
    let mut object = serde_json::Map::new();
    if let Some(p) = &c.data_file_path {
        object.insert("dataFilePath".to_owned(), Value::String(p.clone()));
    }
    if let Some(p) = &c.sync_path {
        object.insert("syncPath".to_owned(), Value::String(p.clone()));
    }
    Value::Object(object)
}

fn cases() -> Vec<Configuration> {
    vec![
        config(None, None),
        config(Some("/tmp/d.json"), None),
        config(None, Some("/mnt/shared")),
        config(Some("/tmp/d.json"), Some("/mnt/shared")),
        config(Some(""), Some("")),
        config(Some("/tmp/caf\u{e9} \"x\"\t\\\u{1}\u{1F600}.json"), Some("a\nb\r\u{7f}/")),
    ]
}

#[test]
fn to_value_holds_the_paths_that_are_set() {
    for c in cases() {
        assert_eq!(c.to_value(), expected_object(&c));
    }
    assert_eq!(config(None, None).to_value(), Value::Object(serde_json::Map::new()));
    assert_eq!(config(None, Some("/s")).to_value().get("dataFilePath"), None);
}

#[test]
fn save_prints_what_the_pretty_printer_prints_for_the_object() {
    for c in cases() {
        assert_eq!(c.save(), serde_json::to_string_pretty(&expected_object(&c)).unwrap());
    }
}

#[test]
fn from_value_reads_the_paths() {
    let value: Value =
        serde_json::from_str("{\"dataFilePath\": \"/tmp/d.json\", \"syncPath\": null, \"x\": 1}")
            .unwrap();
    assert_eq!(Configuration::from_value(&value), config(Some("/tmp/d.json"), None));
    let value: Value = serde_json::from_str("{\"syncPath\": \"/mnt/shared\"}").unwrap();
    assert_eq!(Configuration::from_value(&value), config(None, Some("/mnt/shared")));
}

#[test]
fn from_value_sets_nothing_for_a_value_of_the_wrong_shape() {
    for text in ["[\"/tmp/d.json\", \"/mnt\"]", "\"/tmp/d.json\"", "7", "null", "true", "{}"] {
        let value: Value = serde_json::from_str(text).unwrap();
        assert_eq!(Configuration::from_value(&value), config(None, None), "{}", text);
    }
    let value: Value =
        serde_json::from_str("{\"dataFilePath\": \"/tmp/d.json\", \"syncPath\": 3}").unwrap();
    assert_eq!(Configuration::from_value(&value), config(None, None));
}

#[test]
fn to_value_reads_back_as_the_configuration() {
    for c in cases() {
        assert_eq!(Configuration::from_value(&c.to_value()), c);
    }
}

#[test]
fn save_then_load_gives_the_configuration_back() {
    for c in cases() {
        let text = c.save();
        assert_eq!(Configuration::load(Some(&text)), c);
    }
}

#[test]
fn with_sync_path_keeps_the_data_file_path() {
    assert_eq!(
        config(Some("/tmp/d.json"), Some("/old")).with_sync_path("/mnt/new"),
        config(Some("/tmp/d.json"), Some("/mnt/new"))
    );
    assert_eq!(
        config(None, None).with_sync_path("/mnt/new"),
        config(None, Some("/mnt/new"))
    );
}

#[test]
fn set_sync_path_keeps_the_data_file_path() {
    let update = set_sync_path(Some("{\"dataFilePath\": \"/tmp/d.json\"}"), "/mnt/new");
    assert_eq!(update.configuration, config(Some("/tmp/d.json"), Some("/mnt/new")));
    assert_eq!(
        update.text,
        "{\n  \"dataFilePath\": \"/tmp/d.json\",\n  \"syncPath\": \"/mnt/new\"\n}"
    );
    let stored: Value = serde_json::from_str(&update.text).unwrap();
    assert_eq!(stored.get("dataFilePath"), Some(&Value::String("/tmp/d.json".to_owned())));
    assert_eq!(stored.get("syncPath"), Some(&Value::String("/mnt/new".to_owned())));
}

#[test]
fn set_sync_path_replaces_an_earlier_sync_path() {
    let update = set_sync_path(
        Some("{\"dataFilePath\": \"/tmp/d.json\", \"syncPath\": \"/mnt/old\"}"),
        "/mnt/new",
    );
    assert_eq!(update.configuration, config(Some("/tmp/d.json"), Some("/mnt/new")));
}

#[test]
fn set_sync_path_creates_the_configuration_when_the_file_is_missing() {
    let update = set_sync_path(None, "/mnt/new");
    assert_eq!(update.configuration, config(None, Some("/mnt/new")));
    assert_eq!(update.text, "{\n  \"syncPath\": \"/mnt/new\"\n}");
    let stored: Value = serde_json::from_str(&update.text).unwrap();
    assert_eq!(stored.get("dataFilePath"), None);
    assert_eq!(stored.get("syncPath"), Some(&Value::String("/mnt/new".to_owned())));
}

#[test]
fn set_sync_path_starts_afresh_from_a_malformed_file() {
    let update = set_sync_path(Some("{\"dataFilePath\": \"/tmp/d.json\""), "/mnt/new");
    assert_eq!(update.configuration, config(None, Some("/mnt/new")));
    let update = set_sync_path(Some("{\"dataFilePath\": 7}"), "/mnt/new");
    assert_eq!(update.configuration, config(None, Some("/mnt/new")));
}

#[test]
fn set_sync_path_result_loads_back() {
    let update = set_sync_path(Some("{\"dataFilePath\": \"/tmp/d.json\"}"), "/mnt/\"new\"");
    assert_eq!(Configuration::load(Some(&update.text)), update.configuration);
}
