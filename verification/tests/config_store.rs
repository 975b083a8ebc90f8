use app_launcher::codec::{
    app_from_value, app_to_value, config_from_value, config_to_value, folder_from_value,
    folder_to_value,
};
use app_launcher::store::{config_from_parsed, text_from_rendered};
use app_launcher::{
    parse_config, read_config, render_config, write_config, App, Config, ConfigError, Folder,
    CONFIG_FILE,
};
use serde_json::Value;

fn app(name: &str, icon: &str, path: &str) -> App {
    App::new(name.to_string(), icon.to_string(), path.to_string())
}

fn folder(name: &str, apps: Vec<App>) -> Folder {
    Folder::new(name.to_string(), apps)
}

fn dev_config() -> Config {
    Config::new(vec![folder("Dev", vec![app("Editor", "edit.png", "editor.exe")])])
}

fn object(entries: Vec<(&str, Value)>) -> Value {
    let mut map = serde_json::Map::new();
    for (key, value) in entries {
        map.insert(key.to_string(), value);
    }
    Value::Object(map)
}

fn text(s: &str) -> Value {
    Value::String(s.to_string())
}

const DEV_TEXT: &str = "{
  \"folders\": [
    {
      \"name\": \"Dev\",
      \"apps\": [
        {
          \"name\": \"Editor\",
          \"icon\": \"edit.png\",
          \"path\": \"editor.exe\"
        }
      ]
    }
  ]
}";

#[test]
fn stored_file_is_read_exactly() {
    let read = parse_config(DEV_TEXT).unwrap();
    assert_eq!(read, dev_config());
    assert_eq!(read.folders.len(), 1);
    assert_eq!(read.folders[0].name, "Dev");
    assert_eq!(read.folders[0].apps.len(), 1);
    assert_eq!(read.folders[0].apps[0].name, "Editor");
    assert_eq!(read.folders[0].apps[0].icon, "edit.png");
    assert_eq!(read.folders[0].apps[0].path, "editor.exe");
}

#[test]
fn added_folder_is_read_back_in_insertion_order() {
    let mut config = parse_config(DEV_TEXT).unwrap();
    config.folders.push(folder("Media", Vec::new()));
    let written = render_config(&config).unwrap();
    let read = parse_config(&written).unwrap();
    assert_eq!(read.folders.len(), 2);
    assert_eq!(read.folders[0], dev_config().folders[0]);
    assert_eq!(read.folders[1], folder("Media", Vec::new()));
    assert_eq!(read, config);
}

#[test]
fn compact_text_is_read_like_pretty_text() {
    let compact = "{\"folders\":[{\"name\":\"Dev\",\"apps\":[{\"name\":\"Editor\",\"icon\":\"edit.png\",\"path\":\"editor.exe\"}]}]}";
    assert_eq!(parse_config(compact), Ok(dev_config()));
}

#[test]
fn config_is_written_pretty_in_field_order() {
    assert_eq!(render_config(&dev_config()), Ok(DEV_TEXT.to_string()));
}

#[test]
fn empty_lists_are_written_as_brackets() {
    let none = Config { folders: Vec::new() };
    assert_eq!(render_config(&none), Ok("{\n  \"folders\": []\n}".to_string()));
    let media = Config { folders: vec![folder("Media", Vec::new())] };
    assert_eq!(
        render_config(&media),
        Ok("{\n  \"folders\": [\n    {\n      \"name\": \"Media\",\n      \"apps\": []\n    }\n  ]\n}"
            .to_string())
    );
}

#[test]
fn write_then_read_gives_the_same_config() {
    let config = Config {
        folders: vec![
            folder(
                "Dev",
                vec![
                    app("Editor", "edit.png", "editor.exe"),
                    app("Shell", "", "cmd /K echo \"hi\" & dir C:\\"),
                    app("", "", ""),
                ],
            ),
            folder("", Vec::new()),
            folder("Dev", vec![app("Editor", "edit.png", "editor.exe")]),
            folder("M\u{e9}dia \u{1f3b5}\n\ttab", vec![app("\u{0}", "\u{7f}", "\\\\server\\share")]),
        ],
    };
    let written = render_config(&config).unwrap();
    assert_eq!(parse_config(&written), Ok(config));
}

#[test]
fn write_then_read_keeps_an_empty_config() {
    let config = Config { folders: Vec::new() };
    let written = render_config(&config).unwrap();
    assert_eq!(parse_config(&written), Ok(config));
}

#[test]
fn folders_that_are_no_list_are_a_shape_error() {
    assert_eq!(parse_config("{\"folders\": \"not-a-list\"}"), Err(ConfigError::Shape));
}

#[test]
fn text_that_is_no_json_is_a_syntax_error() {
    for bad in ["", "{", "{\"folders\": [}", "folders", "{\"folders\": []} trailing"] {
        let expected = serde_json::from_str::<Value>(bad).unwrap_err().to_string();
        assert_eq!(parse_config(bad), Err(ConfigError::Syntax(expected)));
    }
}

#[test]
fn syntax_error_carries_the_parsers_message() {
    match parse_config("{") {
        Err(ConfigError::Syntax(message)) => {
            assert_eq!(message, "EOF while parsing an object at line 1 column 1");
        }
        other => panic!("unexpected result: {:?}", other),
    }
}

#[test]
fn json_of_another_shape_is_a_shape_error() {
    let texts = [
        "null",
        "true",
        "12",
        "\"folders\"",
        "[]",
        "{}",
        "{\"Folders\": []}",
        "{\"folders\": null}",
        "{\"folders\": {}}",
        "{\"folders\": [null]}",
        "{\"folders\": [[]]}",
        "{\"folders\": [{}]}",
        "{\"folders\": [{\"name\": \"Dev\"}]}",
        "{\"folders\": [{\"apps\": []}]}",
        "{\"folders\": [{\"name\": 1, \"apps\": []}]}",
        "{\"folders\": [{\"name\": \"Dev\", \"apps\": {}}]}",
        "{\"folders\": [{\"name\": \"Dev\", \"apps\": [1]}]}",
        "{\"folders\": [{\"name\": \"Dev\", \"apps\": [{\"name\": \"E\", \"icon\": \"i\"}]}]}",
        "{\"folders\": [{\"name\": \"Dev\", \"apps\": [{\"name\": \"E\", \"path\": \"p\"}]}]}",
        "{\"folders\": [{\"name\": \"Dev\", \"apps\": [{\"icon\": \"i\", \"path\": \"p\"}]}]}",
        "{\"folders\": [{\"name\": \"Dev\", \"apps\": [{\"name\": \"E\", \"icon\": \"i\", \"path\": null}]}]}",
        "{\"folders\": [{\"name\": \"Dev\", \"apps\": [{\"name\": \"E\", \"icon\": 2, \"path\": \"p\"}]}]}",
        "{\"folders\": [{\"name\": \"Dev\", \"apps\": [[\"E\", \"i\", \"p\"]]}]}",
    ];
    for text in texts {
        assert_eq!(parse_config(text), Err(ConfigError::Shape), "{}", text);
    }
}

#[test]
fn a_bad_folder_after_good_ones_fails_the_whole_read() {
    let text = "{\"folders\": [{\"name\": \"A\", \"apps\": []}, {\"name\": \"B\"}]}";
    assert_eq!(parse_config(text), Err(ConfigError::Shape));
    let text = "{\"folders\": [{\"name\": \"A\", \"apps\": [{\"name\": \"E\", \"icon\": \"i\", \"path\": \"p\"}, 7]}]}";
    assert_eq!(parse_config(text), Err(ConfigError::Shape));
}

#[test]
fn members_beyond_the_shape_are_ignored() {
    let text = "{\"version\": 2, \"folders\": [{\"apps\": [{\"path\": \"p\", \"args\": [1, 2], \"icon\": \"i\", \"name\": \"n\"}], \"color\": null, \"name\": \"Dev\"}], \"theme\": {\"dark\": true}}";
    assert_eq!(parse_config(text), Ok(Config { folders: vec![folder("Dev", vec![app("n", "i", "p")])] }));
}

#[test]
fn value_of_the_shape_is_read() {
    let value = object(vec![(
        "folders",
        Value::Array(vec![object(vec![
            ("name", text("Dev")),
            (
                "apps",
                Value::Array(vec![object(vec![
                    ("name", text("Editor")),
                    ("icon", text("edit.png")),
                    ("path", text("editor.exe")),
                ])]),
            ),
        ])]),
    )]);
    assert_eq!(config_from_value(&value), Some(dev_config()));
    assert_eq!(config_from_value(&text("folders")), None);
    assert_eq!(config_from_value(&object(vec![("folders", text("not-a-list"))])), None);
}

#[test]
fn app_and_folder_values_are_read() {
    let editor = object(vec![
        ("path", text("editor.exe")),
        ("name", text("Editor")),
        ("icon", text("edit.png")),
    ]);
    assert_eq!(app_from_value(&editor), Some(app("Editor", "edit.png", "editor.exe")));
    assert_eq!(app_from_value(&object(vec![("name", text("Editor"))])), None);
    assert_eq!(app_from_value(&Value::Null), None);
    let dev = object(vec![("name", text("Dev")), ("apps", Value::Array(vec![editor.clone()]))]);
    assert_eq!(
        folder_from_value(&dev),
        Some(folder("Dev", vec![app("Editor", "edit.png", "editor.exe")]))
    );
    let broken = object(vec![("name", text("Dev")), ("apps", Value::Array(vec![editor, Value::Null]))]);
    assert_eq!(folder_from_value(&broken), None);
}

#[test]
fn config_is_written_as_a_value_of_the_shape() {
    let expected = object(vec![(
        "folders",
        Value::Array(vec![object(vec![
            ("name", text("Dev")),
            (
                "apps",
                Value::Array(vec![object(vec![
                    ("name", text("Editor")),
                    ("icon", text("edit.png")),
                    ("path", text("editor.exe")),
                ])]),
            ),
        ])]),
    )]);
    let value = config_to_value(&dev_config());
    assert_eq!(value, expected);
    let keys: Vec<&String> = value["folders"][0].as_object().unwrap().keys().collect();
    assert_eq!(keys, vec!["name", "apps"]);
    let keys: Vec<&String> = value["folders"][0]["apps"][0].as_object().unwrap().keys().collect();
    assert_eq!(keys, vec!["name", "icon", "path"]);
}

#[test]
fn app_and_folder_are_written_as_values() {
    let editor = app("Editor", "edit.png", "editor.exe");
    let editor_value = object(vec![
        ("name", text("Editor")),
        ("icon", text("edit.png")),
        ("path", text("editor.exe")),
    ]);
    assert_eq!(app_to_value(&editor), editor_value);
    assert_eq!(
        folder_to_value(&folder("Dev", vec![editor])),
        object(vec![("name", text("Dev")), ("apps", Value::Array(vec![editor_value]))])
    );
    assert_eq!(
        folder_to_value(&folder("", Vec::new())),
        object(vec![("name", text("")), ("apps", Value::Array(Vec::new()))])
    );
}

#[test]
fn value_round_trip() {
    let config = Config {
        folders: vec![
            folder("A", vec![app("1", "", "x"), app("2", "i", "")]),
            folder("", Vec::new()),
        ],
    };
    assert_eq!(config_from_value(&config_to_value(&config)), Some(config));
}

#[test]
fn parser_outcome_is_mapped() {
    let good = serde_json::from_str::<Value>(DEV_TEXT);
    assert_eq!(config_from_parsed(good), Ok(dev_config()));
    let other = serde_json::from_str::<Value>("[1, 2]");
    assert_eq!(config_from_parsed(other), Err(ConfigError::Shape));
    let bad = serde_json::from_str::<Value>("[1, 2");
    let message = serde_json::from_str::<Value>("[1, 2").unwrap_err().to_string();
    assert_eq!(config_from_parsed(bad), Err(ConfigError::Syntax(message)));
}

#[test]
fn writer_outcome_is_mapped() {
    assert_eq!(text_from_rendered(Ok("{}".to_string())), Ok("{}".to_string()));
    let error = serde_json::from_str::<Value>("?").unwrap_err();
    let message = error.to_string();
    assert_eq!(text_from_rendered(Err(error)), Err(ConfigError::Render(message)));
}

#[test]
fn error_messages() {
    assert_eq!(ConfigError::Syntax("expected value".to_string()).message(), "expected value");
    assert_eq!(ConfigError::Render("key must be a string".to_string()).message(), "key must be a string");
    assert_eq!(
        ConfigError::Shape.message(),
        "the document does not have the shape of a configuration"
    );
    assert_eq!(ConfigError::Syntax(String::new()).message(), "");
}

#[test]
fn config_file_name() {
    assert_eq!(CONFIG_FILE, "config.json");
}

#[test]
fn builders_keep_what_they_are_given() {
    let editor = app("Editor", "edit.png", "editor.exe");
    assert_eq!(editor.name, "Editor");
    assert_eq!(editor.icon, "edit.png");
    assert_eq!(editor.path, "editor.exe");
    let dev = folder("Dev", vec![editor.clone(), app("", "", "")]);
    assert_eq!(dev.name, "Dev");
    assert_eq!(dev.apps, vec![editor, app("", "", "")]);
    let config = Config::new(vec![dev.clone(), folder("Media", Vec::new())]);
    assert_eq!(config.folders, vec![dev, folder("Media", Vec::new())]);
}

#[test]
fn failed_read_is_an_error_and_no_default() {
    let message = "No such file or directory (os error 2)".to_string();
    assert_eq!(read_config(Err(message.clone())), Err(message));
    assert_eq!(read_config(Err(String::new())), Err(String::new()));
}

#[test]
fn read_text_is_parsed() {
    assert_eq!(read_config(Ok(DEV_TEXT.to_string())), Ok(dev_config()));
    assert_eq!(read_config(Ok("{\"folders\": []}".to_string())), Ok(Config::new(Vec::new())));
}

#[test]
fn read_of_malformed_text_is_a_message() {
    assert_eq!(
        read_config(Ok("{\"folders\": \"not-a-list\"}".to_string())),
        Err("the document does not have the shape of a configuration".to_string())
    );
    assert_eq!(
        read_config(Ok(String::new())),
        Err("EOF while parsing a value at line 1 column 0".to_string())
    );
}

#[test]
fn text_to_store_is_the_pretty_text() {
    assert_eq!(write_config(&dev_config()), Ok(DEV_TEXT.to_string()));
}

#[test]
fn stored_text_is_read_back() {
    let mut config = read_config(Ok(DEV_TEXT.to_string())).unwrap();
    config.folders.push(folder("Media", Vec::new()));
    let stored = write_config(&config);
    assert_eq!(read_config(stored), Ok(config));
}
