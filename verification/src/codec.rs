//! The shape of a stored configuration, and the mapping between a
//! [`Config`] and the JSON document that stands for it.
//!
//! A configuration is an object with a member `folders`, a list. Each folder
//! is an object with a text `name` and a list `apps`. Each app is an object
//! with texts `name`, `icon` and `path`. Members beyond these are ignored on
//! reading and never written.

use crate::config::{App, AppView, Config, ConfigView, Folder, FolderView};
use crate::json::{
    doc_items, doc_member, doc_text, document, first_with_key, list_value, object_value,
    text_value, value_items, value_member, value_text, Doc,
};
use vstd::prelude::*;

verus! {

/// The document written for an app.
pub open spec fn encode_app(app: AppView) -> Doc {
    Doc::Object(
        seq![
            ("name"@, Doc::Text(app.name)),
            ("icon"@, Doc::Text(app.icon)),
            ("path"@, Doc::Text(app.path)),
        ],
    )
}

/// The document written for a folder.
pub open spec fn encode_folder(folder: FolderView) -> Doc {
    Doc::Object(
        seq![
            ("name"@, Doc::Text(folder.name)),
            ("apps"@, Doc::List(folder.apps.map_values(|app: AppView| encode_app(app)))),
        ],
    )
}

/// The document written for a configuration.
pub open spec fn encode_config(config: ConfigView) -> Doc {
    Doc::Object(
        seq![
            (
                "folders"@,
                Doc::List(config.folders.map_values(|folder: FolderView| encode_folder(folder))),
            ),
        ],
    )
}

/// The text stored under `key`, where `doc` is an object that has such a
/// member and the member is a text.
pub open spec fn text_member(doc: Doc, key: Seq<char>) -> Option<Seq<char>> {
    match doc_member(doc, key) {
        Some(member) => doc_text(member),
        None => None,
    }
}

/// The items stored under `key`, where `doc` is an object that has such a
/// member and the member is a list.
pub open spec fn list_member(doc: Doc, key: Seq<char>) -> Option<Seq<Doc>> {
    match doc_member(doc, key) {
        Some(member) => doc_items(member),
        None => None,
    }
}

/// The app that a document stands for, if it has the shape of one.
pub open spec fn decode_app(doc: Doc) -> Option<AppView> {
    match (text_member(doc, "name"@), text_member(doc, "icon"@), text_member(doc, "path"@)) {
        (Some(name), Some(icon), Some(path)) => Some(AppView { name, icon, path }),
        _ => None,
    }
}

/// The apps that a list of documents stands for, if each has the shape of one.
pub open spec fn decode_apps(items: Seq<Doc>) -> Option<Seq<AppView>> {
    if forall|i: int| 0 <= i < items.len() ==> (#[trigger] decode_app(items[i])) is Some {
        Some(items.map_values(|item: Doc| decode_app(item)->0))
    } else {
        None
    }
}

/// The folder that a document stands for, if it has the shape of one.
pub open spec fn decode_folder(doc: Doc) -> Option<FolderView> {
    match (text_member(doc, "name"@), list_member(doc, "apps"@)) {
        (Some(name), Some(items)) => match decode_apps(items) {
            Some(apps) => Some(FolderView { name, apps }),
            None => None,
        },
        _ => None,
    }
}

/// The folders that a list of documents stands for, if each has the shape of
/// one.
pub open spec fn decode_folders(items: Seq<Doc>) -> Option<Seq<FolderView>> {
    if forall|i: int| 0 <= i < items.len() ==> (#[trigger] decode_folder(items[i])) is Some {
        Some(items.map_values(|item: Doc| decode_folder(item)->0))
    } else {
        None
    }
}

/// The configuration that a document stands for, if it has the shape of one.
pub open spec fn decode_config(doc: Doc) -> Option<ConfigView> {
    match list_member(doc, "folders"@) {
        Some(items) => match decode_folders(items) {
            Some(folders) => Some(ConfigView { folders }),
            None => None,
        },
        None => None,
    }
}

/// The documents that a sequence of values holds.
pub open spec fn documents(values: Seq<serde_json::Value>) -> Seq<Doc> {
    values.map_values(|value: serde_json::Value| document(value))
}

/// The views of a sequence of apps.
pub open spec fn app_views(apps: Seq<App>) -> Seq<AppView> {
    apps.map_values(|app: App| app@)
}

/// The views of a sequence of folders.
pub open spec fn folder_views(folders: Seq<Folder>) -> Seq<FolderView> {
    folders.map_values(|folder: Folder| folder@)
}

/// The text member `key` of an object, copied out.
fn read_text(value: &serde_json::Value, key: &str) -> (r: Option<String>)
    ensures
        match r {
            Some(text) => text_member(document(*value), key@) == Some(text@),
            None => text_member(document(*value), key@) is None,
        },
{
    match value_member(value, key) {
        Some(member) => match value_text(member) {
            Some(text) => Some(text.to_owned()),
            None => None,
        },
        None => None,
    }
}

/// The list member `key` of an object.
fn read_list<'a>(value: &'a serde_json::Value, key: &str) -> (r: Option<&'a Vec<serde_json::Value>>)
    ensures
        match r {
            Some(items) => list_member(document(*value), key@) == Some(documents(items@)),
            None => list_member(document(*value), key@) is None,
        },
{
    match value_member(value, key) {
        Some(member) => value_items(member),
        None => None,
    }
}

/// Reads an app from a JSON value: `Some` exactly when the value has the
/// shape of an app, and then the app it stands for.
pub fn app_from_value(value: &serde_json::Value) -> (r: Option<App>)
    ensures
        match r {
            Some(app) => decode_app(document(*value)) == Some(app@),
            None => decode_app(document(*value)) is None,
        },
{
    let name = match read_text(value, "name") {
        Some(text) => text,
        None => {
            return None;
        },
    };
    let icon = match read_text(value, "icon") {
        Some(text) => text,
        None => {
            return None;
        },
    };
    let path = match read_text(value, "path") {
        Some(text) => text,
        None => {
            return None;
        },
    };
    Some(App { name, icon, path })
}

/// Reads each item as an app: `Some` exactly when every item has the shape
/// of one, and then the apps in the items' order.
fn apps_from_items(items: &Vec<serde_json::Value>) -> (r: Option<Vec<App>>)
    ensures
        match r {
            Some(apps) => decode_apps(documents(items@)) == Some(app_views(apps@)),
            None => decode_apps(documents(items@)) is None,
        },
{
    let ghost docs = documents(items@);
    let mut apps: Vec<App> = Vec::new();
    let mut i: usize = 0;
    while i < items.len()
        invariant
            i <= items.len(),
            docs == documents(items@),
            apps@.len() == i,
            forall|j: int| 0 <= j < i ==> (#[trigger] decode_app(docs[j])) == Some(apps@[j]@),
        decreases items.len() - i,
    {
        match app_from_value(&items[i]) {
            Some(app) => {
                apps.push(app);
            },
            None => {
                assert(decode_app(docs[i as int]) is None);
                return None;
            },
        }
        i += 1;
    }
    assert(app_views(apps@) =~= docs.map_values(|item: Doc| decode_app(item)->0));
    Some(apps)
}

/// Reads a folder from a JSON value: `Some` exactly when the value has the
/// shape of a folder, and then the folder it stands for.
pub fn folder_from_value(value: &serde_json::Value) -> (r: Option<Folder>)
    ensures
        match r {
            Some(folder) => decode_folder(document(*value)) == Some(folder@),
            None => decode_folder(document(*value)) is None,
        },
{
    let name = match read_text(value, "name") {
        Some(text) => text,
        None => {
            return None;
        },
    };
    let items = match read_list(value, "apps") {
        Some(items) => items,
        None => {
            return None;
        },
    };
    match apps_from_items(items) {
        Some(apps) => Some(Folder { name, apps }),
        None => None,
    }
}

/// Reads each item as a folder: `Some` exactly when every item has the shape
/// of one, and then the folders in the items' order.
fn folders_from_items(items: &Vec<serde_json::Value>) -> (r: Option<Vec<Folder>>)
    ensures
        match r {
            Some(folders) => decode_folders(documents(items@)) == Some(folder_views(folders@)),
            None => decode_folders(documents(items@)) is None,
        },
{
    let ghost docs = documents(items@);
    let mut folders: Vec<Folder> = Vec::new();
    let mut i: usize = 0;
    while i < items.len()
        invariant
            i <= items.len(),
            docs == documents(items@),
            folders@.len() == i,
            forall|j: int|
                0 <= j < i ==> (#[trigger] decode_folder(docs[j])) == Some(folders@[j]@),
        decreases items.len() - i,
    {
        match folder_from_value(&items[i]) {
            Some(folder) => {
                folders.push(folder);
            },
            None => {
                assert(decode_folder(docs[i as int]) is None);
                return None;
            },
        }
        i += 1;
    }
    assert(folder_views(folders@) =~= docs.map_values(|item: Doc| decode_folder(item)->0));
    Some(folders)
}

/// Reads a configuration from a JSON value: `Some` exactly when the value
/// has the shape of a configuration, and then the configuration it stands
/// for, folders and apps in the document's order and every text as it is.
pub fn config_from_value(value: &serde_json::Value) -> (r: Option<Config>)
    ensures
        match r {
            Some(config) => decode_config(document(*value)) == Some(config@),
            None => decode_config(document(*value)) is None,
        },
{
    let items = match read_list(value, "folders") {
        Some(items) => items,
        None => {
            return None;
        },
    };
    match folders_from_items(items) {
        Some(folders) => Some(Config { folders }),
        None => None,
    }
}

/// The keys of an app's members differ from one another, and so do a
/// folder's.
proof fn lemma_keys_differ()
    ensures
        "name"@ != "icon"@,
        "name"@ != "path"@,
        "icon"@ != "path"@,
        "name"@ != "apps"@,
{
    reveal_strlit("name");
    reveal_strlit("icon");
    reveal_strlit("path");
    reveal_strlit("apps");
    assert("name"@[0] == 'n');
    assert("icon"@[0] == 'i');
    assert("path"@[0] == 'p');
    assert("apps"@[0] == 'a');
}

/// Writes an app as a JSON value: an object with the members `name`, `icon`
/// and `path`, in that order, each the app's text.
pub fn app_to_value(app: &App) -> (value: serde_json::Value)
    ensures
        document(value) == encode_app(app@),
{
    let mut entries: Vec<(String, serde_json::Value)> = Vec::new();
    entries.push(("name".to_owned(), text_value(app.name.clone())));
    entries.push(("icon".to_owned(), text_value(app.icon.clone())));
    entries.push(("path".to_owned(), text_value(app.path.clone())));
    proof {
        lemma_keys_differ();
        assert(entries@.map_values(
            |entry: (String, serde_json::Value)| (entry.0@, document(entry.1)),
        ) =~= seq![
            ("name"@, Doc::Text(app.name@)),
            ("icon"@, Doc::Text(app.icon@)),
            ("path"@, Doc::Text(app.path@)),
        ]);
    }
    object_value(entries)
}

/// Writes a folder as a JSON value: an object with the member `name`, the
/// folder's text, and then the member `apps`, the list of its apps in order.
pub fn folder_to_value(folder: &Folder) -> (value: serde_json::Value)
    ensures
        document(value) == encode_folder(folder@),
{
    let mut items: Vec<serde_json::Value> = Vec::new();
    let mut i: usize = 0;
    while i < folder.apps.len()
        invariant
            i <= folder.apps.len(),
            items@.len() == i,
            forall|j: int|
                0 <= j < i ==> document(#[trigger] items@[j]) == encode_app(folder.apps@[j]@),
        decreases folder.apps.len() - i,
    {
        items.push(app_to_value(&folder.apps[i]));
        i += 1;
    }
    assert(documents(items@) =~= folder@.apps.map_values(|app: AppView| encode_app(app)));
    let mut entries: Vec<(String, serde_json::Value)> = Vec::new();
    entries.push(("name".to_owned(), text_value(folder.name.clone())));
    entries.push(("apps".to_owned(), list_value(items)));
    proof {
        lemma_keys_differ();
        assert(entries@.map_values(
            |entry: (String, serde_json::Value)| (entry.0@, document(entry.1)),
        ) =~= seq![
            ("name"@, Doc::Text(folder.name@)),
            ("apps"@, Doc::List(folder@.apps.map_values(|app: AppView| encode_app(app)))),
        ]);
    }
    object_value(entries)
}

/// Writes a configuration as a JSON value: an object with the one member
/// `folders`, the list of its folders in order.
pub fn config_to_value(config: &Config) -> (value: serde_json::Value)
    ensures
        document(value) == encode_config(config@),
{
    let mut items: Vec<serde_json::Value> = Vec::new();
    let mut i: usize = 0;
    while i < config.folders.len()
        invariant
            i <= config.folders.len(),
            items@.len() == i,
            forall|j: int|
                0 <= j < i ==> document(#[trigger] items@[j]) == encode_folder(
                    config.folders@[j]@,
                ),
        decreases config.folders.len() - i,
    {
        items.push(folder_to_value(&config.folders[i]));
        i += 1;
    }
    assert(documents(items@) =~= config@.folders.map_values(
        |folder: FolderView| encode_folder(folder),
    ));
    let mut entries: Vec<(String, serde_json::Value)> = Vec::new();
    entries.push(("folders".to_owned(), list_value(items)));
    proof {
        assert(entries@.map_values(
            |entry: (String, serde_json::Value)| (entry.0@, document(entry.1)),
        ) =~= seq![
            (
                "folders"@,
                Doc::List(config@.folders.map_values(|folder: FolderView| encode_folder(folder))),
            ),
        ]);
    }
    object_value(entries)
}

/// The document written for an app is read back as that app.
pub proof fn lemma_decode_encode_app(app: AppView)
    ensures
        decode_app(encode_app(app)) == Some(app),
{
    lemma_keys_differ();
    reveal_with_fuel(first_with_key, 4);
    let doc = encode_app(app);
    assert(text_member(doc, "name"@) == Some(app.name));
    assert(text_member(doc, "icon"@) == Some(app.icon));
    assert(text_member(doc, "path"@) == Some(app.path));
}

/// The documents written for a sequence of apps are read back as those apps,
/// in the same order.
pub proof fn lemma_decode_encode_apps(apps: Seq<AppView>)
    ensures
        decode_apps(apps.map_values(|app: AppView| encode_app(app))) == Some(apps),
{
    let docs = apps.map_values(|app: AppView| encode_app(app));
    assert forall|i: int| 0 <= i < docs.len() implies (#[trigger] decode_app(docs[i])) == Some(
        apps[i],
    ) by {
        lemma_decode_encode_app(apps[i]);
    }
    assert(docs.map_values(|item: Doc| decode_app(item)->0) =~= apps);
}

/// The document written for a folder is read back as that folder.
pub proof fn lemma_decode_encode_folder(folder: FolderView)
    ensures
        decode_folder(encode_folder(folder)) == Some(folder),
{
    lemma_keys_differ();
    reveal_with_fuel(first_with_key, 3);
    lemma_decode_encode_apps(folder.apps);
    let doc = encode_folder(folder);
    assert(text_member(doc, "name"@) == Some(folder.name));
    assert(list_member(doc, "apps"@) == Some(
        folder.apps.map_values(|app: AppView| encode_app(app)),
    ));
}

/// The documents written for a sequence of folders are read back as those
/// folders, in the same order.
pub proof fn lemma_decode_encode_folders(folders: Seq<FolderView>)
    ensures
        decode_folders(folders.map_values(|folder: FolderView| encode_folder(folder))) == Some(
            folders,
        ),
{
    let docs = folders.map_values(|folder: FolderView| encode_folder(folder));
    assert forall|i: int| 0 <= i < docs.len() implies (#[trigger] decode_folder(docs[i]))
        == Some(folders[i]) by {
        lemma_decode_encode_folder(folders[i]);
    }
    assert(docs.map_values(|item: Doc| decode_folder(item)->0) =~= folders);
}

/// Round trip: the document written for a configuration is read back as
/// that configuration, with the folders and the apps in their order and
/// every text unchanged, the empty ones too.
pub proof fn lemma_decode_encode_config(config: ConfigView)
    ensures
        decode_config(encode_config(config)) == Some(config),
{
    reveal_with_fuel(first_with_key, 2);
    lemma_decode_encode_folders(config.folders);
    let doc = encode_config(config);
    assert(list_member(doc, "folders"@) == Some(
        config.folders.map_values(|folder: FolderView| encode_folder(folder)),
    ));
}

} // verus!
