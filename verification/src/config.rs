//! The launcher's persisted data: folders, in display order, each holding
//! app shortcuts, in display order.

use vstd::prelude::*;

verus! {

/// A shortcut: a label, an icon reference the host resolves, and the command
/// string handed to the command interpreter as it is.
#[derive(Clone, Debug, PartialEq, Eq)]
pub struct App {
    pub name: String,
    pub icon: String,
    pub path: String,
}

/// A named group of shortcuts. Names need not be unique.
#[derive(Clone, Debug, PartialEq, Eq)]
pub struct Folder {
    pub name: String,
    pub apps: Vec<App>,
}

/// The whole persisted list.
#[derive(Clone, Debug, PartialEq, Eq)]
pub struct Config {
    pub folders: Vec<Folder>,
}

/// What an [`App`] holds, as mathematical values.
pub ghost struct AppView {
    pub name: Seq<char>,
    pub icon: Seq<char>,
    pub path: Seq<char>,
}

/// What a [`Folder`] holds.
pub ghost struct FolderView {
    pub name: Seq<char>,
    pub apps: Seq<AppView>,
}

/// What a [`Config`] holds.
pub ghost struct ConfigView {
    pub folders: Seq<FolderView>,
}

impl View for App {
    type V = AppView;

    open spec fn view(&self) -> AppView {
        AppView { name: self.name@, icon: self.icon@, path: self.path@ }
    }
}

impl View for Folder {
    type V = FolderView;

    open spec fn view(&self) -> FolderView {
        FolderView { name: self.name@, apps: self.apps@.map_values(|a: App| a@) }
    }
}

impl View for Config {
    type V = ConfigView;

    open spec fn view(&self) -> ConfigView {
        ConfigView { folders: self.folders@.map_values(|f: Folder| f@) }
    }
}

impl App {
    /// A shortcut with the given label, icon and command.
    pub fn new(name: String, icon: String, path: String) -> (app: App)
        ensures
            app@ == (AppView { name: name@, icon: icon@, path: path@ }),
    {
        App { name, icon, path }
    }
}

impl Folder {
    /// A folder with the given label and shortcuts, in the order given.
    pub fn new(name: String, apps: Vec<App>) -> (folder: Folder)
        ensures
            folder@ == (FolderView { name: name@, apps: apps@.map_values(|a: App| a@) }),
    {
        Folder { name, apps }
    }
}

impl Config {
    /// A configuration with the given folders, in the order given.
    pub fn new(folders: Vec<Folder>) -> (config: Config)
        ensures
            config@ == (ConfigView { folders: folders@.map_values(|f: Folder| f@) }),
    {
        Config { folders }
    }
}

} // verus!
