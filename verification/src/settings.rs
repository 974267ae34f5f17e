//! User settings and their defaults.

use vstd::prelude::*;

use crate::text::{ends_with_component, is_plain_name, join_path, joined_path};

verus! {

/// What the user has chosen: the speech model, whether to run it on the GPU,
/// the global hotkey, whether to copy transcriptions to the clipboard, and
/// the audio input device (empty for the system default).
#[derive(Clone, Debug)]
pub struct Settings {
    pub selected_model: String,
    pub use_gpu: bool,
    pub hotkey: String,
    pub copy_to_clipboard: bool,
    pub audio_device: String,
}

/// The contents of `Settings`, with each text taken as its characters.
pub struct SettingsView {
    pub selected_model: Seq<char>,
    pub use_gpu: bool,
    pub hotkey: Seq<char>,
    pub copy_to_clipboard: bool,
    pub audio_device: Seq<char>,
}

impl View for Settings {
    type V = SettingsView;

    open spec fn view(&self) -> SettingsView {
        SettingsView {
            selected_model: self.selected_model@,
            use_gpu: self.use_gpu,
            hotkey: self.hotkey@,
            copy_to_clipboard: self.copy_to_clipboard,
            audio_device: self.audio_device@,
        }
    }
}

/// The hotkey that a new installation, or a settings file without one, uses.
pub open spec fn default_hotkey_spec() -> Seq<char> {
    "Cmd+Shift+R"@
}

/// The settings of a new installation.
pub open spec fn default_settings() -> SettingsView {
    SettingsView {
        selected_model: "small.en"@,
        use_gpu: true,
        hotkey: default_hotkey_spec(),
        copy_to_clipboard: false,
        audio_device: Seq::<char>::empty(),
    }
}

/// "Cmd+Shift+R".
pub fn default_hotkey() -> (r: String)
    ensures
        r@ == default_hotkey_spec(),
{
    String::from_str("Cmd+Shift+R")
}

impl Default for Settings {
    fn default() -> (r: Settings)
        ensures
            r@ == default_settings(),
    {
        Settings {
            selected_model: String::from_str("small.en"),
            use_gpu: true,
            hotkey: default_hotkey(),
            copy_to_clipboard: false,
            audio_device: String::new(),
        }
    }
}

impl Settings {
    /// A copy of these settings.
    pub fn snapshot(&self) -> (r: Settings)
        ensures
            r@ == self@,
    {
        Settings {
            selected_model: self.selected_model.clone(),
            use_gpu: self.use_gpu,
            hotkey: self.hotkey.clone(),
            copy_to_clipboard: self.copy_to_clipboard,
            audio_device: self.audio_device.clone(),
        }
    }
}

/// The settings to start with: those read from the settings file, or the
/// defaults where there is no file or it could not be read or parsed
/// (`stored` is `None`).
pub fn load_settings(stored: Option<Settings>) -> (r: Settings)
    ensures
        r@ == match stored {
            Some(s) => s@,
            None => default_settings(),
        },
{
    match stored {
        Some(s) => s,
        None => Settings::default(),
    }
}

/// The name of the application's directory inside the user's data directory.
pub open spec fn app_dir_name() -> Seq<char> {
    "com.romescribe.dev"@
}

/// The names of the application's directory and files can extend a path.
pub proof fn lemma_data_names_plain()
    ensures
        is_plain_name(app_dir_name()),
        is_plain_name("settings.json"@),
        is_plain_name("models"@),
{
    assert(is_plain_name("com.romescribe.dev"@)) by {
        reveal_strlit("com.romescribe.dev");
        assert("com.romescribe.dev"@ =~= seq!['c', 'o', 'm', '.', 'r', 'o', 'm', 'e', 's', 'c', 'r', 'i', 'b', 'e', '.', 'd', 'e', 'v']);
    }
    assert(is_plain_name("settings.json"@)) by {
        reveal_strlit("settings.json");
        assert("settings.json"@ =~= seq!['s', 'e', 't', 't', 'i', 'n', 'g', 's', '.', 'j', 's', 'o', 'n']);
    }
    assert(is_plain_name("models"@)) by {
        reveal_strlit("models");
        assert("models"@ =~= seq!['m', 'o', 'd', 'e', 'l', 's']);
    }
}

/// The application's directory: the user's data directory `data_dir`
/// joined with the application's directory name.
pub fn app_dir_in(data_dir: &str) -> (r: String)
    ensures
        r@ == joined_path(data_dir@, app_dir_name()),
        ends_with_component(r@, app_dir_name()),
{
    proof {
        lemma_data_names_plain();
    }
    join_path(data_dir, "com.romescribe.dev")
}

/// Where the settings file lives: the application's directory inside
/// `data_dir` joined with "settings.json".
pub fn settings_file_in(data_dir: &str) -> (r: String)
    ensures
        r@ == joined_path(joined_path(data_dir@, app_dir_name()), "settings.json"@),
        ends_with_component(r@, "settings.json"@),
{
    let app = app_dir_in(data_dir);
    proof {
        lemma_data_names_plain();
    }
    join_path(app.as_str(), "settings.json")
}

/// Where the models are stored: the application's directory inside
/// `data_dir` joined with "models".
pub fn models_dir_in(data_dir: &str) -> (r: String)
    ensures
        r@ == joined_path(joined_path(data_dir@, app_dir_name()), "models"@),
        ends_with_component(r@, "models"@),
{
    let app = app_dir_in(data_dir);
    proof {
        lemma_data_names_plain();
    }
    join_path(app.as_str(), "models")
}

} // verus!
