use romescribe::audio::{find_device, needs_resample, TARGET_SAMPLE_RATE};
use romescribe::script::{escape_for_applescript, insert_text_script, tray_tooltip};
use romescribe::settings::{default_hotkey, load_settings, Settings};

#[test]
fn default_settings_values() {
    let s = Settings::default();
    assert_eq!(s.selected_model, "small.en");
    assert!(s.use_gpu);
    assert_eq!(s.hotkey, "Cmd+Shift+R");
    assert!(!s.copy_to_clipboard);
    assert_eq!(s.audio_device, "");
    assert_eq!(default_hotkey(), "Cmd+Shift+R");
}

#[test]
fn missing_settings_load_as_defaults() {
    let s = load_settings(None);
    assert_eq!(s.selected_model, "small.en");
    assert_eq!(s.hotkey, "Cmd+Shift+R");
}

#[test]
fn stored_settings_load_unchanged() {
    let stored = Settings {
        selected_model: "base".to_string(),
        use_gpu: false,
        hotkey: "Ctrl+Space".to_string(),
        copy_to_clipboard: true,
        audio_device: "USB Mic".to_string(),
    };
    let s = load_settings(Some(stored));
    assert_eq!(s.selected_model, "base");
    assert!(!s.use_gpu);
    assert_eq!(s.hotkey, "Ctrl+Space");
    assert!(s.copy_to_clipboard);
    assert_eq!(s.audio_device, "USB Mic");
}

#[test]
fn escaping_backslashes_and_quotes() {
    assert_eq!(escape_for_applescript(r#"say "hi" \ ok"#), r#"say \"hi\" \\ ok"#);
    assert_eq!(escape_for_applescript("plain"), "plain");
    assert_eq!(escape_for_applescript(""), "");
}

#[test]
fn script_embeds_escaped_text_twice() {
    let script = insert_text_script("a\"b");
    assert!(script.starts_with("\nuse scripting additions\ntell application \"System Events\""));
    assert!(script.contains("set the clipboard to \" a\\\"b\"\n    else\n        set the clipboard to \"a\\\"b\"\n    end if"));
    assert!(script.ends_with("set the clipboard to savedClip\nend tell\n"));
    assert_eq!(script.matches("a\\\"b").count(), 2);
}

#[test]
fn tray_tooltips() {
    assert_eq!(tray_tooltip(true), "romescribe - Recording...");
    assert_eq!(tray_tooltip(false), "romescribe");
}

#[test]
fn resampling_only_for_other_known_rates() {
    assert_eq!(TARGET_SAMPLE_RATE, 16000);
    assert!(!needs_resample(16000));
    assert!(!needs_resample(0));
    assert!(needs_resample(44100));
    assert!(needs_resample(8000));
}

#[test]
fn device_choice() {
    let names = vec![
        Some("Built-in".to_string()),
        None,
        Some("USB Mic".to_string()),
        Some("USB Mic".to_string()),
    ];
    assert_eq!(find_device("", &names), None);
    assert_eq!(find_device("USB Mic", &names), Some(2));
    assert_eq!(find_device("Built-in", &names), Some(0));
    assert_eq!(find_device("Headset", &names), None);
    assert_eq!(find_device("usb mic", &names), None);
}
