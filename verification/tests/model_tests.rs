use romescribe::model::{
    get_model_info, is_model_downloaded, model_entries, model_file_to_load, model_path, models,
    ModelFileError,
};
use romescribe::settings::{app_dir_in, models_dir_in, settings_file_in};

/// A check for paths that exist, over a fixed set of paths.
fn exists_among(paths: &[&str]) -> impl Fn(String) -> bool {
    let paths: Vec<String> = paths.iter().map(|p| p.to_string()).collect();
    move |p: String| paths.contains(&p)
}

#[test]
fn catalog_lists_five_models_in_order() {
    let all = models();
    let ids: Vec<&str> = all.iter().map(|m| m.id).collect();
    assert_eq!(ids, vec!["tiny", "base", "small", "medium", "large-v3"]);
    assert_eq!(all[2].description, "Recommended — best accuracy/speed tradeoff");
    assert_eq!(all[4].name, "Large v3");
}

#[test]
fn lookup_by_id() {
    let base = get_model_info("base").unwrap();
    assert_eq!(base.filename, "ggml-base.bin");
    assert_eq!(base.size_bytes, 147_964_211);
    assert_eq!(
        base.url,
        "https://huggingface.co/ggerganov/whisper.cpp/resolve/main/ggml-base.bin"
    );
    assert_eq!(get_model_info("large-v3").unwrap().size_bytes, 3_094_623_691);
    assert!(get_model_info("small.en").is_none());
    assert!(get_model_info("Base").is_none());
}

#[test]
fn model_path_joins_directory_and_file() {
    let p = model_path("tiny", "/data/models").unwrap();
    assert!(p.starts_with("/data/models"));
    assert!(p.ends_with("ggml-tiny.bin"));
    assert_eq!(
        std::path::Path::new(&p),
        std::path::Path::new("/data/models").join("ggml-tiny.bin")
    );
}

#[test]
fn model_path_of_unknown_model() {
    assert_eq!(model_path("huge", "/data/models"), Err("Unknown model: huge".to_string()));
}

#[test]
fn model_path_is_directory_then_separator_then_file() {
    assert_eq!(model_path("tiny", "/data/models"), Ok("/data/models/ggml-tiny.bin".to_string()));
    assert_eq!(model_path("tiny", "/data/models/"), Ok("/data/models/ggml-tiny.bin".to_string()));
    assert_eq!(model_path("base", ""), Ok("ggml-base.bin".to_string()));
}

#[test]
fn downloaded_means_known_and_file_exists() {
    let exists = exists_among(&["/m/ggml-tiny.bin", "/m/ggml-medium.bin.part", "/m/notes"]);
    assert!(is_model_downloaded("tiny", "/m", &exists));
    assert!(!is_model_downloaded("medium", "/m", &exists));
    assert!(!is_model_downloaded("notes", "/m", &exists));
    assert!(!is_model_downloaded("tiny", "/other", &exists));
}

#[test]
fn unknown_model_never_asks_the_disk() {
    let asks = std::cell::Cell::new(0);
    let exists = |_: String| {
        asks.set(asks.get() + 1);
        true
    };
    assert!(!is_model_downloaded("huge", "/m", &exists));
    assert_eq!(asks.get(), 0);
}

#[test]
fn entries_mark_downloaded_and_active() {
    let exists = exists_among(&["/m/ggml-base.bin", "/m/ggml-small.bin"]);
    let entries = model_entries("base", "/m", &exists);
    assert_eq!(entries.len(), 5);
    let flags: Vec<(bool, bool)> = entries.iter().map(|e| (e.downloaded, e.active)).collect();
    assert_eq!(
        flags,
        vec![(false, false), (true, true), (true, false), (false, false), (false, false)]
    );
    assert_eq!(entries[1].name, "Base");
    assert_eq!(entries[1].description, "Good balance for quick tasks");
    assert_eq!(entries[3].size_bytes, 1_533_774_781);
}

#[test]
fn no_entry_is_active_for_unknown_selection() {
    let entries = model_entries("small.en", "/m", &exists_among(&[]));
    assert!(entries.iter().all(|e| !e.active && !e.downloaded));
}

#[test]
fn data_directory_layout() {
    let base = std::path::Path::new("/home/u/.local/share");
    assert_eq!(
        std::path::Path::new(&app_dir_in("/home/u/.local/share")),
        base.join("com.romescribe.dev")
    );
    assert_eq!(
        std::path::Path::new(&models_dir_in("/home/u/.local/share")),
        base.join("com.romescribe.dev").join("models")
    );
    assert_eq!(
        std::path::Path::new(&settings_file_in("/home/u/.local/share")),
        base.join("com.romescribe.dev").join("settings.json")
    );
}

#[test]
fn file_to_load_for_selected_model() {
    let exists = exists_among(&["/m/ggml-small.bin"]);
    assert_eq!(model_file_to_load("small", "/m", &exists).unwrap(), "/m/ggml-small.bin");
    let missing = model_file_to_load("base", "/m", &exists).unwrap_err();
    assert_eq!(missing.message(), "Model file not found");
    assert!(missing.unloads_model());
    let unknown = model_file_to_load("small.en", "/m", &exists).unwrap_err();
    assert_eq!(unknown.message(), "Unknown model: small.en");
    assert!(!unknown.unloads_model());
    assert!(matches!(unknown, ModelFileError::UnknownModel(_)));
}

#[test]
fn distinct_models_have_distinct_paths() {
    let paths: Vec<String> = models().iter().map(|m| model_path(m.id, "/m").unwrap()).collect();
    for i in 0..paths.len() {
        for j in 0..i {
            assert_ne!(paths[i], paths[j]);
        }
    }
}
