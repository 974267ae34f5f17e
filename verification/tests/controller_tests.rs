use romescribe::controller::{
    after_capture, elapsed_between, transcription_finished, CaptureStep, Controller,
    ShortcutEvent, ToggleStep, HOLD_THRESHOLD_NS,
};
use romescribe::download::{check_not_cancelled, part_file_name, DownloadTracker, PROGRESS_INTERVAL_NS};
use romescribe::hotkey::{fallback_hotkey, parse_hotkey};
use romescribe::settings::Settings;

fn fresh() -> Controller {
    Controller::new(Settings::default(), Some(fallback_hotkey()))
}

const MS: u64 = 1_000_000;

#[test]
fn starts_idle() {
    let c = fresh();
    assert!(!c.is_recording());
    assert_eq!(c.downloading(), None);
    assert!(!c.cancel_requested());
    assert_eq!(c.current_hotkey(), Some(fallback_hotkey()));
    assert_eq!(c.settings().selected_model, "small.en");
}

#[test]
fn toggle_starts_and_stops() {
    let mut c = fresh();
    assert_eq!(c.begin_toggle(), ToggleStep::StartRecording);
    assert!(!c.is_recording());
    assert_eq!(c.recording_started(Ok(())), Ok(None));
    assert!(c.is_recording());
    assert_eq!(c.begin_toggle(), ToggleStep::StopRecording);
    assert!(!c.is_recording());
}

#[test]
fn failed_start_reports_recorder_error() {
    let mut c = fresh();
    assert_eq!(c.begin_toggle(), ToggleStep::StartRecording);
    assert_eq!(
        c.recording_started(Err("Timeout waiting for audio stream to start".to_string())),
        Err("Timeout waiting for audio stream to start".to_string())
    );
    assert!(!c.is_recording());
}

#[test]
fn capture_steps() {
    assert_eq!(after_capture(0, true), CaptureStep::NoAudio);
    assert_eq!(after_capture(0, false), CaptureStep::NoAudio);
    assert_eq!(after_capture(16000, false), CaptureStep::NoModel);
    assert_eq!(after_capture(16000, true), CaptureStep::Transcribe);
    assert_eq!(CaptureStep::NoAudio.error_message(), Some("No audio recorded".to_string()));
    assert_eq!(CaptureStep::NoModel.error_message(), Some("Model not loaded".to_string()));
    assert_eq!(CaptureStep::Transcribe.error_message(), None);
    assert!(!CaptureStep::NoAudio.announces_transcription());
    assert!(CaptureStep::NoModel.announces_transcription());
    assert!(CaptureStep::Transcribe.announces_transcription());
}

#[test]
fn transcription_outcomes() {
    assert_eq!(transcription_finished(String::new()), Err("No speech detected".to_string()));
    assert_eq!(
        transcription_finished("hello world".to_string()),
        Ok(Some("hello world".to_string()))
    );
}

#[test]
fn select_model_checks_in_order() {
    let mut c = fresh();
    assert_eq!(c.select_model("huge", || true), Err("Unknown model: huge".to_string()));
    assert_eq!(c.select_model("tiny", || false), Err("Model not downloaded yet".to_string()));
    assert_eq!(c.settings().selected_model, "small.en");
    assert_eq!(c.select_model("base", || true), Ok(()));
    assert_eq!(c.settings().selected_model, "base");
}

#[test]
fn no_model_change_while_recording() {
    let mut c = fresh();
    c.begin_toggle();
    c.recording_started(Ok(())).unwrap();
    assert_eq!(
        c.select_model("base", || true),
        Err("Cannot change model while recording".to_string())
    );
    assert_eq!(
        c.set_use_gpu(false, true),
        Err("Cannot change GPU setting while recording".to_string())
    );
    assert!(c.settings().use_gpu);
    assert_eq!(c.settings().selected_model, "small.en");
}

#[test]
fn gpu_switch_asks_for_reload_only_when_loaded() {
    let mut c = fresh();
    assert_eq!(c.set_use_gpu(false, false), Ok(false));
    assert!(!c.settings().use_gpu);
    assert_eq!(c.set_use_gpu(true, true), Ok(true));
    assert!(c.settings().use_gpu);
}

#[test]
fn registering_a_hotkey_updates_settings() {
    let mut c = fresh();
    let h = parse_hotkey("Ctrl+Alt+H").unwrap();
    c.hotkey_registered("Ctrl+Alt+H".to_string(), h);
    assert_eq!(c.current_hotkey(), Some(h));
    assert_eq!(c.settings().hotkey, "Ctrl+Alt+H");
}

#[test]
fn download_guard() {
    let mut c = fresh();
    assert_eq!(c.begin_download("huge", || false).err(), Some("Unknown model: huge".to_string()));
    assert_eq!(c.begin_download("base", || true).err(), Some("Model already downloaded".to_string()));
    c.cancel_download().unwrap();
    assert!(c.cancel_requested());
    let job = c.begin_download("tiny", || false).unwrap();
    assert_eq!(job.model_id, "tiny");
    assert_eq!(job.filename, "ggml-tiny.bin");
    assert_eq!(job.url, "https://huggingface.co/ggerganov/whisper.cpp/resolve/main/ggml-tiny.bin");
    assert_eq!(job.total_bytes, 77_691_713);
    assert_eq!(c.downloading(), Some("tiny".to_string()));
    assert!(!c.cancel_requested());
    assert_eq!(
        c.begin_download("small", || false).err(),
        Some("A download is already in progress".to_string())
    );
    c.download_finished();
    assert_eq!(c.downloading(), None);
    assert!(c.begin_download("small", || false).is_ok());
}

#[test]
fn hold_to_talk_stops_on_long_release() {
    let mut c = fresh();
    assert!(c.on_shortcut(ShortcutEvent::Pressed, false, 1_000 * MS));
    c.begin_toggle();
    c.recording_started(Ok(())).unwrap();
    assert!(c.on_shortcut(ShortcutEvent::Released, false, 1_301 * MS));
}

#[test]
fn tap_keeps_recording_until_next_press() {
    let mut c = fresh();
    assert!(c.on_shortcut(ShortcutEvent::Pressed, false, 1_000 * MS));
    c.begin_toggle();
    c.recording_started(Ok(())).unwrap();
    assert!(!c.on_shortcut(ShortcutEvent::Released, false, 1_000 * MS + HOLD_THRESHOLD_NS));
    assert!(c.on_shortcut(ShortcutEvent::Pressed, false, 5_000 * MS));
    assert!(!c.on_shortcut(ShortcutEvent::Released, false, 9_000 * MS));
}

#[test]
fn hotkey_ignored_while_settings_window_shows() {
    let mut c = fresh();
    assert!(!c.on_shortcut(ShortcutEvent::Pressed, true, 10));
    assert!(!c.on_shortcut(ShortcutEvent::Released, true, 10 + 2 * HOLD_THRESHOLD_NS));
}

#[test]
fn elapsed_saturates() {
    assert_eq!(elapsed_between(10, 25), 15);
    assert_eq!(elapsed_between(25, 10), 0);
}

#[test]
fn progress_reports_are_spaced_and_complete() {
    let mut c = fresh();
    let job = c.begin_download("tiny", || false).unwrap();
    let mut t = DownloadTracker::start(&job, 0);
    assert!(t.record_chunk(65_536, 50 * MS).is_none());
    let p = t.record_chunk(65_536, 100 * MS).unwrap();
    assert_eq!(p.model_id, "tiny");
    assert_eq!(p.downloaded_bytes, 131_072);
    assert_eq!(p.total_bytes, 77_691_713);
    assert!(t.record_chunk(10, 100 * MS + PROGRESS_INTERVAL_NS - 1).is_none());
    assert_eq!(t.record_chunk(10, 200 * MS).unwrap().downloaded_bytes, 131_092);
    assert_eq!(t.downloaded(), 131_092);
    let done = t.completion();
    assert_eq!(done.downloaded_bytes, 77_691_713);
    assert_eq!(done.total_bytes, 77_691_713);
}

#[test]
fn part_file_and_cancellation() {
    assert_eq!(part_file_name("ggml-tiny.bin"), "ggml-tiny.bin.part");
    assert_eq!(check_not_cancelled(false), Ok(()));
    assert_eq!(check_not_cancelled(true), Err("Download cancelled".to_string()));
}

#[test]
fn disk_is_not_asked_for_refused_requests() {
    let asked = std::cell::Cell::new(false);
    let mut c = fresh();
    c.begin_toggle();
    c.recording_started(Ok(())).unwrap();
    assert!(c.select_model("base", || {
        asked.set(true);
        true
    })
    .is_err());
    assert!(c.select_model("huge", || {
        asked.set(true);
        true
    })
    .is_err());
    assert!(c.begin_download("huge", || {
        asked.set(true);
        false
    })
    .is_err());
    assert!(!asked.get());
    c.begin_download("tiny", || false).unwrap();
    assert!(c.begin_download("base", || {
        asked.set(true);
        false
    })
    .is_err());
    assert!(!asked.get());
}
