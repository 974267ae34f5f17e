//! The decisions of the application: what each user request and each event of
//! the recording and download flows does to the application's state, and
//! what must happen next. The caller performs the outside work (recording,
//! transcribing, downloading, saving, registering the hotkey) and reports
//! its outcome back.

use vstd::prelude::*;

use crate::hotkey::{result_view, Hotkey};
use crate::model::{
    catalog, get_model_info, law_catalog_files_and_urls, lemma_find_model_member, model_info,
    unknown_model_message, ModelInfo, MODEL_URL_BASE,
};
use crate::settings::{Settings, SettingsView};

verus! {

/// How long, in nanoseconds, the hotkey must be held before its release
/// stops the recording (hold-to-talk); a shorter press is a tap that leaves
/// the recording running.
pub const HOLD_THRESHOLD_NS: u64 = 300_000_000;

/// Time elapsed from `from` to `to`, in nanoseconds of a monotonic clock;
/// zero where `to` is not later than `from`.
pub open spec fn elapsed_ns(from: u64, to: u64) -> int {
    if to >= from {
        to - from
    } else {
        0
    }
}

/// The time elapsed from `from` to `to`, saturating at zero.
pub fn elapsed_between(from: u64, to: u64) -> (r: u64)
    ensures
        r == elapsed_ns(from, to),
{
    if to >= from {
        to - from
    } else {
        0
    }
}

/// The state of a running application.
pub struct Controller {
    settings: Settings,
    recording: bool,
    downloading: Option<String>,
    cancel_requested: bool,
    current_hotkey: Option<Hotkey>,
    press_started_ns: Option<u64>,
}

/// The contents of a `Controller`: the settings; whether audio is being
/// recorded; the model being downloaded, if any; whether cancelling the
/// download was asked for; the hotkey registered with the system; and when
/// the hotkey was last pressed to start a recording, if that press is still
/// held.
pub struct ControllerView {
    pub settings: SettingsView,
    pub recording: bool,
    pub downloading: Option<Seq<char>>,
    pub cancel_requested: bool,
    pub current_hotkey: Option<Hotkey>,
    pub press_started_ns: Option<u64>,
}

/// An optional text taken as its characters.
pub open spec fn option_text_view(o: Option<String>) -> Option<Seq<char>> {
    match o {
        Some(s) => Some(s@),
        None => None,
    }
}

impl View for Controller {
    type V = ControllerView;

    closed spec fn view(&self) -> ControllerView {
        ControllerView {
            settings: self.settings@,
            recording: self.recording,
            downloading: option_text_view(self.downloading),
            cancel_requested: self.cancel_requested,
            current_hotkey: self.current_hotkey,
            press_started_ns: self.press_started_ns,
        }
    }
}

/// What every state keeps: a model that is being downloaded is in the catalog.
pub open spec fn controller_inv(c: ControllerView) -> bool {
    c.downloading matches Some(id) ==> model_info(id) is Some
}

/// The state at start-up, with the settings read and the hotkey registered.
pub open spec fn initial_spec(settings: SettingsView, hotkey: Option<Hotkey>) -> ControllerView {
    ControllerView {
        settings,
        recording: false,
        downloading: None,
        cancel_requested: false,
        current_hotkey: hotkey,
        press_started_ns: None,
    }
}

/// What to do when the recording is toggled.
#[derive(Clone, Copy, Debug, PartialEq, Eq, Structural)]
pub enum ToggleStep {
    /// Not recording: start the recorder, then report with `recording_started`.
    StartRecording,
    /// Was recording and now is not: show the idle tray icon, announce that
    /// recording stopped, stop the recorder and take its audio.
    StopRecording,
}

/// Toggling: a recording stops at once; starting one waits for the recorder.
pub open spec fn toggle_spec(c: ControllerView) -> (ControllerView, ToggleStep) {
    if c.recording {
        (ControllerView { recording: false, ..c }, ToggleStep::StopRecording)
    } else {
        (c, ToggleStep::StartRecording)
    }
}

/// After the recorder was asked to start: recording if it started; unchanged,
/// with the recorder's error, if it did not.
pub open spec fn recording_started_spec(c: ControllerView, started: bool) -> ControllerView {
    if started {
        ControllerView { recording: true, ..c }
    } else {
        c
    }
}

/// Selecting the model `id`, where `downloaded` is whether it is downloaded.
pub open spec fn select_model_spec(c: ControllerView, id: Seq<char>, downloaded: bool) -> (
    ControllerView,
    Result<(), Seq<char>>,
) {
    if c.recording {
        (c, Err("Cannot change model while recording"@))
    } else if model_info(id) is None {
        (c, Err(unknown_model_message(id)))
    } else if !downloaded {
        (c, Err("Model not downloaded yet"@))
    } else {
        (
            ControllerView {
                settings: SettingsView { selected_model: id, ..c.settings },
                ..c
            },
            Ok(()),
        )
    }
}

/// Switching GPU use on or off; the result says whether the loaded model
/// must be loaded again.
pub open spec fn set_use_gpu_spec(c: ControllerView, use_gpu: bool, model_loaded: bool) -> (
    ControllerView,
    Result<bool, Seq<char>>,
) {
    if c.recording {
        (c, Err("Cannot change GPU setting while recording"@))
    } else {
        (
            ControllerView { settings: SettingsView { use_gpu, ..c.settings }, ..c },
            Ok(model_loaded),
        )
    }
}

/// A download that may go ahead.
pub struct DownloadJob {
    pub model_id: String,
    pub url: String,
    pub filename: String,
    pub total_bytes: u64,
}

/// Asking to download the model `id`, where `downloaded` is whether it is
/// downloaded already.
pub open spec fn begin_download_spec(c: ControllerView, id: Seq<char>, downloaded: bool) -> (
    ControllerView,
    Result<ModelInfo, Seq<char>>,
) {
    if c.downloading is Some {
        (c, Err("A download is already in progress"@))
    } else if model_info(id) is None {
        (c, Err(unknown_model_message(id)))
    } else if downloaded {
        (c, Err("Model already downloaded"@))
    } else {
        (
            ControllerView { downloading: Some(id), cancel_requested: false, ..c },
            Ok(model_info(id)->0),
        )
    }
}

/// Whether selecting the model `id` looks on disk: only for a known model
/// while not recording.
pub open spec fn select_checks_disk(c: ControllerView, id: Seq<char>) -> bool {
    !c.recording && model_info(id) is Some
}

/// Whether asking to download the model `id` looks on disk: only for a
/// known model while no download runs.
pub open spec fn download_checks_disk(c: ControllerView, id: Seq<char>) -> bool {
    c.downloading is None && model_info(id) is Some
}

/// Whether `next` and `r` are what asking to download the model `id` from
/// the state `c` gives, where `downloaded` says whether it is downloaded.
pub open spec fn begin_download_outcome(
    c: ControllerView,
    id: Seq<char>,
    downloaded: bool,
    next: ControllerView,
    r: Result<DownloadJob, String>,
) -> bool {
    &&& next == begin_download_spec(c, id, downloaded).0
    &&& match (r, begin_download_spec(c, id, downloaded).1) {
        (Ok(job), Ok(info)) => {
            &&& job.model_id@ == id
            &&& job.url@ == info.url@
            &&& job.filename@ == info.filename@
            &&& job.total_bytes == info.size_bytes
            &&& job.filename@ == "ggml-"@ + id + ".bin"@
            &&& job.url@ == MODEL_URL_BASE@ + job.filename@
        },
        (Err(e), Err(msg)) => e@ == msg,
        _ => false,
    }
}

/// The events of the global hotkey.
#[derive(Clone, Copy, Debug, PartialEq, Eq, Structural)]
pub enum ShortcutEvent {
    Pressed,
    Released,
}

/// What the hotkey does, given whether the settings window is showing and the
/// time `now`; the result says whether to toggle the recording. While the
/// settings window shows, the hotkey does nothing. A press always toggles; a
/// press that starts a recording notes its time. A release toggles only when
/// it ends a press that started a recording, that press was held longer than
/// the hold threshold, and a recording is running.
pub open spec fn shortcut_spec(c: ControllerView, event: ShortcutEvent, window_visible: bool, now: u64) -> (
    ControllerView,
    bool,
) {
    if window_visible {
        (c, false)
    } else {
        match event {
            ShortcutEvent::Pressed => {
                if c.recording {
                    (ControllerView { press_started_ns: None, ..c }, true)
                } else {
                    (ControllerView { press_started_ns: Some(now), ..c }, true)
                }
            },
            ShortcutEvent::Released => {
                let toggle = match c.press_started_ns {
                    Some(t) => elapsed_ns(t, now) > HOLD_THRESHOLD_NS && c.recording,
                    None => false,
                };
                (ControllerView { press_started_ns: None, ..c }, toggle)
            },
        }
    }
}

impl Controller {
    #[verifier::type_invariant]
    closed spec fn well_formed(self) -> bool {
        controller_inv(self@)
    }

    /// The state at start-up: not recording, no download, the given settings
    /// and the hotkey that was registered.
    pub fn new(settings: Settings, hotkey: Option<Hotkey>) -> (r: Controller)
        ensures
            r@ == initial_spec(settings@, hotkey),
    {
        Controller {
            settings,
            recording: false,
            downloading: None,
            cancel_requested: false,
            current_hotkey: hotkey,
            press_started_ns: None,
        }
    }

    /// The current settings.
    pub fn settings(&self) -> (r: Settings)
        ensures
            r@ == self@.settings,
    {
        self.settings.snapshot()
    }

    /// Whether audio is being recorded.
    pub fn is_recording(&self) -> (r: bool)
        ensures
            r == self@.recording,
    {
        self.recording
    }

    /// The model being downloaded, if any.
    pub fn downloading(&self) -> (r: Option<String>)
        ensures
            option_text_view(r) == self@.downloading,
    {
        match &self.downloading {
            Some(id) => Some(id.clone()),
            None => None,
        }
    }

    /// Whether cancelling the running download was asked for.
    pub fn cancel_requested(&self) -> (r: bool)
        ensures
            r == self@.cancel_requested,
    {
        self.cancel_requested
    }

    /// The hotkey registered with the system, if any.
    pub fn current_hotkey(&self) -> (r: Option<Hotkey>)
        ensures
            r == self@.current_hotkey,
    {
        self.current_hotkey
    }

    /// Toggles the recording (see `toggle_spec`).
    pub fn begin_toggle(&mut self) -> (r: ToggleStep)
        ensures
            (final(self)@, r) == toggle_spec(old(self)@),
    {
        proof {
            use_type_invariant(&*self);
        }
        if self.recording {
            self.recording = false;
            ToggleStep::StopRecording
        } else {
            ToggleStep::StartRecording
        }
    }

    /// Reports whether the recorder started: recording from now on and
    /// `Ok(None)`, or the recorder's error with nothing changed.
    pub fn recording_started(&mut self, outcome: Result<(), String>) -> (r: Result<
        Option<String>,
        String,
    >)
        ensures
            final(self)@ == recording_started_spec(old(self)@, outcome is Ok),
            match outcome {
                Ok(_) => r == Ok::<Option<String>, String>(None),
                Err(e) => r == Err::<Option<String>, String>(e),
            },
    {
        proof {
            use_type_invariant(&*self);
        }
        match outcome {
            Ok(()) => {
                self.recording = true;
                Ok(None)
            },
            Err(e) => Err(e),
        }
    }

    /// Selects the model `model_id` (see `select_model_spec`). Only a known
    /// model, while not recording, is checked on disk: then `is_downloaded`
    /// is asked, once, whether it is downloaded. On success the caller saves
    /// the settings and loads the model.
    pub fn select_model<F: FnOnce() -> bool>(&mut self, model_id: &str, is_downloaded: F) -> (r:
        Result<(), String>)
        requires
            call_requires(is_downloaded, ()),
        ensures
            !select_checks_disk(old(self)@, model_id@) ==> (final(self)@, result_view(r))
                == select_model_spec(old(self)@, model_id@, false),
            select_checks_disk(old(self)@, model_id@) ==> exists|d: bool|
                #[trigger] call_ensures(is_downloaded, (), d) && (final(self)@, result_view(r))
                    == select_model_spec(old(self)@, model_id@, d),
    {
        proof {
            use_type_invariant(&*self);
        }
        if self.recording {
            return Err(String::from_str("Cannot change model while recording"));
        }
        match get_model_info(model_id) {
            None => {
                let mut msg = String::from_str("Unknown model: ");
                msg.append(model_id);
                return Err(msg);
            },
            Some(_) => {},
        }
        let downloaded = is_downloaded();
        if !downloaded {
            return Err(String::from_str("Model not downloaded yet"));
        }
        self.settings.selected_model = model_id.to_owned();
        Ok(())
    }

    /// Switches GPU use (see `set_use_gpu_spec`); on success the caller saves
    /// the settings, and loads the model again where the result says so.
    pub fn set_use_gpu(&mut self, use_gpu: bool, model_loaded: bool) -> (r: Result<bool, String>)
        ensures
            (final(self)@, result_view(r)) == set_use_gpu_spec(old(self)@, use_gpu, model_loaded),
    {
        proof {
            use_type_invariant(&*self);
        }
        if self.recording {
            return Err(String::from_str("Cannot change GPU setting while recording"));
        }
        self.settings.use_gpu = use_gpu;
        Ok(model_loaded)
    }

    /// Records that the hotkey `hotkey`, written as `text`, was registered
    /// with the system; the caller then saves the settings.
    pub fn hotkey_registered(&mut self, text: String, hotkey: Hotkey)
        ensures
            final(self)@ == (ControllerView {
                settings: SettingsView { hotkey: text@, ..old(self)@.settings },
                current_hotkey: Some(hotkey),
                ..old(self)@
            }),
    {
        proof {
            use_type_invariant(&*self);
        }
        self.settings.hotkey = text;
        self.current_hotkey = Some(hotkey);
    }

    /// Asks to download the model `model_id` (see `begin_download_spec`).
    /// Only a known model, while no download runs, is checked on disk: then
    /// `is_downloaded` is asked, once, whether it is downloaded already. On
    /// success the download is marked as running and the job says what to
    /// fetch; the caller then downloads it and calls `download_finished`.
    pub fn begin_download<F: FnOnce() -> bool>(&mut self, model_id: &str, is_downloaded: F) -> (r:
        Result<DownloadJob, String>)
        requires
            call_requires(is_downloaded, ()),
        ensures
            !download_checks_disk(old(self)@, model_id@) ==> begin_download_outcome(
                old(self)@,
                model_id@,
                false,
                final(self)@,
                r,
            ),
            download_checks_disk(old(self)@, model_id@) ==> exists|d: bool|
                #[trigger] call_ensures(is_downloaded, (), d) && begin_download_outcome(
                    old(self)@,
                    model_id@,
                    d,
                    final(self)@,
                    r,
                ),
    {
        proof {
            use_type_invariant(&*self);
        }
        if self.downloading.is_some() {
            return Err(String::from_str("A download is already in progress"));
        }
        let info = match get_model_info(model_id) {
            None => {
                let mut msg = String::from_str("Unknown model: ");
                msg.append(model_id);
                return Err(msg);
            },
            Some(info) => info,
        };
        let downloaded = is_downloaded();
        if downloaded {
            return Err(String::from_str("Model already downloaded"));
        }
        proof {
            law_catalog_files_and_urls();
            lemma_find_model_member(catalog(), model_id@);
        }
        self.downloading = Some(model_id.to_owned());
        self.cancel_requested = false;
        Ok(
            DownloadJob {
                model_id: model_id.to_owned(),
                url: String::from_str(info.url),
                filename: String::from_str(info.filename),
                total_bytes: info.size_bytes,
            },
        )
    }

    /// Asks the running download, if any, to stop; always succeeds.
    pub fn cancel_download(&mut self) -> (r: Result<(), String>)
        ensures
            final(self)@ == (ControllerView { cancel_requested: true, ..old(self)@ }),
            r is Ok,
    {
        proof {
            use_type_invariant(&*self);
        }
        self.cancel_requested = true;
        Ok(())
    }

    /// Records that the download ended, however it ended.
    pub fn download_finished(&mut self)
        ensures
            final(self)@ == (ControllerView { downloading: None, ..old(self)@ }),
    {
        proof {
            use_type_invariant(&*self);
        }
        self.downloading = None;
    }

    /// Handles an event of the global hotkey at time `now_ns` (see
    /// `shortcut_spec`); the result says whether to toggle the recording.
    pub fn on_shortcut(&mut self, event: ShortcutEvent, window_visible: bool, now_ns: u64) -> (r:
        bool)
        ensures
            (final(self)@, r) == shortcut_spec(old(self)@, event, window_visible, now_ns),
    {
        proof {
            use_type_invariant(&*self);
        }
        if window_visible {
            return false;
        }
        match event {
            ShortcutEvent::Pressed => {
                if self.recording {
                    self.press_started_ns = None;
                } else {
                    self.press_started_ns = Some(now_ns);
                }
                true
            },
            ShortcutEvent::Released => {
                let start = self.press_started_ns;
                self.press_started_ns = None;
                match start {
                    Some(t) => elapsed_between(t, now_ns) > HOLD_THRESHOLD_NS && self.recording,
                    None => false,
                }
            },
        }
    }
}

/// What follows once the recorder stopped and handed over its audio.
#[derive(Clone, Copy, Debug, PartialEq, Eq, Structural)]
pub enum CaptureStep {
    /// Nothing was recorded: report "No audio recorded".
    NoAudio,
    /// Announce that transcription begins, then report "Model not loaded".
    NoModel,
    /// Announce that transcription begins and transcribe the audio.
    Transcribe,
}

/// The step after a recording of `sample_count` samples, given whether a
/// model is loaded.
pub open spec fn after_capture_spec(sample_count: usize, model_loaded: bool) -> CaptureStep {
    if sample_count == 0 {
        CaptureStep::NoAudio
    } else if !model_loaded {
        CaptureStep::NoModel
    } else {
        CaptureStep::Transcribe
    }
}

/// The step after a recording of `sample_count` samples.
pub fn after_capture(sample_count: usize, model_loaded: bool) -> (r: CaptureStep)
    ensures
        r == after_capture_spec(sample_count, model_loaded),
{
    if sample_count == 0 {
        CaptureStep::NoAudio
    } else if !model_loaded {
        CaptureStep::NoModel
    } else {
        CaptureStep::Transcribe
    }
}

impl CaptureStep {
    /// Whether the step announces that transcription begins.
    pub fn announces_transcription(&self) -> (r: bool)
        ensures
            r == (*self != CaptureStep::NoAudio),
    {
        match self {
            CaptureStep::NoAudio => false,
            _ => true,
        }
    }

    /// The error that the step ends the toggle with, if any.
    pub fn error_message(&self) -> (r: Option<String>)
        ensures
            match *self {
                CaptureStep::NoAudio => r matches Some(m) && m@ == "No audio recorded"@,
                CaptureStep::NoModel => r matches Some(m) && m@ == "Model not loaded"@,
                CaptureStep::Transcribe => r is None,
            },
    {
        match self {
            CaptureStep::NoAudio => Some(String::from_str("No audio recorded")),
            CaptureStep::NoModel => Some(String::from_str("Model not loaded")),
            CaptureStep::Transcribe => None,
        }
    }
}

/// The outcome of a toggle that transcribed `text`: the text, or the error
/// "No speech detected" where it is empty.
pub fn transcription_finished(text: String) -> (r: Result<Option<String>, String>)
    ensures
        text@.len() == 0 ==> (r matches Err(e) && e@ == "No speech detected"@),
        text@.len() > 0 ==> r == Ok::<Option<String>, String>(Some(text)),
{
    if text.as_str().unicode_len() == 0 {
        Err(String::from_str("No speech detected"))
    } else {
        Ok(Some(text))
    }
}

} // verus!
