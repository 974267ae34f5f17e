//! Properties that span several operations: what every transition keeps,
//! what a refused request leaves, and how the hotkey, recording and download
//! flows behave over several steps.

use vstd::prelude::*;

use crate::controller::{
    after_capture_spec, begin_download_spec, controller_inv, initial_spec, recording_started_spec,
    select_model_spec, set_use_gpu_spec, shortcut_spec, toggle_spec, CaptureStep, ControllerView,
    ShortcutEvent, ToggleStep,
};
use crate::download::{chunk_spec, TrackerView};
use crate::hotkey::Hotkey;
use crate::model::{
    catalog, find_model, lemma_catalog_file_names_distinct, lemma_catalog_file_names_plain,
    lemma_find_model_member, lists_model, model_info, ModelEntry, ModelInfo,
};
use crate::text::{ends_with_component, lemma_last_component_unique};
use crate::settings::{default_settings, SettingsView};

verus! {

/// The catalog names each model once, and looking a model up by its id finds
/// that very model.
pub proof fn law_catalog_lookup_finds_each_model()
    ensures
        forall|i: int, j: int|
            0 <= i < j < catalog().len() ==> (#[trigger] catalog()[i]).id@ != (#[trigger] catalog()[j]).id@,
        forall|i: int| 0 <= i < catalog().len() ==> model_info((#[trigger] catalog()[i]).id@) == Some(catalog()[i]),
{
    reveal_strlit("tiny");
    reveal_strlit("base");
    reveal_strlit("small");
    reveal_strlit("medium");
    reveal_strlit("large-v3");
    let c = catalog();
    assert(c[0].id@[0] == 't');
    assert(c[1].id@[0] == 'b');
    assert(c[2].id@[0] == 's');
    assert(c[3].id@[0] == 'm');
    assert(c[4].id@[0] == 'l');
    assert forall|i: int, j: int| 0 <= i < j < c.len() implies (#[trigger] c[i]).id@ != (
    #[trigger] c[j]).id@ by {
        assert(c[i].id@[0] != c[j].id@[0]);
    }
    assert forall|i: int| 0 <= i < c.len() implies model_info((#[trigger] c[i]).id@) == Some(c[i]) by {
        lemma_find_model_first(c, c[i].id@, i);
    }
}

/// Looking up an id finds the first model that has it.
pub proof fn lemma_find_model_first(models: Seq<ModelInfo>, id: Seq<char>, k: int)
    requires
        0 <= k < models.len(),
        models[k].id@ == id,
        forall|j: int| 0 <= j < k ==> (#[trigger] models[j]).id@ != id,
    ensures
        find_model(models, id) == Some(models[k]),
    decreases k,
{
    if k > 0 {
        let rest = models.drop_first();
        assert forall|j: int| 0 <= j < k - 1 implies (#[trigger] rest[j]).id@ != id by {
            assert(rest[j] == models[j + 1]);
        }
        assert(models[0].id@ != id);
        lemma_find_model_first(rest, id, k - 1);
    }
}

/// The model list marks at most one model as the active one, and marks one
/// exactly when the selected model is in the catalog.
pub proof fn law_at_most_one_active_model<F: Fn(String) -> bool>(
    entries: Seq<ModelEntry>,
    selected: Seq<char>,
    models_dir: Seq<char>,
    path_exists: F,
)
    requires
        entries.len() == catalog().len(),
        forall|i: int|
            0 <= i < entries.len() ==> lists_model(
                #[trigger] entries[i],
                catalog()[i],
                selected,
                models_dir,
                path_exists,
            ),
    ensures
        forall|i: int, j: int|
            0 <= i < j < entries.len() ==> !((#[trigger] entries[i]).active && (#[trigger] entries[j]).active),
        (exists|i: int| 0 <= i < entries.len() && (#[trigger] entries[i]).active) <==> model_info(selected) is Some,
{
    law_catalog_lookup_finds_each_model();
    assert forall|i: int, j: int| 0 <= i < j < entries.len() implies !((#[trigger] entries[i]).active
        && (#[trigger] entries[j]).active) by {
        assert(catalog()[i].id@ != catalog()[j].id@);
    }
    if model_info(selected) is Some {
        lemma_find_model_member(catalog(), selected);
        let k = choose|k: int| 0 <= k < catalog().len() && #[trigger] catalog()[k] == model_info(selected)->0 && model_info(selected)->0.id@ == selected;
        assert(entries[k].active);
    }
    if exists|i: int| 0 <= i < entries.len() && (#[trigger] entries[i]).active {
        let i = choose|i: int| 0 <= i < entries.len() && (#[trigger] entries[i]).active;
        assert(catalog()[i].id@ == selected);
        assert(model_info(catalog()[i].id@) == Some(catalog()[i]));
    }
}

/// Distinct models have distinct files: paths that end with the files of
/// two different known models, as those of `model_path` do, differ.
pub proof fn law_distinct_models_distinct_paths(
    id1: Seq<char>,
    id2: Seq<char>,
    path1: Seq<char>,
    path2: Seq<char>,
)
    requires
        id1 != id2,
        model_info(id1) matches Some(m1) && ends_with_component(path1, m1.filename@),
        model_info(id2) matches Some(m2) && ends_with_component(path2, m2.filename@),
    ensures
        path1 != path2,
{
    let m1 = model_info(id1)->0;
    let m2 = model_info(id2)->0;
    lemma_find_model_member(catalog(), id1);
    lemma_find_model_member(catalog(), id2);
    lemma_catalog_file_names_plain();
    lemma_catalog_file_names_distinct();
    let i = choose|i: int| 0 <= i < catalog().len() && #[trigger] catalog()[i] == m1 && m1.id@ == id1;
    let j = choose|j: int| 0 <= j < catalog().len() && #[trigger] catalog()[j] == m2 && m2.id@ == id2;
    assert(i != j);
    assert(m1.filename@ != m2.filename@);
    if path1 == path2 {
        lemma_last_component_unique(path1, m1.filename@, m2.filename@);
    }
}

/// Switching GPU use while not recording records the choice, changes nothing
/// else, and asks for the model to be loaded again exactly when one is
/// loaded, whether GPU use is switched on or off.
pub proof fn law_gpu_switch_reloads_loaded_model(c: ControllerView, use_gpu: bool, model_loaded: bool)
    requires
        !c.recording,
    ensures
        set_use_gpu_spec(c, use_gpu, model_loaded).1 == Ok::<bool, Seq<char>>(model_loaded),
        set_use_gpu_spec(c, use_gpu, model_loaded).0.settings.use_gpu == use_gpu,
        set_use_gpu_spec(c, use_gpu, model_loaded).0.settings.selected_model
            == c.settings.selected_model,
        set_use_gpu_spec(c, use_gpu, model_loaded).0.settings.hotkey == c.settings.hotkey,
        set_use_gpu_spec(c, use_gpu, model_loaded).0.recording == c.recording,
        set_use_gpu_spec(c, use_gpu, model_loaded).0.downloading == c.downloading,
{
}

/// After a recording, "No audio recorded" comes exactly when no sample was
/// recorded; any recording with samples is transcribed when a model is
/// loaded, and reported as "Model not loaded" otherwise.
pub proof fn law_capture_outcome(sample_count: usize, model_loaded: bool)
    ensures
        (after_capture_spec(sample_count, model_loaded) == CaptureStep::NoAudio) <==> sample_count
            == 0,
        sample_count > 0 && model_loaded ==> after_capture_spec(sample_count, model_loaded)
            == CaptureStep::Transcribe,
        sample_count > 0 && !model_loaded ==> after_capture_spec(sample_count, model_loaded)
            == CaptureStep::NoModel,
{
}

/// Selecting a known, downloaded model while not recording makes it the
/// selected model and changes nothing else.
pub proof fn law_select_model_takes_effect(c: ControllerView, id: Seq<char>)
    requires
        !c.recording,
        model_info(id) is Some,
    ensures
        select_model_spec(c, id, true).1 is Ok,
        select_model_spec(c, id, true).0 == (ControllerView {
            settings: SettingsView { selected_model: id, ..c.settings },
            ..c
        }),
        select_model_spec(c, id, false) == (c, Err::<(), Seq<char>>("Model not downloaded yet"@)),
{
}

/// Asking to download a known model that is not downloaded, while no
/// download runs, starts it: the download of that model runs, with no
/// cancelling asked for, and nothing else changes.
pub proof fn law_download_starts(c: ControllerView, id: Seq<char>)
    requires
        c.downloading is None,
        model_info(id) is Some,
    ensures
        begin_download_spec(c, id, false).1 == Ok::<ModelInfo, Seq<char>>(model_info(id)->0),
        begin_download_spec(c, id, false).0 == (ControllerView {
            downloading: Some(id),
            cancel_requested: false,
            ..c
        }),
        begin_download_spec(c, id, true) == (c, Err::<ModelInfo, Seq<char>>("Model already downloaded"@)),
{
}

/// The settings of a new installation: the "small.en" model on the GPU,
/// the hotkey Cmd+Shift+R, no copying to the clipboard and the system's
/// default input device.
pub proof fn law_default_settings()
    ensures
        default_settings().selected_model == "small.en"@,
        default_settings().use_gpu,
        default_settings().hotkey == "Cmd+Shift+R"@,
        !default_settings().copy_to_clipboard,
        default_settings().audio_device.len() == 0,
{
}

/// The start-up state keeps the invariant, and so does every transition.
pub proof fn law_transitions_keep_invariant(
    c: ControllerView,
    settings: SettingsView,
    hotkey: Option<Hotkey>,
    id: Seq<char>,
    downloaded: bool,
    use_gpu: bool,
    model_loaded: bool,
    started: bool,
    event: ShortcutEvent,
    window_visible: bool,
    now: u64,
)
    requires
        controller_inv(c),
    ensures
        controller_inv(initial_spec(settings, hotkey)),
        controller_inv(toggle_spec(c).0),
        controller_inv(recording_started_spec(c, started)),
        controller_inv(select_model_spec(c, id, downloaded).0),
        controller_inv(set_use_gpu_spec(c, use_gpu, model_loaded).0),
        controller_inv(begin_download_spec(c, id, downloaded).0),
        controller_inv(ControllerView { cancel_requested: true, ..c }),
        controller_inv(ControllerView { downloading: None, ..c }),
        controller_inv(shortcut_spec(c, event, window_visible, now).0),
{
}

/// A refused request changes nothing: selecting a model, switching GPU use
/// and starting a download leave the state as it was whenever they fail.
pub proof fn law_refused_requests_change_nothing(
    c: ControllerView,
    id: Seq<char>,
    downloaded: bool,
    use_gpu: bool,
    model_loaded: bool,
)
    ensures
        select_model_spec(c, id, downloaded).1 is Err ==> select_model_spec(c, id, downloaded).0 == c,
        set_use_gpu_spec(c, use_gpu, model_loaded).1 is Err ==> set_use_gpu_spec(
            c,
            use_gpu,
            model_loaded,
        ).0 == c,
        begin_download_spec(c, id, downloaded).1 is Err ==> begin_download_spec(c, id, downloaded).0 == c,
{
}

/// While recording, neither the model nor GPU use can be changed.
pub proof fn law_no_setting_changes_while_recording(
    c: ControllerView,
    id: Seq<char>,
    downloaded: bool,
    use_gpu: bool,
    model_loaded: bool,
)
    requires
        c.recording,
    ensures
        select_model_spec(c, id, downloaded) == (c, Err::<(), Seq<char>>(
            "Cannot change model while recording"@,
        )),
        set_use_gpu_spec(c, use_gpu, model_loaded) == (c, Err::<bool, Seq<char>>(
            "Cannot change GPU setting while recording"@,
        )),
{
}

/// One download at a time: once a download has begun, asking for another
/// (of any model) is refused until the first has finished.
pub proof fn law_one_download_at_a_time(
    c: ControllerView,
    id: Seq<char>,
    downloaded: bool,
    other: Seq<char>,
    other_downloaded: bool,
)
    requires
        begin_download_spec(c, id, downloaded).1 is Ok,
    ensures
        ({
            let running = begin_download_spec(c, id, downloaded).0;
            &&& running.downloading == Some(id)
            &&& !running.cancel_requested
            &&& begin_download_spec(running, other, other_downloaded) == (running, Err::<
                ModelInfo,
                Seq<char>,
            >("A download is already in progress"@))
        }),
{
}

/// Toggling twice from idle, with the recorder starting, returns to the
/// state before: the first toggle starts a recording and the second stops it.
pub proof fn law_toggle_round_trip(c: ControllerView)
    requires
        !c.recording,
    ensures
        toggle_spec(c) == (c, ToggleStep::StartRecording),
        recording_started_spec(c, true).recording,
        toggle_spec(recording_started_spec(c, true)) == (c, ToggleStep::StopRecording),
{
    assert(toggle_spec(recording_started_spec(c, true)).0 == c);
}

/// A recorder that fails to start leaves the application idle.
pub proof fn law_failed_start_stays_idle(c: ControllerView)
    requires
        !c.recording,
    ensures
        !recording_started_spec(c, false).recording,
        recording_started_spec(c, false) == c,
{
}

/// Hold-to-talk and tap: with the settings window hidden, a press from idle
/// toggles (starting a recording); once the recording runs, releasing the
/// hotkey stops it only if it was held longer than 300 ms. A tap
/// leaves the recording running until the next press, which toggles again,
/// and the release of that press does not toggle.
pub proof fn law_hold_and_tap(c: ControllerView, pressed_at: u64, released_at: u64, next_at: u64)
    requires
        !c.recording,
    ensures
        ({
            let (c1, t1) = shortcut_spec(c, ShortcutEvent::Pressed, false, pressed_at);
            let c2 = recording_started_spec(toggle_spec(c1).0, true);
            let (c3, t3) = shortcut_spec(c2, ShortcutEvent::Released, false, released_at);
            let (c4, t4) = shortcut_spec(c3, ShortcutEvent::Pressed, false, next_at);
            let (c5, t5) = shortcut_spec(c4, ShortcutEvent::Released, false, next_at);
            &&& t1
            &&& toggle_spec(c1).1 == ToggleStep::StartRecording
            &&& c2.recording
            &&& t3 == (released_at >= pressed_at && released_at - pressed_at > 300_000_000)
            &&& c3.recording
            &&& t4
            &&& !t5
        }),
{
}

/// While the settings window shows, the hotkey does nothing.
pub proof fn law_hotkey_ignored_while_window_shows(c: ControllerView, event: ShortcutEvent, now: u64)
    ensures
        shortcut_spec(c, event, true, now) == (c, false),
{
}

/// Progress reports are spaced: a chunk is reported exactly when at least
/// 100 ms have passed since the last report, and the report gives the bytes
/// counted so far, this chunk included, and the model's size.
pub proof fn law_progress_reports_spaced(t: TrackerView, bytes: u64, now: u64)
    requires
        t.downloaded + bytes <= u64::MAX,
    ensures
        chunk_spec(t, bytes, now).1 is Some <==> (now >= t.last_report_ns && now - t.last_report_ns
            >= 100_000_000),
        chunk_spec(t, bytes, now).1 matches Some(p) ==> p.downloaded_bytes == t.downloaded + bytes
            && p.total_bytes == t.total && p.model_id == t.model_id,
        chunk_spec(t, bytes, now).1 is Some ==> chunk_spec(t, bytes, now).0.last_report_ns == now,
        chunk_spec(t, bytes, now).1 is None ==> chunk_spec(t, bytes, now).0.last_report_ns
            == t.last_report_ns,
{
}

/// Two reports in a row are at least 100 ms apart.
pub proof fn law_consecutive_reports_apart(t: TrackerView, b1: u64, first: u64, b2: u64, second: u64)
    requires
        chunk_spec(t, b1, first).1 is Some,
        chunk_spec(chunk_spec(t, b1, first).0, b2, second).1 is Some,
    ensures
        second >= first + 100_000_000,
{
}

/// The bytes counted by a run of chunks, each a (size, time) pair.
pub open spec fn apply_chunks(t: TrackerView, chunks: Seq<(u64, u64)>) -> TrackerView
    decreases chunks.len(),
{
    if chunks.len() == 0 {
        t
    } else {
        chunk_spec(apply_chunks(t, chunks.drop_last()), chunks.last().0, chunks.last().1).0
    }
}

/// The total size of a run of chunks.
pub open spec fn chunk_bytes(chunks: Seq<(u64, u64)>) -> int
    decreases chunks.len(),
{
    if chunks.len() == 0 {
        0
    } else {
        chunk_bytes(chunks.drop_last()) + chunks.last().0
    }
}

/// Every byte is counted: after a run of chunks, the count has grown by
/// their total size, and the model and its size are unchanged.
pub proof fn law_every_byte_counted(t: TrackerView, chunks: Seq<(u64, u64)>)
    requires
        t.downloaded + chunk_bytes(chunks) <= u64::MAX,
    ensures
        apply_chunks(t, chunks).downloaded == t.downloaded + chunk_bytes(chunks),
        apply_chunks(t, chunks).model_id == t.model_id,
        apply_chunks(t, chunks).total == t.total,
    decreases chunks.len(),
{
    if chunks.len() > 0 {
        lemma_chunk_bytes_nonneg(chunks.drop_last());
        law_every_byte_counted(t, chunks.drop_last());
    }
}

proof fn lemma_chunk_bytes_nonneg(chunks: Seq<(u64, u64)>)
    ensures
        chunk_bytes(chunks) >= 0,
    decreases chunks.len(),
{
    if chunks.len() > 0 {
        lemma_chunk_bytes_nonneg(chunks.drop_last());
    }
}

} // verus!
