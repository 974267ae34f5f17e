//! The catalog of speech models that can be downloaded, and where a model's
//! file lives.

use vstd::prelude::*;

use crate::text::{ends_with_component, is_plain_name, join_path, joined_path, same_text};

verus! {

/// A speech model that can be downloaded and loaded.
#[derive(Clone, Copy, Debug)]
pub struct ModelInfo {
    pub id: &'static str,
    pub name: &'static str,
    pub filename: &'static str,
    pub url: &'static str,
    pub size_bytes: u64,
    pub description: &'static str,
}

/// The models on offer, smallest first.
pub open spec fn catalog() -> Seq<ModelInfo> {
    seq![
        ModelInfo {
            id: "tiny",
            name: "Tiny",
            filename: "ggml-tiny.bin",
            url: "https://huggingface.co/ggerganov/whisper.cpp/resolve/main/ggml-tiny.bin",
            size_bytes: 77_691_713,
            description: "Fastest, least accurate",
        },
        ModelInfo {
            id: "base",
            name: "Base",
            filename: "ggml-base.bin",
            url: "https://huggingface.co/ggerganov/whisper.cpp/resolve/main/ggml-base.bin",
            size_bytes: 147_964_211,
            description: "Good balance for quick tasks",
        },
        ModelInfo {
            id: "small",
            name: "Small",
            filename: "ggml-small.bin",
            url: "https://huggingface.co/ggerganov/whisper.cpp/resolve/main/ggml-small.bin",
            size_bytes: 487_626_545,
            description: "Recommended — best accuracy/speed tradeoff",
        },
        ModelInfo {
            id: "medium",
            name: "Medium",
            filename: "ggml-medium.bin",
            url: "https://huggingface.co/ggerganov/whisper.cpp/resolve/main/ggml-medium.bin",
            size_bytes: 1_533_774_781,
            description: "High accuracy, slower",
        },
        ModelInfo {
            id: "large-v3",
            name: "Large v3",
            filename: "ggml-large-v3.bin",
            url: "https://huggingface.co/ggerganov/whisper.cpp/resolve/main/ggml-large-v3.bin",
            size_bytes: 3_094_623_691,
            description: "Best accuracy, slowest",
        },
    ]
}

/// The first model in `models` whose id is `id`.
pub open spec fn find_model(models: Seq<ModelInfo>, id: Seq<char>) -> Option<ModelInfo>
    decreases models.len(),
{
    if models.len() == 0 {
        None
    } else if models[0].id@ == id {
        Some(models[0])
    } else {
        find_model(models.drop_first(), id)
    }
}

/// The catalog's model with id `id`, if there is one.
pub open spec fn model_info(id: Seq<char>) -> Option<ModelInfo> {
    find_model(catalog(), id)
}

/// The path of the model's file inside the directory `models_dir`.
pub open spec fn model_file_path(models_dir: Seq<char>, info: ModelInfo) -> Seq<char> {
    joined_path(models_dir, info.filename@)
}

/// Whether `path_exists`, asked about the path `path`, may answer `answer`.
pub open spec fn may_report<F: Fn(String) -> bool>(path_exists: F, path: Seq<char>, answer: bool) -> bool {
    exists|p: String| p@ == path && #[trigger] call_ensures(path_exists, (p,), answer)
}

/// Whether `answer` is what `is_model_downloaded` may give for the model
/// `id` in `models_dir`: false for a model that is not in the catalog, and
/// otherwise what `path_exists` answers for the path of its file.
pub open spec fn downloaded_answer<F: Fn(String) -> bool>(
    id: Seq<char>,
    models_dir: Seq<char>,
    path_exists: F,
    answer: bool,
) -> bool {
    match model_info(id) {
        Some(m) => may_report(path_exists, model_file_path(models_dir, m), answer),
        None => !answer,
    }
}

/// The message for a model id that is not in the catalog.
pub open spec fn unknown_model_message(id: Seq<char>) -> Seq<char> {
    "Unknown model: "@ + id
}

/// The models on offer, in catalog order.
pub fn models() -> (r: Vec<ModelInfo>)
    ensures
        r@ == catalog(),
{
    let mut v: Vec<ModelInfo> = Vec::new();
    v.push(
        ModelInfo {
            id: "tiny",
            name: "Tiny",
            filename: "ggml-tiny.bin",
            url: "https://huggingface.co/ggerganov/whisper.cpp/resolve/main/ggml-tiny.bin",
            size_bytes: 77_691_713,
            description: "Fastest, least accurate",
        },
    );
    v.push(
        ModelInfo {
            id: "base",
            name: "Base",
            filename: "ggml-base.bin",
            url: "https://huggingface.co/ggerganov/whisper.cpp/resolve/main/ggml-base.bin",
            size_bytes: 147_964_211,
            description: "Good balance for quick tasks",
        },
    );
    v.push(
        ModelInfo {
            id: "small",
            name: "Small",
            filename: "ggml-small.bin",
            url: "https://huggingface.co/ggerganov/whisper.cpp/resolve/main/ggml-small.bin",
            size_bytes: 487_626_545,
            description: "Recommended — best accuracy/speed tradeoff",
        },
    );
    v.push(
        ModelInfo {
            id: "medium",
            name: "Medium",
            filename: "ggml-medium.bin",
            url: "https://huggingface.co/ggerganov/whisper.cpp/resolve/main/ggml-medium.bin",
            size_bytes: 1_533_774_781,
            description: "High accuracy, slower",
        },
    );
    v.push(
        ModelInfo {
            id: "large-v3",
            name: "Large v3",
            filename: "ggml-large-v3.bin",
            url: "https://huggingface.co/ggerganov/whisper.cpp/resolve/main/ggml-large-v3.bin",
            size_bytes: 3_094_623_691,
            description: "Best accuracy, slowest",
        },
    );
    proof {
        assert(v@ =~= catalog());
    }
    v
}

/// The catalog entry of the model `model_id`, if there is one.
pub fn get_model_info(model_id: &str) -> (r: Option<ModelInfo>)
    ensures
        r == model_info(model_id@),
{
    let all = models();
    let mut i: usize = 0;
    proof {
        assert(all@.subrange(0, all@.len() as int) =~= all@);
    }
    while i < all.len()
        invariant
            all@ == catalog(),
            i <= all@.len(),
            model_info(model_id@) == find_model(all@.subrange(i as int, all@.len() as int), model_id@),
        decreases all@.len() - i,
    {
        let m = all[i];
        proof {
            let rest = all@.subrange(i as int, all@.len() as int);
            assert(rest[0] == m);
            assert(rest.drop_first() =~= all@.subrange(i + 1, all@.len() as int));
        }
        if same_text(m.id, model_id) {
            return Some(m);
        }
        i = i + 1;
    }
    None
}

/// Every file name in the catalog can extend a directory path.
pub proof fn lemma_catalog_file_names_plain()
    ensures
        forall|i: int| 0 <= i < catalog().len() ==> is_plain_name(#[trigger] catalog()[i].filename@),
{
    assert(is_plain_name("ggml-tiny.bin"@)) by {
        reveal_strlit("ggml-tiny.bin");
        assert("ggml-tiny.bin"@ =~= seq!['g', 'g', 'm', 'l', '-', 't', 'i', 'n', 'y', '.', 'b', 'i', 'n']);
    }
    assert(is_plain_name("ggml-base.bin"@)) by {
        reveal_strlit("ggml-base.bin");
        assert("ggml-base.bin"@ =~= seq!['g', 'g', 'm', 'l', '-', 'b', 'a', 's', 'e', '.', 'b', 'i', 'n']);
    }
    assert(is_plain_name("ggml-small.bin"@)) by {
        reveal_strlit("ggml-small.bin");
        assert("ggml-small.bin"@ =~= seq!['g', 'g', 'm', 'l', '-', 's', 'm', 'a', 'l', 'l', '.', 'b', 'i', 'n']);
    }
    assert(is_plain_name("ggml-medium.bin"@)) by {
        reveal_strlit("ggml-medium.bin");
        assert("ggml-medium.bin"@ =~= seq!['g', 'g', 'm', 'l', '-', 'm', 'e', 'd', 'i', 'u', 'm', '.', 'b', 'i', 'n']);
    }
    assert(is_plain_name("ggml-large-v3.bin"@)) by {
        reveal_strlit("ggml-large-v3.bin");
        assert("ggml-large-v3.bin"@ =~= seq!['g', 'g', 'm', 'l', '-', 'l', 'a', 'r', 'g', 'e', '-', 'v', '3', '.', 'b', 'i', 'n']);
    }
    assert forall|i: int| 0 <= i < catalog().len() implies is_plain_name(
        #[trigger] catalog()[i].filename@,
    ) by {
        assert(0 <= i < 5);
    }
}

/// No two models in the catalog share a file name.
pub proof fn lemma_catalog_file_names_distinct()
    ensures
        forall|i: int, j: int|
            0 <= i < j < catalog().len() ==> (#[trigger] catalog()[i]).filename@ != (
            #[trigger] catalog()[j]).filename@,
{
    reveal_strlit("ggml-tiny.bin");
    assert("ggml-tiny.bin"@ =~= seq!['g', 'g', 'm', 'l', '-', 't', 'i', 'n', 'y', '.', 'b', 'i', 'n']);
    reveal_strlit("ggml-base.bin");
    assert("ggml-base.bin"@ =~= seq!['g', 'g', 'm', 'l', '-', 'b', 'a', 's', 'e', '.', 'b', 'i', 'n']);
    reveal_strlit("ggml-small.bin");
    assert("ggml-small.bin"@ =~= seq!['g', 'g', 'm', 'l', '-', 's', 'm', 'a', 'l', 'l', '.', 'b', 'i', 'n']);
    reveal_strlit("ggml-medium.bin");
    assert("ggml-medium.bin"@ =~= seq!['g', 'g', 'm', 'l', '-', 'm', 'e', 'd', 'i', 'u', 'm', '.', 'b', 'i', 'n']);
    reveal_strlit("ggml-large-v3.bin");
    assert("ggml-large-v3.bin"@ =~= seq!['g', 'g', 'm', 'l', '-', 'l', 'a', 'r', 'g', 'e', '-', 'v', '3', '.', 'b', 'i', 'n']);
    let c = catalog();
    assert(c[0].filename@[5] != c[1].filename@[5]);
    assert forall|i: int, j: int| 0 <= i < j < c.len() implies (#[trigger] c[i]).filename@ != (
    #[trigger] c[j]).filename@ by {
        if i == 0 && j == 1 {
            assert(c[0].filename@[5] != c[1].filename@[5]);
        } else {
            assert(c[i].filename@.len() != c[j].filename@.len());
        }
    }
}

/// Where the models are downloaded from: their file names are appended to it.
pub const MODEL_URL_BASE: &'static str = "https://huggingface.co/ggerganov/whisper.cpp/resolve/main/";

/// Each model's file is named after its id, `ggml-<id>.bin`, and is
/// downloaded from the model repository under that same file name.
pub proof fn law_catalog_files_and_urls()
    ensures
        forall|i: int|
            0 <= i < catalog().len() ==> (#[trigger] catalog()[i]).filename@ == "ggml-"@
                + catalog()[i].id@ + ".bin"@ && catalog()[i].url@ == MODEL_URL_BASE@
                + catalog()[i].filename@,
{
    reveal_strlit("https://huggingface.co/ggerganov/whisper.cpp/resolve/main/");
    reveal_strlit("ggml-");
    reveal_strlit(".bin");
    reveal_strlit("tiny");
    reveal_strlit("ggml-tiny.bin");
    reveal_strlit("https://huggingface.co/ggerganov/whisper.cpp/resolve/main/ggml-tiny.bin");
    reveal_strlit("base");
    reveal_strlit("ggml-base.bin");
    reveal_strlit("https://huggingface.co/ggerganov/whisper.cpp/resolve/main/ggml-base.bin");
    reveal_strlit("small");
    reveal_strlit("ggml-small.bin");
    reveal_strlit("https://huggingface.co/ggerganov/whisper.cpp/resolve/main/ggml-small.bin");
    reveal_strlit("medium");
    reveal_strlit("ggml-medium.bin");
    reveal_strlit("https://huggingface.co/ggerganov/whisper.cpp/resolve/main/ggml-medium.bin");
    reveal_strlit("large-v3");
    reveal_strlit("ggml-large-v3.bin");
    reveal_strlit("https://huggingface.co/ggerganov/whisper.cpp/resolve/main/ggml-large-v3.bin");
    let c = catalog();
    assert(c[0].filename@ =~= "ggml-"@ + c[0].id@ + ".bin"@);
    assert(c[0].url@ =~= MODEL_URL_BASE@ + c[0].filename@);
    assert(c[1].filename@ =~= "ggml-"@ + c[1].id@ + ".bin"@);
    assert(c[1].url@ =~= MODEL_URL_BASE@ + c[1].filename@);
    assert(c[2].filename@ =~= "ggml-"@ + c[2].id@ + ".bin"@);
    assert(c[2].url@ =~= MODEL_URL_BASE@ + c[2].filename@);
    assert(c[3].filename@ =~= "ggml-"@ + c[3].id@ + ".bin"@);
    assert(c[3].url@ =~= MODEL_URL_BASE@ + c[3].filename@);
    assert(c[4].filename@ =~= "ggml-"@ + c[4].id@ + ".bin"@);
    assert(c[4].url@ =~= MODEL_URL_BASE@ + c[4].filename@);
    assert forall|i: int| 0 <= i < c.len() implies (#[trigger] c[i]).filename@ == "ggml-"@ + c[i].id@
        + ".bin"@ && c[i].url@ == MODEL_URL_BASE@ + c[i].filename@ by {
        assert(0 <= i < 5);
    }
}

/// A model found in the catalog is one of its entries.
pub proof fn lemma_find_model_member(models: Seq<ModelInfo>, id: Seq<char>)
    ensures
        find_model(models, id) matches Some(m) ==> exists|i: int|
            0 <= i < models.len() && #[trigger] models[i] == m && m.id@ == id,
    decreases models.len(),
{
    if models.len() > 0 && models[0].id@ != id {
        lemma_find_model_member(models.drop_first(), id);
        if let Some(m) = find_model(models, id) {
            let i = choose|i: int| 0 <= i < models.drop_first().len() && #[trigger] models.drop_first()[i] == m && m.id@ == id;
            assert(models[i + 1] == m);
        }
    }
}

/// Where the file of the model `model_id` lives: the directory
/// `models_dir` joined with the model's file name; a model that is not in
/// the catalog gives "Unknown model: " followed by its id.
pub fn model_path(model_id: &str, models_dir: &str) -> (r: Result<String, String>)
    ensures
        match r {
            Ok(p) => model_info(model_id@) matches Some(m) && p@ == model_file_path(models_dir@, m)
                && ends_with_component(p@, m.filename@),
            Err(e) => model_info(model_id@) is None && e@ == unknown_model_message(model_id@),
        },
{
    match get_model_info(model_id) {
        Some(info) => {
            proof {
                lemma_find_model_member(catalog(), model_id@);
                lemma_catalog_file_names_plain();
            }
            Ok(join_path(models_dir, info.filename))
        },
        None => {
            let mut msg = String::from_str("Unknown model: ");
            msg.append(model_id);
            Err(msg)
        },
    }
}

/// Whether the model `model_id` is downloaded: it is in the catalog and
/// `path_exists` reports that the path of its file inside `models_dir`
/// exists.
pub fn is_model_downloaded<F: Fn(String) -> bool>(
    model_id: &str,
    models_dir: &str,
    path_exists: &F,
) -> (r: bool)
    requires
        forall|p: String| call_requires(*path_exists, (p,)),
    ensures
        downloaded_answer(model_id@, models_dir@, *path_exists, r),
{
    match model_path(model_id, models_dir) {
        Ok(path) => {
            let ghost path_view = path@;
            let answer = path_exists(path);
            proof {
                assert(may_report(*path_exists, path_view, answer));
            }
            answer
        },
        Err(_) => false,
    }
}

/// Why the selected model cannot be loaded.
#[derive(Debug)]
pub enum ModelFileError {
    /// The model is not in the catalog; the text says so.
    UnknownModel(String),
    /// Its file does not exist; no model is loaded then.
    FileNotFound,
}

impl ModelFileError {
    /// The error text to report.
    pub fn message(&self) -> (r: String)
        ensures
            match self {
                ModelFileError::UnknownModel(e) => r@ == e@,
                ModelFileError::FileNotFound => r@ == "Model file not found"@,
            },
    {
        match self {
            ModelFileError::UnknownModel(e) => e.clone(),
            ModelFileError::FileNotFound => String::from_str("Model file not found"),
        }
    }

    /// Whether a model that is loaded must be dropped: so when its file is
    /// missing.
    pub fn unloads_model(&self) -> (r: bool)
        ensures
            r == (self is FileNotFound),
    {
        match self {
            ModelFileError::UnknownModel(_) => false,
            ModelFileError::FileNotFound => true,
        }
    }
}

/// The file to load for the selected model `model_id`: its path inside
/// `models_dir` where `path_exists` reports that it exists; an unknown model,
/// or a file that does not exist, is an error.
pub fn model_file_to_load<F: Fn(String) -> bool>(
    model_id: &str,
    models_dir: &str,
    path_exists: &F,
) -> (r: Result<String, ModelFileError>)
    requires
        forall|p: String| call_requires(*path_exists, (p,)),
    ensures
        match r {
            Ok(p) => model_info(model_id@) matches Some(m) && p@ == model_file_path(models_dir@, m)
                && ends_with_component(p@, m.filename@) && may_report(*path_exists, p@, true),
            Err(ModelFileError::UnknownModel(e)) => model_info(model_id@) is None && e@
                == unknown_model_message(model_id@),
            Err(ModelFileError::FileNotFound) => model_info(model_id@) matches Some(m) && may_report(
                *path_exists,
                model_file_path(models_dir@, m),
                false,
            ),
        },
{
    let path = match model_path(model_id, models_dir) {
        Ok(path) => path,
        Err(e) => return Err(ModelFileError::UnknownModel(e)),
    };
    let ghost path_view = path@;
    let probe = path.clone();
    if !path_exists(probe) {
        proof {
            assert(may_report(*path_exists, path_view, false));
        }
        return Err(ModelFileError::FileNotFound);
    }
    proof {
        assert(may_report(*path_exists, path_view, true));
    }
    Ok(path)
}

/// A model as the settings window lists it.
#[derive(Debug)]
pub struct ModelEntry {
    pub id: String,
    pub name: String,
    pub description: String,
    pub size_bytes: u64,
    /// Whether its file is in the models directory.
    pub downloaded: bool,
    /// Whether it is the selected model.
    pub active: bool,
}

/// Whether `entry` lists the catalog model `info`, with the model `selected`,
/// where `path_exists` tells which files exist in `models_dir`.
pub open spec fn lists_model<F: Fn(String) -> bool>(
    entry: ModelEntry,
    info: ModelInfo,
    selected: Seq<char>,
    models_dir: Seq<char>,
    path_exists: F,
) -> bool {
    &&& entry.id@ == info.id@
    &&& entry.name@ == info.name@
    &&& entry.description@ == info.description@
    &&& entry.size_bytes == info.size_bytes
    &&& downloaded_answer(info.id@, models_dir, path_exists, entry.downloaded)
    &&& entry.active == (info.id@ == selected)
}

/// The catalog as the settings window lists it: each model in order, with
/// whether it is downloaded and whether it is the model `selected`.
pub fn model_entries<F: Fn(String) -> bool>(
    selected: &str,
    models_dir: &str,
    path_exists: &F,
) -> (r: Vec<ModelEntry>)
    requires
        forall|p: String| call_requires(*path_exists, (p,)),
    ensures
        r@.len() == catalog().len(),
        forall|i: int|
            0 <= i < r@.len() ==> lists_model(
                #[trigger] r@[i],
                catalog()[i],
                selected@,
                models_dir@,
                *path_exists,
            ),
{
    let all = models();
    let mut entries: Vec<ModelEntry> = Vec::new();
    let mut i: usize = 0;
    while i < all.len()
        invariant
            all@ == catalog(),
            i <= all@.len(),
            entries@.len() == i,
            forall|p: String| call_requires(*path_exists, (p,)),
            forall|k: int|
                0 <= k < i ==> lists_model(
                    #[trigger] entries@[k],
                    catalog()[k],
                    selected@,
                    models_dir@,
                    *path_exists,
                ),
        decreases all@.len() - i,
    {
        let m = all[i];
        let entry = ModelEntry {
            id: String::from_str(m.id),
            name: String::from_str(m.name),
            description: String::from_str(m.description),
            size_bytes: m.size_bytes,
            downloaded: is_model_downloaded(m.id, models_dir, path_exists),
            active: same_text(m.id, selected),
        };
        entries.push(entry);
        i = i + 1;
    }
    entries
}

} // verus!
