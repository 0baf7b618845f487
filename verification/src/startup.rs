//! What the program decides before the first dictation.
use vstd::prelude::*;
use vstd::string::*;

use crate::config::{Config, PromptPreset, SttMode, Theme};
use crate::control::ConfigView;
use crate::diagnostics::theme_name;
use crate::models::{
    a_fallback_can_transcribe, fallback_of, is_listed, is_vad, is_vad_model_filename, listed,
    whisper_fallback_filename, ModelEntry,
};
use crate::text::{option_text, text_eq, texts};
use crate::tray::traits::TrayState;

verus! {

// ---------------------------------------------------------------------------
// Prompts
// ---------------------------------------------------------------------------

/// The prompt for both languages.
pub const BILINGUAL_PROMPT: &'static str =
    "Hola, voy a dictar en español e inglés. Hello, I will dictate in Spanish and English.";

/// The text that primes the transcriber. A custom prompt that is empty counts
/// as the bilingual one.
pub open spec fn prompt_text(preset: PromptPreset, custom: Seq<char>) -> Seq<char> {
    match preset {
        PromptPreset::BilingualEsEn => BILINGUAL_PROMPT@,
        PromptPreset::SpanishOnly => "Hola, voy a dictar en español. "@,
        PromptPreset::EnglishOnly => "Hello, I will dictate in English. "@,
        PromptPreset::Custom => if custom.len() == 0 {
            BILINGUAL_PROMPT@
        } else {
            custom
        },
    }
}

/// The text that primes the transcriber.
pub fn resolve_prompt_text(config: &Config) -> (r: String)
    ensures
        r@ == prompt_text(config.prompt_preset, config.system_prompt@),
{
    match config.prompt_preset {
        PromptPreset::BilingualEsEn => BILINGUAL_PROMPT.to_owned(),
        PromptPreset::SpanishOnly => "Hola, voy a dictar en español. ".to_owned(),
        PromptPreset::EnglishOnly => "Hello, I will dictate in English. ".to_owned(),
        PromptPreset::Custom => {
            if config.system_prompt.as_str().is_empty() {
                BILINGUAL_PROMPT.to_owned()
            } else {
                config.system_prompt.clone()
            }
        },
    }
}

/// Replaces a custom prompt that is empty by the bilingual one. Says whether
/// that was needed.
pub fn sanitize_config(config: &mut Config) -> (r: bool)
    ensures
        r == (old(config).prompt_preset == PromptPreset::Custom && old(config).system_prompt@.len()
            == 0),
        *final(config) == (Config {
            prompt_preset: if r {
                PromptPreset::BilingualEsEn
            } else {
                old(config).prompt_preset
            },
            ..*old(config)
        }),
{
    if config.prompt_preset == PromptPreset::Custom && config.system_prompt.as_str().is_empty() {
        config.prompt_preset = PromptPreset::BilingualEsEn;
        return true;
    }
    false
}

/// Whatever the preferences, the transcriber is primed with some text.
pub proof fn a_prompt_is_never_empty(preset: PromptPreset, custom: Seq<char>)
    ensures
        prompt_text(preset, custom).len() > 0,
{
    reveal_strlit(
        "Hola, voy a dictar en español e inglés. Hello, I will dictate in Spanish and English.",
    );
    reveal_strlit("Hola, voy a dictar en español. ");
    reveal_strlit("Hello, I will dictate in English. ");
}

/// Replacing an empty custom prompt changes nothing of what the transcriber is
/// primed with.
pub proof fn sanitizing_keeps_the_prompt(custom: Seq<char>)
    requires
        custom.len() == 0,
    ensures
        prompt_text(PromptPreset::BilingualEsEn, custom) == prompt_text(
            PromptPreset::Custom,
            custom,
        ),
{
}

// ---------------------------------------------------------------------------
// The model
// ---------------------------------------------------------------------------

/// The model after a look at the models folder: one that is missing or cannot
/// transcribe is replaced.
pub open spec fn recovered_model(
    model: Seq<char>,
    catalog: Seq<ModelEntry>,
    installed: Seq<String>,
) -> Seq<char> {
    if !is_vad(model) && is_listed(installed, model) {
        model
    } else {
        match fallback_of(catalog, installed) {
            Some(fallback) => fallback,
            None => if is_vad(model) {
                "ggml-base.bin"@
            } else {
                model
            },
        }
    }
}

/// Replaces a model that is missing or cannot transcribe. Says whether the
/// preferences are to be saved.
pub fn recover_model(config: &mut Config, catalog: &Vec<ModelEntry>, installed: &Vec<String>) -> (r:
    bool)
    ensures
        final(config).model@ == recovered_model(old(config).model@, catalog@, installed@),
        *final(config) == (Config { model: final(config).model, ..*old(config) }),
        r == (final(config).model@ != old(config).model@),
{
    let vad = is_vad_model_filename(config.model.as_str());
    if !vad && listed(installed, config.model.as_str()) {
        return false;
    }
    match whisper_fallback_filename(catalog, installed) {
        Some(fallback) => {
            if text_eq(fallback.as_str(), config.model.as_str()) {
                return false;
            }
            config.model = fallback;
            true
        },
        None => {
            if vad {
                proof {
                    lemma_base_can_transcribe();
                }
                config.model = "ggml-base.bin".to_owned();
            }
            vad
        },
    }
}

proof fn lemma_base_can_transcribe()
    ensures
        !is_vad("ggml-base.bin"@),
{
    reveal_strlit("ggml-base.bin");
    reveal_strlit("ggml-silero");
    let base = "ggml-base.bin"@;
    let vad = "ggml-silero"@;
    assert(base[5] == 'b' && vad[5] == 's');
    assert(vad.is_prefix_of(base) ==> base.take(vad.len() as int)[5] == vad[5]);
}

/// After the look at the models folder the model is not the voice activity
/// detector.
pub proof fn a_recovered_model_can_transcribe(
    model: Seq<char>,
    catalog: Seq<ModelEntry>,
    installed: Seq<String>,
)
    ensures
        !is_vad(recovered_model(model, catalog, installed)),
{
    a_fallback_can_transcribe(catalog, installed);
    lemma_base_can_transcribe();
}

/// A model that is there and can transcribe stays.
pub proof fn a_good_model_stays(
    model: Seq<char>,
    catalog: Seq<ModelEntry>,
    installed: Seq<String>,
)
    requires
        is_listed(installed, model),
        !is_vad(model),
    ensures
        recovered_model(model, catalog, installed) == model,
{
}

// ---------------------------------------------------------------------------
// The command line
// ---------------------------------------------------------------------------

/// The preferences that the command line changes.
#[derive(Debug, PartialEq, Eq)]
pub struct Overrides {
    pub theme: Option<String>,
    pub lang: Option<String>,
    /// An empty prompt goes back to the bilingual one.
    pub set_prompt: Option<String>,
}

/// The theme of that name.
pub open spec fn theme_of(name: Seq<char>) -> Theme {
    if name == "dark"@ {
        Theme::Dark
    } else if name == "light"@ {
        Theme::Light
    } else {
        Theme::System
    }
}

/// The theme of that name.
pub fn theme_from_name(name: &str) -> (r: Theme)
    ensures
        r == theme_of(name@),
{
    if text_eq(name, "dark") {
        Theme::Dark
    } else if text_eq(name, "light") {
        Theme::Light
    } else {
        Theme::System
    }
}

/// Changes the preferences as the command line asks. Says whether they are to
/// be saved.
pub fn apply_overrides(config: &mut Config, overrides: &Overrides) -> (r: bool)
    ensures
        r == (overrides.theme is Some || overrides.lang is Some || overrides.set_prompt is Some),
        final(config).theme == (match overrides.theme {
            Some(name) => theme_of(name@),
            None => old(config).theme,
        }),
        final(config).language_ui@ == (match overrides.lang {
            Some(lang) => lang@,
            None => old(config).language_ui@,
        }),
        final(config).prompt_preset == (match overrides.set_prompt {
            Some(prompt) => if prompt@.len() == 0 {
                PromptPreset::BilingualEsEn
            } else {
                PromptPreset::Custom
            },
            None => old(config).prompt_preset,
        }),
        final(config).system_prompt@ == (match overrides.set_prompt {
            Some(prompt) => prompt@,
            None => old(config).system_prompt@,
        }),
        *final(config) == (Config {
            theme: final(config).theme,
            language_ui: final(config).language_ui,
            prompt_preset: final(config).prompt_preset,
            system_prompt: final(config).system_prompt,
            ..*old(config)
        }),
        final(config)@ == overridden(
            old(config)@,
            option_text(overrides.theme),
            option_text(overrides.lang),
            option_text(overrides.set_prompt),
        ),
{
    let mut changed = false;
    if let Some(name) = &overrides.theme {
        config.theme = theme_from_name(name.as_str());
        changed = true;
    }
    if let Some(lang) = &overrides.lang {
        config.language_ui = lang.clone();
        changed = true;
    }
    if let Some(prompt) = &overrides.set_prompt {
        if prompt.as_str().is_empty() {
            config.prompt_preset = PromptPreset::BilingualEsEn;
        } else {
            config.prompt_preset = PromptPreset::Custom;
        }
        config.system_prompt = prompt.clone();
        changed = true;
    }
    changed
}

/// The key to listen to: the one of the preferences where it can be read, or
/// else the default.
pub fn choose_binding(hotkey: &str, is_valid: bool, default_hotkey: &str) -> (r: String)
    ensures
        r@ == if is_valid {
            hotkey@
        } else {
            default_hotkey@
        },
        r@ == chosen_binding(hotkey@, is_valid, default_hotkey@),
{
    if is_valid {
        hotkey.to_owned()
    } else {
        default_hotkey.to_owned()
    }
}

/// Keeps a key that was recorded, where it can be read back. Gives the key
/// from before; `None` leaves the preferences as they are.
pub fn run_set_hotkey(config: &mut Config, binding: &str, is_valid: bool) -> (r: Option<String>)
    ensures
        match r {
            Some(previous) => is_valid && previous@ == old(config).hotkey@ && final(config).hotkey@
                == binding@ && *final(config) == (Config {
                hotkey: final(config).hotkey,
                ..*old(config)
            }),
            None => !is_valid && *final(config) == *old(config),
        },
{
    if !is_valid {
        return None;
    }
    let previous = config.hotkey.clone();
    config.hotkey = binding.to_owned();
    Some(previous)
}

// ---------------------------------------------------------------------------
// Threads
// ---------------------------------------------------------------------------

/// The threads of each worker: those of the preferences, or else the share of
/// at most eight processors, and two at the least.
pub open spec fn threads_for(configured: Option<u16>, available: Option<u16>, workers: u16) -> int {
    match configured {
        Some(n) => n as int,
        None => {
            let processors = match available {
                Some(n) => n as int,
                None => 4,
            };
            let share = (if processors < 8 {
                processors
            } else {
                8
            }) / workers as int;
            if share < 2 {
                2
            } else {
                share
            }
        },
    }
}

/// The threads of each worker, given how many processors there are, if that is
/// known, and how many workers.
pub fn threads_per_worker(configured: Option<u16>, available: Option<u16>, workers: u16) -> (r: u16)
    requires
        workers > 0,
    ensures
        r == threads_for(configured, available, workers),
{
    match configured {
        Some(n) => n,
        None => {
            let processors: u16 = match available {
                Some(n) => n,
                None => 4,
            };
            let total: u16 = if processors < 8 {
                processors
            } else {
                8
            };
            let share: u16 = total / workers;
            if share < 2 {
                2
            } else {
                share
            }
        },
    }
}

/// The automatic choice lies between two and eight.
pub proof fn the_automatic_threads_are_bounded(available: Option<u16>, workers: u16)
    requires
        workers > 0,
    ensures
        2 <= threads_for(None, available, workers) <= 8,
{
    let processors = match available {
        Some(n) => n as int,
        None => 4,
    };
    let total = if processors < 8 {
        processors
    } else {
        8
    };
    assert(0 <= total / workers as int <= total) by (nonlinear_arith)
        requires
            0 <= total,
            workers > 0,
    ;
}

// ---------------------------------------------------------------------------
// The voice activity detector
// ---------------------------------------------------------------------------

/// The file of the voice activity detector.
pub const VAD_MODEL_FILENAME: &'static str = "ggml-silero-v5.1.2.bin";

/// Where the voice activity detector is published.
pub const VAD_MODEL_URL: &'static str =
    "https://huggingface.co/ggml-org/whisper-vad/resolve/main/ggml-silero-v5.1.2.bin";

/// A program to run, with its arguments.
#[derive(Debug, PartialEq, Eq)]
pub struct ScriptCommand {
    pub program: String,
    pub args: Vec<String>,
}

/// The arguments of the download of the voice activity detector to `path`.
pub open spec fn vad_download_args(windows: bool, path: Seq<char>) -> Seq<Seq<char>> {
    if windows {
        seq![
            "-ExecutionPolicy"@,
            "Bypass"@,
            "-File"@,
            "scripts/download_vad.ps1"@,
            VAD_MODEL_URL@,
            path,
        ]
    } else {
        seq!["scripts/download_vad.sh"@, VAD_MODEL_URL@, path]
    }
}

/// The program that downloads the voice activity detector to `path`, unless it
/// is there already.
pub fn vad_download_command(windows: bool, path: &str, exists: bool) -> (r: Option<ScriptCommand>)
    ensures
        exists <==> r is None,
        r matches Some(command) ==> command.program@ == (if windows {
            "powershell"@
        } else {
            "bash"@
        }) && texts(command.args@) == vad_download_args(windows, path@),
{
    if exists {
        return None;
    }
    let mut args: Vec<String> = Vec::new();
    if windows {
        args.push("-ExecutionPolicy".to_owned());
        args.push("Bypass".to_owned());
        args.push("-File".to_owned());
        args.push("scripts/download_vad.ps1".to_owned());
    } else {
        args.push("scripts/download_vad.sh".to_owned());
    }
    args.push(VAD_MODEL_URL.to_owned());
    args.push(path.to_owned());
    assert(texts(args@) =~= vad_download_args(windows, path@));
    let program = if windows {
        "powershell".to_owned()
    } else {
        "bash".to_owned()
    };
    Some(ScriptCommand { program, args })
}

/// What a download of the voice activity detector came to.
#[derive(Debug, Clone, Copy, PartialEq, Eq, Structural)]
pub enum VadDownload {
    /// The file is there.
    Ready,
    /// What there may be of the file is to be removed.
    Discard,
    /// There is no file.
    Absent,
}

/// What a download came to, given whether the program could be run and said
/// that it succeeded, and whether the file is there.
pub fn vad_download_outcome(succeeded: Option<bool>, exists: bool) -> (r: VadDownload)
    ensures
        r == (match succeeded {
            Some(success) => if success && exists {
                VadDownload::Ready
            } else {
                VadDownload::Discard
            },
            None => VadDownload::Absent,
        }),
        r == download_verdict(succeeded, exists),
{
    match succeeded {
        Some(success) => if success && exists {
            VadDownload::Ready
        } else {
            VadDownload::Discard
        },
        None => VadDownload::Absent,
    }
}

// ---------------------------------------------------------------------------
// Loading the model in the background
// ---------------------------------------------------------------------------

/// A step of loading the model in the background.
#[derive(Debug, Clone, Copy, PartialEq, Eq, Structural)]
pub enum LazyStep {
    ShowState(TrayState),
    /// Load the model and warm it up. Where loading fails, the error is shown
    /// and nothing follows.
    LoadModel,
    /// Try to download the voice activity detector.
    DownloadVad,
    /// Let the key through to the dictation.
    OpenHotkey,
}

/// Whether a mode transcribes whole recordings.
pub open spec fn uses_transcriber(mode: SttMode) -> bool {
    mode == SttMode::Batch || mode == SttMode::Chunked
}

/// The steps of loading the model in the background. While the model is being
/// downloaded there are none: the download takes care of the rest.
pub open spec fn lazy_steps(
    mode: SttMode,
    is_downloading: bool,
    has_transcriber: bool,
    vad_exists: bool,
) -> Seq<LazyStep> {
    if is_downloading {
        Seq::empty()
    } else {
        seq![LazyStep::ShowState(TrayState::Loading)] + (if uses_transcriber(mode)
            && has_transcriber {
            seq![LazyStep::LoadModel]
        } else {
            Seq::empty()
        }) + (if uses_transcriber(mode) && !vad_exists {
            seq![LazyStep::DownloadVad]
        } else {
            Seq::empty()
        }) + seq![LazyStep::OpenHotkey, LazyStep::ShowState(TrayState::Idle)]
    }
}

/// The steps of loading the model in the background.
pub fn plan_lazy_load(
    mode: SttMode,
    is_downloading: bool,
    has_transcriber: bool,
    vad_exists: bool,
) -> (r: Vec<LazyStep>)
    ensures
        r@ == lazy_steps(mode, is_downloading, has_transcriber, vad_exists),
{
    let mut steps: Vec<LazyStep> = Vec::new();
    if !is_downloading {
        let whole = match mode {
            SttMode::Batch | SttMode::Chunked => true,
            SttMode::Streaming => false,
        };
        steps.push(LazyStep::ShowState(TrayState::Loading));
        if whole && has_transcriber {
            steps.push(LazyStep::LoadModel);
        }
        if whole && !vad_exists {
            steps.push(LazyStep::DownloadVad);
        }
        steps.push(LazyStep::OpenHotkey);
        steps.push(LazyStep::ShowState(TrayState::Idle));
    }
    assert(steps@ =~= lazy_steps(mode, is_downloading, has_transcriber, vad_exists));
    steps
}

/// The key is let through only after the model was loaded, where there is one
/// to load.
pub proof fn the_hotkey_opens_after_the_model(
    mode: SttMode,
    is_downloading: bool,
    has_transcriber: bool,
    vad_exists: bool,
    i: int,
    j: int,
)
    requires
        0 <= i < lazy_steps(mode, is_downloading, has_transcriber, vad_exists).len(),
        0 <= j < lazy_steps(mode, is_downloading, has_transcriber, vad_exists).len(),
        lazy_steps(mode, is_downloading, has_transcriber, vad_exists)[i] == LazyStep::OpenHotkey,
        lazy_steps(mode, is_downloading, has_transcriber, vad_exists)[j] == LazyStep::LoadModel,
    ensures
        j < i,
{
}

/// What the icon shows once the dictation is set up.
pub fn initial_tray_state(is_downloading: bool, model_missing: bool, has_no_bins: bool) -> (r:
    TrayState)
    ensures
        r == if is_downloading {
            TrayState::Loading
        } else if model_missing || has_no_bins {
            TrayState::Error
        } else {
            TrayState::Idle
        },
        r == first_tray_state(is_downloading, model_missing, has_no_bins),
{
    if is_downloading {
        TrayState::Loading
    } else if model_missing || has_no_bins {
        TrayState::Error
    } else {
        TrayState::Idle
    }
}

/// What a dictation is doing.
#[derive(Debug, Clone, Copy, PartialEq, Eq, Structural)]
pub enum PipelineState {
    Idle,
    Recording,
    Processing,
    Error,
}

/// What the icon shows for what a dictation is doing.
pub fn tray_state_of(state: PipelineState) -> (r: TrayState)
    ensures
        r == (match state {
            PipelineState::Idle => TrayState::Idle,
            PipelineState::Recording => TrayState::Listening,
            PipelineState::Processing => TrayState::Processing,
            PipelineState::Error => TrayState::Error,
        }),
        r == shown_for(state),
{
    match state {
        PipelineState::Idle => TrayState::Idle,
        PipelineState::Recording => TrayState::Listening,
        PipelineState::Processing => TrayState::Processing,
        PipelineState::Error => TrayState::Error,
    }
}

// ---------------------------------------------------------------------------
// Laws
// ---------------------------------------------------------------------------

/// Each ready-made prompt is in the languages it is named after: it greets in
/// Spanish unless it is for English only, in English unless it is for Spanish
/// only. The custom one is what the user wrote.
pub proof fn a_prompt_is_in_its_languages(preset: PromptPreset, custom: Seq<char>)
    ensures
        preset == PromptPreset::BilingualEsEn ==> prompt_text(preset, custom)
            == "Hola, voy a dictar en español e inglés. Hello, I will dictate in Spanish and English."@,
        preset == PromptPreset::SpanishOnly ==> prompt_text(preset, custom)
            == "Hola, voy a dictar en español. "@,
        preset == PromptPreset::EnglishOnly ==> prompt_text(preset, custom)
            == "Hello, I will dictate in English. "@,
        preset == PromptPreset::Custom && custom.len() > 0 ==> prompt_text(preset, custom)
            == custom,
        preset != PromptPreset::Custom ==> prompt_text(preset, custom) == prompt_text(
            preset,
            Seq::empty(),
        ),
{
}

/// A model that has to be replaced is replaced by the one that stands in, and
/// where there is none only the voice activity detector is, by the base model.
pub proof fn a_bad_model_is_replaced(
    model: Seq<char>,
    catalog: Seq<ModelEntry>,
    installed: Seq<String>,
)
    requires
        is_vad(model) || !is_listed(installed, model),
    ensures
        match fallback_of(catalog, installed) {
            Some(fallback) => recovered_model(model, catalog, installed) == fallback && is_listed(
                installed,
                recovered_model(model, catalog, installed),
            ),
            None => if is_vad(model) {
                recovered_model(model, catalog, installed) == "ggml-base.bin"@
            } else {
                recovered_model(model, catalog, installed) == model
            },
        },
{
    a_fallback_can_transcribe(catalog, installed);
}

/// To look at the models folder a second time changes nothing.
pub proof fn recovering_twice_changes_nothing(
    model: Seq<char>,
    catalog: Seq<ModelEntry>,
    installed: Seq<String>,
)
    ensures
        ({
            let once = recovered_model(model, catalog, installed);
            recovered_model(once, catalog, installed) == once
        }),
{
    a_fallback_can_transcribe(catalog, installed);
    lemma_base_can_transcribe();
}

/// The command line names the dark and the light theme as the table of the
/// preferences does, and every other name leaves the choice to the system.
pub proof fn a_theme_goes_by_its_name(theme: Theme, name: Seq<char>)
    ensures
        theme_of(theme_name(theme)) == theme,
        theme_of(name) == Theme::Dark <==> name == seq!['d', 'a', 'r', 'k'],
        theme_of(name) == Theme::Light <==> name == seq!['l', 'i', 'g', 'h', 't'],
{
    reveal_strlit("dark");
    reveal_strlit("light");
    reveal_strlit("system");
    assert("dark"@ =~= seq!['d', 'a', 'r', 'k']);
    assert("light"@ =~= seq!['l', 'i', 'g', 'h', 't']);
    assert("dark"@.len() != "light"@.len() && "dark"@.len() != "system"@.len() && "light"@.len()
        != "system"@.len());
}

/// A number of threads in the preferences is used as it is. The automatic
/// choice gives all workers together no more than eight threads, nor more than
/// there are processors, unless that leaves a worker with fewer than two; and
/// it leaves no thread of the eight idle that would make a full share.
pub proof fn threads_are_shared(available: u16, workers: u16, configured: u16)
    requires
        workers > 0,
    ensures
        threads_for(Some(configured), Some(available), workers) == configured,
        ({
            let each = threads_for(None, Some(available), workers);
            &&& each > 2 ==> each * workers <= 8 && each * workers <= available
            &&& (each + 1) * workers > 8 || (each + 1) * workers > available
        }),
        threads_for(None, None, workers) == threads_for(None, Some(4), workers),
{
    let total = if available < 8 {
        available as int
    } else {
        8
    };
    let share = total / workers as int;
    assert(share * workers <= total < (share + 1) * workers) by (nonlinear_arith)
        requires
            0 <= total,
            workers > 0,
            share == total / workers as int,
    ;
    let each = threads_for(None, Some(available), workers);
    assert((share + 1) * workers <= (each + 1) * workers) by (nonlinear_arith)
        requires
            share <= each,
            workers > 0,
    ;
}

/// More processors never mean fewer threads, and more workers never more for
/// each.
pub proof fn threads_follow_the_processors(fewer: u16, more: u16, workers: u16, crowd: u16)
    requires
        fewer <= more,
        0 < workers <= crowd,
    ensures
        threads_for(None, Some(fewer), workers) <= threads_for(None, Some(more), workers),
        threads_for(None, Some(more), crowd) <= threads_for(None, Some(more), workers),
{
    let a = if fewer < 8 {
        fewer as int
    } else {
        8
    };
    let b = if more < 8 {
        more as int
    } else {
        8
    };
    assert(a / workers as int <= b / workers as int) by (nonlinear_arith)
        requires
            0 <= a <= b,
            workers > 0,
    ;
    assert(b / crowd as int <= b / workers as int) by (nonlinear_arith)
        requires
            0 <= b,
            0 < workers <= crowd,
    ;
}

/// The download gets its source and its destination as the last two arguments
/// on every system, behind the script of the system.
pub proof fn a_download_names_source_and_destination(windows: bool, path: Seq<char>)
    ensures
        ({
            let args = vad_download_args(windows, path);
            let script = args[args.len() - 3];
            &&& args.len() >= 3
            &&& args.last() == path
            &&& args[args.len() - 2]
                == "https://huggingface.co/ggml-org/whisper-vad/resolve/main/ggml-silero-v5.1.2.bin"@
            &&& script == (if windows {
                "scripts/download_vad.ps1"@
            } else {
                "scripts/download_vad.sh"@
            })
            &&& windows ==> args.take(3) == seq!["-ExecutionPolicy"@, "Bypass"@, "-File"@]
            &&& !windows ==> args.len() == 3
        }),
{
    let args = vad_download_args(windows, path);
    if windows {
        assert(args.take(3) =~= seq!["-ExecutionPolicy"@, "Bypass"@, "-File"@]);
    }
}

/// What a download came to, given how the program went and whether the file is
/// there.
pub open spec fn download_verdict(succeeded: Option<bool>, exists: bool) -> VadDownload {
    match succeeded {
        Some(success) => if success && exists {
            VadDownload::Ready
        } else {
            VadDownload::Discard
        },
        None => VadDownload::Absent,
    }
}

/// A file is trusted only where the download succeeded and the file is there,
/// and one that a download left behind without succeeding is removed.
pub proof fn a_download_is_trusted_if_it_succeeded(succeeded: Option<bool>, exists: bool)
    ensures
        download_verdict(succeeded, exists) == VadDownload::Ready <==> succeeded == Some(true)
            && exists,
        download_verdict(succeeded, exists) == VadDownload::Absent <==> succeeded is None,
{
}

/// While a model is being downloaded nothing is loaded. Else the icon goes from
/// loading to idle, the key is let through once and as the last thing before
/// that, and a model is loaded and the voice activity detector downloaded
/// exactly where the mode needs them and they are wanting.
pub proof fn loading_goes_from_loading_to_idle(
    mode: SttMode,
    is_downloading: bool,
    has_transcriber: bool,
    vad_exists: bool,
)
    ensures
        ({
            let steps = lazy_steps(mode, is_downloading, has_transcriber, vad_exists);
            let whole = mode != SttMode::Streaming;
            let n = steps.len();
            &&& is_downloading ==> n == 0
            &&& !is_downloading ==> {
                &&& steps[0] == LazyStep::ShowState(TrayState::Loading)
                &&& steps[n - 1] == LazyStep::ShowState(TrayState::Idle)
                &&& steps[n - 2] == LazyStep::OpenHotkey
                &&& steps.contains(LazyStep::LoadModel) == (whole && has_transcriber)
                &&& steps.contains(LazyStep::DownloadVad) == (whole && !vad_exists)
                &&& n == 3 + (if whole && has_transcriber {
                    1int
                } else {
                    0
                }) + (if whole && !vad_exists {
                    1int
                } else {
                    0
                })
            }
        }),
{
    let steps = lazy_steps(mode, is_downloading, has_transcriber, vad_exists);
    if !is_downloading {
        assert(steps.contains(steps[1]) && steps.contains(steps[2]));
    }
}

/// What the icon shows once the dictation is set up.
pub open spec fn first_tray_state(
    is_downloading: bool,
    model_missing: bool,
    has_no_bins: bool,
) -> TrayState {
    if is_downloading {
        TrayState::Loading
    } else if model_missing || has_no_bins {
        TrayState::Error
    } else {
        TrayState::Idle
    }
}

/// At the start the icon shows no more than three states: it is loading exactly
/// while a model is being downloaded, and idle only with a model.
pub proof fn the_icon_starts_as_the_model_is(
    is_downloading: bool,
    model_missing: bool,
    has_no_bins: bool,
)
    ensures
        ({
            let shown = first_tray_state(is_downloading, model_missing, has_no_bins);
            &&& shown == TrayState::Loading <==> is_downloading
            &&& shown == TrayState::Idle <==> !is_downloading && !model_missing && !has_no_bins
            &&& shown == TrayState::Loading || shown == TrayState::Idle || shown
                == TrayState::Error
        }),
{
}

/// What the icon shows for what a dictation is doing.
pub open spec fn shown_for(state: PipelineState) -> TrayState {
    match state {
        PipelineState::Idle => TrayState::Idle,
        PipelineState::Recording => TrayState::Listening,
        PipelineState::Processing => TrayState::Processing,
        PipelineState::Error => TrayState::Error,
    }
}

/// The icon listens exactly while the dictation records, and tells all that a
/// dictation can be doing apart.
pub proof fn the_icon_tells_the_dictation_apart(a: PipelineState, b: PipelineState)
    ensures
        shown_for(a) == shown_for(b) <==> a == b,
        shown_for(a) == TrayState::Listening <==> a == PipelineState::Recording,
        shown_for(a) == TrayState::Processing <==> a == PipelineState::Processing,
        shown_for(a) == TrayState::Idle <==> a == PipelineState::Idle,
        shown_for(a) == TrayState::Error <==> a == PipelineState::Error,
{
}

/// The preferences after the command line changed them.
pub open spec fn overridden(
    config: ConfigView,
    theme: Option<Seq<char>>,
    lang: Option<Seq<char>>,
    prompt: Option<Seq<char>>,
) -> ConfigView {
    ConfigView {
        theme: match theme {
            Some(name) => theme_of(name),
            None => config.theme,
        },
        language_ui: match lang {
            Some(lang) => lang,
            None => config.language_ui,
        },
        prompt_preset: match prompt {
            Some(prompt) => if prompt.len() == 0 {
                PromptPreset::BilingualEsEn
            } else {
                PromptPreset::Custom
            },
            None => config.prompt_preset,
        },
        system_prompt: match prompt {
            Some(prompt) => prompt,
            None => config.system_prompt,
        },
        ..config
    }
}

/// A prompt on the command line primes the transcriber as it stands, and an
/// empty one brings the bilingual prompt back.
pub proof fn a_prompt_on_the_command_line_is_used(
    config: ConfigView,
    theme: Option<Seq<char>>,
    lang: Option<Seq<char>>,
    prompt: Seq<char>,
)
    ensures
        ({
            let after = overridden(config, theme, lang, Some(prompt));
            prompt_text(after.prompt_preset, after.system_prompt) == if prompt.len() > 0 {
                prompt
            } else {
                prompt_text(PromptPreset::BilingualEsEn, Seq::empty())
            }
        }),
{
}

/// The command line changes what it names and nothing else, one preference
/// whatever the others.
pub proof fn the_command_line_changes_what_it_names(
    config: ConfigView,
    theme: Option<Seq<char>>,
    lang: Option<Seq<char>>,
    prompt: Option<Seq<char>>,
)
    ensures
        ({
            let after = overridden(config, theme, lang, prompt);
            &&& theme is None ==> after.theme == config.theme
            &&& theme matches Some(name) ==> after.theme == theme_of(name)
            &&& lang is None ==> after.language_ui == config.language_ui
            &&& lang matches Some(lang) ==> after.language_ui == lang
            &&& prompt is None ==> after.prompt_preset == config.prompt_preset
                && after.system_prompt == config.system_prompt
            &&& after.hotkey == config.hotkey && after.model == config.model
            &&& after.ui_language == config.ui_language && after.stt_mode == config.stt_mode
            &&& after.effort == config.effort && after.input_device == config.input_device
            &&& overridden(after, theme, lang, prompt) == after
        }),
{
}

/// The key to listen to, given whether the one of the preferences can be read.
pub open spec fn chosen_binding(
    hotkey: Seq<char>,
    is_valid: bool,
    default_hotkey: Seq<char>,
) -> Seq<char> {
    if is_valid {
        hotkey
    } else {
        default_hotkey
    }
}

/// A key that can be read is used whatever the default is, and the default
/// takes the place of any other.
pub proof fn a_readable_key_is_used(hotkey: Seq<char>, other: Seq<char>, default_hotkey: Seq<char>)
    ensures
        chosen_binding(hotkey, true, default_hotkey) == hotkey,
        chosen_binding(hotkey, false, default_hotkey) == chosen_binding(
            other,
            false,
            default_hotkey,
        ),
        chosen_binding(hotkey, false, default_hotkey) == default_hotkey,
{
}

/// The file of the voice activity detector is known as such, and is what is
/// downloaded: its address ends with its name.
pub proof fn the_detector_is_what_is_downloaded(windows: bool, path: Seq<char>)
    ensures
        is_vad(VAD_MODEL_FILENAME@),
        VAD_MODEL_FILENAME@.is_suffix_of(
            vad_download_args(windows, path)[vad_download_args(windows, path).len() - 2],
        ),
{
    reveal_strlit("ggml-silero");
    reveal_strlit("ggml-silero-v5.1.2.bin");
    reveal_strlit(
        "https://huggingface.co/ggml-org/whisper-vad/resolve/main/ggml-silero-v5.1.2.bin",
    );
    let name = VAD_MODEL_FILENAME@;
    let url = VAD_MODEL_URL@;
    assert(name.subrange(0, 11) =~= "ggml-silero"@);
    assert(url.subrange(url.len() - name.len(), url.len() as int) =~= name);
}

} // verus!
