//! The control loop: what the program does on each message.
//!
//! The program hands a message over, then performs the effects that come back,
//! one after the other. Where an effect that starts a dictation or loads a
//! model fails, the effects behind it are dropped.
use vstd::prelude::*;
use vstd::string::*;

use crate::config::{Config, EffortPreset, PromptPreset, SttMode, Theme, TtsEngineKind, UiLanguage};
use crate::models::{is_vad, is_vad_model_filename};
use crate::startup::{prompt_text, resolve_prompt_text, uses_transcriber};
use crate::text::option_text;
use crate::tray::traits::TrayState;
use crate::updater::status::{EventView, UpdateEvent};

verus! {

// ---------------------------------------------------------------------------
// Messages and effects
// ---------------------------------------------------------------------------

/// A message to the control loop.
#[derive(Debug, PartialEq, Eq)]
pub enum ControlMessage {
    ChangeHotkey,
    /// The key that was recorded and kept, or why there is none.
    HotkeyChanged(Result<String, String>),
    SetTrayState(TrayState),
    SetTheme(Theme),
    SetSttMode(SttMode),
    SetUiLanguage(UiLanguage),
    SetPromptPreset(PromptPreset),
    SetEffort(EffortPreset),
    Exit,
    /// Something that the menu shows has changed.
    RefreshMenu,
    /// A model was downloaded and is to be used.
    ActivateModel(String),
    /// Record from that device; `None` for the automatic choice.
    SetInputDevice(Option<String>),
    /// Measure the microphones.
    ProbeMicrophones,
    UpdateEvent(UpdateEvent),
    /// Show a tooltip that stays; an empty one clears it.
    SetUpdateTooltip(String),
    ToggleTts,
    SetTtsEngine(TtsEngineKind),
    SetTtsVoice(String),
    /// The voice of the preferences has changed.
    SyncTtsRuntime,
    SetTtsSpeed(u16),
    TtsReadSelection,
}

/// Something for the program to do.
#[derive(Debug, PartialEq, Eq)]
pub enum Effect {
    /// Change the icon.
    ShowState(TrayState, Theme),
    /// Send the message that changes the icon.
    PostState(TrayState),
    /// Send the message that rebuilds the menu.
    PostRefresh,
    SaveConfig,
    /// Save the preferences; where that fails, the effects behind are dropped.
    SaveConfigOrStop,
    RebuildMenu,
    ApplyMenuTheme(Theme),
    StopPipeline,
    /// Start the dictation; where that fails, the effects behind are dropped.
    StartPipeline { binding: String, mode: SttMode },
    /// Record a key in the background.
    RecordHotkey,
    DropTranscriber,
    DropStreamer,
    /// Load the model for whole recordings, and tell the loop how that went.
    LoadTranscriber(SttMode),
    /// Load the model for streaming, and tell the loop how that went.
    LoadStreamer,
    /// Load a model file into the transcriber, if there is one; where that
    /// fails, the error is shown and the effects behind are dropped.
    LoadModel(String),
    /// Download a model file in the background.
    DownloadModel(String),
    SetPrompt(String),
    SetEffort(EffortPreset),
    ProbeMicrophones,
    SetTooltip(String),
    /// Change the voice of the engine that runs.
    SetVoice(String),
    /// Build the speech engine anew.
    RebuildTts,
    SetSpeed(u16),
    ReadSelection,
    Exit,
}

/// The value of an [`Effect`].
pub enum EffectView {
    ShowState(TrayState, Theme),
    PostState(TrayState),
    PostRefresh,
    SaveConfig,
    SaveConfigOrStop,
    RebuildMenu,
    ApplyMenuTheme(Theme),
    StopPipeline,
    StartPipeline { binding: Seq<char>, mode: SttMode },
    RecordHotkey,
    DropTranscriber,
    DropStreamer,
    LoadTranscriber(SttMode),
    LoadStreamer,
    LoadModel(Seq<char>),
    DownloadModel(Seq<char>),
    SetPrompt(Seq<char>),
    SetEffort(EffortPreset),
    ProbeMicrophones,
    SetTooltip(Seq<char>),
    SetVoice(Seq<char>),
    RebuildTts,
    SetSpeed(u16),
    ReadSelection,
    Exit,
}

impl View for Effect {
    type V = EffectView;

    open spec fn view(&self) -> EffectView {
        match self {
            Effect::ShowState(state, theme) => EffectView::ShowState(*state, *theme),
            Effect::PostState(state) => EffectView::PostState(*state),
            Effect::PostRefresh => EffectView::PostRefresh,
            Effect::SaveConfig => EffectView::SaveConfig,
            Effect::SaveConfigOrStop => EffectView::SaveConfigOrStop,
            Effect::RebuildMenu => EffectView::RebuildMenu,
            Effect::ApplyMenuTheme(theme) => EffectView::ApplyMenuTheme(*theme),
            Effect::StopPipeline => EffectView::StopPipeline,
            Effect::StartPipeline { binding, mode } => EffectView::StartPipeline {
                binding: binding@,
                mode: *mode,
            },
            Effect::RecordHotkey => EffectView::RecordHotkey,
            Effect::DropTranscriber => EffectView::DropTranscriber,
            Effect::DropStreamer => EffectView::DropStreamer,
            Effect::LoadTranscriber(mode) => EffectView::LoadTranscriber(*mode),
            Effect::LoadStreamer => EffectView::LoadStreamer,
            Effect::LoadModel(name) => EffectView::LoadModel(name@),
            Effect::DownloadModel(name) => EffectView::DownloadModel(name@),
            Effect::SetPrompt(text) => EffectView::SetPrompt(text@),
            Effect::SetEffort(effort) => EffectView::SetEffort(*effort),
            Effect::ProbeMicrophones => EffectView::ProbeMicrophones,
            Effect::SetTooltip(text) => EffectView::SetTooltip(text@),
            Effect::SetVoice(voice) => EffectView::SetVoice(voice@),
            Effect::RebuildTts => EffectView::RebuildTts,
            Effect::SetSpeed(speed) => EffectView::SetSpeed(*speed),
            Effect::ReadSelection => EffectView::ReadSelection,
            Effect::Exit => EffectView::Exit,
        }
    }
}

/// The values of a list of effects.
pub open spec fn effects_view(effects: Seq<Effect>) -> Seq<EffectView> {
    effects.map_values(|effect: Effect| effect@)
}

/// What follows an effect that failed: `None` where the effects behind it are
/// performed all the same, and else what is done in their place.
pub open spec fn failure_effects(effect: EffectView) -> Option<Seq<EffectView>> {
    match effect {
        EffectView::SaveConfigOrStop => Some(Seq::empty()),
        EffectView::StartPipeline { .. } => Some(Seq::empty()),
        EffectView::LoadModel(_) => Some(seq![EffectView::PostState(TrayState::Error)]),
        _ => None,
    }
}

/// What follows an effect that failed. A dictation that does not start, a model
/// that cannot be loaded, and preferences that must be saved and cannot be,
/// stop the effects behind them.
pub fn after_failure(effect: &Effect) -> (r: Option<Vec<Effect>>)
    ensures
        match r {
            Some(effects) => failure_effects(effect@) == Some(effects_view(effects@)),
            None => failure_effects(effect@) is None,
        },
{
    match effect {
        Effect::SaveConfigOrStop | Effect::StartPipeline { .. } => {
            let effects: Vec<Effect> = Vec::new();
            assert(effects_view(effects@) =~= Seq::empty());
            Some(effects)
        },
        Effect::LoadModel(_) => {
            let mut effects: Vec<Effect> = Vec::new();
            effects.push(Effect::PostState(TrayState::Error));
            assert(effects_view(effects@) =~= seq![EffectView::PostState(TrayState::Error)]);
            Some(effects)
        },
        _ => None,
    }
}

/// The value of a [`Config`].
pub struct ConfigView {
    pub hotkey: Seq<char>,
    pub model: Seq<char>,
    pub language_ui: Seq<char>,
    pub use_gpu: bool,
    pub n_threads: Option<u16>,
    pub theme: Theme,
    pub ui_language: UiLanguage,
    pub stt_mode: SttMode,
    pub prompt_preset: PromptPreset,
    pub system_prompt: Seq<char>,
    pub effort: EffortPreset,
    pub input_device: Option<Seq<char>>,
    pub tts_enabled: bool,
    pub tts_engine: TtsEngineKind,
    pub tts_voice: Seq<char>,
    pub tts_speed_milli: u16,
}

impl View for Config {
    type V = ConfigView;

    open spec fn view(&self) -> ConfigView {
        ConfigView {
            hotkey: self.hotkey@,
            model: self.model@,
            language_ui: self.language_ui@,
            use_gpu: self.use_gpu,
            n_threads: self.n_threads,
            theme: self.theme,
            ui_language: self.ui_language,
            stt_mode: self.stt_mode,
            prompt_preset: self.prompt_preset,
            system_prompt: self.system_prompt@,
            effort: self.effort,
            input_device: option_text(self.input_device),
            tts_enabled: self.tts.enabled,
            tts_engine: self.tts.engine,
            tts_voice: self.tts.voice@,
            tts_speed_milli: self.tts.speed_milli,
        }
    }
}

// ---------------------------------------------------------------------------
// The state of the loop
// ---------------------------------------------------------------------------

/// What the control loop remembers.
#[derive(Debug, PartialEq, Eq)]
pub struct Control {
    /// The key that starts a dictation.
    pub binding: String,
    /// What the icon was last told to show.
    pub tray_state: TrayState,
    /// Whether a key is being recorded.
    pub changing_hotkey: bool,
    /// Whether there is a model for whole recordings.
    pub has_transcriber: bool,
    /// Whether there is a model for streaming.
    pub has_streamer: bool,
    /// The speech engine that runs, if one does.
    pub running_tts: Option<TtsEngineKind>,
}

/// The value of a [`Control`].
pub struct ControlView {
    pub binding: Seq<char>,
    pub tray_state: TrayState,
    pub changing_hotkey: bool,
    pub has_transcriber: bool,
    pub has_streamer: bool,
    pub running_tts: Option<TtsEngineKind>,
}

impl View for Control {
    type V = ControlView;

    open spec fn view(&self) -> ControlView {
        ControlView {
            binding: self.binding@,
            tray_state: self.tray_state,
            changing_hotkey: self.changing_hotkey,
            has_transcriber: self.has_transcriber,
            has_streamer: self.has_streamer,
            running_tts: self.running_tts,
        }
    }
}

/// The preferences after a message.
pub open spec fn config_after(config: ConfigView, message: ControlMessage) -> ConfigView {
    match message {
        ControlMessage::SetTheme(theme) => ConfigView { theme, ..config },
        ControlMessage::SetSttMode(mode) => ConfigView { stt_mode: mode, ..config },
        ControlMessage::SetUiLanguage(language) => ConfigView { ui_language: language, ..config },
        ControlMessage::SetPromptPreset(preset) => ConfigView { prompt_preset: preset, ..config },
        ControlMessage::SetEffort(effort) => ConfigView { effort, ..config },
        ControlMessage::ActivateModel(name) => if is_vad(name@) {
            config
        } else {
            ConfigView { model: name@, ..config }
        },
        ControlMessage::SetInputDevice(device) => ConfigView {
            input_device: option_text(device),
            ..config
        },
        ControlMessage::ToggleTts => ConfigView { tts_enabled: !config.tts_enabled, ..config },
        ControlMessage::SetTtsEngine(engine) => ConfigView { tts_engine: engine, ..config },
        ControlMessage::SetTtsVoice(voice) => ConfigView { tts_voice: voice@, ..config },
        ControlMessage::SetTtsSpeed(speed) => ConfigView { tts_speed_milli: speed, ..config },
        _ => config,
    }
}

/// What the loop remembers after a message.
pub open spec fn state_after(
    state: ControlView,
    config: ConfigView,
    message: ControlMessage,
) -> ControlView {
    match message {
        ControlMessage::ChangeHotkey => ControlView { changing_hotkey: true, ..state },
        ControlMessage::HotkeyChanged(Ok(binding)) => ControlView {
            changing_hotkey: false,
            binding: binding@,
            ..state
        },
        ControlMessage::HotkeyChanged(Err(_)) => ControlView { changing_hotkey: false, ..state },
        ControlMessage::SetTrayState(tray_state) => ControlView { tray_state, ..state },
        ControlMessage::SetSttMode(mode) => if mode == config.stt_mode {
            state
        } else if uses_transcriber(mode) {
            ControlView { has_streamer: false, ..state }
        } else {
            ControlView { has_transcriber: false, ..state }
        },
        _ => state,
    }
}

/// What a change of the mode takes: the old dictation stops, the model of the
/// other kind goes, the model of this kind is loaded where it is not there,
/// and the new dictation starts.
pub open spec fn mode_effects(state: ControlView, theme: Theme, mode: SttMode) -> Seq<EffectView> {
    seq![EffectView::SaveConfig, EffectView::StopPipeline] + (if uses_transcriber(mode) {
        seq![EffectView::DropStreamer] + (if state.has_transcriber {
            Seq::empty()
        } else {
            seq![EffectView::LoadTranscriber(mode)]
        })
    } else {
        seq![EffectView::DropTranscriber] + (if state.has_streamer {
            Seq::empty()
        } else {
            seq![EffectView::LoadStreamer]
        })
    }) + seq![
        EffectView::StartPipeline { binding: state.binding, mode },
        EffectView::ShowState(TrayState::Idle, theme),
        EffectView::RebuildMenu,
    ]
}

/// What a change of the voice takes: the voices of Kokoro share a model, so
/// the engine that runs changes its voice; every other change builds the
/// engine anew.
pub open spec fn voice_effects(
    running: Option<TtsEngineKind>,
    engine: TtsEngineKind,
    voice: Seq<char>,
) -> Seq<EffectView> {
    if running == Some(TtsEngineKind::Kokoro) && engine == TtsEngineKind::Kokoro {
        seq![EffectView::SetVoice(voice)]
    } else {
        seq![EffectView::RebuildTts]
    }
}

/// The tooltip that an event of the updater calls for, if it calls for one.
pub open spec fn update_tooltip(event: EventView) -> Option<Seq<char>> {
    match event {
        EventView::UpdateAvailable { version, .. } => Some(
            "Nueva versión v"@ + version + " — reinicia para aplicar"@,
        ),
        EventView::Updated { version } => Some(
            "Nueva versión v"@ + version + " — reinicia para aplicar"@,
        ),
        EventView::Failed { reason } => Some(reason),
        EventView::UpToDate => None,
        EventView::Skipped { .. } => None,
    }
}

/// What the activation of a downloaded model takes.
pub open spec fn activation_effects(name: Seq<char>) -> Seq<EffectView> {
    if is_vad(name) {
        Seq::empty()
    } else {
        seq![
            EffectView::SaveConfig,
            EffectView::LoadModel(name),
            EffectView::PostState(TrayState::Idle),
        ]
    }
}

/// What the program does on a message.
pub open spec fn effects_of(
    state: ControlView,
    config: ConfigView,
    message: ControlMessage,
) -> Seq<EffectView> {
    match message {
        ControlMessage::ChangeHotkey => if state.changing_hotkey {
            Seq::empty()
        } else {
            seq![
                EffectView::ShowState(TrayState::Paused, config.theme),
                EffectView::StopPipeline,
                EffectView::RecordHotkey,
            ]
        },
        ControlMessage::HotkeyChanged(result) => seq![
            EffectView::StartPipeline {
                binding: match result {
                    Ok(binding) => binding@,
                    Err(_) => state.binding,
                },
                mode: config.stt_mode,
            },
            EffectView::ShowState(TrayState::Idle, config.theme),
        ],
        ControlMessage::SetTrayState(tray_state) => seq![
            EffectView::ShowState(tray_state, config.theme),
        ],
        ControlMessage::SetTheme(theme) => seq![
            EffectView::SaveConfig,
            EffectView::ApplyMenuTheme(theme),
            EffectView::ShowState(state.tray_state, theme),
            EffectView::RebuildMenu,
        ],
        ControlMessage::SetSttMode(mode) => if mode == config.stt_mode {
            Seq::empty()
        } else {
            mode_effects(state, config.theme, mode)
        },
        ControlMessage::SetUiLanguage(_) => seq![EffectView::SaveConfig, EffectView::RebuildMenu],
        ControlMessage::SetPromptPreset(preset) => seq![
            EffectView::SaveConfig,
            EffectView::SetPrompt(prompt_text(preset, config.system_prompt)),
            EffectView::RebuildMenu,
        ],
        ControlMessage::SetEffort(effort) => if effort == config.effort {
            seq![EffectView::RebuildMenu]
        } else {
            seq![
                EffectView::SaveConfig,
                EffectView::SetEffort(effort),
                EffectView::RebuildMenu,
            ]
        },
        ControlMessage::Exit => seq![EffectView::Exit],
        ControlMessage::RefreshMenu => seq![EffectView::RebuildMenu],
        ControlMessage::ActivateModel(name) => activation_effects(name@),
        ControlMessage::SetInputDevice(_) => seq![
            EffectView::SaveConfig,
            EffectView::StopPipeline,
            EffectView::StartPipeline { binding: state.binding, mode: config.stt_mode },
            EffectView::RebuildMenu,
        ],
        ControlMessage::ProbeMicrophones => seq![EffectView::ProbeMicrophones],
        ControlMessage::UpdateEvent(event) => match update_tooltip(event@) {
            Some(text) => seq![EffectView::SetTooltip(text)],
            None => Seq::empty(),
        },
        ControlMessage::SetUpdateTooltip(text) => seq![EffectView::SetTooltip(text@)],
        ControlMessage::ToggleTts => seq![EffectView::SaveConfig],
        ControlMessage::SetTtsEngine(_) => seq![EffectView::SaveConfig, EffectView::RebuildTts],
        ControlMessage::SetTtsVoice(voice) => seq![EffectView::SaveConfig] + voice_effects(
            state.running_tts,
            config.tts_engine,
            voice@,
        ),
        ControlMessage::SyncTtsRuntime => voice_effects(
            state.running_tts,
            config.tts_engine,
            config.tts_voice,
        ),
        ControlMessage::SetTtsSpeed(speed) => seq![
            EffectView::SaveConfig,
            EffectView::SetSpeed(speed),
        ],
        ControlMessage::TtsReadSelection => seq![EffectView::ReadSelection],
    }
}

pub(crate) fn add_effect(effects: &mut Vec<Effect>, effect: Effect)
    ensures
        effects_view(final(effects)@) == effects_view(old(effects)@).push(effect@),
{
    let ghost before = effects@;
    effects.push(effect);
    assert(effects_view(effects@) =~= effects_view(before).push(effect@));
}

pub(crate) fn no_effects() -> (r: Vec<Effect>)
    ensures
        effects_view(r@) == Seq::<EffectView>::empty(),
{
    let r: Vec<Effect> = Vec::new();
    assert(effects_view(r@) =~= Seq::<EffectView>::empty());
    r
}

pub(crate) fn one(a: Effect) -> (r: Vec<Effect>)
    ensures
        effects_view(r@) == seq![a@],
{
    let mut r = no_effects();
    add_effect(&mut r, a);
    assert(effects_view(r@) =~= seq![a@]);
    r
}

pub(crate) fn two(a: Effect, b: Effect) -> (r: Vec<Effect>)
    ensures
        effects_view(r@) == seq![a@, b@],
{
    let mut r = one(a);
    add_effect(&mut r, b);
    assert(effects_view(r@) =~= seq![a@, b@]);
    r
}

pub(crate) fn three(a: Effect, b: Effect, c: Effect) -> (r: Vec<Effect>)
    ensures
        effects_view(r@) == seq![a@, b@, c@],
{
    let mut r = two(a, b);
    add_effect(&mut r, c);
    assert(effects_view(r@) =~= seq![a@, b@, c@]);
    r
}

pub(crate) fn four(a: Effect, b: Effect, c: Effect, d: Effect) -> (r: Vec<Effect>)
    ensures
        effects_view(r@) == seq![a@, b@, c@, d@],
{
    let mut r = three(a, b, c);
    add_effect(&mut r, d);
    assert(effects_view(r@) =~= seq![a@, b@, c@, d@]);
    r
}

/// The tooltip that an event of the updater calls for, if it calls for one.
pub fn tooltip_for(event: &UpdateEvent) -> (r: Option<String>)
    ensures
        match r {
            Some(text) => update_tooltip(event@) == Some(text@),
            None => update_tooltip(event@) is None,
        },
{
    match event {
        UpdateEvent::UpdateAvailable { version, .. } => Some(
            "Nueva versión v".to_owned().concat(version.as_str()).concat(
                " — reinicia para aplicar",
            ),
        ),
        UpdateEvent::Updated { version } => Some(
            "Nueva versión v".to_owned().concat(version.as_str()).concat(
                " — reinicia para aplicar",
            ),
        ),
        UpdateEvent::Failed { reason } => Some(reason.clone()),
        UpdateEvent::UpToDate => None,
        UpdateEvent::Skipped { .. } => None,
    }
}

/// Uses a model that was downloaded, unless it cannot transcribe.
pub fn activate_after_download(config: &mut Config, filename: &str) -> (r: Vec<Effect>)
    ensures
        final(config)@ == (if is_vad(filename@) {
            old(config)@
        } else {
            ConfigView { model: filename@, ..old(config)@ }
        }),
        effects_view(r@) == activation_effects(filename@),
{
    if is_vad_model_filename(filename) {
        return no_effects();
    }
    config.model = filename.to_owned();
    three(
        Effect::SaveConfig,
        Effect::LoadModel(filename.to_owned()),
        Effect::PostState(TrayState::Idle),
    )
}

/// Whether a message changes a preference of the dictation or the menu.
spec fn is_preference(message: ControlMessage) -> bool {
    message is SetTheme || message is SetUiLanguage || message is SetPromptPreset
        || message is SetEffort || message is ActivateModel || message is SetInputDevice
}

/// Whether a message is about updates, microphones or reading aloud.
spec fn is_about_reading(message: ControlMessage) -> bool {
    !is_preference(message) && !(message is ChangeHotkey || message is HotkeyChanged
        || message is SetTrayState || message is SetSttMode || message is Exit
        || message is RefreshMenu)
}

impl Control {
    /// The loop before its first message, with the models that were built.
    pub fn new(binding: String, mode: SttMode) -> (r: Self)
        ensures
            r@ == (ControlView {
                binding: binding@,
                tray_state: TrayState::Idle,
                changing_hotkey: false,
                has_transcriber: uses_transcriber(mode),
                has_streamer: !uses_transcriber(mode),
                running_tts: None,
            }),
            r@ == first_state(binding@, mode),
    {
        let whole = match mode {
            SttMode::Batch | SttMode::Chunked => true,
            SttMode::Streaming => false,
        };
        Control {
            binding,
            tray_state: TrayState::Idle,
            changing_hotkey: false,
            has_transcriber: whole,
            has_streamer: !whole,
            running_tts: None,
        }
    }

    /// Takes how loading a model for the mode went.
    pub fn backend_loaded(&mut self, mode: SttMode, loaded: bool)
        ensures
            final(self)@ == (if uses_transcriber(mode) {
                ControlView { has_transcriber: loaded, ..old(self)@ }
            } else {
                ControlView { has_streamer: loaded, ..old(self)@ }
            }),
            final(self)@ == after_loading(old(self)@, mode, loaded),
    {
        match mode {
            SttMode::Batch | SttMode::Chunked => {
                self.has_transcriber = loaded;
            },
            SttMode::Streaming => {
                self.has_streamer = loaded;
            },
        }
    }

    /// Takes which speech engine runs now.
    pub fn tts_running(&mut self, engine: Option<TtsEngineKind>)
        ensures
            final(self)@ == (ControlView { running_tts: engine, ..old(self)@ }),
    {
        self.running_tts = engine;
    }

    /// Whether the model for a mode is there, or what is missing.
    pub fn check_backend(&self, mode: SttMode) -> (r: Result<(), &'static str>)
        ensures
            r == (match mode {
                SttMode::Batch => if self.has_transcriber {
                    Ok::<(), &'static str>(())
                } else {
                    Err("transcriber no cargado en modo batch")
                },
                SttMode::Chunked => if self.has_transcriber {
                    Ok(())
                } else {
                    Err("transcriber no cargado en modo chunked")
                },
                SttMode::Streaming => if self.has_streamer {
                    Ok(())
                } else {
                    Err("streamer no cargado en modo streaming")
                },
            }),
            match r {
                Ok(_) => missing_backend(self@, mode) is None,
                Err(text) => missing_backend(self@, mode) == Some(text),
            },
    {
        match mode {
            SttMode::Batch => if self.has_transcriber {
                Ok(())
            } else {
                Err("transcriber no cargado en modo batch")
            },
            SttMode::Chunked => if self.has_transcriber {
                Ok(())
            } else {
                Err("transcriber no cargado en modo chunked")
            },
            SttMode::Streaming => if self.has_streamer {
                Ok(())
            } else {
                Err("streamer no cargado en modo streaming")
            },
        }
    }

    fn change_mode(&mut self, theme: Theme, mode: SttMode) -> (r: Vec<Effect>)
        ensures
            final(self)@ == (if uses_transcriber(mode) {
                ControlView { has_streamer: false, ..old(self)@ }
            } else {
                ControlView { has_transcriber: false, ..old(self)@ }
            }),
            effects_view(r@) == mode_effects(old(self)@, theme, mode),
    {
        let mut effects = no_effects();
        add_effect(&mut effects, Effect::SaveConfig);
        add_effect(&mut effects, Effect::StopPipeline);
        match mode {
            SttMode::Batch | SttMode::Chunked => {
                self.has_streamer = false;
                add_effect(&mut effects, Effect::DropStreamer);
                if !self.has_transcriber {
                    add_effect(&mut effects, Effect::LoadTranscriber(mode));
                }
            },
            SttMode::Streaming => {
                self.has_transcriber = false;
                add_effect(&mut effects, Effect::DropTranscriber);
                if !self.has_streamer {
                    add_effect(&mut effects, Effect::LoadStreamer);
                }
            },
        }
        add_effect(&mut effects, Effect::StartPipeline { binding: self.binding.clone(), mode });
        add_effect(&mut effects, Effect::ShowState(TrayState::Idle, theme));
        add_effect(&mut effects, Effect::RebuildMenu);
        assert(effects_view(effects@) =~= mode_effects(old(self)@, theme, mode));
        effects
    }

    fn change_voice(&self, engine: TtsEngineKind, voice: &str, before: Vec<Effect>) -> (r: Vec<
        Effect,
    >)
        ensures
            effects_view(r@) == effects_view(before@) + voice_effects(
                self.running_tts,
                engine,
                voice@,
            ),
    {
        let mut effects = before;
        let ghost start = effects_view(effects@);
        let same_model = match (self.running_tts, engine) {
            (Some(TtsEngineKind::Kokoro), TtsEngineKind::Kokoro) => true,
            _ => false,
        };
        if same_model {
            add_effect(&mut effects, Effect::SetVoice(voice.to_owned()));
        } else {
            add_effect(&mut effects, Effect::RebuildTts);
        }
        assert(effects_view(effects@) =~= start + voice_effects(
            self.running_tts,
            engine,
            voice@,
        ));
        effects
    }

    /// Takes a message that changes a preference of the dictation or the menu.
    fn handle_preference(&mut self, config: &mut Config, message: ControlMessage) -> (r: Vec<
        Effect,
    >)
        requires
            is_preference(message),
        ensures
            final(config)@ == config_after(old(config)@, message),
            final(self)@ == state_after(old(self)@, old(config)@, message),
            effects_view(r@) == effects_of(old(self)@, old(config)@, message),
    {
        match message {
            ControlMessage::SetTheme(theme) => {
                config.theme = theme;
                four(
                    Effect::SaveConfig,
                    Effect::ApplyMenuTheme(theme),
                    Effect::ShowState(self.tray_state, theme),
                    Effect::RebuildMenu,
                )
            },
            ControlMessage::SetUiLanguage(language) => {
                config.ui_language = language;
                two(Effect::SaveConfig, Effect::RebuildMenu)
            },
            ControlMessage::SetPromptPreset(preset) => {
                config.prompt_preset = preset;
                three(
                    Effect::SaveConfig,
                    Effect::SetPrompt(resolve_prompt_text(config)),
                    Effect::RebuildMenu,
                )
            },
            ControlMessage::SetEffort(effort) => {
                if config.effort == effort {
                    return one(Effect::RebuildMenu);
                }
                config.effort = effort;
                three(Effect::SaveConfig, Effect::SetEffort(effort), Effect::RebuildMenu)
            },
            ControlMessage::ActivateModel(filename) => activate_after_download(
                config,
                filename.as_str(),
            ),
            ControlMessage::SetInputDevice(device) => {
                config.input_device = device;
                four(
                    Effect::SaveConfig,
                    Effect::StopPipeline,
                    Effect::StartPipeline { binding: self.binding.clone(), mode: config.stt_mode },
                    Effect::RebuildMenu,
                )
            },
            _ => no_effects(),
        }
    }

    /// Takes a message about updates, microphones or reading aloud.
    fn handle_reading(&mut self, config: &mut Config, message: ControlMessage) -> (r: Vec<Effect>)
        requires
            is_about_reading(message),
        ensures
            final(config)@ == config_after(old(config)@, message),
            final(self)@ == state_after(old(self)@, old(config)@, message),
            effects_view(r@) == effects_of(old(self)@, old(config)@, message),
    {
        match message {
            ControlMessage::ProbeMicrophones => one(Effect::ProbeMicrophones),
            ControlMessage::UpdateEvent(event) => match tooltip_for(&event) {
                Some(text) => one(Effect::SetTooltip(text)),
                None => no_effects(),
            },
            ControlMessage::SetUpdateTooltip(text) => one(Effect::SetTooltip(text)),
            ControlMessage::ToggleTts => {
                config.tts.enabled = !config.tts.enabled;
                one(Effect::SaveConfig)
            },
            ControlMessage::SetTtsEngine(engine) => {
                config.tts.engine = engine;
                two(Effect::SaveConfig, Effect::RebuildTts)
            },
            ControlMessage::SetTtsVoice(voice) => {
                let effects = self.change_voice(
                    config.tts.engine,
                    voice.as_str(),
                    one(Effect::SaveConfig),
                );
                config.tts.voice = voice;
                effects
            },
            ControlMessage::SyncTtsRuntime => {
                let effects = self.change_voice(
                    config.tts.engine,
                    config.tts.voice.as_str(),
                    no_effects(),
                );
                assert(effects_view(effects@) =~= voice_effects(
                    self.running_tts,
                    config.tts.engine,
                    config.tts.voice@,
                ));
                effects
            },
            ControlMessage::SetTtsSpeed(speed) => {
                config.tts.speed_milli = speed;
                two(Effect::SaveConfig, Effect::SetSpeed(speed))
            },
            ControlMessage::TtsReadSelection => one(Effect::ReadSelection),
            _ => no_effects(),
        }
    }

    /// Takes a message. The preferences are changed, and what is to be done
    /// comes back.
    pub fn handle(&mut self, config: &mut Config, message: ControlMessage) -> (r: Vec<Effect>)
        ensures
            final(config)@ == config_after(old(config)@, message),
            final(self)@ == state_after(old(self)@, old(config)@, message),
            effects_view(r@) == effects_of(old(self)@, old(config)@, message),
    {
        match message {
            ControlMessage::ChangeHotkey => {
                if self.changing_hotkey {
                    return no_effects();
                }
                self.changing_hotkey = true;
                three(
                    Effect::ShowState(TrayState::Paused, config.theme),
                    Effect::StopPipeline,
                    Effect::RecordHotkey,
                )
            },
            ControlMessage::HotkeyChanged(result) => {
                self.changing_hotkey = false;
                if let Ok(binding) = result {
                    self.binding = binding;
                }
                two(
                    Effect::StartPipeline { binding: self.binding.clone(), mode: config.stt_mode },
                    Effect::ShowState(TrayState::Idle, config.theme),
                )
            },
            ControlMessage::SetTrayState(state) => {
                self.tray_state = state;
                one(Effect::ShowState(state, config.theme))
            },
            ControlMessage::SetSttMode(mode) => {
                if config.stt_mode == mode {
                    return no_effects();
                }
                config.stt_mode = mode;
                self.change_mode(config.theme, mode)
            },
            ControlMessage::Exit => one(Effect::Exit),
            ControlMessage::RefreshMenu => one(Effect::RebuildMenu),
            ControlMessage::SetTheme(_)
            | ControlMessage::SetUiLanguage(_)
            | ControlMessage::SetPromptPreset(_)
            | ControlMessage::SetEffort(_)
            | ControlMessage::ActivateModel(_)
            | ControlMessage::SetInputDevice(_) => self.handle_preference(config, message),
            message => self.handle_reading(config, message),
        }
    }
}

// ---------------------------------------------------------------------------
// Laws
// ---------------------------------------------------------------------------

/// Every message that changes a preference has the preferences saved.
pub proof fn every_change_is_saved(state: ControlView, config: ConfigView, message: ControlMessage)
    requires
        config_after(config, message) != config,
    ensures
        effects_of(state, config, message).contains(EffectView::SaveConfig),
{
    let effects = effects_of(state, config, message);
    assert(effects[0] == EffectView::SaveConfig);
}

/// Every message that changes what the menu shows has the menu rebuilt.
pub proof fn the_menu_follows_the_preferences(
    state: ControlView,
    config: ConfigView,
    message: ControlMessage,
)
    requires
        ({
            let after = config_after(config, message);
            ||| after.theme != config.theme
            ||| after.stt_mode != config.stt_mode
            ||| after.ui_language != config.ui_language
            ||| after.prompt_preset != config.prompt_preset
            ||| after.effort != config.effort
            ||| after.input_device != config.input_device
        }),
    ensures
        effects_of(state, config, message).last() == EffectView::RebuildMenu,
{
}

/// No message makes the voice activity detector the model.
pub proof fn no_message_makes_the_detector_the_model(config: ConfigView, message: ControlMessage)
    requires
        !is_vad(config.model),
    ensures
        !is_vad(config_after(config, message).model),
{
}

/// While a key is being recorded, asking again does nothing.
pub proof fn a_recording_is_not_started_twice(state: ControlView, config: ConfigView)
    requires
        state.changing_hotkey,
    ensures
        effects_of(state, config, ControlMessage::ChangeHotkey).len() == 0,
        state_after(state, config, ControlMessage::ChangeHotkey) == state,
{
}

/// However the recording of a key ends, the dictation starts again, with the
/// new key or the one from before, and another recording may begin.
pub proof fn a_recording_ends_with_a_dictation(
    state: ControlView,
    config: ConfigView,
    result: Result<String, String>,
)
    ensures
        ({
            let message = ControlMessage::HotkeyChanged(result);
            let after = state_after(state, config, message);
            &&& !after.changing_hotkey
            &&& effects_of(state, config, message)[0] == (EffectView::StartPipeline {
                binding: after.binding,
                mode: config.stt_mode,
            })
            &&& result is Err ==> after.binding == state.binding
        }),
{
}

/// A change of the mode leaves at most one kind of model, and stops the old
/// dictation before it starts the new one.
pub proof fn a_mode_keeps_one_model(
    state: ControlView,
    config: ConfigView,
    mode: SttMode,
)
    requires
        mode != config.stt_mode,
    ensures
        ({
            let message = ControlMessage::SetSttMode(mode);
            let after = state_after(state, config, message);
            let effects = effects_of(state, config, message);
            &&& !(after.has_transcriber && after.has_streamer)
            &&& effects[1] == EffectView::StopPipeline
            &&& effects[effects.len() - 3] == (EffectView::StartPipeline {
                binding: state.binding,
                mode,
            })
        }),
{
}

/// A preset that is chosen again changes nothing but the marks of the menu.
pub proof fn choosing_again_changes_nothing(state: ControlView, config: ConfigView)
    ensures
        effects_of(state, config, ControlMessage::SetSttMode(config.stt_mode)).len() == 0,
        effects_of(state, config, ControlMessage::SetEffort(config.effort)) == seq![
            EffectView::RebuildMenu,
        ],
        config_after(config, ControlMessage::SetSttMode(config.stt_mode)) == config,
        config_after(config, ControlMessage::SetEffort(config.effort)) == config,
{
}

/// The icon shows what it is told to show, in the theme of the preferences,
/// and the loop remembers it. Nothing else changes.
pub proof fn the_icon_shows_what_it_is_told(
    state: ControlView,
    config: ConfigView,
    shown: TrayState,
)
    ensures
        ({
            let message = ControlMessage::SetTrayState(shown);
            let after = state_after(state, config, message);
            &&& after.tray_state == shown
            &&& after == (ControlView { tray_state: shown, ..state })
            &&& config_after(config, message) == config
            &&& effects_of(state, config, message) == seq![
                EffectView::ShowState(shown, config.theme),
            ]
        }),
{
}

/// A new theme is shown at once, on the icon as it was last told to be.
pub proof fn a_theme_redraws_the_icon(
    state: ControlView,
    config: ConfigView,
    shown: TrayState,
    theme: Theme,
)
    ensures
        ({
            let told = state_after(state, config, ControlMessage::SetTrayState(shown));
            effects_of(told, config, ControlMessage::SetTheme(theme)).contains(
                EffectView::ShowState(shown, theme),
            )
        }),
{
    let told = state_after(state, config, ControlMessage::SetTrayState(shown));
    assert(effects_of(told, config, ControlMessage::SetTheme(theme))[2] == EffectView::ShowState(
        shown,
        theme,
    ));
}

/// After a message that sets a preference, the preference is the one asked for.
pub proof fn a_preference_is_kept_as_asked(config: ConfigView, message: ControlMessage)
    ensures
        ({
            let after = config_after(config, message);
            &&& message matches ControlMessage::SetTheme(x) ==> after.theme == x
            &&& message matches ControlMessage::SetSttMode(x) ==> after.stt_mode == x
            &&& message matches ControlMessage::SetUiLanguage(x) ==> after.ui_language == x
            &&& message matches ControlMessage::SetPromptPreset(x) ==> after.prompt_preset == x
            &&& message matches ControlMessage::SetEffort(x) ==> after.effort == x
            &&& message matches ControlMessage::SetTtsEngine(x) ==> after.tts_engine == x
            &&& message matches ControlMessage::SetTtsVoice(x) ==> after.tts_voice == x@
            &&& message matches ControlMessage::SetTtsSpeed(x) ==> after.tts_speed_milli == x
            &&& message matches ControlMessage::ActivateModel(x) ==> (!is_vad(x@) ==> after.model
                == x@)
            &&& message matches ControlMessage::SetInputDevice(Some(x)) ==> after.input_device
                == Some(x@)
            &&& message matches ControlMessage::SetInputDevice(None) ==> after.input_device is None
            &&& message is ToggleTts ==> after.tts_enabled != config.tts_enabled
        }),
{
}

/// A preference changes only by the message that is named after it, and some
/// are never changed by a message.
pub proof fn a_message_changes_no_other_preference(config: ConfigView, message: ControlMessage)
    ensures
        ({
            let after = config_after(config, message);
            &&& after.hotkey == config.hotkey
            &&& after.language_ui == config.language_ui
            &&& after.use_gpu == config.use_gpu
            &&& after.n_threads == config.n_threads
            &&& after.system_prompt == config.system_prompt
            &&& message is SetTheme || after.theme == config.theme
            &&& message is SetSttMode || after.stt_mode == config.stt_mode
            &&& message is SetUiLanguage || after.ui_language == config.ui_language
            &&& message is SetPromptPreset || after.prompt_preset == config.prompt_preset
            &&& message is SetEffort || after.effort == config.effort
            &&& message is ActivateModel || after.model == config.model
            &&& message is SetInputDevice || after.input_device == config.input_device
            &&& message is ToggleTts || after.tts_enabled == config.tts_enabled
            &&& message is SetTtsEngine || after.tts_engine == config.tts_engine
            &&& message is SetTtsVoice || after.tts_voice == config.tts_voice
            &&& message is SetTtsSpeed || after.tts_speed_milli == config.tts_speed_milli
        }),
{
}

/// Turning the reading aloud on and off again gives back the preferences.
pub proof fn toggling_twice_changes_nothing(config: ConfigView)
    ensures
        config_after(
            config_after(config, ControlMessage::ToggleTts),
            ControlMessage::ToggleTts,
        ) == config,
{
}

/// What the loop remembers changes only by the messages that are about it: the
/// key by one that was recorded, what the icon shows by being told, and the
/// kinds of models by a change of the mode. Which speech engine runs is never
/// changed by a message.
pub proof fn a_message_changes_nothing_else_remembered(
    state: ControlView,
    config: ConfigView,
    message: ControlMessage,
)
    ensures
        ({
            let after = state_after(state, config, message);
            &&& after.running_tts == state.running_tts
            &&& match message {
                ControlMessage::HotkeyChanged(Ok(binding)) => after.binding == binding@,
                _ => after.binding == state.binding,
            }
            &&& match message {
                ControlMessage::SetTrayState(shown) => after.tray_state == shown,
                _ => after.tray_state == state.tray_state,
            }
            &&& after.changing_hotkey == (message is ChangeHotkey || (state.changing_hotkey
                && !(message is HotkeyChanged)))
            &&& after.has_transcriber == (state.has_transcriber && !(message
                == ControlMessage::SetSttMode(SttMode::Streaming) && config.stt_mode
                != SttMode::Streaming))
            &&& after.has_streamer == (state.has_streamer && !(message matches
                ControlMessage::SetSttMode(mode) && mode != SttMode::Streaming && mode
                != config.stt_mode))
        }),
{
}

/// Whether an effect agrees with the preferences and with what the loop
/// remembers.
pub open spec fn agrees_with(
    effect: EffectView,
    state: ControlView,
    config: ConfigView,
) -> bool {
    match effect {
        EffectView::ShowState(_, theme) => theme == config.theme,
        EffectView::ApplyMenuTheme(theme) => theme == config.theme,
        EffectView::StartPipeline { binding, mode } => binding == state.binding && mode
            == config.stt_mode,
        EffectView::LoadTranscriber(mode) => mode == config.stt_mode && mode
            != SttMode::Streaming && !state.has_transcriber,
        EffectView::LoadStreamer => config.stt_mode == SttMode::Streaming && !state.has_streamer,
        EffectView::DropTranscriber => config.stt_mode == SttMode::Streaming
            && !state.has_transcriber,
        EffectView::DropStreamer => config.stt_mode != SttMode::Streaming && !state.has_streamer,
        EffectView::LoadModel(name) => name == config.model,
        EffectView::SetPrompt(text) => text == prompt_text(
            config.prompt_preset,
            config.system_prompt,
        ),
        EffectView::SetEffort(effort) => effort == config.effort,
        EffectView::SetVoice(voice) => voice == config.tts_voice && config.tts_engine
            == TtsEngineKind::Kokoro && state.running_tts == Some(TtsEngineKind::Kokoro),
        EffectView::SetSpeed(speed) => speed == config.tts_speed_milli,
        _ => true,
    }
}

#[verifier::rlimit(40)]
proof fn lemma_mode_effects_agree(
    state: ControlView,
    config: ConfigView,
    mode: SttMode,
    i: int,
)
    requires
        mode != config.stt_mode,
        0 <= i < mode_effects(state, config.theme, mode).len(),
    ensures
        agrees_with(
            mode_effects(state, config.theme, mode)[i],
            state_after(state, config, ControlMessage::SetSttMode(mode)),
            config_after(config, ControlMessage::SetSttMode(mode)),
        ),
{
    let effects = mode_effects(state, config.theme, mode);
    let n = effects.len();
    assert(effects[0] is SaveConfig && effects[1] is StopPipeline);
    assert(effects[n - 3] is StartPipeline && effects[n - 2] is ShowState && effects[n
        - 1] is RebuildMenu);
    assert(n == 6 || n == 7);
}

/// Whatever the program is told to do agrees with the preferences and with
/// what the loop remembers, as they are after the message.
#[verifier::rlimit(40)]
pub proof fn effects_agree_with_the_preferences(
    state: ControlView,
    config: ConfigView,
    message: ControlMessage,
    i: int,
)
    requires
        0 <= i < effects_of(state, config, message).len(),
    ensures
        agrees_with(
            effects_of(state, config, message)[i],
            state_after(state, config, message),
            config_after(config, message),
        ),
{
    if let ControlMessage::SetSttMode(mode) = message {
        lemma_mode_effects_agree(state, config, mode, i);
    }
}

/// A preference that a running part of the program goes by is handed to that
/// part when it changes.
#[verifier::rlimit(40)]
pub proof fn a_changed_preference_is_handed_on(
    state: ControlView,
    config: ConfigView,
    message: ControlMessage,
)
    ensures
        ({
            let after = config_after(config, message);
            let effects = effects_of(state, config, message);
            &&& after.theme != config.theme ==> effects.contains(
                EffectView::ApplyMenuTheme(after.theme),
            ) && effects.contains(EffectView::ShowState(state.tray_state, after.theme))
            &&& after.prompt_preset != config.prompt_preset ==> effects.contains(
                EffectView::SetPrompt(prompt_text(after.prompt_preset, config.system_prompt)),
            )
            &&& after.effort != config.effort ==> effects.contains(
                EffectView::SetEffort(after.effort),
            )
            &&& after.model != config.model ==> effects.contains(
                EffectView::LoadModel(after.model),
            )
            &&& after.tts_speed_milli != config.tts_speed_milli ==> effects.contains(
                EffectView::SetSpeed(after.tts_speed_milli),
            )
            &&& after.tts_engine != config.tts_engine ==> effects.contains(EffectView::RebuildTts)
            &&& after.tts_voice != config.tts_voice ==> effects.contains(EffectView::RebuildTts)
                || effects.contains(EffectView::SetVoice(after.tts_voice))
        }),
{
    let after = config_after(config, message);
    let effects = effects_of(state, config, message);
    if after.theme != config.theme {
        assert(effects[1] == EffectView::ApplyMenuTheme(after.theme));
        assert(effects[2] == EffectView::ShowState(state.tray_state, after.theme));
    }
    if after.prompt_preset != config.prompt_preset || after.effort != config.effort || after.model
        != config.model || after.tts_speed_milli != config.tts_speed_milli || after.tts_engine
        != config.tts_engine || after.tts_voice != config.tts_voice {
        assert(effects.contains(effects[1]));
    }
}

/// The dictation is stopped and started again where the device or the mode it
/// runs with changes, in that order, and with nothing started before.
pub proof fn a_new_device_or_mode_restarts_the_dictation(
    state: ControlView,
    config: ConfigView,
    message: ControlMessage,
)
    requires
        message is SetInputDevice || config_after(config, message).stt_mode != config.stt_mode,
    ensures
        ({
            let after = config_after(config, message);
            let effects = effects_of(state, config, message);
            let start = EffectView::StartPipeline {
                binding: state.binding,
                mode: after.stt_mode,
            };
            exists|i: int, j: int|
                0 <= i < j < effects.len() && #[trigger] effects[i] == EffectView::StopPipeline
                    && #[trigger] effects[j] == start
        }),
{
    let effects = effects_of(state, config, message);
    let j = if message is SetInputDevice {
        2
    } else {
        effects.len() - 3
    };
    assert(effects[1] == EffectView::StopPipeline);
    assert(effects[j] is StartPipeline);
}

/// A change of the mode drops the model of the other kind, and loads the one of
/// its own kind exactly where it is not there.
#[verifier::rlimit(40)]
pub proof fn a_mode_loads_what_it_needs(state: ControlView, config: ConfigView, mode: SttMode)
    requires
        mode != config.stt_mode,
    ensures
        ({
            let effects = effects_of(state, config, ControlMessage::SetSttMode(mode));
            let streams = mode == SttMode::Streaming;
            &&& effects.contains(EffectView::DropTranscriber) == streams
            &&& effects.contains(EffectView::DropStreamer) == !streams
            &&& effects.contains(EffectView::LoadStreamer) == (streams && !state.has_streamer)
            &&& effects.contains(EffectView::LoadTranscriber(mode)) == (!streams
                && !state.has_transcriber)
        }),
{
    let effects = effects_of(state, config, ControlMessage::SetSttMode(mode));
    assert(effects[2] is DropTranscriber || effects[2] is DropStreamer);
    assert(effects[3] is LoadTranscriber || effects[3] is LoadStreamer || effects[3] is
        StartPipeline);
    assert(effects.contains(effects[2]) && effects.contains(effects[3]));
}

/// A key is recorded only while the dictation stands still and the icon shows
/// a pause.
pub proof fn a_recording_pauses_the_dictation(state: ControlView, config: ConfigView)
    requires
        !state.changing_hotkey,
    ensures
        ({
            let effects = effects_of(state, config, ControlMessage::ChangeHotkey);
            &&& effects.last() == EffectView::RecordHotkey
            &&& effects.drop_last().contains(EffectView::StopPipeline)
            &&& effects.drop_last().contains(
                EffectView::ShowState(TrayState::Paused, config.theme),
            )
            &&& state_after(state, config, ControlMessage::ChangeHotkey).changing_hotkey
        }),
{
    let effects = effects_of(state, config, ControlMessage::ChangeHotkey).drop_last();
    assert(effects[0] is ShowState && effects[1] is StopPipeline);
}

/// From the request for a new key to its end the loop comes back to where it
/// was, but for the key, and the icon goes from a pause to idle.
pub proof fn a_recording_gives_the_loop_back(
    state: ControlView,
    config: ConfigView,
    result: Result<String, String>,
)
    requires
        !state.changing_hotkey,
    ensures
        ({
            let end = ControlMessage::HotkeyChanged(result);
            let during = state_after(state, config, ControlMessage::ChangeHotkey);
            let after = state_after(during, config, end);
            &&& after == (ControlView {
                binding: match result {
                    Ok(binding) => binding@,
                    Err(_) => state.binding,
                },
                ..state
            })
            &&& effects_of(during, config, end).last() == EffectView::ShowState(
                TrayState::Idle,
                config.theme,
            )
        }),
{
}

/// The messages that ask for one thing have that done and nothing else, and
/// nothing else asks for it.
#[verifier::rlimit(40)]
pub proof fn a_plain_request_is_carried_out(
    state: ControlView,
    config: ConfigView,
    message: ControlMessage,
)
    ensures
        ({
            let effects = effects_of(state, config, message);
            &&& effects.contains(EffectView::Exit) <==> message is Exit
            &&& effects.contains(EffectView::ReadSelection) <==> message is TtsReadSelection
            &&& effects.contains(EffectView::ProbeMicrophones) <==> message is ProbeMicrophones
            &&& effects.contains(EffectView::RecordHotkey) <==> message is ChangeHotkey
                && !state.changing_hotkey
            &&& message is Exit || message is TtsReadSelection || message is ProbeMicrophones
                || message is RefreshMenu ==> effects.len() == 1
            &&& message is RefreshMenu ==> effects[0] == EffectView::RebuildMenu
        }),
{
    let effects = effects_of(state, config, message);
    if message is Exit || message is TtsReadSelection || message is ProbeMicrophones {
        assert(effects.contains(effects[0]));
    }
    if message is ChangeHotkey && !state.changing_hotkey {
        assert(effects.contains(effects[2]));
    }
}

/// A tooltip is set as it was asked for. An update that is there or was
/// installed is named by its version, a failure by its reason, and where there
/// is nothing new, or nothing that the user wants to hear of, nothing is shown.
pub proof fn an_update_is_told_by_its_version(
    state: ControlView,
    config: ConfigView,
    event: UpdateEvent,
    text: String,
)
    ensures
        ({
            let effects = effects_of(state, config, ControlMessage::UpdateEvent(event));
            match event@ {
                EventView::UpdateAvailable { version, .. } | EventView::Updated { version } => effects
                    == seq![
                    EffectView::SetTooltip(
                        "Nueva versión v"@ + version + " — reinicia para aplicar"@,
                    ),
                ],
                EventView::Failed { reason } => effects == seq![EffectView::SetTooltip(reason)],
                EventView::UpToDate | EventView::Skipped { .. } => effects.len() == 0,
            }
        }),
        effects_of(state, config, ControlMessage::SetUpdateTooltip(text)) == seq![
            EffectView::SetTooltip(text@),
        ],
{
}

/// The voice of an engine that runs is changed in place exactly where Kokoro
/// runs and stays the engine; every other change of the voice builds the engine
/// anew. The two never come together.
pub proof fn a_voice_is_changed_in_place_by_kokoro_alone(
    state: ControlView,
    config: ConfigView,
    voice: String,
)
    ensures
        ({
            let effects = effects_of(state, config, ControlMessage::SetTtsVoice(voice));
            let in_place = state.running_tts == Some(TtsEngineKind::Kokoro) && config.tts_engine
                == TtsEngineKind::Kokoro;
            &&& effects.contains(EffectView::SetVoice(voice@)) == in_place
            &&& effects.contains(EffectView::RebuildTts) == !in_place
        }),
{
    let effects = effects_of(state, config, ControlMessage::SetTtsVoice(voice));
    assert(effects[1] is SetVoice || effects[1] is RebuildTts);
    assert(effects.contains(effects[1]));
}

/// The speech engine follows a voice that was changed elsewhere as it follows
/// one that is set here.
pub proof fn a_voice_is_followed_as_it_is_set(
    state: ControlView,
    config: ConfigView,
    voice: String,
)
    ensures
        ({
            let set = ControlMessage::SetTtsVoice(voice);
            let after = config_after(config, set);
            effects_of(state, config, set) == seq![EffectView::SaveConfig] + effects_of(
                state,
                after,
                ControlMessage::SyncTtsRuntime,
            )
        }),
{
}

/// A model that was downloaded is saved as the preference before it is loaded,
/// and the icon is idle after that. The voice activity detector changes
/// nothing.
pub proof fn a_downloaded_model_is_used(state: ControlView, config: ConfigView, name: String)
    ensures
        ({
            let message = ControlMessage::ActivateModel(name);
            let effects = effects_of(state, config, message);
            if is_vad(name@) {
                config_after(config, message) == config && effects.len() == 0
            } else {
                &&& config_after(config, message) == (ConfigView { model: name@, ..config })
                &&& effects == seq![
                    EffectView::SaveConfig,
                    EffectView::LoadModel(name@),
                    EffectView::PostState(TrayState::Idle),
                ]
            }
        }),
{
}

/// Only a dictation that does not start, a model that cannot be loaded and
/// preferences that must be saved stop what follows, and only a model that
/// cannot be loaded is shown as an error.
pub proof fn few_failures_stop_what_follows(effect: EffectView)
    ensures
        failure_effects(effect) is Some <==> effect is StartPipeline || effect is LoadModel
            || effect is SaveConfigOrStop,
        failure_effects(effect) matches Some(effects) ==> (effects.len() == if effect is LoadModel {
            1int
        } else {
            0
        }) && (effect is LoadModel ==> effects[0] == EffectView::PostState(TrayState::Error)),
{
}

/// Why the dictation of a mode cannot start, if it cannot.
pub open spec fn missing_backend(state: ControlView, mode: SttMode) -> Option<&'static str> {
    match mode {
        SttMode::Batch => if state.has_transcriber {
            None
        } else {
            Some("transcriber no cargado en modo batch")
        },
        SttMode::Chunked => if state.has_transcriber {
            None
        } else {
            Some("transcriber no cargado en modo chunked")
        },
        SttMode::Streaming => if state.has_streamer {
            None
        } else {
            Some("streamer no cargado en modo streaming")
        },
    }
}

/// What the loop remembers once loading a model for the mode went well or not.
pub open spec fn after_loading(state: ControlView, mode: SttMode, loaded: bool) -> ControlView {
    if uses_transcriber(mode) {
        ControlView { has_transcriber: loaded, ..state }
    } else {
        ControlView { has_streamer: loaded, ..state }
    }
}

/// What the loop remembers before its first message.
pub open spec fn first_state(binding: Seq<char>, mode: SttMode) -> ControlView {
    ControlView {
        binding,
        tray_state: TrayState::Idle,
        changing_hotkey: false,
        has_transcriber: uses_transcriber(mode),
        has_streamer: !uses_transcriber(mode),
        running_tts: None,
    }
}

/// At the start the dictation of the mode of the preferences can start, with
/// the key that was given, and of the other kind there is no model.
pub proof fn the_first_dictation_can_start(binding: Seq<char>, mode: SttMode, other: SttMode)
    ensures
        ({
            let state = first_state(binding, mode);
            &&& missing_backend(state, mode) is None
            &&& missing_backend(state, other) is None <==> ((mode == SttMode::Streaming) <==> (other
                == SttMode::Streaming))
            &&& state.binding == binding
            &&& state.tray_state == TrayState::Idle
            &&& !state.changing_hotkey
            &&& state.running_tts is None
        }),
{
}

/// The dictation of a mode can start once its model was loaded, and cannot
/// where that failed. Loading touches no model of the other kind and nothing
/// else that is remembered.
pub proof fn a_loaded_model_lets_the_dictation_start(
    state: ControlView,
    mode: SttMode,
    other: SttMode,
    loaded: bool,
)
    ensures
        ({
            let after = after_loading(state, mode, loaded);
            &&& missing_backend(after, mode) is None <==> loaded
            &&& (mode == SttMode::Streaming) != (other == SttMode::Streaming) ==> missing_backend(
                after,
                other,
            ) == missing_backend(state, other)
            &&& after.binding == state.binding
            &&& after.tray_state == state.tray_state
            &&& after.changing_hotkey == state.changing_hotkey
            &&& after.running_tts == state.running_tts
        }),
{
}

/// A change of the mode has the dictation of the mode before it left without a
/// model where the two need different kinds, and where the model of the new
/// mode is loaded as it is told, the new dictation can start.
#[verifier::rlimit(40)]
pub proof fn a_new_mode_can_start_once_loaded(
    state: ControlView,
    config: ConfigView,
    mode: SttMode,
)
    requires
        mode != config.stt_mode,
    ensures
        ({
            let message = ControlMessage::SetSttMode(mode);
            let after = state_after(state, config, message);
            let effects = effects_of(state, config, message);
            let loads = effects.contains(EffectView::LoadStreamer) || effects.contains(
                EffectView::LoadTranscriber(mode),
            );
            &&& missing_backend(after, mode) is Some <==> loads
            &&& (mode == SttMode::Streaming) != (config.stt_mode == SttMode::Streaming)
                ==> missing_backend(after, config.stt_mode) is Some
        }),
{
    a_mode_loads_what_it_needs(state, config, mode);
    let effects = effects_of(state, config, ControlMessage::SetSttMode(mode));
    assert forall|i: int|
        0 <= i < effects.len() && #[trigger] effects[i] is LoadTranscriber implies mode
        != SttMode::Streaming by {
        effects_agree_with_the_preferences(state, config, ControlMessage::SetSttMode(mode), i);
    }
}

/// What is missing is named by its kind and by the mode.
pub proof fn a_missing_model_is_named(state: ControlView, mode: SttMode)
    ensures
        missing_backend(state, mode) matches Some(text) ==> text@ == (match mode {
            SttMode::Streaming => "streamer no cargado en modo streaming"@,
            SttMode::Batch => "transcriber no cargado en modo batch"@,
            SttMode::Chunked => "transcriber no cargado en modo chunked"@,
        }),
{
}

/// A change of the mode is saved first and ends with an idle icon and a new
/// menu, and takes no more than its steps.
pub proof fn a_mode_change_ends_idle(state: ControlView, config: ConfigView, mode: SttMode)
    requires
        mode != config.stt_mode,
    ensures
        ({
            let effects = effects_of(state, config, ControlMessage::SetSttMode(mode));
            let n = effects.len();
            let is_there = if mode == SttMode::Streaming {
                state.has_streamer
            } else {
                state.has_transcriber
            };
            &&& effects[0] == EffectView::SaveConfig
            &&& effects[n - 2] == EffectView::ShowState(TrayState::Idle, config.theme)
            &&& effects[n - 1] == EffectView::RebuildMenu
            &&& n == if is_there {
                6
            } else {
                7int
            }
        }),
{
}

/// Whether an effect may come of a message: each comes only of the messages
/// that are about it.
pub open spec fn belongs_to(effect: EffectView, message: ControlMessage) -> bool {
    match effect {
        EffectView::ShowState(_, _) => message is ChangeHotkey || message is HotkeyChanged
            || message is SetTrayState || message is SetTheme || message is SetSttMode,
        EffectView::PostState(_) | EffectView::LoadModel(_) => message is ActivateModel,
        EffectView::SaveConfig => message is SetTheme || message is SetSttMode || message
            is SetUiLanguage || message is SetPromptPreset || message is SetEffort || message
            is ActivateModel || message is SetInputDevice || message is ToggleTts || message
            is SetTtsEngine || message is SetTtsVoice || message is SetTtsSpeed,
        EffectView::RebuildMenu => message is SetTheme || message is SetSttMode || message
            is SetUiLanguage || message is SetPromptPreset || message is SetEffort || message
            is SetInputDevice || message is RefreshMenu,
        EffectView::ApplyMenuTheme(_) => message is SetTheme,
        EffectView::StopPipeline => message is ChangeHotkey || message is SetSttMode || message
            is SetInputDevice,
        EffectView::StartPipeline { .. } => message is HotkeyChanged || message is SetSttMode
            || message is SetInputDevice,
        EffectView::RecordHotkey => message is ChangeHotkey,
        EffectView::DropTranscriber
        | EffectView::DropStreamer
        | EffectView::LoadTranscriber(_)
        | EffectView::LoadStreamer => message is SetSttMode,
        EffectView::SetPrompt(_) => message is SetPromptPreset,
        EffectView::SetEffort(_) => message is SetEffort,
        EffectView::ProbeMicrophones => message is ProbeMicrophones,
        EffectView::SetTooltip(_) => message is UpdateEvent || message is SetUpdateTooltip,
        EffectView::SetVoice(_) => message is SetTtsVoice || message is SyncTtsRuntime,
        EffectView::RebuildTts => message is SetTtsVoice || message is SyncTtsRuntime || message
            is SetTtsEngine,
        EffectView::SetSpeed(_) => message is SetTtsSpeed,
        EffectView::ReadSelection => message is TtsReadSelection,
        EffectView::Exit => message is Exit,
        EffectView::PostRefresh
        | EffectView::SaveConfigOrStop
        | EffectView::DownloadModel(_) => false,
    }
}

/// No message does what is another's business, and none does a thing twice.
#[verifier::rlimit(40)]
pub proof fn a_message_minds_its_own_business(
    state: ControlView,
    config: ConfigView,
    message: ControlMessage,
    i: int,
    j: int,
)
    requires
        0 <= i < effects_of(state, config, message).len(),
        0 <= j < effects_of(state, config, message).len(),
    ensures
        belongs_to(effects_of(state, config, message)[i], message),
        effects_of(state, config, message)[i] == effects_of(state, config, message)[j] ==> i == j,
{
    if let ControlMessage::SetSttMode(mode) = message {
        lemma_mode_effects_are_of_the_mode(state, config.theme, mode);
    }
}

proof fn lemma_mode_effects_are_of_the_mode(state: ControlView, theme: Theme, mode: SttMode)
    ensures
        forall|i: int|
            0 <= i < mode_effects(state, theme, mode).len() ==> belongs_to(
                #[trigger] mode_effects(state, theme, mode)[i],
                ControlMessage::SetSttMode(mode),
            ),
        forall|i: int, j: int|
            0 <= i < j < mode_effects(state, theme, mode).len() ==> #[trigger] mode_effects(
                state,
                theme,
                mode,
            )[i] != #[trigger] mode_effects(state, theme, mode)[j],
{
    let effects = mode_effects(state, theme, mode);
    let n = effects.len();
    assert(effects[0] is SaveConfig && effects[1] is StopPipeline);
    assert(effects[2] is DropTranscriber || effects[2] is DropStreamer);
    assert(n == 7 ==> effects[3] is LoadTranscriber || effects[3] is LoadStreamer);
    assert(effects[n - 3] is StartPipeline && effects[n - 2] is ShowState && effects[n
        - 1] is RebuildMenu);
    assert(n == 6 || n == 7);
}

} // verus!
