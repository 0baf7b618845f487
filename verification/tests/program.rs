use oido::config::{
    Config, EffortPreset, PromptPreset, SttMode, Theme, TtsConfig, TtsEngineKind, UiLanguage,
};
use oido::control::{
    activate_after_download, after_failure, tooltip_for, Control, ControlMessage, Effect,
};
use oido::diagnostics::{can_shorten, format_config_table, shorten, system_report, SystemFacts};
use oido::lifecycle::{
    build_ctx, detect_model_lang_mismatch, finish_download, handle_model_click, update_tray_state,
};
use oido::listener::{menu_command, MenuCommand};
use oido::models::{
    find, has_no_bin_files, is_english_only_model, multilingual_counterpart,
    whisper_fallback_filename, ModelEntry, ModelFamily,
};
use oido::startup::{
    apply_overrides, choose_binding, initial_tray_state, plan_lazy_load, recover_model,
    resolve_prompt_text, run_set_hotkey, sanitize_config, theme_from_name, threads_per_worker,
    tray_state_of, vad_download_command, vad_download_outcome, LazyStep, Overrides,
    PipelineState, VadDownload, BILINGUAL_PROMPT, VAD_MODEL_FILENAME, VAD_MODEL_URL,
};
use oido::tray::traits::{MenuAction, TrayState};
use oido::updater::error::UpdateError;
use oido::updater::status::{Status, UpdateEvent};

fn config() -> Config {
    Config {
        hotkey: "F8".to_string(),
        model: "ggml-base.bin".to_string(),
        language_ui: "es".to_string(),
        use_gpu: false,
        n_threads: None,
        theme: Theme::Dark,
        ui_language: UiLanguage::Es,
        stt_mode: SttMode::Batch,
        prompt_preset: PromptPreset::BilingualEsEn,
        system_prompt: String::new(),
        effort: EffortPreset::Balanced,
        input_device: None,
        tts: TtsConfig {
            enabled: false,
            engine: TtsEngineKind::Kokoro,
            voice: "af_heart".to_string(),
            speed_milli: 1000,
        },
    }
}

fn names(list: &[&str]) -> Vec<String> {
    list.iter().map(|s| s.to_string()).collect()
}

fn entry(filename: &str, family: ModelFamily) -> ModelEntry {
    ModelEntry {
        filename: filename.to_string(),
        family,
        size_label: "~1 MB".to_string(),
    }
}

fn catalog() -> Vec<ModelEntry> {
    vec![
        entry("ggml-small.bin", ModelFamily::Small),
        entry("ggml-tiny.bin", ModelFamily::Tiny),
        entry("ggml-tiny.en.bin", ModelFamily::Tiny),
        entry("ggml-base.bin", ModelFamily::Base),
        entry("ggml-silero-v5.1.2.bin", ModelFamily::Vad),
    ]
}

// Prompts and the command line.

#[test]
fn an_effect_that_fails_may_stop_the_rest() {
    assert_eq!(
        after_failure(&Effect::LoadModel("m".to_string())),
        Some(vec![Effect::PostState(TrayState::Error)])
    );
    assert_eq!(after_failure(&Effect::SaveConfigOrStop), Some(vec![]));
    let start = Effect::StartPipeline { binding: "F8".to_string(), mode: SttMode::Batch };
    assert_eq!(after_failure(&start), Some(vec![]));
    assert_eq!(after_failure(&Effect::SaveConfig), None);
    assert_eq!(after_failure(&Effect::RebuildMenu), None);
}

#[test]
fn an_empty_custom_prompt_is_the_bilingual_one() {
    let mut c = config();
    c.prompt_preset = PromptPreset::Custom;
    assert_eq!(resolve_prompt_text(&c), BILINGUAL_PROMPT);
    assert!(sanitize_config(&mut c));
    assert_eq!(c.prompt_preset, PromptPreset::BilingualEsEn);
    assert_eq!(resolve_prompt_text(&c), BILINGUAL_PROMPT);
    assert!(!sanitize_config(&mut c));

    c.prompt_preset = PromptPreset::Custom;
    c.system_prompt = "Notas".to_string();
    assert!(!sanitize_config(&mut c));
    assert_eq!(resolve_prompt_text(&c), "Notas");
    c.prompt_preset = PromptPreset::SpanishOnly;
    assert_eq!(resolve_prompt_text(&c), "Hola, voy a dictar en español. ");
    c.prompt_preset = PromptPreset::EnglishOnly;
    assert_eq!(resolve_prompt_text(&c), "Hello, I will dictate in English. ");
}

#[test]
fn the_command_line_changes_what_it_names() {
    let mut c = config();
    let nothing = Overrides { theme: None, lang: None, set_prompt: None };
    assert!(!apply_overrides(&mut c, &nothing));
    assert_eq!(c, config());

    let all = Overrides {
        theme: Some("light".to_string()),
        lang: Some("en".to_string()),
        set_prompt: Some("Notas".to_string()),
    };
    assert!(apply_overrides(&mut c, &all));
    assert_eq!(c.theme, Theme::Light);
    assert_eq!(c.language_ui, "en");
    assert_eq!(c.prompt_preset, PromptPreset::Custom);
    assert_eq!(c.system_prompt, "Notas");

    let reset = Overrides { theme: None, lang: None, set_prompt: Some(String::new()) };
    assert!(apply_overrides(&mut c, &reset));
    assert_eq!(c.prompt_preset, PromptPreset::BilingualEsEn);
    assert_eq!(c.system_prompt, "");

    assert_eq!(theme_from_name("dark"), Theme::Dark);
    assert_eq!(theme_from_name("Dark"), Theme::System);
}

#[test]
fn an_invalid_key_is_not_kept() {
    let mut c = config();
    assert_eq!(run_set_hotkey(&mut c, "??", false), None);
    assert_eq!(c.hotkey, "F8");
    assert_eq!(run_set_hotkey(&mut c, "F9", true), Some("F8".to_string()));
    assert_eq!(c.hotkey, "F9");
    assert_eq!(choose_binding("F9", true, "F8"), "F9");
    assert_eq!(choose_binding("??", false, "F8"), "F8");
}

// Threads, the detector, the first icon.

#[test]
fn the_automatic_threads_lie_between_two_and_eight() {
    assert_eq!(threads_per_worker(Some(16), Some(4), 2), 16);
    assert_eq!(threads_per_worker(None, Some(16), 2), 4);
    assert_eq!(threads_per_worker(None, Some(16), 1), 8);
    assert_eq!(threads_per_worker(None, Some(6), 2), 3);
    assert_eq!(threads_per_worker(None, Some(1), 2), 2);
    assert_eq!(threads_per_worker(None, None, 1), 4);
}

#[test]
fn the_detector_is_downloaded_where_it_is_missing() {
    assert!(vad_download_command(true, "C:\\m", true).is_none());
    let windows = vad_download_command(true, "C:\\m", false).unwrap();
    assert_eq!(windows.program, "powershell");
    assert_eq!(
        windows.args,
        names(&[
            "-ExecutionPolicy",
            "Bypass",
            "-File",
            "scripts/download_vad.ps1",
            VAD_MODEL_URL,
            "C:\\m",
        ])
    );
    let unix = vad_download_command(false, "/m", false).unwrap();
    assert_eq!(unix.program, "bash");
    assert_eq!(unix.args, names(&["scripts/download_vad.sh", VAD_MODEL_URL, "/m"]));
    assert!(VAD_MODEL_URL.ends_with(VAD_MODEL_FILENAME));

    assert_eq!(vad_download_outcome(Some(true), true), VadDownload::Ready);
    assert_eq!(vad_download_outcome(Some(true), false), VadDownload::Discard);
    assert_eq!(vad_download_outcome(Some(false), true), VadDownload::Discard);
    assert_eq!(vad_download_outcome(None, true), VadDownload::Absent);
}

#[test]
fn the_key_opens_after_the_model() {
    assert_eq!(
        plan_lazy_load(SttMode::Batch, false, true, false),
        vec![
            LazyStep::ShowState(TrayState::Loading),
            LazyStep::LoadModel,
            LazyStep::DownloadVad,
            LazyStep::OpenHotkey,
            LazyStep::ShowState(TrayState::Idle),
        ]
    );
    assert_eq!(
        plan_lazy_load(SttMode::Streaming, false, true, false),
        vec![
            LazyStep::ShowState(TrayState::Loading),
            LazyStep::OpenHotkey,
            LazyStep::ShowState(TrayState::Idle),
        ]
    );
    assert!(plan_lazy_load(SttMode::Batch, true, true, false).is_empty());
}

#[test]
fn the_icon_shows_what_is_missing() {
    assert_eq!(initial_tray_state(true, true, true), TrayState::Loading);
    assert_eq!(initial_tray_state(false, true, false), TrayState::Error);
    assert_eq!(initial_tray_state(false, false, true), TrayState::Error);
    assert_eq!(initial_tray_state(false, false, false), TrayState::Idle);
    assert_eq!(tray_state_of(PipelineState::Recording), TrayState::Listening);
    assert_eq!(tray_state_of(PipelineState::Processing), TrayState::Processing);
    assert_eq!(tray_state_of(PipelineState::Error), TrayState::Error);
    assert_eq!(tray_state_of(PipelineState::Idle), TrayState::Idle);
}

// Models.

#[test]
fn a_missing_model_is_replaced() {
    let mut c = config();
    assert!(!recover_model(&mut c, &catalog(), &names(&["ggml-base.bin"])));
    assert_eq!(c.model, "ggml-base.bin");

    c.model = "gone.bin".to_string();
    assert!(recover_model(&mut c, &catalog(), &names(&["ggml-small.bin", "ggml-tiny.bin"])));
    assert_eq!(c.model, "ggml-tiny.bin");

    c.model = "gone.bin".to_string();
    assert!(!recover_model(&mut c, &catalog(), &[].to_vec()));
    assert_eq!(c.model, "gone.bin");

    c.model = VAD_MODEL_FILENAME.to_string();
    assert!(recover_model(&mut c, &catalog(), &names(&[VAD_MODEL_FILENAME])));
    assert_eq!(c.model, "ggml-base.bin");
}

#[test]
fn any_model_that_can_transcribe_is_a_last_resort() {
    let installed = names(&[VAD_MODEL_FILENAME, "mine.bin"]);
    assert_eq!(
        whisper_fallback_filename(&catalog(), &installed),
        Some("mine.bin".to_string())
    );
}

#[test]
fn an_english_model_has_a_counterpart() {
    assert!(is_english_only_model("ggml-tiny.en.bin"));
    assert!(!is_english_only_model("ggml-tiny.bin"));
    assert_eq!(
        multilingual_counterpart(&catalog(), "ggml-tiny.en.bin"),
        Some("ggml-tiny.bin".to_string())
    );
    assert_eq!(multilingual_counterpart(&catalog(), "ggml-medium.en.bin"), None);
    assert_eq!(find(&catalog(), "ggml-base.bin").unwrap().family, ModelFamily::Base);
    assert!(find(&catalog(), "x").is_none());
}

#[test]
fn a_folder_without_models_is_noticed() {
    assert!(has_no_bin_files(None));
    assert!(has_no_bin_files(Some(&names(&["readme.md", ".bin"]))));
    assert!(!has_no_bin_files(Some(&names(&["readme.md", "x.bin"]))));
}

#[test]
fn the_suggested_model_settles_the_matter() {
    let mut c = config();
    c.model = "ggml-tiny.en.bin".to_string();
    let suggestion = detect_model_lang_mismatch(&c, &catalog()).unwrap();
    assert_eq!(suggestion, "ggml-tiny.bin");
    assert_eq!(
        menu_command(MenuAction::FixModelLanguage(String::new()), &c, &catalog()),
        MenuCommand::ClickModel("ggml-tiny.bin".to_string())
    );
    c.language_ui = "EN".to_string();
    assert_eq!(detect_model_lang_mismatch(&c, &catalog()), None);
    c.language_ui = "es".to_string();
    c.model = suggestion;
    assert_eq!(detect_model_lang_mismatch(&c, &catalog()), None);
    assert_eq!(
        menu_command(MenuAction::FixModelLanguage(String::new()), &c, &catalog()),
        MenuCommand::Nothing
    );
}

#[test]
fn the_menu_is_built_from_the_preferences() {
    let mut c = config();
    c.model = "ggml-tiny.en.bin".to_string();
    c.input_device = Some("USB".to_string());
    c.system_prompt = "Notas".to_string();
    let ctx = build_ctx(&c, catalog(), names(&["ggml-tiny.en.bin"]), Vec::new());
    assert_eq!(ctx.active_model, "ggml-tiny.en.bin");
    assert_eq!(ctx.model_lang_mismatch, Some("ggml-tiny.bin".to_string()));
    assert_eq!(ctx.input_device, Some("USB".to_string()));
    assert_eq!(ctx.prompt_custom_text, "Notas");
    assert_eq!(ctx.theme, Theme::Dark);
}

#[test]
fn a_click_loads_what_is_there() {
    let installed = names(&["ggml-base.bin", "ggml-tiny.bin"]);
    let mut c = config();
    assert_eq!(
        handle_model_click(&mut c, "ggml-tiny.bin", &catalog(), &installed),
        vec![
            Effect::SaveConfigOrStop,
            Effect::LoadModel("ggml-tiny.bin".to_string()),
            Effect::PostRefresh,
        ]
    );
    assert_eq!(c.model, "ggml-tiny.bin");
    assert_eq!(
        handle_model_click(&mut c, "ggml-tiny.bin", &catalog(), &installed),
        vec![Effect::LoadModel("ggml-tiny.bin".to_string()), Effect::PostRefresh]
    );
    assert_eq!(
        handle_model_click(&mut c, "ggml-small.bin", &catalog(), &installed),
        vec![
            Effect::PostState(TrayState::Loading),
            Effect::DownloadModel("ggml-small.bin".to_string()),
        ]
    );
    assert!(handle_model_click(&mut c, "unknown.bin", &catalog(), &installed).is_empty());
    assert_eq!(c.model, "ggml-tiny.bin");
}

#[test]
fn a_click_never_loads_the_detector() {
    let installed = names(&[VAD_MODEL_FILENAME, "ggml-tiny.bin"]);
    let mut c = config();
    c.model = VAD_MODEL_FILENAME.to_string();
    assert_eq!(
        handle_model_click(&mut c, VAD_MODEL_FILENAME, &catalog(), &installed),
        vec![Effect::SaveConfig, Effect::PostRefresh]
    );
    assert_eq!(c.model, "ggml-tiny.bin");
    assert!(handle_model_click(&mut c, VAD_MODEL_FILENAME, &catalog(), &installed).is_empty());
}

#[test]
fn a_download_is_used_unless_it_cannot_transcribe() {
    let mut c = config();
    assert_eq!(
        finish_download(&mut c, "ggml-tiny.bin", true),
        vec![
            Effect::PostRefresh,
            Effect::SaveConfig,
            Effect::LoadModel("ggml-tiny.bin".to_string()),
            Effect::PostState(TrayState::Idle),
        ]
    );
    assert_eq!(c.model, "ggml-tiny.bin");
    assert_eq!(finish_download(&mut c, VAD_MODEL_FILENAME, true), vec![Effect::PostRefresh]);
    assert_eq!(
        finish_download(&mut c, "ggml-base.bin", false),
        vec![Effect::PostState(TrayState::Error)]
    );
    assert_eq!(c.model, "ggml-tiny.bin");
    assert!(activate_after_download(&mut c, VAD_MODEL_FILENAME).is_empty());
}

#[test]
fn the_icon_shows_how_an_update_went() {
    assert_eq!(update_tray_state(&Ok(Status::UpToDate)), TrayState::Idle);
    assert_eq!(update_tray_state(&Err(UpdateError::Io(String::new()))), TrayState::Error);
}

// The control loop.

#[test]
fn a_key_is_recorded_once_at_a_time() {
    let mut c = config();
    let mut control = Control::new("F8".to_string(), SttMode::Batch);
    assert_eq!(
        control.handle(&mut c, ControlMessage::ChangeHotkey),
        vec![
            Effect::ShowState(TrayState::Paused, Theme::Dark),
            Effect::StopPipeline,
            Effect::RecordHotkey,
        ]
    );
    assert!(control.handle(&mut c, ControlMessage::ChangeHotkey).is_empty());
    assert_eq!(
        control.handle(&mut c, ControlMessage::HotkeyChanged(Err("x".to_string()))),
        vec![
            Effect::StartPipeline { binding: "F8".to_string(), mode: SttMode::Batch },
            Effect::ShowState(TrayState::Idle, Theme::Dark),
        ]
    );
    assert!(!control.changing_hotkey);
    control.handle(&mut c, ControlMessage::HotkeyChanged(Ok("F9".to_string())));
    assert_eq!(control.binding, "F9");
}

#[test]
fn a_mode_keeps_one_model() {
    let mut c = config();
    let mut control = Control::new("F8".to_string(), SttMode::Batch);
    assert!(control.handle(&mut c, ControlMessage::SetSttMode(SttMode::Batch)).is_empty());
    assert_eq!(
        control.handle(&mut c, ControlMessage::SetSttMode(SttMode::Streaming)),
        vec![
            Effect::SaveConfig,
            Effect::StopPipeline,
            Effect::DropTranscriber,
            Effect::LoadStreamer,
            Effect::StartPipeline { binding: "F8".to_string(), mode: SttMode::Streaming },
            Effect::ShowState(TrayState::Idle, Theme::Dark),
            Effect::RebuildMenu,
        ]
    );
    assert_eq!(c.stt_mode, SttMode::Streaming);
    assert!(!control.has_transcriber);
    assert_eq!(
        control.check_backend(SttMode::Streaming),
        Err("streamer no cargado en modo streaming")
    );
    control.backend_loaded(SttMode::Streaming, true);
    assert_eq!(control.check_backend(SttMode::Streaming), Ok(()));
    assert_eq!(
        control.check_backend(SttMode::Chunked),
        Err("transcriber no cargado en modo chunked")
    );
    assert_eq!(
        control.check_backend(SttMode::Batch),
        Err("transcriber no cargado en modo batch")
    );
    let back = control.handle(&mut c, ControlMessage::SetSttMode(SttMode::Chunked));
    assert_eq!(back[2], Effect::DropStreamer);
    assert_eq!(back[3], Effect::LoadTranscriber(SttMode::Chunked));
}

#[test]
fn every_preference_is_saved() {
    let mut c = config();
    let mut control = Control::new("F8".to_string(), SttMode::Batch);
    control.handle(&mut c, ControlMessage::SetTrayState(TrayState::Processing));
    assert_eq!(
        control.handle(&mut c, ControlMessage::SetTheme(Theme::Light)),
        vec![
            Effect::SaveConfig,
            Effect::ApplyMenuTheme(Theme::Light),
            Effect::ShowState(TrayState::Processing, Theme::Light),
            Effect::RebuildMenu,
        ]
    );
    assert_eq!(
        control.handle(&mut c, ControlMessage::SetUiLanguage(UiLanguage::En)),
        vec![Effect::SaveConfig, Effect::RebuildMenu]
    );
    assert_eq!(
        control.handle(&mut c, ControlMessage::SetPromptPreset(PromptPreset::EnglishOnly)),
        vec![
            Effect::SaveConfig,
            Effect::SetPrompt("Hello, I will dictate in English. ".to_string()),
            Effect::RebuildMenu,
        ]
    );
    assert_eq!(
        control.handle(&mut c, ControlMessage::SetEffort(EffortPreset::Robust)),
        vec![
            Effect::SaveConfig,
            Effect::SetEffort(EffortPreset::Robust),
            Effect::RebuildMenu,
        ]
    );
    assert_eq!(
        control.handle(&mut c, ControlMessage::SetEffort(EffortPreset::Robust)),
        vec![Effect::RebuildMenu]
    );
    assert_eq!(
        control.handle(&mut c, ControlMessage::SetInputDevice(Some("USB".to_string()))),
        vec![
            Effect::SaveConfig,
            Effect::StopPipeline,
            Effect::StartPipeline { binding: "F8".to_string(), mode: SttMode::Batch },
            Effect::RebuildMenu,
        ]
    );
    assert_eq!(c.input_device, Some("USB".to_string()));
    assert!(control
        .handle(&mut c, ControlMessage::ActivateModel(VAD_MODEL_FILENAME.to_string()))
        .is_empty());
    assert_eq!(c.model, "ggml-base.bin");
    assert_eq!(control.handle(&mut c, ControlMessage::Exit), vec![Effect::Exit]);
    assert_eq!(
        control.handle(&mut c, ControlMessage::RefreshMenu),
        vec![Effect::RebuildMenu]
    );
}

#[test]
fn the_voices_of_kokoro_share_a_model() {
    let mut c = config();
    let mut control = Control::new("F8".to_string(), SttMode::Batch);
    assert_eq!(
        control.handle(&mut c, ControlMessage::SyncTtsRuntime),
        vec![Effect::RebuildTts]
    );
    control.tts_running(Some(TtsEngineKind::Kokoro));
    assert_eq!(
        control.handle(&mut c, ControlMessage::SetTtsVoice("bf_emma".to_string())),
        vec![Effect::SaveConfig, Effect::SetVoice("bf_emma".to_string())]
    );
    assert_eq!(c.tts.voice, "bf_emma");
    assert_eq!(
        control.handle(&mut c, ControlMessage::SetTtsEngine(TtsEngineKind::Piper)),
        vec![Effect::SaveConfig, Effect::RebuildTts]
    );
    assert_eq!(
        control.handle(&mut c, ControlMessage::SetTtsVoice("x".to_string())),
        vec![Effect::SaveConfig, Effect::RebuildTts]
    );
    assert_eq!(
        control.handle(&mut c, ControlMessage::SetTtsSpeed(1500)),
        vec![Effect::SaveConfig, Effect::SetSpeed(1500)]
    );
    assert_eq!(
        control.handle(&mut c, ControlMessage::ToggleTts),
        vec![Effect::SaveConfig]
    );
    assert!(c.tts.enabled);
    assert_eq!(
        control.handle(&mut c, ControlMessage::TtsReadSelection),
        vec![Effect::ReadSelection]
    );
}

#[test]
fn an_update_is_told_in_the_tooltip() {
    let version = "0.2.0".to_string();
    assert_eq!(
        tooltip_for(&UpdateEvent::UpdateAvailable {
            version: version.clone(),
            current: "0.1.0".to_string()
        }),
        Some("Nueva versión v0.2.0 — reinicia para aplicar".to_string())
    );
    assert_eq!(
        tooltip_for(&UpdateEvent::Updated { version: version.clone() }),
        Some("Nueva versión v0.2.0 — reinicia para aplicar".to_string())
    );
    assert_eq!(
        tooltip_for(&UpdateEvent::Failed { reason: "x".to_string() }),
        Some("x".to_string())
    );
    assert_eq!(tooltip_for(&UpdateEvent::UpToDate), None);
    let mut c = config();
    let mut control = Control::new("F8".to_string(), SttMode::Batch);
    assert!(control
        .handle(&mut c, ControlMessage::UpdateEvent(UpdateEvent::Skipped { version }))
        .is_empty());
}

#[test]
fn a_choice_in_the_menu_becomes_a_command() {
    let c = config();
    let ask = |action: MenuAction| menu_command(action, &c, &catalog());
    assert_eq!(
        ask(MenuAction::SetTheme(Theme::Light)),
        MenuCommand::Post(ControlMessage::SetTheme(Theme::Light))
    );
    assert_eq!(
        ask(MenuAction::SetInputDevice(String::new())),
        MenuCommand::Post(ControlMessage::SetInputDevice(None))
    );
    assert_eq!(
        ask(MenuAction::SetInputDevice("USB".to_string())),
        MenuCommand::Post(ControlMessage::SetInputDevice(Some("USB".to_string())))
    );
    assert_eq!(ask(MenuAction::TogglePause), MenuCommand::Nothing);
    assert_eq!(ask(MenuAction::EditPrompt), MenuCommand::EditPrompt);
    assert_eq!(ask(MenuAction::CheckUpdates), MenuCommand::CheckUpdates);
    assert_eq!(ask(MenuAction::Exit), MenuCommand::Post(ControlMessage::Exit));
}

// The table and the report.

#[test]
fn the_table_has_its_exact_text() {
    let mut c = config();
    c.n_threads = Some(12);
    c.prompt_preset = PromptPreset::SpanishOnly;
    let expected = "\
┌──────────────────────────────────────────────────────────┐
│                  oido 2.0 Configuración                  │
├──────────────────────────┬───────────────────────────────┤
│ Tecla de Activación      │ F8                            │
│ Modelo Whisper           │ ggml-base.bin                 │
│ Idioma de UI             │ es                            │
│ Usar GPU                 │ No                            │
│ Hilos Whisper            │ 12                            │
│ Tema                     │ dark                          │
│ Idioma del Menú          │ es                            │
│ System Prompt            │ Solo español                  │
├──────────────────────────┼───────────────────────────────┤
│ Directorio de Modelos    │ /models                       │
└──────────────────────────┴───────────────────────────────┘";
    assert_eq!(format_config_table(&c, "/models"), expected);
}

#[test]
fn a_long_path_keeps_its_end() {
    let fits = "a".repeat(29);
    assert_eq!(shorten(&fits), fits);
    let long = format!("/{}", "abcdefghijklmnopqrstuvwxyz0123456789");
    assert_eq!(shorten(&long), "...klmnopqrstuvwxyz0123456789");
    assert!(can_shorten(&long));
    assert!(can_shorten("ñ"));
    assert!(can_shorten(&"ñ".repeat(20)));
    assert!(!can_shorten(&format!("{}a", "ñ".repeat(20))));
}

#[test]
fn the_report_has_its_exact_text() {
    let facts = SystemFacts {
        version: "0.1.0".to_string(),
        config_path: "/c".to_string(),
        config_exists: true,
        models_dir: "/m".to_string(),
        model_path: "/m/x".to_string(),
        model_exists: false,
        gpu_support: false,
    };
    assert_eq!(
        system_report(&facts),
        "\n--- Diagnóstico de Sistema ---\n\
         Versión oido: 0.1.0\n\
         Archivo de Configuración: /c (Presente)\n\
         Directorio de Modelos: /m\n\
         Modelo Whisper: /m/x (Falta / No encontrado)\n\
         GPU Compilada: No"
    );
}
