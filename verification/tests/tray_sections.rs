use oido::config::{EffortPreset, PromptPreset, SttMode, Theme, UiLanguage};
use oido::models::{ModelEntry, ModelFamily};
use oido::tray::sections::{
    default_sections, id_to_action, BuildContext, MenuItemSpec, MenuPart, MenuSection, MicDevice,
    MicrophoneSection, Section,
};
use oido::tray::traits::MenuAction;

#[test]
fn id_to_action_covers_known_ids() {
    assert_eq!(
        id_to_action("change_hotkey"),
        Some(MenuAction::ChangeHotkey)
    );
    assert_eq!(
        id_to_action("theme_dark"),
        Some(MenuAction::SetTheme(Theme::Dark))
    );
    assert_eq!(
        id_to_action("theme_light"),
        Some(MenuAction::SetTheme(Theme::Light))
    );
    assert_eq!(
        id_to_action("theme_system"),
        Some(MenuAction::SetTheme(Theme::System))
    );
    assert_eq!(
        id_to_action("mode_batch"),
        Some(MenuAction::SetSttMode(SttMode::Batch))
    );
    assert_eq!(
        id_to_action("mode_streaming"),
        Some(MenuAction::SetSttMode(SttMode::Streaming))
    );
    assert_eq!(
        id_to_action("mode_chunked"),
        Some(MenuAction::SetSttMode(SttMode::Chunked))
    );
    assert_eq!(
        id_to_action("effort_balanced"),
        Some(MenuAction::SetEffort(EffortPreset::Balanced))
    );
    assert_eq!(
        id_to_action("effort_robust"),
        Some(MenuAction::SetEffort(EffortPreset::Robust))
    );
    assert_eq!(
        id_to_action("effort_high_quality"),
        Some(MenuAction::SetEffort(EffortPreset::HighQuality))
    );
    assert_eq!(
        id_to_action("ui_es"),
        Some(MenuAction::SetUiLanguage(UiLanguage::Es))
    );
    assert_eq!(
        id_to_action("ui_en"),
        Some(MenuAction::SetUiLanguage(UiLanguage::En))
    );
    assert_eq!(
        id_to_action("ui_bil"),
        Some(MenuAction::SetUiLanguage(UiLanguage::Bilingual))
    );
    assert_eq!(
        id_to_action("prompt_bilingual"),
        Some(MenuAction::SetPromptPreset(PromptPreset::BilingualEsEn))
    );
    assert_eq!(
        id_to_action("prompt_es"),
        Some(MenuAction::SetPromptPreset(PromptPreset::SpanishOnly))
    );
    assert_eq!(
        id_to_action("prompt_en"),
        Some(MenuAction::SetPromptPreset(PromptPreset::EnglishOnly))
    );
    assert_eq!(
        id_to_action("prompt_custom"),
        Some(MenuAction::SetPromptPreset(PromptPreset::Custom))
    );
    assert_eq!(id_to_action("prompt_edit"), Some(MenuAction::EditPrompt));
    assert_eq!(
        id_to_action("open_models_dir"),
        Some(MenuAction::OpenModelsDir)
    );
    assert_eq!(
        id_to_action("check_updates"),
        Some(MenuAction::CheckUpdates)
    );
    assert_eq!(id_to_action("exit"), Some(MenuAction::Exit));
    assert_eq!(
        id_to_action("model:ggml-base.bin"),
        Some(MenuAction::ModelItem("ggml-base.bin".to_string()))
    );
    assert_eq!(
        id_to_action("mic_auto"),
        Some(MenuAction::SetInputDevice(String::new()))
    );
    assert_eq!(
        id_to_action("mic_reprobe"),
        Some(MenuAction::ProbeMicrophones)
    );
    assert_eq!(
        id_to_action("mic:USB Microphone"),
        Some(MenuAction::SetInputDevice("USB Microphone".to_string()))
    );
}

#[test]
fn id_to_action_returns_none_for_unknown() {
    assert_eq!(id_to_action("nonexistent_item"), None);
    assert_eq!(id_to_action(""), None);
}

fn entry(filename: &str, family: ModelFamily, size_label: &str) -> ModelEntry {
    ModelEntry {
        filename: filename.into(),
        family,
        size_label: size_label.into(),
    }
}

fn catalog() -> Vec<ModelEntry> {
    vec![
        entry("ggml-tiny.bin", ModelFamily::Tiny, "75 MB"),
        entry("ggml-tiny.en.bin", ModelFamily::Tiny, "75 MB"),
        entry("ggml-base.bin", ModelFamily::Base, "142 MB"),
        entry("ggml-small.bin", ModelFamily::Small, "466 MB"),
        entry("ggml-small.en.bin", ModelFamily::Small, "466 MB"),
        entry("ggml-silero-v5.1.2.bin", ModelFamily::Vad, "1 MB"),
    ]
}

fn call_default(installed: Vec<String>) -> Vec<MenuPart> {
    let ctx = BuildContext {
        catalog: catalog(),
        installed,
        active_model: "ggml-base.bin".into(),
        ui_language: UiLanguage::Es,
        theme: Theme::System,
        stt_mode: SttMode::Batch,
        prompt_preset: PromptPreset::BilingualEsEn,
        prompt_custom_text: String::new(),
        effort: EffortPreset::Balanced,
        model_lang_mismatch: None,
        input_devices: Vec::new(),
        input_device: None,
    };
    default_sections(&ctx)
}

#[test]
fn default_sections_produces_expected_tree() {
    let sections = call_default(Vec::new());
    assert_eq!(
        sections.len(),
        9,
        "9 secciones: hotkey, theme, mode, effort, ui_language, prompt, microphone, models, exit"
    );
    for s in &sections {
        assert!(
            !s.build().is_empty(),
            "sección {} no debe estar vacía",
            s.id()
        );
    }
}

#[test]
fn default_sections_models_submenu_marks_installed_and_active() {
    let sections = call_default(vec!["ggml-tiny.bin".into(), "ggml-base.bin".into()]);
    let models_section = sections
        .iter()
        .find(|s| s.id() == "models")
        .expect("debe existir la sección models");

    let mut items: Vec<MenuItemSpec> = Vec::new();
    for sec in models_section.build() {
        match sec {
            Section::Item(spec) => items.push(spec),
            Section::Submenu {
                items: sub_items, ..
            } => items.extend(sub_items),
            Section::Separator => {}
        }
    }
    let tiny = items
        .iter()
        .find(|i| i.id == "model:ggml-tiny.bin")
        .expect("debe existir item ggml-tiny.bin");
    assert!(
        tiny.label.starts_with("✓ "),
        "tiny debe estar marcado como instalado: {}",
        tiny.label
    );

    let small = items
        .iter()
        .find(|i| i.id == "model:ggml-small.bin")
        .expect("debe existir item ggml-small.bin");
    assert!(
        small.label.starts_with("↓ Descargar ") || small.label.starts_with("↓ Download "),
        "small debe estar marcado como no instalado: {}",
        small.label
    );

    let base = items
        .iter()
        .find(|i| i.id == "model:ggml-base.bin")
        .expect("debe existir item ggml-base.bin");
    assert!(base.label.starts_with("✓ "));
    assert!(
        base.label.contains("← activo") || base.label.contains("← active"),
        "base debe estar marcado como activo: {}",
        base.label
    );
}
#[test]
fn default_sections_marks_active_ui_language() {
    let ctx = BuildContext {
        catalog: catalog(),
        installed: Vec::new(),
        active_model: "ggml-base.bin".into(),
        ui_language: UiLanguage::Bilingual,
        theme: Theme::System,
        stt_mode: SttMode::Batch,
        prompt_preset: PromptPreset::BilingualEsEn,
        prompt_custom_text: String::new(),
        effort: EffortPreset::Balanced,
        model_lang_mismatch: None,
        input_devices: Vec::new(),
        input_device: None,
    };
    let sections = default_sections(&ctx);
    let sec = sections
        .iter()
        .find(|s| s.id() == "ui_language")
        .expect("debe existir ui_language");
    let items: Vec<MenuItemSpec> = sec
        .build()
        .into_iter()
        .flat_map(|s| match s {
            Section::Item(i) => vec![i],
            Section::Submenu { items, .. } => items,
            _ => vec![],
        })
        .collect();
    let bil = items.iter().find(|i| i.id == "ui_bil").unwrap();
    assert!(
        bil.label.starts_with("✓ "),
        "bilingüe debe estar activo: {}",
        bil.label
    );
    let es = items.iter().find(|i| i.id == "ui_es").unwrap();
    assert!(
        !es.label.starts_with("✓ "),
        "es no debe estar activo: {}",
        es.label
    );
}
#[test]
fn prompt_section_shows_custom_preview_when_set() {
    let ctx = BuildContext {
        catalog: catalog(),
        installed: Vec::new(),
        active_model: "ggml-base.bin".into(),
        ui_language: UiLanguage::Es,
        theme: Theme::System,
        stt_mode: SttMode::Batch,
        prompt_preset: PromptPreset::Custom,
        prompt_custom_text: "Dictaré kubernetes, gRPC y WASM".into(),
        effort: EffortPreset::Balanced,
        model_lang_mismatch: None,
        input_devices: Vec::new(),
        input_device: None,
    };
    let sections = default_sections(&ctx);
    let sec = sections.iter().find(|s| s.id() == "prompt").unwrap();
    let items: Vec<MenuItemSpec> = sec
        .build()
        .into_iter()
        .flat_map(|s| match s {
            Section::Item(i) => vec![i],
            Section::Submenu { items, .. } => items,
            _ => vec![],
        })
        .collect();
    let custom = items.iter().find(|i| i.id == "prompt_custom").unwrap();
    assert!(
        custom.label.contains("kubernetes"),
        "preview debe incluir el texto: {}",
        custom.label
    );
    assert!(
        custom.label.starts_with("✓ "),
        "custom activo: {}",
        custom.label
    );
}
#[test]
fn default_sections_with_ui_language_en_uses_english_labels() {
    let ctx = BuildContext {
        catalog: catalog(),
        installed: Vec::new(),
        active_model: "ggml-base.bin".into(),
        ui_language: UiLanguage::En,
        theme: Theme::System,
        stt_mode: SttMode::Batch,
        prompt_preset: PromptPreset::BilingualEsEn,
        prompt_custom_text: String::new(),
        effort: EffortPreset::Balanced,
        model_lang_mismatch: None,
        input_devices: Vec::new(),
        input_device: None,
    };
    let sections = default_sections(&ctx);
    let hotkey = sections.iter().find(|s| s.id() == "hotkey").unwrap();
    let items: Vec<MenuItemSpec> = hotkey
        .build()
        .into_iter()
        .filter_map(|s| match s {
            Section::Item(i) => Some(i),
            _ => None,
        })
        .collect();
    assert_eq!(items[0].label, "Change hotkey…");

    let theme = sections.iter().find(|s| s.id() == "theme").unwrap();
    let items: Vec<MenuItemSpec> = theme
        .build()
        .into_iter()
        .flat_map(|s| match s {
            Section::Submenu { items, .. } => items,
            _ => vec![],
        })
        .collect();
    assert!(items.iter().any(|i| i.label.contains("Dark")));
    assert!(items.iter().any(|i| i.label.contains("Light")));
    assert!(items.iter().any(|i| i.label.contains("System")));
}
#[test]
fn models_section_marks_en_only_models() {
    let sections = call_default(vec!["ggml-tiny.en.bin".into()]);
    let sec = sections.iter().find(|s| s.id() == "models").unwrap();
    let items: Vec<MenuItemSpec> = sec
        .build()
        .into_iter()
        .flat_map(|s| match s {
            Section::Item(i) => vec![i],
            Section::Submenu { items, .. } => items,
            _ => vec![],
        })
        .collect();
    let en = items
        .iter()
        .find(|i| i.id == "model:ggml-tiny.en.bin")
        .unwrap();
    assert!(
        en.label.contains("⚠") && en.label.contains("ingl") || en.label.contains("English"),
        "modelo .en debe llevar aviso: {}",
        en.label
    );
}
#[test]
fn mismatch_section_absent_when_none() {
    let sections = call_default(Vec::new());
    assert!(
        sections.iter().all(|s| s.id() != "model_lang_mismatch"),
        "sin mismatch, no debe aparecer la sección de aviso"
    );
}
#[test]
fn mismatch_section_present_and_first_when_active() {
    let mut ctx = BuildContext {
        catalog: catalog(),
        installed: Vec::new(),
        active_model: "ggml-small.en.bin".into(),
        ui_language: UiLanguage::Es,
        theme: Theme::System,
        stt_mode: SttMode::Batch,
        prompt_preset: PromptPreset::BilingualEsEn,
        prompt_custom_text: String::new(),
        effort: EffortPreset::Balanced,
        model_lang_mismatch: None,
        input_devices: Vec::new(),
        input_device: None,
    };
    ctx.model_lang_mismatch = Some("ggml-small.bin".into());

    let sections = default_sections(&ctx);
    assert_eq!(
        sections.len(),
        10,
        "8 base + 1 mismatch + 1 microphone = 10"
    );
    assert_eq!(sections[0].id(), "model_lang_mismatch");

    let items: Vec<MenuItemSpec> = sections[0]
        .build()
        .into_iter()
        .filter_map(|s| match s {
            Section::Item(i) => Some(i),
            _ => None,
        })
        .collect();
    assert_eq!(items.len(), 1, "exactamente 1 item de aviso");
    assert_eq!(items[0].id, "fix_model_lang");
    assert!(
        items[0].label.contains("ggml-small.bin"),
        "label debe incluir el filename sugerido: {}",
        items[0].label
    );
}
#[test]
fn fix_model_lang_action_is_mapped() {
    match id_to_action("fix_model_lang") {
        Some(MenuAction::FixModelLanguage(_)) => {}
        other => panic!("esperaba FixModelLanguage, obtuve {other:?}"),
    }
}

#[test]
fn default_sections_cover_all_menu_actions() {
    let sections = call_default(Vec::new());
    let mut all_ids: Vec<String> = Vec::new();
    for s in &sections {
        for item in s.build() {
            match item {
                Section::Item(spec) => all_ids.push(spec.id),
                Section::Submenu { items, .. } => {
                    for spec in items {
                        if !spec.id.is_empty() {
                            all_ids.push(spec.id);
                        }
                    }
                }
                Section::Separator => {}
            }
        }
    }
    for expected in [
        "change_hotkey",
        "theme_dark",
        "theme_light",
        "theme_system",
        "mode_batch",
        "mode_streaming",
        "mode_chunked",
        "effort_balanced",
        "effort_robust",
        "effort_high_quality",
        "ui_es",
        "ui_en",
        "ui_bil",
        "prompt_bilingual",
        "prompt_es",
        "prompt_en",
        "prompt_custom",
        "prompt_edit",
        "open_models_dir",
        "check_updates",
        "exit",
        "mic_auto",
        "mic_reprobe",
    ] {
        assert!(
            all_ids.iter().any(|id| id == expected),
            "default_sections debe incluir item id {expected}"
        );
        assert!(
            id_to_action(expected).is_some(),
            "id_to_action debe mapear {expected}"
        );
    }
}
fn mic_items(section: &MicrophoneSection) -> Vec<MenuItemSpec> {
    let built = section.build();
    assert_eq!(built.len(), 1, "debe haber exactamente 1 submenú");
    match built.into_iter().next().unwrap() {
        Section::Submenu { items, .. } => items,
        _ => panic!("se esperaba un submenú"),
    }
}

#[test]
fn microphone_section_marks_auto_active_when_none() {
    let sec = MicrophoneSection::new(
        vec![MicDevice {
            name: "USB Mic".into(),
            is_default: true,
        }],
        None,
        UiLanguage::Es,
    );
    let items = mic_items(&sec);
    assert_eq!(items[0].id, "mic_auto");
    assert!(items[0].label.starts_with("✓ "));
    assert!(items.iter().any(|i| i.id == "mic:USB Mic"));
    let usb = items.iter().find(|i| i.id == "mic:USB Mic").unwrap();
    assert!(!usb.label.starts_with("✓ "));
}

#[test]
fn microphone_section_marks_selected_device_active() {
    let sec = MicrophoneSection::new(
        vec![
            MicDevice {
                name: "USB Mic".into(),
                is_default: true,
            },
            MicDevice {
                name: "Headset".into(),
                is_default: false,
            },
        ],
        Some("Headset".into()),
        UiLanguage::Es,
    );
    let items = mic_items(&sec);
    assert!(!items[0].label.starts_with("✓ "));
    let headset = items.iter().find(|i| i.id == "mic:Headset").unwrap();
    assert!(headset.label.starts_with("✓ "));
    assert!(headset.label.contains("← activo"));
    let usb = items.iter().find(|i| i.id == "mic:USB Mic").unwrap();
    assert!(!usb.label.starts_with("✓ "));
    assert!(usb.label.contains("(default)"));
}

#[test]
fn microphone_section_shows_empty_message_when_no_devices() {
    let sec = MicrophoneSection::new(Vec::new(), None, UiLanguage::Es);
    let items = mic_items(&sec);
    assert_eq!(items.len(), 4);
    assert!(items[1].label.contains("No se detectaron"));
    assert!(!items[1].enabled);
    assert_eq!(items[3].id, "mic_reprobe");
}

#[test]
fn microphone_section_in_default_sections() {
    let mut ctx = BuildContext::initial(catalog(), Vec::new(), "ggml-base.bin".into());
    ctx.input_devices = vec![MicDevice {
        name: "USB Mic".into(),
        is_default: true,
    }];
    ctx.input_device = Some("USB Mic".into());
    let sections = default_sections(&ctx);
    let mic = sections
        .iter()
        .find(|s| s.id() == "microphone")
        .expect("MicrophoneSection debe estar en default_sections");
    let items = mic_items_of(mic);
    assert!(items.iter().any(|i| i.id == "mic:USB Mic"));
    assert!(items.iter().any(|i| i.id == "mic_auto"));
    assert!(items.iter().any(|i| i.id == "mic_reprobe"));
}
fn mic_items_of(section: &MenuPart) -> Vec<MenuItemSpec> {
    let built = section.build();
    assert_eq!(built.len(), 1);
    match built.into_iter().next().unwrap() {
        Section::Submenu { items, .. } => items,
        _ => panic!("se esperaba un submenú"),
    }
}
