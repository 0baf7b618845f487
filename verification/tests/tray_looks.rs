use oido::config::{Theme, UiLanguage};
use oido::tray::dpi::{dpi_for_window_or_default, scale_for_dpi};
use oido::tray::i18n::{strings, strings_bilingual, strings_en, strings_es, Strings};
use oido::tray::popup::{
    flatten_sections, rows_from_items, PopupPalette, PopupRow, RowKind, SystemMode,
};
use oido::tray::popup_window::compute_size;
use oido::tray::sections::{MenuItemSpec, Section};

#[test]
fn scale_for_dpi_at_100_percent_is_identity() {
    assert_eq!(scale_for_dpi(20, 96), 20);
    assert_eq!(scale_for_dpi(0, 96), 0);
    assert_eq!(scale_for_dpi(100, 96), 100);
}

#[test]
fn scale_for_dpi_at_150_percent_rounds_correctly() {
    assert_eq!(scale_for_dpi(20, 144), 30);
    assert_eq!(scale_for_dpi(16, 144), 24);
}

#[test]
fn scale_for_dpi_at_200_percent_doubles() {
    assert_eq!(scale_for_dpi(20, 192), 40);
}

#[test]
fn scale_for_dpi_handles_fractional_rounding() {
    assert_eq!(scale_for_dpi(7, 144), 11);
}

#[test]
fn dpi_for_window_or_default_returns_96_when_invalid() {
    assert_eq!(dpi_for_window_or_default(Some(0)), 96);
    assert_eq!(dpi_for_window_or_default(None), 96);
    assert_eq!(dpi_for_window_or_default(Some(144)), 144);
}

#[test]
fn strings_returns_correct_table_per_language() {
    assert_eq!(
        strings(UiLanguage::Es).change_hotkey,
        strings_es().change_hotkey
    );
    assert_eq!(
        strings(UiLanguage::En).change_hotkey,
        strings_en().change_hotkey
    );
    assert_eq!(
        strings(UiLanguage::Bilingual).change_hotkey,
        strings_bilingual().change_hotkey
    );
}

#[test]
fn each_language_is_distinct_for_critical_labels() {
    let (a, b, c) = (strings_es(), strings_en(), strings_bilingual());
    let pairs = [
        (a.ui_language, b.ui_language, c.ui_language),
        (a.system_prompt, b.system_prompt, c.system_prompt),
        (a.theme, b.theme, c.theme),
        (a.mode, b.mode, c.mode),
    ];
    for (es, en, bil) in pairs {
        assert_ne!(es, en, "ES y EN deben diferir");
        assert_ne!(es, bil, "Bilingüe debe diferir de ES puro");
        assert_ne!(en, bil, "Bilingüe debe diferir de EN puro");
    }
}

#[test]
fn all_strings_are_non_empty() {
    let tables: [Strings; 3] = [strings_es(), strings_en(), strings_bilingual()];
    for t in &tables {
        let s: &[(&str, &str)] = &[
            ("change_hotkey", t.change_hotkey),
            ("exit", t.exit),
            ("check_updates", t.check_updates),
            ("open_models_dir", t.open_models_dir),
            ("theme", t.theme),
            ("theme_dark", t.theme_dark),
            ("theme_light", t.theme_light),
            ("theme_system", t.theme_system),
            ("mode", t.mode),
            ("mode_batch", t.mode_batch),
            ("mode_streaming", t.mode_streaming),
            ("mode_chunked", t.mode_chunked),
            ("models", t.models),
            ("model_tiny", t.model_tiny),
            ("model_base", t.model_base),
            ("model_small", t.model_small),
            ("model_medium", t.model_medium),
            ("model_large", t.model_large),
            ("model_vad", t.model_vad),
            ("model_installed", t.model_installed),
            ("model_download", t.model_download),
            ("model_active", t.model_active),
            ("model_en_only", t.model_en_only),
            ("ui_language", t.ui_language),
            ("ui_es", t.ui_es),
            ("ui_en", t.ui_en),
            ("ui_bilingual", t.ui_bilingual),
            ("system_prompt", t.system_prompt),
            ("prompt_bilingual", t.prompt_bilingual),
            ("prompt_es", t.prompt_es),
            ("prompt_en", t.prompt_en),
            ("prompt_custom", t.prompt_custom),
            ("prompt_custom_hint", t.prompt_custom_hint),
            ("prompt_edit", t.prompt_edit),
            ("effort", t.effort),
            ("effort_balanced", t.effort_balanced),
            ("effort_robust", t.effort_robust),
            ("effort_high_quality", t.effort_high_quality),
            ("model_lang_mismatch_tooltip", t.model_lang_mismatch_tooltip),
            ("model_lang_mismatch_action", t.model_lang_mismatch_action),
        ];
        for (key, val) in s {
            assert!(
                !val.is_empty(),
                "string `{key}` está vacío en {:?}",
                t.change_hotkey
            );
        }
    }
}

#[test]
fn palette_dark_is_black_bg_white_text() {
    let p = PopupPalette::from_theme(Theme::Dark, SystemMode::Unknown);
    assert_eq!(p.bg, (10, 10, 10));
    assert!(p.text.0 > 200 && p.text.1 > 200 && p.text.2 > 200);
}

#[test]
fn palette_light_inverts() {
    let dark = PopupPalette::from_theme(Theme::Dark, SystemMode::Unknown);
    let light = PopupPalette::from_theme(Theme::Light, SystemMode::Unknown);
    assert!(dark.bg.0 < 50);
    assert!(light.bg.0 > 200);
    assert!(dark.text.0 > light.text.0);
}

#[test]
fn flatten_sections_drops_empty_minimal() {
    let out = flatten_sections(&[]);
    assert!(out.is_empty());
}

#[test]
fn flatten_sections_converts_item() {
    let s = vec![Section::Item(MenuItemSpec {
        id: "x".into(),
        label: "Cambiar tecla".into(),
        enabled: true,
    })];
    let out = flatten_sections(&s);
    assert_eq!(out.len(), 1);
    match &out[0].kind {
        RowKind::Action { id, label, active } => {
            assert_eq!(id, "x");
            assert_eq!(label, "Cambiar tecla");
            assert!(!*active, "enabled=true → active=false");
        }
        other => panic!("esperaba Action, obtuve {:?}", other),
    }
}

#[test]
fn flatten_sections_passes_separator() {
    let s = vec![Section::Separator];
    let out = flatten_sections(&s);
    assert!(matches!(out[0].kind, RowKind::Separator));
}

#[test]
fn flatten_sections_nests_submenu() {
    let s = vec![Section::Submenu {
        label: "Tema".into(),
        items: vec![
            MenuItemSpec {
                id: "theme_dark".into(),
                label: "Oscuro".into(),
                enabled: true,
            },
            MenuItemSpec {
                id: "theme_light".into(),
                label: "Claro".into(),
                enabled: true,
            },
        ],
    }];
    let out = flatten_sections(&s);
    assert_eq!(out.len(), 1);
    match &out[0].kind {
        RowKind::Submenu { label, child, .. } => {
            assert_eq!(label, "Tema");
            assert_eq!(child.len(), 2);
            assert!(matches!(child[0].kind, RowKind::Action { .. }));
        }
        other => panic!("esperaba Submenu, obtuve {:?}", other),
    }
}

#[test]
fn rows_from_items_works() {
    let items = vec![MenuItemSpec {
        id: "i".into(),
        label: "L".into(),
        enabled: true,
    }];
    let rows = rows_from_items(&items);
    assert_eq!(rows.len(), 1);
}

#[test]
fn compute_size_one_short_row() {
    let rows = vec![PopupRow {
        kind: RowKind::Action {
            id: "x".into(),
            label: "Peque\u{00f1}o".into(),
            active: false,
        },
    }];
    let (_w, h) = compute_size(&rows, 96);
    assert!(h > 0, "alto debe ser positivo");
}

#[test]
fn compute_size_grows_with_more_rows() {
    let make_action = |i: usize| PopupRow {
        kind: RowKind::Action {
            id: format!("a{i}"),
            label: format!("Acci\u{00f3}n {i}"),
            active: false,
        },
    };
    let one = vec![make_action(0)];
    let many = (0..10).map(make_action).collect::<Vec<_>>();
    let (_, h1) = compute_size(&one, 96);
    let (_, h10) = compute_size(&many, 96);
    assert!(h10 > h1, "altura crece con m\u{00e1}s filas");
}
