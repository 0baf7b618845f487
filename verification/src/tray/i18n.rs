//! Every label of the tray menu, in the three interface languages.
use vstd::prelude::*;

use crate::config::UiLanguage;

verus! {

/// The texts that the menu shows.
#[derive(Debug, Clone, Copy)]
pub struct Strings {
    // Root items
    pub change_hotkey: &'static str,
    pub exit: &'static str,
    pub check_updates: &'static str,
    pub open_models_dir: &'static str,
    // "Theme" submenu
    pub theme: &'static str,
    pub theme_dark: &'static str,
    pub theme_light: &'static str,
    pub theme_system: &'static str,
    // "Dictation mode" submenu
    pub mode: &'static str,
    pub mode_batch: &'static str,
    pub mode_streaming: &'static str,
    pub mode_chunked: &'static str,
    // "Models" submenu
    pub models: &'static str,
    pub model_tiny: &'static str,
    pub model_base: &'static str,
    pub model_small: &'static str,
    pub model_medium: &'static str,
    pub model_large: &'static str,
    pub model_vad: &'static str,
    pub model_installed: &'static str,
    pub model_download: &'static str,
    pub model_active: &'static str,
    pub model_en_only: &'static str,
    // "Interface language" submenu
    pub ui_language: &'static str,
    pub ui_es: &'static str,
    pub ui_en: &'static str,
    pub ui_bilingual: &'static str,
    // "System prompt" submenu
    pub system_prompt: &'static str,
    pub prompt_bilingual: &'static str,
    pub prompt_es: &'static str,
    pub prompt_en: &'static str,
    pub prompt_custom: &'static str,
    pub prompt_custom_hint: &'static str,
    pub prompt_edit: &'static str,
    // "Decoding effort" submenu
    pub effort: &'static str,
    pub effort_balanced: &'static str,
    pub effort_robust: &'static str,
    pub effort_high_quality: &'static str,
    // Notice for an English-only model with another language
    pub model_lang_mismatch_tooltip: &'static str,
    pub model_lang_mismatch_action: &'static str,
    // "Microphone" submenu
    pub microphone: &'static str,
    pub mic_auto: &'static str,
    pub mic_none: &'static str,
    pub mic_active: &'static str,
    pub mic_reprobe: &'static str,
}

/// Spanish labels.
pub open spec fn spanish_table() -> Strings {
    Strings {
        change_hotkey: "Cambiar hotkey…",
        exit: "Salir",
        check_updates: "Buscar actualizaciones",
        open_models_dir: "Abrir carpeta de modelos…",
        theme: "Tema",
        theme_dark: "Oscuro",
        theme_light: "Claro",
        theme_system: "Sistema",
        mode: "Modo de dictado",
        mode_batch: "Batch (Hold-to-Talk) · estable",
        mode_streaming: "Streaming (En vivo) · en prueba",
        mode_chunked: "Chunked (Por bloques) · en prueba",
        models: "Modelos",
        model_tiny: "Tiny",
        model_base: "Base",
        model_small: "Small",
        model_medium: "Medium",
        model_large: "Large",
        model_vad: "VAD",
        model_installed: "✓ ",
        model_download: "↓ Descargar ",
        model_active: "  ← activo",
        model_en_only: "  ⚠ Solo inglés",
        ui_language: "Idioma de la interfaz",
        ui_es: "Español",
        ui_en: "English",
        ui_bilingual: "Bilingüe (ES + EN)",
        system_prompt: "Prompt del sistema",
        prompt_bilingual: "Bilingüe ES + EN (default)",
        prompt_es: "Solo español",
        prompt_en: "Solo inglés",
        prompt_custom: "Personalizado…",
        prompt_custom_hint: "(edítalo con --set-prompt)",
        prompt_edit: "Editar config.json…",
        effort: "Esfuerzo de decodificación",
        effort_balanced: "Equilibrado (greedy, 1×) — rápido · estable",
        effort_robust: "Robusto (greedy best_of=5) — más lento, mejor con ruido",
        effort_high_quality: "Alta calidad (beam search) — mucho más lento, mejor precisión",
        model_lang_mismatch_tooltip: "oido — ⚠ modelo solo inglés con idioma español; ábreme para corregir",
        model_lang_mismatch_action: "⚠ Cambiar a modelo multilingüe…",
        microphone: "Micrófono",
        mic_auto: "Automático (predeterminado del sistema)",
        mic_none: "No se detectaron micrófonos",
        mic_active: "  ← activo",
        mic_reprobe: "Volver a sondear micrófonos",
    }
}

/// Spanish labels.
pub fn strings_es() -> (r: Strings)
    ensures
        r == spanish_table(),
{
    Strings {
        change_hotkey: "Cambiar hotkey…",
        exit: "Salir",
        check_updates: "Buscar actualizaciones",
        open_models_dir: "Abrir carpeta de modelos…",
        theme: "Tema",
        theme_dark: "Oscuro",
        theme_light: "Claro",
        theme_system: "Sistema",
        mode: "Modo de dictado",
        mode_batch: "Batch (Hold-to-Talk) · estable",
        mode_streaming: "Streaming (En vivo) · en prueba",
        mode_chunked: "Chunked (Por bloques) · en prueba",
        models: "Modelos",
        model_tiny: "Tiny",
        model_base: "Base",
        model_small: "Small",
        model_medium: "Medium",
        model_large: "Large",
        model_vad: "VAD",
        model_installed: "✓ ",
        model_download: "↓ Descargar ",
        model_active: "  ← activo",
        model_en_only: "  ⚠ Solo inglés",
        ui_language: "Idioma de la interfaz",
        ui_es: "Español",
        ui_en: "English",
        ui_bilingual: "Bilingüe (ES + EN)",
        system_prompt: "Prompt del sistema",
        prompt_bilingual: "Bilingüe ES + EN (default)",
        prompt_es: "Solo español",
        prompt_en: "Solo inglés",
        prompt_custom: "Personalizado…",
        prompt_custom_hint: "(edítalo con --set-prompt)",
        prompt_edit: "Editar config.json…",
        effort: "Esfuerzo de decodificación",
        effort_balanced: "Equilibrado (greedy, 1×) — rápido · estable",
        effort_robust: "Robusto (greedy best_of=5) — más lento, mejor con ruido",
        effort_high_quality: "Alta calidad (beam search) — mucho más lento, mejor precisión",
        model_lang_mismatch_tooltip: "oido — ⚠ modelo solo inglés con idioma español; ábreme para corregir",
        model_lang_mismatch_action: "⚠ Cambiar a modelo multilingüe…",
        microphone: "Micrófono",
        mic_auto: "Automático (predeterminado del sistema)",
        mic_none: "No se detectaron micrófonos",
        mic_active: "  ← activo",
        mic_reprobe: "Volver a sondear micrófonos",
    }
}

/// English labels.
pub open spec fn english_table() -> Strings {
    Strings {
        change_hotkey: "Change hotkey…",
        exit: "Exit",
        check_updates: "Check for updates",
        open_models_dir: "Open models folder…",
        theme: "Theme",
        theme_dark: "Dark",
        theme_light: "Light",
        theme_system: "System",
        mode: "Dictation mode",
        mode_batch: "Batch (Hold-to-Talk) · stable",
        mode_streaming: "Streaming (Live) · in testing",
        mode_chunked: "Chunked (Blocks) · in testing",
        models: "Models",
        model_tiny: "Tiny",
        model_base: "Base",
        model_small: "Small",
        model_medium: "Medium",
        model_large: "Large",
        model_vad: "VAD",
        model_installed: "✓ ",
        model_download: "↓ Download ",
        model_active: "  ← active",
        model_en_only: "  ⚠ English only",
        ui_language: "Interface language",
        ui_es: "Español",
        ui_en: "English",
        ui_bilingual: "Bilingual (ES + EN)",
        system_prompt: "System prompt",
        prompt_bilingual: "Bilingual ES + EN (default)",
        prompt_es: "Spanish only",
        prompt_en: "English only",
        prompt_custom: "Custom…",
        prompt_custom_hint: "(edit with --set-prompt)",
        prompt_edit: "Edit config.json…",
        effort: "Decoding effort",
        effort_balanced: "Balanced (greedy, 1×) — fast · stable",
        effort_robust: "Robust (greedy best_of=5) — slower, better with noise",
        effort_high_quality: "High quality (beam search) — much slower, best accuracy",
        model_lang_mismatch_tooltip: "oido — ⚠ English-only model with non-English language; open me to fix",
        model_lang_mismatch_action: "⚠ Switch to multilingual model…",
        microphone: "Microphone",
        mic_auto: "Automatic (system default)",
        mic_none: "No microphones detected",
        mic_active: "  ← active",
        mic_reprobe: "Probe microphones again",
    }
}

/// English labels.
pub fn strings_en() -> (r: Strings)
    ensures
        r == english_table(),
{
    Strings {
        change_hotkey: "Change hotkey…",
        exit: "Exit",
        check_updates: "Check for updates",
        open_models_dir: "Open models folder…",
        theme: "Theme",
        theme_dark: "Dark",
        theme_light: "Light",
        theme_system: "System",
        mode: "Dictation mode",
        mode_batch: "Batch (Hold-to-Talk) · stable",
        mode_streaming: "Streaming (Live) · in testing",
        mode_chunked: "Chunked (Blocks) · in testing",
        models: "Models",
        model_tiny: "Tiny",
        model_base: "Base",
        model_small: "Small",
        model_medium: "Medium",
        model_large: "Large",
        model_vad: "VAD",
        model_installed: "✓ ",
        model_download: "↓ Download ",
        model_active: "  ← active",
        model_en_only: "  ⚠ English only",
        ui_language: "Interface language",
        ui_es: "Español",
        ui_en: "English",
        ui_bilingual: "Bilingual (ES + EN)",
        system_prompt: "System prompt",
        prompt_bilingual: "Bilingual ES + EN (default)",
        prompt_es: "Spanish only",
        prompt_en: "English only",
        prompt_custom: "Custom…",
        prompt_custom_hint: "(edit with --set-prompt)",
        prompt_edit: "Edit config.json…",
        effort: "Decoding effort",
        effort_balanced: "Balanced (greedy, 1×) — fast · stable",
        effort_robust: "Robust (greedy best_of=5) — slower, better with noise",
        effort_high_quality: "High quality (beam search) — much slower, best accuracy",
        model_lang_mismatch_tooltip: "oido — ⚠ English-only model with non-English language; open me to fix",
        model_lang_mismatch_action: "⚠ Switch to multilingual model…",
        microphone: "Microphone",
        mic_auto: "Automatic (system default)",
        mic_none: "No microphones detected",
        mic_active: "  ← active",
        mic_reprobe: "Probe microphones again",
    }
}

/// Labels in both languages where it matters, else in Spanish.
pub open spec fn bilingual_table() -> Strings {
    Strings {
        change_hotkey: "Cambiar hotkey / Change hotkey…",
        exit: "Salir / Exit",
        check_updates: "Buscar actualizaciones / Check for updates",
        open_models_dir: "Abrir carpeta de modelos / Open models folder…",
        theme: "Tema / Theme",
        theme_dark: "Oscuro / Dark",
        theme_light: "Claro / Light",
        theme_system: "Sistema / System",
        mode: "Modo de dictado / Dictation mode",
        mode_batch: "Batch (Hold-to-Talk) · estable / stable",
        mode_streaming: "Streaming (En vivo / Live) · en prueba",
        mode_chunked: "Chunked (Por bloques / Blocks) · en prueba",
        models: "Modelos / Models",
        model_tiny: "Tiny",
        model_base: "Base",
        model_small: "Small",
        model_medium: "Medium",
        model_large: "Large",
        model_vad: "VAD",
        model_installed: "✓ ",
        model_download: "↓ Descargar / Download ",
        model_active: "  ← activo / active",
        model_en_only: "  ⚠ Solo inglés / English only",
        ui_language: "Idioma de la interfaz / Interface language",
        ui_es: "Español",
        ui_en: "English",
        ui_bilingual: "Bilingüe (ES + EN)",
        system_prompt: "Prompt del sistema / System prompt",
        prompt_bilingual: "Bilingüe ES + EN (default)",
        prompt_es: "Solo español",
        prompt_en: "Solo inglés / English only",
        prompt_custom: "Personalizado / Custom…",
        prompt_custom_hint: "(edítalo con --set-prompt / edit with --set-prompt)",
        prompt_edit: "Editar config.json / Edit config.json…",
        effort: "Esfuerzo de decodificación / Decoding effort",
        effort_balanced: "Equilibrado / Balanced (greedy, 1×) — rápido / fast · estable",
        effort_robust: "Robusto (greedy best_of=5) — más lento / slower, mejor con ruido / with noise",
        effort_high_quality: "Alta calidad / High quality (beam search) — mucho más lento / much slower, mejor precisión / best accuracy",
        model_lang_mismatch_tooltip: "oido — ⚠ modelo solo inglés / English-only model; ábreme / open me",
        model_lang_mismatch_action: "⚠ Cambiar a modelo multilingüe / Switch to multilingual model…",
        microphone: "Micrófono / Microphone",
        mic_auto: "Automático / Automatic",
        mic_none: "No se detectaron micrófonos / No microphones detected",
        mic_active: "  ← activo / active",
        mic_reprobe: "Volver a sondear micrófonos / Probe microphones again",
    }
}

/// Labels in both languages where it matters, else in Spanish.
pub fn strings_bilingual() -> (r: Strings)
    ensures
        r == bilingual_table(),
{
    Strings {
        change_hotkey: "Cambiar hotkey / Change hotkey…",
        exit: "Salir / Exit",
        check_updates: "Buscar actualizaciones / Check for updates",
        open_models_dir: "Abrir carpeta de modelos / Open models folder…",
        theme: "Tema / Theme",
        theme_dark: "Oscuro / Dark",
        theme_light: "Claro / Light",
        theme_system: "Sistema / System",
        mode: "Modo de dictado / Dictation mode",
        mode_batch: "Batch (Hold-to-Talk) · estable / stable",
        mode_streaming: "Streaming (En vivo / Live) · en prueba",
        mode_chunked: "Chunked (Por bloques / Blocks) · en prueba",
        models: "Modelos / Models",
        model_tiny: "Tiny",
        model_base: "Base",
        model_small: "Small",
        model_medium: "Medium",
        model_large: "Large",
        model_vad: "VAD",
        model_installed: "✓ ",
        model_download: "↓ Descargar / Download ",
        model_active: "  ← activo / active",
        model_en_only: "  ⚠ Solo inglés / English only",
        ui_language: "Idioma de la interfaz / Interface language",
        ui_es: "Español",
        ui_en: "English",
        ui_bilingual: "Bilingüe (ES + EN)",
        system_prompt: "Prompt del sistema / System prompt",
        prompt_bilingual: "Bilingüe ES + EN (default)",
        prompt_es: "Solo español",
        prompt_en: "Solo inglés / English only",
        prompt_custom: "Personalizado / Custom…",
        prompt_custom_hint: "(edítalo con --set-prompt / edit with --set-prompt)",
        prompt_edit: "Editar config.json / Edit config.json…",
        effort: "Esfuerzo de decodificación / Decoding effort",
        effort_balanced: "Equilibrado / Balanced (greedy, 1×) — rápido / fast · estable",
        effort_robust: "Robusto (greedy best_of=5) — más lento / slower, mejor con ruido / with noise",
        effort_high_quality: "Alta calidad / High quality (beam search) — mucho más lento / much slower, mejor precisión / best accuracy",
        model_lang_mismatch_tooltip: "oido — ⚠ modelo solo inglés / English-only model; ábreme / open me",
        model_lang_mismatch_action: "⚠ Cambiar a modelo multilingüe / Switch to multilingual model…",
        microphone: "Micrófono / Microphone",
        mic_auto: "Automático / Automatic",
        mic_none: "No se detectaron micrófonos / No microphones detected",
        mic_active: "  ← activo / active",
        mic_reprobe: "Volver a sondear micrófonos / Probe microphones again",
    }
}

/// The labels of an interface language.
pub open spec fn table(lang: UiLanguage) -> Strings {
    match lang {
        UiLanguage::Es => spanish_table(),
        UiLanguage::En => english_table(),
        UiLanguage::Bilingual => bilingual_table(),
    }
}

/// The labels of the interface language `lang`.
pub fn strings(lang: UiLanguage) -> (r: Strings)
    ensures
        r == table(lang),
{
    match lang {
        UiLanguage::Es => strings_es(),
        UiLanguage::En => strings_en(),
        UiLanguage::Bilingual => strings_bilingual(),
    }
}

/// No label of `t` is empty.
pub open spec fn all_filled(t: Strings) -> bool {
    &&& t.change_hotkey@.len() > 0
    &&& t.exit@.len() > 0
    &&& t.check_updates@.len() > 0
    &&& t.open_models_dir@.len() > 0
    &&& t.theme@.len() > 0
    &&& t.theme_dark@.len() > 0
    &&& t.theme_light@.len() > 0
    &&& t.theme_system@.len() > 0
    &&& t.mode@.len() > 0
    &&& t.mode_batch@.len() > 0
    &&& t.mode_streaming@.len() > 0
    &&& t.mode_chunked@.len() > 0
    &&& t.models@.len() > 0
    &&& t.model_tiny@.len() > 0
    &&& t.model_base@.len() > 0
    &&& t.model_small@.len() > 0
    &&& t.model_medium@.len() > 0
    &&& t.model_large@.len() > 0
    &&& t.model_vad@.len() > 0
    &&& t.model_installed@.len() > 0
    &&& t.model_download@.len() > 0
    &&& t.model_active@.len() > 0
    &&& t.model_en_only@.len() > 0
    &&& t.ui_language@.len() > 0
    &&& t.ui_es@.len() > 0
    &&& t.ui_en@.len() > 0
    &&& t.ui_bilingual@.len() > 0
    &&& t.system_prompt@.len() > 0
    &&& t.prompt_bilingual@.len() > 0
    &&& t.prompt_es@.len() > 0
    &&& t.prompt_en@.len() > 0
    &&& t.prompt_custom@.len() > 0
    &&& t.prompt_custom_hint@.len() > 0
    &&& t.prompt_edit@.len() > 0
    &&& t.effort@.len() > 0
    &&& t.effort_balanced@.len() > 0
    &&& t.effort_robust@.len() > 0
    &&& t.effort_high_quality@.len() > 0
    &&& t.model_lang_mismatch_tooltip@.len() > 0
    &&& t.model_lang_mismatch_action@.len() > 0
    &&& t.microphone@.len() > 0
    &&& t.mic_auto@.len() > 0
    &&& t.mic_none@.len() > 0
    &&& t.mic_active@.len() > 0
    &&& t.mic_reprobe@.len() > 0
}

proof fn lemma_spanish_table_filled()
    ensures
        all_filled(spanish_table()),
{
    reveal_strlit("Cambiar hotkey…");
    reveal_strlit("Salir");
    reveal_strlit("Buscar actualizaciones");
    reveal_strlit("Abrir carpeta de modelos…");
    reveal_strlit("Tema");
    reveal_strlit("Oscuro");
    reveal_strlit("Claro");
    reveal_strlit("Sistema");
    reveal_strlit("Modo de dictado");
    reveal_strlit("Batch (Hold-to-Talk) · estable");
    reveal_strlit("Streaming (En vivo) · en prueba");
    reveal_strlit("Chunked (Por bloques) · en prueba");
    reveal_strlit("Modelos");
    reveal_strlit("Tiny");
    reveal_strlit("Base");
    reveal_strlit("Small");
    reveal_strlit("Medium");
    reveal_strlit("Large");
    reveal_strlit("VAD");
    reveal_strlit("✓ ");
    reveal_strlit("↓ Descargar ");
    reveal_strlit("  ← activo");
    reveal_strlit("  ⚠ Solo inglés");
    reveal_strlit("Idioma de la interfaz");
    reveal_strlit("Español");
    reveal_strlit("English");
    reveal_strlit("Bilingüe (ES + EN)");
    reveal_strlit("Prompt del sistema");
    reveal_strlit("Bilingüe ES + EN (default)");
    reveal_strlit("Solo español");
    reveal_strlit("Solo inglés");
    reveal_strlit("Personalizado…");
    reveal_strlit("(edítalo con --set-prompt)");
    reveal_strlit("Editar config.json…");
    reveal_strlit("Esfuerzo de decodificación");
    reveal_strlit("Equilibrado (greedy, 1×) — rápido · estable");
    reveal_strlit("Robusto (greedy best_of=5) — más lento, mejor con ruido");
    reveal_strlit("Alta calidad (beam search) — mucho más lento, mejor precisión");
    reveal_strlit("oido — ⚠ modelo solo inglés con idioma español; ábreme para corregir");
    reveal_strlit("⚠ Cambiar a modelo multilingüe…");
    reveal_strlit("Micrófono");
    reveal_strlit("Automático (predeterminado del sistema)");
    reveal_strlit("No se detectaron micrófonos");
    reveal_strlit("Volver a sondear micrófonos");
}

proof fn lemma_english_table_filled()
    ensures
        all_filled(english_table()),
{
    reveal_strlit("Change hotkey…");
    reveal_strlit("Exit");
    reveal_strlit("Check for updates");
    reveal_strlit("Open models folder…");
    reveal_strlit("Theme");
    reveal_strlit("Dark");
    reveal_strlit("Light");
    reveal_strlit("System");
    reveal_strlit("Dictation mode");
    reveal_strlit("Batch (Hold-to-Talk) · stable");
    reveal_strlit("Streaming (Live) · in testing");
    reveal_strlit("Chunked (Blocks) · in testing");
    reveal_strlit("Models");
    reveal_strlit("Tiny");
    reveal_strlit("Base");
    reveal_strlit("Small");
    reveal_strlit("Medium");
    reveal_strlit("Large");
    reveal_strlit("VAD");
    reveal_strlit("✓ ");
    reveal_strlit("↓ Download ");
    reveal_strlit("  ← active");
    reveal_strlit("  ⚠ English only");
    reveal_strlit("Interface language");
    reveal_strlit("Español");
    reveal_strlit("English");
    reveal_strlit("Bilingual (ES + EN)");
    reveal_strlit("System prompt");
    reveal_strlit("Bilingual ES + EN (default)");
    reveal_strlit("Spanish only");
    reveal_strlit("English only");
    reveal_strlit("Custom…");
    reveal_strlit("(edit with --set-prompt)");
    reveal_strlit("Edit config.json…");
    reveal_strlit("Decoding effort");
    reveal_strlit("Balanced (greedy, 1×) — fast · stable");
    reveal_strlit("Robust (greedy best_of=5) — slower, better with noise");
    reveal_strlit("High quality (beam search) — much slower, best accuracy");
    reveal_strlit("oido — ⚠ English-only model with non-English language; open me to fix");
    reveal_strlit("⚠ Switch to multilingual model…");
    reveal_strlit("Microphone");
    reveal_strlit("Automatic (system default)");
    reveal_strlit("No microphones detected");
    reveal_strlit("Probe microphones again");
}

proof fn lemma_bilingual_table_filled()
    ensures
        all_filled(bilingual_table()),
{
    reveal_strlit("Cambiar hotkey / Change hotkey…");
    reveal_strlit("Salir / Exit");
    reveal_strlit("Buscar actualizaciones / Check for updates");
    reveal_strlit("Abrir carpeta de modelos / Open models folder…");
    reveal_strlit("Tema / Theme");
    reveal_strlit("Oscuro / Dark");
    reveal_strlit("Claro / Light");
    reveal_strlit("Sistema / System");
    reveal_strlit("Modo de dictado / Dictation mode");
    reveal_strlit("Batch (Hold-to-Talk) · estable / stable");
    reveal_strlit("Streaming (En vivo / Live) · en prueba");
    reveal_strlit("Chunked (Por bloques / Blocks) · en prueba");
    reveal_strlit("Modelos / Models");
    reveal_strlit("Tiny");
    reveal_strlit("Base");
    reveal_strlit("Small");
    reveal_strlit("Medium");
    reveal_strlit("Large");
    reveal_strlit("VAD");
    reveal_strlit("✓ ");
    reveal_strlit("↓ Descargar / Download ");
    reveal_strlit("  ← activo / active");
    reveal_strlit("  ⚠ Solo inglés / English only");
    reveal_strlit("Idioma de la interfaz / Interface language");
    reveal_strlit("Español");
    reveal_strlit("English");
    reveal_strlit("Bilingüe (ES + EN)");
    reveal_strlit("Prompt del sistema / System prompt");
    reveal_strlit("Bilingüe ES + EN (default)");
    reveal_strlit("Solo español");
    reveal_strlit("Solo inglés / English only");
    reveal_strlit("Personalizado / Custom…");
    reveal_strlit("(edítalo con --set-prompt / edit with --set-prompt)");
    reveal_strlit("Editar config.json / Edit config.json…");
    reveal_strlit("Esfuerzo de decodificación / Decoding effort");
    reveal_strlit("Equilibrado / Balanced (greedy, 1×) — rápido / fast · estable");
    reveal_strlit("Robusto (greedy best_of=5) — más lento / slower, mejor con ruido / with noise");
    reveal_strlit("Alta calidad / High quality (beam search) — mucho más lento / much slower, mejor precisión / best accuracy");
    reveal_strlit("oido — ⚠ modelo solo inglés / English-only model; ábreme / open me");
    reveal_strlit("⚠ Cambiar a modelo multilingüe / Switch to multilingual model…");
    reveal_strlit("Micrófono / Microphone");
    reveal_strlit("Automático / Automatic");
    reveal_strlit("No se detectaron micrófonos / No microphones detected");
    reveal_strlit("Volver a sondear micrófonos / Probe microphones again");
}

/// No label is empty in any language.
pub proof fn all_strings_are_filled(lang: UiLanguage)
    ensures
        all_filled(table(lang)),
{
    lemma_spanish_table_filled();
    lemma_english_table_filled();
    lemma_bilingual_table_filled();
}

/// The labels of the language, prompt, theme and mode submenus tell the three
/// languages apart.
pub proof fn critical_labels_are_distinct(a: UiLanguage, b: UiLanguage)
    requires
        a != b,
    ensures
        table(a).ui_language@ != table(b).ui_language@,
        table(a).system_prompt@ != table(b).system_prompt@,
        table(a).theme@ != table(b).theme@,
        table(a).mode@ != table(b).mode@,
{
    reveal_strlit("Idioma de la interfaz");
    reveal_strlit("Interface language");
    reveal_strlit("Idioma de la interfaz / Interface language");
    reveal_strlit("Prompt del sistema");
    reveal_strlit("System prompt");
    reveal_strlit("Prompt del sistema / System prompt");
    reveal_strlit("Tema");
    reveal_strlit("Theme");
    reveal_strlit("Tema / Theme");
    reveal_strlit("Modo de dictado");
    reveal_strlit("Dictation mode");
    reveal_strlit("Modo de dictado / Dictation mode");
    // An early character tells Spanish from English, the lengths tell the rest.
    assert(spanish_table().ui_language@[1] != english_table().ui_language@[1]);
    assert(spanish_table().system_prompt@[0] != english_table().system_prompt@[0]);
    assert(spanish_table().theme@[1] != english_table().theme@[1]);
    assert(spanish_table().mode@[0] != english_table().mode@[0]);
    assert(spanish_table().ui_language@.len() == 21);
    assert(english_table().ui_language@.len() == 18);
    assert(bilingual_table().ui_language@.len() == 42);
    assert(spanish_table().system_prompt@.len() == 18);
    assert(english_table().system_prompt@.len() == 13);
    assert(bilingual_table().system_prompt@.len() == 34);
    assert(spanish_table().theme@.len() == 4);
    assert(english_table().theme@.len() == 5);
    assert(bilingual_table().theme@.len() == 12);
    assert(spanish_table().mode@.len() == 15);
    assert(english_table().mode@.len() == 14);
    assert(bilingual_table().mode@.len() == 32);
}

// ---------------------------------------------------------------------------
// Laws
// ---------------------------------------------------------------------------

proof fn lemma_joined_exit()
    ensures
        bilingual_table().exit@ == spanish_table().exit@ + " / "@ + english_table().exit@,
{
    reveal_strlit(" / ");
    reveal_strlit("Salir");
    reveal_strlit("Exit");
    reveal_strlit("Salir / Exit");
    assert(bilingual_table().exit@ =~= spanish_table().exit@ + " / "@ + english_table().exit@);
}

proof fn lemma_joined_check_updates()
    ensures
        bilingual_table().check_updates@ == spanish_table().check_updates@ + " / "@ + english_table().check_updates@,
{
    reveal_strlit(" / ");
    reveal_strlit("Buscar actualizaciones");
    reveal_strlit("Check for updates");
    reveal_strlit("Buscar actualizaciones / Check for updates");
    assert(bilingual_table().check_updates@ =~= spanish_table().check_updates@ + " / "@ + english_table().check_updates@);
}

proof fn lemma_joined_theme()
    ensures
        bilingual_table().theme@ == spanish_table().theme@ + " / "@ + english_table().theme@,
{
    reveal_strlit(" / ");
    reveal_strlit("Tema");
    reveal_strlit("Theme");
    reveal_strlit("Tema / Theme");
    assert(bilingual_table().theme@ =~= spanish_table().theme@ + " / "@ + english_table().theme@);
}

proof fn lemma_joined_theme_dark()
    ensures
        bilingual_table().theme_dark@ == spanish_table().theme_dark@ + " / "@ + english_table().theme_dark@,
{
    reveal_strlit(" / ");
    reveal_strlit("Oscuro");
    reveal_strlit("Dark");
    reveal_strlit("Oscuro / Dark");
    assert(bilingual_table().theme_dark@ =~= spanish_table().theme_dark@ + " / "@ + english_table().theme_dark@);
}

proof fn lemma_joined_theme_light()
    ensures
        bilingual_table().theme_light@ == spanish_table().theme_light@ + " / "@ + english_table().theme_light@,
{
    reveal_strlit(" / ");
    reveal_strlit("Claro");
    reveal_strlit("Light");
    reveal_strlit("Claro / Light");
    assert(bilingual_table().theme_light@ =~= spanish_table().theme_light@ + " / "@ + english_table().theme_light@);
}

proof fn lemma_joined_theme_system()
    ensures
        bilingual_table().theme_system@ == spanish_table().theme_system@ + " / "@ + english_table().theme_system@,
{
    reveal_strlit(" / ");
    reveal_strlit("Sistema");
    reveal_strlit("System");
    reveal_strlit("Sistema / System");
    assert(bilingual_table().theme_system@ =~= spanish_table().theme_system@ + " / "@ + english_table().theme_system@);
}

proof fn lemma_joined_mode()
    ensures
        bilingual_table().mode@ == spanish_table().mode@ + " / "@ + english_table().mode@,
{
    reveal_strlit(" / ");
    reveal_strlit("Modo de dictado");
    reveal_strlit("Dictation mode");
    reveal_strlit("Modo de dictado / Dictation mode");
    assert(bilingual_table().mode@ =~= spanish_table().mode@ + " / "@ + english_table().mode@);
}

proof fn lemma_joined_models()
    ensures
        bilingual_table().models@ == spanish_table().models@ + " / "@ + english_table().models@,
{
    reveal_strlit(" / ");
    reveal_strlit("Modelos");
    reveal_strlit("Models");
    reveal_strlit("Modelos / Models");
    assert(bilingual_table().models@ =~= spanish_table().models@ + " / "@ + english_table().models@);
}

proof fn lemma_joined_ui_language()
    ensures
        bilingual_table().ui_language@ == spanish_table().ui_language@ + " / "@ + english_table().ui_language@,
{
    reveal_strlit(" / ");
    reveal_strlit("Idioma de la interfaz");
    reveal_strlit("Interface language");
    reveal_strlit("Idioma de la interfaz / Interface language");
    assert(bilingual_table().ui_language@ =~= spanish_table().ui_language@ + " / "@ + english_table().ui_language@);
}

proof fn lemma_joined_system_prompt()
    ensures
        bilingual_table().system_prompt@ == spanish_table().system_prompt@ + " / "@ + english_table().system_prompt@,
{
    reveal_strlit(" / ");
    reveal_strlit("Prompt del sistema");
    reveal_strlit("System prompt");
    reveal_strlit("Prompt del sistema / System prompt");
    assert(bilingual_table().system_prompt@ =~= spanish_table().system_prompt@ + " / "@ + english_table().system_prompt@);
}

proof fn lemma_joined_prompt_en()
    ensures
        bilingual_table().prompt_en@ == spanish_table().prompt_en@ + " / "@ + english_table().prompt_en@,
{
    reveal_strlit(" / ");
    reveal_strlit("Solo inglés");
    reveal_strlit("English only");
    reveal_strlit("Solo inglés / English only");
    assert(bilingual_table().prompt_en@ =~= spanish_table().prompt_en@ + " / "@ + english_table().prompt_en@);
}

proof fn lemma_joined_effort()
    ensures
        bilingual_table().effort@ == spanish_table().effort@ + " / "@ + english_table().effort@,
{
    reveal_strlit(" / ");
    reveal_strlit("Esfuerzo de decodificación");
    reveal_strlit("Decoding effort");
    reveal_strlit("Esfuerzo de decodificación / Decoding effort");
    assert(bilingual_table().effort@ =~= spanish_table().effort@ + " / "@ + english_table().effort@);
}

proof fn lemma_joined_microphone()
    ensures
        bilingual_table().microphone@ == spanish_table().microphone@ + " / "@ + english_table().microphone@,
{
    reveal_strlit(" / ");
    reveal_strlit("Micrófono");
    reveal_strlit("Microphone");
    reveal_strlit("Micrófono / Microphone");
    assert(bilingual_table().microphone@ =~= spanish_table().microphone@ + " / "@ + english_table().microphone@);
}

proof fn lemma_joined_mic_none()
    ensures
        bilingual_table().mic_none@ == spanish_table().mic_none@ + " / "@ + english_table().mic_none@,
{
    reveal_strlit(" / ");
    reveal_strlit("No se detectaron micrófonos");
    reveal_strlit("No microphones detected");
    reveal_strlit("No se detectaron micrófonos / No microphones detected");
    assert(bilingual_table().mic_none@ =~= spanish_table().mic_none@ + " / "@ + english_table().mic_none@);
}

proof fn lemma_joined_mic_reprobe()
    ensures
        bilingual_table().mic_reprobe@ == spanish_table().mic_reprobe@ + " / "@ + english_table().mic_reprobe@,
{
    reveal_strlit(" / ");
    reveal_strlit("Volver a sondear micrófonos");
    reveal_strlit("Probe microphones again");
    reveal_strlit("Volver a sondear micrófonos / Probe microphones again");
    assert(bilingual_table().mic_reprobe@ =~= spanish_table().mic_reprobe@ + " / "@ + english_table().mic_reprobe@);
}

proof fn lemma_joined_change_hotkey()
    ensures
        bilingual_table().change_hotkey@ == spanish_table().change_hotkey@.drop_last() + " / "@ + english_table().change_hotkey@,
{
    reveal_strlit(" / ");
    reveal_strlit("Cambiar hotkey…");
    reveal_strlit("Change hotkey…");
    reveal_strlit("Cambiar hotkey / Change hotkey…");
    assert(bilingual_table().change_hotkey@ =~= spanish_table().change_hotkey@.drop_last() + " / "@ + english_table().change_hotkey@);
}

proof fn lemma_joined_open_models_dir()
    ensures
        bilingual_table().open_models_dir@ == spanish_table().open_models_dir@.drop_last() + " / "@ + english_table().open_models_dir@,
{
    reveal_strlit(" / ");
    reveal_strlit("Abrir carpeta de modelos…");
    reveal_strlit("Open models folder…");
    reveal_strlit("Abrir carpeta de modelos / Open models folder…");
    assert(bilingual_table().open_models_dir@ =~= spanish_table().open_models_dir@.drop_last() + " / "@ + english_table().open_models_dir@);
}

proof fn lemma_joined_prompt_custom()
    ensures
        bilingual_table().prompt_custom@ == spanish_table().prompt_custom@.drop_last() + " / "@ + english_table().prompt_custom@,
{
    reveal_strlit(" / ");
    reveal_strlit("Personalizado…");
    reveal_strlit("Custom…");
    reveal_strlit("Personalizado / Custom…");
    assert(bilingual_table().prompt_custom@ =~= spanish_table().prompt_custom@.drop_last() + " / "@ + english_table().prompt_custom@);
}

proof fn lemma_joined_prompt_edit()
    ensures
        bilingual_table().prompt_edit@ == spanish_table().prompt_edit@.drop_last() + " / "@ + english_table().prompt_edit@,
{
    reveal_strlit(" / ");
    reveal_strlit("Editar config.json…");
    reveal_strlit("Edit config.json…");
    reveal_strlit("Editar config.json / Edit config.json…");
    assert(bilingual_table().prompt_edit@ =~= spanish_table().prompt_edit@.drop_last() + " / "@ + english_table().prompt_edit@);
}

/// Where a label has to be understood in either language, the bilingual one is
/// the Spanish one, a slash and the English one; of two ellipses the last stays.
pub proof fn bilingual_labels_join_the_two()
    ensures
        bilingual_table().exit@ == spanish_table().exit@ + " / "@ + english_table().exit@,
        bilingual_table().check_updates@ == spanish_table().check_updates@ + " / "@ + english_table().check_updates@,
        bilingual_table().theme@ == spanish_table().theme@ + " / "@ + english_table().theme@,
        bilingual_table().theme_dark@ == spanish_table().theme_dark@ + " / "@ + english_table().theme_dark@,
        bilingual_table().theme_light@ == spanish_table().theme_light@ + " / "@ + english_table().theme_light@,
        bilingual_table().theme_system@ == spanish_table().theme_system@ + " / "@ + english_table().theme_system@,
        bilingual_table().mode@ == spanish_table().mode@ + " / "@ + english_table().mode@,
        bilingual_table().models@ == spanish_table().models@ + " / "@ + english_table().models@,
        bilingual_table().ui_language@ == spanish_table().ui_language@ + " / "@ + english_table().ui_language@,
        bilingual_table().system_prompt@ == spanish_table().system_prompt@ + " / "@ + english_table().system_prompt@,
        bilingual_table().prompt_en@ == spanish_table().prompt_en@ + " / "@ + english_table().prompt_en@,
        bilingual_table().effort@ == spanish_table().effort@ + " / "@ + english_table().effort@,
        bilingual_table().microphone@ == spanish_table().microphone@ + " / "@ + english_table().microphone@,
        bilingual_table().mic_none@ == spanish_table().mic_none@ + " / "@ + english_table().mic_none@,
        bilingual_table().mic_reprobe@ == spanish_table().mic_reprobe@ + " / "@ + english_table().mic_reprobe@,
        bilingual_table().change_hotkey@ == spanish_table().change_hotkey@.drop_last() + " / "@ + english_table().change_hotkey@,
        bilingual_table().open_models_dir@ == spanish_table().open_models_dir@.drop_last() + " / "@ + english_table().open_models_dir@,
        bilingual_table().prompt_custom@ == spanish_table().prompt_custom@.drop_last() + " / "@ + english_table().prompt_custom@,
        bilingual_table().prompt_edit@ == spanish_table().prompt_edit@.drop_last() + " / "@ + english_table().prompt_edit@,
{
    reveal_strlit(" / ");
    lemma_joined_exit();
    lemma_joined_check_updates();
    lemma_joined_theme();
    lemma_joined_theme_dark();
    lemma_joined_theme_light();
    lemma_joined_theme_system();
    lemma_joined_mode();
    lemma_joined_models();
    lemma_joined_ui_language();
    lemma_joined_system_prompt();
    lemma_joined_prompt_en();
    lemma_joined_effort();
    lemma_joined_microphone();
    lemma_joined_mic_none();
    lemma_joined_mic_reprobe();
    lemma_joined_change_hotkey();
    lemma_joined_open_models_dir();
    lemma_joined_prompt_custom();
    lemma_joined_prompt_edit();
}

/// What is the same in every language: the families of the models, the tick of
/// one that is installed, and the names that the languages give themselves.
pub proof fn names_are_the_same_in_every_language(a: UiLanguage, b: UiLanguage)
    ensures
        table(a).model_tiny@ == table(b).model_tiny@ && table(a).model_tiny@ == "Tiny"@,
        table(a).model_base@ == table(b).model_base@ && table(a).model_base@ == "Base"@,
        table(a).model_small@ == table(b).model_small@ && table(a).model_small@ == "Small"@,
        table(a).model_medium@ == table(b).model_medium@ && table(a).model_medium@ == "Medium"@,
        table(a).model_large@ == table(b).model_large@ && table(a).model_large@ == "Large"@,
        table(a).model_vad@ == table(b).model_vad@ && table(a).model_vad@ == "VAD"@,
        table(a).model_installed@ == table(b).model_installed@ && table(a).model_installed@ == "✓ "@,
        table(a).ui_es@ == table(b).ui_es@ && table(a).ui_es@ == "Español"@,
        table(a).ui_en@ == table(b).ui_en@ && table(a).ui_en@ == "English"@,
{
}

/// The choices of the theme, the mode, the effort, the prompt and the language
/// are called by their names in each language.
pub proof fn the_choices_are_called_by_their_names()
    ensures
        spanish_table().theme_dark@ == "Oscuro"@,
        spanish_table().theme_light@ == "Claro"@,
        spanish_table().theme_system@ == "Sistema"@,
        spanish_table().mode_batch@ == "Batch (Hold-to-Talk) · estable"@,
        spanish_table().mode_streaming@ == "Streaming (En vivo) · en prueba"@,
        spanish_table().mode_chunked@ == "Chunked (Por bloques) · en prueba"@,
        spanish_table().effort_balanced@ == "Equilibrado (greedy, 1×) — rápido · estable"@,
        spanish_table().effort_robust@ == "Robusto (greedy best_of=5) — más lento, mejor con ruido"@,
        spanish_table().effort_high_quality@ == "Alta calidad (beam search) — mucho más lento, mejor precisión"@,
        spanish_table().prompt_bilingual@ == "Bilingüe ES + EN (default)"@,
        spanish_table().prompt_es@ == "Solo español"@,
        spanish_table().prompt_en@ == "Solo inglés"@,
        spanish_table().prompt_custom@ == "Personalizado…"@,
        spanish_table().ui_bilingual@ == "Bilingüe (ES + EN)"@,
        english_table().theme_dark@ == "Dark"@,
        english_table().theme_light@ == "Light"@,
        english_table().theme_system@ == "System"@,
        english_table().mode_batch@ == "Batch (Hold-to-Talk) · stable"@,
        english_table().mode_streaming@ == "Streaming (Live) · in testing"@,
        english_table().mode_chunked@ == "Chunked (Blocks) · in testing"@,
        english_table().effort_balanced@ == "Balanced (greedy, 1×) — fast · stable"@,
        english_table().effort_robust@ == "Robust (greedy best_of=5) — slower, better with noise"@,
        english_table().effort_high_quality@ == "High quality (beam search) — much slower, best accuracy"@,
        english_table().prompt_bilingual@ == "Bilingual ES + EN (default)"@,
        english_table().prompt_es@ == "Spanish only"@,
        english_table().prompt_en@ == "English only"@,
        english_table().prompt_custom@ == "Custom…"@,
        english_table().ui_bilingual@ == "Bilingual (ES + EN)"@,
        bilingual_table().theme_dark@ == "Oscuro / Dark"@,
        bilingual_table().theme_light@ == "Claro / Light"@,
        bilingual_table().theme_system@ == "Sistema / System"@,
        bilingual_table().mode_batch@ == "Batch (Hold-to-Talk) · estable / stable"@,
        bilingual_table().mode_streaming@ == "Streaming (En vivo / Live) · en prueba"@,
        bilingual_table().mode_chunked@ == "Chunked (Por bloques / Blocks) · en prueba"@,
        bilingual_table().effort_balanced@ == "Equilibrado / Balanced (greedy, 1×) — rápido / fast · estable"@,
        bilingual_table().effort_robust@ == "Robusto (greedy best_of=5) — más lento / slower, mejor con ruido / with noise"@,
        bilingual_table().effort_high_quality@ == "Alta calidad / High quality (beam search) — mucho más lento / much slower, mejor precisión / best accuracy"@,
        bilingual_table().prompt_bilingual@ == "Bilingüe ES + EN (default)"@,
        bilingual_table().prompt_es@ == "Solo español"@,
        bilingual_table().prompt_en@ == "Solo inglés / English only"@,
        bilingual_table().prompt_custom@ == "Personalizado / Custom…"@,
        bilingual_table().ui_bilingual@ == "Bilingüe (ES + EN)"@,
{
}

/// The marks and notes of the menu say what they mean in each language.
pub proof fn the_notes_say_what_they_mean()
    ensures
        spanish_table().model_download@ == "↓ Descargar "@,
        spanish_table().model_active@ == "  ← activo"@,
        spanish_table().model_en_only@ == "  ⚠ Solo inglés"@,
        spanish_table().mic_auto@ == "Automático (predeterminado del sistema)"@,
        spanish_table().mic_active@ == "  ← activo"@,
        spanish_table().mic_none@ == "No se detectaron micrófonos"@,
        spanish_table().mic_reprobe@ == "Volver a sondear micrófonos"@,
        spanish_table().prompt_custom_hint@ == "(edítalo con --set-prompt)"@,
        spanish_table().model_lang_mismatch_action@ == "⚠ Cambiar a modelo multilingüe…"@,
        spanish_table().model_lang_mismatch_tooltip@ == "oido — ⚠ modelo solo inglés con idioma español; ábreme para corregir"@,
        english_table().model_download@ == "↓ Download "@,
        english_table().model_active@ == "  ← active"@,
        english_table().model_en_only@ == "  ⚠ English only"@,
        english_table().mic_auto@ == "Automatic (system default)"@,
        english_table().mic_active@ == "  ← active"@,
        english_table().mic_none@ == "No microphones detected"@,
        english_table().mic_reprobe@ == "Probe microphones again"@,
        english_table().prompt_custom_hint@ == "(edit with --set-prompt)"@,
        english_table().model_lang_mismatch_action@ == "⚠ Switch to multilingual model…"@,
        english_table().model_lang_mismatch_tooltip@ == "oido — ⚠ English-only model with non-English language; open me to fix"@,
        bilingual_table().model_download@ == "↓ Descargar / Download "@,
        bilingual_table().model_active@ == "  ← activo / active"@,
        bilingual_table().model_en_only@ == "  ⚠ Solo inglés / English only"@,
        bilingual_table().mic_auto@ == "Automático / Automatic"@,
        bilingual_table().mic_active@ == "  ← activo / active"@,
        bilingual_table().mic_none@ == "No se detectaron micrófonos / No microphones detected"@,
        bilingual_table().mic_reprobe@ == "Volver a sondear micrófonos / Probe microphones again"@,
        bilingual_table().prompt_custom_hint@ == "(edítalo con --set-prompt / edit with --set-prompt)"@,
        bilingual_table().model_lang_mismatch_action@ == "⚠ Cambiar a modelo multilingüe / Switch to multilingual model…"@,
        bilingual_table().model_lang_mismatch_tooltip@ == "oido — ⚠ modelo solo inglés / English-only model; ábreme / open me"@,
{
}

/// The commands and the submenus are called by their names in each language.
pub proof fn the_commands_are_called_by_their_names()
    ensures
        spanish_table().change_hotkey@ == "Cambiar hotkey…"@,
        spanish_table().exit@ == "Salir"@,
        spanish_table().check_updates@ == "Buscar actualizaciones"@,
        spanish_table().open_models_dir@ == "Abrir carpeta de modelos…"@,
        spanish_table().theme@ == "Tema"@,
        spanish_table().mode@ == "Modo de dictado"@,
        spanish_table().models@ == "Modelos"@,
        spanish_table().ui_language@ == "Idioma de la interfaz"@,
        spanish_table().system_prompt@ == "Prompt del sistema"@,
        spanish_table().prompt_edit@ == "Editar config.json…"@,
        spanish_table().effort@ == "Esfuerzo de decodificación"@,
        spanish_table().microphone@ == "Micrófono"@,
        english_table().change_hotkey@ == "Change hotkey…"@,
        english_table().exit@ == "Exit"@,
        english_table().check_updates@ == "Check for updates"@,
        english_table().open_models_dir@ == "Open models folder…"@,
        english_table().theme@ == "Theme"@,
        english_table().mode@ == "Dictation mode"@,
        english_table().models@ == "Models"@,
        english_table().ui_language@ == "Interface language"@,
        english_table().system_prompt@ == "System prompt"@,
        english_table().prompt_edit@ == "Edit config.json…"@,
        english_table().effort@ == "Decoding effort"@,
        english_table().microphone@ == "Microphone"@,
        bilingual_table().change_hotkey@ == "Cambiar hotkey / Change hotkey…"@,
        bilingual_table().exit@ == "Salir / Exit"@,
        bilingual_table().check_updates@ == "Buscar actualizaciones / Check for updates"@,
        bilingual_table().open_models_dir@ == "Abrir carpeta de modelos / Open models folder…"@,
        bilingual_table().theme@ == "Tema / Theme"@,
        bilingual_table().mode@ == "Modo de dictado / Dictation mode"@,
        bilingual_table().models@ == "Modelos / Models"@,
        bilingual_table().ui_language@ == "Idioma de la interfaz / Interface language"@,
        bilingual_table().system_prompt@ == "Prompt del sistema / System prompt"@,
        bilingual_table().prompt_edit@ == "Editar config.json / Edit config.json…"@,
        bilingual_table().effort@ == "Esfuerzo de decodificación / Decoding effort"@,
        bilingual_table().microphone@ == "Micrófono / Microphone"@,
{
}

/// Each language has its own table.
pub proof fn a_table_is_in_its_language(lang: UiLanguage)
    ensures
        lang == UiLanguage::Es ==> table(lang) == spanish_table(),
        lang == UiLanguage::En ==> table(lang) == english_table(),
        lang == UiLanguage::Bilingual ==> table(lang) == bilingual_table(),
        lang == UiLanguage::Es <==> table(lang).exit@ == "Salir"@,
        lang == UiLanguage::En <==> table(lang).exit@ == "Exit"@,
{
    reveal_strlit("Salir");
    reveal_strlit("Exit");
    reveal_strlit("Salir / Exit");
    assert("Salir"@.len() == 5 && "Exit"@.len() == 4 && "Salir / Exit"@.len() == 12);
}

} // verus!
