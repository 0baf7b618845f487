//! What a click on a model does, and what becomes of a model that was
//! downloaded.
use vstd::prelude::*;
use vstd::string::*;

use crate::config::Config;
use crate::control::{
    activate_after_download, activation_effects, add_effect, effects_view, no_effects, one, three,
    two, ConfigView, Effect, EffectView,
};
use crate::models::{
    a_counterpart_keeps_the_stem, a_fallback_can_transcribe, an_entry_is_the_first_for_its_file,
    counterpart_of, entry_from, fallback_of, find, is_english_only,
    is_english_only_model, is_listed, is_vad, is_vad_model_filename, listed,
    multilingual_counterpart, only_english_models_have_a_counterpart, whisper_fallback_filename,
    without_en, ModelEntry,
};
use crate::text::{ascii_lower, option_text, text_eq, to_ascii_lower};
use crate::tray::sections::{
    base_menus, effort_menu, exit_menu, hotkey_menu, microphone_menu, mode_menu, models_menu,
    prompt_menu, theme_menu, ui_language_menu, BuildContext, MicDevice,
};
use crate::tray::traits::TrayState;
use crate::updater::error::UpdateError;
use crate::updater::status::Status;

verus! {

// ---------------------------------------------------------------------------
// The language of the model
// ---------------------------------------------------------------------------

/// The model to suggest where an English-only model is used for another
/// language.
pub open spec fn suggested_model(
    model: Seq<char>,
    language: Seq<char>,
    catalog: Seq<ModelEntry>,
) -> Option<Seq<char>> {
    if is_english_only(model) && ascii_lower(language) != "en"@ {
        counterpart_of(catalog, model)
    } else {
        None
    }
}

/// The model to suggest where an English-only model is used for another
/// language.
pub fn detect_model_lang_mismatch(config: &Config, catalog: &Vec<ModelEntry>) -> (r: Option<String>)
    ensures
        match r {
            Some(name) => suggested_model(config.model@, config.language_ui@, catalog@) == Some(
                name@,
            ),
            None => suggested_model(config.model@, config.language_ui@, catalog@) is None,
        },
{
    if !is_english_only_model(config.model.as_str()) {
        return None;
    }
    if text_eq(to_ascii_lower(config.language_ui.as_str()).as_str(), "en") {
        return None;
    }
    multilingual_counterpart(catalog, config.model.as_str())
}

/// What the menu shows for the preferences.
pub fn build_ctx(
    config: &Config,
    catalog: Vec<ModelEntry>,
    installed: Vec<String>,
    input_devices: Vec<MicDevice>,
) -> (r: BuildContext)
    ensures
        r.catalog == catalog,
        r.installed == installed,
        r.active_model@ == config.model@,
        r.ui_language == config.ui_language,
        r.theme == config.theme,
        r.stt_mode == config.stt_mode,
        r.prompt_preset == config.prompt_preset,
        r.prompt_custom_text@ == config.system_prompt@,
        r.effort == config.effort,
        match r.model_lang_mismatch {
            Some(name) => suggested_model(config.model@, config.language_ui@, catalog@) == Some(
                name@,
            ),
            None => suggested_model(config.model@, config.language_ui@, catalog@) is None,
        },
        r.input_devices == input_devices,
        match r.input_device {
            Some(name) => config.input_device matches Some(device) && device@ == name@,
            None => config.input_device is None,
        },
        base_menus(r) == seq![
            hotkey_menu(config.ui_language),
            theme_menu(config.ui_language, config.theme),
            mode_menu(config.ui_language, config.stt_mode),
            effort_menu(config.ui_language, config.effort),
            ui_language_menu(config.ui_language),
            prompt_menu(config.ui_language, config.prompt_preset, config.system_prompt@),
            microphone_menu(
                input_devices@,
                option_text(config.input_device),
                config.ui_language,
            ),
            models_menu(catalog@, installed@, config.model@, config.ui_language),
            exit_menu(config.ui_language),
        ],
{
    let model_lang_mismatch = detect_model_lang_mismatch(config, &catalog);
    let input_device = match &config.input_device {
        Some(name) => Some(name.clone()),
        None => None,
    };
    assert(option_text(input_device) == option_text(config.input_device));
    BuildContext {
        catalog,
        installed,
        active_model: config.model.clone(),
        ui_language: config.ui_language,
        theme: config.theme,
        stt_mode: config.stt_mode,
        prompt_preset: config.prompt_preset,
        prompt_custom_text: config.system_prompt.clone(),
        effort: config.effort,
        model_lang_mismatch,
        input_devices,
        input_device,
    }
}

// ---------------------------------------------------------------------------
// Clicks
// ---------------------------------------------------------------------------

/// Whether the preferences name a model that is of no use.
pub open spec fn model_is_useless(model: Seq<char>, installed: Seq<String>) -> bool {
    is_vad(model) || !is_listed(installed, model)
}

/// The model after a click on `filename`. A click on the voice activity
/// detector is ignored, but mends preferences that name a useless model.
pub open spec fn model_after_click(
    model: Seq<char>,
    filename: Seq<char>,
    catalog: Seq<ModelEntry>,
    installed: Seq<String>,
) -> Seq<char> {
    if is_vad(filename) {
        if model_is_useless(model, installed) {
            match fallback_of(catalog, installed) {
                Some(fallback) => fallback,
                None => model,
            }
        } else {
            model
        }
    } else if is_listed(installed, filename) {
        filename
    } else {
        model
    }
}

/// What a click on `filename` takes: a model that is there is loaded, one of
/// the catalogue is downloaded.
pub open spec fn click_effects(
    model: Seq<char>,
    filename: Seq<char>,
    catalog: Seq<ModelEntry>,
    installed: Seq<String>,
) -> Seq<EffectView> {
    if is_vad(filename) {
        if model_is_useless(model, installed) && fallback_of(catalog, installed) is Some {
            seq![EffectView::SaveConfig, EffectView::PostRefresh]
        } else {
            Seq::empty()
        }
    } else if is_listed(installed, filename) {
        if model == filename {
            seq![EffectView::LoadModel(filename), EffectView::PostRefresh]
        } else {
            seq![
                EffectView::SaveConfigOrStop,
                EffectView::LoadModel(filename),
                EffectView::PostRefresh,
            ]
        }
    } else if entry_from(catalog, filename, 0) is Some {
        seq![EffectView::PostState(TrayState::Loading), EffectView::DownloadModel(filename)]
    } else {
        Seq::empty()
    }
}

/// Takes a click on a model, given the catalogue and the model files that are
/// there.
pub fn handle_model_click(
    config: &mut Config,
    filename: &str,
    catalog: &Vec<ModelEntry>,
    installed: &Vec<String>,
) -> (r: Vec<Effect>)
    ensures
        final(config)@ == (ConfigView {
            model: model_after_click(old(config).model@, filename@, catalog@, installed@),
            ..old(config)@
        }),
        effects_view(r@) == click_effects(old(config).model@, filename@, catalog@, installed@),
{
    if is_vad_model_filename(filename) {
        let useless = is_vad_model_filename(config.model.as_str()) || !listed(
            installed,
            config.model.as_str(),
        );
        if useless {
            if let Some(fallback) = whisper_fallback_filename(catalog, installed) {
                config.model = fallback;
                return two(Effect::SaveConfig, Effect::PostRefresh);
            }
        }
        return no_effects();
    }
    if listed(installed, filename) {
        if text_eq(config.model.as_str(), filename) {
            return two(Effect::LoadModel(filename.to_owned()), Effect::PostRefresh);
        }
        config.model = filename.to_owned();
        return three(
            Effect::SaveConfigOrStop,
            Effect::LoadModel(filename.to_owned()),
            Effect::PostRefresh,
        );
    }
    if find(catalog, filename).is_some() {
        return two(
            Effect::PostState(TrayState::Loading),
            Effect::DownloadModel(filename.to_owned()),
        );
    }
    no_effects()
}

/// What the end of a download takes.
pub open spec fn download_effects(filename: Seq<char>, succeeded: bool) -> Seq<EffectView> {
    if succeeded {
        seq![EffectView::PostRefresh] + activation_effects(filename)
    } else {
        seq![EffectView::PostState(TrayState::Error)]
    }
}

/// Takes the end of a download: the model is used, unless it cannot
/// transcribe.
pub fn finish_download(config: &mut Config, filename: &str, succeeded: bool) -> (r: Vec<Effect>)
    ensures
        final(config)@ == (if succeeded && !is_vad(filename@) {
            ConfigView { model: filename@, ..old(config)@ }
        } else {
            old(config)@
        }),
        effects_view(r@) == download_effects(filename@, succeeded),
{
    if !succeeded {
        return one(Effect::PostState(TrayState::Error));
    }
    let mut effects = one(Effect::PostRefresh);
    let activation = activate_after_download(config, filename);
    let ghost tail = effects_view(activation@);
    let mut rest = activation;
    let ghost all = activation@;
    let mut i: usize = 0;
    let n: usize = rest.len();
    while i < n
        invariant
            i <= n,
            n == all.len(),
            rest@ == all.skip(i as int),
            tail == effects_view(all),
            effects_view(effects@) == seq![EffectView::PostRefresh] + tail.take(i as int),
        decreases n - i,
    {
        let effect = rest.remove(0);
        assert(rest@ =~= all.skip(i + 1));
        add_effect(&mut effects, effect);
        assert(tail.take(i + 1) =~= tail.take(i as int).push(effect@));
        i += 1;
        assert(effects_view(effects@) =~= seq![EffectView::PostRefresh] + tail.take(i as int));
    }
    assert(tail.take(n as int) =~= tail);
    effects
}

/// What the icon shows after an update that the user asked for.
pub fn update_tray_state(outcome: &Result<Status, UpdateError>) -> (r: TrayState)
    ensures
        r == if outcome is Ok {
            TrayState::Idle
        } else {
            TrayState::Error
        },
        r == shown_after_update(outcome is Ok),
{
    match outcome {
        Ok(_) => TrayState::Idle,
        Err(_) => TrayState::Error,
    }
}

// ---------------------------------------------------------------------------
// Laws
// ---------------------------------------------------------------------------

/// No click makes the voice activity detector the model, and it is never
/// loaded as one.
pub proof fn a_click_never_loads_the_detector(
    model: Seq<char>,
    filename: Seq<char>,
    catalog: Seq<ModelEntry>,
    installed: Seq<String>,
)
    ensures
        !is_vad(model) ==> !is_vad(model_after_click(model, filename, catalog, installed)),
        forall|i: int|
            0 <= i < click_effects(model, filename, catalog, installed).len() ==> (
            #[trigger] click_effects(model, filename, catalog, installed)[i] matches
                EffectView::LoadModel(name) ==> !is_vad(name)),
{
    a_fallback_can_transcribe(catalog, installed);
}

/// Only a model that is there is loaded by a click, and only one of the
/// catalogue that is not there is downloaded.
pub proof fn a_click_loads_what_is_there(
    model: Seq<char>,
    filename: Seq<char>,
    catalog: Seq<ModelEntry>,
    installed: Seq<String>,
)
    ensures
        click_effects(model, filename, catalog, installed).contains(
            EffectView::LoadModel(filename),
        ) ==> is_listed(installed, filename),
        click_effects(model, filename, catalog, installed).contains(
            EffectView::DownloadModel(filename),
        ) ==> !is_listed(installed, filename) && entry_from(catalog, filename, 0) is Some,
{
}

/// Once the suggested model is used, there is nothing more to suggest.
pub proof fn a_suggestion_settles_the_matter(
    model: Seq<char>,
    language: Seq<char>,
    catalog: Seq<ModelEntry>,
)
    requires
        model.len() >= 7 ==> !is_english_only(without_en(model)),
    ensures
        suggested_model(model, language, catalog) matches Some(name) ==> suggested_model(
            name,
            language,
            catalog,
        ) is None,
{
    reveal_strlit(".en.bin");
}

/// There is something to suggest exactly where the model knows English only,
/// the language is another one in whatever case it is written, and the
/// catalogue has the model of the same stem for all languages, which is then
/// suggested.
pub proof fn a_suggestion_has_the_same_stem(
    stem: Seq<char>,
    language: Seq<char>,
    catalog: Seq<ModelEntry>,
)
    ensures
        match suggested_model(stem + ".en.bin"@, language, catalog) {
            Some(name) => name == stem + ".bin"@ && !speaks_english(language) && exists|i: int|
                0 <= i < catalog.len() && #[trigger] catalog[i].filename@ == name,
            None => speaks_english(language) || forall|i: int|
                0 <= i < catalog.len() ==> #[trigger] catalog[i].filename@ != stem + ".bin"@,
        },
{
    a_counterpart_keeps_the_stem(catalog, stem);
    reveal_strlit("en");
    let lower = ascii_lower(language);
    if language.len() == 2 {
        assert(lower[0] == 'e' <==> language[0] == 'e' || language[0] == 'E');
        assert(lower[1] == 'n' <==> language[1] == 'n' || language[1] == 'N');
    }
    assert(lower =~= "en"@ <==> lower.len() == 2 && lower[0] == 'e' && lower[1] == 'n');
}

/// Whether a language is English by its code, in any case.
pub open spec fn speaks_english(language: Seq<char>) -> bool {
    language.len() == 2 && (language[0] == 'e' || language[0] == 'E') && (language[1] == 'n'
        || language[1] == 'N')
}

/// A model for all languages needs no other.
pub proof fn a_multilingual_model_is_left_alone(
    model: Seq<char>,
    language: Seq<char>,
    catalog: Seq<ModelEntry>,
)
    requires
        forall|stem: Seq<char>| model != #[trigger] (stem + ".en.bin"@),
    ensures
        suggested_model(model, language, catalog) is None,
{
    only_english_models_have_a_counterpart(catalog, model);
}

/// A click on a model that is there makes it the model, has it loaded and the
/// menu rebuilt, and has the preferences saved before that where they change.
pub proof fn a_click_uses_the_model(
    model: Seq<char>,
    filename: Seq<char>,
    catalog: Seq<ModelEntry>,
    installed: Seq<String>,
)
    requires
        !is_vad(filename),
        is_listed(installed, filename),
    ensures
        ({
            let effects = click_effects(model, filename, catalog, installed);
            let n = effects.len();
            &&& model_after_click(model, filename, catalog, installed) == filename
            &&& effects[n - 1] == EffectView::PostRefresh
            &&& effects[n - 2] == EffectView::LoadModel(filename)
            &&& n == 3 <==> model != filename
            &&& model != filename ==> effects[0] == EffectView::SaveConfigOrStop
            &&& model == filename ==> n == 2
        }),
{
}

/// A click on a model that is not there changes no preference. One of the
/// catalogue is downloaded while the icon shows that it is loading, and nothing
/// is done about any other.
pub proof fn a_click_downloads_what_is_missing(
    model: Seq<char>,
    filename: Seq<char>,
    catalog: Seq<ModelEntry>,
    installed: Seq<String>,
)
    requires
        !is_vad(filename),
        !is_listed(installed, filename),
    ensures
        model_after_click(model, filename, catalog, installed) == model,
        ({
            let effects = click_effects(model, filename, catalog, installed);
            if exists|i: int| 0 <= i < catalog.len() && #[trigger] catalog[i].filename@ == filename {
                effects == seq![
                    EffectView::PostState(TrayState::Loading),
                    EffectView::DownloadModel(filename),
                ]
            } else {
                effects.len() == 0
            }
        }),
{
    an_entry_is_the_first_for_its_file(catalog, filename, 0);
}

/// A click on the voice activity detector loads and downloads nothing. A model
/// that is there and can transcribe stays, and any other gives way to the one
/// that stands in, if there is one; the preferences are saved just then.
pub proof fn a_click_on_the_detector_mends_the_model(
    model: Seq<char>,
    filename: Seq<char>,
    catalog: Seq<ModelEntry>,
    installed: Seq<String>,
)
    requires
        is_vad(filename),
    ensures
        ({
            let effects = click_effects(model, filename, catalog, installed);
            let after = model_after_click(model, filename, catalog, installed);
            if is_listed(installed, model) && !is_vad(model) {
                after == model && effects.len() == 0
            } else {
                match fallback_of(catalog, installed) {
                    Some(fallback) => after == fallback && effects == seq![
                        EffectView::SaveConfig,
                        EffectView::PostRefresh,
                    ],
                    None => after == model && effects.len() == 0,
                }
            }
        }),
{
}

/// A preference that a click changes is saved.
pub proof fn a_click_saves_what_it_changes(
    model: Seq<char>,
    filename: Seq<char>,
    catalog: Seq<ModelEntry>,
    installed: Seq<String>,
)
    requires
        model_after_click(model, filename, catalog, installed) != model,
    ensures
        ({
            let effects = click_effects(model, filename, catalog, installed);
            effects[0] == EffectView::SaveConfig || effects[0] == EffectView::SaveConfigOrStop
        }),
{
}

/// A download that failed is shown as an error and does nothing else. One that
/// succeeded has the menu rebuilt and then its model used, unless that is the
/// voice activity detector.
pub proof fn a_download_ends_in_use_or_error(filename: Seq<char>, succeeded: bool)
    ensures
        ({
            let effects = download_effects(filename, succeeded);
            if !succeeded {
                effects == seq![EffectView::PostState(TrayState::Error)]
            } else if is_vad(filename) {
                effects == seq![EffectView::PostRefresh]
            } else {
                effects == seq![
                    EffectView::PostRefresh,
                    EffectView::SaveConfig,
                    EffectView::LoadModel(filename),
                    EffectView::PostState(TrayState::Idle),
                ]
            }
        }),
{
}

/// What the icon shows after an update that went well or not.
pub open spec fn shown_after_update(went_well: bool) -> TrayState {
    if went_well {
        TrayState::Idle
    } else {
        TrayState::Error
    }
}

/// Only an update that failed is shown as an error.
pub proof fn a_failed_update_is_shown(went_well: bool)
    ensures
        shown_after_update(went_well) == TrayState::Error <==> !went_well,
        shown_after_update(went_well) == TrayState::Idle <==> went_well,
{
}

} // verus!
