//! The menu tree, section by section.
//!
//! A section holds the preference that it shows and looks its labels up in
//! the table of the interface language, so a change of language shows at the
//! next rebuild of the menu.
use vstd::prelude::*;
use vstd::string::*;

use crate::config::{EffortPreset, PromptPreset, SttMode, Theme, UiLanguage};
use crate::models::{is_english_only, is_listed, listed, size_rank, ModelEntry, ModelFamily};
use crate::text::{chars_of, ends_with, option_text, strip_prefix, text_eq, text_of};
use crate::tray::i18n::{strings, table, Strings};
use crate::tray::traits::{ActionView, MenuAction};

verus! {

/// Prefix of the identifiers of the microphone items.
pub const MIC_ITEM_PREFIX: &'static str = "mic:";

/// Prefix of the identifiers of the model items.
pub const MODEL_ITEM_PREFIX: &'static str = "model:";

/// Stable identifier of a menu item.
pub type ItemId = String;

// ---------------------------------------------------------------------------
// Items and sections
// ---------------------------------------------------------------------------

/// One item of a menu.
#[derive(Debug, PartialEq, Eq)]
pub struct MenuItemSpec {
    pub id: ItemId,
    pub label: String,
    pub enabled: bool,
}

/// The value of a [`MenuItemSpec`].
pub struct ItemView {
    pub id: Seq<char>,
    pub label: Seq<char>,
    pub enabled: bool,
}

impl View for MenuItemSpec {
    type V = ItemView;

    open spec fn view(&self) -> ItemView {
        ItemView { id: self.id@, label: self.label@, enabled: self.enabled }
    }
}

impl Clone for MenuItemSpec {
    fn clone(&self) -> (r: Self)
        ensures
            r == *self,
    {
        MenuItemSpec { id: self.id.clone(), label: self.label.clone(), enabled: self.enabled }
    }
}

/// One entry of the menu tree.
#[derive(Debug, PartialEq, Eq)]
pub enum Section {
    /// An item at the current level.
    Item(MenuItemSpec),
    /// A submenu with its title and items.
    Submenu { label: String, items: Vec<MenuItemSpec> },
    /// A dividing line.
    Separator,
}

/// The value of a [`Section`].
pub enum SectionView {
    Item(ItemView),
    Submenu { label: Seq<char>, items: Seq<ItemView> },
    Separator,
}

/// The values of a list of items.
pub open spec fn item_views(items: Seq<MenuItemSpec>) -> Seq<ItemView> {
    items.map_values(|i: MenuItemSpec| i@)
}

impl View for Section {
    type V = SectionView;

    open spec fn view(&self) -> SectionView {
        match self {
            Section::Item(item) => SectionView::Item(item@),
            Section::Submenu { label, items } => SectionView::Submenu {
                label: label@,
                items: item_views(items@),
            },
            Section::Separator => SectionView::Separator,
        }
    }
}

/// The values of a list of sections.
pub open spec fn section_views(sections: Seq<Section>) -> Seq<SectionView> {
    sections.map_values(|s: Section| s@)
}

/// A part of the menu.
pub trait MenuSection: Send + Sync + 'static {
    /// The name of the section.
    spec fn name(&self) -> Seq<char>;

    /// The entries of the section.
    spec fn menu(&self) -> Seq<SectionView>;

    /// The name of the section, for diagnostics.
    fn id(&self) -> (r: &'static str)
        ensures
            r@ == self.name(),
    ;

    /// Builds the entries of the section.
    fn build(&self) -> (r: Vec<Section>)
        ensures
            section_views(r@) == self.menu(),
    ;
}

// ---------------------------------------------------------------------------
// Building blocks
// ---------------------------------------------------------------------------

/// An item that can be chosen.
pub open spec fn choice(id: Seq<char>, label: Seq<char>) -> ItemView {
    ItemView { id, label, enabled: true }
}

/// An item that is only shown: it has no identifier.
pub open spec fn caption(label: Seq<char>) -> ItemView {
    ItemView { id: Seq::empty(), label, enabled: false }
}

/// The mark in front of a choice.
pub open spec fn check_mark(active: bool) -> Seq<char> {
    if active {
        "✓ "@
    } else {
        "  "@
    }
}

/// The mark in front of a choice: a tick where it is active, else blanks of
/// the same width.
pub fn check_or_blank(active: bool) -> (r: &'static str)
    ensures
        r@ == check_mark(active),
{
    if active {
        "✓ "
    } else {
        "  "
    }
}

/// A marked choice begins with the tick exactly where it is active, whatever
/// its label.
pub proof fn a_tick_shows_the_active_choice(active: bool, label: Seq<char>)
    ensures
        "✓ "@.is_prefix_of(check_mark(active) + label) <==> active,
{
    reveal_strlit("✓ ");
    reveal_strlit("  ");
    let full = check_mark(active) + label;
    assert(full[0] == check_mark(active)[0]);
    if active {
        assert(full.subrange(0, 2) =~= "✓ "@);
    } else {
        assert(full.subrange(0, 2)[0] == ' ');
        assert("✓ "@[0] == '✓');
    }
}

fn choice_item(id: &str, label: String) -> (r: MenuItemSpec)
    ensures
        r@ == choice(id@, label@),
{
    MenuItemSpec { id: id.to_owned(), label, enabled: true }
}

fn caption_item(label: String) -> (r: MenuItemSpec)
    ensures
        r@ == caption(label@),
{
    MenuItemSpec { id: String::new(), label, enabled: false }
}

fn marked(active: bool, label: &str) -> (r: String)
    ensures
        r@ == check_mark(active) + label@,
{
    let mut out = check_or_blank(active).to_owned();
    out.append(label);
    out
}

/// The identifier of the item of the model `filename`.
pub open spec fn model_item_id(filename: Seq<char>) -> Seq<char> {
    MODEL_ITEM_PREFIX@ + filename
}

/// The identifier of the item of the model `filename`.
pub fn item_id(filename: &str) -> (r: ItemId)
    ensures
        r@ == model_item_id(filename@),
{
    let mut out = MODEL_ITEM_PREFIX.to_owned();
    out.append(filename);
    out
}

/// A menu of exactly one submenu.
pub open spec fn one_submenu(label: Seq<char>, items: Seq<ItemView>) -> Seq<SectionView> {
    seq![SectionView::Submenu { label, items }]
}

/// A menu of exactly one item.
pub open spec fn one_item(item: ItemView) -> Seq<SectionView> {
    seq![SectionView::Item(item)]
}

fn submenu_section(label: &str, items: Vec<MenuItemSpec>) -> (r: Vec<Section>)
    ensures
        section_views(r@) == one_submenu(label@, item_views(items@)),
{
    let mut out: Vec<Section> = Vec::new();
    out.push(Section::Submenu { label: label.to_owned(), items });
    assert(section_views(out@) =~= one_submenu(label@, item_views(items@)));
    out
}

fn item_section(item: MenuItemSpec) -> (r: Vec<Section>)
    ensures
        section_views(r@) == one_item(item@),
{
    let mut out: Vec<Section> = Vec::new();
    out.push(Section::Item(item));
    assert(section_views(out@) =~= one_item(item@));
    out
}

fn three_items(a: MenuItemSpec, b: MenuItemSpec, c: MenuItemSpec) -> (r: Vec<MenuItemSpec>)
    ensures
        item_views(r@) == seq![a@, b@, c@],
{
    let mut items: Vec<MenuItemSpec> = Vec::new();
    items.push(a);
    items.push(b);
    items.push(c);
    assert(item_views(items@) =~= seq![a@, b@, c@]);
    items
}

// ---------------------------------------------------------------------------
// Notice: English-only model with another language
// ---------------------------------------------------------------------------

/// Offers the multilingual counterpart of the active model; empty where there
/// is nothing to suggest.
#[derive(Debug)]
pub struct ModelLangMismatchSection {
    pub ui_language: UiLanguage,
    pub suggested_filename: Option<String>,
}

/// What the notice shows for a suggestion.
pub open spec fn mismatch_menu(lang: UiLanguage, suggested: Option<Seq<char>>) -> Seq<SectionView> {
    match suggested {
        Some(filename) => one_item(
            choice(
                "fix_model_lang"@,
                table(lang).model_lang_mismatch_action@ + " ("@ + filename + ")"@,
            ),
        ),
        None => Seq::empty(),
    }
}

impl MenuSection for ModelLangMismatchSection {
    open spec fn name(&self) -> Seq<char> {
        "model_lang_mismatch"@
    }

    open spec fn menu(&self) -> Seq<SectionView> {
        mismatch_menu(self.ui_language, option_text(self.suggested_filename))
    }

    fn id(&self) -> (r: &'static str) {
        "model_lang_mismatch"
    }

    fn build(&self) -> (r: Vec<Section>) {
        match &self.suggested_filename {
            None => {
                let out: Vec<Section> = Vec::new();
                assert(section_views(out@) =~= Seq::empty());
                out
            },
            Some(suggested) => {
                let s = strings(self.ui_language);
                let mut label = s.model_lang_mismatch_action.to_owned();
                label.append(" (");
                label.append(suggested.as_str());
                label.append(")");
                item_section(choice_item("fix_model_lang", label))
            },
        }
    }
}

// ---------------------------------------------------------------------------
// Hotkey
// ---------------------------------------------------------------------------

/// The item that changes the hotkey.
#[derive(Debug)]
pub struct HotkeySection {
    pub ui_language: UiLanguage,
}

pub open spec fn hotkey_menu(lang: UiLanguage) -> Seq<SectionView> {
    one_item(choice("change_hotkey"@, table(lang).change_hotkey@))
}

impl MenuSection for HotkeySection {
    open spec fn name(&self) -> Seq<char> {
        "hotkey"@
    }

    open spec fn menu(&self) -> Seq<SectionView> {
        hotkey_menu(self.ui_language)
    }

    fn id(&self) -> (r: &'static str) {
        "hotkey"
    }

    fn build(&self) -> (r: Vec<Section>) {
        let s = strings(self.ui_language);
        item_section(choice_item("change_hotkey", s.change_hotkey.to_owned()))
    }
}

// ---------------------------------------------------------------------------
// Theme, mode, effort, interface language
// ---------------------------------------------------------------------------

/// The three themes.
#[derive(Debug)]
pub struct ThemeSection {
    pub ui_language: UiLanguage,
    pub current: Theme,
}

pub open spec fn theme_menu(lang: UiLanguage, current: Theme) -> Seq<SectionView> {
    let t = table(lang);
    one_submenu(
        t.theme@,
        seq![
            choice("theme_dark"@, check_mark(current == Theme::Dark) + t.theme_dark@),
            choice("theme_light"@, check_mark(current == Theme::Light) + t.theme_light@),
            choice("theme_system"@, check_mark(current == Theme::System) + t.theme_system@),
        ],
    )
}

impl MenuSection for ThemeSection {
    open spec fn name(&self) -> Seq<char> {
        "theme"@
    }

    open spec fn menu(&self) -> Seq<SectionView> {
        theme_menu(self.ui_language, self.current)
    }

    fn id(&self) -> (r: &'static str) {
        "theme"
    }

    fn build(&self) -> (r: Vec<Section>) {
        let s = strings(self.ui_language);
        let items = three_items(
            choice_item("theme_dark", marked(self.current == Theme::Dark, s.theme_dark)),
            choice_item("theme_light", marked(self.current == Theme::Light, s.theme_light)),
            choice_item("theme_system", marked(self.current == Theme::System, s.theme_system)),
        );
        submenu_section(s.theme, items)
    }
}

/// The three dictation modes.
#[derive(Debug)]
pub struct ModeSection {
    pub ui_language: UiLanguage,
    pub current: SttMode,
}

pub open spec fn mode_menu(lang: UiLanguage, current: SttMode) -> Seq<SectionView> {
    let t = table(lang);
    one_submenu(
        t.mode@,
        seq![
            choice("mode_batch"@, check_mark(current == SttMode::Batch) + t.mode_batch@),
            choice(
                "mode_streaming"@,
                check_mark(current == SttMode::Streaming) + t.mode_streaming@,
            ),
            choice("mode_chunked"@, check_mark(current == SttMode::Chunked) + t.mode_chunked@),
        ],
    )
}

impl MenuSection for ModeSection {
    open spec fn name(&self) -> Seq<char> {
        "mode"@
    }

    open spec fn menu(&self) -> Seq<SectionView> {
        mode_menu(self.ui_language, self.current)
    }

    fn id(&self) -> (r: &'static str) {
        "mode"
    }

    fn build(&self) -> (r: Vec<Section>) {
        let s = strings(self.ui_language);
        let items = three_items(
            choice_item("mode_batch", marked(self.current == SttMode::Batch, s.mode_batch)),
            choice_item(
                "mode_streaming",
                marked(self.current == SttMode::Streaming, s.mode_streaming),
            ),
            choice_item("mode_chunked", marked(self.current == SttMode::Chunked, s.mode_chunked)),
        );
        submenu_section(s.mode, items)
    }
}

/// The three decoding efforts.
#[derive(Debug)]
pub struct EffortSection {
    pub ui_language: UiLanguage,
    pub current: EffortPreset,
}

pub open spec fn effort_menu(lang: UiLanguage, current: EffortPreset) -> Seq<SectionView> {
    let t = table(lang);
    one_submenu(
        t.effort@,
        seq![
            choice(
                "effort_balanced"@,
                check_mark(current == EffortPreset::Balanced) + t.effort_balanced@,
            ),
            choice(
                "effort_robust"@,
                check_mark(current == EffortPreset::Robust) + t.effort_robust@,
            ),
            choice(
                "effort_high_quality"@,
                check_mark(current == EffortPreset::HighQuality) + t.effort_high_quality@,
            ),
        ],
    )
}

impl MenuSection for EffortSection {
    open spec fn name(&self) -> Seq<char> {
        "effort"@
    }

    open spec fn menu(&self) -> Seq<SectionView> {
        effort_menu(self.ui_language, self.current)
    }

    fn id(&self) -> (r: &'static str) {
        "effort"
    }

    fn build(&self) -> (r: Vec<Section>) {
        let s = strings(self.ui_language);
        let items = three_items(
            choice_item(
                "effort_balanced",
                marked(self.current == EffortPreset::Balanced, s.effort_balanced),
            ),
            choice_item(
                "effort_robust",
                marked(self.current == EffortPreset::Robust, s.effort_robust),
            ),
            choice_item(
                "effort_high_quality",
                marked(self.current == EffortPreset::HighQuality, s.effort_high_quality),
            ),
        );
        submenu_section(s.effort, items)
    }
}

/// The three interface languages.
#[derive(Debug)]
pub struct UiLanguageSection {
    pub current: UiLanguage,
}

pub open spec fn ui_language_menu(current: UiLanguage) -> Seq<SectionView> {
    let t = table(current);
    one_submenu(
        t.ui_language@,
        seq![
            choice("ui_es"@, check_mark(current == UiLanguage::Es) + t.ui_es@),
            choice("ui_en"@, check_mark(current == UiLanguage::En) + t.ui_en@),
            choice("ui_bil"@, check_mark(current == UiLanguage::Bilingual) + t.ui_bilingual@),
        ],
    )
}

impl MenuSection for UiLanguageSection {
    open spec fn name(&self) -> Seq<char> {
        "ui_language"@
    }

    open spec fn menu(&self) -> Seq<SectionView> {
        ui_language_menu(self.current)
    }

    fn id(&self) -> (r: &'static str) {
        "ui_language"
    }

    fn build(&self) -> (r: Vec<Section>) {
        let s = strings(self.current);
        let items = three_items(
            choice_item("ui_es", marked(self.current == UiLanguage::Es, s.ui_es)),
            choice_item("ui_en", marked(self.current == UiLanguage::En, s.ui_en)),
            choice_item("ui_bil", marked(self.current == UiLanguage::Bilingual, s.ui_bilingual)),
        );
        submenu_section(s.ui_language, items)
    }
}

// ---------------------------------------------------------------------------
// System prompt
// ---------------------------------------------------------------------------

/// The prompt presets and the editor of the custom prompt.
#[derive(Debug)]
pub struct PromptSection {
    pub ui_language: UiLanguage,
    pub current: PromptPreset,
    /// The custom prompt; empty where none is set.
    pub custom_text: String,
}

/// Longest preview of the custom prompt, in characters.
pub const PREVIEW_CHARS: usize = 40;

/// The first characters of the custom prompt, with an ellipsis where more
/// follow.
pub open spec fn prompt_preview(text: Seq<char>) -> Seq<char> {
    if text.len() > PREVIEW_CHARS {
        text.take(PREVIEW_CHARS as int) + "…"@
    } else {
        text
    }
}

/// The label of the custom preset: a hint where no text is set, else a
/// preview of the text in quotes.
pub open spec fn custom_prompt_label(
    lang: UiLanguage,
    current: PromptPreset,
    text: Seq<char>,
) -> Seq<char> {
    let t = table(lang);
    let head = check_mark(current == PromptPreset::Custom) + t.prompt_custom@;
    if text.len() == 0 {
        head + "  "@ + t.prompt_custom_hint@
    } else {
        head + "  \""@ + prompt_preview(text) + "\""@
    }
}

pub open spec fn prompt_menu(lang: UiLanguage, current: PromptPreset, text: Seq<char>) -> Seq<
    SectionView,
> {
    let t = table(lang);
    one_submenu(
        t.system_prompt@,
        seq![
            choice(
                "prompt_bilingual"@,
                check_mark(current == PromptPreset::BilingualEsEn) + t.prompt_bilingual@,
            ),
            choice("prompt_es"@, check_mark(current == PromptPreset::SpanishOnly) + t.prompt_es@),
            choice("prompt_en"@, check_mark(current == PromptPreset::EnglishOnly) + t.prompt_en@),
            choice("prompt_custom"@, custom_prompt_label(lang, current, text)),
            choice("prompt_edit"@, t.prompt_edit@),
        ],
    )
}

impl PromptSection {
    fn custom_label(&self, s: &Strings) -> (r: String)
        requires
            *s == table(self.ui_language),
        ensures
            r@ == custom_prompt_label(self.ui_language, self.current, self.custom_text@),
    {
        let mut label = marked(self.current == PromptPreset::Custom, s.prompt_custom);
        let v = chars_of(self.custom_text.as_str());
        if v.len() == 0 {
            label.append("  ");
            label.append(s.prompt_custom_hint);
        } else {
            label.append("  \"");
            if v.len() > PREVIEW_CHARS {
                let preview = text_of(&v, 0, PREVIEW_CHARS);
                label.append(preview.as_str());
                label.append("…");
                label.append("\"");
                proof {
                    let head = check_mark(self.current == PromptPreset::Custom) + s.prompt_custom@;
                    assert(v@.subrange(0, PREVIEW_CHARS as int) =~= v@.take(PREVIEW_CHARS as int));
                    assert(label@ =~= head + "  \""@ + prompt_preview(self.custom_text@) + "\""@);
                }
            } else {
                label.append(self.custom_text.as_str());
                label.append("\"");
            }
        }
        label
    }
}

impl MenuSection for PromptSection {
    open spec fn name(&self) -> Seq<char> {
        "prompt"@
    }

    open spec fn menu(&self) -> Seq<SectionView> {
        prompt_menu(self.ui_language, self.current, self.custom_text@)
    }

    fn id(&self) -> (r: &'static str) {
        "prompt"
    }

    fn build(&self) -> (r: Vec<Section>) {
        let s = strings(self.ui_language);
        let mut items = three_items(
            choice_item(
                "prompt_bilingual",
                marked(self.current == PromptPreset::BilingualEsEn, s.prompt_bilingual),
            ),
            choice_item(
                "prompt_es",
                marked(self.current == PromptPreset::SpanishOnly, s.prompt_es),
            ),
            choice_item(
                "prompt_en",
                marked(self.current == PromptPreset::EnglishOnly, s.prompt_en),
            ),
        );
        let ghost three = item_views(items@);
        let custom = choice_item("prompt_custom", self.custom_label(&s));
        let edit = choice_item("prompt_edit", s.prompt_edit.to_owned());
        items.push(custom);
        items.push(edit);
        assert(item_views(items@) =~= three.push(custom@).push(edit@));
        assert(self.menu()[0]->Submenu_items =~= three.push(custom@).push(edit@));
        submenu_section(s.system_prompt, items)
    }
}

// ---------------------------------------------------------------------------
// Microphone
// ---------------------------------------------------------------------------

/// An input device.
#[derive(Debug, PartialEq, Eq)]
pub struct MicDevice {
    pub name: String,
    pub is_default: bool,
}

impl Clone for MicDevice {
    fn clone(&self) -> (r: Self)
        ensures
            r == *self,
    {
        MicDevice { name: self.name.clone(), is_default: self.is_default }
    }
}

/// The input devices, the automatic choice and the measurement.
#[derive(Debug)]
pub struct MicrophoneSection {
    pub devices: Vec<MicDevice>,
    /// The name of the chosen device; `None` for the automatic choice.
    pub active: Option<String>,
    pub ui_language: UiLanguage,
}

/// The mark behind the automatic choice where it is active.
pub open spec fn auto_active_mark(lang: UiLanguage) -> Seq<char> {
    match lang {
        UiLanguage::En => "  ← active"@,
        _ => "  ← activo"@,
    }
}

fn mic_active_short(ui_language: UiLanguage) -> (r: &'static str)
    ensures
        r@ == auto_active_mark(ui_language),
{
    match ui_language {
        UiLanguage::En => "  ← active",
        _ => "  ← activo",
    }
}

/// `text` where `present`, else nothing.
pub open spec fn text_if(present: bool, text: Seq<char>) -> Seq<char> {
    if present {
        text
    } else {
        Seq::empty()
    }
}

/// The automatic choice.
pub open spec fn mic_auto_item(active: Option<Seq<char>>, lang: UiLanguage) -> ItemView {
    choice(
        "mic_auto"@,
        check_mark(active is None) + table(lang).mic_auto@ + text_if(
            active is None,
            auto_active_mark(lang),
        ),
    )
}

/// The identifier of the item of the device `name`.
pub open spec fn mic_item_id(name: Seq<char>) -> Seq<char> {
    MIC_ITEM_PREFIX@ + name
}

/// The item of one device.
pub open spec fn mic_device_item(
    device: MicDevice,
    active: Option<Seq<char>>,
    lang: UiLanguage,
) -> ItemView {
    let chosen = active == Some(device.name@);
    choice(
        mic_item_id(device.name@),
        check_mark(chosen) + device.name@ + text_if(device.is_default, "  (default)"@) + text_if(
            chosen,
            table(lang).mic_active@,
        ),
    )
}

/// The devices, or a caption where there are none.
pub open spec fn mic_device_items(
    devices: Seq<MicDevice>,
    active: Option<Seq<char>>,
    lang: UiLanguage,
) -> Seq<ItemView> {
    if devices.len() == 0 {
        seq![caption("  "@ + table(lang).mic_none@)]
    } else {
        devices.map_values(|d: MicDevice| mic_device_item(d, active, lang))
    }
}

pub open spec fn microphone_menu(
    devices: Seq<MicDevice>,
    active: Option<Seq<char>>,
    lang: UiLanguage,
) -> Seq<SectionView> {
    one_submenu(
        table(lang).microphone@,
        seq![mic_auto_item(active, lang)] + mic_device_items(devices, active, lang) + seq![
            caption("─────────────────"@),
            choice("mic_reprobe"@, table(lang).mic_reprobe@),
        ],
    )
}

impl MicrophoneSection {
    pub fn new(devices: Vec<MicDevice>, active: Option<String>, ui_language: UiLanguage) -> (r: Self)
        ensures
            r.devices == devices,
            r.active == active,
            r.ui_language == ui_language,
    {
        MicrophoneSection { devices, active, ui_language }
    }

    fn auto_item(&self, s: &Strings) -> (r: MenuItemSpec)
        requires
            *s == table(self.ui_language),
        ensures
            r@ == mic_auto_item(option_text(self.active), self.ui_language),
    {
        let automatic = self.active.is_none();
        let mut label = marked(automatic, s.mic_auto);
        if automatic {
            label.append(mic_active_short(self.ui_language));
        } else {
            assert(label@ + Seq::<char>::empty() =~= label@);
        }
        choice_item("mic_auto", label)
    }

    fn device_item(&self, s: &Strings, device: &MicDevice) -> (r: MenuItemSpec)
        requires
            *s == table(self.ui_language),
        ensures
            r@ == mic_device_item(*device, option_text(self.active), self.ui_language),
    {
        let chosen = match &self.active {
            Some(name) => text_eq(name.as_str(), device.name.as_str()),
            None => false,
        };
        let mut label = marked(chosen, device.name.as_str());
        if device.is_default {
            label.append("  (default)");
        }
        if chosen {
            label.append(s.mic_active);
        }
        let mut id = MIC_ITEM_PREFIX.to_owned();
        id.append(device.name.as_str());
        assert(label@ =~= mic_device_item(
            *device,
            option_text(self.active),
            self.ui_language,
        ).label);
        MenuItemSpec { id, label, enabled: true }
    }
}

impl MenuSection for MicrophoneSection {
    open spec fn name(&self) -> Seq<char> {
        "microphone"@
    }

    open spec fn menu(&self) -> Seq<SectionView> {
        microphone_menu(self.devices@, option_text(self.active), self.ui_language)
    }

    fn id(&self) -> (r: &'static str) {
        "microphone"
    }

    fn build(&self) -> (r: Vec<Section>) {
        let s = strings(self.ui_language);
        let mut items: Vec<MenuItemSpec> = Vec::new();
        let auto = self.auto_item(&s);
        items.push(auto);
        let ghost active = option_text(self.active);
        let ghost per_device = |d: MicDevice| mic_device_item(d, active, self.ui_language);
        if self.devices.len() == 0 {
            let mut label = "  ".to_owned();
            label.append(s.mic_none);
            items.push(caption_item(label));
            assert(item_views(items@) =~= seq![auto@] + mic_device_items(
                self.devices@,
                active,
                self.ui_language,
            ));
        } else {
            let mut i: usize = 0;
            while i < self.devices.len()
                invariant
                    i <= self.devices@.len(),
                    s == table(self.ui_language),
                    active == option_text(self.active),
                    per_device == (|d: MicDevice| mic_device_item(d, active, self.ui_language)),
                    item_views(items@) == seq![auto@] + self.devices@.take(i as int).map_values(
                        per_device,
                    ),
                decreases self.devices@.len() - i,
            {
                let item = self.device_item(&s, &self.devices[i]);
                let ghost before = items@;
                items.push(item);
                assert(item_views(items@) =~= item_views(before).push(item@));
                assert(self.devices@.take(i + 1).map_values(per_device) =~= self.devices@.take(
                    i as int,
                ).map_values(per_device).push(item@));
                i += 1;
            }
            assert(self.devices@.take(i as int) =~= self.devices@);
            assert(item_views(items@) =~= seq![auto@] + mic_device_items(
                self.devices@,
                active,
                self.ui_language,
            ));
        }
        let ghost head = item_views(items@);
        let rule = caption_item("─────────────────".to_owned());
        let probe = choice_item("mic_reprobe", s.mic_reprobe.to_owned());
        items.push(rule);
        items.push(probe);
        assert(item_views(items@) =~= head + seq![rule@, probe@]);
        submenu_section(s.microphone, items)
    }
}

// ---------------------------------------------------------------------------
// Models
// ---------------------------------------------------------------------------

/// The catalogue of models, by family, with what is installed and active.
#[derive(Debug)]
pub struct ModelsSection {
    pub catalog: Vec<ModelEntry>,
    /// The file names found in the models folder.
    pub installed: Vec<String>,
    pub active_model: String,
    pub ui_language: UiLanguage,
}

/// The item of one model: its state, name, size, a warning where it is
/// English-only and a mark where it is active.
pub open spec fn model_item(
    entry: ModelEntry,
    installed: bool,
    active: bool,
    lang: UiLanguage,
) -> ItemView {
    let t = table(lang);
    let state = if installed {
        t.model_installed@
    } else {
        t.model_download@
    };
    choice(
        model_item_id(entry.filename@),
        state + entry.filename@ + " ("@ + entry.size_label@ + ")"@ + text_if(
            is_english_only(entry.filename@),
            t.model_en_only@,
        ) + text_if(active, t.model_active@),
    )
}

/// The title of a family.
pub open spec fn family_title(family: ModelFamily, lang: UiLanguage) -> Seq<char> {
    let t = table(lang);
    match family {
        ModelFamily::Tiny => t.model_tiny@,
        ModelFamily::Base => t.model_base@,
        ModelFamily::Small => t.model_small@,
        ModelFamily::Medium => t.model_medium@,
        ModelFamily::Large => t.model_large@,
        ModelFamily::Vad => t.model_vad@,
    }
}

/// One family: its caption, then its models in catalogue order.
pub open spec fn family_items(
    catalog: Seq<ModelEntry>,
    installed: Seq<String>,
    active_model: Seq<char>,
    lang: UiLanguage,
    family: ModelFamily,
) -> Seq<ItemView> {
    seq![caption("── "@ + family_title(family, lang) + " ──"@)] + catalog.filter(
        |e: ModelEntry| e.family == family,
    ).map_values(
        |e: ModelEntry|
            model_item(e, is_listed(installed, e.filename@), e.filename@ == active_model, lang),
    )
}

/// All families, from the smallest models to the voice activity detector.
pub open spec fn all_family_items(
    catalog: Seq<ModelEntry>,
    installed: Seq<String>,
    active_model: Seq<char>,
    lang: UiLanguage,
) -> Seq<ItemView> {
    family_items(catalog, installed, active_model, lang, ModelFamily::Tiny) + family_items(
        catalog,
        installed,
        active_model,
        lang,
        ModelFamily::Base,
    ) + family_items(catalog, installed, active_model, lang, ModelFamily::Small) + family_items(
        catalog,
        installed,
        active_model,
        lang,
        ModelFamily::Medium,
    ) + family_items(catalog, installed, active_model, lang, ModelFamily::Large) + family_items(
        catalog,
        installed,
        active_model,
        lang,
        ModelFamily::Vad,
    )
}

pub open spec fn models_menu(
    catalog: Seq<ModelEntry>,
    installed: Seq<String>,
    active_model: Seq<char>,
    lang: UiLanguage,
) -> Seq<SectionView> {
    let t = table(lang);
    seq![
        SectionView::Submenu {
            label: t.models@,
            items: all_family_items(catalog, installed, active_model, lang),
        },
        SectionView::Item(choice("open_models_dir"@, t.open_models_dir@)),
        SectionView::Item(choice("check_updates"@, t.check_updates@)),
    ]
}

impl ModelsSection {
    pub fn new(
        catalog: Vec<ModelEntry>,
        installed: Vec<String>,
        active_model: String,
        ui_language: UiLanguage,
    ) -> (r: Self)
        ensures
            r.catalog == catalog,
            r.installed == installed,
            r.active_model == active_model,
            r.ui_language == ui_language,
    {
        ModelsSection { catalog, installed, active_model, ui_language }
    }

    /// The item of one model.
    pub fn render_item(&self, s: &Strings, entry: &ModelEntry, installed: bool, active: bool) -> (r:
        MenuItemSpec)
        requires
            *s == table(self.ui_language),
        ensures
            r@ == model_item(*entry, installed, active, self.ui_language),
    {
        let mut label = (if installed {
            s.model_installed
        } else {
            s.model_download
        }).to_owned();
        label.append(entry.filename.as_str());
        label.append(" (");
        label.append(entry.size_label.as_str());
        label.append(")");
        if ends_with(entry.filename.as_str(), ".en.bin") {
            label.append(s.model_en_only);
        }
        if active {
            label.append(s.model_active);
        }
        assert(label@ =~= model_item(*entry, installed, active, self.ui_language).label);
        MenuItemSpec { id: item_id(entry.filename.as_str()), label, enabled: true }
    }

    fn push_family(
        &self,
        s: &Strings,
        items: &mut Vec<MenuItemSpec>,
        family: ModelFamily,
        title: &str,
    )
        requires
            *s == table(self.ui_language),
            title@ == family_title(family, self.ui_language),
        ensures
            item_views(final(items)@) == item_views(old(items)@) + family_items(
                self.catalog@,
                self.installed@,
                self.active_model@,
                self.ui_language,
                family,
            ),
    {
        let ghost start = item_views(items@);
        let ghost of_family = |e: ModelEntry| e.family == family;
        let ghost render = |e: ModelEntry|
            model_item(
                e,
                is_listed(self.installed@, e.filename@),
                e.filename@ == self.active_model@,
                self.ui_language,
            );
        let mut label = "── ".to_owned();
        label.append(title);
        label.append(" ──");
        let head = caption_item(label);
        items.push(head);
        assert(item_views(items@) =~= start.push(head@));
        assert(self.catalog@.take(0).filter(of_family) =~= Seq::empty()) by {
            reveal(Seq::filter);
        }
        let mut i: usize = 0;
        while i < self.catalog.len()
            invariant
                i <= self.catalog@.len(),
                *s == table(self.ui_language),
                of_family == (|e: ModelEntry| e.family == family),
                render == (|e: ModelEntry|
                    model_item(
                        e,
                        is_listed(self.installed@, e.filename@),
                        e.filename@ == self.active_model@,
                        self.ui_language,
                    )),
                item_views(items@) == start.push(head@) + self.catalog@.take(i as int).filter(
                    of_family,
                ).map_values(render),
            decreases self.catalog@.len() - i,
        {
            let entry = &self.catalog[i];
            let ghost prefix = self.catalog@.take(i as int);
            proof {
                let longer = self.catalog@.take(i + 1);
                assert(longer.drop_last() =~= prefix);
                reveal(Seq::filter);
                assert(longer.filter(of_family) == if of_family(*entry) {
                    prefix.filter(of_family).push(*entry)
                } else {
                    prefix.filter(of_family)
                });
            }
            if entry.family == family {
                let installed = listed(&self.installed, entry.filename.as_str());
                let active = text_eq(entry.filename.as_str(), self.active_model.as_str());
                let item = self.render_item(s, entry, installed, active);
                let ghost before = items@;
                items.push(item);
                assert(item_views(items@) =~= item_views(before).push(item@));
                assert(prefix.filter(of_family).push(*entry).map_values(render) =~= prefix.filter(
                    of_family,
                ).map_values(render).push(item@));
            }
            i += 1;
        }
        assert(self.catalog@.take(i as int) =~= self.catalog@);
        assert(item_views(items@) =~= start + family_items(
            self.catalog@,
            self.installed@,
            self.active_model@,
            self.ui_language,
            family,
        ));
    }
}

impl MenuSection for ModelsSection {
    open spec fn name(&self) -> Seq<char> {
        "models"@
    }

    open spec fn menu(&self) -> Seq<SectionView> {
        models_menu(self.catalog@, self.installed@, self.active_model@, self.ui_language)
    }

    fn id(&self) -> (r: &'static str) {
        "models"
    }

    fn build(&self) -> (r: Vec<Section>) {
        let s = strings(self.ui_language);
        let mut items: Vec<MenuItemSpec> = Vec::new();
        assert(item_views(items@) =~= Seq::empty());
        self.push_family(&s, &mut items, ModelFamily::Tiny, s.model_tiny);
        self.push_family(&s, &mut items, ModelFamily::Base, s.model_base);
        self.push_family(&s, &mut items, ModelFamily::Small, s.model_small);
        self.push_family(&s, &mut items, ModelFamily::Medium, s.model_medium);
        self.push_family(&s, &mut items, ModelFamily::Large, s.model_large);
        self.push_family(&s, &mut items, ModelFamily::Vad, s.model_vad);
        assert(item_views(items@) =~= all_family_items(
            self.catalog@,
            self.installed@,
            self.active_model@,
            self.ui_language,
        ));
        let mut out = submenu_section(s.models, items);
        let ghost first = section_views(out@);
        let open = Section::Item(choice_item("open_models_dir", s.open_models_dir.to_owned()));
        let check = Section::Item(choice_item("check_updates", s.check_updates.to_owned()));
        out.push(open);
        out.push(check);
        assert(section_views(out@) =~= first.push(open@).push(check@));
        assert(self.menu() =~= first.push(open@).push(check@));
        out
    }
}

// ---------------------------------------------------------------------------
// Exit
// ---------------------------------------------------------------------------

/// The item that ends the program.
#[derive(Debug)]
pub struct ExitSection {
    pub ui_language: UiLanguage,
}

pub open spec fn exit_menu(lang: UiLanguage) -> Seq<SectionView> {
    one_item(choice("exit"@, table(lang).exit@))
}

impl MenuSection for ExitSection {
    open spec fn name(&self) -> Seq<char> {
        "exit"@
    }

    open spec fn menu(&self) -> Seq<SectionView> {
        exit_menu(self.ui_language)
    }

    fn id(&self) -> (r: &'static str) {
        "exit"
    }

    fn build(&self) -> (r: Vec<Section>) {
        let s = strings(self.ui_language);
        item_section(choice_item("exit", s.exit.to_owned()))
    }
}

// ---------------------------------------------------------------------------
// The whole menu
// ---------------------------------------------------------------------------

/// Any of the sections.
#[derive(Debug)]
pub enum MenuPart {
    Mismatch(ModelLangMismatchSection),
    Hotkey(HotkeySection),
    Theme(ThemeSection),
    Mode(ModeSection),
    Effort(EffortSection),
    UiLanguage(UiLanguageSection),
    Prompt(PromptSection),
    Microphone(MicrophoneSection),
    Models(ModelsSection),
    Exit(ExitSection),
}

impl MenuSection for MenuPart {
    open spec fn name(&self) -> Seq<char> {
        match self {
            MenuPart::Mismatch(s) => s.name(),
            MenuPart::Hotkey(s) => s.name(),
            MenuPart::Theme(s) => s.name(),
            MenuPart::Mode(s) => s.name(),
            MenuPart::Effort(s) => s.name(),
            MenuPart::UiLanguage(s) => s.name(),
            MenuPart::Prompt(s) => s.name(),
            MenuPart::Microphone(s) => s.name(),
            MenuPart::Models(s) => s.name(),
            MenuPart::Exit(s) => s.name(),
        }
    }

    open spec fn menu(&self) -> Seq<SectionView> {
        match self {
            MenuPart::Mismatch(s) => s.menu(),
            MenuPart::Hotkey(s) => s.menu(),
            MenuPart::Theme(s) => s.menu(),
            MenuPart::Mode(s) => s.menu(),
            MenuPart::Effort(s) => s.menu(),
            MenuPart::UiLanguage(s) => s.menu(),
            MenuPart::Prompt(s) => s.menu(),
            MenuPart::Microphone(s) => s.menu(),
            MenuPart::Models(s) => s.menu(),
            MenuPart::Exit(s) => s.menu(),
        }
    }

    fn id(&self) -> (r: &'static str) {
        match self {
            MenuPart::Mismatch(s) => s.id(),
            MenuPart::Hotkey(s) => s.id(),
            MenuPart::Theme(s) => s.id(),
            MenuPart::Mode(s) => s.id(),
            MenuPart::Effort(s) => s.id(),
            MenuPart::UiLanguage(s) => s.id(),
            MenuPart::Prompt(s) => s.id(),
            MenuPart::Microphone(s) => s.id(),
            MenuPart::Models(s) => s.id(),
            MenuPart::Exit(s) => s.id(),
        }
    }

    fn build(&self) -> (r: Vec<Section>) {
        match self {
            MenuPart::Mismatch(s) => s.build(),
            MenuPart::Hotkey(s) => s.build(),
            MenuPart::Theme(s) => s.build(),
            MenuPart::Mode(s) => s.build(),
            MenuPart::Effort(s) => s.build(),
            MenuPart::UiLanguage(s) => s.build(),
            MenuPart::Prompt(s) => s.build(),
            MenuPart::Microphone(s) => s.build(),
            MenuPart::Models(s) => s.build(),
            MenuPart::Exit(s) => s.build(),
        }
    }
}

/// What the menu reflects.
#[derive(Debug)]
pub struct BuildContext {
    pub catalog: Vec<ModelEntry>,
    /// The file names found in the models folder.
    pub installed: Vec<String>,
    pub active_model: String,
    pub ui_language: UiLanguage,
    pub theme: Theme,
    pub stt_mode: SttMode,
    pub prompt_preset: PromptPreset,
    pub prompt_custom_text: String,
    pub effort: EffortPreset,
    /// The model to suggest where an English-only model is active with
    /// another language.
    pub model_lang_mismatch: Option<String>,
    pub input_devices: Vec<MicDevice>,
    /// The chosen input device; `None` for the automatic choice.
    pub input_device: Option<String>,
}

impl BuildContext {
    /// What the menu shows before the configuration is known.
    pub fn initial(catalog: Vec<ModelEntry>, installed: Vec<String>, active_model: String) -> (r:
        Self)
        ensures
            r.catalog == catalog,
            r.installed == installed,
            r.active_model == active_model,
            r.ui_language == UiLanguage::Es,
            r.theme == Theme::System,
            r.stt_mode == SttMode::Batch,
            r.prompt_preset == PromptPreset::BilingualEsEn,
            r.prompt_custom_text@.len() == 0,
            r.effort == EffortPreset::Balanced,
            r.model_lang_mismatch is None,
            r.input_devices@.len() == 0,
            r.input_device is None,
    {
        BuildContext {
            catalog,
            installed,
            active_model,
            ui_language: UiLanguage::Es,
            theme: Theme::System,
            stt_mode: SttMode::Batch,
            prompt_preset: PromptPreset::BilingualEsEn,
            prompt_custom_text: String::new(),
            effort: EffortPreset::Balanced,
            model_lang_mismatch: None,
            input_devices: Vec::new(),
            input_device: None,
        }
    }
}

/// The names of the sections, from top to bottom.
pub open spec fn part_names(parts: Seq<MenuPart>) -> Seq<Seq<char>> {
    parts.map_values(|p: MenuPart| p.name())
}

/// The entries of the sections, from top to bottom.
pub open spec fn part_menus(parts: Seq<MenuPart>) -> Seq<Seq<SectionView>> {
    parts.map_values(|p: MenuPart| p.menu())
}

/// The sections that are always there.
pub open spec fn base_names() -> Seq<Seq<char>> {
    seq![
        "hotkey"@,
        "theme"@,
        "mode"@,
        "effort"@,
        "ui_language"@,
        "prompt"@,
        "microphone"@,
        "models"@,
        "exit"@,
    ]
}

/// What the sections that are always there show.
pub open spec fn base_menus(ctx: BuildContext) -> Seq<Seq<SectionView>> {
    seq![
        hotkey_menu(ctx.ui_language),
        theme_menu(ctx.ui_language, ctx.theme),
        mode_menu(ctx.ui_language, ctx.stt_mode),
        effort_menu(ctx.ui_language, ctx.effort),
        ui_language_menu(ctx.ui_language),
        prompt_menu(ctx.ui_language, ctx.prompt_preset, ctx.prompt_custom_text@),
        microphone_menu(ctx.input_devices@, option_text(ctx.input_device), ctx.ui_language),
        models_menu(ctx.catalog@, ctx.installed@, ctx.active_model@, ctx.ui_language),
        exit_menu(ctx.ui_language),
    ]
}

/// All sections: the notice first where there is one, then the rest.
pub open spec fn default_names(ctx: BuildContext) -> Seq<Seq<char>> {
    if ctx.model_lang_mismatch is Some {
        seq!["model_lang_mismatch"@] + base_names()
    } else {
        base_names()
    }
}

/// What all sections show.
pub open spec fn default_menus(ctx: BuildContext) -> Seq<Seq<SectionView>> {
    if ctx.model_lang_mismatch is Some {
        seq![mismatch_menu(ctx.ui_language, option_text(ctx.model_lang_mismatch))] + base_menus(ctx)
    } else {
        base_menus(ctx)
    }
}

fn clone_devices(devices: &Vec<MicDevice>) -> (r: Vec<MicDevice>)
    ensures
        r@ == devices@,
{
    let r = devices.clone();
    assert(r@ =~= devices@);
    r
}

fn clone_catalog(catalog: &Vec<ModelEntry>) -> (r: Vec<ModelEntry>)
    ensures
        r@ == catalog@,
{
    let r = catalog.clone();
    assert(r@ =~= catalog@);
    r
}

fn clone_names(names: &Vec<String>) -> (r: Vec<String>)
    ensures
        r@ == names@,
{
    let r = names.clone();
    assert(r@ =~= names@);
    r
}

fn clone_option(name: &Option<String>) -> (r: Option<String>)
    ensures
        r == *name,
{
    match name {
        Some(n) => Some(n.clone()),
        None => None,
    }
}

/// The menu for `ctx`. The notice comes first, and only where there is
/// something to suggest.
pub fn default_sections(ctx: &BuildContext) -> (r: Vec<MenuPart>)
    ensures
        part_names(r@) == default_names(*ctx),
        part_menus(r@) == default_menus(*ctx),
{
    let mut out: Vec<MenuPart> = Vec::new();
    if ctx.model_lang_mismatch.is_some() {
        out.push(
            MenuPart::Mismatch(
                ModelLangMismatchSection {
                    ui_language: ctx.ui_language,
                    suggested_filename: clone_option(&ctx.model_lang_mismatch),
                },
            ),
        );
    }
    out.push(MenuPart::Hotkey(HotkeySection { ui_language: ctx.ui_language }));
    out.push(
        MenuPart::Theme(ThemeSection { ui_language: ctx.ui_language, current: ctx.theme }),
    );
    out.push(
        MenuPart::Mode(ModeSection { ui_language: ctx.ui_language, current: ctx.stt_mode }),
    );
    out.push(
        MenuPart::Effort(EffortSection { ui_language: ctx.ui_language, current: ctx.effort }),
    );
    out.push(MenuPart::UiLanguage(UiLanguageSection { current: ctx.ui_language }));
    out.push(
        MenuPart::Prompt(
            PromptSection {
                ui_language: ctx.ui_language,
                current: ctx.prompt_preset,
                custom_text: ctx.prompt_custom_text.clone(),
            },
        ),
    );
    out.push(
        MenuPart::Microphone(
            MicrophoneSection::new(
                clone_devices(&ctx.input_devices),
                clone_option(&ctx.input_device),
                ctx.ui_language,
            ),
        ),
    );
    out.push(
        MenuPart::Models(
            ModelsSection::new(
                clone_catalog(&ctx.catalog),
                clone_names(&ctx.installed),
                ctx.active_model.clone(),
                ctx.ui_language,
            ),
        ),
    );
    out.push(MenuPart::Exit(ExitSection { ui_language: ctx.ui_language }));
    assert(part_names(out@) =~= default_names(*ctx));
    assert(part_menus(out@) =~= default_menus(*ctx));
    out
}

// ---------------------------------------------------------------------------
// From identifiers to actions
// ---------------------------------------------------------------------------

/// What a click on the item `id` asks for; `None` for an identifier that no
/// item carries.
pub open spec fn action_of(id: Seq<char>) -> Option<ActionView> {
    if id == "change_hotkey"@ {
        Some(ActionView::ChangeHotkey)
    } else if id == "theme_dark"@ {
        Some(ActionView::SetTheme(Theme::Dark))
    } else if id == "theme_light"@ {
        Some(ActionView::SetTheme(Theme::Light))
    } else if id == "theme_system"@ {
        Some(ActionView::SetTheme(Theme::System))
    } else if id == "mode_batch"@ {
        Some(ActionView::SetSttMode(SttMode::Batch))
    } else if id == "mode_streaming"@ {
        Some(ActionView::SetSttMode(SttMode::Streaming))
    } else if id == "mode_chunked"@ {
        Some(ActionView::SetSttMode(SttMode::Chunked))
    } else if id == "effort_balanced"@ {
        Some(ActionView::SetEffort(EffortPreset::Balanced))
    } else if id == "effort_robust"@ {
        Some(ActionView::SetEffort(EffortPreset::Robust))
    } else if id == "effort_high_quality"@ {
        Some(ActionView::SetEffort(EffortPreset::HighQuality))
    } else if id == "ui_es"@ {
        Some(ActionView::SetUiLanguage(UiLanguage::Es))
    } else if id == "ui_en"@ {
        Some(ActionView::SetUiLanguage(UiLanguage::En))
    } else if id == "ui_bil"@ {
        Some(ActionView::SetUiLanguage(UiLanguage::Bilingual))
    } else if id == "prompt_bilingual"@ {
        Some(ActionView::SetPromptPreset(PromptPreset::BilingualEsEn))
    } else if id == "prompt_es"@ {
        Some(ActionView::SetPromptPreset(PromptPreset::SpanishOnly))
    } else if id == "prompt_en"@ {
        Some(ActionView::SetPromptPreset(PromptPreset::EnglishOnly))
    } else if id == "prompt_custom"@ {
        Some(ActionView::SetPromptPreset(PromptPreset::Custom))
    } else if id == "prompt_edit"@ {
        Some(ActionView::EditPrompt)
    } else if id == "open_models_dir"@ {
        Some(ActionView::OpenModelsDir)
    } else if id == "check_updates"@ {
        Some(ActionView::CheckUpdates)
    } else if id == "exit"@ {
        Some(ActionView::Exit)
    } else if id == "fix_model_lang"@ {
        Some(ActionView::FixModelLanguage(Seq::empty()))
    } else if id == "mic_auto"@ {
        Some(ActionView::SetInputDevice(Seq::empty()))
    } else if id == "mic_reprobe"@ {
        Some(ActionView::ProbeMicrophones)
    } else if MIC_ITEM_PREFIX@.is_prefix_of(id) {
        Some(ActionView::SetInputDevice(id.skip(MIC_ITEM_PREFIX@.len() as int)))
    } else if MODEL_ITEM_PREFIX@.is_prefix_of(id) {
        Some(ActionView::ModelItem(id.skip(MODEL_ITEM_PREFIX@.len() as int)))
    } else {
        None
    }
}

/// The value of an optional action.
pub open spec fn option_action(a: Option<MenuAction>) -> Option<ActionView> {
    match a {
        Some(action) => Some(action@),
        None => None,
    }
}

/// What a click on the item `id` asks for.
pub fn id_to_action(id: &str) -> (r: Option<MenuAction>)
    ensures
        option_action(r) == action_of(id@),
{
    if text_eq(id, "change_hotkey") {
        Some(MenuAction::ChangeHotkey)
    } else if text_eq(id, "theme_dark") {
        Some(MenuAction::SetTheme(Theme::Dark))
    } else if text_eq(id, "theme_light") {
        Some(MenuAction::SetTheme(Theme::Light))
    } else if text_eq(id, "theme_system") {
        Some(MenuAction::SetTheme(Theme::System))
    } else if text_eq(id, "mode_batch") {
        Some(MenuAction::SetSttMode(SttMode::Batch))
    } else if text_eq(id, "mode_streaming") {
        Some(MenuAction::SetSttMode(SttMode::Streaming))
    } else if text_eq(id, "mode_chunked") {
        Some(MenuAction::SetSttMode(SttMode::Chunked))
    } else if text_eq(id, "effort_balanced") {
        Some(MenuAction::SetEffort(EffortPreset::Balanced))
    } else if text_eq(id, "effort_robust") {
        Some(MenuAction::SetEffort(EffortPreset::Robust))
    } else if text_eq(id, "effort_high_quality") {
        Some(MenuAction::SetEffort(EffortPreset::HighQuality))
    } else if text_eq(id, "ui_es") {
        Some(MenuAction::SetUiLanguage(UiLanguage::Es))
    } else if text_eq(id, "ui_en") {
        Some(MenuAction::SetUiLanguage(UiLanguage::En))
    } else if text_eq(id, "ui_bil") {
        Some(MenuAction::SetUiLanguage(UiLanguage::Bilingual))
    } else if text_eq(id, "prompt_bilingual") {
        Some(MenuAction::SetPromptPreset(PromptPreset::BilingualEsEn))
    } else if text_eq(id, "prompt_es") {
        Some(MenuAction::SetPromptPreset(PromptPreset::SpanishOnly))
    } else if text_eq(id, "prompt_en") {
        Some(MenuAction::SetPromptPreset(PromptPreset::EnglishOnly))
    } else if text_eq(id, "prompt_custom") {
        Some(MenuAction::SetPromptPreset(PromptPreset::Custom))
    } else if text_eq(id, "prompt_edit") {
        Some(MenuAction::EditPrompt)
    } else if text_eq(id, "open_models_dir") {
        Some(MenuAction::OpenModelsDir)
    } else if text_eq(id, "check_updates") {
        Some(MenuAction::CheckUpdates)
    } else if text_eq(id, "exit") {
        Some(MenuAction::Exit)
    } else if text_eq(id, "fix_model_lang") {
        Some(MenuAction::FixModelLanguage(String::new()))
    } else if text_eq(id, "mic_auto") {
        Some(MenuAction::SetInputDevice(String::new()))
    } else if text_eq(id, "mic_reprobe") {
        Some(MenuAction::ProbeMicrophones)
    } else {
        match strip_prefix(id, MIC_ITEM_PREFIX) {
            Some(name) => Some(MenuAction::SetInputDevice(name)),
            None => match strip_prefix(id, MODEL_ITEM_PREFIX) {
                Some(filename) => Some(MenuAction::ModelItem(filename)),
                None => None,
            },
        }
    }
}

/// A click on the item of a model asks for that model.
pub proof fn model_items_ask_for_their_model(filename: Seq<char>)
    ensures
        action_of(model_item_id(filename)) == Some(ActionView::ModelItem(filename)),
{
    reveal_strlit("change_hotkey");
    reveal_strlit("theme_dark");
    reveal_strlit("theme_light");
    reveal_strlit("theme_system");
    reveal_strlit("mode_batch");
    reveal_strlit("mode_streaming");
    reveal_strlit("mode_chunked");
    reveal_strlit("effort_balanced");
    reveal_strlit("effort_robust");
    reveal_strlit("effort_high_quality");
    reveal_strlit("ui_es");
    reveal_strlit("ui_en");
    reveal_strlit("ui_bil");
    reveal_strlit("prompt_bilingual");
    reveal_strlit("prompt_es");
    reveal_strlit("prompt_en");
    reveal_strlit("prompt_custom");
    reveal_strlit("prompt_edit");
    reveal_strlit("open_models_dir");
    reveal_strlit("check_updates");
    reveal_strlit("exit");
    reveal_strlit("fix_model_lang");
    reveal_strlit("mic_auto");
    reveal_strlit("mic_reprobe");
    reveal_strlit("mic:");
    reveal_strlit("model:");
    let id = model_item_id(filename);
    assert(id[5] == ':');
    assert(id[3] == 'e');
    assert(!MIC_ITEM_PREFIX@.is_prefix_of(id)) by {
        assert(MIC_ITEM_PREFIX@[3] == ':');
        assert(id.subrange(0, 4)[3] == 'e');
    }
    assert(id.subrange(0, 6) =~= MODEL_ITEM_PREFIX@);
    assert(id.skip(6) =~= filename);
}

/// A click on the item of a microphone asks for that device.
pub proof fn microphone_items_ask_for_their_device(name: Seq<char>)
    ensures
        action_of(mic_item_id(name)) == Some(ActionView::SetInputDevice(name)),
{
    reveal_strlit("change_hotkey");
    reveal_strlit("theme_dark");
    reveal_strlit("theme_light");
    reveal_strlit("theme_system");
    reveal_strlit("mode_batch");
    reveal_strlit("mode_streaming");
    reveal_strlit("mode_chunked");
    reveal_strlit("effort_balanced");
    reveal_strlit("effort_robust");
    reveal_strlit("effort_high_quality");
    reveal_strlit("ui_es");
    reveal_strlit("ui_en");
    reveal_strlit("ui_bil");
    reveal_strlit("prompt_bilingual");
    reveal_strlit("prompt_es");
    reveal_strlit("prompt_en");
    reveal_strlit("prompt_custom");
    reveal_strlit("prompt_edit");
    reveal_strlit("open_models_dir");
    reveal_strlit("check_updates");
    reveal_strlit("exit");
    reveal_strlit("fix_model_lang");
    reveal_strlit("mic_auto");
    reveal_strlit("mic_reprobe");
    reveal_strlit("mic:");
    let id = mic_item_id(name);
    assert(id[3] == ':');
    assert(id.subrange(0, 4) =~= MIC_ITEM_PREFIX@);
    assert(id.skip(4) =~= name);
}

/// Whether a click on the item does something. An item without an identifier
/// is a caption.
pub open spec fn item_is_bound(item: ItemView) -> bool {
    item.id.len() == 0 || action_of(item.id) is Some
}

/// Whether every item of the entries is a caption or does something.
pub open spec fn menu_is_bound(menu: Seq<SectionView>) -> bool {
    forall|i: int|
        0 <= i < menu.len() ==> match #[trigger] menu[i] {
            SectionView::Item(item) => item_is_bound(item),
            SectionView::Submenu { label, items } => forall|j: int|
                0 <= j < items.len() ==> item_is_bound(#[trigger] items[j]),
            SectionView::Separator => true,
        }
}

proof fn lemma_family_is_bound(
    catalog: Seq<ModelEntry>,
    installed: Seq<String>,
    active_model: Seq<char>,
    lang: UiLanguage,
    family: ModelFamily,
)
    ensures
        forall|j: int|
            0 <= j < family_items(catalog, installed, active_model, lang, family).len()
                ==> item_is_bound(
                #[trigger] family_items(catalog, installed, active_model, lang, family)[j],
            ),
{
    let items = family_items(catalog, installed, active_model, lang, family);
    let kept = catalog.filter(|e: ModelEntry| e.family == family);
    assert forall|j: int| 0 <= j < items.len() implies item_is_bound(#[trigger] items[j]) by {
        if j > 0 {
            assert(items[j].id == model_item_id(kept[j - 1].filename@));
            model_items_ask_for_their_model(kept[j - 1].filename@);
        }
    }
}

/// No dead items: whatever the state, a click on any item of the menu that is
/// not a caption is understood.
pub proof fn every_menu_item_is_bound(ctx: BuildContext, k: int)
    requires
        0 <= k < default_menus(ctx).len(),
    ensures
        menu_is_bound(default_menus(ctx)[k]),
{
    let lang = ctx.ui_language;
    let active = option_text(ctx.input_device);
    let models = models_menu(ctx.catalog@, ctx.installed@, ctx.active_model@, lang);
    lemma_family_is_bound(
        ctx.catalog@,
        ctx.installed@,
        ctx.active_model@,
        lang,
        ModelFamily::Tiny,
    );
    lemma_family_is_bound(
        ctx.catalog@,
        ctx.installed@,
        ctx.active_model@,
        lang,
        ModelFamily::Base,
    );
    lemma_family_is_bound(
        ctx.catalog@,
        ctx.installed@,
        ctx.active_model@,
        lang,
        ModelFamily::Small,
    );
    lemma_family_is_bound(
        ctx.catalog@,
        ctx.installed@,
        ctx.active_model@,
        lang,
        ModelFamily::Medium,
    );
    lemma_family_is_bound(
        ctx.catalog@,
        ctx.installed@,
        ctx.active_model@,
        lang,
        ModelFamily::Large,
    );
    lemma_family_is_bound(ctx.catalog@, ctx.installed@, ctx.active_model@, lang, ModelFamily::Vad);
    assert(menu_is_bound(models));
    let mic = microphone_menu(ctx.input_devices@, active, lang);
    assert(menu_is_bound(mic)) by {
        let items = mic[0]->Submenu_items;
        assert forall|j: int| 0 <= j < items.len() implies item_is_bound(#[trigger] items[j]) by {
            if ctx.input_devices@.len() > 0 && 1 <= j <= ctx.input_devices@.len() {
                assert(items[j].id == mic_item_id(ctx.input_devices@[j - 1].name@));
                microphone_items_ask_for_their_device(ctx.input_devices@[j - 1].name@);
            }
        }
    }
}

/// Each identifier of the menu asks for its own action.
#[verifier::rlimit(40)]
pub proof fn every_identifier_has_its_action()
    ensures
        action_of("change_hotkey"@) == Some(ActionView::ChangeHotkey),
        action_of("theme_dark"@) == Some(ActionView::SetTheme(Theme::Dark)),
        action_of("theme_light"@) == Some(ActionView::SetTheme(Theme::Light)),
        action_of("theme_system"@) == Some(ActionView::SetTheme(Theme::System)),
        action_of("mode_batch"@) == Some(ActionView::SetSttMode(SttMode::Batch)),
        action_of("mode_streaming"@) == Some(ActionView::SetSttMode(SttMode::Streaming)),
        action_of("mode_chunked"@) == Some(ActionView::SetSttMode(SttMode::Chunked)),
        action_of("effort_balanced"@) == Some(ActionView::SetEffort(EffortPreset::Balanced)),
        action_of("effort_robust"@) == Some(ActionView::SetEffort(EffortPreset::Robust)),
        action_of("effort_high_quality"@) == Some(
            ActionView::SetEffort(EffortPreset::HighQuality),
        ),
        action_of("ui_es"@) == Some(ActionView::SetUiLanguage(UiLanguage::Es)),
        action_of("ui_en"@) == Some(ActionView::SetUiLanguage(UiLanguage::En)),
        action_of("ui_bil"@) == Some(ActionView::SetUiLanguage(UiLanguage::Bilingual)),
        action_of("prompt_bilingual"@) == Some(
            ActionView::SetPromptPreset(PromptPreset::BilingualEsEn),
        ),
        action_of("prompt_es"@) == Some(ActionView::SetPromptPreset(PromptPreset::SpanishOnly)),
        action_of("prompt_en"@) == Some(ActionView::SetPromptPreset(PromptPreset::EnglishOnly)),
        action_of("prompt_custom"@) == Some(ActionView::SetPromptPreset(PromptPreset::Custom)),
        action_of("prompt_edit"@) == Some(ActionView::EditPrompt),
        action_of("open_models_dir"@) == Some(ActionView::OpenModelsDir),
        action_of("check_updates"@) == Some(ActionView::CheckUpdates),
        action_of("exit"@) == Some(ActionView::Exit),
        action_of("fix_model_lang"@) is Some && action_of("fix_model_lang"@)->Some_0
            is FixModelLanguage,
        action_of("mic_auto"@) == Some(ActionView::SetInputDevice(Seq::empty())),
        action_of("mic_reprobe"@) == Some(ActionView::ProbeMicrophones),
{
    reveal_strlit("change_hotkey");
    reveal_strlit("theme_dark");
    reveal_strlit("theme_light");
    reveal_strlit("theme_system");
    reveal_strlit("mode_batch");
    reveal_strlit("mode_streaming");
    reveal_strlit("mode_chunked");
    reveal_strlit("effort_balanced");
    reveal_strlit("effort_robust");
    reveal_strlit("effort_high_quality");
    reveal_strlit("ui_es");
    reveal_strlit("ui_en");
    reveal_strlit("ui_bil");
    reveal_strlit("prompt_bilingual");
    reveal_strlit("prompt_es");
    reveal_strlit("prompt_en");
    reveal_strlit("prompt_custom");
    reveal_strlit("prompt_edit");
    reveal_strlit("open_models_dir");
    reveal_strlit("check_updates");
    reveal_strlit("exit");
    reveal_strlit("fix_model_lang");
    reveal_strlit("mic_auto");
    reveal_strlit("mic_reprobe");
    // The lengths tell most of them apart, and the rest an early letter.
    assert("change_hotkey"@.len() == 13 && "theme_dark"@.len() == 10);
    assert("theme_light"@.len() == 11 && "theme_system"@.len() == 12);
    assert("mode_batch"@.len() == 10 && "mode_streaming"@.len() == 14);
    assert("mode_chunked"@.len() == 12 && "effort_balanced"@.len() == 15);
    assert("effort_robust"@.len() == 13 && "effort_high_quality"@.len() == 19);
    assert("ui_es"@.len() == 5 && "ui_en"@.len() == 5);
    assert("ui_bil"@.len() == 6 && "prompt_bilingual"@.len() == 16);
    assert("prompt_es"@.len() == 9 && "prompt_en"@.len() == 9);
    assert("prompt_custom"@.len() == 13 && "prompt_edit"@.len() == 11);
    assert("open_models_dir"@.len() == 15 && "check_updates"@.len() == 13);
    assert("exit"@.len() == 4 && "fix_model_lang"@.len() == 14);
    assert("mic_auto"@.len() == 8 && "mic_reprobe"@.len() == 11);
    assert("change_hotkey"@[2] == 'a' && "check_updates"@[2] == 'e');
    assert("effort_robust"@[2] == 'f' && "prompt_custom"@[2] == 'o');
    assert("theme_dark"@[0] == 't' && "mode_batch"@[0] == 'm');
    assert("theme_system"@[0] == 't' && "mode_chunked"@[0] == 'm');
    assert("mode_streaming"@[0] == 'm' && "fix_model_lang"@[0] == 'f');
    assert("effort_balanced"@[0] == 'e' && "open_models_dir"@[0] == 'o');
    assert("ui_es"@[4] == 's' && "ui_en"@[4] == 'n');
    assert("prompt_es"@[8] == 's' && "prompt_en"@[8] == 'n');
    assert("theme_light"@[0] == 't' && "prompt_edit"@[0] == 'p' && "mic_reprobe"@[0] == 'm');
}

/// Whether the label of an item begins with a tick.
pub open spec fn is_ticked(item: ItemView) -> bool {
    item.label.len() >= 2 && item.label[0] == '✓' && item.label[1] == ' '
}

/// The items of the submenu that a part of the menu consists of.
pub open spec fn submenu_items(menu: Seq<SectionView>) -> Seq<ItemView> {
    match menu[0] {
        SectionView::Submenu { label, items } => items,
        _ => Seq::empty(),
    }
}

/// Whether the menu is one submenu of that title.
pub open spec fn is_submenu(menu: Seq<SectionView>, title: Seq<char>) -> bool {
    menu.len() == 1 && menu[0] == SectionView::Submenu { label: title, items: submenu_items(menu) }
}

proof fn lemma_mark(active: bool, label: Seq<char>)
    ensures
        (check_mark(active) + label).len() == 2 + label.len(),
        (check_mark(active) + label).skip(2) == label,
        is_ticked(choice(Seq::empty(), check_mark(active) + label)) <==> active,
        (check_mark(active) + label)[0] == (if active {
            '✓'
        } else {
            ' '
        }),
        (check_mark(active) + label)[1] == ' ',
{
    reveal_strlit("✓ ");
    reveal_strlit("  ");
    assert((check_mark(active) + label).skip(2) =~= label);
}

/// The name of a theme in the menu.
pub open spec fn theme_label(lang: UiLanguage, theme: Theme) -> Seq<char> {
    match theme {
        Theme::Dark => table(lang).theme_dark@,
        Theme::Light => table(lang).theme_light@,
        Theme::System => table(lang).theme_system@,
    }
}

/// Every item of the theme menu asks for a theme and is called after it, each
/// theme has one, and the tick stands in front of the current one alone.
#[verifier::rlimit(40)]
pub proof fn the_theme_menu_ticks_the_current_theme(
    lang: UiLanguage,
    current: Theme,
    theme: Theme,
    i: int,
)
    ensures
        is_submenu(theme_menu(lang, current), table(lang).theme@),
        ({
            let items = submenu_items(theme_menu(lang, current));
            &&& 0 <= i < items.len() ==> {
                &&& action_of(items[i].id) matches Some(ActionView::SetTheme(chosen))
                &&& items[i].enabled
                &&& items[i].label.skip(2) == theme_label(lang, chosen)
                &&& is_ticked(items[i]) <==> action_of(items[i].id) == Some(
                    ActionView::SetTheme(current),
                )
            }
            &&& exists|j: int|
                0 <= j < items.len() && action_of(#[trigger] items[j].id) == Some(
                    ActionView::SetTheme(theme),
                )
        }),
{
    every_identifier_has_its_action();
    let t = table(lang);
    lemma_mark(current == Theme::Dark, t.theme_dark@);
    lemma_mark(current == Theme::Light, t.theme_light@);
    lemma_mark(current == Theme::System, t.theme_system@);
    let items = submenu_items(theme_menu(lang, current));
    assert(items[0].id == "theme_dark"@ && items[1].id == "theme_light"@ && items[2].id
        == "theme_system"@);
    assert(items.len() == 3);
}

/// The name of a mode in the menu.
pub open spec fn mode_label(lang: UiLanguage, mode: SttMode) -> Seq<char> {
    match mode {
        SttMode::Batch => table(lang).mode_batch@,
        SttMode::Streaming => table(lang).mode_streaming@,
        SttMode::Chunked => table(lang).mode_chunked@,
    }
}

/// Every item of the mode menu asks for a mode and is called after it, each
/// mode has one, and the tick stands in front of the current one alone.
#[verifier::rlimit(40)]
pub proof fn the_mode_menu_ticks_the_current_mode(
    lang: UiLanguage,
    current: SttMode,
    mode: SttMode,
    i: int,
)
    ensures
        is_submenu(mode_menu(lang, current), table(lang).mode@),
        ({
            let items = submenu_items(mode_menu(lang, current));
            &&& 0 <= i < items.len() ==> {
                &&& action_of(items[i].id) matches Some(ActionView::SetSttMode(chosen))
                &&& items[i].enabled
                &&& items[i].label.skip(2) == mode_label(lang, chosen)
                &&& is_ticked(items[i]) <==> action_of(items[i].id) == Some(
                    ActionView::SetSttMode(current),
                )
            }
            &&& exists|j: int|
                0 <= j < items.len() && action_of(#[trigger] items[j].id) == Some(
                    ActionView::SetSttMode(mode),
                )
        }),
{
    every_identifier_has_its_action();
    let t = table(lang);
    lemma_mark(current == SttMode::Batch, t.mode_batch@);
    lemma_mark(current == SttMode::Streaming, t.mode_streaming@);
    lemma_mark(current == SttMode::Chunked, t.mode_chunked@);
    let items = submenu_items(mode_menu(lang, current));
    assert(items[0].id == "mode_batch"@ && items[1].id == "mode_streaming"@ && items[2].id
        == "mode_chunked"@);
    assert(items.len() == 3);
}

/// The name of an effort in the menu.
pub open spec fn effort_label(lang: UiLanguage, effort: EffortPreset) -> Seq<char> {
    match effort {
        EffortPreset::Balanced => table(lang).effort_balanced@,
        EffortPreset::Robust => table(lang).effort_robust@,
        EffortPreset::HighQuality => table(lang).effort_high_quality@,
    }
}

/// Every item of the effort menu asks for an effort and is called after it,
/// each effort has one, and the tick stands in front of the current one alone.
#[verifier::rlimit(40)]
pub proof fn the_effort_menu_ticks_the_current_effort(
    lang: UiLanguage,
    current: EffortPreset,
    effort: EffortPreset,
    i: int,
)
    ensures
        is_submenu(effort_menu(lang, current), table(lang).effort@),
        ({
            let items = submenu_items(effort_menu(lang, current));
            &&& 0 <= i < items.len() ==> {
                &&& action_of(items[i].id) matches Some(ActionView::SetEffort(chosen))
                &&& items[i].enabled
                &&& items[i].label.skip(2) == effort_label(lang, chosen)
                &&& is_ticked(items[i]) <==> action_of(items[i].id) == Some(
                    ActionView::SetEffort(current),
                )
            }
            &&& exists|j: int|
                0 <= j < items.len() && action_of(#[trigger] items[j].id) == Some(
                    ActionView::SetEffort(effort),
                )
        }),
{
    every_identifier_has_its_action();
    let t = table(lang);
    lemma_mark(current == EffortPreset::Balanced, t.effort_balanced@);
    lemma_mark(current == EffortPreset::Robust, t.effort_robust@);
    lemma_mark(current == EffortPreset::HighQuality, t.effort_high_quality@);
    let items = submenu_items(effort_menu(lang, current));
    assert(items[0].id == "effort_balanced"@ && items[1].id == "effort_robust"@ && items[2].id
        == "effort_high_quality"@);
    assert(items.len() == 3);
}

/// The name of a language in the menu.
pub open spec fn language_label(lang: UiLanguage, language: UiLanguage) -> Seq<char> {
    match language {
        UiLanguage::Es => table(lang).ui_es@,
        UiLanguage::En => table(lang).ui_en@,
        UiLanguage::Bilingual => table(lang).ui_bilingual@,
    }
}

/// Every item of the language menu asks for a language and is called after it,
/// each language has one, and the tick stands in front of the current one
/// alone. The menu is written in the current language.
#[verifier::rlimit(40)]
pub proof fn the_language_menu_ticks_the_current_language(
    current: UiLanguage,
    language: UiLanguage,
    i: int,
)
    ensures
        is_submenu(ui_language_menu(current), table(current).ui_language@),
        ({
            let items = submenu_items(ui_language_menu(current));
            &&& 0 <= i < items.len() ==> {
                &&& action_of(items[i].id) matches Some(ActionView::SetUiLanguage(chosen))
                &&& items[i].enabled
                &&& items[i].label.skip(2) == language_label(current, chosen)
                &&& is_ticked(items[i]) <==> action_of(items[i].id) == Some(
                    ActionView::SetUiLanguage(current),
                )
            }
            &&& exists|j: int|
                0 <= j < items.len() && action_of(#[trigger] items[j].id) == Some(
                    ActionView::SetUiLanguage(language),
                )
        }),
{
    every_identifier_has_its_action();
    let t = table(current);
    lemma_mark(current == UiLanguage::Es, t.ui_es@);
    lemma_mark(current == UiLanguage::En, t.ui_en@);
    lemma_mark(current == UiLanguage::Bilingual, t.ui_bilingual@);
    let items = submenu_items(ui_language_menu(current));
    assert(items[0].id == "ui_es"@ && items[1].id == "ui_en"@ && items[2].id == "ui_bil"@);
    assert(items.len() == 3);
}

/// The name of a prompt in the menu.
pub open spec fn preset_label(lang: UiLanguage, preset: PromptPreset) -> Seq<char> {
    match preset {
        PromptPreset::BilingualEsEn => table(lang).prompt_bilingual@,
        PromptPreset::SpanishOnly => table(lang).prompt_es@,
        PromptPreset::EnglishOnly => table(lang).prompt_en@,
        PromptPreset::Custom => table(lang).prompt_custom@,
    }
}

proof fn lemma_plain_prompt_labels(lang: UiLanguage, current: PromptPreset, text: Seq<char>)
    ensures
        ({
            let items = submenu_items(prompt_menu(lang, current, text));
            let t = table(lang);
            &&& is_ticked(items[0]) <==> current == PromptPreset::BilingualEsEn
            &&& is_ticked(items[1]) <==> current == PromptPreset::SpanishOnly
            &&& is_ticked(items[2]) <==> current == PromptPreset::EnglishOnly
            &&& items[0].label.skip(2) == t.prompt_bilingual@
            &&& items[1].label.skip(2) == t.prompt_es@
            &&& items[2].label.skip(2) == t.prompt_en@
        }),
{
    let t = table(lang);
    lemma_mark(current == PromptPreset::BilingualEsEn, t.prompt_bilingual@);
    lemma_mark(current == PromptPreset::SpanishOnly, t.prompt_es@);
    lemma_mark(current == PromptPreset::EnglishOnly, t.prompt_en@);
}

#[verifier::rlimit(40)]
proof fn lemma_custom_prompt_label(lang: UiLanguage, current: PromptPreset, text: Seq<char>)
    ensures
        ({
            let label = custom_prompt_label(lang, current, text);
            &&& is_ticked(choice(Seq::empty(), label)) <==> current == PromptPreset::Custom
            &&& table(lang).prompt_custom@.is_prefix_of(label.skip(2))
        }),
{
    let t = table(lang);
    let tail = if text.len() == 0 {
        t.prompt_custom@ + "  "@ + t.prompt_custom_hint@
    } else {
        t.prompt_custom@ + "  \""@ + prompt_preview(text) + "\""@
    };
    lemma_mark(current == PromptPreset::Custom, tail);
    assert(custom_prompt_label(lang, current, text) =~= check_mark(current == PromptPreset::Custom)
        + tail);
    assert(tail.subrange(0, t.prompt_custom@.len() as int) =~= t.prompt_custom@);
}

proof fn lemma_edit_is_not_ticked(lang: UiLanguage)
    ensures
        table(lang).prompt_edit@[0] == 'E',
{
    reveal_strlit("Editar config.json…");
    reveal_strlit("Edit config.json…");
    reveal_strlit("Editar config.json / Edit config.json…");
}

/// Every item of the prompt menu but the last asks for a prompt and its name
/// begins with that of the prompt, each prompt has one, and the tick stands in
/// front of the current one alone. The last item opens the editor.
#[verifier::rlimit(40)]
pub proof fn the_prompt_menu_ticks_the_current_prompt(
    lang: UiLanguage,
    current: PromptPreset,
    text: Seq<char>,
    preset: PromptPreset,
    i: int,
)
    ensures
        is_submenu(prompt_menu(lang, current, text), table(lang).system_prompt@),
        ({
            let items = submenu_items(prompt_menu(lang, current, text));
            &&& 0 <= i < items.len() - 1 ==> {
                &&& action_of(items[i].id) matches Some(ActionView::SetPromptPreset(chosen))
                &&& items[i].enabled
                &&& preset_label(lang, chosen).is_prefix_of(items[i].label.skip(2))
                &&& chosen != PromptPreset::Custom ==> preset_label(lang, chosen)
                    == items[i].label.skip(2)
            }
            &&& 0 <= i < items.len() ==> (is_ticked(items[i]) <==> action_of(items[i].id) == Some(
                ActionView::SetPromptPreset(current),
            ))
            &&& action_of(items.last().id) == Some(ActionView::EditPrompt)
            &&& items.last().label == table(lang).prompt_edit@
            &&& exists|j: int|
                0 <= j < items.len() && action_of(#[trigger] items[j].id) == Some(
                    ActionView::SetPromptPreset(preset),
                )
        }),
{
    every_identifier_has_its_action();
    lemma_plain_prompt_labels(lang, current, text);
    lemma_custom_prompt_label(lang, current, text);
    lemma_edit_is_not_ticked(lang);
    let t = table(lang);
    let items = submenu_items(prompt_menu(lang, current, text));
    assert(t.prompt_bilingual@.subrange(0, t.prompt_bilingual@.len() as int)
        =~= t.prompt_bilingual@);
    assert(t.prompt_es@.subrange(0, t.prompt_es@.len() as int) =~= t.prompt_es@);
    assert(t.prompt_en@.subrange(0, t.prompt_en@.len() as int) =~= t.prompt_en@);
    assert(items[0].id == "prompt_bilingual"@ && items[1].id == "prompt_es"@ && items[2].id
        == "prompt_en"@ && items[3].id == "prompt_custom"@ && items[4].id == "prompt_edit"@);
    assert(items.len() == 5);
}

/// A short prompt is shown as it is, and of a longer one the first forty
/// characters with an ellipsis behind them.
pub proof fn a_preview_begins_the_prompt(text: Seq<char>)
    ensures
        text.len() <= 40 ==> prompt_preview(text) == text,
        text.len() > 40 ==> prompt_preview(text).len() == 41 && prompt_preview(text).last() == '…'
            && prompt_preview(text).drop_last() == text.take(40),
{
    reveal_strlit("…");
    if text.len() > 40 {
        assert(prompt_preview(text).drop_last() =~= text.take(40));
    }
}

/// The custom prompt is shown in quotes where there is one, and else a hint how
/// to set it.
#[verifier::rlimit(40)]
pub proof fn a_custom_prompt_is_quoted(lang: UiLanguage, current: PromptPreset, text: Seq<char>)
    ensures
        ({
            let label = custom_prompt_label(lang, current, text);
            if text.len() == 0 {
                table(lang).prompt_custom_hint@.is_suffix_of(label)
            } else {
                let quoted = seq!['"'] + prompt_preview(text) + seq!['"'];
                quoted.is_suffix_of(label)
            }
        }),
{
    reveal_strlit("  \"");
    reveal_strlit("\"");
    let label = custom_prompt_label(lang, current, text);
    let n = label.len() as int;
    if text.len() == 0 {
        let hint = table(lang).prompt_custom_hint@;
        assert(label.subrange(n - hint.len(), n) =~= hint);
    } else {
        let quoted = seq!['"'] + prompt_preview(text) + seq!['"'];
        assert(label.subrange(n - quoted.len(), n) =~= quoted);
    }
}

/// The first item of the microphone menu is the automatic choice, ticked where
/// no device is chosen.
pub proof fn the_automatic_microphone_comes_first(
    devices: Seq<MicDevice>,
    active: Option<Seq<char>>,
    lang: UiLanguage,
)
    ensures
        is_submenu(microphone_menu(devices, active, lang), table(lang).microphone@),
        ({
            let items = submenu_items(microphone_menu(devices, active, lang));
            &&& action_of(items[0].id) == Some(ActionView::SetInputDevice(Seq::empty()))
            &&& is_ticked(items[0]) <==> active is None
            &&& table(lang).mic_auto@.is_prefix_of(items[0].label.skip(2))
            &&& action_of(items.last().id) == Some(ActionView::ProbeMicrophones)
            &&& items.last().label == table(lang).mic_reprobe@
            &&& items[items.len() - 2] == caption("─────────────────"@)
            &&& !items[items.len() - 2].enabled
        }),
{
    every_identifier_has_its_action();
    let auto = table(lang).mic_auto@;
    let tail = auto + text_if(active is None, auto_active_mark(lang));
    lemma_mark(active is None, tail);
    let items = submenu_items(microphone_menu(devices, active, lang));
    assert(items[0] == mic_auto_item(active, lang));
    assert(items[0].label =~= check_mark(active is None) + tail);
    assert(tail.subrange(0, auto.len() as int) =~= auto);
    assert(items.last().id == "mic_reprobe"@);
}

/// Every device has its item, in the order of the devices, which asks for it,
/// bears its name and is ticked where the device is the chosen one.
#[verifier::rlimit(40)]
pub proof fn every_microphone_has_its_item(
    devices: Seq<MicDevice>,
    active: Option<Seq<char>>,
    lang: UiLanguage,
    k: int,
)
    requires
        0 <= k < devices.len(),
    ensures
        ({
            let items = submenu_items(microphone_menu(devices, active, lang));
            let item = items[k + 1];
            let name = devices[k].name@;
            &&& items.len() == devices.len() + 3
            &&& item.enabled
            &&& action_of(item.id) == Some(ActionView::SetInputDevice(name))
            &&& is_ticked(item) <==> active == Some(name)
            &&& name.is_prefix_of(item.label.skip(2))
            &&& item.label.len() == 2 + name.len() + (if devices[k].is_default {
                11int
            } else {
                0
            }) + (if active == Some(name) {
                table(lang).mic_active@.len() as int
            } else {
                0
            })
        }),
{
    let items = submenu_items(microphone_menu(devices, active, lang));
    let name = devices[k].name@;
    microphone_items_ask_for_their_device(name);
    reveal_strlit("  (default)");
    let chosen = active == Some(name);
    let tail = name + text_if(devices[k].is_default, "  (default)"@) + text_if(
        chosen,
        table(lang).mic_active@,
    );
    lemma_mark(chosen, tail);
    assert(items[k + 1] == mic_device_item(devices[k], active, lang));
    assert(items[k + 1].label =~= check_mark(chosen) + tail);
    assert(tail.subrange(0, name.len() as int) =~= name);
}

/// Without any device a caption says so.
pub proof fn missing_microphones_are_told(active: Option<Seq<char>>, lang: UiLanguage)
    ensures
        ({
            let items = submenu_items(microphone_menu(Seq::empty(), active, lang));
            &&& items.len() == 4
            &&& !items[1].enabled && items[1].id.len() == 0
            &&& items[1].label.skip(2) == table(lang).mic_none@
        }),
{
    reveal_strlit("  ");
    let items = submenu_items(microphone_menu(Seq::empty(), active, lang));
    assert(items[1].label.skip(2) =~= table(lang).mic_none@);
}

/// The item of a model asks for it, begins with a tick where it is installed
/// and with an arrow down where it is to be downloaded, names it with its size,
/// warns where it knows English only, and ends with the mark of the active
/// model where it is that.
#[verifier::rlimit(40)]
pub proof fn a_model_item_tells_its_state(
    entry: ModelEntry,
    installed: bool,
    active: bool,
    lang: UiLanguage,
)
    ensures
        ({
            let item = model_item(entry, installed, active, lang);
            let name = entry.filename@;
            let named = name + seq![' ', '('] + entry.size_label@ + seq![')'];
            let start = if installed {
                2int
            } else {
                table(lang).model_download@.len() as int
            };
            &&& item.enabled
            &&& action_of(item.id) == Some(ActionView::ModelItem(name))
            &&& is_ticked(item) <==> installed
            &&& item.label[0] == '↓' <==> !installed
            &&& item.label.subrange(start, start + named.len()) == named
            &&& item.label.len() == start + named.len() + (if is_english_only(name) {
                table(lang).model_en_only@.len() as int
            } else {
                0
            }) + (if active {
                table(lang).model_active@.len() as int
            } else {
                0
            })
            &&& active ==> table(lang).model_active@.is_suffix_of(item.label)
        }),
{
    reveal_strlit("✓ ");
    reveal_strlit("↓ Descargar ");
    reveal_strlit("↓ Download ");
    reveal_strlit("↓ Descargar / Download ");
    reveal_strlit(" (");
    reveal_strlit(")");
    let item = model_item(entry, installed, active, lang);
    let name = entry.filename@;
    let named = name + seq![' ', '('] + entry.size_label@ + seq![')'];
    let start = if installed {
        2int
    } else {
        table(lang).model_download@.len() as int
    };
    model_items_ask_for_their_model(name);
    let state = if installed {
        table(lang).model_installed@
    } else {
        table(lang).model_download@
    };
    assert(state.len() == start);
    assert(item.label[0] == state[0] && item.label[1] == state[1]);
    assert(item.label.subrange(start, start + named.len()) =~= named);
    let mark = table(lang).model_active@;
    let n = item.label.len() as int;
    if active {
        assert(item.label.subrange(n - mark.len(), n) =~= mark);
    }
}

proof fn lemma_kept(catalog: Seq<ModelEntry>, family: ModelFamily, m: int) -> (e: int)
    requires
        0 <= m < catalog.filter(|e: ModelEntry| e.family == family).len(),
    ensures
        0 <= e < catalog.len(),
        catalog[e] == catalog.filter(|e: ModelEntry| e.family == family)[m],
        catalog[e].family == family,
    decreases catalog.len(),
{
    reveal(Seq::filter);
    let rest = catalog.drop_last();
    if m < rest.filter(|e: ModelEntry| e.family == family).len() {
        lemma_kept(rest, family, m)
    } else {
        catalog.len() - 1
    }
}

/// Every model of the catalogue has an item in the menu, under the caption of
/// its family, which shows whether it is installed and whether it is active;
/// and every item of a family is one of its models.
#[verifier::rlimit(40)]
pub proof fn every_model_has_its_item(
    catalog: Seq<ModelEntry>,
    installed: Seq<String>,
    active_model: Seq<char>,
    lang: UiLanguage,
    k: int,
    family: ModelFamily,
    j: int,
)
    requires
        0 <= k < catalog.len(),
    ensures
        ({
            let name = catalog[k].filename@;
            family_items(catalog, installed, active_model, lang, catalog[k].family).contains(
                model_item(catalog[k], is_listed(installed, name), name == active_model, lang),
            )
        }),
        ({
            let items = family_items(catalog, installed, active_model, lang, family);
            0 < j < items.len() ==> exists|e: int|
                0 <= e < catalog.len() && #[trigger] catalog[e].family == family && items[j]
                    == model_item(
                    catalog[e],
                    is_listed(installed, catalog[e].filename@),
                    catalog[e].filename@ == active_model,
                    lang,
                )
        }),
{
    let mine = catalog.filter(|e: ModelEntry| e.family == catalog[k].family);
    catalog.lemma_filter_contains(|e: ModelEntry| e.family == catalog[k].family, k);
    let m = choose|m: int| 0 <= m < mine.len() && mine[m] == catalog[k];
    let items = family_items(catalog, installed, active_model, lang, catalog[k].family);
    assert(items[m + 1] == model_item(
        catalog[k],
        is_listed(installed, catalog[k].filename@),
        catalog[k].filename@ == active_model,
        lang,
    ));
    let others = family_items(catalog, installed, active_model, lang, family);
    let kept = catalog.filter(|e: ModelEntry| e.family == family);
    if 0 < j < others.len() {
        let e = lemma_kept(catalog, family, j - 1);
        assert(catalog[e].family == family);
    }
}

/// The place of a family in the menu: by the size of its models, and the voice
/// activity detector last.
pub open spec fn menu_rank(family: ModelFamily) -> nat {
    match size_rank(family) {
        Some(rank) => rank,
        None => 5,
    }
}

/// Smaller models stand further up in the menu, each family under its own
/// caption.
#[verifier::rlimit(40)]
pub proof fn families_stand_in_order_of_size(
    catalog: Seq<ModelEntry>,
    installed: Seq<String>,
    active_model: Seq<char>,
    lang: UiLanguage,
    upper: ModelFamily,
    lower: ModelFamily,
)
    requires
        menu_rank(upper) < menu_rank(lower),
    ensures
        ({
            let all = all_family_items(catalog, installed, active_model, lang);
            let first = family_items(catalog, installed, active_model, lang, upper);
            let second = family_items(catalog, installed, active_model, lang, lower);
            exists|i: int, j: int|
                0 <= i && i + first.len() <= j && j + second.len() <= all.len()
                    && #[trigger] all.subrange(i, i + first.len()) == first
                    && #[trigger] all.subrange(j, j + second.len()) == second
        }),
{
    let tiny = family_items(catalog, installed, active_model, lang, ModelFamily::Tiny);
    let base = family_items(catalog, installed, active_model, lang, ModelFamily::Base);
    let small = family_items(catalog, installed, active_model, lang, ModelFamily::Small);
    let medium = family_items(catalog, installed, active_model, lang, ModelFamily::Medium);
    let large = family_items(catalog, installed, active_model, lang, ModelFamily::Large);
    let vad = family_items(catalog, installed, active_model, lang, ModelFamily::Vad);
    let all = all_family_items(catalog, installed, active_model, lang);
    let at_base = tiny.len() as int;
    let at_small = at_base + base.len();
    let at_medium = at_small + small.len();
    let at_large = at_medium + medium.len();
    let at_vad = at_large + large.len();
    assert(all.subrange(0, at_base) =~= tiny);
    assert(all.subrange(at_base, at_small) =~= base);
    assert(all.subrange(at_small, at_medium) =~= small);
    assert(all.subrange(at_medium, at_large) =~= medium);
    assert(all.subrange(at_large, at_vad) =~= large);
    assert(all.subrange(at_vad, at_vad + vad.len()) =~= vad);
    let place = |family: ModelFamily|
        match family {
            ModelFamily::Tiny => 0,
            ModelFamily::Base => at_base,
            ModelFamily::Small => at_small,
            ModelFamily::Medium => at_medium,
            ModelFamily::Large => at_large,
            ModelFamily::Vad => at_vad,
        };
    let first = family_items(catalog, installed, active_model, lang, upper);
    let second = family_items(catalog, installed, active_model, lang, lower);
    assert(all.subrange(place(upper), place(upper) + first.len()) == first);
    assert(all.subrange(place(lower), place(lower) + second.len()) == second);
    assert(place(upper) + first.len() <= place(lower));
}

/// The caption of a family names it and cannot be chosen.
pub proof fn a_family_is_captioned(
    catalog: Seq<ModelEntry>,
    installed: Seq<String>,
    active_model: Seq<char>,
    lang: UiLanguage,
    family: ModelFamily,
)
    ensures
        ({
            let caption = family_items(catalog, installed, active_model, lang, family)[0];
            let title = match family {
                ModelFamily::Tiny => "Tiny"@,
                ModelFamily::Base => "Base"@,
                ModelFamily::Small => "Small"@,
                ModelFamily::Medium => "Medium"@,
                ModelFamily::Large => "Large"@,
                ModelFamily::Vad => "VAD"@,
            };
            &&& !caption.enabled && caption.id.len() == 0
            &&& caption.label == seq!['─', '─', ' '] + title + seq![' ', '─', '─']
        }),
{
    reveal_strlit("── ");
    reveal_strlit(" ──");
    let caption = family_items(catalog, installed, active_model, lang, family)[0];
    let title = family_title(family, lang);
    assert(caption.label =~= seq!['─', '─', ' '] + title + seq![' ', '─', '─']);
}

/// The single items of the menu do what they say: the key, the folder of the
/// models, the updates and the end of the program.
pub proof fn single_items_do_what_they_say(
    catalog: Seq<ModelEntry>,
    installed: Seq<String>,
    active_model: Seq<char>,
    lang: UiLanguage,
)
    ensures
        hotkey_menu(lang).len() == 1 && (hotkey_menu(lang)[0] matches SectionView::Item(item)
            && item.label == table(lang).change_hotkey@ && action_of(item.id) == Some(
            ActionView::ChangeHotkey,
        ) && item.enabled),
        exit_menu(lang).len() == 1 && (exit_menu(lang)[0] matches SectionView::Item(item)
            && item.label == table(lang).exit@ && action_of(item.id) == Some(ActionView::Exit)
            && item.enabled),
        ({
            let menu = models_menu(catalog, installed, active_model, lang);
            &&& menu.len() == 3
            &&& menu[0] == (SectionView::Submenu {
                label: table(lang).models@,
                items: all_family_items(catalog, installed, active_model, lang),
            })
            &&& menu[1] matches SectionView::Item(item) && item.label == table(
                lang,
            ).open_models_dir@ && action_of(item.id) == Some(ActionView::OpenModelsDir)
                && item.enabled
            &&& menu[2] matches SectionView::Item(item) && item.label == table(lang).check_updates@
                && action_of(item.id) == Some(ActionView::CheckUpdates) && item.enabled
        }),
{
    every_identifier_has_its_action();
}

/// A model that is suggested for the sake of the language is named in an item
/// that changes to it, and without one there is no such item.
pub proof fn a_suggestion_is_shown(lang: UiLanguage, suggested: Option<Seq<char>>)
    ensures
        match suggested {
            None => mismatch_menu(lang, suggested).len() == 0,
            Some(name) => {
                let quoted = seq![' ', '('] + name + seq![')'];
                &&& mismatch_menu(lang, suggested).len() == 1
                &&& mismatch_menu(lang, suggested)[0] matches SectionView::Item(item)
                    && item.enabled && quoted.is_suffix_of(item.label) && (action_of(
                    item.id,
                ) matches Some(action) && action is FixModelLanguage)
            },
        },
{
    every_identifier_has_its_action();
    reveal_strlit(" (");
    reveal_strlit(")");
    if let Some(name) = suggested {
        let quoted = seq![' ', '('] + name + seq![')'];
        let label = mismatch_menu(lang, suggested)[0]->Item_0.label;
        let n = label.len() as int;
        assert(label.subrange(n - quoted.len(), n) =~= quoted);
    }
}

/// The notice stands above everything else, and its presence moves nothing else
/// about. The end of the program stands at the bottom.
pub proof fn a_notice_stands_on_top(ctx: BuildContext, suggested: String)
    ensures
        ({
            let without = BuildContext { model_lang_mismatch: None, ..ctx };
            let with = BuildContext { model_lang_mismatch: Some(suggested), ..ctx };
            &&& default_menus(with).drop_first() == default_menus(without)
            &&& default_names(with).drop_first() == default_names(without)
            &&& default_menus(with)[0] == mismatch_menu(ctx.ui_language, Some(suggested@))
            &&& default_menus(without).len() == 9
            &&& default_names(without).len() == 9
            &&& default_menus(without).last() == exit_menu(ctx.ui_language)
        }),
{
    let without = BuildContext { model_lang_mismatch: None, ..ctx };
    let with = BuildContext { model_lang_mismatch: Some(suggested), ..ctx };
    assert(default_menus(with).drop_first() =~= default_menus(without));
    assert(default_names(with).drop_first() =~= default_names(without));
}

/// The automatic choice says that it is active where it is, in English in the
/// English menu and in Spanish in the others, and a device that is chosen ends
/// with the mark of the language.
pub proof fn the_active_microphone_is_marked(
    devices: Seq<MicDevice>,
    active: Option<Seq<char>>,
    lang: UiLanguage,
    k: int,
)
    ensures
        ({
            let items = submenu_items(microphone_menu(devices, active, lang));
            let mark = if lang == UiLanguage::En {
                "  ← active"@
            } else {
                "  ← activo"@
            };
            &&& active is None ==> items[0].label.skip(2) == table(lang).mic_auto@ + mark
            &&& active is Some ==> items[0].label.skip(2) == table(lang).mic_auto@
            &&& 0 <= k < devices.len() && active == Some(devices[k].name@) ==> table(
                lang,
            ).mic_active@.is_suffix_of(items[k + 1].label)
        }),
{
    let items = submenu_items(microphone_menu(devices, active, lang));
    let tail = table(lang).mic_auto@ + text_if(active is None, auto_active_mark(lang));
    lemma_mark(active is None, tail);
    assert(items[0] == mic_auto_item(active, lang));
    assert(items[0].label =~= check_mark(active is None) + tail);
    assert(active is Some ==> tail =~= table(lang).mic_auto@);
    if 0 <= k < devices.len() && active == Some(devices[k].name@) {
        assert(items[k + 1] == mic_device_item(devices[k], active, lang));
        let label = items[k + 1].label;
        let mark = table(lang).mic_active@;
        let n = label.len() as int;
        assert(label.subrange(n - mark.len(), n) =~= mark);
    }
}

/// The parts of the menu stand in this order from top to bottom, each under its
/// own name: the key, the theme, the mode, the effort, the language, the prompt,
/// the microphone, the models and the end of the program.
pub proof fn the_parts_stand_in_their_order(ctx: BuildContext)
    ensures
        ({
            let lang = ctx.ui_language;
            let names = base_names();
            let menus = base_menus(ctx);
            &&& names.len() == 9 && menus.len() == 9
            &&& names[0] == "hotkey"@ && menus[0] == hotkey_menu(lang)
            &&& names[1] == "theme"@ && is_submenu(menus[1], table(lang).theme@)
            &&& names[2] == "mode"@ && is_submenu(menus[2], table(lang).mode@)
            &&& names[3] == "effort"@ && is_submenu(menus[3], table(lang).effort@)
            &&& names[4] == "ui_language"@ && is_submenu(menus[4], table(lang).ui_language@)
            &&& names[5] == "prompt"@ && is_submenu(menus[5], table(lang).system_prompt@)
            &&& names[6] == "microphone"@ && is_submenu(menus[6], table(lang).microphone@)
            &&& names[7] == "models"@ && (menus[7][0] matches SectionView::Submenu { label, .. }
                && label == table(lang).models@)
            &&& names[8] == "exit"@ && menus[8] == exit_menu(lang)
        }),
{
}

/// What the menu shows are the preferences that it is built for.
pub proof fn the_menu_shows_its_preferences(ctx: BuildContext)
    ensures
        ({
            let menus = base_menus(ctx);
            &&& menus[1] == theme_menu(ctx.ui_language, ctx.theme)
            &&& menus[2] == mode_menu(ctx.ui_language, ctx.stt_mode)
            &&& menus[3] == effort_menu(ctx.ui_language, ctx.effort)
            &&& menus[4] == ui_language_menu(ctx.ui_language)
            &&& menus[5] == prompt_menu(
                ctx.ui_language,
                ctx.prompt_preset,
                ctx.prompt_custom_text@,
            )
            &&& menus[6] == microphone_menu(
                ctx.input_devices@,
                option_text(ctx.input_device),
                ctx.ui_language,
            )
            &&& menus[7] == models_menu(
                ctx.catalog@,
                ctx.installed@,
                ctx.active_model@,
                ctx.ui_language,
            )
        }),
{
}

} // verus!
