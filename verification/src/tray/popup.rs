//! The rows of the popup and its colours.
use vstd::prelude::*;
use vstd::string::*;

use crate::config::Theme;
use crate::tray::sections::{action_of, ItemId, MenuItemSpec, Section};

verus! {

/// A row of the popup.
#[derive(Debug)]
pub struct PopupRow {
    pub kind: RowKind,
}

/// What a row is.
#[derive(Debug)]
pub enum RowKind {
    /// A row that can be chosen.
    Action { id: ItemId, label: String, active: bool },
    /// A row that opens a popup of its own.
    Submenu { id: ItemId, label: String, child: Vec<PopupRow> },
    /// A dividing line.
    Separator,
}

impl RowKind {
    /// Whether the row can be chosen or opened.
    pub open spec fn is_selectable(self) -> bool {
        !(self is Separator)
    }

    /// The text of the row.
    pub open spec fn text(self) -> Seq<char> {
        match self {
            RowKind::Action { id, label, active } => label@,
            RowKind::Submenu { id, label, child } => label@,
            RowKind::Separator => Seq::empty(),
        }
    }
}

/// An RGB colour.
pub type Rgb = (u8, u8, u8);

/// The colours of the popup.
#[derive(Debug, Clone, Copy, PartialEq, Eq)]
pub struct PopupPalette {
    /// Behind all rows.
    pub bg: Rgb,
    /// Behind the row under the pointer.
    pub hover: Rgb,
    pub separator: Rgb,
    pub text: Rgb,
    pub accent: Rgb,
}

/// What the operating system reports as its theme.
#[derive(Debug, Clone, Copy, PartialEq, Eq, Structural)]
pub enum SystemMode {
    Light,
    Dark,
    Unknown,
}

pub open spec fn dark_palette() -> PopupPalette {
    PopupPalette {
        bg: (10, 10, 10),
        hover: (31, 31, 31),
        separator: (42, 42, 42),
        text: (236, 236, 236),
        accent: (59, 130, 246),
    }
}

pub open spec fn light_palette() -> PopupPalette {
    PopupPalette {
        bg: (255, 255, 255),
        hover: (234, 234, 234),
        separator: (208, 208, 208),
        text: (26, 26, 26),
        accent: (47, 111, 237),
    }
}

impl PopupPalette {
    /// The colours for `theme`; `Theme::System` takes after `system`, and is
    /// dark where the system does not report a light theme.
    pub fn from_theme(theme: Theme, system: SystemMode) -> (r: Self)
        ensures
            r == if theme == Theme::Light || (theme == Theme::System && system
                == SystemMode::Light) {
                light_palette()
            } else {
                dark_palette()
            },
            r == palette_for(theme, system),
    {
        let light = match theme {
            Theme::Dark => false,
            Theme::Light => true,
            Theme::System => match system {
                SystemMode::Light => true,
                _ => false,
            },
        };
        if light {
            PopupPalette {
                bg: (255, 255, 255),
                hover: (234, 234, 234),
                separator: (208, 208, 208),
                text: (26, 26, 26),
                accent: (47, 111, 237),
            }
        } else {
            PopupPalette {
                bg: (10, 10, 10),
                hover: (31, 31, 31),
                separator: (42, 42, 42),
                text: (236, 236, 236),
                accent: (59, 130, 246),
            }
        }
    }
}

/// The row of a menu item: captions are the active rows.
pub open spec fn is_item_row(row: PopupRow, item: MenuItemSpec) -> bool {
    row.kind matches RowKind::Action { id, label, active } && id@ == item.id@ && label@
        == item.label@ && active == !item.enabled
}

/// The rows of a list of items, one each, in order.
pub open spec fn are_item_rows(rows: Seq<PopupRow>, items: Seq<MenuItemSpec>) -> bool {
    rows.len() == items.len() && forall|i: int|
        0 <= i < rows.len() ==> is_item_row(#[trigger] rows[i], items[i])
}

/// The identifier of the row of a submenu: that of its first item behind a
/// prefix that no action has.
pub open spec fn submenu_row_id(items: Seq<MenuItemSpec>) -> Seq<char> {
    if items.len() == 0 {
        "submenu:"@
    } else {
        "submenu:"@ + items[0].id@
    }
}

/// The row of one entry of the menu tree.
pub open spec fn is_section_row(row: PopupRow, section: Section) -> bool {
    match section {
        Section::Item(item) => is_item_row(row, item),
        Section::Submenu { label: title, items } => row.kind matches RowKind::Submenu {
            id,
            label,
            child,
        } && id@ == submenu_row_id(items@) && label@ == title@ && are_item_rows(child@, items@),
        Section::Separator => row.kind is Separator,
    }
}

fn item_row(item: &MenuItemSpec) -> (r: PopupRow)
    ensures
        is_item_row(r, *item),
{
    PopupRow {
        kind: RowKind::Action {
            id: item.id.clone(),
            label: item.label.clone(),
            active: !item.enabled,
        },
    }
}

/// The rows of a list of items.
pub fn rows_from_items(items: &[MenuItemSpec]) -> (r: Vec<PopupRow>)
    ensures
        are_item_rows(r@, items@),
{
    let mut out: Vec<PopupRow> = Vec::new();
    let mut i: usize = 0;
    while i < items.len()
        invariant
            i <= items@.len(),
            out@.len() == i,
            forall|j: int| 0 <= j < i ==> is_item_row(#[trigger] out@[j], items@[j]),
        decreases items@.len() - i,
    {
        out.push(item_row(&items[i]));
        i += 1;
    }
    out
}

/// Appends the row of `section` to `out`.
pub fn push_section(out: &mut Vec<PopupRow>, section: &Section)
    ensures
        final(out)@.len() == old(out)@.len() + 1,
        final(out)@.drop_last() == old(out)@,
        is_section_row(final(out)@.last(), *section),
{
    let row = match section {
        Section::Item(item) => item_row(item),
        Section::Submenu { label, items } => {
            let mut id = "submenu:".to_owned();
            if items.len() > 0 {
                id.append(items[0].id.as_str());
            }
            PopupRow {
                kind: RowKind::Submenu {
                    id,
                    label: label.clone(),
                    child: rows_from_items(items.as_slice()),
                },
            }
        },
        Section::Separator => PopupRow { kind: RowKind::Separator },
    };
    out.push(row);
    assert(out@.drop_last() =~= old(out)@);
}

/// The rows of a menu tree: one per entry, in order; the items of a submenu
/// become the rows of its own popup.
pub fn flatten_sections(sections: &[Section]) -> (r: Vec<PopupRow>)
    ensures
        r@.len() == sections@.len(),
        forall|i: int| 0 <= i < r@.len() ==> is_section_row(#[trigger] r@[i], sections@[i]),
{
    let mut out: Vec<PopupRow> = Vec::new();
    let mut i: usize = 0;
    while i < sections.len()
        invariant
            i <= sections@.len(),
            out@.len() == i,
            forall|j: int| 0 <= j < i ==> is_section_row(#[trigger] out@[j], sections@[j]),
        decreases sections@.len() - i,
    {
        let ghost before = out@;
        push_section(&mut out, &sections[i]);
        assert(forall|j: int| 0 <= j < i ==> out@[j] == out@.drop_last()[j]);
        i += 1;
    }
    out
}

// ---------------------------------------------------------------------------
// Laws
// ---------------------------------------------------------------------------

/// The colours for a theme, given what the operating system reports.
pub open spec fn palette_for(theme: Theme, system: SystemMode) -> PopupPalette {
    if theme == Theme::Light || (theme == Theme::System && system == SystemMode::Light) {
        light_palette()
    } else {
        dark_palette()
    }
}

/// A theme that is chosen goes before the one of the system. Left to the system
/// the popup looks as it does with the same theme chosen, and dark where the
/// system does not say.
pub proof fn a_chosen_theme_goes_first(a: SystemMode, b: SystemMode)
    ensures
        palette_for(Theme::Dark, a) == palette_for(Theme::Dark, b),
        palette_for(Theme::Light, a) == palette_for(Theme::Light, b),
        palette_for(Theme::Dark, a) != palette_for(Theme::Light, a),
        palette_for(Theme::System, SystemMode::Light) == palette_for(Theme::Light, a),
        palette_for(Theme::System, SystemMode::Dark) == palette_for(Theme::Dark, a),
        palette_for(Theme::System, SystemMode::Unknown) == palette_for(Theme::Dark, a),
{
    assert(light_palette().bg.0 != dark_palette().bg.0);
}

/// How bright a colour is.
pub open spec fn brightness(rgb: Rgb) -> int {
    rgb.0 + rgb.1 + rgb.2
}

/// On the dark palette everything stands out by being brighter than the ground
/// and on the light one by being darker, the text by far the most, and the row
/// in focus and the dividing lines little, the lines more than the focus.
pub proof fn a_palette_is_readable()
    ensures
        ({
            let dark = dark_palette();
            let light = light_palette();
            &&& brightness(dark.bg) < brightness(dark.hover) < brightness(dark.separator)
                < brightness(dark.accent) < brightness(dark.text)
            &&& brightness(light.bg) > brightness(light.hover) > brightness(light.separator)
                > brightness(light.accent) > brightness(light.text)
            &&& brightness(light.bg) == 3 * 255
            &&& brightness(dark.text) - brightness(dark.bg) > 600
            &&& brightness(light.bg) - brightness(light.text) > 600
        }),
{
}

/// The colours of the two palettes by their numbers.
pub proof fn the_palettes_have_their_colours()
    ensures
        dark_palette().bg == (10u8, 10u8, 10u8) && light_palette().bg == (255u8, 255u8, 255u8),
        dark_palette().hover == (31u8, 31u8, 31u8) && light_palette().hover == (
            234u8,
            234u8,
            234u8,
        ),
        dark_palette().separator == (42u8, 42u8, 42u8) && light_palette().separator == (
            208u8,
            208u8,
            208u8,
        ),
        dark_palette().text == (236u8, 236u8, 236u8) && light_palette().text == (26u8, 26u8, 26u8),
        dark_palette().accent == (59u8, 130u8, 246u8) && light_palette().accent == (
            47u8,
            111u8,
            237u8,
        ),
{
}

/// The row of a submenu has an identifier that asks for nothing.
#[verifier::rlimit(40)]
pub proof fn a_submenu_row_asks_for_nothing(items: Seq<MenuItemSpec>)
    ensures
        action_of(submenu_row_id(items)) is None,
{
    reveal_strlit("submenu:");
    reveal_strlit("change_hotkey");
    reveal_strlit("theme_dark");
    reveal_strlit("theme_light");
    reveal_strlit("theme_system");
    reveal_strlit("mode_batch");
    reveal_strlit("mode_streaming");
    reveal_strlit("mode_chunked");
    reveal_strlit("effort_balanced");
    reveal_strlit("effort_robust");
    reveal_strlit("effort_high_quality");
    reveal_strlit("ui_es");
    reveal_strlit("ui_en");
    reveal_strlit("ui_bil");
    reveal_strlit("prompt_bilingual");
    reveal_strlit("prompt_es");
    reveal_strlit("prompt_en");
    reveal_strlit("prompt_custom");
    reveal_strlit("prompt_edit");
    reveal_strlit("open_models_dir");
    reveal_strlit("check_updates");
    reveal_strlit("exit");
    reveal_strlit("fix_model_lang");
    reveal_strlit("mic_auto");
    reveal_strlit("mic_reprobe");
    reveal_strlit("mic:");
    reveal_strlit("model:");
    let id = submenu_row_id(items);
    assert(id[0] == 's' && id.len() >= 8);
    assert("mic:"@.is_prefix_of(id) ==> id.subrange(0, 4)[0] == 'm');
    assert("model:"@.is_prefix_of(id) ==> id.subrange(0, 6)[0] == 'm');
    assert("change_hotkey"@[0] == 'c' && "check_updates"@[0] == 'c' && "exit"@[0] == 'e');
    assert("theme_dark"@[0] == 't' && "theme_light"@[0] == 't' && "theme_system"@[0] == 't');
    assert("mode_batch"@[0] == 'm' && "mode_streaming"@[0] == 'm' && "mode_chunked"@[0] == 'm');
    assert("effort_balanced"@[0] == 'e' && "effort_robust"@[0] == 'e');
    assert("effort_high_quality"@[0] == 'e' && "fix_model_lang"@[0] == 'f');
    assert("ui_es"@[0] == 'u' && "ui_en"@[0] == 'u' && "ui_bil"@[0] == 'u');
    assert("prompt_bilingual"@[0] == 'p' && "prompt_es"@[0] == 'p' && "prompt_en"@[0] == 'p');
    assert("prompt_custom"@[0] == 'p' && "prompt_edit"@[0] == 'p' && "mic_auto"@[0] == 'm');
    assert("open_models_dir"@[0] == 'o' && "mic_reprobe"@[0] == 'm');
}

/// The row of an item has the identifier and the label of the item and can be
/// chosen, a dividing line cannot, and a submenu has a row for each of its
/// items.
pub proof fn a_row_stands_for_its_entry(row: PopupRow, section: Section)
    requires
        is_section_row(row, section),
    ensures
        match section {
            Section::Item(item) => row.kind.is_selectable() && row.kind.text() == item.label@ && (
            row.kind matches RowKind::Action { id, active, .. } && id@ == item.id@ && active
                != item.enabled),
            Section::Submenu { label, items } => row.kind.is_selectable() && row.kind.text()
                == label@ && (row.kind matches RowKind::Submenu { child, .. } && child@.len()
                == items@.len() && forall|j: int|
                0 <= j < items@.len() ==> (#[trigger] child@[j]).kind.text()
                    == items@[j].label@),
            Section::Separator => !row.kind.is_selectable() && row.kind.text().len() == 0,
        },
{
}

/// The row of a submenu is known by its first item.
pub proof fn a_submenu_row_is_known_by_its_first_item(items: Seq<MenuItemSpec>)
    ensures
        items.len() > 0 ==> submenu_row_id(items).skip(8) == items[0].id@,
        items.len() == 0 ==> submenu_row_id(items).len() == 8,
        submenu_row_id(items).take(8) == "submenu:"@,
{
    reveal_strlit("submenu:");
    if items.len() > 0 {
        assert(submenu_row_id(items).skip(8) =~= items[0].id@);
    }
    assert(submenu_row_id(items).take(8) =~= "submenu:"@);
}

} // verus!
