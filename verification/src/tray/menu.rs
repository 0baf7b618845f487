//! The native menu: its tree, its tooltips and what its events mean.
use vstd::hash_map::StringHashMap;
use vstd::prelude::*;
use vstd::string::*;

use crate::config::{Theme, UiLanguage};
use crate::tray::i18n::{strings, table};
use crate::tray::sections::{
    action_of, caption, id_to_action, option_action, part_menus, section_views, MenuItemSpec,
    MenuPart, MenuSection, Section, SectionView,
};
use crate::tray::traits::{ActionView, MenuAction, TrayState};

verus! {

/// The tooltip of the icon in a state.
pub open spec fn tooltip_of(state: TrayState) -> Seq<char> {
    match state {
        TrayState::Idle => "oido — idle (F8 para dictar)"@,
        TrayState::Listening => "oido — escuchando…"@,
        TrayState::Processing => "oido — procesando…"@,
        TrayState::Paused => "oido — pausado"@,
        TrayState::Error => "oido — error"@,
        TrayState::Loading => "oido — cargando modelo…"@,
    }
}

/// The tooltip of the icon in `state`.
pub fn state_tooltip(state: TrayState) -> (r: String)
    ensures
        r@ == tooltip_of(state),
{
    (match state {
        TrayState::Idle => "oido — idle (F8 para dictar)",
        TrayState::Listening => "oido — escuchando…",
        TrayState::Processing => "oido — procesando…",
        TrayState::Paused => "oido — pausado",
        TrayState::Error => "oido — error",
        TrayState::Loading => "oido — cargando modelo…",
    }).to_owned()
}

/// The tooltip that warns of an English-only model with another language.
pub fn mismatch_tooltip(lang: UiLanguage) -> (r: &'static str)
    ensures
        r == table(lang).model_lang_mismatch_tooltip,
{
    strings(lang).model_lang_mismatch_tooltip
}

/// The mode that the window system is asked to prefer for `theme`: 2 forces
/// dark, 3 forces light, and the system's own theme needs no request.
pub fn set_windows_menu_theme(theme: Theme) -> (r: Option<i32>)
    ensures
        r == match theme {
            Theme::Dark => Some(2i32),
            Theme::Light => Some(3i32),
            Theme::System => None,
        },
        r == preferred_mode(theme),
{
    match theme {
        Theme::Dark => Some(2),
        Theme::Light => Some(3),
        Theme::System => None,
    }
}

/// The entries of the sections, with a dividing line between each two.
pub open spec fn divided(menus: Seq<Seq<SectionView>>) -> Seq<SectionView>
    decreases menus.len(),
{
    if menus.len() == 0 {
        Seq::empty()
    } else if menus.len() == 1 {
        menus[0]
    } else {
        divided(menus.drop_last()) + seq![SectionView::Separator] + menus.last()
    }
}

/// The native menu: the title, a dividing line, then the sections.
pub open spec fn native_menu(menus: Seq<Seq<SectionView>>) -> Seq<SectionView> {
    seq![SectionView::Item(caption("oido 2.0"@)), SectionView::Separator] + divided(menus)
}

/// The tree of the native menu for `sections`.
pub fn build_menu_from_sections(sections: &Vec<MenuPart>) -> (r: Vec<Section>)
    ensures
        section_views(r@) == native_menu(part_menus(sections@)),
{
    let mut out: Vec<Section> = Vec::new();
    out.push(
        Section::Item(
            MenuItemSpec { id: String::new(), label: "oido 2.0".to_owned(), enabled: false },
        ),
    );
    out.push(Section::Separator);
    let ghost head = seq![SectionView::Item(caption("oido 2.0"@)), SectionView::Separator];
    assert(section_views(out@) =~= head);
    let mut i: usize = 0;
    assert(part_menus(sections@.take(0)) =~= Seq::empty());
    while i < sections.len()
        invariant
            i <= sections@.len(),
            section_views(out@) == head + divided(part_menus(sections@.take(i as int))),
        decreases sections@.len() - i,
    {
        let ghost before = section_views(out@);
        if i > 0 {
            out.push(Section::Separator);
            assert(section_views(out@) =~= before.push(SectionView::Separator));
        }
        let ghost middle = section_views(out@);
        let mut built = sections[i].build();
        let ghost added = section_views(built@);
        out.append(&mut built);
        assert(section_views(out@) =~= middle + added);
        proof {
            let longer = part_menus(sections@.take(i + 1));
            assert(longer.drop_last() =~= part_menus(sections@.take(i as int)));
            assert(longer.last() == added);
            assert(section_views(out@) =~= head + divided(longer));
        }
        i += 1;
    }
    assert(sections@.take(i as int) =~= sections@);
    out
}

/// Which item each identifier of the native menu stands for.
pub struct MenuIdMap {
    map: StringHashMap<String>,
}

impl View for MenuIdMap {
    type V = Map<Seq<char>, String>;

    closed spec fn view(&self) -> Map<Seq<char>, String> {
        self.map@
    }
}

impl MenuIdMap {
    pub fn new() -> (r: Self)
        ensures
            r@ == Map::<Seq<char>, String>::empty(),
    {
        MenuIdMap { map: StringHashMap::new() }
    }

    /// Notes that the native identifier stands for the item `id`.
    pub fn insert(&mut self, native_id: String, id: String)
        ensures
            final(self)@ == old(self)@.insert(native_id@, id),
    {
        self.map.insert(native_id, id);
    }

    /// What a click on the native item asks for; `None` where the identifier
    /// is unknown or its item asks for nothing.
    pub fn action_for(&self, native_id: &str) -> (r: Option<MenuAction>)
        ensures
            option_action(r) == if self@.contains_key(native_id@) {
                action_of(self@[native_id@]@)
            } else {
                None::<ActionView>
            },
    {
        match self.map.get(native_id) {
            Some(id) => id_to_action(id.as_str()),
            None => None,
        }
    }
}

// ---------------------------------------------------------------------------
// Laws
// ---------------------------------------------------------------------------

/// Each state has a tooltip of its own, and only the idle one names the key.
#[verifier::rlimit(40)]
pub proof fn tooltips_tell_the_states_apart(a: TrayState, b: TrayState)
    ensures
        tooltip_of(a) == tooltip_of(b) <==> a == b,
        a == TrayState::Idle ==> tooltip_of(a) == "oido — idle (F8 para dictar)"@,
        a == TrayState::Listening ==> tooltip_of(a) == "oido — escuchando…"@,
        a == TrayState::Processing ==> tooltip_of(a) == "oido — procesando…"@,
        a == TrayState::Paused ==> tooltip_of(a) == "oido — pausado"@,
        a == TrayState::Error ==> tooltip_of(a) == "oido — error"@,
        a == TrayState::Loading ==> tooltip_of(a) == "oido — cargando modelo…"@,
{
    reveal_strlit("oido — idle (F8 para dictar)");
    reveal_strlit("oido — escuchando…");
    reveal_strlit("oido — procesando…");
    reveal_strlit("oido — pausado");
    reveal_strlit("oido — error");
    reveal_strlit("oido — cargando modelo…");
    assert("oido — idle (F8 para dictar)"@[7] == 'i');
    assert("oido — escuchando…"@[7] == 'e' && "oido — escuchando…"@[8] == 's');
    assert("oido — procesando…"@[7] == 'p' && "oido — procesando…"@[8] == 'r');
    assert("oido — pausado"@[7] == 'p' && "oido — pausado"@[8] == 'a');
    assert("oido — error"@[7] == 'e' && "oido — error"@[8] == 'r');
    assert("oido — cargando modelo…"@[7] == 'c');
}

/// The mode that the window system is asked to prefer for a theme.
pub open spec fn preferred_mode(theme: Theme) -> Option<i32> {
    match theme {
        Theme::Dark => Some(2i32),
        Theme::Light => Some(3i32),
        Theme::System => None,
    }
}

/// Only a theme that is chosen is asked for, the dark one by 2 and the light one
/// by 3.
pub proof fn a_chosen_theme_is_asked_for(theme: Theme)
    ensures
        preferred_mode(theme) is None <==> theme == Theme::System,
        preferred_mode(theme) == Some(2i32) <==> theme == Theme::Dark,
        preferred_mode(theme) == Some(3i32) <==> theme == Theme::Light,
{
}

/// Parts of the menu that are put together are divided where they meet, and
/// nowhere else: a single part stands as it is.
pub proof fn parts_are_divided_where_they_meet(
    upper: Seq<Seq<SectionView>>,
    lower: Seq<Seq<SectionView>>,
    part: Seq<SectionView>,
)
    requires
        upper.len() > 0,
        lower.len() > 0,
    ensures
        divided(upper + lower) == divided(upper) + seq![SectionView::Separator] + divided(lower),
        divided(seq![part]) == part,
    decreases lower.len(),
{
    let all = upper + lower;
    assert(all.last() == lower.last());
    if lower.len() == 1 {
        assert(all.drop_last() =~= upper);
        assert(divided(lower) == lower[0]);
        assert(lower.last() == lower[0]);
    } else {
        assert(all.drop_last() =~= upper + lower.drop_last());
        parts_are_divided_where_they_meet(upper, lower.drop_last(), part);
        assert(divided(all) =~= divided(upper) + seq![SectionView::Separator] + divided(lower));
    }
}

/// The menu begins with the name of the program, which cannot be chosen, and a
/// dividing line.
pub proof fn the_menu_begins_with_its_title(menus: Seq<Seq<SectionView>>)
    ensures
        native_menu(menus)[0] matches SectionView::Item(item) && !item.enabled && item.id.len() == 0
            && item.label == "oido 2.0"@,
        native_menu(menus)[1] is Separator,
        native_menu(menus).skip(2) == divided(menus),
{
    assert(native_menu(menus).skip(2) =~= divided(menus));
}

} // verus!
