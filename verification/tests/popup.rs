use oido::config::Theme;
use oido::tray::dialog::{
    enable_dpi_awareness, open_in_native_editor, prompt_accepted, show_model_prompt_windows,
    show_prompt_editor_windows, Desktop, IDYES,
};
use oido::tray::dpi::{dpi_for_window_or_default, scale_for_dpi};
use oido::tray::menu::{set_windows_menu_theme, state_tooltip, MenuIdMap};
use oido::tray::popup::{PopupPalette, PopupRow, RowKind, SystemMode};
use oido::tray::popup_window::{
    after_submenu, can_lay_out, can_place, can_size, compute_size, encode_wide, hit_test, key_down, move_hover, open_popup, paint,
    popup_outcome, rgb_to_colorref, wnd_proc, DrawOp, PixelRect, PopupOutcome, PopupState,
    PopupWindow, VK_DOWN, VK_ESCAPE, VK_LEFT, VK_RETURN, VK_RIGHT, VK_UP, WM_CREATE,
    WM_ERASEBKGND, WM_KEYDOWN, WM_LBUTTONUP, WM_MOUSEMOVE, WM_NCDESTROY, WM_PAINT,
};
use oido::tray::traits::{MenuAction, TrayState};

fn action(label: &str, active: bool) -> PopupRow {
    PopupRow {
        kind: RowKind::Action { id: label.to_string(), label: label.to_string(), active },
    }
}

fn separator() -> PopupRow {
    PopupRow { kind: RowKind::Separator }
}

fn submenu(label: &str, child: Vec<PopupRow>) -> PopupRow {
    PopupRow {
        kind: RowKind::Submenu { id: format!("submenu:{label}"), label: label.to_string(), child },
    }
}

/// An action, a dividing line, an active action and a submenu with one item.
fn state() -> PopupState {
    let rows = vec![
        action("uno", false),
        separator(),
        action("dos", true),
        submenu("tres", vec![action("x", false)]),
    ];
    open_popup(rows, PopupPalette::from_theme(Theme::Dark, SystemMode::Unknown), true, 96)
        .unwrap()
}

fn window() -> PopupWindow {
    let mut window = PopupWindow { attached: false, state: state() };
    wnd_proc(&mut window, WM_CREATE, 0, 0, Some(96));
    wnd_proc(&mut window, WM_CREATE, 0, 1, None);
    assert!(!window.attached);
    let reply = wnd_proc(&mut window, WM_CREATE, 0, 1, Some(96));
    assert_eq!(reply.result, Some(0));
    window
}

#[test]
fn a_popup_has_its_size() {
    let s = state();
    assert_eq!((s.width_px, s.height_px), (200, 12 + 3 * 26 + 9));
    assert_eq!(compute_size(&[], 96), (8 * 20 + 24 + 22, 12));
    assert_eq!(compute_size(&[action(&"m".repeat(30), false)], 96), (30 * 8 + 24 + 22, 38));
    assert_eq!(compute_size(&[action(&"m".repeat(300), false)], 192), (840, 76));
    let palette = PopupPalette::from_theme(Theme::Light, SystemMode::Dark);
    assert!(open_popup(Vec::new(), palette, true, 96).is_none());
    assert!(open_popup(vec![separator()], palette, false, 96).is_none());
}

#[test]
fn a_popup_that_does_not_fit_is_noticed() {
    let s = state();
    assert!(can_size(&s.rows));
    assert!(can_lay_out(&s.rows, 96));
    assert!(can_lay_out(&s.rows, 4800));
    assert!(!can_lay_out(&s.rows, u32::MAX));
    let mut s = state();
    assert!(can_place(&s, i32::MAX, i32::MAX, 96));
    s.selected = Some(3);
    assert!(can_place(&s, 10, 20, 96));
    assert!(!can_place(&s, i32::MAX, 20, 96));
    assert!(!can_place(&s, 10, i32::MAX, 96));
}

#[test]
fn a_point_names_at_most_one_row() {
    let s = state();
    assert_eq!(hit_test(&s, 0, 5), None);
    assert_eq!(hit_test(&s, 0, 6), Some(0));
    assert_eq!(hit_test(&s, 0, 31), Some(0));
    assert_eq!(hit_test(&s, 0, 32), Some(1));
    assert_eq!(hit_test(&s, 0, 40), Some(1));
    assert_eq!(hit_test(&s, 0, 41), Some(2));
    assert_eq!(hit_test(&s, 0, 92), Some(3));
    assert_eq!(hit_test(&s, 0, 93), None);
    assert_eq!(hit_test(&s, 0, -1), None);
}

#[test]
fn the_focus_passes_over_dividing_lines() {
    let mut s = state();
    move_hover(&mut s, 1);
    assert_eq!(s.hover, Some(0));
    move_hover(&mut s, 1);
    assert_eq!(s.hover, Some(2));
    move_hover(&mut s, -1);
    assert_eq!(s.hover, Some(0));
    move_hover(&mut s, -1);
    assert_eq!(s.hover, Some(3));
    move_hover(&mut s, 1);
    assert_eq!(s.hover, Some(0));
    s.hover = None;
    move_hover(&mut s, -1);
    assert_eq!(s.hover, Some(3));
}

#[test]
fn keys_choose_and_close() {
    let mut s = state();
    assert!(!key_down(&mut s, VK_RETURN).close);
    assert!(key_down(&mut s, VK_DOWN).invalidate);
    assert!(!key_down(&mut s, VK_RIGHT).close);
    let reply = key_down(&mut s, VK_RETURN);
    assert!(reply.close);
    assert_eq!(s.selected, Some(0));

    let mut s = state();
    key_down(&mut s, VK_UP);
    assert!(!key_down(&mut s, VK_RETURN).close);
    assert!(key_down(&mut s, VK_RIGHT).close);
    assert_eq!(s.selected, Some(3));
    assert!(key_down(&mut s, VK_LEFT).close);
    assert_eq!(s.selected, None);
    assert!(key_down(&mut s, VK_ESCAPE).close);
    assert_eq!(key_down(&mut s, 0x41).result, None);
}

#[test]
fn messages_are_answered() {
    let at = |y: i64| (y << 16) | 7;
    let mut w = window();
    let reply = wnd_proc(&mut w, WM_MOUSEMOVE, 0, at(10), Some(96));
    assert!(reply.invalidate);
    assert_eq!(w.state.hover, Some(0));
    assert!(!wnd_proc(&mut w, WM_MOUSEMOVE, 0, at(11), Some(96)).invalidate);
    assert!(wnd_proc(&mut w, WM_PAINT, 0, 0, Some(96)).paint);
    assert_eq!(wnd_proc(&mut w, WM_ERASEBKGND, 0, 0, Some(96)).result, Some(1));
    assert_eq!(wnd_proc(&mut w, 0x9999, 0, 0, Some(96)).result, None);
    assert!(wnd_proc(&mut w, WM_KEYDOWN, u64::from(VK_DOWN), 0, Some(96)).invalidate);
    assert_eq!(w.state.hover, Some(2));

    assert!(wnd_proc(&mut w, WM_LBUTTONUP, 0, at(50), Some(96)).close);
    assert_eq!(w.state.selected, Some(2));
    wnd_proc(&mut w, WM_LBUTTONUP, 0, at(35), Some(96));
    assert_eq!(w.state.selected, None);
    wnd_proc(&mut w, WM_LBUTTONUP, 0, at(80), Some(96));
    assert_eq!(w.state.selected, None);

    wnd_proc(&mut w, WM_NCDESTROY, 0, 0, Some(96));
    assert!(!w.attached);
    assert!(!wnd_proc(&mut w, WM_PAINT, 0, 0, Some(96)).paint);
    assert_eq!(wnd_proc(&mut w, WM_KEYDOWN, u64::from(VK_DOWN), 0, Some(96)).result, None);
}

#[test]
fn a_popup_is_painted_from_top_to_bottom() {
    let mut s = state();
    s.hover = Some(2);
    let rect = |left, top, right, bottom| PixelRect { left, top, right, bottom };
    let dark = |n: u32| n | (n << 8) | (n << 16);
    assert_eq!(
        paint(&s),
        vec![
            DrawOp::Fill { rect: rect(0, 0, 200, 99), color: dark(10) },
            DrawOp::TextColor { color: dark(236) },
            DrawOp::Text { rect: rect(12, 6, 154, 32), text: encode_wide("uno") },
            DrawOp::Fill { rect: rect(12, 35, 188, 37), color: dark(42) },
            DrawOp::Fill { rect: rect(0, 41, 200, 67), color: dark(31) },
            DrawOp::Text { rect: rect(12, 41, 154, 67), text: encode_wide("dos") },
            DrawOp::Text { rect: rect(166, 41, 188, 67), text: encode_wide("\u{2713}") },
            DrawOp::Text { rect: rect(12, 67, 154, 93), text: encode_wide("tres") },
            DrawOp::Text { rect: rect(166, 67, 188, 93), text: encode_wide("\u{25B8}") },
        ]
    );
}

#[test]
fn a_closed_popup_reports_its_choice() {
    let mut s = state();
    assert!(matches!(popup_outcome(s, 10, 20, 96), PopupOutcome::Done(None)));
    s = state();
    s.selected = Some(2);
    assert!(matches!(popup_outcome(s, 10, 20, 96), PopupOutcome::Done(Some((2, None)))));
    s = state();
    s.selected = Some(3);
    match popup_outcome(s, 10, 20, 96) {
        PopupOutcome::OpenSubmenu { index, child, anchor_x, anchor_y } => {
            assert_eq!((index, anchor_x, anchor_y), (3, 210, 20 + 6 + 3 * 26));
            assert_eq!(child.len(), 1);
        }
        other => panic!("{other:?}"),
    }
    assert_eq!(after_submenu(3, Some((0, None))), Some((3, Some(0))));
    assert_eq!(after_submenu(3, None), Some((3, None)));
}

#[test]
fn colours_and_texts_are_encoded() {
    assert_eq!(rgb_to_colorref((1, 2, 3)), 0x03_0201);
    for s in ["", "ñ", "oido", "𝄞 clef"] {
        let mut expected: Vec<u16> = s.encode_utf16().collect();
        expected.push(0);
        assert_eq!(encode_wide(s), expected);
    }
}

#[test]
fn lengths_are_scaled() {
    assert_eq!(dpi_for_window_or_default(None), 96);
    assert_eq!(dpi_for_window_or_default(Some(0)), 96);
    assert_eq!(dpi_for_window_or_default(Some(144)), 144);
    assert_eq!(scale_for_dpi(26, 0), 0);
    for (dip, dpi) in [(26, 120), (-7, 144), (i32::MAX, 97), (i32::MIN, u32::MAX), (420, 4800)] {
        let n = i64::from(dip) * i64::from(dpi);
        assert_eq!(scale_for_dpi(dip, dpi), ((n + 48) / 96) as i32);
    }
}

#[test]
fn the_desktop_decides() {
    assert!(show_prompt_editor_windows(Desktop::Windows, "c", false).is_none());
    let windows = open_in_native_editor(Desktop::Windows, "c");
    assert_eq!(windows[0].program, "notepad.exe");
    assert_eq!(windows[1].args, ["/C", "start", "", "notepad.exe", "c"]);
    assert_eq!(open_in_native_editor(Desktop::MacOs, "c")[0].args, ["-t", "c"]);
    let unix = show_prompt_editor_windows(Desktop::OtherUnix, "c", true).unwrap();
    assert_eq!(unix[0].program, "xdg-open");
    assert!(prompt_accepted(Desktop::Windows, IDYES));
    assert!(!prompt_accepted(Desktop::Windows, 7));
    assert!(!prompt_accepted(Desktop::MacOs, IDYES));
    assert_eq!(enable_dpi_awareness(Desktop::Windows), Some(-4));
    assert_eq!(enable_dpi_awareness(Desktop::OtherUnix), None);
    let prompt = show_model_prompt_windows();
    assert_eq!(String::from_utf16(&prompt.title).unwrap(), "Oido Speech Model\0");
    assert!(String::from_utf16(&prompt.text).unwrap().contains("ggml-base.bin (~140 MB)"));
}

#[test]
fn the_menu_maps_its_items() {
    let mut map = MenuIdMap::new();
    map.insert("7".to_string(), "theme_dark".to_string());
    map.insert("8".to_string(), "no such item".to_string());
    assert_eq!(map.action_for("7"), Some(MenuAction::SetTheme(Theme::Dark)));
    assert_eq!(map.action_for("8"), None);
    assert_eq!(map.action_for("9"), None);
    assert_eq!(set_windows_menu_theme(Theme::Dark), Some(2));
    assert_eq!(set_windows_menu_theme(Theme::Light), Some(3));
    assert_eq!(set_windows_menu_theme(Theme::System), None);
    assert!(!state_tooltip(TrayState::Idle).is_empty());
    let system = |mode| PopupPalette::from_theme(Theme::System, mode);
    assert_eq!(system(SystemMode::Light), PopupPalette::from_theme(Theme::Light, SystemMode::Dark));
    assert_eq!(system(SystemMode::Unknown), system(SystemMode::Dark));
}
