//! The popup window: its layout, what a click or a key does, and what is
//! painted.
use vstd::prelude::*;
use vstd::string::*;

use crate::text::chars_of;
use crate::tray::dpi::{lemma_scaled_small, scale_for_dpi, scaled};
use crate::tray::popup::{PopupPalette, PopupRow, Rgb, RowKind};

verus! {

/// Space to the left and right of a row, in logical units.
pub const H_PAD: i32 = 12;

/// Space above the first and below the last row, in logical units.
pub const V_PAD: i32 = 6;

/// Height of a row, in logical units.
pub const ROW_HEIGHT: i32 = 26;

/// Height of a dividing line, in logical units.
pub const SEPARATOR_HEIGHT: i32 = 9;

/// Space for the symbol at the right, in logical units.
pub const RIGHT_GUTTER: i32 = 22;

pub const MIN_WIDTH: i32 = 200;

pub const MAX_WIDTH: i32 = 420;

/// Width of a character, in logical units.
pub const CHAR_WIDTH: i32 = 8;

// ---------------------------------------------------------------------------
// Layout
// ---------------------------------------------------------------------------

/// The height of a row in logical units.
pub open spec fn row_units(kind: RowKind) -> int {
    if kind.is_selectable() {
        ROW_HEIGHT as int
    } else {
        SEPARATOR_HEIGHT as int
    }
}

/// The height of a row in pixels.
pub open spec fn row_pixels(kind: RowKind, dpi: u32) -> int {
    scaled(row_units(kind), dpi as int)
}

/// The distance of row `i` from the top of the window, in pixels. For the
/// number of rows, the bottom of the last row.
pub open spec fn row_top(rows: Seq<PopupRow>, dpi: u32, i: int) -> int
    decreases i,
{
    if i <= 0 {
        scaled(V_PAD as int, dpi as int)
    } else {
        row_top(rows, dpi, i - 1) + row_pixels(rows[i - 1].kind, dpi)
    }
}

/// A later row is not above an earlier one.
pub proof fn rows_stand_in_order(rows: Seq<PopupRow>, dpi: u32, i: int, j: int)
    requires
        0 <= i <= j,
    ensures
        0 <= row_top(rows, dpi, i) <= row_top(rows, dpi, j),
    decreases j,
{
    lemma_scaled_small(V_PAD as int, dpi as int);
    lemma_scaled_small(ROW_HEIGHT as int, dpi as int);
    lemma_scaled_small(SEPARATOR_HEIGHT as int, dpi as int);
    if i < j {
        rows_stand_in_order(rows, dpi, i, j - 1);
    } else if i > 0 {
        rows_stand_in_order(rows, dpi, i - 1, i - 1);
    }
}

/// Whether the rows fit in the coordinates of the window system.
pub open spec fn layout_fits(rows: Seq<PopupRow>, dpi: u32) -> bool {
    rows.len() <= i32::MAX && row_top(rows, dpi, rows.len() as int) < i32::MAX
}

/// An open popup.
#[derive(Debug)]
pub struct PopupState {
    pub rows: Vec<PopupRow>,
    pub palette: PopupPalette,
    pub dpi: u32,
    pub width_px: i32,
    pub height_px: i32,
    /// The row under the pointer or the keyboard focus.
    pub hover: Option<usize>,
    /// The row that closed the popup.
    pub selected: Option<usize>,
}

impl PopupState {
    /// The rows fit in the window system's coordinates, and what is hovered
    /// or selected is a row.
    pub open spec fn wf(self) -> bool {
        &&& layout_fits(self.rows@, self.dpi)
        &&& self.width_px >= 0
        &&& self.hover matches Some(i) ==> i < self.rows@.len()
        &&& self.selected matches Some(i) ==> i < self.rows@.len()
    }

    /// Whether the state differs from `other` in nothing but hover and
    /// selection.
    pub open spec fn same_popup(self, other: Self) -> bool {
        &&& self.rows == other.rows
        &&& self.palette == other.palette
        &&& self.dpi == other.dpi
        &&& self.width_px == other.width_px
        &&& self.height_px == other.height_px
    }
}

fn row_height(kind: &RowKind, dpi: u32) -> (r: i32)
    ensures
        r == row_pixels(*kind, dpi),
        0 <= r,
{
    proof {
        lemma_scaled_small(ROW_HEIGHT as int, dpi as int);
        lemma_scaled_small(SEPARATOR_HEIGHT as int, dpi as int);
    }
    match kind {
        RowKind::Separator => scale_for_dpi(SEPARATOR_HEIGHT, dpi),
        _ => scale_for_dpi(ROW_HEIGHT, dpi),
    }
}

/// Whether the height `y` falls on row `i`.
pub open spec fn falls_on(rows: Seq<PopupRow>, dpi: u32, y: int, i: int) -> bool {
    0 <= i < rows.len() && row_top(rows, dpi, i) <= y < row_top(rows, dpi, i + 1)
}

/// The row at the height `y`; the horizontal position does not matter.
pub fn hit_test(state: &PopupState, _x: i32, y: i32) -> (r: Option<usize>)
    requires
        layout_fits(state.rows@, state.dpi),
    ensures
        match r {
            Some(i) => falls_on(state.rows@, state.dpi, y as int, i as int),
            None => forall|i: int| !falls_on(state.rows@, state.dpi, y as int, i),
        },
{
    let n: usize = state.rows.len();
    let mut top: i32 = scale_for_dpi(V_PAD, state.dpi);
    let mut i: usize = 0;
    while i < n
        invariant
            i <= n,
            n == state.rows@.len(),
            layout_fits(state.rows@, state.dpi),
            top == row_top(state.rows@, state.dpi, i as int),
            forall|j: int| 0 <= j < i ==> !falls_on(state.rows@, state.dpi, y as int, j),
        decreases n - i,
    {
        let h: i32 = row_height(&state.rows[i].kind, state.dpi);
        proof {
            rows_stand_in_order(state.rows@, state.dpi, i + 1, n as int);
        }
        if y >= top && y < top + h {
            return Some(i);
        }
        top += h;
        i += 1;
    }
    None
}

/// No height falls on two rows, so a point names at most one.
pub proof fn a_height_falls_on_one_row(rows: Seq<PopupRow>, dpi: u32, y: int, i: int, j: int)
    requires
        falls_on(rows, dpi, y, i),
        falls_on(rows, dpi, y, j),
    ensures
        i == j,
{
    if i < j {
        rows_stand_in_order(rows, dpi, i + 1, j);
    } else if j < i {
        rows_stand_in_order(rows, dpi, j + 1, i);
    }
}

/// Whether the rows fit in the coordinates of the window system.
pub fn can_lay_out(rows: &[PopupRow], dpi: u32) -> (r: bool)
    ensures
        r == layout_fits(rows@, dpi),
{
    let n: usize = rows.len();
    if n > 0x7FFF_FFFF {
        return false;
    }
    proof {
        lemma_scaled_small(V_PAD as int, dpi as int);
    }
    let mut top: i64 = scale_for_dpi(V_PAD, dpi) as i64;
    let mut i: usize = 0;
    while i < n
        invariant
            i <= n,
            n == rows@.len(),
            n <= i32::MAX,
            top == row_top(rows@, dpi, i as int),
            0 <= top <= 2 * (i32::MAX as int),
        decreases n - i,
    {
        proof {
            rows_stand_in_order(rows@, dpi, i as int, n as int);
            rows_stand_in_order(rows@, dpi, 0, i + 1);
        }
        if top >= 0x7FFF_FFFF {
            return false;
        }
        top += row_height(&rows[i].kind, dpi) as i64;
        i += 1;
    }
    top < 0x7FFF_FFFF
}

/// The length of the longest label.
pub open spec fn longest_label(rows: Seq<PopupRow>) -> nat
    decreases rows.len(),
{
    if rows.len() == 0 {
        0
    } else {
        let rest = longest_label(rows.drop_last());
        let here = rows.last().kind.text().len();
        if here > rest {
            here
        } else {
            rest
        }
    }
}

/// The height of all rows in logical units.
pub open spec fn rows_units(rows: Seq<PopupRow>) -> int
    decreases rows.len(),
{
    if rows.len() == 0 {
        0
    } else {
        rows_units(rows.drop_last()) + row_units(rows.last().kind)
    }
}

/// The width of the popup in logical units: eight per character of the
/// longest label and the paddings, within bounds.
pub open spec fn popup_width(rows: Seq<PopupRow>) -> int {
    let chars = if rows.len() == 0 {
        20
    } else {
        longest_label(rows)
    };
    let ideal = chars * CHAR_WIDTH + 2 * H_PAD + RIGHT_GUTTER;
    if ideal < MIN_WIDTH {
        MIN_WIDTH as int
    } else if ideal > MAX_WIDTH {
        MAX_WIDTH as int
    } else {
        ideal
    }
}

/// The height of the popup in logical units.
pub open spec fn popup_height(rows: Seq<PopupRow>) -> int {
    2 * V_PAD + rows_units(rows)
}

/// Whether the size of the popup can be computed in 32 bits.
pub open spec fn size_fits(rows: Seq<PopupRow>) -> bool {
    popup_height(rows) <= i32::MAX && longest_label(rows) * CHAR_WIDTH + 2 * H_PAD + RIGHT_GUTTER
        <= i32::MAX
}

proof fn lemma_units_grow(rows: Seq<PopupRow>, i: int)
    requires
        0 <= i <= rows.len(),
    ensures
        0 <= rows_units(rows.take(i)) <= rows_units(rows),
        longest_label(rows.take(i)) <= longest_label(rows),
    decreases rows.len(),
{
    if i == rows.len() {
        assert(rows.take(i) =~= rows);
        if rows.len() > 0 {
            lemma_units_grow(rows.drop_last(), rows.len() - 1);
            assert(rows.drop_last().take(rows.len() - 1) =~= rows.drop_last());
        }
    } else {
        lemma_units_grow(rows.drop_last(), i);
        assert(rows.drop_last().take(i) =~= rows.take(i));
    }
}

fn label_chars(kind: &RowKind) -> (r: usize)
    ensures
        r == kind.text().len(),
{
    match kind {
        RowKind::Action { id, label, active } => chars_of(label.as_str()).len(),
        RowKind::Submenu { id, label, child } => chars_of(label.as_str()).len(),
        RowKind::Separator => 0,
    }
}

/// Whether the size of the popup can be computed in 32 bits.
pub fn can_size(rows: &[PopupRow]) -> (r: bool)
    ensures
        r == size_fits(rows@),
{
    let mut height: i64 = V_PAD as i64 * 2;
    let mut i: usize = 0;
    assert(rows@.take(0) =~= Seq::empty());
    while i < rows.len()
        invariant
            i <= rows@.len(),
            height == 2 * V_PAD + rows_units(rows@.take(i as int)),
            height <= i32::MAX,
            longest_label(rows@.take(i as int)) * CHAR_WIDTH + 2 * H_PAD + RIGHT_GUTTER <= i32::MAX,
        decreases rows@.len() - i,
    {
        proof {
            lemma_units_grow(rows@, i + 1);
            lemma_units_grow(rows@.take(i + 1), i as int);
            assert(rows@.take(i + 1).drop_last() =~= rows@.take(i as int));
        }
        if label_chars(&rows[i].kind) > (0x7FFF_FFFF - 46) / 8 {
            return false;
        }
        height += match rows[i].kind {
            RowKind::Separator => SEPARATOR_HEIGHT as i64,
            _ => ROW_HEIGHT as i64,
        };
        i += 1;
        if height > 0x7FFF_FFFF {
            return false;
        }
    }
    assert(rows@.take(i as int) =~= rows@);
    true
}

/// The width and height of the popup for `rows`, in pixels at `dpi`.
pub fn compute_size(rows: &[PopupRow], dpi: u32) -> (r: (i32, i32))
    requires
        size_fits(rows@),
    ensures
        r.0 == scaled(popup_width(rows@), dpi as int),
        r.1 == scaled(popup_height(rows@), dpi as int),
{
    let mut longest: usize = 0;
    let mut height: i32 = V_PAD * 2;
    let mut i: usize = 0;
    assert(rows@.take(0) =~= Seq::empty());
    while i < rows.len()
        invariant
            i <= rows@.len(),
            size_fits(rows@),
            longest == longest_label(rows@.take(i as int)),
            height == 2 * V_PAD + rows_units(rows@.take(i as int)),
        decreases rows@.len() - i,
    {
        proof {
            lemma_units_grow(rows@, i + 1);
            assert(rows@.take(i + 1).drop_last() =~= rows@.take(i as int));
        }
        let n: usize = label_chars(&rows[i].kind);
        if n > longest {
            longest = n;
        }
        height += match rows[i].kind {
            RowKind::Separator => SEPARATOR_HEIGHT,
            _ => ROW_HEIGHT,
        };
        i += 1;
    }
    assert(rows@.take(i as int) =~= rows@);
    let chars: usize = if rows.len() == 0 {
        20
    } else {
        longest
    };
    let ideal: i32 = chars as i32 * CHAR_WIDTH + 2 * H_PAD + RIGHT_GUTTER;
    let width: i32 = if ideal < MIN_WIDTH {
        MIN_WIDTH
    } else if ideal > MAX_WIDTH {
        MAX_WIDTH
    } else {
        ideal
    };
    (scale_for_dpi(width, dpi), scale_for_dpi(height, dpi))
}

/// The popup is taller the more rows it has.
pub proof fn more_rows_are_taller(rows: Seq<PopupRow>, more: Seq<PopupRow>)
    requires
        more.len() > 0,
    ensures
        popup_height(rows + more) > popup_height(rows),
    decreases more.len(),
{
    let all = rows + more;
    assert(all.drop_last() =~= rows + more.drop_last());
    if more.len() > 1 {
        more_rows_are_taller(rows, more.drop_last());
    } else {
        assert(rows + more.drop_last() =~= rows);
    }
}

// ---------------------------------------------------------------------------
// Keyboard focus
// ---------------------------------------------------------------------------

/// Steps from row to row, around the ends, until a row that can be chosen
/// comes up or `fuel` steps are made.
pub open spec fn hover_walk(rows: Seq<PopupRow>, at: int, delta: int, fuel: nat) -> int
    decreases fuel,
{
    let next = (at + delta) % (rows.len() as int);
    if fuel <= 1 || rows[next].kind.is_selectable() {
        next
    } else {
        hover_walk(rows, next, delta, (fuel - 1) as nat)
    }
}

/// Where a walk starts: at the hovered row, or just outside the list on the
/// side away from `delta`.
pub open spec fn walk_start(rows: Seq<PopupRow>, hover: Option<usize>, delta: int) -> int {
    match hover {
        Some(h) => h as int,
        None => if delta > 0 {
            -1
        } else {
            rows.len() as int
        },
    }
}

/// The hovered row after a step by `delta`.
pub open spec fn next_hover(rows: Seq<PopupRow>, hover: Option<usize>, delta: int) -> Option<usize> {
    if rows.len() == 0 {
        hover
    } else {
        Some(hover_walk(rows, walk_start(rows, hover, delta), delta, rows.len()) as usize)
    }
}

/// The remainder of `a` by `m` that is not negative.
fn euclid_rem(a: i64, m: i64) -> (r: i64)
    requires
        m > 0,
        a > i64::MIN,
    ensures
        r == a % m,
        0 <= r < m,
{
    if a >= 0 {
        a % m
    } else {
        let k: i64 = (-a) % m;
        let ghost q = (-a) as int / m as int;
        proof {
            vstd::arithmetic::div_mod::lemma_fundamental_div_mod((-a) as int, m as int);
        }
        if k == 0 {
            proof {
                assert(a == -q * m) by (nonlinear_arith)
                    requires
                        -a == m * q,
                ;
                vstd::arithmetic::div_mod::lemma_fundamental_div_mod_converse(
                    a as int,
                    m as int,
                    -q,
                    0,
                );
            }
            0
        } else {
            proof {
                assert(a == (-q - 1) * m + (m - k)) by (nonlinear_arith)
                    requires
                        -a == m * q + k,
                ;
                vstd::arithmetic::div_mod::lemma_fundamental_div_mod_converse(
                    a as int,
                    m as int,
                    -q - 1,
                    (m - k) as int,
                );
            }
            m - k
        }
    }
}

/// Moves the hover by `delta` rows, around the ends and over dividing lines.
pub fn move_hover(state: &mut PopupState, delta: i32)
    requires
        old(state).rows@.len() <= i32::MAX,
        old(state).hover matches Some(h) ==> h <= i32::MAX,
    ensures
        old(state).wf() ==> final(state).wf(),
        final(state).same_popup(*old(state)),
        final(state).selected == old(state).selected,
        final(state).hover == next_hover(old(state).rows@, old(state).hover, delta as int),
{
    let n: usize = state.rows.len();
    if n == 0 {
        return;
    }
    let mut at: i64 = match state.hover {
        Some(h) => h as i64,
        None => if delta > 0 {
            -1
        } else {
            n as i64
        },
    };
    let ghost start = at as int;
    let mut left: usize = n;
    let mut landed = false;
    while left > 0 && !landed
        invariant
            n == state.rows@.len(),
            0 < n <= i32::MAX,
            left <= n,
            -1 <= at <= i32::MAX,
            start == walk_start(state.rows@, state.hover, delta as int),
            landed ==> at == hover_walk(state.rows@, start, delta as int, n as nat),
            !landed && left > 0 ==> hover_walk(state.rows@, at as int, delta as int, left as nat)
                == hover_walk(state.rows@, start, delta as int, n as nat),
            left == 0 ==> at == hover_walk(state.rows@, start, delta as int, n as nat),
            left < n || landed ==> 0 <= at < n,
        decreases left,
    {
        at = euclid_rem(at + delta as i64, n as i64);
        match state.rows[at as usize].kind {
            RowKind::Separator => {},
            _ => {
                landed = true;
            },
        }
        left -= 1;
    }
    state.hover = Some(at as usize);
}

proof fn lemma_walk_reaches(rows: Seq<PopupRow>, at: int, delta: int, fuel: nat, k: int)
    requires
        rows.len() > 0,
        delta == 1 || delta == -1,
        1 <= k <= fuel,
        rows[(at + k * delta) % (rows.len() as int)].kind.is_selectable(),
    ensures
        0 <= hover_walk(rows, at, delta, fuel) < rows.len(),
        rows[hover_walk(rows, at, delta, fuel)].kind.is_selectable(),
    decreases fuel,
{
    let n = rows.len() as int;
    let next = (at + delta) % n;
    assert(0 <= next < n);
    if !rows[next].kind.is_selectable() {
        assert(k != 1);
        vstd::arithmetic::div_mod::lemma_add_mod_noop(at + delta, (k - 1) * delta, n);
        vstd::arithmetic::div_mod::lemma_add_mod_noop(next, (k - 1) * delta, n);
        vstd::arithmetic::div_mod::lemma_mod_twice(at + delta, n);
        assert(at + delta + (k - 1) * delta == at + k * delta) by (nonlinear_arith);
        lemma_walk_reaches(rows, next, delta, (fuel - 1) as nat, k - 1);
    }
}

/// A step up or down always lands on a row that can be chosen, where there is
/// one: the focus never rests on a dividing line.
pub proof fn focus_lands_on_a_choice(
    rows: Seq<PopupRow>,
    hover: Option<usize>,
    delta: int,
    choice: int,
)
    requires
        delta == 1 || delta == -1,
        0 <= choice < rows.len() <= i32::MAX,
        rows[choice].kind.is_selectable(),
        hover matches Some(h) ==> h < rows.len(),
    ensures
        next_hover(rows, hover, delta) matches Some(h) && h < rows.len()
            && rows[h as int].kind.is_selectable(),
{
    let n = rows.len() as int;
    let at = walk_start(rows, hover, delta);
    let apart = if delta == 1 {
        choice - at - 1
    } else {
        at - choice - 1
    };
    let k = apart % n + 1;
    assert(1 <= k <= n);
    // `at + k * delta` and `choice` differ by a multiple of `n`.
    vstd::arithmetic::div_mod::lemma_fundamental_div_mod(apart, n);
    let q = apart / n;
    if delta == 1 {
        assert(at + k * delta == (-q) * n + choice) by (nonlinear_arith)
            requires
                delta == 1,
                k == apart % n + 1,
                apart == n * q + apart % n,
                apart == choice - at - 1,
        ;
        vstd::arithmetic::div_mod::lemma_fundamental_div_mod_converse(at + k * delta, n, -q, choice);
    } else {
        assert(at + k * delta == q * n + choice) by (nonlinear_arith)
            requires
                delta == -1,
                k == apart % n + 1,
                apart == n * q + apart % n,
                apart == at - choice - 1,
        ;
        vstd::arithmetic::div_mod::lemma_fundamental_div_mod_converse(at + k * delta, n, q, choice);
    }
    lemma_walk_reaches(rows, at, delta, rows.len(), k);
}

// ---------------------------------------------------------------------------
// Window messages
// ---------------------------------------------------------------------------

pub const WM_CREATE: u32 = 0x0001;

pub const WM_PAINT: u32 = 0x000F;

pub const WM_ERASEBKGND: u32 = 0x0014;

pub const WM_NCDESTROY: u32 = 0x0082;

pub const WM_KEYDOWN: u32 = 0x0100;

pub const WM_MOUSEMOVE: u32 = 0x0200;

pub const WM_LBUTTONUP: u32 = 0x0202;

pub const VK_RETURN: u32 = 0x0D;

pub const VK_ESCAPE: u32 = 0x1B;

pub const VK_LEFT: u32 = 0x25;

pub const VK_UP: u32 = 0x26;

pub const VK_RIGHT: u32 = 0x27;

pub const VK_DOWN: u32 = 0x28;

/// A popup and whether its window holds on to it.
#[derive(Debug)]
pub struct PopupWindow {
    pub attached: bool,
    pub state: PopupState,
}

/// The answer to a window message.
#[derive(Debug, Clone, Copy, PartialEq, Eq, Structural)]
pub struct Reply {
    /// What the window procedure returns; `None` leaves the message to the
    /// default procedure.
    pub result: Option<i64>,
    /// Whether the window must be painted anew.
    pub invalidate: bool,
    /// Whether the popup closes.
    pub close: bool,
    /// Whether the popup is painted now.
    pub paint: bool,
}

/// The message is handled without further effect.
pub open spec fn handled() -> Reply {
    Reply { result: Some(0), invalidate: false, close: false, paint: false }
}

/// The message is left to the default procedure.
pub open spec fn unhandled() -> Reply {
    Reply { result: None, invalidate: false, close: false, paint: false }
}

/// The low 32 bits of a message parameter.
pub open spec fn low_bits(n: int) -> int {
    n % 0x1_0000_0000
}

/// The vertical position in the parameter of a mouse message.
pub open spec fn mouse_y(lparam: int) -> int {
    low_bits(lparam) / 0x1_0000
}

/// The row at the height `y`.
pub open spec fn row_at(rows: Seq<PopupRow>, dpi: u32, y: int) -> Option<usize> {
    if exists|i: int| falls_on(rows, dpi, y, i) {
        Some((choose|i: int| falls_on(rows, dpi, y, i)) as usize)
    } else {
        None
    }
}

/// What a click at the height `y` selects: the row there where it is an
/// action, else nothing.
pub open spec fn clicked(state: PopupState, y: int) -> Option<usize> {
    match row_at(state.rows@, state.dpi, y) {
        Some(i) => if state.rows@[i as int].kind is Action {
            Some(i)
        } else {
            None
        },
        None => None,
    }
}

/// Whether the hovered row is an action.
pub open spec fn hovers_action(state: PopupState) -> bool {
    state.hover matches Some(i) && state.rows@[i as int].kind is Action
}

/// Whether the hovered row is a submenu.
pub open spec fn hovers_submenu(state: PopupState) -> bool {
    state.hover matches Some(i) && state.rows@[i as int].kind is Submenu
}

/// The popup after the key `vk`.
pub open spec fn after_key(state: PopupState, vk: int) -> PopupState {
    if vk == VK_UP {
        PopupState { hover: next_hover(state.rows@, state.hover, -1), ..state }
    } else if vk == VK_DOWN {
        PopupState { hover: next_hover(state.rows@, state.hover, 1), ..state }
    } else if vk == VK_RETURN && hovers_action(state) {
        PopupState { selected: state.hover, ..state }
    } else if vk == VK_RIGHT && hovers_submenu(state) {
        PopupState { selected: state.hover, ..state }
    } else if vk == VK_ESCAPE || vk == VK_LEFT {
        PopupState { selected: None, ..state }
    } else {
        state
    }
}

/// The answer to the key `vk`.
pub open spec fn key_reply(state: PopupState, vk: int) -> Reply {
    if vk == VK_UP || vk == VK_DOWN {
        Reply { invalidate: state.rows@.len() > 0, ..handled() }
    } else if vk == VK_RETURN {
        Reply { close: hovers_action(state), ..handled() }
    } else if vk == VK_RIGHT {
        Reply { close: hovers_submenu(state), ..handled() }
    } else if vk == VK_ESCAPE || vk == VK_LEFT {
        Reply { close: true, ..handled() }
    } else {
        unhandled()
    }
}

/// The window after a message.
pub open spec fn after_message(
    window: PopupWindow,
    msg: u32,
    wparam: int,
    lparam: int,
    handed_over: Option<u32>,
) -> PopupWindow {
    let state = window.state;
    if msg == WM_CREATE {
        match handed_over {
            Some(dpi) if lparam != 0 => PopupWindow {
                attached: true,
                state: PopupState { dpi, ..state },
            },
            _ => window,
        }
    } else if msg == WM_NCDESTROY {
        PopupWindow { attached: false, ..window }
    } else if !window.attached {
        window
    } else if msg == WM_MOUSEMOVE {
        PopupWindow {
            state: PopupState { hover: row_at(state.rows@, state.dpi, mouse_y(lparam)), ..state },
            ..window
        }
    } else if msg == WM_LBUTTONUP {
        PopupWindow {
            state: PopupState { selected: clicked(state, mouse_y(lparam)), ..state },
            ..window
        }
    } else if msg == WM_KEYDOWN {
        PopupWindow { state: after_key(state, low_bits(wparam)), ..window }
    } else {
        window
    }
}

/// The answer to a message.
pub open spec fn message_reply(window: PopupWindow, msg: u32, wparam: int, lparam: int) -> Reply {
    let state = window.state;
    if msg == WM_CREATE || msg == WM_NCDESTROY {
        handled()
    } else if msg == WM_ERASEBKGND {
        Reply { result: Some(1), ..handled() }
    } else if msg == WM_MOUSEMOVE {
        Reply {
            invalidate: window.attached && state.hover != row_at(
                state.rows@,
                state.dpi,
                mouse_y(lparam),
            ),
            ..handled()
        }
    } else if msg == WM_LBUTTONUP {
        Reply { close: window.attached, ..handled() }
    } else if msg == WM_PAINT {
        Reply { paint: window.attached, ..handled() }
    } else if msg == WM_KEYDOWN && window.attached {
        key_reply(state, low_bits(wparam))
    } else {
        unhandled()
    }
}

/// The low 32 bits of a message parameter.
fn low_word(n: i64) -> (r: u32)
    ensures
        r == low_bits(n as int),
{
    if n >= 0 {
        (n % 0x1_0000_0000) as u32
    } else {
        let up: u64 = (n + i64::MAX + 1) as u64;
        // Adding 2^63 does not change the low 32 bits.
        (up % 0x1_0000_0000) as u32
    }
}

fn mouse_row(state: &PopupState, lparam: i64) -> (r: Option<usize>)
    requires
        state.wf(),
    ensures
        r == row_at(state.rows@, state.dpi, mouse_y(lparam as int)),
        r matches Some(i) ==> i < state.rows@.len(),
{
    let word: u32 = low_word(lparam);
    let x: i32 = (word % 0x1_0000) as i32;
    let y: i32 = (word / 0x1_0000) as i32;
    let r = hit_test(state, x, y);
    proof {
        if let Some(i) = r {
            assert(falls_on(state.rows@, state.dpi, y as int, i as int));
            let c = choose|c: int| falls_on(state.rows@, state.dpi, y as int, c);
            a_height_falls_on_one_row(state.rows@, state.dpi, y as int, i as int, c);
        }
    }
    r
}

fn is_action(state: &PopupState, row: Option<usize>) -> (r: bool)
    requires
        row matches Some(i) ==> i < state.rows@.len(),
    ensures
        r == (row matches Some(i) && state.rows@[i as int].kind is Action),
{
    match row {
        Some(i) => match state.rows[i].kind {
            RowKind::Action { .. } => true,
            _ => false,
        },
        None => false,
    }
}

fn is_submenu(state: &PopupState, row: Option<usize>) -> (r: bool)
    requires
        row matches Some(i) ==> i < state.rows@.len(),
    ensures
        r == (row matches Some(i) && state.rows@[i as int].kind is Submenu),
{
    match row {
        Some(i) => match state.rows[i].kind {
            RowKind::Submenu { .. } => true,
            _ => false,
        },
        None => false,
    }
}

fn same_row(a: Option<usize>, b: Option<usize>) -> (r: bool)
    ensures
        r == (a == b),
{
    match (a, b) {
        (Some(i), Some(j)) => i == j,
        (None, None) => true,
        _ => false,
    }
}

/// Takes a key.
pub fn key_down(state: &mut PopupState, vk: u32) -> (r: Reply)
    requires
        old(state).wf(),
    ensures
        final(state).wf(),
        *final(state) == after_key(*old(state), vk as int),
        r == key_reply(*old(state), vk as int),
{
    let mut reply = Reply { result: Some(0), invalidate: false, close: false, paint: false };
    if vk == VK_UP {
        reply.invalidate = state.rows.len() > 0;
        move_hover(state, -1);
    } else if vk == VK_DOWN {
        reply.invalidate = state.rows.len() > 0;
        move_hover(state, 1);
    } else if vk == VK_RETURN {
        if is_action(state, state.hover) {
            state.selected = state.hover;
            reply.close = true;
        }
    } else if vk == VK_ESCAPE || vk == VK_LEFT {
        state.selected = None;
        reply.close = true;
    } else if vk == VK_RIGHT {
        if is_submenu(state, state.hover) {
            state.selected = state.hover;
            reply.close = true;
        }
    } else {
        reply.result = None;
    }
    reply
}

/// Takes a window message. `handed_over` says whether the parameters of a
/// creation hand the state over, and the resolution that the window reports
/// then.
pub fn wnd_proc(
    window: &mut PopupWindow,
    msg: u32,
    wparam: u64,
    lparam: i64,
    handed_over: Option<u32>,
) -> (r: Reply)
    requires
        old(window).state.wf(),
        msg == WM_CREATE && handed_over is Some ==> layout_fits(
            old(window).state.rows@,
            handed_over->0,
        ),
    ensures
        final(window).state.wf(),
        *final(window) == after_message(*old(window), msg, wparam as int, lparam as int, handed_over),
        r == message_reply(*old(window), msg, wparam as int, lparam as int),
{
    let mut reply = Reply { result: Some(0), invalidate: false, close: false, paint: false };
    if msg == WM_CREATE {
        if let Some(dpi) = handed_over {
            if lparam != 0 {
                window.attached = true;
                window.state.dpi = dpi;
            }
        }
    } else if msg == WM_MOUSEMOVE {
        if window.attached {
            let row = mouse_row(&window.state, lparam);
            if !same_row(window.state.hover, row) {
                window.state.hover = row;
                reply.invalidate = true;
            }
        }
    } else if msg == WM_LBUTTONUP {
        if window.attached {
            let row = mouse_row(&window.state, lparam);
            window.state.selected = if is_action(&window.state, row) {
                row
            } else {
                None
            };
            reply.close = true;
        }
    } else if msg == WM_KEYDOWN {
        if window.attached {
            let vk: u32 = (wparam % 0x1_0000_0000) as u32;
            reply = key_down(&mut window.state, vk);
        } else {
            reply.result = None;
        }
    } else if msg == WM_PAINT {
        reply.paint = window.attached;
    } else if msg == WM_ERASEBKGND {
        reply.result = Some(1);
    } else if msg == WM_NCDESTROY {
        window.attached = false;
    } else {
        reply.result = None;
    }
    reply
}

/// A popup only ever closes on an action, on a submenu opened with the right
/// arrow, or on nothing: a dividing line is never selected.
pub proof fn a_dividing_line_is_never_selected(
    window: PopupWindow,
    msg: u32,
    wparam: int,
    lparam: int,
    handed_over: Option<u32>,
)
    requires
        window.state.wf(),
        window.state.selected matches Some(i)
            ==> window.state.rows@[i as int].kind.is_selectable(),
    ensures
        after_message(window, msg, wparam, lparam, handed_over).state.selected matches Some(i)
            ==> window.state.rows@[i as int].kind.is_selectable(),
{
}

// ---------------------------------------------------------------------------
// Painting
// ---------------------------------------------------------------------------

/// The UTF-16 code units of a character.
pub open spec fn utf16_units(c: char) -> Seq<u16> {
    let n = c as u32 as int;
    if n < 0x1_0000 {
        seq![n as u16]
    } else {
        seq![
            (0xD800 + (n - 0x1_0000) / 0x400) as u16,
            (0xDC00 + (n - 0x1_0000) % 0x400) as u16,
        ]
    }
}

/// The UTF-16 code units of a text.
pub open spec fn utf16(s: Seq<char>) -> Seq<u16>
    decreases s.len(),
{
    if s.len() == 0 {
        Seq::empty()
    } else {
        utf16(s.drop_last()) + utf16_units(s.last())
    }
}

/// A text in UTF-16 with a zero behind it.
pub open spec fn wide(s: Seq<char>) -> Seq<u16> {
    utf16(s).push(0)
}

/// `s` in UTF-16 with a zero behind it.
pub fn encode_wide(s: &str) -> (r: Vec<u16>)
    ensures
        r@ == wide(s@),
{
    let v = chars_of(s);
    let mut out: Vec<u16> = Vec::new();
    let mut i: usize = 0;
    assert(v@.take(0) =~= Seq::empty());
    while i < v.len()
        invariant
            i <= v@.len(),
            out@ == utf16(v@.take(i as int)),
        decreases v@.len() - i,
    {
        let ghost before = out@;
        let n: u32 = v[i] as u32;
        if n < 0x1_0000 {
            out.push(n as u16);
        } else {
            let m: u32 = n - 0x1_0000;
            out.push((0xD800 + m / 0x400) as u16);
            out.push((0xDC00 + m % 0x400) as u16);
        }
        assert(v@.take(i + 1).drop_last() =~= v@.take(i as int));
        assert(out@ =~= before + utf16_units(v@[i as int]));
        i += 1;
    }
    assert(v@.take(i as int) =~= v@);
    out.push(0);
    out
}

/// The window system's number for a colour: blue, green and red from the high
/// byte down.
pub open spec fn colorref(rgb: Rgb) -> int {
    rgb.0 + rgb.1 * 0x100 + rgb.2 * 0x1_0000
}

/// The window system's number for a colour.
pub fn rgb_to_colorref(rgb: Rgb) -> (r: u32)
    ensures
        r == colorref(rgb),
{
    rgb.0 as u32 + rgb.1 as u32 * 0x100 + rgb.2 as u32 * 0x1_0000
}

/// A rectangle in pixels; the right and bottom edges lie outside.
#[derive(Debug, Clone, Copy, PartialEq, Eq, Structural)]
pub struct PixelRect {
    pub left: i32,
    pub top: i32,
    pub right: i32,
    pub bottom: i32,
}

/// One step of the painting.
#[derive(Debug, PartialEq, Eq)]
pub enum DrawOp {
    /// Fill a rectangle.
    Fill { rect: PixelRect, color: u32 },
    /// Set the colour of the texts that follow.
    TextColor { color: u32 },
    /// Write a zero-terminated UTF-16 text on one line, centred vertically.
    Text { rect: PixelRect, text: Vec<u16> },
}

/// The value of a [`PixelRect`].
pub struct RectView {
    pub left: int,
    pub top: int,
    pub right: int,
    pub bottom: int,
}

/// The value of a [`DrawOp`].
pub enum DrawView {
    Fill { rect: RectView, color: int },
    TextColor { color: int },
    Text { rect: RectView, text: Seq<u16> },
}

impl View for PixelRect {
    type V = RectView;

    open spec fn view(&self) -> RectView {
        RectView {
            left: self.left as int,
            top: self.top as int,
            right: self.right as int,
            bottom: self.bottom as int,
        }
    }
}

impl View for DrawOp {
    type V = DrawView;

    open spec fn view(&self) -> DrawView {
        match self {
            DrawOp::Fill { rect, color } => DrawView::Fill { rect: rect@, color: *color as int },
            DrawOp::TextColor { color } => DrawView::TextColor { color: *color as int },
            DrawOp::Text { rect, text } => DrawView::Text { rect: rect@, text: text@ },
        }
    }
}

/// The values of a list of steps.
pub open spec fn draw_views(ops: Seq<DrawOp>) -> Seq<DrawView> {
    ops.map_values(|op: DrawOp| op@)
}

/// The symbol at the right of a row: a tick for an active action, an arrow
/// for a submenu.
pub open spec fn row_symbol(kind: RowKind) -> Seq<char> {
    match kind {
        RowKind::Action { id, label, active } => if active {
            "\u{2713}"@
        } else {
            Seq::empty()
        },
        RowKind::Submenu { id, label, child } => "\u{25B8}"@,
        RowKind::Separator => Seq::empty(),
    }
}

/// The band of row `i` across the whole window.
pub open spec fn row_band(state: PopupState, i: int) -> RectView {
    RectView {
        left: 0,
        top: row_top(state.rows@, state.dpi, i),
        right: state.width_px as int,
        bottom: row_top(state.rows@, state.dpi, i + 1),
    }
}

/// What is painted for row `i`: a thin bar for a dividing line; else the
/// hover band where the row is hovered, the label, and the symbol if any.
pub open spec fn row_painting(state: PopupState, i: int) -> Seq<DrawView> {
    let kind = state.rows@[i].kind;
    let top = row_top(state.rows@, state.dpi, i);
    let bottom = row_top(state.rows@, state.dpi, i + 1);
    let pad = scaled(H_PAD as int, state.dpi as int);
    let gutter = scaled(RIGHT_GUTTER as int, state.dpi as int);
    let width = state.width_px as int;
    if kind is Separator {
        let mid = top + (bottom - top) / 2;
        seq![
            DrawView::Fill {
                rect: RectView { left: pad, top: mid - 1, right: width - pad, bottom: mid + 1 },
                color: colorref(state.palette.separator),
            },
        ]
    } else {
        let band = if state.hover == Some(i as usize) {
            seq![DrawView::Fill { rect: row_band(state, i), color: colorref(state.palette.hover) }]
        } else {
            Seq::empty()
        };
        let label = seq![
            DrawView::Text {
                rect: RectView { left: pad, top, right: width - pad - pad - gutter, bottom },
                text: wide(kind.text()),
            },
        ];
        let symbol = if row_symbol(kind).len() > 0 {
            seq![
                DrawView::Text {
                    rect: RectView { left: width - pad - gutter, top, right: width - pad, bottom },
                    text: wide(row_symbol(kind)),
                },
            ]
        } else {
            Seq::empty()
        };
        band + label + symbol
    }
}

/// What is painted for the first `n` rows.
pub open spec fn rows_painting(state: PopupState, n: int) -> Seq<DrawView>
    decreases n,
{
    if n <= 0 {
        Seq::empty()
    } else {
        rows_painting(state, n - 1) + row_painting(state, n - 1)
    }
}

/// What is painted: the background, then the rows from top to bottom.
pub open spec fn painting(state: PopupState) -> Seq<DrawView> {
    seq![
        DrawView::Fill {
            rect: RectView {
                left: 0,
                top: 0,
                right: state.width_px as int,
                bottom: state.height_px as int,
            },
            color: colorref(state.palette.bg),
        },
        DrawView::TextColor { color: colorref(state.palette.text) },
    ] + rows_painting(state, state.rows@.len() as int)
}

fn make_rect(left: i32, top: i32, right: i32, bottom: i32) -> (r: PixelRect)
    ensures
        r@ == (RectView {
            left: left as int,
            top: top as int,
            right: right as int,
            bottom: bottom as int,
        }),
{
    PixelRect { left, top, right, bottom }
}

fn paint_row(state: &PopupState, i: usize, top: i32, h: i32) -> (r: Vec<DrawOp>)
    requires
        state.wf(),
        i < state.rows@.len(),
        top == row_top(state.rows@, state.dpi, i as int),
        h == row_pixels(state.rows@[i as int].kind, state.dpi),
    ensures
        draw_views(r@) == row_painting(*state, i as int),
{
    proof {
        rows_stand_in_order(state.rows@, state.dpi, 0, i as int);
        rows_stand_in_order(state.rows@, state.dpi, i as int, i + 1);
        rows_stand_in_order(state.rows@, state.dpi, i + 1, state.rows@.len() as int);
        lemma_scaled_small(H_PAD as int, state.dpi as int);
        lemma_scaled_small(RIGHT_GUTTER as int, state.dpi as int);
    }
    let pad: i32 = scale_for_dpi(H_PAD, state.dpi);
    let gutter: i32 = scale_for_dpi(RIGHT_GUTTER, state.dpi);
    let width: i32 = state.width_px;
    let mut out: Vec<DrawOp> = Vec::new();
    let (label, symbol) = match &state.rows[i].kind {
        RowKind::Separator => {
            let mid: i32 = top + h / 2;
            out.push(
                DrawOp::Fill {
                    rect: make_rect(pad, mid - 1, width - pad, mid + 1),
                    color: rgb_to_colorref(state.palette.separator),
                },
            );
            assert(draw_views(out@) =~= row_painting(*state, i as int));
            return out;
        },
        RowKind::Action { id, label, active } => (
            label.as_str(),
            if *active {
                "\u{2713}"
            } else {
                ""
            },
        ),
        RowKind::Submenu { id, label, child } => (label.as_str(), "\u{25B8}"),
    };
    proof {
        reveal_strlit("");
        reveal_strlit("\u{2713}");
        reveal_strlit("\u{25B8}");
        assert(symbol@ =~= row_symbol(state.rows@[i as int].kind));
    }
    if same_row(state.hover, Some(i)) {
        out.push(
            DrawOp::Fill {
                rect: make_rect(0, top, width, top + h),
                color: rgb_to_colorref(state.palette.hover),
            },
        );
    }
    out.push(
        DrawOp::Text {
            rect: make_rect(pad, top, width - pad - pad - gutter, top + h),
            text: encode_wide(label),
        },
    );
    if !symbol.is_empty() {
        out.push(
            DrawOp::Text {
                rect: make_rect(width - pad - gutter, top, width - pad, top + h),
                text: encode_wide(symbol),
            },
        );
    }
    assert(draw_views(out@) =~= row_painting(*state, i as int));
    out
}

/// The painting of the popup, step by step.
pub fn paint(state: &PopupState) -> (r: Vec<DrawOp>)
    requires
        state.wf(),
    ensures
        draw_views(r@) == painting(*state),
{
    let mut out: Vec<DrawOp> = Vec::new();
    out.push(
        DrawOp::Fill {
            rect: make_rect(0, 0, state.width_px, state.height_px),
            color: rgb_to_colorref(state.palette.bg),
        },
    );
    out.push(DrawOp::TextColor { color: rgb_to_colorref(state.palette.text) });
    let ghost head = draw_views(out@);
    let n: usize = state.rows.len();
    let mut top: i32 = scale_for_dpi(V_PAD, state.dpi);
    let mut i: usize = 0;
    while i < n
        invariant
            i <= n,
            n == state.rows@.len(),
            state.wf(),
            top == row_top(state.rows@, state.dpi, i as int),
            draw_views(out@) == head + rows_painting(*state, i as int),
        decreases n - i,
    {
        let h: i32 = row_height(&state.rows[i].kind, state.dpi);
        let mut row = paint_row(state, i, top, h);
        let ghost before = draw_views(out@);
        let ghost added = draw_views(row@);
        out.append(&mut row);
        assert(draw_views(out@) =~= before + added);
        assert(before + added =~= head + rows_painting(*state, i + 1));
        proof {
            rows_stand_in_order(state.rows@, state.dpi, i + 1, n as int);
        }
        top += h;
        i += 1;
    }
    assert(draw_views(out@) =~= painting(*state));
    out
}

/// What lights up is what a click hits: the hover band of a row covers
/// exactly the heights that fall on it.
pub proof fn the_hover_band_is_the_hit_area(state: PopupState, i: int, y: int)
    requires
        0 <= i < state.rows@.len(),
    ensures
        row_band(state, i).top <= y < row_band(state, i).bottom <==> falls_on(
            state.rows@,
            state.dpi,
            y,
            i,
        ),
{
}

// ---------------------------------------------------------------------------
// Running a popup
// ---------------------------------------------------------------------------

/// The popup to open for `rows`; `None` where there is nothing to show or no
/// window class to show it in.
pub fn open_popup(rows: Vec<PopupRow>, palette: PopupPalette, class_registered: bool, dpi: u32) -> (r:
    Option<PopupState>)
    requires
        size_fits(rows@),
    ensures
        r is Some <==> rows@.len() > 0 && class_registered,
        r matches Some(state) ==> {
            &&& state.rows == rows
            &&& state.palette == palette
            &&& state.dpi == dpi
            &&& state.width_px == scaled(popup_width(rows@), dpi as int)
            &&& state.height_px == scaled(popup_height(rows@), dpi as int)
            &&& state.hover is None
            &&& state.selected is None
            &&& state.wf() <==> layout_fits(rows@, dpi) && state.width_px >= 0
        },
{
    if rows.len() == 0 || !class_registered {
        return None;
    }
    let (width_px, height_px) = compute_size(rows.as_slice(), dpi);
    Some(
        PopupState { rows, palette, dpi, width_px, height_px, hover: None, selected: None },
    )
}

/// What follows once a popup has closed.
#[derive(Debug)]
pub enum PopupOutcome {
    /// The popup is done, with the chosen row or without one.
    Done(Option<(usize, Option<usize>)>),
    /// The popup of a submenu opens beside row `index`.
    OpenSubmenu { index: usize, child: Vec<PopupRow>, anchor_x: i32, anchor_y: i32 },
}

/// Where the popup of the submenu in row `index` opens: at the right edge of
/// its parent, `index` rows down.
pub open spec fn submenu_anchor(state: PopupState, x: int, y: int, dpi: u32, index: int) -> (
    int,
    int,
) {
    (
        x + state.width_px,
        y + scaled(V_PAD as int, dpi as int) + index * scaled(ROW_HEIGHT as int, dpi as int),
    )
}

/// Whether the popup of the selected submenu can be placed in 32 bits.
pub open spec fn anchor_fits(state: PopupState, x: int, y: int, dpi: u32) -> bool {
    state.selected matches Some(i) ==> {
        let (ax, ay) = submenu_anchor(state, x, y, dpi, i as int);
        &&& i32::MIN <= ax <= i32::MAX
        &&& i32::MIN <= ay <= i32::MAX
        &&& y + scaled(V_PAD as int, dpi as int) <= i32::MAX
        &&& i * scaled(ROW_HEIGHT as int, dpi as int) <= i32::MAX
    }
}

/// Whether the popup of the selected submenu can be placed in 32 bits.
pub fn can_place(state: &PopupState, x: i32, y: i32, dpi: u32) -> (r: bool)
    requires
        state.wf(),
    ensures
        r == anchor_fits(*state, x as int, y as int, dpi),
{
    let i: usize = match state.selected {
        None => return true,
        Some(i) => i,
    };
    proof {
        lemma_scaled_small(V_PAD as int, dpi as int);
        lemma_scaled_small(ROW_HEIGHT as int, dpi as int);
        let height = scaled(ROW_HEIGHT as int, dpi as int);
        assert(0 <= i * height <= 0x7FFF_FFFF * 0x5000_0000) by (nonlinear_arith)
            requires
                0 <= i <= 0x7FFF_FFFF,
                0 <= height <= 0x5000_0000,
        ;
    }
    let pad: i64 = scale_for_dpi(V_PAD, dpi) as i64;
    let down: i64 = i as i64 * scale_for_dpi(ROW_HEIGHT, dpi) as i64;
    let right: i64 = x as i64 + state.width_px as i64;
    let below: i64 = y as i64 + pad;
    right <= 0x7FFF_FFFF && below <= 0x7FFF_FFFF && down <= 0x7FFF_FFFF && below + down
        <= 0x7FFF_FFFF
}

/// What follows once the popup at `(anchor_x, anchor_y)` has closed: the
/// chosen action, the popup of a submenu, or nothing.
pub fn popup_outcome(state: PopupState, anchor_x: i32, anchor_y: i32, dpi: u32) -> (r: PopupOutcome)
    requires
        state.wf(),
        anchor_fits(state, anchor_x as int, anchor_y as int, dpi),
    ensures
        match state.selected {
            None => r == PopupOutcome::Done(None),
            Some(i) => match state.rows@[i as int].kind {
                RowKind::Action { id, label, active } => r == PopupOutcome::Done(Some((i, None))),
                RowKind::Separator => r == PopupOutcome::Done(None),
                RowKind::Submenu { id, label, child } => if child@.len() == 0 {
                    r == PopupOutcome::Done(None)
                } else {
                    r matches PopupOutcome::OpenSubmenu {
                        index,
                        child: rows,
                        anchor_x: x,
                        anchor_y: y,
                    } && index == i && rows == child && (x as int, y as int) == submenu_anchor(
                        state,
                        anchor_x as int,
                        anchor_y as int,
                        dpi,
                        i as int,
                    )
                },
            },
        },
{
    let i: usize = match state.selected {
        None => return PopupOutcome::Done(None),
        Some(i) => i,
    };
    let width: i32 = state.width_px;
    let mut rows = state.rows;
    let row = rows.remove(i);
    match row.kind {
        RowKind::Action { .. } => PopupOutcome::Done(Some((i, None))),
        RowKind::Separator => PopupOutcome::Done(None),
        RowKind::Submenu { id: _, label: _, child } => {
            if child.len() == 0 {
                return PopupOutcome::Done(None);
            }
            proof {
                lemma_scaled_small(V_PAD as int, dpi as int);
                lemma_scaled_small(ROW_HEIGHT as int, dpi as int);
                assert(0 <= i * scaled(ROW_HEIGHT as int, dpi as int)) by (nonlinear_arith)
                    requires
                        0 <= i,
                        0 <= scaled(ROW_HEIGHT as int, dpi as int),
                ;
            }
            let pad: i32 = scale_for_dpi(V_PAD, dpi);
            let height: i32 = scale_for_dpi(ROW_HEIGHT, dpi);
            PopupOutcome::OpenSubmenu {
                index: i,
                child,
                anchor_x: anchor_x + width,
                anchor_y: anchor_y + pad + (i as i32) * height,
            }
        },
    }
}

/// What a popup reports after the popup of its submenu `index` has closed
/// with `sub`.
pub fn after_submenu(index: usize, sub: Option<(usize, Option<usize>)>) -> (r: Option<
    (usize, Option<usize>),
>)
    ensures
        r == Some(
            (
                index,
                match sub {
                    Some(chosen) => Some(chosen.0),
                    None => None,
                },
            ),
        ),
{
    match sub {
        Some((row, _)) => Some((index, Some(row))),
        None => Some((index, None)),
    }
}

// ---------------------------------------------------------------------------
// Laws
// ---------------------------------------------------------------------------

proof fn lemma_longest(rows: Seq<PopupRow>, i: int)
    ensures
        0 <= i < rows.len() ==> rows[i].kind.text().len() <= longest_label(rows),
        longest_label(rows) > 0 ==> exists|j: int|
            0 <= j < rows.len() && (#[trigger] rows[j]).kind.text().len() == longest_label(rows),
    decreases rows.len(),
{
    if rows.len() > 0 {
        let rest = rows.drop_last();
        lemma_longest(rest, i);
        if longest_label(rows) > rows.last().kind.text().len() {
            let j = choose|j: int|
                0 <= j < rest.len() && (#[trigger] rest[j]).kind.text().len() == longest_label(rest);
            assert(rows[j] == rest[j]);
        } else {
            assert(rows[rows.len() - 1] == rows.last());
        }
    }
}

/// The popup is between 200 and 420 units wide. Within these bounds every label
/// fits at eight units a character and 46 for what stands around it, and some
/// label needs all of that.
pub proof fn the_popup_is_as_wide_as_its_labels(rows: Seq<PopupRow>, i: int)
    requires
        0 <= i < rows.len(),
    ensures
        200 <= popup_width(rows) <= 420,
        popup_width(rows) < 420 ==> 8 * rows[i].kind.text().len() + 46 <= popup_width(rows),
        popup_width(rows) > 200 ==> exists|j: int|
            0 <= j < rows.len() && popup_width(rows) <= 8 * (#[trigger] rows[j]).kind.text().len()
                + 46,
{
    lemma_longest(rows, i);
}

/// Each row that can be chosen adds 26 units to the height and each dividing
/// line nine; twelve go to the space around them.
pub proof fn the_height_adds_up(rows: Seq<PopupRow>, row: PopupRow)
    ensures
        popup_height(Seq::empty()) == 12,
        popup_height(rows.push(row)) == popup_height(rows) + (if row.kind is Separator {
            9int
        } else {
            26
        }),
{
    assert(rows.push(row).drop_last() =~= rows);
}

/// At 96 DPI the rows stand one below the other from six pixels on, 26 pixels
/// each and a dividing line nine.
pub proof fn rows_stand_where_the_units_say(rows: Seq<PopupRow>, i: int)
    requires
        0 <= i < rows.len(),
    ensures
        row_top(rows, 96, 0) == 6,
        row_top(rows, 96, i + 1) - row_top(rows, 96, i) == (if rows[i].kind is Separator {
            9int
        } else {
            26
        }),
{
    lemma_scaled_small(6, 96);
    lemma_scaled_small(26, 96);
    lemma_scaled_small(9, 96);
}

/// A step goes to the next row, or around the end to the other, where that row
/// can be chosen. Without a focus the first step goes to the first row and the
/// step upwards to the last.
pub proof fn a_step_goes_to_the_next_row(rows: Seq<PopupRow>, h: usize)
    requires
        h < rows.len() <= i32::MAX,
    ensures
        ({
            let n = rows.len() as int;
            let below: int = if h + 1 == n {
                0
            } else {
                h + 1
            };
            let above: int = if h == 0 {
                n - 1
            } else {
                h - 1
            };
            &&& rows[below].kind.is_selectable() ==> next_hover(rows, Some(h), 1) == Some(
                below as usize,
            )
            &&& rows[above].kind.is_selectable() ==> next_hover(rows, Some(h), -1) == Some(
                above as usize,
            )
            &&& rows[0].kind.is_selectable() ==> next_hover(rows, None, 1) == Some(0usize)
            &&& rows[n - 1].kind.is_selectable() ==> next_hover(rows, None, -1) == Some(
                (n - 1) as usize,
            )
        }),
{
    let n = rows.len() as int;
    if h + 1 == n {
        assert((h + 1) % n == 0) by (nonlinear_arith)
            requires
                h + 1 == n,
                n > 0,
        ;
    } else {
        assert((h + 1) % n == h + 1) by (nonlinear_arith)
            requires
                0 <= h + 1 < n,
        ;
    }
    if h == 0 {
        assert((h - 1) % n == n - 1) by (nonlinear_arith)
            requires
                h == 0,
                n > 0,
        ;
    } else {
        assert((h - 1) % n == h - 1) by (nonlinear_arith)
            requires
                0 <= h - 1 < n,
        ;
    }
    assert((-1 + 1) % n == 0) by (nonlinear_arith)
        requires
            n > 0,
    ;
    assert((n - 1) % n == n - 1) by (nonlinear_arith)
        requires
            n > 0,
    ;
}

/// A step over a dividing line goes on from there.
pub proof fn a_step_goes_over_a_dividing_line(rows: Seq<PopupRow>, h: usize)
    requires
        1 < rows.len() <= i32::MAX,
        h + 2 < rows.len(),
        rows[h + 1].kind is Separator,
        rows[h + 2].kind.is_selectable(),
    ensures
        next_hover(rows, Some(h), 1) == Some((h + 2) as usize),
{
    let n = rows.len() as int;
    assert((h + 1) % n == h + 1) by (nonlinear_arith)
        requires
            0 <= h + 1 < n,
    ;
    assert((h + 1 + 1) % n == h + 2) by (nonlinear_arith)
        requires
            0 <= h + 2 < n,
    ;
    reveal_with_fuel(hover_walk, 3);
}

/// Of two neighbours that can be chosen a step down and one up lead back.
pub proof fn a_step_back_leads_back(rows: Seq<PopupRow>, h: usize)
    requires
        h + 1 < rows.len() <= i32::MAX,
        rows[h as int].kind.is_selectable(),
        rows[h + 1].kind.is_selectable(),
    ensures
        next_hover(rows, next_hover(rows, Some(h), 1), -1) == Some(h),
{
    a_step_goes_to_the_next_row(rows, h);
    a_step_goes_to_the_next_row(rows, (h + 1) as usize);
}

/// The arrows up and down move the focus up and down and close nothing, the
/// return key takes the action in focus and the right arrow the submenu, escape
/// and the left arrow leave without a choice, and every other key is left to
/// the system.
#[verifier::rlimit(40)]
pub proof fn keys_do_what_they_say(state: PopupState, vk: int)
    ensures
        ({
            let after = after_key(state, vk);
            let reply = key_reply(state, vk);
            let focus = state.hover;
            &&& after.same_popup(state)
            &&& vk == 0x26 ==> after.hover == next_hover(state.rows@, focus, -1) && after.selected
                == state.selected && !reply.close
            &&& vk == 0x28 ==> after.hover == next_hover(state.rows@, focus, 1) && after.selected
                == state.selected && !reply.close
            &&& vk == 0x26 || vk == 0x28 ==> (reply.invalidate <==> state.rows@.len() > 0)
            &&& vk == 0x0D ==> if focus is Some && state.rows@[focus->0 as int].kind is Action {
                reply.close && after.selected == focus
            } else {
                !reply.close && after == state
            }
            &&& vk == 0x27 ==> if focus is Some && state.rows@[focus->0 as int].kind is Submenu {
                reply.close && after.selected == focus
            } else {
                !reply.close && after == state
            }
            &&& vk == 0x1B || vk == 0x25 ==> reply.close && after.selected is None && after.hover
                == focus
            &&& reply.result is None <==> vk != 0x26 && vk != 0x28 && vk != 0x0D && vk != 0x27 && vk
                != 0x1B && vk != 0x25
            &&& reply.result is None ==> after == state && !reply.close && !reply.invalidate
            &&& !reply.paint
        }),
{
}

/// A mouse message holds the position in two halves, the height in the upper.
pub proof fn the_height_is_in_the_upper_half(x: int, y: int)
    requires
        0 <= x < 0x1_0000,
        0 <= y < 0x1_0000,
    ensures
        mouse_y(y * 0x1_0000 + x) == y,
{
}

/// The row at a height is the one whose band the height falls on.
pub proof fn the_row_at_a_height_is_the_one_there(rows: Seq<PopupRow>, dpi: u32, y: int, i: int)
    requires
        rows.len() <= i32::MAX,
    ensures
        falls_on(rows, dpi, y, i) ==> row_at(rows, dpi, y) == Some(i as usize),
        row_at(rows, dpi, y) is None ==> !falls_on(rows, dpi, y, i),
{
    if falls_on(rows, dpi, y, i) {
        let c = choose|c: int| falls_on(rows, dpi, y, c);
        a_height_falls_on_one_row(rows, dpi, y, i, c);
    }
}

/// The pointer moves the focus to the row under it, and a release of the button
/// takes the action under it and closes the popup, with nothing where there is
/// none. The place on the row does not matter. A window that is not attached
/// lets nothing happen.
#[verifier::rlimit(40)]
pub proof fn the_pointer_acts_on_the_row_under_it(
    window: PopupWindow,
    x: int,
    y: int,
    i: int,
)
    requires
        window.state.wf(),
        0 <= x < 0x1_0000,
        0 <= y < 0x1_0000,
        falls_on(window.state.rows@, window.state.dpi, y, i),
    ensures
        ({
            let at = y * 0x1_0000 + x;
            let moved = after_message(window, 0x0200, 0, at, None);
            let released = after_message(window, 0x0202, 0, at, None);
            let kind = window.state.rows@[i].kind;
            &&& window.attached ==> moved.state.hover == Some(i as usize)
            &&& moved.state.selected == window.state.selected
            &&& window.attached ==> released.state.selected == (if kind is Action {
                Some(i as usize)
            } else {
                None
            })
            &&& released.state.hover == window.state.hover
            &&& message_reply(window, 0x0202, 0, at).close == window.attached
            &&& !message_reply(window, 0x0200, 0, at).close
            &&& message_reply(window, 0x0200, 0, at).invalidate == (window.attached
                && window.state.hover != Some(i as usize))
            &&& !window.attached ==> moved == window && released == window
        }),
{
    the_height_is_in_the_upper_half(x, y);
    the_row_at_a_height_is_the_one_there(window.state.rows@, window.state.dpi, y, i);
}

/// A popup closes only by a release of the button or by a key, it is painted
/// only on demand, and a window that is not attached does neither. Messages of
/// other kinds are left to the system and change nothing.
#[verifier::rlimit(40)]
pub proof fn few_messages_close_or_paint(
    window: PopupWindow,
    msg: u32,
    wparam: int,
    lparam: int,
    handed_over: Option<u32>,
)
    ensures
        ({
            let reply = message_reply(window, msg, wparam, lparam);
            let after = after_message(window, msg, wparam, lparam, handed_over);
            &&& reply.close ==> window.attached && (msg == 0x0202 || msg == 0x0100)
            &&& reply.paint <==> window.attached && msg == 0x000F
            &&& reply.result is None ==> after.state == window.state && after.attached
                == window.attached
            &&& msg == 0x0014 ==> reply.result == Some(1i64) && after == window
            &&& msg == 0x0082 ==> !after.attached && after.state == window.state
            &&& msg == 0x0001 ==> (lparam == 0 || handed_over is None ==> after == window)
            &&& msg == 0x0001 && lparam != 0 && handed_over is Some ==> after.attached
                && after.state.dpi == handed_over->0 && after.state.rows == window.state.rows
            &&& msg != 0x0001 ==> after.state.same_popup(window.state)
            &&& window.attached && msg == 0x0100 ==> reply == key_reply(
                window.state,
                wparam % 0x1_0000_0000,
            ) && after.state == after_key(window.state, wparam % 0x1_0000_0000)
        }),
{
}

/// A character can be read back from its UTF-16 units: a single unit is its
/// number and no surrogate, and two are a high and a low surrogate.
pub proof fn a_character_can_be_read_back(c: char)
    ensures
        ({
            let units = utf16_units(c);
            &&& units.len() == 1 || units.len() == 2
            &&& units.len() == 1 ==> units[0] == c as u32 && !(0xD800 <= units[0] < 0xE000)
            &&& units.len() == 2 ==> 0xD800 <= units[0] < 0xDC00 && 0xDC00 <= units[1] < 0xE000
                && (units[0] - 0xD800) * 0x400 + (units[1] - 0xDC00) + 0x1_0000 == c as u32
        }),
{
}

/// Texts one behind the other are encoded one behind the other, a single
/// character by its units, and a zero ends the whole.
pub proof fn a_text_is_encoded_in_order(a: Seq<char>, b: Seq<char>, c: char)
    ensures
        utf16(a + b) == utf16(a) + utf16(b),
        utf16(seq![c]) == utf16_units(c),
        wide(a).last() == 0 && wide(a).drop_last() == utf16(a),
    decreases b.len(),
{
    assert(seq![c].drop_last() =~= Seq::empty());
    assert(utf16(seq![c].drop_last()) =~= Seq::<u16>::empty());
    assert(wide(a).drop_last() =~= utf16(a));
    assert(utf16(seq![c]) =~= utf16_units(c));
    if b.len() == 0 {
        assert(a + b =~= a);
        assert(utf16(a) + utf16(b) =~= utf16(a));
    } else {
        assert((a + b).drop_last() =~= a + b.drop_last());
        a_text_is_encoded_in_order(a, b.drop_last(), c);
        assert(utf16(a + b) =~= utf16(a) + utf16(b));
    }
}

/// The three parts of a colour can be read back from its number: red from the
/// low byte, green from the middle one and blue from the high one.
pub proof fn a_colour_can_be_read_back(rgb: Rgb)
    ensures
        colorref(rgb) % 0x100 == rgb.0,
        colorref(rgb) / 0x100 % 0x100 == rgb.1,
        colorref(rgb) / 0x1_0000 == rgb.2,
{
}

/// An active action is marked with a tick, a submenu with an arrow, and nothing
/// else is.
pub proof fn a_row_is_marked_by_its_kind(kind: RowKind)
    ensures
        match kind {
            RowKind::Action { active, .. } => if active {
                row_symbol(kind) == seq!['\u{2713}']
            } else {
                row_symbol(kind).len() == 0
            },
            RowKind::Submenu { .. } => row_symbol(kind) == seq!['\u{25B8}'],
            RowKind::Separator => row_symbol(kind).len() == 0,
        },
{
    reveal_strlit("\u{2713}");
    reveal_strlit("\u{25B8}");
    assert("\u{2713}"@ =~= seq!['\u{2713}']);
    assert("\u{25B8}"@ =~= seq!['\u{25B8}']);
}

/// The painting begins with the background over the whole window and the colour
/// of the texts, and goes on with the rows.
pub proof fn the_background_is_painted_first(state: PopupState)
    ensures
        painting(state)[0] == (DrawView::Fill {
            rect: RectView {
                left: 0,
                top: 0,
                right: state.width_px as int,
                bottom: state.height_px as int,
            },
            color: colorref(state.palette.bg),
        }),
        painting(state)[1] == (DrawView::TextColor { color: colorref(state.palette.text) }),
        painting(state).skip(2) == rows_painting(state, state.rows@.len() as int),
{
    assert(painting(state).skip(2) =~= rows_painting(state, state.rows@.len() as int));
}

/// A row that can be chosen is painted with its label at the left and its
/// symbol, if it has one, to the right of that, both within the band of the row.
/// The band is filled with the colour of the focus before them exactly where
/// the row has it.
#[verifier::rlimit(40)]
pub proof fn a_row_is_painted_in_its_band(state: PopupState, i: int)
    requires
        0 <= i < state.rows@.len() <= i32::MAX,
        !(state.rows@[i].kind is Separator),
    ensures
        ({
            let ops = row_painting(state, i);
            let focused = state.hover == Some(i as usize);
            let at: int = if focused {
                1
            } else {
                0
            };
            let kind = state.rows@[i].kind;
            let top = row_top(state.rows@, state.dpi, i);
            let bottom = row_top(state.rows@, state.dpi, i + 1);
            &&& ops.len() == at + 1 + (if row_symbol(kind).len() > 0 {
                1int
            } else {
                0
            })
            &&& focused ==> ops[0] == (DrawView::Fill {
                rect: RectView { left: 0, top, right: state.width_px as int, bottom },
                color: colorref(state.palette.hover),
            })
            &&& ops[at] matches DrawView::Text { rect, text } && text == wide(kind.text())
                && rect.top == top && rect.bottom == bottom && rect.left == scaled(
                12,
                state.dpi as int,
            ) && (row_symbol(kind).len() > 0 ==> (ops[at + 1] matches DrawView::Text {
                rect: right,
                text: symbol,
            } && symbol == wide(row_symbol(kind)) && right.top == top && right.bottom == bottom
                && right.left == rect.right + scaled(12, state.dpi as int) && right.right
                - right.left == scaled(22, state.dpi as int) && state.width_px - right.right
                == scaled(12, state.dpi as int)))
        }),
{
}

/// A dividing line is a bar of two pixels in the middle of its band, as far
/// from the left edge as from the right.
pub proof fn a_dividing_line_is_a_bar_in_the_middle(state: PopupState, i: int)
    requires
        0 <= i < state.rows@.len(),
        state.rows@[i].kind is Separator,
    ensures
        ({
            let ops = row_painting(state, i);
            let top = row_top(state.rows@, state.dpi, i);
            let bottom = row_top(state.rows@, state.dpi, i + 1);
            &&& ops.len() == 1
            &&& ops[0] matches DrawView::Fill { rect, color } && color == colorref(
                state.palette.separator,
            ) && rect.bottom - rect.top == 2 && rect.left == state.width_px - rect.right && -1 <= (
            rect.top - top) - (bottom - rect.bottom) <= 1 && rect.left == scaled(
                12,
                state.dpi as int,
            )
        }),
{
}

/// The popup of a submenu opens at the right edge of its parent, and one row
/// further down for each row that stands above. Where no dividing line does, it
/// opens level with its row.
pub proof fn a_submenu_opens_beside_its_row(
    state: PopupState,
    x: int,
    y: int,
    dpi: u32,
    index: int,
)
    requires
        0 <= index <= state.rows@.len(),
        forall|j: int|
            0 <= j < index ==> !((#[trigger] state.rows@[j]).kind is Separator),
    ensures
        submenu_anchor(state, x, y, dpi, index).0 == x + state.width_px,
        submenu_anchor(state, x, y, dpi, index).1 == y + row_top(state.rows@, dpi, index),
    decreases index,
{
    let height = scaled(ROW_HEIGHT as int, dpi as int);
    if index > 0 {
        a_submenu_opens_beside_its_row(state, x, y, dpi, index - 1);
        assert(!(state.rows@[index - 1].kind is Separator));
        assert(index * height == (index - 1) * height + height) by (nonlinear_arith);
    } else {
        assert(0 * height == 0);
    }
}

/// Without any row the popup is as wide as for a label of twenty characters.
pub proof fn an_empty_popup_has_room_for_twenty_characters(rows: Seq<PopupRow>)
    requires
        rows.len() == 0,
    ensures
        popup_width(rows) == 20 * 8 + 46,
{
}

} // verus!
