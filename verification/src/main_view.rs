use vstd::prelude::*;
use vstd::math::{max, min};

use crate::geometry::{pt_in_rect, trunc_div, UiRect};
use crate::item::ClipKind;

verus! {

// ---------------------------------------------------------------------------
// Theme colours.
// ---------------------------------------------------------------------------

/// The colours of the light or dark window theme, as `COLORREF` values.
#[derive(Clone, Copy, Debug, PartialEq, Eq, Structural)]
pub struct Theme {
    pub bg: u32,
    pub surface: u32,
    pub surface2: u32,
    pub stroke: u32,
    pub nav_sel_fill: u32,
    pub control_bg: u32,
    pub control_stroke: u32,
    pub button_hover: u32,
    pub button_pressed: u32,
    pub close_hover: u32,
    pub item_selected: u32,
    pub item_hover: u32,
    pub accent: u32,
    pub text: u32,
    pub text_muted: u32,
}

/// The roles in which the main window paints with a theme colour.
#[derive(Clone, Copy, Debug, PartialEq, Eq, Structural)]
pub enum MainThemeRole {
    Surface,
    Surface2,
    Stroke,
    SegmentSelected,
    Background,
    ControlBg,
    ControlStroke,
    ButtonHover,
    ButtonPressed,
    CloseHover,
    ItemSelected,
    ItemHovered,
    Accent,
    OnAccent,
    Text,
    TextMuted,
}

pub open spec fn rgb_spec(r: u8, g: u8, b: u8) -> u32 {
    (r as int + g as int * 256 + b as int * 65536) as u32
}

/// The `COLORREF` of a red, green and blue value (`0x00BBGGRR`).
pub fn rgb(r: u8, g: u8, b: u8) -> (c: u32)
    ensures
        c == rgb_spec(r, g, b),
{
    r as u32 + (g as u32) * 256 + (b as u32) * 65536
}

pub open spec fn white() -> u32 {
    rgb_spec(255, 255, 255)
}

pub open spec fn role_color(role: MainThemeRole, th: Theme) -> u32 {
    match role {
        MainThemeRole::Surface => th.surface,
        MainThemeRole::Surface2 => th.surface2,
        MainThemeRole::Stroke => th.stroke,
        MainThemeRole::SegmentSelected => if th.bg == white() { th.surface2 } else { th.nav_sel_fill },
        MainThemeRole::Background => th.bg,
        MainThemeRole::ControlBg => th.control_bg,
        MainThemeRole::ControlStroke => th.control_stroke,
        MainThemeRole::ButtonHover => th.button_hover,
        MainThemeRole::ButtonPressed => th.button_pressed,
        MainThemeRole::CloseHover => th.close_hover,
        MainThemeRole::ItemSelected => th.item_selected,
        MainThemeRole::ItemHovered => th.item_hover,
        MainThemeRole::Accent => th.accent,
        MainThemeRole::OnAccent => white(),
        MainThemeRole::Text => th.text,
        MainThemeRole::TextMuted => th.text_muted,
    }
}

/// The colour of `role` in the theme `th`. A selected segment uses the
/// second surface on a white background and the navigation fill otherwise;
/// text on the accent colour is always white.
pub fn main_theme_role_color(role: MainThemeRole, th: Theme) -> (c: u32)
    ensures
        c == role_color(role, th),
{
    match role {
        MainThemeRole::Surface => th.surface,
        MainThemeRole::Surface2 => th.surface2,
        MainThemeRole::Stroke => th.stroke,
        MainThemeRole::SegmentSelected => {
            if th.bg == rgb(255, 255, 255) {
                th.surface2
            } else {
                th.nav_sel_fill
            }
        },
        MainThemeRole::Background => th.bg,
        MainThemeRole::ControlBg => th.control_bg,
        MainThemeRole::ControlStroke => th.control_stroke,
        MainThemeRole::ButtonHover => th.button_hover,
        MainThemeRole::ButtonPressed => th.button_pressed,
        MainThemeRole::CloseHover => th.close_hover,
        MainThemeRole::ItemSelected => th.item_selected,
        MainThemeRole::ItemHovered => th.item_hover,
        MainThemeRole::Accent => th.accent,
        MainThemeRole::OnAccent => rgb(255, 255, 255),
        MainThemeRole::Text => th.text,
        MainThemeRole::TextMuted => th.text_muted,
    }
}

// ---------------------------------------------------------------------------
// Rows of the main list.
// ---------------------------------------------------------------------------

/// Whether a row shows an image thumbnail: image previews are enabled and
/// the item is an image or a file item pointing at an image file.
pub fn row_supports_image_preview(kind: ClipKind, has_image_file_path: bool, image_preview_enabled: bool) -> (yes: bool)
    ensures
        yes == (image_preview_enabled && (kind == ClipKind::Image || has_image_file_path)),
{
    image_preview_enabled && (kind == ClipKind::Image || has_image_file_path)
}

/// Gap before the row text: 12/44 of the row height, clamped to `[lo, hi]`.
pub open spec fn row_gap(row_h: int, lo: int, hi: int) -> int {
    min(max(trunc_div(row_h * 12, 44), lo), hi)
}

pub open spec fn row_text_left(row: UiRect, icon: Option<UiRect>) -> int {
    let base = row.left + row_gap(row.spec_height(), 10, 20);
    match icon {
        Some(ic) => max(base, ic.right + row_gap(row.spec_height(), 10, 18)),
        None => base,
    }
}

pub open spec fn thumb_size(row_h: int) -> int {
    max(row_h - 8, 24)
}

/// The thumbnail square of a row: after the text start (and the icon), side
/// `row_h - 8` but at least 24, centred vertically in the row.
pub open spec fn row_preview_rect(row: UiRect, icon: Option<UiRect>) -> (int, int, int) {
    let size = thumb_size(row.spec_height());
    (row_text_left(row, icon) + 2, row.top + trunc_div(row.spec_height() - size, 2), size)
}

pub open spec fn row_preview_in_range(row: UiRect, icon: Option<UiRect>) -> bool {
    let h = row.spec_height();
    let p = row_preview_rect(row, icon);
    &&& i32::MIN <= h * 12 <= i32::MAX
    &&& i32::MIN <= row.left + row_gap(h, 10, 20) <= i32::MAX
    &&& (icon matches Some(ic) ==> i32::MIN <= ic.right + row_gap(h, 10, 18) <= i32::MAX)
    &&& i32::MIN <= h - 8
    &&& p.0 <= i32::MAX
    &&& i32::MIN <= h - p.2
    &&& i32::MIN <= p.1 && p.1 + p.2 <= i32::MAX
    &&& p.0 + p.2 <= i32::MAX
}

fn row_gap_exec(row_h: i32, lo: i32, hi: i32) -> (g: i32)
    requires
        i32::MIN <= row_h * 12 <= i32::MAX,
        lo <= hi,
    ensures
        g == row_gap(row_h as int, lo as int, hi as int),
{
    let g = row_h * 12 / 44;
    if g < lo {
        lo
    } else if g > hi {
        hi
    } else {
        g
    }
}

fn gap_fits(row_h: i32, lo: i32, hi: i32) -> (g: Option<i32>)
    requires
        lo <= hi,
    ensures
        (i32::MIN <= row_h * 12 <= i32::MAX) <==> g is Some,
        g matches Some(v) ==> v == row_gap(row_h as int, lo as int, hi as int),
{
    let t = row_h as i64 * 12;
    if t < i32::MIN as i64 || t > i32::MAX as i64 {
        None
    } else {
        Some(row_gap_exec(row_h, lo, hi))
    }
}

/// Whether `compute_row_preview_rect` stays free of overflow for `row`
/// and `icon`.
pub fn row_preview_fits(row: &UiRect, icon: Option<UiRect>) -> (fits: bool)
    ensures
        fits == row_preview_in_range(*row, icon),
{
    let h = row.bottom as i64 - row.top as i64;
    if h < i32::MIN as i64 || h > i32::MAX as i64 {
        assert(!(i32::MIN <= row.spec_height() * 12 <= i32::MAX));
        return false;
    }
    let row_h = h as i32;
    let g20 = match gap_fits(row_h, 10, 20) {
        Some(g) => g,
        None => return false,
    };
    let base = row.left as i64 + g20 as i64;
    if base < i32::MIN as i64 || base > i32::MAX as i64 {
        return false;
    }
    let mut text_left = base;
    match icon {
        Some(ic) => {
            let g18 = row_gap_exec(row_h, 10, 18);
            let after = ic.right as i64 + g18 as i64;
            if after < i32::MIN as i64 || after > i32::MAX as i64 {
                return false;
            }
            if after > text_left {
                text_left = after;
            }
        },
        None => {},
    }
    let size: i64 = if h - 8 < 24 { 24 } else { h - 8 };
    let left = text_left + 2;
    let top = row.top as i64 + (h - size) / 2;
    i32::MIN as i64 <= h - 8 && left <= i32::MAX as i64 && i32::MIN as i64 <= h - size
        && i32::MIN as i64 <= top && top + size <= i32::MAX as i64 && left + size <= i32::MAX as i64
}

/// The hit-test rectangle of a row's thumbnail: the square the row layout
/// draws inside `row` (whose icon, if drawn, is `icon`). Where no thumbnail
/// is drawn there is no rectangle: no row, a row without image previews
/// (`supports_image_preview`, see `row_supports_image_preview`), or a row
/// whose thumbnail could not be loaded (`thumbnail_failed`).
pub fn compute_row_preview_rect(
    row: Option<UiRect>,
    icon: Option<UiRect>,
    supports_image_preview: bool,
    thumbnail_failed: bool,
) -> (rc: Option<UiRect>)
    requires
        row matches Some(r) ==> row_preview_in_range(r, icon),
    ensures
        !supports_image_preview || thumbnail_failed ==> rc is None,
        supports_image_preview && !thumbnail_failed ==> match row {
            None => rc is None,
            Some(r) => rc matches Some(p) && {
                let s = row_preview_rect(r, icon);
                &&& p.left == s.0
                &&& p.top == s.1
                &&& p.right == s.0 + s.2
                &&& p.bottom == s.1 + s.2
            },
        },
{
    if !supports_image_preview || thumbnail_failed {
        return None;
    }
    let row = match row {
        Some(r) => r,
        None => return None,
    };
    let row_h = row.height();
    let mut text_left = row.left + row_gap_exec(row_h, 10, 20);
    match icon {
        Some(ic) => {
            let after_icon = ic.right + row_gap_exec(row_h, 10, 18);
            if after_icon > text_left {
                text_left = after_icon;
            }
        },
        None => {},
    }
    let mut size = row_h - 8;
    if size < 24 {
        size = 24;
    }
    let left = text_left + 2;
    let top = row.top + (row_h - size) / 2;
    Some(UiRect::new(left, top, left + size, top + size))
}

/// The thumbnail is a square of side `max(row_h - 8, 24)`, right of the row
/// text start; in a row at least 32 high it sits 4 pixels inside the top
/// and bottom edges.
pub proof fn law_row_preview_square_centered(row: UiRect, icon: Option<UiRect>)
    ensures
        ({
            let p = row_preview_rect(row, icon);
            &&& p.2 == max(row.spec_height() - 8, 24)
            &&& p.0 >= row.left + 12
            &&& row.spec_height() >= 32 ==> p.1 == row.top + 4 && p.1 + p.2 == row.bottom - 4
        }),
{
}

/// Whether the "back to top" button shows: the list is scrolled further than
/// one row.
pub fn scroll_to_top_visible(scroll_y: i32, row_h: i32) -> (visible: bool)
    ensures
        visible == (scroll_y > row_h),
{
    scroll_y > row_h
}

/// Which buttons the title bar shows, as the settings hold them.
#[derive(Clone, Copy, Debug, PartialEq, Eq, Structural)]
pub struct TitleButtonSettings {
    pub search: bool,
    pub setting: bool,
    pub min: bool,
    pub close: bool,
}

/// A button of the main window's title bar.
#[derive(Clone, Copy, Debug, PartialEq, Eq, Structural)]
pub enum TitleButton {
    Search,
    Setting,
    Minimize,
    Close,
}

/// Whether the settings show the title button `button`.
pub fn title_button_visible(settings: &TitleButtonSettings, button: TitleButton) -> (visible: bool)
    ensures
        visible == match button {
            TitleButton::Search => settings.search,
            TitleButton::Setting => settings.setting,
            TitleButton::Minimize => settings.min,
            TitleButton::Close => settings.close,
        },
{
    match button {
        TitleButton::Search => settings.search,
        TitleButton::Setting => settings.setting,
        TitleButton::Minimize => settings.min,
        TitleButton::Close => settings.close,
    }
}

/// Which title buttons the main window draws.
#[derive(Clone, Copy, Debug, PartialEq, Eq, Structural)]
pub struct TitleButtonVisibility {
    pub search: bool,
    pub setting: bool,
    pub minimize: bool,
    pub close: bool,
}

/// The title buttons that the main window draws under `settings`.
pub fn main_title_button_visibility(settings: &TitleButtonSettings) -> (v: TitleButtonVisibility)
    ensures
        v == (TitleButtonVisibility {
            search: settings.search,
            setting: settings.setting,
            minimize: settings.min,
            close: settings.close,
        }),
{
    TitleButtonVisibility {
        search: title_button_visible(settings, TitleButton::Search),
        setting: title_button_visible(settings, TitleButton::Setting),
        minimize: title_button_visible(settings, TitleButton::Minimize),
        close: title_button_visible(settings, TitleButton::Close),
    }
}

/// What an empty main list says.
#[derive(Clone, Copy, Debug, PartialEq, Eq, Structural)]
pub enum MainEmptyStateKind {
    Loading,
    Error,
    Group,
    Records,
    Phrases,
}

/// What the main window knows about the list on show.
#[derive(Clone, Copy, Debug, PartialEq, Eq, Structural)]
pub struct MainListStatus {
    /// The active list is still loading.
    pub loading: bool,
    /// Loading the active list failed.
    pub load_error: bool,
    pub grouping_enabled: bool,
    /// The group the list is filtered to (0: none).
    pub current_group_filter: i64,
    /// 0: clipboard records, otherwise phrases.
    pub tab_index: usize,
}

/// The empty-list message: loading first, then a load error, then an empty
/// group filter, and otherwise the message of the tab.
pub fn main_empty_state_kind(status: &MainListStatus) -> (kind: MainEmptyStateKind)
    ensures
        kind == (if status.loading {
            MainEmptyStateKind::Loading
        } else if status.load_error {
            MainEmptyStateKind::Error
        } else if status.grouping_enabled && status.current_group_filter != 0 {
            MainEmptyStateKind::Group
        } else if status.tab_index == 0 {
            MainEmptyStateKind::Records
        } else {
            MainEmptyStateKind::Phrases
        }),
{
    if status.loading {
        MainEmptyStateKind::Loading
    } else if status.load_error {
        MainEmptyStateKind::Error
    } else if status.grouping_enabled && status.current_group_filter != 0 {
        MainEmptyStateKind::Group
    } else if status.tab_index == 0 {
        MainEmptyStateKind::Records
    } else {
        MainEmptyStateKind::Phrases
    }
}

// ---------------------------------------------------------------------------
// Hover handling.
// ---------------------------------------------------------------------------

/// The item under the cursor: entry `hover_idx` of the active list, if
/// there is one (a negative index means no row is hovered).
pub fn hovered_item<T>(items: &[T], hover_idx: i32) -> (item: Option<&T>)
    ensures
        match item {
            Some(it) => 0 <= hover_idx < items@.len() && *it == items@[hover_idx as int],
            None => hover_idx < 0 || hover_idx >= items@.len(),
        },
{
    if hover_idx < 0 {
        return None;
    }
    let idx = hover_idx as usize;
    if idx < items.len() {
        Some(&items[idx])
    } else {
        None
    }
}

/// Whether the cursor at `(x, y)` sits on a control that suppresses the
/// hover preview: the visible "back to top" button, or the quick-delete
/// button of the hovered row.
pub fn hover_preview_blocked_at_point(
    scroll_to_top_shown: bool,
    scroll_to_top_rect: &UiRect,
    quick_delete_rect: Option<UiRect>,
    x: i32,
    y: i32,
) -> (blocked: bool)
    ensures
        blocked == ((scroll_to_top_shown && scroll_to_top_rect.contains_point(x as int, y as int))
            || (quick_delete_rect matches Some(rc) && rc.contains_point(x as int, y as int))),
{
    if scroll_to_top_shown && pt_in_rect(x, y, scroll_to_top_rect) {
        return true;
    }
    match quick_delete_rect {
        Some(rc) => pt_in_rect(x, y, &rc),
        None => false,
    }
}

/// What is known when the cursor rests over the main list.
#[derive(Clone, Copy, Debug, PartialEq, Eq, Structural)]
pub struct HoverContext {
    /// The main window is hidden at the screen edge.
    pub edge_hidden: bool,
    /// The kind of the hovered item, if a row is hovered.
    pub hovered_kind: Option<ClipKind>,
    /// The cursor is on a control that suppresses the preview.
    pub blocked: bool,
    /// The main window's rectangle could be read.
    pub has_window_rect: bool,
    /// The image zoom preview is enabled.
    pub zoom_enabled: bool,
    /// The cursor is on the thumbnail of the hovered row.
    pub on_thumbnail: bool,
    /// The general hover preview is enabled.
    pub hover_preview_enabled: bool,
    /// The hovered row draws a thumbnail.
    pub row_has_thumbnail: bool,
}

/// What to do with the hover preview.
#[derive(Clone, Copy, Debug, PartialEq, Eq, Structural)]
pub enum HoverAction {
    Hide,
    /// Leave the preview as it is.
    Keep,
    /// Show the zoomed image of the hovered item.
    ShowZoom,
    /// Show the ordinary preview; `load_full_item` asks for the item's full
    /// text first (text and phrase items).
    Show { load_full_item: bool },
}

pub open spec fn hover_action_for(c: HoverContext) -> HoverAction {
    if c.edge_hidden {
        HoverAction::Hide
    } else if c.hovered_kind is None {
        HoverAction::Hide
    } else if c.blocked {
        HoverAction::Keep
    } else if !c.has_window_rect {
        HoverAction::Hide
    } else if c.zoom_enabled && c.on_thumbnail {
        HoverAction::ShowZoom
    } else if !c.hover_preview_enabled {
        HoverAction::Hide
    } else if c.row_has_thumbnail && c.zoom_enabled {
        HoverAction::Hide
    } else {
        HoverAction::Show {
            load_full_item: c.hovered_kind == Some(ClipKind::Text) || c.hovered_kind == Some(ClipKind::Phrase),
        }
    }
}

/// The hover preview decision when the cursor rests over the main list.
pub fn refresh_hover_action(c: &HoverContext) -> (action: HoverAction)
    ensures
        action == hover_action_for(*c),
{
    if c.edge_hidden {
        return HoverAction::Hide;
    }
    let kind = match c.hovered_kind {
        Some(k) => k,
        None => return HoverAction::Hide,
    };
    if c.blocked {
        return HoverAction::Keep;
    }
    if !c.has_window_rect {
        return HoverAction::Hide;
    }
    if c.zoom_enabled && c.on_thumbnail {
        return HoverAction::ShowZoom;
    }
    if !c.hover_preview_enabled {
        return HoverAction::Hide;
    }
    if c.row_has_thumbnail && c.zoom_enabled {
        return HoverAction::Hide;
    }
    let load_full_item = match kind {
        ClipKind::Text | ClipKind::Phrase => true,
        _ => false,
    };
    HoverAction::Show { load_full_item }
}

/// The zoom preview appears only with zoom enabled and the cursor on the
/// hovered row's thumbnail; on a thumbnail row with zoom enabled the small
/// preview never appears, so the zoom vanishes as the cursor leaves the
/// thumbnail.
pub proof fn law_zoom_only_on_thumbnail(c: HoverContext)
    ensures
        hover_action_for(c) == HoverAction::ShowZoom ==> c.zoom_enabled && c.on_thumbnail,
        c.row_has_thumbnail && c.zoom_enabled ==> !(hover_action_for(c) is Show),
        hover_action_for(c) is Show ==> c.hover_preview_enabled,
{
}

/// With zoom enabled and the cursor on the hovered row's thumbnail, the
/// thumbnail is zoomed whatever the item's kind (an image file zooms like an
/// image), unless the edge-docked window is hidden, a control blocks the
/// preview, or the window's place is unknown.
pub proof fn law_zoom_on_thumbnail_whatever_kind(c: HoverContext)
    requires
        c.zoom_enabled,
        c.on_thumbnail,
        c.hovered_kind is Some,
        !c.blocked,
        c.has_window_rect,
        !c.edge_hidden,
    ensures
        hover_action_for(c) == HoverAction::ShowZoom,
{
}

/// What leaving the main window entails.
#[derive(Clone, Copy, Debug, PartialEq, Eq, Structural)]
pub struct MouseLeavePlan {
    /// Apply the cleared hover target.
    pub apply_transition: bool,
    /// Look whether the cursor is still within the edge-docked window's
    /// scope, and if so track the next leave.
    pub check_edge_tracking: bool,
    /// Repaint the main window.
    pub invalidate: bool,
}

/// The steps after the cursor left the main window (the preview is hidden
/// in any case).
pub fn mouse_leave_plan(transition_changed: bool, edge_auto_hide: bool, edge_hidden: bool, vv_menu_active: bool) -> (plan: MouseLeavePlan)
    ensures
        plan == (MouseLeavePlan {
            apply_transition: transition_changed,
            check_edge_tracking: edge_auto_hide && !edge_hidden && !vv_menu_active,
            invalidate: transition_changed,
        }),
{
    MouseLeavePlan {
        apply_transition: transition_changed,
        check_edge_tracking: edge_auto_hide && !edge_hidden && !vv_menu_active,
        invalidate: transition_changed,
    }
}

/// The pressed state of the main list.
#[derive(Clone, Copy, Debug, PartialEq, Eq, Structural)]
pub struct PressState {
    pub down_to_top: bool,
    /// The pressed row (-1: none) and where it was pressed.
    pub down_row: i32,
    pub down_x: i32,
    pub down_y: i32,
}

pub open spec fn press_is_clear(p: PressState) -> bool {
    !p.down_to_top && p.down_row == -1
}

/// The pressed state with every press released.
pub open spec fn cleared_press(p: PressState) -> PressState {
    if p.down_row != -1 {
        PressState { down_to_top: false, down_row: -1i32, down_x: 0i32, down_y: 0i32 }
    } else {
        PressState { down_to_top: false, ..p }
    }
}

impl PressState {
    /// Releases any press; returns whether anything was pressed.
    pub fn clear_press(&mut self) -> (changed: bool)
        ensures
            changed == !press_is_clear(*old(self)),
            *final(self) == cleared_press(*old(self)),
    {
        let mut changed = false;
        if self.down_to_top {
            self.down_to_top = false;
            changed = true;
        }
        if self.down_row != -1 {
            self.down_row = -1;
            self.down_x = 0;
            self.down_y = 0;
            changed = true;
        }
        changed
    }
}

/// Whether clearing the main window's hover state needs a repaint: the
/// hover target changed or a press was released.
pub fn clear_main_hover_state(transition_changed: bool, press: &mut PressState) -> (dirty: bool)
    ensures
        dirty == (transition_changed || !press_is_clear(*old(press))),
        *final(press) == cleared_press(*old(press)),
{
    let released = press.clear_press();
    transition_changed || released
}

/// Releasing leaves nothing pressed, so releasing again changes nothing and
/// asks for no repaint.
pub proof fn law_clear_press_is_idempotent(p: PressState)
    ensures
        press_is_clear(cleared_press(p)),
        cleared_press(cleared_press(p)) == cleared_press(p),
{
}

/// The main window stays non-activating while the cursor is over a row
/// (`hit_row` is the row hit, negative for none).
pub fn main_window_should_stay_noactivate(hit_row: i32) -> (stay: bool)
    ensures
        stay == (hit_row >= 0),
{
    hit_row >= 0
}

} // verus!
