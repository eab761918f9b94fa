use zsclip::geometry::UiRect;
use zsclip::item::ClipKind;
use zsclip::main_view::{
    clear_main_hover_state, compute_row_preview_rect, hover_preview_blocked_at_point, hovered_item,
    main_empty_state_kind, main_theme_role_color, main_title_button_visibility,
    main_window_should_stay_noactivate, mouse_leave_plan, refresh_hover_action, rgb,
    row_supports_image_preview, scroll_to_top_visible, HoverAction, HoverContext, MainEmptyStateKind,
    MainListStatus, MainThemeRole, MouseLeavePlan, PressState, Theme, TitleButtonSettings,
    TitleButtonVisibility,
};

fn theme(bg: u32) -> Theme {
    Theme {
        bg,
        surface: 1,
        surface2: 2,
        stroke: 3,
        nav_sel_fill: 4,
        control_bg: 5,
        control_stroke: 6,
        button_hover: 7,
        button_pressed: 8,
        close_hover: 9,
        item_selected: 10,
        item_hover: 11,
        accent: 12,
        text: 13,
        text_muted: 14,
    }
}

#[test]
fn theme_role_colors() {
    assert_eq!(rgb(255, 255, 255), 0x00FF_FFFF);
    assert_eq!(rgb(1, 2, 3), 0x0003_0201);
    let light = theme(rgb(255, 255, 255));
    let dark = theme(rgb(32, 32, 32));
    assert_eq!(main_theme_role_color(MainThemeRole::SegmentSelected, light), 2);
    assert_eq!(main_theme_role_color(MainThemeRole::SegmentSelected, dark), 4);
    assert_eq!(main_theme_role_color(MainThemeRole::OnAccent, dark), 0x00FF_FFFF);
    assert_eq!(main_theme_role_color(MainThemeRole::ItemHovered, dark), 11);
    assert_eq!(main_theme_role_color(MainThemeRole::TextMuted, dark), 14);
    assert_eq!(main_theme_role_color(MainThemeRole::Background, dark), rgb(32, 32, 32));
}

#[test]
fn row_thumbnail_support() {
    assert!(row_supports_image_preview(ClipKind::Image, false, true));
    assert!(row_supports_image_preview(ClipKind::Files, true, true));
    assert!(!row_supports_image_preview(ClipKind::Files, false, true));
    assert!(!row_supports_image_preview(ClipKind::Image, true, false));
}

#[test]
fn row_preview_rect_is_centred_square() {
    let row = UiRect::new(0, 100, 300, 144);
    // gap = 44*12/44 = 12, text_left = 12, size = 36, top = 100 + 4.
    assert_eq!(compute_row_preview_rect(Some(row), None, true, false), Some(UiRect::new(14, 104, 50, 140)));
    let icon = UiRect::new(10, 104, 40, 134);
    // after the icon: 40 + 12 = 52.
    assert_eq!(compute_row_preview_rect(Some(row), Some(icon), true, false), Some(UiRect::new(54, 104, 90, 140)));
    // A short row still gets a 24 square.
    let short = UiRect::new(0, 0, 300, 20);
    assert_eq!(compute_row_preview_rect(Some(short), None, true, false), Some(UiRect::new(12, -2, 36, 22)));
    assert_eq!(compute_row_preview_rect(None, Some(icon), true, false), None);
    // No thumbnail drawn, no hit area.
    assert_eq!(compute_row_preview_rect(Some(row), None, false, false), None);
    assert_eq!(compute_row_preview_rect(Some(row), None, true, true), None);
}

#[test]
fn scroll_button_visibility() {
    assert!(scroll_to_top_visible(45, 44));
    assert!(!scroll_to_top_visible(44, 44));
}

#[test]
fn title_buttons() {
    let s = TitleButtonSettings { search: true, setting: false, min: true, close: false };
    assert_eq!(
        main_title_button_visibility(&s),
        TitleButtonVisibility { search: true, setting: false, minimize: true, close: false }
    );
}

#[test]
fn empty_state_priority() {
    let base = MainListStatus { loading: false, load_error: false, grouping_enabled: false, current_group_filter: 0, tab_index: 0 };
    assert_eq!(main_empty_state_kind(&base), MainEmptyStateKind::Records);
    assert_eq!(main_empty_state_kind(&MainListStatus { tab_index: 1, ..base }), MainEmptyStateKind::Phrases);
    assert_eq!(
        main_empty_state_kind(&MainListStatus { grouping_enabled: true, current_group_filter: 3, ..base }),
        MainEmptyStateKind::Group
    );
    assert_eq!(
        main_empty_state_kind(&MainListStatus { grouping_enabled: false, current_group_filter: 3, ..base }),
        MainEmptyStateKind::Records
    );
    assert_eq!(main_empty_state_kind(&MainListStatus { load_error: true, tab_index: 1, ..base }), MainEmptyStateKind::Error);
    assert_eq!(
        main_empty_state_kind(&MainListStatus { loading: true, load_error: true, ..base }),
        MainEmptyStateKind::Loading
    );
}

#[test]
fn hovered_item_lookup() {
    let items = vec!["a", "b"];
    assert_eq!(hovered_item(&items, -1), None);
    assert_eq!(hovered_item(&items, 1), Some(&"b"));
    assert_eq!(hovered_item(&items, 2), None);
}

#[test]
fn blocked_points() {
    let top_btn = UiRect::new(100, 100, 120, 120);
    assert!(hover_preview_blocked_at_point(true, &top_btn, None, 110, 110));
    assert!(!hover_preview_blocked_at_point(false, &top_btn, None, 110, 110));
    assert!(!hover_preview_blocked_at_point(true, &top_btn, None, 120, 110));
    let del = Some(UiRect::new(0, 0, 10, 10));
    assert!(hover_preview_blocked_at_point(false, &top_btn, del, 0, 9));
    assert!(!hover_preview_blocked_at_point(false, &top_btn, del, 10, 9));
}

fn ctx() -> HoverContext {
    HoverContext {
        edge_hidden: false,
        hovered_kind: Some(ClipKind::Text),
        blocked: false,
        has_window_rect: true,
        zoom_enabled: true,
        on_thumbnail: false,
        hover_preview_enabled: true,
        row_has_thumbnail: false,
    }
}

#[test]
fn hover_actions() {
    assert_eq!(refresh_hover_action(&ctx()), HoverAction::Show { load_full_item: true });
    assert_eq!(
        refresh_hover_action(&HoverContext { hovered_kind: Some(ClipKind::Files), ..ctx() }),
        HoverAction::Show { load_full_item: false }
    );
    assert_eq!(refresh_hover_action(&HoverContext { edge_hidden: true, ..ctx() }), HoverAction::Hide);
    assert_eq!(refresh_hover_action(&HoverContext { hovered_kind: None, ..ctx() }), HoverAction::Hide);
    assert_eq!(refresh_hover_action(&HoverContext { blocked: true, ..ctx() }), HoverAction::Keep);
    assert_eq!(refresh_hover_action(&HoverContext { has_window_rect: false, ..ctx() }), HoverAction::Hide);
    let thumb = HoverContext { hovered_kind: Some(ClipKind::Image), row_has_thumbnail: true, ..ctx() };
    assert_eq!(refresh_hover_action(&HoverContext { on_thumbnail: true, hover_preview_enabled: false, ..thumb }), HoverAction::ShowZoom);
    assert_eq!(refresh_hover_action(&thumb), HoverAction::Hide);
    assert_eq!(
        refresh_hover_action(&HoverContext { zoom_enabled: false, ..thumb }),
        HoverAction::Show { load_full_item: false }
    );
    assert_eq!(refresh_hover_action(&HoverContext { hover_preview_enabled: false, ..ctx() }), HoverAction::Hide);
}

#[test]
fn leave_plans() {
    assert_eq!(
        mouse_leave_plan(true, true, false, false),
        MouseLeavePlan { apply_transition: true, check_edge_tracking: true, invalidate: true }
    );
    assert_eq!(
        mouse_leave_plan(false, true, false, true),
        MouseLeavePlan { apply_transition: false, check_edge_tracking: false, invalidate: false }
    );
}

#[test]
fn clearing_presses() {
    let mut press = PressState { down_to_top: false, down_row: 3, down_x: 5, down_y: 6 };
    assert!(clear_main_hover_state(false, &mut press));
    assert_eq!(press, PressState { down_to_top: false, down_row: -1, down_x: 0, down_y: 0 });
    assert!(!clear_main_hover_state(false, &mut press));
    assert!(clear_main_hover_state(true, &mut press));
    let mut top = PressState { down_to_top: true, down_row: -1, down_x: 5, down_y: 6 };
    assert!(press.clear_press() == false);
    assert!(top.clear_press());
    assert_eq!(top, PressState { down_to_top: false, down_row: -1, down_x: 5, down_y: 6 });
}

#[test]
fn noactivate_on_rows() {
    assert!(main_window_should_stay_noactivate(0));
    assert!(!main_window_should_stay_noactivate(-1));
}
