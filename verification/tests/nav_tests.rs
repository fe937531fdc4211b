use textamp::action::{Action, AppView};
use textamp::browse::BrowseCategory;
use textamp::menu_bar::TopMenu;
use textamp::nav::{
    close_related_popup, close_similar_popup, handle_key_press, lift_view_to_popup, live_filter_query,
    maybe_persist_window_size,
    show_related_popup, show_similar_popup, submit_filter_msg, title, KeyCodeLite, KeyOutcome, LibraryEntry,
    Overlays, Tab, ViewState,
};
use textamp::popup::{
    active_popup, close_state_popup, find_toggle_index, ActivePopup, PopupSlot, PrimaryPopup, StatePopupKind, StatePopups,
};

fn vs(view: AppView) -> ViewState {
    ViewState { view, popup: PrimaryPopup::Closed, similar_prev_view: None, related_prev_view: None }
}

fn overlays() -> Overlays {
    Overlays {
        art_popup_open: false,
        popup: PrimaryPopup::Closed,
        similar_prev_view: None,
        view: AppView::Browse,
        context_menu_open: false,
        menu_open: None,
        filter_has_text: false,
    }
}

#[test]
fn tabs_label_action_and_activity() {
    assert_eq!(Tab::Library.label(), "Library");
    assert_eq!(Tab::NowPlaying.label(), "Now Playing");
    let a = Tab::Library.action();
    assert_eq!(a.len(), 2);
    assert!(matches!(a[0], Action::SetCategory(BrowseCategory::Library)));
    assert!(matches!(a[1], Action::SetView(AppView::Browse)));
    let a = Tab::NowPlaying.action();
    assert_eq!(a.len(), 1);
    assert!(matches!(a[0], Action::SetView(AppView::Queue)));
    assert!(Tab::Library.is_active(AppView::Browse));
    assert!(!Tab::Library.is_active(AppView::Queue));
    assert!(Tab::NowPlaying.is_active(AppView::NowPlaying));
    assert!(Tab::NowPlaying.is_active(AppView::Queue));
    assert!(!Tab::NowPlaying.is_active(AppView::Settings));
}

#[test]
fn filter_submit_trims_and_ignores_blank() {
    assert!(submit_filter_msg("   ").is_empty());
    assert!(submit_filter_msg("").is_empty());
    let r = submit_filter_msg("  pink floyd \t");
    assert_eq!(r.len(), 2);
    assert!(matches!(r[0], Action::OpenSearchPopup));
    assert!(matches!(&r[1], Action::SetSearchQuery(q) if q == "pink floyd"));
}

#[test]
fn similar_view_becomes_popup_over_previous_view() {
    let mut s = vs(AppView::Similar);
    lift_view_to_popup(&mut s, AppView::Queue);
    assert_eq!(s.view, AppView::Queue);
    assert_eq!(s.popup, PrimaryPopup::Similar);
    assert_eq!(s.similar_prev_view, Some(AppView::Queue));
    close_similar_popup(&mut s);
    assert_eq!(s.view, AppView::Queue);
    assert_eq!(s.popup, PrimaryPopup::Closed);
    assert_eq!(s.similar_prev_view, None);
}

#[test]
fn settings_view_becomes_popup_and_other_views_stay() {
    let mut s = vs(AppView::Settings);
    lift_view_to_popup(&mut s, AppView::Browse);
    assert_eq!(s.view, AppView::Browse);
    assert_eq!(s.popup, PrimaryPopup::Settings);
    let mut s = vs(AppView::NowPlaying);
    lift_view_to_popup(&mut s, AppView::Browse);
    assert_eq!(s.view, AppView::NowPlaying);
    assert_eq!(s.popup, PrimaryPopup::Closed);
}

#[test]
fn related_popup_round_trip_keeps_similar_memory() {
    let mut s = vs(AppView::Browse);
    s.similar_prev_view = Some(AppView::Search);
    show_related_popup(&mut s, AppView::NowPlaying);
    assert_eq!(s.popup, PrimaryPopup::Related);
    assert_eq!(s.related_prev_view, Some(AppView::NowPlaying));
    s.view = AppView::Browse;
    close_related_popup(&mut s);
    assert_eq!(s.view, AppView::NowPlaying);
    assert_eq!(s.popup, PrimaryPopup::Closed);
    assert_eq!(s.similar_prev_view, Some(AppView::Search));
    let mut s = vs(AppView::Browse);
    show_similar_popup(&mut s, AppView::Similar);
    assert_eq!(s.similar_prev_view, None);
}

#[test]
fn escape_closes_frontmost_overlay_first() {
    let mut o = overlays();
    o.art_popup_open = true;
    o.popup = PrimaryPopup::About;
    o.context_menu_open = true;
    assert_eq!(handle_key_press(&mut o, KeyCodeLite::Esc, false), KeyOutcome::Consumed);
    assert!(!o.art_popup_open);
    assert_eq!(o.popup, PrimaryPopup::About);
    assert_eq!(handle_key_press(&mut o, KeyCodeLite::Esc, false), KeyOutcome::Consumed);
    assert_eq!(o.popup, PrimaryPopup::Closed);
    assert!(o.context_menu_open);
    assert_eq!(handle_key_press(&mut o, KeyCodeLite::Esc, false), KeyOutcome::Consumed);
    assert!(!o.context_menu_open);
    o.menu_open = Some(TopMenu::Tools);
    assert_eq!(handle_key_press(&mut o, KeyCodeLite::Esc, false), KeyOutcome::Consumed);
    assert_eq!(o.menu_open, None);
    o.filter_has_text = true;
    assert_eq!(handle_key_press(&mut o, KeyCodeLite::Esc, false), KeyOutcome::ClearFilter);
    o.filter_has_text = false;
    assert_eq!(handle_key_press(&mut o, KeyCodeLite::Esc, false), KeyOutcome::Dispatch);
}

#[test]
fn escape_on_similar_restores_view() {
    let mut o = overlays();
    o.popup = PrimaryPopup::Similar;
    o.similar_prev_view = Some(AppView::Queue);
    o.view = AppView::Browse;
    assert_eq!(handle_key_press(&mut o, KeyCodeLite::Esc, false), KeyOutcome::Consumed);
    assert_eq!(o.view, AppView::Queue);
    assert_eq!(o.similar_prev_view, None);
}

#[test]
fn desktop_shortcuts() {
    let mut o = overlays();
    assert_eq!(handle_key_press(&mut o, KeyCodeLite::Char('s'), true), KeyOutcome::Consumed);
    assert_eq!(handle_key_press(&mut o, KeyCodeLite::Char('s'), false), KeyOutcome::Dispatch);
    assert_eq!(handle_key_press(&mut o, KeyCodeLite::F(2), false), KeyOutcome::OpenedSettings);
    assert_eq!(o.popup, PrimaryPopup::Settings);
    assert_eq!(handle_key_press(&mut o, KeyCodeLite::F(1), false), KeyOutcome::Consumed);
    assert_eq!(o.popup, PrimaryPopup::UserGuide);
    assert_eq!(handle_key_press(&mut o, KeyCodeLite::Char('='), true), KeyOutcome::ScaleUp);
    assert_eq!(handle_key_press(&mut o, KeyCodeLite::Char('_'), true), KeyOutcome::ScaleDown);
    assert_eq!(handle_key_press(&mut o, KeyCodeLite::Char('0'), true), KeyOutcome::ScaleReset);
    assert_eq!(handle_key_press(&mut o, KeyCodeLite::Char('0'), false), KeyOutcome::Dispatch);
    assert_eq!(handle_key_press(&mut o, KeyCodeLite::Other, true), KeyOutcome::Dispatch);
}

#[test]
fn window_title() {
    let libs = vec![
        LibraryEntry { key: "1".to_string(), title: "Music".to_string() },
        LibraryEntry { key: "2".to_string(), title: "Audiobooks".to_string() },
    ];
    assert_eq!(title(Some("2"), &libs, Some("ann")), "Textamp \u{2014} Audiobooks");
    assert_eq!(title(Some("9"), &libs, Some("ann")), "Textamp \u{2014} ann");
    assert_eq!(title(None, &libs, None), "Textamp");
}

#[test]
fn window_size_saved_once() {
    let mut last = (0u32, 0u32);
    assert!(maybe_persist_window_size(&mut last, 1280, 800));
    assert_eq!(last, (1280, 800));
    assert!(!maybe_persist_window_size(&mut last, 1280, 800));
    assert!(!maybe_persist_window_size(&mut last, 0, 800));
    assert_eq!(last, (1280, 800));
}

#[test]
fn popup_slot_open_close() {
    let mut s = PopupSlot::new();
    assert!(!s.primary_popup.is_open());
    s.open(PrimaryPopup::About);
    assert!(s.is(PrimaryPopup::About));
    s.close_if(PrimaryPopup::Stations);
    assert!(s.is(PrimaryPopup::About));
    s.open(PrimaryPopup::DjModes);
    assert!(!s.is(PrimaryPopup::About));
    s.close_if(PrimaryPopup::DjModes);
    assert_eq!(s.primary_popup, PrimaryPopup::Closed);
    s.open(PrimaryPopup::Settings);
    s.dismiss();
    assert!(!s.primary_popup.is_open());
    assert_ne!(StatePopupKind::Sort, StatePopupKind::Search);
}

#[test]
fn active_state_popup_priority() {
    let mut p = StatePopups {
        palette_open: false,
        confirm_dialog: false,
        input_dialog: false,
        library_picker: false,
        search: false,
        artist_bio: false,
        sort: false,
        radio_launcher: false,
        artist_radio_picker: false,
        adventure_launcher: false,
    };
    assert_eq!(active_popup(&p), None);
    p.adventure_launcher = true;
    assert_eq!(active_popup(&p), Some(ActivePopup::AdventureLauncher));
    p.sort = true;
    assert_eq!(active_popup(&p), Some(ActivePopup::Sort));
    p.palette_open = true;
    assert_eq!(active_popup(&p), Some(ActivePopup::CommandPalette));
}

#[test]
fn toggle_index_finds_first_match() {
    let keys = vec!["a".to_string(), "b".to_string(), "b".to_string()];
    assert_eq!(find_toggle_index(&keys, "b"), 1);
    assert_eq!(find_toggle_index(&keys, "z"), 0);
    assert_eq!(find_toggle_index(&Vec::new(), "a"), 0);
}

#[test]
fn close_button_closes_only_its_popup() {
    let mut p = StatePopups {
        palette_open: false,
        confirm_dialog: false,
        input_dialog: false,
        library_picker: false,
        search: true,
        artist_bio: false,
        sort: true,
        radio_launcher: true,
        artist_radio_picker: true,
        adventure_launcher: true,
    };
    close_state_popup(&mut p, StatePopupKind::Sort);
    assert!(!p.sort && p.search && p.radio_launcher);
    close_state_popup(&mut p, StatePopupKind::Search);
    assert!(!p.search && p.artist_radio_picker);
    close_state_popup(&mut p, StatePopupKind::ArtistRadioPicker);
    close_state_popup(&mut p, StatePopupKind::RadioLauncher);
    assert!(p.adventure_launcher);
    close_state_popup(&mut p, StatePopupKind::AdventureLauncher);
    assert_eq!(active_popup(&p), None);
}

#[test]
fn live_filter_applies_to_its_category_only() {
    assert_eq!(
        live_filter_query(true, BrowseCategory::Library, BrowseCategory::Library, "  ween "),
        Some("ween".to_string())
    );
    assert_eq!(live_filter_query(true, BrowseCategory::Library, BrowseCategory::Genres, "ween"), None);
    assert_eq!(live_filter_query(false, BrowseCategory::Library, BrowseCategory::Library, "ween"), None);
    assert_eq!(live_filter_query(true, BrowseCategory::Library, BrowseCategory::Library, "   "), None);
}
