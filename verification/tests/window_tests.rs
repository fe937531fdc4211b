use textamp::action::AppView;
use textamp::menu_bar::TopMenu;
use textamp::popup::{ActivePopup, PrimaryPopup, StatePopups};
use textamp::window::{screen_of, window_layers, Layer, Screen, WindowState};

fn no_popups() -> StatePopups {
    StatePopups {
        palette_open: false,
        confirm_dialog: false,
        input_dialog: false,
        library_picker: false,
        search: false,
        artist_bio: false,
        sort: false,
        radio_launcher: false,
        artist_radio_picker: false,
        adventure_launcher: false,
    }
}

fn window(view: AppView) -> WindowState {
    WindowState {
        view,
        in_window_menu: true,
        menu_open: None,
        state_popups: no_popups(),
        popup: PrimaryPopup::Closed,
        art_popup_open: false,
        context_menu_open: false,
    }
}

#[test]
fn sign_in_screen_has_no_chrome() {
    let mut w = window(AppView::Auth);
    w.menu_open = Some(TopMenu::File);
    assert_eq!(window_layers(&w), vec![Layer::Body(Screen::Auth)]);
}

#[test]
fn browse_with_everything_open_stacks_in_order() {
    let mut w = window(AppView::Browse);
    w.menu_open = Some(TopMenu::File);
    w.state_popups.sort = true;
    w.state_popups.confirm_dialog = true;
    w.popup = PrimaryPopup::Settings;
    w.art_popup_open = true;
    w.context_menu_open = true;
    assert_eq!(
        window_layers(&w),
        vec![
            Layer::MenuStrip,
            Layer::Body(Screen::Browse),
            Layer::Transport,
            Layer::MenuDropdown(TopMenu::File),
            Layer::StatePopup(ActivePopup::ConfirmDialog),
            Layer::ArtPopup,
            Layer::Popup(PrimaryPopup::Settings),
            Layer::ContextMenu,
        ]
    );
}

#[test]
fn about_sits_below_artwork_and_system_menu_hides_strip() {
    let mut w = window(AppView::NowPlaying);
    w.in_window_menu = false;
    w.menu_open = Some(TopMenu::File);
    w.popup = PrimaryPopup::About;
    w.art_popup_open = true;
    assert_eq!(
        window_layers(&w),
        vec![Layer::Body(Screen::Queue), Layer::Transport, Layer::About, Layer::ArtPopup]
    );
    assert_eq!(screen_of(AppView::Queue), Screen::Queue);
    assert_eq!(screen_of(AppView::Help), Screen::Help);
}
