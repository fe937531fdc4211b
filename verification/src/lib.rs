//! Verified core of the Textamp desktop and terminal front-ends: the
//! pure layout, formatting, parsing and selection logic that the GUI
//! (iced) and TUI (ratatui) renderers drive.

pub mod strings;
pub mod account;
pub mod action;
pub mod ansi;
pub mod artcache;
pub mod browse;
pub mod cacheinfo;
pub mod category;
pub mod column;
pub mod ctxmenu;
pub mod details;
pub mod dialogs;
pub mod folders;
pub mod layout;
pub mod markdown;
pub mod menu_bar;
pub mod menucmd;
pub mod menus;
pub mod miller;
pub mod nav;
pub mod pick;
pub mod pickers;
pub mod playback;
pub mod popup;
pub mod queue;
pub mod search;
pub mod selection;
pub mod stations;
pub mod text;
pub mod timefmt;
pub mod tools;
pub mod transport;
pub mod tui;
pub mod vectorscope;
pub mod viz;
pub mod window;
