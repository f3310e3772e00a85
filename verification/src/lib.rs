//! The decisions of the Headroom tray's windows, verified: what the first-run list, the
//! settings pages, the popup and its menus show for a state of the service, and what each
//! user gesture asks the tray to do.

pub mod choices;
pub mod combined_row;
pub mod context;
pub mod diagnostics;
pub mod dwell;
pub mod found;
pub mod i18n;
pub mod key_form;
pub mod marks;
pub mod menu;
pub mod notify;
pub mod panel;
pub mod payload;
pub mod picks;
pub mod popup;
pub mod registry;
pub mod release;
pub mod sections;
pub mod service;
pub mod shortcut;
pub mod support;
pub mod target;
pub mod text;
pub mod thresholds;
pub mod welcome;
