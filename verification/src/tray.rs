//! The system tray menu: its items, and the command a menu click stands for.
use vstd::prelude::*;

use crate::text::str_eq;

verus! {

/// The tray icon's tooltip.
pub const TRAY_TOOLTIP: &'static str = "Spotify Widget";

/// The menu item that shows or hides the widget.
pub const TOGGLE_ITEM_LABEL: &'static str = "Show/Hide Widget";

/// The menu item that opens the settings window.
pub const SETTINGS_ITEM_LABEL: &'static str = "Settings";

/// The menu item that quits.
pub const QUIT_ITEM_LABEL: &'static str = "Quit";

/// The side length of the placeholder tray icon, in pixels.
pub const PLACEHOLDER_ICON_SIZE: u32 = 32;

/// Commands the tray menu can produce, polled once per frame.
#[derive(Clone, Copy, Debug, PartialEq, Eq, Structural)]
pub enum TrayCommand {
    Nothing,
    ToggleVisibility,
    OpenSettings,
    Quit,
}

/// The command a click on the menu item `event_id` stands for, given the ids
/// of the three items (`Nothing` for an id that is none of them).
pub fn command_for_event(event_id: &str, toggle_id: &str, settings_id: &str, quit_id: &str) -> (r:
    TrayCommand)
    ensures
        event_id@ == toggle_id@ ==> r == TrayCommand::ToggleVisibility,
        event_id@ != toggle_id@ && event_id@ == settings_id@ ==> r == TrayCommand::OpenSettings,
        event_id@ != toggle_id@ && event_id@ != settings_id@ && event_id@ == quit_id@ ==> r
            == TrayCommand::Quit,
        event_id@ != toggle_id@ && event_id@ != settings_id@ && event_id@ != quit_id@ ==> r
            == TrayCommand::Nothing,
{
    if str_eq(event_id, toggle_id) {
        TrayCommand::ToggleVisibility
    } else if str_eq(event_id, settings_id) {
        TrayCommand::OpenSettings
    } else if str_eq(event_id, quit_id) {
        TrayCommand::Quit
    } else {
        TrayCommand::Nothing
    }
}

/// Whether pixel `i` of the RGBA buffer `rgba` is opaque Spotify green.
pub open spec fn is_green_pixel(rgba: Seq<u8>, i: int) -> bool {
    &&& rgba[4 * i] == 30
    &&& rgba[4 * i + 1] == 215
    &&& rgba[4 * i + 2] == 96
    &&& rgba[4 * i + 3] == 255
}

/// The RGBA pixels of the placeholder tray icon: a 32x32 square of Spotify
/// green, fully opaque.
pub fn placeholder_icon_rgba() -> (rgba: Vec<u8>)
    ensures
        rgba@.len() == 32 * 32 * 4,
        forall|i: int| 0 <= i < 32 * 32 ==> #[trigger] is_green_pixel(rgba@, i),
{
    let mut rgba: Vec<u8> = Vec::new();
    let mut p: usize = 0;
    while p < 32 * 32
        invariant
            p <= 32 * 32,
            rgba@.len() == 4 * p,
            forall|i: int| 0 <= i < p ==> #[trigger] is_green_pixel(rgba@, i),
        decreases 32 * 32 - p,
    {
        let ghost before = rgba@;
        rgba.push(30);
        rgba.push(215);
        rgba.push(96);
        rgba.push(255);
        assert forall|i: int| 0 <= i < p + 1 implies #[trigger] is_green_pixel(rgba@, i) by {
            if i < p {
                assert(is_green_pixel(before, i));
            }
        }
        p = p + 1;
    }
    rgba
}

} // verus!
