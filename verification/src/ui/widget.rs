//! What the widget's controls do.
use vstd::prelude::*;

use crate::spotify::models::Track;

verus! {

/// What the user did in the widget this frame.
#[derive(Clone, Copy, Debug, PartialEq, Eq, Structural)]
pub enum WidgetAction {
    Nothing,
    Play,
    Pause,
    Next,
    Previous,
    SetVolume(u8),
}

/// Whether `track` is playing (`false` when there is none).
pub open spec fn is_playing(track: Option<&Track>) -> bool {
    match track {
        Some(t) => t.is_playing,
        None => false,
    }
}

/// The label of the play/pause button: pause while playing, play otherwise.
pub fn play_pause_label(track: Option<&Track>) -> (r: &'static str)
    ensures
        r@ == if is_playing(track) { "⏸"@ } else { "▶"@ },
{
    match track {
        Some(t) => if t.is_playing { "⏸" } else { "▶" },
        None => "▶",
    }
}

/// What a click on the play/pause button does: pause while playing, play
/// otherwise.
pub fn play_pause_action(track: Option<&Track>) -> (r: WidgetAction)
    ensures
        r == if is_playing(track) { WidgetAction::Pause } else { WidgetAction::Play },
{
    match track {
        Some(t) => if t.is_playing { WidgetAction::Pause } else { WidgetAction::Play },
        None => WidgetAction::Play,
    }
}

} // verus!
