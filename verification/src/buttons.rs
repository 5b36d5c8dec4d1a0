//! Edge detection over the raw two-bit button sample (bit 0: left button,
//! bit 1: right button): a press is a low-to-high transition of a line, a
//! release a return of the sample to zero after a line was held.

use vstd::prelude::*;

verus! {

/// A press or release edge of the device's two buttons.
#[derive(Copy, Clone, Debug, PartialEq, Eq, Structural)]
pub enum ButtonEvent {
    LeftButtonPress,
    RightButtonPress,
    BothButtonsPress,
    LeftButtonRelease,
    RightButtonRelease,
    BothButtonsRelease,
}

/// Tracks the previously observed raw button sample so that edges can be
/// told apart from level repeats.
#[derive(Copy, Clone, Debug, PartialEq, Eq, Structural)]
pub struct ButtonsState {
    /// Accumulated mask of the lines seen high since the last release.
    pub button_mask: u8,
}

impl ButtonsState {
    /// A fresh state: no button held.
    pub fn new() -> (s: ButtonsState)
        ensures
            s.button_mask == 0,
    {
        ButtonsState { button_mask: 0 }
    }
}

/// The event, if any, that a new raw sample produces given the accumulated
/// mask of the previous samples.
pub open spec fn spec_button_event(old_mask: u8, new: u8) -> Option<ButtonEvent> {
    if old_mask == 0 && new == 1 {
        Some(ButtonEvent::LeftButtonPress)
    } else if old_mask == 0 && new == 2 {
        Some(ButtonEvent::RightButtonPress)
    } else if new == 3 {
        Some(ButtonEvent::BothButtonsPress)
    } else if new == 0 {
        if old_mask == 1 {
            Some(ButtonEvent::LeftButtonRelease)
        } else if old_mask == 2 {
            Some(ButtonEvent::RightButtonRelease)
        } else if old_mask == 3 {
            Some(ButtonEvent::BothButtonsRelease)
        } else {
            None
        }
    } else {
        None
    }
}

/// The accumulated mask after a new raw sample: lines seen high are added,
/// and an all-released sample resets the accumulation.
pub open spec fn spec_next_mask(old_mask: u8, new: u8) -> u8 {
    if new == 0 {
        0
    } else {
        old_mask | new
    }
}

/// Law: a sample that only repeats the current level yields no event and
/// leaves the state alone, so a press/release cycle such as idle, left
/// pressed, idle emits exactly one press and one release, with nothing on
/// the idle samples around them. (The both-pressed sample is the one
/// exception: the transition table re-emits it while both lines stay
/// high.)
pub proof fn lemma_button_no_event_on_level_repeat(mask: u8)
    requires
        mask != 3,
    ensures
        spec_button_event(mask, mask) is None,
        spec_next_mask(mask, mask) == mask,
{
    assert(mask | mask == mask) by (bit_vector);
}

/// Feed one raw two-bit sample into the edge detector; at most one event
/// comes out per sample, and a repeat of the current level yields none.
pub fn get_button_event(buttons: &mut ButtonsState, new: u8) -> (r: Option<ButtonEvent>)
    ensures
        r == spec_button_event(old(buttons).button_mask, new),
        final(buttons).button_mask == spec_next_mask(old(buttons).button_mask, new),
{
    let old_mask = buttons.button_mask;
    buttons.button_mask = old_mask | new;
    match (old_mask, new) {
        (0, 1) => Some(ButtonEvent::LeftButtonPress),
        (0, 2) => Some(ButtonEvent::RightButtonPress),
        (_, 3) => Some(ButtonEvent::BothButtonsPress),
        (b, 0) => {
            // An all-released sample ends the gesture: reset the accumulation.
            buttons.button_mask = 0;
            match b {
                1 => Some(ButtonEvent::LeftButtonRelease),
                2 => Some(ButtonEvent::RightButtonRelease),
                3 => Some(ButtonEvent::BothButtonsRelease),
                _ => None,
            }
        },
        _ => None,
    }
}

} // verus!
