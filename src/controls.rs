//! The front-panel controls: three push buttons (output device, power and
//! mute), each debounced on its own.

use crate::bus::{after_send, Bus, Busses, StateMsg};
use crate::debounce::{debounce_after, debounce_ok, Debouncers, DebouncersExt};
use crate::time::Instant;
use vstd::prelude::*;

verus! {

/// Debounce identifier of the output device button.
pub const DEVICE_BUTTON: usize = 1;

/// Debounce identifier of the power button.
pub const POWER_BUTTON: usize = 2;

/// Debounce identifier of the mute button.
pub const MUTE_BUTTON: usize = 3;

/// Cooldown of the output device and mute buttons.
pub const TOGGLE_COOLDOWN_MS: u32 = 250;

/// Cooldown of the power button.
pub const POWER_COOLDOWN_MS: u32 = 500;

/// The button that an edge reports, from the levels of the three button
/// lines: the one line that is high names the button, with its event and its
/// cooldown. Any other combination reports nothing.
pub open spec fn button_of(device: bool, power: bool, mute: bool) -> Option<(usize, StateMsg, u32)> {
    if device && !power && !mute {
        Some((DEVICE_BUTTON, StateMsg::ToggleDevice, TOGGLE_COOLDOWN_MS))
    } else if !device && power && !mute {
        Some((POWER_BUTTON, StateMsg::TogglePower, POWER_COOLDOWN_MS))
    } else if !device && !power && mute {
        Some((MUTE_BUTTON, StateMsg::ToggleMute, TOGGLE_COOLDOWN_MS))
    } else {
        None
    }
}

/// The button, event and cooldown that an edge reports, given the levels of
/// the device, power and mute lines.
pub fn button_event(device: bool, power: bool, mute: bool) -> (r: Option<(usize, StateMsg, u32)>)
    ensures
        r == button_of(device, power, mute),
{
    match (device, power, mute) {
        (true, false, false) => Some((DEVICE_BUTTON, StateMsg::ToggleDevice, TOGGLE_COOLDOWN_MS)),
        (false, true, false) => Some((POWER_BUTTON, StateMsg::TogglePower, POWER_COOLDOWN_MS)),
        (false, false, true) => Some((MUTE_BUTTON, StateMsg::ToggleMute, TOGGLE_COOLDOWN_MS)),
        _ => None,
    }
}

/// Handles an edge on the button lines at `now`: the button's event is sent
/// when its debounce allows, and its cooldown restarts either way. The wiring
/// never raises two button lines at once; a caller that reads such levels has
/// met a fault and must halt instead.
pub fn ctrl_change(
    device: bool,
    power: bool,
    mute: bool,
    debouncers: &mut Debouncers,
    bus: &mut Bus,
    now: Instant,
)
    requires
        !(device && power),
        !(device && mute),
        !(power && mute),
    ensures
        match button_of(device, power, mute) {
            None => final(debouncers).deadlines() == old(debouncers).deadlines()
                && final(bus).pending() == old(bus).pending(),
            Some((id, msg, delay)) => {
                &&& final(debouncers).deadlines() == debounce_after(
                    old(debouncers).deadlines(),
                    id,
                    delay as int,
                    now,
                )
                &&& final(bus).pending() == if debounce_ok(old(debouncers).deadlines(), id, now) {
                    after_send(old(bus).pending(), Busses::ToState(msg))
                } else {
                    old(bus).pending()
                }
            },
        },
{
    if let Some((id, msg, delay)) = button_event(device, power, mute) {
        if debouncers.is_ok(id, now) {
            msg.send(bus);
        }
        debouncers.update(id, delay, now);
    }
}

} // verus!
