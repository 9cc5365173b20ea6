use audioctrl::bus::{Bus, Busses, McuMsg, StateMsg};
use audioctrl::controls::{button_event, ctrl_change, POWER_BUTTON};
use audioctrl::debounce::Debouncers;
use audioctrl::level::{Level, Levels, Patterns};
use audioctrl::pattern::Pattern;
use audioctrl::state::{
    dispatch, modify_state, next_tick, timeout, transition, Device, Power, Signal, State, Timeout,
};
use audioctrl::time::Instant;

const ACTIVE: Levels = Levels(Level::Nominal, Level::Inactive);
const SILENT: Levels = Levels(Level::Inactive, Level::Inactive);

fn at(ms: u32) -> Instant {
    Instant::from_ticks(0).add_millis(ms)
}

fn running(deadline: Instant) -> State {
    State {
        power: Power::PowerOn,
        signal: Signal::Unmuted,
        device: Device::Headphones,
        timeout: Timeout::Running(deadline),
    }
}

fn idle_seed() -> Pattern {
    Pattern::from_mask(0b0_0000_0001)
}

#[test]
fn initialise_powers_on_and_announces_outputs() {
    let now = at(1000);
    let (next, out) = transition(State::new(at(0)), StateMsg::Initialise, now);
    assert_eq!(next, running(at(31_000)));
    assert_eq!(
        out,
        vec![
            McuMsg::SetPower(Power::PowerOn),
            McuMsg::SetDevice(Device::Headphones),
            McuMsg::SetMute(Signal::Unmuted),
        ]
    );
    assert_eq!(timeout(now), at(31_000));
}

#[test]
fn booting_ignores_everything_but_initialise() {
    let boot = State::new(at(0));
    for msg in [
        StateMsg::TogglePower,
        StateMsg::ToggleDevice,
        StateMsg::ToggleMute,
        StateMsg::Clock(0),
        StateMsg::UpdateMeter(ACTIVE),
    ] {
        let (next, out) = transition(boot, msg, at(100_000));
        assert_eq!(next, boot);
        assert!(out.is_empty());
    }
}

#[test]
fn power_toggles_both_ways() {
    let on = running(at(30_000));
    let (off, out) = transition(on, StateMsg::TogglePower, at(1));
    assert_eq!(off, on.with_power(Power::PowerOff));
    assert_eq!(out, vec![McuMsg::SetPower(Power::PowerOff)]);
    let (back, out) = transition(off, StateMsg::TogglePower, at(2));
    assert_eq!(back, on);
    assert_eq!(out, vec![McuMsg::SetPower(Power::PowerOn)]);
    // while off, the other controls do nothing
    let (same, out) = transition(off, StateMsg::ToggleMute, at(3));
    assert_eq!(same, off);
    assert!(out.is_empty());
}

#[test]
fn device_toggles_while_on() {
    let on = running(at(30_000));
    let (speakers, out) = transition(on, StateMsg::ToggleDevice, at(1));
    assert_eq!(speakers.device(), Device::Speakers);
    assert_eq!(out, vec![McuMsg::SetDevice(Device::Speakers)]);
    let (headphones, out) = transition(speakers, StateMsg::ToggleDevice, at(1));
    assert_eq!(headphones.device(), Device::Headphones);
    assert_eq!(out, vec![McuMsg::SetDevice(Device::Headphones)]);
}

#[test]
fn mute_blanks_the_meters() {
    let on = running(at(30_000));
    let (muted, out) = transition(on, StateMsg::ToggleMute, at(1));
    assert_eq!(muted.signal(), Signal::Muted);
    let blank = Pattern::new();
    assert_eq!(
        out,
        vec![McuMsg::SetMute(Signal::Muted), McuMsg::SetMeter(Patterns(blank, blank))]
    );
    let (unmuted, out) = transition(muted, StateMsg::ToggleMute, at(1));
    assert_eq!(unmuted, on);
    assert_eq!(out, vec![McuMsg::SetMute(Signal::Unmuted)]);
    // muted meters ignore readings and ticks
    let (same, out) = transition(muted, StateMsg::UpdateMeter(ACTIVE), at(2));
    assert_eq!(same, muted);
    assert!(out.is_empty());
}

#[test]
fn idle_engages_only_after_the_deadline() {
    let s = running(at(30_000));
    let (same, out) = transition(s, StateMsg::Clock(7), at(30_000));
    assert_eq!(same, s);
    assert!(out.is_empty());
    let (idle, out) = transition(s, StateMsg::Clock(8), at(30_001));
    assert_eq!(idle.timeout(), Timeout::Idling(idle_seed()));
    assert!(out.is_empty());
}

#[test]
fn silent_reading_does_not_reset_the_deadline() {
    let s = running(at(30_000));
    let (next, out) = transition(s, StateMsg::UpdateMeter(SILENT), at(20_000));
    assert_eq!(next, s);
    assert_eq!(out, vec![McuMsg::SetMeter(SILENT.to_patterns())]);
    let (idle, _) = transition(next, StateMsg::Clock(1), at(30_001));
    assert_eq!(idle.timeout(), Timeout::Idling(idle_seed()));
}

#[test]
fn active_reading_resets_the_deadline() {
    let s = running(at(30_000));
    let (next, out) = transition(s, StateMsg::UpdateMeter(ACTIVE), at(20_000));
    assert_eq!(next, running(at(50_000)));
    assert_eq!(out, vec![McuMsg::SetMeter(ACTIVE.to_patterns())]);
    let (still, _) = transition(next, StateMsg::Clock(1), at(30_001));
    assert_eq!(still, next);
}

#[test]
fn idle_animation_rotates_every_fiftieth_tick() {
    let idle = running(at(0)).with_timeout(Timeout::Idling(idle_seed()));
    let (same, out) = transition(idle, StateMsg::Clock(49), at(10));
    assert_eq!(same, idle);
    assert!(out.is_empty());
    let (rotated, out) = transition(idle, StateMsg::Clock(100), at(10));
    assert_eq!(out, vec![McuMsg::SetMeter(Patterns(idle_seed(), idle_seed()))]);
    assert_eq!(rotated.timeout(), Timeout::Idling(Pattern::from_mask(0b0_0000_0010)));
}

#[test]
fn idle_wakes_on_active_reading_only() {
    let idle = running(at(0)).with_timeout(Timeout::Idling(idle_seed()));
    let (same, out) = transition(idle, StateMsg::UpdateMeter(SILENT), at(5000));
    assert_eq!(same, idle);
    assert!(out.is_empty());
    let (awake, out) = transition(idle, StateMsg::UpdateMeter(ACTIVE), at(5000));
    assert_eq!(awake, running(at(35_000)));
    assert_eq!(out, vec![McuMsg::SetMeter(ACTIVE.to_patterns())]);
}

#[test]
fn modify_state_sends_commands_on_the_bus() {
    let mut bus = Bus::new();
    let next = modify_state(State::new(at(0)), StateMsg::Initialise, at(0), &mut bus);
    assert_eq!(next.power(), Power::PowerOn);
    assert_eq!(bus.dequeue(), Some(Busses::ToMcu(McuMsg::SetPower(Power::PowerOn))));
    assert_eq!(bus.dequeue(), Some(Busses::ToMcu(McuMsg::SetDevice(Device::Headphones))));
    assert_eq!(bus.dequeue(), Some(Busses::ToMcu(McuMsg::SetMute(Signal::Unmuted))));
    assert_eq!(bus.dequeue(), None);
}

#[test]
fn bus_drops_messages_when_full() {
    let mut bus = Bus::new();
    for i in 0..10u32 {
        StateMsg::Clock(i).send(&mut bus);
    }
    for i in 0..8u32 {
        assert_eq!(bus.dequeue(), Some(Busses::ToState(StateMsg::Clock(i))));
    }
    assert_eq!(bus.dequeue(), None);
}

#[test]
fn dispatch_routes_messages() {
    let mut bus = Bus::new();
    let state = State::new(at(0));
    assert_eq!(dispatch(state, &mut bus, at(0)), (state, None));
    StateMsg::Initialise.send(&mut bus);
    McuMsg::SetPower(Power::PowerOff).send(&mut bus);
    let (state, cmd) = dispatch(state, &mut bus, at(0));
    assert_eq!(state.power(), Power::PowerOn);
    assert_eq!(cmd, None);
    let (state2, cmd) = dispatch(state, &mut bus, at(0));
    assert_eq!(state2, state);
    assert_eq!(cmd, Some(McuMsg::SetPower(Power::PowerOff)));
    let (_, cmd) = dispatch(state, &mut bus, at(0));
    assert_eq!(cmd, Some(McuMsg::SetPower(Power::PowerOn)));
}

#[test]
fn tick_counter_wraps() {
    assert_eq!(next_tick(0), 1);
    assert_eq!(next_tick(u32::MAX), 0);
}

#[test]
fn buttons_map_to_events() {
    assert_eq!(button_event(true, false, false).map(|b| b.1), Some(StateMsg::ToggleDevice));
    assert_eq!(button_event(false, true, false), Some((POWER_BUTTON, StateMsg::TogglePower, 500)));
    assert_eq!(button_event(false, false, true).map(|b| b.1), Some(StateMsg::ToggleMute));
    assert_eq!(button_event(true, true, false), None);
    assert_eq!(button_event(false, false, false), None);
}

#[test]
fn power_button_is_debounced() {
    let mut table = Debouncers::new();
    let mut bus = Bus::new();
    ctrl_change(false, true, false, &mut table, &mut bus, at(0));
    ctrl_change(false, true, false, &mut table, &mut bus, at(300));
    ctrl_change(false, true, false, &mut table, &mut bus, at(900));
    assert_eq!(bus.dequeue(), Some(Busses::ToState(StateMsg::TogglePower)));
    assert_eq!(bus.dequeue(), Some(Busses::ToState(StateMsg::TogglePower)));
    assert_eq!(bus.dequeue(), None);
}
