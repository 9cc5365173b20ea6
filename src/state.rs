//! The device state machine: power, mute, output device and the idle
//! animation that takes over the meters after a spell of silence.
//!
//! The machine is nested: an outer power/device/mute machine, and inside it,
//! while powered on and unmuted, an activity timeout that races a 30 second
//! deadline against clock ticks and meter updates. Only an active reading
//! restarts the deadline, so low-level noise does not keep the idle chase
//! animation away. Every (state, event) pair the table does not list leaves
//! the state as it is and emits nothing.

use crate::bus::{
    after_send_all, bus_views, Bus, BusView, Busses, CommandView, McuMsg, StateMsg,
};
use crate::level::{Level, Levels, Patterns};
use crate::pattern::{rotated_left, Pattern};
use crate::time::{Instant, MAX_HOLD_MS};
use vstd::prelude::*;

verus! {

/// How long the meters stay live without an active reading.
pub const IDLE_TIMEOUT_MS: u32 = 30_000;

/// The idle animation advances once every this many clock ticks.
pub const IDLE_FRAME_TICKS: u32 = 50;

/// The active audio output.
#[derive(Clone, Copy, Debug, PartialEq, Eq, Structural)]
pub enum Device {
    Headphones,
    Speakers,
}

/// The power state of the audio path.
#[derive(Clone, Copy, Debug, PartialEq, Eq, Structural)]
pub enum Power {
    Booting,
    PowerOff,
    PowerOn,
}

/// Whether the output is muted.
#[derive(Clone, Copy, Debug, PartialEq, Eq, Structural)]
pub enum Signal {
    Muted,
    Unmuted,
}

/// The activity timeout: live meters until a deadline, or the idle animation.
#[derive(Clone, Copy, Debug, PartialEq, Eq, Structural)]
pub enum Timeout {
    Running(Instant),
    Idling(Pattern),
}

/// The timeout, with the idle pattern as segments.
pub enum TimeoutView {
    Running(Instant),
    Idling(Seq<bool>),
}

/// The device state, with the idle pattern as segments.
pub struct StateView {
    pub power: Power,
    pub signal: Signal,
    pub device: Device,
    pub timeout: TimeoutView,
}

/// The device state. The timeout only matters while the power is on.
#[must_use]
#[derive(Clone, Copy, Debug, PartialEq, Eq, Structural)]
pub struct State {
    pub power: Power,
    pub signal: Signal,
    pub device: Device,
    pub timeout: Timeout,
}

impl View for Timeout {
    type V = TimeoutView;

    open spec fn view(&self) -> TimeoutView {
        match *self {
            Timeout::Running(d) => TimeoutView::Running(d),
            Timeout::Idling(p) => TimeoutView::Idling(p@),
        }
    }
}

impl View for State {
    type V = StateView;

    open spec fn view(&self) -> StateView {
        StateView {
            power: self.power,
            signal: self.signal,
            device: self.device,
            timeout: self.timeout@,
        }
    }
}

/// A meter with every segment dark.
pub open spec fn blank() -> Seq<bool> {
    Seq::new(9, |j: int| false)
}

/// The first frame of the idle animation: segment 0 lit, rotated left once.
pub open spec fn idle_seed() -> Seq<bool> {
    rotated_left(blank().update(0, true), 1)
}

/// The bar graph of a level.
pub open spec fn bar_of(level: Level) -> Seq<bool> {
    Seq::new(9, |j: int| j >= level.index_of())
}

/// The deadline that an active reading at `now` sets.
pub open spec fn idle_deadline(now: Instant) -> Instant {
    now.plus_millis(IDLE_TIMEOUT_MS as int)
}

/// The other output device.
pub open spec fn other_device(d: Device) -> Device {
    match d {
        Device::Headphones => Device::Speakers,
        Device::Speakers => Device::Headphones,
    }
}

/// The meters are live: powered on and unmuted.
pub open spec fn live(s: StateView) -> bool {
    s.power == Power::PowerOn && s.signal == Signal::Unmuted
}

/// The state after `msg` arrives at `now`.
pub open spec fn next_state(s: StateView, msg: StateMsg, now: Instant) -> StateView {
    match msg {
        StateMsg::Initialise => if s.power == Power::Booting {
            StateView {
                power: Power::PowerOn,
                signal: Signal::Unmuted,
                device: Device::Headphones,
                timeout: TimeoutView::Running(idle_deadline(now)),
            }
        } else {
            s
        },
        StateMsg::TogglePower => match s.power {
            Power::PowerOff => StateView { power: Power::PowerOn, ..s },
            Power::PowerOn => StateView { power: Power::PowerOff, ..s },
            Power::Booting => s,
        },
        StateMsg::ToggleDevice => if s.power == Power::PowerOn {
            StateView { device: other_device(s.device), ..s }
        } else {
            s
        },
        StateMsg::ToggleMute => if s.power == Power::PowerOn {
            StateView {
                signal: if s.signal == Signal::Unmuted {
                    Signal::Muted
                } else {
                    Signal::Unmuted
                },
                ..s
            }
        } else {
            s
        },
        StateMsg::UpdateMeter(levels) => if live(s) {
            match s.timeout {
                TimeoutView::Running(d) => StateView {
                    timeout: TimeoutView::Running(
                        if levels.active() {
                            idle_deadline(now)
                        } else {
                            d
                        },
                    ),
                    ..s
                },
                TimeoutView::Idling(_) => if levels.active() {
                    StateView { timeout: TimeoutView::Running(idle_deadline(now)), ..s }
                } else {
                    s
                },
            }
        } else {
            s
        },
        StateMsg::Clock(tick) => if live(s) {
            match s.timeout {
                TimeoutView::Running(d) => if d.before(now) {
                    StateView { timeout: TimeoutView::Idling(idle_seed()), ..s }
                } else {
                    s
                },
                TimeoutView::Idling(p) => if tick % IDLE_FRAME_TICKS == 0 {
                    StateView { timeout: TimeoutView::Idling(rotated_left(p, 1)), ..s }
                } else {
                    s
                },
            }
        } else {
            s
        },
    }
}

/// The commands emitted, in order, when `msg` arrives.
pub open spec fn commands(s: StateView, msg: StateMsg) -> Seq<CommandView> {
    match msg {
        StateMsg::Initialise => if s.power == Power::Booting {
            seq![
                CommandView::SetPower(Power::PowerOn),
                CommandView::SetDevice(Device::Headphones),
                CommandView::SetMute(Signal::Unmuted),
            ]
        } else {
            seq![]
        },
        StateMsg::TogglePower => match s.power {
            Power::PowerOff => seq![CommandView::SetPower(Power::PowerOn)],
            Power::PowerOn => seq![CommandView::SetPower(Power::PowerOff)],
            Power::Booting => seq![],
        },
        StateMsg::ToggleDevice => if s.power == Power::PowerOn {
            seq![CommandView::SetDevice(other_device(s.device))]
        } else {
            seq![]
        },
        StateMsg::ToggleMute => if s.power == Power::PowerOn {
            if s.signal == Signal::Unmuted {
                seq![CommandView::SetMute(Signal::Muted), CommandView::SetMeter(blank(), blank())]
            } else {
                seq![CommandView::SetMute(Signal::Unmuted)]
            }
        } else {
            seq![]
        },
        StateMsg::UpdateMeter(levels) => if live(s) && (s.timeout is Running || levels.active()) {
            seq![CommandView::SetMeter(bar_of(levels.0), bar_of(levels.1))]
        } else {
            seq![]
        },
        StateMsg::Clock(tick) => if live(s) {
            match s.timeout {
                TimeoutView::Idling(p) => if tick % IDLE_FRAME_TICKS == 0 {
                    seq![CommandView::SetMeter(p, p)]
                } else {
                    seq![]
                },
                _ => seq![],
            }
        } else {
            seq![]
        },
    }
}

/// The views of a sequence of commands.
pub open spec fn command_views(cmds: Seq<McuMsg>) -> Seq<CommandView> {
    cmds.map_values(|c: McuMsg| c@)
}

/// The commands as bus messages for the hardware-facing side.
pub open spec fn to_mcu(cmds: Seq<CommandView>) -> Seq<BusView> {
    cmds.map_values(|c: CommandView| BusView::ToMcu(c))
}

impl State {
    /// The state at start-up: booting, unmuted, on headphones, with the idle
    /// deadline 30 seconds after `now`.
    pub fn new(now: Instant) -> (r: State)
        ensures
            r@ == (StateView {
                power: Power::Booting,
                signal: Signal::Unmuted,
                device: Device::Headphones,
                timeout: TimeoutView::Running(idle_deadline(now)),
            }),
    {
        State {
            power: Power::Booting,
            signal: Signal::Unmuted,
            device: Device::Headphones,
            timeout: Timeout::Running(timeout(now)),
        }
    }

    pub fn with_device(self, device: Device) -> (r: State)
        ensures
            r == (State { device, ..self }),
    {
        State { device, ..self }
    }

    pub fn with_power(self, power: Power) -> (r: State)
        ensures
            r == (State { power, ..self }),
    {
        State { power, ..self }
    }

    pub fn with_signal(self, signal: Signal) -> (r: State)
        ensures
            r == (State { signal, ..self }),
    {
        State { signal, ..self }
    }

    pub fn with_timeout(self, timeout: Timeout) -> (r: State)
        ensures
            r == (State { timeout, ..self }),
    {
        State { timeout, ..self }
    }

    pub fn power(&self) -> (r: Power)
        ensures
            r == self.power,
    {
        self.power
    }

    pub fn signal(&self) -> (r: Signal)
        ensures
            r == self.signal,
    {
        self.signal
    }

    pub fn device(&self) -> (r: Device)
        ensures
            r == self.device,
    {
        self.device
    }

    pub fn timeout(&self) -> (r: Timeout)
        ensures
            r == self.timeout,
    {
        self.timeout
    }
}

/// The idle deadline for an active reading at `now`.
pub fn timeout(now: Instant) -> (r: Instant)
    ensures
        r == idle_deadline(now),
{
    now.add_millis(IDLE_TIMEOUT_MS)
}

/// The first frame of the idle animation.
fn idle_pattern() -> (r: Pattern)
    ensures
        r@ == idle_seed(),
{
    let mut pattern = Pattern::new();
    pattern.set_at(0, true);
    pattern.rotate_left(1);
    pattern
}

/// The blank meters.
fn blank_patterns() -> (r: Patterns)
    ensures
        r.0@ == blank(),
        r.1@ == blank(),
{
    let pattern = Pattern::new();
    Patterns(pattern, pattern)
}

/// Applies `msg`, arriving at `now`, to `state`: the next state and the
/// commands to emit, in order.
pub fn transition(state: State, msg: StateMsg, now: Instant) -> (r: (State, Vec<McuMsg>))
    ensures
        r.0@ == next_state(state@, msg, now),
        command_views(r.1@) == commands(state@, msg),
        r.1@.len() == commands(state@, msg).len(),
{
    let mut out: Vec<McuMsg> = Vec::new();
    let next = match msg {
        StateMsg::Initialise => {
            if state.power == Power::Booting {
                out.push(McuMsg::SetPower(Power::PowerOn));
                out.push(McuMsg::SetDevice(Device::Headphones));
                out.push(McuMsg::SetMute(Signal::Unmuted));
                State {
                    power: Power::PowerOn,
                    signal: Signal::Unmuted,
                    device: Device::Headphones,
                    timeout: Timeout::Running(timeout(now)),
                }
            } else {
                state
            }
        },
        StateMsg::TogglePower => {
            match state.power {
                Power::PowerOff => {
                    out.push(McuMsg::SetPower(Power::PowerOn));
                    state.with_power(Power::PowerOn)
                },
                Power::PowerOn => {
                    out.push(McuMsg::SetPower(Power::PowerOff));
                    state.with_power(Power::PowerOff)
                },
                Power::Booting => state,
            }
        },
        StateMsg::ToggleDevice => {
            if state.power == Power::PowerOn {
                let device = match state.device {
                    Device::Headphones => Device::Speakers,
                    Device::Speakers => Device::Headphones,
                };
                out.push(McuMsg::SetDevice(device));
                state.with_device(device)
            } else {
                state
            }
        },
        StateMsg::ToggleMute => {
            if state.power == Power::PowerOn {
                if state.signal == Signal::Unmuted {
                    out.push(McuMsg::SetMute(Signal::Muted));
                    out.push(McuMsg::SetMeter(blank_patterns()));
                    state.with_signal(Signal::Muted)
                } else {
                    out.push(McuMsg::SetMute(Signal::Unmuted));
                    state.with_signal(Signal::Unmuted)
                }
            } else {
                state
            }
        },
        StateMsg::UpdateMeter(levels) => {
            if state.power == Power::PowerOn && state.signal == Signal::Unmuted {
                match state.timeout {
                    Timeout::Running(deadline) => {
                        out.push(McuMsg::SetMeter(levels.to_patterns()));
                        let deadline = if levels.is_active() {
                            timeout(now)
                        } else {
                            deadline
                        };
                        state.with_timeout(Timeout::Running(deadline))
                    },
                    Timeout::Idling(_) => {
                        if levels.is_active() {
                            out.push(McuMsg::SetMeter(levels.to_patterns()));
                            state.with_timeout(Timeout::Running(timeout(now)))
                        } else {
                            state
                        }
                    },
                }
            } else {
                state
            }
        },
        StateMsg::Clock(tick) => {
            if state.power == Power::PowerOn && state.signal == Signal::Unmuted {
                match state.timeout {
                    Timeout::Running(deadline) => {
                        if deadline.is_before(now) {
                            state.with_timeout(Timeout::Idling(idle_pattern()))
                        } else {
                            state
                        }
                    },
                    Timeout::Idling(pattern) => {
                        if tick % IDLE_FRAME_TICKS == 0 {
                            out.push(McuMsg::SetMeter(Patterns(pattern, pattern)));
                            let mut rotated = pattern;
                            rotated.rotate_left(1);
                            state.with_timeout(Timeout::Idling(rotated))
                        } else {
                            state
                        }
                    },
                }
            } else {
                state
            }
        },
    };
    proof {
        assert(command_views(out@) =~= commands(state@, msg));
    }
    (next, out)
}

/// Applies `msg` to `state` and sends the emitted commands on `bus`, in
/// order, each dropped if the bus is full.
pub fn modify_state(state: State, msg: StateMsg, now: Instant, bus: &mut Bus) -> (r: State)
    ensures
        r@ == next_state(state@, msg, now),
        bus_views(final(bus).pending()) == after_send_all(
            bus_views(old(bus).pending()),
            to_mcu(commands(state@, msg)),
        ),
{
    let (next, out) = transition(state, msg, now);
    let ghost start = bus.pending();
    let mut i: usize = 0;
    while i < out.len()
        invariant
            i <= out.len(),
            command_views(out@) == commands(state@, msg),
            bus_views(bus.pending()) == after_send_all(
                bus_views(start),
                to_mcu(command_views(out@.take(i as int))),
            ),
        decreases out.len() - i,
    {
        let cmd = out[i];
        let ghost before = bus.pending();
        cmd.send(bus);
        proof {
            let items = to_mcu(command_views(out@.take(i + 1)));
            assert(items.drop_last() =~= to_mcu(command_views(out@.take(i as int))));
            assert(items.last() == BusView::ToMcu(cmd@));
            if before.len() < 8 {
                assert(bus_views(before.push(Busses::ToMcu(cmd))) =~= bus_views(before).push(
                    BusView::ToMcu(cmd@),
                ));
            }
        }
        i = i + 1;
    }
    proof {
        assert(out@.take(out@.len() as int) =~= out@);
    }
    next
}

/// Every event is handled in every state: the next state never goes back to
/// booting and keeps a nine-segment idle pattern, no command asks the power
/// line for the booting state, and before power-on only `Initialise` while
/// booting and `TogglePower` while off change anything or emit commands.
pub proof fn lemma_transition_total(s: State, msg: StateMsg, now: Instant)
    ensures
        ({
            let n = next_state(s@, msg, now);
            &&& n.power == Power::Booting ==> s.power == Power::Booting
            &&& n.timeout matches TimeoutView::Idling(p) ==> p.len() == 9
            &&& forall|i: int|
                0 <= i < commands(s@, msg).len() ==> !(#[trigger] commands(s@, msg)[i]
                    matches CommandView::SetPower(Power::Booting))
            &&& s.power == Power::Booting && !(msg is Initialise) ==> n == s@ && commands(
                s@,
                msg,
            ).len() == 0
            &&& s.power == Power::PowerOff && !(msg is TogglePower) ==> n == s@ && commands(
                s@,
                msg,
            ).len() == 0
        }),
{
}

/// Idle engagement: with the meters live and the deadline 30 seconds after
/// `start`, a clock tick at or before the deadline changes nothing and one
/// after it starts the idle animation; a silent reading before the deadline
/// leaves the deadline alone, an active one moves it 30 seconds past the
/// reading.
pub proof fn lemma_idle_engagement(
    s: StateView,
    start: Instant,
    elapsed_ms: int,
    tick: u32,
    levels: Levels,
)
    requires
        live(s),
        s.timeout == TimeoutView::Running(idle_deadline(start)),
        0 <= elapsed_ms <= MAX_HOLD_MS,
    ensures
        ({
            let now = start.plus_millis(elapsed_ms);
            &&& elapsed_ms <= IDLE_TIMEOUT_MS ==> next_state(s, StateMsg::Clock(tick), now) == s
            &&& elapsed_ms > IDLE_TIMEOUT_MS ==> next_state(s, StateMsg::Clock(tick), now)
                == StateView { timeout: TimeoutView::Idling(idle_seed()), ..s }
            &&& !levels.active() ==> next_state(s, StateMsg::UpdateMeter(levels), now) == s
            &&& levels.active() ==> next_state(s, StateMsg::UpdateMeter(levels), now)
                == StateView { timeout: TimeoutView::Running(idle_deadline(now)), ..s }
        }),
{
    crate::time::lemma_before_offsets(start, IDLE_TIMEOUT_MS as int, elapsed_ms);
}

/// Idle wake: while idling, an active reading brings the meters back with a
/// fresh deadline and shows the reading's bars; a silent one changes nothing
/// and shows nothing.
pub proof fn lemma_idle_wake(s: StateView, pattern: Seq<bool>, levels: Levels, now: Instant)
    requires
        live(s),
        s.timeout == TimeoutView::Idling(pattern),
    ensures
        levels.active() ==> next_state(s, StateMsg::UpdateMeter(levels), now) == (StateView {
            timeout: TimeoutView::Running(idle_deadline(now)),
            ..s
        }),
        levels.active() ==> commands(s, StateMsg::UpdateMeter(levels)) == seq![
            CommandView::SetMeter(bar_of(levels.0), bar_of(levels.1)),
        ],
        !levels.active() ==> next_state(s, StateMsg::UpdateMeter(levels), now) == s,
        !levels.active() ==> commands(s, StateMsg::UpdateMeter(levels)).len() == 0,
{
}

/// The tick count after `count`, wrapping to zero after the largest.
pub fn next_tick(count: u32) -> (r: u32)
    ensures
        r == (if count == u32::MAX {
            0
        } else {
            count + 1
        }),
{
    if count == u32::MAX {
        0
    } else {
        count + 1
    }
}

/// Handles the oldest message on the bus: an event for the state machine is
/// applied (its commands go back on the bus); a command for the hardware side
/// is handed back for the caller to carry out. With nothing waiting, nothing
/// happens.
pub fn dispatch(state: State, bus: &mut Bus, now: Instant) -> (r: (State, Option<McuMsg>))
    ensures
        old(bus).pending().len() == 0 ==> r == (state, None::<McuMsg>) && final(bus).pending()
            == old(bus).pending(),
        old(bus).pending().len() > 0 ==> match old(bus).pending()[0] {
            Busses::ToMcu(cmd) => r == (state, Some(cmd)) && final(bus).pending() == old(
                bus,
            ).pending().drop_first(),
            Busses::ToState(msg) => r.1.is_none() && r.0@ == next_state(state@, msg, now)
                && bus_views(final(bus).pending()) == after_send_all(
                bus_views(old(bus).pending().drop_first()),
                to_mcu(commands(state@, msg)),
            ),
        },
{
    match bus.dequeue() {
        Some(Busses::ToMcu(cmd)) => (state, Some(cmd)),
        Some(Busses::ToState(msg)) => (modify_state(state, msg, now, bus), None),
        None => (state, None),
    }
}

} // verus!
