//! The relay state machine and the device that joins it to the report
//! validator through the latest-value mailbox.
//!
//! The device does not wait by itself: whoever drives it (an executor with a
//! timer) calls `set_report` for each incoming report, `poll` when the relay
//! may pick up a command, and `timer_expired` once the activation time that
//! `poll` handed out has passed.
use crate::channel::{pending_of, LatestValueChannel};
use crate::report::{command_of, response_for, valid_duration, validate_report, OutResponse};
use vstd::prelude::*;

verus! {

/// The level of the relay output line.
#[derive(Clone, Copy, Debug, PartialEq, Eq, Structural)]
pub enum Level {
    Low,
    High,
}

/// The relay is either resting, or energized for the given milliseconds.
#[derive(Clone, Copy, Debug, PartialEq, Eq, Structural)]
pub enum RelayState {
    Idle,
    Active(u32),
}

/// The output level that a relay state drives.
pub open spec fn level_of(s: RelayState) -> Level {
    match s {
        RelayState::Idle => Level::Low,
        RelayState::Active(_) => Level::High,
    }
}

/// The sole owner of the output line.
pub struct RelayActuator {
    state: RelayState,
}

impl View for RelayActuator {
    type V = RelayState;

    closed spec fn view(&self) -> RelayState {
        self.state
    }
}

impl RelayActuator {
    /// A resting relay, output low.
    pub fn new() -> (r: Self)
        ensures
            r@ == RelayState::Idle,
    {
        RelayActuator { state: RelayState::Idle }
    }

    /// The current state.
    pub fn state(&self) -> (r: RelayState)
        ensures
            r == self@,
    {
        self.state
    }

    /// The level the output line is driven to.
    pub fn output(&self) -> (r: Level)
        ensures
            r == level_of(self@),
    {
        match self.state {
            RelayState::Idle => Level::Low,
            RelayState::Active(_) => Level::High,
        }
    }

    /// Energizes the relay for `duration` milliseconds.
    pub fn activate(&mut self, duration: u32)
        requires
            old(self)@ == RelayState::Idle,
        ensures
            final(self)@ == RelayState::Active(duration),
    {
        self.state = RelayState::Active(duration);
    }

    /// Drops the relay back to rest.
    pub fn deactivate(&mut self)
        ensures
            final(self)@ == RelayState::Idle,
    {
        self.state = RelayState::Idle;
    }
}

/// The abstract state of the device: the mailbox's unobserved command and
/// the relay's state.
pub struct DeviceView {
    pub pending: Option<u32>,
    pub relay: RelayState,
}

/// The reachable states: every command in flight and every activation is
/// for a valid duration.
pub open spec fn view_wf(s: DeviceView) -> bool {
    &&& (s.pending matches Some(d) ==> valid_duration(d as int))
    &&& (s.relay matches RelayState::Active(d) ==> valid_duration(d as int))
}

/// The state at power-up.
pub open spec fn initial_view() -> DeviceView {
    DeviceView { pending: None, relay: RelayState::Idle }
}

/// A report arrives: a valid command overwrites the mailbox, anything else
/// leaves the state as it is.
pub open spec fn report_step(s: DeviceView, data: Seq<u8>) -> DeviceView {
    match command_of(data) {
        Some(d) => DeviceView { pending: Some(d), relay: s.relay },
        None => s,
    }
}

/// The relay looks at the mailbox: at rest, a pending command is taken and
/// starts an activation of that many milliseconds; otherwise nothing
/// happens.
pub open spec fn poll_step(s: DeviceView) -> (DeviceView, Option<u32>) {
    match (s.relay, s.pending) {
        (RelayState::Idle, Some(d)) => (
            DeviceView { pending: None, relay: RelayState::Active(d) },
            Some(d),
        ),
        _ => (s, None),
    }
}

/// The activation time has passed: the output goes low, whatever arrived
/// meanwhile is discarded, and the relay rests.
pub open spec fn expire_step(s: DeviceView) -> DeviceView {
    DeviceView { pending: None, relay: RelayState::Idle }
}

/// The mailbox and the relay, as one device.
pub struct Device {
    channel: LatestValueChannel,
    relay: RelayActuator,
}

impl View for Device {
    type V = DeviceView;

    closed spec fn view(&self) -> DeviceView {
        DeviceView { pending: pending_of(self.channel), relay: self.relay@ }
    }
}

impl Device {
    /// A device at power-up: nothing pending, relay at rest, output low.
    pub fn new() -> (r: Self)
        ensures
            r@ == initial_view(),
            view_wf(r@),
    {
        Device { channel: LatestValueChannel::new(), relay: RelayActuator::new() }
    }

    /// Handles a HID output report. A four-byte payload is accepted; when it
    /// holds a valid duration, read big-endian, that duration overwrites the
    /// mailbox. Any other length is rejected and changes nothing. The report
    /// identifier does not matter, as the device defines a single report.
    pub fn set_report(&mut self, report_id: u8, data: &[u8]) -> (r: OutResponse)
        requires
            view_wf(old(self)@),
        ensures
            r == response_for(data@),
            final(self)@ == report_step(old(self)@, data@),
            view_wf(final(self)@),
    {
        let (response, command) = validate_report(data);
        if let Some(d) = command {
            self.channel.send(d);
        }
        response
    }

    /// Lets the relay look at the mailbox. At rest with a command pending,
    /// the command is taken, the output goes high, and its duration is
    /// returned: the time to wait before `timer_expired`. Otherwise `None`.
    pub fn poll(&mut self) -> (r: Option<u32>)
        requires
            view_wf(old(self)@),
        ensures
            (final(self)@, r) == poll_step(old(self)@),
            view_wf(final(self)@),
    {
        match self.relay.state() {
            RelayState::Active(_) => None,
            RelayState::Idle => {
                let taken = self.channel.try_changed();
                if let Some(d) = taken {
                    self.relay.activate(d);
                }
                taken
            },
        }
    }

    /// Ends the current activation: the output goes low and any command that
    /// arrived while the relay was energized is discarded.
    pub fn timer_expired(&mut self)
        requires
            view_wf(old(self)@),
        ensures
            final(self)@ == expire_step(old(self)@),
            view_wf(final(self)@),
    {
        self.relay.deactivate();
        self.channel.drain_pending();
    }

    /// The relay's state.
    pub fn relay_state(&self) -> (r: RelayState)
        ensures
            r == self@.relay,
    {
        self.relay.state()
    }

    /// The level of the output line.
    pub fn output(&self) -> (r: Level)
        ensures
            r == level_of(self@.relay),
    {
        self.relay.output()
    }
}

} // verus!
