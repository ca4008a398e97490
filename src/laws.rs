//! What holds of the device over sequences of reports, polls and timer
//! expiries, stated over the step functions that its operations follow.
use crate::device::{
    expire_step, level_of, poll_step, report_step, DeviceView, Level, RelayState,
};
use crate::report::{be_u32, response_for, valid_duration, OutResponse};
use vstd::prelude::*;

verus! {

/// A well-formed payload: four bytes holding a valid duration.
pub open spec fn valid_payload(data: Seq<u8>) -> bool {
    data.len() == 4 && valid_duration(be_u32(data))
}

/// One full cycle from rest: the report arrives, the relay picks it up, and
/// its activation runs out.
pub open spec fn full_cycle(s: DeviceView, data: Seq<u8>) -> (DeviceView, Option<u32>) {
    let (active, started) = poll_step(report_step(s, data));
    (expire_step(active), started)
}

/// The activations started by `n` full cycles of the same payload, and the
/// state they leave.
pub open spec fn repeat_cycles(s: DeviceView, data: Seq<u8>, n: nat) -> (DeviceView, Seq<u32>)
    decreases n,
{
    if n == 0 {
        (s, Seq::empty())
    } else {
        let (before, started) = repeat_cycles(s, data, (n - 1) as nat);
        let (after, r) = full_cycle(before, data);
        match r {
            Some(d) => (after, started.push(d)),
            None => (after, started),
        }
    }
}

/// A valid command sent to a resting relay is accepted, drives the output
/// high for exactly its duration, and then leaves the relay at rest with
/// nothing pending and the output low.
pub proof fn lemma_valid_command_activates(s: DeviceView, data: Seq<u8>)
    requires
        s.relay == RelayState::Idle,
        valid_payload(data),
    ensures
        response_for(data) == OutResponse::Accepted,
        ({
            let (active, started) = poll_step(report_step(s, data));
            &&& started == Some(be_u32(data) as u32)
            &&& active.relay == RelayState::Active(be_u32(data) as u32)
            &&& active.pending == None::<u32>
            &&& level_of(active.relay) == Level::High
            &&& expire_step(active) == DeviceView { pending: None, relay: RelayState::Idle }
            &&& level_of(expire_step(active).relay) == Level::Low
        }),
{
}

/// A four-byte payload whose duration is zero or above the maximum is
/// accepted and changes nothing.
pub proof fn lemma_out_of_range_ignored(s: DeviceView, data: Seq<u8>)
    requires
        data.len() == 4,
        !valid_duration(be_u32(data)),
    ensures
        response_for(data) == OutResponse::Accepted,
        report_step(s, data) == s,
{
}

/// A payload of any length but four is rejected and forwards nothing.
pub proof fn lemma_wrong_length_rejected(s: DeviceView, data: Seq<u8>)
    requires
        data.len() != 4,
    ensures
        response_for(data) == OutResponse::Rejected,
        report_step(s, data) == s,
{
}

/// Of two valid commands sent before the relay looks, only the second is
/// ever observed.
pub proof fn lemma_overwrite(s: DeviceView, a: Seq<u8>, b: Seq<u8>)
    requires
        valid_payload(a),
        valid_payload(b),
    ensures
        report_step(report_step(s, a), b).pending == Some(be_u32(b) as u32),
        s.relay == RelayState::Idle ==> poll_step(report_step(report_step(s, a), b)).1 == Some(
            be_u32(b) as u32,
        ),
{
}

/// A command sent while the relay is energized neither restarts nor extends
/// the activation, and after it ends the relay rests: looking at the mailbox
/// then starts nothing.
pub proof fn lemma_no_retrigger(s: DeviceView, a: u32, b: Seq<u8>)
    requires
        s.relay == RelayState::Active(a),
        valid_payload(b),
    ensures
        poll_step(report_step(s, b)).1 == None::<u32>,
        poll_step(report_step(s, b)).0.relay == RelayState::Active(a),
        ({
            let rest = expire_step(poll_step(report_step(s, b)).0);
            &&& rest.relay == RelayState::Idle
            &&& rest.pending == None::<u32>
            &&& poll_step(rest) == (rest, None::<u32>)
            &&& level_of(rest.relay) == Level::Low
        }),
{
}

/// Repeating the same valid command `n` times, each after the previous
/// cycle has ended, gives `n` activations of that duration, and leaves the
/// relay at rest.
pub proof fn lemma_repeated_cycles(s: DeviceView, data: Seq<u8>, n: nat)
    requires
        s.relay == RelayState::Idle,
        valid_payload(data),
    ensures
        repeat_cycles(s, data, n).1 =~= Seq::new(n, |i: int| be_u32(data) as u32),
        repeat_cycles(s, data, n).0.relay == RelayState::Idle,
        n > 0 ==> repeat_cycles(s, data, n).0.pending == None::<u32>,
    decreases n,
{
    if n > 0 {
        lemma_repeated_cycles(s, data, (n - 1) as nat);
    }
}

} // verus!
