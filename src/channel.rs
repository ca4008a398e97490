//! The single-slot, overwrite-on-send mailbox between the report handler and
//! the relay loop, kept in an `embassy_sync::watch::Watch` guarded by a
//! critical-section mutex.
use embassy_sync::blocking_mutex::raw::CriticalSectionRawMutex;
use embassy_sync::watch::{AnonReceiver, Sender, Watch};
use vstd::prelude::*;

verus! {

/// A latest-value mailbox with one observer.
///
/// Its contents are modelled by `pending_of`: the value sent since the
/// observer last looked, if there is one.
#[verifier::external_body]
pub struct LatestValueChannel {
    tx: Sender<'static, CriticalSectionRawMutex, u32, 4>,
    rx: AnonReceiver<'static, CriticalSectionRawMutex, u32, 4>,
}

/// The value sent since the observer's last look, or `None` when nothing
/// was sent since then.
pub uninterp spec fn pending_of(c: LatestValueChannel) -> Option<u32>;

/// Relies on `Watch::new`, `Watch::sender` and `Watch::anon_receiver`: a new
/// watch holds no data and its message id is 0, the id an anonymous receiver
/// starts at, so nothing is pending. The watch is leaked so that the sender
/// and the receiver can borrow it for the life of the program, which makes
/// one channel per device.
#[verifier::external_body]
fn new_channel() -> (r: LatestValueChannel)
    ensures
        pending_of(r) == None::<u32>,
{
    let watch: &'static Watch<CriticalSectionRawMutex, u32, 4> = Box::leak(Box::new(Watch::new()));
    LatestValueChannel { tx: watch.sender(), rx: watch.anon_receiver() }
}

/// Relies on `Sender::send`: it stores the value and raises the message id
/// past the one the receiver has seen.
#[verifier::external_body]
fn send_value(c: &mut LatestValueChannel, value: u32)
    ensures
        pending_of(*final(c)) == Some(value),
{
    c.tx.send(value)
}

/// Relies on `AnonReceiver::try_changed`: when the message id is past the
/// receiver's it returns the stored value and catches up, else it returns
/// `None`; either way nothing is pending afterwards.
#[verifier::external_body]
fn take_changed(c: &mut LatestValueChannel) -> (r: Option<u32>)
    ensures
        r == pending_of(*old(c)),
        pending_of(*final(c)) == None::<u32>,
{
    c.rx.try_changed()
}

impl LatestValueChannel {
    /// An empty mailbox.
    pub fn new() -> (r: Self)
        ensures
            pending_of(r) == None::<u32>,
    {
        new_channel()
    }

    /// Overwrites the slot with `value` and marks it changed.
    pub fn send(&mut self, value: u32)
        ensures
            pending_of(*final(self)) == Some(value),
    {
        send_value(self, value)
    }

    /// Returns the value sent since the last observation, if any, and marks
    /// it observed.
    pub fn try_changed(&mut self) -> (r: Option<u32>)
        ensures
            r == pending_of(*old(self)),
            pending_of(*final(self)) == None::<u32>,
    {
        take_changed(self)
    }

    /// Discards whatever was sent since the last observation, without
    /// returning it.
    pub fn drain_pending(&mut self)
        ensures
            pending_of(*final(self)) == None::<u32>,
    {
        let _ = take_changed(self);
    }
}

} // verus!
