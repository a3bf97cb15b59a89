//! Waiting for a device to reach a state after an operation.
//!
//! The caller owns the clock and the polling. Before each poll it asks
//! [`Waiter::poll_due`] whether the time allows one; if so it lists the
//! devices, finds the record with [`Waiter::locate`], evaluates its own
//! condition on it, and asks [`Waiter::step`] what to do next.
use vstd::prelude::*;

use crate::device::{opt_view, UsbDevice};

verus! {

/// The longest wait, long enough for the system to remount a device after a
/// bind or unbind.
pub const WAIT_TIMEOUT_MS: u64 = 5000;

/// The pause between two polls.
pub const POLL_INTERVAL_MS: u64 = 100;

/// What the caller does after a poll.
#[derive(Debug, Clone, Copy, PartialEq, Eq, Structural)]
pub enum WaitStep {
    /// The condition holds; the wait succeeded.
    Satisfied,
    /// Sleep this many milliseconds, then poll again.
    Sleep(u64),
    /// The time is up. The device may be lost, or still remounting.
    TimedOut,
}

/// The wait for one device, identified by its instance ID.
pub struct Waiter {
    pub instance_id: Option<String>,
    pub timeout_ms: u64,
    pub interval_ms: u64,
}

impl Waiter {
    /// A wait for `device` with the default timeout and poll interval.
    pub fn new(device: &UsbDevice) -> (r: Waiter)
        ensures
            opt_view(r.instance_id) == opt_view(device.instance_id),
            r.timeout_ms == WAIT_TIMEOUT_MS,
            r.interval_ms == POLL_INTERVAL_MS,
    {
        Waiter::with_timing(device, WAIT_TIMEOUT_MS, POLL_INTERVAL_MS)
    }

    /// A wait for `device` with the given timeout and poll interval.
    pub fn with_timing(device: &UsbDevice, timeout_ms: u64, interval_ms: u64) -> (r: Waiter)
        ensures
            opt_view(r.instance_id) == opt_view(device.instance_id),
            r.timeout_ms == timeout_ms,
            r.interval_ms == interval_ms,
    {
        let instance_id = match &device.instance_id {
            Some(id) => Some(id.clone()),
            None => None,
        };
        Waiter { instance_id, timeout_ms, interval_ms }
    }

    /// The record is the waited-for device.
    pub open spec fn is_target(&self, d: UsbDevice) -> bool {
        opt_view(d.instance_id) == opt_view(self.instance_id)
    }

    /// The position of the first record of `devices` with the waited-for
    /// instance ID, or `None` when the device is absent.
    pub fn locate(&self, devices: &Vec<UsbDevice>) -> (r: Option<usize>)
        ensures
            r matches Some(i) ==> i < devices@.len() && self.is_target(devices@[i as int]) && forall|
                j: int,
            | 0 <= j < i ==> !self.is_target(#[trigger] devices@[j]),
            r is None ==> forall|j: int|
                0 <= j < devices@.len() ==> !self.is_target(#[trigger] devices@[j]),
    {
        let mut i: usize = 0;
        while i < devices.len()
            invariant
                i <= devices@.len(),
                forall|j: int| 0 <= j < i ==> !self.is_target(#[trigger] devices@[j]),
            decreases devices@.len() - i,
        {
            let same = match &devices[i].instance_id {
                Some(a) => match &self.instance_id {
                    Some(b) => *a == *b,
                    None => false,
                },
                None => self.instance_id.is_none(),
            };
            if same {
                return Some(i);
            }
            i = i + 1;
        }
        None
    }

    /// Whether a poll may start `elapsed_ms` after the wait began: none starts
    /// once the timeout has passed.
    pub fn poll_due(&self, elapsed_ms: u64) -> (r: bool)
        ensures
            r == (elapsed_ms < self.timeout_ms),
    {
        elapsed_ms < self.timeout_ms
    }

    /// The decision after a poll in which the condition was or was not
    /// `satisfied`, `elapsed_ms` after the wait began: a satisfied poll ends
    /// the wait with success; an unsatisfied one sleeps before the next poll,
    /// or times out once the timeout has passed.
    pub fn step(&self, elapsed_ms: u64, satisfied: bool) -> (r: WaitStep)
        ensures
            satisfied ==> r == WaitStep::Satisfied,
            !satisfied && elapsed_ms >= self.timeout_ms ==> r == WaitStep::TimedOut,
            !satisfied && elapsed_ms < self.timeout_ms ==> r == WaitStep::Sleep(self.interval_ms),
    {
        if satisfied {
            WaitStep::Satisfied
        } else if elapsed_ms >= self.timeout_ms {
            WaitStep::TimedOut
        } else {
            WaitStep::Sleep(self.interval_ms)
        }
    }
}

} // verus!
