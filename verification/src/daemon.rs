//! Decisions of the logging daemon: what it does after each event. Waiting
//! on the timer, reading sensors, writing rows and logging are the
//! application's.
use vstd::prelude::*;
use crate::collector::{collector_error_text, CollectorError};
use crate::storage::{store_error_text, StoreError};

verus! {

/// What happened to the daemon.
#[derive(Debug, Clone, PartialEq, Eq)]
pub enum DaemonEvent {
    /// The poll interval elapsed.
    Tick,
    /// The sensors were read; how many readings came back.
    Collected(usize),
    /// Reading the sensors failed.
    CollectFailed(CollectorError),
    /// The readings were stored; how many rows were written.
    Stored(usize),
    /// Storing the readings failed.
    StoreFailed(StoreError),
    /// The shutdown channel changed: whether the change could be received,
    /// and the value it now holds.
    ShutdownSignal { received: bool, shutdown: bool },
}

/// What the daemon does next.
#[derive(Debug, Clone, PartialEq, Eq)]
pub enum DaemonAction {
    /// Read the sensors.
    Collect,
    /// Store the readings just collected.
    StoreReadings,
    /// Warn that no sensor was found, then wait for the next event.
    WarnNoSensors,
    /// Log how many readings were stored, then wait.
    LogStored(usize),
    /// Log that collecting failed, with the error's text, then wait.
    LogCollectError(String),
    /// Log that storing failed, with the error's text, then wait.
    LogStoreError(String),
    /// Wait for the next event.
    Wait,
    /// Log the shutdown and stop.
    Stop,
}

/// The daemon's next action after `event`: collect on every tick; store
/// readings when there are any, else warn; log what storing or a failure
/// gave; stop only when a shutdown value of `true` was received.
pub fn daemon_step(event: DaemonEvent) -> (a: DaemonAction)
    ensures
        event is Tick ==> a == DaemonAction::Collect,
        event matches DaemonEvent::Collected(n) ==> (if n == 0 {
            a == DaemonAction::WarnNoSensors
        } else {
            a == DaemonAction::StoreReadings
        }),
        event matches DaemonEvent::CollectFailed(e) ==> (a matches DaemonAction::LogCollectError(m)
            && m@ == collector_error_text(e)),
        event matches DaemonEvent::Stored(n) ==> a == DaemonAction::LogStored(n),
        event matches DaemonEvent::StoreFailed(e) ==> (a matches DaemonAction::LogStoreError(m)
            && m@ == store_error_text(e)),
        event matches DaemonEvent::ShutdownSignal { received, shutdown } ==> (if received
            && shutdown {
            a == DaemonAction::Stop
        } else {
            a == DaemonAction::Wait
        }),
        a is Stop <==> (event matches DaemonEvent::ShutdownSignal { received, shutdown }
            && received && shutdown),
{
    match event {
        DaemonEvent::Tick => DaemonAction::Collect,
        DaemonEvent::Collected(n) => if n == 0 {
            DaemonAction::WarnNoSensors
        } else {
            DaemonAction::StoreReadings
        },
        DaemonEvent::CollectFailed(e) => DaemonAction::LogCollectError(e.message()),
        DaemonEvent::Stored(n) => DaemonAction::LogStored(n),
        DaemonEvent::StoreFailed(e) => DaemonAction::LogStoreError(e.message()),
        DaemonEvent::ShutdownSignal { received, shutdown } => if received && shutdown {
            DaemonAction::Stop
        } else {
            DaemonAction::Wait
        },
    }
}

} // verus!
