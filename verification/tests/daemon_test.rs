use tempcheck::collector::CollectorError;
use tempcheck::daemon::{daemon_step, DaemonAction, DaemonEvent};
use tempcheck::storage::StoreError;

#[test]
fn daemon_collects_on_tick_and_stores_nonempty_readings() {
    assert_eq!(daemon_step(DaemonEvent::Tick), DaemonAction::Collect);
    assert_eq!(daemon_step(DaemonEvent::Collected(3)), DaemonAction::StoreReadings);
    assert_eq!(daemon_step(DaemonEvent::Collected(0)), DaemonAction::WarnNoSensors);
    assert_eq!(daemon_step(DaemonEvent::Stored(3)), DaemonAction::LogStored(3));
}

#[test]
fn daemon_logs_failures_and_keeps_running() {
    assert_eq!(
        daemon_step(DaemonEvent::CollectFailed(CollectorError::Io("mock failure".to_string()))),
        DaemonAction::LogCollectError("failed to read thermal data: mock failure".to_string())
    );
    assert_eq!(
        daemon_step(DaemonEvent::StoreFailed(StoreError::Db("locked".to_string()))),
        DaemonAction::LogStoreError("database error: locked".to_string())
    );
}

#[test]
fn daemon_stops_only_on_received_shutdown() {
    assert_eq!(
        daemon_step(DaemonEvent::ShutdownSignal { received: true, shutdown: true }),
        DaemonAction::Stop
    );
    assert_eq!(
        daemon_step(DaemonEvent::ShutdownSignal { received: true, shutdown: false }),
        DaemonAction::Wait
    );
    assert_eq!(
        daemon_step(DaemonEvent::ShutdownSignal { received: false, shutdown: true }),
        DaemonAction::Wait
    );
}
