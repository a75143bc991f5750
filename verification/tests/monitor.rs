//! Tests of the monitor lifecycle state machine.

use shotpipe::errors::MonitorError;
use shotpipe::monitor::ClipboardMonitor;

#[test]
fn new_monitor_is_idle() {
    let m = ClipboardMonitor::new();
    assert!(!m.is_running());
}

#[test]
fn start_twice_returns_already_running() {
    let mut m = ClipboardMonitor::new();
    assert!(m.start().is_ok());
    assert!(m.is_running());
    assert_eq!(m.start(), Err(MonitorError::AlreadyRunning));
    assert!(m.is_running());
}

#[test]
fn stop_when_idle_returns_not_running() {
    let mut m = ClipboardMonitor::new();
    assert_eq!(m.stop(true), Err(MonitorError::NotRunning));
    assert!(!m.is_running());
}

#[test]
fn stop_after_start_succeeds_and_idles() {
    let mut m = ClipboardMonitor::new();
    assert!(m.start().is_ok());
    assert!(m.stop(true).is_ok());
    assert!(!m.is_running());
}

#[test]
fn undelivered_stop_signal_is_cancel_failed() {
    let mut m = ClipboardMonitor::new();
    assert!(m.start().is_ok());
    assert_eq!(m.stop(false), Err(MonitorError::CancelFailed));
    // the channel endpoint is given up either way
    assert!(!m.is_running());
}

#[test]
fn monitor_can_be_restarted() {
    let mut m = ClipboardMonitor::new();
    assert!(m.start().is_ok());
    assert!(m.stop(true).is_ok());
    assert!(m.start().is_ok());
    assert!(m.is_running());
}

#[test]
fn monitor_error_messages() {
    assert_eq!(MonitorError::AlreadyRunning.message(), "monitoring is already running");
    assert_eq!(MonitorError::NotRunning.message(), "monitoring is not running");
    assert_eq!(MonitorError::CancelFailed.message(), "failed to send stop signal");
}
