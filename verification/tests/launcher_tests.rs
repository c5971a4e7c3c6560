//! Browser launcher and session-sequence tests.

use ecoindex_analyzer::browser::{
    BrowserLauncher, MetricsCollector, NetworkCounters, SessionStep,
};
use ecoindex_analyzer::errors::BrowserError;
use ecoindex_analyzer::paths::Platform;

#[test]
fn test_new() {
    let launcher = BrowserLauncher::new(String::from("/path/to/chrome"));
    assert_eq!(launcher.chrome_path, "/path/to/chrome");
}

#[test]
fn test_resolve_chrome_path() {
    let resource_dir = "/app/resources";

    let windows = BrowserLauncher::resolve_chrome_path(resource_dir, Platform::Windows);
    assert!(windows.contains("chrome-headless-shell.exe"));

    let linux = BrowserLauncher::resolve_chrome_path(resource_dir, Platform::Linux);
    assert!(linux.ends_with("chrome-headless-shell"));

    let macos = BrowserLauncher::resolve_chrome_path(resource_dir, Platform::MacOs);
    assert!(macos.contains("chrome-headless-shell"));
}

#[test]
fn test_session_sequence_order() {
    let expected = [
        SessionStep::OpenPage,
        SessionStep::EnableNetwork,
        SessionStep::StartCounters,
        SessionStep::Navigate,
        SessionStep::SettleFirst,
        SessionStep::Scroll,
        SessionStep::SettleSecond,
        SessionStep::EvalDomCount,
        SessionStep::EvalHtmlSize,
        SessionStep::StopCounters,
        SessionStep::ClosePage,
        SessionStep::Done,
    ];
    let mut step = SessionStep::first();
    for want in expected {
        assert_eq!(step, want);
        step = step.next();
    }
    assert_eq!(step, SessionStep::Done);
}

#[test]
fn test_session_step_failures() {
    let e = SessionStep::OpenPage.failure(String::from("boom"));
    assert!(matches!(e, Some(BrowserError::PageCreationFailed(d)) if d == "boom"));

    let e = SessionStep::EnableNetwork.failure(String::from("x"));
    assert!(matches!(e, Some(BrowserError::CdpError(_))));

    let e = SessionStep::Navigate.failure(String::from("x"));
    assert!(matches!(e, Some(BrowserError::NavigationFailed(_))));

    let e = SessionStep::Scroll.failure(String::from("x"));
    assert!(matches!(e, Some(BrowserError::JavaScriptError(_))));

    assert!(SessionStep::SettleFirst.failure(String::from("x")).is_none());
    assert!(SessionStep::StopCounters.failure(String::from("x")).is_none());
    assert!(SessionStep::ClosePage.failure(String::from("x")).is_none());
}

#[test]
fn test_network_counters() {
    let mut c = NetworkCounters::new();
    c.record_request();
    c.record_request();
    c.record_bytes(1500);
    c.record_bytes(500);
    let (requests, bytes) = c.stop();
    assert_eq!(requests, 2);
    assert_eq!(bytes, 2000);

    // Stopped counters accept no further increments.
    c.record_request();
    c.record_bytes(99);
    assert_eq!(c.requests, 2);
    assert_eq!(c.bytes, 2000);
}

#[test]
fn test_finalize_metrics() {
    // 2048 network bytes + 1024 HTML bytes = 3 KB = 300 hundredths.
    let m = MetricsCollector::finalize_metrics(120, 7, 2048, 1024);
    assert_eq!(m.dom_elements, 120);
    assert_eq!(m.requests, 7);
    assert_eq!(m.size_kb_centi, 300);
}
