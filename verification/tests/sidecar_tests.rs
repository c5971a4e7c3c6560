//! Orchestrator tests: the event stream, the registry slot, failure
//! classification and the end-to-end success path.

use ecoindex_analyzer::calculator::EcoIndexCalculator;
use ecoindex_analyzer::errors::SidecarError;
use ecoindex_analyzer::metrics::PageMetrics;
use ecoindex_analyzer::registry::ProcessRegistry;
use ecoindex_analyzer::sidecar::{
    audit_args, finalize, AuditSession, LighthouseScores, ProcessEvent, RawMetrics,
    RawSidecarSuccess, ResourceBreakdown, SidecarOutput,
};

fn scores() -> LighthouseScores {
    LighthouseScores {
        performance: 95,
        accessibility: 88,
        best_practices: 100,
        seo: 92,
        fcp: 120_050,      // 1200.50 ms
        lcp: 250_000,      // 2500.00 ms
        tbt: 15_000,       // 150.00 ms
        cls: 5,            // 0.05
        si: 300_000,       // 3000.00 ms
        tti: 410_000,      // 4100.00 ms
    }
}

fn success_payload() -> RawSidecarSuccess {
    RawSidecarSuccess {
        url: String::from("https://example.com"),
        raw_metrics: RawMetrics {
            dom_elements: 100,
            requests: 10,
            total_transfer_size: 1_000_000, // bytes -> 1000.00 KB
        },
        resource_breakdown: ResourceBreakdown {
            scripts: 3,
            stylesheets: 2,
            images: 4,
            fonts: 1,
            xhr: 0,
            other: 0,
        },
        requests: Vec::new(),
        cache_analysis: Vec::new(),
        lighthouse: scores(),
        accessibility_issues: Vec::new(),
        html_report_path: None,
        ttfb: None,
        coverage: None,
        compression: None,
        image_formats: None,
    }
}

#[test]
fn test_audit_args() {
    let args = audit_args(
        String::from("/res/script.mjs"),
        String::from("https://example.com"),
        String::from("/bin/chrome"),
        false,
    );
    assert_eq!(args, vec!["/res/script.mjs", "https://example.com", "/bin/chrome"]);

    let args = audit_args(
        String::from("/res/script.mjs"),
        String::from("https://example.com"),
        String::from("/bin/chrome"),
        true,
    );
    assert_eq!(
        args,
        vec!["/res/script.mjs", "https://example.com", "/bin/chrome", "--html"]
    );
}

#[test]
fn test_registry_cleared_after_run() {
    let mut registry = ProcessRegistry::new();
    let mut session = AuditSession::start(4242, &mut registry);
    assert_eq!(registry.current(), Some(4242));

    session.on_event(ProcessEvent::Stdout(b"hello ".to_vec()), &mut registry);
    session.on_event(ProcessEvent::Stderr(b"warn".to_vec()), &mut registry);
    assert_eq!(registry.current(), Some(4242));

    session.on_event(ProcessEvent::Terminated(Some(0)), &mut registry);
    assert!(session.finished);
    assert_eq!(session.exit_code, Some(0));
    assert_eq!(registry.current(), None);
}

#[test]
fn test_registry_cleared_after_failed_run() {
    let mut registry = ProcessRegistry::new();
    let mut session = AuditSession::start(7, &mut registry);
    session.on_event(ProcessEvent::Terminated(Some(3)), &mut registry);
    assert_eq!(registry.current(), None);
}

#[test]
fn test_registry_take_observes_pid_exactly_once() {
    let mut registry = ProcessRegistry::new();
    registry.record(99);
    assert_eq!(registry.take(), Some(99));
    assert_eq!(registry.take(), None);
    assert_eq!(registry.current(), None);
}

#[test]
fn test_registry_overwrites_stale_value() {
    let mut registry = ProcessRegistry::new();
    registry.record(1);
    registry.record(2);
    assert_eq!(registry.take(), Some(2));
}

#[test]
fn test_session_accumulates_chunks_in_order() {
    let mut registry = ProcessRegistry::new();
    let mut session = AuditSession::start(1, &mut registry);
    session.on_event(ProcessEvent::Stdout(b"noise {\"a\"".to_vec()), &mut registry);
    session.on_event(ProcessEvent::Other, &mut registry);
    session.on_event(ProcessEvent::Stdout(b":1} tail".to_vec()), &mut registry);
    session.on_event(ProcessEvent::Terminated(Some(0)), &mut registry);

    assert_eq!(session.stdout, b"noise {\"a\":1} tail".to_vec());
    let payload = session.payload().expect("payload expected");
    assert_eq!(payload, b"{\"a\":1}".to_vec());
}

#[test]
fn test_conclude_failure_with_embedded_error() {
    let mut registry = ProcessRegistry::new();
    let mut session = AuditSession::start(1, &mut registry);
    session.on_event(ProcessEvent::Terminated(Some(2)), &mut registry);

    let e = session.conclude_failure(Some((
        String::from("CHROME_CRASH"),
        String::from("browser went away"),
    )));
    assert_eq!(
        e,
        SidecarError::AnalysisFailed {
            code: String::from("CHROME_CRASH"),
            message: String::from("browser went away"),
        }
    );
}

#[test]
fn test_conclude_failure_with_snapshot() {
    let mut registry = ProcessRegistry::new();
    let mut session = AuditSession::start(1, &mut registry);
    session.on_event(ProcessEvent::Stdout(b"some out".to_vec()), &mut registry);
    session.on_event(ProcessEvent::Stderr(b"some err".to_vec()), &mut registry);
    session.on_event(ProcessEvent::Terminated(Some(9)), &mut registry);

    let e = session.conclude_failure(None);
    match e {
        SidecarError::ProcessFailed { code, stderr } => {
            assert_eq!(code, 9);
            assert_eq!(stderr, "stderr: some err, stdout: some out");
        },
        other => panic!("unexpected error: {other:?}"),
    }
}

#[test]
fn test_conclude_failure_without_exit_code() {
    let mut registry = ProcessRegistry::new();
    let mut session = AuditSession::start(1, &mut registry);
    session.on_event(ProcessEvent::Terminated(None), &mut registry);

    let e = session.conclude_failure(None);
    match e {
        SidecarError::ProcessFailed { code, stderr } => {
            assert_eq!(code, -1);
            assert_eq!(stderr, "stderr: , stdout: ");
        },
        other => panic!("unexpected error: {other:?}"),
    }
}

#[test]
fn test_missing_payload_error() {
    let mut registry = ProcessRegistry::new();
    let mut session = AuditSession::start(1, &mut registry);
    session.on_event(ProcessEvent::Stdout(b"logs only".to_vec()), &mut registry);
    session.on_event(ProcessEvent::Terminated(Some(0)), &mut registry);

    assert!(session.payload().is_none());
    let e = session.missing_payload_error();
    assert_eq!(
        e,
        SidecarError::ParseError(String::from("No valid JSON found in output: logs only"))
    );
}

#[test]
fn test_conclude_success_with_error_payload() {
    let mut registry = ProcessRegistry::new();
    let mut session = AuditSession::start(1, &mut registry);
    session.on_event(
        ProcessEvent::Stdout(b"{\"error\":true,\"code\":\"E1\",\"message\":\"bad\"}".to_vec()),
        &mut registry,
    );
    session.on_event(ProcessEvent::Terminated(Some(0)), &mut registry);

    let json = session.payload().expect("payload expected");
    let r = session.conclude_success(
        &json,
        Ok(SidecarOutput::Error { code: String::from("E1"), message: String::from("bad") }),
        String::from("t0"),
    );
    assert_eq!(
        r.unwrap_err(),
        SidecarError::AnalysisFailed { code: String::from("E1"), message: String::from("bad") }
    );
}

#[test]
fn test_conclude_success_with_malformed_payload() {
    let mut registry = ProcessRegistry::new();
    let mut session = AuditSession::start(1, &mut registry);
    session.on_event(ProcessEvent::Stdout(b"{\"a\":}".to_vec()), &mut registry);
    session.on_event(ProcessEvent::Terminated(Some(0)), &mut registry);

    let json = session.payload().expect("payload expected");
    let r = session.conclude_success(&json, Err(String::from("expected value")), String::from("t0"));
    assert_eq!(
        r.unwrap_err(),
        SidecarError::ParseError(String::from(
            "JSON parse error: expected value, json: {\"a\":}"
        ))
    );
}

#[test]
fn test_end_to_end_success_scores_come_from_calculator() {
    // A mocked tool writes diagnostics plus the success payload and exits 0.
    let mut registry = ProcessRegistry::new();
    let mut session = AuditSession::start(31337, &mut registry);
    let stdout = "Launching browser...\n{\"url\":\"https://example.com\",\"rawMetrics\":{\"domElements\":100,\"requests\":10,\"totalTransferSize\":1000000},\"lighthouse\":{\"performance\":95,\"accessibility\":88,\"bestPractices\":100,\"seo\":92,\"fcp\":1200.5,\"lcp\":2500,\"tbt\":150,\"cls\":0.05,\"si\":3000,\"tti\":4100},\"accessibilityIssues\":[]}\nDone.\n";
    session.on_event(ProcessEvent::Stdout(stdout.as_bytes().to_vec()), &mut registry);
    session.on_event(ProcessEvent::Terminated(Some(0)), &mut registry);
    assert_eq!(registry.current(), None);

    let json = session.payload().expect("payload expected");

    // Decode the payload the way the host does, here with serde_json's
    // generic value type, and hand the decoded union back.
    let v: serde_json::Value = serde_json::from_slice(&json).expect("valid JSON");
    assert!(v.get("score").is_none(), "the tool reports no score of its own");
    let raw = success_payload();
    assert_eq!(v["url"], serde_json::Value::String(raw.url.clone()));
    assert_eq!(v["rawMetrics"]["domElements"].as_u64(), Some(100));
    assert_eq!(v["rawMetrics"]["requests"].as_u64(), Some(10));
    assert_eq!(v["rawMetrics"]["totalTransferSize"].as_u64(), Some(1_000_000));

    let r = session
        .conclude_success(&json, Ok(SidecarOutput::Success(raw)), String::from("2026-01-01T00:00:00Z"))
        .expect("success expected");

    // The score block is recomputed locally from the raw counters.
    let metrics = PageMetrics::new(100, 10, 100_000); // 1000000 bytes / 10
    let score = EcoIndexCalculator::compute_score(&metrics);
    assert_eq!(r.ecoindex.score, score);
    assert_eq!(r.ecoindex.grade, EcoIndexCalculator::get_grade(score).to_string());
    assert_eq!(r.ecoindex.ghg, EcoIndexCalculator::compute_ghg(score));
    assert_eq!(r.ecoindex.water, EcoIndexCalculator::compute_water(score));
    assert_eq!(r.ecoindex.dom_elements, 100);
    assert_eq!(r.ecoindex.requests, 10);
    assert_eq!(r.ecoindex.size_kb_centi, 100_000);
    assert_eq!(r.url, "https://example.com");
    assert_eq!(r.timestamp, "2026-01-01T00:00:00Z");
    assert_eq!(r.performance.performance_score, 95);
    assert_eq!(r.accessibility.accessibility_score, 88);
    assert_eq!(r.best_practices.best_practices_score, 100);
    assert_eq!(r.seo.seo_score, 92);
}

#[test]
fn test_finalize_passes_auxiliary_blocks_through() {
    let mut raw = success_payload();
    raw.html_report_path = Some(String::from("/tmp/report.html"));
    let r = finalize(raw, String::from("t1"));
    assert_eq!(r.html_report_path.as_deref(), Some("/tmp/report.html"));
    assert_eq!(r.ecoindex.resource_breakdown.scripts, 3);
    assert_eq!(r.performance.first_contentful_paint, 120_050);
    assert_eq!(r.performance.cumulative_layout_shift, 5);
    assert!(r.ttfb.is_none());
    assert!(r.coverage.is_none());
}
