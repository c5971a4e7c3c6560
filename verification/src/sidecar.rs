//! External audit orchestration.
//!
//! The orchestrator spawns an external audit tool, records its process
//! identifier, consumes its ordered event stream into byte buffers, locates
//! the JSON payload in the noisy stdout, and recomputes the score locally
//! from the tool's raw counters so that both analysis paths share one scoring
//! source of truth. The spawn itself, the event loop and the JSON decoding
//! of the payload are the host's work; every decision in between is made
//! here, as a function of the session state and the handed-back values.
//!
//! Fractional quantities reported by the tool (millisecond timings, byte
//! estimates, percentages) are held in hundredths of their unit.

use vstd::prelude::*;
use vstd::string::StringExecFns;
use crate::calculator::{
    ghg_centi, grade_of, score_centi, water_centi, EcoIndexCalculator,
};
use crate::errors::SidecarError;
use crate::extract::{extract_json, extracted_json};
use crate::registry::ProcessRegistry;

verus! {

// ============================================================================
// Payload shapes reported by the audit tool
// ============================================================================

/// Raw counters from the tool, before any scoring.
#[derive(Debug, Clone, PartialEq, Eq)]
pub struct RawMetrics {
    /// Number of DOM elements.
    pub dom_elements: u32,
    /// Number of HTTP requests.
    pub requests: u32,
    /// Total transfer size in bytes.
    pub total_transfer_size: u64,
}

/// Lighthouse-style sub-scores from the tool. Timings in hundredths of a
/// millisecond; the layout-shift value in hundredths of its unitless score.
#[derive(Debug, Clone, PartialEq, Eq)]
pub struct LighthouseScores {
    /// Performance score (0-100).
    pub performance: u32,
    /// Accessibility score (0-100).
    pub accessibility: u32,
    /// Best-practices score (0-100).
    pub best_practices: u32,
    /// SEO score (0-100).
    pub seo: u32,
    /// First Contentful Paint.
    pub fcp: u64,
    /// Largest Contentful Paint.
    pub lcp: u64,
    /// Total Blocking Time.
    pub tbt: u64,
    /// Cumulative Layout Shift.
    pub cls: u64,
    /// Speed Index.
    pub si: u64,
    /// Time To Interactive.
    pub tti: u64,
}

/// Resource breakdown by type.
#[derive(Debug, Clone, PartialEq, Eq, Default)]
pub struct ResourceBreakdown {
    /// Number of JavaScript files.
    pub scripts: u32,
    /// Number of CSS stylesheets.
    pub stylesheets: u32,
    /// Number of images.
    pub images: u32,
    /// Number of font files.
    pub fonts: u32,
    /// Number of XHR/fetch requests.
    pub xhr: u32,
    /// Other resources.
    pub other: u32,
}

/// Accessibility issue details.
#[derive(Debug, Clone, PartialEq, Eq)]
pub struct AccessibilityIssue {
    /// Issue identifier.
    pub id: String,
    /// Issue title.
    pub title: String,
    /// Impact level.
    pub impact: String,
}

/// Cache analysis item from the long-cache-TTL audit. The hit probability
/// and the wasted bytes are in hundredths.
#[derive(Debug, Clone, PartialEq, Eq)]
pub struct CacheItem {
    /// Full URL of the resource.
    pub url: String,
    /// Cache lifetime in milliseconds.
    pub cache_lifetime_ms: u64,
    /// Cache hit probability, in hundredths (0..=100).
    pub cache_hit_probability: u64,
    /// Total bytes of the resource.
    pub total_bytes: u64,
    /// Bytes wasted due to a short cache TTL, in hundredths of a byte.
    pub wasted_bytes: u64,
}

/// Detailed information about a single HTTP request. Timings in hundredths
/// of a millisecond.
#[derive(Debug, Clone, PartialEq, Eq)]
pub struct RequestDetail {
    /// Full URL of the request.
    pub url: String,
    /// Domain/hostname of the request.
    pub domain: String,
    /// Protocol used (h2, http/1.1, ...).
    pub protocol: String,
    /// HTTP status code.
    pub status_code: u16,
    /// MIME type of the response.
    pub mime_type: String,
    /// Resource type (Document, Script, Stylesheet, ...).
    pub resource_type: String,
    /// Transfer size in bytes (compressed, over the wire).
    pub transfer_size: u64,
    /// Resource size in bytes (decompressed).
    pub resource_size: u64,
    /// Request priority.
    pub priority: String,
    /// Start time relative to navigation start.
    pub start_time: u64,
    /// End time relative to navigation start.
    pub end_time: u64,
    /// Duration.
    pub duration: u64,
    /// Whether the resource was served from cache.
    pub from_cache: bool,
    /// Cache lifetime in milliseconds.
    pub cache_lifetime_ms: u64,
}

/// Time-to-first-byte metrics, in hundredths of a millisecond.
#[derive(Debug, Clone, PartialEq, Eq)]
pub struct TtfbMetrics {
    /// Time to first byte.
    pub ttfb: u64,
    /// Display string from the tool.
    pub display_value: String,
}

/// Coverage item for unused code analysis, byte counts and the percentage in
/// hundredths.
#[derive(Debug, Clone, PartialEq, Eq)]
pub struct CoverageItem {
    /// Full URL of the resource.
    pub url: String,
    /// Total bytes of the resource, in hundredths.
    pub total_bytes: u64,
    /// Unused bytes, in hundredths.
    pub wasted_bytes: u64,
    /// Percentage of unused code, in hundredths.
    pub wasted_percent: u64,
}

/// Statistics for unused code (JS or CSS), in hundredths.
#[derive(Debug, Clone, PartialEq, Eq)]
pub struct UnusedCodeStats {
    /// Total wasted bytes, in hundredths.
    pub wasted_bytes: u64,
    /// Overall wasted percentage, in hundredths.
    pub wasted_percentage: u64,
    /// Individual items with details.
    pub items: Vec<CoverageItem>,
}

/// Coverage analytics (unused JS/CSS).
#[derive(Debug, Clone, PartialEq, Eq)]
pub struct CoverageAnalytics {
    /// Unused JavaScript statistics.
    pub unused_js: UnusedCodeStats,
    /// Unused CSS statistics.
    pub unused_css: UnusedCodeStats,
}

/// Compression opportunity item, byte counts in hundredths.
#[derive(Debug, Clone, PartialEq, Eq)]
pub struct CompressionItem {
    /// Full URL of the resource.
    pub url: String,
    /// Total bytes of the resource, in hundredths.
    pub total_bytes: u64,
    /// Bytes savable with compression, in hundredths.
    pub wasted_bytes: u64,
}

/// Compression analytics (gzip/brotli opportunities).
#[derive(Debug, Clone, PartialEq, Eq)]
pub struct CompressionAnalytics {
    /// Total potential savings in hundredths of a byte.
    pub potential_savings: u64,
    /// Individual items that can be compressed.
    pub items: Vec<CompressionItem>,
    /// Compression score (0-100, 100 = fully optimized).
    pub score: u32,
}

/// Image format opportunity item, byte counts in hundredths.
#[derive(Debug, Clone, PartialEq, Eq)]
pub struct ImageFormatItem {
    /// Full URL of the image.
    pub url: String,
    /// Current format (jpeg, png, ...).
    pub from_format: String,
    /// Total bytes of the image, in hundredths.
    pub total_bytes: u64,
    /// Bytes savable with modern formats, in hundredths.
    pub wasted_bytes: u64,
}

/// Image format analytics (WebP/AVIF opportunities).
#[derive(Debug, Clone, PartialEq, Eq)]
pub struct ImageFormatAnalytics {
    /// Total potential savings in hundredths of a byte.
    pub potential_savings: u64,
    /// Individual images that can be converted.
    pub items: Vec<ImageFormatItem>,
    /// Image format score (0-100, 100 = fully optimized).
    pub score: u32,
}

/// The tool's success payload: raw counters, sub-scores and auxiliary audit
/// blocks, parsed once per invocation.
#[derive(Debug, Clone, PartialEq, Eq)]
pub struct RawSidecarSuccess {
    /// Analyzed URL.
    pub url: String,
    /// Raw counters.
    pub raw_metrics: RawMetrics,
    /// Resource breakdown by type.
    pub resource_breakdown: ResourceBreakdown,
    /// Per-request detail list.
    pub requests: Vec<RequestDetail>,
    /// Cache analysis items.
    pub cache_analysis: Vec<CacheItem>,
    /// Lighthouse-style sub-scores.
    pub lighthouse: LighthouseScores,
    /// Accessibility issue list.
    pub accessibility_issues: Vec<AccessibilityIssue>,
    /// Path to an HTML report, when one was requested.
    pub html_report_path: Option<String>,
    /// Time-to-first-byte block.
    pub ttfb: Option<TtfbMetrics>,
    /// Coverage block.
    pub coverage: Option<CoverageAnalytics>,
    /// Compression block.
    pub compression: Option<CompressionAnalytics>,
    /// Image-format block.
    pub image_formats: Option<ImageFormatAnalytics>,
}

/// The payload as a discriminated union: the success schema, or the embedded
/// error schema the tool uses to report its own failures.
#[derive(Debug, Clone, PartialEq, Eq)]
pub enum SidecarOutput {
    /// The success payload.
    Success(RawSidecarSuccess),
    /// The embedded error payload.
    Error {
        /// Error code from the tool.
        code: String,
        /// Error message from the tool.
        message: String,
    },
}

// ============================================================================
// Final result shape
// ============================================================================

/// Score block of the final result, recomputed locally from the raw
/// counters. All fractional values in hundredths.
#[derive(Debug, Clone, PartialEq, Eq)]
pub struct EcoIndexMetrics {
    /// Score in hundredths of a point (0..=10000).
    pub score: u64,
    /// Grade letter, "A".."G".
    pub grade: String,
    /// Greenhouse gas emissions in hundredths of a gram CO2e.
    pub ghg: u64,
    /// Water consumption in hundredths of a centiliter.
    pub water: u64,
    /// Number of DOM elements.
    pub dom_elements: u32,
    /// Number of HTTP requests.
    pub requests: u32,
    /// Page size in hundredths of a kilobyte.
    pub size_kb_centi: u64,
    /// Resource breakdown by type.
    pub resource_breakdown: ResourceBreakdown,
}

/// Performance block of the final result, timings in hundredths of a
/// millisecond.
#[derive(Debug, Clone, PartialEq, Eq)]
pub struct PerformanceMetrics {
    /// Performance score (0-100).
    pub performance_score: u32,
    /// First Contentful Paint.
    pub first_contentful_paint: u64,
    /// Largest Contentful Paint.
    pub largest_contentful_paint: u64,
    /// Total Blocking Time.
    pub total_blocking_time: u64,
    /// Cumulative Layout Shift, in hundredths.
    pub cumulative_layout_shift: u64,
    /// Speed Index.
    pub speed_index: u64,
    /// Time to Interactive.
    pub time_to_interactive: u64,
}

/// Accessibility block of the final result.
#[derive(Debug, Clone, PartialEq, Eq)]
pub struct AccessibilityMetrics {
    /// Accessibility score (0-100).
    pub accessibility_score: u32,
    /// List of accessibility issues.
    pub issues: Vec<AccessibilityIssue>,
}

/// Best-practices block of the final result.
#[derive(Debug, Clone, PartialEq, Eq)]
pub struct BestPracticesMetrics {
    /// Best-practices score (0-100).
    pub best_practices_score: u32,
}

/// SEO block of the final result.
#[derive(Debug, Clone, PartialEq, Eq)]
pub struct SeoMetrics {
    /// SEO score (0-100).
    pub seo_score: u32,
}

/// Complete result of one external audit run.
#[derive(Debug, Clone, PartialEq, Eq)]
pub struct LighthouseResult {
    /// Analyzed URL.
    pub url: String,
    /// Timestamp of the analysis.
    pub timestamp: String,
    /// Locally recomputed score block.
    pub ecoindex: EcoIndexMetrics,
    /// Performance metrics.
    pub performance: PerformanceMetrics,
    /// Accessibility metrics.
    pub accessibility: AccessibilityMetrics,
    /// Best-practices metrics.
    pub best_practices: BestPracticesMetrics,
    /// SEO metrics.
    pub seo: SeoMetrics,
    /// Per-request detail list, passed through unchanged.
    pub requests: Vec<RequestDetail>,
    /// Cache analysis, passed through unchanged.
    pub cache_analysis: Vec<CacheItem>,
    /// Path to an HTML report, when one was requested.
    pub html_report_path: Option<String>,
    /// Time-to-first-byte block, passed through unchanged.
    pub ttfb: Option<TtfbMetrics>,
    /// Coverage block, passed through unchanged.
    pub coverage: Option<CoverageAnalytics>,
    /// Compression block, passed through unchanged.
    pub compression: Option<CompressionAnalytics>,
    /// Image-format block, passed through unchanged.
    pub image_formats: Option<ImageFormatAnalytics>,
}

// ============================================================================
// The session state machine
// ============================================================================

/// One event of the audit process's ordered stream.
#[derive(Debug)]
pub enum ProcessEvent {
    /// A chunk of standard output.
    Stdout(Vec<u8>),
    /// A chunk of standard error.
    Stderr(Vec<u8>),
    /// The process terminated with the given exit code, when one is known.
    Terminated(Option<i32>),
    /// Any other event; ignored.
    Other,
}

/// State of one audit run: the accumulated output buffers and, once the
/// process terminated, its exit code.
#[derive(Debug)]
pub struct AuditSession {
    /// Accumulated standard output.
    pub stdout: Vec<u8>,
    /// Accumulated standard error.
    pub stderr: Vec<u8>,
    /// Exit code, meaningful once `finished`.
    pub exit_code: Option<i32>,
    /// Whether the terminated event has arrived.
    pub finished: bool,
}

/// The exit code of a finished run, -1 when the platform reported none.
pub open spec fn exit_or_fallback(code: Option<i32>) -> i32 {
    match code {
        Some(c) => c,
        None => -1i32,
    }
}

/// Relies on String::from_utf8_lossy: the decoding depends on the bytes
/// alone; an empty input decodes to an empty string.
#[verifier::external_body]
fn lossy_utf8(b: &[u8]) -> (r: String)
    ensures
        r@ == lossy_utf8_of(b@),
        b@.len() == 0 ==> r@.len() == 0,
{
    String::from_utf8_lossy(b).into_owned()
}

/// What String::from_utf8_lossy returns on the given bytes.
pub uninterp spec fn lossy_utf8_of(b: Seq<u8>) -> Seq<char>;

/// The output snapshot carried by a process failure.
pub open spec fn failure_snapshot(stderr: Seq<u8>, stdout: Seq<u8>) -> Seq<char> {
    "stderr: "@ + lossy_utf8_of(stderr) + ", stdout: "@ + lossy_utf8_of(stdout)
}

fn grade_str(g: char) -> (s: &'static str)
    requires
        g == 'A' || g == 'B' || g == 'C' || g == 'D' || g == 'E' || g == 'F' || g == 'G',
    ensures
        s@ == seq![g],
{
    proof {
        reveal_strlit("A");
        reveal_strlit("B");
        reveal_strlit("C");
        reveal_strlit("D");
        reveal_strlit("E");
        reveal_strlit("F");
        reveal_strlit("G");
    }
    let s = if g == 'A' {
        "A"
    } else if g == 'B' {
        "B"
    } else if g == 'C' {
        "C"
    } else if g == 'D' {
        "D"
    } else if g == 'E' {
        "E"
    } else if g == 'F' {
        "F"
    } else {
        "G"
    };
    proof {
        assert(s@ =~= seq![g]);
    }
    s
}

/// The final result is the tool's payload with the score block recomputed
/// locally: score, grade and impact estimates come from the calculator on
/// the raw counters (bytes to hundredths of a kilobyte by dividing by ten,
/// the divide-by-1000 convention), sub-scores and auxiliary blocks pass
/// through unchanged.
pub open spec fn finalized(
    r: LighthouseResult,
    raw: RawSidecarSuccess,
    timestamp: Seq<char>,
) -> bool {
    &&& r.url == raw.url
    &&& r.timestamp@ == timestamp
    &&& r.ecoindex.score == score_centi(
        raw.raw_metrics.dom_elements as int,
        raw.raw_metrics.requests as int,
        (raw.raw_metrics.total_transfer_size / 10) as int,
    )
    &&& r.ecoindex.grade@ == seq![grade_of(r.ecoindex.score as int)]
    &&& r.ecoindex.ghg == ghg_centi(r.ecoindex.score as int)
    &&& r.ecoindex.water == water_centi(r.ecoindex.score as int)
    &&& r.ecoindex.dom_elements == raw.raw_metrics.dom_elements
    &&& r.ecoindex.requests == raw.raw_metrics.requests
    &&& r.ecoindex.size_kb_centi == raw.raw_metrics.total_transfer_size / 10
    &&& r.ecoindex.resource_breakdown == raw.resource_breakdown
    &&& r.performance.performance_score == raw.lighthouse.performance
    &&& r.performance.first_contentful_paint == raw.lighthouse.fcp
    &&& r.performance.largest_contentful_paint == raw.lighthouse.lcp
    &&& r.performance.total_blocking_time == raw.lighthouse.tbt
    &&& r.performance.cumulative_layout_shift == raw.lighthouse.cls
    &&& r.performance.speed_index == raw.lighthouse.si
    &&& r.performance.time_to_interactive == raw.lighthouse.tti
    &&& r.accessibility.accessibility_score == raw.lighthouse.accessibility
    &&& r.accessibility.issues == raw.accessibility_issues
    &&& r.best_practices.best_practices_score == raw.lighthouse.best_practices
    &&& r.seo.seo_score == raw.lighthouse.seo
    &&& r.requests == raw.requests
    &&& r.cache_analysis == raw.cache_analysis
    &&& r.html_report_path == raw.html_report_path
    &&& r.ttfb == raw.ttfb
    &&& r.coverage == raw.coverage
    &&& r.compression == raw.compression
    &&& r.image_formats == raw.image_formats
}

/// Builds the final result from a success payload: the score block is
/// recomputed locally, everything else passes through.
pub fn finalize(raw: RawSidecarSuccess, timestamp: String) -> (r: LighthouseResult)
    ensures
        finalized(r, raw, timestamp@),
{
    let size_kb_centi = raw.raw_metrics.total_transfer_size / 10;
    let metrics = crate::metrics::PageMetrics::new(
        raw.raw_metrics.dom_elements,
        raw.raw_metrics.requests,
        size_kb_centi,
    );
    let score = EcoIndexCalculator::compute_score(&metrics);
    let grade = grade_str(EcoIndexCalculator::get_grade(score)).to_owned();
    let ghg = EcoIndexCalculator::compute_ghg(score);
    let water = EcoIndexCalculator::compute_water(score);

    LighthouseResult {
        url: raw.url,
        timestamp,
        ecoindex: EcoIndexMetrics {
            score,
            grade,
            ghg,
            water,
            dom_elements: raw.raw_metrics.dom_elements,
            requests: raw.raw_metrics.requests,
            size_kb_centi,
            resource_breakdown: raw.resource_breakdown,
        },
        performance: PerformanceMetrics {
            performance_score: raw.lighthouse.performance,
            first_contentful_paint: raw.lighthouse.fcp,
            largest_contentful_paint: raw.lighthouse.lcp,
            total_blocking_time: raw.lighthouse.tbt,
            cumulative_layout_shift: raw.lighthouse.cls,
            speed_index: raw.lighthouse.si,
            time_to_interactive: raw.lighthouse.tti,
        },
        accessibility: AccessibilityMetrics {
            accessibility_score: raw.lighthouse.accessibility,
            issues: raw.accessibility_issues,
        },
        best_practices: BestPracticesMetrics {
            best_practices_score: raw.lighthouse.best_practices,
        },
        seo: SeoMetrics { seo_score: raw.lighthouse.seo },
        requests: raw.requests,
        cache_analysis: raw.cache_analysis,
        html_report_path: raw.html_report_path,
        ttfb: raw.ttfb,
        coverage: raw.coverage,
        compression: raw.compression,
        image_formats: raw.image_formats,
    }
}

/// The audit tool's argument vector: script path, analyzed URL, browser
/// executable path, and the HTML-report flag when one was requested.
pub fn audit_args(
    script_path: String,
    url: String,
    browser_path: String,
    include_html: bool,
) -> (args: Vec<String>)
    ensures
        args@.len() == (if include_html {
            4int
        } else {
            3int
        }),
        args@[0] == script_path,
        args@[1] == url,
        args@[2] == browser_path,
        include_html ==> args@[3]@ == "--html"@,
{
    let mut args: Vec<String> = Vec::new();
    args.push(script_path);
    args.push(url);
    args.push(browser_path);
    if include_html {
        args.push("--html".to_owned());
    }
    args
}

impl AuditSession {
    /// Starts a session: empty buffers, process not yet terminated. The
    /// just-spawned process's identifier is recorded in the registry,
    /// overwriting any stale value.
    pub fn start(pid: u32, registry: &mut ProcessRegistry) -> (s: AuditSession)
        ensures
            s.stdout@.len() == 0,
            s.stderr@.len() == 0,
            !s.finished,
            final(registry).slot() == Some(pid),
    {
        registry.record(pid);
        AuditSession { stdout: Vec::new(), stderr: Vec::new(), exit_code: None, finished: false }
    }

    /// Consumes one event of the process's stream: output chunks accumulate
    /// in order; the terminated event records the exit code, ends the run
    /// and clears the registry slot unconditionally.
    pub fn on_event(&mut self, event: ProcessEvent, registry: &mut ProcessRegistry)
        requires
            !old(self).finished,
        ensures
            (match event {
                ProcessEvent::Stdout(d) => {
                    &&& final(self).stdout@ == old(self).stdout@ + d@
                    &&& final(self).stderr@ == old(self).stderr@
                    &&& !final(self).finished
                    &&& final(self).exit_code == old(self).exit_code
                    &&& final(registry).slot() == old(registry).slot()
                },
                ProcessEvent::Stderr(d) => {
                    &&& final(self).stdout@ == old(self).stdout@
                    &&& final(self).stderr@ == old(self).stderr@ + d@
                    &&& !final(self).finished
                    &&& final(self).exit_code == old(self).exit_code
                    &&& final(registry).slot() == old(registry).slot()
                },
                ProcessEvent::Terminated(code) => {
                    &&& final(self).stdout@ == old(self).stdout@
                    &&& final(self).stderr@ == old(self).stderr@
                    &&& final(self).finished
                    &&& final(self).exit_code == code
                    &&& final(registry).slot() is None
                },
                ProcessEvent::Other => {
                    &&& final(self).stdout@ == old(self).stdout@
                    &&& final(self).stderr@ == old(self).stderr@
                    &&& !final(self).finished
                    &&& final(self).exit_code == old(self).exit_code
                    &&& final(registry).slot() == old(registry).slot()
                },
            }),
    {
        match event {
            ProcessEvent::Stdout(mut d) => {
                self.stdout.append(&mut d);
            },
            ProcessEvent::Stderr(mut d) => {
                self.stderr.append(&mut d);
            },
            ProcessEvent::Terminated(code) => {
                self.exit_code = code;
                self.finished = true;
                registry.clear();
            },
            ProcessEvent::Other => {},
        }
    }

    /// Locates the JSON payload in the accumulated stdout of a finished run.
    pub fn payload(&self) -> (r: Option<Vec<u8>>)
        requires
            self.finished,
        ensures
            r is Some <==> extracted_json(self.stdout@) is Some,
            r matches Some(v) ==> Some(v@) == extracted_json(self.stdout@),
    {
        extract_json(self.stdout.as_slice())
    }

    /// The failure of a run whose process exited non-zero: an error payload
    /// the caller parsed out of stdout wins; otherwise the exit code is
    /// surfaced with a snapshot of both output streams.
    pub fn conclude_failure(&self, error_payload: Option<(String, String)>) -> (e: SidecarError)
        requires
            self.finished,
            self.exit_code != Some(0i32),
        ensures
            (error_payload matches Some(p) ==> e == (SidecarError::AnalysisFailed {
                code: p.0,
                message: p.1,
            })),
            error_payload is None ==> (e matches SidecarError::ProcessFailed { code, stderr }
                && code == exit_or_fallback(self.exit_code) && stderr@ == failure_snapshot(
                self.stderr@,
                self.stdout@,
            )),
    {
        match error_payload {
            Some((code, message)) => SidecarError::AnalysisFailed { code, message },
            None => {
                let code = match self.exit_code {
                    Some(c) => c,
                    None => -1,
                };
                let mut snapshot = "stderr: ".to_owned();
                snapshot.append(lossy_utf8(self.stderr.as_slice()).as_str());
                snapshot.append(", stdout: ");
                snapshot.append(lossy_utf8(self.stdout.as_slice()).as_str());
                SidecarError::ProcessFailed { code, stderr: snapshot }
            },
        }
    }

    /// The parse error of a run that exited zero without any balanced JSON
    /// object in its output: the tool produced only diagnostic logs.
    pub fn missing_payload_error(&self) -> (e: SidecarError)
        requires
            self.finished,
            self.exit_code == Some(0i32),
            extracted_json(self.stdout@) is None,
        ensures
            (e matches SidecarError::ParseError(m) && m@ == "No valid JSON found in output: "@
                + lossy_utf8_of(self.stdout@)),
    {
        let mut m = "No valid JSON found in output: ".to_owned();
        m.append(lossy_utf8(self.stdout.as_slice()).as_str());
        SidecarError::ParseError(m)
    }

    /// Concludes a run that exited zero, given the payload located by
    /// `payload` and the caller's decoding of it: a success payload is
    /// finalized with a locally recomputed score; an embedded error payload
    /// surfaces as an analysis failure even though the exit code was zero; a
    /// payload that decodes as neither is a parse error carrying the
    /// decoder's own message.
    pub fn conclude_success(
        &self,
        json: &Vec<u8>,
        parse: Result<SidecarOutput, String>,
        timestamp: String,
    ) -> (r: Result<LighthouseResult, SidecarError>)
        requires
            self.finished,
            self.exit_code == Some(0i32),
            Some(json@) == extracted_json(self.stdout@),
        ensures
            (match parse {
                Ok(SidecarOutput::Success(raw)) => r matches Ok(out) && finalized(
                    out,
                    raw,
                    timestamp@,
                ),
                Ok(SidecarOutput::Error { code, message }) => r == Err::<
                    LighthouseResult,
                    SidecarError,
                >(SidecarError::AnalysisFailed { code, message }),
                Err(msg) => r matches Err(e) && e matches SidecarError::ParseError(m) && m@
                    == "JSON parse error: "@ + msg@ + ", json: "@ + lossy_utf8_of(json@),
            }),
    {
        match parse {
            Ok(SidecarOutput::Success(raw)) => Ok(finalize(raw, timestamp)),
            Ok(SidecarOutput::Error { code, message }) => Err(
                SidecarError::AnalysisFailed { code, message },
            ),
            Err(msg) => {
                let mut m = "JSON parse error: ".to_owned();
                m.append(msg.as_str());
                m.append(", json: ");
                m.append(lossy_utf8(json.as_slice()).as_str());
                Err(SidecarError::ParseError(m))
            },
        }
    }
}

} // verus!
