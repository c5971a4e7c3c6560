//! The browser measurement session.
//!
//! One analysis drives a fixed interaction sequence against a headless
//! browser page: open, instrument, navigate, settle, scroll, settle, read
//! two page measurements, stop the counters and close. The sequence, the
//! error each step surfaces, the two event counters and the final metric
//! assembly are defined and verified here; performing each step against a
//! live browser is the host's work.

use vstd::prelude::*;
use vstd::string::StringExecFns;
use crate::errors::BrowserError;
use crate::metrics::PageMetrics;

verus! {

/// Fixed settle wait between interaction steps, in seconds.
pub const SETTLE_WAIT_SECS: u64 = 3;

/// The steps of the fixed interaction sequence, in protocol order.
#[derive(Debug, Clone, Copy, PartialEq, Eq, Structural)]
pub enum SessionStep {
    /// Open a blank page.
    OpenPage,
    /// Enable network event instrumentation.
    EnableNetwork,
    /// Subscribe the two event counters, before navigation begins.
    StartCounters,
    /// Navigate to the analyzed URL.
    Navigate,
    /// First fixed settle wait.
    SettleFirst,
    /// Execute the scroll-to-bottom script.
    Scroll,
    /// Second fixed settle wait.
    SettleSecond,
    /// Evaluate the DOM element count (SVG-internal markup excluded).
    EvalDomCount,
    /// Evaluate the serialized outer-HTML byte size.
    EvalHtmlSize,
    /// Stop both counters and read their final values.
    StopCounters,
    /// Close the page; also taken on every failure exit.
    ClosePage,
    /// The session is over.
    Done,
}

/// The step that follows each step of the sequence.
pub open spec fn next_step(s: SessionStep) -> SessionStep {
    match s {
        SessionStep::OpenPage => SessionStep::EnableNetwork,
        SessionStep::EnableNetwork => SessionStep::StartCounters,
        SessionStep::StartCounters => SessionStep::Navigate,
        SessionStep::Navigate => SessionStep::SettleFirst,
        SessionStep::SettleFirst => SessionStep::Scroll,
        SessionStep::Scroll => SessionStep::SettleSecond,
        SessionStep::SettleSecond => SessionStep::EvalDomCount,
        SessionStep::EvalDomCount => SessionStep::EvalHtmlSize,
        SessionStep::EvalHtmlSize => SessionStep::StopCounters,
        SessionStep::StopCounters => SessionStep::ClosePage,
        SessionStep::ClosePage => SessionStep::Done,
        SessionStep::Done => SessionStep::Done,
    }
}

impl SessionStep {
    /// The first step of every session.
    pub fn first() -> (s: SessionStep)
        ensures
            s == SessionStep::OpenPage,
    {
        SessionStep::OpenPage
    }

    /// Advances to the next step of the sequence.
    pub fn next(&self) -> (n: SessionStep)
        ensures
            n == next_step(*self),
    {
        match self {
            SessionStep::OpenPage => SessionStep::EnableNetwork,
            SessionStep::EnableNetwork => SessionStep::StartCounters,
            SessionStep::StartCounters => SessionStep::Navigate,
            SessionStep::Navigate => SessionStep::SettleFirst,
            SessionStep::SettleFirst => SessionStep::Scroll,
            SessionStep::Scroll => SessionStep::SettleSecond,
            SessionStep::SettleSecond => SessionStep::EvalDomCount,
            SessionStep::EvalDomCount => SessionStep::EvalHtmlSize,
            SessionStep::EvalHtmlSize => SessionStep::StopCounters,
            SessionStep::StopCounters => SessionStep::ClosePage,
            SessionStep::ClosePage => SessionStep::Done,
            SessionStep::Done => SessionStep::Done,
        }
    }

    /// The typed error a failure of this step surfaces; `None` for the steps
    /// that cannot fail (the waits, the counter teardown, the close, whose
    /// errors are ignored). Any failure aborts the whole session: no partial
    /// metrics escape, and the page is still closed.
    pub fn failure(&self, detail: String) -> (e: Option<BrowserError>)
        ensures
            (match *self {
                SessionStep::OpenPage => e == Some(BrowserError::PageCreationFailed(detail)),
                SessionStep::EnableNetwork => e == Some(BrowserError::CdpError(detail)),
                SessionStep::StartCounters => e == Some(BrowserError::CdpError(detail)),
                SessionStep::Navigate => e == Some(BrowserError::NavigationFailed(detail)),
                SessionStep::Scroll => e == Some(BrowserError::JavaScriptError(detail)),
                SessionStep::EvalDomCount => e == Some(BrowserError::JavaScriptError(detail)),
                SessionStep::EvalHtmlSize => e == Some(BrowserError::JavaScriptError(detail)),
                _ => e is None,
            }),
    {
        match self {
            SessionStep::OpenPage => Some(BrowserError::PageCreationFailed(detail)),
            SessionStep::EnableNetwork => Some(BrowserError::CdpError(detail)),
            SessionStep::StartCounters => Some(BrowserError::CdpError(detail)),
            SessionStep::Navigate => Some(BrowserError::NavigationFailed(detail)),
            SessionStep::Scroll => Some(BrowserError::JavaScriptError(detail)),
            SessionStep::EvalDomCount => Some(BrowserError::JavaScriptError(detail)),
            SessionStep::EvalHtmlSize => Some(BrowserError::JavaScriptError(detail)),
            _ => None,
        }
    }
}

/// The two single-writer counters that observe network activity while a page
/// settles: one counts request-initiated events, one accumulates the encoded
/// byte length of load-finished events. Once stopped, no further increment is
/// accepted; each saturates at its type's limit rather than wrap.
#[derive(Debug, Clone, Copy, PartialEq, Eq, Structural)]
pub struct NetworkCounters {
    /// Number of request-initiated events observed.
    pub requests: u32,
    /// Accumulated encoded byte length of load-finished events.
    pub bytes: u64,
    /// Whether the counters have been stopped.
    pub stopped: bool,
}

impl NetworkCounters {
    /// Fresh counters, at zero and running.
    pub fn new() -> (c: NetworkCounters)
        ensures
            c.requests == 0,
            c.bytes == 0,
            !c.stopped,
    {
        NetworkCounters { requests: 0, bytes: 0, stopped: false }
    }

    /// Counts one request-initiated event; ignored after the stop.
    pub fn record_request(&mut self)
        ensures
            final(self).bytes == old(self).bytes,
            final(self).stopped == old(self).stopped,
            old(self).stopped ==> final(self).requests == old(self).requests,
            !old(self).stopped && old(self).requests < u32::MAX ==> final(self).requests == old(
                self,
            ).requests + 1,
            !old(self).stopped && old(self).requests == u32::MAX ==> final(self).requests
                == u32::MAX,
    {
        if !self.stopped && self.requests < u32::MAX {
            self.requests = self.requests + 1;
        }
    }

    /// Accumulates the encoded byte length of one load-finished event;
    /// ignored after the stop.
    pub fn record_bytes(&mut self, n: u64)
        ensures
            final(self).requests == old(self).requests,
            final(self).stopped == old(self).stopped,
            old(self).stopped ==> final(self).bytes == old(self).bytes,
            !old(self).stopped && old(self).bytes + n <= u64::MAX ==> final(self).bytes == old(
                self,
            ).bytes + n,
            !old(self).stopped && old(self).bytes + n > u64::MAX ==> final(self).bytes
                == u64::MAX,
    {
        if !self.stopped {
            if n <= u64::MAX - self.bytes {
                self.bytes = self.bytes + n;
            } else {
                self.bytes = u64::MAX;
            }
        }
    }

    /// Stops both counters and reads their final values in one step: the
    /// read cannot race a further increment.
    pub fn stop(&mut self) -> (r: (u32, u64))
        ensures
            final(self).stopped,
            final(self).requests == old(self).requests,
            final(self).bytes == old(self).bytes,
            r.0 == old(self).requests,
            r.1 == old(self).bytes,
    {
        self.stopped = true;
        (self.requests, self.bytes)
    }
}

/// Assembles the session's metrics: the total size is the serialized HTML
/// size plus the accumulated network byte length, converted to hundredths of
/// a kilobyte at 1024 bytes per kilobyte.
pub struct MetricsCollector;

impl MetricsCollector {
    /// Builds the final page metrics from the four measurements.
    pub fn finalize_metrics(dom_count: u32, requests: u32, network_bytes: u64, html_size: u64)
        -> (m: PageMetrics)
        requires
            network_bytes + html_size <= u64::MAX / 100,
        ensures
            m.dom_elements == dom_count,
            m.requests == requests,
            m.size_kb_centi == (network_bytes + html_size) * 100 / 1024,
    {
        let size_bytes = network_bytes + html_size;
        PageMetrics::new(dom_count, requests, size_bytes * 100 / 1024)
    }
}

/// Launches a headless browser at a fixed executable path; the launch itself
/// is the host's work.
#[derive(Debug, Clone, PartialEq, Eq)]
pub struct BrowserLauncher {
    /// Path of the browser executable.
    pub chrome_path: String,
}

impl BrowserLauncher {
    /// Creates a launcher for the given browser executable.
    pub fn new(chrome_path: String) -> (l: BrowserLauncher)
        ensures
            l.chrome_path == chrome_path,
    {
        BrowserLauncher { chrome_path }
    }

    /// Resolves the headless-shell executable inside a resource directory.
    pub fn resolve_chrome_path(resource_dir: &str, platform: crate::paths::Platform) -> (p:
        String)
        ensures
            p@ == resource_dir@ + "/chrome-headless-shell/"@ + crate::paths::chrome_exe_name(
                platform,
            ),
    {
        let mut p = resource_dir.to_owned();
        p.append("/chrome-headless-shell/");
        p.append(crate::paths::chrome_exe(platform));
        p
    }
}

} // verus!
