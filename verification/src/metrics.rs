//! Raw page metrics.

use vstd::prelude::*;

verus! {

/// Metrics collected from one analysis of a web page.
///
/// Produced once per analysis and then only read. The transfer size is held
/// in hundredths of a kilobyte so that the scoring pipeline is exact integer
/// arithmetic.
#[derive(Debug, Clone, Copy, PartialEq, Eq, Structural)]
pub struct PageMetrics {
    /// Number of DOM elements.
    pub dom_elements: u32,
    /// Number of HTTP requests.
    pub requests: u32,
    /// Transfer size in hundredths of a kilobyte.
    pub size_kb_centi: u64,
}

impl PageMetrics {
    /// Creates metrics from the three raw counters.
    pub fn new(dom_elements: u32, requests: u32, size_kb_centi: u64) -> (m: PageMetrics)
        ensures
            m.dom_elements == dom_elements,
            m.requests == requests,
            m.size_kb_centi == size_kb_centi,
    {
        PageMetrics { dom_elements, requests, size_kb_centi }
    }
}

/// Types of web resources.
#[derive(Debug, Clone, Copy, PartialEq, Eq, Structural)]
pub enum ResourceType {
    /// HTML document.
    Document,
    /// JavaScript file.
    Script,
    /// CSS stylesheet.
    Stylesheet,
    /// Image file.
    Image,
    /// Font file.
    Font,
    /// Media file (video, audio).
    Media,
    /// XHR/Fetch request.
    Xhr,
    /// WebSocket connection.
    WebSocket,
    /// Other resource type.
    Other,
}

impl Default for ResourceType {
    /// The fallback resource type.
    fn default() -> (r: ResourceType)
        ensures
            r == ResourceType::Other,
    {
        ResourceType::Other
    }
}

/// Metrics for a single resource fetched while a page loaded.
#[derive(Debug, Clone)]
pub struct ResourceMetrics {
    /// Resource URL.
    pub url: String,
    /// Resource type (script, stylesheet, image, ...).
    pub resource_type: ResourceType,
    /// Size in bytes.
    pub size: u64,
    /// Transfer size in bytes (compressed).
    pub transfer_size: u64,
    /// Load duration in milliseconds.
    pub duration_ms: u64,
}

} // verus!
