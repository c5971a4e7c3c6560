//! Error types of the two analysis paths.
//!
//! Every error is terminal for the current analysis and carries enough
//! context to be surfaced verbatim as one human-readable string; `message`
//! renders that string exactly.

use vstd::prelude::*;
use vstd::string::StringExecFns;
use crate::text::{dec_seq, i32_to_string, int_seq, u64_to_string};

verus! {

/// Errors of the browser measurement session.
#[derive(Debug, Clone, PartialEq, Eq)]
pub enum BrowserError {
    /// Browser executable not found on the system.
    NotFound(String),
    /// Failed to launch the browser.
    LaunchFailed(String),
    /// Failed to create a new page.
    PageCreationFailed(String),
    /// Navigation failed.
    NavigationFailed(String),
    /// Navigation timed out, in milliseconds.
    NavigationTimeout(u64),
    /// Page load error.
    PageLoadFailed(String),
    /// Remote-debugging protocol error.
    CdpError(String),
    /// DevTools protocol error.
    DevToolsError(String),
    /// JavaScript execution error.
    JavaScriptError(String),
    /// Invalid URL provided.
    InvalidUrl(String),
}

/// The human-readable rendering of a browser error.
pub open spec fn browser_error_message(e: BrowserError) -> Seq<char> {
    match e {
        BrowserError::NotFound(d) => "Chrome browser not found: "@ + d@,
        BrowserError::LaunchFailed(d) => "Failed to launch browser: "@ + d@,
        BrowserError::PageCreationFailed(d) => "Failed to create page: "@ + d@,
        BrowserError::NavigationFailed(d) => "Navigation failed: "@ + d@,
        BrowserError::NavigationTimeout(ms) => "Navigation timeout after "@ + dec_seq(
            ms as int,
        ) + "ms"@,
        BrowserError::PageLoadFailed(d) => "Page load failed: "@ + d@,
        BrowserError::CdpError(d) => "CDP error: "@ + d@,
        BrowserError::DevToolsError(d) => "DevTools protocol error: "@ + d@,
        BrowserError::JavaScriptError(d) => "JavaScript error: "@ + d@,
        BrowserError::InvalidUrl(d) => "Invalid URL: "@ + d@,
    }
}

impl BrowserError {
    /// Renders the error as one human-readable string.
    pub fn message(&self) -> (s: String)
        ensures
            s@ == browser_error_message(*self),
    {
        match self {
            BrowserError::NotFound(d) => {
                let mut s = "Chrome browser not found: ".to_owned();
                s.append(d.as_str());
                s
            },
            BrowserError::LaunchFailed(d) => {
                let mut s = "Failed to launch browser: ".to_owned();
                s.append(d.as_str());
                s
            },
            BrowserError::PageCreationFailed(d) => {
                let mut s = "Failed to create page: ".to_owned();
                s.append(d.as_str());
                s
            },
            BrowserError::NavigationFailed(d) => {
                let mut s = "Navigation failed: ".to_owned();
                s.append(d.as_str());
                s
            },
            BrowserError::NavigationTimeout(ms) => {
                let mut s = "Navigation timeout after ".to_owned();
                s.append(u64_to_string(*ms).as_str());
                s.append("ms");
                s
            },
            BrowserError::PageLoadFailed(d) => {
                let mut s = "Page load failed: ".to_owned();
                s.append(d.as_str());
                s
            },
            BrowserError::CdpError(d) => {
                let mut s = "CDP error: ".to_owned();
                s.append(d.as_str());
                s
            },
            BrowserError::DevToolsError(d) => {
                let mut s = "DevTools protocol error: ".to_owned();
                s.append(d.as_str());
                s
            },
            BrowserError::JavaScriptError(d) => {
                let mut s = "JavaScript error: ".to_owned();
                s.append(d.as_str());
                s
            },
            BrowserError::InvalidUrl(d) => {
                let mut s = "Invalid URL: ".to_owned();
                s.append(d.as_str());
                s
            },
        }
    }
}

/// Errors of the external audit orchestrator.
#[derive(Debug, Clone, PartialEq, Eq)]
pub enum SidecarError {
    /// Audit tool binary not found.
    BinaryNotFound(String),
    /// Failed to spawn the audit process.
    SpawnFailed(String),
    /// Audit process exited with a non-zero code and no embedded error.
    ProcessFailed {
        /// Exit code of the process.
        code: i32,
        /// Snapshot of the process output streams.
        stderr: String,
    },
    /// Timed out waiting for the audit process, in milliseconds.
    Timeout(u64),
    /// Failed to locate or parse the tool's output payload.
    ParseError(String),
    /// Communication error with the audit process.
    CommunicationError(String),
    /// The tool itself reported a failure.
    AnalysisFailed {
        /// Error code from the tool.
        code: String,
        /// Error message from the tool.
        message: String,
    },
}

/// The human-readable rendering of an orchestrator error.
pub open spec fn sidecar_error_message(e: SidecarError) -> Seq<char> {
    match e {
        SidecarError::BinaryNotFound(d) => "Sidecar binary not found: "@ + d@,
        SidecarError::SpawnFailed(d) => "Failed to spawn sidecar: "@ + d@,
        SidecarError::ProcessFailed { code, stderr } => "Sidecar process failed with exit code "@
            + int_seq(code as int) + ": "@ + stderr@,
        SidecarError::Timeout(ms) => "Sidecar timeout after "@ + dec_seq(ms as int) + "ms"@,
        SidecarError::ParseError(d) => "Failed to parse sidecar output: "@ + d@,
        SidecarError::CommunicationError(d) => "Sidecar communication error: "@ + d@,
        SidecarError::AnalysisFailed { code, message } => "Analysis failed: ["@ + code@ + "] "@
            + message@,
    }
}

impl SidecarError {
    /// Renders the error as one human-readable string.
    pub fn message(&self) -> (s: String)
        ensures
            s@ == sidecar_error_message(*self),
    {
        match self {
            SidecarError::BinaryNotFound(d) => {
                let mut s = "Sidecar binary not found: ".to_owned();
                s.append(d.as_str());
                s
            },
            SidecarError::SpawnFailed(d) => {
                let mut s = "Failed to spawn sidecar: ".to_owned();
                s.append(d.as_str());
                s
            },
            SidecarError::ProcessFailed { code, stderr } => {
                let mut s = "Sidecar process failed with exit code ".to_owned();
                s.append(i32_to_string(*code).as_str());
                s.append(": ");
                s.append(stderr.as_str());
                s
            },
            SidecarError::Timeout(ms) => {
                let mut s = "Sidecar timeout after ".to_owned();
                s.append(u64_to_string(*ms).as_str());
                s.append("ms");
                s
            },
            SidecarError::ParseError(d) => {
                let mut s = "Failed to parse sidecar output: ".to_owned();
                s.append(d.as_str());
                s
            },
            SidecarError::CommunicationError(d) => {
                let mut s = "Sidecar communication error: ".to_owned();
                s.append(d.as_str());
                s
            },
            SidecarError::AnalysisFailed { code, message } => {
                let mut s = "Analysis failed: [".to_owned();
                s.append(code.as_str());
                s.append("] ");
                s.append(message.as_str());
                s
            },
        }
    }
}

/// Unified application error.
#[derive(Debug, Clone, PartialEq, Eq)]
pub enum AppError {
    /// Browser-related errors.
    Browser(BrowserError),
    /// Audit-process errors.
    Sidecar(SidecarError),
    /// I/O errors, by their rendered message.
    Io(String),
    /// Serialization errors, by their rendered message.
    Serialization(String),
    /// Configuration errors.
    Config(String),
}

/// The human-readable rendering of an application error.
pub open spec fn app_error_message(e: AppError) -> Seq<char> {
    match e {
        AppError::Browser(b) => browser_error_message(b),
        AppError::Sidecar(s) => sidecar_error_message(s),
        AppError::Io(d) => "IO error: "@ + d@,
        AppError::Serialization(d) => "Serialization error: "@ + d@,
        AppError::Config(d) => "Configuration error: "@ + d@,
    }
}

/// The frontend error code of an application error.
pub open spec fn app_error_code(e: AppError) -> Seq<char> {
    match e {
        AppError::Browser(_) => "BROWSER_ERROR"@,
        AppError::Sidecar(_) => "SIDECAR_ERROR"@,
        AppError::Io(_) => "IO_ERROR"@,
        AppError::Serialization(_) => "SERIALIZATION_ERROR"@,
        AppError::Config(_) => "CONFIG_ERROR"@,
    }
}

impl AppError {
    /// Renders the error as one human-readable string.
    pub fn message(&self) -> (s: String)
        ensures
            s@ == app_error_message(*self),
    {
        match self {
            AppError::Browser(b) => b.message(),
            AppError::Sidecar(e) => e.message(),
            AppError::Io(d) => {
                let mut s = "IO error: ".to_owned();
                s.append(d.as_str());
                s
            },
            AppError::Serialization(d) => {
                let mut s = "Serialization error: ".to_owned();
                s.append(d.as_str());
                s
            },
            AppError::Config(d) => {
                let mut s = "Configuration error: ".to_owned();
                s.append(d.as_str());
                s
            },
        }
    }
}

/// Error shape handed to the host's command surface.
#[derive(Debug, Clone, PartialEq, Eq)]
pub struct ErrorResponse {
    /// Rendered error message.
    pub message: String,
    /// Error code for frontend handling.
    pub code: String,
}

impl ErrorResponse {
    /// Folds an application error into the frontend shape.
    pub fn of_app_error(error: &AppError) -> (r: ErrorResponse)
        ensures
            r.message@ == app_error_message(*error),
            r.code@ == app_error_code(*error),
    {
        let code = match error {
            AppError::Browser(_) => "BROWSER_ERROR",
            AppError::Sidecar(_) => "SIDECAR_ERROR",
            AppError::Io(_) => "IO_ERROR",
            AppError::Serialization(_) => "SERIALIZATION_ERROR",
            AppError::Config(_) => "CONFIG_ERROR",
        };
        ErrorResponse { message: error.message(), code: code.to_owned() }
    }
}

} // verus!
