//! Locating the JSON payload inside a noisy output stream.
//!
//! An external tool writes diagnostic text plus exactly one balanced JSON
//! object to its standard output. The extractor scans byte by byte from the
//! first opening brace, tracking quoted-string state (a quote toggles in/out
//! of a string unless escaped by a preceding unescaped backslash) and brace
//! depth only outside of strings; the object is complete when the depth
//! returns to zero. All significant bytes are ASCII, so byte-level scanning
//! is exact on UTF-8 input.

use vstd::prelude::*;
use vstd::slice::{slice_subrange, slice_to_vec};

verus! {

/// Backslash byte.
pub const BACKSLASH: u8 = 92;

/// Double-quote byte.
pub const QUOTE: u8 = 34;

/// Opening-brace byte.
pub const LBRACE: u8 = 123;

/// Closing-brace byte.
pub const RBRACE: u8 = 125;

/// Index of the first opening brace at or after `i`, if any.
pub open spec fn first_lbrace(s: Seq<u8>, i: int) -> Option<int>
    decreases s.len() - i,
{
    if i < 0 || i >= s.len() {
        None
    } else if s[i] == LBRACE {
        Some(i)
    } else {
        first_lbrace(s, i + 1)
    }
}

/// Index of the closing brace that returns the depth to zero, scanning from
/// `i` with `depth` open braces, string state `in_str` and a pending escape
/// `esc`; `None` when the stream ends first.
pub open spec fn scan_end(s: Seq<u8>, i: int, depth: int, in_str: bool, esc: bool) -> Option<
    int,
>
    decreases s.len() - i,
{
    if i < 0 || i >= s.len() {
        None
    } else {
        let c = s[i];
        if esc {
            scan_end(s, i + 1, depth, in_str, false)
        } else if c == BACKSLASH && in_str {
            scan_end(s, i + 1, depth, in_str, true)
        } else if c == QUOTE {
            scan_end(s, i + 1, depth, !in_str, false)
        } else if c == LBRACE && !in_str {
            scan_end(s, i + 1, depth + 1, in_str, false)
        } else if c == RBRACE && !in_str {
            if depth == 1 {
                Some(i)
            } else {
                scan_end(s, i + 1, depth - 1, in_str, false)
            }
        } else {
            scan_end(s, i + 1, depth, in_str, false)
        }
    }
}

/// Half-open range of the first balanced top-level object in `s`, if any.
pub open spec fn json_object_range(s: Seq<u8>) -> Option<(int, int)> {
    match first_lbrace(s, 0) {
        None => None,
        Some(start) => match scan_end(s, start + 1, 1, false, false) {
            None => None,
            Some(end) => Some((start, end + 1)),
        },
    }
}

/// The bytes of the first balanced top-level object in `s`, if any.
pub open spec fn extracted_json(s: Seq<u8>) -> Option<Seq<u8>> {
    match json_object_range(s) {
        None => None,
        Some((start, end)) => Some(s.subrange(start, end)),
    }
}

/// Extracts the first balanced top-level JSON object from `output`.
///
/// Returns `None` exactly when `output` holds no such object, e.g. when the
/// tool produced only diagnostic logs.
pub fn extract_json(output: &[u8]) -> (r: Option<Vec<u8>>)
    ensures
        r is Some <==> extracted_json(output@) is Some,
        r matches Some(v) ==> Some(v@) == extracted_json(output@),
{
    let n = output.len();

    let mut j: usize = 0;
    while j < n && output[j] != LBRACE
        invariant
            0 <= j <= n,
            n == output@.len(),
            first_lbrace(output@, 0) == first_lbrace(output@, j as int),
        decreases n - j,
    {
        j += 1;
    }
    if j == n {
        return None;
    }
    let start = j;

    let mut i: usize = start + 1;
    let mut depth: usize = 1;
    let mut in_str: bool = false;
    let mut esc: bool = false;
    while i < n
        invariant
            start < i <= n,
            n == output@.len(),
            depth >= 1,
            scan_end(output@, start + 1, 1, false, false) == scan_end(
                output@,
                i as int,
                depth as int,
                in_str,
                esc,
            ),
            first_lbrace(output@, 0) == Some(start as int),
        decreases n - i,
    {
        let c = output[i];
        if esc {
            esc = false;
        } else if c == BACKSLASH && in_str {
            esc = true;
        } else if c == QUOTE {
            in_str = !in_str;
        } else if c == LBRACE && !in_str {
            if depth == usize::MAX {
                // More open braces than any buffer can hold bytes: the
                // stream cannot close them, so no object completes.
                proof {
                    lemma_scan_end_deep_none(output@, i as int, depth as int, in_str, esc);
                }
                return None;
            }
            depth += 1;
        } else if c == RBRACE && !in_str {
            if depth == 1 {
                return Some(slice_to_vec(slice_subrange(output, start, i + 1)));
            }
            depth -= 1;
        }
        i += 1;
    }
    None
}

proof fn lemma_first_lbrace_found(s: Seq<u8>, i: int)
    requires
        first_lbrace(s, i) is Some,
    ensures
        (first_lbrace(s, i) matches Some(j) && i <= j < s.len() && s[j] == LBRACE),
    decreases s.len() - i,
{
    if 0 <= i < s.len() && s[i] != LBRACE {
        lemma_first_lbrace_found(s, i + 1);
    }
}

proof fn lemma_scan_end_rbrace(s: Seq<u8>, i: int, depth: int, in_str: bool, esc: bool)
    requires
        scan_end(s, i, depth, in_str, esc) is Some,
    ensures
        (scan_end(s, i, depth, in_str, esc) matches Some(j) && i <= j < s.len() && s[j]
            == RBRACE),
    decreases s.len() - i,
{
    if 0 <= i < s.len() {
        let c = s[i];
        if esc {
            lemma_scan_end_rbrace(s, i + 1, depth, in_str, false);
        } else if c == BACKSLASH && in_str {
            lemma_scan_end_rbrace(s, i + 1, depth, in_str, true);
        } else if c == QUOTE {
            lemma_scan_end_rbrace(s, i + 1, depth, !in_str, false);
        } else if c == LBRACE && !in_str {
            lemma_scan_end_rbrace(s, i + 1, depth + 1, in_str, false);
        } else if c == RBRACE && !in_str {
            if depth != 1 {
                lemma_scan_end_rbrace(s, i + 1, depth - 1, in_str, false);
            }
        } else {
            lemma_scan_end_rbrace(s, i + 1, depth, in_str, false);
        }
    }
}

/// Law: an extracted payload is delimited by the braces that opened and
/// balanced it.
pub proof fn lemma_extracted_json_shape(s: Seq<u8>)
    requires
        extracted_json(s) is Some,
    ensures
        (extracted_json(s) matches Some(j) && j.len() >= 2 && j[0] == LBRACE && j[j.len() - 1]
            == RBRACE),
{
    let start = first_lbrace(s, 0)->Some_0;
    lemma_first_lbrace_found(s, 0);
    lemma_scan_end_rbrace(s, start + 1, 1, false, false);
}

/// A scan whose open depth exceeds the bytes left can never close them.
proof fn lemma_scan_end_deep_none(s: Seq<u8>, i: int, depth: int, in_str: bool, esc: bool)
    requires
        depth > s.len() - i,
    ensures
        scan_end(s, i, depth, in_str, esc) is None,
    decreases s.len() - i,
{
    if 0 <= i < s.len() {
        let c = s[i];
        if esc {
            lemma_scan_end_deep_none(s, i + 1, depth, in_str, false);
        } else if c == BACKSLASH && in_str {
            lemma_scan_end_deep_none(s, i + 1, depth, in_str, true);
        } else if c == QUOTE {
            lemma_scan_end_deep_none(s, i + 1, depth, !in_str, false);
        } else if c == LBRACE && !in_str {
            lemma_scan_end_deep_none(s, i + 1, depth + 1, in_str, false);
        } else if c == RBRACE && !in_str {
            lemma_scan_end_deep_none(s, i + 1, depth - 1, in_str, false);
        } else {
            lemma_scan_end_deep_none(s, i + 1, depth, in_str, false);
        }
    }
}

} // verus!
