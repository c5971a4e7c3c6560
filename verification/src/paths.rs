//! Cross-platform path construction.
//!
//! Paths are plain strings joined with a forward slash. What depends on the
//! machine — the platform's local-data directory — comes through one trusted
//! call; everything built on top of it is verified. Functions that in the
//! original program choose by compile target take the platform and
//! architecture as values instead.

use vstd::prelude::*;
use vstd::string::{StringExecFns, StringSliceAdditionalSpecFns};

verus! {

/// The operating systems the paths differ on.
#[derive(Debug, Clone, Copy, PartialEq, Eq, Structural)]
pub enum Platform {
    /// Windows.
    Windows,
    /// macOS.
    MacOs,
    /// Linux.
    Linux,
}

/// The processor architectures a browser build exists for.
#[derive(Debug, Clone, Copy, PartialEq, Eq, Structural)]
pub enum Arch {
    /// 64-bit x86.
    X64,
    /// 64-bit ARM.
    Arm64,
    /// Anything else.
    Other,
}

/// The file name of the headless-shell executable on a platform.
pub open spec fn chrome_exe_name(platform: Platform) -> Seq<char> {
    match platform {
        Platform::Windows => "chrome-headless-shell.exe"@,
        Platform::MacOs => "chrome-headless-shell"@,
        Platform::Linux => "chrome-headless-shell"@,
    }
}

/// The target triple of a platform and architecture; "unknown" where no
/// browser build exists.
pub open spec fn target_triple(platform: Platform, arch: Arch) -> Seq<char> {
    match (platform, arch) {
        (Platform::Windows, Arch::X64) => "x86_64-pc-windows-msvc"@,
        (Platform::Linux, Arch::X64) => "x86_64-unknown-linux-gnu"@,
        (Platform::MacOs, Arch::X64) => "x86_64-apple-darwin"@,
        (Platform::MacOs, Arch::Arm64) => "aarch64-apple-darwin"@,
        _ => "unknown"@,
    }
}

/// The headless-shell executable file name for a platform.
pub fn chrome_exe(platform: Platform) -> (r: &'static str)
    ensures
        r@ == chrome_exe_name(platform),
{
    match platform {
        Platform::Windows => "chrome-headless-shell.exe",
        Platform::MacOs => "chrome-headless-shell",
        Platform::Linux => "chrome-headless-shell",
    }
}

/// The target triple of a platform and architecture.
pub fn get_target_triple(platform: Platform, arch: Arch) -> (r: &'static str)
    ensures
        r@ == target_triple(platform, arch),
{
    match (platform, arch) {
        (Platform::Windows, Arch::X64) => "x86_64-pc-windows-msvc",
        (Platform::Linux, Arch::X64) => "x86_64-unknown-linux-gnu",
        (Platform::MacOs, Arch::X64) => "x86_64-apple-darwin",
        (Platform::MacOs, Arch::Arm64) => "aarch64-apple-darwin",
        _ => "unknown",
    }
}

/// Resolves the headless-shell executable inside its directory.
pub fn resolve_chrome_from_dir(chrome_dir: &str, platform: Platform) -> (p: String)
    ensures
        p@ == chrome_dir@ + "/"@ + chrome_exe_name(platform),
{
    let mut p = chrome_dir.to_owned();
    p.append("/");
    p.append(chrome_exe(platform));
    p
}

/// Resolves the headless-shell executable from a resource directory that
/// holds it under a plain "chrome" subdirectory.
pub fn resolve_chrome_path_from_resource_dir(resource_dir: &str, platform: Platform) -> (p:
    String)
    ensures
        p@ == resource_dir@ + "/chrome"@ + "/"@ + chrome_exe_name(platform),
{
    let mut dir = resource_dir.to_owned();
    dir.append("/chrome");
    resolve_chrome_from_dir(dir.as_str(), platform)
}

/// The per-target browser directory under a base directory: the installed
/// layout keeps one headless-shell build per target triple.
pub fn chrome_triple_dir(base: &str, triple: &str) -> (p: String)
    ensures
        p@ == base@ + "/chrome-headless-shell-"@ + triple@,
{
    let mut p = base.to_owned();
    p.append("/chrome-headless-shell-");
    p.append(triple);
    p
}

/// The audit tool's entry script inside a resource directory.
pub fn lighthouse_script_path(resource_dir: &str) -> (p: String)
    ensures
        p@ == resource_dir@ + "/lighthouse-sidecar/node-main.mjs"@,
{
    let mut p = resource_dir.to_owned();
    p.append("/lighthouse-sidecar/node-main.mjs");
    p
}

/// Relies on dirs::data_local_dir: the platform's local-data directory, if
/// one is defined for the current user. Nothing is promised of the value.
#[verifier::external_body]
fn data_local_dir_string() -> Option<String> {
    dirs::data_local_dir().map(|p| p.to_string_lossy().into_owned())
}

/// The fixed relations between an application-path set and its data
/// directory.
pub open spec fn app_paths_wf(p: AppPaths) -> bool {
    &&& p.cache_dir@ == p.data_dir@ + "/cache"@
    &&& p.logs_dir@ == p.data_dir@ + "/logs"@
    &&& p.config_file@ == p.data_dir@ + "/config.json"@
    &&& p.data_dir@.len() > 0
}

/// Application paths for data storage.
#[derive(Debug, Clone, PartialEq, Eq)]
pub struct AppPaths {
    /// Application data directory.
    pub data_dir: String,
    /// Cache directory for temporary files.
    pub cache_dir: String,
    /// Logs directory.
    pub logs_dir: String,
    /// Configuration file path.
    pub config_file: String,
}

impl AppPaths {
    /// Builds the path set rooted at a given data directory.
    pub fn from_data_dir(data_dir: String) -> (p: AppPaths)
        requires
            data_dir@.len() > 0,
        ensures
            p.data_dir == data_dir,
            app_paths_wf(p),
    {
        let mut cache_dir = data_dir.clone();
        cache_dir.append("/cache");
        let mut logs_dir = data_dir.clone();
        logs_dir.append("/logs");
        let mut config_file = data_dir.clone();
        config_file.append("/config.json");
        AppPaths { data_dir, cache_dir, logs_dir, config_file }
    }

    /// Creates the application paths under the platform's local-data
    /// directory; `None` when the machine defines none.
    pub fn new() -> (r: Option<AppPaths>)
        ensures
            (r matches Some(p) ==> app_paths_wf(p)),
    {
        match data_local_dir_string() {
            None => None,
            Some(base) => {
                let mut data_dir = base;
                data_dir.append("/ecoindex-analyzer");
                proof {
                    reveal_strlit("/ecoindex-analyzer");
                }
                Some(AppPaths::from_data_dir(data_dir))
            },
        }
    }

    /// The path of the analysis-history file.
    pub fn history_file(&self) -> (p: String)
        ensures
            p@ == self.data_dir@ + "/history.json"@,
    {
        let mut p = self.data_dir.clone();
        p.append("/history.json");
        p
    }

    /// The cache-file path for a URL: a hash of the URL names the file.
    pub fn cache_file_for_url(&self, url: &str) -> (p: String)
        ensures
            p@ == self.cache_dir@ + "/"@ + hex_seq(url_hash(url.spec_bytes()) as int, 16)
                + ".json"@,
    {
        let hash = hash_url(url);
        let mut p = self.cache_dir.clone();
        p.append("/");
        p.append(hex_string(hash, 16).as_str());
        p.append(".json");
        p
    }
}

impl Default for AppPaths {
    /// The platform paths, or paths under the working directory when the
    /// machine defines no local-data directory.
    fn default() -> (p: AppPaths)
        ensures
            app_paths_wf(p),
    {
        match AppPaths::new() {
            Some(p) => p,
            None => {
                proof {
                    reveal_strlit(".");
                }
                AppPaths::from_data_dir(".".to_owned())
            },
        }
    }
}

/// The URL hash: a byte-wise fold, multiplying by 31 and adding each byte,
/// wrapping at 64 bits.
pub open spec fn url_hash(b: Seq<u8>) -> u64
    decreases b.len(),
{
    if b.len() == 0 {
        0u64
    } else {
        url_hash(b.drop_last()).wrapping_mul(31u64).wrapping_add(b.last() as u64)
    }
}

/// Hashes a URL for use as a cache-file name.
pub fn hash_url(url: &str) -> (h: u64)
    ensures
        h == url_hash(url.spec_bytes()),
{
    let bytes = url.as_bytes();
    let n = bytes.len();
    let mut h: u64 = 0;
    let mut i: usize = 0;
    while i < n
        invariant
            0 <= i <= n,
            n == bytes@.len(),
            bytes@ == url.spec_bytes(),
            h == url_hash(bytes@.subrange(0, i as int)),
        decreases n - i,
    {
        proof {
            assert(bytes@.subrange(0, i + 1).drop_last() =~= bytes@.subrange(0, i as int));
            assert(bytes@.subrange(0, i + 1).last() == bytes@[i as int]);
        }
        h = h.wrapping_mul(31).wrapping_add(bytes[i] as u64);
        i += 1;
    }
    proof {
        assert(bytes@.subrange(0, n as int) =~= bytes@);
    }
    h
}

/// The character of one hexadecimal digit.
pub open spec fn hex_char(d: int) -> char {
    if d == 0 {
        '0'
    } else if d == 1 {
        '1'
    } else if d == 2 {
        '2'
    } else if d == 3 {
        '3'
    } else if d == 4 {
        '4'
    } else if d == 5 {
        '5'
    } else if d == 6 {
        '6'
    } else if d == 7 {
        '7'
    } else if d == 8 {
        '8'
    } else if d == 9 {
        '9'
    } else if d == 10 {
        'a'
    } else if d == 11 {
        'b'
    } else if d == 12 {
        'c'
    } else if d == 13 {
        'd'
    } else if d == 14 {
        'e'
    } else {
        'f'
    }
}

/// The lowest `digits` hexadecimal digits of `h`, most significant first,
/// zero-padded.
pub open spec fn hex_seq(h: int, digits: nat) -> Seq<char>
    decreases digits,
{
    if digits <= 1 {
        seq![hex_char(h % 16)]
    } else {
        hex_seq(h / 16, (digits - 1) as nat) + seq![hex_char(h % 16)]
    }
}

fn hex_digit_str(d: u64) -> (s: &'static str)
    requires
        d < 16,
    ensures
        s@ == seq![hex_char(d as int)],
{
    proof {
        reveal_strlit("0");
        reveal_strlit("1");
        reveal_strlit("2");
        reveal_strlit("3");
        reveal_strlit("4");
        reveal_strlit("5");
        reveal_strlit("6");
        reveal_strlit("7");
        reveal_strlit("8");
        reveal_strlit("9");
        reveal_strlit("a");
        reveal_strlit("b");
        reveal_strlit("c");
        reveal_strlit("d");
        reveal_strlit("e");
        reveal_strlit("f");
    }
    let s = if d == 0 {
        "0"
    } else if d == 1 {
        "1"
    } else if d == 2 {
        "2"
    } else if d == 3 {
        "3"
    } else if d == 4 {
        "4"
    } else if d == 5 {
        "5"
    } else if d == 6 {
        "6"
    } else if d == 7 {
        "7"
    } else if d == 8 {
        "8"
    } else if d == 9 {
        "9"
    } else if d == 10 {
        "a"
    } else if d == 11 {
        "b"
    } else if d == 12 {
        "c"
    } else if d == 13 {
        "d"
    } else if d == 14 {
        "e"
    } else {
        "f"
    };
    proof {
        assert(s@ =~= seq![hex_char(d as int)]);
    }
    s
}

/// Renders the lowest `digits` hexadecimal digits of `h`, zero-padded.
pub fn hex_string(h: u64, digits: u64) -> (s: String)
    requires
        1 <= digits,
    ensures
        s@ == hex_seq(h as int, digits as nat),
    decreases digits,
{
    if digits == 1 {
        hex_digit_str(h % 16).to_owned()
    } else {
        let mut s = hex_string(h / 16, digits - 1);
        s.append(hex_digit_str(h % 16));
        s
    }
}

} // verus!
