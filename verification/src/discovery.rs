//! Finding a running server: reading server URLs out of process listings,
//! and the retry schedule used when checking a candidate server.

use vstd::prelude::*;
use crate::error::OpenCodeError;
use crate::text::{
    chars_of, chars_eq, contains_chars, contains_seq, decimal, lines, lines_of, parse_u16,
    parse_u16_spec, push_all, push_decimal, push_str, split_whitespace, string_from_chars, words,
};

verus! {

/// How candidate servers are checked.
#[derive(Debug, Clone, PartialEq, Eq)]
pub struct DiscoveryConfig {
    /// Time allowed for one validation request, in milliseconds.
    pub validation_timeout_ms: u64,
    /// Number of validation attempts.
    pub max_retries: u32,
    /// Base delay between attempts, in milliseconds; doubled after each attempt.
    pub retry_delay_ms: u64,
}

impl DiscoveryConfig {
    /// Five seconds per request, three attempts, 500 ms base delay.
    pub fn default() -> (c: Self)
        ensures
            c.validation_timeout_ms == 5000,
            c.max_retries == 3,
            c.retry_delay_ms == 500,
    {
        DiscoveryConfig { validation_timeout_ms: 5000, max_retries: 3, retry_delay_ms: 500 }
    }

    /// The settings used right after starting a server: ten seconds per
    /// request, ten attempts, one second base delay.
    pub fn startup() -> (c: Self)
        ensures
            c.validation_timeout_ms == 10000,
            c.max_retries == 10,
            c.retry_delay_ms == 1000,
    {
        DiscoveryConfig { validation_timeout_ms: 10000, max_retries: 10, retry_delay_ms: 1000 }
    }
}

/// `2^n`.
pub open spec fn pow2(n: nat) -> nat
    decreases n,
{
    if n == 0 {
        1
    } else {
        2 * pow2((n - 1) as nat)
    }
}

/// Delay before the next attempt after attempt `attempt` failed:
/// the base delay times `2^attempt`.
pub fn retry_delay_ms(config: &DiscoveryConfig, attempt: u32) -> (d: u64)
    requires
        attempt < 32,
        config.retry_delay_ms * pow2(attempt as nat) <= u64::MAX,
    ensures
        d == config.retry_delay_ms * pow2(attempt as nat),
{
    let mut d: u64 = config.retry_delay_ms;
    let mut k: u32 = 0;
    assert(pow2(0) == 1);
    assert(config.retry_delay_ms * pow2(0) == config.retry_delay_ms);
    while k < attempt
        invariant
            k <= attempt,
            attempt < 32,
            d == config.retry_delay_ms * pow2(k as nat),
            config.retry_delay_ms * pow2(attempt as nat) <= u64::MAX,
        decreases attempt - k,
    {
        proof {
            lemma_pow2_mono(k as nat + 1, attempt as nat);
            assert(pow2(k as nat + 1) == 2 * pow2(k as nat));
            assert(config.retry_delay_ms * pow2(k as nat + 1) == 2 * (config.retry_delay_ms
                * pow2(k as nat))) by (nonlinear_arith)
                requires
                    pow2(k as nat + 1) == 2 * pow2(k as nat),
            ;
            assert(config.retry_delay_ms * pow2(k as nat + 1) <= config.retry_delay_ms * pow2(
                attempt as nat,
            )) by (nonlinear_arith)
                requires
                    pow2(k as nat + 1) <= pow2(attempt as nat),
            ;
        }
        d = d * 2;
        k = k + 1;
    }
    d
}

pub proof fn lemma_pow2_mono(a: nat, b: nat)
    requires
        a <= b,
    ensures
        pow2(a) <= pow2(b),
    decreases b,
{
    if a < b {
        lemma_pow2_mono(a, (b - 1) as nat);
    }
}

/// How one validation request ended.
#[derive(Debug, Clone, PartialEq)]
pub enum ValidationOutcome {
    /// The server answered.
    Answered,
    /// The request failed with an error.
    Failed(OpenCodeError),
    /// The request did not finish in time.
    TimedOut,
}

/// What to do after a validation attempt.
#[derive(Debug, Clone, PartialEq)]
pub enum ValidationStep {
    /// The server is valid.
    Valid,
    /// Give up with this error.
    Invalid(OpenCodeError),
    /// Wait this many milliseconds and try again.
    RetryAfter(u64),
}

/// The decision after attempt `attempt` (counted from 0) ended with `outcome`:
/// an answer is success; a failure on the last attempt gives up with its
/// error, a timeout on the last attempt with `ConnectionTimeout`; otherwise
/// the next attempt follows after the backoff delay.
pub fn validation_step(config: &DiscoveryConfig, attempt: u32, outcome: ValidationOutcome) -> (s:
    ValidationStep)
    requires
        attempt < config.max_retries,
        attempt < 32,
        config.retry_delay_ms * pow2(attempt as nat) <= u64::MAX,
    ensures
        outcome is Answered ==> s is Valid,
        outcome matches ValidationOutcome::Failed(e) ==> (attempt == config.max_retries - 1 ==> s
            == ValidationStep::Invalid(e)),
        outcome is TimedOut ==> (attempt == config.max_retries - 1 ==> s
            == ValidationStep::Invalid(OpenCodeError::ConnectionTimeout)),
        !(outcome is Answered) && attempt != config.max_retries - 1 ==> s
            == ValidationStep::RetryAfter((config.retry_delay_ms * pow2(attempt as nat)) as u64),
{
    match outcome {
        ValidationOutcome::Answered => ValidationStep::Valid,
        ValidationOutcome::Failed(e) => {
            if attempt == config.max_retries - 1 {
                ValidationStep::Invalid(e)
            } else {
                ValidationStep::RetryAfter(retry_delay_ms(config, attempt))
            }
        },
        ValidationOutcome::TimedOut => {
            if attempt == config.max_retries - 1 {
                ValidationStep::Invalid(OpenCodeError::ConnectionTimeout)
            } else {
                ValidationStep::RetryAfter(retry_delay_ms(config, attempt))
            }
        },
    }
}

/// Hostname and port read from command-line tokens from position `i` on:
/// `--port`/`-p` and `--hostname`/`-h` take the following token; a later
/// option overrides an earlier one, and a port that does not parse clears it.
pub open spec fn scan_args(ws: Seq<Seq<char>>, i: int, host: Seq<char>, port: Option<u16>) -> (
    Seq<char>,
    Option<u16>,
)
    decreases ws.len() - i,
{
    if i < 0 || i >= ws.len() {
        (host, port)
    } else {
        let w = ws[i];
        let has_next = i + 1 < ws.len();
        if (w == "--port"@ || w == "-p"@) && has_next {
            scan_args(ws, i + 1, host, parse_u16_spec(ws[i + 1]))
        } else if (w == "--hostname"@ || w == "-h"@) && has_next {
            scan_args(ws, i + 1, ws[i + 1], port)
        } else {
            scan_args(ws, i + 1, host, port)
        }
    }
}

/// The server URL a process command line names, if it names a port.
pub open spec fn server_url_spec(line: Seq<char>) -> Option<Seq<char>> {
    let (host, port) = scan_args(words(line), 0, "127.0.0.1"@, None);
    match port {
        Some(p) => Some("http://"@ + host + ":"@ + decimal(p as nat)),
        None => None,
    }
}

fn is_option(w: &[char], long: &str, short: &str) -> (b: bool)
    ensures
        b == (w@ == long@ || w@ == short@),
{
    let l = chars_of(long);
    let s = chars_of(short);
    chars_eq(w, l.as_slice()) || chars_eq(w, s.as_slice())
}

/// The URL `http://{hostname}:{port}` that an `opencode serve` command line
/// names, with hostname `127.0.0.1` unless `--hostname`/`-h` gives one; `None`
/// when no port is given.
pub fn extract_server_url_from_process_line(line: &str) -> (r: Option<String>)
    ensures
        match r {
            Some(u) => server_url_spec(line@) == Some(u@),
            None => server_url_spec(line@) is None,
        },
{
    let lc = chars_of(line);
    let parts = split_whitespace(lc.as_slice());
    let ghost ws = parts@.map_values(|w: Vec<char>| w@);
    let mut hostname: Vec<char> = chars_of("127.0.0.1");
    let mut port: Option<u16> = None;
    let n = parts.len();
    let mut i: usize = 0;
    while i < n
        invariant
            n == parts@.len(),
            ws == parts@.map_values(|w: Vec<char>| w@),
            ws == words(line@),
            i <= n,
            scan_args(ws, i as int, hostname@, port) == scan_args(ws, 0, "127.0.0.1"@, None),
        decreases n - i,
    {
        let w = parts[i].as_slice();
        let has_next = i + 1 < n;
        assert(ws[i as int] == w@);
        if is_option(w, "--port", "-p") && has_next {
            assert(ws[i + 1] == parts@[i + 1]@);
            port = parse_u16(parts[i + 1].as_slice());
        } else if is_option(w, "--hostname", "-h") && has_next {
            assert(ws[i + 1] == parts@[i + 1]@);
            hostname = parts[i + 1].clone();
            assert(hostname@ == parts@[i + 1]@);
        }
        i = i + 1;
    }
    match port {
        Some(p) => {
            let mut out: Vec<char> = Vec::new();
            push_str(&mut out, "http://");
            push_all(&mut out, hostname.as_slice());
            push_str(&mut out, ":");
            push_decimal(&mut out, p as u64);
            Some(string_from_chars(out.as_slice()))
        },
        None => None,
    }
}

/// Whether a process listing line is an `opencode serve` process.
pub open spec fn is_serve_line(line: Seq<char>) -> bool {
    contains_seq(line, "opencode"@) && contains_seq(line, "serve"@)
}

/// The URL of the first `opencode serve` line, among `ls`, that names a port.
pub open spec fn first_server_url(ls: Seq<Seq<char>>) -> Option<Seq<char>>
    decreases ls.len(),
{
    if ls.len() == 0 {
        None
    } else if is_serve_line(ls[0]) && server_url_spec(ls[0]) is Some {
        server_url_spec(ls[0])
    } else {
        first_server_url(ls.drop_first())
    }
}

/// The server URL read from a `ps aux` listing: the first `opencode serve`
/// process whose command line names a port.
pub fn find_server_url_in_process_listing(stdout: &str) -> (r: Option<String>)
    ensures
        match r {
            Some(u) => first_server_url(lines_of(stdout@)) == Some(u@),
            None => first_server_url(lines_of(stdout@)) is None,
        },
{
    let sc = chars_of(stdout);
    let ls = lines(sc.as_slice());
    let ghost lv = ls@.map_values(|w: Vec<char>| w@);
    let n = ls.len();
    let oc = chars_of("opencode");
    let sv = chars_of("serve");
    let mut i: usize = 0;
    assert(lv.skip(0) =~= lv);
    while i < n
        invariant
            n == ls@.len(),
            lv == ls@.map_values(|w: Vec<char>| w@),
            lv == lines_of(stdout@),
            oc@ == "opencode"@,
            sv@ == "serve"@,
            i <= n,
            first_server_url(lv.skip(i as int)) == first_server_url(lv),
        decreases n - i,
    {
        assert(lv.skip(i as int).drop_first() =~= lv.skip(i + 1));
        assert(lv.skip(i as int)[0] == ls@[i as int]@);
        let line = ls[i].as_slice();
        if contains_chars(line, oc.as_slice()) && contains_chars(line, sv.as_slice()) {
            let s = string_from_chars(line);
            match extract_server_url_from_process_line(s.as_str()) {
                Some(url) => {
                    return Some(url);
                },
                None => {},
            }
        }
        i = i + 1;
    }
    None
}

/// Whether the client runs in development mode: a debug build, `NODE_ENV`
/// set to `development`, or `OPENCODE_DEV` set.
pub fn development_mode_from(debug_build: bool, node_env: Option<&str>, opencode_dev_set: bool) -> (b:
    bool)
    ensures
        b == (debug_build || (node_env matches Some(v) && v@ == "development"@)
            || opencode_dev_set),
{
    let is_dev_env = match node_env {
        Some(v) => crate::json::str_eq_strs(v, "development"),
        None => false,
    };
    debug_build || is_dev_env || opencode_dev_set
}

/// Host the client starts a server on in development mode.
pub fn development_server_hostname() -> (s: &'static str)
    ensures
        s@ == "127.0.0.1"@,
{
    "127.0.0.1"
}

/// Port the client starts a server on in development mode.
pub fn development_server_port() -> (p: u16)
    ensures
        p == 8080,
{
    8080
}

/// `http://{hostname}:{port}`.
pub fn server_url(hostname: &str, port: u16) -> (u: String)
    ensures
        u@ == "http://"@ + hostname@ + ":"@ + decimal(port as nat),
{
    let mut out: Vec<char> = Vec::new();
    push_str(&mut out, "http://");
    push_str(&mut out, hostname);
    push_str(&mut out, ":");
    push_decimal(&mut out, port as u64);
    string_from_chars(out.as_slice())
}

} // verus!
