//! Health checking: path normalization, the probe request, classification of
//! a probe response, and the bounded retry protocol.
//!
//! The library never opens a connection itself. The embedding application
//! connects to `127.0.0.1:<port>`, writes the bytes of [`HealthWait::probe_request`],
//! reads the answer until the peer closes or the timeout elapses, and hands
//! the outcome to [`HealthWait::on_probe`], which decides what happens next.

use vstd::prelude::*;
use vstd::string::*;

use crate::error::ModuleError;
use crate::text::{
    has_prefix, is_space_char, spec_has_prefix, spec_trim, spec_udec, trim_str, u16_dec,
};

verus! {

/// Number of probe attempts before the health wait gives up.
pub const HEALTH_RETRY_COUNT: u8 = 20;

/// Delay between two probe attempts, in milliseconds.
pub const HEALTH_RETRY_INTERVAL_MS: u64 = 200;

/// Connect timeout of a single probe, also used as its read and write
/// timeout, in milliseconds.
pub const HEALTH_TIMEOUT_MS: u64 = 800;

/// The normalized health-check path: an absent, empty or whitespace-only
/// configured path defaults to `/health`; any other value is trimmed and
/// prefixed with `/` if not already so prefixed.
pub open spec fn spec_normalize_path(raw: Option<Seq<char>>) -> Seq<char> {
    let t = match raw {
        Option::Some(s) => spec_trim(s),
        Option::None => Seq::empty(),
    };
    if t.len() == 0 {
        "/health"@
    } else if t[0] == '/' {
        t
    } else {
        seq!['/'] + t
    }
}

/// Normalizes a configured health-check path as [`spec_normalize_path`]
/// describes.
pub fn normalize_health_path(raw_path: Option<&str>) -> (p: String)
    ensures
        p@ == spec_normalize_path(
            (match raw_path {
                Option::Some(s) => Option::Some(s@),
                Option::None => Option::None,
            }),
        ),
{
    let t: &str = match raw_path {
        Option::Some(s) => trim_str(s),
        Option::None => {
            proof {
                reveal_strlit("");
                assert(""@ =~= Seq::<char>::empty());
            }
            ""
        },
    };
    if t.unicode_len() == 0 {
        "/health".to_owned()
    } else if t.get_char(0) == '/' {
        t.to_owned()
    } else {
        let mut out = "/".to_owned();
        out.append(t);
        proof {
            reveal_strlit("/");
            assert("/"@ =~= seq!['/']);
        }
        out
    }
}

/// A response classifies as healthy exactly when its text begins with
/// `HTTP/1.1 2` or `HTTP/1.0 2`: a 2xx status on either version, decided by
/// a literal prefix check.
pub open spec fn spec_healthy(resp: Seq<char>) -> bool {
    spec_has_prefix(resp, "HTTP/1.1 2"@) || spec_has_prefix(resp, "HTTP/1.0 2"@)
}

/// Classifies a raw probe response as [`spec_healthy`] describes.
pub fn is_healthy_response(resp: &str) -> (b: bool)
    ensures
        b == spec_healthy(resp@),
{
    has_prefix(resp, "HTTP/1.1 2") || has_prefix(resp, "HTTP/1.0 2")
}

/// The minimal HTTP/1.1 request written by one probe of `port` at `path`.
pub open spec fn spec_probe_request(port: nat, path: Seq<char>) -> Seq<char> {
    "GET "@ + path + " HTTP/1.1\r\nHost: 127.0.0.1:"@ + spec_udec(port)
        + "\r\nConnection: close\r\n\r\n"@
}

/// Builds the probe request line and headers for `port` and `path`.
pub fn build_probe_request(port: u16, path: &str) -> (r: String)
    ensures
        r@ == spec_probe_request(port as nat, path@),
{
    let mut out = "GET ".to_owned();
    out.append(path);
    out.append(" HTTP/1.1\r\nHost: 127.0.0.1:");
    let digits = u16_dec(port);
    out.append(digits.as_str());
    out.append("\r\nConnection: close\r\n\r\n");
    proof {
        assert(out@ =~= spec_probe_request(port as nat, path@));
    }
    out
}

/// What the caller of [`HealthWait::on_probe`] must do next.
#[derive(Clone, Debug, PartialEq)]
pub enum ProbeVerdict {
    /// The endpoint answered with success; the process is healthy.
    Healthy,
    /// Not yet healthy; wait the given number of milliseconds and probe
    /// again.
    RetryAfterMs(u64),
    /// The retry budget is exhausted; fail with the carried error.
    GiveUp(ModuleError),
}

/// The state of one bounded health wait: the probed port, the normalized
/// path, and how many attempts have been answered.
pub struct HealthWait {
    /// The probed port.
    pub port: u16,
    /// The normalized health-check path.
    pub path: String,
    /// Number of attempts answered so far.
    pub attempts_done: u8,
}

impl HealthWait {
    /// Starts a health wait for `port`, normalizing the configured path.
    pub fn new(port: u16, raw_path: Option<&str>) -> (h: HealthWait)
        ensures
            h.port == port,
            h.attempts_done == 0,
            h.path@ == spec_normalize_path(
                (match raw_path {
                    Option::Some(s) => Option::Some(s@),
                    Option::None => Option::None,
                }),
            ),
    {
        HealthWait { port, path: normalize_health_path(raw_path), attempts_done: 0 }
    }

    /// The request bytes the application writes on each probe connection.
    pub fn probe_request(&self) -> (r: String)
        ensures
            r@ == spec_probe_request(self.port as nat, self.path@),
    {
        build_probe_request(self.port, self.path.as_str())
    }

    /// Records the outcome of one probe: `None` for a connect, write or read
    /// failure, `Some(text)` for a received response. A failed probe never
    /// aborts the wait early; only an exhausted budget does, with a timeout
    /// error naming port, path and attempt count.
    pub fn on_probe(&mut self, response: Option<&str>) -> (v: ProbeVerdict)
        requires
            old(self).attempts_done < HEALTH_RETRY_COUNT,
        ensures
            final(self).port == old(self).port,
            final(self).path == old(self).path,
            ({
                let h = match response {
                    Option::Some(r) => spec_healthy(r@),
                    Option::None => false,
                };
                &&& (h ==> v == ProbeVerdict::Healthy && final(self).attempts_done == old(
                    self,
                ).attempts_done)
                &&& (!h ==> final(self).attempts_done == old(self).attempts_done + 1)
                &&& (!h && old(self).attempts_done + 1 < HEALTH_RETRY_COUNT ==> v
                    == ProbeVerdict::RetryAfterMs(HEALTH_RETRY_INTERVAL_MS))
                &&& (!h && old(self).attempts_done + 1 == HEALTH_RETRY_COUNT ==> (v matches
                ProbeVerdict::GiveUp(e) && e matches ModuleError::HealthTimeout {
                    port: ep,
                    path: epath,
                    attempts: ea,
                } && ep == old(self).port && epath@ == old(self).path@ && ea
                    == HEALTH_RETRY_COUNT))
            }),
    {
        let healthy = match response {
            Option::Some(r) => is_healthy_response(r),
            Option::None => false,
        };
        if healthy {
            ProbeVerdict::Healthy
        } else {
            self.attempts_done = self.attempts_done + 1;
            if self.attempts_done < HEALTH_RETRY_COUNT {
                ProbeVerdict::RetryAfterMs(HEALTH_RETRY_INTERVAL_MS)
            } else {
                ProbeVerdict::GiveUp(
                    ModuleError::HealthTimeout {
                        port: self.port,
                        path: self.path.clone(),
                        attempts: HEALTH_RETRY_COUNT,
                    },
                )
            }
        }
    }
}

/// The trimmed sequence never begins or ends with whitespace.
proof fn lemma_trim_ends(s: Seq<char>)
    ensures
        spec_trim(s).len() > 0 ==> !is_space_char(spec_trim(s)[0]) && !is_space_char(
            spec_trim(s)[spec_trim(s).len() - 1],
        ),
    decreases s.len(),
{
    if s.len() > 0 && is_space_char(s[0]) {
        lemma_trim_ends(s.skip(1));
    } else if s.len() > 0 && is_space_char(s[s.len() - 1]) {
        lemma_trim_ends(s.take(s.len() - 1));
    }
}

/// Trimming a sequence without leading or trailing whitespace changes
/// nothing.
proof fn lemma_trim_fixed(s: Seq<char>)
    requires
        s.len() == 0 || (!is_space_char(s[0]) && !is_space_char(s[s.len() - 1])),
    ensures
        spec_trim(s) == s,
{
}

/// Law: path normalization is idempotent — normalizing a path twice yields
/// the same string as normalizing it once.
pub proof fn lemma_normalize_path_idempotent(raw: Option<Seq<char>>)
    ensures
        spec_normalize_path(Option::Some(spec_normalize_path(raw))) == spec_normalize_path(raw),
{
    reveal_strlit("/health");
    let r = spec_normalize_path(raw);
    let t = match raw {
        Option::Some(s) => spec_trim(s),
        Option::None => Seq::<char>::empty(),
    };
    if raw is Some {
        lemma_trim_ends(raw->0);
    }
    if t.len() == 0 {
        assert(r == "/health"@);
        assert(!is_space_char(r[0]) && !is_space_char(r[r.len() - 1]));
        lemma_trim_fixed(r);
    } else if t[0] == '/' {
        lemma_trim_fixed(r);
    } else {
        assert(r == seq!['/'] + t);
        assert(r[0] == '/');
        assert(r[r.len() - 1] == t[t.len() - 1]);
        lemma_trim_fixed(r);
    }
    assert(spec_trim(r) == r);
    assert(r.len() > 0 && r[0] == '/');
}

} // verus!
