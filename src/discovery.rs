use vstd::prelude::*;

use crate::config::{known_kind, Context, KnownHost};
use crate::kind::ForgeKind;

verus! {

/// `host` is `domain` itself or one of its subdomains.
pub open spec fn within_domain(host: Seq<char>, domain: Seq<char>) -> bool {
    ||| host == domain
    ||| {
        &&& host.len() > domain.len()
        &&& host[host.len() - domain.len() - 1] == '.'
        &&& host.subrange(host.len() - domain.len(), host.len() as int) == domain
    }
}

/// The domain-suffix heuristic for the hosted multi-tenant platforms.
pub open spec fn hosted_kind(host: Seq<char>) -> Option<ForgeKind> {
    if within_domain(host, "github.com"@) {
        Some(ForgeKind::GitHub)
    } else if within_domain(host, "gitlab.com"@) {
        Some(ForgeKind::GitLab)
    } else {
        None
    }
}

/// What the in-memory strategies conclude, in order: the known-host table
/// first, then the domain-suffix heuristic.
pub open spec fn offline_kind(table: Seq<KnownHost>, host: Seq<char>) -> Option<ForgeKind> {
    match known_kind(table, host) {
        Some(k) => Some(k),
        None => hosted_kind(host),
    }
}

/// What `Context::discover` answers for `host`.
pub open spec fn discovery_of(table: Seq<KnownHost>, host: Seq<char>) -> Discovery {
    match offline_kind(table, host) {
        Some(k) => Discovery::Matched(k),
        None => Discovery::NeedsProbe,
    }
}

/// The kind a probe identified; an unreachable host identifies nothing.
pub open spec fn probed_kind(outcome: Result<Option<ForgeKind>, reqwest::Error>) -> Option<ForgeKind> {
    match outcome {
        Ok(Some(k)) => Some(k),
        _ => None,
    }
}

/// Outcome of the in-memory strategies.
#[derive(Debug, Clone, Copy, PartialEq, Eq, Structural)]
pub enum Discovery {
    /// A cheap strategy matched confidently; no probe is needed.
    Matched(ForgeKind),
    /// Only the active probe is left to try.
    NeedsProbe,
}

/// Final outcome of discovery.
#[derive(Debug, Clone, Copy, PartialEq, Eq, Structural)]
pub enum DiscoveryResult {
    Resolved(ForgeKind),
    NoMatch,
}

/// Whether the last `suffix@.len()` characters of `s` are `suffix`.
fn ends_with_text(s: &str, suffix: &str) -> (r: bool)
    ensures
        r == (s@.len() >= suffix@.len() && s@.subrange(s@.len() - suffix@.len(), s@.len() as int)
            == suffix@),
{
    let n = s.unicode_len();
    let m = suffix.unicode_len();
    if n < m {
        return false;
    }
    let off = n - m;
    let mut j: usize = 0;
    while j < m
        invariant
            n == s@.len(),
            m == suffix@.len(),
            off + m == n,
            j <= m,
            forall|k: int| 0 <= k < j ==> s@[off + k] == suffix@[k],
        decreases m - j,
    {
        if s.get_char(off + j) != suffix.get_char(j) {
            assert(s@.subrange(off as int, n as int)[j as int] != suffix@[j as int]);
            return false;
        }
        j += 1;
    }
    assert(s@.subrange(off as int, n as int) =~= suffix@);
    true
}

/// Whether `host` is `domain` or a subdomain of it.
pub fn is_within_domain(host: &str, domain: &str) -> (r: bool)
    ensures
        r == within_domain(host@, domain@),
{
    let n = host.unicode_len();
    let m = domain.unicode_len();
    if n == m {
        let same = ends_with_text(host, domain);
        proof {
            if same {
                assert(host@.subrange(0, n as int) =~= host@);
            } else if host@ == domain@ {
                assert(host@.subrange(0, n as int) =~= host@);
            }
        }
        same
    } else if n > m {
        host.get_char(n - m - 1) == '.' && ends_with_text(host, domain)
    } else {
        false
    }
}

/// The domain-suffix strategy on its own.
pub fn hosted_platform(host: &str) -> (r: Option<ForgeKind>)
    ensures
        r == hosted_kind(host@),
{
    if is_within_domain(host, "github.com") {
        Some(ForgeKind::GitHub)
    } else if is_within_domain(host, "gitlab.com") {
        Some(ForgeKind::GitLab)
    } else {
        None
    }
}

impl Context {
    /// Runs the in-memory strategies on `host`, cheapest first; the first
    /// confident match wins and the probe is asked for only when all miss.
    pub fn discover(&self, host: &str) -> (r: Discovery)
        ensures
            r == discovery_of(self.known_hosts@, host@),
    {
        match self.known_host_kind(host) {
            Some(k) => Discovery::Matched(k),
            None => match hosted_platform(host) {
                Some(k) => Discovery::Matched(k),
                None => Discovery::NeedsProbe,
            },
        }
    }
}

/// A host that the known-host table lists is answered from the table, with
/// the kind of its first entry, and the probe is not asked for.
pub proof fn known_host_needs_no_probe(table: Seq<KnownHost>, host: Seq<char>, i: int)
    requires
        0 <= i < table.len(),
        table[i].host@ == host,
        forall|j: int| 0 <= j < i ==> table[j].host@ != host,
    ensures
        discovery_of(table, host) == Discovery::Matched(table[i].kind),
    decreases i,
{
    if i > 0 {
        let rest = table.drop_first();
        assert forall|j: int| 0 <= j < i - 1 implies rest[j].host@ != host by {
            assert(rest[j] == table[j + 1]);
        }
        assert(table[0].host@ != host);
        known_host_needs_no_probe(rest, host, i - 1);
    }
}

/// Concludes discovery from the active probe. A transport failure of the
/// probe is a miss, never an error of its own.
pub fn conclude_probe(outcome: Result<Option<ForgeKind>, reqwest::Error>) -> (r: DiscoveryResult)
    ensures
        r == match probed_kind(outcome) {
            Some(k) => DiscoveryResult::Resolved(k),
            None => DiscoveryResult::NoMatch,
        },
{
    match outcome {
        Ok(Some(k)) => DiscoveryResult::Resolved(k),
        _ => DiscoveryResult::NoMatch,
    }
}

} // verus!
