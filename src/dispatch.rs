use vstd::prelude::*;

use crate::config::{flagship_of, operations_of, Context};
use crate::discovery::{conclude_probe, offline_kind, probed_kind, Discovery, DiscoveryResult};
use crate::error::ForgeError;
use crate::kind::{federated, ForgeKind, Operation};

verus! {

/// Where a request goes: a host (needed for federated kinds unless a
/// flagship exists), an optional explicit kind, and a resource path.
#[derive(Debug)]
pub struct ForgeTarget {
    pub host: Option<String>,
    pub kind: Option<ForgeKind>,
    pub path: String,
}

/// A fully resolved adapter invocation. `host` is `None` only for a
/// non-federated kind addressed without a host: its adapter knows its
/// single public endpoint.
#[derive(Debug)]
pub struct Call {
    pub kind: ForgeKind,
    pub host: Option<String>,
    pub path: String,
    pub operation: Operation,
}

/// What the dispatcher does next.
#[derive(Debug)]
pub enum Step {
    /// Run the active probe against this host, then `resume`.
    Probe(String),
    /// Invoke the adapter, then hand its outcome to `complete`.
    Invoke(Call),
    /// The request ends with this error.
    Fail(ForgeError),
}

pub struct CallView {
    pub kind: ForgeKind,
    pub host: Option<Seq<char>>,
    pub path: Seq<char>,
    pub operation: Operation,
}

pub enum StepView {
    Probe(Seq<char>),
    Invoke(CallView),
    Fail(ForgeError),
}

pub open spec fn opt_view(o: Option<String>) -> Option<Seq<char>> {
    match o {
        Some(s) => Some(s@),
        None => None,
    }
}

impl View for Call {
    type V = CallView;

    open spec fn view(&self) -> CallView {
        CallView { kind: self.kind, host: opt_view(self.host), path: self.path@, operation: self.operation }
    }
}

impl View for Step {
    type V = StepView;

    open spec fn view(&self) -> StepView {
        match self {
            Step::Probe(h) => StepView::Probe(h@),
            Step::Invoke(c) => StepView::Invoke(c@),
            Step::Fail(e) => StepView::Fail(*e),
        }
    }
}

/// The host an adapter of `kind` is pointed at: the explicit one, else the
/// flagship for a federated kind, else none. `None` here means that no
/// flagship is configured.
pub open spec fn effective_host(ctx: Context, kind: ForgeKind, host: Option<Seq<char>>) -> Option<Option<Seq<char>>> {
    match host {
        Some(h) => Some(Some(h)),
        None => if federated(kind) {
            match flagship_of(ctx.flagships@, kind) {
                Some(f) => Some(Some(f)),
                None => None,
            }
        } else {
            Some(None)
        },
    }
}

/// Dispatch once the kind is known.
pub open spec fn route_spec(
    ctx: Context,
    op: Operation,
    kind: ForgeKind,
    host: Option<Seq<char>>,
    path: Seq<char>,
) -> StepView {
    match effective_host(ctx, kind, host) {
        None => StepView::Fail(ForgeError::NoFlagshipInstance),
        Some(h) => match operations_of(ctx.adapters@, kind) {
            Some(ops) if ops.contains(op) => StepView::Invoke(
                CallView { kind, host: h, path, operation: op },
            ),
            _ => StepView::Fail(ForgeError::EndpointUnavailable),
        },
    }
}

/// The first step of dispatching `op` on `t`.
pub open spec fn plan_spec(ctx: Context, op: Operation, t: ForgeTarget) -> StepView {
    match t.kind {
        Some(k) => route_spec(ctx, op, k, opt_view(t.host), t.path@),
        None => match t.host {
            None => StepView::Fail(ForgeError::EndpointUnavailable),
            Some(h) => match offline_kind(ctx.known_hosts@, h@) {
                Some(k) => route_spec(ctx, op, k, Some(h@), t.path@),
                None => StepView::Probe(h@),
            },
        },
    }
}

/// The step after a probe that identified `probed`, if anything.
pub open spec fn resume_spec(ctx: Context, op: Operation, t: ForgeTarget, probed: Option<ForgeKind>) -> StepView {
    match probed {
        Some(k) => route_spec(ctx, op, k, opt_view(t.host), t.path@),
        None => StepView::Fail(ForgeError::EndpointUnavailable),
    }
}

/// The kind a dispatch of `t` settles on, given what a probe would find.
pub open spec fn resolved_kind(table: Seq<crate::config::KnownHost>, t: ForgeTarget, probed: Option<ForgeKind>) -> Option<ForgeKind> {
    match t.kind {
        Some(k) => Some(k),
        None => match t.host {
            None => None,
            Some(h) => match offline_kind(table, h@) {
                Some(k) => Some(k),
                None => probed,
            },
        },
    }
}

impl Context {
    /// Dispatch once the kind is known: pick the host, then check that an
    /// adapter for `kind` is registered and offers `op`.
    fn route(&self, op: Operation, kind: ForgeKind, host: Option<&String>, path: &String) -> (r: Step)
        ensures
            r@ == route_spec(
                *self,
                op,
                kind,
                match host {
                    Some(h) => Some(h@),
                    None => None,
                },
                path@,
            ),
    {
        let host: Option<String> = match host {
            Some(h) => Some(h.clone()),
            None => if kind.is_federated() {
                match self.resolve_flagship(kind) {
                    Ok(f) => Some(f),
                    Err(_) => {
                        return Step::Fail(ForgeError::NoFlagshipInstance);
                    },
                }
            } else {
                None
            },
        };
        match self.adapter_supports(kind, op) {
            Some(true) => Step::Invoke(Call { kind, host, path: path.clone(), operation: op }),
            _ => Step::Fail(ForgeError::EndpointUnavailable),
        }
    }

    /// The first step of dispatching `op` on `target`. An explicit kind
    /// skips discovery; otherwise the in-memory strategies run on the host,
    /// and only when they all miss is a probe asked for.
    pub fn plan(&self, op: Operation, target: &ForgeTarget) -> (r: Step)
        ensures
            r@ == plan_spec(*self, op, *target),
    {
        match target.kind {
            Some(k) => self.route(op, k, target.host.as_ref(), &target.path),
            None => match &target.host {
                None => Step::Fail(ForgeError::EndpointUnavailable),
                Some(h) => match self.discover(h.as_str()) {
                    Discovery::Matched(k) => self.route(op, k, Some(h), &target.path),
                    Discovery::NeedsProbe => Step::Probe(h.clone()),
                },
            },
        }
    }

    /// The step after the active probe of `target`'s host ran. A host the
    /// probe could not identify, or could not reach, is unavailable.
    pub fn resume(&self, op: Operation, target: &ForgeTarget, outcome: Result<Option<ForgeKind>, reqwest::Error>) -> (r: Step)
        ensures
            r@ == resume_spec(*self, op, *target, probed_kind(outcome)),
    {
        match conclude_probe(outcome) {
            DiscoveryResult::Resolved(k) => self.route(op, k, target.host.as_ref(), &target.path),
            DiscoveryResult::NoMatch => Step::Fail(ForgeError::EndpointUnavailable),
        }
    }
}

/// A target with an explicit kind, whose adapter is registered and offers
/// the operation, is never sent to discovery: the first step is not a
/// probe, and it is the same whatever the known-host table holds.
pub proof fn explicit_kind_skips_discovery(c1: Context, c2: Context, op: Operation, t: ForgeTarget)
    requires
        t.kind is Some,
        operations_of(c1.adapters@, t.kind->0) is Some,
        operations_of(c1.adapters@, t.kind->0)->0.contains(op),
        c2.flagships@ == c1.flagships@,
        c2.adapters@ == c1.adapters@,
    ensures
        !(plan_spec(c1, op, t) is Probe),
        plan_spec(c1, op, t) == plan_spec(c2, op, t),
{
}

/// A host that no strategy matches, the probe included, is unavailable,
/// also when the probe could not reach it: dispatch asks for the probe and
/// then ends in `EndpointUnavailable`, never in `RequestError`.
pub proof fn unmatched_host_is_unavailable(
    ctx: Context,
    op: Operation,
    t: ForgeTarget,
    outcome: Result<Option<ForgeKind>, reqwest::Error>,
)
    requires
        t.kind is None,
        t.host is Some,
        offline_kind(ctx.known_hosts@, t.host->0@) is None,
        probed_kind(outcome) is None,
    ensures
        plan_spec(ctx, op, t) == StepView::Probe(t.host->0@),
        resume_spec(ctx, op, t, probed_kind(outcome)) == StepView::Fail(ForgeError::EndpointUnavailable),
{
}

/// A federated kind addressed without a host, when the flagship registry
/// has no entry for it, ends in `NoFlagshipInstance`.
pub proof fn missing_flagship_is_reported(ctx: Context, op: Operation, t: ForgeTarget)
    requires
        t.host is None,
        t.kind is Some,
        federated(t.kind->0),
        flagship_of(ctx.flagships@, t.kind->0) is None,
    ensures
        plan_spec(ctx, op, t) == StepView::Fail(ForgeError::NoFlagshipInstance),
{
}

/// The kind a dispatch settles on depends only on the known-host table, the
/// target's host and kind, and what the probe finds: two dispatches that
/// agree on these settle on the same kind, and an adapter invocation is
/// always for that kind. With the whole configuration, the operation and
/// the path equal too, the two dispatches take the same steps.
pub proof fn resolution_is_deterministic(
    c1: Context,
    c2: Context,
    op1: Operation,
    op2: Operation,
    t1: ForgeTarget,
    t2: ForgeTarget,
    probed: Option<ForgeKind>,
)
    requires
        c1.known_hosts@ == c2.known_hosts@,
        t1.kind == t2.kind,
        opt_view(t1.host) == opt_view(t2.host),
    ensures
        resolved_kind(c1.known_hosts@, t1, None) == resolved_kind(c2.known_hosts@, t2, None),
        resolved_kind(c1.known_hosts@, t1, probed) == resolved_kind(c2.known_hosts@, t2, probed),
        plan_spec(c1, op1, t1) is Invoke ==> resolved_kind(c1.known_hosts@, t1, None) == Some(
            plan_spec(c1, op1, t1)->Invoke_0.kind,
        ),
        plan_spec(c1, op1, t1) is Probe ==> plan_spec(c2, op2, t2) is Probe,
        resume_spec(c1, op1, t1, probed) is Invoke ==> probed == Some(
            resume_spec(c1, op1, t1, probed)->Invoke_0.kind,
        ),
        ({
            &&& c1.flagships@ == c2.flagships@
            &&& c1.adapters@ == c2.adapters@
            &&& op1 == op2
            &&& t1.path@ == t2.path@
        }) ==> plan_spec(c1, op1, t1) == plan_spec(c2, op2, t2) && resume_spec(c1, op1, t1, probed)
            == resume_spec(c2, op2, t2, probed),
{
}

} // verus!
