use forge_dispatch::config::{Context, Flagship, KnownHost, Registration};
use forge_dispatch::discovery::{conclude_probe, hosted_platform, is_within_domain, Discovery, DiscoveryResult};
use forge_dispatch::dispatch::{ForgeTarget, Step};
use forge_dispatch::error::{complete, ForgeError};
use forge_dispatch::kind::{ForgeKind, Operation};

fn transport_error() -> reqwest::Error {
    reqwest::Client::new().get("not a url").build().unwrap_err()
}

fn both_ops() -> Vec<Operation> {
    vec![Operation::LookupRepository, Operation::LookupRelease]
}

fn deployment() -> Context {
    Context::new(
        vec![
            KnownHost { host: "git.example.org".to_string(), kind: ForgeKind::Forgejo },
            KnownHost { host: "git.example.org".to_string(), kind: ForgeKind::GitLab },
        ],
        vec![Flagship { kind: ForgeKind::Forgejo, host: "codeberg.org".to_string() }],
        vec![
            Registration { kind: ForgeKind::GitHub, operations: both_ops() },
            Registration { kind: ForgeKind::GitLab, operations: both_ops() },
            Registration { kind: ForgeKind::Forgejo, operations: both_ops() },
            Registration { kind: ForgeKind::SourceHut, operations: vec![Operation::LookupRepository] },
        ],
    )
}

fn target(host: Option<&str>, kind: Option<ForgeKind>, path: &str) -> ForgeTarget {
    ForgeTarget { host: host.map(|h| h.to_string()), kind, path: path.to_string() }
}

fn failure(step: Step) -> ForgeError {
    match step {
        Step::Fail(e) => e,
        other => panic!("expected a failure, got {:?}", other),
    }
}

#[test]
fn github_host_resolves_by_domain_and_invokes_adapter() {
    let ctx = deployment();
    let t = target(Some("github.com"), None, "owner/repo");
    assert_eq!(ctx.discover("github.com"), Discovery::Matched(ForgeKind::GitHub));
    match ctx.plan(Operation::LookupRepository, &t) {
        Step::Invoke(call) => {
            assert_eq!(call.kind, ForgeKind::GitHub);
            assert_eq!(call.host.as_deref(), Some("github.com"));
            assert_eq!(call.path, "owner/repo");
            assert_eq!(call.operation, Operation::LookupRepository);
        }
        other => panic!("expected an invocation, got {:?}", other),
    }
    let done = complete(Ok::<String, reqwest::Error>("repository".to_string()));
    assert_eq!(done.unwrap(), "repository");
}

#[test]
fn unknown_host_exhausts_discovery_and_is_unavailable() {
    let ctx = deployment();
    let t = target(Some("example-unknown-host.test"), None, "owner/repo");
    match ctx.plan(Operation::LookupRepository, &t) {
        Step::Probe(h) => assert_eq!(h, "example-unknown-host.test"),
        other => panic!("expected a probe, got {:?}", other),
    }
    let e = failure(ctx.resume(Operation::LookupRepository, &t, Ok(None)));
    assert!(matches!(e, ForgeError::EndpointUnavailable));
    let reply = e.reply();
    assert_eq!(reply.status, 404);
    assert_eq!(reply.message, "endpoint not available for this forge");
    assert!(!e.is_logged());
}

#[test]
fn unreachable_probe_is_unavailable_not_request_error() {
    let ctx = deployment();
    let t = target(Some("example-unknown-host.test"), None, "owner/repo");
    let e = failure(ctx.resume(Operation::LookupRepository, &t, Err(transport_error())));
    assert!(matches!(e, ForgeError::EndpointUnavailable));
    assert_eq!(conclude_probe(Err(transport_error())), DiscoveryResult::NoMatch);
}

#[test]
fn sourcehut_without_flagship_reports_no_flagship() {
    let ctx = deployment();
    let t = target(None, Some(ForgeKind::SourceHut), "~user/repo");
    let e = failure(ctx.plan(Operation::LookupRepository, &t));
    assert!(matches!(e, ForgeError::NoFlagshipInstance));
    assert_eq!(e.status(), 404);
    assert_eq!(e.message(), "flagship instance unavailable for this forge");
    assert!(e.is_logged());
}

#[test]
fn federated_kind_without_adapter_or_flagship_reports_no_flagship() {
    let ctx = Context::new(vec![], vec![], vec![]);
    let t = target(None, Some(ForgeKind::Forgejo), "owner/repo");
    let e = failure(ctx.plan(Operation::LookupRelease, &t));
    assert!(matches!(e, ForgeError::NoFlagshipInstance));
}

#[test]
fn adapter_timeout_becomes_request_error() {
    let e = complete::<String>(Err(transport_error())).unwrap_err();
    assert!(matches!(e, ForgeError::RequestError(_)));
    let reply = e.reply();
    assert_eq!(reply.status, 500);
    assert_eq!(reply.message, "error communicating with the remote server");
    assert!(e.is_logged());
}

#[test]
fn from_transport_error_is_request_error() {
    let e = ForgeError::from(transport_error());
    assert!(matches!(e, ForgeError::RequestError(_)));
    assert_eq!(e.status(), 500);
}

#[test]
fn explicit_kind_ignores_known_host_table() {
    let ctx = deployment();
    let t = target(Some("git.example.org"), Some(ForgeKind::GitHub), "owner/repo");
    match ctx.plan(Operation::LookupRelease, &t) {
        Step::Invoke(call) => {
            assert_eq!(call.kind, ForgeKind::GitHub);
            assert_eq!(call.host.as_deref(), Some("git.example.org"));
        }
        other => panic!("expected an invocation, got {:?}", other),
    }
}

#[test]
fn known_host_wins_with_first_entry() {
    let ctx = deployment();
    assert_eq!(ctx.known_host_kind("git.example.org"), Some(ForgeKind::Forgejo));
    assert_eq!(ctx.discover("git.example.org"), Discovery::Matched(ForgeKind::Forgejo));
    assert_eq!(ctx.known_host_kind("GIT.example.org"), None);
}

#[test]
fn known_host_takes_precedence_over_domain_heuristic() {
    let ctx = Context::new(
        vec![KnownHost { host: "gitlab.com".to_string(), kind: ForgeKind::Forgejo }],
        vec![],
        vec![],
    );
    assert_eq!(ctx.discover("gitlab.com"), Discovery::Matched(ForgeKind::Forgejo));
}

#[test]
fn discovery_is_repeatable() {
    let ctx = deployment();
    for host in ["github.com", "git.example.org", "example-unknown-host.test"] {
        assert_eq!(ctx.discover(host), ctx.discover(host));
    }
    let t = target(Some("gitlab.com"), None, "group/project");
    let kinds: Vec<ForgeKind> = (0..3)
        .map(|_| match ctx.plan(Operation::LookupRepository, &t) {
            Step::Invoke(call) => call.kind,
            other => panic!("expected an invocation, got {:?}", other),
        })
        .collect();
    assert_eq!(kinds, vec![ForgeKind::GitLab; 3]);
}

#[test]
fn domain_heuristic_matches_domain_and_subdomains_only() {
    assert_eq!(hosted_platform("github.com"), Some(ForgeKind::GitHub));
    assert_eq!(hosted_platform("api.github.com"), Some(ForgeKind::GitHub));
    assert_eq!(hosted_platform("gitlab.com"), Some(ForgeKind::GitLab));
    assert_eq!(hosted_platform("ops.gitlab.com"), Some(ForgeKind::GitLab));
    assert_eq!(hosted_platform("notgithub.com"), None);
    assert_eq!(hosted_platform("github.com.evil.test"), None);
    assert_eq!(hosted_platform(""), None);
    assert!(is_within_domain("a.b.c", "b.c"));
    assert!(!is_within_domain("b.c", "a.b.c"));
    assert!(!is_within_domain(".c", "c.c"));
}

#[test]
fn flagship_is_used_when_no_host_is_given() {
    let ctx = deployment();
    assert_eq!(ctx.resolve_flagship(ForgeKind::Forgejo).unwrap(), "codeberg.org");
    assert!(matches!(ctx.resolve_flagship(ForgeKind::SourceHut), Err(ForgeError::NoFlagshipInstance)));
    let t = target(None, Some(ForgeKind::Forgejo), "owner/repo");
    match ctx.plan(Operation::LookupRepository, &t) {
        Step::Invoke(call) => assert_eq!(call.host.as_deref(), Some("codeberg.org")),
        other => panic!("expected an invocation, got {:?}", other),
    }
}

#[test]
fn hosted_kind_without_host_goes_to_its_own_endpoint() {
    let ctx = deployment();
    let t = target(None, Some(ForgeKind::GitHub), "owner/repo");
    match ctx.plan(Operation::LookupRepository, &t) {
        Step::Invoke(call) => assert_eq!(call.host, None),
        other => panic!("expected an invocation, got {:?}", other),
    }
}

#[test]
fn unsupported_operation_is_unavailable() {
    let ctx = deployment();
    assert_eq!(ctx.adapter_supports(ForgeKind::SourceHut, Operation::LookupRelease), Some(false));
    let t = target(Some("git.sr.ht"), Some(ForgeKind::SourceHut), "~user/repo");
    let e = failure(ctx.plan(Operation::LookupRelease, &t));
    assert!(matches!(e, ForgeError::EndpointUnavailable));
}

#[test]
fn missing_adapter_is_unavailable() {
    let ctx = deployment();
    assert_eq!(ctx.adapter_supports(ForgeKind::FlakeHub, Operation::LookupRepository), None);
    let t = target(None, Some(ForgeKind::FlakeHub), "owner/flake");
    let e = failure(ctx.plan(Operation::LookupRepository, &t));
    assert!(matches!(e, ForgeError::EndpointUnavailable));
}

#[test]
fn target_without_host_or_kind_is_unavailable() {
    let ctx = deployment();
    let e = failure(ctx.plan(Operation::LookupRepository, &target(None, None, "owner/repo")));
    assert!(matches!(e, ForgeError::EndpointUnavailable));
}

#[test]
fn probe_identification_routes_to_that_kind() {
    let ctx = deployment();
    let t = target(Some("forge.internal.test"), None, "owner/repo");
    match ctx.resume(Operation::LookupRelease, &t, Ok(Some(ForgeKind::Forgejo))) {
        Step::Invoke(call) => {
            assert_eq!(call.kind, ForgeKind::Forgejo);
            assert_eq!(call.host.as_deref(), Some("forge.internal.test"));
        }
        other => panic!("expected an invocation, got {:?}", other),
    }
}

#[test]
fn federated_flags() {
    assert!(ForgeKind::Forgejo.is_federated());
    assert!(ForgeKind::SourceHut.is_federated());
    assert!(!ForgeKind::GitHub.is_federated());
    assert!(!ForgeKind::GitLab.is_federated());
    assert!(!ForgeKind::FlakeHub.is_federated());
}

#[test]
fn same_text_compares_characters() {
    assert!(forge_dispatch::config::same_text("héllo", "héllo"));
    assert!(!forge_dispatch::config::same_text("hello", "hellò"));
    assert!(!forge_dispatch::config::same_text("hello", "hell"));
}
