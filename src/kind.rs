use vstd::prelude::*;

verus! {

/// The closed set of forge backends this layer can talk to.
#[derive(Debug, Clone, Copy, PartialEq, Eq, Structural)]
pub enum ForgeKind {
    GitHub,
    GitLab,
    Forgejo,
    SourceHut,
    FlakeHub,
}

/// A federated kind has many independent instances and no single host
/// implied by the kind alone.
pub open spec fn federated(kind: ForgeKind) -> bool {
    kind is Forgejo || kind is SourceHut
}

impl ForgeKind {
    /// Whether requests of this kind need an explicit or flagship host.
    pub fn is_federated(self) -> (r: bool)
        ensures
            r == federated(self),
    {
        match self {
            ForgeKind::Forgejo | ForgeKind::SourceHut => true,
            _ => false,
        }
    }
}

/// The operations an adapter may offer.
#[derive(Debug, Clone, Copy, PartialEq, Eq, Structural)]
pub enum Operation {
    LookupRepository,
    LookupRelease,
}

} // verus!
