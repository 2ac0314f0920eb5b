use vstd::prelude::*;

use crate::error::ForgeError;
use crate::kind::{ForgeKind, Operation};

verus! {

/// An operator-registered host and the forge kind it runs.
pub struct KnownHost {
    pub host: String,
    pub kind: ForgeKind,
}

/// The canonical public instance of a forge kind.
pub struct Flagship {
    pub kind: ForgeKind,
    pub host: String,
}

/// An adapter registered for a forge kind and the operations it offers.
pub struct Registration {
    pub kind: ForgeKind,
    pub operations: Vec<Operation>,
}

/// Process-wide, read-only configuration: built once at startup and passed
/// by reference into every dispatch.
pub struct Context {
    /// Exact-match host table, consulted in order.
    pub known_hosts: Vec<KnownHost>,
    /// The flagship registry; the first entry of a kind counts.
    pub flagships: Vec<Flagship>,
    /// The adapter registry; the first registration of a kind counts.
    pub adapters: Vec<Registration>,
}

/// The kind of the first table entry whose host is exactly `host`.
pub open spec fn known_kind(table: Seq<KnownHost>, host: Seq<char>) -> Option<ForgeKind>
    decreases table.len(),
{
    if table.len() == 0 {
        None
    } else if table[0].host@ == host {
        Some(table[0].kind)
    } else {
        known_kind(table.drop_first(), host)
    }
}

/// The host of the first flagship entry for `kind`.
pub open spec fn flagship_of(registry: Seq<Flagship>, kind: ForgeKind) -> Option<Seq<char>>
    decreases registry.len(),
{
    if registry.len() == 0 {
        None
    } else if registry[0].kind == kind {
        Some(registry[0].host@)
    } else {
        flagship_of(registry.drop_first(), kind)
    }
}

/// The operations of the first adapter registered for `kind`.
pub open spec fn operations_of(adapters: Seq<Registration>, kind: ForgeKind) -> Option<Seq<Operation>>
    decreases adapters.len(),
{
    if adapters.len() == 0 {
        None
    } else if adapters[0].kind == kind {
        Some(adapters[0].operations@)
    } else {
        operations_of(adapters.drop_first(), kind)
    }
}

proof fn lemma_known_kind_step(table: Seq<KnownHost>, host: Seq<char>, i: int)
    requires
        0 <= i < table.len(),
    ensures
        known_kind(table.subrange(i, table.len() as int), host) == if table[i].host@ == host {
            Some(table[i].kind)
        } else {
            known_kind(table.subrange(i + 1, table.len() as int), host)
        },
{
    let rest = table.subrange(i, table.len() as int);
    assert(rest.drop_first() =~= table.subrange(i + 1, table.len() as int));
}

proof fn lemma_flagship_step(registry: Seq<Flagship>, kind: ForgeKind, i: int)
    requires
        0 <= i < registry.len(),
    ensures
        flagship_of(registry.subrange(i, registry.len() as int), kind) == if registry[i].kind == kind {
            Some(registry[i].host@)
        } else {
            flagship_of(registry.subrange(i + 1, registry.len() as int), kind)
        },
{
    let rest = registry.subrange(i, registry.len() as int);
    assert(rest.drop_first() =~= registry.subrange(i + 1, registry.len() as int));
}

proof fn lemma_operations_step(adapters: Seq<Registration>, kind: ForgeKind, i: int)
    requires
        0 <= i < adapters.len(),
    ensures
        operations_of(adapters.subrange(i, adapters.len() as int), kind) == if adapters[i].kind == kind {
            Some(adapters[i].operations@)
        } else {
            operations_of(adapters.subrange(i + 1, adapters.len() as int), kind)
        },
{
    let rest = adapters.subrange(i, adapters.len() as int);
    assert(rest.drop_first() =~= adapters.subrange(i + 1, adapters.len() as int));
}

/// Whether two strings hold the same characters.
pub fn same_text(a: &str, b: &str) -> (r: bool)
    ensures
        r == (a@ == b@),
{
    let n = a.unicode_len();
    if n != b.unicode_len() {
        return false;
    }
    let mut i: usize = 0;
    while i < n
        invariant
            n == a@.len(),
            n == b@.len(),
            i <= n,
            forall|j: int| 0 <= j < i ==> a@[j] == b@[j],
        decreases n - i,
    {
        if a.get_char(i) != b.get_char(i) {
            return false;
        }
        i += 1;
    }
    assert(a@ =~= b@);
    true
}

impl Context {
    pub fn new(known_hosts: Vec<KnownHost>, flagships: Vec<Flagship>, adapters: Vec<Registration>) -> (r: Context)
        ensures
            r.known_hosts@ == known_hosts@,
            r.flagships@ == flagships@,
            r.adapters@ == adapters@,
    {
        Context { known_hosts, flagships, adapters }
    }

    /// Exact-match lookup of `host` in the known-host table.
    pub fn known_host_kind(&self, host: &str) -> (r: Option<ForgeKind>)
        ensures
            r == known_kind(self.known_hosts@, host@),
    {
        let table = &self.known_hosts;
        let n = table.len();
        let mut i: usize = 0;
        proof {
            assert(table@.subrange(0, n as int) =~= table@);
        }
        while i < n
            invariant
                table@ == self.known_hosts@,
                n == table@.len(),
                i <= n,
                known_kind(table@, host@) == known_kind(table@.subrange(i as int, n as int), host@),
            decreases n - i,
        {
            proof {
                lemma_known_kind_step(table@, host@, i as int);
            }
            if same_text(table[i].host.as_str(), host) {
                return Some(table[i].kind);
            }
            i += 1;
        }
        None
    }

    /// The flagship host configured for `kind`; a pure lookup with no I/O.
    pub fn resolve_flagship(&self, kind: ForgeKind) -> (r: Result<String, ForgeError>)
        ensures
            match flagship_of(self.flagships@, kind) {
                Some(h) => r is Ok && r->Ok_0@ == h,
                None => r is Err && r->Err_0 is NoFlagshipInstance,
            },
    {
        let registry = &self.flagships;
        let n = registry.len();
        let mut i: usize = 0;
        proof {
            assert(registry@.subrange(0, n as int) =~= registry@);
        }
        while i < n
            invariant
                registry@ == self.flagships@,
                n == registry@.len(),
                i <= n,
                flagship_of(registry@, kind) == flagship_of(registry@.subrange(i as int, n as int), kind),
            decreases n - i,
        {
            proof {
                lemma_flagship_step(registry@, kind, i as int);
            }
            if registry[i].kind == kind {
                return Ok(registry[i].host.clone());
            }
            i += 1;
        }
        Err(ForgeError::NoFlagshipInstance)
    }

    /// Whether an adapter is registered for `kind`, and if so whether it
    /// offers `op`.
    pub fn adapter_supports(&self, kind: ForgeKind, op: Operation) -> (r: Option<bool>)
        ensures
            match operations_of(self.adapters@, kind) {
                Some(ops) => r == Some(ops.contains(op)),
                None => r is None,
            },
    {
        let adapters = &self.adapters;
        let n = adapters.len();
        let mut i: usize = 0;
        proof {
            assert(adapters@.subrange(0, n as int) =~= adapters@);
        }
        while i < n
            invariant
                adapters@ == self.adapters@,
                n == adapters@.len(),
                i <= n,
                operations_of(adapters@, kind) == operations_of(adapters@.subrange(i as int, n as int), kind),
            decreases n - i,
        {
            proof {
                lemma_operations_step(adapters@, kind, i as int);
            }
            if adapters[i].kind == kind {
                let ops = &adapters[i].operations;
                let m = ops.len();
                let mut j: usize = 0;
                while j < m
                    invariant
                        ops@ == adapters@[i as int].operations@,
                        operations_of(self.adapters@, kind) == Some(ops@),
                        m == ops@.len(),
                        j <= m,
                        forall|k: int| 0 <= k < j ==> ops@[k] != op,
                    decreases m - j,
                {
                    if ops[j] == op {
                        assert(ops@.contains(op)) by {
                            assert(ops@[j as int] == op);
                        }
                        return Some(true);
                    }
                    j += 1;
                }
                return Some(false);
            }
            i += 1;
        }
        None
    }
}

} // verus!
