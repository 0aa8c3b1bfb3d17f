//! The service connector: given a target module, a target service and a
//! protocol preference, it resolves to a direct handler slot or to a remote
//! connection descriptor.
//!
//! Resolution policy:
//! - `Direct` requires the module to be locally satisfiable and fails with
//!   [`Error::NotLocallyAvailable`] otherwise;
//! - a concrete transport looks the module up in the registry snapshot and
//!   fails with [`Error::ServiceUnresolvable`] on a miss;
//! - `Auto` prefers the direct path when the module is local — performing no
//!   remote lookup at all — and otherwise falls back to the first transport
//!   of the configured priority order whose address resolves, failing with
//!   [`Error::NoProtocolAvailable`] when none does.
//!
//! Every resolution also reports the exact sequence of remote lookups it
//! performed, so callers and test doubles can observe the absence (or count)
//! of network side effects.

use vstd::prelude::*;

use crate::direct::{direct_entries_wf, DirectClosureRegistry, DirectEntryModel, spec_is_local};
use crate::errors::Error;
use crate::ids::{ModuleId, ServiceId};
use crate::protocol::{priority_wf, ConnectorConfig, Protocol};
use crate::remote::{spec_lookup, RemoteRegistrationModel, ServiceRegistrySnapshot};

verus! {

/// Where a resolved call will go.
#[derive(Debug)]
pub enum ResolvedPath {
    /// Same-process invocation through the direct-closure registry.
    DirectPath,
    /// A remote invocation over `protocol`, to be carried by a connection to
    /// `address`.
    RemotePath { protocol: Protocol, address: String },
}

/// The mathematical value of a [`ResolvedPath`].
pub ghost enum PathModel {
    Direct,
    Remote { protocol: Protocol, address: Seq<char> },
}

impl View for ResolvedPath {
    type V = PathModel;

    open spec fn view(&self) -> PathModel {
        match self {
            ResolvedPath::DirectPath => PathModel::Direct,
            ResolvedPath::RemotePath { protocol, address } => PathModel::Remote {
                protocol: *protocol,
                address: address@,
            },
        }
    }
}

/// The value of a resolution outcome.
pub open spec fn outcome_model(r: Result<ResolvedPath, Error>) -> Result<PathModel, Error> {
    match r {
        Ok(p) => Ok(p@),
        Err(e) => Err(e),
    }
}

/// The mathematical value of a [`ServiceConnector`].
pub ghost struct ConnectorModel {
    pub direct: Seq<DirectEntryModel>,
    pub registry: Seq<RemoteRegistrationModel>,
    pub priority: Seq<Protocol>,
}

/// The transport and address automatic selection falls back to: the first
/// transport of `prio` whose lookup answers.
pub open spec fn spec_auto_choice(
    registry: Seq<RemoteRegistrationModel>,
    m: Seq<char>,
    prio: Seq<Protocol>,
) -> Option<(Protocol, Seq<char>)>
    decreases prio.len(),
{
    if prio.len() == 0 {
        None
    } else {
        match spec_lookup(registry, m, prio[0]) {
            Some(a) => Some((prio[0], a)),
            None => spec_auto_choice(registry, m, prio.drop_first()),
        }
    }
}

/// The lookups automatic fallback performs: every transport up to and
/// including the first that resolves.
pub open spec fn spec_auto_trace(
    registry: Seq<RemoteRegistrationModel>,
    m: Seq<char>,
    prio: Seq<Protocol>,
) -> Seq<Protocol>
    decreases prio.len(),
{
    if prio.len() == 0 {
        Seq::<Protocol>::empty()
    } else if spec_lookup(registry, m, prio[0]) is Some {
        seq![prio[0]]
    } else {
        seq![prio[0]] + spec_auto_trace(registry, m, prio.drop_first())
    }
}

/// The connector's resolution policy.
pub open spec fn spec_resolve(c: ConnectorModel, m: Seq<char>, preference: Protocol) -> Result<
    PathModel,
    Error,
> {
    match preference {
        Protocol::Direct => if spec_is_local(c.direct, m) {
            Ok(PathModel::Direct)
        } else {
            Err(Error::NotLocallyAvailable)
        },
        Protocol::Auto => if spec_is_local(c.direct, m) {
            Ok(PathModel::Direct)
        } else {
            match spec_auto_choice(c.registry, m, c.priority) {
                Some((p, a)) => Ok(PathModel::Remote { protocol: p, address: a }),
                None => Err(Error::NoProtocolAvailable),
            }
        },
        _ => match spec_lookup(c.registry, m, preference) {
            Some(a) => Ok(PathModel::Remote { protocol: preference, address: a }),
            None => Err(Error::ServiceUnresolvable),
        },
    }
}

/// The remote lookups a resolution performs, in order.
pub open spec fn spec_lookup_trace(c: ConnectorModel, m: Seq<char>, preference: Protocol) -> Seq<
    Protocol,
> {
    match preference {
        Protocol::Direct => Seq::<Protocol>::empty(),
        Protocol::Auto => if spec_is_local(c.direct, m) {
            Seq::<Protocol>::empty()
        } else {
            spec_auto_trace(c.registry, m, c.priority)
        },
        _ => seq![preference],
    }
}

/// A resolution together with the remote lookups it took.
pub struct ResolveReport {
    /// The chosen path, or why none could be chosen.
    pub outcome: Result<ResolvedPath, Error>,
    /// The transports whose registry lookup was consulted, in order.
    pub lookups: Vec<Protocol>,
}

/// The protocol-agnostic connector: the direct-closure registry, the remote
/// registry snapshot, and the configured transport priority.
pub struct ServiceConnector {
    direct: DirectClosureRegistry,
    registry: ServiceRegistrySnapshot,
    config: ConnectorConfig,
}

impl View for ServiceConnector {
    type V = ConnectorModel;

    closed spec fn view(&self) -> ConnectorModel {
        ConnectorModel { direct: self.direct@, registry: self.registry@, priority: self.config@ }
    }
}

/// Dropping transports whose lookup misses does not change the fallback
/// choice, and contributes exactly those transports to the trace.
proof fn lemma_auto_skip(
    registry: Seq<RemoteRegistrationModel>,
    m: Seq<char>,
    prio: Seq<Protocol>,
    i: int,
)
    requires
        0 <= i <= prio.len(),
        forall|k: int| 0 <= k < i ==> spec_lookup(registry, m, #[trigger] prio[k]) is None,
    ensures
        spec_auto_choice(registry, m, prio) == spec_auto_choice(registry, m, prio.skip(i)),
        spec_auto_trace(registry, m, prio) == prio.take(i) + spec_auto_trace(
            registry,
            m,
            prio.skip(i),
        ),
    decreases i,
{
    if i > 0 {
        assert(prio.drop_first() =~= prio.skip(1));
        assert(forall|k: int|
            0 <= k < i - 1 ==> spec_lookup(registry, m, #[trigger] prio.skip(1)[k]) is None);
        lemma_auto_skip(registry, m, prio.skip(1), i - 1);
        assert(prio.skip(1).skip(i - 1) =~= prio.skip(i));
        assert(prio.take(i) + spec_auto_trace(registry, m, prio.skip(i)) =~= seq![prio[0]] + (
        prio.skip(1).take(i - 1) + spec_auto_trace(registry, m, prio.skip(i))));
    } else {
        assert(prio.skip(0) =~= prio);
        assert(prio.take(0) + spec_auto_trace(registry, m, prio) =~= spec_auto_trace(
            registry,
            m,
            prio,
        ));
    }
}

impl ServiceConnector {
    /// The direct-closure registry is consistent and the priority order is a
    /// valid transport order.
    pub open spec fn wf(&self) -> bool {
        direct_entries_wf(self@.direct) && priority_wf(self@.priority)
    }

    /// A connector over the given registry snapshot and transport priority,
    /// with no module marked local yet.
    pub fn new(registry: ServiceRegistrySnapshot, config: ConnectorConfig) -> (r: Self)
        requires
            config.wf(),
        ensures
            r.wf(),
            r@.direct == Seq::<DirectEntryModel>::empty(),
            r@.registry == registry@,
            r@.priority == config@,
    {
        ServiceConnector { direct: DirectClosureRegistry::new(), registry, config }
    }

    /// Marks `module` as locally satisfiable; later `Auto` and `Direct`
    /// resolutions for it take the direct path.  The write happens at most
    /// once per module: a second call is a no-op answering `false`.
    pub fn enable_direct_closure(&mut self, module: ModuleId, services: Vec<ServiceId>) -> (r: bool)
        requires
            old(self).wf(),
        ensures
            final(self).wf(),
            final(self)@.registry == old(self)@.registry,
            final(self)@.priority == old(self)@.priority,
            r == !spec_is_local(old(self)@.direct, module@),
            r ==> final(self)@.direct == old(self)@.direct.push(
                DirectEntryModel {
                    module: module@,
                    services: services@.map_values(|s: ServiceId| s@),
                },
            ),
            !r ==> final(self)@.direct == old(self)@.direct,
            spec_is_local(final(self)@.direct, module@),
    {
        let r = self.direct.enable(module, services);
        proof {
            if r {
                assert(final(self)@.direct[old(self)@.direct.len() as int].module
                    == final(self)@.direct.last().module);
            }
        }
        r
    }

    /// Whether `module` is hosted in this process.
    pub fn is_local(&self, module: &ModuleId) -> (r: bool)
        ensures
            r == spec_is_local(self@.direct, module@),
    {
        self.direct.is_local(module)
    }

    /// Resolves `(module, service, preference)` to a path, reporting every
    /// remote lookup performed on the way.
    ///
    /// The service identifier does not influence the choice of path — the
    /// gateway layer narrows the resolved module to one service — but it is
    /// part of the connector's interface so call sites state their full
    /// target.
    pub fn resolve(&self, module: &ModuleId, service: &ServiceId, preference: Protocol) -> (r:
        ResolveReport)
        ensures
            outcome_model(r.outcome) == spec_resolve(self@, module@, preference),
            r.lookups@ == spec_lookup_trace(self@, module@, preference),
    {
        let _ = service;
        match preference {
            Protocol::Direct => {
                let local = self.direct.is_local(module);
                let outcome = if local {
                    Ok(ResolvedPath::DirectPath)
                } else {
                    Err(Error::NotLocallyAvailable)
                };
                ResolveReport { outcome, lookups: Vec::new() }
            },
            Protocol::Auto => {
                if self.direct.is_local(module) {
                    ResolveReport { outcome: Ok(ResolvedPath::DirectPath), lookups: Vec::new() }
                } else {
                    let mut lookups: Vec<Protocol> = Vec::new();
                    let prio = self.config.priority();
                    let n = prio.len();
                    let mut i: usize = 0;
                    while i < n
                        invariant
                            0 <= i <= n,
                            n == prio@.len(),
                            prio@ == self@.priority,
                            preference == Protocol::Auto,
                            !spec_is_local(self@.direct, module@),
                            lookups@ == prio@.take(i as int),
                            forall|k: int|
                                0 <= k < i ==> spec_lookup(
                                    self@.registry,
                                    module@,
                                    #[trigger] prio@[k],
                                ) is None,
                        decreases n - i,
                    {
                        let p = prio[i];
                        lookups.push(p);
                        proof {
                            assert(lookups@ =~= prio@.take(i + 1));
                        }
                        let found = self.registry.resolve(module, p);
                        match found {
                            Some(address) => {
                                proof {
                                    lemma_auto_skip(self@.registry, module@, prio@, i as int);
                                    assert(prio@.skip(i as int)[0] == prio@[i as int]);
                                    assert(spec_auto_choice(
                                        self@.registry,
                                        module@,
                                        prio@.skip(i as int),
                                    ) == Some((p, address@)));
                                    assert(spec_auto_trace(
                                        self@.registry,
                                        module@,
                                        prio@.skip(i as int),
                                    ) == seq![p]);
                                    assert(prio@.take(i as int) + seq![prio@[i as int]] =~= prio@
                                        .take(i + 1));
                                }
                                return ResolveReport {
                                    outcome: Ok(
                                        ResolvedPath::RemotePath { protocol: p, address },
                                    ),
                                    lookups,
                                };
                            },
                            None => {
                                i += 1;
                            },
                        }
                    }
                    proof {
                        lemma_auto_skip(self@.registry, module@, prio@, n as int);
                        assert(prio@.skip(n as int) =~= Seq::<Protocol>::empty());
                        assert(prio@.take(n as int) =~= prio@);
                        assert(prio@.take(n as int) + Seq::<Protocol>::empty() =~= prio@);
                    }
                    ResolveReport { outcome: Err(Error::NoProtocolAvailable), lookups }
                }
            },
            _ => {
                let found = self.registry.resolve(module, preference);
                let outcome = match found {
                    Some(address) => Ok(
                        ResolvedPath::RemotePath { protocol: preference, address },
                    ),
                    None => Err(Error::ServiceUnresolvable),
                };
                let mut lookups: Vec<Protocol> = Vec::new();
                lookups.push(preference);
                proof {
                    assert(lookups@ =~= seq![preference]);
                }
                ResolveReport { outcome, lookups }
            },
        }
    }
}

/// For any module that is not marked local, requesting the direct path fails
/// with [`Error::NotLocallyAvailable`], whatever the registry snapshot holds.
pub proof fn lemma_direct_needs_local(c: ConnectorModel, m: Seq<char>)
    requires
        !spec_is_local(c.direct, m),
    ensures
        spec_resolve(c, m, Protocol::Direct) == Err::<PathModel, Error>(Error::NotLocallyAvailable),
{
}

/// For any module marked local, automatic selection resolves to the direct
/// path and performs no remote lookup — for every registry snapshot and every
/// priority order, so no network side effect can be observed.
pub proof fn lemma_auto_prefers_local(c: ConnectorModel, m: Seq<char>)
    requires
        spec_is_local(c.direct, m),
    ensures
        spec_resolve(c, m, Protocol::Auto) == Ok::<PathModel, Error>(PathModel::Direct),
        spec_lookup_trace(c, m, Protocol::Auto) == Seq::<Protocol>::empty(),
{
}

/// For a module that is not local but resolvable on the first configured
/// transport, automatic selection performs exactly one remote lookup and
/// answers a connection descriptor for that transport.
pub proof fn lemma_auto_first_transport(c: ConnectorModel, m: Seq<char>, a: Seq<char>)
    requires
        !spec_is_local(c.direct, m),
        c.priority.len() > 0,
        spec_lookup(c.registry, m, c.priority[0]) == Some(a),
    ensures
        spec_resolve(c, m, Protocol::Auto) == Ok::<PathModel, Error>(
            PathModel::Remote { protocol: c.priority[0], address: a },
        ),
        spec_lookup_trace(c, m, Protocol::Auto) == seq![c.priority[0]],
{
}

} // verus!
