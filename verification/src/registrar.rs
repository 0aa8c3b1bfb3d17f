//! The handlers registrar: registers a module's handler set with every
//! active protocol server and reports exactly what happened.
//!
//! Registration with one server failing does not silently drop registration
//! with the others: the caller receives the map of successful registrations
//! together with the first failure, never a partial success passed off as a
//! full one.
//!
//! Talking to a live protocol server is the transport layer's work; the
//! registrar takes each server's accept/reject answer as an input and decides
//! everything else — which servers have an adapter at all, what ends up in
//! the map, and which failure is surfaced.

use vstd::prelude::*;

use crate::errors::Error;
use crate::ids::{duplicate_service_ids, ServiceId};
use crate::protocol::Protocol;

verus! {

/// A handle to an active protocol server: its transport and listening port.
#[derive(Clone, Copy, PartialEq, Eq, Structural, Debug)]
pub struct ProtocolServerHandle {
    /// The transport the server speaks.
    pub protocol: Protocol,
    /// The port it listens on.
    pub port: u16,
}

/// The result of registration: which services were successfully registered
/// on which protocol's server.
#[derive(Debug)]
pub struct ProtocolToServicesMap {
    entries: Vec<(Protocol, Vec<ServiceId>)>,
}

/// The map an entry list denotes.
pub open spec fn map_of_entries(entries: Seq<(Protocol, Vec<ServiceId>)>) -> Map<
    Protocol,
    Seq<Seq<char>>,
>
    decreases entries.len(),
{
    if entries.len() == 0 {
        Map::<Protocol, Seq<Seq<char>>>::empty()
    } else {
        map_of_entries(entries.drop_last()).insert(
            entries.last().0,
            entries.last().1@.map_values(|s: ServiceId| s@),
        )
    }
}

/// With unique protocols, the entry list and the map agree entry by entry.
proof fn lemma_map_of_entries(entries: Seq<(Protocol, Vec<ServiceId>)>)
    requires
        forall|i: int, j: int|
            0 <= i < j < entries.len() ==> (#[trigger] entries[i]).0 != (#[trigger] entries[j]).0,
    ensures
        forall|p: Protocol|
            map_of_entries(entries).contains_key(p) <==> exists|i: int|
                0 <= i < entries.len() && (#[trigger] entries[i]).0 == p,
        forall|i: int|
            0 <= i < entries.len() ==> map_of_entries(entries)[(#[trigger] entries[i]).0]
                == entries[i].1@.map_values(|s: ServiceId| s@),
    decreases entries.len(),
{
    if entries.len() > 0 {
        let dl = entries.drop_last();
        assert(forall|i: int| 0 <= i < dl.len() ==> #[trigger] dl[i] == entries[i]);
        lemma_map_of_entries(dl);
        assert forall|p: Protocol| #[trigger]
            map_of_entries(entries).contains_key(p) implies exists|i: int|
            0 <= i < entries.len() && (#[trigger] entries[i]).0 == p by {
            if p == entries.last().0 {
                assert(entries[entries.len() - 1].0 == p);
            } else {
                assert(map_of_entries(dl).contains_key(p));
                let i = choose|i: int| 0 <= i < dl.len() && (#[trigger] dl[i]).0 == p;
                assert(entries[i].0 == p);
            }
        }
        assert forall|p: Protocol|
            (exists|i: int| 0 <= i < entries.len() && (#[trigger] entries[i]).0 == p) implies
            #[trigger] map_of_entries(entries).contains_key(p) by {
            let i = choose|i: int| 0 <= i < entries.len() && (#[trigger] entries[i]).0 == p;
            if i < entries.len() - 1 {
                assert(dl[i].0 == p);
                assert(map_of_entries(dl).contains_key(p));
            }
        }
        assert forall|i: int| 0 <= i < entries.len() implies map_of_entries(entries)[(
        #[trigger] entries[i]).0] == entries[i].1@.map_values(|s: ServiceId| s@) by {
            if i < entries.len() - 1 {
                assert(dl[i].0 == p_of(entries, i));
                assert(entries[i].0 != entries.last().0);
                assert(map_of_entries(dl)[dl[i].0] == dl[i].1@.map_values(|s: ServiceId| s@));
            }
        }
    }
}

/// The protocol of entry `i`.
spec fn p_of(entries: Seq<(Protocol, Vec<ServiceId>)>, i: int) -> Protocol {
    entries[i].0
}

impl View for ProtocolToServicesMap {
    type V = Map<Protocol, Seq<Seq<char>>>;

    closed spec fn view(&self) -> Map<Protocol, Seq<Seq<char>>> {
        map_of_entries(self.entries@)
    }
}

impl ProtocolToServicesMap {
    /// No protocol appears twice.
    pub closed spec fn wf(&self) -> bool {
        forall|i: int, j: int|
            0 <= i < j < self.entries@.len() ==> (#[trigger] self.entries@[i]).0 != (
            #[trigger] self.entries@[j]).0
    }

    /// An empty map.
    pub fn new() -> (r: Self)
        ensures
            r@ == Map::<Protocol, Seq<Seq<char>>>::empty(),
            r.wf(),
    {
        ProtocolToServicesMap { entries: Vec::new() }
    }

    /// Records that `services` were registered on `protocol`'s server.
    pub fn insert(&mut self, protocol: Protocol, services: Vec<ServiceId>)
        requires
            old(self).wf(),
            !old(self)@.contains_key(protocol),
        ensures
            final(self).wf(),
            final(self)@ == old(self)@.insert(
                protocol,
                services@.map_values(|s: ServiceId| s@),
            ),
    {
        proof {
            lemma_map_of_entries(self.entries@);
        }
        let ghost pre = self.entries@;
        self.entries.push((protocol, services));
        proof {
            assert(self.entries@.drop_last() =~= pre);
            assert forall|i: int, j: int|
                0 <= i < j < self.entries@.len() implies (#[trigger] self.entries@[i]).0 != (
            #[trigger] self.entries@[j]).0 by {
                if j == self.entries@.len() - 1 {
                    assert(pre[i] == self.entries@[i]);
                    assert(pre[i].0 == self.entries@[i].0);
                }
            }
        }
    }

    /// The services registered on `protocol`'s server, if any were.
    pub fn get(&self, protocol: Protocol) -> (r: Option<&Vec<ServiceId>>)
        requires
            self.wf(),
        ensures
            match r {
                Some(v) => self@.contains_key(protocol) && self@[protocol] == v@.map_values(
                    |s: ServiceId| s@,
                ),
                None => !self@.contains_key(protocol),
            },
    {
        proof {
            lemma_map_of_entries(self.entries@);
        }
        let n = self.entries.len();
        let mut i: usize = 0;
        while i < n
            invariant
                0 <= i <= n,
                n == self.entries@.len(),
                self.wf(),
                forall|k: int| 0 <= k < i ==> (#[trigger] self.entries@[k]).0 != protocol,
            decreases n - i,
        {
            if self.entries[i].0 == protocol {
                proof {
                    lemma_map_of_entries(self.entries@);
                }
                return Some(&self.entries[i].1);
            }
            i += 1;
        }
        None
    }

    /// Whether any services were registered on `protocol`'s server.
    pub fn contains(&self, protocol: Protocol) -> (r: bool)
        requires
            self.wf(),
        ensures
            r == self@.contains_key(protocol),
    {
        match self.get(protocol) {
            Some(_) => true,
            None => false,
        }
    }

    /// On how many protocols services were registered.
    pub fn len(&self) -> (r: usize)
        requires
            self.wf(),
        ensures
            r == self@.dom().len(),
    {
        proof {
            lemma_map_len(self.entries@);
        }
        self.entries.len()
    }
}

/// With unique protocols, the map has one key per entry.
proof fn lemma_map_len(entries: Seq<(Protocol, Vec<ServiceId>)>)
    requires
        forall|i: int, j: int|
            0 <= i < j < entries.len() ==> (#[trigger] entries[i]).0 != (#[trigger] entries[j]).0,
    ensures
        map_of_entries(entries).dom().finite(),
        map_of_entries(entries).dom().len() == entries.len(),
    decreases entries.len(),
{
    if entries.len() > 0 {
        lemma_map_len(entries.drop_last());
        lemma_map_of_entries(entries.drop_last());
        assert(forall|i: int|
            0 <= i < entries.len() - 1 ==> entries.drop_last()[i] == entries[i]);
        assert(!map_of_entries(entries.drop_last()).contains_key(entries.last().0));
    }
}

/// The first failed registration, when one failed.
#[derive(Clone, Copy, PartialEq, Eq, Structural, Debug)]
pub struct RegistrarFailure {
    /// The position of the failing server in the server list.
    pub server_index: usize,
    /// The transport of the failing server.
    pub protocol: Protocol,
    /// `true` when the server rejected the registration; `false` when the
    /// handler set has no adapter for the server's transport at all.
    pub rejected: bool,
}

/// What registration returns: the successful part of the map, plus the first
/// failure if there was one.  Partial success is never silent.
pub struct RegistrationReport {
    /// Services successfully registered, per protocol.
    pub registered: ProtocolToServicesMap,
    /// The first failed server, if any failed.
    pub first_error: Option<RegistrarFailure>,
}

impl RegistrationReport {
    /// Collapses the report into a plain result for callers that treat any
    /// failed server as fatal: the full map when every registration
    /// succeeded, [`Error::HandlerRegistrationFailed`] otherwise.
    pub fn into_result(self) -> (r: Result<ProtocolToServicesMap, Error>)
        ensures
            match r {
                Ok(m) => self.first_error is None && m == self.registered,
                Err(e) => self.first_error is Some && e == Error::HandlerRegistrationFailed,
            },
    {
        match self.first_error {
            None => Ok(self.registered),
            Some(_) => Err(Error::HandlerRegistrationFailed),
        }
    }
}

/// Whether registration with server `i` succeeds: the handler set has an
/// adapter for the server's transport, and the server accepted.
pub open spec fn server_ok(
    servers: Seq<ProtocolServerHandle>,
    supported: Seq<Protocol>,
    outcomes: Seq<bool>,
    i: int,
) -> bool {
    supported.contains(servers[i].protocol) && outcomes[i]
}

/// Everything registration promises about its report.
pub open spec fn registration_post(
    servers: Seq<ProtocolServerHandle>,
    supported: Seq<Protocol>,
    services: Seq<Seq<char>>,
    outcomes: Seq<bool>,
    registered: Map<Protocol, Seq<Seq<char>>>,
    first_error: Option<RegistrarFailure>,
) -> bool {
    &&& forall|p: Protocol|
        registered.contains_key(p) <==> exists|i: int|
            0 <= i < servers.len() && (#[trigger] servers[i]).protocol == p && server_ok(
                servers,
                supported,
                outcomes,
                i,
            )
    &&& forall|p: Protocol| #[trigger] registered.contains_key(p) ==> registered[p] == services
    &&& match first_error {
        None => forall|i: int| 0 <= i < servers.len() ==> server_ok(servers, supported, outcomes, i),
        Some(f) => {
            &&& f.server_index < servers.len()
            &&& !server_ok(servers, supported, outcomes, f.server_index as int)
            &&& forall|k: int|
                0 <= k < f.server_index ==> server_ok(servers, supported, outcomes, k)
            &&& f.protocol == servers[f.server_index as int].protocol
            &&& f.rejected == supported.contains(f.protocol)
        },
    }
}

/// Whether `list` names the protocol `p`.
fn contains_protocol(list: &Vec<Protocol>, p: Protocol) -> (r: bool)
    ensures
        r == list@.contains(p),
{
    let n = list.len();
    let mut i: usize = 0;
    while i < n
        invariant
            0 <= i <= n,
            n == list@.len(),
            forall|k: int| 0 <= k < i ==> list@[k] != p,
        decreases n - i,
    {
        if list[i] == p {
            return true;
        }
        i += 1;
    }
    false
}

/// Registers `services` (adapters exist for the transports in `supported`)
/// with every server in `servers`, `outcomes[i]` being server `i`'s answer.
///
/// Works through all servers whatever happens: a failure with one server
/// neither stops nor hides registration with the others.  The report carries
/// the successful part of the map and the first failure.
pub fn register_handlers_with(
    servers: &Vec<ProtocolServerHandle>,
    supported: &Vec<Protocol>,
    services: &Vec<ServiceId>,
    outcomes: &Vec<bool>,
) -> (r: RegistrationReport)
    requires
        outcomes@.len() == servers@.len(),
        forall|i: int, j: int|
            0 <= i < j < servers@.len() ==> (#[trigger] servers@[i]).protocol != (
            #[trigger] servers@[j]).protocol,
    ensures
        r.registered.wf(),
        registration_post(
            servers@,
            supported@,
            services@.map_values(|s: ServiceId| s@),
            outcomes@,
            r.registered@,
            r.first_error,
        ),
{
    let n = servers.len();
    let mut registered = ProtocolToServicesMap::new();
    let mut first_error: Option<RegistrarFailure> = None;
    let mut i: usize = 0;
    while i < n
        invariant
            0 <= i <= n,
            n == servers@.len(),
            outcomes@.len() == n,
            forall|k: int, l: int|
                0 <= k < l < n ==> (#[trigger] servers@[k]).protocol != (
                #[trigger] servers@[l]).protocol,
            registered.wf(),
            forall|p: Protocol|
                registered@.contains_key(p) <==> exists|k: int|
                    0 <= k < i && (#[trigger] servers@[k]).protocol == p && server_ok(
                        servers@,
                        supported@,
                        outcomes@,
                        k,
                    ),
            forall|p: Protocol| #[trigger]
                registered@.contains_key(p) ==> registered@[p] == services@.map_values(
                    |s: ServiceId| s@,
                ),
            match first_error {
                None => forall|k: int|
                    0 <= k < i ==> server_ok(servers@, supported@, outcomes@, k),
                Some(f) => {
                    &&& f.server_index < i
                    &&& !server_ok(servers@, supported@, outcomes@, f.server_index as int)
                    &&& forall|k: int|
                        0 <= k < f.server_index ==> server_ok(servers@, supported@, outcomes@, k)
                    &&& f.protocol == servers@[f.server_index as int].protocol
                    &&& f.rejected == supported@.contains(f.protocol)
                },
            },
        decreases n - i,
    {
        let p = servers[i].protocol;
        let has_adapter = contains_protocol(supported, p);
        if has_adapter && outcomes[i] {
            assert(!registered@.contains_key(p)) by {
                if registered@.contains_key(p) {
                    let k = choose|k: int|
                        0 <= k < i && (#[trigger] servers@[k]).protocol == p && server_ok(
                            servers@,
                            supported@,
                            outcomes@,
                            k,
                        );
                    assert(servers@[k].protocol == servers@[i as int].protocol);
                }
            }
            registered.insert(p, duplicate_service_ids(services));
            assert(server_ok(servers@, supported@, outcomes@, i as int));
        } else {
            if first_error.is_none() {
                first_error = Some(
                    RegistrarFailure { server_index: i, protocol: p, rejected: has_adapter },
                );
            }
        }
        i += 1;
    }
    RegistrationReport { registered, first_error }
}

/// Partial registration failure is surfaced, not swallowed: when one server
/// accepted and another failed, the report's map still carries the
/// successful server's entry, and an error is reported beside it.
pub proof fn lemma_partial_failure_surfaced(
    servers: Seq<ProtocolServerHandle>,
    supported: Seq<Protocol>,
    services: Seq<Seq<char>>,
    outcomes: Seq<bool>,
    registered: Map<Protocol, Seq<Seq<char>>>,
    first_error: Option<RegistrarFailure>,
    ok_at: int,
    failed_at: int,
)
    requires
        registration_post(servers, supported, services, outcomes, registered, first_error),
        0 <= ok_at < servers.len(),
        0 <= failed_at < servers.len(),
        server_ok(servers, supported, outcomes, ok_at),
        !server_ok(servers, supported, outcomes, failed_at),
    ensures
        registered.contains_key(servers[ok_at].protocol),
        registered[servers[ok_at].protocol] == services,
        first_error is Some,
{
    assert(registered.contains_key(servers[ok_at].protocol));
}

} // verus!
