//! A snapshot of the remote service registry.
//!
//! The backend that maps a module identifier to a network address per
//! transport is an external collaborator; the core consumes its lookup
//! operation through this value.  The embedder fills the snapshot (from
//! advertisements, configuration, or a registry client) and hands it to the
//! connector, which only ever reads it.

use vstd::prelude::*;

use crate::ids::ModuleId;
use crate::protocol::Protocol;

verus! {

/// One advertised address: module `module` is reachable over `protocol` at
/// `address`.
pub struct RemoteRegistration {
    module: ModuleId,
    protocol: Protocol,
    address: String,
}

/// The mathematical value of a [`RemoteRegistration`].
pub ghost struct RemoteRegistrationModel {
    pub module: Seq<char>,
    pub protocol: Protocol,
    pub address: Seq<char>,
}

impl View for RemoteRegistration {
    type V = RemoteRegistrationModel;

    closed spec fn view(&self) -> RemoteRegistrationModel {
        RemoteRegistrationModel {
            module: self.module@,
            protocol: self.protocol,
            address: self.address@,
        }
    }
}

/// The address the registry answers for `(m, t)`: the first matching
/// advertisement, or nothing.
pub open spec fn spec_lookup(
    entries: Seq<RemoteRegistrationModel>,
    m: Seq<char>,
    t: Protocol,
) -> Option<Seq<char>>
    decreases entries.len(),
{
    if entries.len() == 0 {
        None
    } else if entries[0].module == m && entries[0].protocol == t {
        Some(entries[0].address)
    } else {
        spec_lookup(entries.drop_first(), m, t)
    }
}

/// Skipping advertisements that do not match `(m, t)` does not change the
/// lookup's answer.
proof fn lemma_lookup_skip(entries: Seq<RemoteRegistrationModel>, m: Seq<char>, t: Protocol, i: int)
    requires
        0 <= i <= entries.len(),
        forall|k: int|
            0 <= k < i ==> !((#[trigger] entries[k]).module == m && entries[k].protocol == t),
    ensures
        spec_lookup(entries, m, t) == spec_lookup(entries.skip(i), m, t),
    decreases i,
{
    if i > 0 {
        assert(entries.drop_first() =~= entries.skip(1));
        assert(forall|k: int|
            0 <= k < i - 1 ==> !((#[trigger] entries.skip(1)[k]).module == m
                && entries.skip(1)[k].protocol == t));
        lemma_lookup_skip(entries.skip(1), m, t, i - 1);
        assert(entries.skip(1).skip(i - 1) =~= entries.skip(i));
    } else {
        assert(entries.skip(0) =~= entries);
    }
}

/// The registry snapshot the connector resolves remote modules against.
pub struct ServiceRegistrySnapshot {
    entries: Vec<RemoteRegistration>,
}

impl View for ServiceRegistrySnapshot {
    type V = Seq<RemoteRegistrationModel>;

    closed spec fn view(&self) -> Seq<RemoteRegistrationModel> {
        self.entries@.map_values(|e: RemoteRegistration| e@)
    }
}

impl ServiceRegistrySnapshot {
    /// A snapshot that resolves nothing.
    pub fn new() -> (r: Self)
        ensures
            r@ == Seq::<RemoteRegistrationModel>::empty(),
    {
        let r = ServiceRegistrySnapshot { entries: Vec::new() };
        proof {
            assert(r@ =~= Seq::<RemoteRegistrationModel>::empty());
        }
        r
    }

    /// Records that `module` is reachable over `protocol` at `address`.
    ///
    /// Earlier advertisements win: a lookup answers the first match.
    pub fn advertise(&mut self, module: ModuleId, protocol: Protocol, address: String)
        ensures
            final(self)@ == old(self)@.push(
                RemoteRegistrationModel { module: module@, protocol, address: address@ },
            ),
    {
        let ghost pre = self@;
        self.entries.push(RemoteRegistration { module, protocol, address });
        proof {
            assert(self@ =~= pre.push(self.entries@[pre.len() as int]@));
        }
    }

    /// Looks up the address of `module` for the transport `transport`.
    pub fn resolve(&self, module: &ModuleId, transport: Protocol) -> (r: Option<String>)
        ensures
            match r {
                Some(a) => spec_lookup(self@, module@, transport) == Some(a@),
                None => spec_lookup(self@, module@, transport) is None,
            },
    {
        let n = self.entries.len();
        let mut i: usize = 0;
        while i < n
            invariant
                0 <= i <= n,
                n == self.entries@.len(),
                self@.len() == n,
                forall|k: int|
                    0 <= k < i ==> !((#[trigger] self@[k]).module == module@
                        && self@[k].protocol == transport),
            decreases n - i,
        {
            assert(self@[i as int] == self.entries@[i as int]@);
            if &self.entries[i].module == module && self.entries[i].protocol == transport {
                proof {
                    lemma_lookup_skip(self@, module@, transport, i as int);
                    assert(self@.skip(i as int)[0] == self@[i as int]);
                }
                return Some(self.entries[i].address.clone());
            }
            i += 1;
        }
        proof {
            lemma_lookup_skip(self@, module@, transport, n as int);
            assert(self@.skip(n as int) =~= Seq::<RemoteRegistrationModel>::empty());
        }
        None
    }
}

} // verus!
