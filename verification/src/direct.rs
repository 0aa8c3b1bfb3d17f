//! The direct-closure registry: which modules are hosted in this process, and
//! which of their services can be invoked without a network transport.
//!
//! The entry for a module is written exactly once, at that module's startup,
//! and read many times afterwards.  A module that has not completed `enable`
//! is treated as remote — the conservative default.

use vstd::prelude::*;

use crate::ids::{ModuleId, ServiceId};

verus! {

/// One locally satisfiable module and the services it hosts.
pub struct DirectEntry {
    module: ModuleId,
    services: Vec<ServiceId>,
}

/// The mathematical value of a [`DirectEntry`].
pub ghost struct DirectEntryModel {
    pub module: Seq<char>,
    pub services: Seq<Seq<char>>,
}

impl View for DirectEntry {
    type V = DirectEntryModel;

    closed spec fn view(&self) -> DirectEntryModel {
        DirectEntryModel {
            module: self.module@,
            services: self.services@.map_values(|s: ServiceId| s@),
        }
    }
}

/// Whether `entries` marks the module `m` as locally satisfiable.
pub open spec fn spec_is_local(entries: Seq<DirectEntryModel>, m: Seq<char>) -> bool {
    exists|i: int| 0 <= i < entries.len() && (#[trigger] entries[i]).module == m
}

/// Whether `entries` holds service `s` of module `m`.
pub open spec fn spec_has_local_service(
    entries: Seq<DirectEntryModel>,
    m: Seq<char>,
    s: Seq<char>,
) -> bool {
    exists|i: int|
        0 <= i < entries.len() && (#[trigger] entries[i]).module == m && entries[i].services.contains(s)
}

/// No module is listed twice.
pub open spec fn direct_entries_wf(entries: Seq<DirectEntryModel>) -> bool {
    forall|i: int, j: int|
        0 <= i < j < entries.len() ==> (#[trigger] entries[i]).module != (#[trigger] entries[j]).module
}

/// The registry of locally satisfiable modules.
pub struct DirectClosureRegistry {
    entries: Vec<DirectEntry>,
}

impl View for DirectClosureRegistry {
    type V = Seq<DirectEntryModel>;

    closed spec fn view(&self) -> Seq<DirectEntryModel> {
        self.entries@.map_values(|e: DirectEntry| e@)
    }
}

impl DirectClosureRegistry {
    /// No module is marked local twice.
    pub open spec fn wf(&self) -> bool {
        direct_entries_wf(self@)
    }

    /// An empty registry: every module is remote.
    pub fn new() -> (r: Self)
        ensures
            r@ == Seq::<DirectEntryModel>::empty(),
            r.wf(),
    {
        let r = DirectClosureRegistry { entries: Vec::new() };
        proof {
            assert(r@ =~= Seq::<DirectEntryModel>::empty());
        }
        r
    }

    /// Marks `module` as locally satisfiable with the given services.
    ///
    /// The write happens at most once per module: a second call for the same
    /// identifier leaves the first entry in place and returns `false`.
    pub fn enable(&mut self, module: ModuleId, services: Vec<ServiceId>) -> (r: bool)
        requires
            old(self).wf(),
        ensures
            final(self).wf(),
            r == !spec_is_local(old(self)@, module@),
            r ==> final(self)@ == old(self)@.push(
                DirectEntryModel {
                    module: module@,
                    services: services@.map_values(|s: ServiceId| s@),
                },
            ),
            !r ==> final(self)@ == old(self)@,
    {
        let n = self.entries.len();
        let mut i: usize = 0;
        while i < n
            invariant
                0 <= i <= n,
                n == self.entries@.len(),
                self@.len() == n,
                self == old(self),
                old(self).wf(),
                forall|k: int| 0 <= k < i ==> (#[trigger] self@[k]).module != module@,
            decreases n - i,
        {
            assert(self@[i as int].module == self.entries@[i as int].module@);
            if self.entries[i].module == module {
                assert(spec_is_local(self@, module@));
                return false;
            }
            i += 1;
        }
        assert(!spec_is_local(self@, module@));
        let ghost pre = self@;
        self.entries.push(DirectEntry { module, services });
        proof {
            assert(self@ =~= pre.push(self.entries@[pre.len() as int]@));
        }
        true
    }

    /// Whether `module` is hosted in this process.
    pub fn is_local(&self, module: &ModuleId) -> (r: bool)
        ensures
            r == spec_is_local(self@, module@),
    {
        let n = self.entries.len();
        let mut i: usize = 0;
        while i < n
            invariant
                0 <= i <= n,
                n == self.entries@.len(),
                self@.len() == n,
                forall|k: int| 0 <= k < i ==> (#[trigger] self@[k]).module != module@,
            decreases n - i,
        {
            assert(self@[i as int].module == self.entries@[i as int].module@);
            if &self.entries[i].module == module {
                assert(spec_is_local(self@, module@));
                return true;
            }
            i += 1;
        }
        false
    }

    /// Whether service `service` of `module` can be invoked directly.
    pub fn has_local_service(&self, module: &ModuleId, service: &ServiceId) -> (r: bool)
        ensures
            r == spec_has_local_service(self@, module@, service@),
    {
        let n = self.entries.len();
        let mut i: usize = 0;
        while i < n
            invariant
                0 <= i <= n,
                n == self.entries@.len(),
                self@.len() == n,
                forall|k: int|
                    0 <= k < i ==> !((#[trigger] self@[k]).module == module@
                        && self@[k].services.contains(service@)),
            decreases n - i,
        {
            assert(self@[i as int].module == self.entries@[i as int].module@);
            if &self.entries[i].module == module {
                let m = self.entries[i].services.len();
                let mut j: usize = 0;
                while j < m
                    invariant
                        0 <= j <= m,
                        0 <= i < n,
                        n == self.entries@.len(),
                        self@.len() == n,
                        self@[i as int].module == module@,
                        m == self.entries@[i as int].services@.len(),
                        m == self@[i as int].services.len(),
                        forall|k: int|
                            0 <= k < j ==> self@[i as int].services[k] != service@,
                    decreases m - j,
                {
                    assert(self@[i as int].services[j as int]
                        == self.entries@[i as int].services@[j as int]@);
                    if &self.entries[i].services[j] == service {
                        assert(self@[i as int].services.contains(service@));
                        return true;
                    }
                    j += 1;
                }
                assert(!self@[i as int].services.contains(service@));
            }
            i += 1;
        }
        false
    }
}

} // verus!
