//! The capability registry: a table, filled once at process start, that maps
//! each module identifier to the descriptor the runtime builds it from.
//!
//! Iteration order equals registration order, which keeps startup
//! deterministic.  Registering an identifier a second time is a no-op when the
//! descriptor is unchanged and is rejected otherwise; a binding is never
//! silently replaced.

use vstd::prelude::*;

use crate::errors::Error;
use crate::ids::{ModuleId, ServiceId};

verus! {

/// What the runtime must know to build and wire a module.
///
/// The concrete factories (service provider, module instance, handler set)
/// are the embedder's code; the descriptor records which of the optional
/// wiring steps the module takes part in and which services it exposes.
pub struct ModuleDescriptor {
    /// The services the module hosts, if any.
    pub service_ids: Vec<ServiceId>,
    /// Whether the module supplies a handlers registrar for protocol servers.
    pub provides_handlers: bool,
    /// Whether the module wires its handlers into the direct-closure
    /// registry, making it locally satisfiable.
    pub enables_direct_closure: bool,
}

/// The mathematical value of a [`ModuleDescriptor`].
pub ghost struct DescriptorModel {
    pub service_ids: Seq<Seq<char>>,
    pub provides_handlers: bool,
    pub enables_direct_closure: bool,
}

impl View for ModuleDescriptor {
    type V = DescriptorModel;

    open spec fn view(&self) -> DescriptorModel {
        DescriptorModel {
            service_ids: self.service_ids@.map_values(|s: ServiceId| s@),
            provides_handlers: self.provides_handlers,
            enables_direct_closure: self.enables_direct_closure,
        }
    }
}

impl ModuleDescriptor {
    /// Returns a descriptor with the same value.
    pub fn duplicate(&self) -> (r: Self)
        ensures
            r@ == self@,
    {
        let n = self.service_ids.len();
        let mut service_ids: Vec<ServiceId> = Vec::new();
        let mut i: usize = 0;
        while i < n
            invariant
                0 <= i <= n,
                n == self.service_ids@.len(),
                service_ids@.len() == i,
                forall|k: int| 0 <= k < i ==> (#[trigger] service_ids@[k])@ == self.service_ids@[k]@,
            decreases n - i,
        {
            service_ids.push(self.service_ids[i].duplicate());
            i += 1;
        }
        let r = ModuleDescriptor {
            service_ids,
            provides_handlers: self.provides_handlers,
            enables_direct_closure: self.enables_direct_closure,
        };
        proof {
            assert(r@.service_ids =~= self@.service_ids);
        }
        r
    }

    /// Value equality of two descriptors.
    pub fn same_as(&self, other: &Self) -> (r: bool)
        ensures
            r == (self@ == other@),
    {
        if self.provides_handlers != other.provides_handlers {
            return false;
        }
        if self.enables_direct_closure != other.enables_direct_closure {
            return false;
        }
        let n = self.service_ids.len();
        if n != other.service_ids.len() {
            assert(self@.service_ids.len() != other@.service_ids.len());
            return false;
        }
        let mut i: usize = 0;
        while i < n
            invariant
                0 <= i <= n,
                n == self.service_ids@.len(),
                n == other.service_ids@.len(),
                forall|k: int|
                    0 <= k < i ==> (#[trigger] self.service_ids@[k])@ == other.service_ids@[k]@,
            decreases n - i,
        {
            if !(self.service_ids[i] == other.service_ids[i]) {
                assert(self@.service_ids[i as int] != other@.service_ids[i as int]);
                return false;
            }
            i += 1;
        }
        proof {
            assert(self@.service_ids =~= other@.service_ids);
        }
        true
    }
}

/// One binding of the registry.
pub ghost struct BindingModel {
    pub module: Seq<char>,
    pub descriptor: DescriptorModel,
}

/// Whether `entries` binds the module identifier `m`.
pub open spec fn contains_module(entries: Seq<BindingModel>, m: Seq<char>) -> bool {
    exists|i: int| 0 <= i < entries.len() && (#[trigger] entries[i]).module == m
}

/// Whether `entries` binds `m` to exactly the descriptor `d`.
pub open spec fn has_binding(entries: Seq<BindingModel>, m: Seq<char>, d: DescriptorModel) -> bool {
    exists|i: int|
        0 <= i < entries.len() && (#[trigger] entries[i]).module == m && entries[i].descriptor == d
}

/// What registering `m -> d` does to a table: a fresh identifier is appended,
/// an identical binding is a no-op, and a conflicting one is rejected.
pub open spec fn spec_register(
    entries: Seq<BindingModel>,
    m: Seq<char>,
    d: DescriptorModel,
) -> (Seq<BindingModel>, Result<(), Error>) {
    if !contains_module(entries, m) {
        (entries.push(BindingModel { module: m, descriptor: d }), Ok(()))
    } else if has_binding(entries, m, d) {
        (entries, Ok(()))
    } else {
        (entries, Err(Error::AlreadyRegistered))
    }
}

/// The process-wide module descriptor table.
pub struct CapabilityRegistry {
    entries: Vec<(ModuleId, ModuleDescriptor)>,
}

impl View for CapabilityRegistry {
    type V = Seq<BindingModel>;

    closed spec fn view(&self) -> Seq<BindingModel> {
        self.entries@.map_values(
            |e: (ModuleId, ModuleDescriptor)|
                BindingModel { module: e.0@, descriptor: e.1@ },
        )
    }
}

impl CapabilityRegistry {
    /// No module identifier is bound twice.
    pub open spec fn wf(&self) -> bool {
        forall|i: int, j: int|
            0 <= i < j < self@.len() ==> (#[trigger] self@[i]).module != (#[trigger] self@[j]).module
    }

    /// An empty registry.
    pub fn new() -> (r: Self)
        ensures
            r@ == Seq::<BindingModel>::empty(),
            r.wf(),
    {
        let r = CapabilityRegistry { entries: Vec::new() };
        proof {
            assert(r@ =~= Seq::<BindingModel>::empty());
        }
        r
    }

    /// Binds `id` to `descriptor`.
    ///
    /// A fresh identifier is appended, so iteration order equals registration
    /// order.  Re-registering the identical descriptor is a no-op; a
    /// different descriptor under an existing identifier is rejected and the
    /// registry is left unchanged.
    pub fn register(&mut self, id: ModuleId, descriptor: ModuleDescriptor) -> (r: Result<(), Error>)
        requires
            old(self).wf(),
        ensures
            final(self).wf(),
            final(self)@ == spec_register(old(self)@, id@, descriptor@).0,
            r == spec_register(old(self)@, id@, descriptor@).1,
    {
        let n = self.entries.len();
        let mut i: usize = 0;
        while i < n
            invariant
                0 <= i <= n,
                n == self.entries@.len(),
                self@.len() == n,
                self == old(self),
                old(self).wf(),
                forall|k: int| 0 <= k < i ==> (#[trigger] self@[k]).module != id@,
            decreases n - i,
        {
            assert(self@[i as int].module == self.entries@[i as int].0@);
            if self.entries[i].0 == id {
                if self.entries[i].1.same_as(&descriptor) {
                    assert(has_binding(self@, id@, descriptor@));
                    return Ok(());
                } else {
                    assert(contains_module(self@, id@));
                    assert forall|k: int|
                        0 <= k < self@.len() && (#[trigger] self@[k]).module == id@ implies
                        self@[k].descriptor != descriptor@ by {
                        if k != i as int {
                            assert(self@[k].module != self@[i as int].module);
                        }
                    }
                    assert(!has_binding(self@, id@, descriptor@));
                    return Err(Error::AlreadyRegistered);
                }
            }
            i += 1;
        }
        assert(!contains_module(self@, id@));
        let ghost pre = self@;
        self.entries.push((id, descriptor));
        proof {
            assert(self@ =~= pre.push(
                BindingModel { module: id@, descriptor: descriptor@ },
            ));
        }
        Ok(())
    }

    /// How many modules are registered.
    pub fn len(&self) -> (r: usize)
        ensures
            r == self@.len(),
    {
        self.entries.len()
    }

    /// The identifier of the `i`-th registered module, in registration order.
    pub fn module_at(&self, i: usize) -> (r: &ModuleId)
        requires
            i < self@.len(),
        ensures
            r@ == self@[i as int].module,
    {
        &self.entries[i].0
    }

    /// The descriptor of the `i`-th registered module, in registration order.
    pub fn descriptor_at(&self, i: usize) -> (r: &ModuleDescriptor)
        requires
            i < self@.len(),
        ensures
            r@ == self@[i as int].descriptor,
    {
        &self.entries[i].1
    }
}

/// Registration is idempotent or rejecting: once an identifier is bound,
/// registering it again — with any descriptor — leaves the table unchanged,
/// and a conflicting descriptor is answered with an error, never silently
/// accepted.
pub proof fn lemma_register_never_replaces(
    entries: Seq<BindingModel>,
    m: Seq<char>,
    d: DescriptorModel,
)
    requires
        contains_module(entries, m),
    ensures
        spec_register(entries, m, d).0 == entries,
        !has_binding(entries, m, d) ==> spec_register(entries, m, d).1 == Err::<(), Error>(
            Error::AlreadyRegistered,
        ),
{
}

} // verus!
