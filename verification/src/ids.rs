//! Opaque, comparable identifiers for modules and services.
//!
//! Both identifier types are string-like values with value equality and no
//! ordering semantics.  They are viewed as character sequences, so contracts
//! elsewhere in the crate speak of `id@` rather than of the wrapped `String`.

use vstd::prelude::*;

verus! {

/// Identifier of a module.
#[derive(Debug)]
pub struct ModuleId {
    name: String,
}

impl View for ModuleId {
    type V = Seq<char>;

    closed spec fn view(&self) -> Seq<char> {
        self.name@
    }
}

impl ModuleId {
    /// Wraps an owned string as a module identifier.
    pub fn new(name: String) -> (r: Self)
        ensures
            r@ == name@,
    {
        ModuleId { name }
    }

    /// Builds a module identifier from a borrowed string.
    pub fn from_name(name: &str) -> (r: Self)
        ensures
            r@ == name@,
    {
        ModuleId { name: name.to_owned() }
    }

    /// Returns an identifier with the same value.
    pub fn duplicate(&self) -> (r: Self)
        ensures
            r@ == self@,
    {
        ModuleId { name: self.name.clone() }
    }

    /// Borrows the identifier's text.
    pub fn as_str(&self) -> (r: &str)
        ensures
            r@ == self@,
    {
        self.name.as_str()
    }
}

impl PartialEq for ModuleId {
    fn eq(&self, other: &Self) -> (r: bool) {
        self.name == other.name
    }
}

impl vstd::std_specs::cmp::PartialEqSpecImpl for ModuleId {
    open spec fn obeys_eq_spec() -> bool {
        true
    }

    open spec fn eq_spec(&self, other: &Self) -> bool {
        self@ == other@
    }
}

/// Identifier of a single named capability exposed by a module.
#[derive(Debug)]
pub struct ServiceId {
    name: String,
}

impl View for ServiceId {
    type V = Seq<char>;

    closed spec fn view(&self) -> Seq<char> {
        self.name@
    }
}

impl ServiceId {
    /// Wraps an owned string as a service identifier.
    pub fn new(name: String) -> (r: Self)
        ensures
            r@ == name@,
    {
        ServiceId { name }
    }

    /// Builds a service identifier from a borrowed string.
    pub fn from_name(name: &str) -> (r: Self)
        ensures
            r@ == name@,
    {
        ServiceId { name: name.to_owned() }
    }

    /// Returns an identifier with the same value.
    pub fn duplicate(&self) -> (r: Self)
        ensures
            r@ == self@,
    {
        ServiceId { name: self.name.clone() }
    }

    /// Borrows the identifier's text.
    pub fn as_str(&self) -> (r: &str)
        ensures
            r@ == self@,
    {
        self.name.as_str()
    }
}

/// Copies a list of service identifiers value for value.
pub fn duplicate_service_ids(ids: &Vec<ServiceId>) -> (r: Vec<ServiceId>)
    ensures
        r@.len() == ids@.len(),
        forall|i: int| 0 <= i < ids@.len() ==> (#[trigger] r@[i])@ == ids@[i]@,
        r@.map_values(|s: ServiceId| s@) == ids@.map_values(|s: ServiceId| s@),
{
    let n = ids.len();
    let mut r: Vec<ServiceId> = Vec::new();
    let mut i: usize = 0;
    while i < n
        invariant
            0 <= i <= n,
            n == ids@.len(),
            r@.len() == i,
            forall|k: int| 0 <= k < i ==> (#[trigger] r@[k])@ == ids@[k]@,
        decreases n - i,
    {
        r.push(ids[i].duplicate());
        i += 1;
    }
    proof {
        assert(r@.map_values(|s: ServiceId| s@) =~= ids@.map_values(|s: ServiceId| s@));
    }
    r
}

impl PartialEq for ServiceId {
    fn eq(&self, other: &Self) -> (r: bool) {
        self.name == other.name
    }
}

impl vstd::std_specs::cmp::PartialEqSpecImpl for ServiceId {
    open spec fn obeys_eq_spec() -> bool {
        true
    }

    open spec fn eq_spec(&self, other: &Self) -> bool {
        self@ == other@
    }
}

} // verus!
