//! The insertion-ordered maps of the IR, kept in `indexmap::IndexMap`.
//!
//! Each map is known to the proofs through a name for its contents: an
//! interface as the sequence of its entries in insertion order, the
//! port-to-wire table as a map, and the instances of a module as a sequence.
use vstd::prelude::*;
use indexmap::IndexMap;
use crate::ports::{VPort, VPortLoc, LocView};
use crate::module::VModule;

verus! {

#[verifier::external_type_specification]
#[verifier::external_body]
#[verifier::reject_recursive_types(K)]
#[verifier::reject_recursive_types(V)]
#[verifier::reject_recursive_types(S)]
pub struct ExIndexMap<K, V, S>(IndexMap<K, V, S>);

/// A wire name and its width.
pub type WireSlot = (String, usize);

/// The port-to-wire table of a composite module.
pub type WireTable = IndexMap<VPortLoc, WireSlot>;

/// An entry of an interface, borrowed.
pub type PortEntry<'a> = (&'a String, &'a VPort);

/// An entry of an instance table, borrowed.
pub type InstanceEntry<'a> = (&'a String, &'a VModule);

/// The entries of an interface, in insertion order.
pub uninterp spec fn port_entries(m: IndexMap<String, VPort>) -> Seq<(Seq<char>, VPort)>;

/// Relies on IndexMap::len: the number of entries.
#[verifier::external_body]
pub(crate) fn ports_len(m: &IndexMap<String, VPort>) -> (r: usize)
    ensures
        r == port_entries(*m).len(),
{
    m.len()
}

/// Relies on IndexMap::get_index: the entry at a position of the insertion
/// order, or `None` past the end.
#[verifier::external_body]
pub(crate) fn ports_get_index(m: &IndexMap<String, VPort>, i: usize) -> (r: Option<PortEntry<'_>>)
    ensures
        r is Some == (i < port_entries(*m).len()),
        r matches Some(p) ==> p.0@ == port_entries(*m)[i as int].0 && *p.1 == port_entries(
            *m,
        )[i as int].1,
{
    m.get_index(i)
}

/// Relies on IndexMap::get: the port stored under the name, if any; keys
/// are unique, so every entry of that name holds it.
#[verifier::external_body]
pub(crate) fn ports_get<'a>(m: &'a IndexMap<String, VPort>, k: &String) -> (r: Option<&'a VPort>)
    ensures
        r is Some == (exists|j: int|
            0 <= j < port_entries(*m).len() && #[trigger] port_entries(*m)[j].0 == k@),
        r matches Some(p) ==> forall|j: int|
            0 <= j < port_entries(*m).len() && #[trigger] port_entries(*m)[j].0 == k@
                ==> port_entries(*m)[j].1 == *p,
{
    m.get(k)
}

/// What the port-to-wire table holds: a wire name and width per location.
pub uninterp spec fn wire_entries(m: WireTable) -> Map<LocView, (Seq<char>, usize)>;

/// Relies on IndexMap::new: an empty map.
#[verifier::external_body]
pub(crate) fn wires_new() -> (r: WireTable)
    ensures
        wire_entries(r).is_empty(),
{
    IndexMap::new()
}

/// Relies on IndexMap::insert: the key now maps to the value; the entry of an
/// equal key (derived `Eq`, so equal fields) is replaced.
#[verifier::external_body]
pub(crate) fn wires_insert(m: &mut WireTable, k: VPortLoc, v: WireSlot)
    ensures
        wire_entries(*final(m)) == wire_entries(*old(m)).insert(k@, (v.0@, v.1)),
{
    m.insert(k, v);
}

/// Relies on IndexMap::get: the value stored under an equal key, if any.
#[verifier::external_body]
pub(crate) fn wires_get<'a>(m: &'a WireTable, k: &VPortLoc) -> (r: Option<&'a WireSlot>)
    ensures
        r is Some == wire_entries(*m).contains_key(k@),
        r matches Some(p) ==> (p.0@, p.1) == wire_entries(*m)[k@],
{
    m.get(k)
}

/// The named instances of a composite module, in insertion order.
///
/// The map is held in an opaque struct rather than as a declared `IndexMap`
/// field of `VModule`: a module holds its instances, and Verus refuses a
/// recursive type through a declared outside type's parameter.
#[verifier::external_body]
pub struct Instances {
    map: IndexMap<String, VModule>,
}

/// The entries of an instance table, in insertion order.
pub uninterp spec fn instance_entries(m: Instances) -> Seq<(Seq<char>, VModule)>;

/// Whether `name` is the name of an entry.
pub open spec fn names_entry(s: Seq<(Seq<char>, VModule)>, name: Seq<char>) -> bool {
    exists|j: int| 0 <= j < s.len() && #[trigger] s[j].0 == name
}

impl Instances {
    /// Relies on IndexMap::new: an empty map.
    #[verifier::external_body]
    pub(crate) fn empty() -> (r: Instances)
        ensures
            instance_entries(r) == Seq::<(Seq<char>, VModule)>::empty(),
    {
        Instances { map: IndexMap::new() }
    }

    /// Relies on IndexMap::insert: a new key goes last in order; an existing
    /// key keeps its place and takes the new value.
    #[verifier::external_body]
    pub(crate) fn insert_entry(&mut self, name: String, module: VModule)
        ensures
            !names_entry(instance_entries(*old(self)), name@) ==> instance_entries(*final(self))
                == instance_entries(*old(self)).push((name@, module)),
            forall|j: int|
                0 <= j < instance_entries(*old(self)).len() && #[trigger] instance_entries(
                    *old(self),
                )[j].0 == name@ ==> instance_entries(*final(self)) == instance_entries(
                    *old(self),
                ).update(j, (name@, module)),
    {
        self.map.insert(name, module);
    }

    /// Relies on IndexMap::contains_key: whether an entry has this key.
    #[verifier::external_body]
    pub(crate) fn contains_name(&self, name: &String) -> (r: bool)
        ensures
            r == names_entry(instance_entries(*self), name@),
    {
        self.map.contains_key(name)
    }

    /// Relies on IndexMap::get: the module stored under the name, if any;
    /// keys are unique, so every entry of that name holds it.
    #[verifier::external_body]
    pub(crate) fn get_by_name(&self, name: &String) -> (r: Option<&VModule>)
        ensures
            r is Some == names_entry(instance_entries(*self), name@),
            r matches Some(p) ==> forall|j: int|
                0 <= j < instance_entries(*self).len() && #[trigger] instance_entries(*self)[j].0
                    == name@ ==> instance_entries(*self)[j].1 == *p,
    {
        self.map.get(name)
    }

    /// Relies on IndexMap::len: the number of entries.
    #[verifier::external_body]
    pub(crate) fn len(&self) -> (r: usize)
        ensures
            r == instance_entries(*self).len(),
    {
        self.map.len()
    }

    /// Relies on IndexMap::get_index: the entry at a position of the insertion
    /// order, or `None` past the end.
    #[verifier::external_body]
    pub(crate) fn get_index(&self, i: usize) -> (r: Option<InstanceEntry<'_>>)
        ensures
            r is Some == (i < instance_entries(*self).len()),
            r matches Some(p) ==> p.0@ == instance_entries(*self)[i as int].0 && *p.1
                == instance_entries(*self)[i as int].1,
    {
        self.map.get_index(i)
    }
}

} // verus!
