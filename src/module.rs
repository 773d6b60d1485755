//! The module tree and the errors of building and rendering it.
use vstd::prelude::*;
use indexmap::IndexMap;
use crate::ports::{VPort, VPortLoc, VConn};
use crate::ordered::{Instances, instance_entries};

verus! {

/// A module of the IR: an opaque leaf, or a composite of named instances
/// wired together by connections.
pub enum VModule {
    External {
        name: String,
        /// The bit width the leaf is instantiated with.
        param: usize,
        interfaces: IndexMap<String, VPort>,
    },
    Internal {
        name: String,
        interfaces: IndexMap<String, VPort>,
        internals: Instances,
        connections: Vec<VConn>,
    },
}

/// The errors of building and rendering a module tree.
#[derive(Debug)]
pub enum GenError {
    /// A declaration was asked of an `External` module.
    InvalidUsage,
    /// The port `port` of instance `instance` has no wire.
    UnresolvedPortReference { instance: String, port: String },
    /// Two instances of one module share the name `name`.
    DuplicateInstanceName { name: String },
    /// Connection `index` declares `bits`, and the port at one of its ends
    /// has another width or does not exist (`None`).
    WidthMismatch {
        index: usize,
        source: VPortLoc,
        destination: VPortLoc,
        bits: usize,
        source_bits: Option<usize>,
        destination_bits: Option<usize>,
    },
}

/// The name of a module, of either kind.
pub open spec fn module_name(m: VModule) -> Seq<char> {
    match m {
        VModule::External { name, .. } => name@,
        VModule::Internal { name, .. } => name@,
    }
}

/// The interface of a module, of either kind.
pub open spec fn module_interface(m: VModule) -> IndexMap<String, VPort> {
    match m {
        VModule::External { interfaces, .. } => interfaces,
        VModule::Internal { interfaces, .. } => interfaces,
    }
}

impl VModule {
    pub fn get_name(&self) -> (r: &str)
        ensures
            r@ == module_name(*self),
    {
        match self {
            VModule::External { name, .. } => name.as_str(),
            VModule::Internal { name, .. } => name.as_str(),
        }
    }

    pub fn get_interfaces(&self) -> (r: &IndexMap<String, VPort>)
        ensures
            *r == module_interface(*self),
    {
        match self {
            VModule::External { interfaces, .. } => interfaces,
            VModule::Internal { interfaces, .. } => interfaces,
        }
    }
}

/// The view of a list of named instances.
pub open spec fn entries_view(s: Seq<(String, VModule)>) -> Seq<(Seq<char>, VModule)> {
    s.map_values(|e: (String, VModule)| (e.0@, e.1))
}

/// No two entries share a name.
pub open spec fn distinct_names(s: Seq<(String, VModule)>) -> bool {
    forall|i: int, j: int| 0 <= i < j < s.len() ==> #[trigger] s[i].0@ != #[trigger] s[j].0@
}

impl Instances {
    /// Builds an instance table from named modules, kept in the given order.
    /// Fails on the first name that an earlier entry already has.
    pub fn from_entries(entries: Vec<(String, VModule)>) -> (r: Result<Instances, GenError>)
        ensures
            r is Ok <==> distinct_names(entries@),
            r matches Ok(m) ==> instance_entries(m) == entries_view(entries@),
            r matches Err(e) ==> e matches GenError::DuplicateInstanceName { name } && exists|
                i: int,
                j: int,
            | 0 <= i < j < entries@.len() && entries@[i].0@ == name@ && entries@[j].0@ == name@,
    {
        let ghost orig = entries@;
        let total = entries.len();
        let mut rest = entries;
        let mut m = Instances::empty();
        let mut k: usize = 0;
        while rest.len() > 0
            invariant
                k <= orig.len() == total,
                orig == entries@,
                rest@ == orig.subrange(k as int, orig.len() as int),
                instance_entries(m) == entries_view(orig.take(k as int)),
                forall|i: int, j: int|
                    0 <= i < j < k ==> #[trigger] orig[i].0@ != #[trigger] orig[j].0@,
            decreases rest.len(),
        {
            assert(rest@[0] == orig[k as int]);
            let (name, module) = rest.remove(0);
            if m.contains_name(&name) {
                proof {
                    let s = instance_entries(m);
                    let j = choose|j: int| 0 <= j < s.len() && #[trigger] s[j].0 == name@;
                    assert(orig.take(k as int)[j] == orig[j]);
                    assert(orig[j].0@ == name@);
                    assert(name == orig[k as int].0);
                    assert(orig[j].0@ == orig[k as int].0@);
                    assert(!distinct_names(orig));
                    assert(exists|i: int, j: int|
                        0 <= i < j < orig.len() && orig[i].0@ == name@ && orig[j].0@ == name@);
                }
                return Err(GenError::DuplicateInstanceName { name });
            }
            proof {
                let s = instance_entries(m);
                assert forall|j: int| 0 <= j < k implies orig[j].0@ != orig[k as int].0@ by {
                    assert(s[j].0 == orig[j].0@);
                }
            }
            m.insert_entry(name, module);
            assert(entries_view(orig.take(k + 1)) =~= entries_view(orig.take(k as int)).push(
                (orig[k as int].0@, orig[k as int].1),
            ));
            assert(rest@ =~= orig.subrange(k + 1, orig.len() as int));
            k = k + 1;
        }
        assert(orig.take(k as int) =~= orig);
        Ok(m)
    }
}

} // verus!
