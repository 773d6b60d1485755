//! Checking that each connection's width agrees with the ports it joins.
use vstd::prelude::*;
use indexmap::IndexMap;
use crate::ports::{VPort, VPortLoc, VConn, LocView};
use crate::module::{VModule, GenError};
use crate::ordered::{Instances, port_entries, instance_entries, ports_get};
use crate::emit::ports_of;

verus! {

/// The width of the interface port named `name`, if there is one.
pub open spec fn port_width(ports: Seq<(Seq<char>, VPort)>, name: Seq<char>) -> Option<usize> {
    if exists|j: int| 0 <= j < ports.len() && #[trigger] ports[j].0 == name {
        let j = choose|j: int| 0 <= j < ports.len() && #[trigger] ports[j].0 == name;
        Some(ports[j].1.bits)
    } else {
        None
    }
}

/// The module of the instance named `name`, if there is one.
pub open spec fn instance_named(insts: Seq<(Seq<char>, VModule)>, name: Seq<char>) -> Option<VModule> {
    if exists|j: int| 0 <= j < insts.len() && #[trigger] insts[j].0 == name {
        let j = choose|j: int| 0 <= j < insts.len() && #[trigger] insts[j].0 == name;
        Some(insts[j].1)
    } else {
        None
    }
}

/// The width of the port at `loc`, seen from a module with these interface
/// ports and instances; `None` where the instance or the port does not exist.
pub open spec fn endpoint_width(
    ports: Seq<(Seq<char>, VPort)>,
    insts: Seq<(Seq<char>, VModule)>,
    loc: LocView,
) -> Option<usize> {
    match loc.0 {
        None => port_width(ports, loc.1),
        Some(i) => match instance_named(insts, i) {
            Some(m) => port_width(ports_of(m), loc.1),
            None => None,
        },
    }
}

/// Both ends of `c` exist and have the width `c` declares.
pub open spec fn connection_conforms(
    ports: Seq<(Seq<char>, VPort)>,
    insts: Seq<(Seq<char>, VModule)>,
    c: VConn,
) -> bool {
    endpoint_width(ports, insts, c.src@) == Some(c.bits) && endpoint_width(ports, insts, c.dst@)
        == Some(c.bits)
}

/// Every connection of the module conforms; an `External` module has none.
pub open spec fn module_conforms(m: VModule) -> bool {
    match m {
        VModule::Internal { interfaces, internals, connections, .. } => forall|i: int|
            0 <= i < connections@.len() ==> connection_conforms(
                port_entries(interfaces),
                instance_entries(internals),
                #[trigger] connections@[i],
            ),
        VModule::External { .. } => true,
    }
}

fn port_width_of(ifaces: &IndexMap<String, VPort>, name: &String) -> (r: Option<usize>)
    ensures
        r == port_width(port_entries(*ifaces), name@),
{
    let ghost ports = port_entries(*ifaces);
    match ports_get(ifaces, name) {
        Some(p) => {
            proof {
                let j = choose|j: int| 0 <= j < ports.len() && #[trigger] ports[j].0 == name@;
                assert(ports[j].1 == *p);
            }
            Some(p.bits)
        },
        None => None,
    }
}

fn endpoint_width_of(ifaces: &IndexMap<String, VPort>, insts: &Instances, loc: &VPortLoc) -> (r:
    Option<usize>)
    ensures
        r == endpoint_width(port_entries(*ifaces), instance_entries(*insts), loc@),
{
    match &loc.mod_name {
        None => port_width_of(ifaces, &loc.port_name),
        Some(i) => {
            let ghost es = instance_entries(*insts);
            match insts.get_by_name(i) {
                Some(m) => {
                    proof {
                        let j = choose|j: int| 0 <= j < es.len() && #[trigger] es[j].0 == i@;
                        assert(es[j].1 == *m);
                    }
                    port_width_of(m.get_interfaces(), &loc.port_name)
                },
                None => None,
            }
        },
    }
}

/// Checks every connection of an `Internal` module against the widths of
/// the ports at its ends, in order, and reports the first that disagrees.
pub fn check_connection_widths(vmod: &VModule) -> (r: Result<(), GenError>)
    ensures
        r is Ok <==> module_conforms(*vmod),
        r matches Err(e) ==> (e matches GenError::WidthMismatch {
            index,
            source,
            destination,
            bits,
            source_bits,
            destination_bits,
        } && vmod is Internal && index < vmod->Internal_connections@.len()
            && vmod->Internal_connections@[index as int].src@ == source@
            && vmod->Internal_connections@[index as int].dst@ == destination@
            && vmod->Internal_connections@[index as int].bits == bits && source_bits
            == endpoint_width(
            port_entries(vmod->Internal_interfaces),
            instance_entries(vmod->Internal_internals),
            source@,
        ) && destination_bits == endpoint_width(
            port_entries(vmod->Internal_interfaces),
            instance_entries(vmod->Internal_internals),
            destination@,
        ) && (source_bits != Some(bits) || destination_bits != Some(bits))),
{
    match vmod {
        VModule::External { .. } => Ok(()),
        VModule::Internal { interfaces, internals, connections, .. } => {
            let ghost ports = port_entries(*interfaces);
            let ghost insts = instance_entries(*internals);
            let mut i: usize = 0;
            while i < connections.len()
                invariant
                    i <= connections@.len(),
                    ports == port_entries(*interfaces),
                    vmod is Internal,
                    vmod->Internal_connections == *connections,
                    vmod->Internal_interfaces == *interfaces,
                    vmod->Internal_internals == *internals,
                    insts == instance_entries(*internals),
                    forall|k: int|
                        0 <= k < i ==> connection_conforms(ports, insts, #[trigger] connections@[k]),
                decreases connections.len() - i,
            {
                let c = &connections[i];
                let sb = endpoint_width_of(interfaces, internals, &c.src);
                let db = endpoint_width_of(interfaces, internals, &c.dst);
                let ok_src = match sb {
                    Some(w) => w == c.bits,
                    None => false,
                };
                let ok_dst = match db {
                    Some(w) => w == c.bits,
                    None => false,
                };
                if !(ok_src && ok_dst) {
                    assert(!connection_conforms(ports, insts, connections@[i as int]));
                    return Err(
                        GenError::WidthMismatch {
                            index: i,
                            source: c.src.duplicate(),
                            destination: c.dst.duplicate(),
                            bits: c.bits,
                            source_bits: sb,
                            destination_bits: db,
                        },
                    );
                }
                i = i + 1;
            }
            Ok(())
        },
    }
}

} // verus!
