//! Properties of wire synthesis and rendering, proved over the spec functions
//! that the executable functions are verified against.
use vstd::prelude::*;
use crate::ports::{VPort, VConn};
use crate::module::VModule;
use crate::resolve::{resolve, step, wire_name};
use crate::emit::{
    declaration_text, module_declaration, module_resolved, header_text, port_decls_text,
    wires_text, assigns_text, instances_text, instance_line, instance_lines, port_names, wire_line,
};
use crate::ordered::{port_entries, instance_entries};
use crate::text::{line, join, range_text, decimal};

verus! {

/// Rendering is a function of the module's contents and their order alone:
/// two `Internal` modules with the same name, the same interface entries, the
/// same instance entries and the same connections, each in the same order,
/// render to the same text, and succeed or fail alike.
pub proof fn law_render_deterministic(a: VModule, b: VModule)
    requires
        a is Internal,
        b is Internal,
        a->Internal_name@ == b->Internal_name@,
        port_entries(a->Internal_interfaces) == port_entries(b->Internal_interfaces),
        instance_entries(a->Internal_internals) == instance_entries(b->Internal_internals),
        a->Internal_connections@ == b->Internal_connections@,
    ensures
        module_declaration(a) == module_declaration(b),
        module_resolved(a) == module_resolved(b),
{
}

/// The text of a module is its sections in a fixed order; the header lists
/// the interface's port names in insertion order, and the k-th instance line
/// is that of the k-th instance in insertion order. The instance lines depend
/// on the connections only through the port-to-wire table they produce.
pub proof fn law_sections_in_order(
    name: Seq<char>,
    ports: Seq<(Seq<char>, VPort)>,
    insts: Seq<(Seq<char>, VModule)>,
    c1: Seq<VConn>,
    c2: Seq<VConn>,
)
    requires
        resolve(c1).port_to_wire == resolve(c2).port_to_wire,
    ensures
        declaration_text(name, ports, insts, c1) == header_text(name, ports) + port_decls_text(ports)
            + wires_text(resolve(c1).wires) + assigns_text(resolve(c1).assigns) + instances_text(
            resolve(c2).port_to_wire,
            insts,
        ) + line(0, "endmodule"@),
        header_text(name, ports) == line(0, "module "@ + name + " ("@) + line(
            1,
            join(port_names(ports), ", "@),
        ) + line(0, ");"@),
        port_names(ports).len() == ports.len(),
        forall|i: int| 0 <= i < ports.len() ==> #[trigger] port_names(ports)[i] == ports[i].0,
        forall|k: int|
            0 <= k < insts.len() ==> #[trigger] instance_lines(resolve(c1).port_to_wire, insts)[k]
                == instance_line(resolve(c1).port_to_wire, insts[k]),
{
}

/// Wires and assignments keep the order of the connections: those of a
/// prefix of the connection list come first, unchanged, in those of the
/// whole list.
pub proof fn law_wires_follow_connections(c1: Seq<VConn>, c2: Seq<VConn>)
    ensures
        resolve(c1).wires.len() <= resolve(c1 + c2).wires.len(),
        resolve(c1 + c2).wires.take(resolve(c1).wires.len() as int) == resolve(c1).wires,
        resolve(c1).assigns.len() <= resolve(c1 + c2).assigns.len(),
        resolve(c1 + c2).assigns.take(resolve(c1).assigns.len() as int) == resolve(c1).assigns,
    decreases c2.len(),
{
    if c2.len() == 0 {
        assert(c1 + c2 =~= c1);
        assert(resolve(c1).wires.take(resolve(c1).wires.len() as int) =~= resolve(c1).wires);
        assert(resolve(c1).assigns.take(resolve(c1).assigns.len() as int) =~= resolve(
            c1,
        ).assigns);
    } else {
        let d = c2.drop_last();
        law_wires_follow_connections(c1, d);
        assert((c1 + c2).drop_last() =~= c1 + d);
        assert((c1 + c2).last() == c2.last());
        let p = resolve(c1 + d);
        let q = resolve(c1 + c2);
        assert(q == step(p, c2.last()));
        let nw = resolve(c1).wires.len() as int;
        let na = resolve(c1).assigns.len() as int;
        assert(q.wires.take(nw) =~= p.wires.take(nw));
        assert(q.assigns.take(na) =~= p.assigns.take(na));
    }
}

/// The wire `w` is named after an instance-side endpoint of connection `c`.
pub open spec fn named_after(w: Seq<char>, c: VConn) -> bool {
    (c.src@.0 matches Some(m) && w == wire_name(m, c.src@.1)) || (c.dst@.0 matches Some(m) && w
        == wire_name(m, c.dst@.1))
}

/// Every wire that resolution declares comes from one of the connections: it
/// is named after an instance-side endpoint of that connection and has that
/// connection's width.
pub proof fn law_wire_from_connection(conns: Seq<VConn>)
    ensures
        forall|k: int|
            0 <= k < resolve(conns).wires.len() ==> exists|i: int|
                0 <= i < conns.len() && (#[trigger] resolve(conns).wires[k]).1 == conns[i].bits
                    && named_after(resolve(conns).wires[k].0, conns[i]),
    decreases conns.len(),
{
    if conns.len() > 0 {
        let d = conns.drop_last();
        law_wire_from_connection(d);
        let p = resolve(d);
        let q = resolve(conns);
        let c = conns.last();
        assert(q == step(p, c));
        assert forall|k: int| 0 <= k < q.wires.len() implies exists|i: int|
            0 <= i < conns.len() && (#[trigger] q.wires[k]).1 == conns[i].bits && named_after(
                q.wires[k].0,
                conns[i],
            ) by {
            if k < p.wires.len() {
                assert(q.wires[k] == p.wires[k]);
                let i = choose|i: int|
                    0 <= i < d.len() && (#[trigger] p.wires[k]).1 == d[i].bits && named_after(
                        p.wires[k].0,
                        d[i],
                    );
                assert(d[i] == conns[i]);
            } else {
                assert(q.wires[k].1 == conns[conns.len() - 1].bits);
                assert(named_after(q.wires[k].0, conns[conns.len() - 1]));
            }
        }
    }
}

/// A wire's declaration carries its width: no range for a single bit, and
/// `[bits-1:0]` for a wider one.
pub proof fn law_wire_width_text(w: (Seq<char>, usize))
    ensures
        wire_line(w) == line(1, "wire "@ + range_text(w.1 as nat) + w.0 + ";"@),
        w.1 <= 1 ==> range_text(w.1 as nat) == Seq::<char>::empty(),
        w.1 > 1 ==> range_text(w.1 as nat) == "["@ + decimal((w.1 - 1) as nat) + ":0] "@,
{
}

/// A connection between two ports of the module's own interface adds no wire
/// and no port-to-wire entry, and exactly one assignment:
/// `assign dst = src`.
pub proof fn law_interface_connection_adds_no_wire(conns: Seq<VConn>, c: VConn)
    requires
        c.src.mod_name is None,
        c.dst.mod_name is None,
    ensures
        resolve(conns.push(c)).wires == resolve(conns).wires,
        resolve(conns.push(c)).port_to_wire == resolve(conns).port_to_wire,
        resolve(conns.push(c)).assigns == resolve(conns).assigns.push(
            (c.dst.port_name@, c.src.port_name@),
        ),
{
    assert(conns.push(c).drop_last() =~= conns);
}

} // verus!
