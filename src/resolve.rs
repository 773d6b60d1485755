//! Wire synthesis: from the connections of a composite module to the wires it
//! declares, the wire that carries each instance port, and its assignments.
//!
//! Naming is single-sided: a wire that serves an instance port is named
//! `{instance}_{port}`. A connection between two instance ports gets one wire
//! for each side, each bound to its own port, and an assignment from the
//! source-side wire to the destination-side wire.
use vstd::prelude::*;
use vstd::string::*;
use crate::ports::{VConn, VPortLoc, LocView};
use crate::ordered::{WireTable, wire_entries, wires_new, wires_insert};

verus! {

/// What the resolver derives, as values.
pub struct PlanView {
    /// Wires to declare, with their widths, in order of creation.
    pub wires: Seq<(Seq<char>, usize)>,
    /// The wire, and its width, of each instance port met.
    pub port_to_wire: Map<LocView, (Seq<char>, usize)>,
    /// `assign lhs = rhs` statements, as `(lhs, rhs)`, in order.
    pub assigns: Seq<(Seq<char>, Seq<char>)>,
}

/// The name of the wire for port `port` of instance `inst`.
pub open spec fn wire_name(inst: Seq<char>, port: Seq<char>) -> Seq<char> {
    inst + "_"@ + port
}

/// The plan before any connection.
pub open spec fn empty_plan() -> PlanView {
    PlanView { wires: Seq::empty(), port_to_wire: Map::empty(), assigns: Seq::empty() }
}

/// The plan after one more connection `c`.
pub open spec fn step(p: PlanView, c: VConn) -> PlanView {
    let s = c.src@;
    let d = c.dst@;
    match (s.0, d.0) {
        (None, None) => PlanView {
            wires: p.wires,
            port_to_wire: p.port_to_wire,
            assigns: p.assigns.push((d.1, s.1)),
        },
        (Some(m), None) => {
            let w = wire_name(m, s.1);
            PlanView {
                wires: p.wires.push((w, c.bits)),
                port_to_wire: p.port_to_wire.insert(s, (w, c.bits)),
                assigns: p.assigns.push((d.1, w)),
            }
        },
        (None, Some(m)) => {
            let w = wire_name(m, d.1);
            PlanView {
                wires: p.wires.push((w, c.bits)),
                port_to_wire: p.port_to_wire.insert(d, (w, c.bits)),
                assigns: p.assigns.push((w, s.1)),
            }
        },
        (Some(ms), Some(md)) => {
            let ws = wire_name(ms, s.1);
            let wd = wire_name(md, d.1);
            PlanView {
                wires: p.wires.push((ws, c.bits)).push((wd, c.bits)),
                port_to_wire: p.port_to_wire.insert(s, (ws, c.bits)).insert(d, (wd, c.bits)),
                assigns: p.assigns.push((wd, ws)),
            }
        },
    }
}

/// The plan of a list of connections, taken in order.
pub open spec fn resolve(conns: Seq<VConn>) -> PlanView
    decreases conns.len(),
{
    if conns.len() == 0 {
        empty_plan()
    } else {
        step(resolve(conns.drop_last()), conns.last())
    }
}

/// The wires, the port-to-wire table and the assignments of a composite module.
pub struct WirePlan {
    pub wires: Vec<(String, usize)>,
    pub port_to_wire: WireTable,
    pub assigns: Vec<(String, String)>,
}

pub open spec fn wires_view(v: Seq<(String, usize)>) -> Seq<(Seq<char>, usize)> {
    v.map_values(|e: (String, usize)| (e.0@, e.1))
}

pub open spec fn assigns_view(v: Seq<(String, String)>) -> Seq<(Seq<char>, Seq<char>)> {
    v.map_values(|e: (String, String)| (e.0@, e.1@))
}

impl WirePlan {
    pub open spec fn view(&self) -> PlanView {
        PlanView {
            wires: wires_view(self.wires@),
            port_to_wire: wire_entries(self.port_to_wire),
            assigns: assigns_view(self.assigns@),
        }
    }
}

fn make_wire_name(inst: &String, port: &String) -> (r: String)
    ensures
        r@ == wire_name(inst@, port@),
{
    let mut w = inst.clone();
    w.append("_");
    w.append(port.as_str());
    w
}

/// The two-sided name of a connection between `input` and `output`: the port
/// name of an interface-side endpoint (the input's first), or, between two
/// instance ports, `{in_inst}_{in_port}_{out_inst}_{out_port}`.
pub open spec fn connection_name(input: LocView, output: LocView) -> Seq<char> {
    match (input.0, output.0) {
        (None, _) => input.1,
        (Some(_), None) => output.1,
        (Some(mi), Some(mo)) => mi + "_"@ + input.1 + "_"@ + mo + "_"@ + output.1,
    }
}

/// Names a connection after both its endpoints (see `connection_name`).
/// The wires that rendering declares are named single-sided instead (see
/// `wire_name`).
pub fn generate_wire_name(input: &VPortLoc, output: &VPortLoc) -> (r: String)
    ensures
        r@ == connection_name(input@, output@),
{
    match (&input.mod_name, &output.mod_name) {
        (None, _) => input.port_name.clone(),
        (Some(_), None) => output.port_name.clone(),
        (Some(mi), Some(mo)) => {
            let mut w = mi.clone();
            w.append("_");
            w.append(input.port_name.as_str());
            w.append("_");
            w.append(mo.as_str());
            w.append("_");
            w.append(output.port_name.as_str());
            w
        },
    }
}

/// Derives the wiring of a list of connections, taken in order.
pub fn resolve_wires(connections: &Vec<VConn>) -> (r: WirePlan)
    ensures
        r.view() == resolve(connections@),
{
    let mut wires: Vec<(String, usize)> = Vec::new();
    let mut table = wires_new();
    let mut assigns: Vec<(String, String)> = Vec::new();
    let mut i: usize = 0;
    assert(wire_entries(table) =~= Map::empty());
    assert(wires_view(wires@) =~= Seq::empty());
    assert(assigns_view(assigns@) =~= Seq::empty());
    while i < connections.len()
        invariant
            i <= connections@.len(),
            (PlanView {
                wires: wires_view(wires@),
                port_to_wire: wire_entries(table),
                assigns: assigns_view(assigns@),
            }) == resolve(connections@.take(i as int)),
        decreases connections.len() - i,
    {
        let c = &connections[i];
        let ghost w0 = wires@;
        let ghost a0 = assigns@;
        match (&c.src.mod_name, &c.dst.mod_name) {
            (None, None) => {
                assigns.push((c.dst.port_name.clone(), c.src.port_name.clone()));
                assert(assigns_view(assigns@) =~= assigns_view(a0).push(
                    (c.dst.port_name@, c.src.port_name@),
                ));
            },
            (Some(m), None) => {
                let w = make_wire_name(m, &c.src.port_name);
                wires.push((w.clone(), c.bits));
                wires_insert(&mut table, c.src.duplicate(), (w.clone(), c.bits));
                assigns.push((c.dst.port_name.clone(), w));
                assert(wires_view(wires@) =~= wires_view(w0).push(
                    (wire_name(m@, c.src.port_name@), c.bits),
                ));
                assert(assigns_view(assigns@) =~= assigns_view(a0).push(
                    (c.dst.port_name@, wire_name(m@, c.src.port_name@)),
                ));
            },
            (None, Some(m)) => {
                let w = make_wire_name(m, &c.dst.port_name);
                wires.push((w.clone(), c.bits));
                wires_insert(&mut table, c.dst.duplicate(), (w.clone(), c.bits));
                assigns.push((w, c.src.port_name.clone()));
                assert(wires_view(wires@) =~= wires_view(w0).push(
                    (wire_name(m@, c.dst.port_name@), c.bits),
                ));
                assert(assigns_view(assigns@) =~= assigns_view(a0).push(
                    (wire_name(m@, c.dst.port_name@), c.src.port_name@),
                ));
            },
            (Some(ms), Some(md)) => {
                let ws = make_wire_name(ms, &c.src.port_name);
                let wd = make_wire_name(md, &c.dst.port_name);
                wires.push((ws.clone(), c.bits));
                wires.push((wd.clone(), c.bits));
                wires_insert(&mut table, c.src.duplicate(), (ws.clone(), c.bits));
                wires_insert(&mut table, c.dst.duplicate(), (wd.clone(), c.bits));
                assigns.push((wd, ws));
                assert(wires_view(wires@) =~= wires_view(w0).push(
                    (wire_name(ms@, c.src.port_name@), c.bits),
                ).push((wire_name(md@, c.dst.port_name@), c.bits)));
                assert(assigns_view(assigns@) =~= assigns_view(a0).push(
                    (wire_name(md@, c.dst.port_name@), wire_name(ms@, c.src.port_name@)),
                ));
            },
        }
        assert(connections@.take(i + 1).drop_last() =~= connections@.take(i as int));
        i = i + 1;
    }
    assert(connections@.take(i as int) =~= connections@);
    WirePlan { wires, port_to_wire: table, assigns }
}

} // verus!
