//! Rendering of a composite module as structural hardware-description text.
//!
//! The text of a module, in order: the header with the port list, one
//! declaration per interface port, one per wire, the assignments, one line
//! per instance listing the wires bound to its ports in the order of the
//! instance's own interface, and `endmodule`. Lines inside the module are
//! indented one level (four spaces) deeper than the header and the footer.
use vstd::prelude::*;
use vstd::string::*;
use indexmap::IndexMap;
use crate::ports::{Polarity, VPort, VPortLoc, LocView};
use crate::module::{VModule, GenError, module_name, module_interface};
use crate::ordered::{
    Instances, WireTable, port_entries, instance_entries, wire_entries, ports_len,
    ports_get_index, wires_get,
};
use crate::resolve::{resolve, resolve_wires, wires_view, assigns_view};
use crate::text::{
    indent, line, join, concat_all, range_text, lemma_concat_push, lemma_join_push, push_indent,
    push_range,
};

verus! {

pub open spec fn direction_word(p: Polarity) -> Seq<char> {
    match p {
        Polarity::Input => "input"@,
        Polarity::Output => "output"@,
    }
}

pub open spec fn port_names(ports: Seq<(Seq<char>, VPort)>) -> Seq<Seq<char>> {
    ports.map_values(|e: (Seq<char>, VPort)| e.0)
}

/// `module NAME (`, the port names joined by `, `, and `);`, on three lines.
pub open spec fn header_text(name: Seq<char>, ports: Seq<(Seq<char>, VPort)>) -> Seq<char> {
    line(0, "module "@ + name + " ("@) + line(1, join(port_names(ports), ", "@)) + line(0, ");"@)
}

pub open spec fn port_decl_line(e: (Seq<char>, VPort)) -> Seq<char> {
    line(1, direction_word(e.1.polarity) + " "@ + range_text(e.1.bits as nat) + e.0 + ";"@)
}

pub open spec fn port_decls_text(ports: Seq<(Seq<char>, VPort)>) -> Seq<char> {
    concat_all(ports.map_values(|e: (Seq<char>, VPort)| port_decl_line(e)))
}

pub open spec fn wire_line(w: (Seq<char>, usize)) -> Seq<char> {
    line(1, "wire "@ + range_text(w.1 as nat) + w.0 + ";"@)
}

pub open spec fn wires_text(ws: Seq<(Seq<char>, usize)>) -> Seq<char> {
    concat_all(ws.map_values(|w: (Seq<char>, usize)| wire_line(w)))
}

pub open spec fn assign_line(a: (Seq<char>, Seq<char>)) -> Seq<char> {
    line(1, "assign "@ + a.0 + " = "@ + a.1 + ";"@)
}

pub open spec fn assigns_text(s: Seq<(Seq<char>, Seq<char>)>) -> Seq<char> {
    concat_all(s.map_values(|a: (Seq<char>, Seq<char>)| assign_line(a)))
}

/// The wires bound to the given ports of instance `inst`.
pub open spec fn bound_wires(
    table: Map<LocView, (Seq<char>, usize)>,
    inst: Seq<char>,
    ports: Seq<(Seq<char>, VPort)>,
) -> Seq<Seq<char>> {
    ports.map_values(|e: (Seq<char>, VPort)| table[(Some(inst), e.0)].0)
}

/// The ports of a module's interface, in order.
pub open spec fn ports_of(m: VModule) -> Seq<(Seq<char>, VPort)> {
    port_entries(module_interface(m))
}

/// `TYPE INSTANCE (wire, wire, ...);`
pub open spec fn instance_line(
    table: Map<LocView, (Seq<char>, usize)>,
    e: (Seq<char>, VModule),
) -> Seq<char> {
    line(
        1,
        module_name(e.1) + " "@ + e.0 + " ("@ + join(bound_wires(table, e.0, ports_of(e.1)), ", "@)
            + ");"@,
    )
}

/// One instance line per instance, in order.
pub open spec fn instance_lines(
    table: Map<LocView, (Seq<char>, usize)>,
    insts: Seq<(Seq<char>, VModule)>,
) -> Seq<Seq<char>> {
    insts.map_values(|e: (Seq<char>, VModule)| instance_line(table, e))
}

pub open spec fn instances_text(
    table: Map<LocView, (Seq<char>, usize)>,
    insts: Seq<(Seq<char>, VModule)>,
) -> Seq<char> {
    concat_all(instance_lines(table, insts))
}

/// Every port of the instance has a wire.
pub open spec fn instance_resolved(
    table: Map<LocView, (Seq<char>, usize)>,
    e: (Seq<char>, VModule),
) -> bool {
    forall|j: int|
        0 <= j < ports_of(e.1).len() ==> table.contains_key((Some(e.0), #[trigger] ports_of(e.1)[j].0))
}

/// Every port of every instance has a wire.
pub open spec fn all_resolved(
    table: Map<LocView, (Seq<char>, usize)>,
    insts: Seq<(Seq<char>, VModule)>,
) -> bool {
    forall|k: int| 0 <= k < insts.len() ==> instance_resolved(table, #[trigger] insts[k])
}

/// Port `port` of instance `inst` is declared and has no wire.
pub open spec fn unresolved(
    table: Map<LocView, (Seq<char>, usize)>,
    insts: Seq<(Seq<char>, VModule)>,
    inst: Seq<char>,
    port: Seq<char>,
) -> bool {
    exists|k: int, j: int|
        0 <= k < insts.len() && 0 <= j < ports_of(insts[k].1).len() && #[trigger] insts[k].0 == inst
            && #[trigger] ports_of(insts[k].1)[j].0 == port && !table.contains_key((Some(inst), port))
}

/// The declaration of a composite module with these parts.
pub open spec fn declaration_text(
    name: Seq<char>,
    ports: Seq<(Seq<char>, VPort)>,
    insts: Seq<(Seq<char>, VModule)>,
    conns: Seq<crate::ports::VConn>,
) -> Seq<char> {
    let plan = resolve(conns);
    header_text(name, ports) + port_decls_text(ports) + wires_text(plan.wires) + assigns_text(
        plan.assigns,
    ) + instances_text(plan.port_to_wire, insts) + line(0, "endmodule"@)
}

/// The declaration of a module; only an `Internal` module has one.
pub open spec fn module_declaration(m: VModule) -> Seq<char> {
    match m {
        VModule::Internal { name, interfaces, internals, connections } => declaration_text(
            name@,
            port_entries(interfaces),
            instance_entries(internals),
            connections@,
        ),
        VModule::External { .. } => Seq::empty(),
    }
}

/// An `Internal` module every instance port of which gets a wire.
pub open spec fn module_resolved(m: VModule) -> bool {
    match m {
        VModule::Internal { internals, connections, .. } => all_resolved(
            resolve(connections@).port_to_wire,
            instance_entries(internals),
        ),
        VModule::External { .. } => false,
    }
}

/// In an `Internal` module, port `port` of instance `inst` gets no wire.
pub open spec fn module_unresolved(m: VModule, inst: Seq<char>, port: Seq<char>) -> bool {
    match m {
        VModule::Internal { internals, connections, .. } => unresolved(
            resolve(connections@).port_to_wire,
            instance_entries(internals),
            inst,
            port,
        ),
        VModule::External { .. } => false,
    }
}

fn emit_header(out: &mut String, name: &String, ifaces: &IndexMap<String, VPort>)
    ensures
        final(out)@ == old(out)@ + header_text(name@, port_entries(*ifaces)),
{
    let ghost ports = port_entries(*ifaces);
    out.append("module ");
    out.append(name.as_str());
    out.append(" (");
    out.append("\n");
    let ghost mid = out@;
    push_indent(out, 1);
    let n = ports_len(ifaces);
    let mut i: usize = 0;
    while i < n
        invariant
            n == ports.len(),
            i <= n,
            ports == port_entries(*ifaces),
            out@ == mid + indent(1) + join(port_names(ports.take(i as int)), ", "@),
        decreases n - i,
    {
        let ghost before = out@;
        if let Some((pname, _)) = ports_get_index(ifaces, i) {
            if i > 0 {
                out.append(", ");
            }
            out.append(pname.as_str());
            assert(port_names(ports.take(i + 1)) =~= port_names(ports.take(i as int)).push(
                ports[i as int].0,
            ));
            proof {
                lemma_join_push(port_names(ports.take(i as int)), ", "@, ports[i as int].0);
            }
            if i == 0 {
                assert(port_names(ports.take(0)) =~= Seq::empty());
                assert(join(port_names(ports.take(0)), ", "@) =~= Seq::empty());
            }
            assert(out@ =~= mid + indent(1) + join(port_names(ports.take(i + 1)), ", "@));
        }
        i = i + 1;
    }
    out.append("\n");
    out.append(");");
    out.append("\n");
    assert(ports.take(n as int) =~= ports);
    assert(indent(0) =~= Seq::empty());
    assert(out@ =~= old(out)@ + header_text(name@, ports));
}

fn emit_port_decls(out: &mut String, ifaces: &IndexMap<String, VPort>)
    ensures
        final(out)@ == old(out)@ + port_decls_text(port_entries(*ifaces)),
{
    let ghost ports = port_entries(*ifaces);
    let n = ports_len(ifaces);
    let mut i: usize = 0;
    assert(ports.take(0).map_values(|e: (Seq<char>, VPort)| port_decl_line(e)) =~= Seq::empty());
    while i < n
        invariant
            n == ports.len(),
            i <= n,
            ports == port_entries(*ifaces),
            out@ == old(out)@ + port_decls_text(ports.take(i as int)),
        decreases n - i,
    {
        if let Some((pname, port)) = ports_get_index(ifaces, i) {
            let mut l = String::new();
            push_indent(&mut l, 1);
            match port.polarity {
                Polarity::Input => l.append("input"),
                Polarity::Output => l.append("output"),
            }
            l.append(" ");
            push_range(&mut l, port.bits);
            l.append(pname.as_str());
            l.append(";");
            l.append("\n");
            assert(l@ =~= port_decl_line(ports[i as int]));
            out.append(l.as_str());
            assert(ports.take(i + 1).map_values(|e: (Seq<char>, VPort)| port_decl_line(e))
                =~= ports.take(i as int).map_values(|e: (Seq<char>, VPort)| port_decl_line(e)).push(
                port_decl_line(ports[i as int]),
            ));
            proof {
                lemma_concat_push(
                    ports.take(i as int).map_values(|e: (Seq<char>, VPort)| port_decl_line(e)),
                    port_decl_line(ports[i as int]),
                );
            }
        }
        i = i + 1;
    }
    assert(ports.take(n as int) =~= ports);
}

fn emit_wires(out: &mut String, wires: &Vec<(String, usize)>)
    ensures
        final(out)@ == old(out)@ + wires_text(wires_view(wires@)),
{
    let ghost ws = wires_view(wires@);
    let mut i: usize = 0;
    assert(ws.take(0).map_values(|w: (Seq<char>, usize)| wire_line(w)) =~= Seq::empty());
    while i < wires.len()
        invariant
            i <= wires@.len(),
            ws == wires_view(wires@),
            out@ == old(out)@ + wires_text(ws.take(i as int)),
        decreases wires.len() - i,
    {
        let mut l = String::new();
        push_indent(&mut l, 1);
        l.append("wire ");
        push_range(&mut l, wires[i].1);
        l.append(wires[i].0.as_str());
        l.append(";");
        l.append("\n");
        assert(l@ =~= wire_line(ws[i as int]));
        out.append(l.as_str());
        assert(ws.take(i + 1).map_values(|w: (Seq<char>, usize)| wire_line(w)) =~= ws.take(
            i as int,
        ).map_values(|w: (Seq<char>, usize)| wire_line(w)).push(wire_line(ws[i as int])));
        proof {
            lemma_concat_push(
                ws.take(i as int).map_values(|w: (Seq<char>, usize)| wire_line(w)),
                wire_line(ws[i as int]),
            );
        }
        i = i + 1;
    }
    assert(ws.take(i as int) =~= ws);
}

fn emit_assigns(out: &mut String, assigns: &Vec<(String, String)>)
    ensures
        final(out)@ == old(out)@ + assigns_text(assigns_view(assigns@)),
{
    let ghost s = assigns_view(assigns@);
    let mut i: usize = 0;
    assert(s.take(0).map_values(|a: (Seq<char>, Seq<char>)| assign_line(a)) =~= Seq::empty());
    while i < assigns.len()
        invariant
            i <= assigns@.len(),
            s == assigns_view(assigns@),
            out@ == old(out)@ + assigns_text(s.take(i as int)),
        decreases assigns.len() - i,
    {
        let mut l = String::new();
        push_indent(&mut l, 1);
        l.append("assign ");
        l.append(assigns[i].0.as_str());
        l.append(" = ");
        l.append(assigns[i].1.as_str());
        l.append(";");
        l.append("\n");
        assert(l@ =~= assign_line(s[i as int]));
        out.append(l.as_str());
        assert(s.take(i + 1).map_values(|a: (Seq<char>, Seq<char>)| assign_line(a)) =~= s.take(
            i as int,
        ).map_values(|a: (Seq<char>, Seq<char>)| assign_line(a)).push(assign_line(s[i as int])));
        proof {
            lemma_concat_push(
                s.take(i as int).map_values(|a: (Seq<char>, Seq<char>)| assign_line(a)),
                assign_line(s[i as int]),
            );
        }
        i = i + 1;
    }
    assert(s.take(i as int) =~= s);
}

/// Appends the instance lines; fails, naming the instance and the port, at
/// the first instance port that has no wire.
fn emit_instances(out: &mut String, insts: &Instances, table: &WireTable) -> (r: Result<(), GenError>)
    ensures
        r is Ok <==> all_resolved(wire_entries(*table), instance_entries(*insts)),
        r is Ok ==> final(out)@ == old(out)@ + instances_text(
            wire_entries(*table),
            instance_entries(*insts),
        ),
        r matches Err(e) ==> e matches GenError::UnresolvedPortReference { instance, port }
            && unresolved(wire_entries(*table), instance_entries(*insts), instance@, port@),
{
    let ghost es = instance_entries(*insts);
    let ghost tv = wire_entries(*table);
    let n = insts.len();
    let mut k: usize = 0;
    assert(es.take(0).map_values(|e: (Seq<char>, VModule)| instance_line(tv, e)) =~= Seq::empty());
    while k < n
        invariant
            n == es.len(),
            k <= n,
            es == instance_entries(*insts),
            tv == wire_entries(*table),
            out@ == old(out)@ + instances_text(tv, es.take(k as int)),
            forall|k2: int| 0 <= k2 < k ==> instance_resolved(tv, #[trigger] es[k2]),
        decreases n - k,
    {
        if let Some((iname, imod)) = insts.get_index(k) {
            let ghost ports = ports_of(*imod);
            let ifaces = imod.get_interfaces();
            let mut l = String::new();
            push_indent(&mut l, 1);
            l.append(imod.get_name());
            l.append(" ");
            l.append(iname.as_str());
            l.append(" (");
            let ghost mid = l@;
            let m = ports_len(ifaces);
            let mut j: usize = 0;
            while j < m
                invariant
                    m == ports.len(),
                    j <= m,
                    ports == port_entries(*ifaces),
                    ports == ports_of(es[k as int].1),
                    iname@ == es[k as int].0,
                    0 <= k < es.len(),
                    es == instance_entries(*insts),
                    tv == wire_entries(*table),
                    l@ == mid + join(bound_wires(tv, iname@, ports.take(j as int)), ", "@),
                    forall|j2: int|
                        0 <= j2 < j ==> tv.contains_key((Some(iname@), #[trigger] ports[j2].0)),
                decreases m - j,
            {
                if let Some((pname, _)) = ports_get_index(ifaces, j) {
                    let loc = VPortLoc::new(Some(iname.clone()), pname.clone());
                    match wires_get(table, &loc) {
                        None => {
                            assert(loc@ == (Some(iname@), pname@));
                            assert(es[k as int].0 == iname@ && ports_of(es[k as int].1)[j as int].0
                                == pname@);
                            assert(!instance_resolved(tv, es[k as int]));
                            assert(unresolved(tv, es, iname@, pname@));
                            return Err(
                                GenError::UnresolvedPortReference {
                                    instance: iname.clone(),
                                    port: pname.clone(),
                                },
                            );
                        },
                        Some(slot) => {
                            if j > 0 {
                                l.append(", ");
                            }
                            l.append(slot.0.as_str());
                            let ghost w = tv[(Some(iname@), ports[j as int].0)].0;
                            assert(bound_wires(tv, iname@, ports.take(j + 1)) =~= bound_wires(
                                tv,
                                iname@,
                                ports.take(j as int),
                            ).push(w));
                            proof {
                                lemma_join_push(
                                    bound_wires(tv, iname@, ports.take(j as int)),
                                    ", "@,
                                    w,
                                );
                            }
                            if j == 0 {
                                assert(bound_wires(tv, iname@, ports.take(0)) =~= Seq::empty());
                                assert(join(bound_wires(tv, iname@, ports.take(0)), ", "@)
                                    =~= Seq::empty());
                            }
                            assert(l@ =~= mid + join(
                                bound_wires(tv, iname@, ports.take(j + 1)),
                                ", "@,
                            ));
                        },
                    }
                }
                j = j + 1;
            }
            l.append(");");
            l.append("\n");
            assert(ports.take(m as int) =~= ports);
            assert(l@ =~= instance_line(tv, es[k as int]));
            out.append(l.as_str());
            assert(es.take(k + 1).map_values(|e: (Seq<char>, VModule)| instance_line(tv, e))
                =~= es.take(k as int).map_values(|e: (Seq<char>, VModule)| instance_line(tv, e)).push(
                instance_line(tv, es[k as int]),
            ));
            proof {
                lemma_concat_push(
                    es.take(k as int).map_values(|e: (Seq<char>, VModule)| instance_line(tv, e)),
                    instance_line(tv, es[k as int]),
                );
            }
        }
        k = k + 1;
    }
    assert(es.take(n as int) =~= es);
    Ok(())
}

/// Renders the declaration of an `Internal` module and appends it to `defs`.
///
/// An `External` module has no declaration: the result is `InvalidUsage`.
/// Where a port of an instance has no wire, the result names that instance
/// and port. On either error `defs` is left as it was.
pub fn generate_module_decl(vmod: &VModule, defs: &mut String) -> (r: Result<(), GenError>)
    ensures
        vmod is External ==> r matches Err(GenError::InvalidUsage),
        vmod is Internal ==> (r is Ok <==> module_resolved(*vmod)),
        r is Ok ==> final(defs)@ == old(defs)@ + module_declaration(*vmod),
        r is Err ==> final(defs)@ == old(defs)@,
        vmod is Internal ==> (r matches Err(e) ==> (e matches GenError::UnresolvedPortReference {
            instance,
            port,
        } && module_unresolved(*vmod, instance@, port@))),
{
    match vmod {
        VModule::External { .. } => Err(GenError::InvalidUsage),
        VModule::Internal { name, interfaces, internals, connections } => {
            let mut text = String::new();
            emit_header(&mut text, name, interfaces);
            emit_port_decls(&mut text, interfaces);
            let plan = resolve_wires(connections);
            emit_wires(&mut text, &plan.wires);
            emit_assigns(&mut text, &plan.assigns);
            match emit_instances(&mut text, internals, &plan.port_to_wire) {
                Err(e) => {
                    return Err(e);
                },
                Ok(()) => {},
            }
            text.append("endmodule");
            text.append("\n");
            assert(indent(0) =~= Seq::empty());
            defs.append(text.as_str());
            assert(defs@ =~= old(defs)@ + module_declaration(*vmod));
            Ok(())
        },
    }
}

} // verus!
