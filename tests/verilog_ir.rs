use indexmap::IndexMap;
use verilog_ir::{
    check_connection_widths, generate_module_decl, generate_wire_name, resolve_wires, s, GenError, Instances, Polarity,
    Term, VConn, VModule, VPort, VPortLoc,
};

fn flip_flop() -> VModule {
    VModule::External {
        name: s("d_flip_flop"),
        param: 8,
        interfaces: vec![
            (s("in"), VPort::new(Polarity::Input, 8)),
            (s("out"), VPort::new(Polarity::Output, 8)),
        ]
        .into_iter()
        .collect(),
    }
}

fn seq_module() -> VModule {
    let d_flip_flop = flip_flop();
    VModule::Internal {
        name: s("seq"),
        interfaces: vec![
            (s("cmd_req"), VPort::new(Polarity::Output, 1)),
            (s("cmd_valid"), VPort::new(Polarity::Input, 1)),
            (s("exp_req"), VPort::new(Polarity::Output, 1)),
            (s("exp"), VPort::new(Polarity::Input, 8)),
            (s("exp_valid"), VPort::new(Polarity::Input, 1)),
            (s("req"), VPort::new(Polarity::Input, 1)),
            (s("ret"), VPort::new(Polarity::Output, 8)),
            (s("valid"), VPort::new(Polarity::Output, 1)),
        ]
        .into_iter()
        .collect(),
        internals: Instances::from_entries(vec![("D".to_string(), d_flip_flop)]).unwrap(),
        connections: vec![
            VConn::new(VPortLoc::new(None, s("req")), VPortLoc::new(None, s("cmd_req")), 1),
            VConn::new(
                VPortLoc::new(None, s("cmd_valid")),
                VPortLoc::new(Some(s("D")), s("in")),
                1,
            ),
            VConn::new(
                VPortLoc::new(Some(s("D")), s("out")),
                VPortLoc::new(None, s("exp_req")),
                1,
            ),
            VConn::new(VPortLoc::new(None, s("exp_valid")), VPortLoc::new(None, s("valid")), 8),
            VConn::new(VPortLoc::new(None, s("exp")), VPortLoc::new(None, s("ret")), 8),
        ],
    }
}

const SEQ_TEXT: &str = "module seq (
    cmd_req, cmd_valid, exp_req, exp, exp_valid, req, ret, valid
);
    output cmd_req;
    input cmd_valid;
    output exp_req;
    input [7:0] exp;
    input exp_valid;
    input req;
    output [7:0] ret;
    output valid;
    wire D_in;
    wire D_out;
    assign cmd_req = req;
    assign D_in = cmd_valid;
    assign exp_req = D_out;
    assign valid = exp_valid;
    assign ret = exp;
    d_flip_flop D (D_in, D_out);
endmodule
";

#[test]
fn test_seq() {
    let vmod = seq_module();
    let mut buf = String::new();
    generate_module_decl(&vmod, &mut buf).unwrap();
    println!("Generated verilog:\n{}", buf);
    assert_eq!(buf, SEQ_TEXT);
}

#[test]
fn rendering_twice_gives_identical_text() {
    let vmod = seq_module();
    let mut a = String::new();
    let mut b = String::new();
    generate_module_decl(&vmod, &mut a).unwrap();
    generate_module_decl(&vmod, &mut b).unwrap();
    assert_eq!(a, b);
}

#[test]
fn rendering_appends_to_existing_text() {
    let vmod = seq_module();
    let mut buf = s("// top\n");
    generate_module_decl(&vmod, &mut buf).unwrap();
    assert_eq!(buf, format!("// top\n{}", SEQ_TEXT));
}

#[test]
fn external_module_is_rejected_without_output() {
    let mut buf = s("kept");
    let r = generate_module_decl(&flip_flop(), &mut buf);
    assert!(matches!(r, Err(GenError::InvalidUsage)));
    assert_eq!(buf, "kept");
}

#[test]
fn unconnected_instance_port_is_reported() {
    let vmod = VModule::Internal {
        name: s("top"),
        interfaces: vec![(s("a"), VPort::new(Polarity::Input, 8))].into_iter().collect(),
        internals: Instances::from_entries(vec![(s("F"), flip_flop())]).unwrap(),
        connections: vec![VConn::new(
            VPortLoc::new(None, s("a")),
            VPortLoc::new(Some(s("F")), s("in")),
            8,
        )],
    };
    let mut buf = String::new();
    match generate_module_decl(&vmod, &mut buf) {
        Err(GenError::UnresolvedPortReference { instance, port }) => {
            assert_eq!(instance, "F");
            assert_eq!(port, "out");
        }
        other => panic!("unexpected result {:?}", other),
    }
    assert_eq!(buf, "");
}

#[test]
fn instance_to_instance_gets_a_wire_per_side() {
    let vmod = VModule::Internal {
        name: s("chain"),
        interfaces: vec![
            (s("x"), VPort::new(Polarity::Input, 8)),
            (s("y"), VPort::new(Polarity::Output, 8)),
        ]
        .into_iter()
        .collect(),
        internals: Instances::from_entries(vec![(s("A"), flip_flop()), (s("B"), flip_flop())])
            .unwrap(),
        connections: vec![
            VConn::new(VPortLoc::new(None, s("x")), VPortLoc::new(Some(s("A")), s("in")), 8),
            VConn::new(
                VPortLoc::new(Some(s("A")), s("out")),
                VPortLoc::new(Some(s("B")), s("in")),
                8,
            ),
            VConn::new(VPortLoc::new(Some(s("B")), s("out")), VPortLoc::new(None, s("y")), 8),
        ],
    };
    let mut buf = String::new();
    generate_module_decl(&vmod, &mut buf).unwrap();
    let expected = "module chain (
    x, y
);
    input [7:0] x;
    output [7:0] y;
    wire [7:0] A_in;
    wire [7:0] A_out;
    wire [7:0] B_in;
    wire [7:0] B_out;
    assign A_in = x;
    assign B_in = A_out;
    assign y = B_out;
    d_flip_flop A (A_in, A_out);
    d_flip_flop B (B_in, B_out);
endmodule
";
    assert_eq!(buf, expected);
}

#[test]
fn empty_module_renders_header_and_footer() {
    let vmod = VModule::Internal {
        name: s("empty"),
        interfaces: IndexMap::new(),
        internals: Instances::from_entries(vec![]).unwrap(),
        connections: vec![],
    };
    let mut buf = String::new();
    generate_module_decl(&vmod, &mut buf).unwrap();
    assert_eq!(buf, "module empty (\n    \n);\nendmodule\n");
}

#[test]
fn wide_widths_are_written_in_decimal() {
    let vmod = VModule::Internal {
        name: s("w"),
        interfaces: vec![
            (s("a"), VPort::new(Polarity::Input, 2)),
            (s("b"), VPort::new(Polarity::Output, 128)),
        ]
        .into_iter()
        .collect(),
        internals: Instances::from_entries(vec![]).unwrap(),
        connections: vec![VConn::new(VPortLoc::new(None, s("a")), VPortLoc::new(None, s("b")), 2)],
    };
    let mut buf = String::new();
    generate_module_decl(&vmod, &mut buf).unwrap();
    assert_eq!(
        buf,
        "module w (\n    a, b\n);\n    input [1:0] a;\n    output [127:0] b;\n    assign b = a;\nendmodule\n"
    );
}

#[test]
fn interface_connection_adds_one_assignment_and_no_wire() {
    let conns = vec![
        VConn::new(VPortLoc::new(None, s("i")), VPortLoc::new(None, s("o")), 4),
    ];
    let plan = resolve_wires(&conns);
    assert!(plan.wires.is_empty());
    assert!(plan.port_to_wire.is_empty());
    assert_eq!(plan.assigns, vec![(s("o"), s("i"))]);
}

#[test]
fn resolver_records_instance_ports_and_widths() {
    let conns = vec![
        VConn::new(VPortLoc::new(None, s("i")), VPortLoc::new(Some(s("M")), s("d")), 3),
        VConn::new(VPortLoc::new(Some(s("M")), s("q")), VPortLoc::new(None, s("o")), 1),
    ];
    let plan = resolve_wires(&conns);
    assert_eq!(plan.wires, vec![(s("M_d"), 3), (s("M_q"), 1)]);
    assert_eq!(
        plan.port_to_wire.get(&VPortLoc::new(Some(s("M")), s("d"))),
        Some(&(s("M_d"), 3))
    );
    assert_eq!(
        plan.port_to_wire.get(&VPortLoc::new(Some(s("M")), s("q"))),
        Some(&(s("M_q"), 1))
    );
    assert_eq!(plan.assigns, vec![(s("M_d"), s("i")), (s("o"), s("M_q"))]);
}

#[test]
fn duplicate_instance_names_are_rejected() {
    let r = Instances::from_entries(vec![(s("D"), flip_flop()), (s("D"), flip_flop())]);
    match r {
        Err(GenError::DuplicateInstanceName { name }) => assert_eq!(name, "D"),
        _ => panic!("duplicate names were accepted"),
    }
}

#[test]
fn module_name_and_interface_getters() {
    let m = flip_flop();
    assert_eq!(m.get_name(), "d_flip_flop");
    let keys: Vec<&String> = m.get_interfaces().keys().collect();
    assert_eq!(keys, vec!["in", "out"]);
    let top = seq_module();
    assert_eq!(top.get_name(), "seq");
    assert_eq!(top.get_interfaces().len(), 8);
}

#[test]
fn two_sided_connection_names() {
    let a = VPortLoc::new(Some(s("A")), s("q"));
    let b = VPortLoc::new(Some(s("B")), s("d"));
    let top = VPortLoc::new(None, s("x"));
    assert_eq!(generate_wire_name(&a, &b), "A_q_B_d");
    assert_eq!(generate_wire_name(&top, &b), "x");
    assert_eq!(generate_wire_name(&a, &top), "x");
}

#[test]
fn terms_can_be_built() {
    let t = Term::App(Box::new(Term::Lam(s("x"), Box::new(Term::Var(s("x"))))), Box::new(Term::Prim(s("one"))));
    assert!(matches!(t, Term::App(_, _)));
    let p = Term::Prod(Box::new(Term::Prim(s("a"))), Box::new(Term::Prim(s("b"))));
    assert!(matches!(p, Term::Prod(_, _)));
}

#[test]
fn width_mismatch_in_worked_example_is_found() {
    // `cmd_valid -> D.in` declares 1 bit while `D.in` has 8.
    match check_connection_widths(&seq_module()) {
        Err(GenError::WidthMismatch {
            index,
            source,
            destination,
            bits,
            source_bits,
            destination_bits,
        }) => {
            assert_eq!(index, 1);
            assert_eq!(source, VPortLoc::new(None, s("cmd_valid")));
            assert_eq!(destination, VPortLoc::new(Some(s("D")), s("in")));
            assert_eq!(bits, 1);
            assert_eq!(source_bits, Some(1));
            assert_eq!(destination_bits, Some(8));
        }
        other => panic!("unexpected result {:?}", other),
    }
}

#[test]
fn conforming_widths_pass_and_missing_ports_fail() {
    let good = VModule::Internal {
        name: s("g"),
        interfaces: vec![(s("a"), VPort::new(Polarity::Input, 8))].into_iter().collect(),
        internals: Instances::from_entries(vec![(s("F"), flip_flop())]).unwrap(),
        connections: vec![VConn::new(
            VPortLoc::new(None, s("a")),
            VPortLoc::new(Some(s("F")), s("in")),
            8,
        )],
    };
    assert!(check_connection_widths(&good).is_ok());
    assert!(check_connection_widths(&flip_flop()).is_ok());

    let missing = VModule::Internal {
        name: s("m"),
        interfaces: vec![(s("a"), VPort::new(Polarity::Input, 8))].into_iter().collect(),
        internals: Instances::from_entries(vec![(s("F"), flip_flop())]).unwrap(),
        connections: vec![VConn::new(
            VPortLoc::new(None, s("a")),
            VPortLoc::new(Some(s("G")), s("in")),
            8,
        )],
    };
    match check_connection_widths(&missing) {
        Err(GenError::WidthMismatch { index, source_bits, destination_bits, .. }) => {
            assert_eq!(index, 0);
            assert_eq!(source_bits, Some(8));
            assert_eq!(destination_bits, None);
        }
        other => panic!("unexpected result {:?}", other),
    }
}
