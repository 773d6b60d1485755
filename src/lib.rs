//! Netlist-level hardware IR and its structural text emitter.
//!
//! A `VModule` tree describes modules, their ordered interfaces, their named
//! instances and the point-to-point connections between ports. The resolver
//! derives the implicit wires of a composite module, and the emitter renders
//! it as structural hardware-description text.
pub mod syntax;
pub mod ports;
pub mod ordered;
pub mod module;
pub mod text;
pub mod resolve;
pub mod emit;
pub mod widths;
pub mod laws;

pub use syntax::{Term, Var};
pub use ports::{Polarity, VPort, VPortLoc, VConn};
pub use ordered::Instances;
pub use module::VModule;

pub use module::GenError;
pub use resolve::{WirePlan, resolve_wires, generate_wire_name};
pub use emit::generate_module_decl;
pub use widths::check_connection_widths;
pub use text::s;
