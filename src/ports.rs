//! Ports, port locations and connections.
use vstd::prelude::*;

verus! {

/// The direction of a port.
#[derive(Clone, Copy, PartialEq, Eq, Structural, Debug)]
pub enum Polarity {
    Input,
    Output,
}

/// One signal of a module's interface: a direction and a bit width.
#[derive(Clone, Copy, PartialEq, Eq, Structural, Debug)]
pub struct VPort {
    pub polarity: Polarity,
    pub bits: usize,
}

impl VPort {
    pub fn new(polarity: Polarity, bits: usize) -> (r: VPort)
        ensures
            r.polarity == polarity,
            r.bits == bits,
    {
        VPort { polarity, bits }
    }
}

/// Identifies a port: `mod_name == None` is a port of the enclosing module's
/// own interface, `Some(i)` the port of the same name on instance `i`.
#[derive(Clone, PartialEq, Eq, Hash, Debug)]
pub struct VPortLoc {
    pub mod_name: Option<String>,
    pub port_name: String,
}

/// The view of a port location: the instance name, if any, and the port name.
pub type LocView = (Option<Seq<char>>, Seq<char>);

pub open spec fn opt_view(o: Option<String>) -> Option<Seq<char>> {
    match o {
        Some(s) => Some(s@),
        None => None,
    }
}

impl View for VPortLoc {
    type V = LocView;

    open spec fn view(&self) -> LocView {
        (opt_view(self.mod_name), self.port_name@)
    }
}

impl VPortLoc {
    pub fn new(mod_name: Option<String>, port_name: String) -> (r: VPortLoc)
        ensures
            r.mod_name == mod_name,
            r.port_name == port_name,
    {
        VPortLoc { mod_name, port_name }
    }

    /// A copy of this location with the same view.
    pub fn duplicate(&self) -> (r: VPortLoc)
        ensures
            r@ == self@,
    {
        let mod_name = match &self.mod_name {
            Some(m) => Some(m.clone()),
            None => None,
        };
        VPortLoc { mod_name, port_name: self.port_name.clone() }
    }
}

/// A directed connection: the signal flows from `src` to `dst`.
#[derive(Clone, Debug)]
pub struct VConn {
    pub src: VPortLoc,
    pub dst: VPortLoc,
    pub bits: usize,
}

impl VConn {
    pub fn new(src: VPortLoc, dst: VPortLoc, bits: usize) -> (r: VConn)
        ensures
            r.src == src,
            r.dst == dst,
            r.bits == bits,
    {
        VConn { src, dst, bits }
    }
}

} // verus!
