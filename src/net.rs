use vstd::prelude::*;

verus! {

/// A port: a node and one of its slots 0, 1, 2 (0 is the principal one).
#[derive(Clone, Copy, PartialEq, Eq, Structural, Debug)]
pub struct Port {
    pub node: usize,
    pub slot: usize,
}

#[derive(Clone, Copy, PartialEq, Eq, Structural, Debug)]
pub enum NodeKind {
    Rot,
    Era,
    Con,
    Dup { lab: u8 },
    Mat,
    Num { val: u32 },
    Op2,
    Tup,
    Ref { def_id: usize },
}

/// A node: its kind and the peers of its three ports.
#[derive(Clone, Copy)]
pub struct Node {
    pub main: Port,
    pub aux1: Port,
    pub aux2: Port,
    pub kind: NodeKind,
}

/// An interaction net; node 0 is the root node.
pub struct INet {
    pub nodes: Vec<Node>,
}

/// Largest number of nodes a net may have, so that port indices fit a `usize`.
pub const MAX_NODES: usize = 0x1000_0000;

/// The port the whole net hangs from.
pub open spec fn root() -> Port {
    Port { node: 0, slot: 1 }
}

/// Position of a port in a table with three entries per node.
pub open spec fn port_index(p: Port) -> int {
    3 * p.node + p.slot
}

impl INet {
    pub open spec fn len(&self) -> nat {
        self.nodes@.len()
    }

    pub open spec fn valid_port(&self, p: Port) -> bool {
        p.node < self.len() && p.slot < 3
    }

    /// The node table is small enough to index ports, node 0 exists, and every
    /// link points at a port of the net.
    pub open spec fn wf(&self) -> bool {
        &&& 1 <= self.len() <= MAX_NODES
        &&& forall|i: int|
            0 <= i < self.len() ==> {
                &&& self.valid_port(#[trigger] self.nodes@[i].main)
                &&& self.valid_port(self.nodes@[i].aux1)
                &&& self.valid_port(self.nodes@[i].aux2)
            }
    }

    pub open spec fn kind_of(&self, n: usize) -> NodeKind {
        self.nodes@[n as int].kind
    }

    /// The peer of a port.
    pub open spec fn enter(&self, p: Port) -> Port {
        let node = self.nodes@[p.node as int];
        if p.slot == 0 {
            node.main
        } else if p.slot == 1 {
            node.aux1
        } else {
            node.aux2
        }
    }

    pub fn enter_port(&self, p: Port) -> (r: Port)
        requires
            self.wf(),
            self.valid_port(p),
        ensures
            r == self.enter(p),
            self.valid_port(r),
    {
        let node = &self.nodes[p.node];
        proof {
            assert(self.valid_port(self.nodes@[p.node as int].main));
        }
        if p.slot == 0 {
            node.main
        } else if p.slot == 1 {
            node.aux1
        } else {
            node.aux2
        }
    }

    pub fn kind(&self, n: usize) -> (r: NodeKind)
        requires
            n < self.len(),
        ensures
            r == self.kind_of(n),
    {
        self.nodes[n].kind
    }
}

pub fn root_port() -> (r: Port)
    ensures
        r == root(),
{
    Port { node: 0, slot: 1 }
}

} // verus!
