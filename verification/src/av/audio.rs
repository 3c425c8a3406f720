//! The audio engine: a graph of nodes with verified connection
//! bookkeeping.
//!
//! An engine owns three implicit singleton nodes (input, output, main
//! mixer) and a set of attached nodes; connections are directed edges
//! between node buses.  Connecting to a destination bus breaks whatever
//! fed that bus before; detaching a node removes every connection that
//! touches it.

use vstd::prelude::*;

use crate::av::AudioFormat;
use crate::ns;
use crate::os::Status;

verus! {

/// Index of one bus on a node.
pub type NodeBus = usize;

/// The audio format carried on a connection, when one is pinned.
pub type Format = AudioFormat;

/// One node of the processing graph.
#[derive(Clone, Copy, PartialEq, Eq, Structural, Debug)]
pub struct Node {
    pub id: u64,
    pub engine_id: Option<u64>,
}

impl Node {
    /// The engine this node belongs to, if any.
    pub open spec fn engine_spec(self) -> Option<u64> {
        self.engine_id
    }

    /// A standalone node with the given identifier, not yet owned by an
    /// engine.
    pub fn with_id(id: u64) -> (n: Node)
        ensures
            n.id == id,
            n.engine_spec() is None,
    {
        Node { id, engine_id: None }
    }

    /// The engine that owns this node, if it is one of an engine's
    /// implicit singletons.
    pub fn engine(&self) -> (r: Option<u64>)
        ensures
            r == self.engine_spec(),
    {
        self.engine_id
    }
}

/// A directed connection from one node's output bus to another node's
/// input bus.
#[derive(Clone, Copy, PartialEq, Eq, Structural, Debug)]
pub struct Connection {
    pub from: u64,
    pub from_bus: NodeBus,
    pub to: u64,
    pub to_bus: NodeBus,
    pub format: Option<Format>,
}

/// A destination endpoint for a fan-out connection.
#[derive(Clone, Copy, PartialEq, Eq, Structural, Debug)]
pub struct ConnectionPoint {
    pub node_id: u64,
    pub bus: NodeBus,
}

/// The connections left after removing every one that touches `id`.
pub open spec fn without_node(conns: Seq<Connection>, id: u64) -> Seq<Connection>
    decreases conns.len(),
{
    if conns.len() == 0 {
        Seq::empty()
    } else {
        let rest = without_node(conns.drop_last(), id);
        if conns.last().from == id || conns.last().to == id {
            rest
        } else {
            rest.push(conns.last())
        }
    }
}

/// The connections left after removing the one feeding `(id, bus)`, if
/// any.
pub open spec fn without_input_bus(conns: Seq<Connection>, id: u64, bus: NodeBus) -> Seq<
    Connection,
>
    decreases conns.len(),
{
    if conns.len() == 0 {
        Seq::empty()
    } else {
        let rest = without_input_bus(conns.drop_last(), id, bus);
        if conns.last().to == id && conns.last().to_bus == bus {
            rest
        } else {
            rest.push(conns.last())
        }
    }
}

/// The connections left after removing every one into `id`.
pub open spec fn without_input(conns: Seq<Connection>, id: u64) -> Seq<Connection>
    decreases conns.len(),
{
    if conns.len() == 0 {
        Seq::empty()
    } else {
        let rest = without_input(conns.drop_last(), id);
        if conns.last().to == id {
            rest
        } else {
            rest.push(conns.last())
        }
    }
}

/// The connections left after removing the ones leaving `(id, bus)`.
pub open spec fn without_output_bus(conns: Seq<Connection>, id: u64, bus: NodeBus) -> Seq<
    Connection,
>
    decreases conns.len(),
{
    if conns.len() == 0 {
        Seq::empty()
    } else {
        let rest = without_output_bus(conns.drop_last(), id, bus);
        if conns.last().from == id && conns.last().from_bus == bus {
            rest
        } else {
            rest.push(conns.last())
        }
    }
}

/// The connections left after removing every one out of `id`.
pub open spec fn without_output(conns: Seq<Connection>, id: u64) -> Seq<Connection>
    decreases conns.len(),
{
    if conns.len() == 0 {
        Seq::empty()
    } else {
        let rest = without_output(conns.drop_last(), id);
        if conns.last().from == id {
            rest
        } else {
            rest.push(conns.last())
        }
    }
}

/// The identifiers left after removing `id`.
pub open spec fn without_id(ids: Seq<u64>, id: u64) -> Seq<u64>
    decreases ids.len(),
{
    if ids.len() == 0 {
        Seq::empty()
    } else {
        let rest = without_id(ids.drop_last(), id);
        if ids.last() == id {
            rest
        } else {
            rest.push(ids.last())
        }
    }
}

/// The fan-out connections from `(from, from_bus)` to each point, in
/// point order.
pub open spec fn fan_out(
    points: Seq<ConnectionPoint>,
    from: u64,
    from_bus: NodeBus,
    format: Option<Format>,
) -> Seq<Connection> {
    points.map_values(
        |p: ConnectionPoint|
            Connection { from, from_bus, to: p.node_id, to_bus: p.bus, format },
    )
}

/// An error of the engine's offline (manual rendering) interface.
#[derive(PartialEq, Eq, Structural, Debug, Clone, Copy)]
pub struct ManualRenderingError(pub Status);

impl ManualRenderingError {
    /// The operation needs manual rendering mode, or the other variant of
    /// it.
    pub fn invalid_mode() -> (e: ManualRenderingError)
        ensures
            e.0.0 == -80800,
    {
        ManualRenderingError(Status(-80800))
    }

    /// The operation cannot be performed because the engine is
    /// initialized (not stopped).
    pub fn initialized() -> (e: ManualRenderingError)
        ensures
            e.0.0 == -80801,
    {
        ManualRenderingError(Status(-80801))
    }

    /// The operation cannot be performed because the engine is not
    /// running.
    pub fn not_running() -> (e: ManualRenderingError)
        ensures
            e.0.0 == -80801,
    {
        ManualRenderingError(Status(-80801))
    }
}

/// Outcome of one manual rendering call.
#[derive(PartialEq, Eq, Structural, Debug, Clone, Copy)]
pub enum ManualRenderingStatus {
    /// An error occurred when rendering and no data was returned.
    Error,
    /// All of the requested data was returned successfully.
    Succes,
    /// The input node returned too little data for the render request.
    InsufficientDataFromInputNode,
    /// The operation could not be performed now; the client may retry.
    CannotDoInCurrentContext,
}

/// How the engine renders when detached from an audio device.
#[derive(PartialEq, Eq, Structural, Debug, Clone, Copy)]
pub enum ManualRenderingMode {
    /// Offline, without realtime constraints.
    ManualRenderingModeOffline,
    /// Under realtime constraints: no blocking calls while rendering.
    ManualRenderingModeRealtime,
}

/// The audio engine: a group of connected nodes, each of which generates,
/// processes or plays audio.
pub struct Engine {
    running: bool,
    prepared: bool,
    input: Node,
    output: Node,
    mixer: Node,
    attached: Vec<u64>,
    connections: Vec<Connection>,
}

impl Engine {
    /// Whether the engine is running.
    pub closed spec fn running_spec(self) -> bool {
        self.running
    }

    /// Whether the engine has prepared its resources.
    pub closed spec fn prepared_spec(self) -> bool {
        self.prepared
    }

    /// The attached nodes' identifiers, in attachment order.
    pub closed spec fn attached_view(self) -> Seq<u64> {
        self.attached@
    }

    /// The connections, in establishment order.
    pub closed spec fn connections_view(self) -> Seq<Connection> {
        self.connections@
    }

    /// The implicit input node.
    pub closed spec fn input_node_spec(self) -> Node {
        self.input
    }

    /// The implicit output node.
    pub closed spec fn output_node_spec(self) -> Node {
        self.output
    }

    /// The implicit main mixer node.
    pub closed spec fn main_mixer_node_spec(self) -> Node {
        self.mixer
    }

    /// The implicit connection the engine maintains from the start: the
    /// main mixer's first output bus feeds the output node's first input
    /// bus.
    pub open spec fn mixer_to_output() -> Connection {
        Connection { from: 2, from_bus: 0, to: 1, to_bus: 0, format: None }
    }

    /// A fresh engine: stopped, unprepared, with its three implicit
    /// nodes (input 0, output 1, main mixer 2) attached, and the main
    /// mixer already connected to the output node — the one implicit
    /// connection the engine establishes itself.
    pub fn new() -> (e: Engine)
        ensures
            !e.running_spec(),
            !e.prepared_spec(),
            e.input_node_spec().id == 0,
            e.output_node_spec().id == 1,
            e.main_mixer_node_spec().id == 2,
            e.input_node_spec().engine_spec() is Some,
            e.output_node_spec().engine_spec() is Some,
            e.main_mixer_node_spec().engine_spec() is Some,
            e.attached_view() == seq![0u64, 1u64, 2u64],
            e.connections_view() == seq![Engine::mixer_to_output()],
    {
        let mut attached: Vec<u64> = Vec::new();
        attached.push(0);
        attached.push(1);
        attached.push(2);
        let mut connections: Vec<Connection> = Vec::new();
        connections.push(Connection { from: 2, from_bus: 0, to: 1, to_bus: 0, format: None });
        let e = Engine {
            running: false,
            prepared: false,
            input: Node { id: 0, engine_id: Some(0) },
            output: Node { id: 1, engine_id: Some(0) },
            mixer: Node { id: 2, engine_id: Some(0) },
            attached,
            connections,
        };
        proof {
            assert(e.attached_view() =~= seq![0u64, 1u64, 2u64]);
            assert(e.connections_view() =~= seq![Engine::mixer_to_output()]);
        }
        e
    }

    /// Attaches a node to the engine; attaching a node that is already
    /// attached changes nothing.
    pub fn attach_node(&mut self, node: &Node)
        requires
            old(self).attached_view().len() < usize::MAX,
        ensures
            old(self).attached_view().contains(node.id) ==> final(self).attached_view() == old(
                self,
            ).attached_view(),
            !old(self).attached_view().contains(node.id) ==> final(self).attached_view() == old(
                self,
            ).attached_view().push(node.id),
            final(self).connections_view() == old(self).connections_view(),
            final(self).running_spec() == old(self).running_spec(),
            final(self).prepared_spec() == old(self).prepared_spec(),
            final(self).input_node_spec() == old(self).input_node_spec(),
            final(self).output_node_spec() == old(self).output_node_spec(),
            final(self).main_mixer_node_spec() == old(self).main_mixer_node_spec(),
    {
        let n = self.attached.len();
        let mut i: usize = 0;
        while i < n
            invariant
                n == self.attached@.len(),
                i <= n,
                forall|j: int| 0 <= j < i ==> self.attached@[j] != node.id,
            decreases n - i,
        {
            if self.attached[i] == node.id {
                proof {
                    assert(self.attached@.contains(node.id));
                }
                return ;
            }
            i = i + 1;
        }
        proof {
            assert(!self.attached@.contains(node.id));
        }
        self.attached.push(node.id);
    }

    /// Detaches a node: removes it from the attached set and removes
    /// every connection that touches it.
    pub fn detach_node(&mut self, node: &Node)
        ensures
            final(self).attached_view() == without_id(old(self).attached_view(), node.id),
            final(self).connections_view() == without_node(old(self).connections_view(), node.id),
            final(self).running_spec() == old(self).running_spec(),
            final(self).prepared_spec() == old(self).prepared_spec(),
            final(self).input_node_spec() == old(self).input_node_spec(),
            final(self).output_node_spec() == old(self).output_node_spec(),
            final(self).main_mixer_node_spec() == old(self).main_mixer_node_spec(),
    {
        let n = self.attached.len();
        let mut kept: Vec<u64> = Vec::new();
        let mut i: usize = 0;
        while i < n
            invariant
                n == self.attached@.len(),
                i <= n,
                kept@ == without_id(self.attached@.take(i as int), node.id),
            decreases n - i,
        {
            proof {
                assert(self.attached@.take(i as int + 1).drop_last() =~= self.attached@.take(
                    i as int,
                ));
            }
            let x = self.attached[i];
            if x != node.id {
                kept.push(x);
            }
            i = i + 1;
        }
        proof {
            assert(self.attached@.take(n as int) =~= self.attached@);
        }
        self.attached = kept;

        let m = self.connections.len();
        let mut kept_conns: Vec<Connection> = Vec::new();
        let mut k: usize = 0;
        while k < m
            invariant
                m == self.connections@.len(),
                k <= m,
                kept_conns@ == without_node(self.connections@.take(k as int), node.id),
            decreases m - k,
        {
            proof {
                assert(self.connections@.take(k as int + 1).drop_last() =~= self.connections@.take(
                    k as int,
                ));
            }
            let c = self.connections[k];
            if !(c.from == node.id || c.to == node.id) {
                kept_conns.push(c);
            }
            k = k + 1;
        }
        proof {
            assert(self.connections@.take(m as int) =~= self.connections@);
        }
        self.connections = kept_conns;
    }

    /// Connects one node's output bus to another node's input bus,
    /// breaking whatever fed that input bus before.  Both nodes must be
    /// attached (the implicit nodes always are).
    pub fn connect_node_to_node_bus_to_bus(
        &mut self,
        node_from: &Node,
        node_to: &Node,
        from_bus: NodeBus,
        to_bus: NodeBus,
        format: Option<&Format>,
    )
        requires
            old(self).attached_view().contains(node_from.id),
            old(self).attached_view().contains(node_to.id),
            old(self).connections_view().len() < usize::MAX,
        ensures
            final(self).connections_view() == without_input_bus(
                old(self).connections_view(),
                node_to.id,
                to_bus,
            ).push(
                Connection {
                    from: node_from.id,
                    from_bus,
                    to: node_to.id,
                    to_bus,
                    format: match format {
                        Some(f) => Some(*f),
                        None => None,
                    },
                },
            ),
            final(self).attached_view() == old(self).attached_view(),
            final(self).running_spec() == old(self).running_spec(),
            final(self).prepared_spec() == old(self).prepared_spec(),
            final(self).input_node_spec() == old(self).input_node_spec(),
            final(self).output_node_spec() == old(self).output_node_spec(),
            final(self).main_mixer_node_spec() == old(self).main_mixer_node_spec(),
    {
        let fmt: Option<Format> = match format {
            Some(f) => Some(*f),
            None => None,
        };
        let m = self.connections.len();
        let mut kept: Vec<Connection> = Vec::new();
        let mut k: usize = 0;
        while k < m
            invariant
                m == self.connections@.len(),
                k <= m,
                kept@ == without_input_bus(
                    self.connections@.take(k as int),
                    node_to.id,
                    to_bus,
                ),
            decreases m - k,
        {
            proof {
                assert(self.connections@.take(k as int + 1).drop_last() =~= self.connections@.take(
                    k as int,
                ));
            }
            let c = self.connections[k];
            if !(c.to == node_to.id && c.to_bus == to_bus) {
                kept.push(c);
            }
            k = k + 1;
        }
        proof {
            assert(self.connections@.take(m as int) =~= self.connections@);
        }
        kept.push(
            Connection { from: node_from.id, from_bus, to: node_to.id, to_bus, format: fmt },
        );
        self.connections = kept;
    }

    /// Connects two nodes through their first buses.
    pub fn connect_node_to_node(&mut self, node_from: &Node, node_to: &Node, format: Option<&Format>)
        requires
            old(self).attached_view().contains(node_from.id),
            old(self).attached_view().contains(node_to.id),
            old(self).connections_view().len() < usize::MAX,
        ensures
            final(self).connections_view() == without_input_bus(
                old(self).connections_view(),
                node_to.id,
                0,
            ).push(
                Connection {
                    from: node_from.id,
                    from_bus: 0,
                    to: node_to.id,
                    to_bus: 0,
                    format: match format {
                        Some(f) => Some(*f),
                        None => None,
                    },
                },
            ),
            final(self).attached_view() == old(self).attached_view(),
            final(self).running_spec() == old(self).running_spec(),
            final(self).prepared_spec() == old(self).prepared_spec(),
            final(self).input_node_spec() == old(self).input_node_spec(),
            final(self).output_node_spec() == old(self).output_node_spec(),
            final(self).main_mixer_node_spec() == old(self).main_mixer_node_spec(),
    {
        self.connect_node_to_node_bus_to_bus(node_from, node_to, 0, 0, format)
    }

    /// Fans one node's output bus out to several destination points,
    /// breaking whatever left that bus before.
    pub fn connect_node_to_connection_points_from_bus(
        &mut self,
        node: &Node,
        connection_points: &Vec<ConnectionPoint>,
        from_bus: NodeBus,
        format: Option<&Format>,
    )
        requires
            old(self).attached_view().contains(node.id),
            forall|i: int|
                0 <= i < connection_points@.len() ==> old(self).attached_view().contains(
                    (#[trigger] connection_points@[i]).node_id,
                ),
            old(self).connections_view().len() + connection_points@.len() < usize::MAX,
        ensures
            final(self).connections_view() == without_output_bus(
                old(self).connections_view(),
                node.id,
                from_bus,
            ) + fan_out(
                connection_points@,
                node.id,
                from_bus,
                match format {
                    Some(f) => Some(*f),
                    None => None,
                },
            ),
            final(self).attached_view() == old(self).attached_view(),
            final(self).running_spec() == old(self).running_spec(),
            final(self).prepared_spec() == old(self).prepared_spec(),
            final(self).input_node_spec() == old(self).input_node_spec(),
            final(self).output_node_spec() == old(self).output_node_spec(),
            final(self).main_mixer_node_spec() == old(self).main_mixer_node_spec(),
    {
        let fmt: Option<Format> = match format {
            Some(f) => Some(*f),
            None => None,
        };
        let m = self.connections.len();
        let mut kept: Vec<Connection> = Vec::new();
        let mut k: usize = 0;
        while k < m
            invariant
                m == self.connections@.len(),
                k <= m,
                kept@ == without_output_bus(
                    self.connections@.take(k as int),
                    node.id,
                    from_bus,
                ),
            decreases m - k,
        {
            proof {
                assert(self.connections@.take(k as int + 1).drop_last() =~= self.connections@.take(
                    k as int,
                ));
            }
            let c = self.connections[k];
            if !(c.from == node.id && c.from_bus == from_bus) {
                kept.push(c);
            }
            k = k + 1;
        }
        proof {
            assert(self.connections@.take(m as int) =~= self.connections@);
        }
        let ghost base = kept@;
        let p = connection_points.len();
        let mut j: usize = 0;
        while j < p
            invariant
                p == connection_points@.len(),
                j <= p,
                kept@ == base + fan_out(connection_points@.take(j as int), node.id, from_bus, fmt),
            decreases p - j,
        {
            let pt = connection_points[j];
            kept.push(
                Connection { from: node.id, from_bus, to: pt.node_id, to_bus: pt.bus, format: fmt },
            );
            proof {
                assert(fan_out(connection_points@.take(j as int + 1), node.id, from_bus, fmt)
                    =~= fan_out(
                    connection_points@.take(j as int),
                    node.id,
                    from_bus,
                    fmt,
                ).push(
                    Connection {
                        from: node.id,
                        from_bus,
                        to: pt.node_id,
                        to_bus: pt.bus,
                        format: fmt,
                    },
                ));
                assert(kept@ =~= base + fan_out(
                    connection_points@.take(j as int + 1),
                    node.id,
                    from_bus,
                    fmt,
                ));
            }
            j = j + 1;
        }
        proof {
            assert(connection_points@.take(p as int) =~= connection_points@);
        }
        self.connections = kept;
    }

    /// Removes the connection feeding one input bus of a node.
    pub fn disconnect_node_input_bus(&mut self, node: &Node, bus: NodeBus)
        ensures
            final(self).connections_view() == without_input_bus(
                old(self).connections_view(),
                node.id,
                bus,
            ),
            final(self).attached_view() == old(self).attached_view(),
            final(self).running_spec() == old(self).running_spec(),
            final(self).prepared_spec() == old(self).prepared_spec(),
            final(self).input_node_spec() == old(self).input_node_spec(),
            final(self).output_node_spec() == old(self).output_node_spec(),
            final(self).main_mixer_node_spec() == old(self).main_mixer_node_spec(),
    {
        let m = self.connections.len();
        let mut kept: Vec<Connection> = Vec::new();
        let mut k: usize = 0;
        while k < m
            invariant
                m == self.connections@.len(),
                k <= m,
                kept@ == without_input_bus(self.connections@.take(k as int), node.id, bus),
            decreases m - k,
        {
            proof {
                assert(self.connections@.take(k as int + 1).drop_last() =~= self.connections@.take(
                    k as int,
                ));
            }
            let c = self.connections[k];
            if !(c.to == node.id && c.to_bus == bus) {
                kept.push(c);
            }
            k = k + 1;
        }
        proof {
            assert(self.connections@.take(m as int) =~= self.connections@);
        }
        self.connections = kept;
    }

    /// Removes every connection into a node.
    pub fn disconnect_node_input(&mut self, node: &Node)
        ensures
            final(self).connections_view() == without_input(
                old(self).connections_view(),
                node.id,
            ),
            final(self).attached_view() == old(self).attached_view(),
            final(self).running_spec() == old(self).running_spec(),
            final(self).prepared_spec() == old(self).prepared_spec(),
            final(self).input_node_spec() == old(self).input_node_spec(),
            final(self).output_node_spec() == old(self).output_node_spec(),
            final(self).main_mixer_node_spec() == old(self).main_mixer_node_spec(),
    {
        let m = self.connections.len();
        let mut kept: Vec<Connection> = Vec::new();
        let mut k: usize = 0;
        while k < m
            invariant
                m == self.connections@.len(),
                k <= m,
                kept@ == without_input(self.connections@.take(k as int), node.id),
            decreases m - k,
        {
            proof {
                assert(self.connections@.take(k as int + 1).drop_last() =~= self.connections@.take(
                    k as int,
                ));
            }
            let c = self.connections[k];
            if !(c.to == node.id) {
                kept.push(c);
            }
            k = k + 1;
        }
        proof {
            assert(self.connections@.take(m as int) =~= self.connections@);
        }
        self.connections = kept;
    }

    /// Removes the connections leaving one output bus of a node.
    pub fn disconnect_node_output_bus(&mut self, node: &Node, bus: NodeBus)
        ensures
            final(self).connections_view() == without_output_bus(
                old(self).connections_view(),
                node.id,
                bus,
            ),
            final(self).attached_view() == old(self).attached_view(),
            final(self).running_spec() == old(self).running_spec(),
            final(self).prepared_spec() == old(self).prepared_spec(),
            final(self).input_node_spec() == old(self).input_node_spec(),
            final(self).output_node_spec() == old(self).output_node_spec(),
            final(self).main_mixer_node_spec() == old(self).main_mixer_node_spec(),
    {
        let m = self.connections.len();
        let mut kept: Vec<Connection> = Vec::new();
        let mut k: usize = 0;
        while k < m
            invariant
                m == self.connections@.len(),
                k <= m,
                kept@ == without_output_bus(self.connections@.take(k as int), node.id, bus),
            decreases m - k,
        {
            proof {
                assert(self.connections@.take(k as int + 1).drop_last() =~= self.connections@.take(
                    k as int,
                ));
            }
            let c = self.connections[k];
            if !(c.from == node.id && c.from_bus == bus) {
                kept.push(c);
            }
            k = k + 1;
        }
        proof {
            assert(self.connections@.take(m as int) =~= self.connections@);
        }
        self.connections = kept;
    }

    /// Removes every connection out of a node.
    pub fn disconnect_node_output(&mut self, node: &Node)
        ensures
            final(self).connections_view() == without_output(
                old(self).connections_view(),
                node.id,
            ),
            final(self).attached_view() == old(self).attached_view(),
            final(self).running_spec() == old(self).running_spec(),
            final(self).prepared_spec() == old(self).prepared_spec(),
            final(self).input_node_spec() == old(self).input_node_spec(),
            final(self).output_node_spec() == old(self).output_node_spec(),
            final(self).main_mixer_node_spec() == old(self).main_mixer_node_spec(),
    {
        let m = self.connections.len();
        let mut kept: Vec<Connection> = Vec::new();
        let mut k: usize = 0;
        while k < m
            invariant
                m == self.connections@.len(),
                k <= m,
                kept@ == without_output(self.connections@.take(k as int), node.id),
            decreases m - k,
        {
            proof {
                assert(self.connections@.take(k as int + 1).drop_last() =~= self.connections@.take(
                    k as int,
                ));
            }
            let c = self.connections[k];
            if !(c.from == node.id) {
                kept.push(c);
            }
            k = k + 1;
        }
        proof {
            assert(self.connections@.take(m as int) =~= self.connections@);
        }
        self.connections = kept;
    }

    /// Preallocates the engine's resources.
    pub fn prepare(&mut self)
        ensures
            final(self).prepared_spec(),
            final(self).running_spec() == old(self).running_spec(),
            final(self).attached_view() == old(self).attached_view(),
            final(self).connections_view() == old(self).connections_view(),
            final(self).input_node_spec() == old(self).input_node_spec(),
            final(self).output_node_spec() == old(self).output_node_spec(),
            final(self).main_mixer_node_spec() == old(self).main_mixer_node_spec(),
    {
        self.prepared = true;
    }

    /// Starts the engine.  The modeled engine always starts: the result
    /// is true and the error slot is left empty.
    pub fn start_and_return_error(&mut self, error: &mut Option<ns::Error>) -> (r: bool)
        ensures
            r,
            *final(error) is None,
            final(self).running_spec(),
            final(self).prepared_spec(),
            final(self).attached_view() == old(self).attached_view(),
            final(self).connections_view() == old(self).connections_view(),
            final(self).input_node_spec() == old(self).input_node_spec(),
            final(self).output_node_spec() == old(self).output_node_spec(),
            final(self).main_mixer_node_spec() == old(self).main_mixer_node_spec(),
    {
        *error = None;
        self.prepared = true;
        self.running = true;
        true
    }

    /// Starts the engine, as a result value.
    pub fn start(&mut self) -> (r: Result<(), ns::Error>)
        ensures
            r is Ok,
            final(self).running_spec(),
            final(self).prepared_spec(),
            final(self).attached_view() == old(self).attached_view(),
            final(self).connections_view() == old(self).connections_view(),
            final(self).input_node_spec() == old(self).input_node_spec(),
            final(self).output_node_spec() == old(self).output_node_spec(),
            final(self).main_mixer_node_spec() == old(self).main_mixer_node_spec(),
    {
        let mut error: Option<ns::Error> = None;
        let res = self.start_and_return_error(&mut error);
        if res {
            Ok(())
        } else {
            match error {
                Some(e) => Err(e),
                None => Err(ns::Error { domain: 0, code: 0 }),
            }
        }
    }

    /// The engine's implicit input node.
    pub fn input_node(&self) -> (n: &Node)
        ensures
            *n == self.input_node_spec(),
    {
        &self.input
    }

    /// The engine's implicit output node.
    pub fn output_node(&self) -> (n: &Node)
        ensures
            *n == self.output_node_spec(),
    {
        &self.output
    }

    /// The engine's implicit main mixer node.  The engine creates it and
    /// connects it to the output node itself (see
    /// [`Engine::mixer_to_output`]); every call returns the same
    /// singleton.
    pub fn main_mixer_node(&self) -> (n: &Node)
        ensures
            *n == self.main_mixer_node_spec(),
    {
        &self.mixer
    }

    /// Resets the engine's prepared state; connections stay.
    pub fn reset(&mut self)
        ensures
            !final(self).prepared_spec(),
            final(self).running_spec() == old(self).running_spec(),
            final(self).attached_view() == old(self).attached_view(),
            final(self).connections_view() == old(self).connections_view(),
            final(self).input_node_spec() == old(self).input_node_spec(),
            final(self).output_node_spec() == old(self).output_node_spec(),
            final(self).main_mixer_node_spec() == old(self).main_mixer_node_spec(),
    {
        self.prepared = false;
    }

    /// Pauses the engine: it stops running but keeps its resources.
    pub fn pause(&mut self)
        ensures
            !final(self).running_spec(),
            final(self).prepared_spec() == old(self).prepared_spec(),
            final(self).attached_view() == old(self).attached_view(),
            final(self).connections_view() == old(self).connections_view(),
            final(self).input_node_spec() == old(self).input_node_spec(),
            final(self).output_node_spec() == old(self).output_node_spec(),
            final(self).main_mixer_node_spec() == old(self).main_mixer_node_spec(),
    {
        self.running = false;
    }

    /// Stops the engine and releases its prepared resources.
    pub fn stop(&mut self)
        ensures
            !final(self).running_spec(),
            !final(self).prepared_spec(),
            final(self).attached_view() == old(self).attached_view(),
            final(self).connections_view() == old(self).connections_view(),
            final(self).input_node_spec() == old(self).input_node_spec(),
            final(self).output_node_spec() == old(self).output_node_spec(),
            final(self).main_mixer_node_spec() == old(self).main_mixer_node_spec(),
    {
        self.running = false;
        self.prepared = false;
    }

    /// How many connections the engine currently holds.
    pub fn connection_count(&self) -> (n: usize)
        ensures
            (n as nat) == self.connections_view().len(),
    {
        self.connections.len()
    }

    /// Whether a node is attached (the implicit nodes always are).
    pub fn is_attached(&self, node: &Node) -> (r: bool)
        ensures
            r == self.attached_view().contains(node.id),
    {
        let n = self.attached.len();
        let mut i: usize = 0;
        while i < n
            invariant
                n == self.attached@.len(),
                i <= n,
                forall|j: int| 0 <= j < i ==> self.attached@[j] != node.id,
            decreases n - i,
        {
            if self.attached[i] == node.id {
                proof {
                    assert(self.attached@.contains(node.id));
                }
                return true;
            }
            i = i + 1;
        }
        proof {
            assert(!self.attached@.contains(node.id));
        }
        false
    }

    /// Whether the engine is running.
    pub fn is_running(&self) -> (r: bool)
        ensures
            r == self.running_spec(),
    {
        self.running
    }
}

} // verus!
