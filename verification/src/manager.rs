//! Management thread state.
//!
//! The manager owns the discovery core, consumes its discovery events, and
//! maintains the table of known nodes keyed by node identifier. It also
//! accepts rebind requests from the application and queues them as commands
//! toward the realtime process callback. The queues here model one
//! endpoint's view of the cross-thread channels: the embedding realizes each
//! as a real channel whose other endpoint lives on the other thread, and no
//! state is shared across threads except by value through those channels.

use crate::events::NodeEvent;
use crate::events::PWEvent;
use crate::queue::Queue;
use crate::registry::PipeWire;
use crate::session::ConnectRequest;
use crate::session::StreamCoreData;
use crate::session::StreamEvent;
use vstd::pervasive::unreached;
use vstd::prelude::*;

verus! {

/// Position of the first table entry describing the given node.
fn index_of_node(table: &Vec<NodeEvent>, node_id: u32) -> (r: Option<usize>)
    ensures
        r matches Some(i) ==> 0 <= i < table@.len() && table@[i as int].node_id == node_id,
        r is None ==> forall|k: int| 0 <= k < table@.len() ==> (#[trigger] table@[k]).node_id != node_id,
{
    let n = table.len();
    for i in 0..n
        invariant
            n == table@.len(),
            forall|k: int| 0 <= k < i ==> (#[trigger] table@[k]).node_id != node_id,
    {
        if table[i].node_id == node_id {
            return Some(i);
        }
    }
    None
}

/// Position of the first table entry built from the given object.
fn index_of_proxy(table: &Vec<NodeEvent>, proxy_id: u32) -> (r: Option<usize>)
    ensures
        r matches Some(i) ==> 0 <= i < table@.len() && table@[i as int].proxy_id == proxy_id && (
        forall|k: int| 0 <= k < i ==> (#[trigger] table@[k]).proxy_id != proxy_id),
        r is None ==> forall|k: int|
            0 <= k < table@.len() ==> (#[trigger] table@[k]).proxy_id != proxy_id,
{
    let n = table.len();
    for i in 0..n
        invariant
            n == table@.len(),
            forall|k: int| 0 <= k < i ==> (#[trigger] table@[k]).proxy_id != proxy_id,
    {
        if table[i].proxy_id == proxy_id {
            return Some(i);
        }
    }
    None
}

/// Management-side state: the discovery core, the node table built from its
/// events, and the command queue toward the audio callback.
pub struct PipeWireManager<T> {
    /// The discovery core (registry listener, proxy store, capture session).
    pub pipe_wire: PipeWire<T>,
    /// Known nodes, keyed by node identifier; one entry per node.
    pub node_info: Vec<NodeEvent>,
    /// Rebind commands queued toward the realtime process callback.
    pub inbound: Queue<StreamEvent>,
    /// Whether the main loop was configured.
    pub configured: bool,
    /// Whether the registry listener was requested.
    pub has_listener: bool,
}

impl<T> PipeWireManager<T> {
    /// The node table, in insertion order.
    pub open spec fn nodes(&self) -> Seq<NodeEvent> {
        self.node_info@
    }

    /// No two table entries describe the same node.
    pub open spec fn wf(&self) -> bool {
        &&& forall|i: int, j: int|
            0 <= i < j < self.nodes().len() ==> (#[trigger] self.nodes()[i]).node_id != (
            #[trigger] self.nodes()[j]).node_id
        &&& self.pipe_wire.wf()
    }

    /// Some table entry describes the node with the given identifier.
    pub open spec fn has_node(&self, node_id: u32) -> bool {
        exists|i: int| 0 <= i < self.nodes().len() && (#[trigger] self.nodes()[i]).node_id == node_id
    }

    /// A fresh manager: a fresh discovery core, an empty node table, no
    /// queued commands, nothing configured.
    pub fn new() -> (m: PipeWireManager<T>)
        ensures
            m.nodes() == Seq::<NodeEvent>::empty(),
            m.inbound@ == Seq::<StreamEvent>::empty(),
            !m.configured,
            !m.has_listener,
            m.pipe_wire.outbound@ == Seq::<PWEvent>::empty(),
            !m.pipe_wire.listening,
            m.pipe_wire.e_stream is None,
            m.wf(),
    {
        PipeWireManager {
            pipe_wire: PipeWire::new(),
            node_info: Vec::new(),
            inbound: Queue::new(),
            configured: false,
            has_listener: false,
        }
    }

    /// Configures the main loop: stores the listener choice, hands the
    /// discovery core its configuration, and sets the capture session up
    /// around the given stream payload — which must be present — with a
    /// fresh command-channel endpoint. Returns the connect request the
    /// embedding must issue before running its event loop.
    pub fn setup_main(&mut self, name: Option<String>, has_listener: bool, stream_core: Option<T>)
        -> (r: Option<ConnectRequest>)
        requires
            stream_core is Some,
        ensures
            final(self).configured,
            final(self).has_listener == has_listener,
            final(self).nodes() == old(self).nodes(),
            final(self).inbound@ == old(self).inbound@,
            final(self).wf() == old(self).wf(),
            final(self).pipe_wire.remote == name,
            final(self).pipe_wire.listening == has_listener,
            final(self).pipe_wire.proxies@ == old(self).pipe_wire.proxies@,
            final(self).pipe_wire.outbound@ == old(self).pipe_wire.outbound@,
            r matches Some(req) && req.target == 0 && req.direction is Input && req.autoconnect
                && req.map_buffers && req.rt_process,
            final(self).pipe_wire.e_stream matches Some(es) && es.session.state is Connected
                && es.session.target == Some(0u32) && es.session.format is None
                && es.receiver@ == Seq::<StreamEvent>::empty() && (stream_core matches Some(d)
                ==> es.data == d),
    {
        self.configured = true;
        self.has_listener = has_listener;
        let data = match stream_core {
            Some(d) => d,
            None => unreached(),
        };
        self.pipe_wire.setup_main(
            name,
            has_listener,
            Some(StreamCoreData { receiver: Queue::new(), data }),
        )
    }

    /// Applies one discovery event to the node table.
    ///
    /// A discovery replaces the entry of the same node — an info callback
    /// may re-announce a port with updated properties — or extends the
    /// table with a new one. A removal drops the entry whose descriptor was
    /// built from the removed object, matched by its proxy id, since
    /// removal notifications identify the server object rather than the
    /// node; an absent id is a no-op.
    pub fn handle_event(&mut self, event: PWEvent)
        requires
            old(self).wf(),
        ensures
            final(self).wf(),
            final(self).inbound@ == old(self).inbound@,
            final(self).configured == old(self).configured,
            final(self).has_listener == old(self).has_listener,
            event matches PWEvent::Node(e) ==> final(self).has_node(e.node_id) && (if old(self).has_node(e.node_id) {
                exists|i: int|
                    0 <= i < old(self).nodes().len() && (#[trigger] old(self).nodes()[i]).node_id == e.node_id && final(self).nodes() == old(self).nodes().update(i, e)
            } else {
                final(self).nodes() == old(self).nodes().push(e)
            }),
            event matches PWEvent::RemoveNode(id) ==> (if (exists|i: int|
                0 <= i < old(self).nodes().len() && (#[trigger] old(self).nodes()[i]).proxy_id
                    == id) {
                exists|i: int|
                    0 <= i < old(self).nodes().len() && (#[trigger] old(self).nodes()[i]).proxy_id == id && (forall|k: int|
                        0 <= k < i ==> (#[trigger] old(self).nodes()[k]).proxy_id != id) && final(self).nodes() == old(self).nodes().remove(i)
            } else {
                final(self).nodes() == old(self).nodes()
            }),
    {
        match event {
            PWEvent::Node(e) => {
                match index_of_node(&self.node_info, e.node_id) {
                    Some(i) => {
                        self.node_info[i] = e;
                        proof {
                            let gi = i as int;
                            assert(old(self).nodes()[gi].node_id == e.node_id);
                            assert(self.nodes()[gi] == e);
                            assert forall|a: int, b: int|
                                0 <= a < b < self.nodes().len() implies (
                            #[trigger] self.nodes()[a]).node_id != (
                            #[trigger] self.nodes()[b]).node_id by {
                                assert(old(self).nodes()[a].node_id != old(
                                    self,
                                ).nodes()[b].node_id);
                                assert(self.nodes()[a].node_id == old(self).nodes()[a].node_id);
                                assert(self.nodes()[b].node_id == old(self).nodes()[b].node_id);
                            }
                        }
                    },
                    None => {
                        self.node_info.push(e);
                        proof {
                            let n = old(self).nodes().len() as int;
                            assert(self.nodes()[n] == e);
                            assert forall|a: int, b: int|
                                0 <= a < b < self.nodes().len() implies (
                            #[trigger] self.nodes()[a]).node_id != (
                            #[trigger] self.nodes()[b]).node_id by {
                                if b == n {
                                    assert(self.nodes()[a] == old(self).nodes()[a]);
                                }
                            }
                        }
                    },
                }
            },
            PWEvent::RemoveNode(id) => {
                match index_of_proxy(&self.node_info, id) {
                    Some(i) => {
                        let _ = self.node_info.remove(i);
                        proof {
                            let gi = i as int;
                            old(self).nodes().remove_ensures(gi);
                            assert(old(self).nodes()[gi].proxy_id == id);
                            assert forall|a: int, b: int|
                                0 <= a < b < self.nodes().len() implies (
                            #[trigger] self.nodes()[a]).node_id != (
                            #[trigger] self.nodes()[b]).node_id by {
                                let oa: int = if a < gi {
                                    a
                                } else {
                                    a + 1
                                };
                                let ob: int = if b < gi {
                                    b
                                } else {
                                    b + 1
                                };
                                assert(self.nodes()[a] == old(self).nodes()[oa]);
                                assert(self.nodes()[b] == old(self).nodes()[ob]);
                            }
                        }
                    },
                    None => {
                    },
                }
            },
        }
    }

    /// Read-only snapshot of the node table, in insertion order.
    pub fn node_table(&self) -> (r: &Vec<NodeEvent>)
        ensures
            r@ == self.nodes(),
    {
        &self.node_info
    }

    /// The table entry describing the given node, if one exists. Under
    /// well-formedness there is at most one.
    pub fn get_node(&self, node_id: u32) -> (r: Option<&NodeEvent>)
        ensures
            r is Some <==> self.has_node(node_id),
            r matches Some(e) ==> e.node_id == node_id && exists|i: int|
                0 <= i < self.nodes().len() && #[trigger] self.nodes()[i] == *e,
    {
        let n = self.node_info.len();
        for i in 0..n
            invariant
                n == self.nodes().len(),
                forall|k: int| 0 <= k < i ==> (#[trigger] self.nodes()[k]).node_id != node_id,
        {
            if self.node_info[i].node_id == node_id {
                return Some(&self.node_info[i]);
            }
        }
        None
    }

    /// Queues a rebind request: the application asks the capture session to
    /// rebind to the given node. The command travels to the realtime
    /// process callback, which applies the last one of each drained batch.
    pub fn request_rebind(&mut self, node_id: u32)
        ensures
            final(self).inbound@ == old(self).inbound@.push(StreamEvent::UpdateObjID(node_id)),
            final(self).nodes() == old(self).nodes(),
            final(self).configured == old(self).configured,
            final(self).has_listener == old(self).has_listener,
            final(self).wf() == old(self).wf(),
    {
        self.inbound.push(StreamEvent::UpdateObjID(node_id));
    }

    /// Hands every queued rebind command over for forwarding, in arrival
    /// order, leaving the queue empty. Never blocks: with nothing queued it
    /// returns an empty batch.
    pub fn drain_requests(&mut self) -> (r: Vec<StreamEvent>)
        ensures
            r@ == old(self).inbound@,
            final(self).inbound@ == Seq::<StreamEvent>::empty(),
            final(self).nodes() == old(self).nodes(),
            final(self).configured == old(self).configured,
            final(self).has_listener == old(self).has_listener,
            final(self).wf() == old(self).wf(),
    {
        self.inbound.drain_all()
    }
}

} // verus!
