//! Typed discovery events.
//!
//! The registry listener turns the server's object notifications into values
//! of these types and queues them for the management thread. A `NodeEvent`
//! describes one discovered port: the identifier of the bound proxy object,
//! the identifiers of the node and port it belongs to, and the textual
//! properties reported by the server, with absent optional properties
//! replaced by a sentinel string.

use vstd::prelude::*;

verus! {

/// Description of a discovered port, built from the first info notification
/// whose property set carries a node association. Immutable once built.
#[derive(Debug)]
pub struct NodeEvent {
    /// Identifier of the bound proxy object (the server-side object id).
    pub proxy_id: u32,
    /// Identifier of the node the port belongs to.
    pub node_id: u32,
    /// Identifier of the port within its node.
    pub port_id: u32,
    /// Audio channel label, such as a front-left position.
    pub channel: String,
    /// Path of the object in the server's object tree.
    pub object_path: String,
    /// Human-readable port name.
    pub port_name: String,
    /// Port direction as reported by the server.
    pub direction: String,
    /// Negotiated digital-signal-processing format string.
    pub format: String,
}

impl NodeEvent {
    /// Field-for-field equality of two descriptors, with the textual fields
    /// compared by their character sequences.
    pub open spec fn matches(&self, other: &NodeEvent) -> bool {
        &&& self.proxy_id == other.proxy_id
        &&& self.node_id == other.node_id
        &&& self.port_id == other.port_id
        &&& self.channel@ == other.channel@
        &&& self.object_path@ == other.object_path@
        &&& self.port_name@ == other.port_name@
        &&& self.direction@ == other.direction@
        &&& self.format@ == other.format@
    }
}

impl Clone for NodeEvent {
    /// The clone describes the same port, field for field.
    fn clone(&self) -> (r: NodeEvent)
        ensures
            r.matches(self),
    {
        NodeEvent {
            proxy_id: self.proxy_id,
            node_id: self.node_id,
            port_id: self.port_id,
            channel: self.channel.clone(),
            object_path: self.object_path.clone(),
            port_name: self.port_name.clone(),
            direction: self.direction.clone(),
            format: self.format.clone(),
        }
    }
}

/// A discovery-side transition of one graph object, queued for the
/// management thread. Discovery of an object strictly precedes its removal
/// in the queue, and each underlying transition is produced exactly once per
/// info or removal notification.
pub enum PWEvent {
    /// A port with a node association was discovered or re-announced.
    Node(NodeEvent),
    /// The object with the given proxy id disappeared from the server.
    RemoveNode(u32),
}

/// A command travelling toward the realtime audio callback.
pub enum IncomingEvent {
    /// Rebind the capture stream to the node with the given identifier.
    UpdateObjID(u32),
}

} // verus!
