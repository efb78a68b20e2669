//! Graph registry listener.
//!
//! Bridges the server's global-object notifications into typed discovery
//! events. Only port-kind objects are bound; when a bound port's first info
//! notification carries a node association, a `NodeEvent` is built from the
//! property dictionary — absent optional properties default to a sentinel
//! string rather than failing — and queued on the outbound channel. When the
//! object's removal notification fires, a removal event is queued and the
//! entry leaves the proxy lifecycle store.
//!
//! The property dictionary arrives as plain key/value strings; the numeric
//! node and port identifiers are parsed here, with an exact account of when
//! parsing succeeds.

use crate::events::NodeEvent;
use crate::events::PWEvent;
use crate::proxies::ListenerHandle;
use crate::proxies::Proxies;
use crate::proxies::ProxyEntry;
use crate::proxies::ProxyHandle;
use crate::queue::Queue;
use crate::session::ConnectRequest;
use crate::session::EStream;
use crate::session::StreamCore;
use crate::session::StreamCoreData;
use vstd::prelude::*;

verus! {

/// Kind of a global object announced by the server's registry.
#[derive(Clone, Copy, Debug, PartialEq, Eq, Structural)]
pub enum ObjectKind {
    /// A port of a node; the only kind this listener binds.
    Port,
    /// A processing node.
    Node,
    /// A link between two ports.
    Link,
    /// Anything else the server announces.
    Other,
}

/// Whether a dictionary value character is a decimal digit.
pub open spec fn is_dec_digit(c: char) -> bool {
    48 <= c as u32 <= 57
}

/// Numeric value of a decimal digit character.
pub open spec fn digit_val(c: char) -> int {
    c as u32 - 48
}

/// Whether every character of the text is a decimal digit.
pub open spec fn all_digits(s: Seq<char>) -> bool {
    forall|i: int| 0 <= i < s.len() ==> is_dec_digit(#[trigger] s[i])
}

/// Value of a decimal digit string, most significant digit first.
pub open spec fn dec_val(s: Seq<char>) -> int
    decreases s.len(),
{
    if s.len() == 0 {
        0
    } else {
        dec_val(s.drop_last()) * 10 + digit_val(s.last())
    }
}

/// The texts whose parse as an unsigned 32-bit identifier succeeds: at
/// least one character, digits only, value in range.
pub open spec fn parses_u32(s: Seq<char>) -> bool {
    s.len() > 0 && all_digits(s) && dec_val(s) <= u32::MAX
}

/// A digit string has a non-negative value.
proof fn lemma_dec_val_nonneg(s: Seq<char>)
    requires
        all_digits(s),
    ensures
        dec_val(s) >= 0,
    decreases s.len(),
{
    if s.len() > 0 {
        assert(all_digits(s.drop_last()));
        lemma_dec_val_nonneg(s.drop_last());
    }
}

/// Extending a digit string cannot shrink its value: every prefix of a
/// digit string is worth at most the whole.
proof fn lemma_dec_val_prefix(s: Seq<char>, k: int)
    requires
        all_digits(s),
        0 <= k <= s.len(),
    ensures
        dec_val(s.subrange(0, k)) <= dec_val(s),
    decreases s.len(),
{
    if k == s.len() {
        assert(s.subrange(0, k) =~= s);
    } else {
        assert(all_digits(s.drop_last()));
        lemma_dec_val_nonneg(s.drop_last());
        lemma_dec_val_prefix(s.drop_last(), k);
        assert(s.drop_last().subrange(0, k) =~= s.subrange(0, k));
        assert(is_dec_digit(s.last()));
    }
}

/// Character-wise equality of two text slices.
pub fn str_eq(a: &str, b: &str) -> (r: bool)
    ensures
        r == (a@ == b@),
{
    let la = a.unicode_len();
    let lb = b.unicode_len();
    if la != lb {
        return false;
    }
    for i in 0..la
        invariant
            la == a@.len(),
            la == b@.len(),
            forall|k: int| 0 <= k < i ==> a@[k] == b@[k],
    {
        if a.get_char(i) != b.get_char(i) {
            return false;
        }
    }
    proof {
        assert(a@ =~= b@);
    }
    true
}

/// Parses a decimal unsigned 32-bit identifier. Returns the value exactly
/// when the text is non-empty, holds digits only and fits; anything else —
/// empty text, a stray character, a value out of range — is `None`.
pub fn parse_u32(s: &str) -> (r: Option<u32>)
    ensures
        r is Some <==> parses_u32(s@),
        r matches Some(v) ==> v == dec_val(s@),
{
    let len = s.unicode_len();
    if len == 0 {
        return None;
    }
    let mut acc: u32 = 0;
    for i in 0..len
        invariant
            len == s@.len(),
            all_digits(s@.subrange(0, i as int)),
            acc == dec_val(s@.subrange(0, i as int)),
    {
        let c = s.get_char(i);
        let code = c as u32;
        if code < 48 || code > 57 {
            return None;
        }
        let d = code - 48;
        let wide: u64 = acc as u64 * 10 + d as u64;
        proof {
            assert(s@.subrange(0, i + 1).drop_last() =~= s@.subrange(0, i as int));
            assert(s@.subrange(0, i + 1).last() == s@[i as int]);
        }
        if wide > u32::MAX as u64 {
            proof {
                if all_digits(s@) {
                    lemma_dec_val_prefix(s@, i + 1);
                }
            }
            return None;
        }
        acc = wide as u32;
    }
    proof {
        assert(s@.subrange(0, len as int) =~= s@);
    }
    Some(acc)
}

/// First value recorded under the given key, scanning in dictionary order.
pub open spec fn spec_dict_get(d: Seq<(String, String)>, key: Seq<char>) -> Option<Seq<char>>
    decreases d.len(),
{
    if d.len() == 0 {
        None
    } else if d[0].0@ == key {
        Some(d[0].1@)
    } else {
        spec_dict_get(d.drop_first(), key)
    }
}

/// Looks a key up in a property dictionary: the first entry whose key
/// matches, or `None` when no entry does.
pub fn dict_get<'a>(props: &'a Vec<(String, String)>, key: &str) -> (r: Option<&'a String>)
    ensures
        match r {
            Some(v) => spec_dict_get(props@, key@) == Some(v@),
            None => spec_dict_get(props@, key@) is None,
        },
{
    let n = props.len();
    proof {
        assert(props@.skip(0) =~= props@);
    }
    for i in 0..n
        invariant
            n == props@.len(),
            spec_dict_get(props@, key@) == spec_dict_get(props@.skip(i as int), key@),
    {
        proof {
            assert(props@.skip(i as int)[0] == props@[i as int]);
            assert(props@.skip(i as int).drop_first() =~= props@.skip(i + 1));
        }
        if str_eq(props[i].0.as_str(), key) {
            return Some(&props[i].1);
        }
    }
    None
}

/// The value recorded under the key, or the sentinel text for an absent
/// optional property.
pub open spec fn prop_or_sentinel(d: Seq<(String, String)>, key: Seq<char>) -> Seq<char> {
    match spec_dict_get(d, key) {
        Some(v) => v,
        None => "Test"@,
    }
}

/// Whether the value recorded under the key parses as an unsigned 32-bit
/// identifier; false when the key is absent.
pub open spec fn numeric_prop_parses(d: Seq<(String, String)>, key: Seq<char>) -> bool {
    match spec_dict_get(d, key) {
        Some(v) => parses_u32(v),
        None => false,
    }
}

/// The parsed value recorded under the key.
pub open spec fn numeric_prop_val(d: Seq<(String, String)>, key: Seq<char>) -> int {
    match spec_dict_get(d, key) {
        Some(v) => dec_val(v),
        None => 0,
    }
}

/// A property set carries a usable node association when its node and port
/// identifiers are present and parse.
pub open spec fn node_association_complete(d: Seq<(String, String)>) -> bool {
    numeric_prop_parses(d, "node.id"@) && numeric_prop_parses(d, "port.id"@)
}

/// The descriptor the listener builds from a property set: identifiers
/// parsed from the dictionary, textual properties taken as recorded with
/// the sentinel for absent ones.
pub open spec fn event_of(d: Seq<(String, String)>, proxy_id: u32, e: NodeEvent) -> bool {
    &&& e.proxy_id == proxy_id
    &&& e.node_id == numeric_prop_val(d, "node.id"@)
    &&& e.port_id == numeric_prop_val(d, "port.id"@)
    &&& e.channel@ == prop_or_sentinel(d, "audio.channel"@)
    &&& e.object_path@ == prop_or_sentinel(d, "object.path"@)
    &&& e.port_name@ == prop_or_sentinel(d, "port.name"@)
    &&& e.direction@ == prop_or_sentinel(d, "port.direction"@)
    &&& e.format@ == prop_or_sentinel(d, "format.dsp"@)
}

/// Builds the discovery descriptor for a bound port from its property
/// dictionary. Yields a descriptor exactly when the node association is
/// complete: the node and port identifiers are present and parse. A partial
/// info update — an absent or malformed identifier — yields `None` and is
/// skipped without failing; absent textual properties fall back to the
/// sentinel.
pub fn make_node_event(proxy_id: u32, props: &Vec<(String, String)>) -> (r: Option<NodeEvent>)
    ensures
        r is Some <==> node_association_complete(props@),
        r matches Some(e) ==> event_of(props@, proxy_id, e),
{
    let node_id_text = match dict_get(props, "node.id") {
        Some(v) => v,
        None => {
            return None;
        },
    };
    let node_id = match parse_u32(node_id_text.as_str()) {
        Some(v) => v,
        None => {
            return None;
        },
    };
    let port_id_text = match dict_get(props, "port.id") {
        Some(v) => v,
        None => {
            return None;
        },
    };
    let port_id = match parse_u32(port_id_text.as_str()) {
        Some(v) => v,
        None => {
            return None;
        },
    };
    let channel = match dict_get(props, "audio.channel") {
        Some(v) => v.clone(),
        None => "Test".to_owned(),
    };
    let object_path = match dict_get(props, "object.path") {
        Some(v) => v.clone(),
        None => "Test".to_owned(),
    };
    let port_name = match dict_get(props, "port.name") {
        Some(v) => v.clone(),
        None => "Test".to_owned(),
    };
    let direction = match dict_get(props, "port.direction") {
        Some(v) => v.clone(),
        None => "Test".to_owned(),
    };
    let format = match dict_get(props, "format.dsp") {
        Some(v) => v.clone(),
        None => "Test".to_owned(),
    };
    Some(
        NodeEvent {
            proxy_id,
            node_id,
            port_id,
            channel,
            object_path,
            port_name,
            direction,
            format,
        },
    )
}

/// The event-loop quit decision for a core-level error notification: only
/// an error on the connection object itself (id zero) is session-fatal and
/// requests termination; every other error is left to its object.
pub fn core_error_requests_quit(id: u32) -> (quit: bool)
    ensures
        quit == (id == 0),
{
    id == 0
}

/// Only port-kind objects are of interest to the registry listener; all
/// others are neither bound nor stored, and no event is emitted for them.
pub fn should_bind(kind: &ObjectKind) -> (r: bool)
    ensures
        r == (kind is Port),
{
    matches!(kind, ObjectKind::Port)
}

/// The discovery side of the system: the proxy lifecycle store, the
/// outbound event queue toward the management thread, and the one optional
/// capture session.
pub struct PipeWire<T> {
    /// Exclusive owner of every bound proxy and its listeners.
    pub proxies: Proxies,
    /// Discovery events on their way to the management thread.
    pub outbound: Queue<PWEvent>,
    /// Whether the registry listener is registered.
    pub listening: bool,
    /// Name of the remote server to connect to, when not the default.
    pub remote: Option<String>,
    /// The single capture session, once one was set up.
    pub e_stream: Option<EStream<T>>,
}

impl<T> PipeWire<T> {
    /// The proxy store never holds two entries for the same object id.
    pub open spec fn wf(&self) -> bool {
        self.proxies.wf()
    }

    /// A fresh, unconnected discovery core: empty store, empty outbound
    /// queue, no listener, no session. Construction cannot fail; the
    /// fallible step is connecting, which the embedding performs.
    pub fn new() -> (pw: PipeWire<T>)
        ensures
            pw.proxies@ == Seq::<ProxyEntry>::empty(),
            pw.outbound@ == Seq::<PWEvent>::empty(),
            !pw.listening,
            pw.remote is None,
            pw.e_stream is None,
            pw.wf(),
    {
        PipeWire {
            proxies: Proxies::new(),
            outbound: Queue::new(),
            listening: false,
            remote: None,
            e_stream: None,
        }
    }

    /// Records the configuration of the main loop: the remote name, whether
    /// the registry listener is registered, and — when stream data is given
    /// — the capture session, created and connected to the default capture
    /// route with the flags and format enumeration of `create_stream`. The
    /// returned request, present exactly when a session was set up, is what
    /// the embedding must issue to connect the stream before running its
    /// event loop.
    pub fn setup_main(
        &mut self,
        remote: Option<String>,
        has_listener: bool,
        scd: Option<StreamCoreData<T>>,
    ) -> (r: Option<ConnectRequest>)
        ensures
            final(self).remote == remote,
            final(self).listening == has_listener,
            final(self).proxies@ == old(self).proxies@,
            final(self).outbound@ == old(self).outbound@,
            scd is None ==> final(self).e_stream is None && r is None,
            scd matches Some(d) ==> (final(self).e_stream matches Some(es) && (r matches Some(req)
                && es.session.state is Connected && es.session.target == Some(req.target)
                && req.target == 0 && es.session.format is None && !es.session.cursor_move
                && es.receiver@ == d.receiver@ && es.data == d.data && req.direction is Input
                && req.autoconnect && req.map_buffers && req.rt_process)),
    {
        self.remote = remote;
        self.listening = has_listener;
        match scd {
            None => {
                self.e_stream = None;
                None
            },
            Some(d) => {
                let mut es = EStream::new(
                    StreamCore { core_slot: 0, receiver: d.receiver, data: d.data },
                );
                let req = es.create_stream(None);
                self.e_stream = Some(es);
                Some(req)
            },
        }
    }

    /// Registers a freshly bound port and its listeners in the store: the
    /// info/parameter listener first, then the lifecycle listener that
    /// watches for removal, in that order. The object must be new to the
    /// store — the server does not reuse ids of live objects.
    pub fn register_port(
        &mut self,
        port: ProxyHandle,
        info_listener: ListenerHandle,
        removed_listener: ListenerHandle,
    )
        requires
            !old(self).proxies.spec_contains(port.id),
            old(self).wf(),
        ensures
            final(self).proxies@.len() == old(self).proxies@.len() + 1,
            final(self).proxies@.drop_last() == old(self).proxies@,
            final(self).proxies@.last().proxy == port,
            final(self).proxies@.last().listeners@ == seq![info_listener, removed_listener],
            final(self).proxies.spec_contains(port.id),
            final(self).wf(),
            final(self).outbound@ == old(self).outbound@,
            final(self).listening == old(self).listening,
            final(self).remote == old(self).remote,
    {
        self.proxies.add_proxy_t(port, info_listener);
        let ghost mid = self.proxies@;
        let added = self.proxies.add_proxy_listener(port.id, removed_listener);
        proof {
            assert(added);
            let n = mid.len() - 1;
            let i = choose|i: int|
                0 <= i < mid.len() && (#[trigger] mid[i]).proxy.id == port.id
                    && crate::proxies::listener_appended(mid, self.proxies@, i, removed_listener);
            if i != n {
                assert(mid[i].proxy.id != mid[n].proxy.id);
            }
            assert(self.proxies@.last().listeners@ =~= seq![info_listener, removed_listener]);
            assert(self.proxies@.drop_last() =~= old(self).proxies@);
        }
    }

    /// Handles one info notification of a bound port: when the property set
    /// carries a complete node association, the built descriptor is queued
    /// as a discovery event; otherwise nothing is emitted. An info callback
    /// may fire again on property updates, re-emitting a fresh descriptor —
    /// downstream consumers tolerate idempotent re-emission.
    pub fn on_port_info(&mut self, proxy_id: u32, props: &Vec<(String, String)>) -> (emitted: bool)
        ensures
            emitted == node_association_complete(props@),
            !emitted ==> final(self).outbound@ == old(self).outbound@,
            emitted ==> final(self).outbound@.len() == old(self).outbound@.len() + 1 && final(self).outbound@.drop_last() == old(self).outbound@ && (final(self).outbound@.last() matches
                PWEvent::Node(e) && event_of(props@, proxy_id, e)),
            final(self).proxies@ == old(self).proxies@,
            final(self).listening == old(self).listening,
            final(self).remote == old(self).remote,
    {
        match make_node_event(proxy_id, props) {
            None => false,
            Some(e) => {
                self.outbound.push(PWEvent::Node(e));
                proof {
                    assert(self.outbound@.drop_last() =~= old(self).outbound@);
                }
                true
            },
        }
    }

    /// Handles the removal notification of a bound object: queues the
    /// removal event for the management thread, drops the store entry and
    /// returns it so that the embedding releases its listener registrations
    /// first and the proxy handle last. The removal event is queued behind
    /// everything already queued, so a discovery of the same object is
    /// observed before its removal.
    pub fn on_removed(&mut self, proxy_id: u32) -> (dropped: Option<ProxyEntry>)
        requires
            old(self).wf(),
        ensures
            final(self).outbound@ == old(self).outbound@.push(PWEvent::RemoveNode(proxy_id)),
            crate::proxies::remove_transition(
                old(self).proxies@,
                final(self).proxies@,
                proxy_id,
                dropped,
            ),
            dropped is Some <==> old(self).proxies.spec_contains(proxy_id),
            !final(self).proxies.spec_contains(proxy_id),
            final(self).wf(),
            final(self).listening == old(self).listening,
            final(self).remote == old(self).remote,
    {
        self.outbound.push(PWEvent::RemoveNode(proxy_id));
        self.proxies.remove(proxy_id)
    }
}

/// A discovery event for a graph object is observed by the consumer no
/// later — in fact strictly earlier — than the matching removal event, for
/// any activity in between.
///
/// The hypotheses are exactly what the handlers' contracts give: right
/// after `on_port_info` emits the discovery, it is the queue's last entry
/// (`discovered`); every later handler call either leaves the queue alone
/// or appends, so when `on_removed` appends the matching removal,
/// `discovered` is still a prefix of everything before that removal; and
/// `drain_all` returns exactly the queued sequence. It follows that the
/// consumer observes the discovery at its original position, strictly
/// before the removal, which it observes last.
pub proof fn lemma_discovery_observed_before_removal(
    discovered: Seq<PWEvent>,
    removed: Seq<PWEvent>,
    observed: Seq<PWEvent>,
    proxy_id: u32,
)
    requires
        discovered.len() > 0,
        discovered.last() matches PWEvent::Node(e) && e.proxy_id == proxy_id,
        discovered.is_prefix_of(removed.drop_last()),
        removed.len() > 0,
        removed.last() == PWEvent::RemoveNode(proxy_id),
        observed == removed,
    ensures
        observed[discovered.len() - 1] == discovered.last(),
        observed[observed.len() - 1] == PWEvent::RemoveNode(proxy_id),
        discovered.len() - 1 < observed.len() - 1,
{
    let di = discovered.len() - 1;
    assert(removed.drop_last().subrange(0, discovered.len() as int)[di] == removed.drop_last()[di]);
    assert(removed.drop_last()[di] == removed[di]);
}

/// Registration of the registry listener on an already connected core.
pub trait EListener {
    /// Whether the registry listener is registered.
    spec fn is_listening(&self) -> bool;

    /// Everything of the implementor except the listener registration is
    /// the same in both states.
    spec fn same_but_listening(&self, other: &Self) -> bool;

    /// Registers the registry listener: from then on the implementor
    /// observes the server's global add and remove notifications. Nothing
    /// else of the implementor changes.
    fn setup_listener(&mut self)
        ensures
            final(self).is_listening(),
            final(self).same_but_listening(old(self)),
    ;
}

impl<T> EListener for PipeWire<T> {
    open spec fn is_listening(&self) -> bool {
        self.listening
    }

    open spec fn same_but_listening(&self, other: &Self) -> bool {
        &&& self.proxies@ == other.proxies@
        &&& self.outbound@ == other.outbound@
        &&& self.remote == other.remote
        &&& self.e_stream == other.e_stream
    }

    fn setup_listener(&mut self) {
        self.listening = true;
    }
}

} // verus!
