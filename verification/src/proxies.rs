//! Proxy lifecycle store.
//!
//! The store is the only owner of bound graph-object handles and of the
//! listener handles registered against them. An entry exists exactly while
//! the underlying server object is considered live, and no two entries ever
//! carry the same object id: the server never reuses an id while the object
//! is live, so inserting a duplicate is a programming error and is ruled out
//! by precondition rather than tolerated. Removal is a no-op for an absent
//! id, because removal notifications may race with earlier cleanup.

use vstd::prelude::*;

verus! {

/// Handle to one bound graph-object proxy. `id` is the server-side object
/// identifier; `slot` is an opaque token under which the embedding keeps the
/// actual transport resource.
#[derive(Clone, Copy, Debug, PartialEq, Eq, Structural)]
pub struct ProxyHandle {
    /// Server-side object id, stable and unique while the object is live.
    pub id: u32,
    /// Opaque token for the embedding's own resource bookkeeping.
    pub slot: u64,
}

/// Handle to one registered listener, owned by the store together with the
/// proxy it listens on.
#[derive(Clone, Copy, Debug, PartialEq, Eq, Structural)]
pub struct ListenerHandle {
    /// Opaque token for the embedding's own resource bookkeeping.
    pub token: u64,
}

/// One live entry: the bound proxy plus the listeners registered against it,
/// in registration order.
pub struct ProxyEntry {
    /// The bound proxy handle.
    pub proxy: ProxyHandle,
    /// Listener handles in registration order. When the entry is dropped,
    /// these must be released before the proxy handle itself, so that the
    /// server cannot invoke a callback against freed listener state.
    pub listeners: Vec<ListenerHandle>,
}

/// The proxy lifecycle store: exclusive owner of every live `ProxyEntry`,
/// keyed by the proxy's object id.
pub struct Proxies {
    entries: Vec<ProxyEntry>,
}

impl View for Proxies {
    type V = Seq<ProxyEntry>;

    closed spec fn view(&self) -> Seq<ProxyEntry> {
        self.entries@
    }
}

/// Relation between the store's view before and after removing `id`: the
/// first entry carrying the id leaves the store and is handed back, or —
/// with no such entry — nothing changes and nothing is returned.
pub open spec fn remove_transition(
    pre: Seq<ProxyEntry>,
    post: Seq<ProxyEntry>,
    id: u32,
    r: Option<ProxyEntry>,
) -> bool {
    if exists|i: int| 0 <= i < pre.len() && (#[trigger] pre[i]).proxy.id == id {
        exists|i: int|
            0 <= i < pre.len() && (#[trigger] pre[i]).proxy.id == id && r == Some(pre[i]) && post
                == pre.remove(i)
    } else {
        r is None && post == pre
    }
}

/// `post` is `pre` with `listener` appended to the listener list of the
/// entry at position `i`, and nothing else changed.
pub open spec fn listener_appended(
    pre: Seq<ProxyEntry>,
    post: Seq<ProxyEntry>,
    i: int,
    listener: ListenerHandle,
) -> bool {
    &&& post.len() == pre.len()
    &&& forall|k: int| 0 <= k < pre.len() && k != i ==> post[k] == pre[k]
    &&& post[i].proxy == pre[i].proxy
    &&& post[i].listeners@ == pre[i].listeners@.push(listener)
}

impl Proxies {
    /// No two entries carry the same object id.
    pub open spec fn wf(&self) -> bool {
        forall|i: int, j: int|
            0 <= i < j < self@.len() ==> (#[trigger] self@[i]).proxy.id != (
            #[trigger] self@[j]).proxy.id
    }

    /// Some entry carries the given object id.
    pub open spec fn spec_contains(&self, id: u32) -> bool {
        exists|i: int| 0 <= i < self@.len() && (#[trigger] self@[i]).proxy.id == id
    }

    /// An empty store.
    pub fn new() -> (s: Proxies)
        ensures
            s@ == Seq::<ProxyEntry>::empty(),
            s.wf(),
    {
        Proxies { entries: Vec::new() }
    }

    /// Number of live entries.
    pub fn len(&self) -> (n: usize)
        ensures
            n == self@.len(),
    {
        self.entries.len()
    }

    /// Whether an entry for the given object id is present.
    pub fn contains(&self, id: u32) -> (b: bool)
        ensures
            b == self.spec_contains(id),
    {
        let n = self.entries.len();
        for i in 0..n
            invariant
                n == self@.len(),
                forall|k: int| 0 <= k < i ==> (#[trigger] self@[k]).proxy.id != id,
        {
            if self.entries[i].proxy.id == id {
                return true;
            }
        }
        false
    }

    /// Inserts a new entry owning the proxy and its first listener. The id
    /// must not be present: server ids are unique while live, so a duplicate
    /// insertion indicates a sequencing bug and is excluded up front.
    pub fn add_proxy_t(&mut self, proxy_t: ProxyHandle, listener: ListenerHandle)
        requires
            !old(self).spec_contains(proxy_t.id),
            old(self).wf(),
        ensures
            final(self)@.len() == old(self)@.len() + 1,
            final(self)@.last().proxy == proxy_t,
            final(self)@.last().listeners@ == seq![listener],
            final(self)@.drop_last() == old(self)@,
            final(self).wf(),
            final(self).spec_contains(proxy_t.id),
    {
        let mut listeners: Vec<ListenerHandle> = Vec::new();
        listeners.push(listener);
        self.entries.push(ProxyEntry { proxy: proxy_t, listeners });
        proof {
            assert(self@.drop_last() =~= old(self)@);
            assert(self@.last().listeners@ =~= seq![listener]);
            let n = old(self)@.len() as int;
            assert forall|i: int, j: int|
                0 <= i < j < self@.len() implies (#[trigger] self@[i]).proxy.id != (
            #[trigger] self@[j]).proxy.id by {
                if j == n {
                    assert(self@[i] == old(self)@[i]);
                }
            }
        }
    }

    /// Appends a further listener to the entry with the given id. Returns
    /// true exactly when such an entry exists; otherwise the store is left
    /// unchanged, since there is nothing live to listen on.
    pub fn add_proxy_listener(&mut self, proxy_id: u32, listener: ListenerHandle) -> (added: bool)
        requires
            old(self).wf(),
        ensures
            added == old(self).spec_contains(proxy_id),
            !added ==> final(self)@ == old(self)@,
            added ==> exists|i: int|
                0 <= i < old(self)@.len() && (#[trigger] old(self)@[i]).proxy.id == proxy_id
                    && listener_appended(old(self)@, final(self)@, i, listener),
            final(self).wf(),
    {
        let n = self.entries.len();
        for i in 0..n
            invariant
                n == self@.len(),
                self@ == old(self)@,
                old(self).wf(),
                forall|k: int| 0 <= k < i ==> (#[trigger] self@[k]).proxy.id != proxy_id,
        {
            if self.entries[i].proxy.id == proxy_id {
                let mut entry = self.entries.remove(i);
                entry.listeners.push(listener);
                self.entries.insert(i, entry);
                proof {
                    let gi = i as int;
                    assert forall|k: int|
                        0 <= k < old(self)@.len() && k != gi implies self@[k] == old(self)@[k] by {
                        old(self)@.remove_ensures(gi);
                    }
                    assert(listener_appended(old(self)@, self@, gi, listener));
                    assert forall|a: int, b: int|
                        0 <= a < b < self@.len() implies (#[trigger] self@[a]).proxy.id != (
                    #[trigger] self@[b]).proxy.id by {
                        assert(self@[a].proxy.id == old(self)@[a].proxy.id);
                        assert(self@[b].proxy.id == old(self)@[b].proxy.id);
                    }
                }
                return true;
            }
        }
        false
    }

    /// Drops the entry for the given object id and returns it, so that the
    /// caller can release the listener handles first and the proxy handle
    /// last. A no-op returning `None` when the id is absent: removal
    /// notifications may race with earlier cleanup. Removing an id twice is
    /// therefore the same as removing it once.
    pub fn remove(&mut self, proxy_id: u32) -> (r: Option<ProxyEntry>)
        requires
            old(self).wf(),
        ensures
            remove_transition(old(self)@, final(self)@, proxy_id, r),
            r is Some <==> old(self).spec_contains(proxy_id),
            !final(self).spec_contains(proxy_id),
            final(self).wf(),
    {
        let n = self.entries.len();
        for i in 0..n
            invariant
                n == self@.len(),
                self@ == old(self)@,
                old(self).wf(),
                forall|k: int| 0 <= k < i ==> (#[trigger] self@[k]).proxy.id != proxy_id,
        {
            if self.entries[i].proxy.id == proxy_id {
                let entry = self.entries.remove(i);
                proof {
                    let gi = i as int;
                    old(self)@.remove_ensures(gi);
                    assert(0 <= gi < old(self)@.len() && old(self)@[gi].proxy.id == proxy_id
                        && Some(entry) == Some(old(self)@[gi]) && self@ == old(self)@.remove(gi));
                    assert forall|k: int|
                        0 <= k < self@.len() implies (#[trigger] self@[k]).proxy.id != proxy_id by {
                        if k < gi {
                            assert(self@[k] == old(self)@[k]);
                        } else {
                            assert(self@[k] == old(self)@[k + 1]);
                        }
                    }
                    assert forall|a: int, b: int|
                        0 <= a < b < self@.len() implies (#[trigger] self@[a]).proxy.id != (
                    #[trigger] self@[b]).proxy.id by {
                        let oa: int = if a < gi {
                            a
                        } else {
                            a + 1
                        };
                        let ob: int = if b < gi {
                            b
                        } else {
                            b + 1
                        };
                        assert(self@[a] == old(self)@[oa]);
                        assert(self@[b] == old(self)@[ob]);
                    }
                }
                return Some(entry);
            }
        }
        None
    }
}

/// Removing an id twice is the same as removing it once: a removal leaves
/// no entry carrying the id — `remove` ensures so — and removing an id that
/// no entry carries keeps the store unchanged and returns nothing.
pub proof fn lemma_remove_is_idempotent(
    mid: Seq<ProxyEntry>,
    post: Seq<ProxyEntry>,
    id: u32,
    r: Option<ProxyEntry>,
)
    requires
        forall|i: int| 0 <= i < mid.len() ==> (#[trigger] mid[i]).proxy.id != id,
        remove_transition(mid, post, id, r),
    ensures
        post == mid,
        r is None,
{
}

/// The store never holds two entries for the same object id: in any
/// well-formed store, two distinct entry positions always carry distinct
/// ids. Every constructor and mutator of `Proxies` states in its contract
/// that well-formedness is preserved, so this holds in every reachable
/// state.
pub proof fn lemma_no_duplicate_ids(s: &Proxies, i: int, j: int)
    requires
        s.wf(),
        0 <= i < s@.len(),
        0 <= j < s@.len(),
        i != j,
    ensures
        s@[i].proxy.id != s@[j].proxy.id,
{
}

} // verus!
