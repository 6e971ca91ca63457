use vstd::prelude::*;
use crate::table::{lemma_filter_prefix_step, lemma_filter_unique, unique_by};
use crate::uuid::{BdAddr, BtUuid};

verus! {

/// The most peers tracked at once.
pub const MAX_CONNECTIONS: usize = 4;

/// A connected peer: its address, the session-scoped connection id, and
/// the transfer unit size once the peer has negotiated one.
#[derive(Clone, Copy, Debug)]
pub struct Connection {
    pub peer: BdAddr,
    pub conn_id: u16,
    pub mtu: Option<u16>,
}

#[verifier::external_type_specification]
#[verifier::external_body]
#[verifier::reject_recursive_types(T)]
pub struct ExHeaplessVec<T, const N: usize>(heapless::Vec<T, N>);

/// The connections held in a fixed-capacity table, in order.
pub uninterp spec fn table_entries(v: heapless::Vec<Connection, MAX_CONNECTIONS>) -> Seq<Connection>;

/// Relies on heapless::Vec::new: a new vector is empty.
#[verifier::external_body]
pub(crate) fn table_new() -> (r: heapless::Vec<Connection, MAX_CONNECTIONS>)
    ensures
        table_entries(r) == Seq::<Connection>::empty(),
{
    heapless::Vec::new()
}

/// Relies on heapless::Vec::as_slice: the slice holds the elements in
/// order, and a vector never holds more than its capacity.
#[verifier::external_body]
pub(crate) fn table_slice(v: &heapless::Vec<Connection, MAX_CONNECTIONS>) -> (r: &[Connection])
    ensures
        r@ == table_entries(*v),
        r@.len() <= MAX_CONNECTIONS,
{
    v.as_slice()
}

/// Relies on heapless::Vec::push: below capacity the item is appended;
/// at capacity the vector is unchanged and the item is handed back.
#[verifier::external_body]
pub(crate) fn table_push(v: &mut heapless::Vec<Connection, MAX_CONNECTIONS>, c: Connection) -> (r: Result<(), Connection>)
    ensures
        table_entries(*old(v)).len() < MAX_CONNECTIONS ==> {
            &&& r is Ok
            &&& table_entries(*final(v)) == table_entries(*old(v)).push(c)
        },
        table_entries(*old(v)).len() >= MAX_CONNECTIONS ==> {
            &&& r == Err::<(), Connection>(c)
            &&& table_entries(*final(v)) == table_entries(*old(v))
        },
{
    v.push(c)
}

/// Relies on heapless::Vec::swap_remove: the element at `i` is returned
/// and the last element takes its place. It panics when `i` is out of
/// bounds, which the precondition rules out.
#[verifier::external_body]
pub(crate) fn table_swap_remove(v: &mut heapless::Vec<Connection, MAX_CONNECTIONS>, i: usize) -> (r: Connection)
    requires
        i < table_entries(*old(v)).len(),
    ensures
        r == table_entries(*old(v))[i as int],
        table_entries(*final(v)) == table_entries(*old(v)).update(i as int, table_entries(*old(v)).last()).drop_last(),
{
    v.swap_remove(i)
}

/// Relies on heapless::Vec::as_mut_slice: the slice is the vector's own
/// elements, so writing one of them replaces that element in place.
#[verifier::external_body]
pub(crate) fn table_set(v: &mut heapless::Vec<Connection, MAX_CONNECTIONS>, i: usize, c: Connection)
    requires
        i < table_entries(*old(v)).len(),
    ensures
        table_entries(*final(v)) == table_entries(*old(v)).update(i as int, c),
{
    v.as_mut_slice()[i] = c;
}

/// A peer's subscription, over one connection, to pushes of one
/// characteristic.
#[derive(Clone, Copy, Debug, PartialEq, Eq, Structural)]
pub struct Subscription {
    pub conn_id: u16,
    pub uuid: BtUuid,
}

pub open spec fn subscription_key() -> spec_fn(Subscription) -> Subscription {
    |s: Subscription| s
}

pub open spec fn not_on(conn_id: u16) -> spec_fn(Subscription) -> bool {
    |s: Subscription| s.conn_id != conn_id
}

pub open spec fn other_than(sub: Subscription) -> spec_fn(Subscription) -> bool {
    |s: Subscription| s != sub
}

/// `s` after the element at `i` is removed and the last one moved into
/// its place.
pub open spec fn swap_removed(s: Seq<Connection>, i: int) -> Seq<Connection> {
    s.update(i, s.last()).drop_last()
}

/// `new` is `old` after the first connection of `peer`, if any, was
/// dropped together with its subscriptions.
pub open spec fn disconnected(old: ConnectionTable, new: ConnectionTable, peer: BdAddr) -> bool {
    ||| {
        &&& forall|k: int| 0 <= k < old.conns().len() ==> old.conns()[k].peer != peer
        &&& new.conns() == old.conns()
        &&& new.subscriptions@ == old.subscriptions@
    }
    ||| exists|i: int| {
        &&& 0 <= i < old.conns().len()
        &&& old.conns()[i].peer == peer
        &&& (forall|k: int| 0 <= k < i ==> old.conns()[k].peer != peer)
        &&& new.conns() == swap_removed(old.conns(), i)
        &&& new.subscriptions@ == old.subscriptions@.filter(not_on(old.conns()[i].conn_id))
    }
}

/// `new` is `old` with the transfer unit size `mtu` recorded on the first
/// connection with id `conn_id`, if any.
pub open spec fn mtu_recorded(old: ConnectionTable, new: ConnectionTable, conn_id: u16, mtu: u16) -> bool {
    &&& new.subscriptions@ == old.subscriptions@
    &&& {
        ||| {
            &&& forall|k: int| 0 <= k < old.conns().len() ==> old.conns()[k].conn_id != conn_id
            &&& new.conns() == old.conns()
        }
        ||| exists|i: int| {
            &&& 0 <= i < old.conns().len()
            &&& old.conns()[i].conn_id == conn_id
            &&& (forall|k: int| 0 <= k < i ==> old.conns()[k].conn_id != conn_id)
            &&& new.conns() == old.conns().update(i, Connection { mtu: Some(mtu), ..old.conns()[i] })
        }
    }
}

/// The subscriptions in `s` held over connections other than `conn_id`, in order.
fn retain_not_on(s: &Vec<Subscription>, conn_id: u16) -> (r: Vec<Subscription>)
    ensures
        r@ == s@.filter(not_on(conn_id)),
{
    let mut r: Vec<Subscription> = Vec::new();
    let mut i: usize = 0;
    while i < s.len()
        invariant
            i <= s@.len(),
            r@ == s@.take(i as int).filter(not_on(conn_id)),
        decreases s@.len() - i,
    {
        proof {
            lemma_filter_prefix_step(s@, not_on(conn_id), i as int);
        }
        if s[i].conn_id != conn_id {
            r.push(s[i]);
        }
        i = i + 1;
    }
    proof {
        assert(s@.take(i as int) =~= s@);
    }
    r
}

/// The subscriptions in `s` other than `sub`, in order.
fn retain_other_than(s: &Vec<Subscription>, sub: Subscription) -> (r: Vec<Subscription>)
    ensures
        r@ == s@.filter(other_than(sub)),
{
    let mut r: Vec<Subscription> = Vec::new();
    let mut i: usize = 0;
    while i < s.len()
        invariant
            i <= s@.len(),
            r@ == s@.take(i as int).filter(other_than(sub)),
        decreases s@.len() - i,
    {
        proof {
            lemma_filter_prefix_step(s@, other_than(sub), i as int);
        }
        if s[i] != sub {
            r.push(s[i]);
        }
        i = i + 1;
    }
    proof {
        assert(s@.take(i as int) =~= s@);
    }
    r
}

/// The connected peers, at most `MAX_CONNECTIONS` of them, and their
/// subscriptions.
pub struct ConnectionTable {
    pub entries: heapless::Vec<Connection, MAX_CONNECTIONS>,
    pub subscriptions: Vec<Subscription>,
}

impl ConnectionTable {
    pub open spec fn conns(&self) -> Seq<Connection> {
        table_entries(self.entries)
    }

    pub open spec fn wf(&self) -> bool {
        &&& self.conns().len() <= MAX_CONNECTIONS
        &&& unique_by(self.subscriptions@, subscription_key())
    }

    pub open spec fn spec_is_subscribed(&self, conn_id: u16, uuid: BtUuid) -> bool {
        self.subscriptions@.contains(Subscription { conn_id, uuid })
    }

    pub fn new() -> (r: ConnectionTable)
        ensures
            r.wf(),
            r.conns().len() == 0,
            r.subscriptions@.len() == 0,
    {
        ConnectionTable { entries: table_new(), subscriptions: Vec::new() }
    }

    /// The connections, in order.
    pub fn as_slice(&self) -> (r: &[Connection])
        ensures
            r@ == self.conns(),
    {
        table_slice(&self.entries)
    }

    pub fn len(&self) -> (r: usize)
        ensures
            r == self.conns().len(),
            r <= MAX_CONNECTIONS,
    {
        table_slice(&self.entries).len()
    }

    /// Admits a new peer when the table has room; a peer arriving at a
    /// full table is not tracked.
    pub fn connect(&mut self, conn_id: u16, peer: BdAddr) -> (admitted: bool)
        requires
            old(self).wf(),
        ensures
            final(self).wf(),
            admitted == (old(self).conns().len() < MAX_CONNECTIONS),
            final(self).conns() == (if admitted {
                old(self).conns().push(Connection { peer, conn_id, mtu: None })
            } else {
                old(self).conns()
            }),
            final(self).subscriptions@ == old(self).subscriptions@,
    {
        let n = self.len();
        if n < MAX_CONNECTIONS {
            let _ = table_push(&mut self.entries, Connection { peer, conn_id, mtu: None });
            true
        } else {
            false
        }
    }

    /// The position of the first connection with peer `peer`.
    pub fn position_of_peer(&self, peer: BdAddr) -> (r: Option<usize>)
        ensures
            match r {
                Some(i) => i < self.conns().len() && self.conns()[i as int].peer == peer
                    && forall|k: int| 0 <= k < i ==> self.conns()[k].peer != peer,
                None => forall|k: int| 0 <= k < self.conns().len() ==> self.conns()[k].peer != peer,
            },
    {
        let s = table_slice(&self.entries);
        let mut i: usize = 0;
        while i < s.len()
            invariant
                s@ == self.conns(),
                i <= s@.len(),
                forall|k: int| 0 <= k < i ==> s@[k].peer != peer,
            decreases s@.len() - i,
        {
            if s[i].peer == peer {
                return Some(i);
            }
            i = i + 1;
        }
        None
    }

    /// The position of the first connection with id `conn_id`.
    pub fn position_of_conn(&self, conn_id: u16) -> (r: Option<usize>)
        ensures
            match r {
                Some(i) => i < self.conns().len() && self.conns()[i as int].conn_id == conn_id
                    && forall|k: int| 0 <= k < i ==> self.conns()[k].conn_id != conn_id,
                None => forall|k: int| 0 <= k < self.conns().len() ==> self.conns()[k].conn_id != conn_id,
            },
    {
        let s = table_slice(&self.entries);
        let mut i: usize = 0;
        while i < s.len()
            invariant
                s@ == self.conns(),
                i <= s@.len(),
                forall|k: int| 0 <= k < i ==> s@[k].conn_id != conn_id,
            decreases s@.len() - i,
        {
            if s[i].conn_id == conn_id {
                return Some(i);
            }
            i = i + 1;
        }
        None
    }

    /// The first connection with id `conn_id`, if any.
    pub fn find_conn(&self, conn_id: u16) -> (r: Option<Connection>)
        ensures
            match r {
                Some(c) => exists|i: int| 0 <= i < self.conns().len() && self.conns()[i] == c
                    && c.conn_id == conn_id
                    && forall|k: int| 0 <= k < i ==> self.conns()[k].conn_id != conn_id,
                None => forall|k: int| 0 <= k < self.conns().len() ==> self.conns()[k].conn_id != conn_id,
            },
    {
        match self.position_of_conn(conn_id) {
            Some(i) => Some(table_slice(&self.entries)[i]),
            None => None,
        }
    }

    /// Forgets the first connection of `peer` and its subscriptions; a peer
    /// that is not tracked is no error.
    pub fn disconnect(&mut self, peer: BdAddr) -> (r: Option<Connection>)
        requires
            old(self).wf(),
        ensures
            final(self).wf(),
            disconnected(*old(self), *final(self), peer),
            match r {
                Some(c) => exists|i: int| {
                    &&& 0 <= i < old(self).conns().len()
                    &&& old(self).conns()[i] == c
                    &&& c.peer == peer
                    &&& (forall|k: int| 0 <= k < i ==> old(self).conns()[k].peer != peer)
                    &&& final(self).conns() == swap_removed(old(self).conns(), i)
                    &&& final(self).subscriptions@ == old(self).subscriptions@.filter(not_on(c.conn_id))
                },
                None => {
                    &&& forall|k: int| 0 <= k < old(self).conns().len() ==> old(self).conns()[k].peer != peer
                    &&& final(self).conns() == old(self).conns()
                    &&& final(self).subscriptions@ == old(self).subscriptions@
                },
            },
    {
        match self.position_of_peer(peer) {
            Some(i) => {
                let c = table_swap_remove(&mut self.entries, i);
                proof {
                    lemma_filter_unique(self.subscriptions@, subscription_key(), not_on(c.conn_id));
                }
                self.subscriptions = retain_not_on(&self.subscriptions, c.conn_id);
                assert(old(self).conns()[i as int] == c);
                assert(self.conns() == swap_removed(old(self).conns(), i as int));
                assert(disconnected(*old(self), *self, peer));
                Some(c)
            },
            None => None,
        }
    }

    /// Records the transfer unit size negotiated on connection `conn_id`;
    /// an id that is not tracked is ignored.
    pub fn set_mtu(&mut self, conn_id: u16, mtu: u16) -> (found: bool)
        requires
            old(self).wf(),
        ensures
            final(self).wf(),
            mtu_recorded(*old(self), *final(self), conn_id, mtu),
            final(self).subscriptions@ == old(self).subscriptions@,
            found == exists|k: int| 0 <= k < old(self).conns().len() && old(self).conns()[k].conn_id == conn_id,
            !found ==> final(self).conns() == old(self).conns(),
            found ==> exists|i: int| {
                &&& 0 <= i < old(self).conns().len()
                &&& old(self).conns()[i].conn_id == conn_id
                &&& (forall|k: int| 0 <= k < i ==> old(self).conns()[k].conn_id != conn_id)
                &&& final(self).conns() == old(self).conns().update(
                    i,
                    Connection { mtu: Some(mtu), ..old(self).conns()[i] },
                )
            },
    {
        match self.position_of_conn(conn_id) {
            Some(i) => {
                let c = table_slice(&self.entries)[i];
                table_set(&mut self.entries, i, Connection { mtu: Some(mtu), ..c });
                true
            },
            None => false,
        }
    }

    pub fn is_subscribed(&self, conn_id: u16, uuid: BtUuid) -> (r: bool)
        ensures
            r == self.spec_is_subscribed(conn_id, uuid),
    {
        let sub = Subscription { conn_id, uuid };
        let mut i: usize = 0;
        while i < self.subscriptions.len()
            invariant
                sub == (Subscription { conn_id, uuid }),
                i <= self.subscriptions@.len(),
                forall|k: int| 0 <= k < i ==> self.subscriptions@[k] != sub,
            decreases self.subscriptions@.len() - i,
        {
            if self.subscriptions[i] == sub {
                assert(self.subscriptions@[i as int] == sub);
                return true;
            }
            i = i + 1;
        }
        false
    }

    /// Records a subscription that was not held.
    pub fn subscribe(&mut self, conn_id: u16, uuid: BtUuid)
        requires
            old(self).wf(),
            !old(self).spec_is_subscribed(conn_id, uuid),
        ensures
            final(self).wf(),
            final(self).conns() == old(self).conns(),
            final(self).subscriptions@ == old(self).subscriptions@.push(Subscription { conn_id, uuid }),
    {
        self.subscriptions.push(Subscription { conn_id, uuid });
        proof {
            let s = self.subscriptions@;
            assert forall|i: int, j: int| 0 <= i < s.len() && 0 <= j < s.len() && i != j
                implies subscription_key()(s[i]) != subscription_key()(s[j]) by {
                if i == s.len() - 1 {
                    assert(s[j] == old(self).subscriptions@[j]);
                    if s[j] == s[i] {
                        assert(old(self).subscriptions@.contains(s[i]));
                    }
                } else if j == s.len() - 1 {
                    assert(s[i] == old(self).subscriptions@[i]);
                    if s[j] == s[i] {
                        assert(old(self).subscriptions@.contains(s[j]));
                    }
                } else {
                    assert(s[i] == old(self).subscriptions@[i]);
                    assert(s[j] == old(self).subscriptions@[j]);
                }
            }
        }
    }

    /// Drops a subscription.
    pub fn unsubscribe(&mut self, conn_id: u16, uuid: BtUuid)
        requires
            old(self).wf(),
        ensures
            final(self).wf(),
            final(self).conns() == old(self).conns(),
            final(self).subscriptions@ == old(self).subscriptions@.filter(other_than(Subscription { conn_id, uuid })),
    {
        let sub = Subscription { conn_id, uuid };
        proof {
            lemma_filter_unique(self.subscriptions@, subscription_key(), other_than(sub));
        }
        self.subscriptions = retain_other_than(&self.subscriptions, sub);
    }
}

} // verus!
