//! Properties of the session that span several events.

use vstd::prelude::*;
use crate::app::{char_key, BLEApp};
use crate::connections::{other_than, Subscription, MAX_CONNECTIONS};
use crate::events::{Action, AppError, GattsEvent, STATUS_OK};
use crate::gatt::SUBSCRIBE_VALUE;
use crate::handles::{attr_key, AttrHandle};
use crate::session::{le_u16, ConnectedState};
use crate::table::{has_key, lookup, unique_by};
use crate::uuid::{BdAddr, BtUuid};

verus! {

pub open spec fn attr_uuid() -> spec_fn(AttrHandle) -> BtUuid {
    |e: AttrHandle| e.uuid
}

/// Characteristic-added confirmations for distinct registered UUIDs under
/// distinct handles, applied from an empty handle map, leave exactly one
/// entry per confirmed UUID, each under its own handle.
pub proof fn lemma_one_handle_per_characteristic(
    app: BLEApp,
    states: Seq<ConnectedState>,
    acts: Seq<Seq<Action>>,
    rs: Seq<Result<(), AppError>>,
    added: Seq<AttrHandle>,
)
    requires
        states.len() == added.len() + 1,
        acts.len() == added.len() + 1,
        rs.len() == added.len(),
        states[0].handles.attributes@.len() == 0,
        unique_by(added, attr_key()),
        unique_by(added, attr_uuid()),
        forall|k: int| 0 <= k < added.len() ==> has_key(app.characteristics@, char_key(), #[trigger] added[k].uuid),
        forall|k: int| 0 <= k < added.len() ==> app.characteristic_added_post(
            #[trigger] states[k],
            states[k + 1],
            acts[k],
            acts[k + 1],
            rs[k],
            STATUS_OK,
            added[k].handle,
            added[k].service_handle,
            added[k].uuid,
        ),
    ensures
        states.last().handles.attributes@ == added,
        unique_by(states.last().handles.attributes@, attr_key()),
        unique_by(states.last().handles.attributes@, attr_uuid()),
    decreases added.len(),
{
    let n = added.len();
    if n > 0 {
        let p = added.drop_last();
        assert(unique_by(p, attr_key())) by {
            assert forall|i: int, j: int| 0 <= i < p.len() && 0 <= j < p.len() && i != j
                implies attr_key()(p[i]) != attr_key()(p[j]) by {
                assert(p[i] == added[i] && p[j] == added[j]);
            }
        }
        assert(unique_by(p, attr_uuid())) by {
            assert forall|i: int, j: int| 0 <= i < p.len() && 0 <= j < p.len() && i != j
                implies attr_uuid()(p[i]) != attr_uuid()(p[j]) by {
                assert(p[i] == added[i] && p[j] == added[j]);
            }
        }
        assert forall|k: int| 0 <= k < p.len() implies has_key(app.characteristics@, char_key(), #[trigger] p[k].uuid) by {
            assert(p[k] == added[k]);
            assert(has_key(app.characteristics@, char_key(), added[k].uuid));
        }
        let sp = states.drop_last();
        assert forall|k: int| 0 <= k < p.len() implies app.characteristic_added_post(
            #[trigger] sp[k],
            sp[k + 1],
            acts.drop_last()[k],
            acts.drop_last()[k + 1],
            rs.drop_last()[k],
            STATUS_OK,
            p[k].handle,
            p[k].service_handle,
            p[k].uuid,
        ) by {
            assert(p[k] == added[k]);
            assert(sp[k] == states[k] && sp[k + 1] == states[k + 1]);
            assert(has_key(app.characteristics@, char_key(), added[k].uuid));
            assert(app.characteristic_added_post(states[k], states[k + 1], acts[k], acts[k + 1], rs[k], STATUS_OK,
                added[k].handle, added[k].service_handle, added[k].uuid));
        }
        lemma_one_handle_per_characteristic(app, sp, acts.drop_last(), rs.drop_last(), p);
        let e = added.last();
        let before = states[n - 1].handles.attributes@;
        assert(before == p);
        assert(has_key(app.characteristics@, char_key(), added[n - 1].uuid));
        assert(app.characteristic_added_post(states[n - 1], states[n as int], acts[n - 1], acts[n as int], rs[n - 1],
            STATUS_OK, added[n - 1].handle, added[n - 1].service_handle, added[n - 1].uuid));
        assert(!has_key(p, attr_key(), e.handle)) by {
            if has_key(p, attr_key(), e.handle) {
                let i = choose|i: int| 0 <= i < p.len() && attr_key()(p[i]) == e.handle;
                assert(added[i] == p[i]);
                assert(attr_key()(added[i]) == attr_key()(added[n - 1]));
            }
        }
        assert(AttrHandle { handle: e.handle, service_handle: e.service_handle, uuid: e.uuid } == e);
        assert(p.push(e) =~= added);
    }
}

/// Writing the subscribe value to a characteristic's configuration
/// descriptor subscribes a tracked connection once and reports it; writing
/// it again reports nothing; writing any other 2-byte value then
/// unsubscribes the connection once and reports that.
pub proof fn lemma_subscription_changes_once(
    app: BLEApp,
    s0: ConnectedState,
    s1: ConnectedState,
    s2: ConnectedState,
    s3: ConnectedState,
    a1: Seq<Action>,
    a2: Seq<Action>,
    a3: Seq<Action>,
    r1: Result<(), AppError>,
    r2: Result<(), AppError>,
    r3: Result<(), AppError>,
    conn_id: u16,
    addr: BdAddr,
    handle: u16,
    subscribe: Vec<u8>,
    other: Vec<u8>,
)
    requires
        s0.wf(),
        lookup(s0.handles.cccds@, attr_key(), handle) is Some,
        exists|k: int| 0 <= k < s0.connections.conns().len() && s0.connections.conns()[k].conn_id == conn_id,
        !s0.connections.spec_is_subscribed(conn_id, lookup(s0.handles.cccds@, attr_key(), handle)->Some_0.uuid),
        subscribe@ == seq![0x02u8, 0x00u8],
        other@.len() == 2,
        le_u16(other@) != SUBSCRIBE_VALUE,
        app.write_dispatch(s0, s1, a1, r1, conn_id, addr, handle, 0, subscribe),
        app.write_dispatch(s1, s2, a2, r2, conn_id, addr, handle, 0, subscribe),
        app.write_dispatch(s2, s3, a3, r3, conn_id, addr, handle, 0, other),
    ensures
        ({
            let uuid = lookup(s0.handles.cccds@, attr_key(), handle)->Some_0.uuid;
            &&& a1 == seq![Action::Subscribed { uuid, peer: addr }]
            &&& s1.connections.spec_is_subscribed(conn_id, uuid)
            &&& a2.len() == 0
            &&& s2.connections.spec_is_subscribed(conn_id, uuid)
            &&& a3 == seq![Action::Unsubscribed { uuid, peer: addr }]
            &&& !s3.connections.spec_is_subscribed(conn_id, uuid)
            &&& r1 is Ok && r2 is Ok && r3 is Ok
        }),
{
    let uuid = lookup(s0.handles.cccds@, attr_key(), handle)->Some_0.uuid;
    let sub = Subscription { conn_id, uuid };
    assert(le_u16(subscribe@) == SUBSCRIBE_VALUE);
    assert(s1.connections.subscriptions@ == s0.connections.subscriptions@.push(sub));
    assert(s1.connections.subscriptions@[s0.connections.subscriptions@.len() as int] == sub);
    assert(s1.connections.spec_is_subscribed(conn_id, uuid));
    let f = s2.connections.subscriptions@.filter(other_than(sub));
    assert(s3.connections.subscriptions@ == f);
    if f.contains(sub) {
        let i = choose|i: int| 0 <= i < f.len() && f[i] == sub;
        s2.connections.subscriptions@.lemma_filter_pred(other_than(sub), i);
    }
}

/// A connection attempt while the table holds its full capacity of peers
/// is not admitted and issues nothing.
pub proof fn lemma_full_table_admits_nobody(
    app: BLEApp,
    old: ConnectedState,
    new: ConnectedState,
    acts0: Seq<Action>,
    acts: Seq<Action>,
    r: Result<(), AppError>,
    gatt_if: u8,
    conn_id: u16,
    addr: BdAddr,
)
    requires
        old.wf(),
        old.connections.conns().len() == MAX_CONNECTIONS,
        app.event_post(old, new, acts0, acts, r, gatt_if, GattsEvent::PeerConnected { conn_id, addr }),
    ensures
        new.connections.conns() == old.connections.conns(),
        acts == acts0,
{
}

} // verus!
