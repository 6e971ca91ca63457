use vstd::prelude::*;
use crate::app::{char_key, BLEApp};
use crate::connections::Connection;
use crate::events::{Action, AppError};
use crate::session::ConnectedState;
use crate::slot::spec_try_acquire;
use crate::table::lookup;
use crate::uuid::BtUuid;

verus! {

/// Where pushes of one characteristic go: the application's GATT
/// interface, the characteristic's attribute handle, and whether pushes
/// are indications, which wait for the peer's confirmation, or
/// notifications, which do not.
#[derive(Clone, Copy, Debug, PartialEq, Eq, Structural)]
pub struct NotifyTarget {
    pub gatt_if: u8,
    pub attr_handle: u16,
    pub confirm: bool,
}

/// One planned push: the connection and the payload.
pub struct Send {
    pub conn: Connection,
    pub payload: Vec<u8>,
}

/// Pushes of one characteristic to a list of connections, made in the
/// order given; `next` is the first push not yet made.
pub struct NotifyPlan {
    pub target: NotifyTarget,
    pub sends: Vec<Send>,
    pub next: usize,
}

/// The outcome of one step of a plan.
pub enum Step {
    /// The push to make now.
    Sent(Action),
    /// An indication is outstanding: wait for its confirmation (or its
    /// peer's disconnection), then step again.
    Blocked,
    /// Every push was made.
    Done,
}

/// Whether pushes of characteristic `uuid` are indications.
pub open spec fn indicates(app: BLEApp, uuid: BtUuid) -> bool {
    match lookup(app.characteristics@, char_key(), uuid) {
        Some(c) => c.characteristic.properties.indicate,
        None => false,
    }
}

/// One step from `plan` and `state` to `stepped_plan` and
/// `stepped_state`, with outcome `r`.
pub open spec fn stepped(plan: NotifyPlan, stepped_plan: NotifyPlan, state: ConnectedState, stepped_state: ConnectedState, r: Step) -> bool {
    &&& stepped_plan.next <= stepped_plan.sends@.len()
    &&& stepped_plan.target == plan.target
    &&& stepped_plan.sends@ == plan.sends@
    &&& stepped_state.connections == state.connections
    &&& stepped_state.handles == state.handles
    &&& stepped_state.gatt_if == state.gatt_if
    &&& if plan.next >= plan.sends@.len() {
        &&& r is Done
        &&& stepped_plan.next == plan.next
        &&& stepped_state == state
    } else {
        let s = plan.sends@[plan.next as int];
        let t = plan.target;
        let (taken, owner) = spec_try_acquire(state.notify_confirmed.owner, s.conn.peer);
        if !t.confirm {
            &&& r matches Step::Sent(Action::Notify { gatt_if, conn_id, attr_handle, payload })
            &&& gatt_if == t.gatt_if && conn_id == s.conn.conn_id && attr_handle == t.attr_handle
            &&& payload@ == s.payload@
            &&& stepped_plan.next == plan.next + 1
            &&& stepped_state == state
        } else if taken {
            &&& r matches Step::Sent(Action::Indicate { gatt_if, conn_id, attr_handle, payload })
            &&& gatt_if == t.gatt_if && conn_id == s.conn.conn_id && attr_handle == t.attr_handle
            &&& payload@ == s.payload@
            &&& stepped_plan.next == plan.next + 1
            &&& stepped_state.notify_confirmed.owner == owner
        } else {
            &&& r is Blocked
            &&& stepped_plan.next == plan.next
            &&& stepped_state == state
        }
    }
}

impl BLEApp {
    /// Where pushes of characteristic `char_uuid` go. This fails when the
    /// application is not registered yet, or the characteristic has no
    /// handle.
    pub fn notify_target(&self, state: &ConnectedState, char_uuid: BtUuid) -> (r: Result<NotifyTarget, AppError>)
        requires
            self.wf(),
        ensures
            state.gatt_if is None ==> r == Err::<NotifyTarget, AppError>(AppError::GattIfMissing),
            state.gatt_if is Some && (forall|i: int|
                0 <= i < state.handles.attributes@.len() ==> state.handles.attributes@[i].uuid != char_uuid)
                ==> r == Err::<NotifyTarget, AppError>(AppError::AttrHandleNotFound),
            r matches Ok(t) ==> {
                &&& state.gatt_if == Some(t.gatt_if)
                &&& exists|i: int| 0 <= i < state.handles.attributes@.len()
                    && state.handles.attributes@[i].uuid == char_uuid
                    && state.handles.attributes@[i].handle == t.attr_handle
                &&& t.confirm == indicates(*self, char_uuid)
            },
            r is Err ==> {
                ||| state.gatt_if is None
                ||| forall|i: int| 0 <= i < state.handles.attributes@.len()
                    ==> state.handles.attributes@[i].uuid != char_uuid
            },
    {
        let gatt_if = match state.gatt_if {
            Some(g) => g,
            None => {
                return Err(AppError::GattIfMissing);
            },
        };
        let attr_handle = match state.handles.handle_of(char_uuid) {
            Some(h) => h,
            None => {
                return Err(AppError::AttrHandleNotFound);
            },
        };
        let confirm = match self.find_characteristic(char_uuid) {
            Some(c) => c.characteristic.properties.indicate,
            None => false,
        };
        Ok(NotifyTarget { gatt_if, attr_handle, confirm })
    }
}

impl NotifyPlan {
    pub fn new(target: NotifyTarget, sends: Vec<Send>) -> (r: NotifyPlan)
        ensures
            r.target == target,
            r.sends@ == sends@,
            r.next == 0,
    {
        NotifyPlan { target, sends, next: 0 }
    }

    /// Makes the next push if it can go now. A notification always can; an
    /// indication only when no other indication awaits its confirmation,
    /// and it then takes the pending-indication slot for its peer. Pushes
    /// are made strictly in the order of the plan.
    pub fn step(&mut self, state: &mut ConnectedState) -> (r: Step)
        requires
            old(self).next <= old(self).sends@.len(),
        ensures
            stepped(*old(self), *final(self), *old(state), *final(state), r),
    {
        if self.next >= self.sends.len() {
            return Step::Done;
        }
        let t = self.target;
        let s = &self.sends[self.next];
        let conn = s.conn;
        if !t.confirm {
            let payload = s.payload.clone();
            assert(payload@ =~= s.payload@);
            self.next = self.next + 1;
            return Step::Sent(Action::Notify {
                gatt_if: t.gatt_if,
                conn_id: conn.conn_id,
                attr_handle: t.attr_handle,
                payload,
            });
        }
        if state.notify_confirmed.try_acquire(conn.peer) {
            let payload = s.payload.clone();
            assert(payload@ =~= s.payload@);
            self.next = self.next + 1;
            Step::Sent(Action::Indicate { gatt_if: t.gatt_if, conn_id: conn.conn_id, attr_handle: t.attr_handle, payload })
        } else {
            Step::Blocked
        }
    }
}

/// The number of steps in `steps` that made a push.
pub open spec fn pushes(steps: Seq<Step>) -> nat
    decreases steps.len(),
{
    if steps.len() == 0 {
        0
    } else {
        pushes(steps.drop_last()) + if steps.last() is Sent {
            1nat
        } else {
            0nat
        }
    }
}

/// Over any run of steps of a plan, whatever other events change the
/// session between them, the pushes go out in the order of the plan: the
/// push made at a step is the planned one whose position is the number of
/// pushes made before it.
pub proof fn lemma_pushes_follow_plan(
    plans: Seq<NotifyPlan>,
    before: Seq<ConnectedState>,
    after: Seq<ConnectedState>,
    steps: Seq<Step>,
)
    requires
        plans.len() == steps.len() + 1,
        before.len() == steps.len(),
        after.len() == steps.len(),
        plans[0].next == 0,
        forall|k: int| 0 <= k < steps.len() ==> stepped(#[trigger] plans[k], plans[k + 1], before[k], after[k], steps[k]),
    ensures
        forall|k: int| 0 <= k <= steps.len() ==> #[trigger] plans[k].next == pushes(steps.take(k)),
        forall|k: int| 0 <= k <= steps.len() ==> #[trigger] plans[k].sends@ == plans[0].sends@,
        forall|k: int| 0 <= k < steps.len() && #[trigger] steps[k] is Sent ==> {
            let s = plans[0].sends@[pushes(steps.take(k)) as int];
            match steps[k] {
                Step::Sent(Action::Notify { conn_id, payload, .. }) => conn_id == s.conn.conn_id && payload@ == s.payload@,
                Step::Sent(Action::Indicate { conn_id, payload, .. }) => conn_id == s.conn.conn_id && payload@ == s.payload@,
                _ => false,
            }
        },
    decreases steps.len(),
{
    if steps.len() > 0 {
        let n = steps.len() - 1;
        lemma_pushes_follow_plan(plans.drop_last(), before.drop_last(), after.drop_last(), steps.drop_last());
        assert forall|k: int| 0 <= k <= n implies steps.take(k) == #[trigger] steps.drop_last().take(k) by {
            assert(steps.take(k) =~= steps.drop_last().take(k));
        }
        assert(plans.drop_last()[n] == plans[n]);
        assert(steps.take(n + 1).drop_last() =~= steps.take(n));
        assert(steps.take(n + 1).last() == steps[n]);
        assert(steps.take(n + 1) =~= steps);
        assert forall|k: int| 0 <= k <= steps.len() implies #[trigger] plans[k].next == pushes(steps.take(k)) by {
            if k <= n {
                assert(plans.drop_last()[k] == plans[k]);
            }
        }
        assert forall|k: int| 0 <= k <= steps.len() implies #[trigger] plans[k].sends@ == plans[0].sends@ by {
            if k <= n {
                assert(plans.drop_last()[k] == plans[k]);
            }
        }
        assert forall|k: int| 0 <= k < steps.len() && #[trigger] steps[k] is Sent implies ({
            let s = plans[0].sends@[pushes(steps.take(k)) as int];
            match steps[k] {
                Step::Sent(Action::Notify { conn_id, payload, .. }) => conn_id == s.conn.conn_id && payload@ == s.payload@,
                Step::Sent(Action::Indicate { conn_id, payload, .. }) => conn_id == s.conn.conn_id && payload@ == s.payload@,
                _ => false,
            }
        }) by {
            if k < n {
                assert(steps.drop_last()[k] == steps[k]);
                assert(plans.drop_last()[k] == plans[k]);
            } else {
                assert(stepped(plans[k], plans[k + 1], before[k], after[k], steps[k]));
            }
        }
    }
}

} // verus!
