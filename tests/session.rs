use ble_session::app::BLEApp;
use ble_session::builder::BuildError;
use ble_session::connections::MAX_CONNECTIONS;
use ble_session::events::{Action, AppError, GapEvent, GattsEvent};
use ble_session::gatt::{AdvConfig, AutoResponse, Characteristic, Descriptor, GattStatus, Permissions, Properties, ServiceId};
use ble_session::handlers::HandlerError;
use ble_session::pipeline::{NotifyPlan, Send, Step};
use ble_session::service::{CharacteristicDef, Service};
use ble_session::session::ConnectedState;
use ble_session::uuid::{BdAddr, BtUuid};

const GATT_IF: u8 = 3;
const SERVICE: u16 = 0xff32;
const C1: u16 = 0x1a19;
const C2: u16 = 0xa223;
const C3: u16 = 0xa224;
const IND: u16 = 0xaa23;

fn adv() -> AdvConfig {
    AdvConfig { include_name: true, include_txpower: true, flag: 2, service_uuid: None }
}

fn chr(uuid: u16, read: bool, write: bool, indicate: bool) -> Characteristic {
    Characteristic::new(
        BtUuid::uuid16(uuid),
        Permissions { read, write },
        Properties { read, write, notify: false, indicate },
        200,
        AutoResponse::ByApp,
    )
}

fn def(c: Characteristic, descriptors: Vec<Descriptor>) -> CharacteristicDef {
    CharacteristicDef::new(c, descriptors)
}

fn addr(last: u8) -> BdAddr {
    BdAddr::from_bytes([0x10, 0x20, 0x30, 0x40, 0x50, last])
}

fn service_id() -> ServiceId {
    ServiceId { uuid: BtUuid::uuid16(SERVICE), inst_id: 0, is_primary: true }
}

/// C1 read-only, C2 write-only, C3 read and write, IND indicate-capable
/// with a configuration descriptor.
fn sample_app() -> BLEApp {
    let mut app = BLEApp::builder().app_id(0).device_name("esp32c3".to_string()).adv_configuration(adv()).build().unwrap();
    let mut service = Service::new(service_id(), 12);
    service.add_read_characteristic(def(chr(C1, true, false, false), vec![]));
    service.add_write_characteristic(def(chr(C2, false, true, false), vec![]));
    service.add_read_characteristic(def(chr(C3, true, true, false), vec![]));
    service.add_write_characteristic(def(chr(C3, true, true, false), vec![]));
    service.add_read_characteristic(def(chr(IND, true, false, true), vec![Descriptor::cccd()]));
    app.add_service(service);
    app
}

fn event(app: &BLEApp, state: &mut ConnectedState, e: GattsEvent) -> (Result<(), AppError>, Vec<Action>) {
    let mut actions = Vec::new();
    let r = app.on_gatts_event(state, GATT_IF, e, &mut actions);
    (r, actions)
}

fn added_uuids(actions: &[Action]) -> Vec<BtUuid> {
    actions
        .iter()
        .filter_map(|a| match a {
            Action::AddCharacteristic { characteristic, .. } => Some(characteristic.uuid),
            _ => None,
        })
        .collect()
}

/// Registers the app, creates the service under handle 40 and adds C1, C2,
/// C3 and IND under handles 41 to 44, and IND's descriptor under 45.
fn registered_state(app: &BLEApp) -> ConnectedState {
    let mut st = ConnectedState::new();
    event(app, &mut st, GattsEvent::ServiceRegistered { status: 0, app_id: 0 }).0.unwrap();
    event(app, &mut st, GattsEvent::ServiceCreated { status: 0, service_handle: 40, service_id: service_id() }).0.unwrap();
    for (h, u) in [(41, C1), (42, C2), (43, C3), (44, IND)] {
        event(app, &mut st, GattsEvent::CharacteristicAdded {
            status: 0,
            attr_handle: h,
            service_handle: 40,
            char_uuid: BtUuid::uuid16(u),
        })
        .0
        .unwrap();
    }
    event(app, &mut st, GattsEvent::DescriptorAdded {
        status: 0,
        attr_handle: 45,
        service_handle: 40,
        descr_uuid: BtUuid::uuid16(0x2902),
    })
    .0
    .unwrap();
    st
}

fn write(conn_id: u16, peer: BdAddr, handle: u16, value: Vec<u8>) -> GattsEvent {
    GattsEvent::Write { conn_id, trans_id: 7, addr: peer, handle, offset: 0, need_rsp: false, is_prep: false, value }
}

#[test]
fn registration_issues_name_advertising_and_services() {
    let app = sample_app();
    let mut st = ConnectedState::new();
    let (r, acts) = event(&app, &mut st, GattsEvent::ServiceRegistered { status: 0, app_id: 0 });
    assert!(r.is_ok());
    assert_eq!(acts.len(), 3);
    assert!(matches!(&acts[0], Action::SetDeviceName { name } if name == "esp32c3"));
    assert!(matches!(&acts[1], Action::SetAdvConf { config } if *config == adv()));
    assert!(matches!(&acts[2], Action::CreateService { gatt_if: GATT_IF, service_id: sid, num_handles: 12 } if *sid == service_id()));
    assert_eq!(st.gatt_if, Some(GATT_IF));
}

#[test]
fn registration_of_another_app_is_ignored() {
    let app = sample_app();
    let mut st = ConnectedState::new();
    let (r, acts) = event(&app, &mut st, GattsEvent::ServiceRegistered { status: 0, app_id: 9 });
    assert!(r.is_ok());
    assert!(acts.is_empty());
    assert_eq!(st.gatt_if, None);
}

#[test]
fn default_device_name() {
    let app = BLEApp::builder().app_id(1).adv_configuration(adv()).build().unwrap();
    assert_eq!(app.device_name, "ESP32");
}

#[test]
fn round_trip_registration_and_dispatch() {
    let mut app = BLEApp::builder().app_id(0).adv_configuration(adv()).build().unwrap();
    let mut service = Service::new(service_id(), 8);
    service.add_read_characteristic(def(chr(C1, true, false, false), vec![]));
    service.add_write_characteristic(def(chr(C2, false, true, false), vec![]));
    service.add_read_characteristic(def(chr(C3, true, true, false), vec![]));
    service.add_write_characteristic(def(chr(C3, true, true, false), vec![]));
    app.add_service(service);
    let mut st = ConnectedState::new();
    event(&app, &mut st, GattsEvent::ServiceRegistered { status: 0, app_id: 0 }).0.unwrap();
    let (r, acts) = event(&app, &mut st, GattsEvent::ServiceCreated { status: 0, service_handle: 40, service_id: service_id() });
    assert!(r.is_ok());
    assert!(matches!(acts[0], Action::StartService { service_handle: 40 }));
    assert_eq!(added_uuids(&acts), vec![BtUuid::uuid16(C2), BtUuid::uuid16(C3), BtUuid::uuid16(C1)]);
    for (h, u) in [(41, C2), (42, C3), (43, C1)] {
        let (r, _) = event(&app, &mut st, GattsEvent::CharacteristicAdded {
            status: 0,
            attr_handle: h,
            service_handle: 40,
            char_uuid: BtUuid::uuid16(u),
        });
        assert!(r.is_ok());
    }
    let (r, acts) = event(&app, &mut st, GattsEvent::Read {
        conn_id: 1,
        trans_id: 5,
        addr: addr(1),
        handle: 43,
        offset: 0,
        need_rsp: true,
    });
    assert!(r.is_ok());
    assert_eq!(acts.len(), 1);
    assert!(matches!(acts[0], Action::ReadValue { uuid, trans_id: 5, handle: 43, offset: 0, .. } if uuid == BtUuid::uuid16(C1)));
    let (r, acts) = event(&app, &mut st, write(1, addr(1), 41, vec![9]));
    assert!(r.is_ok());
    assert_eq!(acts.len(), 1);
    assert!(matches!(&acts[0], Action::Write { uuid, value, .. } if *uuid == BtUuid::uuid16(C2) && value == &vec![9u8]));
}

#[test]
fn handle_map_has_one_entry_per_characteristic() {
    let app = sample_app();
    let st = registered_state(&app);
    let attrs = &st.handles.attributes;
    assert_eq!(attrs.len(), 4);
    for (i, a) in attrs.iter().enumerate() {
        for b in attrs.iter().skip(i + 1) {
            assert_ne!(a.handle, b.handle);
            assert_ne!(a.uuid, b.uuid);
        }
    }
    assert_eq!(st.handles.cccds.len(), 1);
    assert_eq!(st.handles.cccds[0].handle, 45);
    assert_eq!(st.handles.cccds[0].uuid, BtUuid::uuid16(IND));
}

#[test]
fn characteristic_added_issues_its_descriptors() {
    let app = sample_app();
    let mut st = ConnectedState::new();
    let (r, acts) = event(&app, &mut st, GattsEvent::CharacteristicAdded {
        status: 0,
        attr_handle: 44,
        service_handle: 40,
        char_uuid: BtUuid::uuid16(IND),
    });
    assert!(r.is_ok());
    assert_eq!(acts.len(), 1);
    assert!(matches!(acts[0], Action::AddDescriptor { service_handle: 40, descriptor } if descriptor == Descriptor::cccd()));
}

#[test]
fn unknown_service_is_an_error_after_start() {
    let app = sample_app();
    let mut st = ConnectedState::new();
    let other = ServiceId { uuid: BtUuid::uuid16(0x1234), inst_id: 0, is_primary: true };
    let (r, acts) = event(&app, &mut st, GattsEvent::ServiceCreated { status: 0, service_handle: 50, service_id: other });
    assert_eq!(r, Err(AppError::ServiceNotFound));
    assert_eq!(acts.len(), 1);
    assert!(matches!(acts[0], Action::StartService { service_handle: 50 }));
    assert!(st.handles.services.is_empty());
}

#[test]
fn unknown_characteristic_is_an_error() {
    let app = sample_app();
    let mut st = ConnectedState::new();
    let (r, acts) = event(&app, &mut st, GattsEvent::CharacteristicAdded {
        status: 0,
        attr_handle: 60,
        service_handle: 40,
        char_uuid: BtUuid::uuid128(0x503de214868246c4828fd59144da41be),
    });
    assert_eq!(r, Err(AppError::CharacteristicNotFound));
    assert!(acts.is_empty());
    assert!(st.handles.attributes.is_empty());
}

#[test]
fn failed_status_stops_the_event() {
    let app = sample_app();
    let mut st = ConnectedState::new();
    let (r, acts) = event(&app, &mut st, GattsEvent::ServiceRegistered { status: 133, app_id: 0 });
    assert_eq!(r, Err(AppError::GattStatus(133)));
    assert!(acts.is_empty());
    assert_eq!(st.gatt_if, None);
}

#[test]
fn advertising_starts_after_configuration() {
    let app = sample_app();
    let mut acts = Vec::new();
    assert!(app.on_gap_event(GapEvent::AdvertisingConfigured { status: 0 }, &mut acts).is_ok());
    assert_eq!(acts.len(), 1);
    assert!(matches!(acts[0], Action::StartAdvertising));
    let mut acts = Vec::new();
    assert_eq!(app.on_gap_event(GapEvent::AdvertisingConfigured { status: 1 }, &mut acts), Err(AppError::BtStatus(1)));
    assert!(acts.is_empty());
}

#[test]
fn subscription_changes_once_per_transition() {
    let app = sample_app();
    let mut st = registered_state(&app);
    event(&app, &mut st, GattsEvent::PeerConnected { conn_id: 1, addr: addr(1) }).0.unwrap();
    let (r, acts) = event(&app, &mut st, write(1, addr(1), 45, vec![0x02, 0x00]));
    assert!(r.is_ok());
    assert_eq!(acts.len(), 1);
    assert!(matches!(acts[0], Action::Subscribed { uuid, peer } if uuid == BtUuid::uuid16(IND) && peer == addr(1)));
    let (_, acts) = event(&app, &mut st, write(1, addr(1), 45, vec![0x02, 0x00]));
    assert!(acts.is_empty());
    assert_eq!(st.connections.subscriptions.len(), 1);
    let (_, acts) = event(&app, &mut st, write(1, addr(1), 45, vec![0x00, 0x00]));
    assert_eq!(acts.len(), 1);
    assert!(matches!(acts[0], Action::Unsubscribed { uuid, .. } if uuid == BtUuid::uuid16(IND)));
    let (_, acts) = event(&app, &mut st, write(1, addr(1), 45, vec![0x00, 0x00]));
    assert!(acts.is_empty());
    assert!(st.connections.subscriptions.is_empty());
}

#[test]
fn subscription_needs_two_bytes_at_offset_zero() {
    let app = sample_app();
    let mut st = registered_state(&app);
    event(&app, &mut st, GattsEvent::PeerConnected { conn_id: 1, addr: addr(1) }).0.unwrap();
    let (_, acts) = event(&app, &mut st, write(1, addr(1), 45, vec![0x02]));
    assert!(acts.is_empty());
    let (_, acts) = event(&app, &mut st, write(2, addr(2), 45, vec![0x02, 0x00]));
    assert!(acts.is_empty());
    assert!(st.connections.subscriptions.is_empty());
}

#[test]
fn connection_table_refuses_beyond_capacity() {
    let app = sample_app();
    let mut st = ConnectedState::new();
    for i in 0..MAX_CONNECTIONS {
        let (r, acts) = event(&app, &mut st, GattsEvent::PeerConnected { conn_id: i as u16, addr: addr(i as u8) });
        assert!(r.is_ok());
        assert!(matches!(acts[0], Action::SetConnParams { min_interval: 10, max_interval: 20, latency: 0, timeout: 400, .. }));
    }
    let (r, acts) = event(&app, &mut st, GattsEvent::PeerConnected { conn_id: 99, addr: addr(99) });
    assert!(r.is_ok());
    assert!(acts.is_empty());
    assert_eq!(st.connections.len(), MAX_CONNECTIONS);
    assert!(st.connections.as_slice().iter().all(|c| c.conn_id != 99));
}

#[test]
fn disconnect_moves_last_connection_into_the_gap() {
    let app = sample_app();
    let mut st = ConnectedState::new();
    for i in 1..4u8 {
        event(&app, &mut st, GattsEvent::PeerConnected { conn_id: i as u16, addr: addr(i) }).0.unwrap();
    }
    event(&app, &mut st, GattsEvent::PeerDisconnected { addr: addr(1) }).0.unwrap();
    let ids: Vec<u16> = st.connections.as_slice().iter().map(|c| c.conn_id).collect();
    assert_eq!(ids, vec![3, 2]);
    let (r, _) = event(&app, &mut st, GattsEvent::PeerDisconnected { addr: addr(7) });
    assert!(r.is_ok());
    assert_eq!(st.connections.len(), 2);
}

#[test]
fn mtu_is_recorded_by_connection_id() {
    let app = sample_app();
    let mut st = ConnectedState::new();
    event(&app, &mut st, GattsEvent::PeerConnected { conn_id: 4, addr: addr(4) }).0.unwrap();
    event(&app, &mut st, GattsEvent::Mtu { conn_id: 4, mtu: 247 }).0.unwrap();
    event(&app, &mut st, GattsEvent::Mtu { conn_id: 5, mtu: 100 }).0.unwrap();
    assert_eq!(st.connections.as_slice()[0].mtu, Some(247));
    assert_eq!(st.connections.len(), 1);
}

#[test]
fn write_acknowledgments() {
    let app = sample_app();
    let mut st = registered_state(&app);
    let e = GattsEvent::Write {
        conn_id: 1,
        trans_id: 8,
        addr: addr(1),
        handle: 42,
        offset: 3,
        need_rsp: true,
        is_prep: true,
        value: vec![1, 2],
    };
    let (r, acts) = event(&app, &mut st, e);
    assert!(r.is_ok());
    assert_eq!(acts.len(), 2);
    match &acts[0] {
        Action::SendResponse { status: GattStatus::Success, response: Some(v), trans_id: 8, .. } => {
            assert_eq!(v.handle, 42);
            assert_eq!(v.offset, 3);
            assert_eq!(v.value, vec![1, 2]);
        },
        other => panic!("unexpected {:?}", other),
    }
    let e = GattsEvent::Write {
        conn_id: 1,
        trans_id: 9,
        addr: addr(1),
        handle: 42,
        offset: 0,
        need_rsp: true,
        is_prep: false,
        value: vec![1],
    };
    let (_, acts) = event(&app, &mut st, e);
    assert!(matches!(acts[0], Action::SendResponse { status: GattStatus::Success, response: None, trans_id: 9, .. }));
    let e = GattsEvent::Write {
        conn_id: 1,
        trans_id: 10,
        addr: addr(1),
        handle: 42,
        offset: 0,
        need_rsp: true,
        is_prep: true,
        value: vec![0; 601],
    };
    let (_, acts) = event(&app, &mut st, e);
    assert!(matches!(acts[0], Action::SendResponse { status: GattStatus::InvalidAttrLen, response: None, .. }));
}

#[test]
fn write_to_read_only_characteristic_is_acknowledged_then_refused() {
    let app = sample_app();
    let mut st = registered_state(&app);
    let e = GattsEvent::Write {
        conn_id: 1,
        trans_id: 8,
        addr: addr(1),
        handle: 41,
        offset: 0,
        need_rsp: true,
        is_prep: false,
        value: vec![1],
    };
    let (r, acts) = event(&app, &mut st, e);
    assert_eq!(r, Err(AppError::CharacteristicNotFound));
    assert_eq!(acts.len(), 1);
    assert!(matches!(acts[0], Action::SendResponse { status: GattStatus::Success, .. }));
    let (r, acts) = event(&app, &mut st, write(1, addr(1), 300, vec![1]));
    assert!(r.is_ok());
    assert!(acts.is_empty());
}

#[test]
fn read_errors_and_responses() {
    let app = sample_app();
    let mut st = registered_state(&app);
    let read = |handle: u16| GattsEvent::Read { conn_id: 1, trans_id: 2, addr: addr(1), handle, offset: 0, need_rsp: true };
    let (_, acts) = event(&app, &mut st, read(300));
    assert!(matches!(acts[0], Action::SendResponse { status: GattStatus::InvalidHandle, response: None, .. }));
    let (_, acts) = event(&app, &mut st, read(42));
    assert!(matches!(acts[0], Action::SendResponse { status: GattStatus::ReadNotPermitted, response: None, .. }));
    let (_, acts) = event(&app, &mut st, GattsEvent::Read { conn_id: 1, trans_id: 2, addr: addr(1), handle: 41, offset: 0, need_rsp: false });
    assert!(acts.is_empty());
    let ok = BLEApp::read_response(GATT_IF, 1, 2, 41, 0, Ok(vec![2]));
    match ok {
        Action::SendResponse { status: GattStatus::Success, response: Some(v), .. } => assert_eq!(v.value, vec![2]),
        other => panic!("unexpected {:?}", other),
    }
    let long = BLEApp::read_response(GATT_IF, 1, 2, 41, 0, Ok(vec![0; 601]));
    assert!(matches!(long, Action::SendResponse { status: GattStatus::InvalidAttrLen, .. }));
    let failed = BLEApp::read_response(GATT_IF, 1, 2, 41, 0, Err(HandlerError));
    assert!(matches!(failed, Action::SendResponse { status: GattStatus::Error, .. }));
}

#[test]
fn teardown_clears_handles() {
    let app = sample_app();
    let mut st = registered_state(&app);
    event(&app, &mut st, GattsEvent::ServiceDeleted { status: 0, service_handle: 40 }).0.unwrap();
    assert!(st.handles.attributes.is_empty());
    assert!(st.handles.cccds.is_empty());
    assert_eq!(st.handles.services.len(), 1);
    event(&app, &mut st, GattsEvent::ServiceUnregistered { status: 0, service_handle: 40 }).0.unwrap();
    assert!(st.handles.services.is_empty());
}

#[test]
fn confirmation_without_indication_is_a_protocol_violation() {
    let app = sample_app();
    let mut st = ConnectedState::new();
    let (r, _) = event(&app, &mut st, GattsEvent::Confirm { status: 0 });
    assert_eq!(r, Err(AppError::UnexpectedConfirmation));
}

#[test]
fn notify_target_errors() {
    let app = sample_app();
    let st = ConnectedState::new();
    assert_eq!(app.notify_target(&st, BtUuid::uuid16(IND)), Err(AppError::GattIfMissing));
    let st = registered_state(&app);
    assert_eq!(app.notify_target(&st, BtUuid::uuid16(0x7777)), Err(AppError::AttrHandleNotFound));
    let t = app.notify_target(&st, BtUuid::uuid16(C1)).unwrap();
    assert!(!t.confirm);
    assert_eq!(t.attr_handle, 41);
}

#[test]
fn indications_wait_for_confirmation_in_order() {
    let app = sample_app();
    let mut st = registered_state(&app);
    for i in 1..3u8 {
        event(&app, &mut st, GattsEvent::PeerConnected { conn_id: i as u16, addr: addr(i) }).0.unwrap();
    }
    let target = app.notify_target(&st, BtUuid::uuid16(IND)).unwrap();
    assert!(target.confirm);
    let conns = st.connections.as_slice().to_vec();
    let sends = conns.iter().map(|c| Send { conn: *c, payload: vec![c.conn_id as u8] }).collect();
    let mut plan = NotifyPlan::new(target, sends);
    assert!(matches!(plan.step(&mut st), Step::Sent(Action::Indicate { conn_id: 1, attr_handle: 44, .. })));
    assert_eq!(st.notify_confirmed.owner, Some(addr(1)));
    assert!(matches!(plan.step(&mut st), Step::Blocked));
    assert!(matches!(plan.step(&mut st), Step::Blocked));
    event(&app, &mut st, GattsEvent::Confirm { status: 0 }).0.unwrap();
    assert_eq!(st.notify_confirmed.owner, None);
    match plan.step(&mut st) {
        Step::Sent(Action::Indicate { conn_id: 2, payload, .. }) => assert_eq!(payload, vec![2]),
        _ => panic!("expected the second indication"),
    }
    assert_eq!(st.notify_confirmed.owner, Some(addr(2)));
    event(&app, &mut st, GattsEvent::Confirm { status: 0 }).0.unwrap();
    assert!(matches!(plan.step(&mut st), Step::Done));
}

#[test]
fn disconnect_releases_pending_indication() {
    let app = sample_app();
    let mut st = registered_state(&app);
    event(&app, &mut st, GattsEvent::PeerConnected { conn_id: 1, addr: addr(1) }).0.unwrap();
    let target = app.notify_target(&st, BtUuid::uuid16(IND)).unwrap();
    let c = st.connections.as_slice()[0];
    let mut plan = NotifyPlan::new(target, vec![Send { conn: c, payload: vec![5] }]);
    assert!(matches!(plan.step(&mut st), Step::Sent(_)));
    event(&app, &mut st, GattsEvent::PeerDisconnected { addr: addr(1) }).0.unwrap();
    assert_eq!(st.notify_confirmed.owner, None);
}

#[test]
fn notifications_bypass_the_slot() {
    let app = sample_app();
    let mut st = registered_state(&app);
    event(&app, &mut st, GattsEvent::PeerConnected { conn_id: 1, addr: addr(1) }).0.unwrap();
    let target = app.notify_target(&st, BtUuid::uuid16(C1)).unwrap();
    let c = st.connections.as_slice()[0];
    let mut plan = NotifyPlan::new(target, vec![Send { conn: c, payload: vec![1] }, Send { conn: c, payload: vec![2] }]);
    assert!(matches!(plan.step(&mut st), Step::Sent(Action::Notify { .. })));
    assert!(matches!(plan.step(&mut st), Step::Sent(Action::Notify { .. })));
    assert!(matches!(plan.step(&mut st), Step::Done));
    assert_eq!(st.notify_confirmed.owner, None);
}

#[test]
fn scenario_write_subscribe_indicate_confirm() {
    let app = sample_app();
    let mut st = registered_state(&app);
    event(&app, &mut st, GattsEvent::PeerConnected { conn_id: 1, addr: addr(1) }).0.unwrap();
    let (r, acts) = event(&app, &mut st, write(1, addr(1), 42, vec![1]));
    assert!(r.is_ok());
    match &acts[0] {
        Action::Write { value, .. } => assert_eq!(format!("write: {:?}", value), "write: [1]"),
        other => panic!("unexpected {:?}", other),
    }
    let (_, acts) = event(&app, &mut st, write(1, addr(1), 45, vec![0x02, 0x00]));
    assert!(matches!(acts[0], Action::Subscribed { .. }));
    let target = app.notify_target(&st, BtUuid::uuid16(IND)).unwrap();
    let c = st.connections.as_slice()[0];
    let mut plan = NotifyPlan::new(target, vec![Send { conn: c, payload: vec![0x05] }]);
    match plan.step(&mut st) {
        Step::Sent(Action::Indicate { payload, conn_id: 1, .. }) => assert_eq!(payload, vec![0x05]),
        _ => panic!("expected an indication"),
    }
    assert_eq!(st.notify_confirmed.owner, Some(addr(1)));
    event(&app, &mut st, GattsEvent::Confirm { status: 0 }).0.unwrap();
    assert_eq!(st.notify_confirmed.owner, None);
    assert!(matches!(plan.step(&mut st), Step::Done));
}

#[test]
fn add_service_replaces_same_uuid() {
    let mut app = sample_app();
    let mut service = Service::new(ServiceId { uuid: BtUuid::uuid16(SERVICE), inst_id: 1, is_primary: false }, 4);
    service.add_write_characteristic(def(chr(C1, true, true, false), vec![]));
    app.add_service(service);
    assert_eq!(app.services.len(), 1);
    assert_eq!(app.services[0].service_id.inst_id, 1);
    let c1 = app.find_characteristic(BtUuid::uuid16(C1)).unwrap();
    assert!(c1.readable && c1.writable);
    assert_eq!(app.characteristics.len(), 4);
}

#[test]
fn build_reports_missing_parts() {
    assert_eq!(BLEApp::builder().adv_configuration(adv()).build().err(), Some(BuildError::MissingAppId));
    assert_eq!(BLEApp::builder().app_id(1).build().err(), Some(BuildError::MissingAdvConfiguration));
}
