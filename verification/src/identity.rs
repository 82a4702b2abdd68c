//! How the bridge and its accessories present themselves to HomeKit: names,
//! setup codes, device ids and categories of the default configurations.

use vstd::prelude::*;

use crate::pdu::PDU_ID;

verus! {

/// Name of the power distribution unit accessory.
pub const PDU_NAME: &'static str = "Pdu";

/// Name of the waker switch accessory.
pub const WAKER_NAME: &'static str = "Waker";

/// The HomeKit category an accessory server announces.
#[derive(Debug, Clone, Copy, PartialEq, Eq)]
pub enum AccessoryKind {
    Bridge,
    Sensor,
}

/// The identity of a HomeKit accessory server: what a fresh configuration
/// is made of, and the address it listens on.
#[derive(Debug)]
pub struct ServerIdentity {
    pub name: String,
    pub pin: [u8; 8],
    pub device_id: [u8; 6],
    pub kind: AccessoryKind,
    pub host: [u8; 4],
}

/// The address every server listens on, also forced onto a stored
/// configuration when it is loaded: all interfaces.
pub open spec fn listen_host() -> [u8; 4] {
    [0, 0, 0, 0]
}

/// The default configuration of the bridge: name `x-majordomo`, setup code
/// 000-00-001, device id 00:00:00:00:00:01, category bridge.
pub fn bridge_identity() -> (id: ServerIdentity)
    ensures
        id.name@ == "x-majordomo"@,
        id.pin@ == seq![0u8, 0, 0, 0, 0, 0, 0, 1],
        id.device_id@ == seq![0u8, 0, 0, 0, 0, 1],
        id.kind == AccessoryKind::Bridge,
        id.host == listen_host(),
{
    let id = ServerIdentity {
        name: String::from_str("x-majordomo"),
        pin: [0, 0, 0, 0, 0, 0, 0, 1],
        device_id: [0, 0, 0, 0, 0, 1],
        kind: AccessoryKind::Bridge,
        host: [0, 0, 0, 0],
    };
    assert(id.pin@ =~= seq![0u8, 0, 0, 0, 0, 0, 0, 1]);
    assert(id.device_id@ =~= seq![0u8, 0, 0, 0, 0, 1]);
    id
}

/// The default configuration of the power distribution unit when it runs
/// as a server of its own: named after the unit, with the unit's accessory
/// id in the setup code and the device id, category sensor.
pub fn standalone_pdu_identity() -> (id: ServerIdentity)
    ensures
        id.name@ == PDU_NAME@,
        id.pin@ == seq![0u8, 0, 0, 0, 0, 0, PDU_ID as u8, 0],
        id.device_id@ == seq![0u8, 0, 0, 0, PDU_ID as u8, 0],
        id.kind == AccessoryKind::Sensor,
        id.host == listen_host(),
{
    let unit: u8 = PDU_ID as u8;
    let id = ServerIdentity {
        name: String::from_str(PDU_NAME),
        pin: [0, 0, 0, 0, 0, 0, unit, 0],
        device_id: [0, 0, 0, 0, unit, 0],
        kind: AccessoryKind::Sensor,
        host: [0, 0, 0, 0],
    };
    assert(id.pin@ =~= seq![0u8, 0, 0, 0, 0, 0, PDU_ID as u8, 0]);
    assert(id.device_id@ =~= seq![0u8, 0, 0, 0, PDU_ID as u8, 0]);
    id
}

} // verus!
