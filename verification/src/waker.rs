//! Wake-on-LAN for the PC behind the "Waker" switch: the magic packet and
//! where it is sent when the switch is turned on.

use vstd::prelude::*;

verus! {

/// Accessory id of the waker switch on the bridge.
pub const WAKER_ID: u64 = 2;

/// Length of a MAC address in bytes.
pub const MAC_LEN: usize = 6;

/// Number of times the MAC address is repeated in a magic packet.
pub const MAC_REPEATS: usize = 16;

/// Length of a magic packet: a header of six `0xFF` bytes, then the MAC
/// address sixteen times.
pub const MAGIC_PACKET_LEN: usize = 102;

/// Why a magic packet could not be built.
#[derive(Debug, PartialEq, Eq)]
pub enum WakeError {
    /// The MAC address is not six bytes long.
    InvalidMacLength,
}

/// An IPv4 socket address as plain values.
#[derive(Debug, Clone, Copy, PartialEq, Eq)]
pub struct Endpoint {
    pub ip: [u8; 4],
    pub port: u16,
}

/// A magic packet together with the addresses it is sent from and to.
#[derive(Debug)]
pub struct WakeRequest {
    pub source: Endpoint,
    pub destination: Endpoint,
    pub packet: Vec<u8>,
}

#[verifier::external_type_specification]
#[verifier::external_body]
pub struct ExWakeyError(wakey::WakeyError);

/// The magic packet that wakes the machine with MAC address `mac`.
pub open spec fn magic_packet(mac: Seq<u8>) -> Seq<u8> {
    Seq::new(
        MAGIC_PACKET_LEN as nat,
        |i: int|
            if i < MAC_LEN {
                0xFFu8
            } else {
                mac[(i - MAC_LEN) % (MAC_LEN as int)]
            },
    )
}

/// `wakey::WolPacket::from_bytes` followed by `WolPacket::into_inner`: per
/// wakey's source, it succeeds exactly when `mac` is six bytes long and the
/// packet is six `0xFF` bytes followed by sixteen copies of `mac`.
#[verifier::external_body]
fn wol_packet_bytes(mac: &[u8]) -> (res: Result<Vec<u8>, wakey::WakeyError>)
    ensures
        res is Ok <==> mac@.len() == MAC_LEN,
        res matches Ok(bytes) ==> bytes@ == magic_packet(mac@),
{
    match wakey::WolPacket::from_bytes(mac) {
        Ok(packet) => Ok(packet.into_inner().to_vec()),
        Err(e) => Err(e),
    }
}

/// Builds the magic packet for `mac`.
pub fn build_magic_packet(mac: &[u8]) -> (res: Result<Vec<u8>, WakeError>)
    ensures
        res is Ok <==> mac@.len() == MAC_LEN,
        res matches Ok(bytes) ==> bytes@ == magic_packet(mac@),
        res matches Err(e) ==> e == WakeError::InvalidMacLength,
{
    match wol_packet_bytes(mac) {
        Ok(bytes) => Ok(bytes),
        Err(_) => Err(WakeError::InvalidMacLength),
    }
}

/// A magic packet for a six-byte MAC address is 102 bytes long, starts with
/// six `0xFF` bytes, and its `k`-th block of six bytes after them is the MAC
/// address, for each of the sixteen blocks.
pub proof fn lemma_magic_packet_layout(mac: Seq<u8>, k: int)
    requires
        mac.len() == MAC_LEN,
        0 <= k < MAC_REPEATS,
    ensures
        magic_packet(mac).len() == MAGIC_PACKET_LEN,
        magic_packet(mac).take(MAC_LEN as int) == Seq::new(MAC_LEN as nat, |i: int| 0xFFu8),
        magic_packet(mac).subrange(MAC_LEN + MAC_LEN * k, 2 * MAC_LEN + MAC_LEN * k) == mac,
{
    let p = magic_packet(mac);
    assert(p.take(MAC_LEN as int) =~= Seq::new(MAC_LEN as nat, |i: int| 0xFFu8));
    assert forall|i: int| 0 <= i < MAC_LEN implies #[trigger] p.subrange(
        MAC_LEN + MAC_LEN * k,
        2 * MAC_LEN + MAC_LEN * k,
    )[i] == mac[i] by {
        assert((MAC_LEN * k + i) % (MAC_LEN as int) == i) by (nonlinear_arith)
            requires
                0 <= i < 6,
                0 <= k,
        ;
        assert(6 + 6 * k + i < 102) by (nonlinear_arith)
            requires
                0 <= i < 6,
                0 <= k < 16,
        ;
    }
    assert(p.subrange(MAC_LEN + MAC_LEN * k, 2 * MAC_LEN + MAC_LEN * k) =~= mac);
}

/// The MAC address of the PC that the waker switch wakes.
pub open spec fn pc_mac() -> Seq<u8> {
    seq![0x58u8, 0x11u8, 0x22u8, 0xC0u8, 0xDEu8, 0x35u8]
}

/// The address the magic packet is sent from: any interface, any port.
pub open spec fn wake_source() -> Endpoint {
    Endpoint { ip: [0, 0, 0, 0], port: 0 }
}

/// The address the magic packet is sent to: the broadcast address, port 9.
pub open spec fn wake_destination() -> Endpoint {
    Endpoint { ip: [255, 255, 255, 255], port: 9 }
}

/// What turning the waker switch to `power_on` asks for: a magic packet for
/// the PC, broadcast on port 9, when the switch is turned on, and nothing
/// when it is turned off.
pub fn wake_request(power_on: bool) -> (req: Option<WakeRequest>)
    ensures
        req is Some <==> power_on,
        req matches Some(r) ==> {
            &&& r.packet@ == magic_packet(pc_mac())
            &&& r.source == wake_source()
            &&& r.destination == wake_destination()
        },
{
    if !power_on {
        return None;
    }
    let mac: [u8; 6] = [0x58, 0x11, 0x22, 0xC0, 0xDE, 0x35];
    assert(mac@ =~= pc_mac());
    match build_magic_packet(mac.as_slice()) {
        Ok(packet) => Some(
            WakeRequest {
                source: Endpoint { ip: [0, 0, 0, 0], port: 0 },
                destination: Endpoint { ip: [255, 255, 255, 255], port: 9 },
                packet,
            },
        ),
        Err(_) => None,
    }
}

} // verus!
