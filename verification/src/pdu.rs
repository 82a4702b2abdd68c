//! The eight-outlet power distribution unit: HomeKit service ids of its
//! switches, the MQTT commands that switch an outlet, and the power states
//! read back from the unit's reported state.

use vstd::prelude::*;
use vstd::string::StringExecFns;

use crate::decimal::{
    decimal_chars, digit_char, is_digit_char, lemma_decimal_chars_denotes,
    lemma_decimal_chars_injective, u64_to_decimal,
};

verus! {

/// Accessory id of the power distribution unit on the bridge.
pub const PDU_ID: u64 = 1;

/// Instance id of the unit's accessory-information service.
pub const INFORMATION_SERVICE_ID: u64 = 1;

/// Number of switchable outlets.
pub const SWITCH_COUNT: usize = 8;

/// Distance between the instance ids of consecutive switch services; the
/// outlet's line number is its service id divided by this stride.
pub const SERVICE_ID_STRIDE: u64 = 7;

/// Action id that turns an outlet on.
pub const ACTION_ON: u64 = 3;

/// Action id that turns an outlet off.
pub const ACTION_OFF: u64 = 2;

/// A message to publish on the MQTT broker.
#[derive(Debug)]
pub struct MqttMessage {
    pub topic: String,
    pub payload: String,
}

/// The topic on which the unit listens for commands.
pub open spec fn command_topic() -> Seq<char> {
    "/yespeed/pdu/yespeed/19847786504205500130392/in/1000101"@
}

/// Instance id of the switch service of outlet `index` (counted from 0).
pub open spec fn service_id(index: int) -> int {
    SERVICE_ID_STRIDE * (index + 1)
}

/// Line number that a command for the switch service `service_id` addresses.
pub open spec fn line_of(service_id: nat) -> nat {
    service_id / (SERVICE_ID_STRIDE as nat)
}

/// Action id for the requested power state.
pub open spec fn action_of(on: bool) -> nat {
    if on {
        ACTION_ON as nat
    } else {
        ACTION_OFF as nat
    }
}

/// Text of the payload before the line number.
pub open spec fn payload_head() -> Seq<char> {
    "{\"devid\":1,\"linid\":"@
}

/// Text of the payload between the line number and the action id.
pub open spec fn payload_middle() -> Seq<char> {
    ",\"actid\":"@
}

/// Text that closes the payload.
pub open spec fn payload_end() -> Seq<char> {
    "}"@
}

/// The payload after the line number.
pub open spec fn payload_tail(on: bool) -> Seq<char> {
    payload_middle() + decimal_chars(action_of(on)) + payload_end()
}

/// The JSON payload `{"devid":1,"linid":L,"actid":A}` that sets line `line`
/// to the power state `on`.
pub open spec fn payload_chars(line: nat, on: bool) -> Seq<char> {
    payload_head() + (decimal_chars(line) + payload_tail(on))
}

/// Instance ids of the outlet switch services, in outlet order.
pub fn switch_service_ids() -> (ids: Vec<u64>)
    ensures
        ids.len() == SWITCH_COUNT,
        forall|i: int| 0 <= i < SWITCH_COUNT ==> #[trigger] ids[i] == service_id(i),
{
    let mut ids: Vec<u64> = Vec::new();
    let mut i: u64 = 0;
    while i < 8
        invariant
            i <= 8,
            ids.len() == i,
            forall|j: int| 0 <= j < i ==> #[trigger] ids[j] == service_id(j),
        decreases 8 - i,
    {
        ids.push(SERVICE_ID_STRIDE * (i + 1));
        i = i + 1;
    }
    ids
}

/// The payload that sets the outlet of the switch service `service_id` to
/// the power state `on`.
pub fn switch_payload(service_id: u64, on: bool) -> (payload: String)
    ensures
        payload@ == payload_chars(line_of(service_id as nat), on),
{
    let line = service_id / SERVICE_ID_STRIDE;
    let action = if on {
        ACTION_ON
    } else {
        ACTION_OFF
    };
    proof {
        reveal_strlit("{\"devid\":1,\"linid\":");
        reveal_strlit(",\"actid\":");
        reveal_strlit("}");
    }
    let mut payload = String::from_str("{\"devid\":1,\"linid\":");
    let line_text = u64_to_decimal(line);
    payload.append(line_text.as_str());
    payload.append(",\"actid\":");
    let action_text = u64_to_decimal(action);
    payload.append(action_text.as_str());
    payload.append("}");
    assert(payload@ =~= payload_chars(line_of(service_id as nat), on));
    payload
}

/// The MQTT message that sets the outlet of the switch service `service_id`
/// to the power state `on`.
pub fn switch_command(service_id: u64, on: bool) -> (message: MqttMessage)
    ensures
        message.topic@ == command_topic(),
        message.payload@ == payload_chars(line_of(service_id as nat), on),
{
    let topic = String::from_str("/yespeed/pdu/yespeed/19847786504205500130392/in/1000101");
    MqttMessage { topic, payload: switch_payload(service_id, on) }
}

/// Whether `subdevs` reports an `on` number for every outlet.
pub open spec fn reports_all_outlets(subdevs: Seq<Option<u64>>) -> bool {
    &&& subdevs.len() >= SWITCH_COUNT
    &&& forall|i: int| 0 <= i < SWITCH_COUNT ==> (#[trigger] subdevs[i]) is Some
}

/// A report covers every outlet exactly when it has at least eight entries
/// and each of the first eight carries a number.
pub proof fn lemma_reports_all_outlets(subdevs: Seq<Option<u64>>)
    ensures
        reports_all_outlets(subdevs) <==> (subdevs.len() >= 8 && forall|i: int|
            0 <= i < 8 ==> (#[trigger] subdevs[i]) is Some),
{
}

/// The power states of the outlets, given the `on` number that the unit
/// reports for each of its sub-devices (`None` where it reports no
/// unsigned number). An outlet is on exactly when its number is 1. There is
/// no answer (`None`) when some outlet has no number.
pub fn refresh_states(subdevs: &Vec<Option<u64>>) -> (states: Option<Vec<bool>>)
    ensures
        states is Some <==> reports_all_outlets(subdevs@),
        states is Some <==> (subdevs.len() >= 8 && forall|i: int|
            0 <= i < 8 ==> (#[trigger] subdevs[i]) is Some),
        states matches Some(v) ==> {
            &&& v.len() == SWITCH_COUNT
            &&& forall|i: int| 0 <= i < SWITCH_COUNT ==> #[trigger] v[i] == (subdevs[i] == Some(1u64))
        },
{
    if subdevs.len() < SWITCH_COUNT {
        return None;
    }
    let mut states: Vec<bool> = Vec::new();
    let mut i: usize = 0;
    while i < SWITCH_COUNT
        invariant
            i <= SWITCH_COUNT,
            subdevs.len() >= SWITCH_COUNT,
            states.len() == i,
            forall|j: int| 0 <= j < i ==> (#[trigger] subdevs[j]) is Some,
            forall|j: int| 0 <= j < i ==> #[trigger] states[j] == (subdevs[j] == Some(1u64)),
        decreases SWITCH_COUNT - i,
    {
        match subdevs[i] {
            Some(on) => {
                states.push(on == 1);
            },
            None => {
                return None;
            },
        }
        i = i + 1;
    }
    Some(states)
}

/// Outlet `i` (counted from 0) has a switch service whose commands address
/// line `i + 1`; the switch services have distinct, increasing instance ids,
/// all above the id of the accessory-information service.
pub proof fn lemma_outlet_lines(i: int, j: int)
    requires
        0 <= i < SWITCH_COUNT,
        0 <= j < SWITCH_COUNT,
    ensures
        line_of(service_id(i) as nat) == i + 1,
        i < j ==> service_id(i) < service_id(j),
        service_id(i) > INFORMATION_SERVICE_ID,
{
}

/// A string of decimal digits followed by text that starts with a
/// non-digit splits in only one way.
proof fn lemma_split_after_digits(d1: Seq<char>, t1: Seq<char>, d2: Seq<char>, t2: Seq<char>)
    requires
        forall|k: int| 0 <= k < d1.len() ==> is_digit_char(#[trigger] d1[k]),
        forall|k: int| 0 <= k < d2.len() ==> is_digit_char(#[trigger] d2[k]),
        t1.len() > 0,
        t2.len() > 0,
        !is_digit_char(t1[0]),
        !is_digit_char(t2[0]),
        d1 + t1 == d2 + t2,
    ensures
        d1 == d2,
        t1 == t2,
{
    let s = d1 + t1;
    if d1.len() < d2.len() {
        assert(s[d1.len() as int] == t1[0]);
        assert((d2 + t2)[d1.len() as int] == d2[d1.len() as int]);
    } else if d2.len() < d1.len() {
        assert((d2 + t2)[d2.len() as int] == t2[0]);
        assert(s[d2.len() as int] == d1[d2.len() as int]);
    } else {
        assert(d1 =~= s.take(d1.len() as int));
        assert(d2 =~= (d2 + t2).take(d2.len() as int));
        assert(t1 =~= s.skip(d1.len() as int));
        assert(t2 =~= (d2 + t2).skip(d2.len() as int));
    }
}

/// Two payloads are equal only when they address the same line with the
/// same power state.
pub proof fn lemma_payload_determines_command(l1: nat, on1: bool, l2: nat, on2: bool)
    requires
        payload_chars(l1, on1) == payload_chars(l2, on2),
    ensures
        l1 == l2,
        on1 == on2,
{
    reveal_strlit("{\"devid\":1,\"linid\":");
    reveal_strlit(",\"actid\":");
    reveal_strlit("}");
    let h = payload_head();
    let x1 = decimal_chars(l1) + payload_tail(on1);
    let x2 = decimal_chars(l2) + payload_tail(on2);
    assert(x1 =~= payload_chars(l1, on1).skip(h.len() as int));
    assert(x2 =~= payload_chars(l2, on2).skip(h.len() as int));
    lemma_decimal_chars_denotes(l1);
    lemma_decimal_chars_denotes(l2);
    assert(payload_tail(on1)[0] == ',');
    assert(payload_tail(on2)[0] == ',');
    lemma_split_after_digits(decimal_chars(l1), payload_tail(on1), decimal_chars(l2), payload_tail(on2));
    lemma_decimal_chars_injective(l1, l2);
    let m = payload_middle();
    assert(decimal_chars(3) == seq![digit_char(3)]);
    assert(decimal_chars(2) == seq![digit_char(2)]);
    assert(payload_tail(on1)[m.len() as int] == decimal_chars(action_of(on1))[0]);
    assert(payload_tail(on2)[m.len() as int] == decimal_chars(action_of(on2))[0]);
    assert((3int + 48) as char as int == 51);
    assert((2int + 48) as char as int == 50);
}

/// Commands for two different outlets, or for different power states of
/// one outlet, never coincide.
pub proof fn lemma_outlet_commands_distinct(i: int, on1: bool, j: int, on2: bool)
    requires
        0 <= i < SWITCH_COUNT,
        0 <= j < SWITCH_COUNT,
        i != j || on1 != on2,
    ensures
        payload_chars(line_of(service_id(i) as nat), on1)
            != payload_chars(line_of(service_id(j) as nat), on2),
{
    lemma_outlet_lines(i, j);
    lemma_outlet_lines(j, i);
    if payload_chars(line_of(service_id(i) as nat), on1)
        == payload_chars(line_of(service_id(j) as nat), on2) {
        lemma_payload_determines_command(
            line_of(service_id(i) as nat),
            on1,
            line_of(service_id(j) as nat),
            on2,
        );
    }
}

} // verus!
