use x_majordomo::decimal::u64_to_decimal;
use x_majordomo::identity::{
    bridge_identity, standalone_pdu_identity, AccessoryKind, PDU_NAME, WAKER_NAME,
};
use x_majordomo::pdu::{
    refresh_states, switch_command, switch_payload, switch_service_ids, MqttMessage, ACTION_OFF,
    ACTION_ON, INFORMATION_SERVICE_ID, PDU_ID, SERVICE_ID_STRIDE, SWITCH_COUNT,
};
use x_majordomo::waker::{
    build_magic_packet, wake_request, Endpoint, WakeError, MAGIC_PACKET_LEN, WAKER_ID,
};

const TOPIC: &str = "/yespeed/pdu/yespeed/19847786504205500130392/in/1000101";

#[test]
fn decimal_small_numbers() {
    assert_eq!(u64_to_decimal(0), "0");
    assert_eq!(u64_to_decimal(7), "7");
    assert_eq!(u64_to_decimal(10), "10");
    assert_eq!(u64_to_decimal(99), "99");
    assert_eq!(u64_to_decimal(100), "100");
}

#[test]
fn decimal_matches_display() {
    for n in [0u64, 1, 9, 10, 11, 56, 1000101, 1234567890, u64::MAX - 1, u64::MAX] {
        assert_eq!(u64_to_decimal(n), n.to_string());
    }
    assert_eq!(u64_to_decimal(u64::MAX), "18446744073709551615");
}

#[test]
fn service_ids_are_multiples_of_seven() {
    assert_eq!(switch_service_ids(), vec![7, 14, 21, 28, 35, 42, 49, 56]);
    assert_eq!(SWITCH_COUNT, 8);
    assert_eq!(SERVICE_ID_STRIDE, 7);
    assert_eq!(PDU_ID, 1);
    assert_eq!(INFORMATION_SERVICE_ID, 1);
}

#[test]
fn payload_for_first_outlet() {
    assert_eq!(switch_payload(7, true), "{\"devid\":1,\"linid\":1,\"actid\":3}");
    assert_eq!(switch_payload(7, false), "{\"devid\":1,\"linid\":1,\"actid\":2}");
}

#[test]
fn payload_for_last_outlet() {
    assert_eq!(switch_payload(56, true), "{\"devid\":1,\"linid\":8,\"actid\":3}");
    assert_eq!(switch_payload(56, false), "{\"devid\":1,\"linid\":8,\"actid\":2}");
}

#[test]
fn payload_divides_the_service_id() {
    // The line is the service id divided by seven, rounded down.
    assert_eq!(switch_payload(13, true), "{\"devid\":1,\"linid\":1,\"actid\":3}");
    assert_eq!(switch_payload(0, false), "{\"devid\":1,\"linid\":0,\"actid\":2}");
    assert_eq!(switch_payload(700, true), "{\"devid\":1,\"linid\":100,\"actid\":3}");
}

#[test]
fn payload_is_what_the_format_string_gives() {
    for id in switch_service_ids() {
        for on in [true, false] {
            let line = id / 7;
            let action = if on { ACTION_ON } else { ACTION_OFF };
            let expected = format!("{{\"devid\":1,\"linid\":{line},\"actid\":{action}}}");
            assert_eq!(switch_payload(id, on), expected);
        }
    }
}

#[test]
fn command_has_fixed_topic() {
    let MqttMessage { topic, payload } = switch_command(21, true);
    assert_eq!(topic, TOPIC);
    assert_eq!(payload, "{\"devid\":1,\"linid\":3,\"actid\":3}");
}

#[test]
fn commands_of_outlets_are_distinct() {
    let mut seen: Vec<String> = Vec::new();
    for id in switch_service_ids() {
        for on in [true, false] {
            let p = switch_command(id, on).payload;
            assert!(!seen.contains(&p));
            seen.push(p);
        }
    }
    assert_eq!(seen.len(), 16);
}

#[test]
fn refresh_reads_on_numbers() {
    let subdevs = vec![Some(1), Some(0), Some(1), Some(2), Some(0), Some(1), Some(1), Some(0)];
    assert_eq!(
        refresh_states(&subdevs),
        Some(vec![true, false, true, false, false, true, true, false])
    );
}

#[test]
fn refresh_ignores_extra_subdevices() {
    let mut subdevs = vec![Some(0); 8];
    subdevs.push(None);
    subdevs.push(Some(1));
    assert_eq!(refresh_states(&subdevs), Some(vec![false; 8]));
}

#[test]
fn refresh_needs_every_outlet() {
    let mut subdevs = vec![Some(1); 8];
    subdevs[5] = None;
    assert_eq!(refresh_states(&subdevs), None);
    assert_eq!(refresh_states(&vec![Some(1); 7]), None);
    assert_eq!(refresh_states(&Vec::new()), None);
}

#[test]
fn magic_packet_layout() {
    let mac = [0x00, 0x01, 0x02, 0x03, 0x04, 0x05];
    let packet = build_magic_packet(&mac).unwrap();
    assert_eq!(packet.len(), MAGIC_PACKET_LEN);
    assert_eq!(&packet[0..6], &[0xFF; 6]);
    for block in 0..16 {
        assert_eq!(&packet[6 + 6 * block..12 + 6 * block], &mac);
    }
}

#[test]
fn magic_packet_rejects_bad_mac_length() {
    assert_eq!(build_magic_packet(&[1, 2, 3, 4, 5]), Err(WakeError::InvalidMacLength));
    assert_eq!(build_magic_packet(&[1, 2, 3, 4, 5, 6, 7]), Err(WakeError::InvalidMacLength));
    assert_eq!(build_magic_packet(&[]), Err(WakeError::InvalidMacLength));
}

#[test]
fn waking_only_when_turned_on() {
    assert!(wake_request(false).is_none());
    let req = wake_request(true).unwrap();
    assert_eq!(req.source, Endpoint { ip: [0, 0, 0, 0], port: 0 });
    assert_eq!(req.destination, Endpoint { ip: [255, 255, 255, 255], port: 9 });
    let mut expected = vec![0xFF; 6];
    for _ in 0..16 {
        expected.extend_from_slice(&[0x58, 0x11, 0x22, 0xC0, 0xDE, 0x35]);
    }
    assert_eq!(req.packet, expected);
    assert_eq!(WAKER_ID, 2);
}

#[test]
fn bridge_defaults() {
    let id = bridge_identity();
    assert_eq!(id.name, "x-majordomo");
    assert_eq!(id.pin, [0, 0, 0, 0, 0, 0, 0, 1]);
    assert_eq!(id.device_id, [0, 0, 0, 0, 0, 1]);
    assert_eq!(id.kind, AccessoryKind::Bridge);
    assert_eq!(id.host, [0, 0, 0, 0]);
}

#[test]
fn standalone_pdu_defaults() {
    let id = standalone_pdu_identity();
    assert_eq!(id.name, "Pdu");
    assert_eq!(id.pin, [0, 0, 0, 0, 0, 0, 1, 0]);
    assert_eq!(id.device_id, [0, 0, 0, 0, 1, 0]);
    assert_eq!(id.kind, AccessoryKind::Sensor);
    assert_eq!(id.host, [0, 0, 0, 0]);
    assert_eq!(PDU_NAME, "Pdu");
    assert_eq!(WAKER_NAME, "Waker");
}

#[test]
fn outlet_i_commands_line_i_plus_one() {
    for (i, id) in switch_service_ids().into_iter().enumerate() {
        let on = format!("{{\"devid\":1,\"linid\":{},\"actid\":3}}", i + 1);
        let off = format!("{{\"devid\":1,\"linid\":{},\"actid\":2}}", i + 1);
        assert_eq!(switch_command(id, true).payload, on);
        assert_eq!(switch_command(id, false).payload, off);
    }
}
