use momentary_switch::channel::LatestValueChannel;
use momentary_switch::device::{Device, Level, RelayActuator, RelayState};
use momentary_switch::report::{
    decode_duration, is_valid_duration, validate_report, OutResponse, MAX_DURATION, REPORT_ID,
};

fn payload(d: u32) -> Vec<u8> {
    d.to_be_bytes().to_vec()
}

#[test]
fn decode_reads_big_endian() {
    assert_eq!(decode_duration(&[0x00, 0x00, 0x00, 0x64]), Some(100));
    assert_eq!(decode_duration(&[0x12, 0x34, 0x56, 0x78]), Some(0x1234_5678));
    assert_eq!(decode_duration(&[0xff, 0xff, 0xff, 0xff]), Some(u32::MAX));
    assert_eq!(decode_duration(&[0x00, 0x09, 0x27, 0xc0]), Some(600_000));
}

#[test]
fn decode_needs_four_bytes() {
    assert_eq!(decode_duration(&[]), None);
    assert_eq!(decode_duration(&[1, 2, 3]), None);
    assert_eq!(decode_duration(&[0, 0, 0, 0, 1]), None);
}

#[test]
fn duration_range_bounds() {
    assert!(!is_valid_duration(0));
    assert!(is_valid_duration(1));
    assert!(is_valid_duration(MAX_DURATION));
    assert!(!is_valid_duration(MAX_DURATION + 1));
    assert!(!is_valid_duration(u32::MAX));
    assert_eq!(MAX_DURATION, 600_000);
}

#[test]
fn validate_report_outcomes() {
    assert_eq!(validate_report(&[0, 0, 0, 100]), (OutResponse::Accepted, Some(100)));
    assert_eq!(validate_report(&[0, 0, 0, 0]), (OutResponse::Accepted, None));
    assert_eq!(validate_report(&payload(600_001)), (OutResponse::Accepted, None));
    assert_eq!(validate_report(&[0, 0, 0, 0, 100]), (OutResponse::Rejected, None));
    assert_eq!(validate_report(&[]), (OutResponse::Rejected, None));
}

#[test]
fn channel_keeps_latest_value_only() {
    let mut c = LatestValueChannel::new();
    assert_eq!(c.try_changed(), None);
    c.send(40);
    c.send(90);
    assert_eq!(c.try_changed(), Some(90));
    assert_eq!(c.try_changed(), None);
    c.send(7);
    c.drain_pending();
    assert_eq!(c.try_changed(), None);
    c.send(7);
    assert_eq!(c.try_changed(), Some(7));
}

#[test]
fn relay_actuator_levels() {
    let mut r = RelayActuator::new();
    assert_eq!(r.state(), RelayState::Idle);
    assert_eq!(r.output(), Level::Low);
    r.activate(250);
    assert_eq!(r.state(), RelayState::Active(250));
    assert_eq!(r.output(), Level::High);
    r.deactivate();
    assert_eq!(r.state(), RelayState::Idle);
    assert_eq!(r.output(), Level::Low);
}

#[test]
fn new_device_rests_low() {
    let mut dev = Device::new();
    assert_eq!(dev.relay_state(), RelayState::Idle);
    assert_eq!(dev.output(), Level::Low);
    assert_eq!(dev.poll(), None);
    assert_eq!(dev.output(), Level::Low);
}

#[test]
fn hundred_ms_command_runs_one_cycle() {
    let mut dev = Device::new();
    assert_eq!(dev.set_report(REPORT_ID, &[0x00, 0x00, 0x00, 0x64]), OutResponse::Accepted);
    assert_eq!(dev.poll(), Some(100));
    assert_eq!(dev.output(), Level::High);
    assert_eq!(dev.relay_state(), RelayState::Active(100));
    dev.timer_expired();
    assert_eq!(dev.output(), Level::Low);
    assert_eq!(dev.relay_state(), RelayState::Idle);
    assert_eq!(dev.poll(), None);
}

#[test]
fn zero_duration_changes_nothing() {
    let mut dev = Device::new();
    assert_eq!(dev.set_report(REPORT_ID, &[0x00, 0x00, 0x00, 0x00]), OutResponse::Accepted);
    assert_eq!(dev.poll(), None);
    assert_eq!(dev.output(), Level::Low);
}

#[test]
fn over_maximum_changes_nothing() {
    let mut dev = Device::new();
    assert_eq!(dev.set_report(REPORT_ID, &payload(600_001)), OutResponse::Accepted);
    assert_eq!(dev.set_report(REPORT_ID, &[0xff, 0xff, 0xff, 0xff]), OutResponse::Accepted);
    assert_eq!(dev.poll(), None);
    assert_eq!(dev.output(), Level::Low);
}

#[test]
fn maximum_duration_activates() {
    let mut dev = Device::new();
    assert_eq!(dev.set_report(REPORT_ID, &payload(600_000)), OutResponse::Accepted);
    assert_eq!(dev.poll(), Some(600_000));
    assert_eq!(dev.output(), Level::High);
}

#[test]
fn five_byte_payload_rejected() {
    let mut dev = Device::new();
    assert_eq!(dev.set_report(REPORT_ID, &[0x00, 0x00, 0x00, 0x64, 0x00]), OutResponse::Rejected);
    assert_eq!(dev.poll(), None);
    assert_eq!(dev.output(), Level::Low);
}

#[test]
fn short_payloads_rejected() {
    let mut dev = Device::new();
    assert_eq!(dev.set_report(REPORT_ID, &[]), OutResponse::Rejected);
    assert_eq!(dev.set_report(REPORT_ID, &[0x64]), OutResponse::Rejected);
    assert_eq!(dev.set_report(REPORT_ID, &[0, 0, 0x64]), OutResponse::Rejected);
    assert_eq!(dev.poll(), None);
}

#[test]
fn rejected_payload_keeps_pending_command() {
    let mut dev = Device::new();
    assert_eq!(dev.set_report(REPORT_ID, &payload(30)), OutResponse::Accepted);
    assert_eq!(dev.set_report(REPORT_ID, &[0, 0, 0, 0, 99]), OutResponse::Rejected);
    assert_eq!(dev.set_report(REPORT_ID, &payload(0)), OutResponse::Accepted);
    assert_eq!(dev.poll(), Some(30));
}

#[test]
fn command_during_activation_is_discarded() {
    let mut dev = Device::new();
    assert_eq!(dev.set_report(REPORT_ID, &[0, 0, 0, 50]), OutResponse::Accepted);
    assert_eq!(dev.poll(), Some(50));
    assert_eq!(dev.output(), Level::High);
    assert_eq!(dev.set_report(REPORT_ID, &[0, 0, 0x01, 0x2c]), OutResponse::Accepted);
    assert_eq!(dev.poll(), None);
    assert_eq!(dev.relay_state(), RelayState::Active(50));
    dev.timer_expired();
    assert_eq!(dev.output(), Level::Low);
    assert_eq!(dev.poll(), None);
    assert_eq!(dev.output(), Level::Low);
    assert_eq!(dev.relay_state(), RelayState::Idle);
}

#[test]
fn command_after_rest_starts_new_cycle() {
    let mut dev = Device::new();
    dev.set_report(REPORT_ID, &payload(50));
    assert_eq!(dev.poll(), Some(50));
    dev.set_report(REPORT_ID, &payload(300));
    dev.timer_expired();
    assert_eq!(dev.poll(), None);
    dev.set_report(REPORT_ID, &payload(70));
    assert_eq!(dev.poll(), Some(70));
    assert_eq!(dev.output(), Level::High);
}

#[test]
fn back_to_back_commands_coalesce() {
    let mut dev = Device::new();
    assert_eq!(dev.set_report(REPORT_ID, &[0, 0, 0, 40]), OutResponse::Accepted);
    assert_eq!(dev.set_report(REPORT_ID, &[0, 0, 0, 90]), OutResponse::Accepted);
    assert_eq!(dev.poll(), Some(90));
    dev.timer_expired();
    assert_eq!(dev.poll(), None);
    assert_eq!(dev.output(), Level::Low);
}

#[test]
fn repeated_command_gives_independent_cycles() {
    let mut dev = Device::new();
    let mut started = Vec::new();
    for _ in 0..5 {
        assert_eq!(dev.set_report(REPORT_ID, &payload(120)), OutResponse::Accepted);
        if let Some(d) = dev.poll() {
            started.push(d);
        }
        assert_eq!(dev.output(), Level::High);
        dev.timer_expired();
        assert_eq!(dev.output(), Level::Low);
    }
    assert_eq!(started, vec![120; 5]);
}

#[test]
fn report_id_does_not_matter() {
    let mut dev = Device::new();
    assert_eq!(dev.set_report(7, &payload(15)), OutResponse::Accepted);
    assert_eq!(dev.poll(), Some(15));
}
