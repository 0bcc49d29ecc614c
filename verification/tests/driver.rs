use hibouair::driver::{
    screen_scan_data, BleuIOCommand, BootstrapState, Driver, DriverAction, DriverInput,
    ScanRejection,
};
use hibouair::codec::DecodeError;
use hibouair::registry::SensorRegistry;
use hibouair::response::{ParseError, ProtocolResponse};

const FULL: &str = "0201061BFF5B07050422005A0000BA27C60017013E0000000000000001C002";

fn end(now: i64) -> DriverInput {
    DriverInput::Response { response: Ok(ProtocolResponse::EndOfResponse), now }
}

fn ack(code: i64) -> DriverInput {
    DriverInput::Response {
        response: Ok(ProtocolResponse::Acknowledgement { error_code: code }),
        now: 0,
    }
}

fn plain(text: &str) -> DriverInput {
    DriverInput::Response {
        response: Err(ParseError { raw_line: text.to_string() }),
        now: 0,
    }
}

#[test]
fn bootstrap_sends_three_commands_in_order() {
    let mut driver = Driver::new();
    let mut registry = SensorRegistry::new();
    assert_eq!(driver.state, BootstrapState::Opening);
    assert_eq!(
        driver.handle(&mut registry, DriverInput::PortOpened),
        DriverAction::Send("ATE0\r\n")
    );
    assert_eq!(driver.state, BootstrapState::EchoOff);
    assert_eq!(driver.handle(&mut registry, ack(0)), DriverAction::Wait);
    assert_eq!(driver.handle(&mut registry, end(1)), DriverAction::Send("ATV1\r\n"));
    assert_eq!(driver.state, BootstrapState::VerboseOn);
    assert_eq!(driver.handle(&mut registry, ack(0)), DriverAction::Wait);
    assert_eq!(
        driver.handle(&mut registry, end(2)),
        DriverAction::Send("AT+FINDSCANDATA=FF5B07\r\n")
    );
    assert_eq!(driver.state, BootstrapState::Scanning);
    assert_eq!(driver.handle(&mut registry, ack(0)), DriverAction::Wait);
    assert_eq!(driver.handle(&mut registry, end(3)), DriverAction::Wait);
    assert_eq!(driver.state, BootstrapState::Scanning);
}

#[test]
fn bootstrap_accepts_plain_text_confirmations() {
    let mut driver = Driver::new();
    let mut registry = SensorRegistry::new();
    driver.handle(&mut registry, DriverInput::PortOpened);
    assert_eq!(driver.handle(&mut registry, plain("VERBOSE ON")), DriverAction::Wait);
    assert_eq!(driver.handle(&mut registry, plain("OK")), DriverAction::Wait);
    assert_eq!(driver.state, BootstrapState::EchoOff);
    assert_eq!(
        driver.handle(&mut registry, plain("ECHO OFF")),
        DriverAction::Send("ATV1\r\n")
    );
    assert_eq!(driver.handle(&mut registry, plain("ECHO OFF")), DriverAction::Wait);
    assert_eq!(
        driver.handle(&mut registry, plain("VERBOSE ON")),
        DriverAction::Send("AT+FINDSCANDATA=FF5B07\r\n")
    );
    assert_eq!(driver.state, BootstrapState::Scanning);
    assert_eq!(driver.handle(&mut registry, plain("VERBOSE ON")), DriverAction::Wait);
}

#[test]
fn bootstrap_from_lines() {
    let mut driver = Driver::new();
    let mut registry = SensorRegistry::new();
    driver.handle(&mut registry, DriverInput::PortOpened);
    assert_eq!(
        driver.on_line(&mut registry, "{\"C\":0,\"cmd\":\"ATE0\"}\r\n", 1),
        DriverAction::Wait
    );
    assert_eq!(
        driver.on_line(&mut registry, "{\"A\":0,\"err\":0,\"errMsg\":\"ok\"}\r\n", 1),
        DriverAction::Wait
    );
    assert_eq!(
        driver.on_line(&mut registry, "{\"E\":0,\"nol\":3}\r\n", 1),
        DriverAction::Send("ATV1\r\n")
    );
    assert_eq!(
        driver.on_line(&mut registry, "VERBOSE ON\r\n", 1),
        DriverAction::Send("AT+FINDSCANDATA=FF5B07\r\n")
    );
    assert_eq!(driver.state, BootstrapState::Scanning);
    let line = format!("{{\"SF\":2,\"addr\":\"[1]AA\",\"type\":3,\"data\":\"{}\"}}\r\n", FULL);
    assert_eq!(driver.on_line(&mut registry, &line, 77), DriverAction::Wait);
    assert_eq!(registry.len(), 1);
    assert_eq!(registry.last_update(), Some(77));
    assert_eq!(registry.get(0x22005A).unwrap().get_co2(), 448);
}

#[test]
fn failed_acknowledgement_blocks_the_step() {
    let mut driver = Driver::new();
    let mut registry = SensorRegistry::new();
    driver.handle(&mut registry, DriverInput::PortOpened);
    assert_eq!(driver.handle(&mut registry, ack(5)), DriverAction::Wait);
    assert_eq!(driver.last_error_code, 5);
    assert_eq!(driver.handle(&mut registry, end(0)), DriverAction::Wait);
    assert_eq!(driver.state, BootstrapState::EchoOff);
    assert_eq!(driver.handle(&mut registry, ack(0)), DriverAction::Wait);
    assert_eq!(driver.handle(&mut registry, end(0)), DriverAction::Send("ATV1\r\n"));
}

#[test]
fn open_failure_is_fatal() {
    let mut driver = Driver::new();
    let mut registry = SensorRegistry::new();
    assert_eq!(driver.handle(&mut registry, DriverInput::OpenFailed), DriverAction::Stop);
    assert_eq!(driver.state, BootstrapState::Failed);
    assert_eq!(driver.handle(&mut registry, DriverInput::PortOpened), DriverAction::Stop);
    assert_eq!(driver.state, BootstrapState::Failed);
}

#[test]
fn closing_and_failing_from_a_live_state() {
    let mut registry = SensorRegistry::new();
    let mut a = Driver::new();
    a.handle(&mut registry, DriverInput::PortOpened);
    assert_eq!(a.handle(&mut registry, DriverInput::ReadTimeout), DriverAction::Wait);
    assert_eq!(a.state, BootstrapState::EchoOff);
    assert_eq!(a.handle(&mut registry, DriverInput::EndOfStream), DriverAction::Stop);
    assert_eq!(a.state, BootstrapState::Closed);
    let mut b = Driver::new();
    b.handle(&mut registry, DriverInput::PortOpened);
    assert_eq!(b.handle(&mut registry, DriverInput::ReadFailed), DriverAction::Stop);
    assert_eq!(b.state, BootstrapState::Failed);
    let mut c = Driver::new();
    c.handle(&mut registry, DriverInput::PortOpened);
    assert_eq!(c.handle(&mut registry, DriverInput::CommandsClosed), DriverAction::Stop);
    assert_eq!(c.state, BootstrapState::Closed);
    assert_eq!(
        c.handle(&mut registry, DriverInput::Command(BleuIOCommand::At)),
        DriverAction::Stop
    );
    let mut d = Driver::new();
    assert_eq!(d.handle(&mut registry, DriverInput::CommandsClosed), DriverAction::Stop);
    assert_eq!(d.state, BootstrapState::Closed);
}

#[test]
fn commands_are_sent_as_they_arrive() {
    let mut driver = Driver::new();
    let mut registry = SensorRegistry::new();
    assert_eq!(
        driver.handle(&mut registry, DriverInput::Command(BleuIOCommand::At)),
        DriverAction::Wait
    );
    driver.handle(&mut registry, DriverInput::PortOpened);
    assert_eq!(
        driver.handle(&mut registry, DriverInput::Command(BleuIOCommand::At)),
        DriverAction::Send("AT\r\n")
    );
    assert_eq!(
        driver.handle(&mut registry, DriverInput::Command(BleuIOCommand::AtI)),
        DriverAction::Send("ATI\r\n")
    );
    assert_eq!(
        driver.handle(&mut registry, DriverInput::Command(BleuIOCommand::AtCentral)),
        DriverAction::Send("AT+CENTRAL\r\n")
    );
    assert_eq!(
        driver.handle(&mut registry, DriverInput::Command(BleuIOCommand::AtFindscandata)),
        DriverAction::Send("AT+FINDSCANDATA=FF5B07\r\n")
    );
    assert_eq!(driver.state, BootstrapState::EchoOff);
    assert_eq!(BleuIOCommand::AtI.wire_text(), "ATI\r\n");
}

#[test]
fn scan_results_update_the_registry() {
    let mut driver = Driver::new();
    let mut registry = SensorRegistry::new();
    driver.handle(&mut registry, DriverInput::PortOpened);
    let scan = |data: &str, now: i64| DriverInput::Response {
        response: Ok(ProtocolResponse::ScanResult {
            address: "[1]AA".to_string(),
            data: data.to_string(),
        }),
        now,
    };
    assert_eq!(driver.handle(&mut registry, scan(FULL, 10)), DriverAction::Wait);
    assert_eq!(registry.len(), 1);
    assert_eq!(registry.accepted(), 1);
    assert_eq!(registry.last_update(), Some(10));
    // not the full beacon kind
    let other = "0201061BFF5B07030422005A0000BA27C60017013E0000000000000001C002";
    driver.handle(&mut registry, scan(other, 11));
    // too short to be looked at
    driver.handle(&mut registry, scan("0201061BFF5B0705", 12));
    // not hexadecimal
    let bad = "0201061BFF5B07050422005A0000BA27C60017013E0000000000000001C0ZZ";
    driver.handle(&mut registry, scan(bad, 13));
    assert_eq!(registry.len(), 1);
    assert_eq!(registry.accepted(), 1);
    assert_eq!(registry.last_update(), Some(10));
    assert_eq!(driver.state, BootstrapState::EchoOff);
}

#[test]
fn scan_results_are_ignored_unless_live() {
    let mut driver = Driver::new();
    let mut registry = SensorRegistry::new();
    let scan = DriverInput::Response {
        response: Ok(ProtocolResponse::ScanResult {
            address: "a".to_string(),
            data: FULL.to_string(),
        }),
        now: 1,
    };
    assert_eq!(driver.handle(&mut registry, scan), DriverAction::Wait);
    assert_eq!(registry.len(), 0);
    assert_eq!(registry.last_update(), None);
}

#[test]
fn screening_names_the_reason() {
    assert_eq!(screen_scan_data(FULL).unwrap().get_id(), 0x22005A);
    assert_eq!(
        screen_scan_data("0201061BFF5B0705"),
        Err(ScanRejection::BelowMinimumLength)
    );
    assert_eq!(
        screen_scan_data(&FULL[..60]),
        Err(ScanRejection::BelowMinimumLength)
    );
    assert_eq!(
        screen_scan_data("0201061BFF5B07030422005A0000BA27C60017013E0000000000000001C002"),
        Err(ScanRejection::UnknownBeaconKind)
    );
    assert_eq!(
        screen_scan_data("0201061BFF5B07050422005A0000BA27C60017013E0000000000000001C0ZZ"),
        Err(ScanRejection::Undecodable(DecodeError::InvalidEncoding))
    );
    assert_eq!(
        screen_scan_data("0201061BFF5B07050422005A0000BA27C60017013E0000000000000001C0022"),
        Err(ScanRejection::Undecodable(DecodeError::InvalidEncoding))
    );
    assert_eq!(
        screen_scan_data("0201061AFF5B07050422005A0000BA27C60017013E0000000000000001C00000"),
        Err(ScanRejection::Undecodable(DecodeError::TooShort))
    );
    assert_eq!(
        screen_scan_data("0201061BFE5B07050422005A0000BA27C60017013E0000000000000001C002"),
        Err(ScanRejection::Undecodable(DecodeError::NotFound))
    );
}
