use biometric_gateway::client::{react, subscription_filters, BrokerEvent, ClientAction};

#[test]
fn subscribes_to_every_command() {
    let expected: Vec<String> = [
        "+/attendence",
        "+/connected",
        "+/disconnected",
        "+/deletesync",
        "+/insertsync",
        "+/deletesyncack",
        "+/insertsyncack",
    ]
    .iter()
    .map(|s| s.to_string())
    .collect();
    assert_eq!(subscription_filters(), expected);
}

#[test]
fn text_messages_are_forwarded() {
    let event = BrokerEvent::Message { topic: "u1/attendence".to_string(), payload: "héllo".as_bytes().to_vec() };
    match react(event) {
        ClientAction::Forward { topic, payload } => {
            assert_eq!(topic, "u1/attendence");
            assert_eq!(payload, "héllo");
        },
        _ => panic!("expected forward"),
    }
}

#[test]
fn non_utf8_messages_are_dropped() {
    let event = BrokerEvent::Message { topic: "u1/attendence".to_string(), payload: vec![0x66, 0xff, 0x66] };
    assert!(matches!(react(event), ClientAction::Skip));
}

#[test]
fn connection_events() {
    assert!(matches!(react(BrokerEvent::Connected), ClientAction::Announce));
    assert!(matches!(react(BrokerEvent::Other), ClientAction::Skip));
    assert!(matches!(react(BrokerEvent::Failed), ClientAction::Retry { delay_secs: 2 }));
}

#[test]
fn subscriptions_admit_handled_two_level_topics() {
    let filters = subscription_filters();
    for command in ["attendence", "connected", "deletesyncack"] {
        let wanted = format!("+/{command}");
        assert!(filters.contains(&wanted));
    }
    assert!(!filters.iter().any(|f| f.ends_with("/reboot")));
}
