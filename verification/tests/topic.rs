use biometric_gateway::topic::{command_from, parse_topic, split_topic, Command};

fn strings(v: &[&str]) -> Vec<String> {
    v.iter().map(|s| s.to_string()).collect()
}

#[test]
fn split_two_segments() {
    assert_eq!(split_topic("A1/attendence"), strings(&["A1", "attendence"]));
}

#[test]
fn split_keeps_empty_segments() {
    assert_eq!(split_topic("a//b/"), strings(&["a", "", "b", ""]));
}

#[test]
fn split_empty_topic_is_one_empty_segment() {
    assert_eq!(split_topic(""), strings(&[""]));
}

#[test]
fn split_without_separator() {
    assert_eq!(split_topic("no-slash"), strings(&["no-slash"]));
}

#[test]
fn split_non_ascii_segments() {
    assert_eq!(split_topic("é€/ü/𝄞"), strings(&["é€", "ü", "𝄞"]));
}

#[test]
fn split_then_join_gives_topic_back() {
    for topic in ["x/y/z", "/", "", "a//", "unit-3/deletesyncack"] {
        assert_eq!(split_topic(topic).join("/"), topic);
    }
}

#[test]
fn parse_topic_without_command_segment() {
    assert!(parse_topic("unit").is_none());
    assert!(parse_topic("").is_none());
}

#[test]
fn parse_topic_reads_unit_and_command() {
    let t = parse_topic("U1/deletesync/extra").unwrap();
    assert_eq!(t.unit, "U1");
    assert_eq!(t.command, Command::DeleteSync);
}

#[test]
fn parse_topic_unknown_command() {
    let t = parse_topic("U1/reboot").unwrap();
    assert_eq!(t.unit, "U1");
    assert_eq!(t.command, Command::Other);
}

#[test]
fn every_command_name_is_read() {
    let cases = [
        ("attendence", Command::Attendence),
        ("connected", Command::Connected),
        ("disconnected", Command::Disconnected),
        ("deletesync", Command::DeleteSync),
        ("insertsync", Command::InsertSync),
        ("deletesyncack", Command::DeleteSyncAck),
        ("insertsyncack", Command::InsertSyncAck),
        ("Connected", Command::Other),
        ("", Command::Other),
    ];
    for (name, command) in cases {
        assert_eq!(command_from(&name.to_string()), command);
    }
}
