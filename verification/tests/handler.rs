use biometric_gateway::db::{check_unit_is_valid, update_unit_state};
use biometric_gateway::handler::{Action, Event, MessageHandler, Phase, Report, Stage};
use biometric_gateway::models::{InsertedNewStudent, UnitConnectedRequest, UnitDisconnectedRequest};
use biometric_gateway::reply::{deletes_reply, inserts_reply, Reply};
use biometric_gateway::store::RedisService;

fn handler() -> MessageHandler {
    MessageHandler::new(RedisService::new(
        "attendance".to_string(),
        "inserts".to_string(),
        "deletes".to_string(),
    ))
}

fn reply(message_type: u32) -> Reply {
    Reply {
        message_type,
        error_status: None,
        error_stauts: None,
        error_type: None,
        students_empty: None,
        student_id: None,
        student_unit_id: None,
        fingerprint_data: None,
    }
}

fn status(message_type: u32, s: u32) -> Reply {
    Reply { error_status: Some(s), ..reply(message_type) }
}

fn failure(message_type: u32, error_type: u32) -> Reply {
    Reply { error_type: Some(error_type), ..status(message_type, 1) }
}

fn published(action: &Action) -> (String, Reply, Report) {
    match action {
        Action::Publish { topic, reply, report } => (topic.clone(), reply.clone(), *report),
        _ => panic!("expected a publish action"),
    }
}

fn finished(stage: &Stage) -> bool {
    matches!(stage.phase, Phase::Finished)
}

#[test]
fn malformed_topic_ends_at_once() {
    let (stage, action) = handler().begin("unit-without-command", "x".to_string());
    assert!(finished(&stage));
    assert!(matches!(action, Action::Finish(Report::MalformedTopic)));
}

#[test]
fn unknown_command_is_ignored() {
    let (stage, action) = handler().begin("u1/reboot", "x".to_string());
    assert!(finished(&stage));
    assert_eq!(stage.unit, "u1");
    assert!(matches!(action, Action::Finish(Report::Ignored)));
}

#[test]
fn deletesync_reads_the_deletes_document() {
    let (stage, action) = handler().begin("u1/deletesync", String::new());
    assert!(matches!(stage.phase, Phase::FetchingDeletes));
    match action {
        Action::Fetch(c) => {
            assert_eq!(c.name, "JSON.GET");
            assert_eq!(c.args, vec!["deletes".to_string(), "$.U1[0]".to_string()]);
        },
        _ => panic!("expected a fetch"),
    }
}

#[test]
fn deletesync_with_pending_student() {
    let h = handler();
    let (stage, _) = h.begin("u1/deletesync", String::new());
    let (stage, action) = h.step(stage, Event::Fetched(Some("[5]".to_string())));
    assert!(finished(&stage));
    let (topic, r, report) = published(&action);
    assert_eq!(topic, "u1");
    assert_eq!(r, Reply { students_empty: Some(0), student_id: Some(5), ..status(1, 0) });
    assert_eq!(report, Report::Done);
}

#[test]
fn deletesync_with_nothing_pending() {
    let h = handler();
    let (stage, _) = h.begin("u1/deletesync", String::new());
    let (_, action) = h.step(stage, Event::Fetched(Some("[]".to_string())));
    let (_, r, report) = published(&action);
    assert_eq!(r, Reply { students_empty: Some(1), ..status(1, 0) });
    assert_eq!(report, Report::Done);
}

#[test]
fn deletesync_with_unreadable_store_text() {
    let h = handler();
    let (stage, _) = h.begin("u1/deletesync", String::new());
    let (_, action) = h.step(stage, Event::Fetched(Some("[\"five\"]".to_string())));
    let (_, r, report) = published(&action);
    assert_eq!(r, failure(1, 1));
    assert_eq!(report, Report::StoreTextUnreadable);
}

#[test]
fn deletesync_with_store_failure() {
    let h = handler();
    let (stage, _) = h.begin("u1/deletesync", String::new());
    let (_, action) = h.step(stage, Event::Fetched(None));
    let (topic, r, report) = published(&action);
    assert_eq!(topic, "u1");
    assert_eq!(r, failure(1, 2));
    assert_eq!(report, Report::StoreReadFailed);
}

#[test]
fn insertsync_with_pending_student() {
    let h = handler();
    let (stage, action) = h.begin("u2/insertsync", String::new());
    match action {
        Action::Fetch(c) => assert_eq!(c.args, vec!["inserts".to_string(), "$.U2[0]".to_string()]),
        _ => panic!("expected a fetch"),
    }
    let text = "[{\"student_unit_id\":\"S-1\",\"fingerprint_data\":\"QUJD\"}]".to_string();
    let (stage, action) = h.step(stage, Event::Fetched(Some(text.clone())));
    assert!(matches!(stage.phase, Phase::DecodingInserts));
    match action {
        Action::DecodeStudents(t) => assert_eq!(t, text),
        _ => panic!("expected a decode"),
    }
    let records = vec![InsertedNewStudent {
        student_unit_id: "S-1".to_string(),
        fingerprint_data: "QUJD".to_string(),
    }];
    let (stage, action) = h.step(stage, Event::Students(Some(records)));
    assert!(finished(&stage));
    let (topic, r, report) = published(&action);
    assert_eq!(topic, "u2");
    assert_eq!(
        r,
        Reply {
            students_empty: Some(0),
            student_unit_id: Some("S-1".to_string()),
            fingerprint_data: Some("QUJD".to_string()),
            ..status(2, 0)
        }
    );
    assert_eq!(report, Report::Done);
}

#[test]
fn insertsync_with_nothing_pending_or_unreadable() {
    let h = handler();
    let (stage, _) = h.begin("u2/insertsync", String::new());
    let (stage, _) = h.step(stage, Event::Fetched(Some("[]".to_string())));
    let (_, action) = h.step(stage, Event::Students(Some(vec![])));
    assert_eq!(published(&action).1, Reply { students_empty: Some(1), ..status(2, 0) });

    let (stage, _) = h.begin("u2/insertsync", String::new());
    let (stage, _) = h.step(stage, Event::Fetched(Some("{".to_string())));
    let (_, action) = h.step(stage, Event::Students(None));
    let (_, r, report) = published(&action);
    assert_eq!(r, failure(2, 1));
    assert_eq!(report, Report::StoreTextUnreadable);
}

#[test]
fn insertsync_with_store_failure() {
    let h = handler();
    let (stage, _) = h.begin("u2/insertsync", String::new());
    let (_, action) = h.step(stage, Event::Fetched(None));
    assert_eq!(published(&action).1, failure(2, 2));
}

#[test]
fn acknowledgements_remove_and_never_answer() {
    let h = handler();
    for (topic, doc) in [("u3/deletesyncack", "deletes"), ("u3/insertsyncack", "inserts")] {
        let (stage, action) = h.begin(topic, String::new());
        match action {
            Action::Store(c) => {
                assert_eq!(c.name, "JSON.DEL");
                assert_eq!(c.args, vec![doc.to_string(), "$.U3[0]".to_string()]);
            },
            _ => panic!("expected a store write"),
        }
        let (s2, a2) = h.step(
            Stage { unit: stage.unit.clone(), phase: clone_phase(&stage.phase) },
            Event::Stored(true),
        );
        assert!(finished(&s2));
        assert!(matches!(a2, Action::Finish(Report::Done)));
        let (_, a3) = h.step(stage, Event::Stored(false));
        assert!(matches!(a3, Action::Finish(Report::StoreWriteFailed)));
    }
}

fn clone_phase(p: &Phase) -> Phase {
    match p {
        Phase::ClearingDeletes => Phase::ClearingDeletes,
        Phase::ClearingInserts => Phase::ClearingInserts,
        _ => panic!("unexpected phase"),
    }
}

#[test]
fn attendance_is_recorded_and_answered() {
    let h = handler();
    let (stage, action) = h.begin("u4/attendence", "log line".to_string());
    match action {
        Action::Store(c) => {
            assert_eq!(c.name, "LPUSH");
            assert_eq!(c.args, vec!["attendance".to_string(), "log line".to_string()]);
        },
        _ => panic!("expected a store write"),
    }
    let (_, action) = h.step(stage, Event::Stored(true));
    let (topic, r, report) = published(&action);
    assert_eq!(topic, "u4");
    assert_eq!(r, status(3, 0));
    assert_eq!(report, Report::Done);

    let (stage, _) = h.begin("u4/attendence", "log line".to_string());
    let (_, action) = h.step(stage, Event::Stored(false));
    assert_eq!(published(&action).1, status(3, 1));
}

#[test]
fn connection_of_a_registered_unit() {
    let h = handler();
    let (stage, action) = h.begin("u5/connected", "{\"uid\":\"bio-5\"}".to_string());
    match action {
        Action::DecodeConnect(p) => assert_eq!(p, "{\"uid\":\"bio-5\"}"),
        _ => panic!("expected a decode"),
    }
    let (stage, action) = h.step(stage, Event::ConnectRequest(Some(UnitConnectedRequest { uid: "bio-5".to_string() })));
    match action {
        Action::Query(q) => assert_eq!(q, check_unit_is_valid("bio-5".to_string())),
        _ => panic!("expected a lookup"),
    }
    let (stage, action) = h.step(stage, Event::Rows(Some(1)));
    match action {
        Action::Query(q) => assert_eq!(q, update_unit_state("bio-5".to_string(), true)),
        _ => panic!("expected an update"),
    }
    let (stage, action) = h.step(stage, Event::Rows(Some(1)));
    assert!(finished(&stage));
    let (topic, r, report) = published(&action);
    assert_eq!(topic, "u5");
    assert_eq!(r, Reply { error_stauts: Some(0), ..reply(0) });
    assert_eq!(report, Report::Done);
}

#[test]
fn connection_failures() {
    let h = handler();
    let request = || Event::ConnectRequest(Some(UnitConnectedRequest { uid: "bio-5".to_string() }));

    let (stage, _) = h.begin("u5/connected", "garbage".to_string());
    let (_, action) = h.step(stage, Event::ConnectRequest(None));
    assert_eq!(published(&action), ("u5".to_string(), failure(0, 1), Report::RequestUnreadable));

    let (stage, _) = h.begin("u5/connected", String::new());
    let (stage, _) = h.step(stage, request());
    let (_, action) = h.step(stage, Event::Rows(None));
    assert_eq!(published(&action), ("u5".to_string(), failure(0, 2), Report::DatabaseFailed));

    let (stage, _) = h.begin("u5/connected", String::new());
    let (stage, _) = h.step(stage, request());
    let (_, action) = h.step(stage, Event::Rows(Some(0)));
    assert_eq!(published(&action), ("u5".to_string(), failure(0, 3), Report::UnknownUnit));

    let (stage, _) = h.begin("u5/connected", String::new());
    let (stage, _) = h.step(stage, request());
    let (stage, _) = h.step(stage, Event::Rows(Some(1)));
    let (_, action) = h.step(stage, Event::Rows(None));
    assert_eq!(published(&action), ("u5".to_string(), failure(0, 2), Report::DatabaseFailed));
}

#[test]
fn disconnection_marks_offline_without_answer() {
    let h = handler();
    let (stage, action) = h.begin("u6/disconnected", "{\"uid\":\"b6\"}".to_string());
    assert!(matches!(action, Action::DecodeDisconnect(_)));
    let (stage, action) = h.step(stage, Event::DisconnectRequest(Some(UnitDisconnectedRequest { uid: "b6".to_string() })));
    match action {
        Action::Query(q) => assert_eq!(q, check_unit_is_valid("b6".to_string())),
        _ => panic!("expected a lookup"),
    }
    let (stage, action) = h.step(stage, Event::Rows(Some(1)));
    match action {
        Action::Query(q) => assert_eq!(q, update_unit_state("b6".to_string(), false)),
        _ => panic!("expected an update"),
    }
    let (stage, action) = h.step(stage, Event::Rows(Some(1)));
    assert!(finished(&stage));
    assert!(matches!(action, Action::Finish(Report::UnitWentOffline)));
}

#[test]
fn disconnection_failures_are_only_reported() {
    let h = handler();
    let (stage, _) = h.begin("u6/disconnected", String::new());
    let (_, action) = h.step(stage, Event::DisconnectRequest(None));
    assert!(matches!(action, Action::Finish(Report::RequestUnreadable)));

    let request = || Event::DisconnectRequest(Some(UnitDisconnectedRequest { uid: "b6".to_string() }));
    let (stage, _) = h.begin("u6/disconnected", String::new());
    let (stage, _) = h.step(stage, request());
    let (_, action) = h.step(stage, Event::Rows(Some(3)));
    assert!(matches!(action, Action::Finish(Report::UnknownUnit)));

    let (stage, _) = h.begin("u6/disconnected", String::new());
    let (stage, _) = h.step(stage, request());
    let (_, action) = h.step(stage, Event::Rows(None));
    assert!(matches!(action, Action::Finish(Report::DatabaseFailed)));

    let (stage, _) = h.begin("u6/disconnected", String::new());
    let (stage, _) = h.step(stage, request());
    let (stage, _) = h.step(stage, Event::Rows(Some(1)));
    let (_, action) = h.step(stage, Event::Rows(None));
    assert!(matches!(action, Action::Finish(Report::DatabaseFailed)));
}

#[test]
fn answer_of_the_wrong_kind_ends_the_handling() {
    let h = handler();
    let (stage, _) = h.begin("u1/deletesync", String::new());
    let (stage, action) = h.step(stage, Event::Stored(true));
    assert!(finished(&stage));
    assert!(matches!(action, Action::Finish(Report::Unexpected)));
    let (_, action) = h.step(stage, Event::Rows(Some(1)));
    assert!(matches!(action, Action::Finish(Report::Unexpected)));
}

#[test]
fn replies_go_to_the_first_topic_segment() {
    let h = handler();
    let (stage, _) = h.begin("Gate-7/attendence/extra", "x".to_string());
    let (_, action) = h.step(stage, Event::Stored(true));
    assert_eq!(published(&action).0, "Gate-7");
}

#[test]
fn reply_builders() {
    assert_eq!(deletes_reply(None), failure(1, 1));
    assert_eq!(deletes_reply(Some(vec![42, 7])), Reply { students_empty: Some(0), student_id: Some(42), ..status(1, 0) });
    assert_eq!(inserts_reply(None), failure(2, 1));
    assert_eq!(Reply::connection_accepted(), Reply { error_stauts: Some(0), ..reply(0) });
    assert_eq!(Reply::nothing_pending(1), Reply { students_empty: Some(1), ..status(1, 0) });
}
