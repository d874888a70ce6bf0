use vstd::prelude::*;
use crate::db::{
    check_unit_is_valid, spec_check_unit_is_valid, spec_update_unit_state, touched_one_row,
    update_unit_state, SqlQuery, SqlQueryView,
};
use crate::models::{InsertedNewStudent, StudentView, UnitConnectedRequest, UnitDisconnectedRequest};
use crate::reply::{
    connection_accepted_reply, deletes_reply, failure_reply, inserts_reply, json_u32_array,
    opt_records, opt_text, read_id_list, spec_deletes_reply, spec_inserts_reply, status_reply,
    Reply, ReplyView, ATTENDANCE_REPLY, BACKEND_FAILURE, CONNECTION_REPLY, DELETION_REPLY,
    ENROLMENT_REPLY, UNKNOWN_UNIT, UNREADABLE,
};
use crate::store::{
    spec_get_user_from_deletes, spec_get_user_from_inserts, spec_insert_attendence_log,
    spec_remove_user_from_deletes, spec_remove_user_from_inserts, RedisCommand, RedisCommandView,
    RedisService, StoreNames,
};
use crate::topic::{command_of, parse_topic, split_on, Command, TOPIC_SEPARATOR};

verus! {

/// Where the handling of one message stands.
pub enum Phase {
    /// Waiting for the first pending deletion of the unit.
    FetchingDeletes,
    /// Waiting for the first pending enrolment of the unit.
    FetchingInserts,
    /// Waiting for the enrolment text to be decoded into records.
    DecodingInserts,
    /// Waiting for the first pending deletion to be dropped.
    ClearingDeletes,
    /// Waiting for the first pending enrolment to be dropped.
    ClearingInserts,
    /// Waiting for the attendance line to be stored.
    RecordingAttendance,
    /// Waiting for the connection request to be decoded.
    DecodingConnect,
    /// Waiting for the registration lookup of the connecting unit `uid`.
    CheckingConnect { uid: String },
    /// Waiting for the unit to be marked online.
    UpdatingConnect,
    /// Waiting for the disconnection request to be decoded.
    DecodingDisconnect,
    /// Waiting for the registration lookup of the disconnecting unit `uid`.
    CheckingDisconnect { uid: String },
    /// Waiting for the unit to be marked offline.
    UpdatingDisconnect,
    /// Nothing more to do for this message.
    Finished,
}

/// The handling of one message: the unit it came from (the first topic
/// segment, where answers are published) and how far it has got.
pub struct Stage {
    pub unit: String,
    pub phase: Phase,
}

/// What the outside world answered to the last action.
pub enum Event {
    /// Text read from the store, or `None` when the store failed.
    Fetched(Option<String>),
    /// Whether a store write succeeded.
    Stored(bool),
    /// Enrolment records decoded from the store text, or `None` when it did not decode.
    Students(Option<Vec<InsertedNewStudent>>),
    /// The decoded connection request, or `None` when the payload did not decode.
    ConnectRequest(Option<UnitConnectedRequest>),
    /// The decoded disconnection request, or `None` when the payload did not decode.
    DisconnectRequest(Option<UnitDisconnectedRequest>),
    /// Rows touched by a statement, or `None` when the database failed.
    Rows(Option<u64>),
}

/// How the handling of a message ended, for the service log.
#[derive(Clone, Copy, PartialEq, Eq, Debug, Structural)]
pub enum Report {
    /// Handled as asked.
    Done,
    /// The command segment names nothing this service handles.
    Ignored,
    /// The topic has no command segment.
    MalformedTopic,
    /// Reading from the store failed.
    StoreReadFailed,
    /// The stored text did not decode.
    StoreTextUnreadable,
    /// Writing to the store failed.
    StoreWriteFailed,
    /// The message payload did not decode.
    RequestUnreadable,
    /// The database failed.
    DatabaseFailed,
    /// The unit named in the request is not registered.
    UnknownUnit,
    /// A registered unit was marked offline.
    UnitWentOffline,
    /// An answer arrived that the current phase does not wait for.
    Unexpected,
}

/// What the service has to do next for a message.
pub enum Action {
    /// Run a reading store command and answer with `Event::Fetched`.
    Fetch(RedisCommand),
    /// Run a writing store command and answer with `Event::Stored`.
    Store(RedisCommand),
    /// Decode the text as a JSON list of enrolment records; answer with `Event::Students`.
    DecodeStudents(String),
    /// Decode the payload as a connection request; answer with `Event::ConnectRequest`.
    DecodeConnect(String),
    /// Decode the payload as a disconnection request; answer with `Event::DisconnectRequest`.
    DecodeDisconnect(String),
    /// Run the statement and answer with `Event::Rows`.
    Query(SqlQuery),
    /// Publish `reply` on `topic` (at least once, not retained); the handling is then over.
    Publish { topic: String, reply: Reply, report: Report },
    /// The handling is over without an answer to the unit.
    Finish(Report),
}

/// Mathematical value of a phase.
pub enum PhaseView {
    FetchingDeletes,
    FetchingInserts,
    DecodingInserts,
    ClearingDeletes,
    ClearingInserts,
    RecordingAttendance,
    DecodingConnect,
    CheckingConnect { uid: Seq<char> },
    UpdatingConnect,
    DecodingDisconnect,
    CheckingDisconnect { uid: Seq<char> },
    UpdatingDisconnect,
    Finished,
}

/// Mathematical value of a stage.
pub struct StageView {
    pub unit: Seq<char>,
    pub phase: PhaseView,
}

/// Mathematical value of an event.
pub enum EventView {
    Fetched(Option<Seq<char>>),
    Stored(bool),
    Students(Option<Seq<StudentView>>),
    ConnectRequest(Option<Seq<char>>),
    DisconnectRequest(Option<Seq<char>>),
    Rows(Option<u64>),
}

/// Mathematical value of an action.
pub enum ActionView {
    Fetch(RedisCommandView),
    Store(RedisCommandView),
    DecodeStudents(Seq<char>),
    DecodeConnect(Seq<char>),
    DecodeDisconnect(Seq<char>),
    Query(SqlQueryView),
    Publish { topic: Seq<char>, reply: ReplyView, report: Report },
    Finish(Report),
}

impl View for Phase {
    type V = PhaseView;

    open spec fn view(&self) -> PhaseView {
        match self {
            Phase::FetchingDeletes => PhaseView::FetchingDeletes,
            Phase::FetchingInserts => PhaseView::FetchingInserts,
            Phase::DecodingInserts => PhaseView::DecodingInserts,
            Phase::ClearingDeletes => PhaseView::ClearingDeletes,
            Phase::ClearingInserts => PhaseView::ClearingInserts,
            Phase::RecordingAttendance => PhaseView::RecordingAttendance,
            Phase::DecodingConnect => PhaseView::DecodingConnect,
            Phase::CheckingConnect { uid } => PhaseView::CheckingConnect { uid: uid@ },
            Phase::UpdatingConnect => PhaseView::UpdatingConnect,
            Phase::DecodingDisconnect => PhaseView::DecodingDisconnect,
            Phase::CheckingDisconnect { uid } => PhaseView::CheckingDisconnect { uid: uid@ },
            Phase::UpdatingDisconnect => PhaseView::UpdatingDisconnect,
            Phase::Finished => PhaseView::Finished,
        }
    }
}

impl View for Stage {
    type V = StageView;

    open spec fn view(&self) -> StageView {
        StageView { unit: self.unit@, phase: self.phase@ }
    }
}

impl View for Event {
    type V = EventView;

    open spec fn view(&self) -> EventView {
        match self {
            Event::Fetched(t) => EventView::Fetched(opt_text(*t)),
            Event::Stored(ok) => EventView::Stored(*ok),
            Event::Students(r) => EventView::Students(opt_records(*r)),
            Event::ConnectRequest(r) => EventView::ConnectRequest(
                match r {
                    Some(q) => Some(q.uid@),
                    None => None,
                },
            ),
            Event::DisconnectRequest(r) => EventView::DisconnectRequest(
                match r {
                    Some(q) => Some(q.uid@),
                    None => None,
                },
            ),
            Event::Rows(n) => EventView::Rows(*n),
        }
    }
}

impl View for Action {
    type V = ActionView;

    open spec fn view(&self) -> ActionView {
        match self {
            Action::Fetch(c) => ActionView::Fetch(c@),
            Action::Store(c) => ActionView::Store(c@),
            Action::DecodeStudents(t) => ActionView::DecodeStudents(t@),
            Action::DecodeConnect(t) => ActionView::DecodeConnect(t@),
            Action::DecodeDisconnect(t) => ActionView::DecodeDisconnect(t@),
            Action::Query(q) => ActionView::Query(q@),
            Action::Publish { topic, reply, report } => ActionView::Publish {
                topic: topic@,
                reply: reply@,
                report: *report,
            },
            Action::Finish(r) => ActionView::Finish(*r),
        }
    }
}

/// The stage `unit` in `phase`.
pub open spec fn at(unit: Seq<char>, phase: PhaseView) -> StageView {
    StageView { unit, phase }
}

/// Publish `reply` to `unit` and end.
pub open spec fn answer(unit: Seq<char>, reply: ReplyView, report: Report) -> (StageView, ActionView) {
    (at(unit, PhaseView::Finished), ActionView::Publish { topic: unit, reply, report })
}

/// End without an answer.
pub open spec fn close(unit: Seq<char>, report: Report) -> (StageView, ActionView) {
    (at(unit, PhaseView::Finished), ActionView::Finish(report))
}

/// The first stage and action for a message with `topic` and `payload`.
pub open spec fn spec_begin(names: StoreNames, topic: Seq<char>, payload: Seq<char>) -> (StageView, ActionView) {
    let parts = split_on(topic, TOPIC_SEPARATOR);
    if parts.len() < 2 {
        close(Seq::<char>::empty(), Report::MalformedTopic)
    } else {
        let unit = parts[0];
        match command_of(parts[1]) {
            Command::DeleteSync => (
                at(unit, PhaseView::FetchingDeletes),
                ActionView::Fetch(spec_get_user_from_deletes(names, unit)),
            ),
            Command::InsertSync => (
                at(unit, PhaseView::FetchingInserts),
                ActionView::Fetch(spec_get_user_from_inserts(names, unit)),
            ),
            Command::DeleteSyncAck => (
                at(unit, PhaseView::ClearingDeletes),
                ActionView::Store(spec_remove_user_from_deletes(names, unit)),
            ),
            Command::InsertSyncAck => (
                at(unit, PhaseView::ClearingInserts),
                ActionView::Store(spec_remove_user_from_inserts(names, unit)),
            ),
            Command::Attendence => (
                at(unit, PhaseView::RecordingAttendance),
                ActionView::Store(spec_insert_attendence_log(names, payload)),
            ),
            Command::Connected => (at(unit, PhaseView::DecodingConnect), ActionView::DecodeConnect(payload)),
            Command::Disconnected => (
                at(unit, PhaseView::DecodingDisconnect),
                ActionView::DecodeDisconnect(payload),
            ),
            Command::Other => close(unit, Report::Ignored),
        }
    }
}

/// `Done` when the decoded value is present, else `StoreTextUnreadable`.
pub open spec fn decoded_report(present: bool) -> Report {
    if present {
        Report::Done
    } else {
        Report::StoreTextUnreadable
    }
}

/// The next stage and action after `event` arrives in `stage`.
pub open spec fn spec_step(names: StoreNames, stage: StageView, event: EventView) -> (StageView, ActionView) {
    let unit = stage.unit;
    match (stage.phase, event) {
        (PhaseView::FetchingDeletes, EventView::Fetched(None)) => answer(
            unit,
            failure_reply(DELETION_REPLY, BACKEND_FAILURE),
            Report::StoreReadFailed,
        ),
        (PhaseView::FetchingDeletes, EventView::Fetched(Some(text))) => answer(
            unit,
            spec_deletes_reply(json_u32_array(text)),
            decoded_report(json_u32_array(text) is Some),
        ),
        (PhaseView::FetchingInserts, EventView::Fetched(None)) => answer(
            unit,
            failure_reply(ENROLMENT_REPLY, BACKEND_FAILURE),
            Report::StoreReadFailed,
        ),
        (PhaseView::FetchingInserts, EventView::Fetched(Some(text))) => (
            at(unit, PhaseView::DecodingInserts),
            ActionView::DecodeStudents(text),
        ),
        (PhaseView::DecodingInserts, EventView::Students(records)) => answer(
            unit,
            spec_inserts_reply(records),
            decoded_report(records is Some),
        ),
        (PhaseView::ClearingDeletes, EventView::Stored(ok)) => close(
            unit,
            if ok { Report::Done } else { Report::StoreWriteFailed },
        ),
        (PhaseView::ClearingInserts, EventView::Stored(ok)) => close(
            unit,
            if ok { Report::Done } else { Report::StoreWriteFailed },
        ),
        (PhaseView::RecordingAttendance, EventView::Stored(ok)) => answer(
            unit,
            status_reply(ATTENDANCE_REPLY, if ok { 0 } else { 1 }),
            if ok { Report::Done } else { Report::StoreWriteFailed },
        ),
        (PhaseView::DecodingConnect, EventView::ConnectRequest(None)) => answer(
            unit,
            failure_reply(CONNECTION_REPLY, UNREADABLE),
            Report::RequestUnreadable,
        ),
        (PhaseView::DecodingConnect, EventView::ConnectRequest(Some(uid))) => (
            at(unit, PhaseView::CheckingConnect { uid }),
            ActionView::Query(spec_check_unit_is_valid(uid)),
        ),
        (PhaseView::CheckingConnect { uid }, EventView::Rows(None)) => answer(
            unit,
            failure_reply(CONNECTION_REPLY, BACKEND_FAILURE),
            Report::DatabaseFailed,
        ),
        (PhaseView::CheckingConnect { uid }, EventView::Rows(Some(n))) => if n == 1 {
            (at(unit, PhaseView::UpdatingConnect), ActionView::Query(spec_update_unit_state(uid, true)))
        } else {
            answer(unit, failure_reply(CONNECTION_REPLY, UNKNOWN_UNIT), Report::UnknownUnit)
        },
        (PhaseView::UpdatingConnect, EventView::Rows(None)) => answer(
            unit,
            failure_reply(CONNECTION_REPLY, BACKEND_FAILURE),
            Report::DatabaseFailed,
        ),
        (PhaseView::UpdatingConnect, EventView::Rows(Some(_))) => answer(
            unit,
            connection_accepted_reply(),
            Report::Done,
        ),
        (PhaseView::DecodingDisconnect, EventView::DisconnectRequest(None)) => close(
            unit,
            Report::RequestUnreadable,
        ),
        (PhaseView::DecodingDisconnect, EventView::DisconnectRequest(Some(uid))) => (
            at(unit, PhaseView::CheckingDisconnect { uid }),
            ActionView::Query(spec_check_unit_is_valid(uid)),
        ),
        (PhaseView::CheckingDisconnect { uid }, EventView::Rows(None)) => close(unit, Report::DatabaseFailed),
        (PhaseView::CheckingDisconnect { uid }, EventView::Rows(Some(n))) => if n == 1 {
            (at(unit, PhaseView::UpdatingDisconnect), ActionView::Query(spec_update_unit_state(uid, false)))
        } else {
            close(unit, Report::UnknownUnit)
        },
        (PhaseView::UpdatingDisconnect, EventView::Rows(None)) => close(unit, Report::DatabaseFailed),
        (PhaseView::UpdatingDisconnect, EventView::Rows(Some(_))) => close(unit, Report::UnitWentOffline),
        _ => close(unit, Report::Unexpected),
    }
}

/// Decides, message by message, what the service does with what units publish.
pub struct MessageHandler {
    pub redis_service: RedisService,
}

impl MessageHandler {
    /// A handler that works on the store entries of `redis_service`.
    pub fn new(redis_service: RedisService) -> (h: Self)
        ensures
            h.redis_service@ == redis_service@,
    {
        MessageHandler { redis_service }
    }

    /// Starts handling a message published on `topic` with `payload`.
    pub fn begin(&self, topic: &str, payload: String) -> (r: (Stage, Action))
        ensures
            (r.0@, r.1@) == spec_begin(self.redis_service@, topic@, payload@),
    {
        let parsed = parse_topic(topic);
        match parsed {
            None => {
                (Stage { unit: String::new(), phase: Phase::Finished }, Action::Finish(Report::MalformedTopic))
            },
            Some(t) => {
                let unit = t.unit;
                let store = &self.redis_service;
                match t.command {
                    Command::DeleteSync => {
                        let c = store.get_user_from_deletes(unit.clone());
                        (Stage { unit, phase: Phase::FetchingDeletes }, Action::Fetch(c))
                    },
                    Command::InsertSync => {
                        let c = store.get_user_from_inserts(unit.clone());
                        (Stage { unit, phase: Phase::FetchingInserts }, Action::Fetch(c))
                    },
                    Command::DeleteSyncAck => {
                        let c = store.remove_user_from_deletes(unit.clone());
                        (Stage { unit, phase: Phase::ClearingDeletes }, Action::Store(c))
                    },
                    Command::InsertSyncAck => {
                        let c = store.remove_user_from_inserts(unit.clone());
                        (Stage { unit, phase: Phase::ClearingInserts }, Action::Store(c))
                    },
                    Command::Attendence => {
                        let c = store.insert_attendence_log(payload);
                        (Stage { unit, phase: Phase::RecordingAttendance }, Action::Store(c))
                    },
                    Command::Connected => {
                        (Stage { unit, phase: Phase::DecodingConnect }, Action::DecodeConnect(payload))
                    },
                    Command::Disconnected => {
                        (Stage { unit, phase: Phase::DecodingDisconnect }, Action::DecodeDisconnect(payload))
                    },
                    Command::Other => {
                        (Stage { unit, phase: Phase::Finished }, Action::Finish(Report::Ignored))
                    },
                }
            },
        }
    }

    /// Moves the handling in `stage` on by the answer `event`.
    pub fn step(&self, stage: Stage, event: Event) -> (r: (Stage, Action))
        ensures
            (r.0@, r.1@) == spec_step(self.redis_service@, stage@, event@),
    {
        let unit = stage.unit;
        match stage.phase {
            Phase::FetchingDeletes => match event {
                Event::Fetched(None) => publish(unit, Reply::failure(DELETION_REPLY, BACKEND_FAILURE), Report::StoreReadFailed),
                Event::Fetched(Some(text)) => {
                    let ids = read_id_list(text.as_str());
                    let report = if ids.is_some() { Report::Done } else { Report::StoreTextUnreadable };
                    publish(unit, deletes_reply(ids), report)
                },
                _ => finish(unit, Report::Unexpected),
            },
            Phase::FetchingInserts => match event {
                Event::Fetched(None) => publish(unit, Reply::failure(ENROLMENT_REPLY, BACKEND_FAILURE), Report::StoreReadFailed),
                Event::Fetched(Some(text)) => (Stage { unit, phase: Phase::DecodingInserts }, Action::DecodeStudents(text)),
                _ => finish(unit, Report::Unexpected),
            },
            Phase::DecodingInserts => match event {
                Event::Students(records) => {
                    let report = if records.is_some() { Report::Done } else { Report::StoreTextUnreadable };
                    publish(unit, inserts_reply(records), report)
                },
                _ => finish(unit, Report::Unexpected),
            },
            Phase::ClearingDeletes | Phase::ClearingInserts => match event {
                Event::Stored(ok) => finish(unit, if ok { Report::Done } else { Report::StoreWriteFailed }),
                _ => finish(unit, Report::Unexpected),
            },
            Phase::RecordingAttendance => match event {
                Event::Stored(ok) => {
                    let status: u32 = if ok { 0 } else { 1 };
                    publish(unit, Reply::status(ATTENDANCE_REPLY, status), if ok { Report::Done } else { Report::StoreWriteFailed })
                },
                _ => finish(unit, Report::Unexpected),
            },
            Phase::DecodingConnect => match event {
                Event::ConnectRequest(None) => publish(unit, Reply::failure(CONNECTION_REPLY, UNREADABLE), Report::RequestUnreadable),
                Event::ConnectRequest(Some(req)) => {
                    let q = check_unit_is_valid(req.uid.clone());
                    (Stage { unit, phase: Phase::CheckingConnect { uid: req.uid } }, Action::Query(q))
                },
                _ => finish(unit, Report::Unexpected),
            },
            Phase::CheckingConnect { uid } => match event {
                Event::Rows(None) => publish(unit, Reply::failure(CONNECTION_REPLY, BACKEND_FAILURE), Report::DatabaseFailed),
                Event::Rows(Some(n)) => {
                    if touched_one_row(n) {
                        (Stage { unit, phase: Phase::UpdatingConnect }, Action::Query(update_unit_state(uid, true)))
                    } else {
                        publish(unit, Reply::failure(CONNECTION_REPLY, UNKNOWN_UNIT), Report::UnknownUnit)
                    }
                },
                _ => finish(unit, Report::Unexpected),
            },
            Phase::UpdatingConnect => match event {
                Event::Rows(None) => publish(unit, Reply::failure(CONNECTION_REPLY, BACKEND_FAILURE), Report::DatabaseFailed),
                Event::Rows(Some(_)) => publish(unit, Reply::connection_accepted(), Report::Done),
                _ => finish(unit, Report::Unexpected),
            },
            Phase::DecodingDisconnect => match event {
                Event::DisconnectRequest(None) => finish(unit, Report::RequestUnreadable),
                Event::DisconnectRequest(Some(req)) => {
                    let q = check_unit_is_valid(req.uid.clone());
                    (Stage { unit, phase: Phase::CheckingDisconnect { uid: req.uid } }, Action::Query(q))
                },
                _ => finish(unit, Report::Unexpected),
            },
            Phase::CheckingDisconnect { uid } => match event {
                Event::Rows(None) => finish(unit, Report::DatabaseFailed),
                Event::Rows(Some(n)) => {
                    if touched_one_row(n) {
                        (Stage { unit, phase: Phase::UpdatingDisconnect }, Action::Query(update_unit_state(uid, false)))
                    } else {
                        finish(unit, Report::UnknownUnit)
                    }
                },
                _ => finish(unit, Report::Unexpected),
            },
            Phase::UpdatingDisconnect => match event {
                Event::Rows(None) => finish(unit, Report::DatabaseFailed),
                Event::Rows(Some(_)) => finish(unit, Report::UnitWentOffline),
                _ => finish(unit, Report::Unexpected),
            },
            Phase::Finished => finish(unit, Report::Unexpected),
        }
    }
}

/// Publish `reply` to `unit` and end.
fn publish(unit: String, reply: Reply, report: Report) -> (r: (Stage, Action))
    ensures
        (r.0@, r.1@) == answer(unit@, reply@, report),
{
    let topic = unit.clone();
    (Stage { unit, phase: Phase::Finished }, Action::Publish { topic, reply, report })
}

/// End without an answer.
fn finish(unit: String, report: Report) -> (r: (Stage, Action))
    ensures
        (r.0@, r.1@) == close(unit@, report),
{
    (Stage { unit, phase: Phase::Finished }, Action::Finish(report))
}

} // verus!
