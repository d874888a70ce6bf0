use vstd::prelude::*;
use crate::db::{spec_check_unit_is_valid, spec_update_unit_state};
use crate::handler::{spec_begin, spec_step, ActionView, EventView, PhaseView, StageView};
use crate::models::StudentView;
use crate::reply::{json_u32_array, spec_deletes_reply, spec_inserts_reply, ReplyView};
use crate::store::{
    spec_get_user_from_deletes, spec_get_user_from_inserts, spec_remove_user_from_deletes,
    spec_insert_attendence_log, spec_remove_user_from_inserts, unit_head_path, StoreNames,
};
use crate::db::SqlParamView;
use crate::text::uppercase;
use crate::topic::{command_of, split_on, Command, TOPIC_SEPARATOR};

verus! {

/// The commands that are answered with a reply.
pub open spec fn answered(c: Command) -> bool {
    ||| c == Command::DeleteSync
    ||| c == Command::InsertSync
    ||| c == Command::Attendence
    ||| c == Command::Connected
}

/// The `message_type` of the reply to an answered command.
pub open spec fn reply_type(c: Command) -> u32 {
    match c {
        Command::Connected => 0,
        Command::DeleteSync => 1,
        Command::InsertSync => 2,
        _ => 3,
    }
}

/// The form every reply has: exactly one status key; an error type only on
/// failures; the pending-list flag only on successes; student data only when
/// the pending list is not empty; statuses are 0 or 1.
pub open spec fn well_shaped(r: ReplyView) -> bool {
    &&& (r.error_status is Some) != (r.error_stauts is Some)
    &&& (r.error_status matches Some(s) ==> s <= 1)
    &&& (r.error_stauts matches Some(s) ==> s <= 1)
    &&& (r.error_type is Some ==> r.error_status == Some(1u32))
    &&& (r.students_empty is Some ==> r.error_status == Some(0u32))
    &&& ((r.student_id is Some || r.student_unit_id is Some || r.fingerprint_data is Some) ==> r.students_empty
        == Some(0u32))
}

/// The command that a phase belongs to.
pub open spec fn phase_command(p: PhaseView) -> Option<Command> {
    match p {
        PhaseView::FetchingDeletes => Some(Command::DeleteSync),
        PhaseView::FetchingInserts => Some(Command::InsertSync),
        PhaseView::DecodingInserts => Some(Command::InsertSync),
        PhaseView::ClearingDeletes => Some(Command::DeleteSyncAck),
        PhaseView::ClearingInserts => Some(Command::InsertSyncAck),
        PhaseView::RecordingAttendance => Some(Command::Attendence),
        PhaseView::DecodingConnect => Some(Command::Connected),
        PhaseView::CheckingConnect { .. } => Some(Command::Connected),
        PhaseView::UpdatingConnect => Some(Command::Connected),
        PhaseView::DecodingDisconnect => Some(Command::Disconnected),
        PhaseView::CheckingDisconnect { .. } => Some(Command::Disconnected),
        PhaseView::UpdatingDisconnect => Some(Command::Disconnected),
        PhaseView::Finished => None,
    }
}

/// How many more answers a phase can wait for at most.
pub open spec fn remaining_steps(p: PhaseView) -> nat {
    match p {
        PhaseView::FetchingInserts => 2,
        PhaseView::DecodingConnect => 3,
        PhaseView::CheckingConnect { .. } => 2,
        PhaseView::DecodingDisconnect => 3,
        PhaseView::CheckingDisconnect { .. } => 2,
        PhaseView::Finished => 0,
        _ => 1,
    }
}

/// True when an action ends the handling of its message.
pub open spec fn terminal(a: ActionView) -> bool {
    a is Publish || a is Finish
}

/// True when `e` is the kind of answer that a stage in phase `p` waits for.
pub open spec fn expects(p: PhaseView, e: EventView) -> bool {
    match p {
        PhaseView::FetchingDeletes => e is Fetched,
        PhaseView::FetchingInserts => e is Fetched,
        PhaseView::DecodingInserts => e is Students,
        PhaseView::ClearingDeletes => e is Stored,
        PhaseView::ClearingInserts => e is Stored,
        PhaseView::RecordingAttendance => e is Stored,
        PhaseView::DecodingConnect => e is ConnectRequest,
        PhaseView::DecodingDisconnect => e is DisconnectRequest,
        PhaseView::Finished => true,
        _ => e is Rows,
    }
}

/// The actions taken from `stage` as `events` answer them one by one,
/// up to and including the one that ends the handling.
pub open spec fn run_actions(names: StoreNames, stage: StageView, events: Seq<EventView>) -> Seq<ActionView>
    decreases events.len(),
{
    if events.len() == 0 || stage.phase is Finished {
        Seq::<ActionView>::empty()
    } else {
        let next = spec_step(names, stage, events[0]);
        seq![next.1] + run_actions(names, next.0, events.drop_first())
    }
}

/// The stage reached from `stage` as `events` answer its actions.
pub open spec fn run_stage(names: StoreNames, stage: StageView, events: Seq<EventView>) -> StageView
    decreases events.len(),
{
    if events.len() == 0 || stage.phase is Finished {
        stage
    } else {
        run_stage(names, spec_step(names, stage, events[0]).0, events.drop_first())
    }
}

/// True when every event answers, in kind, the action taken just before it.
pub open spec fn answers_fit(names: StoreNames, stage: StageView, events: Seq<EventView>) -> bool
    decreases events.len(),
{
    if events.len() == 0 || stage.phase is Finished {
        true
    } else {
        expects(stage.phase, events[0]) && answers_fit(
            names,
            spec_step(names, stage, events[0]).0,
            events.drop_first(),
        )
    }
}

/// All actions taken for a message with `topic` and `payload` as `events` answer them.
pub open spec fn exchange(names: StoreNames, topic: Seq<char>, payload: Seq<char>, events: Seq<EventView>) -> Seq<ActionView> {
    let first = spec_begin(names, topic, payload);
    seq![first.1] + run_actions(names, first.0, events)
}

/// The unit a topic comes from (its first segment).
pub open spec fn sender(topic: Seq<char>) -> Seq<char> {
    split_on(topic, TOPIC_SEPARATOR)[0]
}

/// The command a topic names (its second segment).
pub open spec fn topic_command(topic: Seq<char>) -> Command {
    command_of(split_on(topic, TOPIC_SEPARATOR)[1])
}

/// True when a publish action goes to `unit` with a well-shaped reply of the
/// type that answers `c`, and `c` is a command that is answered at all.
pub open spec fn proper_publish(a: ActionView, unit: Seq<char>, c: Command) -> bool {
    a matches ActionView::Publish { topic, reply, .. } ==> {
        &&& topic == unit
        &&& answered(c)
        &&& reply.message_type == reply_type(c)
        &&& well_shaped(reply)
    }
}

/// One step keeps the unit and the command, moves closer to the end, ends
/// exactly when it takes a terminal action, and publishes properly.
proof fn lemma_step(names: StoreNames, stage: StageView, event: EventView)
    requires
        !(stage.phase is Finished),
    ensures
        ({
            let next = spec_step(names, stage, event);
            &&& next.0.unit == stage.unit
            &&& next.0.phase is Finished || phase_command(next.0.phase) == phase_command(stage.phase)
            &&& remaining_steps(next.0.phase) < remaining_steps(stage.phase)
            &&& terminal(next.1) <==> next.0.phase is Finished
            &&& proper_publish(next.1, stage.unit, phase_command(stage.phase).unwrap())
            &&& (answered(phase_command(stage.phase).unwrap()) && expects(stage.phase, event)) ==> !(next.1 is Finish)
        }),
{
}

/// The first step: a stage of the command the topic names, for the sender.
proof fn lemma_begin(names: StoreNames, topic: Seq<char>, payload: Seq<char>)
    ensures
        ({
            let first = spec_begin(names, topic, payload);
            &&& terminal(first.1) <==> first.0.phase is Finished
            &&& !(first.1 is Publish)
            &&& remaining_steps(first.0.phase) <= 3
            &&& !(first.0.phase is Finished) ==> {
                &&& split_on(topic, TOPIC_SEPARATOR).len() >= 2
                &&& first.0.unit == sender(topic)
                &&& phase_command(first.0.phase) == Some(topic_command(topic))
            }
            &&& (split_on(topic, TOPIC_SEPARATOR).len() >= 2 && answered(topic_command(topic))) ==> !(
            first.0.phase is Finished)
        }),
{
}

/// Facts about every action of a run from a stage of command `c` for `unit`.
proof fn lemma_run(names: StoreNames, stage: StageView, events: Seq<EventView>, c: Command)
    requires
        stage.phase is Finished || phase_command(stage.phase) == Some(c),
    ensures
        forall|i: int| 0 <= i < run_actions(names, stage, events).len() ==> proper_publish(
            #[trigger] run_actions(names, stage, events)[i],
            stage.unit,
            c,
        ),
        forall|i: int| 0 <= i < run_actions(names, stage, events).len() - 1 ==> !terminal(
            #[trigger] run_actions(names, stage, events)[i],
        ),
        events.len() >= remaining_steps(stage.phase) ==> run_stage(names, stage, events).phase is Finished,
        run_stage(names, stage, events).phase is Finished && !(stage.phase is Finished) ==> {
            &&& run_actions(names, stage, events).len() > 0
            &&& terminal(run_actions(names, stage, events).last())
        },
        (answered(c) && answers_fit(names, stage, events) && run_actions(names, stage, events).len() > 0)
            ==> !(run_actions(names, stage, events).last() is Finish),
    decreases events.len(),
{
    if events.len() == 0 || stage.phase is Finished {
    } else {
        let next = spec_step(names, stage, events[0]);
        lemma_step(names, stage, events[0]);
        let rest = events.drop_first();
        lemma_run(names, next.0, rest, c);
        let acts = run_actions(names, stage, events);
        let tail = run_actions(names, next.0, rest);
        assert(acts == seq![next.1] + tail);
        assert forall|i: int| 0 <= i < acts.len() implies proper_publish(#[trigger] acts[i], stage.unit, c) by {
            if i > 0 {
                assert(acts[i] == tail[i - 1]);
            }
        }
        assert forall|i: int| 0 <= i < acts.len() - 1 implies !terminal(#[trigger] acts[i]) by {
            if i > 0 {
                assert(acts[i] == tail[i - 1]);
            } else {
                assert(tail.len() > 0 || next.0.phase is Finished);
                if next.0.phase is Finished {
                    assert(tail.len() == 0);
                }
            }
        }
        if tail.len() > 0 {
            assert(acts.last() == tail.last());
        } else {
            assert(acts.last() == next.1);
            if !(next.0.phase is Finished) {
                assert(rest.len() == 0);
            }
        }
    }
}

/// Replies always go back to the unit that sent the message: the first
/// segment of its topic.
pub proof fn law_replies_go_to_sender(names: StoreNames, topic: Seq<char>, payload: Seq<char>, events: Seq<EventView>)
    ensures
        forall|i: int|
            0 <= i < exchange(names, topic, payload, events).len() ==> (
            #[trigger] exchange(names, topic, payload, events)[i] matches ActionView::Publish { topic: to, .. }
                ==> to == sender(topic)),
{
    law_replies_answer_the_command(names, topic, payload, events);
}

/// Every reply has the `message_type` of the command it answers and is well
/// shaped; acknowledgements, disconnections, unknown commands and topics
/// without a command segment are never answered.
pub proof fn law_replies_answer_the_command(names: StoreNames, topic: Seq<char>, payload: Seq<char>, events: Seq<EventView>)
    ensures
        forall|i: int|
            0 <= i < exchange(names, topic, payload, events).len() ==> (
            #[trigger] exchange(names, topic, payload, events)[i] is Publish ==> {
                &&& split_on(topic, TOPIC_SEPARATOR).len() >= 2
                &&& proper_publish(exchange(names, topic, payload, events)[i], sender(topic), topic_command(topic))
            }),
{
    lemma_begin(names, topic, payload);
    let first = spec_begin(names, topic, payload);
    let acts = exchange(names, topic, payload, events);
    let tail = run_actions(names, first.0, events);
    if first.0.phase is Finished {
        assert(tail.len() == 0);
        assert forall|i: int| 0 <= i < acts.len() implies !(#[trigger] acts[i] is Publish) by {
            assert(acts[i] == first.1);
        }
    } else {
        lemma_run(names, first.0, events, topic_command(topic));
        assert forall|i: int| 0 <= i < acts.len() && #[trigger] acts[i] is Publish implies {
            &&& split_on(topic, TOPIC_SEPARATOR).len() >= 2
            &&& proper_publish(acts[i], sender(topic), topic_command(topic))
        } by {
            assert(i > 0);
            assert(acts[i] == tail[i - 1]);
        }
    }
}

/// The handling of any message ends after at most three answers; only its
/// last action ends it.
pub proof fn law_exchange_ends(names: StoreNames, topic: Seq<char>, payload: Seq<char>, events: Seq<EventView>)
    requires
        events.len() >= 3,
    ensures
        terminal(exchange(names, topic, payload, events).last()),
        forall|i: int|
            0 <= i < exchange(names, topic, payload, events).len() - 1 ==> !terminal(
                #[trigger] exchange(names, topic, payload, events)[i],
            ),
{
    lemma_begin(names, topic, payload);
    let first = spec_begin(names, topic, payload);
    let acts = exchange(names, topic, payload, events);
    let tail = run_actions(names, first.0, events);
    let c = match phase_command(first.0.phase) {
        Some(c) => c,
        None => Command::Other,
    };
    lemma_run(names, first.0, events, c);
    if first.0.phase is Finished {
        assert(tail.len() == 0);
        assert(acts.last() == first.1);
    } else {
        assert(acts.last() == tail.last());
        assert forall|i: int| 0 <= i < acts.len() - 1 implies !terminal(#[trigger] acts[i]) by {
            if i > 0 {
                assert(acts[i] == tail[i - 1]);
            }
        }
    }
}

/// A request that is answered at all gets exactly one reply, as the last
/// action, whenever each outside answer is of the kind that was asked for.
pub proof fn law_answered_requests_get_one_reply(
    names: StoreNames,
    topic: Seq<char>,
    payload: Seq<char>,
    events: Seq<EventView>,
)
    requires
        split_on(topic, TOPIC_SEPARATOR).len() >= 2,
        answered(topic_command(topic)),
        answers_fit(names, spec_begin(names, topic, payload).0, events),
        events.len() >= 3,
    ensures
        exchange(names, topic, payload, events).last() is Publish,
        forall|i: int|
            0 <= i < exchange(names, topic, payload, events).len() - 1 ==> !(
            #[trigger] exchange(names, topic, payload, events)[i] is Publish),
{
    law_exchange_ends(names, topic, payload, events);
    lemma_begin(names, topic, payload);
    let first = spec_begin(names, topic, payload);
    lemma_run(names, first.0, events, topic_command(topic));
    let acts = exchange(names, topic, payload, events);
    let tail = run_actions(names, first.0, events);
    assert(tail.len() > 0);
    assert(acts.last() == tail.last());
    assert forall|i: int| 0 <= i < acts.len() - 1 implies !(#[trigger] acts[i] is Publish) by {
        assert(!terminal(acts[i]));
    }
}

/// A unit is marked online or offline only right after the lookup of the
/// same unit id (compared in upper case, as the database stores it) found
/// exactly one registered unit; online only while connecting, offline only
/// while disconnecting.
pub proof fn law_state_change_follows_lookup(
    names: StoreNames,
    stage: StageView,
    event: EventView,
    uid: Seq<char>,
    online: bool,
)
    requires
        spec_step(names, stage, event).1 == ActionView::Query(spec_update_unit_state(uid, online)),
    ensures
        event == EventView::Rows(Some(1u64)),
        online ==> (stage.phase matches PhaseView::CheckingConnect { uid: u } && uppercase(u) == uppercase(uid)),
        !online ==> (stage.phase matches PhaseView::CheckingDisconnect { uid: u } && uppercase(u) == uppercase(uid)),
{
    reveal_strlit("SELECT 1 FROM biometric WHERE (unit_id=$1)");
    reveal_strlit("UPDATE biometric SET online=$1 WHERE unit_id=$2");
    assert(spec_check_unit_is_valid(uid).sql[0] != spec_update_unit_state(uid, online).sql[0]);
}

/// An acknowledgement removes exactly the store entry that the matching
/// synchronisation request read: same document, same path.
pub proof fn law_ack_removes_what_sync_read(names: StoreNames, unit: Seq<char>)
    ensures
        spec_remove_user_from_deletes(names, unit).args == spec_get_user_from_deletes(names, unit).args,
        spec_remove_user_from_inserts(names, unit).args == spec_get_user_from_inserts(names, unit).args,
{
}

/// The answer to `insertsync` carries the first pending enrolment exactly as
/// it was stored: its unit-side student id and its fingerprint template,
/// character for character, with `message_type` 2 and a zero status.
/// Nothing pending is answered with `students_empty` 1 and no record; an
/// unreadable list with error type 1.
pub proof fn law_enrolment_reply_carries_first_record(records: Seq<StudentView>)
    ensures
        records.len() > 0 ==> {
            let r = spec_inserts_reply(Some(records));
            &&& r.message_type == 2
            &&& r.error_status == Some(0u32)
            &&& r.students_empty == Some(0u32)
            &&& r.student_unit_id == Some(records[0].student_unit_id)
            &&& r.fingerprint_data == Some(records[0].fingerprint_data)
            &&& r.student_id is None
        },
        records.len() == 0 ==> {
            let r = spec_inserts_reply(Some(records));
            &&& r.message_type == 2
            &&& r.students_empty == Some(1u32)
            &&& r.student_unit_id is None
            &&& r.fingerprint_data is None
        },
        spec_inserts_reply(None).error_type == Some(1u32),
        spec_inserts_reply(None).message_type == 2,
{
}

/// The answer to `deletesync` carries the first pending student id exactly
/// as stored, with `message_type` 1 and a zero status; nothing pending is
/// answered with `students_empty` 1 and no id.
pub proof fn law_deletion_reply_carries_first_id(ids: Seq<u32>)
    ensures
        ids.len() > 0 ==> {
            let r = spec_deletes_reply(Some(ids));
            &&& r.message_type == 1
            &&& r.error_status == Some(0u32)
            &&& r.students_empty == Some(0u32)
            &&& r.student_id == Some(ids[0])
        },
        ids.len() == 0 ==> spec_deletes_reply(Some(ids)).students_empty == Some(1u32)
            && spec_deletes_reply(Some(ids)).student_id is None,
        spec_deletes_reply(None).error_type == Some(1u32),
{
}

/// When the deletes document holds a readable list with first id `x` at a
/// unit's path, the unit is sent `x` on its own topic.
pub proof fn law_deletesync_sends_stored_id(names: StoreNames, unit: Seq<char>, text: Seq<char>)
    requires
        json_u32_array(text) matches Some(ids) && ids.len() > 0,
    ensures
        spec_step(names, StageView { unit, phase: PhaseView::FetchingDeletes }, EventView::Fetched(Some(text))).1
            matches ActionView::Publish { topic, reply, .. } && topic == unit && reply.student_id == Some(
            json_u32_array(text)->0[0],
        ),
{
    law_deletion_reply_carries_first_id(json_u32_array(text)->0);
}

/// An attendance line is pushed onto the attendance list exactly as the
/// unit sent it, whatever its length or content.
pub proof fn law_attendance_log_pushed_as_sent(names: StoreNames, topic: Seq<char>, log: Seq<char>)
    ensures
        spec_insert_attendence_log(names, log).name == "LPUSH"@,
        spec_insert_attendence_log(names, log).args == seq![names.attendence_list_name, log],
        (split_on(topic, TOPIC_SEPARATOR).len() >= 2 && topic_command(topic) == Command::Attendence) ==> spec_begin(
            names,
            topic,
            log,
        ).1 == ActionView::Store(
            spec_insert_attendence_log(names, log),
        ),
{
    assert(spec_insert_attendence_log(names, log).args =~= seq![names.attendence_list_name, log]);
}

/// The store and the database address a unit by one and the same key: the
/// lookup and the state change bind the same stored id, and the store path
/// of the unit's pending lists is `$.` followed by exactly that id and `[0]`.
pub proof fn law_one_key_per_unit(names: StoreNames, unit: Seq<char>, online: bool)
    ensures
        spec_check_unit_is_valid(unit).params.len() == 1,
        spec_update_unit_state(unit, online).params.len() == 2,
        spec_update_unit_state(unit, online).params[0] == SqlParamView::Bool(online),
        spec_check_unit_is_valid(unit).params[0] == spec_update_unit_state(unit, online).params[1],
        spec_check_unit_is_valid(unit).params[0] == SqlParamView::Text(uppercase(unit)),
        spec_check_unit_is_valid(unit).params[0] matches SqlParamView::Text(key) && unit_head_path(unit) == "$."@ + key
            + "[0]"@,
        spec_get_user_from_deletes(names, unit).args[1] == unit_head_path(unit),
        spec_get_user_from_inserts(names, unit).args[1] == unit_head_path(unit),
{
}

/// True when an outside answer reports a failure of the store, the database
/// or the decoding that was asked for.
pub open spec fn failed_answer(e: EventView) -> bool {
    match e {
        EventView::Fetched(t) => t is None,
        EventView::Stored(ok) => !ok,
        EventView::Students(r) => r is None,
        EventView::ConnectRequest(r) => r is None,
        EventView::DisconnectRequest(r) => r is None,
        EventView::Rows(n) => n is None,
    }
}

/// A reply reports success (status 0) only after an answer that succeeded,
/// and every answer that failed is replied to, if at all, with status 1.
pub proof fn law_status_reflects_outcome(names: StoreNames, stage: StageView, event: EventView)
    ensures
        spec_step(names, stage, event).1 matches ActionView::Publish { reply, .. } ==> {
            &&& (reply.error_status == Some(0u32) || reply.error_stauts == Some(0u32)) ==> !failed_answer(event)
            &&& failed_answer(event) ==> reply.error_status == Some(1u32)
        },
{
}

/// A synchronisation request reads, and an acknowledgement removes, the first
/// entry kept for the sending unit in the document of its own kind:
/// deletions for `deletesync`/`deletesyncack`, enrolments for
/// `insertsync`/`insertsyncack`.
pub proof fn law_requests_address_the_sender_entry(names: StoreNames, topic: Seq<char>, payload: Seq<char>)
    requires
        split_on(topic, TOPIC_SEPARATOR).len() >= 2,
    ensures
        topic_command(topic) == Command::DeleteSync ==> spec_begin(names, topic, payload).1 == ActionView::Fetch(
            crate::store::RedisCommandView {
                name: "JSON.GET"@,
                args: seq![names.delete_json_name, unit_head_path(sender(topic))],
            },
        ),
        topic_command(topic) == Command::InsertSync ==> spec_begin(names, topic, payload).1 == ActionView::Fetch(
            crate::store::RedisCommandView {
                name: "JSON.GET"@,
                args: seq![names.insert_json_name, unit_head_path(sender(topic))],
            },
        ),
        topic_command(topic) == Command::DeleteSyncAck ==> spec_begin(names, topic, payload).1 == ActionView::Store(
            crate::store::RedisCommandView {
                name: "JSON.DEL"@,
                args: seq![names.delete_json_name, unit_head_path(sender(topic))],
            },
        ),
        topic_command(topic) == Command::InsertSyncAck ==> spec_begin(names, topic, payload).1 == ActionView::Store(
            crate::store::RedisCommandView {
                name: "JSON.DEL"@,
                args: seq![names.insert_json_name, unit_head_path(sender(topic))],
            },
        ),
{
}

} // verus!
