use vstd::prelude::*;
use crate::models::{InsertedNewStudent, StudentView};

verus! {

/// `message_type` of the answer to `connected`.
pub const CONNECTION_REPLY: u32 = 0;
/// `message_type` of the answer to `deletesync`.
pub const DELETION_REPLY: u32 = 1;
/// `message_type` of the answer to `insertsync`.
pub const ENROLMENT_REPLY: u32 = 2;
/// `message_type` of the answer to `attendence`.
pub const ATTENDANCE_REPLY: u32 = 3;

/// `error_type` when the request or the stored data could not be read.
pub const UNREADABLE: u32 = 1;
/// `error_type` when the store or the database failed.
pub const BACKEND_FAILURE: u32 = 2;
/// `error_type` when a unit that is not registered connects.
pub const UNKNOWN_UNIT: u32 = 3;

/// The JSON object published back to a unit. Each `Some` field is one key of
/// the object, under the field's own name; `None` fields are absent.
#[derive(Clone, Debug, PartialEq, Eq)]
pub struct Reply {
    pub message_type: u32,
    pub error_status: Option<u32>,
    /// Status of an accepted connection. Its key is spelled `error_stauts`
    /// on the wire, and units read it under that key.
    pub error_stauts: Option<u32>,
    pub error_type: Option<u32>,
    pub students_empty: Option<u32>,
    pub student_id: Option<u32>,
    pub student_unit_id: Option<String>,
    pub fingerprint_data: Option<String>,
}

/// Mathematical value of a reply.
pub struct ReplyView {
    pub message_type: u32,
    pub error_status: Option<u32>,
    pub error_stauts: Option<u32>,
    pub error_type: Option<u32>,
    pub students_empty: Option<u32>,
    pub student_id: Option<u32>,
    pub student_unit_id: Option<Seq<char>>,
    pub fingerprint_data: Option<Seq<char>>,
}

/// The character view of an optional string.
pub open spec fn opt_text(o: Option<String>) -> Option<Seq<char>> {
    match o {
        Some(s) => Some(s@),
        None => None,
    }
}

impl View for Reply {
    type V = ReplyView;

    open spec fn view(&self) -> ReplyView {
        ReplyView {
            message_type: self.message_type,
            error_status: self.error_status,
            error_stauts: self.error_stauts,
            error_type: self.error_type,
            students_empty: self.students_empty,
            student_id: self.student_id,
            student_unit_id: opt_text(self.student_unit_id),
            fingerprint_data: opt_text(self.fingerprint_data),
        }
    }
}

/// `{"message_type": t, "error_status": status}`.
pub open spec fn status_reply(message_type: u32, status: u32) -> ReplyView {
    ReplyView {
        message_type,
        error_status: Some(status),
        error_stauts: None,
        error_type: None,
        students_empty: None,
        student_id: None,
        student_unit_id: None,
        fingerprint_data: None,
    }
}

/// `{"message_type": t, "error_status": 1, "error_type": e}`.
pub open spec fn failure_reply(message_type: u32, error_type: u32) -> ReplyView {
    ReplyView { error_type: Some(error_type), ..status_reply(message_type, 1) }
}

/// `{"message_type": t, "error_status": 0, "students_empty": 1}`.
pub open spec fn nothing_pending_reply(message_type: u32) -> ReplyView {
    ReplyView { students_empty: Some(1), ..status_reply(message_type, 0) }
}

/// `{"message_type": 1, "error_status": 0, "students_empty": 0, "student_id": id}`.
pub open spec fn deletion_reply(student_id: u32) -> ReplyView {
    ReplyView { students_empty: Some(0), student_id: Some(student_id), ..status_reply(DELETION_REPLY, 0) }
}

/// `{"message_type": 2, "error_status": 0, "students_empty": 0, "student_unit_id": .., "fingerprint_data": ..}`.
pub open spec fn enrolment_reply(record: StudentView) -> ReplyView {
    ReplyView {
        students_empty: Some(0),
        student_unit_id: Some(record.student_unit_id),
        fingerprint_data: Some(record.fingerprint_data),
        ..status_reply(ENROLMENT_REPLY, 0)
    }
}

/// `{"message_type": 0, "error_stauts": 0}`.
pub open spec fn connection_accepted_reply() -> ReplyView {
    ReplyView { error_status: None, error_stauts: Some(0), ..status_reply(CONNECTION_REPLY, 0) }
}

/// The answer to `deletesync` for what was read from the deletes document:
/// `None` when it was not a JSON array of `u32`, else the ids found at the unit's path.
pub open spec fn spec_deletes_reply(ids: Option<Seq<u32>>) -> ReplyView {
    match ids {
        None => failure_reply(DELETION_REPLY, UNREADABLE),
        Some(s) => if s.len() == 0 {
            nothing_pending_reply(DELETION_REPLY)
        } else {
            deletion_reply(s[0])
        },
    }
}

/// The answer to `insertsync` for what was read from the inserts document.
pub open spec fn spec_inserts_reply(records: Option<Seq<StudentView>>) -> ReplyView {
    match records {
        None => failure_reply(ENROLMENT_REPLY, UNREADABLE),
        Some(s) => if s.len() == 0 {
            nothing_pending_reply(ENROLMENT_REPLY)
        } else {
            enrolment_reply(s[0])
        },
    }
}

/// The value of an optional list of ids.
pub open spec fn opt_ids(o: Option<Vec<u32>>) -> Option<Seq<u32>> {
    match o {
        Some(v) => Some(v@),
        None => None,
    }
}

/// The value of an optional list of enrolment records.
pub open spec fn opt_records(o: Option<Vec<InsertedNewStudent>>) -> Option<Seq<StudentView>> {
    match o {
        Some(v) => Some(v@.map_values(|r: InsertedNewStudent| r@)),
        None => None,
    }
}

/// What `serde_json::from_str::<Vec<u32>>` gives for a text: `None` when the
/// text is not a JSON array of integers in range, else the integers in order.
pub uninterp spec fn json_u32_array(text: Seq<char>) -> Option<Seq<u32>>;

/// Calls `serde_json::from_str::<Vec<u32>>`. Its result depends on the text
/// alone and is named `json_u32_array`; the JSON grammar is not written out here.
#[verifier::external_body]
pub(crate) fn read_id_list(text: &str) -> (ids: Option<Vec<u32>>)
    ensures
        opt_ids(ids) == json_u32_array(text@),
{
    serde_json::from_str::<Vec<u32>>(text).ok()
}

impl Reply {
    /// `{"message_type": t, "error_status": status}`.
    pub fn status(message_type: u32, status: u32) -> (r: Reply)
        ensures
            r@ == status_reply(message_type, status),
    {
        Reply {
            message_type,
            error_status: Some(status),
            error_stauts: None,
            error_type: None,
            students_empty: None,
            student_id: None,
            student_unit_id: None,
            fingerprint_data: None,
        }
    }

    /// `{"message_type": t, "error_status": 1, "error_type": e}`.
    pub fn failure(message_type: u32, error_type: u32) -> (r: Reply)
        ensures
            r@ == failure_reply(message_type, error_type),
    {
        Reply { error_type: Some(error_type), ..Reply::status(message_type, 1) }
    }

    /// `{"message_type": t, "error_status": 0, "students_empty": 1}`.
    pub fn nothing_pending(message_type: u32) -> (r: Reply)
        ensures
            r@ == nothing_pending_reply(message_type),
    {
        Reply { students_empty: Some(1), ..Reply::status(message_type, 0) }
    }

    /// `{"message_type": 0, "error_stauts": 0}`.
    pub fn connection_accepted() -> (r: Reply)
        ensures
            r@ == connection_accepted_reply(),
    {
        Reply { error_status: None, error_stauts: Some(0), ..Reply::status(CONNECTION_REPLY, 0) }
    }
}

/// Answers `deletesync` from the ids read at the unit's path, or from `None`
/// when the stored text was not a list of ids.
pub fn deletes_reply(ids: Option<Vec<u32>>) -> (r: Reply)
    ensures
        r@ == spec_deletes_reply(opt_ids(ids)),
        ids matches Some(v) ==> (v.len() > 0 ==> r.student_id == Some(v[0]) && r.message_type == 1),
{
    match ids {
        None => Reply::failure(DELETION_REPLY, UNREADABLE),
        Some(v) => {
            if v.len() == 0 {
                Reply::nothing_pending(DELETION_REPLY)
            } else {
                Reply {
                    students_empty: Some(0),
                    student_id: Some(v[0]),
                    ..Reply::status(DELETION_REPLY, 0)
                }
            }
        },
    }
}

/// Answers `insertsync` from the records read at the unit's path, or from `None`
/// when the stored text was not a list of records.
pub fn inserts_reply(records: Option<Vec<InsertedNewStudent>>) -> (r: Reply)
    ensures
        r@ == spec_inserts_reply(opt_records(records)),
        records matches Some(v) ==> (v.len() > 0 ==> {
            &&& r.message_type == 2
            &&& opt_text(r.student_unit_id) == Some(v[0].student_unit_id@)
            &&& opt_text(r.fingerprint_data) == Some(v[0].fingerprint_data@)
        }),
{
    match records {
        None => Reply::failure(ENROLMENT_REPLY, UNREADABLE),
        Some(v) => {
            if v.len() == 0 {
                Reply::nothing_pending(ENROLMENT_REPLY)
            } else {
                let ghost views = v@.map_values(|r: InsertedNewStudent| r@);
                assert(views[0] == v@[0]@);
                let first = &v[0];
                Reply {
                    students_empty: Some(0),
                    student_unit_id: Some(first.student_unit_id.clone()),
                    fingerprint_data: Some(first.fingerprint_data.clone()),
                    ..Reply::status(ENROLMENT_REPLY, 0)
                }
            }
        },
    }
}

} // verus!
