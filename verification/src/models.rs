use vstd::prelude::*;

verus! {

/// Body of a `<unit>/connected` message.
#[derive(Clone, Debug, PartialEq, Eq)]
pub struct UnitConnectedRequest {
    pub uid: String,
}

/// Body of a `<unit>/disconnected` message.
#[derive(Clone, Debug, PartialEq, Eq)]
pub struct UnitDisconnectedRequest {
    pub uid: String,
}

/// Body of an insert-synchronisation acknowledgement.
#[derive(Clone, Debug, PartialEq, Eq)]
pub struct InsertSyncAckRequest {
    pub dlen: i32,
}

/// One pending enrolment kept in the inserts document of the store.
#[derive(Clone, Debug, PartialEq, Eq)]
pub struct InsertedNewStudent {
    pub student_unit_id: String,
    pub fingerprint_data: String,
}

/// Mathematical value of an enrolment record.
pub struct StudentView {
    pub student_unit_id: Seq<char>,
    pub fingerprint_data: Seq<char>,
}

impl View for InsertedNewStudent {
    type V = StudentView;

    open spec fn view(&self) -> StudentView {
        StudentView { student_unit_id: self.student_unit_id@, fingerprint_data: self.fingerprint_data@ }
    }
}

} // verus!
