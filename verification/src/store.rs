use vstd::prelude::*;
use crate::text::{to_uppercase, uppercase};

verus! {

/// A command for the key-value store: its name followed by its arguments.
#[derive(Clone, Debug, PartialEq, Eq)]
pub struct RedisCommand {
    pub name: String,
    pub args: Vec<String>,
}

/// Mathematical value of a store command.
pub struct RedisCommandView {
    pub name: Seq<char>,
    pub args: Seq<Seq<char>>,
}

impl View for RedisCommand {
    type V = RedisCommandView;

    open spec fn view(&self) -> RedisCommandView {
        RedisCommandView { name: self.name@, args: self.args@.map_values(|a: String| a@) }
    }
}

/// JSONPath of the first entry of the list kept for a unit: `$.<UNIT>[0]`,
/// with the unit name in upper case.
pub open spec fn unit_head_path(unit_id: Seq<char>) -> Seq<char> {
    "$."@ + uppercase(unit_id) + "[0]"@
}

/// The command `name` with the two arguments `first` and `second`.
pub open spec fn command_view(name: Seq<char>, first: Seq<char>, second: Seq<char>) -> RedisCommandView {
    RedisCommandView { name, args: seq![first, second] }
}

/// Builds `$.<key>[0]`: the first entry of the list kept under `key`.
pub fn head_path(key: &str) -> (p: String)
    ensures
        p@ == "$."@ + key@ + "[0]"@,
{
    String::from_str("$.").concat(key).concat("[0]")
}

/// Builds `$.<UNIT>[0]` for `unit_id`.
pub fn unit_head_path_of(unit_id: &str) -> (p: String)
    ensures
        p@ == unit_head_path(unit_id@),
{
    let upper = to_uppercase(unit_id);
    head_path(upper.as_str())
}

fn two_arg_command(name: &str, first: &String, second: String) -> (c: RedisCommand)
    ensures
        c@ == command_view(name@, first@, second@),
{
    let mut args: Vec<String> = Vec::new();
    args.push(first.clone());
    args.push(second);
    assert(args@.map_values(|a: String| a@) =~= seq![first@, second@]);
    RedisCommand { name: String::from_str(name), args }
}

/// Names of the three store entries that the service works on.
#[derive(Clone, Debug, PartialEq, Eq)]
pub struct RedisService {
    /// List that attendance log lines are pushed onto.
    pub attendence_list_name: String,
    /// JSON document holding, per unit, the students still to enrol.
    pub insert_json_name: String,
    /// JSON document holding, per unit, the students still to forget.
    pub delete_json_name: String,
}

/// Mathematical value of the store entry names.
pub struct StoreNames {
    pub attendence_list_name: Seq<char>,
    pub insert_json_name: Seq<char>,
    pub delete_json_name: Seq<char>,
}

impl View for RedisService {
    type V = StoreNames;

    open spec fn view(&self) -> StoreNames {
        StoreNames {
            attendence_list_name: self.attendence_list_name@,
            insert_json_name: self.insert_json_name@,
            delete_json_name: self.delete_json_name@,
        }
    }
}

/// Reads the first pending deletion of a unit.
pub open spec fn spec_get_user_from_deletes(names: StoreNames, unit_id: Seq<char>) -> RedisCommandView {
    command_view("JSON.GET"@, names.delete_json_name, unit_head_path(unit_id))
}

/// Reads the first pending enrolment of a unit.
pub open spec fn spec_get_user_from_inserts(names: StoreNames, unit_id: Seq<char>) -> RedisCommandView {
    command_view("JSON.GET"@, names.insert_json_name, unit_head_path(unit_id))
}

/// Drops the first pending enrolment of a unit.
pub open spec fn spec_remove_user_from_inserts(names: StoreNames, unit_id: Seq<char>) -> RedisCommandView {
    command_view("JSON.DEL"@, names.insert_json_name, unit_head_path(unit_id))
}

/// Drops the first pending deletion of a unit.
pub open spec fn spec_remove_user_from_deletes(names: StoreNames, unit_id: Seq<char>) -> RedisCommandView {
    command_view("JSON.DEL"@, names.delete_json_name, unit_head_path(unit_id))
}

/// Pushes a log line onto the front of the attendance list.
pub open spec fn spec_insert_attendence_log(names: StoreNames, log: Seq<char>) -> RedisCommandView {
    command_view("LPUSH"@, names.attendence_list_name, log)
}

impl RedisService {
    /// Gathers the entry names.
    pub fn new(attendence_list_name: String, insert_json_name: String, delete_json_name: String) -> (s: Self)
        ensures
            s@ == (StoreNames {
                attendence_list_name: attendence_list_name@,
                insert_json_name: insert_json_name@,
                delete_json_name: delete_json_name@,
            }),
    {
        RedisService { attendence_list_name, insert_json_name, delete_json_name }
    }

    /// `JSON.GET <deletes> $.<UNIT>[0]`: the student a unit should forget next.
    pub fn get_user_from_deletes(&self, unit_id: String) -> (c: RedisCommand)
        ensures
            c@ == spec_get_user_from_deletes(self@, unit_id@),
    {
        let path = unit_head_path_of(unit_id.as_str());
        two_arg_command("JSON.GET", &self.delete_json_name, path)
    }

    /// `JSON.GET <inserts> $.<UNIT>[0]`: the student a unit should enrol next.
    pub fn get_user_from_inserts(&self, unit_id: String) -> (c: RedisCommand)
        ensures
            c@ == spec_get_user_from_inserts(self@, unit_id@),
    {
        let path = unit_head_path_of(unit_id.as_str());
        two_arg_command("JSON.GET", &self.insert_json_name, path)
    }

    /// `JSON.DEL <inserts> $.<UNIT>[0]`: the unit enrolled the student it was given.
    pub fn remove_user_from_inserts(&self, unit_id: String) -> (c: RedisCommand)
        ensures
            c@ == spec_remove_user_from_inserts(self@, unit_id@),
    {
        let path = unit_head_path_of(unit_id.as_str());
        two_arg_command("JSON.DEL", &self.insert_json_name, path)
    }

    /// `JSON.DEL <deletes> $.<UNIT>[0]`: the unit forgot the student it was given.
    pub fn remove_user_from_deletes(&self, unit_id: String) -> (c: RedisCommand)
        ensures
            c@ == spec_remove_user_from_deletes(self@, unit_id@),
    {
        let path = unit_head_path_of(unit_id.as_str());
        two_arg_command("JSON.DEL", &self.delete_json_name, path)
    }

    /// `LPUSH <attendance> <log>`: records one attendance line as sent by a unit.
    pub fn insert_attendence_log(&self, log: String) -> (c: RedisCommand)
        ensures
            c@ == spec_insert_attendence_log(self@, log@),
            c@.name == "LPUSH"@,
            c@.args == seq![self.attendence_list_name@, log@],
    {
        two_arg_command("LPUSH", &self.attendence_list_name, log)
    }
}

} // verus!
