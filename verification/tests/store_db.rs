use biometric_gateway::db::{check_unit_is_valid, touched_one_row, update_unit_state, SqlParam};
use biometric_gateway::store::{unit_head_path_of, RedisService};

fn service() -> RedisService {
    RedisService::new("attendance".to_string(), "inserts".to_string(), "deletes".to_string())
}

#[test]
fn head_path_upper_cases_the_unit() {
    assert_eq!(unit_head_path_of("ab12"), "$.AB12[0]");
}

#[test]
fn head_path_uses_unicode_upper_case() {
    assert_eq!(unit_head_path_of("straße"), "$.STRASSE[0]");
}

#[test]
fn read_deletes_command() {
    let c = service().get_user_from_deletes("ab12".to_string());
    assert_eq!(c.name, "JSON.GET");
    assert_eq!(c.args, vec!["deletes".to_string(), "$.AB12[0]".to_string()]);
}

#[test]
fn read_inserts_command() {
    let c = service().get_user_from_inserts("u9".to_string());
    assert_eq!(c.name, "JSON.GET");
    assert_eq!(c.args, vec!["inserts".to_string(), "$.U9[0]".to_string()]);
}

#[test]
fn remove_inserts_command() {
    let c = service().remove_user_from_inserts("u9".to_string());
    assert_eq!(c.name, "JSON.DEL");
    assert_eq!(c.args, vec!["inserts".to_string(), "$.U9[0]".to_string()]);
}

#[test]
fn remove_deletes_command() {
    let c = service().remove_user_from_deletes("u9".to_string());
    assert_eq!(c.name, "JSON.DEL");
    assert_eq!(c.args, vec!["deletes".to_string(), "$.U9[0]".to_string()]);
}

#[test]
fn attendance_log_is_pushed_as_sent() {
    let c = service().insert_attendence_log("{\"sid\":4,\"t\":\"a\"}".to_string());
    assert_eq!(c.name, "LPUSH");
    assert_eq!(c.args, vec!["attendance".to_string(), "{\"sid\":4,\"t\":\"a\"}".to_string()]);
}

#[test]
fn ack_removes_the_entry_the_sync_read() {
    let s = service();
    assert_eq!(s.get_user_from_deletes("k".to_string()).args, s.remove_user_from_deletes("k".to_string()).args);
    assert_eq!(s.get_user_from_inserts("k".to_string()).args, s.remove_user_from_inserts("k".to_string()).args);
}

#[test]
fn unit_lookup_statement() {
    let q = check_unit_is_valid("u7".to_string());
    assert_eq!(q.sql, "SELECT 1 FROM biometric WHERE (unit_id=$1)");
    assert_eq!(q.params, vec![SqlParam::Text("U7".to_string())]);
}

#[test]
fn unit_state_statement() {
    let q = update_unit_state("u7".to_string(), true);
    assert_eq!(q.sql, "UPDATE biometric SET online=$1 WHERE unit_id=$2");
    assert_eq!(q.params, vec![SqlParam::Bool(true), SqlParam::Text("U7".to_string())]);
    let q = update_unit_state("u7".to_string(), false);
    assert_eq!(q.params, vec![SqlParam::Bool(false), SqlParam::Text("U7".to_string())]);
}

#[test]
fn one_row_means_found() {
    assert!(touched_one_row(1));
    assert!(!touched_one_row(0));
    assert!(!touched_one_row(2));
}

#[test]
fn head_path_of_a_stored_key() {
    assert_eq!(biometric_gateway::store::head_path("KEY"), "$.KEY[0]");
    assert_eq!(biometric_gateway::store::head_path(""), "$.[0]");
}

#[test]
fn statements_on_stored_ids() {
    let q = biometric_gateway::db::unit_lookup("AB".to_string());
    assert_eq!(q.sql, "SELECT 1 FROM biometric WHERE (unit_id=$1)");
    assert_eq!(q.params, vec![SqlParam::Text("AB".to_string())]);
    let q = biometric_gateway::db::unit_state_change("AB".to_string(), false);
    assert_eq!(q.sql, "UPDATE biometric SET online=$1 WHERE unit_id=$2");
    assert_eq!(q.params, vec![SqlParam::Bool(false), SqlParam::Text("AB".to_string())]);
}
