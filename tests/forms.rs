use std::collections::HashMap;

use form_store::error::FormError;
use form_store::forms::{
    database_url, delete_form, form_id, get_form, get_forms, hello, needs_insert, plan_save,
    save_form, saved, FormRequest, StoredRow,
};

fn value(text: &str) -> serde_json::Value {
    serde_json::from_str(text).unwrap()
}

fn row(uuid: &str, data: &str, updated_at: &str) -> StoredRow {
    StoredRow {
        uuid: Some(uuid.to_string()),
        data: data.to_string(),
        updated_at: updated_at.to_string(),
    }
}

/// Runs a save against a map that stands for the table, as the service runs
/// it against the database: update by identifier, insert if nothing changed.
fn run_save(table: &mut HashMap<String, (String, String)>, uuid: Option<String>, data: &str, now: &str) -> String {
    let plan = save_form(FormRequest { uuid, data: value(data) }).unwrap();
    let affected: u64 = match table.get_mut(&plan.uuid) {
        Some(entry) => {
            *entry = (plan.data.clone(), now.to_string());
            1
        }
        None => 0,
    };
    if needs_insert(affected) {
        assert!(!table.contains_key(&plan.uuid));
        table.insert(plan.uuid.clone(), (plan.data.clone(), now.to_string()));
    }
    saved(plan).uuid
}

#[test]
fn status_of_not_found_is_404() {
    assert_eq!(FormError::FormNotFound.status(), 404);
}

#[test]
fn status_of_other_errors_is_500() {
    for e in [FormError::Io, FormError::Sqlx, FormError::Var, FormError::Dotenv, FormError::QueryFailed] {
        assert_eq!(e.status(), 500);
    }
}

#[test]
fn database_url_defaults_to_local_file() {
    assert_eq!(database_url(None), "sqlite:./forms.db");
    assert_eq!(database_url(Some("sqlite::memory:".to_string())), "sqlite::memory:");
}

#[test]
fn hello_passes_the_greeting_on() {
    let r = hello(Some("Hello world".to_string())).ok().unwrap();
    assert_eq!(r.hello, "Hello world");
}

#[test]
fn hello_without_a_greeting_fails() {
    let r = hello(None);
    assert_eq!(r.err(), Some(FormError::QueryFailed));
}

#[test]
fn form_id_keeps_the_given_identifier() {
    assert_eq!(form_id(Some("abc".to_string())), "abc");
}

#[test]
fn form_id_generates_distinct_uuids() {
    let a = form_id(None);
    let b = form_id(None);
    assert_eq!(a.len(), 36);
    assert_eq!(b.len(), 36);
    assert_ne!(a, b);
    assert_eq!(a.matches('-').count(), 4);
}

#[test]
fn save_form_writes_the_data_as_json_text() {
    let plan = save_form(FormRequest { uuid: Some("x1".to_string()), data: value("{\"q\": \"x\"}") }).unwrap();
    assert_eq!(plan.uuid, "x1");
    assert_eq!(plan.data, "{\"q\":\"x\"}");
    assert!(plan.updated_at.contains('T'));
}

#[test]
fn plan_save_maps_an_encoding_failure() {
    let err = serde_json::from_str::<serde_json::Value>("{").unwrap_err();
    let r = plan_save("id".to_string(), Err(err), "now".to_string());
    assert_eq!(r.err(), Some(FormError::QueryFailed));
    let ok = plan_save("id".to_string(), Ok("[1]".to_string()), "now".to_string()).ok().unwrap();
    assert_eq!((ok.uuid.as_str(), ok.data.as_str(), ok.updated_at.as_str()), ("id", "[1]", "now"));
}

#[test]
fn needs_insert_only_when_nothing_was_updated() {
    assert!(needs_insert(0));
    assert!(!needs_insert(1));
}

#[test]
fn get_form_of_missing_row_is_not_found() {
    let r = get_form(None);
    assert_eq!(r.err(), Some(FormError::FormNotFound));
}

#[test]
fn get_form_of_unreadable_row_fails() {
    let r = get_form(Some("not json".to_string()));
    assert_eq!(r.err(), Some(FormError::QueryFailed));
}

#[test]
fn get_form_reads_the_stored_value() {
    let r = get_form(Some("{\"a\":[1,2,{\"b\":null}]}".to_string())).ok().unwrap();
    assert_eq!(r.data, value("{\"a\":[1,2,{\"b\":null}]}"));
}

#[test]
fn delete_of_nothing_is_not_found() {
    let r = delete_form(0);
    assert_eq!(r.err(), Some(FormError::FormNotFound));
}

#[test]
fn delete_confirms() {
    let r = delete_form(1).ok().unwrap();
    assert_eq!(r.message, "Form deleted successfully");
}

#[test]
fn listing_skips_rows_that_are_not_json() {
    let rows = vec![
        row("c", "{\"n\":3}", "2024-01-03T00:00:00+00:00"),
        row("bad", "not json", "2024-01-02T00:00:00+00:00"),
        row("a", "[1]", "2024-01-01T00:00:00+00:00"),
    ];
    let items = get_forms(rows);
    let ids: Vec<&str> = items.iter().map(|i| i.uuid.as_str()).collect();
    assert_eq!(ids, vec!["c", "a"]);
    assert_eq!(items[0].data, value("{\"n\":3}"));
    assert_eq!(items[1].updated_at, "2024-01-01T00:00:00+00:00");
}

#[test]
fn listing_of_nothing_is_empty() {
    assert!(get_forms(Vec::new()).is_empty());
}

#[test]
fn listing_defaults_a_missing_identifier() {
    let rows = vec![StoredRow { uuid: None, data: "1".to_string(), updated_at: "t".to_string() }];
    let items = get_forms(rows);
    assert_eq!(items.len(), 1);
    assert_eq!(items[0].uuid, "");
}

#[test]
fn saved_value_reads_back_equal() {
    let mut table = HashMap::new();
    for text in ["null", "true", "-12", "1.5", "\"s\"", "[]", "{\"k\":{\"l\":[1,\"two\",false]}}"] {
        let id = run_save(&mut table, None, text, "2024-01-01T00:00:00+00:00");
        let stored = table.get(&id).map(|(d, _)| d.clone());
        let got = get_form(stored).ok().unwrap();
        assert_eq!(got.data, value(text));
    }
}

#[test]
fn saving_twice_keeps_one_row_with_the_second_data() {
    let mut table = HashMap::new();
    let id = run_save(&mut table, Some("X".to_string()), "{\"v\":1}", "2024-01-01T00:00:00+00:00");
    let again = run_save(&mut table, Some("X".to_string()), "{\"v\":2}", "2024-01-02T00:00:00+00:00");
    assert_eq!(id, again);
    assert_eq!(table.len(), 1);
    let got = get_form(table.get("X").map(|(d, _)| d.clone())).ok().unwrap();
    assert_eq!(got.data, value("{\"v\":2}"));
}

#[test]
fn deleted_form_is_not_found() {
    let mut table = HashMap::new();
    let id = run_save(&mut table, None, "{\"q\":\"x\"}", "2024-01-01T00:00:00+00:00");
    let removed: u64 = if table.remove(&id).is_some() { 1 } else { 0 };
    assert_eq!(delete_form(removed).ok().unwrap().message, "Form deleted successfully");
    let r = get_form(table.get(&id).map(|(d, _)| d.clone()));
    assert_eq!(r.err(), Some(FormError::FormNotFound));
}

#[test]
fn deleting_an_unknown_id_is_not_found() {
    let mut table: HashMap<String, (String, String)> = HashMap::new();
    let removed: u64 = if table.remove("nobody").is_some() { 1 } else { 0 };
    let r = delete_form(removed);
    assert_eq!(r.err().map(|e| e.status()), Some(404));
}

#[test]
fn updated_form_is_listed_first() {
    let mut table = HashMap::new();
    run_save(&mut table, Some("A".to_string()), "1", "2024-01-01T00:00:00+00:00");
    run_save(&mut table, Some("B".to_string()), "2", "2024-01-02T00:00:00+00:00");
    run_save(&mut table, Some("A".to_string()), "3", "2024-01-03T00:00:00+00:00");
    let mut rows: Vec<StoredRow> = table.iter().map(|(k, (d, t))| row(k, d, t)).collect();
    rows.sort_by(|x, y| y.updated_at.cmp(&x.updated_at));
    let items = get_forms(rows);
    let ids: Vec<&str> = items.iter().map(|i| i.uuid.as_str()).collect();
    assert_eq!(ids, vec!["A", "B"]);
    assert_eq!(items[0].data, value("3"));
}

#[test]
fn post_get_delete_get_scenario() {
    let mut table = HashMap::new();
    let id = run_save(&mut table, None, "{\"q\":\"x\"}", "2024-01-01T00:00:00+00:00");
    assert_eq!(id.len(), 36);
    let got = get_form(table.get(&id).map(|(d, _)| d.clone())).ok().unwrap();
    assert_eq!(got.data, value("{\"q\":\"x\"}"));
    let removed: u64 = if table.remove(&id).is_some() { 1 } else { 0 };
    assert_eq!(delete_form(removed).ok().unwrap().message, "Form deleted successfully");
    let r = get_form(table.get(&id).map(|(d, _)| d.clone()));
    assert_eq!(r.err().map(|e| e.status()), Some(404));
}

#[test]
fn greeting_scenario() {
    let name = "world";
    let r = hello(Some(format!("Hello {}", name))).ok().unwrap();
    assert_eq!(r.hello, "Hello world");
}

#[test]
fn generated_id_is_hyphenated_lowercase_hex() {
    let id = form_id(None);
    for (i, c) in id.chars().enumerate() {
        if i == 8 || i == 13 || i == 18 || i == 23 {
            assert_eq!(c, '-');
        } else {
            assert!(c.is_ascii_digit() || ('a'..='f').contains(&c));
        }
    }
}

#[test]
fn save_form_without_id_succeeds_with_a_generated_one() {
    let plan = save_form(FormRequest { uuid: None, data: value("[[[]]]") }).ok().unwrap();
    assert_eq!(plan.uuid.len(), 36);
    assert_eq!(plan.data, "[[[]]]");
}

#[test]
fn error_messages() {
    assert_eq!(FormError::FormNotFound.message(), "Form not found");
    assert_eq!(FormError::QueryFailed.message(), "Query failed");
}
