use voxie::errors::AppError;
use voxie::history::{clone_history, delete_history_item, push_history, HistoryItem};
use voxie::settings::TranscriptionMode;

fn item(id: &str, text: &str) -> HistoryItem {
    HistoryItem {
        id: id.to_string(),
        text: text.to_string(),
        timestamp: 1700000000,
        duration_ms: 1500,
        mode: TranscriptionMode::Local,
        model_name: None,
    }
}

#[test]
fn history_bound_evicts_oldest() {
    let max = 3;
    let mut h: Vec<HistoryItem> = Vec::new();
    for k in 0..max + 1 {
        push_history(&mut h, item(&format!("id{}", k), &format!("text{}", k)), max);
    }
    // max + 1 insertions under a cap of max keep exactly max, newest first
    assert_eq!(h.len(), max);
    assert_eq!(h[0].id, "id3");
    assert_eq!(h[1].id, "id2");
    assert_eq!(h[2].id, "id1");
    // the oldest is gone
    assert!(h.iter().all(|it| it.id != "id0"));
}

#[test]
fn history_cap_of_zero_keeps_nothing() {
    let mut h: Vec<HistoryItem> = Vec::new();
    push_history(&mut h, item("a", "x"), 0);
    assert!(h.is_empty());
}

#[test]
fn delete_removes_exactly_the_named_item() {
    let mut h: Vec<HistoryItem> = Vec::new();
    push_history(&mut h, item("a", "one"), 10);
    push_history(&mut h, item("b", "two"), 10);
    push_history(&mut h, item("c", "three"), 10);
    assert_eq!(delete_history_item(&mut h, "b"), Ok(()));
    assert_eq!(h.len(), 2);
    assert_eq!(h[0].id, "c");
    assert_eq!(h[1].id, "a");
}

#[test]
fn delete_unknown_id_is_refused_and_changes_nothing() {
    let mut h: Vec<HistoryItem> = Vec::new();
    push_history(&mut h, item("a", "one"), 10);
    assert_eq!(
        delete_history_item(&mut h, "zz"),
        Err(AppError::HistoryItemNotFound)
    );
    assert_eq!(h.len(), 1);
    assert_eq!(h[0].id, "a");
}

#[test]
fn clone_copies_every_field() {
    let mut h: Vec<HistoryItem> = Vec::new();
    push_history(&mut h, item("a", "one"), 10);
    push_history(&mut h, item("b", "two"), 10);
    let c = clone_history(&h);
    assert_eq!(c.len(), 2);
    assert_eq!(c[0].id, "b");
    assert_eq!(c[0].text, "two");
    assert_eq!(c[0].timestamp, 1700000000);
    assert_eq!(c[0].duration_ms, 1500);
    assert_eq!(c[1].id, "a");
}
