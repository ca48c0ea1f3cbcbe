use tork_rs::page::RawPageRecord;
use tork_rs::{Page, QueueInfo, RawPage, ScheduledJob, Task};

fn text(s: &str) -> Option<Vec<u8>> {
    Some(s.as_bytes().to_vec())
}

fn raw_page() -> RawPage {
    RawPage::from_c(Some(RawPageRecord {
        json_items: text(r#"[{"name":"q1","size":10},{"name":"q2","size":20}]"#),
        number: 1,
        size: 10,
        total_pages: 1,
        total_items: 2,
    }))
    .expect("record")
}

#[test]
fn raw_page_from_c_record() {
    let page = raw_page();
    assert_eq!(page.number, 1);
    assert_eq!(page.total_items, 2);
    assert_eq!(page.items_json, r#"[{"name":"q1","size":10},{"name":"q2","size":20}]"#);
    assert!(RawPage::from_c(None).is_none());
}

#[test]
fn into_typed_keeps_pagination() {
    let mut q1 = QueueInfo::default();
    q1.name = "q1".into();
    let mut q2 = QueueInfo::default();
    q2.name = "q2".into();
    let typed: Page<QueueInfo> = raw_page().into_typed(Some(vec![q1, q2])).expect("items");
    assert_eq!(typed.items.len(), 2);
    assert_eq!(typed.items[0].name, "q1");
    assert_eq!(typed.number, 1);
    assert_eq!(typed.size, 10);
    assert_eq!(typed.total_pages, 1);
    assert_eq!(typed.total_items, 2);
}

#[test]
fn into_typed_without_items_is_none() {
    let typed: Option<Page<QueueInfo>> = raw_page().into_typed(None);
    assert!(typed.is_none());
}

fn schedule(tasks_json: &str, inputs_json: &str) -> ScheduledJob {
    let mut sj = ScheduledJob::default();
    sj.id = "sj2".into();
    sj.tasks_json = tasks_json.into();
    sj.inputs_json = inputs_json.into();
    sj
}

#[test]
fn inputs_read_from_json_object() {
    let sj = schedule("", r#"{"bucket":"s3://data","region":"us-east-1"}"#);
    let inputs = sj.inputs();
    assert_eq!(inputs.len(), 2);
    assert_eq!(inputs.get("bucket").map(String::as_str), Some("s3://data"));
    assert_eq!(inputs.get("region").map(String::as_str), Some("us-east-1"));
}

#[test]
fn inputs_of_empty_or_unreadable_text_are_empty() {
    assert!(schedule("", "").inputs().is_empty());
    assert!(schedule("", "{bad").inputs().is_empty());
    assert!(schedule("", r#"{"n":1}"#).inputs().is_empty());
    assert!(schedule("", "[]").inputs().is_empty());
}

#[test]
fn tasks_follow_the_text() {
    let mut t = Task::default();
    t.name = "extract".into();
    let sj = schedule(r#"[{"name":"extract"}]"#, "");
    let tasks = sj.tasks(Some(vec![t]));
    assert_eq!(tasks.len(), 1);
    assert_eq!(tasks[0].name, "extract");
    assert!(sj.tasks(None).is_empty());
    let mut other = Task::default();
    other.name = "ignored".into();
    assert!(schedule("", "").tasks(Some(vec![other])).is_empty());
}
