use chat_hub::Task;
use chat_hub::TaskUpdate;
use chat_hub::default_priority;

fn sample_task() -> Task {
    Task {
        id: "t1".to_string(),
        title: "write".to_string(),
        description: "write the report".to_string(),
        status: "open".to_string(),
        priority: 2,
        created_at: 100,
        updated_at: 100,
    }
}

#[test]
fn default_priority_is_one() {
    assert_eq!(default_priority(), 1);
}

#[test]
fn apply_update_merges_given_fields_only() {
    let t = sample_task();
    let u = TaskUpdate {
        title: Some("rewrite".to_string()),
        description: None,
        status: Some("done".to_string()),
        priority: None,
    };
    let r = t.apply_update(u, 200);
    assert_eq!(r.id, "t1");
    assert_eq!(r.title, "rewrite");
    assert_eq!(r.description, "write the report");
    assert_eq!(r.status, "done");
    assert_eq!(r.priority, 2);
    assert_eq!(r.created_at, 100);
    assert_eq!(r.updated_at, 200);
}

#[test]
fn apply_update_with_nothing_given_only_touches_updated_at() {
    let t = sample_task();
    let u = TaskUpdate { title: None, description: None, status: None, priority: None };
    let r = t.apply_update(u, 300);
    assert_eq!(r.title, "write");
    assert_eq!(r.description, "write the report");
    assert_eq!(r.status, "open");
    assert_eq!(r.priority, 2);
    assert_eq!(r.created_at, 100);
    assert_eq!(r.updated_at, 300);
}
