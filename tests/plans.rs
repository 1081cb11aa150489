use study_core::error::AppError;
use study_core::plan::{StudyPlanContent, StudyPlanTopic};
use study_core::revisions::RevisionLog;

fn content(titles: &[&str]) -> StudyPlanContent {
    StudyPlanContent {
        topics: titles
            .iter()
            .enumerate()
            .map(|(i, t)| StudyPlanTopic {
                id: format!("topic-{}", i + 1),
                title: t.to_string(),
                description: format!("About {}", t),
                status: "need_to_learn".to_string(),
            })
            .collect(),
    }
}

fn titles(c: &StudyPlanContent) -> Vec<String> {
    c.topics.iter().map(|t| t.title.clone()).collect()
}

fn log_with(versions: usize) -> RevisionLog {
    let mut log = RevisionLog::new();
    log.create_study_plan(content(&["v1"])).unwrap();
    for v in 2..=versions {
        log.create_plan_version(content(&[&format!("v{}", v)]), format!("edit {}", v)).unwrap();
    }
    log
}

#[test]
fn first_plan_is_version_one() {
    let mut log = RevisionLog::new();
    assert!(log.get_current_plan().is_none());
    assert_eq!(log.create_study_plan(content(&["a", "b"])), Ok(1));
    let cur = log.get_current_plan().unwrap();
    assert_eq!(cur.version, 1);
    assert!(cur.instruction.is_none());
    assert_eq!(titles(&cur.content), vec!["a", "b"]);
    assert_eq!(log.create_study_plan(content(&["c"])), Err(AppError::InvalidState));
    assert_eq!(log.len(), 1);
}

#[test]
fn revision_of_empty_log_is_version_one() {
    let mut log = RevisionLog::new();
    assert_eq!(log.create_plan_version(content(&["a"]), "x".to_string()), Ok(1));
    assert_eq!(log.len(), 1);
    assert_eq!(log.get_current_plan().unwrap().instruction.as_deref(), Some("x"));
}

#[test]
fn revisions_number_from_current_max() {
    let mut log = log_with(1);
    assert_eq!(log.create_plan_version(content(&["b"]), "add b".to_string()), Ok(2));
    assert_eq!(log.create_plan_version(content(&["c"]), "add c".to_string()), Ok(3));
    let cur = log.get_current_plan().unwrap();
    assert_eq!(cur.version, 3);
    assert_eq!(cur.instruction.as_deref(), Some("add c"));
}

#[test]
fn undo_refuses_initial_plan() {
    let mut log = log_with(1);
    assert!(matches!(log.delete_latest_version(), Err(AppError::InvalidState)));
    assert_eq!(log.len(), 1);
    let mut empty = RevisionLog::new();
    assert!(matches!(empty.delete_latest_version(), Err(AppError::InvalidState)));
}

#[test]
fn undo_from_three_leaves_two() {
    let mut log = log_with(3);
    let prev = log.delete_latest_version().ok().unwrap();
    assert_eq!(prev.version, 2);
    assert_eq!(titles(&prev.content), vec!["v2"]);
    assert_eq!(log.len(), 2);
    assert!(log.get_plan_by_version(3).is_none());
    assert_eq!(titles(&log.get_plan_by_version(1).unwrap().content), vec!["v1"]);
    assert_eq!(log.get_current_plan().unwrap().version, 2);
}

#[test]
fn version_reused_after_undo() {
    let mut log = log_with(3);
    log.delete_latest_version().ok().unwrap();
    assert_eq!(log.create_plan_version(content(&["again"]), "redo".to_string()), Ok(3));
    let history = log.get_plan_history();
    let versions: Vec<u32> = history.iter().map(|p| p.version).collect();
    assert_eq!(versions, vec![3, 2, 1]);
    assert_eq!(titles(&history[0].content), vec!["again"]);
}

#[test]
fn history_is_most_recent_first() {
    let log = log_with(4);
    let versions: Vec<u32> = log.get_plan_history().iter().map(|p| p.version).collect();
    assert_eq!(versions, vec![4, 3, 2, 1]);
    assert!(RevisionLog::new().get_plan_history().is_empty());
}

#[test]
fn plan_lookup_by_version() {
    let log = log_with(2);
    assert!(log.get_plan_by_version(0).is_none());
    assert_eq!(log.get_plan_by_version(2).unwrap().version, 2);
    assert!(log.get_plan_by_version(5).is_none());
}

#[test]
fn topic_status_update_in_current_plan() {
    let mut log = RevisionLog::new();
    log.create_study_plan(content(&["a", "b"])).unwrap();
    assert_eq!(log.update_topic_status("topic-2", "know_well".to_string()), Ok(()));
    let cur = log.get_current_plan().unwrap();
    assert_eq!(cur.content.topics[1].status, "know_well");
    assert_eq!(cur.content.topics[0].status, "need_to_learn");
    assert_eq!(log.update_topic_status("topic-9", "know_well".to_string()), Err(AppError::NotFound));
    let mut empty = RevisionLog::new();
    assert_eq!(empty.update_topic_status("topic-1", "know_well".to_string()), Err(AppError::InvalidState));
}

#[test]
fn duplicate_is_equal() {
    let c = content(&["x", "y"]);
    let d = c.duplicate();
    assert_eq!(titles(&c), titles(&d));
    assert_eq!(d.topics[1].id, "topic-2");
}
