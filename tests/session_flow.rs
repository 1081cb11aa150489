use study_core::error::AppError;
use study_core::generation::extract_json_block;
use study_core::ledger::{ProcessedDocument, ProcessingStatus};
use study_core::plan::{StudyPlanContent, StudyPlanTopic};
use study_core::session::{valid_topic_status, ChatKind, ChatType, MessageRole, SessionStage, StudySession, UpdateSessionInput};
use study_core::welcome::WelcomeContext;

const OWNER: u64 = 7;

fn content(titles: &[&str]) -> StudyPlanContent {
    StudyPlanContent {
        topics: titles
            .iter()
            .enumerate()
            .map(|(i, t)| StudyPlanTopic {
                id: format!("topic-{}", i + 1),
                title: t.to_string(),
                description: format!("About {}", t),
                status: "need_to_learn".to_string(),
            })
            .collect(),
    }
}

fn titles(c: &StudyPlanContent) -> Vec<String> {
    c.topics.iter().map(|t| t.title.clone()).collect()
}

fn session_with_completed_document() -> StudySession {
    let mut s = StudySession::new(1, OWNER, "Calculus".to_string(), None);
    let d = s.add_document(OWNER, "a.pdf".to_string(), "1/0-a.pdf".to_string()).unwrap();
    s.begin_extraction(d).unwrap();
    let doc = ProcessedDocument { extracted_text: "limits and derivatives".to_string(), page_count: 1 };
    s.finish_extraction(d, Ok(doc)).unwrap();
    s
}

fn planning_session(titles: &[&str]) -> StudySession {
    let mut s = session_with_completed_document();
    assert_eq!(s.start_planning(OWNER, Ok(content(titles))), Ok(1));
    s
}

#[test]
fn upload_then_generate_then_study() {
    let mut s = StudySession::new(1, OWNER, "Calculus".to_string(), Some("exam".to_string()));
    let d = s.add_document(OWNER, "a.pdf".to_string(), "1/0-a.pdf".to_string()).unwrap();
    assert_eq!(s.documents[d].status, ProcessingStatus::Pending);
    assert_eq!(s.start_studying(OWNER), Err(AppError::InvalidState));
    assert_eq!(s.start_planning(OWNER, Ok(content(&["x"]))), Err(AppError::InvalidState));
    s.begin_extraction(d).unwrap();
    assert_eq!(s.documents[d].status, ProcessingStatus::Processing);
    assert_eq!(s.start_planning(OWNER, Ok(content(&["x"]))), Err(AppError::InvalidState));
    let doc = ProcessedDocument { extracted_text: "page text".to_string(), page_count: 1 };
    s.finish_extraction(d, Ok(doc)).unwrap();
    assert_eq!(s.documents[d].status, ProcessingStatus::Completed);
    assert!(!s.documents[d].extracted_text.as_deref().unwrap().is_empty());
    let sources = s.generation_sources(OWNER).unwrap();
    assert_eq!(sources, vec![("a.pdf".to_string(), "page text".to_string())]);
    assert_eq!(s.start_studying(OWNER), Err(AppError::InvalidState));
    assert_eq!(s.start_planning(OWNER, Ok(content(&["x", "y"]))), Ok(1));
    assert_eq!(s.stage, SessionStage::Planning);
    assert!(s.start_studying(OWNER).is_ok());
    assert_eq!(s.stage, SessionStage::Studying);
}

#[test]
fn generation_sources_need_completed_document() {
    let mut s = StudySession::new(1, OWNER, "t".to_string(), None);
    let d = s.add_document(OWNER, "a.pdf".to_string(), "p".to_string()).unwrap();
    assert!(matches!(s.generation_sources(OWNER), Err(AppError::InvalidState)));
    s.begin_extraction(d).unwrap();
    s.finish_extraction(d, Err(AppError::UpstreamFailure)).unwrap();
    assert!(matches!(s.generation_sources(OWNER), Err(AppError::InvalidState)));
    assert!(matches!(s.generation_sources(OWNER + 1), Err(AppError::NotFound)));
}

#[test]
fn failed_generation_persists_nothing() {
    let mut s = session_with_completed_document();
    assert_eq!(s.start_planning(OWNER, Err(AppError::MalformedGeneration)), Err(AppError::MalformedGeneration));
    assert_eq!(s.plans.len(), 0);
    assert_eq!(s.stage, SessionStage::Uploading);
    assert!(s.draft.is_none());
    assert_eq!(s.start_planning(OWNER, Err(AppError::UpstreamFailure)), Err(AppError::UpstreamFailure));
    assert_eq!(s.plans.len(), 0);
}

#[test]
fn other_owner_sees_nothing() {
    let mut s = planning_session(&["a"]);
    assert_eq!(s.start_studying(OWNER + 1), Err(AppError::NotFound));
    assert!(matches!(s.undo_study_plan(OWNER + 1), Err(AppError::NotFound)));
    assert_eq!(s.revise_study_plan(OWNER + 1, "x".to_string(), Ok(content(&["b"]))), Err(AppError::NotFound));
    assert_eq!(s.add_document(OWNER + 1, "b.pdf".to_string(), "p".to_string()), Err(AppError::NotFound));
    assert!(matches!(s.revision_source(OWNER + 1), Err(AppError::NotFound)));
    assert_eq!(s.stage, SessionStage::Planning);
    assert_eq!(s.plans.len(), 1);
}

#[test]
fn materialize_creates_topics_and_chats() {
    let mut s = planning_session(&["Limits", "Derivatives", "Integrals"]);
    let chats = s.start_studying(OWNER).unwrap();
    assert_eq!(chats, vec![0, 1, 2, 3]);
    assert_eq!(s.topics.len(), 3);
    assert_eq!(s.chats.len(), 4);
    assert!(s.draft.is_none());
    assert_eq!(s.stage, SessionStage::Studying);
    for (i, t) in s.topics.iter().enumerate() {
        assert_eq!(t.order_index, i);
        assert!(!t.is_completed);
    }
    assert_eq!(s.topics[1].title, "Derivatives");
    assert_eq!(s.topics[1].description, "About Derivatives");
    for i in 0..3 {
        assert_eq!(s.chats[i].kind, ChatKind::TopicSpecific { topic: i });
        assert_eq!(s.chats[i].kind.chat_type(), ChatType::TopicSpecific);
        assert!(!s.chats[i].is_started);
    }
    assert_eq!(s.chats[3].kind, ChatKind::GeneralReview);
    assert_eq!(s.chats[3].kind.chat_type(), ChatType::GeneralReview);
    assert_eq!(s.plans.len(), 1);
}

#[test]
fn materialize_empty_draft() {
    let mut s = planning_session(&[]);
    assert_eq!(s.start_studying(OWNER), Ok(vec![0]));
    assert_eq!(s.topics.len(), 0);
    assert_eq!(s.chats.len(), 1);
    assert_eq!(s.chats[0].kind, ChatKind::GeneralReview);
}

#[test]
fn second_start_studying_has_no_side_effects() {
    let mut s = planning_session(&["a", "b"]);
    s.start_studying(OWNER).unwrap();
    assert_eq!(s.start_studying(OWNER), Err(AppError::InvalidState));
    assert_eq!(s.topics.len(), 2);
    assert_eq!(s.chats.len(), 3);
    assert_eq!(s.stage, SessionStage::Studying);
}

#[test]
fn undo_on_session_refuses_version_one() {
    let mut s = planning_session(&["a"]);
    assert!(matches!(s.undo_study_plan(OWNER), Err(AppError::InvalidState)));
    assert_eq!(s.plans.len(), 1);
    assert_eq!(titles(s.draft.as_ref().unwrap()), vec!["a"]);
}

#[test]
fn generate_revise_undo_restores_first_version() {
    let mut s = planning_session(&["Intro", "Limits", "Continuity", "Derivatives"]);
    let before = s.revision_source(OWNER).unwrap();
    let merged = content(&["Intro", "Limits and Continuity", "Derivatives"]);
    assert_eq!(s.revise_study_plan(OWNER, "merge topics 2 and 3".to_string(), Ok(merged)), Ok(2));
    assert_eq!(titles(s.draft.as_ref().unwrap()), vec!["Intro", "Limits and Continuity", "Derivatives"]);
    assert_eq!(
        s.plans.get_current_plan().unwrap().instruction.as_deref(),
        Some("merge topics 2 and 3")
    );
    let restored = s.undo_study_plan(OWNER).ok().unwrap();
    assert_eq!(restored.version, 1);
    assert_eq!(titles(&restored.content), titles(&before));
    for (a, b) in restored.content.topics.iter().zip(before.topics.iter()) {
        assert_eq!(a.id, b.id);
        assert_eq!(a.title, b.title);
        assert_eq!(a.description, b.description);
        assert_eq!(a.status, b.status);
    }
    assert_eq!(titles(s.draft.as_ref().unwrap()), titles(&before));
}

#[test]
fn revise_after_undo_reuses_version() {
    let mut s = planning_session(&["a"]);
    assert_eq!(s.revise_study_plan(OWNER, "2".to_string(), Ok(content(&["b"]))), Ok(2));
    assert_eq!(s.revise_study_plan(OWNER, "3".to_string(), Ok(content(&["c"]))), Ok(3));
    let prev = s.undo_study_plan(OWNER).ok().unwrap();
    assert_eq!(prev.version, 2);
    assert_eq!(s.revise_study_plan(OWNER, "3 again".to_string(), Ok(content(&["d"]))), Ok(3));
}

#[test]
fn failed_revision_keeps_plan() {
    let mut s = planning_session(&["a"]);
    assert_eq!(
        s.revise_study_plan(OWNER, "x".to_string(), Err(AppError::MalformedGeneration)),
        Err(AppError::MalformedGeneration)
    );
    assert_eq!(s.plans.len(), 1);
    let mut fresh = session_with_completed_document();
    assert_eq!(fresh.revise_study_plan(OWNER, "x".to_string(), Ok(content(&["b"]))), Err(AppError::InvalidState));
}

#[test]
fn revision_while_studying_leaves_draft_empty() {
    let mut s = planning_session(&["a"]);
    s.start_studying(OWNER).unwrap();
    assert_eq!(s.revise_study_plan(OWNER, "more".to_string(), Ok(content(&["a", "b"]))), Ok(2));
    assert!(s.draft.is_none());
    assert_eq!(s.stage, SessionStage::Studying);
}

#[test]
fn welcome_fan_out_isolates_failures() {
    let mut s = planning_session(&["a", "b"]);
    let chats = s.start_studying(OWNER).unwrap();
    assert_eq!(chats.len(), 3);
    assert!(s.record_welcome(chats[2], Some("Welcome to review".to_string())));
    assert!(!s.record_welcome(chats[0], None));
    assert!(s.record_welcome(chats[1], Some("Welcome to b".to_string())));
    assert!(!s.chats[0].is_started);
    assert!(s.chats[0].messages.is_empty());
    assert!(s.chats[1].is_started);
    assert_eq!(s.chats[1].messages.len(), 1);
    assert_eq!(s.chats[1].messages[0].role, MessageRole::Assistant);
    assert_eq!(s.chats[1].messages[0].content, "Welcome to b");
    assert!(s.chats[2].is_started);
    assert_eq!(s.chats[2].messages[0].content, "Welcome to review");
    assert_eq!(s.stage, SessionStage::Studying);
    assert_eq!(s.topics.len(), 2);
}

#[test]
fn welcome_after_user_message_is_dropped() {
    let mut s = planning_session(&["a"]);
    s.start_studying(OWNER).unwrap();
    assert_eq!(s.send_user_message(OWNER, 0, "hi".to_string()), Ok(()));
    assert!(s.chats[0].is_started);
    assert!(!s.record_welcome(0, Some("Welcome".to_string())));
    assert_eq!(s.chats[0].messages.len(), 1);
    assert_eq!(s.chats[0].messages[0].role, MessageRole::User);
    assert!(!s.record_welcome(9, Some("x".to_string())));
    assert_eq!(s.send_user_message(OWNER, 9, "x".to_string()), Err(AppError::NotFound));
    assert_eq!(s.send_user_message(OWNER + 1, 0, "x".to_string()), Err(AppError::NotFound));
}

#[test]
fn welcome_contexts() {
    let mut s = planning_session(&["Limits", "Series"]);
    s.start_studying(OWNER).unwrap();
    s.topics[1].is_completed = true;
    match s.welcome_context(1) {
        Some(WelcomeContext::Topic { title }) => assert_eq!(title, "Series"),
        _ => panic!("expected a topic context"),
    }
    match s.welcome_context(2) {
        Some(WelcomeContext::Review { completed, total }) => {
            assert_eq!(completed, 1);
            assert_eq!(total, 2);
        }
        _ => panic!("expected a review context"),
    }
    assert!(s.welcome_context(3).is_none());
}

#[test]
fn extraction_index_out_of_range() {
    let mut s = StudySession::new(1, OWNER, "t".to_string(), None);
    assert_eq!(s.begin_extraction(0), Err(AppError::NotFound));
    assert_eq!(s.finish_extraction(0, Err(AppError::UpstreamFailure)), Err(AppError::NotFound));
}

#[test]
fn fenced_reply_round_trip_into_plan_text() {
    let reply = "```json\n{\"topics\": [{\"id\": \"topic-1\"}]}\n```";
    assert_eq!(extract_json_block(reply), "{\"topics\": [{\"id\": \"topic-1\"}]}");
}

#[test]
fn stored_names_round_trip() {
    assert_eq!(SessionStage::from_name("planning"), SessionStage::Planning);
    assert_eq!(SessionStage::from_name("studying"), SessionStage::Studying);
    assert_eq!(SessionStage::from_name("whatever"), SessionStage::Uploading);
    assert_eq!(SessionStage::Studying.as_str(), "studying");
    assert_eq!(MessageRole::from_name("assistant"), MessageRole::Assistant);
    assert_eq!(MessageRole::from_name("system"), MessageRole::System);
    assert_eq!(MessageRole::from_name("bot"), MessageRole::User);
    assert_eq!(MessageRole::Assistant.as_str(), "assistant");
    assert_eq!(ChatType::TopicSpecific.as_str(), "TOPIC_SPECIFIC");
    assert_eq!(ChatType::GeneralReview.as_str(), "GENERAL_REVIEW");
}

#[test]
fn session_metadata_update() {
    let mut s = StudySession::new(3, OWNER, "Old".to_string(), Some("d".to_string()));
    let input = UpdateSessionInput { title: Some("New".to_string()), description: None };
    assert_eq!(s.update_session(OWNER, input), Ok(()));
    assert_eq!(s.title, "New");
    assert_eq!(s.description.as_deref(), Some("d"));
    let input = UpdateSessionInput { title: None, description: Some("e".to_string()) };
    assert_eq!(s.update_session(OWNER, input), Ok(()));
    assert_eq!(s.title, "New");
    assert_eq!(s.description.as_deref(), Some("e"));
    let input = UpdateSessionInput { title: Some("X".to_string()), description: None };
    assert_eq!(s.update_session(OWNER + 1, input), Err(AppError::NotFound));
    assert_eq!(s.title, "New");
}

#[test]
fn topic_completion_and_chat_start() {
    let mut s = planning_session(&["a", "b"]);
    assert_eq!(s.update_topic_completion(OWNER, 0, true), Err(AppError::NotFound));
    s.start_studying(OWNER).unwrap();
    assert_eq!(s.update_topic_completion(OWNER, 0, true), Ok(()));
    assert!(s.topics[0].is_completed);
    assert!(!s.topics[1].is_completed);
    assert_eq!(s.update_topic_completion(OWNER, 5, true), Err(AppError::NotFound));
    assert_eq!(s.mark_chat_started(OWNER, 1), Ok(()));
    assert!(s.chats[1].is_started);
    assert!(s.chats[1].messages.is_empty());
    assert_eq!(s.mark_chat_started(OWNER + 1, 0), Err(AppError::NotFound));
    assert!(!s.chats[0].is_started);
}

#[test]
fn topic_status_on_session() {
    assert!(valid_topic_status("need_review"));
    assert!(!valid_topic_status("done"));
    let mut s = session_with_completed_document();
    assert_eq!(s.update_topic_status(OWNER, "topic-1", "know_well".to_string()), Err(AppError::InvalidState));
    s.start_planning(OWNER, Ok(content(&["a", "b"]))).unwrap();
    assert_eq!(s.update_topic_status(OWNER, "topic-1", "done".to_string()), Err(AppError::InvalidState));
    assert_eq!(s.update_topic_status(OWNER, "topic-7", "know_well".to_string()), Err(AppError::NotFound));
    assert_eq!(s.update_topic_status(OWNER, "topic-2", "know_well".to_string()), Ok(()));
    assert_eq!(s.plans.get_current_plan().unwrap().content.topics[1].status, "know_well");
    assert_eq!(s.draft.as_ref().unwrap().topics[1].status, "know_well");
    assert_eq!(s.update_topic_status(OWNER + 1, "topic-2", "need_review".to_string()), Err(AppError::NotFound));
}

#[test]
fn welcome_is_only_a_first_message() {
    let mut s = planning_session(&["a"]);
    s.start_studying(OWNER).unwrap();
    assert!(s.record_welcome(1, Some("Hello".to_string())));
    assert!(!s.record_welcome(1, Some("Again".to_string())));
    assert_eq!(s.chats[1].messages.len(), 1);
    assert_eq!(s.chats[1].messages[0].content, "Hello");
}

#[test]
fn no_welcome_context_for_started_chat() {
    let mut s = planning_session(&["a"]);
    s.start_studying(OWNER).unwrap();
    assert!(s.welcome_context(0).is_some());
    s.send_user_message(OWNER, 0, "hi".to_string()).unwrap();
    assert!(s.welcome_context(0).is_none());
    assert!(s.record_welcome(1, Some("Hello".to_string())));
    assert!(s.welcome_context(1).is_none());
}
