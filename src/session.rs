//! A study session: its stage machine, its documents, its plan revision log
//! and draft plan, and the topics and chats that materializing the draft
//! creates.
use vstd::prelude::*;
use crate::error::AppError;
use crate::ledger::{Document, DocumentView, ProcessedDocument, ProcessingStatus, ledger_step, ledger_wf, outcome_event, LedgerEvent};
use crate::plan::{StudyPlanContent, TopicView};
use crate::revisions::{RevisionLog, RevisionView, StudyPlan, next_revision};
use crate::text::str_equal;

verus! {

/// The stage of a study session.
#[derive(Debug, Clone, Copy, PartialEq, Eq, Structural)]
pub enum SessionStage {
    /// Documents are being uploaded; no plan exists yet.
    Uploading,
    /// A plan exists and can be revised; the draft awaits materialization.
    Planning,
    /// The draft was materialized into topics and chats.
    Studying,
}

impl SessionStage {
    /// The stage stored under a name.
    pub open spec fn spec_from_name(s: Seq<char>) -> SessionStage {
        if s == "planning"@ {
            SessionStage::Planning
        } else if s == "studying"@ {
            SessionStage::Studying
        } else {
            SessionStage::Uploading
        }
    }

    /// The stage stored under a name; an unknown name reads as uploading.
    pub fn from_name(s: &str) -> (r: SessionStage)
        ensures
            r == Self::spec_from_name(s@),
    {
        if str_equal(s, "planning") {
            SessionStage::Planning
        } else if str_equal(s, "studying") {
            SessionStage::Studying
        } else {
            SessionStage::Uploading
        }
    }

    /// The stored name.
    pub open spec fn spec_name(self) -> Seq<char> {
        match self {
            SessionStage::Uploading => "uploading"@,
            SessionStage::Planning => "planning"@,
            SessionStage::Studying => "studying"@,
        }
    }

    /// The name under which the stage is stored.
    pub fn as_str(&self) -> (r: &'static str)
        ensures
            r@ == self.spec_name(),
    {
        match self {
            SessionStage::Uploading => "uploading",
            SessionStage::Planning => "planning",
            SessionStage::Studying => "studying",
        }
    }
}

/// The type of a chat.
#[derive(Debug, Clone, Copy, PartialEq, Eq, Structural)]
pub enum ChatType {
    /// A chat for learning a single topic.
    TopicSpecific,
    /// The session-wide review chat.
    GeneralReview,
}

impl ChatType {
    /// The stored name.
    pub open spec fn spec_name(self) -> Seq<char> {
        match self {
            ChatType::TopicSpecific => "TOPIC_SPECIFIC"@,
            ChatType::GeneralReview => "GENERAL_REVIEW"@,
        }
    }

    /// The name under which the chat type is stored.
    pub fn as_str(&self) -> (r: &'static str)
        ensures
            r@ == self.spec_name(),
    {
        match self {
            ChatType::TopicSpecific => "TOPIC_SPECIFIC",
            ChatType::GeneralReview => "GENERAL_REVIEW",
        }
    }
}

/// A chat's kind, carrying the topic of a topic chat.
#[derive(Debug, Clone, Copy, PartialEq, Eq, Structural)]
pub enum ChatKind {
    TopicSpecific { topic: usize },
    GeneralReview,
}

impl ChatKind {
    /// The chat type of this kind.
    pub open spec fn spec_chat_type(self) -> ChatType {
        match self {
            ChatKind::TopicSpecific { .. } => ChatType::TopicSpecific,
            ChatKind::GeneralReview => ChatType::GeneralReview,
        }
    }

    /// The chat type of this kind.
    pub fn chat_type(&self) -> (r: ChatType)
        ensures
            r == self.spec_chat_type(),
    {
        match self {
            ChatKind::TopicSpecific { .. } => ChatType::TopicSpecific,
            ChatKind::GeneralReview => ChatType::GeneralReview,
        }
    }
}

/// Who wrote a message.
#[derive(Debug, Clone, Copy, PartialEq, Eq, Structural)]
pub enum MessageRole {
    User,
    Assistant,
    System,
}

impl MessageRole {
    /// The role stored under a name.
    pub open spec fn spec_from_name(s: Seq<char>) -> MessageRole {
        if s == "assistant"@ {
            MessageRole::Assistant
        } else if s == "system"@ {
            MessageRole::System
        } else {
            MessageRole::User
        }
    }

    /// The role stored under a name; an unknown name reads as the user.
    pub fn from_name(s: &str) -> (r: MessageRole)
        ensures
            r == Self::spec_from_name(s@),
    {
        if str_equal(s, "assistant") {
            MessageRole::Assistant
        } else if str_equal(s, "system") {
            MessageRole::System
        } else {
            MessageRole::User
        }
    }

    /// The stored name.
    pub open spec fn spec_name(self) -> Seq<char> {
        match self {
            MessageRole::User => "user"@,
            MessageRole::Assistant => "assistant"@,
            MessageRole::System => "system"@,
        }
    }

    /// The name under which the role is stored.
    pub fn as_str(&self) -> (r: &'static str)
        ensures
            r@ == self.spec_name(),
    {
        match self {
            MessageRole::User => "user",
            MessageRole::Assistant => "assistant",
            MessageRole::System => "system",
        }
    }
}

/// One message of a chat.
pub struct Message {
    pub role: MessageRole,
    pub content: String,
}

/// The mathematical value of a message.
pub struct MessageView {
    pub role: MessageRole,
    pub content: Seq<char>,
}

impl View for Message {
    type V = MessageView;

    open spec fn view(&self) -> MessageView {
        MessageView { role: self.role, content: self.content@ }
    }
}

/// A topic created by materializing the draft plan.
pub struct Topic {
    pub title: String,
    pub description: String,
    /// Position in the draft plan.
    pub order_index: usize,
    pub is_completed: bool,
}

/// The mathematical value of a topic.
pub struct StudyTopicView {
    pub title: Seq<char>,
    pub description: Seq<char>,
    pub order_index: nat,
    pub is_completed: bool,
}

impl View for Topic {
    type V = StudyTopicView;

    open spec fn view(&self) -> StudyTopicView {
        StudyTopicView {
            title: self.title@,
            description: self.description@,
            order_index: self.order_index as nat,
            is_completed: self.is_completed,
        }
    }
}

/// A chat of a session.
pub struct Chat {
    pub kind: ChatKind,
    pub is_started: bool,
    pub messages: Vec<Message>,
}

/// The mathematical value of a chat.
pub struct ChatView {
    pub kind: ChatKind,
    pub started: bool,
    pub messages: Seq<MessageView>,
}

impl View for Chat {
    type V = ChatView;

    open spec fn view(&self) -> ChatView {
        ChatView {
            kind: self.kind,
            started: self.is_started,
            messages: self.messages@.map_values(|m: Message| m@),
        }
    }
}

/// The topics that materializing a draft creates, one per entry, in order.
pub open spec fn materialized_topics(draft: Seq<TopicView>) -> Seq<StudyTopicView> {
    Seq::new(
        draft.len(),
        |i: int|
            StudyTopicView {
                title: draft[i].title,
                description: draft[i].description,
                order_index: i as nat,
                is_completed: false,
            },
    )
}

/// The chats that materializing `k` topics creates: one topic chat per topic,
/// then the review chat; none started.
pub open spec fn materialized_chats(k: nat) -> Seq<ChatView> {
    Seq::new(
        k + 1,
        |i: int|
            ChatView {
                kind: if i < k {
                    ChatKind::TopicSpecific { topic: i as usize }
                } else {
                    ChatKind::GeneralReview
                },
                started: false,
                messages: Seq::empty(),
            },
    )
}

/// Materializing a draft of `K` entries yields exactly `K` topics, in draft
/// order, and `K + 1` chats: the `i`-th chat is the topic chat of the `i`-th
/// topic and the last one is the single review chat.
pub proof fn lemma_materialization_counts(draft: Seq<TopicView>)
    ensures
        materialized_topics(draft).len() == draft.len(),
        materialized_chats(draft.len()).len() == draft.len() + 1,
        forall|i: int| 0 <= i < draft.len() ==> (#[trigger] materialized_chats(draft.len())[i]).kind
            == (ChatKind::TopicSpecific { topic: i as usize }) && materialized_topics(draft)[i].order_index == i
            && materialized_topics(draft)[i].title == draft[i].title,
        materialized_chats(draft.len())[draft.len() as int].kind == ChatKind::GeneralReview,
        forall|i: int| 0 <= i < draft.len() + 1 ==> !(#[trigger] materialized_chats(draft.len())[i]).started,
        forall|i: int| 0 <= i < draft.len() ==> (#[trigger] materialized_chats(draft.len())[i]).kind
            != ChatKind::GeneralReview,
{
}

/// The (file name, text) pairs of the completed documents, in upload order.
pub open spec fn completed_sources(docs: Seq<Document>) -> Seq<(Seq<char>, Seq<char>)>
    decreases docs.len(),
{
    if docs.len() == 0 {
        Seq::empty()
    } else {
        let rest = completed_sources(docs.drop_last());
        let d = docs.last();
        if d.status == ProcessingStatus::Completed {
            rest.push((d.file_name@, d.extracted_text.unwrap()@))
        } else {
            rest
        }
    }
}

/// The metadata fields of a session that a caller may change.
pub struct UpdateSessionInput {
    pub title: Option<String>,
    pub description: Option<String>,
}

/// Whether a text is one of the three topic knowledge levels.
pub open spec fn is_topic_status(s: Seq<char>) -> bool {
    s == "need_to_learn"@ || s == "need_review"@ || s == "know_well"@
}

/// Checks a topic knowledge level.
pub fn valid_topic_status(s: &str) -> (r: bool)
    ensures
        r == is_topic_status(s@),
{
    str_equal(s, "need_to_learn") || str_equal(s, "need_review") || str_equal(s, "know_well")
}

/// A study session owned by one user.
pub struct StudySession {
    pub id: u64,
    pub owner: u64,
    pub title: String,
    pub description: Option<String>,
    pub stage: SessionStage,
    /// The plan awaiting materialization; present only while planning.
    pub draft: Option<StudyPlanContent>,
    pub plans: RevisionLog,
    pub documents: Vec<Document>,
    pub topics: Vec<Topic>,
    pub chats: Vec<Chat>,
}

impl StudySession {
    /// The lifecycle states of the documents.
    pub open spec fn docs(&self) -> Seq<DocumentView> {
        self.documents@.map_values(|d: Document| d@)
    }

    /// The values of the topics.
    pub open spec fn topics_view(&self) -> Seq<StudyTopicView> {
        self.topics@.map_values(|t: Topic| t@)
    }

    /// The values of the chats.
    pub open spec fn chats_view(&self) -> Seq<ChatView> {
        self.chats@.map_values(|c: Chat| c@)
    }

    /// The value of the draft plan.
    pub open spec fn draft_view(&self) -> Option<Seq<TopicView>> {
        match self.draft {
            Some(d) => Some(d@),
            None => None,
        }
    }

    /// Whether some document finished extraction.
    pub open spec fn has_completed_document(&self) -> bool {
        exists|i: int| 0 <= i < self.documents@.len() && #[trigger] self.documents@[i].status
            == ProcessingStatus::Completed
    }

    /// The invariant of a session.
    pub open spec fn wf(&self) -> bool {
        &&& self.plans.wf()
        &&& self.draft.is_some() ==> self.stage == SessionStage::Planning
        &&& self.stage == SessionStage::Planning ==> self.draft.is_some()
        &&& (self.plans@.len() == 0 <==> self.stage == SessionStage::Uploading)
        &&& self.stage != SessionStage::Studying ==> self.topics@.len() == 0 && self.chats@.len() == 0
        &&& forall|i: int| 0 <= i < self.chats@.len() ==> match #[trigger] self.chats@[i].kind {
            ChatKind::TopicSpecific { topic } => topic < self.topics@.len(),
            ChatKind::GeneralReview => true,
        }
        &&& forall|i: int| 0 <= i < self.chats@.len() ==> (#[trigger] self.chats@[i]).messages@.len() > 0
            ==> self.chats@[i].is_started
        &&& forall|i: int| 0 <= i < self.documents@.len() ==> ledger_wf(#[trigger] self.documents@[i]@)
    }

    /// The identity and metadata of the session are as in `other`.
    pub open spec fn same_identity(&self, other: &StudySession) -> bool {
        &&& self.id == other.id
        &&& self.owner == other.owner
        &&& self.title == other.title
        &&& self.description == other.description
    }

    /// A new session, in the uploading stage, with nothing in it.
    pub fn new(id: u64, owner: u64, title: String, description: Option<String>) -> (r: StudySession)
        ensures
            r.wf(),
            r.id == id,
            r.owner == owner,
            r.title == title,
            r.description == description,
            r.stage == SessionStage::Uploading,
            r.draft.is_none(),
            r.plans@.len() == 0,
            r.documents@.len() == 0,
            r.topics@.len() == 0,
            r.chats@.len() == 0,
    {
        StudySession {
            id,
            owner,
            title,
            description,
            stage: SessionStage::Uploading,
            draft: None,
            plans: RevisionLog::new(),
            documents: Vec::new(),
            topics: Vec::new(),
            chats: Vec::new(),
        }
    }

    /// Registers an uploaded document, pending extraction; returns its index.
    pub fn add_document(&mut self, caller: u64, file_name: String, file_path: String) -> (r: Result<usize, AppError>)
        requires
            old(self).wf(),
        ensures
            final(self).wf(),
            caller != old(self).owner ==> r == Err::<usize, AppError>(AppError::NotFound)
                && *final(self) == *old(self),
            caller == old(self).owner ==> r == Ok::<usize, AppError>(old(self).documents.len())
                && final(self).documents@.len() == old(self).documents@.len() + 1
                && final(self).documents@.drop_last() == old(self).documents@
                && final(self).documents@.last()@ == crate::ledger::uploaded()
                && final(self).documents@.last().file_name == file_name
                && final(self).documents@.last().file_path == file_path
                && final(self).same_but_documents(old(self)),
    {
        if caller != self.owner {
            return Err(AppError::NotFound);
        }
        let idx = self.documents.len();
        let doc = Document::new(idx as u64, file_name, file_path);
        self.documents.push(doc);
        assert(self.documents@.drop_last() =~= old(self).documents@);
        Ok(idx)
    }

    /// Everything but the documents is as in `other`.
    pub open spec fn same_but_documents(&self, other: &StudySession) -> bool {
        &&& self.id == other.id
        &&& self.owner == other.owner
        &&& self.title == other.title
        &&& self.description == other.description
        &&& self.stage == other.stage
        &&& self.draft == other.draft
        &&& self.plans == other.plans
        &&& self.topics == other.topics
        &&& self.chats == other.chats
    }

    /// Everything but the plan log, the draft and the stage is as in `other`.
    pub open spec fn same_but_plan(&self, other: &StudySession) -> bool {
        &&& self.id == other.id
        &&& self.owner == other.owner
        &&& self.title == other.title
        &&& self.description == other.description
        &&& self.documents == other.documents
        &&& self.topics == other.topics
        &&& self.chats == other.chats
    }

    /// Moves document `doc` from pending to processing.
    pub fn begin_extraction(&mut self, doc: usize) -> (r: Result<(), AppError>)
        requires
            old(self).wf(),
        ensures
            final(self).wf(),
            doc >= old(self).documents@.len() ==> r == Err::<(), AppError>(AppError::NotFound)
                && *final(self) == *old(self),
            doc < old(self).documents@.len() ==> {
                &&& final(self).same_but_documents(old(self))
                &&& final(self).documents@.len() == old(self).documents@.len()
                &&& forall|j: int| 0 <= j < old(self).documents@.len() && j != doc
                    ==> final(self).documents@[j] == old(self).documents@[j]
                &&& final(self).documents@[doc as int]@ == ledger_step(old(self).documents@[doc as int]@, LedgerEvent::Begin)
                &&& final(self).documents@[doc as int].file_name == old(self).documents@[doc as int].file_name
                &&& (r is Ok <==> old(self).documents@[doc as int].status == ProcessingStatus::Pending)
                &&& r is Err ==> r->Err_0 == AppError::InvalidState
            },
    {
        if doc >= self.documents.len() {
            return Err(AppError::NotFound);
        }
        let r = self.documents[doc].begin_processing();
        proof {
            crate::ledger::lemma_ledger_step(old(self).documents@[doc as int]@, LedgerEvent::Begin);
        }
        r
    }

    /// Records the outcome of the extraction pipeline for document `doc`.
    pub fn finish_extraction(&mut self, doc: usize, outcome: Result<ProcessedDocument, AppError>) -> (r: Result<(), AppError>)
        requires
            old(self).wf(),
        ensures
            final(self).wf(),
            doc >= old(self).documents@.len() ==> r == Err::<(), AppError>(AppError::NotFound)
                && *final(self) == *old(self),
            doc < old(self).documents@.len() ==> {
                &&& final(self).same_but_documents(old(self))
                &&& final(self).documents@.len() == old(self).documents@.len()
                &&& forall|j: int| 0 <= j < old(self).documents@.len() && j != doc
                    ==> final(self).documents@[j] == old(self).documents@[j]
                &&& final(self).documents@[doc as int]@ == ledger_step(old(self).documents@[doc as int]@, outcome_event(outcome))
                &&& final(self).documents@[doc as int].file_name == old(self).documents@[doc as int].file_name
                &&& (r is Ok <==> old(self).documents@[doc as int].status == ProcessingStatus::Processing)
                &&& r is Err ==> r->Err_0 == AppError::InvalidState
            },
    {
        if doc >= self.documents.len() {
            return Err(AppError::NotFound);
        }
        let ghost ev = outcome_event(outcome);
        let r = self.documents[doc].finish(outcome);
        proof {
            crate::ledger::lemma_ledger_step(old(self).documents@[doc as int]@, ev);
        }
        r
    }

    /// Whether some document finished extraction.
    fn any_completed(&self) -> (r: bool)
        ensures
            r == self.has_completed_document(),
    {
        let mut i: usize = 0;
        while i < self.documents.len()
            invariant
                i <= self.documents@.len(),
                forall|j: int| 0 <= j < i ==> self.documents@[j].status != ProcessingStatus::Completed,
            decreases self.documents@.len() - i,
        {
            if self.documents[i].is_completed() {
                return true;
            }
            i = i + 1;
        }
        false
    }

    /// The name and text of each completed document, in upload order.
    pub fn get_session_document_texts(&self, caller: u64) -> (r: Result<Vec<(String, String)>, AppError>)
        requires
            self.wf(),
        ensures
            caller != self.owner ==> r is Err && r->Err_0 == AppError::NotFound,
            caller == self.owner ==> r is Ok && r->Ok_0@.map_values(|p: (String, String)| (p.0@, p.1@))
                == completed_sources(self.documents@),
    {
        if caller != self.owner {
            return Err(AppError::NotFound);
        }
        let mut out: Vec<(String, String)> = Vec::new();
        let n = self.documents.len();
        let mut i: usize = 0;
        while i < n
            invariant
                n == self.documents@.len(),
                i <= n,
                self.wf(),
                out@.map_values(|p: (String, String)| (p.0@, p.1@)) == completed_sources(self.documents@.take(i as int)),
            decreases n - i,
        {
            let d = &self.documents[i];
            assert(self.documents@.take(i + 1).drop_last() =~= self.documents@.take(i as int));
            assert(ledger_wf(self.documents@[i as int]@));
            if d.is_completed() {
                match &d.extracted_text {
                    Some(t) => {
                        out.push((d.file_name.clone(), t.clone()));
                    },
                    None => {},
                }
            }
            assert(out@.map_values(|p: (String, String)| (p.0@, p.1@)) =~= completed_sources(self.documents@.take(i + 1)));
            i = i + 1;
        }
        assert(self.documents@.take(n as int) =~= self.documents@);
        Ok(out)
    }

    /// The name and text of each completed document, which plan generation
    /// works from. Fails unless the caller owns the session, no plan exists
    /// yet and at least one document completed extraction.
    pub fn generation_sources(&self, caller: u64) -> (r: Result<Vec<(String, String)>, AppError>)
        requires
            self.wf(),
        ensures
            caller != self.owner ==> r is Err && r->Err_0 == AppError::NotFound,
            caller == self.owner && (self.plans@.len() > 0 || !self.has_completed_document())
                ==> r is Err && r->Err_0 == AppError::InvalidState,
            caller == self.owner && self.plans@.len() == 0 && self.has_completed_document() ==> r is Ok
                && r->Ok_0@.map_values(|p: (String, String)| (p.0@, p.1@)) == completed_sources(self.documents@),
    {
        if caller != self.owner {
            return Err(AppError::NotFound);
        }
        if self.plans.len() > 0 || !self.any_completed() {
            return Err(AppError::InvalidState);
        }
        self.get_session_document_texts(caller)
    }

    /// Stores a freshly generated plan as version 1 and its draft, and moves
    /// the session to the planning stage. `generated` is the outcome of the
    /// completion service and of parsing its output.
    pub fn start_planning(&mut self, caller: u64, generated: Result<StudyPlanContent, AppError>) -> (r: Result<u32, AppError>)
        requires
            old(self).wf(),
        ensures
            final(self).wf(),
            caller != old(self).owner ==> r == Err::<u32, AppError>(AppError::NotFound)
                && *final(self) == *old(self),
            caller == old(self).owner && (old(self).plans@.len() > 0 || !old(self).has_completed_document())
                ==> r == Err::<u32, AppError>(AppError::InvalidState) && *final(self) == *old(self),
            caller == old(self).owner && old(self).plans@.len() == 0 && old(self).has_completed_document()
                && generated is Err ==> r == Err::<u32, AppError>(generated->Err_0) && *final(self) == *old(self),
            caller == old(self).owner && old(self).plans@.len() == 0 && old(self).has_completed_document()
                && generated is Ok ==> {
                &&& r == Ok::<u32, AppError>(1)
                &&& final(self).plans@ == seq![
                    RevisionView { version: 1, content: generated->Ok_0@, instruction: None },
                ]
                &&& final(self).draft_view() == Some(generated->Ok_0@)
                &&& final(self).stage == SessionStage::Planning
                &&& final(self).same_but_plan(old(self))
            },
    {
        if caller != self.owner {
            return Err(AppError::NotFound);
        }
        if self.plans.len() > 0 || !self.any_completed() {
            return Err(AppError::InvalidState);
        }
        match generated {
            Err(e) => Err(e),
            Ok(content) => {
                let draft = content.duplicate();
                let _ = self.plans.create_study_plan(content);
                self.draft = Some(draft);
                self.stage = SessionStage::Planning;
                Ok(1)
            },
        }
    }

    /// The content of the current plan, which a revision works from.
    pub fn revision_source(&self, caller: u64) -> (r: Result<StudyPlanContent, AppError>)
        requires
            self.wf(),
        ensures
            caller != self.owner ==> r is Err && r->Err_0 == AppError::NotFound,
            caller == self.owner && self.plans@.len() == 0 ==> r is Err && r->Err_0 == AppError::InvalidState,
            caller == self.owner && self.plans@.len() > 0 ==> r is Ok && r->Ok_0@ == self.plans@.last().content,
    {
        if caller != self.owner {
            return Err(AppError::NotFound);
        }
        match self.plans.get_current_plan() {
            None => Err(AppError::InvalidState),
            Some(p) => Ok(p.content.duplicate()),
        }
    }

    /// Stores a revised plan as the next version (one more than the current
    /// maximum); while planning, it also becomes the draft.
    pub fn revise_study_plan(&mut self, caller: u64, instruction: String, generated: Result<StudyPlanContent, AppError>) -> (r: Result<u32, AppError>)
        requires
            old(self).wf(),
        ensures
            final(self).wf(),
            caller != old(self).owner ==> r == Err::<u32, AppError>(AppError::NotFound)
                && *final(self) == *old(self),
            caller == old(self).owner && (old(self).plans@.len() == 0 || old(self).plans@.len() == u32::MAX)
                ==> r == Err::<u32, AppError>(AppError::InvalidState) && *final(self) == *old(self),
            caller == old(self).owner && 0 < old(self).plans@.len() < u32::MAX && generated is Err
                ==> r == Err::<u32, AppError>(generated->Err_0) && *final(self) == *old(self),
            caller == old(self).owner && 0 < old(self).plans@.len() < u32::MAX && generated is Ok ==> {
                &&& r == Ok::<u32, AppError>((old(self).plans@.len() + 1) as u32)
                &&& final(self).plans@ == old(self).plans@.push(
                    next_revision(old(self).plans@, generated->Ok_0@, Some(instruction@)),
                )
                &&& final(self).draft_view() == if old(self).stage == SessionStage::Planning {
                    Some(generated->Ok_0@)
                } else {
                    old(self).draft_view()
                }
                &&& final(self).stage == old(self).stage
                &&& final(self).same_but_plan(old(self))
            },
    {
        if caller != self.owner {
            return Err(AppError::NotFound);
        }
        let n = self.plans.len();
        if n == 0 || n == 4294967295 {
            return Err(AppError::InvalidState);
        }
        match generated {
            Err(e) => Err(e),
            Ok(content) => {
                let draft = content.duplicate();
                let r = self.plans.create_plan_version(content, instruction);
                if self.stage == SessionStage::Planning {
                    self.draft = Some(draft);
                }
                r
            },
        }
    }

    /// Undo: removes the highest plan version and returns the new current
    /// one; version 1 is never removed. While planning, the draft follows.
    pub fn undo_study_plan(&mut self, caller: u64) -> (r: Result<StudyPlan, AppError>)
        requires
            old(self).wf(),
        ensures
            final(self).wf(),
            caller != old(self).owner ==> r is Err && r->Err_0 == AppError::NotFound
                && *final(self) == *old(self),
            caller == old(self).owner && old(self).plans@.len() <= 1 ==> r is Err
                && r->Err_0 == AppError::InvalidState && *final(self) == *old(self),
            caller == old(self).owner && old(self).plans@.len() > 1 ==> {
                &&& r is Ok
                &&& r->Ok_0@ == old(self).plans@[old(self).plans@.len() - 2]
                &&& final(self).plans@ == old(self).plans@.drop_last()
                &&& final(self).draft_view() == if old(self).stage == SessionStage::Planning {
                    Some(r->Ok_0@.content)
                } else {
                    old(self).draft_view()
                }
                &&& final(self).stage == old(self).stage
                &&& final(self).same_but_plan(old(self))
            },
    {
        if caller != self.owner {
            return Err(AppError::NotFound);
        }
        if self.plans.len() <= 1 {
            return Err(AppError::InvalidState);
        }
        let r = self.plans.delete_latest_version();
        match r {
            Ok(plan) => {
                if self.stage == SessionStage::Planning {
                    self.draft = Some(plan.content.duplicate());
                }
                Ok(plan)
            },
            Err(e) => Err(e),
        }
    }

    /// Materializes the draft: one topic per draft entry (every entry,
    /// whatever its knowledge level), in order, one topic
    /// chat per topic and one review chat; then clears the draft and moves the
    /// session to the studying stage. Returns the indices of the new chats,
    /// the review chat last. Fails, changing nothing, unless the caller owns
    /// the session, it is planning and a draft exists.
    pub fn start_studying(&mut self, caller: u64) -> (r: Result<Vec<usize>, AppError>)
        requires
            old(self).wf(),
        ensures
            final(self).wf(),
            caller != old(self).owner ==> r is Err && r->Err_0 == AppError::NotFound
                && *final(self) == *old(self),
            caller == old(self).owner && (old(self).stage != SessionStage::Planning || old(self).draft.is_none())
                ==> r is Err && r->Err_0 == AppError::InvalidState && *final(self) == *old(self),
            caller == old(self).owner && old(self).stage == SessionStage::Planning && old(self).draft.is_some() ==> {
                let k = old(self).draft_view().unwrap().len();
                &&& r is Ok
                &&& r->Ok_0@ == Seq::new(k + 1, |i: int| i as usize)
                &&& final(self).topics_view() == materialized_topics(old(self).draft_view().unwrap())
                &&& final(self).chats_view() == materialized_chats(k)
                &&& final(self).draft.is_none()
                &&& final(self).stage == SessionStage::Studying
                &&& final(self).plans == old(self).plans
                &&& final(self).documents == old(self).documents
                &&& final(self).id == old(self).id
                &&& final(self).owner == old(self).owner
                &&& final(self).title == old(self).title
                &&& final(self).description == old(self).description
            },
    {
        if caller != self.owner {
            return Err(AppError::NotFound);
        }
        if self.stage != SessionStage::Planning || self.draft.is_none() {
            return Err(AppError::InvalidState);
        }
        let draft = self.draft.take().unwrap();
        let ghost d = draft@;
        let k = draft.topics.len();
        let mut ids: Vec<usize> = Vec::new();
        let mut i: usize = 0;
        while i < k
            invariant
                k == draft.topics@.len(),
                d == draft@,
                i <= k,
                self.topics@.len() == i,
                self.chats@.len() == i,
                ids@ == Seq::new(i as nat, |j: int| j as usize),
                self.topics_view() == materialized_topics(d).take(i as int),
                self.chats_view() == materialized_chats(k as nat).take(i as int),
                self.plans == old(self).plans,
                self.documents == old(self).documents,
                self.id == old(self).id,
                self.owner == old(self).owner,
                self.title == old(self).title,
                self.description == old(self).description,
                self.stage == SessionStage::Planning,
                self.draft.is_none(),
            decreases k - i,
        {
            let entry = &draft.topics[i];
            assert(d[i as int] == entry@);
            self.topics.push(Topic {
                title: entry.title.clone(),
                description: entry.description.clone(),
                order_index: i,
                is_completed: false,
            });
            self.chats.push(Chat {
                kind: ChatKind::TopicSpecific { topic: i },
                is_started: false,
                messages: Vec::new(),
            });
            ids.push(i);
            proof {
                assert(self.chats@.last()@.messages =~= Seq::<MessageView>::empty());
            }
            assert(self.topics_view() =~= materialized_topics(d).take(i + 1));
            assert(self.chats_view() =~= materialized_chats(k as nat).take(i + 1));
            assert(ids@ =~= Seq::new((i + 1) as nat, |j: int| j as usize));
            i = i + 1;
        }
        let ghost before = self.chats@;
        self.chats.push(Chat { kind: ChatKind::GeneralReview, is_started: false, messages: Vec::new() });
        ids.push(k);
        self.stage = SessionStage::Studying;
        proof {
            assert(self.chats@.last()@.messages =~= Seq::<MessageView>::empty());
            assert forall|c: int| 0 <= c < k + 1 implies #[trigger] self.chats_view()[c]
                == materialized_chats(k as nat)[c] by {
                if c < k {
                    assert(self.chats@[c] == before[c]);
                    assert(materialized_chats(k as nat).take(k as int)[c] == materialized_chats(k as nat)[c]);
                }
            }
        }
        assert(self.topics_view() =~= materialized_topics(d));
        assert(self.chats_view() =~= materialized_chats(k as nat));
        assert(ids@ =~= Seq::new((k + 1) as nat, |j: int| j as usize));
        assert forall|c: int| 0 <= c < self.chats@.len() implies match #[trigger] self.chats@[c].kind {
            ChatKind::TopicSpecific { topic } => topic < self.topics@.len(),
            ChatKind::GeneralReview => true,
        } by {
            assert(self.chats_view()[c].kind == self.chats@[c].kind);
        }
        assert forall|c: int| 0 <= c < self.chats@.len() implies (#[trigger] self.chats@[c]).messages@.len() == 0 by {
            assert(self.chats_view()[c].messages.len() == 0);
        }
        Ok(ids)
    }

    /// Changes the title and/or description; absent fields stay as they are.
    pub fn update_session(&mut self, caller: u64, input: UpdateSessionInput) -> (r: Result<(), AppError>)
        requires
            old(self).wf(),
        ensures
            final(self).wf(),
            caller != old(self).owner ==> r == Err::<(), AppError>(AppError::NotFound)
                && *final(self) == *old(self),
            caller == old(self).owner ==> {
                &&& r == Ok::<(), AppError>(())
                &&& final(self).title == match input.title {
                    Some(t) => t,
                    None => old(self).title,
                }
                &&& final(self).description == match input.description {
                    Some(d) => Some(d),
                    None => old(self).description,
                }
                &&& final(self).id == old(self).id
                &&& final(self).owner == old(self).owner
                &&& final(self).stage == old(self).stage
                &&& final(self).draft == old(self).draft
                &&& final(self).plans == old(self).plans
                &&& final(self).documents == old(self).documents
                &&& final(self).topics == old(self).topics
                &&& final(self).chats == old(self).chats
            },
    {
        if caller != self.owner {
            return Err(AppError::NotFound);
        }
        match input.title {
            Some(t) => {
                self.title = t;
            },
            None => {},
        }
        match input.description {
            Some(d) => {
                self.description = Some(d);
            },
            None => {},
        }
        Ok(())
    }

    /// Marks topic `topic` completed or not.
    pub fn update_topic_completion(&mut self, caller: u64, topic: usize, is_completed: bool) -> (r: Result<(), AppError>)
        requires
            old(self).wf(),
        ensures
            final(self).wf(),
            (caller != old(self).owner || topic >= old(self).topics@.len()) ==> r == Err::<(), AppError>(
                AppError::NotFound,
            ) && *final(self) == *old(self),
            caller == old(self).owner && topic < old(self).topics@.len() ==> {
                &&& r == Ok::<(), AppError>(())
                &&& final(self).topics_view() == old(self).topics_view().update(
                    topic as int,
                    StudyTopicView { is_completed, ..old(self).topics_view()[topic as int] },
                )
                &&& final(self).same_identity(old(self))
                &&& final(self).stage == old(self).stage
                &&& final(self).draft == old(self).draft
                &&& final(self).plans == old(self).plans
                &&& final(self).documents == old(self).documents
                &&& final(self).chats == old(self).chats
            },
    {
        if caller != self.owner || topic >= self.topics.len() {
            return Err(AppError::NotFound);
        }
        self.topics[topic].is_completed = is_completed;
        assert(self.topics_view() =~= old(self).topics_view().update(
            topic as int,
            StudyTopicView { is_completed, ..old(self).topics_view()[topic as int] },
        ));
        Ok(())
    }

    /// Marks chat `chat` started.
    pub fn mark_chat_started(&mut self, caller: u64, chat: usize) -> (r: Result<(), AppError>)
        requires
            old(self).wf(),
        ensures
            final(self).wf(),
            (caller != old(self).owner || chat >= old(self).chats@.len()) ==> r == Err::<(), AppError>(
                AppError::NotFound,
            ) && *final(self) == *old(self),
            caller == old(self).owner && chat < old(self).chats@.len() ==> {
                &&& r == Ok::<(), AppError>(())
                &&& final(self).chats_view() == old(self).chats_view().update(
                    chat as int,
                    ChatView { started: true, ..old(self).chats_view()[chat as int] },
                )
                &&& final(self).same_identity(old(self))
                &&& final(self).stage == old(self).stage
                &&& final(self).draft == old(self).draft
                &&& final(self).plans == old(self).plans
                &&& final(self).documents == old(self).documents
                &&& final(self).topics == old(self).topics
            },
    {
        if caller != self.owner || chat >= self.chats.len() {
            return Err(AppError::NotFound);
        }
        self.chats[chat].is_started = true;
        assert(self.chats_view() =~= old(self).chats_view().update(
            chat as int,
            ChatView { started: true, ..old(self).chats_view()[chat as int] },
        ));
        Ok(())
    }

    /// Sets the knowledge level of a topic of the current plan; while
    /// planning, the draft follows. Fails with `InvalidState` on an unknown
    /// level or when no plan exists, and with `NotFound` when no topic of the
    /// current plan has that id.
    pub fn update_topic_status(&mut self, caller: u64, topic_id: &str, status: String) -> (r: Result<(), AppError>)
        requires
            old(self).wf(),
        ensures
            final(self).wf(),
            caller != old(self).owner ==> r == Err::<(), AppError>(AppError::NotFound)
                && *final(self) == *old(self),
            caller == old(self).owner && (!is_topic_status(status@) || old(self).plans@.len() == 0)
                ==> r == Err::<(), AppError>(AppError::InvalidState) && *final(self) == *old(self),
            caller == old(self).owner && is_topic_status(status@) && old(self).plans@.len() > 0 && (forall|k: int|
                0 <= k < old(self).plans@.last().content.len() ==> old(self).plans@.last().content[k].id
                != topic_id@) ==> r == Err::<(), AppError>(AppError::NotFound) && *final(self) == *old(self),
            r is Ok ==> {
                &&& caller == old(self).owner
                &&& is_topic_status(status@)
                &&& exists|k: int| {
                    &&& crate::revisions::first_topic_with_id(old(self).plans@.last().content, topic_id@, k)
                    &&& final(self).plans@ == old(self).plans@.update(
                        old(self).plans@.len() - 1,
                        RevisionView {
                            content: old(self).plans@.last().content.update(
                                k,
                                TopicView { status: status@, ..old(self).plans@.last().content[k] },
                            ),
                            ..old(self).plans@.last()
                        },
                    )
                }
                &&& final(self).draft_view() == if old(self).stage == SessionStage::Planning {
                    Some(final(self).plans@.last().content)
                } else {
                    old(self).draft_view()
                }
                &&& final(self).stage == old(self).stage
                &&& final(self).same_but_plan(old(self))
            },
            caller == old(self).owner && is_topic_status(status@) && old(self).plans@.len() > 0 && (exists|k: int|
                0 <= k < old(self).plans@.last().content.len() && old(self).plans@.last().content[k].id
                == topic_id@) ==> r is Ok,
    {
        if caller != self.owner {
            return Err(AppError::NotFound);
        }
        if !valid_topic_status(status.as_str()) || self.plans.len() == 0 {
            return Err(AppError::InvalidState);
        }
        let r = self.plans.update_topic_status(topic_id, status);
        if r.is_ok() && self.stage == SessionStage::Planning {
            match self.plans.get_current_plan() {
                Some(p) => {
                    self.draft = Some(p.content.duplicate());
                },
                None => {},
            }
        }
        r
    }
}

} // verus!
