//! The welcome fan-out: after materialization, one independent job per new
//! chat produces a welcome message. Each job's outcome is recorded on its own
//! chat only, so a failing job leaves its siblings untouched.
use vstd::prelude::*;
use crate::error::AppError;
use crate::revisions::opt_view;
use crate::session::{ChatKind, ChatView, Message, MessageRole, MessageView, StudySession, StudyTopicView};

verus! {

/// What a welcome job needs besides the session's documents.
pub enum WelcomeContext {
    /// A topic chat: the topic's title.
    Topic { title: String },
    /// The review chat: how many of the session's topics are completed.
    Review { completed: usize, total: usize },
}

/// The number of completed topics among the first `n`.
pub open spec fn completed_count(topics: Seq<StudyTopicView>, n: nat) -> nat
    decreases n,
{
    if n == 0 {
        0
    } else {
        completed_count(topics, (n - 1) as nat) + if topics[n - 1].is_completed { 1nat } else { 0nat }
    }
}

/// Whether a chat is still waiting for its first message.
pub open spec fn awaiting_first_message(c: ChatView) -> bool {
    !c.started && c.messages.len() == 0
}

/// The chats after one welcome outcome: a message for a chat that has not
/// started and holds no message becomes its only message, an assistant
/// message, and starts the chat; a failed job, or a chat that already
/// started or holds a message, changes nothing.
pub open spec fn welcome_step(chats: Seq<ChatView>, chat: int, outcome: Option<Seq<char>>) -> Seq<ChatView> {
    if 0 <= chat < chats.len() && awaiting_first_message(chats[chat]) && outcome is Some {
        chats.update(chat, welcomed(chats[chat], outcome.unwrap()))
    } else {
        chats
    }
}

/// The chats after a sequence of welcome outcomes, in the order they arrive.
pub open spec fn welcome_all(chats: Seq<ChatView>, outcomes: Seq<(int, Option<Seq<char>>)>) -> Seq<ChatView>
    decreases outcomes.len(),
{
    if outcomes.len() == 0 {
        chats
    } else {
        let prev = welcome_all(chats, outcomes.drop_last());
        welcome_step(prev, outcomes.last().0, outcomes.last().1)
    }
}

/// The chat as a successful welcome job leaves it: started, with the
/// welcome as its first and only message.
pub open spec fn welcomed(c: ChatView, message: Seq<char>) -> ChatView {
    ChatView {
        started: true,
        messages: seq![MessageView { role: MessageRole::Assistant, content: message }],
        ..c
    }
}

/// Failure isolation of the fan-out: whatever the order in which the jobs of
/// distinct chats still awaiting their first message finish, every job that
/// produced a message has it stored as its chat's first and only message and
/// its chat started, and every job that failed leaves its chat as it was.
pub proof fn lemma_welcome_isolation(chats: Seq<ChatView>, outcomes: Seq<(int, Option<Seq<char>>)>)
    requires
        forall|i: int| 0 <= i < outcomes.len() ==> 0 <= #[trigger] outcomes[i].0 < chats.len()
            && awaiting_first_message(chats[outcomes[i].0]),
        forall|i: int, j: int| 0 <= i < j < outcomes.len() ==> #[trigger] outcomes[i].0 != #[trigger] outcomes[j].0,
    ensures
        welcome_all(chats, outcomes).len() == chats.len(),
        forall|i: int| 0 <= i < outcomes.len() ==> (#[trigger] outcomes[i]).1 is Some ==> welcome_all(
            chats,
            outcomes,
        )[outcomes[i].0] == welcomed(chats[outcomes[i].0], outcomes[i].1.unwrap()),
        forall|i: int| 0 <= i < outcomes.len() ==> (#[trigger] outcomes[i]).1 is None ==> welcome_all(
            chats,
            outcomes,
        )[outcomes[i].0] == chats[outcomes[i].0],
        forall|c: int| 0 <= c < chats.len() && (forall|i: int| 0 <= i < outcomes.len() ==> #[trigger] outcomes[i].0 != c)
            ==> welcome_all(chats, outcomes)[c] == chats[c],
    decreases outcomes.len(),
{
    if outcomes.len() > 0 {
        let p = outcomes.drop_last();
        assert forall|i: int| 0 <= i < p.len() implies 0 <= #[trigger] p[i].0 < chats.len()
            && awaiting_first_message(chats[p[i].0]) by {
            assert(p[i] == outcomes[i]);
        }
        assert forall|i: int, j: int| 0 <= i < j < p.len() implies #[trigger] p[i].0 != #[trigger] p[j].0 by {
            assert(p[i] == outcomes[i]);
            assert(p[j] == outcomes[j]);
        }
        lemma_welcome_isolation(chats, p);
        let prev = welcome_all(chats, p);
        let last = outcomes.last();
        let n = outcomes.len() - 1;
        assert(last == outcomes[n]);
        assert forall|i: int| 0 <= i < p.len() implies (#[trigger] p[i]).0 != last.0 by {
            assert(p[i] == outcomes[i]);
        }
        assert(prev[last.0] == chats[last.0]);
        assert forall|i: int| 0 <= i < outcomes.len() && (#[trigger] outcomes[i]).1 is Some implies welcome_all(
            chats,
            outcomes,
        )[outcomes[i].0] == welcomed(chats[outcomes[i].0], outcomes[i].1.unwrap()) by {
            if i < n {
                assert(p[i] == outcomes[i]);
            }
        }
        assert forall|i: int| 0 <= i < outcomes.len() && (#[trigger] outcomes[i]).1 is None implies welcome_all(
            chats,
            outcomes,
        )[outcomes[i].0] == chats[outcomes[i].0] by {
            if i < n {
                assert(p[i] == outcomes[i]);
            }
        }
        assert forall|c: int| 0 <= c < chats.len() && (forall|i: int| 0 <= i < outcomes.len() ==> #[trigger] outcomes[i].0 != c)
            implies welcome_all(chats, outcomes)[c] == chats[c] by {
            assert forall|i: int| 0 <= i < p.len() implies #[trigger] p[i].0 != c by {
                assert(p[i] == outcomes[i]);
            }
            assert(outcomes[n].0 != c);
        }
    }
}

impl StudySession {
    /// What the welcome job of chat `chat` works from; nothing when the chat
    /// does not exist or has already started, so that no welcome is asked for.
    pub fn welcome_context(&self, chat: usize) -> (r: Option<WelcomeContext>)
        requires
            self.wf(),
        ensures
            chat >= self.chats@.len() ==> r is None,
            chat < self.chats@.len() && self.chats@[chat as int].is_started ==> r is None,
            chat < self.chats@.len() && !self.chats@[chat as int].is_started ==> match self.chats@[chat as int].kind {
                ChatKind::TopicSpecific { topic } => r matches Some(WelcomeContext::Topic { title })
                    && title@ == self.topics@[topic as int].title@,
                ChatKind::GeneralReview => r matches Some(WelcomeContext::Review { completed, total })
                    && completed == completed_count(self.topics_view(), self.topics@.len())
                    && total == self.topics@.len(),
            },
    {
        if chat >= self.chats.len() || self.chats[chat].is_started {
            return None;
        }
        match self.chats[chat].kind {
            ChatKind::TopicSpecific { topic } => {
                Some(WelcomeContext::Topic { title: self.topics[topic].title.clone() })
            },
            ChatKind::GeneralReview => {
                let n = self.topics.len();
                let mut completed: usize = 0;
                let mut i: usize = 0;
                while i < n
                    invariant
                        n == self.topics@.len(),
                        i <= n,
                        completed == completed_count(self.topics_view(), i as nat),
                        completed <= i,
                    decreases n - i,
                {
                    if self.topics[i].is_completed {
                        completed = completed + 1;
                    }
                    i = i + 1;
                }
                Some(WelcomeContext::Review { completed, total: n })
            },
        }
    }

    /// Records the outcome of the welcome job of chat `chat`: a produced
    /// message becomes the chat's first message and starts it, unless the
    /// chat already started (by a user message, say). Nothing else of the
    /// session changes. Returns whether the message was stored.
    pub fn record_welcome(&mut self, chat: usize, outcome: Option<String>) -> (r: bool)
        requires
            old(self).wf(),
        ensures
            final(self).wf(),
            final(self).chats_view() == welcome_step(old(self).chats_view(), chat as int, opt_view(outcome)),
            r == (chat < old(self).chats@.len() && !old(self).chats@[chat as int].is_started && outcome is Some),
            r ==> old(self).chats@[chat as int].messages@.len() == 0
                && final(self).chats@[chat as int].messages@.len() == 1,
            final(self).same_identity(old(self)),
            final(self).stage == old(self).stage,
            final(self).draft == old(self).draft,
            final(self).plans == old(self).plans,
            final(self).documents == old(self).documents,
            final(self).topics == old(self).topics,
    {
        if chat >= self.chats.len() || self.chats[chat].is_started {
            return false;
        }
        match outcome {
            None => false,
            Some(content) => {
                let ghost c = self.chats@[chat as int]@;
                let ghost content_v = content@;
                assert(self.chats@[chat as int].messages@.len() == 0);
                let c_ref = &mut self.chats[chat];
                c_ref.messages.push(Message { role: MessageRole::Assistant, content });
                c_ref.is_started = true;
                proof {
                    assert(self.chats@[chat as int]@.messages =~= welcomed(c, content_v).messages);
                    assert(self.chats@[chat as int]@ == welcomed(c, content_v));
                    assert(self.chats_view() =~= old(self).chats_view().update(chat as int, welcomed(c, content_v)));
                }
                true
            },
        }
    }

    /// Stores a user's message in chat `chat` and starts the chat.
    pub fn send_user_message(&mut self, caller: u64, chat: usize, content: String) -> (r: Result<(), AppError>)
        requires
            old(self).wf(),
        ensures
            final(self).wf(),
            (caller != old(self).owner || chat >= old(self).chats@.len()) ==> r is Err
                && r->Err_0 == AppError::NotFound && *final(self) == *old(self),
            caller == old(self).owner && chat < old(self).chats@.len() ==> {
                let c = old(self).chats@[chat as int]@;
                &&& r is Ok
                &&& final(self).chats_view() == old(self).chats_view().update(
                    chat as int,
                    ChatView {
                        started: true,
                        messages: c.messages.push(MessageView { role: MessageRole::User, content: content@ }),
                        ..c
                    },
                )
                &&& final(self).same_identity(old(self))
                &&& final(self).stage == old(self).stage
                &&& final(self).draft == old(self).draft
                &&& final(self).plans == old(self).plans
                &&& final(self).documents == old(self).documents
                &&& final(self).topics == old(self).topics
            },
    {
        if caller != self.owner || chat >= self.chats.len() {
            return Err(AppError::NotFound);
        }
        let ghost c = self.chats@[chat as int]@;
        let ghost content_v = content@;
        let c_ref = &mut self.chats[chat];
        c_ref.messages.push(Message { role: MessageRole::User, content });
        c_ref.is_started = true;
        proof {
            let nc = ChatView {
                started: true,
                messages: c.messages.push(MessageView { role: MessageRole::User, content: content_v }),
                ..c
            };
            assert(self.chats@[chat as int]@.messages =~= nc.messages);
            assert(self.chats@[chat as int]@ == nc);
            assert(self.chats_view() =~= old(self).chats_view().update(chat as int, nc));
        }
        Ok(())
    }
}

} // verus!
