//! The append-only, version-numbered plan revision log with single-step undo.
use vstd::prelude::*;
use crate::error::AppError;
use crate::plan::{StudyPlanContent, StudyPlanTopic, TopicView};
use crate::text::str_equal;

verus! {

/// One immutable, versioned snapshot of a session's plan.
pub struct StudyPlan {
    /// 1-based version number.
    pub version: u32,
    pub content: StudyPlanContent,
    /// The instruction that produced this version (absent for the first one).
    pub instruction: Option<String>,
}

/// The mathematical value of a revision.
pub struct RevisionView {
    pub version: nat,
    pub content: Seq<TopicView>,
    pub instruction: Option<Seq<char>>,
}

/// The view of an optional string.
pub open spec fn opt_view(s: Option<String>) -> Option<Seq<char>> {
    match s {
        Some(x) => Some(x@),
        None => None,
    }
}

impl View for StudyPlan {
    type V = RevisionView;

    open spec fn view(&self) -> RevisionView {
        RevisionView {
            version: self.version as nat,
            content: self.content@,
            instruction: opt_view(self.instruction),
        }
    }
}

fn copy_opt(s: &Option<String>) -> (r: Option<String>)
    ensures
        opt_view(r) == opt_view(*s),
{
    match s {
        Some(x) => Some(x.clone()),
        None => None,
    }
}

impl StudyPlan {
    /// A deep copy, equal in value.
    pub fn duplicate(&self) -> (r: StudyPlan)
        ensures
            r@ == self@,
    {
        StudyPlan {
            version: self.version,
            content: self.content.duplicate(),
            instruction: copy_opt(&self.instruction),
        }
    }
}

/// A session's revisions, oldest first; the last one is the current plan.
pub struct RevisionLog {
    pub revisions: Vec<StudyPlan>,
}

/// A new revision whose version number is derived from the current maximum.
pub open spec fn next_revision(
    log: Seq<RevisionView>,
    content: Seq<TopicView>,
    instruction: Option<Seq<char>>,
) -> RevisionView {
    RevisionView { version: log.len() + 1, content, instruction }
}

/// Whether `k` is the position of the first topic of `content` whose id is `id`.
pub open spec fn first_topic_with_id(content: Seq<TopicView>, id: Seq<char>, k: int) -> bool {
    0 <= k < content.len() && content[k].id == id && forall|j: int| 0 <= j < k ==> content[j].id != id
}

/// Versions run 1, 2, ..., n in order, with no gaps.
pub open spec fn versions_consecutive(revs: Seq<RevisionView>) -> bool {
    forall|i: int| 0 <= i < revs.len() ==> #[trigger] revs[i].version == i + 1
}

/// Versions strictly increase along the log, and the version a revision
/// receives is one more than the current maximum (1 on an empty log), so it
/// exceeds every version before it: after an undo from version
/// `n`, the next revision is numbered `n` again.
pub proof fn lemma_versions_from_max(
    revs: Seq<RevisionView>,
    content: Seq<TopicView>,
    instruction: Option<Seq<char>>,
)
    requires
        versions_consecutive(revs),
    ensures
        forall|i: int, j: int| 0 <= i < j < revs.len() ==> #[trigger] revs[i].version < #[trigger] revs[j].version,
        versions_consecutive(revs.push(next_revision(revs, content, instruction))),
        forall|i: int| 0 <= i < revs.len() ==> #[trigger] revs[i].version < next_revision(revs, content, instruction).version,
        revs.len() == 0 ==> next_revision(revs, content, instruction).version == 1,
        revs.len() > 0 ==> next_revision(revs, content, instruction).version == revs.last().version + 1,
        revs.len() > 1 ==> versions_consecutive(revs.drop_last()),
        revs.len() > 1 ==> next_revision(revs.drop_last(), content, instruction).version == revs.last().version,
{
    let r = next_revision(revs, content, instruction);
    assert forall|i: int| 0 <= i < revs.push(r).len() implies #[trigger] revs.push(r)[i].version == i + 1 by {
        if i < revs.len() {
            assert(revs.push(r)[i] == revs[i]);
        }
    }
    if revs.len() > 1 {
        assert forall|i: int| 0 <= i < revs.drop_last().len() implies #[trigger] revs.drop_last()[i].version == i + 1 by {
            assert(revs.drop_last()[i] == revs[i]);
        }
    }
}

/// Undo right after a revision restores the log as it was before the
/// revision and hands back the plan that was current then.
pub proof fn lemma_revise_then_undo(
    revs: Seq<RevisionView>,
    content: Seq<TopicView>,
    instruction: Option<Seq<char>>,
)
    requires
        versions_consecutive(revs),
        revs.len() > 0,
    ensures
        ({
            let after = revs.push(next_revision(revs, content, instruction));
            &&& after.len() > 1
            &&& after.drop_last() == revs
            &&& after[after.len() - 2] == revs.last()
        }),
{
    let after = revs.push(next_revision(revs, content, instruction));
    assert(after.drop_last() =~= revs);
}

impl View for RevisionLog {
    type V = Seq<RevisionView>;

    open spec fn view(&self) -> Seq<RevisionView> {
        self.revisions@.map_values(|r: StudyPlan| r@)
    }
}

impl RevisionLog {
    /// Versions run 1, 2, ..., n in order, with no gaps.
    pub open spec fn wf(&self) -> bool {
        &&& self.revisions@.len() <= u32::MAX
        &&& versions_consecutive(self@)
    }

    /// The empty log.
    pub fn new() -> (r: RevisionLog)
        ensures
            r.wf(),
            r@.len() == 0,
    {
        let r = RevisionLog { revisions: Vec::new() };
        assert(r@ =~= Seq::empty());
        r
    }

    /// The number of revisions, which is also the highest version.
    pub fn len(&self) -> (r: usize)
        ensures
            r == self@.len(),
    {
        self.revisions.len()
    }

    /// Stores the first plan of a session as version 1.
    pub fn create_study_plan(&mut self, content: StudyPlanContent) -> (r: Result<u32, AppError>)
        requires
            old(self).wf(),
        ensures
            final(self).wf(),
            old(self)@.len() > 0 ==> r == Err::<u32, AppError>(AppError::InvalidState)
                && *final(self) == *old(self),
            old(self)@.len() == 0 ==> r == Ok::<u32, AppError>(1) && final(self)@ == seq![
                RevisionView { version: 1, content: content@, instruction: None },
            ],
    {
        if self.revisions.len() > 0 {
            return Err(AppError::InvalidState);
        }
        self.revisions.push(StudyPlan { version: 1, content, instruction: None });
        assert(self@ =~= seq![RevisionView { version: 1, content: content@, instruction: None }]);
        Ok(1)
    }

    /// Appends a revision whose version is one more than the current maximum
    /// (version 1 on an empty log). Fails only when the version space is used up.
    pub fn create_plan_version(&mut self, content: StudyPlanContent, instruction: String) -> (r: Result<u32, AppError>)
        requires
            old(self).wf(),
        ensures
            final(self).wf(),
            old(self)@.len() == u32::MAX ==> r == Err::<u32, AppError>(AppError::InvalidState)
                && *final(self) == *old(self),
            old(self)@.len() < u32::MAX ==> r == Ok::<u32, AppError>((old(self)@.len() + 1) as u32)
                && final(self)@ == old(self)@.push(
                next_revision(old(self)@, content@, Some(instruction@)),
            ),
    {
        let n = self.revisions.len();
        if n == 4294967295 {
            return Err(AppError::InvalidState);
        }
        let version = (n + 1) as u32;
        self.revisions.push(StudyPlan { version, content, instruction: Some(instruction) });
        assert(self@ =~= old(self)@.push(next_revision(old(self)@, content@, Some(instruction@))));
        Ok(version)
    }

    /// The current (highest-version) plan, if any.
    pub fn get_current_plan(&self) -> (r: Option<&StudyPlan>)
        ensures
            self@.len() == 0 ==> r.is_none(),
            self@.len() > 0 ==> r.is_some() && r.unwrap()@ == self@.last(),
    {
        let n = self.revisions.len();
        if n == 0 {
            None
        } else {
            Some(&self.revisions[n - 1])
        }
    }

    /// The plan with the given version, if it exists.
    pub fn get_plan_by_version(&self, version: u32) -> (r: Option<&StudyPlan>)
        requires
            self.wf(),
        ensures
            (1 <= version <= self@.len()) ==> r.is_some() && r.unwrap()@ == self@[version - 1],
            !(1 <= version <= self@.len()) ==> r.is_none(),
    {
        if version == 0 || version as usize > self.revisions.len() {
            None
        } else {
            Some(&self.revisions[(version - 1) as usize])
        }
    }

    /// All revisions, most recent first.
    pub fn get_plan_history(&self) -> (r: Vec<StudyPlan>)
        ensures
            r@.len() == self@.len(),
            forall|i: int| 0 <= i < self@.len() ==> #[trigger] r@[i]@ == self@[self@.len() - 1 - i],
    {
        let mut out: Vec<StudyPlan> = Vec::new();
        let n = self.revisions.len();
        let mut i: usize = 0;
        while i < n
            invariant
                n == self@.len(),
                i <= n,
                out@.len() == i,
                forall|j: int| 0 <= j < i ==> #[trigger] out@[j]@ == self@[n - 1 - j],
            decreases n - i,
        {
            out.push(self.revisions[n - 1 - i].duplicate());
            i = i + 1;
        }
        out
    }

    /// Undo: removes the highest version and returns the new current plan.
    /// Refuses to remove version 1.
    pub fn delete_latest_version(&mut self) -> (r: Result<StudyPlan, AppError>)
        requires
            old(self).wf(),
        ensures
            final(self).wf(),
            old(self)@.len() <= 1 ==> r is Err && r->Err_0 == AppError::InvalidState
                && *final(self) == *old(self),
            old(self)@.len() > 1 ==> r is Ok && final(self)@ == old(self)@.drop_last()
                && r->Ok_0@ == old(self)@[old(self)@.len() - 2],
    {
        let n = self.revisions.len();
        if n <= 1 {
            return Err(AppError::InvalidState);
        }
        let _removed = self.revisions.pop();
        assert(self@ =~= old(self)@.drop_last());
        Ok(self.revisions[n - 2].duplicate())
    }

    /// Sets the status of the first topic with the given id in the current plan.
    pub fn update_topic_status(&mut self, topic_id: &str, status: String) -> (r: Result<(), AppError>)
        requires
            old(self).wf(),
        ensures
            final(self).wf(),
            old(self)@.len() == 0 ==> r == Err::<(), AppError>(AppError::InvalidState)
                && *final(self) == *old(self),
            old(self)@.len() > 0 && (forall|k: int| 0 <= k < old(self)@.last().content.len()
                ==> old(self)@.last().content[k].id != topic_id@) ==> r == Err::<(), AppError>(
                AppError::NotFound,
            ) && *final(self) == *old(self),
            r is Ok ==> old(self)@.len() > 0 && exists|k: int| {
                &&& first_topic_with_id(old(self)@.last().content, topic_id@, k)
                &&& final(self)@ == old(self)@.update(
                    old(self)@.len() - 1,
                    RevisionView {
                        content: old(self)@.last().content.update(
                            k,
                            TopicView { status: status@, ..old(self)@.last().content[k] },
                        ),
                        ..old(self)@.last()
                    },
                )
            },
            old(self)@.len() > 0 && (exists|k: int| 0 <= k < old(self)@.last().content.len()
                && old(self)@.last().content[k].id == topic_id@) ==> r is Ok,
    {
        let n = self.revisions.len();
        if n == 0 {
            return Err(AppError::InvalidState);
        }
        let ghost cur = self@.last();
        let m = self.revisions[n - 1].content.topics.len();
        let mut k: usize = 0;
        let mut found = false;
        while k < m && !found
            invariant
                found ==> k < m && cur.content[k as int].id == topic_id@,
                n == self@.len(),
                n > 0,
                self@ == old(self)@,
                self.revisions@ == old(self).revisions@,
                cur == self@.last(),
                m == cur.content.len(),
                m == self.revisions@[n - 1].content.topics@.len(),
                k <= m,
                forall|j: int| 0 <= j < k ==> cur.content[j].id != topic_id@,
            decreases m - k + (if found { 0int } else { 1int }),
        {
            assert(cur.content[k as int] == self.revisions@[n - 1].content.topics@[k as int]@);
            if str_equal(self.revisions[n - 1].content.topics[k].id.as_str(), topic_id) {
                found = true;
            } else {
                k = k + 1;
            }
        }
        if !found {
            return Err(AppError::NotFound);
        }
        assert(cur.content[k as int] == self.revisions@[n - 1].content.topics@[k as int]@);
        let mut last = self.revisions.pop().unwrap();
        let mut t: StudyPlanTopic = last.content.topics.remove(k);
        t.status = status;
        last.content.topics.insert(k, t);
        self.revisions.push(last);
        proof {
            let newc = cur.content.update(k as int, TopicView { status: status@, ..cur.content[k as int] });
            assert(last.content@ =~= newc);
            assert(self@ =~= old(self)@.update(n - 1, RevisionView { content: newc, ..cur }));
            assert(first_topic_with_id(cur.content, topic_id@, k as int));
        }
        Ok(())
    }
}

} // verus!
