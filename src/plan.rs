//! Structured plan content and its rendering.
use vstd::prelude::*;
use crate::text::{decimal, decimal_string, str_equal};

verus! {

/// One proposed topic of a plan.
pub struct StudyPlanTopic {
    pub id: String,
    pub title: String,
    pub description: String,
    /// One of "need_to_learn", "need_review", "know_well".
    pub status: String,
}

/// The mathematical value of a plan topic.
pub struct TopicView {
    pub id: Seq<char>,
    pub title: Seq<char>,
    pub description: Seq<char>,
    pub status: Seq<char>,
}

impl View for StudyPlanTopic {
    type V = TopicView;

    open spec fn view(&self) -> TopicView {
        TopicView {
            id: self.id@,
            title: self.title@,
            description: self.description@,
            status: self.status@,
        }
    }
}

impl StudyPlanTopic {
    /// A field-by-field copy.
    pub fn duplicate(&self) -> (r: StudyPlanTopic)
        ensures
            r@ == self@,
    {
        StudyPlanTopic {
            id: self.id.clone(),
            title: self.title.clone(),
            description: self.description.clone(),
            status: self.status.clone(),
        }
    }
}

/// The structured content of a plan: its topics, in learning order.
pub struct StudyPlanContent {
    pub topics: Vec<StudyPlanTopic>,
}

impl View for StudyPlanContent {
    type V = Seq<TopicView>;

    open spec fn view(&self) -> Seq<TopicView> {
        self.topics@.map_values(|t: StudyPlanTopic| t@)
    }
}

impl StudyPlanContent {
    /// A deep copy, equal in value.
    pub fn duplicate(&self) -> (r: StudyPlanContent)
        ensures
            r@ == self@,
    {
        let mut topics: Vec<StudyPlanTopic> = Vec::new();
        let mut i: usize = 0;
        while i < self.topics.len()
            invariant
                i <= self.topics@.len(),
                topics@.len() == i,
                forall|j: int| 0 <= j < i ==> topics@[j]@ == self.topics@[j]@,
            decreases self.topics@.len() - i,
        {
            topics.push(self.topics[i].duplicate());
            i = i + 1;
        }
        let r = StudyPlanContent { topics };
        assert(r@ =~= self@);
        r
    }
}

/// The display label of a topic status.
pub open spec fn status_label(status: Seq<char>) -> Seq<char> {
    if status == "need_to_learn"@ {
        "Need to Learn"@
    } else if status == "need_review"@ {
        "Need Review"@
    } else if status == "know_well"@ {
        "Know Well"@
    } else {
        "Unknown"@
    }
}

/// Formats a topic status for display.
pub fn format_status(status: &str) -> (r: &'static str)
    ensures
        r@ == status_label(status@),
{
    if str_equal(status, "need_to_learn") {
        "Need to Learn"
    } else if str_equal(status, "need_review") {
        "Need Review"
    } else if str_equal(status, "know_well") {
        "Know Well"
    } else {
        "Unknown"
    }
}

/// The markdown block of the topic at position `i` (numbered from 1).
pub open spec fn topic_markdown(i: nat, t: TopicView) -> Seq<char> {
    decimal(i + 1) + ". **"@ + t.title + "**\n   "@ + t.description + "\n   *Status: "@
        + status_label(t.status) + "*\n\n"@
}

/// The markdown of the first `n` topics.
pub open spec fn topics_markdown(topics: Seq<TopicView>, n: nat) -> Seq<char>
    decreases n,
{
    if n == 0 {
        Seq::empty()
    } else {
        topics_markdown(topics, (n - 1) as nat) + topic_markdown((n - 1) as nat, topics[n - 1])
    }
}

/// The markdown rendering of a whole plan.
pub open spec fn plan_markdown(topics: Seq<TopicView>) -> Seq<char> {
    "# Study Plan\n\n"@ + topics_markdown(topics, topics.len())
}

/// Renders plan content as a numbered markdown list with status labels.
pub fn generate_markdown_from_json(content: &StudyPlanContent) -> (r: String)
    ensures
        r@ == plan_markdown(content@),
{
    let mut md = String::from_str("# Study Plan\n\n");
    let mut i: usize = 0;
    let n = content.topics.len();
    while i < n
        invariant
            n == content.topics@.len(),
            i <= n,
            md@ == "# Study Plan\n\n"@ + topics_markdown(content@, i as nat),
        decreases n - i,
    {
        let topic = &content.topics[i];
        let k: usize = i + 1;
        let num = decimal_string(k as u64);
        md.append(num.as_str());
        md.append(". **");
        md.append(topic.title.as_str());
        md.append("**\n   ");
        md.append(topic.description.as_str());
        md.append("\n   *Status: ");
        md.append(format_status(topic.status.as_str()));
        md.append("*\n\n");
        assert(content@[i as int] == topic@);
        assert(md@ =~= "# Study Plan\n\n"@ + topics_markdown(content@, (i + 1) as nat));
        i = i + 1;
    }
    md
}

} // verus!
