//! The prompts sent to the completion service, and their assembly from the
//! session's values.
use vstd::prelude::*;
use crate::generation::{build_materials, fill_template, materials_text, replaced, review_plan, review_plan_text};
use crate::revisions::opt_view;
use crate::welcome::WelcomeContext;

verus! {

/// System prompt for generating the initial study plan
pub const GENERATE_PLAN_PROMPT: &'static str = r#"You are an expert academic tutor creating a personalized study plan for a university student.

Based on the study materials provided below, create a study plan as a sequence of topics the student needs to learn.

LANGUAGE DETECTION:
- Analyze the study materials and detect the primary language
- If materials are in Portuguese, generate topic titles and descriptions in Portuguese
- If materials are in English, generate topic titles and descriptions in English
- If materials are in Spanish, generate in Spanish
- Use the same language as the source materials for consistency

Your response MUST be valid JSON with this exact structure:
{
  "topics": [
    {
      "id": "topic-1",
      "title": "Topic Name",
      "description": "Brief explanation of what the student will learn in this topic",
      "status": "need_to_learn"
    }
  ]
}

REQUIREMENTS:
- Create a logical sequence of topics from foundational to advanced
- Each topic should be specific and actionable
- Descriptions should be 1-2 sentences explaining what will be learned
- ALL topics must have status: "need_to_learn" (this is the default)
- Use simple sequential IDs: "topic-1", "topic-2", etc.
- Focus ONLY on topics to learn, not overviews or objectives
- Order topics in the optimal learning sequence
- Match the language of the study materials

STUDY MATERIALS:
{materials}

SESSION TITLE: {title}
SESSION DESCRIPTION: {description}

Generate the JSON study plan now. Output ONLY valid JSON, no markdown formatting or code blocks."#;

/// System prompt for revising the study plan
pub const REVISE_PLAN_PROMPT: &'static str = r#"You are an expert academic tutor helping a student refine their study plan.

The student has provided feedback. Apply their requested changes while maintaining a logical learning sequence.

LANGUAGE GUIDELINES:
- PRIORITY 1: If student's feedback/instructions are in a clear language, consider adapting
- PRIORITY 2: Preserve the original language of the study plan
- PRIORITY 3: Match the predominant language of the original study materials
- Default to Brazilian Portuguese only if no other language context exists

CURRENT STUDY PLAN (JSON):
{current_plan}

STUDENT'S FEEDBACK/INSTRUCTIONS:
{instruction}

ORIGINAL STUDY MATERIALS (for reference):
{materials}

Generate an updated JSON study plan with the requested changes.

IMPORTANT:
- Keep the same JSON structure
- Reset ALL topics to status: "need_to_learn"
- Use sequential IDs: "topic-1", "topic-2", etc.
- Only change what the student requested
- Maintain logical topic progression
- Preserve the original language of the plan

Output ONLY valid JSON, no markdown formatting or code blocks."#;

/// System prompt template for topic-specific chat
pub const TOPIC_SYSTEM_PROMPT: &'static str = r#"<goal>
You are Caky, a smart, friendly, and structured University Exam Tutor.
Your mission is to guide the student through learning the specific topic: "{topic_name}".
You are currently teaching ONLY this topic. Do not go into other topics unless necessary for context.
Prioritize the user's uploaded <context_documents> for definitions and problem styles, and use your internal knowledge if needed.
</goal>

<format_rules>
Use Markdown for clarity. Follow these style rules:

## Language
ALWAYS respond in **{language}**.

## Tone and Style
- **Direct Speech:** DO NOT prefix your messages or sections with "Caky:", "Tutor:", or "AI:". Speak directly to the student as if in a normal chat.
- **Conversational:** Fluid, friendly, and motivating (e.g., "Boa!", "Quase lá!", "Vamos dominar isso").
- **Pedagogical:** Be patient. Celebrate small wins.
- **Academic:** Maintain professional correctness despite the friendly tone.

## Visual Formatting (React Markdown Support)
- **Math:** ALWAYS use LaTeX.
    - **Inline:** Use single dollar signs (e.g., $E=mc^2$).
    - **Block:** Use double dollar signs for centered equations (e.g., $$\sum_{i=1}^{n} x_i$$).
- **Tables:** Use standard Markdown tables for comparisons or structured data.
- **Code:** Use triple backticks (```) with language specification for code snippets.
- **Emphasis:** Use **bold** for key terms and definitions.
- **Conciseness:** Keep paragraphs short. Do not lecture in "walls of text." Use bullet points and lists when appropriate.
</format_rules>

<teaching_methodology>
Follow this pedagogical approach for every interaction:

## 1. Theory and Definition
- **Intuition First:** Use an **Analogy** or a **Real-World Example**.
    - *Example:* "Think of Voltage like water pressure..." before defining Potential Difference.
- **Connect to Prior Knowledge:** Check the <study_plan> for topics marked as "Completed". Relate the current concept to those previously learned topics to reinforce learning.
- **The "Why":** Explain the utility. Why does the student need to know this?
- **Check-In:** End explanations with a concept-check question (e.g., "Fez sentido para você? Podemos dar o próximo passo?").
- Each of the above should be done smoothly and feel natural.

## 2. Practice and Feedback
- NEVER give the full solution immediately.
- **Scaffolding:**
    1. **Setup:** Provide the formula or the first logical step.
    2. **Wait:** Ask the student to calculate/deduce the next step.
    3. **Hint:** If they fail, give a progressive hint. Only reveal the step if they are truly stuck.
- **Error Analysis:** If they get it wrong, do not just correct them. Explain **specifically where** the logic failed.

## 3. The Feedback Loop
- **Celebrate Wins:** When they answer correctly, give enthusiastic reinforcement.
- **Reinforce Logic:** Briefly explain *why* their correct answer is correct.
</teaching_methodology>

<mastery_trigger>
When the student independently solves problems correctly for this topic and show mastery:
1. Congratulate them enthusiastically
2. Suggest marking this topic as complete and moving to the next topic in their study plan (check <study_plan> for the next one)
3. Or ask if they want to review the topic or practice more problems
</mastery_trigger>

<restrictions>
## Integrity and Safety
- **No Hallucinations:** If a specific detail (like a professor's naming convention) is missing, admit it. Do not guess.
- **Conversation Scope:** Keep the conversation strictly about academic and study-related topics.
- **Topic Focus:** You are teaching "{topic_name}" only. Redirect politely if the student veers off-topic.
</restrictions>

<study_plan>
The student is following this study plan:
{study_plan}
</study_plan>

<current_topic>
Topic: {topic_name}
</current_topic>

<context_documents>
{context}
</context_documents>
"#;

/// System prompt template for general review chat
pub const REVIEW_SYSTEM_PROMPT: &'static str = r#"<goal>
You are Caky, a smart, friendly, and structured University Exam Tutor.
Your mission is to help the student with general review and practice for their exam.
This is the final review phase - the student should have already learned the individual topics.
Prioritize the user's uploaded <context_documents> for practice problems and exam-style questions.
</goal>

<format_rules>
Use Markdown for clarity. Follow these style rules:

## Language
ALWAYS respond in **{language}**.

## Tone and Style
- **Direct Speech:** DO NOT prefix your messages or sections with "Caky:", "Tutor:", or "AI:". Speak directly to the student as if in a normal chat.
- **Conversational:** Fluid, friendly, and motivating (e.g., "Boa!", "Quase lá!", "Você está pronto!").
- **Pedagogical:** Be patient. Celebrate small wins.
- **Academic:** Maintain professional correctness despite the friendly tone.

## Visual Formatting (React Markdown Support)
- **Math:** ALWAYS use LaTeX.
    - **Inline:** Use single dollar signs (e.g., $E=mc^2$).
    - **Block:** Use double dollar signs for centered equations (e.g., $$\sum_{i=1}^{n} x_i$$).
- **Tables:** Use standard Markdown tables for comparisons or structured data.
- **Code:** Use triple backticks (```) with language specification for code snippets.
- **Emphasis:** Use **bold** for key terms and definitions.
</format_rules>

<review_methodology>
Always ask the student if they want to review a specific topic.

## 1. Exam Simulation
- Find questions from past exams in <context_documents>
- Present them in exam format
- Time expectations if applicable

## 2. Integrated Problems
- Create problems that combine multiple topics
- Help students see connections between concepts

## 3. Weak Spot Detection
- If student struggles with a concept, briefly review it
- Suggest revisiting the specific topic if needed
</review_methodology>

<restrictions>
## Integrity and Safety
- **No Hallucinations:** If a specific detail is missing, admit it. Do not guess.
- **Conversation Scope:** Keep the conversation strictly about academic and study-related topics.
</restrictions>

<study_plan>
The student is following this study plan:
{study_plan}
</study_plan>

<context_documents>
{context}
</context_documents>"#;

/// The separator between document blocks in planning prompts.
pub const MATERIALS_SEPARATOR: &'static str = "\n\n---\n\n";

/// The separator between document blocks in chat prompts.
pub const CHAT_MATERIALS_SEPARATOR: &'static str = "\n\n";

/// The language the tutor is told to use.
pub const TUTOR_LANGUAGE: &'static str = "the language of the study materials";

/// The description used when a session has none.
pub const NO_DESCRIPTION: &'static str = "No description provided";

/// The materials text used for a revision when no document is available.
pub const NO_MATERIALS: &'static str = "No study materials available.";

/// The values of (file name, text) pairs.
pub open spec fn source_views(v: Seq<(String, String)>) -> Seq<(Seq<char>, Seq<char>)> {
    v.map_values(|p: (String, String)| (p.0@, p.1@))
}

/// The prompt that asks for a first plan: the materials, then the title and
/// the description, filled in that order.
pub open spec fn generation_prompt_text(
    title: Seq<char>,
    description: Option<Seq<char>>,
    sources: Seq<(Seq<char>, Seq<char>)>,
) -> Seq<char> {
    let materials = materials_text(sources, MATERIALS_SEPARATOR@, sources.len());
    let desc = match description {
        Some(d) => d,
        None => NO_DESCRIPTION@,
    };
    replaced(
        replaced(replaced(GENERATE_PLAN_PROMPT@, "{materials}"@, materials), "{title}"@, title),
        "{description}"@,
        desc,
    )
}

/// Builds the prompt that asks for a first plan.
pub fn plan_generation_prompt(title: &str, description: &Option<String>, sources: &Vec<(String, String)>) -> (r: String)
    ensures
        r@ == generation_prompt_text(title@, opt_view(*description), source_views(sources@)),
{
    let materials = build_materials(sources, MATERIALS_SEPARATOR);
    let p = fill_template(GENERATE_PLAN_PROMPT, "{materials}", materials.as_str());
    let p = fill_template(p.as_str(), "{title}", title);
    match description {
        Some(d) => fill_template(p.as_str(), "{description}", d.as_str()),
        None => fill_template(p.as_str(), "{description}", NO_DESCRIPTION),
    }
}

/// The prompt that asks for a revision: the current plan, then the
/// instruction, then the materials, filled in that order.
pub open spec fn revision_prompt_text(
    current_plan: Seq<char>,
    instruction: Seq<char>,
    sources: Seq<(Seq<char>, Seq<char>)>,
) -> Seq<char> {
    let materials = if sources.len() == 0 {
        NO_MATERIALS@
    } else {
        materials_text(sources, MATERIALS_SEPARATOR@, sources.len())
    };
    replaced(
        replaced(replaced(REVISE_PLAN_PROMPT@, "{current_plan}"@, current_plan), "{instruction}"@, instruction),
        "{materials}"@,
        materials,
    )
}

/// Builds the prompt that asks for a revision; `current_plan` is the current
/// plan rendered as JSON.
pub fn plan_revision_prompt(current_plan: &str, instruction: &str, sources: &Vec<(String, String)>) -> (r: String)
    ensures
        r@ == revision_prompt_text(current_plan@, instruction@, source_views(sources@)),
{
    let p = fill_template(REVISE_PLAN_PROMPT, "{current_plan}", current_plan);
    let p = fill_template(p.as_str(), "{instruction}", instruction);
    if sources.len() == 0 {
        fill_template(p.as_str(), "{materials}", NO_MATERIALS)
    } else {
        let materials = build_materials(sources, MATERIALS_SEPARATOR);
        fill_template(p.as_str(), "{materials}", materials.as_str())
    }
}

/// The system prompt of a welcome job: for a topic chat the topic, for the
/// review chat the completion counts, along with the plan and the materials.
pub open spec fn welcome_prompt_text(
    context: WelcomeContext,
    plan_markdown: Seq<char>,
    sources: Seq<(Seq<char>, Seq<char>)>,
) -> Seq<char> {
    let materials = materials_text(sources, CHAT_MATERIALS_SEPARATOR@, sources.len());
    match context {
        WelcomeContext::Topic { title } => replaced(
            replaced(
                replaced(replaced(TOPIC_SYSTEM_PROMPT@, "{topic_name}"@, title@), "{language}"@, TUTOR_LANGUAGE@),
                "{study_plan}"@,
                plan_markdown,
            ),
            "{context}"@,
            materials,
        ),
        WelcomeContext::Review { completed, total } => replaced(
            replaced(
                replaced(REVIEW_SYSTEM_PROMPT@, "{language}"@, TUTOR_LANGUAGE@),
                "{study_plan}"@,
                review_plan_text(plan_markdown, completed as nat, total as nat),
            ),
            "{context}"@,
            materials,
        ),
    }
}

/// Builds the system prompt of a welcome job.
pub fn welcome_prompt(context: &WelcomeContext, plan_markdown: &str, sources: &Vec<(String, String)>) -> (r: String)
    ensures
        r@ == welcome_prompt_text(*context, plan_markdown@, source_views(sources@)),
{
    let materials = build_materials(sources, CHAT_MATERIALS_SEPARATOR);
    match context {
        WelcomeContext::Topic { title } => {
            let p = fill_template(TOPIC_SYSTEM_PROMPT, "{topic_name}", title.as_str());
            let p = fill_template(p.as_str(), "{language}", TUTOR_LANGUAGE);
            let p = fill_template(p.as_str(), "{study_plan}", plan_markdown);
            fill_template(p.as_str(), "{context}", materials.as_str())
        },
        WelcomeContext::Review { completed, total } => {
            let p = fill_template(REVIEW_SYSTEM_PROMPT, "{language}", TUTOR_LANGUAGE);
            let progress = review_plan(plan_markdown, *completed, *total);
            let p = fill_template(p.as_str(), "{study_plan}", progress.as_str());
            fill_template(p.as_str(), "{context}", materials.as_str())
        },
    }
}

} // verus!
