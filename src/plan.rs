//! Multi-round planning sessions over a process that keeps no memory: the
//! session holds the transcript and rebuilds the full context into each
//! new prompt.

use vstd::prelude::*;

verus! {

/// Stage of a planning session.
#[derive(Debug, Clone, Copy, PartialEq, Eq, Structural)]
pub enum PlanStatus {
    /// The agent is working; no question is pending.
    Processing,
    /// Questions wait for the user's answers.
    WaitingForAnswer,
    /// The agent produced its final plan.
    Summary,
    /// A task was created from the plan.
    Completed,
    /// The user cancelled.
    Cancelled,
    /// The session failed.
    Error,
}

/// One choice offered with a question.
#[derive(Debug, Clone)]
pub struct QuestionOption {
    pub label: String,
    pub description: String,
}

/// A question the agent asked.
#[derive(Debug, Clone)]
pub struct PlanQuestion {
    pub index: usize,
    pub question: String,
    pub header: String,
    pub options: Vec<QuestionOption>,
    pub multi_select: bool,
    pub tool_use_id: String,
}

/// The user's answer to one question.
#[derive(Debug, Clone)]
pub struct PlanAnswer {
    pub question_index: usize,
    pub answers: Vec<String>,
}

/// Snapshot of a session for callers outside the engine.
#[derive(Debug, Clone)]
pub struct PlanSessionInfo {
    pub id: String,
    pub title: String,
    pub prompt: String,
    pub questions: Vec<PlanQuestion>,
    pub answers: Vec<PlanAnswer>,
    pub status: PlanStatus,
    pub summary: Option<String>,
    pub ask_questions: bool,
}

/// A planning session and its transcript.
pub struct PlanSession {
    pub id: String,
    pub title: String,
    pub prompt: String,
    /// Every question asked so far, in order.
    pub questions: Vec<PlanQuestion>,
    /// Every answer given so far, in order.
    pub answers: Vec<PlanAnswer>,
    pub status: PlanStatus,
    pub summary: Option<String>,
    /// Clock reading, in seconds, when the session was made.
    pub created_at: u64,
    /// Clock reading, in seconds, of the last change.
    pub last_activity: u64,
    /// Raw output of the agent, one line after another.
    pub accumulated_output: String,
    /// Questions of the current round that still wait for answers.
    pub pending_questions: Vec<PlanQuestion>,
    /// Whether the agent should interview the user before concluding.
    pub ask_questions: bool,
    /// Text of the plan document the agent wrote, if any.
    pub plan_content: Option<String>,
}

pub struct PlanQuestionView {
    pub index: nat,
    pub question: Seq<char>,
    pub header: Seq<char>,
    pub options: Seq<(Seq<char>, Seq<char>)>,
    pub multi_select: bool,
    pub tool_use_id: Seq<char>,
}

pub struct PlanAnswerView {
    pub question_index: nat,
    pub answers: Seq<Seq<char>>,
}

impl View for QuestionOption {
    type V = (Seq<char>, Seq<char>);

    open spec fn view(&self) -> (Seq<char>, Seq<char>) {
        (self.label@, self.description@)
    }
}

impl View for PlanQuestion {
    type V = PlanQuestionView;

    open spec fn view(&self) -> PlanQuestionView {
        PlanQuestionView {
            index: self.index as nat,
            question: self.question@,
            header: self.header@,
            options: self.options@.map_values(|o: QuestionOption| o@),
            multi_select: self.multi_select,
            tool_use_id: self.tool_use_id@,
        }
    }
}

impl View for PlanAnswer {
    type V = PlanAnswerView;

    open spec fn view(&self) -> PlanAnswerView {
        PlanAnswerView {
            question_index: self.question_index as nat,
            answers: self.answers.deep_view(),
        }
    }
}

pub open spec fn questions_view(s: Seq<PlanQuestion>) -> Seq<PlanQuestionView> {
    s.map_values(|q: PlanQuestion| q@)
}

pub open spec fn answers_view(s: Seq<PlanAnswer>) -> Seq<PlanAnswerView> {
    s.map_values(|a: PlanAnswer| a@)
}

/// Clock reading in seconds.
#[verifier::external_body]
fn clock_secs() -> (r: u64) {
    match std::time::SystemTime::now().duration_since(std::time::UNIX_EPOCH) {
        Ok(d) => d.as_secs(),
        Err(_) => 0,
    }
}

/// The clock reading for a change made at `now` to a session last active
/// at `last`: activity times never go back.
pub open spec fn touched(last: u64, now: u64) -> u64 {
    if now >= last {
        now
    } else {
        last
    }
}

/// Seconds from `from` to `now`; none when the clock went back.
pub open spec fn elapsed(now: u64, from: u64) -> nat {
    if now >= from {
        (now - from) as nat
    } else {
        0
    }
}

/// The items of `s` joined with `sep` between them.
pub open spec fn joined(s: Seq<Seq<char>>, sep: Seq<char>) -> Seq<char>
    decreases s.len(),
{
    if s.len() == 0 {
        Seq::empty()
    } else if s.len() == 1 {
        s[0]
    } else {
        joined(s.drop_last(), sep) + sep + s.last()
    }
}

/// How one question and its answer appear in a rebuilt prompt.
pub open spec fn render_exchange(q: PlanQuestionView, a: PlanAnswerView) -> Seq<char> {
    "**Question ("@ + q.header + ")**: "@ + q.question + "\n"@ + "**User's answer**: "@
        + joined(a.answers, ", "@) + "\n\n"@
}

/// The first `n` exchanges, in order.
pub open spec fn render_exchanges(
    qs: Seq<PlanQuestionView>,
    ans: Seq<PlanAnswerView>,
    n: nat,
) -> Seq<char>
    recommends
        n <= qs.len(),
        n <= ans.len(),
    decreases n,
{
    if n == 0 {
        Seq::empty()
    } else {
        render_exchanges(qs, ans, (n - 1) as nat) + render_exchange(
            qs[n - 1],
            ans[n - 1],
        )
    }
}

pub open spec fn min_len(a: nat, b: nat) -> nat {
    if a <= b {
        a
    } else {
        b
    }
}

pub open spec fn history_heading() -> Seq<char> {
    "\n\n## Previous conversation with the user\n\n"@
}

pub open spec fn continue_instruction() -> Seq<char> {
    "## Continue from here\n\nBased on the user's answers above, continue the planning process. Ask more questions if needed or provide the final implementation plan."@
}

/// The prompt for the next round: the original prompt, then, once any
/// question was asked, every question paired with its answer in order and
/// an instruction to go on from there.
pub open spec fn respawn_prompt(
    prompt: Seq<char>,
    qs: Seq<PlanQuestionView>,
    ans: Seq<PlanAnswerView>,
) -> Seq<char> {
    if qs.len() == 0 {
        prompt
    } else {
        prompt + history_heading() + render_exchanges(qs, ans, min_len(qs.len(), ans.len()))
            + continue_instruction()
    }
}

/// Instruction appended to a planning prompt when the agent should
/// interview the user first.
pub const PLAN_MODE_SUFFIX: &'static str = "\n\nInterview me in detail using the AskUserQuestionTool about literally anything: technical implementation, UI & UX, concerns, tradeoffs, etc. but make sure the questions are not obvious.\nBe very in-depth and continue interviewing me continually until it's complete. After gathering all information, provide a summary of the implementation plan.";

/// The prompt first sent to the agent.
pub open spec fn first_prompt(prompt: Seq<char>, ask_questions: bool) -> Seq<char> {
    if ask_questions {
        prompt + PLAN_MODE_SUFFIX@
    } else {
        prompt
    }
}

/// Whether an answer belongs to one of the pending questions.
pub open spec fn answers_pending(a: PlanAnswerView, pending: Seq<PlanQuestionView>) -> bool {
    exists|j: int| 0 <= j < pending.len() && #[trigger] pending[j].index == a.question_index
}

/// How many of the answers belong to pending questions.
pub open spec fn answered_count(ans: Seq<PlanAnswerView>, pending: Seq<PlanQuestionView>) -> nat
    decreases ans.len(),
{
    if ans.len() == 0 {
        0
    } else {
        answered_count(ans.drop_last(), pending) + if answers_pending(ans.last(), pending) {
            1nat
        } else {
            0nat
        }
    }
}

/// The prompt first sent to the agent: the user's prompt, followed by the
/// interview instruction when questions are wanted.
pub fn plan_prompt(prompt: &str, ask_questions: bool) -> (r: String)
    ensures
        r@ == first_prompt(prompt@, ask_questions),
{
    let mut r = String::from_str(prompt);
    if ask_questions {
        r.append(PLAN_MODE_SUFFIX);
    }
    r
}

impl QuestionOption {
    /// A copy with the same text.
    pub fn duplicate(&self) -> (r: QuestionOption)
        ensures
            r@ == self@,
    {
        QuestionOption { label: self.label.clone(), description: self.description.clone() }
    }
}

/// A copy of a list of strings.
fn duplicate_strings(v: &Vec<String>) -> (r: Vec<String>)
    ensures
        r.deep_view() == v.deep_view(),
{
    let mut r: Vec<String> = Vec::new();
    let mut i: usize = 0;
    while i < v.len()
        invariant
            i <= v@.len(),
            r@.len() == i,
            forall|j: int| 0 <= j < i ==> #[trigger] r@[j]@ == v@[j]@,
        decreases v@.len() - i,
    {
        r.push(v[i].clone());
        i = i + 1;
    }
    assert(r.deep_view() =~= v.deep_view());
    r
}

impl PlanQuestion {
    /// A copy with the same contents.
    pub fn duplicate(&self) -> (r: PlanQuestion)
        ensures
            r@ == self@,
    {
        let mut options: Vec<QuestionOption> = Vec::new();
        let mut i: usize = 0;
        while i < self.options.len()
            invariant
                i <= self.options@.len(),
                options@.len() == i,
                forall|j: int| 0 <= j < i ==> #[trigger] options@[j]@ == self.options@[j]@,
            decreases self.options@.len() - i,
        {
            options.push(self.options[i].duplicate());
            i = i + 1;
        }
        assert(options@.map_values(|o: QuestionOption| o@) =~= self.options@.map_values(
            |o: QuestionOption| o@,
        ));
        PlanQuestion {
            index: self.index,
            question: self.question.clone(),
            header: self.header.clone(),
            options,
            multi_select: self.multi_select,
            tool_use_id: self.tool_use_id.clone(),
        }
    }
}

impl PlanAnswer {
    /// A copy with the same contents.
    pub fn duplicate(&self) -> (r: PlanAnswer)
        ensures
            r@ == self@,
    {
        PlanAnswer { question_index: self.question_index, answers: duplicate_strings(&self.answers) }
    }
}

/// A copy of a list of questions.
fn duplicate_questions(v: &Vec<PlanQuestion>) -> (r: Vec<PlanQuestion>)
    ensures
        questions_view(r@) == questions_view(v@),
{
    let mut r: Vec<PlanQuestion> = Vec::new();
    let mut i: usize = 0;
    while i < v.len()
        invariant
            i <= v@.len(),
            r@.len() == i,
            forall|j: int| 0 <= j < i ==> #[trigger] r@[j]@ == v@[j]@,
        decreases v@.len() - i,
    {
        r.push(v[i].duplicate());
        i = i + 1;
    }
    assert(questions_view(r@) =~= questions_view(v@));
    r
}

/// A copy of a list of answers.
fn duplicate_answers(v: &Vec<PlanAnswer>) -> (r: Vec<PlanAnswer>)
    ensures
        answers_view(r@) == answers_view(v@),
{
    let mut r: Vec<PlanAnswer> = Vec::new();
    let mut i: usize = 0;
    while i < v.len()
        invariant
            i <= v@.len(),
            r@.len() == i,
            forall|j: int| 0 <= j < i ==> #[trigger] r@[j]@ == v@[j]@,
        decreases v@.len() - i,
    {
        r.push(v[i].duplicate());
        i = i + 1;
    }
    assert(answers_view(r@) =~= answers_view(v@));
    r
}

/// The activity time after a change at clock reading `now`.
fn touch(last: u64, now: u64) -> (r: u64)
    ensures
        r == touched(last, now),
        r >= last,
{
    if now >= last {
        now
    } else {
        last
    }
}

/// The items joined with `sep` between them.
fn join_strings(v: &Vec<String>, sep: &str) -> (r: String)
    ensures
        r@ == joined(v.deep_view(), sep@),
{
    let ghost dv = v.deep_view();
    let mut r = String::new();
    let mut i: usize = 0;
    while i < v.len()
        invariant
            dv == v.deep_view(),
            dv.len() == v@.len(),
            i <= v@.len(),
            r@ == joined(dv.subrange(0, i as int), sep@),
        decreases v@.len() - i,
    {
        proof {
            let s1 = dv.subrange(0, i + 1);
            assert(s1.drop_last() == dv.subrange(0, i as int));
            assert(s1.last() == v@[i as int]@);
            if i == 0 {
                assert(s1[0] == v@[0]@);
            }
        }
        if i > 0 {
            r.append(sep);
        }
        r.append(v[i].as_str());
        i = i + 1;
    }
    assert(dv.subrange(0, v@.len() as int) == dv);
    r
}

/// Adds one rendered exchange to `r`.
fn push_exchange(r: &mut String, q: &PlanQuestion, a: &PlanAnswer)
    ensures
        final(r)@ == old(r)@ + render_exchange(q@, a@),
{
    let ghost start = r@;
    r.append("**Question (");
    r.append(q.header.as_str());
    r.append(")**: ");
    r.append(q.question.as_str());
    r.append("\n");
    r.append("**User's answer**: ");
    let joined_answers = join_strings(&a.answers, ", ");
    r.append(joined_answers.as_str());
    r.append("\n\n");
    assert(r@ =~= start + render_exchange(q@, a@));
}

impl PlanSession {
    /// The fields that no round changes.
    pub open spec fn same_record(&self, other: &PlanSession) -> bool {
        &&& self.id == other.id
        &&& self.title == other.title
        &&& self.prompt == other.prompt
        &&& self.created_at == other.created_at
        &&& self.ask_questions == other.ask_questions
        &&& self.plan_content == other.plan_content
    }

    /// A new session: processing, with an empty transcript.
    pub fn new(id: String, title: String, prompt: String, ask_questions: bool) -> (r: PlanSession)
        ensures
            r.id == id,
            r.title == title,
            r.prompt == prompt,
            r.ask_questions == ask_questions,
            r.questions@.len() == 0,
            r.answers@.len() == 0,
            r.pending_questions@.len() == 0,
            r.status == PlanStatus::Processing,
            r.summary is None,
            r.plan_content is None,
            r.accumulated_output@.len() == 0,
            r.last_activity == r.created_at,
    {
        let now = clock_secs();
        PlanSession {
            id,
            title,
            prompt,
            questions: Vec::new(),
            answers: Vec::new(),
            status: PlanStatus::Processing,
            summary: None,
            created_at: now,
            last_activity: now,
            accumulated_output: String::new(),
            pending_questions: Vec::new(),
            ask_questions,
            plan_content: None,
        }
    }

    /// Records a round of questions: they join the log, become the pending
    /// set, and the session waits for answers.
    pub fn add_questions(&mut self, questions: Vec<PlanQuestion>)
        ensures
            final(self).same_record(old(self)),
            exists|now: u64| final(self).last_activity == touched(old(self).last_activity, now),
            final(self).last_activity >= old(self).last_activity,
            questions_view(final(self).questions@) == questions_view(old(self).questions@)
                + questions_view(questions@),
            questions_view(final(self).pending_questions@) == questions_view(questions@),
            final(self).answers == old(self).answers,
            final(self).status == PlanStatus::WaitingForAnswer,
            final(self).summary == old(self).summary,
            final(self).accumulated_output == old(self).accumulated_output,
    {
        let ghost before = self.questions@;
        let ghost given = questions@;
        self.pending_questions = duplicate_questions(&questions);
        let mut questions = questions;
        self.questions.append(&mut questions);
        assert(questions_view(self.questions@) =~= questions_view(before) + questions_view(given));
        self.status = PlanStatus::WaitingForAnswer;
        self.last_activity = touch(self.last_activity, clock_secs());
    }

    /// Records the answers of a round: they join the log, nothing stays
    /// pending, and the agent works again.
    pub fn add_answers(&mut self, answers: Vec<PlanAnswer>)
        ensures
            final(self).same_record(old(self)),
            exists|now: u64| final(self).last_activity == touched(old(self).last_activity, now),
            final(self).last_activity >= old(self).last_activity,
            final(self).answers@ == old(self).answers@ + answers@,
            final(self).questions == old(self).questions,
            final(self).pending_questions@.len() == 0,
            final(self).status == PlanStatus::Processing,
            final(self).summary == old(self).summary,
            final(self).accumulated_output == old(self).accumulated_output,
    {
        let mut answers = answers;
        self.answers.append(&mut answers);
        self.pending_questions.clear();
        self.status = PlanStatus::Processing;
        self.last_activity = touch(self.last_activity, clock_secs());
    }

    /// Records one answer; once the answers that belong to pending questions
    /// are as many as those questions, nothing stays pending and the agent
    /// works again.
    pub fn add_answer(&mut self, answer: PlanAnswer)
        ensures
            final(self).same_record(old(self)),
            exists|now: u64| final(self).last_activity == touched(old(self).last_activity, now),
            final(self).last_activity >= old(self).last_activity,
            final(self).answers@ == old(self).answers@.push(answer),
            final(self).questions == old(self).questions,
            final(self).summary == old(self).summary,
            final(self).accumulated_output == old(self).accumulated_output,
            ({
                let done = answered_count(
                    answers_view(final(self).answers@),
                    questions_view(old(self).pending_questions@),
                ) >= old(self).pending_questions@.len();
                &&& done ==> final(self).pending_questions@.len() == 0
                    && final(self).status == PlanStatus::Processing
                &&& !done ==> final(self).pending_questions == old(self).pending_questions
                    && final(self).status == old(self).status
            }),
    {
        self.answers.push(answer);
        let ghost av = answers_view(self.answers@);
        let ghost pv = questions_view(self.pending_questions@);
        let mut count: usize = 0;
        let mut i: usize = 0;
        while i < self.answers.len()
            invariant
                av == answers_view(self.answers@),
                pv == questions_view(self.pending_questions@),
                i <= self.answers@.len(),
                count == answered_count(av.subrange(0, i as int), pv),
                count <= i,
            decreases self.answers@.len() - i,
        {
            let qi = self.answers[i].question_index;
            let mut found = false;
            let mut j: usize = 0;
            while j < self.pending_questions.len()
                invariant
                    pv == questions_view(self.pending_questions@),
                    j <= self.pending_questions@.len(),
                    i < av.len(),
                    qi == av[i as int].question_index,
                    found == exists|k: int| 0 <= k < j && #[trigger] pv[k].index == qi,
                decreases self.pending_questions@.len() - j,
            {
                if self.pending_questions[j].index == qi {
                    found = true;
                }
                proof {
                    assert(pv[j as int].index == self.pending_questions@[j as int].index);
                }
                j = j + 1;
            }
            proof {
                let s1 = av.subrange(0, i + 1);
                assert(s1.drop_last() == av.subrange(0, i as int));
                assert(s1.last() == av[i as int]);
                assert(found == answers_pending(av[i as int], pv));
            }
            if found {
                count = count + 1;
            }
            i = i + 1;
        }
        assert(av.subrange(0, self.answers@.len() as int) == av);
        if count >= self.pending_questions.len() {
            self.pending_questions.clear();
            self.status = PlanStatus::Processing;
        }
        self.last_activity = touch(self.last_activity, clock_secs());
    }

    /// Adds one line of agent output, followed by a newline.
    pub fn append_output(&mut self, line: &str)
        ensures
            final(self).same_record(old(self)),
            exists|now: u64| final(self).last_activity == touched(old(self).last_activity, now),
            final(self).last_activity >= old(self).last_activity,
            final(self).accumulated_output@ == old(self).accumulated_output@ + line@ + "\n"@,
            final(self).questions == old(self).questions,
            final(self).answers == old(self).answers,
            final(self).pending_questions == old(self).pending_questions,
            final(self).status == old(self).status,
            final(self).summary == old(self).summary,
    {
        let ghost start = self.accumulated_output@;
        self.accumulated_output.append(line);
        self.accumulated_output.append("\n");
        assert(self.accumulated_output@ =~= start + line@ + "\n"@);
        self.last_activity = touch(self.last_activity, clock_secs());
    }

    /// Stores the final plan text; the session shows its summary.
    pub fn set_summary(&mut self, summary: String)
        ensures
            final(self).same_record(old(self)),
            exists|now: u64| final(self).last_activity == touched(old(self).last_activity, now),
            final(self).last_activity >= old(self).last_activity,
            final(self).summary == Some(summary),
            final(self).status == PlanStatus::Summary,
            final(self).questions == old(self).questions,
            final(self).answers == old(self).answers,
            final(self).pending_questions == old(self).pending_questions,
            final(self).accumulated_output == old(self).accumulated_output,
    {
        self.summary = Some(summary);
        self.status = PlanStatus::Summary;
        self.last_activity = touch(self.last_activity, clock_secs());
    }

    /// Whether the session has been idle longer than `timeout_secs` at
    /// clock reading `now`.
    pub fn is_expired_at(&self, now: u64, timeout_secs: u64) -> (r: bool)
        ensures
            r == (elapsed(now, self.last_activity) > timeout_secs),
    {
        if now >= self.last_activity {
            now - self.last_activity > timeout_secs
        } else {
            false
        }
    }

    /// Whether the session has been idle longer than `timeout_secs` now.
    pub fn is_expired(&self, timeout_secs: u64) -> (r: bool)
        ensures
            exists|now: u64| r == (elapsed(now, self.last_activity) > timeout_secs),
    {
        let now = clock_secs();
        self.is_expired_at(now, timeout_secs)
    }

    /// Index the next question will get: the number asked so far.
    pub fn current_question_index(&self) -> (r: usize)
        ensures
            r == self.questions@.len(),
    {
        self.questions.len()
    }

    /// The prompt for the next process: the original prompt, then every
    /// question with its answer in order, then an instruction to go on.
    pub fn build_respawn_prompt(&self) -> (r: String)
        ensures
            r@ == respawn_prompt(
                self.prompt@,
                questions_view(self.questions@),
                answers_view(self.answers@),
            ),
    {
        let mut r = self.prompt.clone();
        if self.questions.len() > 0 {
            let ghost qv = questions_view(self.questions@);
            let ghost av = answers_view(self.answers@);
            r.append("\n\n## Previous conversation with the user\n\n");
            let n = if self.questions.len() <= self.answers.len() {
                self.questions.len()
            } else {
                self.answers.len()
            };
            let mut i: usize = 0;
            while i < n
                invariant
                    qv == questions_view(self.questions@),
                    av == answers_view(self.answers@),
                    n <= self.questions@.len(),
                    n <= self.answers@.len(),
                    i <= n,
                    r@ == self.prompt@ + history_heading() + render_exchanges(qv, av, i as nat),
                decreases n - i,
            {
                let ghost before = r@;
                push_exchange(&mut r, &self.questions[i], &self.answers[i]);
                proof {
                    assert(qv[i as int] == self.questions@[i as int]@);
                    assert(av[i as int] == self.answers@[i as int]@);
                    assert(render_exchanges(qv, av, (i + 1) as nat) == render_exchanges(
                        qv,
                        av,
                        i as nat,
                    ) + render_exchange(qv[i as int], av[i as int]));
                    assert(r@ =~= self.prompt@ + history_heading() + render_exchanges(
                        qv,
                        av,
                        (i + 1) as nat,
                    ));
                }
                i = i + 1;
            }
            let ghost mid = r@;
            r.append("## Continue from here\n\nBased on the user's answers above, continue the planning process. Ask more questions if needed or provide the final implementation plan.");
            assert(r@ =~= mid + continue_instruction());
        }
        r
    }

    /// A snapshot of the session.
    pub fn to_info(&self) -> (r: PlanSessionInfo)
        ensures
            r.id == self.id,
            r.title == self.title,
            r.prompt == self.prompt,
            questions_view(r.questions@) == questions_view(self.questions@),
            answers_view(r.answers@) == answers_view(self.answers@),
            r.status == self.status,
            r.summary == self.summary,
            r.ask_questions == self.ask_questions,
    {
        PlanSessionInfo {
            id: self.id.clone(),
            title: self.title.clone(),
            prompt: self.prompt.clone(),
            questions: duplicate_questions(&self.questions),
            answers: duplicate_answers(&self.answers),
            status: self.status,
            summary: match &self.summary {
                Some(s) => Some(s.clone()),
                None => None,
            },
            ask_questions: self.ask_questions,
        }
    }
}

/// A fresh session given two questions and then their two answers asks
/// the next process with the original prompt, both exchanges in the order
/// they were asked, and the instruction to continue.
pub proof fn lemma_two_round_prompt(
    prompt: Seq<char>,
    q0: PlanQuestionView,
    q1: PlanQuestionView,
    a0: PlanAnswerView,
    a1: PlanAnswerView,
)
    ensures
        respawn_prompt(
            prompt,
            Seq::<PlanQuestionView>::empty() + seq![q0, q1],
            Seq::<PlanAnswerView>::empty() + seq![a0, a1],
        ) == prompt + history_heading() + render_exchange(q0, a0) + render_exchange(q1, a1)
            + continue_instruction(),
{
    let qs = Seq::<PlanQuestionView>::empty() + seq![q0, q1];
    let ans = Seq::<PlanAnswerView>::empty() + seq![a0, a1];
    assert(qs =~= seq![q0, q1]);
    assert(ans =~= seq![a0, a1]);
    assert(render_exchanges(qs, ans, 0) =~= Seq::<char>::empty());
    assert(render_exchanges(qs, ans, 1) =~= render_exchange(q0, a0));
    assert(render_exchanges(qs, ans, 2) =~= render_exchange(q0, a0) + render_exchange(q1, a1));
    assert(respawn_prompt(prompt, qs, ans) =~= prompt + history_heading() + render_exchange(q0, a0)
        + render_exchange(q1, a1) + continue_instruction());
}

/// The rebuilt prompt always begins with the original prompt.
pub proof fn lemma_respawn_keeps_prompt(
    prompt: Seq<char>,
    qs: Seq<PlanQuestionView>,
    ans: Seq<PlanAnswerView>,
)
    ensures
        respawn_prompt(prompt, qs, ans).subrange(0, prompt.len() as int) == prompt,
{
    if qs.len() > 0 {
        let rest = history_heading() + render_exchanges(qs, ans, min_len(qs.len(), ans.len()))
            + continue_instruction();
        assert(respawn_prompt(prompt, qs, ans) =~= prompt + rest);
        assert((prompt + rest).subrange(0, prompt.len() as int) =~= prompt);
    } else {
        assert(prompt.subrange(0, prompt.len() as int) =~= prompt);
    }
}

/// Ids of the sessions idle longer than `timeout_secs` at clock reading
/// `now`, in order.
pub open spec fn expired_ids(sessions: Seq<PlanSession>, now: u64, timeout_secs: u64) -> Seq<Seq<char>>
    decreases sessions.len(),
{
    if sessions.len() == 0 {
        Seq::empty()
    } else {
        let rest = expired_ids(sessions.drop_last(), now, timeout_secs);
        if elapsed(now, sessions.last().last_activity) > timeout_secs {
            rest.push(sessions.last().id@)
        } else {
            rest
        }
    }
}

/// The sessions to evict: those idle longer than `timeout_secs` at `now`.
pub fn expired_session_ids(sessions: &Vec<PlanSession>, now: u64, timeout_secs: u64) -> (r: Vec<String>)
    ensures
        r.deep_view() == expired_ids(sessions@, now, timeout_secs),
{
    let mut out: Vec<String> = Vec::new();
    let mut i: usize = 0;
    while i < sessions.len()
        invariant
            i <= sessions@.len(),
            out.deep_view() == expired_ids(sessions@.subrange(0, i as int), now, timeout_secs),
        decreases sessions@.len() - i,
    {
        let ghost before = out.deep_view();
        proof {
            let s1 = sessions@.subrange(0, i + 1);
            assert(s1.drop_last() =~= sessions@.subrange(0, i as int));
            assert(s1.last() == sessions@[i as int]);
        }
        if sessions[i].is_expired_at(now, timeout_secs) {
            out.push(sessions[i].id.clone());
            assert(out.deep_view() =~= before.push(sessions@[i as int].id@));
        }
        i = i + 1;
    }
    assert(sessions@.subrange(0, sessions@.len() as int) == sessions@);
    out
}

} // verus!
