//! The learner's side of a tutor conversation: reviewing a teacher's message
//! (understood / not understood / translate it), then drafting a reply until
//! it is accepted, at which point the teacher gets a summary.
//!
//! Judging and teaching are done by a language model, outside this crate.
//! `learner_message_start` takes the session and the learner's text and either
//! finishes the turn or asks for one model call; `learner_message_resume`
//! takes the model's answer and does the same.

use vstd::prelude::*;
use crate::text::{chars_eq_str, opt_chars, decimal, string_of, trim, trimmed, usize_text};

verus! {

// ---------------------------------------------------------------------------
// Session state
// ---------------------------------------------------------------------------

pub enum LearnerSession {
    Idle,
    Reviewing(ReviewState),
    Replying(ReplyState),
}

pub struct ReviewState {
    pub message: String,
    pub phase: ReviewPhase,
    pub attempts: Vec<ReviewAttempt>,
}

#[derive(Debug, Clone, Copy, PartialEq, Eq, Structural)]
pub enum ReviewPhase {
    Choosing,
    Teaching,
    Quizzing,
}

pub struct ReviewAttempt {
    pub message: String,
    pub accepted: bool,
    pub feedback: String,
}

pub struct ReplyState {
    pub teacher_message: String,
    pub understanding: UnderstandingSummary,
    pub attempts: Vec<ReplyAttempt>,
}

#[derive(Debug, Clone, Copy, PartialEq, Eq, Structural)]
pub enum UnderstandingSummary {
    UnderstoodCompletely,
    DidNotUnderstand,
    TranslatedCorrectly { translation_attempts: usize },
    TranslatedIncorrectly { translation_attempts: usize },
}

pub struct ReplyAttempt {
    pub message: String,
    pub accepted: bool,
    pub feedback: String,
}

/// What one learner message produces: texts for the learner, and, once a
/// reply is accepted, the summary for the teacher and the reply itself.
pub struct LearnerTurn {
    pub learner_messages: Vec<String>,
    pub teacher_message: Option<String>,
    pub completed_reply: Option<String>,
}

/// A model's verdict on a text.
pub struct JudgmentResponse {
    pub accepted: bool,
    pub feedback: String,
}

/// A call to the language model that the learner's turn waits for.
pub enum LearnerRequest {
    /// Explain `original` in full.
    TeachMessage { original: String },
    /// Judge `attempt` as a translation of `original`.
    RateReviewAttempt { attempt: String, original: String },
    /// Explain `original`, with tips on the wrong translation `wrong_attempt`.
    TeachMessageWithTips { original: String, wrong_attempt: String },
    /// Judge `attempt` as a reply in the target language.
    ValidateReply { attempt: String },
}

/// The model's answer to a `LearnerRequest`.
pub enum LlmReply {
    Lesson(String),
    Judgment(JudgmentResponse),
}

/// Where a learner's turn stands.
pub enum LearnerStep {
    Finished { session: LearnerSession, turn: LearnerTurn },
    Ask { session: LearnerSession, request: LearnerRequest },
}

// ---------------------------------------------------------------------------
// Views
// ---------------------------------------------------------------------------

pub struct AttemptView {
    pub message: Seq<char>,
    pub accepted: bool,
    pub feedback: Seq<char>,
}

pub struct ReviewView {
    pub message: Seq<char>,
    pub phase: ReviewPhase,
    pub attempts: Seq<AttemptView>,
}

pub struct ReplyView {
    pub teacher_message: Seq<char>,
    pub understanding: UnderstandingSummary,
    pub attempts: Seq<AttemptView>,
}

pub enum SessionView {
    Idle,
    Reviewing(ReviewView),
    Replying(ReplyView),
}

pub struct TurnView {
    pub learner_messages: Seq<Seq<char>>,
    pub teacher_message: Option<Seq<char>>,
    pub completed_reply: Option<Seq<char>>,
}

pub enum RequestView {
    TeachMessage { original: Seq<char> },
    RateReviewAttempt { attempt: Seq<char>, original: Seq<char> },
    TeachMessageWithTips { original: Seq<char>, wrong_attempt: Seq<char> },
    ValidateReply { attempt: Seq<char> },
}

pub enum ReplyKind {
    Lesson(Seq<char>),
    Judgment(bool, Seq<char>),
}

pub enum StepView {
    Finished { session: SessionView, turn: TurnView },
    Ask { session: SessionView, request: RequestView },
}

impl View for ReviewAttempt {
    type V = AttemptView;

    open spec fn view(&self) -> AttemptView {
        AttemptView { message: self.message@, accepted: self.accepted, feedback: self.feedback@ }
    }
}

impl View for ReplyAttempt {
    type V = AttemptView;

    open spec fn view(&self) -> AttemptView {
        AttemptView { message: self.message@, accepted: self.accepted, feedback: self.feedback@ }
    }
}

pub open spec fn review_attempts_view(v: Seq<ReviewAttempt>) -> Seq<AttemptView> {
    Seq::new(v.len(), |i: int| v[i]@)
}

pub open spec fn reply_attempts_view(v: Seq<ReplyAttempt>) -> Seq<AttemptView> {
    Seq::new(v.len(), |i: int| v[i]@)
}

pub open spec fn strings_view(v: Seq<String>) -> Seq<Seq<char>> {
    Seq::new(v.len(), |i: int| v[i]@)
}

impl View for ReviewState {
    type V = ReviewView;

    open spec fn view(&self) -> ReviewView {
        ReviewView {
            message: self.message@,
            phase: self.phase,
            attempts: review_attempts_view(self.attempts@),
        }
    }
}

impl View for ReplyState {
    type V = ReplyView;

    open spec fn view(&self) -> ReplyView {
        ReplyView {
            teacher_message: self.teacher_message@,
            understanding: self.understanding,
            attempts: reply_attempts_view(self.attempts@),
        }
    }
}

impl View for LearnerSession {
    type V = SessionView;

    open spec fn view(&self) -> SessionView {
        match self {
            LearnerSession::Idle => SessionView::Idle,
            LearnerSession::Reviewing(r) => SessionView::Reviewing(r@),
            LearnerSession::Replying(r) => SessionView::Replying(r@),
        }
    }
}

impl View for LearnerTurn {
    type V = TurnView;

    open spec fn view(&self) -> TurnView {
        TurnView {
            learner_messages: strings_view(self.learner_messages@),
            teacher_message: opt_chars(self.teacher_message),
            completed_reply: opt_chars(self.completed_reply),
        }
    }
}

impl View for LearnerRequest {
    type V = RequestView;

    open spec fn view(&self) -> RequestView {
        match self {
            LearnerRequest::TeachMessage { original } => RequestView::TeachMessage {
                original: original@,
            },
            LearnerRequest::RateReviewAttempt { attempt, original } =>
                RequestView::RateReviewAttempt { attempt: attempt@, original: original@ },
            LearnerRequest::TeachMessageWithTips { original, wrong_attempt } =>
                RequestView::TeachMessageWithTips {
                original: original@,
                wrong_attempt: wrong_attempt@,
            },
            LearnerRequest::ValidateReply { attempt } => RequestView::ValidateReply {
                attempt: attempt@,
            },
        }
    }
}

impl View for LlmReply {
    type V = ReplyKind;

    open spec fn view(&self) -> ReplyKind {
        match self {
            LlmReply::Lesson(l) => ReplyKind::Lesson(l@),
            LlmReply::Judgment(j) => ReplyKind::Judgment(j.accepted, j.feedback@),
        }
    }
}

impl View for LearnerStep {
    type V = StepView;

    open spec fn view(&self) -> StepView {
        match self {
            LearnerStep::Finished { session, turn } => StepView::Finished {
                session: session@,
                turn: turn@,
            },
            LearnerStep::Ask { session, request } => StepView::Ask {
                session: session@,
                request: request@,
            },
        }
    }
}

// ---------------------------------------------------------------------------
// Specification of a learner's turn
// ---------------------------------------------------------------------------

pub open spec fn review_prompt_text() -> Seq<char> {
    "How well did you understand this message?\n1 — I understand completely\n2 — I don't understand\n3 — I might understand"@
}

pub open spec fn write_reply_text(target: Seq<char>) -> Seq<char> {
    "Write your reply in "@ + target + ":"@
}

pub open spec fn translate_prompt_text(source: Seq<char>) -> Seq<char> {
    "Try to translate the message into "@ + source + "."@
}

pub open spec fn invalid_choice_text() -> Seq<char> {
    "Invalid choice. Pick 1, 2, or 3.\n\n"@ + review_prompt_text()
}

pub open spec fn teacher_notice_text(message: Seq<char>) -> Seq<char> {
    "New message from your teacher:\n\""@ + message + "\""@
}

pub open spec fn understanding_text(u: UnderstandingSummary) -> Seq<char> {
    match u {
        UnderstandingSummary::UnderstoodCompletely => "The learner understood your message completely."@,
        UnderstandingSummary::DidNotUnderstand => "The learner didn't understand your message and was given a full explanation."@,
        UnderstandingSummary::TranslatedCorrectly { translation_attempts } => if translation_attempts
            == 1 {
            "The learner guessed the meaning of your message and got it right on first try."@
        } else {
            "The learner guessed the meaning of your message correctly after "@ + decimal(
                translation_attempts as nat,
            ) + " attempts."@
        },
        UnderstandingSummary::TranslatedIncorrectly { translation_attempts } =>
            "The learner tried to translate your message "@ + decimal(translation_attempts as nat)
            + " time(s) before being taught the meaning."@,
    }
}

/// The message the teacher gets once the learner's reply is accepted.
pub open spec fn teacher_summary(reply: ReplyView, learner_message: Seq<char>) -> Seq<char> {
    "Reply from learner: "@ + learner_message + "\n\n"@ + understanding_text(reply.understanding)
        + "\nThe learner needed "@ + decimal(reply.attempts.len()) + " iteration(s) to craft this message."@
}

pub open spec fn turn_of(messages: Seq<Seq<char>>) -> TurnView {
    TurnView { learner_messages: messages, teacher_message: None, completed_reply: None }
}

pub open spec fn fresh_reply(message: Seq<char>, u: UnderstandingSummary) -> SessionView {
    SessionView::Replying(ReplyView { teacher_message: message, understanding: u, attempts: seq![] })
}

/// What a learner's text does to the session, up to the first model call.
pub open spec fn start_spec(
    s: SessionView,
    input: Seq<char>,
    target: Seq<char>,
    source: Seq<char>,
) -> StepView {
    let t = trim(input);
    if t.len() == 0 {
        StepView::Finished { session: s, turn: turn_of(seq!["Please send a text message."@]) }
    } else {
        match s {
            SessionView::Idle => StepView::Finished {
                session: s,
                turn: turn_of(seq!["Waiting for a new message from your teacher."@]),
            },
            SessionView::Reviewing(r) => match r.phase {
                ReviewPhase::Choosing => if t == "1"@ {
                    StepView::Finished {
                        session: fresh_reply(r.message, UnderstandingSummary::UnderstoodCompletely),
                        turn: turn_of(seq![write_reply_text(target)]),
                    }
                } else if t == "2"@ {
                    StepView::Ask {
                        session: SessionView::Reviewing(
                            ReviewView { phase: ReviewPhase::Teaching, ..r },
                        ),
                        request: RequestView::TeachMessage { original: r.message },
                    }
                } else if t == "3"@ {
                    StepView::Finished {
                        session: SessionView::Reviewing(
                            ReviewView { phase: ReviewPhase::Quizzing, ..r },
                        ),
                        turn: turn_of(seq![translate_prompt_text(source)]),
                    }
                } else {
                    StepView::Finished { session: s, turn: turn_of(seq![invalid_choice_text()]) }
                },
                ReviewPhase::Teaching => StepView::Ask {
                    session: s,
                    request: RequestView::TeachMessage { original: r.message },
                },
                ReviewPhase::Quizzing => StepView::Ask {
                    session: s,
                    request: RequestView::RateReviewAttempt { attempt: t, original: r.message },
                },
            },
            SessionView::Replying(_) => StepView::Ask {
                session: s,
                request: RequestView::ValidateReply { attempt: t },
            },
        }
    }
}

/// The answers that fit a request, in the session the request was made from.
pub open spec fn resume_fits(s: SessionView, req: RequestView, reply: ReplyKind) -> bool {
    match req {
        RequestView::TeachMessage { .. } => s is Reviewing && reply is Lesson,
        RequestView::RateReviewAttempt { .. } => s is Reviewing && reply is Judgment,
        RequestView::TeachMessageWithTips { .. } => s is Reviewing && reply is Lesson,
        RequestView::ValidateReply { .. } => s is Replying && reply is Judgment,
    }
}

/// What the model's answer does to the session.
pub open spec fn resume_spec(
    s: SessionView,
    req: RequestView,
    reply: ReplyKind,
    target: Seq<char>,
) -> StepView {
    match (s, req, reply) {
        (SessionView::Reviewing(r), RequestView::TeachMessage { .. }, ReplyKind::Lesson(l)) =>
            StepView::Finished {
            session: fresh_reply(r.message, UnderstandingSummary::DidNotUnderstand),
            turn: turn_of(seq![l, write_reply_text(target)]),
        },
        (
            SessionView::Reviewing(r),
            RequestView::RateReviewAttempt { attempt, .. },
            ReplyKind::Judgment(accepted, feedback),
        ) => {
            let attempts = r.attempts.push(
                AttemptView { message: attempt, accepted, feedback },
            );
            if accepted {
                StepView::Finished {
                    session: fresh_reply(
                        r.message,
                        UnderstandingSummary::TranslatedCorrectly {
                            translation_attempts: attempts.len() as usize,
                        },
                    ),
                    turn: turn_of(seq!["Correct!"@, write_reply_text(target)]),
                }
            } else {
                StepView::Ask {
                    session: SessionView::Reviewing(ReviewView { attempts, ..r }),
                    request: RequestView::TeachMessageWithTips {
                        original: r.message,
                        wrong_attempt: attempt,
                    },
                }
            }
        },
        (SessionView::Reviewing(r), RequestView::TeachMessageWithTips { .. }, ReplyKind::Lesson(l)) =>
            StepView::Finished {
            session: fresh_reply(
                r.message,
                UnderstandingSummary::TranslatedIncorrectly {
                    translation_attempts: r.attempts.len() as usize,
                },
            ),
            turn: turn_of(seq![l, write_reply_text(target)]),
        },
        (
            SessionView::Replying(p),
            RequestView::ValidateReply { attempt },
            ReplyKind::Judgment(accepted, feedback),
        ) => {
            let p2 = ReplyView {
                attempts: p.attempts.push(AttemptView { message: attempt, accepted, feedback }),
                ..p
            };
            if accepted {
                StepView::Finished {
                    session: SessionView::Idle,
                    turn: TurnView {
                        learner_messages: seq![],
                        teacher_message: Some(teacher_summary(p2, attempt)),
                        completed_reply: Some(attempt),
                    },
                }
            } else {
                StepView::Finished {
                    session: SessionView::Replying(p2),
                    turn: turn_of(seq![feedback]),
                }
            }
        },
        _ => StepView::Finished { session: s, turn: turn_of(seq![]) },
    }
}

// ---------------------------------------------------------------------------
// Laws of a learner's turn
// ---------------------------------------------------------------------------

/// The teacher's message a session is about, if any.
pub open spec fn session_message(s: SessionView) -> Option<Seq<char>> {
    match s {
        SessionView::Idle => None,
        SessionView::Reviewing(r) => Some(r.message),
        SessionView::Replying(p) => Some(p.teacher_message),
    }
}

pub open spec fn step_session(step: StepView) -> SessionView {
    match step {
        StepView::Finished { session, .. } => session,
        StepView::Ask { session, .. } => session,
    }
}

/// A blank message changes nothing: the learner is asked for text and the
/// session stays as it was, whatever it was.
pub proof fn lemma_blank_message_changes_nothing(
    s: SessionView,
    input: Seq<char>,
    target: Seq<char>,
    source: Seq<char>,
)
    requires
        trim(input).len() == 0,
    ensures
        start_spec(s, input, target, source) == (StepView::Finished {
            session: s,
            turn: turn_of(seq!["Please send a text message."@]),
        }),
{
}

/// Without a teacher's message to work on, the learner can only wait: the
/// session stays idle and nothing is asked of the model.
pub proof fn lemma_idle_waits_for_teacher(input: Seq<char>, target: Seq<char>, source: Seq<char>)
    ensures
        start_spec(SessionView::Idle, input, target, source) is Finished,
        step_session(start_spec(SessionView::Idle, input, target, source)) is Idle,
        start_spec(SessionView::Idle, input, target, source)->Finished_turn.completed_reply is None,
{
}

/// Until the learner's reply is accepted, every step keeps the session on
/// the same teacher's message; only an accepted reply ends it.
pub proof fn lemma_teacher_message_kept(
    s: SessionView,
    input: Seq<char>,
    target: Seq<char>,
    source: Seq<char>,
    request: RequestView,
    reply: ReplyKind,
)
    ensures
        session_message(step_session(start_spec(s, input, target, source))) == session_message(s),
        resume_fits(s, request, reply) && !(step_session(resume_spec(s, request, reply, target)) is Idle)
            ==> session_message(step_session(resume_spec(s, request, reply, target)))
            == session_message(s),
{
}

/// The teacher writes one message at a time: once a teacher's message has
/// started a review, no learner text brings the session back to idle, and
/// the only answer that does is the model's acceptance of a reply, which is
/// then forwarded.
pub proof fn lemma_idle_only_after_accepted_reply(
    s: SessionView,
    input: Seq<char>,
    target: Seq<char>,
    source: Seq<char>,
    request: RequestView,
    reply: ReplyKind,
)
    ensures
        step_session(start_spec(s, input, target, source)) is Idle ==> s is Idle,
        resume_fits(s, request, reply) && step_session(resume_spec(s, request, reply, target)) is Idle
            ==> (s is Replying && request is ValidateReply && reply is Judgment && reply->Judgment_0
            && resume_spec(s, request, reply, target)->Finished_turn.completed_reply == Some(
            request->ValidateReply_attempt,
        )),
{
}

/// A reply is forwarded to the teacher exactly when the model accepts it.
/// Accepted, the session ends and the teacher gets the summary, whose count
/// of iterations includes the accepted attempt; refused, the learner gets
/// the model's feedback and the attempt is kept for that count.
pub proof fn lemma_reply_forwarded_iff_accepted(
    p: ReplyView,
    attempt: Seq<char>,
    accepted: bool,
    feedback: Seq<char>,
    target: Seq<char>,
)
    ensures
        ({
            let step = resume_spec(
                SessionView::Replying(p),
                RequestView::ValidateReply { attempt },
                ReplyKind::Judgment(accepted, feedback),
                target,
            );
            let done = ReplyView {
                attempts: p.attempts.push(AttemptView { message: attempt, accepted, feedback }),
                ..p
            };
            &&& step is Finished
            &&& (step->Finished_turn.completed_reply == Some(attempt)) <==> accepted
            &&& (step->Finished_session is Idle) <==> accepted
            &&& done.attempts.len() == p.attempts.len() + 1
            &&& accepted ==> step->Finished_turn.teacher_message == Some(teacher_summary(done, attempt))
            &&& !accepted ==> step->Finished_session == SessionView::Replying(done)
                && step->Finished_turn.learner_messages == seq![feedback]
                && step->Finished_turn.teacher_message is None
        }),
{
}

/// "2" (I don't understand) asks the model for an explanation; once it
/// comes, the learner reads it and writes a reply, and the teacher will be
/// told the learner was given a full explanation.
pub proof fn lemma_not_understood_is_taught(
    r: ReviewView,
    input: Seq<char>,
    lesson: Seq<char>,
    target: Seq<char>,
    source: Seq<char>,
)
    requires
        r.phase == ReviewPhase::Choosing,
        trim(input) == "2"@,
    ensures
        ({
            let first = start_spec(SessionView::Reviewing(r), input, target, source);
            &&& first is Ask
            &&& first->Ask_request == (RequestView::TeachMessage { original: r.message })
            &&& resume_fits(first->Ask_session, first->Ask_request, ReplyKind::Lesson(lesson))
            &&& resume_spec(first->Ask_session, first->Ask_request, ReplyKind::Lesson(lesson), target)
                == (StepView::Finished {
                session: fresh_reply(r.message, UnderstandingSummary::DidNotUnderstand),
                turn: turn_of(seq![lesson, write_reply_text(target)]),
            })
        }),
{
    reveal_strlit("2");
    reveal_strlit("1");
    assert(trim(input)[0] != "1"@[0]);
}

/// While guessing the meaning, each rated guess is counted: a right guess
/// moves on to the reply with the number of guesses made, a wrong one asks
/// for an explanation with tips on that guess, after which the reply starts
/// with the same count.
pub proof fn lemma_guesses_counted(
    r: ReviewView,
    guess: Seq<char>,
    accepted: bool,
    feedback: Seq<char>,
    lesson: Seq<char>,
    target: Seq<char>,
)
    requires
        r.attempts.len() + 1 <= usize::MAX,
    ensures
        ({
            let step = resume_spec(
                SessionView::Reviewing(r),
                RequestView::RateReviewAttempt { attempt: guess, original: r.message },
                ReplyKind::Judgment(accepted, feedback),
                target,
            );
            let n = (r.attempts.len() + 1) as usize;
            &&& accepted ==> step is Finished && step->Finished_session == fresh_reply(
                r.message,
                UnderstandingSummary::TranslatedCorrectly { translation_attempts: n },
            )
            &&& !accepted ==> step is Ask && step->Ask_request == (RequestView::TeachMessageWithTips {
                original: r.message,
                wrong_attempt: guess,
            }) && step_session(
                resume_spec(step->Ask_session, step->Ask_request, ReplyKind::Lesson(lesson), target),
            ) == fresh_reply(
                r.message,
                UnderstandingSummary::TranslatedIncorrectly { translation_attempts: n },
            )
        }),
{
}

// ---------------------------------------------------------------------------
// Executable
// ---------------------------------------------------------------------------

impl ReviewState {
    pub fn new(message: String) -> (r: ReviewState)
        ensures
            r@ == (ReviewView { message: message@, phase: ReviewPhase::Choosing, attempts: seq![] }),
    {
        let r = ReviewState { message, phase: ReviewPhase::Choosing, attempts: Vec::new() };
        assert(r@.attempts =~= Seq::<AttemptView>::empty());
        r
    }
}

impl ReplyState {
    pub fn new(teacher_message: String, understanding: UnderstandingSummary) -> (r: ReplyState)
        ensures
            r@ == (ReplyView {
                teacher_message: teacher_message@,
                understanding,
                attempts: seq![],
            }),
    {
        let r = ReplyState { teacher_message, understanding, attempts: Vec::new() };
        assert(r@.attempts =~= Seq::<AttemptView>::empty());
        r
    }
}

impl LearnerSession {
    pub fn is_idle(&self) -> (r: bool)
        ensures
            r == (self@ is Idle),
    {
        match self {
            LearnerSession::Idle => true,
            _ => false,
        }
    }
}

impl Default for LearnerSession {
    fn default() -> (r: LearnerSession)
        ensures
            r@ is Idle,
    {
        LearnerSession::Idle
    }
}

fn turn_with(messages: Vec<String>) -> (t: LearnerTurn)
    ensures
        t@ == turn_of(strings_view(messages@)),
{
    LearnerTurn { learner_messages: messages, teacher_message: None, completed_reply: None }
}

fn one_message(m: String) -> (v: Vec<String>)
    ensures
        strings_view(v@) == seq![m@],
{
    let mut v: Vec<String> = Vec::new();
    v.push(m);
    assert(strings_view(v@) =~= seq![m@]);
    v
}

fn two_messages(a: String, b: String) -> (v: Vec<String>)
    ensures
        strings_view(v@) == seq![a@, b@],
{
    let mut v: Vec<String> = Vec::new();
    v.push(a);
    v.push(b);
    assert(strings_view(v@) =~= seq![a@, b@]);
    v
}

fn copy_string(s: &String) -> (r: String)
    ensures
        r@ == s@,
{
    s.clone()
}

/// The three choices the learner has after a teacher's message.
pub fn review_choice_prompt() -> (r: String)
    ensures
        r@ == review_prompt_text(),
{
    String::from_str(
        "How well did you understand this message?\n1 — I understand completely\n2 — I don't understand\n3 — I might understand",
    )
}

fn write_reply_prompt(target: &str) -> (r: String)
    ensures
        r@ == write_reply_text(target@),
{
    let mut r = String::from_str("Write your reply in ");
    r.append(target);
    r.append(":");
    r
}

/// Starts the review of a teacher's message: the new session, and the
/// messages for the learner (the teacher's text, then the three choices).
pub fn begin_review(teacher_message: String) -> (r: (LearnerSession, Vec<String>))
    ensures
        r.0@ == SessionView::Reviewing(
            ReviewView { message: teacher_message@, phase: ReviewPhase::Choosing, attempts: seq![] },
        ),
        strings_view(r.1@) == seq![teacher_notice_text(teacher_message@), review_prompt_text()],
{
    let mut notice = String::from_str("New message from your teacher:\n\"");
    notice.append(teacher_message.as_str());
    notice.append("\"");
    let session = LearnerSession::Reviewing(ReviewState::new(teacher_message));
    (session, two_messages(notice, review_choice_prompt()))
}

fn understanding_line(u: UnderstandingSummary) -> (r: String)
    ensures
        r@ == understanding_text(u),
{
    match u {
        UnderstandingSummary::UnderstoodCompletely => String::from_str(
            "The learner understood your message completely.",
        ),
        UnderstandingSummary::DidNotUnderstand => String::from_str(
            "The learner didn't understand your message and was given a full explanation.",
        ),
        UnderstandingSummary::TranslatedCorrectly { translation_attempts } => {
            if translation_attempts == 1 {
                String::from_str(
                    "The learner guessed the meaning of your message and got it right on first try.",
                )
            } else {
                let mut r = String::from_str(
                    "The learner guessed the meaning of your message correctly after ",
                );
                let n = string_of(&usize_text(translation_attempts));
                r.append(n.as_str());
                r.append(" attempts.");
                r
            }
        },
        UnderstandingSummary::TranslatedIncorrectly { translation_attempts } => {
            let mut r = String::from_str("The learner tried to translate your message ");
            let n = string_of(&usize_text(translation_attempts));
            r.append(n.as_str());
            r.append(" time(s) before being taught the meaning.");
            r
        },
    }
}

/// The summary the teacher receives with the learner's accepted reply.
pub fn build_teacher_summary(reply: &ReplyState, learner_message: &str) -> (r: String)
    ensures
        r@ == teacher_summary(reply@, learner_message@),
{
    let mut r = String::from_str("Reply from learner: ");
    r.append(learner_message);
    r.append("\n\n");
    let u = understanding_line(reply.understanding);
    r.append(u.as_str());
    r.append("\nThe learner needed ");
    let n = string_of(&usize_text(reply.attempts.len()));
    r.append(n.as_str());
    r.append(" iteration(s) to craft this message.");
    r
}

/// A learner's text, up to the first model call it needs.
pub fn learner_message_start(
    session: LearnerSession,
    input: &str,
    target_language: &str,
    source_language: &str,
) -> (r: LearnerStep)
    ensures
        r@ == start_spec(session@, input@, target_language@, source_language@),
{
    let t = trimmed(input);
    if t.len() == 0 {
        return LearnerStep::Finished {
            session,
            turn: turn_with(one_message(String::from_str("Please send a text message."))),
        };
    }
    let ts = string_of(&t);
    match session {
        LearnerSession::Idle => LearnerStep::Finished {
            session: LearnerSession::Idle,
            turn: turn_with(
                one_message(String::from_str("Waiting for a new message from your teacher.")),
            ),
        },
        LearnerSession::Reviewing(review) => match review.phase {
            ReviewPhase::Choosing => {
                if chars_eq_str(&t, "1") {
                    LearnerStep::Finished {
                        session: LearnerSession::Replying(
                            ReplyState::new(review.message, UnderstandingSummary::UnderstoodCompletely),
                        ),
                        turn: turn_with(one_message(write_reply_prompt(target_language))),
                    }
                } else if chars_eq_str(&t, "2") {
                    let original = copy_string(&review.message);
                    LearnerStep::Ask {
                        session: LearnerSession::Reviewing(
                            ReviewState { phase: ReviewPhase::Teaching, ..review },
                        ),
                        request: LearnerRequest::TeachMessage { original },
                    }
                } else if chars_eq_str(&t, "3") {
                    let mut m = String::from_str("Try to translate the message into ");
                    m.append(source_language);
                    m.append(".");
                    LearnerStep::Finished {
                        session: LearnerSession::Reviewing(
                            ReviewState { phase: ReviewPhase::Quizzing, ..review },
                        ),
                        turn: turn_with(one_message(m)),
                    }
                } else {
                    let mut m = String::from_str("Invalid choice. Pick 1, 2, or 3.\n\n");
                    let p = review_choice_prompt();
                    m.append(p.as_str());
                    LearnerStep::Finished {
                        session: LearnerSession::Reviewing(review),
                        turn: turn_with(one_message(m)),
                    }
                }
            },
            ReviewPhase::Teaching => {
                let original = copy_string(&review.message);
                LearnerStep::Ask {
                    session: LearnerSession::Reviewing(review),
                    request: LearnerRequest::TeachMessage { original },
                }
            },
            ReviewPhase::Quizzing => {
                let original = copy_string(&review.message);
                LearnerStep::Ask {
                    session: LearnerSession::Reviewing(review),
                    request: LearnerRequest::RateReviewAttempt { attempt: ts, original },
                }
            },
        },
        LearnerSession::Replying(reply) => LearnerStep::Ask {
            session: LearnerSession::Replying(reply),
            request: LearnerRequest::ValidateReply { attempt: ts },
        },
    }
}

/// Whether the model's answer fits the request, in the session the request
/// came with (what `learner_message_resume` needs).
pub fn answer_fits(session: &LearnerSession, request: &LearnerRequest, reply: &LlmReply) -> (r: bool)
    ensures
        r == resume_fits(session@, request@, reply@),
{
    let reviewing = match session {
        LearnerSession::Reviewing(_) => true,
        _ => false,
    };
    let replying = match session {
        LearnerSession::Replying(_) => true,
        _ => false,
    };
    let lesson = match reply {
        LlmReply::Lesson(_) => true,
        LlmReply::Judgment(_) => false,
    };
    match request {
        LearnerRequest::TeachMessage { .. } => reviewing && lesson,
        LearnerRequest::RateReviewAttempt { .. } => reviewing && !lesson,
        LearnerRequest::TeachMessageWithTips { .. } => reviewing && lesson,
        LearnerRequest::ValidateReply { .. } => replying && !lesson,
    }
}

/// The model's answer to a request made by `learner_message_start` or by an
/// earlier `learner_message_resume`, from the session that came with it.
pub fn learner_message_resume(
    session: LearnerSession,
    request: LearnerRequest,
    reply: LlmReply,
    target_language: &str,
) -> (r: LearnerStep)
    requires
        resume_fits(session@, request@, reply@),
    ensures
        r@ == resume_spec(session@, request@, reply@, target_language@),
{
    match (session, request, reply) {
        (LearnerSession::Reviewing(review), LearnerRequest::TeachMessage { .. }, LlmReply::Lesson(l)) => {
            LearnerStep::Finished {
                session: LearnerSession::Replying(
                    ReplyState::new(review.message, UnderstandingSummary::DidNotUnderstand),
                ),
                turn: turn_with(two_messages(l, write_reply_prompt(target_language))),
            }
        },
        (
            LearnerSession::Reviewing(review),
            LearnerRequest::RateReviewAttempt { attempt, .. },
            LlmReply::Judgment(j),
        ) => {
            let mut review = review;
            let ghost before = review@;
            let wrong = copy_string(&attempt);
            review.attempts.push(
                ReviewAttempt { message: attempt, accepted: j.accepted, feedback: j.feedback },
            );
            assert(review_attempts_view(review.attempts@) =~= before.attempts.push(
                AttemptView { message: wrong@, accepted: j.accepted, feedback: j.feedback@ },
            ));
            if j.accepted {
                let n = review.attempts.len();
                LearnerStep::Finished {
                    session: LearnerSession::Replying(
                        ReplyState::new(
                            review.message,
                            UnderstandingSummary::TranslatedCorrectly { translation_attempts: n },
                        ),
                    ),
                    turn: turn_with(
                        two_messages(String::from_str("Correct!"), write_reply_prompt(target_language)),
                    ),
                }
            } else {
                let original = copy_string(&review.message);
                LearnerStep::Ask {
                    session: LearnerSession::Reviewing(review),
                    request: LearnerRequest::TeachMessageWithTips { original, wrong_attempt: wrong },
                }
            }
        },
        (
            LearnerSession::Reviewing(review),
            LearnerRequest::TeachMessageWithTips { .. },
            LlmReply::Lesson(l),
        ) => {
            let n = review.attempts.len();
            LearnerStep::Finished {
                session: LearnerSession::Replying(
                    ReplyState::new(
                        review.message,
                        UnderstandingSummary::TranslatedIncorrectly { translation_attempts: n },
                    ),
                ),
                turn: turn_with(two_messages(l, write_reply_prompt(target_language))),
            }
        },
        (
            LearnerSession::Replying(reply_state),
            LearnerRequest::ValidateReply { attempt },
            LlmReply::Judgment(j),
        ) => {
            let mut p = reply_state;
            let ghost before = p@;
            let text = copy_string(&attempt);
            let feedback = copy_string(&j.feedback);
            p.attempts.push(ReplyAttempt { message: attempt, accepted: j.accepted, feedback: j.feedback });
            assert(reply_attempts_view(p.attempts@) =~= before.attempts.push(
                AttemptView { message: text@, accepted: j.accepted, feedback: feedback@ },
            ));
            if j.accepted {
                let summary = build_teacher_summary(&p, text.as_str());
                let t = LearnerTurn {
                    learner_messages: Vec::new(),
                    teacher_message: Some(summary),
                    completed_reply: Some(text),
                };
                assert(t@.learner_messages =~= Seq::<Seq<char>>::empty());
                LearnerStep::Finished { session: LearnerSession::Idle, turn: t }
            } else {
                LearnerStep::Finished {
                    session: LearnerSession::Replying(p),
                    turn: turn_with(one_message(feedback)),
                }
            }
        },
        (session, _, _) => {
            let t = turn_with(Vec::new());
            assert(t@.learner_messages =~= Seq::<Seq<char>>::empty());
            LearnerStep::Finished { session, turn: t }
        },
    }
}

} // verus!
