use molvakt::flow::{
    begin_review, build_teacher_summary, learner_message_resume, learner_message_start,
    review_choice_prompt, JudgmentResponse, LearnerRequest, LearnerSession, LearnerStep,
    LlmReply, ReplyAttempt, ReplyState, ReviewPhase, UnderstandingSummary,
};
use molvakt::flow::answer_fits;

const PROMPT: &str = "How well did you understand this message?\n\
     1 — I understand completely\n\
     2 — I don't understand\n\
     3 — I might understand";

fn reviewing(message: &str) -> LearnerSession {
    let (session, messages) = begin_review(message.to_string());
    assert_eq!(messages.len(), 2);
    session
}

fn finished(step: LearnerStep) -> (LearnerSession, Vec<String>, Option<String>, Option<String>) {
    match step {
        LearnerStep::Finished { session, turn } => {
            (session, turn.learner_messages, turn.teacher_message, turn.completed_reply)
        }
        LearnerStep::Ask { .. } => panic!("expected a finished turn"),
    }
}

fn asked(step: LearnerStep) -> (LearnerSession, LearnerRequest) {
    match step {
        LearnerStep::Ask { session, request } => (session, request),
        LearnerStep::Finished { .. } => panic!("expected a model request"),
    }
}

fn judgment(accepted: bool, feedback: &str) -> LlmReply {
    LlmReply::Judgment(JudgmentResponse { accepted, feedback: feedback.to_string() })
}

#[test]
fn begin_review_shows_message_and_choices() {
    let (session, messages) = begin_review("Hei! Hvordan går det?".to_string());
    assert_eq!(messages[0], "New message from your teacher:\n\"Hei! Hvordan går det?\"");
    assert_eq!(messages[1], PROMPT);
    assert_eq!(review_choice_prompt(), PROMPT);
    match session {
        LearnerSession::Reviewing(r) => {
            assert_eq!(r.message, "Hei! Hvordan går det?");
            assert_eq!(r.phase, ReviewPhase::Choosing);
            assert!(r.attempts.is_empty());
        }
        _ => panic!("expected a review"),
    }
}

#[test]
fn blank_message_changes_nothing() {
    let (session, messages, teacher, reply) =
        finished(learner_message_start(reviewing("Hei"), "  \n ", "Norwegian", "English"));
    assert_eq!(messages, vec!["Please send a text message.".to_string()]);
    assert!(teacher.is_none() && reply.is_none());
    assert!(matches!(session, LearnerSession::Reviewing(ref r) if r.phase == ReviewPhase::Choosing));
}

#[test]
fn idle_learner_waits() {
    let (session, messages, _, reply) =
        finished(learner_message_start(LearnerSession::Idle, "hello", "Norwegian", "English"));
    assert_eq!(messages, vec!["Waiting for a new message from your teacher.".to_string()]);
    assert!(session.is_idle());
    assert!(reply.is_none());
}

#[test]
fn invalid_choice_repeats_the_prompt() {
    let (_, messages, _, _) =
        finished(learner_message_start(reviewing("Hei"), "4", "Norwegian", "English"));
    assert_eq!(messages, vec![format!("Invalid choice. Pick 1, 2, or 3.\n\n{PROMPT}")]);
}

#[test]
fn understood_then_reply_accepted_first_try() {
    let (session, messages, _, _) =
        finished(learner_message_start(reviewing("Hei"), " 1 ", "Norwegian", "English"));
    assert_eq!(messages, vec!["Write your reply in Norwegian:".to_string()]);
    let (session, request) =
        asked(learner_message_start(session, "Hei, jeg har det bra", "Norwegian", "English"));
    assert!(matches!(&request, LearnerRequest::ValidateReply { attempt } if attempt == "Hei, jeg har det bra"));
    let (session, messages, teacher, reply) =
        finished(learner_message_resume(session, request, judgment(true, ""), "Norwegian"));
    assert!(session.is_idle());
    assert!(messages.is_empty());
    assert_eq!(reply.as_deref(), Some("Hei, jeg har det bra"));
    assert_eq!(
        teacher.as_deref(),
        Some(
            "Reply from learner: Hei, jeg har det bra\n\nThe learner understood your message completely.\nThe learner needed 1 iteration(s) to craft this message."
        )
    );
}

#[test]
fn refused_reply_gives_feedback_and_counts_iterations() {
    let (session, _, _, _) =
        finished(learner_message_start(reviewing("Hei"), "1", "Norwegian", "English"));
    let (session, request) = asked(learner_message_start(session, "Hei jeg bra", "Norwegian", "English"));
    let (session, messages, teacher, reply) =
        finished(learner_message_resume(session, request, judgment(false, "Missing verb."), "Norwegian"));
    assert_eq!(messages, vec!["Missing verb.".to_string()]);
    assert!(teacher.is_none() && reply.is_none());
    let (session, request) =
        asked(learner_message_start(session, "Hei, jeg har det bra", "Norwegian", "English"));
    let (session, _, teacher, reply) =
        finished(learner_message_resume(session, request, judgment(true, "ok"), "Norwegian"));
    assert!(session.is_idle());
    assert_eq!(reply.as_deref(), Some("Hei, jeg har det bra"));
    assert!(teacher.unwrap().ends_with("The learner needed 2 iteration(s) to craft this message."));
}

#[test]
fn not_understood_is_taught() {
    let (session, request) = asked(learner_message_start(reviewing("Hei"), "2", "Norwegian", "English"));
    assert!(matches!(&request, LearnerRequest::TeachMessage { original } if original == "Hei"));
    assert!(matches!(&session, LearnerSession::Reviewing(r) if r.phase == ReviewPhase::Teaching));
    let (session, messages, _, _) = finished(learner_message_resume(
        session,
        request,
        LlmReply::Lesson("\"Hei\" means hello.".to_string()),
        "Norwegian",
    ));
    assert_eq!(
        messages,
        vec!["\"Hei\" means hello.".to_string(), "Write your reply in Norwegian:".to_string()]
    );
    match session {
        LearnerSession::Replying(p) => {
            assert_eq!(p.teacher_message, "Hei");
            assert_eq!(p.understanding, UnderstandingSummary::DidNotUnderstand);
        }
        _ => panic!("expected a reply"),
    }
}

#[test]
fn guessing_right_on_first_try() {
    let (session, messages, _, _) =
        finished(learner_message_start(reviewing("Hei"), "3", "Norwegian", "English"));
    assert_eq!(messages, vec!["Try to translate the message into English.".to_string()]);
    let (session, request) = asked(learner_message_start(session, "Hello", "Norwegian", "English"));
    assert!(matches!(&request, LearnerRequest::RateReviewAttempt { attempt, original } if attempt == "Hello" && original == "Hei"));
    let (session, messages, _, _) =
        finished(learner_message_resume(session, request, judgment(true, ""), "Norwegian"));
    assert_eq!(messages, vec!["Correct!".to_string(), "Write your reply in Norwegian:".to_string()]);
    match session {
        LearnerSession::Replying(p) => assert_eq!(
            p.understanding,
            UnderstandingSummary::TranslatedCorrectly { translation_attempts: 1 }
        ),
        _ => panic!("expected a reply"),
    }
}

#[test]
fn guessing_wrong_is_taught_with_tips() {
    let (session, _, _, _) = finished(learner_message_start(reviewing("Hei"), "3", "Norwegian", "English"));
    let (session, request) = asked(learner_message_start(session, "Goodbye", "Norwegian", "English"));
    let (session, request) =
        asked(learner_message_resume(session, request, judgment(false, "No."), "Norwegian"));
    assert!(matches!(&request, LearnerRequest::TeachMessageWithTips { original, wrong_attempt } if original == "Hei" && wrong_attempt == "Goodbye"));
    let (session, messages, _, _) = finished(learner_message_resume(
        session,
        request,
        LlmReply::Lesson("It means hello.".to_string()),
        "Norwegian",
    ));
    assert_eq!(messages, vec!["It means hello.".to_string(), "Write your reply in Norwegian:".to_string()]);
    match session {
        LearnerSession::Replying(p) => assert_eq!(
            p.understanding,
            UnderstandingSummary::TranslatedIncorrectly { translation_attempts: 1 }
        ),
        _ => panic!("expected a reply"),
    }
}

#[test]
fn teacher_summaries() {
    let attempt = |m: &str, a: bool| ReplyAttempt { message: m.to_string(), accepted: a, feedback: String::new() };
    let mut r = ReplyState::new("Hei".to_string(), UnderstandingSummary::TranslatedCorrectly { translation_attempts: 1 });
    r.attempts.push(attempt("a", false));
    r.attempts.push(attempt("b", false));
    r.attempts.push(attempt("Hei, jeg har det bra", true));
    assert_eq!(
        build_teacher_summary(&r, "Hei, jeg har det bra, takk som spør. Hvordan har du det?"),
        "Reply from learner: Hei, jeg har det bra, takk som spør. Hvordan har du det?\n\n\
         The learner guessed the meaning of your message and got it right on first try.\n\
         The learner needed 3 iteration(s) to craft this message."
    );
    let r = ReplyState::new("Hei".to_string(), UnderstandingSummary::TranslatedCorrectly { translation_attempts: 3 });
    assert!(build_teacher_summary(&r, "x").contains(
        "The learner guessed the meaning of your message correctly after 3 attempts."
    ));
    let r = ReplyState::new("Hei".to_string(), UnderstandingSummary::TranslatedIncorrectly { translation_attempts: 2 });
    assert!(build_teacher_summary(&r, "x").contains(
        "The learner tried to translate your message 2 time(s) before being taught the meaning."
    ));
    let r = ReplyState::new("Hei".to_string(), UnderstandingSummary::DidNotUnderstand);
    assert!(build_teacher_summary(&r, "x").contains(
        "The learner didn't understand your message and was given a full explanation."
    ));
}

#[test]
fn answers_that_fit() {
    let lesson = || LlmReply::Lesson("x".to_string());
    let verdict = || judgment(true, "");
    let teach = || LearnerRequest::TeachMessage { original: "Hei".to_string() };
    let validate = || LearnerRequest::ValidateReply { attempt: "Hei".to_string() };
    assert!(answer_fits(&reviewing("Hei"), &teach(), &lesson()));
    assert!(!answer_fits(&reviewing("Hei"), &teach(), &verdict()));
    assert!(!answer_fits(&reviewing("Hei"), &validate(), &verdict()));
    let replying = LearnerSession::Replying(ReplyState::new("Hei".to_string(), UnderstandingSummary::UnderstoodCompletely));
    assert!(answer_fits(&replying, &validate(), &verdict()));
    assert!(!answer_fits(&LearnerSession::Idle, &validate(), &verdict()));
    let rate = LearnerRequest::RateReviewAttempt { attempt: "Hello".to_string(), original: "Hei".to_string() };
    assert!(answer_fits(&reviewing("Hei"), &rate, &verdict()));
}
