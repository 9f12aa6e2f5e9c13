//! What the bot asks the language model: the instructions and prompts for
//! judging and teaching, how the conversation so far is shown to the model,
//! and how extracted vocabulary is cleaned up. The calls themselves are made
//! by the application.

use vstd::prelude::*;
use crate::history::HistoryEntry;
use crate::text::{join, join_words, string_of, trim, trimmed, views, chars_of};

verus! {

pub const EXPLANATIONS_IN_ENGLISH: &'static str = "All feedback, grammar help, and explanations must be written in English only — never in the student's native language or the target language. You may still quote words or short phrases in the target language when teaching vocabulary.";

pub open spec fn history_line(e: HistoryEntry) -> Seq<char> {
    match e {
        HistoryEntry::Teacher(m) => "Teacher: "@ + m@,
        HistoryEntry::Learner(m) => "Learner: "@ + m@,
        HistoryEntry::Exchange { sender, content } => sender@ + ": "@ + content@,
    }
}

/// The conversation so far, one line per message.
pub open spec fn history_text(h: Seq<HistoryEntry>) -> Seq<char> {
    if h.len() == 0 {
        "(no prior messages)"@
    } else {
        join(Seq::new(h.len(), |i: int| history_line(h[i])), "\n"@)
    }
}

fn history_line_of(e: &HistoryEntry) -> (r: Vec<char>)
    ensures
        r@ == history_line(*e),
{
    let mut s = match e {
        HistoryEntry::Teacher(m) => {
            let mut s = String::from_str("Teacher: ");
            s.append(m.as_str());
            s
        },
        HistoryEntry::Learner(m) => {
            let mut s = String::from_str("Learner: ");
            s.append(m.as_str());
            s
        },
        HistoryEntry::Exchange { sender, content } => {
            let mut s = sender.clone();
            s.append(": ");
            s.append(content.as_str());
            s
        },
    };
    chars_of(s.as_str())
}

/// The conversation so far, as shown to the model.
pub fn format_history(history: &Vec<HistoryEntry>) -> (r: String)
    ensures
        r@ == history_text(history@),
{
    if history.len() == 0 {
        return String::from_str("(no prior messages)");
    }
    let ghost target = Seq::new(history@.len(), |i: int| history_line(history@[i]));
    let mut lines: Vec<Vec<char>> = Vec::new();
    let mut i: usize = 0;
    while i < history.len()
        invariant
            i <= history.len(),
            target == Seq::new(history@.len(), |i: int| history_line(history@[i])),
            views(lines@) == target.take(i as int),
        decreases history.len() - i,
    {
        let ghost before = views(lines@);
        let line = history_line_of(&history[i]);
        lines.push(line);
        assert(views(lines@) =~= before.push(target[i as int]));
        assert(target.take(i as int + 1) =~= target.take(i as int).push(target[i as int]));
        i = i + 1;
    }
    assert(target.take(history.len() as int) =~= target);
    string_of(&join_words(&lines, "\n"))
}

pub const TEACHING_FORMAT_HEAD: &'static str = "Structure your answer for WhatsApp (plain text, short labeled sections). ";

pub const TEACHING_FORMAT_SECTIONS: &'static str = "\nTranslation — natural English equivalent.\nMeaning — one or two sentences in English on what the message is saying.\nGrammar — explain in English: sentence structure, word order, verb forms, articles, cases, or other patterns a beginner should learn from this message.\nWords — break down each word or short phrase: the form as written, its English meaning, and its role in this sentence (explained in English).\nHow to reply — useful patterns or phrases for answering a message like this in ";

/// How a lesson is laid out.
pub open spec fn teaching_format_spec(target: Seq<char>) -> Seq<char> {
    TEACHING_FORMAT_HEAD@ + EXPLANATIONS_IN_ENGLISH@ + TEACHING_FORMAT_SECTIONS@ + target
        + "; show building blocks in "@ + target
        + " with brief English notes on usage, not a full scripted answer.\nBe thorough and beginner-friendly. Prefer teaching over brevity."@
}

/// How a lesson is laid out, for a student of `target`.
pub fn teaching_format(target: &str) -> (r: String)
    ensures
        r@ == teaching_format_spec(target@),
{
    let mut r = String::from_str(TEACHING_FORMAT_HEAD);
    r.append(EXPLANATIONS_IN_ENGLISH);
    r.append(TEACHING_FORMAT_SECTIONS);
    r.append(target);
    r.append("; show building blocks in ");
    r.append(target);
    r.append(
        " with brief English notes on usage, not a full scripted answer.\nBe thorough and beginner-friendly. Prefer teaching over brevity.",
    );
    r
}

// ---------------------------------------------------------------------------
// Prompts
// ---------------------------------------------------------------------------

/// The instructions (system message) and the question (user message) of one
/// model call.
pub struct Prompt {
    pub system: String,
    pub user: String,
}

pub open spec fn prompt_view(p: Prompt) -> (Seq<char>, Seq<char>) {
    (p.system@, p.user@)
}

pub const TEACHER_CHECK_A: &'static str = "You check whether a native speaker's message is written in ";

pub const TEACHER_CHECK_B: &'static str = ". Accept any natural ";

pub const TEACHER_CHECK_C: &'static str = " message — including informal, casual, elliptical, or abbreviated phrasing (e.g. implied words, short follow-up questions). Do NOT reject for style, formality, clarity, or how you would phrase it differently. Ignore spelling mistakes and missing diacritics or special letters (e.g. Turkish 'nasilsin' for 'nasılsın', or Norwegian without æ/ø/å) as long as the meaning is clear. Reject ONLY if the message is primarily in another language (e.g. ";

pub const TEACHER_CHECK_D: &'static str = ") or is not real text in any language. A few loanwords are fine. When in doubt, accept. ";

pub const TEACHER_CHECK_JSON: &'static str = " Respond with JSON only: {\"accepted\": true/false, \"feedback\": \"brief explanation if rejected\"}";

/// Checking that a teacher's message is written in the language being learnt.
pub open spec fn teacher_check_spec(target: Seq<char>, source: Seq<char>, message: Seq<char>) -> (
    Seq<char>,
    Seq<char>,
) {
    (
        TEACHER_CHECK_A@ + target + TEACHER_CHECK_B@ + target + TEACHER_CHECK_C@ + source
            + TEACHER_CHECK_D@ + EXPLANATIONS_IN_ENGLISH@ + TEACHER_CHECK_JSON@,
        "Message: "@ + message,
    )
}

/// The prompt that checks a teacher's message.
pub fn teacher_check_prompt(target: &str, source: &str, message: &str) -> (r: Prompt)
    ensures
        prompt_view(r) == teacher_check_spec(target@, source@, message@),
{
    let mut system = String::from_str(TEACHER_CHECK_A);
    system.append(target);
    system.append(TEACHER_CHECK_B);
    system.append(target);
    system.append(TEACHER_CHECK_C);
    system.append(source);
    system.append(TEACHER_CHECK_D);
    system.append(EXPLANATIONS_IN_ENGLISH);
    system.append(TEACHER_CHECK_JSON);
    let mut user = String::from_str("Message: ");
    user.append(message);
    Prompt { system, user }
}

pub const REVIEW_A: &'static str = "You are a language tutor helping a student learning ";

pub const REVIEW_B: &'static str = ". Judge whether their translation of a message from ";

pub const REVIEW_C: &'static str = " captures the meaning well enough. Be fair: minor wording differences are fine if the meaning is correct. Ignore spelling mistakes and missing diacritics. ";

pub const REVIEW_JSON: &'static str = " Respond with JSON only: {\"accepted\": true/false, \"feedback\": \"short explanation\"}";

/// Judging a learner's translation of a teacher's message.
pub open spec fn review_attempt_spec(
    target: Seq<char>,
    source: Seq<char>,
    attempt: Seq<char>,
    original: Seq<char>,
    history: Seq<char>,
) -> (Seq<char>, Seq<char>) {
    (
        REVIEW_A@ + target + REVIEW_B@ + target + " into "@ + source + REVIEW_C@
            + EXPLANATIONS_IN_ENGLISH@ + REVIEW_JSON@,
        "Conversation so far:\n"@ + history + "\n\nMessage in "@ + target + ": "@ + original
            + "\nStudent's translation into "@ + source + ": "@ + attempt,
    )
}

/// The prompt that judges a translation; `history` is `format_history`'s text.
pub fn review_attempt_prompt(
    target: &str,
    source: &str,
    attempt: &str,
    original: &str,
    history: &str,
) -> (r: Prompt)
    ensures
        prompt_view(r) == review_attempt_spec(target@, source@, attempt@, original@, history@),
{
    let mut system = String::from_str(REVIEW_A);
    system.append(target);
    system.append(REVIEW_B);
    system.append(target);
    system.append(" into ");
    system.append(source);
    system.append(REVIEW_C);
    system.append(EXPLANATIONS_IN_ENGLISH);
    system.append(REVIEW_JSON);
    let mut user = String::from_str("Conversation so far:\n");
    user.append(history);
    user.append("\n\nMessage in ");
    user.append(target);
    user.append(": ");
    user.append(original);
    user.append("\nStudent's translation into ");
    user.append(source);
    user.append(": ");
    user.append(attempt);
    Prompt { system, user }
}

pub const TEACH_A: &'static str = "You are a patient language tutor teaching ";

pub const TEACH_NOT_UNDERSTOOD: &'static str = " speaker. The student did not understand this message and needs a clear lesson. ";

pub const TEACH_WRONG: &'static str = " speaker. The student tried to translate a message but got it wrong. Give a full lesson using the format below, and add a short note on what was off in their attempt and what to look for next time. ";

/// A lesson on a message the learner did not understand.
pub open spec fn teach_spec(target: Seq<char>, source: Seq<char>, original: Seq<char>, history: Seq<char>) -> (
    Seq<char>,
    Seq<char>,
) {
    (
        TEACH_A@ + target + " to a "@ + source + TEACH_NOT_UNDERSTOOD@ + teaching_format_spec(
            target,
        ),
        "Conversation so far:\n"@ + history + "\n\nExplain this "@ + target + " message:\n"@
            + original,
    )
}

/// The prompt for a lesson on a message.
pub fn teach_prompt(target: &str, source: &str, original: &str, history: &str) -> (r: Prompt)
    ensures
        prompt_view(r) == teach_spec(target@, source@, original@, history@),
{
    let mut system = String::from_str(TEACH_A);
    system.append(target);
    system.append(" to a ");
    system.append(source);
    system.append(TEACH_NOT_UNDERSTOOD);
    let format = teaching_format(target);
    system.append(format.as_str());
    let mut user = String::from_str("Conversation so far:\n");
    user.append(history);
    user.append("\n\nExplain this ");
    user.append(target);
    user.append(" message:\n");
    user.append(original);
    Prompt { system, user }
}

/// A lesson on a message after a wrong translation, with tips on the attempt.
pub open spec fn teach_with_tips_spec(
    target: Seq<char>,
    source: Seq<char>,
    original: Seq<char>,
    wrong_attempt: Seq<char>,
    history: Seq<char>,
) -> (Seq<char>, Seq<char>) {
    (
        TEACH_A@ + target + " to a "@ + source + TEACH_WRONG@ + teaching_format_spec(target),
        "Conversation so far:\n"@ + history + "\n\nMessage in "@ + target + ": "@ + original
            + "\nStudent's incorrect translation: "@ + wrong_attempt,
    )
}

/// The prompt for a lesson after a wrong translation.
pub fn teach_with_tips_prompt(
    target: &str,
    source: &str,
    original: &str,
    wrong_attempt: &str,
    history: &str,
) -> (r: Prompt)
    ensures
        prompt_view(r) == teach_with_tips_spec(target@, source@, original@, wrong_attempt@, history@),
{
    let mut system = String::from_str(TEACH_A);
    system.append(target);
    system.append(" to a ");
    system.append(source);
    system.append(TEACH_WRONG);
    let format = teaching_format(target);
    system.append(format.as_str());
    let mut user = String::from_str("Conversation so far:\n");
    user.append(history);
    user.append("\n\nMessage in ");
    user.append(target);
    user.append(": ");
    user.append(original);
    user.append("\nStudent's incorrect translation: ");
    user.append(wrong_attempt);
    Prompt { system, user }
}

pub const REPLY_A: &'static str = "You are a language tutor helping a student write in ";

pub const REPLY_B: &'static str = ". Accept any reply that a native speaker would understand in casual conversation — including informal, elliptical, or abbreviated phrasing (e.g. short follow-ups like 'og du?'). Do NOT reject for style, formality, spelling mistakes, missing diacritics or special letters (e.g. 'nasilsin' for 'nasılsın'), or because you would phrase it differently. Reject only for clear grammatical errors or meaning that would confuse a native speaker, or if the reply is in the wrong language. If they wrote in ";

pub const REPLY_C: &'static str = ", reject but help them: briefly explain what they were trying to say, teach the grammar they need, and give useful words or patterns for answering in ";

pub const REPLY_D: &'static str = " — without writing the full reply for them. For other rejections, give a short hint without rewriting the sentence. When in doubt, accept. ";

pub const REPLY_JSON: &'static str = " Respond with JSON only: {\"accepted\": true/false, \"feedback\": \"hints, mini-lesson, or brief praise\"}";

/// Judging a draft reply in the language being learnt.
pub open spec fn reply_check_spec(target: Seq<char>, source: Seq<char>, attempt: Seq<char>, history: Seq<char>) -> (
    Seq<char>,
    Seq<char>,
) {
    (
        REPLY_A@ + target + REPLY_B@ + source + " instead of "@ + target + REPLY_C@ + target
            + REPLY_D@ + EXPLANATIONS_IN_ENGLISH@ + REPLY_JSON@,
        "Conversation so far:\n"@ + history + "\n\nStudent's draft reply in "@ + target + ": "@
            + attempt,
    )
}

/// The prompt that judges a draft reply.
pub fn reply_check_prompt(target: &str, source: &str, attempt: &str, history: &str) -> (r: Prompt)
    ensures
        prompt_view(r) == reply_check_spec(target@, source@, attempt@, history@),
{
    let mut system = String::from_str(REPLY_A);
    system.append(target);
    system.append(REPLY_B);
    system.append(source);
    system.append(" instead of ");
    system.append(target);
    system.append(REPLY_C);
    system.append(target);
    system.append(REPLY_D);
    system.append(EXPLANATIONS_IN_ENGLISH);
    system.append(REPLY_JSON);
    let mut user = String::from_str("Conversation so far:\n");
    user.append(history);
    user.append("\n\nStudent's draft reply in ");
    user.append(target);
    user.append(": ");
    user.append(attempt);
    Prompt { system, user }
}

pub const VOCAB_A: &'static str = "You extract vocabulary for flashcards from a ";

pub const VOCAB_B: &'static str = " message. The student is learning ";

pub const VOCAB_C: &'static str = ". Pick useful individual words and short phrases (up to ~5 words) — common collocations, idioms, or expressions worth memorizing. Do NOT include the full sentence unless it is a well-known fixed phrase (e.g. a greeting or proverb). Skip names, filler, and words that are obvious cognates with no learning value. Return JSON only: {\"items\": [{\"term\": \"...\", \"translation\": \"...\"}]}. Each term must be in ";

pub const VOCAB_D: &'static str = ". Each translation must be in English only — never translate into any other language. If nothing is worth adding, return {\"items\": []}.";

/// Extracting flashcard vocabulary from a message.
pub open spec fn vocabulary_spec(target: Seq<char>, message: Seq<char>) -> (Seq<char>, Seq<char>) {
    (
        VOCAB_A@ + target + VOCAB_B@ + target + VOCAB_C@ + target + VOCAB_D@,
        "Message in "@ + target + ":\n"@ + message,
    )
}

/// The prompt that extracts vocabulary.
pub fn vocabulary_prompt(target: &str, message: &str) -> (r: Prompt)
    ensures
        prompt_view(r) == vocabulary_spec(target@, message@),
{
    let mut system = String::from_str(VOCAB_A);
    system.append(target);
    system.append(VOCAB_B);
    system.append(target);
    system.append(VOCAB_C);
    system.append(target);
    system.append(VOCAB_D);
    let mut user = String::from_str("Message in ");
    user.append(target);
    user.append(":\n");
    user.append(message);
    Prompt { system, user }
}

// ---------------------------------------------------------------------------
// Extracted vocabulary
// ---------------------------------------------------------------------------

/// A term and its translation as the model returned them.
pub struct VocabItem {
    pub term: String,
    pub translation: String,
}

/// The cards kept from the model's items: both sides trimmed, and items
/// with an empty side dropped.
pub open spec fn kept_vocab(items: Seq<VocabItem>) -> Seq<(Seq<char>, Seq<char>)>
    decreases items.len(),
{
    if items.len() == 0 {
        seq![]
    } else {
        let rest = kept_vocab(items.drop_last());
        let term = trim(items.last().term@);
        let translation = trim(items.last().translation@);
        if term.len() == 0 || translation.len() == 0 {
            rest
        } else {
            rest.push((term, translation))
        }
    }
}

/// Every card kept from the model's items has two non-empty, trimmed sides.
pub proof fn lemma_kept_vocab_is_clean(items: Seq<VocabItem>)
    ensures
        kept_vocab(items).len() <= items.len(),
        forall|i: int|
            0 <= i < kept_vocab(items).len() ==> (#[trigger] kept_vocab(items)[i]).0.len() > 0
                && kept_vocab(items)[i].1.len() > 0 && trim(kept_vocab(items)[i].0)
                == kept_vocab(items)[i].0 && trim(kept_vocab(items)[i].1) == kept_vocab(items)[i].1,
    decreases items.len(),
{
    if items.len() > 0 {
        lemma_kept_vocab_is_clean(items.drop_last());
        crate::text::lemma_trim_idempotent(items.last().term@);
        crate::text::lemma_trim_idempotent(items.last().translation@);
        let rest = kept_vocab(items.drop_last());
        assert forall|i: int| 0 <= i < kept_vocab(items).len() implies (#[trigger] kept_vocab(
            items,
        )[i]).0.len() > 0 && kept_vocab(items)[i].1.len() > 0 && trim(kept_vocab(items)[i].0)
            == kept_vocab(items)[i].0 && trim(kept_vocab(items)[i].1) == kept_vocab(items)[i].1 by {
            if i < rest.len() {
                assert(kept_vocab(items)[i] == rest[i]);
            }
        }
    }
}

pub open spec fn pairs_view(v: Seq<(String, String)>) -> Seq<(Seq<char>, Seq<char>)> {
    Seq::new(v.len(), |i: int| (v[i].0@, v[i].1@))
}

/// Cleans the model's vocabulary items into (term, translation) pairs.
pub fn vocab_pairs(items: &Vec<VocabItem>) -> (r: Vec<(String, String)>)
    ensures
        pairs_view(r@) == kept_vocab(items@),
{
    let mut r: Vec<(String, String)> = Vec::new();
    let mut i: usize = 0;
    assert(pairs_view(r@) =~= kept_vocab(items@.take(0)));
    while i < items.len()
        invariant
            i <= items.len(),
            pairs_view(r@) == kept_vocab(items@.take(i as int)),
        decreases items.len() - i,
    {
        assert(items@.take(i as int + 1).drop_last() =~= items@.take(i as int));
        assert(items@.take(i as int + 1).last() == items@[i as int]);
        let term = trimmed(items[i].term.as_str());
        let translation = trimmed(items[i].translation.as_str());
        if term.len() > 0 && translation.len() > 0 {
            let ghost before = pairs_view(r@);
            r.push((string_of(&term), string_of(&translation)));
            assert(pairs_view(r@) =~= before.push((term@, translation@)));
        }
        i = i + 1;
    }
    assert(items@.take(items.len() as int) =~= items@);
    r
}

} // verus!
