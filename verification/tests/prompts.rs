use molvakt::history::{history_entry, HistoryEntry};
use molvakt::llm::{
    format_history, reply_check_prompt, review_attempt_prompt, teach_prompt,
    teach_with_tips_prompt, teacher_check_prompt, teaching_format, vocab_pairs,
    vocabulary_prompt, VocabItem, EXPLANATIONS_IN_ENGLISH,
};

const RULE: &str = "All feedback, grammar help, and explanations must be written in English only — \
     never in the student's native language or the target language. \
     You may still quote words or short phrases in the target language when teaching vocabulary.";

fn expected_teaching_format(target: &str) -> String {
    format!(
        "Structure your answer for WhatsApp (plain text, short labeled sections). \
         {english_rule}\n\
         Translation — natural English equivalent.\n\
         Meaning — one or two sentences in English on what the message is saying.\n\
         Grammar — explain in English: sentence structure, word order, verb forms, articles, cases, \
         or other patterns a beginner should learn from this message.\n\
         Words — break down each word or short phrase: the form as written, its English meaning, \
         and its role in this sentence (explained in English).\n\
         How to reply — useful patterns or phrases for answering a message like this \
         in {target}; show building blocks in {target} with brief English notes on usage, \
         not a full scripted answer.\n\
         Be thorough and beginner-friendly. Prefer teaching over brevity.",
        english_rule = RULE,
        target = target,
    )
}

#[test]
fn english_rule() {
    assert_eq!(EXPLANATIONS_IN_ENGLISH, RULE);
    assert_eq!(teaching_format("Norwegian"), expected_teaching_format("Norwegian"));
}

#[test]
fn history_text() {
    assert_eq!(format_history(&vec![]), "(no prior messages)");
    let h = vec![
        HistoryEntry::Teacher("Hei".to_string()),
        HistoryEntry::Learner("Hei hei".to_string()),
        HistoryEntry::Exchange { sender: "4712345678".to_string(), content: "Hallo".to_string() },
    ];
    assert_eq!(format_history(&h), "Teacher: Hei\nLearner: Hei hei\n4712345678: Hallo");
}

#[test]
fn history_rows() {
    match history_entry(false, "teacher", "Hei".to_string(), None).unwrap() {
        HistoryEntry::Teacher(c) => assert_eq!(c, "Hei"),
        _ => panic!("expected the teacher's message"),
    }
    match history_entry(true, "learner", "Hallo".to_string(), Some("4712345678".to_string())).unwrap() {
        HistoryEntry::Exchange { sender, content } => {
            assert_eq!(sender, "4712345678");
            assert_eq!(content, "Hallo");
        }
        _ => panic!("expected an exchange message"),
    }
    match history_entry(true, "", "x".to_string(), None).unwrap() {
        HistoryEntry::Exchange { sender, .. } => assert_eq!(sender, ""),
        _ => panic!("expected an exchange message"),
    }
    assert_eq!(
        history_entry(false, "bot", "x".to_string(), None).err().unwrap(),
        "unknown message role: bot"
    );
}

#[test]
fn teacher_check() {
    let p = teacher_check_prompt("Norwegian", "English", "Hei!");
    let system = format!(
        "You check whether a native speaker's message is written in {target}. \
         Accept any natural {target} message — including informal, casual, elliptical, \
         or abbreviated phrasing (e.g. implied words, short follow-up questions). \
         Do NOT reject for style, formality, clarity, or how you would phrase it differently. \
         Ignore spelling mistakes and missing diacritics or special letters \
         (e.g. Turkish 'nasilsin' for 'nasılsın', or Norwegian without æ/ø/å) \
         as long as the meaning is clear. \
         Reject ONLY if the message is primarily in another language (e.g. {source}) \
         or is not real text in any language. A few loanwords are fine. \
         When in doubt, accept. {english_rule} \
         Respond with JSON only: \
         {{\"accepted\": true/false, \"feedback\": \"brief explanation if rejected\"}}",
        target = "Norwegian",
        source = "English",
        english_rule = RULE,
    );
    assert_eq!(p.system, system);
    assert_eq!(p.user, "Message: Hei!");
}

#[test]
fn review_attempt() {
    let p = review_attempt_prompt("Norwegian", "English", "Hello", "Hei", "(no prior messages)");
    let system = format!(
        "You are a language tutor helping a student learning {target}. \
         Judge whether their translation of a message from {target} into {source} \
         captures the meaning well enough. Be fair: minor wording differences are fine \
         if the meaning is correct. Ignore spelling mistakes and missing diacritics. \
         {english_rule} \
         Respond with JSON only: \
         {{\"accepted\": true/false, \"feedback\": \"short explanation\"}}",
        target = "Norwegian",
        source = "English",
        english_rule = RULE,
    );
    let user = format!(
        "Conversation so far:\n{history}\n\n\
         Message in {target}: {original}\n\
         Student's translation into {source}: {attempt}",
        history = "(no prior messages)",
        target = "Norwegian",
        source = "English",
        original = "Hei",
        attempt = "Hello",
    );
    assert_eq!(p.system, system);
    assert_eq!(p.user, user);
}

#[test]
fn teaching() {
    let p = teach_prompt("Norwegian", "English", "Hei", "Teacher: Hei");
    let system = format!(
        "You are a patient language tutor teaching {target} to a {source} speaker. \
         The student did not understand this message and needs a clear lesson. \
         {format}",
        target = "Norwegian",
        source = "English",
        format = expected_teaching_format("Norwegian"),
    );
    assert_eq!(p.system, system);
    assert_eq!(p.user, "Conversation so far:\nTeacher: Hei\n\nExplain this Norwegian message:\nHei");
    let p = teach_with_tips_prompt("Norwegian", "English", "Hei", "Goodbye", "Teacher: Hei");
    let system = format!(
        "You are a patient language tutor teaching {target} to a {source} speaker. \
         The student tried to translate a message but got it wrong. \
         Give a full lesson using the format below, and add a short note on what was \
         off in their attempt and what to look for next time. \
         {format}",
        target = "Norwegian",
        source = "English",
        format = expected_teaching_format("Norwegian"),
    );
    assert_eq!(p.system, system);
    assert_eq!(
        p.user,
        "Conversation so far:\nTeacher: Hei\n\nMessage in Norwegian: Hei\nStudent's incorrect translation: Goodbye"
    );
}

#[test]
fn reply_check() {
    let p = reply_check_prompt("Norwegian", "English", "Jeg bra", "Teacher: Hei");
    let system = format!(
        "You are a language tutor helping a student write in {target}. \
         Accept any reply that a native speaker would understand in casual conversation — \
         including informal, elliptical, or abbreviated phrasing (e.g. short follow-ups like \
         'og du?'). Do NOT reject for style, formality, spelling mistakes, missing diacritics \
         or special letters (e.g. 'nasilsin' for 'nasılsın'), or because you would phrase it \
         differently. Reject only for clear grammatical errors or meaning that would confuse \
         a native speaker, or if the reply is in the wrong language. \
         If they wrote in {source} instead of {target}, reject but help them: briefly \
         explain what they were trying to say, teach the grammar they need, and give \
         useful words or patterns for answering in {target} — without writing the full \
         reply for them. For other rejections, give a short hint without rewriting \
         the sentence. When in doubt, accept. {english_rule} \
         Respond with JSON only: \
         {{\"accepted\": true/false, \"feedback\": \"hints, mini-lesson, or brief praise\"}}",
        target = "Norwegian",
        source = "English",
        english_rule = RULE,
    );
    assert_eq!(p.system, system);
    assert_eq!(p.user, "Conversation so far:\nTeacher: Hei\n\nStudent's draft reply in Norwegian: Jeg bra");
}

#[test]
fn vocabulary() {
    let p = vocabulary_prompt("Norwegian", "God morgen!");
    let system = format!(
        "You extract vocabulary for flashcards from a {target} message. \
         The student is learning {target}. \
         Pick useful individual words and short phrases (up to ~5 words) — \
         common collocations, idioms, or expressions worth memorizing. \
         Do NOT include the full sentence unless it is a well-known fixed phrase \
         (e.g. a greeting or proverb). Skip names, filler, and words that are \
         obvious cognates with no learning value. \
         Return JSON only: {{\"items\": [{{\"term\": \"...\", \"translation\": \"...\"}}]}}. \
         Each term must be in {target}. Each translation must be in English only — \
         never translate into any other language. \
         If nothing is worth adding, return {{\"items\": []}}.",
        target = "Norwegian",
    );
    assert_eq!(p.system, system);
    assert_eq!(p.user, "Message in Norwegian:\nGod morgen!");
    let items = vec![
        VocabItem { term: " god morgen ".to_string(), translation: "good morning".to_string() },
        VocabItem { term: "  ".to_string(), translation: "nothing".to_string() },
        VocabItem { term: "takk".to_string(), translation: "".to_string() },
        VocabItem { term: "hei".to_string(), translation: " hi\n".to_string() },
    ];
    assert_eq!(
        vocab_pairs(&items),
        vec![
            ("god morgen".to_string(), "good morning".to_string()),
            ("hei".to_string(), "hi".to_string())
        ]
    );
}
