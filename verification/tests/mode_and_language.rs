use molvakt::conversations::{
    language_refusal, language_updated_text, plan_set_language, set_mode_error_reply, set_mode_notices,
    set_mode_target, LanguageUpdate, SetLanguageCommand,
};
use molvakt::db::{
    ConversationListing, ConversationMode, ConversationModeSetting, Participant, ParticipantRole,
    SetModeError,
};

fn listing(id: i64, mode: ConversationMode) -> ConversationListing {
    ConversationListing {
        conversation_id: id,
        mode,
        target_language: "Norwegian".to_string(),
        role: ParticipantRole::Learner,
        learning_language: None,
        partner_learning_language: None,
        partner_phone: Some("4799999999".to_string()),
        partner_display_name: Some("Mel".to_string()),
        is_active: false,
        is_pending: false,
        turn: None,
        exchange_active_language: None,
    }
}

fn participant(phone: &str, role: ParticipantRole, learning: Option<&str>) -> Participant {
    Participant {
        id: 1,
        conversation_id: 7,
        phone: phone.to_string(),
        role,
        learning_language: learning.map(|l| l.to_string()),
    }
}

const ME: &str = "15550100";

#[test]
fn choosing_the_chat_for_set_mode() {
    let ls = vec![listing(1, ConversationMode::Tutor), listing(2, ConversationMode::Exchange)];
    assert_eq!(set_mode_target(&ls, Some(2), ME), Ok(1));
    assert_eq!(
        set_mode_target(&ls, Some(3), ME),
        Err("Invalid selection. Reply LIST to see your 2 conversation(s).".to_string())
    );
    assert_eq!(
        set_mode_target(&ls, None, ME),
        Err("You have multiple conversations. Use SET MODE <number> <mode>, e.g. SET MODE 1 exchange.\nReply LIST to see the numbers.".to_string())
    );
    let mut p = listing(1, ConversationMode::Tutor);
    p.is_pending = true;
    assert_eq!(
        set_mode_target(&vec![p], None, ME),
        Err("That conversation is still waiting for your partner to accept the invite.".to_string())
    );
    let mut b = listing(1, ConversationMode::Tutor);
    b.partner_phone = Some("+1 555 0100".to_string());
    assert_eq!(
        set_mode_target(&vec![b], Some(1), ME),
        Err("That conversation is invalid. Reply CANCEL to remove it.".to_string())
    );
}

#[test]
fn mode_change_notices() {
    let you = participant(ME, ParticipantRole::Learner, Some("Norwegian"));
    let partner = participant("4799999999", ParticipantRole::Teacher, None);
    let (a, b) = set_mode_notices(ConversationModeSetting::Exchange, &you, &partner, "Bob", "Mel", "Norwegian");
    assert_eq!(a, "Switched to exchange mode with Mel. You learn Norwegian — always write in that language.");
    assert_eq!(b, "Bob switched this chat to exchange mode. You learn not set — always write in that language.");
    let (a, b) = set_mode_notices(ConversationModeSetting::ExchangeTurns, &you, &partner, "Bob", "Mel", "Norwegian");
    assert_eq!(
        a,
        "Switched to turn-based exchange with Mel. You learn Norwegian, they learn not set. Take turns — both write in one language, then both write in the other."
    );
    assert_eq!(
        b,
        "Bob switched this chat to turn-based exchange. You learn not set, they learn Norwegian. Take turns in the shared language each round — you go first."
    );
    let (a, b) = set_mode_notices(ConversationModeSetting::Learner, &you, &partner, "Bob", "Mel", "Norwegian");
    assert_eq!(a, "You are now the learner for Norwegian with Mel.");
    assert_eq!(b, "Bob switched mode. You are now the teacher for Norwegian.");
    let (a, _) = set_mode_notices(ConversationModeSetting::Teacher, &you, &partner, "Bob", "Mel", "+47 912 34 567");
    assert_eq!(a, "You are now the learner for (invalid — use SET LANGUAGE) with Mel.");
}

#[test]
fn refused_mode_changes() {
    assert_eq!(
        set_mode_error_reply(SetModeError::ActiveExchange).as_deref(),
        Some("Can't change mode while a message is in progress. Wait until the learner finishes their current reply.")
    );
    assert_eq!(
        set_mode_error_reply(SetModeError::NotComplete).as_deref(),
        Some("That conversation isn't ready for a mode change yet.")
    );
    assert_eq!(
        set_mode_error_reply(SetModeError::NotParticipant).as_deref(),
        Some("You aren't part of that conversation.")
    );
    assert_eq!(set_mode_error_reply(SetModeError::MissingLanguage), None);
}

fn command(index: Option<usize>, language: &str) -> SetLanguageCommand {
    SetLanguageCommand { index, language: language.to_string() }
}

#[test]
fn set_language_plans() {
    let refused = |c: SetLanguageCommand, ls: &Vec<ConversationListing>| match plan_set_language(&c, ls) {
        LanguageUpdate::Refused(t) => t,
        LanguageUpdate::Update { .. } => panic!("expected a refusal"),
    };
    let ls = vec![listing(4, ConversationMode::Tutor), listing(9, ConversationMode::ExchangeTurns)];
    assert_eq!(refused(command(None, ""), &ls), "Please include a language, e.g. SET LANGUAGE Norwegian");
    assert_eq!(
        refused(command(None, "+47 912 34 567"), &ls),
        "That looks like a phone number, not a language.\nExample: SET LANGUAGE Norwegian"
    );
    assert_eq!(refused(command(None, "French"), &vec![]), "You don't have any conversations yet.");
    assert_eq!(
        refused(command(Some(5), "French"), &ls),
        "Invalid selection. Reply LIST to see your 2 conversation(s)."
    );
    assert_eq!(
        refused(command(None, "French"), &ls),
        "You have multiple conversations. Use SET <number> <language>, e.g. SET 1 Norwegian.\nReply LIST to see the numbers."
    );
    assert!(matches!(
        plan_set_language(&command(Some(2), "French"), &ls),
        LanguageUpdate::Update { conversation_id: 9, per_participant: true }
    ));
    assert!(matches!(
        plan_set_language(&command(Some(1), "French"), &ls),
        LanguageUpdate::Update { conversation_id: 4, per_participant: false }
    ));
    assert_eq!(language_updated_text("French"), "Language updated to French.");
}

#[test]
fn language_refusal_checks_the_language_alone() {
    assert_eq!(
        language_refusal("").as_deref(),
        Some("Please include a language, e.g. SET LANGUAGE Norwegian")
    );
    assert_eq!(
        language_refusal("+47 998 87 766").as_deref(),
        Some("That looks like a phone number, not a language.\nExample: SET LANGUAGE Norwegian")
    );
    assert_eq!(language_refusal("Norwegian"), None);
    assert_eq!(language_refusal("Brazilian Portuguese"), None);
}

#[test]
fn a_refused_language_is_refused_without_conversations_too() {
    let ls = vec![listing(4, ConversationMode::Tutor)];
    for language in ["", "+47 912 34 567"] {
        let expected = language_refusal(language).expect("refused");
        for listings in [&ls, &vec![]] {
            match plan_set_language(&command(Some(7), language), listings) {
                LanguageUpdate::Refused(t) => assert_eq!(t, expected),
                LanguageUpdate::Update { .. } => panic!("expected a refusal"),
            }
        }
    }
}
