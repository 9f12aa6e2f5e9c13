use molvakt::bot::{
    exchange_forward, exchange_languages, learner_busy_text, not_your_turn_text,
    pick_conversation_text, rejected_text, sent_to_learner_text, sent_to_text,
    stale_conversation_text, still_waiting_text, switched_note, turn_check, went_wrong_text,
    TurnCheck,
};
use molvakt::db::{Conversation, ConversationMode, Participant, ParticipantRole};
use molvakt::whatsapp::{
    incoming_messages, message_body, IncomingMessage, InteractiveBody, InteractiveReply,
    TextBody, WebhookChange, WebhookContact, WebhookEntry, WebhookPayload, WebhookProfile,
    WebhookValue,
};
use molvakt::bot::{route_message, Command, Route};
use molvakt::bot::{teacher_turn, TeacherTurn};
use molvakt::flow::JudgmentResponse;

fn text_message(from: &str, body: &str) -> IncomingMessage {
    IncomingMessage {
        from: from.to_string(),
        message_type: "text".to_string(),
        text: Some(TextBody { body: body.to_string() }),
        interactive: None,
    }
}

fn reply(id: &str) -> Option<InteractiveReply> {
    Some(InteractiveReply { id: id.to_string(), title: "Title".to_string() })
}

fn tap(from: &str, kind: &str, id: &str) -> IncomingMessage {
    IncomingMessage {
        from: from.to_string(),
        message_type: "interactive".to_string(),
        text: None,
        interactive: Some(InteractiveBody {
            interactive_type: kind.to_string(),
            button_reply: if kind == "button_reply" { reply(id) } else { None },
            list_reply: if kind == "list_reply" { reply(id) } else { None },
        }),
    }
}

#[test]
fn bodies_of_messages() {
    assert_eq!(message_body(&text_message("1", "Hei")), Some(("Hei".to_string(), false)));
    assert_eq!(message_body(&tap("1", "list_reply", "menu_list")), Some(("menu_list".to_string(), true)));
    assert_eq!(message_body(&tap("1", "button_reply", "vocab_show")), Some(("vocab_show".to_string(), true)));
    assert_eq!(message_body(&tap("1", "nfm_reply", "x")), None);
    let mut image = text_message("1", "x");
    image.message_type = "image".to_string();
    assert_eq!(message_body(&image), None);
}

#[test]
fn payload_flattening() {
    let value = WebhookValue {
        messages: Some(vec![
            text_message("+47 912 34 567", "Hei"),
            {
                let mut m = text_message("15550100", "x");
                m.message_type = "sticker".to_string();
                m
            },
            tap("15550100", "list_reply", "menu_help"),
        ]),
        contacts: Some(vec![
            WebhookContact { wa_id: "4791234567".to_string(), profile: Some(WebhookProfile { name: "Alice".to_string() }) },
            WebhookContact { wa_id: "15550100".to_string(), profile: None },
        ]),
    };
    let payload = WebhookPayload {
        entry: Some(vec![
            WebhookEntry { changes: Some(vec![WebhookChange { value: Some(value) }, WebhookChange { value: None }]) },
            WebhookEntry { changes: None },
        ]),
    };
    let messages = incoming_messages(&payload);
    assert_eq!(messages.len(), 2);
    assert_eq!(messages[0].from, "+47 912 34 567");
    assert_eq!(messages[0].text, "Hei");
    assert!(!messages[0].is_interactive);
    assert_eq!(messages[0].profile_name.as_deref(), Some("Alice"));
    assert_eq!(messages[1].text, "menu_help");
    assert!(messages[1].is_interactive);
    assert_eq!(messages[1].profile_name, None);
    assert!(incoming_messages(&WebhookPayload { entry: None }).is_empty());
}

#[test]
fn bot_replies() {
    assert_eq!(
        pick_conversation_text(),
        "You have multiple conversations. Reply LIST to see them, then SWITCH <number> to pick one."
    );
    assert_eq!(still_waiting_text("Mel"), "Still waiting for Mel to accept your invite.");
    assert_eq!(
        stale_conversation_text(),
        "That conversation is no longer active. Reply LEARNER or TEACHER to start a new one."
    );
    assert_eq!(went_wrong_text(), "Sorry, something went wrong. Please try again in a moment.");
    assert_eq!(learner_busy_text(), "Please wait — the learner is still working on your last message.");
    assert_eq!(rejected_text("Not Norwegian."), "Rejected: Not Norwegian.");
    assert_eq!(sent_to_learner_text("Bob"), "Message sent to Bob (learner).");
    assert_eq!(sent_to_text("Alice"), "Message sent to Alice.");
    assert_eq!(
        not_your_turn_text("Alice", "Norwegian"),
        "It's Alice's turn — wait for them to write in Norwegian."
    );
}

#[test]
fn switch_notes() {
    assert_eq!(switched_note(None, 7, "x"), "");
    assert_eq!(switched_note(Some(7), 7, "x"), "");
    assert_eq!(
        switched_note(Some(3), 7, "Norwegian with Alice"),
        "\n\n(Switched active chat to Norwegian with Alice.)"
    );
}

fn exchange() -> (Conversation, Participant, Participant) {
    let c = Conversation {
        id: 7,
        mode: ConversationMode::ExchangeTurns,
        target_language: "Norwegian".to_string(),
        source_language: "English".to_string(),
        exchange_turn_phone: Some("15550100".to_string()),
    };
    let me = Participant { id: 1, conversation_id: 7, phone: "15550100".to_string(), role: ParticipantRole::Learner, learning_language: None };
    let them = Participant { id: 2, conversation_id: 7, phone: "4791234567".to_string(), role: ParticipantRole::Teacher, learning_language: Some("Spanish".to_string()) };
    (c, me, them)
}

#[test]
fn exchange_rules() {
    let (c, me, them) = exchange();
    assert_eq!(exchange_languages(&me, &them, &c), ("Norwegian".to_string(), "Spanish".to_string()));
    assert_eq!(exchange_languages(&them, &me, &c), ("Spanish".to_string(), "English".to_string()));
    assert!(matches!(turn_check(&me, &them, &c), TurnCheck::YourTurn));
    assert!(matches!(
        turn_check(&them, &me, &c),
        TurnCheck::NotYourTurn { holder_is_partner: true, ref holder_language } if holder_language == "Norwegian"
    ));
    let mut c2 = Conversation { exchange_turn_phone: Some("999".to_string()), ..c };
    assert!(matches!(
        turn_check(&them, &me, &c2),
        TurnCheck::NotYourTurn { holder_is_partner: false, ref holder_language } if holder_language == "Spanish"
    ));
    c2.exchange_turn_phone = None;
    assert!(matches!(turn_check(&me, &them, &c2), TurnCheck::NotInitialized));
}

#[test]
fn forwarded_exchange_messages() {
    assert_eq!(
        exchange_forward("Alice", "Hola", "Norwegian", true, Some(3), 7),
        "[Alice]: Hola\n\nYour turn — write in Norwegian.\n\n(Switched active chat to exchange (turns) with Alice.)"
    );
    assert_eq!(exchange_forward("Alice", "Hola", "Norwegian", true, Some(7), 7), "[Alice]: Hola\n\nYour turn — write in Norwegian.");
    assert_eq!(
        exchange_forward("Alice", "Hola", "Norwegian", false, Some(3), 7),
        "[Alice]: Hola\n\n(Switched active chat to exchange — you learn Norwegian with Alice.)"
    );
    assert_eq!(exchange_forward("Alice", "Hola", "Norwegian", false, None, 7), "[Alice]: Hola");
}

#[test]
fn subscription_checks() {
    let ok = molvakt::whatsapp::verify_subscription(Some("subscribe"), Some("s3"), Some("s3"), Some("123".to_string()));
    assert_eq!(ok.as_deref(), Some("123"));
    assert_eq!(molvakt::whatsapp::verify_subscription(Some("subscribe"), Some("x"), Some("s3"), Some("123".to_string())), None);
    assert_eq!(molvakt::whatsapp::verify_subscription(Some("unsubscribe"), Some("s3"), Some("s3"), Some("123".to_string())), None);
    assert_eq!(molvakt::whatsapp::verify_subscription(Some("subscribe"), None, None, Some("123".to_string())), None);
    assert_eq!(molvakt::whatsapp::verify_subscription(Some("subscribe"), Some("s3"), Some("s3"), None), None);
}

#[test]
fn teacher_turns() {
    assert!(matches!(
        teacher_turn(false, None),
        TeacherTurn::Busy(t) if t == "Please wait — the learner is still working on your last message."
    ));
    assert!(matches!(teacher_turn(true, None), TeacherTurn::Ask));
    let no = JudgmentResponse { accepted: false, feedback: "That is English.".to_string() };
    assert!(matches!(teacher_turn(true, Some(&no)), TeacherTurn::Rejected(t) if t == "Rejected: That is English."));
    let yes = JudgmentResponse { accepted: true, feedback: String::new() };
    assert!(matches!(teacher_turn(true, Some(&yes)), TeacherTurn::Forward));
    assert!(matches!(teacher_turn(false, Some(&yes)), TeacherTurn::Busy(_)));
}

#[test]
fn message_routes() {
    assert!(matches!(route_message(true, true, true, "MENU", false), Route::InviteResponse));
    assert!(matches!(route_message(false, true, true, "MENU", false), Route::Onboarding));
    assert!(matches!(route_message(false, false, true, " menu ", false), Route::Menu));
    assert!(matches!(route_message(false, false, false, "reminders_off", true), Route::Tap(Command::Chat)));
    assert!(matches!(route_message(false, false, false, "SET TIMEZONE Europe/Oslo", false), Route::Text(Command::Chat)));
    assert!(matches!(route_message(false, false, false, "SET TIMEZONE Moon/Base", false), Route::Text(Command::Chat)));
    assert!(matches!(route_message(false, false, true, "ping_12", true), Route::MenuSession { tap_first: true }));
    assert!(matches!(route_message(false, false, false, "ping_12", false), Route::Text(Command::Chat)));
    assert!(matches!(route_message(false, false, true, "2", false), Route::MenuSession { tap_first: false }));
    assert!(matches!(route_message(false, false, true, "menu_conv_2", true), Route::MenuSession { tap_first: true }));
    assert!(matches!(route_message(false, false, false, "menu_list", true), Route::Tap(Command::Chat)));
    assert!(matches!(route_message(false, false, false, "LIST", false), Route::Text(Command::List)));
    assert!(matches!(route_message(false, false, false, "Hei!", false), Route::Text(Command::Chat)));
}
