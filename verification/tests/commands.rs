use molvakt::bot::{route_command, Command};
use molvakt::conversations::{
    help_text, is_help_command, is_list_command, parse_cancel_selection, parse_ping_button,
    parse_set_language, parse_set_mode, parse_start_conversation_command, parse_switch_selection,
    ping_button_id, StartConversationCommand,
};
use molvakt::db::{ConversationMode, ConversationModeSetting, ParticipantRole};

#[test]
fn list_and_help_words() {
    assert!(is_list_command(" list "));
    assert!(is_list_command("Conversations"));
    assert!(!is_list_command("list all"));
    assert!(is_help_command("help"));
    assert!(is_help_command("COMMANDS\n"));
    assert!(!is_help_command("helpme"));
}

#[test]
fn switch_and_cancel_need_the_word_in_capitals() {
    assert_eq!(parse_switch_selection("SWITCH 2"), Some(2));
    assert_eq!(parse_switch_selection("  SWITCH   3  "), Some(3));
    assert_eq!(parse_switch_selection("SWITCH2"), Some(2));
    assert_eq!(parse_switch_selection("switch 2"), None);
    assert_eq!(parse_switch_selection("SWITCH"), None);
    assert_eq!(parse_switch_selection("SWITCH two"), None);
    assert_eq!(parse_cancel_selection("CANCEL 1"), Some(1));
    assert_eq!(parse_cancel_selection("CANCEL +4"), Some(4));
    assert_eq!(parse_cancel_selection("CANCEL -1"), None);
}

#[test]
fn set_language_forms() {
    let c = parse_set_language("set language Brazilian Portuguese").unwrap();
    assert_eq!(c.index, None);
    assert_eq!(c.language, "Brazilian Portuguese");
    let c = parse_set_language("SET 2  Norwegian   Bokmål").unwrap();
    assert_eq!(c.index, Some(2));
    assert_eq!(c.language, "Norwegian Bokmål");
    assert!(parse_set_language("SET MODE 1 exchange").is_none());
    assert!(parse_set_language("SET 2").is_none());
    assert!(parse_set_language("SET LANGUAGE").is_none());
    assert!(parse_set_language("SET x Norwegian").is_none());
    assert!(parse_set_language("PUT 1 Norwegian").is_none());
}

#[test]
fn set_mode_forms() {
    let c = parse_set_mode("SET MODE 1 exchange").unwrap();
    assert_eq!(c.index, Some(1));
    assert_eq!(c.mode, ConversationModeSetting::Exchange);
    let c = parse_set_mode("set mode Exchange-Turns").unwrap();
    assert_eq!(c.index, None);
    assert_eq!(c.mode, ConversationModeSetting::ExchangeTurns);
    let c = parse_set_mode("SET MODE 3 turns").unwrap();
    assert_eq!(c.mode, ConversationModeSetting::ExchangeTurns);
    let c = parse_set_mode("SET MODE teacher").unwrap();
    assert_eq!(c.mode, ConversationModeSetting::Teacher);
    let c = parse_set_mode("SET MODE 2 LEARNER").unwrap();
    assert_eq!((c.index, c.mode), (Some(2), ConversationModeSetting::Learner));
    assert!(parse_set_mode("SET MODE 2").is_none());
    assert!(parse_set_mode("SET MODE 2 tutor").is_none());
    assert!(parse_set_mode("SET LANGUAGE French").is_none());
}

#[test]
fn start_words() {
    assert!(matches!(
        parse_start_conversation_command(" learner "),
        Some(StartConversationCommand::Tutor(ParticipantRole::Learner))
    ));
    assert!(matches!(
        parse_start_conversation_command("Teacher"),
        Some(StartConversationCommand::Tutor(ParticipantRole::Teacher))
    ));
    assert!(matches!(
        parse_start_conversation_command("exchange"),
        Some(StartConversationCommand::Exchange(ConversationMode::Exchange))
    ));
    for w in ["EXCHANGE-TURNS", "exchange_turns", "turns"] {
        assert!(matches!(
            parse_start_conversation_command(w),
            Some(StartConversationCommand::Exchange(ConversationMode::ExchangeTurns))
        ));
    }
    assert!(parse_start_conversation_command("tutor").is_none());
}

#[test]
fn routing_tries_commands_in_order() {
    assert!(matches!(route_command("LIST"), Command::List));
    assert!(matches!(route_command("help"), Command::Help));
    assert!(matches!(route_command("SWITCH 2"), Command::Switch(2)));
    assert!(matches!(
        route_command("SET MODE exchange"),
        Command::SetMode(c) if c.mode == ConversationModeSetting::Exchange && c.index.is_none()
    ));
    assert!(matches!(
        route_command("SET 1 French"),
        Command::SetLanguage(c) if c.index == Some(1) && c.language == "French"
    ));
    assert!(matches!(route_command("CANCEL 3"), Command::Cancel(3)));
    assert!(matches!(route_command("teacher"), Command::Start(_)));
    assert!(matches!(route_command("Hei, hvordan går det?"), Command::Chat));
    assert!(matches!(route_command("switch 2"), Command::Chat));
}

#[test]
fn ping_button_round_trip() {
    assert_eq!(ping_button_id(42), "ping_42");
    assert_eq!(parse_ping_button(&ping_button_id(42)), Some(42));
    assert_eq!(parse_ping_button(&ping_button_id(-7)), Some(-7));
    assert_eq!(parse_ping_button("ping_"), None);
    assert_eq!(parse_ping_button("pong_3"), None);
}

#[test]
fn help_lists_the_commands() {
    let expected = "molvakt commands:\n\n\
             MENU — open the action menu (recommended)\n\
             Review vocab — flashcards from your chats (also in MENU)\n\
             LIST — show your conversations\n\
             SWITCH <number> — change active conversation\n\
             SET MODE <number> teacher|learner|exchange|exchange-turns — change conversation mode\n\
             CANCEL <number> — cancel a pending invite\n\
             SET LANGUAGE <name> — fix language on active conversation\n\
             SET TIMEZONE <region> — morning reminder time (e.g. Europe/Oslo)\n\
             SET <number> <language> — fix language on a specific one\n\
             LEARNER / TEACHER / EXCHANGE / EXCHANGE-TURNS — start a new conversation\n\
             (New users: message the bot to open the setup menu)\n\n\
             In an active conversation, just message normally.";
    assert_eq!(help_text(), expected);
}
