use molvakt::conversations::{
    cancel_allowed, choose_listing, conversation_list_text, find_active_listing,
    format_active_chat_summary, format_chat_label, format_listing_line,
    format_listing_menu_description, format_listing_partner, format_listing_role_desc,
    format_listing_status_text, format_menu_body, listing_awaits_user_reply, listing_is_broken,
    listing_should_show_partner_last_message, switch_decision, switch_message,
    truncate_for_display, ListingChoice, SwitchOutcome,
};
use molvakt::db::{ConversationListing, ConversationMode, ConversationTurnStatus, ParticipantRole};
use molvakt::conversations::can_ping_partner;
use molvakt::conversations::menu_description_fits;

fn listing(id: i64, mode: ConversationMode, role: ParticipantRole) -> ConversationListing {
    ConversationListing {
        conversation_id: id,
        mode,
        target_language: "Norwegian".to_string(),
        role,
        learning_language: None,
        partner_learning_language: None,
        partner_phone: Some("4799999999".to_string()),
        partner_display_name: Some("Mel".to_string()),
        is_active: false,
        is_pending: false,
        turn: None,
        exchange_active_language: None,
    }
}

const ME: &str = "+1 555 0100";

#[test]
fn partner_and_broken() {
    let mut l = listing(1, ConversationMode::Tutor, ParticipantRole::Learner);
    assert_eq!(format_listing_partner(&l), "Mel");
    assert!(!listing_is_broken(&l, ME));
    l.partner_phone = Some("15550100".to_string());
    assert!(listing_is_broken(&l, ME));
    l.partner_phone = None;
    assert_eq!(format_listing_partner(&l), "unknown");
    assert!(!listing_is_broken(&l, ME));
}

#[test]
fn role_descriptions() {
    let l = listing(1, ConversationMode::Tutor, ParticipantRole::Learner);
    assert_eq!(format_listing_role_desc(&l), "You learn Norwegian");
    let mut t = listing(1, ConversationMode::Tutor, ParticipantRole::Teacher);
    t.target_language = "+47 912 34 567".to_string();
    assert_eq!(format_listing_role_desc(&t), "You teach (invalid — use SET LANGUAGE)");
    let mut e = listing(1, ConversationMode::Exchange, ParticipantRole::Learner);
    e.learning_language = Some("Norwegian".to_string());
    assert_eq!(
        format_listing_role_desc(&e),
        "Exchange — you learn Norwegian, partner learns ?; always write in your language"
    );
    let mut x = listing(1, ConversationMode::ExchangeTurns, ParticipantRole::Learner);
    x.partner_learning_language = Some("English".to_string());
    assert_eq!(
        format_listing_role_desc(&x),
        "Exchange (turns) — you learn unknown, partner learns English; alternate languages each round"
    );
}

#[test]
fn status_text_and_reply_flags() {
    let mut l = listing(1, ConversationMode::Tutor, ParticipantRole::Teacher);
    assert_eq!(format_listing_status_text(&l), "");
    l.turn = Some(ConversationTurnStatus::YourTurnToSend);
    assert_eq!(format_listing_status_text(&l), "your turn to send");
    assert!(listing_awaits_user_reply(&l, ME));
    assert!(!listing_should_show_partner_last_message(&l));
    l.role = ParticipantRole::Learner;
    assert!(!listing_awaits_user_reply(&l, ME));
    l.turn = Some(ConversationTurnStatus::YourTurnToReply);
    assert!(listing_awaits_user_reply(&l, ME));
    assert!(listing_should_show_partner_last_message(&l));
    l.is_pending = true;
    assert_eq!(format_listing_status_text(&l), "waiting for partner");
    assert!(!listing_awaits_user_reply(&l, ME));
    let mut x = listing(2, ConversationMode::ExchangeTurns, ParticipantRole::Learner);
    x.turn = Some(ConversationTurnStatus::YourTurnToSend);
    assert!(listing_awaits_user_reply(&x, ME));
    assert!(listing_should_show_partner_last_message(&x));
    x.turn = Some(ConversationTurnStatus::WaitingForMessage);
    assert_eq!(format_listing_status_text(&x), "waiting for message");
}

#[test]
fn menu_description_is_cut_to_72_bytes() {
    let mut l = listing(1, ConversationMode::Tutor, ParticipantRole::Learner);
    l.turn = Some(ConversationTurnStatus::WaitingForReply);
    assert_eq!(format_listing_menu_description(&l, ME), "You learn Norwegian, waiting for reply");
    l.partner_phone = Some("15550100".to_string());
    assert_eq!(format_listing_menu_description(&l, ME), "Invalid invite");
    let mut e = listing(1, ConversationMode::Exchange, ParticipantRole::Learner);
    e.learning_language = Some("Norwegian".to_string());
    e.partner_learning_language = Some("English".to_string());
    let full = "Exchange — you learn Norwegian, partner learns English; always write in your language";
    let mut expected = full.to_string();
    expected.truncate(72);
    assert_eq!(format_listing_menu_description(&e, ME), expected);
}

#[test]
fn active_chat_summary() {
    let mut l = listing(1, ConversationMode::Tutor, ParticipantRole::Learner);
    assert_eq!(format_active_chat_summary(&l, "15550100"), "Current chat: Mel\nYou learn Norwegian");
    l.turn = Some(ConversationTurnStatus::YourTurnToReply);
    assert_eq!(
        format_active_chat_summary(&l, "15550100"),
        "Current chat: Mel\nYou learn Norwegian\nyour turn to reply"
    );
    l.is_pending = true;
    assert_eq!(
        format_active_chat_summary(&l, "15550100"),
        "Current chat: Mel\nWaiting for partner to accept."
    );
    l.partner_phone = Some("15550100".to_string());
    l.partner_display_name = None;
    assert_eq!(
        format_active_chat_summary(&l, "15550100"),
        "Current chat: +15550100\nInvalid invite — cancel it from the menu."
    );
}

#[test]
fn listing_lines() {
    let mut l = listing(1, ConversationMode::Tutor, ParticipantRole::Learner);
    l.is_active = true;
    l.turn = Some(ConversationTurnStatus::WaitingForReply);
    assert_eq!(
        format_listing_line(1, &l, "15550100"),
        "1. You learn Norwegian — partner: Mel [active, waiting for reply]"
    );
    let mut p = listing(2, ConversationMode::Exchange, ParticipantRole::Learner);
    p.is_pending = true;
    p.learning_language = Some("French".to_string());
    assert_eq!(
        format_listing_line(2, &p, "15550100"),
        "2. Exchange — you learn French, partner learns ?; always write in your language — partner: Mel [waiting for partner]"
    );
    let mut x = listing(3, ConversationMode::ExchangeTurns, ParticipantRole::Learner);
    x.turn = Some(ConversationTurnStatus::YourTurnToSend);
    x.exchange_active_language = Some("French".to_string());
    assert!(format_listing_line(3, &x, "15550100").ends_with(" — partner: Mel [your turn — write in French]"));
    x.turn = Some(ConversationTurnStatus::WaitingForMessage);
    assert!(format_listing_line(3, &x, "15550100").ends_with(" [waiting — current language: French]"));
    x.turn = Some(ConversationTurnStatus::WaitingForReply);
    assert!(format_listing_line(3, &x, "15550100").ends_with(" [current language: French]"));
    x.exchange_active_language = None;
    assert!(format_listing_line(3, &x, "15550100").ends_with(" — partner: Mel"));
    let mut b = listing(4, ConversationMode::Tutor, ParticipantRole::Teacher);
    b.partner_phone = Some("1 555 0100".to_string());
    b.partner_display_name = None;
    assert_eq!(
        format_listing_line(4, &b, "15550100"),
        "4. You teach Norwegian — partner: +15550100 [invalid — reply CANCEL 4]"
    );
}

#[test]
fn chat_labels() {
    assert_eq!(
        format_chat_label(ParticipantRole::Learner, "Norwegian", "4799999999", Some("Mel")),
        "Norwegian with Mel"
    );
    assert_eq!(
        format_chat_label(ParticipantRole::Teacher, "Norwegian", "4799999999", None),
        "teaching Norwegian to +4799999999"
    );
}

#[test]
fn truncate_for_display_counts_chars() {
    assert_eq!(truncate_for_display("hei", 3), "hei");
    assert_eq!(truncate_for_display("blåbær", 3), "blå…");
    assert_eq!(truncate_for_display("", 0), "");
}

#[test]
fn list_reply() {
    assert_eq!(
        conversation_list_text(&vec![], ME),
        "You don't have any conversations yet.\n\n\
                 Reply LEARNER, TEACHER, EXCHANGE, or EXCHANGE-TURNS to start one.\n\
                 (Or open the menu if you haven't set up yet.)"
    );
    let mut a = listing(1, ConversationMode::Tutor, ParticipantRole::Learner);
    a.is_active = true;
    let b = listing(2, ConversationMode::Tutor, ParticipantRole::Teacher);
    let text = conversation_list_text(&vec![a, b], ME);
    let expected = [
        "Your conversations:",
        "1. You learn Norwegian — partner: Mel [active]",
        "2. You teach Norwegian — partner: Mel",
        "",
        "Reply MENU for actions, or use text commands:",
        "SWITCH <number>, SET MODE <number> <mode>, CANCEL <number>.",
        "SET LANGUAGE <name>, or SET <number> <language>.",
        "LEARNER, TEACHER, EXCHANGE, or EXCHANGE-TURNS to start a new one.",
    ]
    .join("\n");
    assert_eq!(text, expected);
}

#[test]
fn menu_body() {
    assert_eq!(format_menu_body(&vec![], ME), "No chats yet — start one below.");
    let one = listing(1, ConversationMode::Tutor, ParticipantRole::Learner);
    assert_eq!(
        format_menu_body(&vec![one], ME),
        "Current chat: Mel\nYou learn Norwegian\n\n(This is your only chat — it becomes active when you message.)"
    );
    let a = listing(1, ConversationMode::Tutor, ParticipantRole::Learner);
    let b = listing(2, ConversationMode::Tutor, ParticipantRole::Teacher);
    assert_eq!(format_menu_body(&vec![a, b], ME), "No active chat — use Switch chat below.");
    let a = listing(1, ConversationMode::Tutor, ParticipantRole::Learner);
    let mut b = listing(2, ConversationMode::Tutor, ParticipantRole::Teacher);
    b.is_active = true;
    assert_eq!(format_menu_body(&vec![a, b], ME), "Current chat: Mel\nYou teach Norwegian");
}

#[test]
fn choosing_a_listing() {
    let a = listing(1, ConversationMode::Tutor, ParticipantRole::Learner);
    let mut b = listing(2, ConversationMode::Tutor, ParticipantRole::Teacher);
    b.is_active = true;
    let ls = vec![a, b];
    assert_eq!(find_active_listing(&ls), Some(1));
    assert!(matches!(choose_listing(&ls, Some(1)), ListingChoice::Chosen(0)));
    assert!(matches!(choose_listing(&ls, Some(0)), ListingChoice::Chosen(0)));
    assert!(matches!(choose_listing(&ls, Some(3)), ListingChoice::InvalidSelection));
    assert!(matches!(choose_listing(&ls, None), ListingChoice::Chosen(1)));
    let c = listing(1, ConversationMode::Tutor, ParticipantRole::Learner);
    let d = listing(2, ConversationMode::Tutor, ParticipantRole::Teacher);
    assert!(matches!(choose_listing(&vec![c, d], None), ListingChoice::Ambiguous));
}

#[test]
fn switching() {
    let a = listing(1, ConversationMode::Tutor, ParticipantRole::Learner);
    let mut p = listing(2, ConversationMode::Tutor, ParticipantRole::Teacher);
    p.is_pending = true;
    let mut b = listing(3, ConversationMode::Tutor, ParticipantRole::Teacher);
    b.partner_phone = Some("15550100".to_string());
    let ls = vec![a, p, b];
    assert!(matches!(switch_decision(&ls, 1, ME), SwitchOutcome::Switch(0)));
    assert!(matches!(
        switch_decision(&ls, 4, ME),
        SwitchOutcome::Refused(t) if t == "Invalid selection. Reply LIST to see your 3 conversation(s)."
    ));
    assert!(matches!(
        switch_decision(&ls, 2, ME),
        SwitchOutcome::Refused(t) if t == "That conversation is still waiting for your partner to accept the invite."
    ));
    assert!(matches!(
        switch_decision(&ls, 3, ME),
        SwitchOutcome::Refused(t) if t == "That conversation is invalid. Reply CANCEL to remove it."
    ));
}

#[test]
fn switched_message() {
    let mut l = listing(1, ConversationMode::Tutor, ParticipantRole::Learner);
    assert_eq!(switch_message(&l, None), "Switched to You learn Norwegian — partner: Mel.");
    l.turn = Some(ConversationTurnStatus::YourTurnToReply);
    assert_eq!(
        switch_message(&l, Some("Hei på deg")),
        "Switched to You learn Norwegian — partner: Mel (your turn to reply).\n\nLast from Mel:\nHei på deg"
    );
    l.turn = Some(ConversationTurnStatus::WaitingForReply);
    assert_eq!(
        switch_message(&l, Some("ignored")),
        "Switched to You learn Norwegian — partner: Mel (waiting for reply)."
    );
}

#[test]
fn cancelling() {
    let mut l = listing(1, ConversationMode::Tutor, ParticipantRole::Learner);
    assert!(!cancel_allowed(&l, ME));
    l.is_pending = true;
    assert!(cancel_allowed(&l, ME));
    l.is_pending = false;
    l.partner_phone = Some("15550100".to_string());
    assert!(cancel_allowed(&l, ME));
}

#[test]
fn finding_a_listing_and_ping_texts() {
    let ls = vec![
        listing(4, ConversationMode::Tutor, ParticipantRole::Learner),
        listing(9, ConversationMode::Tutor, ParticipantRole::Teacher),
    ];
    assert_eq!(molvakt::conversations::find_listing(&ls, 9), Some(1));
    assert_eq!(molvakt::conversations::find_listing(&ls, 5), None);
    assert_eq!(molvakt::conversations::pinged_text("Mel"), "Mel pinged you to reply to their message.");
    assert_eq!(molvakt::conversations::reminder_sent_text("Mel"), "Reminder sent to Mel.");
    assert_eq!(
        molvakt::conversations::PING_REFUSED_TEXT,
        "You can't ping right now — it's your turn, they already replied, or it's been less than 30 minutes since you sent."
    );
    assert_eq!(molvakt::conversations::CANCELLED_TEXT, "Pending invite cancelled.");
    assert_eq!(molvakt::conversations::CANCEL_REFUSED_TEXT, "Only pending or invalid invites can be cancelled.");
}

#[test]
fn ping_needs_a_quiet_partner() {
    let mut l = listing(1, ConversationMode::Tutor, ParticipantRole::Teacher);
    l.turn = Some(ConversationTurnStatus::WaitingForReply);
    assert!(can_ping_partner(&l, "15550100", true, Some(30)));
    assert!(!can_ping_partner(&l, "15550100", true, Some(29)));
    assert!(!can_ping_partner(&l, "15550100", false, Some(90)));
    assert!(!can_ping_partner(&l, "15550100", true, None));
    l.turn = Some(ConversationTurnStatus::YourTurnToSend);
    assert!(!can_ping_partner(&l, "15550100", true, Some(90)));
    l.turn = Some(ConversationTurnStatus::WaitingForMessage);
    l.is_pending = true;
    assert!(!can_ping_partner(&l, "15550100", true, Some(90)));
}

#[test]
fn menu_descriptions_that_cannot_be_cut() {
    let mut l = listing(1, ConversationMode::Tutor, ParticipantRole::Learner);
    assert!(menu_description_fits(&l, ME));
    // 72 bytes would fall inside the two-byte "ø" of this language name.
    l.target_language = format!("{}ø", "x".repeat(61));
    assert!(!menu_description_fits(&l, ME));
    l.target_language = format!("{}ø", "x".repeat(62));
    assert!(menu_description_fits(&l, ME));
}
