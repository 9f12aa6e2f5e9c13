use molvakt::db::{ConversationListing, ConversationMode, ConversationModeSetting, MenuAction, MenuStep, ParticipantRole};
use molvakt::menu::{
    conversation_menu_rows, conversation_text_list, is_menu_command, language_question,
    listing_menu_labels_owned, listings_for_action, main_menu_body, main_menu_rows,
    menu_active_listing, menu_reply, mode_menu_body, mode_menu_rows, parse_conversation_selection,
    parse_menu_selection, parse_mode_selection, pick_body, plan_conversation_pick, MenuReply,
    MenuSelection, PickPlan,
};
use molvakt::menu::row_labels_fit;

fn listing(id: i64, name: &str) -> ConversationListing {
    ConversationListing {
        conversation_id: id,
        mode: ConversationMode::Tutor,
        target_language: "Norwegian".to_string(),
        role: ParticipantRole::Learner,
        learning_language: None,
        partner_learning_language: None,
        partner_phone: Some("4799999999".to_string()),
        partner_display_name: Some(name.to_string()),
        is_active: false,
        is_pending: false,
        turn: None,
        exchange_active_language: None,
    }
}

const ME: &str = "15550100";

#[test]
fn menu_word() {
    assert!(is_menu_command(" menu "));
    assert!(is_menu_command("MENU"));
    assert!(!is_menu_command("menus"));
}

#[test]
fn selections_from_rows_and_numbers() {
    assert_eq!(parse_conversation_selection("menu_conv_2", 3), Some(2));
    assert_eq!(parse_conversation_selection("menu_conv_4", 3), None);
    assert_eq!(parse_conversation_selection("menu_conv_0", 3), None);
    assert_eq!(parse_conversation_selection(" 3 ", 3), Some(3));
    assert_eq!(parse_conversation_selection("menu_conv_ 2", 3), None);
    assert_eq!(parse_conversation_selection("two", 3), None);
    assert_eq!(parse_mode_selection("menu_mode_turns"), Some(ConversationModeSetting::ExchangeTurns));
    assert_eq!(parse_mode_selection(" TEACHER "), Some(ConversationModeSetting::Teacher));
    assert_eq!(parse_mode_selection("teacher"), None);
    assert_eq!(parse_mode_selection("EXCHANGE_TURNS"), Some(ConversationModeSetting::ExchangeTurns));
}

#[test]
fn menu_ids() {
    assert!(matches!(parse_menu_selection("menu_list"), MenuSelection::List));
    assert!(matches!(parse_menu_selection("menu_review_vocab"), MenuSelection::ReviewVocab));
    assert!(matches!(parse_menu_selection("mode_turns"), MenuSelection::StartExchange(ConversationMode::ExchangeTurns)));
    assert!(matches!(parse_menu_selection("mode_teacher"), MenuSelection::StartTutor(ParticipantRole::Teacher)));
    assert!(matches!(parse_menu_selection("menu_mode_learner"), MenuSelection::PickMode(ConversationModeSetting::Learner)));
    assert!(matches!(parse_menu_selection("menu_conv_12"), MenuSelection::PickConversation(12)));
    assert!(matches!(parse_menu_selection("menu_conv_0"), MenuSelection::Unknown));
    assert!(matches!(parse_menu_selection("menu_conv_x"), MenuSelection::Unknown));
    assert!(matches!(parse_menu_selection("Hei"), MenuSelection::Unknown));
}

#[test]
fn fixed_rows_and_bodies() {
    let rows = main_menu_rows();
    let ids: Vec<&str> = rows.iter().map(|r| r.id.as_str()).collect();
    assert_eq!(
        ids,
        vec!["menu_list", "menu_switch", "menu_set_mode", "menu_set_language", "menu_cancel", "menu_start", "menu_review_vocab", "menu_help"]
    );
    assert_eq!(rows[6].title, "Review vocab");
    assert_eq!(rows[6].description, "Flashcards for active language");
    let modes = mode_menu_rows();
    assert_eq!(modes.len(), 4);
    assert_eq!(modes[3].id, "menu_mode_turns");
    assert_eq!(modes[3].title, "Exchange (turns)");
    assert_eq!(modes[0].description, "You practice, partner teaches");
    assert_eq!(main_menu_body("No chats yet — start one below."), "No chats yet — start one below.\n\nPick an action below.");
    assert_eq!(mode_menu_body("Mel"), "Choose a mode for your chat with Mel.");
    assert_eq!(language_question("Mel"), "What language should your chat with Mel use? (e.g. Norwegian)");
    assert_eq!(pick_body(MenuAction::Cancel), "Which invite do you want to cancel?");
    assert_eq!(pick_body(MenuAction::Switch), "Which conversation do you want to switch to?");
}

#[test]
fn row_labels_are_cut_to_24_bytes() {
    let mut l = listing(1, "Melanie Bergström-Johansen");
    l.is_active = true;
    let (title, description) = listing_menu_labels_owned(1, &l, ME);
    let mut expected = "1. Melanie Bergström-Johansen*".to_string();
    expected.truncate(24);
    assert_eq!(title, expected);
    assert_eq!(description, "You learn Norwegian");
    let short = listing(2, "Mel");
    assert_eq!(listing_menu_labels_owned(2, &short, ME).0, "2. Mel");
}

#[test]
fn conversation_rows_are_numbered() {
    let mut b = listing(8, "Bo");
    b.is_active = true;
    let rows = conversation_menu_rows(&vec![listing(5, "Ann"), b], ME);
    assert_eq!(rows.len(), 2);
    assert_eq!(rows[0].id, "menu_conv_1");
    assert_eq!(rows[0].title, "1. Ann");
    assert_eq!(rows[1].id, "menu_conv_2");
    assert_eq!(rows[1].title, "2. Bo*");
    assert_eq!(parse_conversation_selection(&rows[1].id, 2), Some(2));
}

#[test]
fn cancel_offers_only_pending_or_invalid() {
    let mut p = listing(1, "Ann");
    p.is_pending = true;
    let live = listing(2, "Bo");
    let mut broken = listing(3, "Cy");
    broken.partner_phone = Some("+1 555 0100".to_string());
    let all = listings_for_action(vec![p, live, broken], ME, MenuAction::Cancel);
    let ids: Vec<i64> = all.iter().map(|l| l.conversation_id).collect();
    assert_eq!(ids, vec![1, 3]);
    let kept = listings_for_action(vec![listing(4, "D"), listing(5, "E")], ME, MenuAction::Switch);
    assert_eq!(kept.len(), 2);
}

#[test]
fn planning_a_pick() {
    assert!(matches!(plan_conversation_pick(0, MenuAction::Cancel), PickPlan::Nothing(t) if t == "You don't have any pending invites to cancel."));
    assert!(matches!(plan_conversation_pick(0, MenuAction::Switch), PickPlan::Nothing(t) if t == "You don't have any conversations yet. Use Start new to create one."));
    assert!(matches!(plan_conversation_pick(1, MenuAction::Switch), PickPlan::Single));
    assert!(matches!(plan_conversation_pick(10, MenuAction::Switch), PickPlan::Menu));
    assert!(matches!(plan_conversation_pick(11, MenuAction::Switch), PickPlan::TextList));
}

#[test]
fn long_lists_go_as_text() {
    let text = conversation_text_list(&vec![listing(1, "Ann")], ME, MenuAction::Cancel);
    assert_eq!(
        text,
        "You have more than 10 pending invites. \nYour conversations:\n1. You learn Norwegian — partner: Ann\n\nReply with the number of your choice.\nReply MENU to start over."
    );
    let text = conversation_text_list(&vec![], ME, MenuAction::Switch);
    assert!(text.starts_with("You have more than 10 conversations. \nYour conversations:\n\n"));
}

#[test]
fn active_chat_for_menu_actions() {
    assert_eq!(menu_active_listing(&vec![], ME), Err("You don't have any conversations yet. Use Start new to create one.".to_string()));
    assert_eq!(menu_active_listing(&vec![listing(1, "A"), listing(2, "B")], ME), Err("No active chat. Use Switch chat first, then try again.".to_string()));
    assert_eq!(menu_active_listing(&vec![listing(1, "A")], ME), Ok(0));
    let mut p = listing(1, "A");
    p.is_pending = true;
    assert_eq!(menu_active_listing(&vec![p], ME), Err("Your active chat is still waiting for your partner to accept.".to_string()));
    let mut b = listing(1, "A");
    b.partner_phone = Some(ME.to_string());
    b.is_active = true;
    assert_eq!(menu_active_listing(&vec![listing(2, "B"), b], ME), Err("Your active chat is invalid. Cancel it from the menu first.".to_string()));
}

#[test]
fn replies_inside_a_menu_session() {
    assert!(matches!(menu_reply(MenuStep::PickMode, "menu", 0), MenuReply::Restart));
    assert!(matches!(menu_reply(MenuStep::PickConversation, "2", 3), MenuReply::Conversation(2)));
    assert!(matches!(menu_reply(MenuStep::PickConversation, "9", 3), MenuReply::Invalid(t) if t == "Invalid selection. Reply MENU to start over."));
    assert!(matches!(menu_reply(MenuStep::PickMode, "menu_mode_exchange", 0), MenuReply::SetMode(ConversationModeSetting::Exchange)));
    assert!(matches!(menu_reply(MenuStep::PickMode, "pizza", 0), MenuReply::Invalid(_)));
    assert!(matches!(menu_reply(MenuStep::AwaitLanguage, "  Norwegian ", 0), MenuReply::SetLanguage(l) if l == "Norwegian"));
    assert!(matches!(menu_reply(MenuStep::FlashcardReview, "vocab_show", 0), MenuReply::Flashcards));
}

#[test]
fn rows_whose_title_cannot_be_cut() {
    assert!(row_labels_fit(1, &listing(1, "Mel"), ME));
    // "1. " and 20 letters leave the 24th byte inside "ø".
    let name = format!("{}øx", "a".repeat(20));
    assert!(!row_labels_fit(1, &listing(1, &name), ME));
    let name = format!("{}øx", "a".repeat(19));
    assert!(row_labels_fit(1, &listing(1, &name), ME));
}
