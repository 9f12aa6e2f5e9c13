use molvakt::db::{
    apply_conversation_mode, exchange_is_ready, invite_partner_phone, listing_turn,
    message_role_for, resolve_participant, sort_listings, sqlite_file_path,
    turn_status_for_exchange_turns, turn_status_for_participant, Conversation,
    ConversationInvite, ConversationListing, ConversationMode, ConversationModeSetting,
    ConversationTurnStatus, InviteStatus, MenuStep, MessageRole, OnboardingStep, Participant,
    ParticipantRole, ResolveStep, SetModeError,
};
use molvakt::db::{listing_partner_phone, make_listing};

fn conversation(mode: ConversationMode) -> Conversation {
    Conversation {
        id: 7,
        mode,
        target_language: "Norwegian".to_string(),
        source_language: "English".to_string(),
        exchange_turn_phone: None,
    }
}

fn participant(id: i64, phone: &str, role: ParticipantRole, learning: Option<&str>) -> Participant {
    Participant {
        id,
        conversation_id: 7,
        phone: phone.to_string(),
        role,
        learning_language: learning.map(|l| l.to_string()),
    }
}

fn pair() -> Vec<Participant> {
    vec![
        participant(1, "4711111111", ParticipantRole::Teacher, None),
        participant(2, "15550100", ParticipantRole::Learner, None),
    ]
}

#[test]
fn stored_names_round_trip() {
    for m in [ConversationMode::Tutor, ConversationMode::Exchange, ConversationMode::ExchangeTurns] {
        assert_eq!(ConversationMode::from_str(m.as_str()).unwrap(), m);
    }
    assert_eq!(ConversationMode::ExchangeTurns.as_str(), "exchange_turns");
    assert_eq!(ConversationMode::from_str("tutoring").unwrap_err(), "unknown conversation mode: tutoring");
    for r in [ParticipantRole::Teacher, ParticipantRole::Learner] {
        assert_eq!(ParticipantRole::from_str(r.as_str()).unwrap(), r);
        assert_eq!(r.opposite().opposite(), r);
        assert_eq!(r.label(), r.as_str());
    }
    assert_eq!(ParticipantRole::from_str("boss").unwrap_err(), "unknown participant role: boss");
    for r in [MessageRole::Teacher, MessageRole::Learner] {
        assert_eq!(MessageRole::from_str(r.as_str()).unwrap(), r);
    }
    for s in [InviteStatus::Pending, InviteStatus::Accepted, InviteStatus::Declined] {
        assert_eq!(InviteStatus::from_str(s.as_str()).unwrap(), s);
    }
    assert_eq!(InviteStatus::Declined.as_str(), "declined");
    for s in [
        OnboardingStep::Welcome,
        OnboardingStep::EnterPartnerPhone,
        OnboardingStep::EnterTargetLanguage,
        OnboardingStep::EnterExchangeLearningLanguage,
    ] {
        assert_eq!(OnboardingStep::from_str(s.as_str()).unwrap(), s);
    }
    for s in [MenuStep::PickConversation, MenuStep::PickMode, MenuStep::AwaitLanguage, MenuStep::FlashcardReview] {
        assert_eq!(MenuStep::from_str(s.as_str()).unwrap(), s);
    }
    assert!(ConversationMode::Exchange.is_exchange());
    assert!(ConversationMode::ExchangeTurns.is_exchange());
    assert!(!ConversationMode::Tutor.is_exchange());
    assert_eq!(message_role_for(ParticipantRole::Teacher), MessageRole::Teacher);
}

#[test]
fn turn_labels() {
    assert_eq!(ConversationTurnStatus::YourTurnToSend.label(), "your turn to send");
    assert_eq!(ConversationTurnStatus::YourTurnToReply.label(), "your turn to reply");
    assert_eq!(ConversationTurnStatus::WaitingForReply.label(), "waiting for reply");
    assert_eq!(ConversationTurnStatus::WaitingForMessage.label(), "waiting for message");
}

#[test]
fn turn_statuses() {
    let t = participant(1, "4711111111", ParticipantRole::Teacher, None);
    let l = participant(2, "15550100", ParticipantRole::Learner, None);
    assert_eq!(turn_status_for_participant(&t, true), ConversationTurnStatus::YourTurnToSend);
    assert_eq!(turn_status_for_participant(&t, false), ConversationTurnStatus::WaitingForReply);
    assert_eq!(turn_status_for_participant(&l, true), ConversationTurnStatus::WaitingForMessage);
    assert_eq!(turn_status_for_participant(&l, false), ConversationTurnStatus::YourTurnToReply);
    let mut c = conversation(ConversationMode::ExchangeTurns);
    assert_eq!(turn_status_for_exchange_turns(&c, &l), ConversationTurnStatus::YourTurnToSend);
    c.exchange_turn_phone = Some("4711111111".to_string());
    assert_eq!(turn_status_for_exchange_turns(&c, &t), ConversationTurnStatus::YourTurnToSend);
    assert_eq!(turn_status_for_exchange_turns(&c, &l), ConversationTurnStatus::WaitingForMessage);
    assert_eq!(listing_turn(true, &c, &t, true, true), None);
    assert_eq!(listing_turn(false, &c, &l, false, true), Some(ConversationTurnStatus::WaitingForMessage));
    assert_eq!(listing_turn(false, &c, &t, true, true), Some(ConversationTurnStatus::YourTurnToSend));
    let e = conversation(ConversationMode::Exchange);
    assert_eq!(listing_turn(false, &e, &l, true, false), Some(ConversationTurnStatus::YourTurnToSend));
    assert_eq!(listing_turn(false, &e, &l, false, false), Some(ConversationTurnStatus::WaitingForMessage));
    let tutor = conversation(ConversationMode::Tutor);
    assert_eq!(listing_turn(false, &tutor, &l, false, false), Some(ConversationTurnStatus::YourTurnToReply));
}

#[test]
fn exchange_readiness() {
    assert!(!exchange_is_ready(&pair()));
    let both = vec![
        participant(1, "4711111111", ParticipantRole::Teacher, Some("English")),
        participant(2, "15550100", ParticipantRole::Learner, Some("Norwegian")),
    ];
    assert!(exchange_is_ready(&both));
    assert!(!exchange_is_ready(&vec![participant(1, "1", ParticipantRole::Teacher, Some("English"))]));
}

#[test]
fn invite_partner() {
    let invite = ConversationInvite {
        id: 1,
        conversation_id: 7,
        inviter_phone: "15550100".to_string(),
        invitee_phone: "4711111111".to_string(),
        inviter_role: ParticipantRole::Learner,
        status: InviteStatus::Pending,
    };
    assert_eq!(invite_partner_phone(&invite, "15550100"), "4711111111");
    assert_eq!(invite_partner_phone(&invite, "4711111111"), "15550100");
}

#[test]
fn mode_change_refusals() {
    let c = conversation(ConversationMode::Tutor);
    let one = vec![participant(1, "4711111111", ParticipantRole::Teacher, None)];
    assert!(matches!(
        apply_conversation_mode(&c, &one, "4711111111", ConversationModeSetting::Exchange, true),
        Err(SetModeError::NotComplete)
    ));
    assert!(matches!(
        apply_conversation_mode(&c, &pair(), "+1 999", ConversationModeSetting::Exchange, true),
        Err(SetModeError::NotParticipant)
    ));
    assert!(matches!(
        apply_conversation_mode(&c, &pair(), "+1 555 0100", ConversationModeSetting::Exchange, false),
        Err(SetModeError::ActiveExchange)
    ));
    assert_eq!(
        SetModeError::ActiveExchange.message(),
        "learner is mid-exchange; wait until the current message is finished"
    );
}

#[test]
fn tutor_to_exchange_assigns_default_languages() {
    let c = conversation(ConversationMode::Tutor);
    let m = apply_conversation_mode(&c, &pair(), "+1 555 0100", ConversationModeSetting::Exchange, true)
        .unwrap();
    assert_eq!(m.conversation.mode, ConversationMode::Exchange);
    assert!(m.reset_awaiting_reply);
    assert_eq!(m.reset_learner, None);
    assert_eq!(m.requester.phone, "15550100");
    assert_eq!(m.requester.learning_language.as_deref(), Some("Norwegian"));
    assert_eq!(m.partner.phone, "4711111111");
    assert_eq!(m.partner.learning_language.as_deref(), Some("English"));
}

#[test]
fn tutor_to_turns_gives_the_requester_the_first_turn() {
    let c = conversation(ConversationMode::Tutor);
    let m = apply_conversation_mode(&c, &pair(), "4711111111", ConversationModeSetting::ExchangeTurns, true)
        .unwrap();
    assert_eq!(m.conversation.mode, ConversationMode::ExchangeTurns);
    assert_eq!(m.conversation.exchange_turn_phone.as_deref(), Some("4711111111"));
}

#[test]
fn swapping_tutor_roles_and_asking_again() {
    let c = conversation(ConversationMode::Tutor);
    let m = apply_conversation_mode(&c, &pair(), "4711111111", ConversationModeSetting::Learner, true)
        .unwrap();
    assert_eq!(m.conversation.mode, ConversationMode::Tutor);
    assert_eq!(m.requester.role, ParticipantRole::Learner);
    assert_eq!(m.partner.role, ParticipantRole::Teacher);
    assert_eq!(m.reset_learner, Some(1));
    let again = apply_conversation_mode(&m.conversation, &m.participants, "4711111111", ConversationModeSetting::Learner, true)
        .unwrap();
    assert_eq!(again.requester.role, ParticipantRole::Learner);
    assert!(!again.reset_awaiting_reply);
    assert_eq!(again.participants.len(), 2);
    assert_eq!(again.participants[0].role, ParticipantRole::Learner);
}

#[test]
fn exchange_to_tutor_picks_the_language() {
    let c = conversation(ConversationMode::Exchange);
    let ps = vec![
        participant(1, "4711111111", ParticipantRole::Teacher, Some("English")),
        participant(2, "15550100", ParticipantRole::Learner, Some("Norwegian")),
    ];
    let m = apply_conversation_mode(&c, &ps, "4711111111", ConversationModeSetting::Teacher, true).unwrap();
    assert_eq!(m.conversation.mode, ConversationMode::Tutor);
    assert_eq!(m.conversation.target_language, "Norwegian");
    assert_eq!(m.requester.role, ParticipantRole::Teacher);
    assert_eq!(m.partner.role, ParticipantRole::Learner);
    assert_eq!(m.reset_learner, Some(2));
    let m = apply_conversation_mode(&c, &ps, "4711111111", ConversationModeSetting::Learner, true).unwrap();
    assert_eq!(m.conversation.target_language, "English");
}

fn listing(id: i64, active: bool, pending: bool) -> ConversationListing {
    ConversationListing {
        conversation_id: id,
        mode: ConversationMode::Tutor,
        target_language: "Norwegian".to_string(),
        role: ParticipantRole::Learner,
        learning_language: None,
        partner_learning_language: None,
        partner_phone: None,
        partner_display_name: None,
        is_active: active,
        is_pending: pending,
        turn: None,
        exchange_active_language: None,
    }
}

#[test]
fn listings_order_active_then_live_then_id() {
    let sorted = sort_listings(vec![
        listing(5, false, true),
        listing(3, false, false),
        listing(9, true, false),
        listing(1, false, true),
        listing(2, false, false),
    ]);
    let ids: Vec<i64> = sorted.iter().map(|l| l.conversation_id).collect();
    assert_eq!(ids, vec![9, 2, 3, 1, 5]);
}

#[test]
fn resolving_the_sender() {
    let a = participant(1, "15550100", ParticipantRole::Learner, None);
    let mut b = participant(2, "15550100", ParticipantRole::Teacher, None);
    b.conversation_id = 8;
    assert!(matches!(resolve_participant(&vec![], &vec![], None), ResolveStep::NotRegistered));
    let ps = vec![a, b];
    assert!(matches!(
        resolve_participant(&ps, &vec![true, true], Some(8)),
        ResolveStep::Ready { index: 1, set_active: false }
    ));
    assert!(matches!(resolve_participant(&ps, &vec![true, true], None), ResolveStep::PickConversation));
    assert!(matches!(
        resolve_participant(&ps, &vec![true, false], None),
        ResolveStep::Ready { index: 0, set_active: true }
    ));
    assert!(matches!(
        resolve_participant(&ps, &vec![true, false], Some(8)),
        ResolveStep::CheckInvite { index: 1 }
    ));
    assert!(matches!(
        resolve_participant(&ps, &vec![false, false], None),
        ResolveStep::NotRegistered
    ));
    let single = vec![participant(3, "15550100", ParticipantRole::Learner, None)];
    assert!(matches!(resolve_participant(&single, &vec![false], None), ResolveStep::CheckInvite { index: 0 }));
}

#[test]
fn sqlite_paths() {
    assert_eq!(sqlite_file_path("sqlite:///var/molvakt.db").as_deref(), Some("var/molvakt.db"));
    assert_eq!(sqlite_file_path("sqlite:molvakt.db").as_deref(), Some("molvakt.db"));
    assert_eq!(sqlite_file_path("postgres://x"), None);
}

#[test]
fn stored_name_errors() {
    assert_eq!(OnboardingStep::from_str("menu_pick_mode").unwrap_err(), "not an onboarding step: menu_pick_mode");
    assert_eq!(OnboardingStep::from_str("hello").unwrap_err(), "unknown onboarding step: hello");
    assert_eq!(MenuStep::from_str("welcome").unwrap_err(), "unknown menu step: welcome");
    assert_eq!(MessageRole::from_str("bot").unwrap_err(), "unknown message role: bot");
    assert_eq!(InviteStatus::from_str("maybe").unwrap_err(), "unknown invite status: maybe");
    assert_eq!(OnboardingStep::EnterPartnerPhone.as_str(), "enter_partner_phone");
    assert_eq!(MenuStep::FlashcardReview.as_str(), "menu_flashcard_review");
    assert_eq!(SetModeError::NotParticipant.message(), "not a participant in this conversation");
    assert_eq!(SetModeError::NotComplete.message(), "conversation is not ready for mode change");
    assert_eq!(SetModeError::MissingLanguage.message(), "missing learning language for mode change");
}

fn invite() -> molvakt::db::ConversationInvite {
    molvakt::db::ConversationInvite {
        id: 1,
        conversation_id: 7,
        inviter_phone: "15550100".to_string(),
        invitee_phone: "4711111111".to_string(),
        inviter_role: ParticipantRole::Learner,
        status: InviteStatus::Pending,
    }
}

#[test]
fn a_pending_listing() {
    let me = participant(2, "15550100", ParticipantRole::Learner, Some("Norwegian"));
    let members = vec![participant(2, "15550100", ParticipantRole::Learner, Some("Norwegian"))];
    let c = conversation(ConversationMode::Tutor);
    let pending = Some(invite());
    assert_eq!(listing_partner_phone(&members, &pending, "15550100").as_deref(), Some("4711111111"));
    let l = make_listing(&me, &c, &members, &pending, "15550100", Some("Alice".to_string()), Some(7), false);
    assert!(l.is_pending);
    assert!(l.is_active);
    assert_eq!(l.turn, None);
    assert_eq!(l.partner_learning_language, None);
    assert_eq!(l.partner_phone.as_deref(), Some("4711111111"));
    assert_eq!(l.partner_display_name.as_deref(), Some("Alice"));
    assert_eq!(l.learning_language.as_deref(), Some("Norwegian"));
    let none = make_listing(&me, &c, &members, &None, "15550100", None, None, true);
    assert_eq!(none.partner_phone, None);
    assert!(!none.is_active);
}

#[test]
fn a_live_listing() {
    let members = vec![
        participant(1, "4711111111", ParticipantRole::Teacher, Some("English")),
        participant(2, "15550100", ParticipantRole::Learner, Some("Norwegian")),
    ];
    let me = participant(2, "15550100", ParticipantRole::Learner, Some("Norwegian"));
    let c = conversation(ConversationMode::Tutor);
    let l = make_listing(&me, &c, &members, &None, "15550100", None, Some(3), false);
    assert!(!l.is_pending);
    assert!(!l.is_active);
    assert_eq!(l.turn, Some(ConversationTurnStatus::YourTurnToReply));
    assert_eq!(l.partner_phone.as_deref(), Some("4711111111"));
    assert_eq!(l.partner_learning_language.as_deref(), Some("English"));
    assert_eq!(l.target_language, "Norwegian");
    let e = conversation(ConversationMode::Exchange);
    let l = make_listing(&me, &e, &members, &None, "15550100", None, None, true);
    assert_eq!(l.turn, Some(ConversationTurnStatus::YourTurnToSend));
    assert_eq!(l.mode, ConversationMode::Exchange);
}
