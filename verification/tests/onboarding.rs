use molvakt::db::{OnboardingData, OnboardingStep, ParticipantRole};
use molvakt::onboarding::{
    accepted_message, connected_message, declined_message, invitation_text, invite_answer,
    invite_is_for, invite_refusal, invite_reminder, invite_sent_message, onboarding_reply, welcome_message,
    InviteAnswer, OnboardingAction,
};

const WELCOME: &str = "Welcome to molvakt!\n\n\
             Reply LEARNER if you're practicing a language.\n\
             Reply TEACHER if you're the native speaker.";

#[test]
fn a_stranger_is_welcomed() {
    assert_eq!(welcome_message(), WELCOME);
    let turn = onboarding_reply(None, "15550100", "hi", "English");
    assert_eq!(turn.reply.as_deref(), Some(WELCOME));
    assert!(turn.reply_first);
    assert!(matches!(turn.action, OnboardingAction::Save(OnboardingStep::Welcome, ref d) if d.role.is_none()));
}

#[test]
fn choosing_a_role_asks_for_the_partner() {
    let turn = onboarding_reply(None, "15550100", " learner ", "English");
    assert_eq!(
        turn.reply.as_deref(),
        Some("Send your teacher's phone number with country code (e.g. +4791234567).")
    );
    assert!(matches!(turn.action, OnboardingAction::Save(OnboardingStep::EnterPartnerPhone, ref d) if d.role == Some(ParticipantRole::Learner)));
    let turn = onboarding_reply(
        Some((OnboardingStep::Welcome, OnboardingData::new())),
        "15550100",
        "Teacher",
        "English",
    );
    assert_eq!(
        turn.reply.as_deref(),
        Some("Send your learner's phone number with country code (e.g. +14155551234).")
    );
    let turn = onboarding_reply(
        Some((OnboardingStep::Welcome, OnboardingData::new())),
        "15550100",
        "what?",
        "English",
    );
    assert!(matches!(turn.action, OnboardingAction::Keep));
    assert_eq!(turn.reply.as_deref(), Some(WELCOME));
}

fn with_role(role: ParticipantRole) -> OnboardingData {
    let mut d = OnboardingData::new();
    d.role = Some(role);
    d
}

#[test]
fn partner_phone_is_checked() {
    let turn = onboarding_reply(
        Some((OnboardingStep::EnterPartnerPhone, with_role(ParticipantRole::Learner))),
        "15550100",
        "1234",
        "English",
    );
    assert!(matches!(turn.action, OnboardingAction::Keep));
    assert_eq!(
        turn.reply.as_deref(),
        Some("That doesn't look like a valid phone number. Include country code, e.g. +4791234567.")
    );
    let turn = onboarding_reply(
        Some((OnboardingStep::EnterPartnerPhone, with_role(ParticipantRole::Learner))),
        "+1 555 0100",
        "1-555-0100",
        "English",
    );
    assert_eq!(turn.reply.as_deref(), Some("You can't pair with your own number. Send your partner's phone."));
    let turn = onboarding_reply(
        Some((OnboardingStep::EnterPartnerPhone, with_role(ParticipantRole::Learner))),
        "15550100",
        "+47 912 34 567",
        "English",
    );
    assert_eq!(turn.reply.as_deref(), Some("What language will you practice? (e.g. Norwegian)"));
    match turn.action {
        OnboardingAction::Save(OnboardingStep::EnterTargetLanguage, d) => {
            assert_eq!(d.partner_phone.as_deref(), Some("4791234567"));
            assert_eq!(d.role, Some(ParticipantRole::Learner));
        }
        _ => panic!("expected the next step"),
    }
}

#[test]
fn language_completes_the_invite() {
    let mut d = with_role(ParticipantRole::Teacher);
    d.partner_phone = Some("4791234567".to_string());
    let turn = onboarding_reply(Some((OnboardingStep::EnterTargetLanguage, d)), "15550100", "  ", "English");
    assert_eq!(turn.reply.as_deref(), Some("Please send the language name, e.g. Norwegian."));
    let mut d = with_role(ParticipantRole::Teacher);
    d.partner_phone = Some("4791234567".to_string());
    let turn = onboarding_reply(
        Some((OnboardingStep::EnterTargetLanguage, d)),
        "15550100",
        " Norwegian ",
        "Spanish",
    );
    assert!(turn.reply.is_none());
    match turn.action {
        OnboardingAction::Invite(d) => {
            assert_eq!(d.target_language.as_deref(), Some("Norwegian"));
            assert_eq!(d.source_language.as_deref(), Some("Spanish"));
            assert_eq!(d.role, Some(ParticipantRole::Teacher));
        }
        _ => panic!("expected an invite"),
    }
}

#[test]
fn invite_texts() {
    assert_eq!(
        invitation_text("15550100", "Norwegian", ParticipantRole::Learner),
        "+15550100 wants to practice Norwegian with you as their teacher.\n\nReply ACCEPT or DECLINE."
    );
    assert_eq!(
        invite_reminder("15550100", "Norwegian", ParticipantRole::Teacher),
        "You have a pending invite from +15550100 to practice Norwegian as their learner.\n\nReply ACCEPT or DECLINE."
    );
    assert_eq!(
        invite_sent_message(),
        "Invite sent! Waiting for them to accept — you'll get a message when the conversation is ready."
    );
    assert_eq!(
        invite_refusal(true, true).as_deref(),
        Some("You're already in a conversation. Multiple conversations per person aren't supported yet.")
    );
    assert_eq!(
        invite_refusal(false, true).as_deref(),
        Some("That person is already in a conversation. Ask them to use a different number or wait for multi-conversation support.")
    );
    assert_eq!(invite_refusal(false, false), None);
}

#[test]
fn answering_an_invite() {
    assert!(matches!(invite_answer(" accept "), InviteAnswer::Accept));
    assert!(matches!(invite_answer("Decline"), InviteAnswer::Decline));
    assert!(matches!(invite_answer("maybe"), InviteAnswer::Remind));
    assert_eq!(
        connected_message(ParticipantRole::Teacher, "Norwegian"),
        "You're connected! Send messages in Norwegian and molvakt will forward them to your learner."
    );
    assert_eq!(
        connected_message(ParticipantRole::Learner, "Norwegian"),
        "You're connected! You'll practice Norwegian here — reply when your teacher messages you."
    );
    assert_eq!(accepted_message("4791234567"), "+4791234567 accepted your invite! You can start messaging.");
    assert_eq!(
        declined_message("4791234567"),
        "+4791234567 declined your invite. You can start over by sending LEARNER or TEACHER."
    );
}

#[test]
fn invite_is_for_compares_digits_with_the_stored_number() {
    assert!(invite_is_for("4799887766", "+47 998 87 766"));
    assert!(invite_is_for("4799887766", "4799887766"));
    assert!(!invite_is_for("4799887766", "+47 998 87 765"));
    assert!(!invite_is_for("+4799887766", "+4799887766"));
    assert!(!invite_is_for("4799887766", ""));
}
