//! Onboarding: a new user picks a role, names a partner's number and the
//! language to practise, and the partner is invited; the partner accepts or
//! declines.

use vstd::prelude::*;
use crate::db::{
    ConversationMode, OnboardingData, OnboardingStep, ParticipantRole, opposite_role, role_from_name,
    role_name,
};
use crate::phone::{digits_only, display_phone, display_phone_spec, normalize_phone};
use crate::text::{chars_eq_str, chars_of, copy_opt_string, opt_chars, string_of, to_upper, trim, trimmed, upper};

verus! {

pub struct OnboardingDataView {
    pub mode: Option<ConversationMode>,
    pub role: Option<ParticipantRole>,
    pub partner_phone: Option<Seq<char>>,
    pub target_language: Option<Seq<char>>,
    pub source_language: Option<Seq<char>>,
    pub pending_conversation_id: Option<i64>,
}

impl View for OnboardingData {
    type V = OnboardingDataView;

    open spec fn view(&self) -> OnboardingDataView {
        OnboardingDataView {
            mode: self.mode,
            role: self.role,
            partner_phone: opt_chars(self.partner_phone),
            target_language: opt_chars(self.target_language),
            source_language: opt_chars(self.source_language),
            pending_conversation_id: self.pending_conversation_id,
        }
    }
}

pub open spec fn empty_data() -> OnboardingDataView {
    OnboardingDataView {
        mode: None,
        role: None,
        partner_phone: None,
        target_language: None,
        source_language: None,
        pending_conversation_id: None,
    }
}

impl OnboardingData {
    /// Nothing collected yet.
    pub fn new() -> (r: OnboardingData)
        ensures
            r@ == empty_data(),
    {
        OnboardingData {
            mode: None,
            role: None,
            partner_phone: None,
            target_language: None,
            source_language: None,
            pending_conversation_id: None,
        }
    }
}

/// What onboarding does with the onboarding session after a message.
pub enum OnboardingAction {
    /// Leave the session as it is.
    Keep,
    /// Store this step and data.
    Save(OnboardingStep, OnboardingData),
    /// Invite the partner with the collected data, then close the session.
    Invite(OnboardingData),
}

pub enum ActionView {
    Keep,
    Save(OnboardingStep, OnboardingDataView),
    Invite(OnboardingDataView),
}

/// The outcome of one message during onboarding: what happens to the
/// session, and the reply sent first (`reply_first`) or after saving.
pub struct OnboardingTurn {
    pub action: OnboardingAction,
    pub reply: Option<String>,
    pub reply_first: bool,
}

pub struct TurnView {
    pub action: ActionView,
    pub reply: Option<Seq<char>>,
    pub reply_first: bool,
}

impl View for OnboardingTurn {
    type V = TurnView;

    open spec fn view(&self) -> TurnView {
        TurnView {
            action: match self.action {
                OnboardingAction::Keep => ActionView::Keep,
                OnboardingAction::Save(s, d) => ActionView::Save(s, d@),
                OnboardingAction::Invite(d) => ActionView::Invite(d@),
            },
            reply: opt_chars(self.reply),
            reply_first: self.reply_first,
        }
    }
}

pub open spec fn welcome_text() -> Seq<char> {
    "Welcome to molvakt!\n\nReply LEARNER if you're practicing a language.\nReply TEACHER if you're the native speaker."@
}

pub open spec fn partner_phone_question(role: ParticipantRole) -> Seq<char> {
    match role {
        ParticipantRole::Learner => "Send your teacher's phone number with country code (e.g. +4791234567)."@,
        ParticipantRole::Teacher => "Send your learner's phone number with country code (e.g. +14155551234)."@,
    }
}

/// The role a first message names: `LEARNER` or `TEACHER`, in any case.
pub open spec fn role_word(text: Seq<char>) -> Option<ParticipantRole> {
    let w = upper(trim(text));
    if w == "LEARNER"@ {
        Some(ParticipantRole::Learner)
    } else if w == "TEACHER"@ {
        Some(ParticipantRole::Teacher)
    } else {
        None
    }
}

/// Choosing a role (or being welcomed again), from `data`.
pub open spec fn choose_role_spec(text: Seq<char>, data: OnboardingDataView, first: bool) -> TurnView {
    match role_word(text) {
        Some(role) => TurnView {
            action: ActionView::Save(
                OnboardingStep::EnterPartnerPhone,
                OnboardingDataView { role: Some(role), ..data },
            ),
            reply: Some(partner_phone_question(role)),
            reply_first: false,
        },
        None => TurnView {
            action: if first {
                ActionView::Save(OnboardingStep::Welcome, empty_data())
            } else {
                ActionView::Keep
            },
            reply: Some(welcome_text()),
            reply_first: true,
        },
    }
}

/// One message during onboarding. `session` is the stored step and data
/// (`None` for a user who has none yet), `phone` the sender, and
/// `default_source` the language assumed to be the learner's own.
pub open spec fn onboarding_spec(
    session: Option<(OnboardingStep, OnboardingDataView)>,
    phone: Seq<char>,
    text: Seq<char>,
    default_source: Seq<char>,
) -> TurnView {
    match session {
        None => choose_role_spec(text, empty_data(), true),
        Some((step, data)) => match step {
            OnboardingStep::EnterPartnerPhone => {
                let partner = digits_only(text);
                if partner.len() < 8 {
                    TurnView {
                        action: ActionView::Keep,
                        reply: Some(
                            "That doesn't look like a valid phone number. Include country code, e.g. +4791234567."@,
                        ),
                        reply_first: true,
                    }
                } else if partner == digits_only(phone) {
                    TurnView {
                        action: ActionView::Keep,
                        reply: Some(
                            "You can't pair with your own number. Send your partner's phone."@,
                        ),
                        reply_first: true,
                    }
                } else {
                    TurnView {
                        action: ActionView::Save(
                            OnboardingStep::EnterTargetLanguage,
                            OnboardingDataView { partner_phone: Some(partner), ..data },
                        ),
                        reply: Some("What language will you practice? (e.g. Norwegian)"@),
                        reply_first: false,
                    }
                }
            },
            OnboardingStep::EnterTargetLanguage => {
                let language = trim(text);
                if language.len() == 0 {
                    TurnView {
                        action: ActionView::Keep,
                        reply: Some("Please send the language name, e.g. Norwegian."@),
                        reply_first: true,
                    }
                } else {
                    TurnView {
                        action: ActionView::Invite(
                            OnboardingDataView {
                                target_language: Some(language),
                                source_language: if data.source_language is None {
                                    Some(default_source)
                                } else {
                                    data.source_language
                                },
                                ..data
                            },
                        ),
                        reply: None,
                        reply_first: false,
                    }
                }
            },
            _ => choose_role_spec(text, data, false),
        },
    }
}

/// Onboarding never pairs a user with their own number: the partner number
/// it keeps has at least eight digits and differs from the sender's.
pub proof fn lemma_partner_is_someone_else(
    data: OnboardingDataView,
    phone: Seq<char>,
    text: Seq<char>,
    default_source: Seq<char>,
)
    ensures
        ({
            let t = onboarding_spec(Some((OnboardingStep::EnterPartnerPhone, data)), phone, text, default_source);
            t.action matches ActionView::Save(_, d) ==> (d.partner_phone matches Some(p) && p.len() >= 8
                && p != digits_only(phone))
        }),
{
}

/// An invite goes out only with a language to practice (the trimmed,
/// non-empty text) and a language to explain in.
pub proof fn lemma_invite_has_languages(
    data: OnboardingDataView,
    phone: Seq<char>,
    text: Seq<char>,
    default_source: Seq<char>,
)
    ensures
        ({
            let t = onboarding_spec(Some((OnboardingStep::EnterTargetLanguage, data)), phone, text, default_source);
            t.action matches ActionView::Invite(d) ==> (d.target_language == Some(trim(text)) && trim(
                text,
            ).len() > 0 && d.source_language is Some)
        }),
{
}

fn parse_role_word(text: &str) -> (r: Option<ParticipantRole>)
    ensures
        r == role_word(text@),
{
    let w = to_upper(&trimmed(text));
    if chars_eq_str(&w, "LEARNER") {
        Some(ParticipantRole::Learner)
    } else if chars_eq_str(&w, "TEACHER") {
        Some(ParticipantRole::Teacher)
    } else {
        None
    }
}

/// The welcome for a new user.
pub fn welcome_message() -> (r: String)
    ensures
        r@ == welcome_text(),
{
    String::from_str(
        "Welcome to molvakt!\n\nReply LEARNER if you're practicing a language.\nReply TEACHER if you're the native speaker.",
    )
}

fn partner_question(role: ParticipantRole) -> (r: String)
    ensures
        r@ == partner_phone_question(role),
{
    match role {
        ParticipantRole::Learner => String::from_str(
            "Send your teacher's phone number with country code (e.g. +4791234567).",
        ),
        ParticipantRole::Teacher => String::from_str(
            "Send your learner's phone number with country code (e.g. +14155551234).",
        ),
    }
}

fn copy_data(d: &OnboardingData) -> (r: OnboardingData)
    ensures
        r@ == d@,
{
    OnboardingData {
        mode: d.mode,
        role: d.role,
        partner_phone: copy_opt_string(&d.partner_phone),
        target_language: copy_opt_string(&d.target_language),
        source_language: copy_opt_string(&d.source_language),
        pending_conversation_id: d.pending_conversation_id,
    }
}

fn choose_role(text: &str, data: OnboardingData, first: bool) -> (r: OnboardingTurn)
    ensures
        r@ == choose_role_spec(text@, data@, first),
{
    match parse_role_word(text) {
        Some(role) => {
            let mut data = data;
            data.role = Some(role);
            OnboardingTurn {
                action: OnboardingAction::Save(OnboardingStep::EnterPartnerPhone, data),
                reply: Some(partner_question(role)),
                reply_first: false,
            }
        },
        None => OnboardingTurn {
            action: if first {
                OnboardingAction::Save(OnboardingStep::Welcome, OnboardingData::new())
            } else {
                OnboardingAction::Keep
            },
            reply: Some(welcome_message()),
            reply_first: true,
        },
    }
}

/// What one message does during onboarding.
pub fn onboarding_reply(
    session: Option<(OnboardingStep, OnboardingData)>,
    phone: &str,
    text: &str,
    default_source: &str,
) -> (r: OnboardingTurn)
    ensures
        r@ == onboarding_spec(
            match session {
                Some((s, d)) => Some((s, d@)),
                None => None,
            },
            phone@,
            text@,
            default_source@,
        ),
{
    match session {
        None => choose_role(text, OnboardingData::new(), true),
        Some((step, data)) => match step {
            OnboardingStep::EnterPartnerPhone => {
                let partner = normalize_phone(text);
                let own = normalize_phone(phone);
                if partner.as_str().unicode_len() < 8 {
                    OnboardingTurn {
                        action: OnboardingAction::Keep,
                        reply: Some(
                            String::from_str(
                                "That doesn't look like a valid phone number. Include country code, e.g. +4791234567.",
                            ),
                        ),
                        reply_first: true,
                    }
                } else if partner == own {
                    OnboardingTurn {
                        action: OnboardingAction::Keep,
                        reply: Some(
                            String::from_str(
                                "You can't pair with your own number. Send your partner's phone.",
                            ),
                        ),
                        reply_first: true,
                    }
                } else {
                    let mut data = data;
                    data.partner_phone = Some(partner);
                    OnboardingTurn {
                        action: OnboardingAction::Save(OnboardingStep::EnterTargetLanguage, data),
                        reply: Some(
                            String::from_str("What language will you practice? (e.g. Norwegian)"),
                        ),
                        reply_first: false,
                    }
                }
            },
            OnboardingStep::EnterTargetLanguage => {
                let language = trimmed(text);
                if language.len() == 0 {
                    OnboardingTurn {
                        action: OnboardingAction::Keep,
                        reply: Some(String::from_str("Please send the language name, e.g. Norwegian.")),
                        reply_first: true,
                    }
                } else {
                    let mut data = data;
                    data.target_language = Some(string_of(&language));
                    if data.source_language.is_none() {
                        data.source_language = Some(String::from_str(default_source));
                    }
                    OnboardingTurn {
                        action: OnboardingAction::Invite(data),
                        reply: None,
                        reply_first: false,
                    }
                }
            },
            _ => choose_role(text, data, false),
        },
    }
}

// ---------------------------------------------------------------------------
// Invites
// ---------------------------------------------------------------------------

pub open spec fn already_in_conversation_text() -> Seq<char> {
    "You're already in a conversation. Multiple conversations per person aren't supported yet."@
}

pub open spec fn partner_busy_text() -> Seq<char> {
    "That person is already in a conversation. Ask them to use a different number or wait for multi-conversation support."@
}

/// Whether an invite may be sent, or why not: the inviter must not be in a
/// conversation yet, nor the person invited.
pub open spec fn invite_refusal_spec(inviter_busy: bool, partner_busy: bool) -> Option<Seq<char>> {
    if inviter_busy {
        Some(already_in_conversation_text())
    } else if partner_busy {
        Some(partner_busy_text())
    } else {
        None
    }
}

/// The refusal of an invite, if it is refused.
pub fn invite_refusal(inviter_busy: bool, partner_busy: bool) -> (r: Option<String>)
    ensures
        opt_chars(r) == invite_refusal_spec(inviter_busy, partner_busy),
{
    if inviter_busy {
        Some(
            String::from_str(
                "You're already in a conversation. Multiple conversations per person aren't supported yet.",
            ),
        )
    } else if partner_busy {
        Some(
            String::from_str(
                "That person is already in a conversation. Ask them to use a different number or wait for multi-conversation support.",
            ),
        )
    } else {
        None
    }
}

/// Whether an invite is addressed to the number that answers it: the
/// digits of `phone` are exactly the stored invitee number. An invite
/// answered from another number is not accepted.
pub fn invite_is_for(invitee_phone: &str, phone: &str) -> (r: bool)
    ensures
        r == (digits_only(phone@) == invitee_phone@),
{
    let digits = normalize_phone(phone);
    let stored = chars_of(invitee_phone);
    chars_eq_str(&stored, digits.as_str())
}

/// The invitation the partner receives.
pub open spec fn invitation_spec(inviter_phone: Seq<char>, target: Seq<char>, inviter_role: ParticipantRole) -> Seq<
    char,
> {
    display_phone_spec(inviter_phone) + " wants to practice "@ + target + " with you as their "@
        + role_name(opposite_role(inviter_role)) + ".\n\nReply ACCEPT or DECLINE."@
}

/// The invitation tells the partner the role they will take, and that role
/// is never the inviter's own: after the inviter's number, the language and
/// "with you as their ", it names (as a role name) the other role, then asks
/// for ACCEPT or DECLINE.
pub proof fn lemma_invitation_names_the_other_role(
    inviter_phone: Seq<char>,
    target: Seq<char>,
    inviter_role: ParticipantRole,
)
    ensures
        ({
            let head = display_phone_spec(inviter_phone) + " wants to practice "@ + target
                + " with you as their "@;
            let tail = ".\n\nReply ACCEPT or DECLINE."@;
            let inv = invitation_spec(inviter_phone, target, inviter_role);
            &&& inv.len() == head.len() + 7 + tail.len()
            &&& inv.take(head.len() as int) == head
            &&& inv.skip(head.len() + 7int) == tail
            &&& role_from_name(inv.subrange(head.len() as int, head.len() + 7int)) matches Some(invitee)
                && invitee != inviter_role
        }),
{
    reveal_strlit("teacher");
    reveal_strlit("learner");
    let head = display_phone_spec(inviter_phone) + " wants to practice "@ + target
        + " with you as their "@;
    let tail = ".\n\nReply ACCEPT or DECLINE."@;
    let w = role_name(opposite_role(inviter_role));
    let inv = invitation_spec(inviter_phone, target, inviter_role);
    assert(inv =~= head + w + tail);
    assert(w.len() == 7);
    assert(inv.take(head.len() as int) =~= head);
    assert(inv.skip(head.len() + 7int) =~= tail);
    assert(inv.subrange(head.len() as int, head.len() + 7int) =~= w);
    assert("learner"@[0] != "teacher"@[0]);
    match inviter_role {
        ParticipantRole::Teacher => assert(role_from_name(w) == Some(ParticipantRole::Learner)),
        ParticipantRole::Learner => assert(role_from_name(w) == Some(ParticipantRole::Teacher)),
    }
}

pub fn invitation_text(inviter_phone: &str, target: &str, inviter_role: ParticipantRole) -> (r: String)
    ensures
        r@ == invitation_spec(inviter_phone@, target@, inviter_role),
{
    let mut r = display_phone(inviter_phone);
    r.append(" wants to practice ");
    r.append(target);
    r.append(" with you as their ");
    r.append(inviter_role.opposite().as_str());
    r.append(".\n\nReply ACCEPT or DECLINE.");
    r
}

pub open spec fn invite_sent_text() -> Seq<char> {
    "Invite sent! Waiting for them to accept — you'll get a message when the conversation is ready."@
}

pub fn invite_sent_message() -> (r: String)
    ensures
        r@ == invite_sent_text(),
{
    String::from_str(
        "Invite sent! Waiting for them to accept — you'll get a message when the conversation is ready.",
    )
}

/// How the invited person answers.
pub enum InviteAnswer {
    Accept,
    Decline,
    /// Anything else: remind them of the invite.
    Remind,
}

pub open spec fn invite_answer_spec(text: Seq<char>) -> InviteAnswer {
    let w = upper(trim(text));
    if w == "ACCEPT"@ {
        InviteAnswer::Accept
    } else if w == "DECLINE"@ {
        InviteAnswer::Decline
    } else {
        InviteAnswer::Remind
    }
}

/// `ACCEPT`, `DECLINE` (in any case), or anything else.
pub fn invite_answer(text: &str) -> (r: InviteAnswer)
    ensures
        r == invite_answer_spec(text@),
{
    let w = to_upper(&trimmed(text));
    if chars_eq_str(&w, "ACCEPT") {
        InviteAnswer::Accept
    } else if chars_eq_str(&w, "DECLINE") {
        InviteAnswer::Decline
    } else {
        InviteAnswer::Remind
    }
}

pub open spec fn invite_reminder_spec(inviter_phone: Seq<char>, target: Seq<char>, inviter_role: ParticipantRole) -> Seq<
    char,
> {
    "You have a pending invite from "@ + display_phone_spec(inviter_phone) + " to practice "@
        + target + " as their "@ + role_name(opposite_role(inviter_role))
        + ".\n\nReply ACCEPT or DECLINE."@
}

pub fn invite_reminder(inviter_phone: &str, target: &str, inviter_role: ParticipantRole) -> (r: String)
    ensures
        r@ == invite_reminder_spec(inviter_phone@, target@, inviter_role),
{
    let mut r = String::from_str("You have a pending invite from ");
    let inviter = display_phone(inviter_phone);
    r.append(inviter.as_str());
    r.append(" to practice ");
    r.append(target);
    r.append(" as their ");
    r.append(inviter_role.opposite().as_str());
    r.append(".\n\nReply ACCEPT or DECLINE.");
    r
}

pub open spec fn connected_spec(invitee_role: ParticipantRole, target: Seq<char>) -> Seq<char> {
    match invitee_role {
        ParticipantRole::Teacher => "You're connected! Send messages in "@ + target
            + " and molvakt will forward them to your learner."@,
        ParticipantRole::Learner => "You're connected! You'll practice "@ + target
            + " here — reply when your teacher messages you."@,
    }
}

/// What the person who accepted an invite is told.
pub fn connected_message(invitee_role: ParticipantRole, target: &str) -> (r: String)
    ensures
        r@ == connected_spec(invitee_role, target@),
{
    match invitee_role {
        ParticipantRole::Teacher => {
            let mut r = String::from_str("You're connected! Send messages in ");
            r.append(target);
            r.append(" and molvakt will forward them to your learner.");
            r
        },
        ParticipantRole::Learner => {
            let mut r = String::from_str("You're connected! You'll practice ");
            r.append(target);
            r.append(" here — reply when your teacher messages you.");
            r
        },
    }
}

pub open spec fn accepted_spec(invitee_phone: Seq<char>) -> Seq<char> {
    display_phone_spec(invitee_phone) + " accepted your invite! You can start messaging."@
}

/// What the inviter is told when the invite is accepted.
pub fn accepted_message(invitee_phone: &str) -> (r: String)
    ensures
        r@ == accepted_spec(invitee_phone@),
{
    let mut r = display_phone(invitee_phone);
    r.append(" accepted your invite! You can start messaging.");
    r
}

pub open spec fn declined_spec(invitee_phone: Seq<char>) -> Seq<char> {
    display_phone_spec(invitee_phone)
        + " declined your invite. You can start over by sending LEARNER or TEACHER."@
}

/// What the inviter is told when the invite is declined.
pub fn declined_message(invitee_phone: &str) -> (r: String)
    ensures
        r@ == declined_spec(invitee_phone@),
{
    let mut r = display_phone(invitee_phone);
    r.append(" declined your invite. You can start over by sending LEARNER or TEACHER.");
    r
}

pub const INVITE_DECLINED_TEXT: &'static str = "Invite declined.";

} // verus!
