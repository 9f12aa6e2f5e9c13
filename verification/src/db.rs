//! The records the bot keeps (conversations, participants, invites, sessions),
//! the names under which their kinds are stored, and the decisions that the
//! storage layer makes over those records.

use vstd::prelude::*;
use crate::text::{
    chars_eq_str, chars_of, copy_opt_string, has_prefix, opt_chars, starts_with, string_of,
    strip_prefix, strip_prefix_chars,
};

verus! {

// ---------------------------------------------------------------------------
// Records
// ---------------------------------------------------------------------------

pub struct Conversation {
    pub id: i64,
    pub mode: ConversationMode,
    pub target_language: String,
    pub source_language: String,
    pub exchange_turn_phone: Option<String>,
}

#[derive(Clone, Copy, Debug, PartialEq, Eq, Structural)]
pub enum ConversationMode {
    Tutor,
    Exchange,
    ExchangeTurns,
}

pub struct Participant {
    pub id: i64,
    pub conversation_id: i64,
    pub phone: String,
    pub role: ParticipantRole,
    pub learning_language: Option<String>,
}

/// One line of a user's list of conversations, as seen by that user.
pub struct ConversationListing {
    pub conversation_id: i64,
    pub mode: ConversationMode,
    pub target_language: String,
    pub role: ParticipantRole,
    pub learning_language: Option<String>,
    pub partner_learning_language: Option<String>,
    pub partner_phone: Option<String>,
    pub partner_display_name: Option<String>,
    pub is_active: bool,
    pub is_pending: bool,
    pub turn: Option<ConversationTurnStatus>,
    /// In a turn-based exchange, the language the current round is written in.
    pub exchange_active_language: Option<String>,
}

#[derive(Clone, Copy, Debug, PartialEq, Eq, Structural)]
pub enum ConversationTurnStatus {
    YourTurnToSend,
    YourTurnToReply,
    WaitingForReply,
    WaitingForMessage,
}

#[derive(Debug, Clone, Copy, PartialEq, Eq, Structural)]
pub enum ConversationModeSetting {
    Teacher,
    Learner,
    Exchange,
    ExchangeTurns,
}

#[derive(Debug, Clone, Copy, PartialEq, Eq, Structural)]
pub enum SetModeError {
    NotParticipant,
    NotComplete,
    ActiveExchange,
    MissingLanguage,
}

/// What a message from a phone number is about.
pub enum ParticipantResolve {
    Ready(Participant),
    WaitingInvite { participant: Participant, invite: ConversationInvite },
    StaleIncomplete { conversation_id: i64 },
    PickConversation,
    NotRegistered,
}

pub struct ConversationInvite {
    pub id: i64,
    pub conversation_id: i64,
    pub inviter_phone: String,
    pub invitee_phone: String,
    pub inviter_role: ParticipantRole,
    pub status: InviteStatus,
}

#[derive(Clone, Copy, Debug, PartialEq, Eq, Structural)]
pub enum InviteStatus {
    Pending,
    Accepted,
    Declined,
}

#[derive(Clone, Copy, Debug, PartialEq, Eq, Structural)]
pub enum ParticipantRole {
    Teacher,
    Learner,
}

#[derive(Clone, Copy, Debug, PartialEq, Eq, Structural)]
pub enum MessageRole {
    Teacher,
    Learner,
}

/// What onboarding has collected so far.
pub struct OnboardingData {
    pub mode: Option<ConversationMode>,
    pub role: Option<ParticipantRole>,
    pub partner_phone: Option<String>,
    pub target_language: Option<String>,
    pub source_language: Option<String>,
    pub pending_conversation_id: Option<i64>,
}

#[derive(Debug, Clone, Copy, PartialEq, Eq, Structural)]
pub enum OnboardingStep {
    Welcome,
    EnterPartnerPhone,
    EnterTargetLanguage,
    EnterExchangeLearningLanguage,
}

#[derive(Debug, Clone, Copy, PartialEq, Eq, Structural)]
pub enum MenuAction {
    Switch,
    SetMode,
    SetLanguage,
    Cancel,
}

/// What a menu session has collected so far.
pub struct MenuData {
    pub action: Option<MenuAction>,
    pub conversation_index: Option<usize>,
    pub flashcard_id: Option<i64>,
}

#[derive(Debug, Clone, Copy, PartialEq, Eq, Structural)]
pub enum MenuStep {
    PickConversation,
    PickMode,
    AwaitLanguage,
    FlashcardReview,
}

// ---------------------------------------------------------------------------
// Stored names
// ---------------------------------------------------------------------------

pub open spec fn mode_name(m: ConversationMode) -> Seq<char> {
    match m {
        ConversationMode::Tutor => "tutor"@,
        ConversationMode::Exchange => "exchange"@,
        ConversationMode::ExchangeTurns => "exchange_turns"@,
    }
}

pub open spec fn mode_from_name(s: Seq<char>) -> Option<ConversationMode> {
    if s == "tutor"@ {
        Some(ConversationMode::Tutor)
    } else if s == "exchange"@ {
        Some(ConversationMode::Exchange)
    } else if s == "exchange_turns"@ {
        Some(ConversationMode::ExchangeTurns)
    } else {
        None
    }
}

pub open spec fn role_name(r: ParticipantRole) -> Seq<char> {
    match r {
        ParticipantRole::Teacher => "teacher"@,
        ParticipantRole::Learner => "learner"@,
    }
}

pub open spec fn role_from_name(s: Seq<char>) -> Option<ParticipantRole> {
    if s == "teacher"@ {
        Some(ParticipantRole::Teacher)
    } else if s == "learner"@ {
        Some(ParticipantRole::Learner)
    } else {
        None
    }
}

pub open spec fn opposite_role(r: ParticipantRole) -> ParticipantRole {
    match r {
        ParticipantRole::Teacher => ParticipantRole::Learner,
        ParticipantRole::Learner => ParticipantRole::Teacher,
    }
}

pub open spec fn message_role_name(r: MessageRole) -> Seq<char> {
    match r {
        MessageRole::Teacher => "teacher"@,
        MessageRole::Learner => "learner"@,
    }
}

pub open spec fn message_role_from_name(s: Seq<char>) -> Option<MessageRole> {
    if s == "teacher"@ {
        Some(MessageRole::Teacher)
    } else if s == "learner"@ {
        Some(MessageRole::Learner)
    } else {
        None
    }
}

pub open spec fn invite_status_name(s: InviteStatus) -> Seq<char> {
    match s {
        InviteStatus::Pending => "pending"@,
        InviteStatus::Accepted => "accepted"@,
        InviteStatus::Declined => "declined"@,
    }
}

pub open spec fn invite_status_from_name(s: Seq<char>) -> Option<InviteStatus> {
    if s == "pending"@ {
        Some(InviteStatus::Pending)
    } else if s == "accepted"@ {
        Some(InviteStatus::Accepted)
    } else if s == "declined"@ {
        Some(InviteStatus::Declined)
    } else {
        None
    }
}

pub open spec fn onboarding_step_name(s: OnboardingStep) -> Seq<char> {
    match s {
        OnboardingStep::Welcome => "welcome"@,
        OnboardingStep::EnterPartnerPhone => "enter_partner_phone"@,
        OnboardingStep::EnterTargetLanguage => "enter_target_language"@,
        OnboardingStep::EnterExchangeLearningLanguage => "enter_exchange_learning_language"@,
    }
}

/// Onboarding and menu sessions share one table; menu steps are the names
/// that start with `menu_`, and they are never onboarding steps.
pub open spec fn onboarding_step_from_name(s: Seq<char>) -> Option<OnboardingStep> {
    if has_prefix(s, "menu_"@) {
        None
    } else if s == "welcome"@ {
        Some(OnboardingStep::Welcome)
    } else if s == "enter_partner_phone"@ {
        Some(OnboardingStep::EnterPartnerPhone)
    } else if s == "enter_target_language"@ {
        Some(OnboardingStep::EnterTargetLanguage)
    } else if s == "enter_exchange_learning_language"@ {
        Some(OnboardingStep::EnterExchangeLearningLanguage)
    } else {
        None
    }
}

pub open spec fn menu_step_name(s: MenuStep) -> Seq<char> {
    match s {
        MenuStep::PickConversation => "menu_pick_conversation"@,
        MenuStep::PickMode => "menu_pick_mode"@,
        MenuStep::AwaitLanguage => "menu_await_language"@,
        MenuStep::FlashcardReview => "menu_flashcard_review"@,
    }
}

pub open spec fn menu_step_from_name(s: Seq<char>) -> Option<MenuStep> {
    if s == "menu_pick_conversation"@ {
        Some(MenuStep::PickConversation)
    } else if s == "menu_pick_mode"@ {
        Some(MenuStep::PickMode)
    } else if s == "menu_await_language"@ {
        Some(MenuStep::AwaitLanguage)
    } else if s == "menu_flashcard_review"@ {
        Some(MenuStep::FlashcardReview)
    } else {
        None
    }
}

pub open spec fn turn_label(t: ConversationTurnStatus) -> Seq<char> {
    match t {
        ConversationTurnStatus::YourTurnToSend => "your turn to send"@,
        ConversationTurnStatus::YourTurnToReply => "your turn to reply"@,
        ConversationTurnStatus::WaitingForReply => "waiting for reply"@,
        ConversationTurnStatus::WaitingForMessage => "waiting for message"@,
    }
}

pub open spec fn set_mode_error_text(e: SetModeError) -> Seq<char> {
    match e {
        SetModeError::NotParticipant => "not a participant in this conversation"@,
        SetModeError::NotComplete => "conversation is not ready for mode change"@,
        SetModeError::ActiveExchange => "learner is mid-exchange; wait until the current message is finished"@,
        SetModeError::MissingLanguage => "missing learning language for mode change"@,
    }
}

/// The error text for a stored name that is not known.
pub open spec fn unknown_name_error(what: Seq<char>, name: Seq<char>) -> Seq<char> {
    "unknown "@ + what + ": "@ + name
}

fn unknown_name(what: &str, name: &str) -> (r: String)
    ensures
        r@ == unknown_name_error(what@, name@),
{
    let mut r = String::from_str("unknown ");
    r.append(what);
    r.append(": ");
    r.append(name);
    r
}

impl ConversationMode {
    pub fn as_str(self) -> (r: &'static str)
        ensures
            r@ == mode_name(self),
    {
        match self {
            ConversationMode::Tutor => "tutor",
            ConversationMode::Exchange => "exchange",
            ConversationMode::ExchangeTurns => "exchange_turns",
        }
    }

    /// Reads a stored mode name; an unknown name is an error whose text names it.
    pub fn from_str(mode: &str) -> (r: Result<ConversationMode, String>)
        ensures
            match mode_from_name(mode@) {
                Some(m) => r == Ok::<ConversationMode, String>(m),
                None => r is Err && r->Err_0@ == unknown_name_error("conversation mode"@, mode@),
            },
    {
        let v = chars_of(mode);
        if chars_eq_str(&v, "tutor") {
            Ok(ConversationMode::Tutor)
        } else if chars_eq_str(&v, "exchange") {
            Ok(ConversationMode::Exchange)
        } else if chars_eq_str(&v, "exchange_turns") {
            Ok(ConversationMode::ExchangeTurns)
        } else {
            Err(unknown_name("conversation mode", mode))
        }
    }

    pub fn is_exchange(self) -> (r: bool)
        ensures
            r == (self != ConversationMode::Tutor),
    {
        match self {
            ConversationMode::Exchange | ConversationMode::ExchangeTurns => true,
            ConversationMode::Tutor => false,
        }
    }
}

impl ConversationTurnStatus {
    pub fn label(self) -> (r: &'static str)
        ensures
            r@ == turn_label(self),
    {
        match self {
            ConversationTurnStatus::YourTurnToSend => "your turn to send",
            ConversationTurnStatus::YourTurnToReply => "your turn to reply",
            ConversationTurnStatus::WaitingForReply => "waiting for reply",
            ConversationTurnStatus::WaitingForMessage => "waiting for message",
        }
    }
}

impl SetModeError {
    /// The error's text (its `Display` in the storage layer).
    pub fn message(self) -> (r: &'static str)
        ensures
            r@ == set_mode_error_text(self),
    {
        match self {
            SetModeError::NotParticipant => "not a participant in this conversation",
            SetModeError::NotComplete => "conversation is not ready for mode change",
            SetModeError::ActiveExchange => "learner is mid-exchange; wait until the current message is finished",
            SetModeError::MissingLanguage => "missing learning language for mode change",
        }
    }
}

impl OnboardingStep {
    pub fn as_str(self) -> (r: &'static str)
        ensures
            r@ == onboarding_step_name(self),
    {
        match self {
            OnboardingStep::Welcome => "welcome",
            OnboardingStep::EnterPartnerPhone => "enter_partner_phone",
            OnboardingStep::EnterTargetLanguage => "enter_target_language",
            OnboardingStep::EnterExchangeLearningLanguage => "enter_exchange_learning_language",
        }
    }

    /// Reads a stored onboarding step; menu steps and unknown names are errors.
    pub fn from_str(step: &str) -> (r: Result<OnboardingStep, String>)
        ensures
            match onboarding_step_from_name(step@) {
                Some(s) => r == Ok::<OnboardingStep, String>(s),
                None => r is Err && r->Err_0@ == (if has_prefix(step@, "menu_"@) {
                    "not an onboarding step: "@ + step@
                } else {
                    unknown_name_error("onboarding step"@, step@)
                }),
            },
    {
        let v = chars_of(step);
        let menu = chars_of("menu_");
        if starts_with(&v, &menu) {
            let mut e = String::from_str("not an onboarding step: ");
            e.append(step);
            return Err(e);
        }
        if chars_eq_str(&v, "welcome") {
            Ok(OnboardingStep::Welcome)
        } else if chars_eq_str(&v, "enter_partner_phone") {
            Ok(OnboardingStep::EnterPartnerPhone)
        } else if chars_eq_str(&v, "enter_target_language") {
            Ok(OnboardingStep::EnterTargetLanguage)
        } else if chars_eq_str(&v, "enter_exchange_learning_language") {
            Ok(OnboardingStep::EnterExchangeLearningLanguage)
        } else {
            Err(unknown_name("onboarding step", step))
        }
    }
}

impl MenuStep {
    pub fn as_str(self) -> (r: &'static str)
        ensures
            r@ == menu_step_name(self),
    {
        match self {
            MenuStep::PickConversation => "menu_pick_conversation",
            MenuStep::PickMode => "menu_pick_mode",
            MenuStep::AwaitLanguage => "menu_await_language",
            MenuStep::FlashcardReview => "menu_flashcard_review",
        }
    }

    pub fn from_str(step: &str) -> (r: Result<MenuStep, String>)
        ensures
            match menu_step_from_name(step@) {
                Some(s) => r == Ok::<MenuStep, String>(s),
                None => r is Err && r->Err_0@ == unknown_name_error("menu step"@, step@),
            },
    {
        let v = chars_of(step);
        if chars_eq_str(&v, "menu_pick_conversation") {
            Ok(MenuStep::PickConversation)
        } else if chars_eq_str(&v, "menu_pick_mode") {
            Ok(MenuStep::PickMode)
        } else if chars_eq_str(&v, "menu_await_language") {
            Ok(MenuStep::AwaitLanguage)
        } else if chars_eq_str(&v, "menu_flashcard_review") {
            Ok(MenuStep::FlashcardReview)
        } else {
            Err(unknown_name("menu step", step))
        }
    }
}

impl ParticipantRole {
    pub fn as_str(self) -> (r: &'static str)
        ensures
            r@ == role_name(self),
    {
        match self {
            ParticipantRole::Teacher => "teacher",
            ParticipantRole::Learner => "learner",
        }
    }

    pub fn label(self) -> (r: &'static str)
        ensures
            r@ == role_name(self),
    {
        self.as_str()
    }

    pub fn from_str(role: &str) -> (r: Result<ParticipantRole, String>)
        ensures
            match role_from_name(role@) {
                Some(x) => r == Ok::<ParticipantRole, String>(x),
                None => r is Err && r->Err_0@ == unknown_name_error("participant role"@, role@),
            },
    {
        let v = chars_of(role);
        if chars_eq_str(&v, "teacher") {
            Ok(ParticipantRole::Teacher)
        } else if chars_eq_str(&v, "learner") {
            Ok(ParticipantRole::Learner)
        } else {
            Err(unknown_name("participant role", role))
        }
    }

    pub fn opposite(self) -> (r: ParticipantRole)
        ensures
            r == opposite_role(self),
    {
        match self {
            ParticipantRole::Teacher => ParticipantRole::Learner,
            ParticipantRole::Learner => ParticipantRole::Teacher,
        }
    }
}

impl MessageRole {
    pub fn as_str(self) -> (r: &'static str)
        ensures
            r@ == message_role_name(self),
    {
        match self {
            MessageRole::Teacher => "teacher",
            MessageRole::Learner => "learner",
        }
    }

    pub fn from_str(role: &str) -> (r: Result<MessageRole, String>)
        ensures
            match message_role_from_name(role@) {
                Some(x) => r == Ok::<MessageRole, String>(x),
                None => r is Err && r->Err_0@ == unknown_name_error("message role"@, role@),
            },
    {
        let v = chars_of(role);
        if chars_eq_str(&v, "teacher") {
            Ok(MessageRole::Teacher)
        } else if chars_eq_str(&v, "learner") {
            Ok(MessageRole::Learner)
        } else {
            Err(unknown_name("message role", role))
        }
    }
}

impl InviteStatus {
    pub fn as_str(self) -> (r: &'static str)
        ensures
            r@ == invite_status_name(self),
    {
        match self {
            InviteStatus::Pending => "pending",
            InviteStatus::Accepted => "accepted",
            InviteStatus::Declined => "declined",
        }
    }

    pub fn from_str(status: &str) -> (r: Result<InviteStatus, String>)
        ensures
            match invite_status_from_name(status@) {
                Some(x) => r == Ok::<InviteStatus, String>(x),
                None => r is Err && r->Err_0@ == unknown_name_error("invite status"@, status@),
            },
    {
        let v = chars_of(status);
        if chars_eq_str(&v, "pending") {
            Ok(InviteStatus::Pending)
        } else if chars_eq_str(&v, "accepted") {
            Ok(InviteStatus::Accepted)
        } else if chars_eq_str(&v, "declined") {
            Ok(InviteStatus::Declined)
        } else {
            Err(unknown_name("invite status", status))
        }
    }
}

// ---------------------------------------------------------------------------
// Laws of the stored names
// ---------------------------------------------------------------------------

/// A stored conversation mode reads back as the same mode.
pub proof fn lemma_mode_name_roundtrip(m: ConversationMode)
    ensures
        mode_from_name(mode_name(m)) == Some(m),
{
    reveal_strlit("tutor");
    reveal_strlit("exchange");
    reveal_strlit("exchange_turns");
    assert("tutor"@.len() != "exchange"@.len());
    assert("tutor"@.len() != "exchange_turns"@.len());
    assert("exchange"@.len() != "exchange_turns"@.len());
}

/// A stored participant role reads back as the same role.
pub proof fn lemma_role_name_roundtrip(r: ParticipantRole)
    ensures
        role_from_name(role_name(r)) == Some(r),
{
    reveal_strlit("teacher");
    reveal_strlit("learner");
    assert("teacher"@[0] != "learner"@[0]);
}

/// Taking the opposite role twice gives the role back, and never the same role.
pub proof fn lemma_opposite_involution(r: ParticipantRole)
    ensures
        opposite_role(opposite_role(r)) == r,
        opposite_role(r) != r,
{
}

/// A stored message role reads back as the same role.
pub proof fn lemma_message_role_name_roundtrip(r: MessageRole)
    ensures
        message_role_from_name(message_role_name(r)) == Some(r),
{
    reveal_strlit("teacher");
    reveal_strlit("learner");
    assert("teacher"@[0] != "learner"@[0]);
}

/// A stored invite status reads back as the same status.
pub proof fn lemma_invite_status_name_roundtrip(s: InviteStatus)
    ensures
        invite_status_from_name(invite_status_name(s)) == Some(s),
{
    reveal_strlit("pending");
    reveal_strlit("accepted");
    reveal_strlit("declined");
    assert("pending"@.len() != "accepted"@.len());
    assert("pending"@.len() != "declined"@.len());
    assert("accepted"@[0] != "declined"@[0]);
}

proof fn lemma_onboarding_names_not_menu(s: OnboardingStep)
    ensures
        !has_prefix(onboarding_step_name(s), "menu_"@),
{
    reveal_strlit("menu_");
    reveal_strlit("welcome");
    reveal_strlit("enter_partner_phone");
    reveal_strlit("enter_target_language");
    reveal_strlit("enter_exchange_learning_language");
    let n = onboarding_step_name(s);
    assert(n[0] != 'm');
    assert("menu_"@[0] == 'm');
    assert(n.take(5)[0] != "menu_"@[0]);
}

proof fn lemma_menu_names_are_menu(s: MenuStep)
    ensures
        has_prefix(menu_step_name(s), "menu_"@),
{
    reveal_strlit("menu_");
    reveal_strlit("menu_pick_conversation");
    reveal_strlit("menu_pick_mode");
    reveal_strlit("menu_await_language");
    reveal_strlit("menu_flashcard_review");
    let n = menu_step_name(s);
    assert(n.take(5) =~= "menu_"@);
}

/// A stored onboarding step reads back as the same step, and is never
/// taken for a menu step.
pub proof fn lemma_onboarding_step_name_roundtrip(s: OnboardingStep)
    ensures
        onboarding_step_from_name(onboarding_step_name(s)) == Some(s),
        menu_step_from_name(onboarding_step_name(s)) is None,
{
    lemma_onboarding_names_not_menu(s);
    reveal_strlit("welcome");
    reveal_strlit("enter_partner_phone");
    reveal_strlit("enter_target_language");
    reveal_strlit("enter_exchange_learning_language");
    reveal_strlit("menu_pick_conversation");
    reveal_strlit("menu_pick_mode");
    reveal_strlit("menu_await_language");
    reveal_strlit("menu_flashcard_review");
    let n = onboarding_step_name(s);
    assert(n[0] != "menu_pick_conversation"@[0]);
    assert(n[0] != "menu_pick_mode"@[0]);
    assert(n[0] != "menu_await_language"@[0]);
    assert(n[0] != "menu_flashcard_review"@[0]);
    assert("welcome"@[0] != "enter_partner_phone"@[0]);
    assert("welcome"@[0] != "enter_target_language"@[0]);
    assert("welcome"@[0] != "enter_exchange_learning_language"@[0]);
    assert("enter_partner_phone"@.len() != "enter_target_language"@.len());
    assert("enter_partner_phone"@.len() != "enter_exchange_learning_language"@.len());
    assert("enter_target_language"@.len() != "enter_exchange_learning_language"@.len());
}

/// A stored menu step reads back as the same step, and is never taken for
/// an onboarding step.
pub proof fn lemma_menu_step_name_roundtrip(s: MenuStep)
    ensures
        menu_step_from_name(menu_step_name(s)) == Some(s),
        onboarding_step_from_name(menu_step_name(s)) is None,
{
    lemma_menu_names_are_menu(s);
    reveal_strlit("menu_pick_conversation");
    reveal_strlit("menu_pick_mode");
    reveal_strlit("menu_await_language");
    reveal_strlit("menu_flashcard_review");
    assert("menu_pick_conversation"@.len() != "menu_pick_mode"@.len());
    assert("menu_pick_conversation"@.len() != "menu_await_language"@.len());
    assert("menu_pick_conversation"@.len() != "menu_flashcard_review"@.len());
    assert("menu_pick_mode"@.len() != "menu_await_language"@.len());
    assert("menu_pick_mode"@.len() != "menu_flashcard_review"@.len());
    assert("menu_await_language"@.len() != "menu_flashcard_review"@.len());
}

// ---------------------------------------------------------------------------
// Views of the records
// ---------------------------------------------------------------------------

pub struct ConversationView {
    pub id: i64,
    pub mode: ConversationMode,
    pub target_language: Seq<char>,
    pub source_language: Seq<char>,
    pub exchange_turn_phone: Option<Seq<char>>,
}

pub struct ParticipantView {
    pub id: i64,
    pub conversation_id: i64,
    pub phone: Seq<char>,
    pub role: ParticipantRole,
    pub learning_language: Option<Seq<char>>,
}

impl View for Conversation {
    type V = ConversationView;

    open spec fn view(&self) -> ConversationView {
        ConversationView {
            id: self.id,
            mode: self.mode,
            target_language: self.target_language@,
            source_language: self.source_language@,
            exchange_turn_phone: opt_chars(self.exchange_turn_phone),
        }
    }
}

impl View for Participant {
    type V = ParticipantView;

    open spec fn view(&self) -> ParticipantView {
        ParticipantView {
            id: self.id,
            conversation_id: self.conversation_id,
            phone: self.phone@,
            role: self.role,
            learning_language: opt_chars(self.learning_language),
        }
    }
}

pub open spec fn participants_view(ps: Seq<Participant>) -> Seq<ParticipantView> {
    Seq::new(ps.len(), |i: int| ps[i]@)
}

/// A copy of a participant record.
pub fn copy_participant(p: &Participant) -> (r: Participant)
    ensures
        r@ == p@,
{
    Participant {
        id: p.id,
        conversation_id: p.conversation_id,
        phone: p.phone.clone(),
        role: p.role,
        learning_language: copy_opt_string(&p.learning_language),
    }
}

// ---------------------------------------------------------------------------
// Turns
// ---------------------------------------------------------------------------

/// An exchange can start once two participants have both set the language
/// they learn.
pub open spec fn exchange_ready_spec(ps: Seq<ParticipantView>) -> bool {
    ps.len() >= 2 && forall|i: int| 0 <= i < ps.len() ==> (#[trigger] ps[i]).learning_language is Some
}

/// Whether an exchange conversation can start.
pub fn exchange_is_ready(participants: &Vec<Participant>) -> (r: bool)
    ensures
        r == exchange_ready_spec(participants_view(participants@)),
{
    if participants.len() < 2 {
        return false;
    }
    let mut i: usize = 0;
    while i < participants.len()
        invariant
            i <= participants.len(),
            forall|k: int| 0 <= k < i ==> participants@[k].learning_language is Some,
        decreases participants.len() - i,
    {
        if participants[i].learning_language.is_none() {
            assert(participants_view(participants@)[i as int].learning_language is None);
            return false;
        }
        i = i + 1;
    }
    assert forall|k: int| 0 <= k < participants@.len() implies (#[trigger] participants_view(
        participants@,
    )[k]).learning_language is Some by {
        assert(participants@[k].learning_language is Some);
    }
    true
}

pub open spec fn exchange_turns_status_spec(c: ConversationView, p: ParticipantView) -> ConversationTurnStatus {
    match c.exchange_turn_phone {
        None => ConversationTurnStatus::YourTurnToSend,
        Some(t) => if p.phone == t {
            ConversationTurnStatus::YourTurnToSend
        } else {
            ConversationTurnStatus::WaitingForMessage
        },
    }
}

/// In a turn-based exchange, whose turn it is from a participant's side.
pub fn turn_status_for_exchange_turns(conversation: &Conversation, participant: &Participant) -> (r:
    ConversationTurnStatus)
    ensures
        r == exchange_turns_status_spec(conversation@, participant@),
{
    match &conversation.exchange_turn_phone {
        None => ConversationTurnStatus::YourTurnToSend,
        Some(t) => if participant.phone == *t {
            ConversationTurnStatus::YourTurnToSend
        } else {
            ConversationTurnStatus::WaitingForMessage
        },
    }
}

pub open spec fn tutor_status_spec(role: ParticipantRole, learner_idle: bool) -> ConversationTurnStatus {
    match role {
        ParticipantRole::Teacher => if learner_idle {
            ConversationTurnStatus::YourTurnToSend
        } else {
            ConversationTurnStatus::WaitingForReply
        },
        ParticipantRole::Learner => if learner_idle {
            ConversationTurnStatus::WaitingForMessage
        } else {
            ConversationTurnStatus::YourTurnToReply
        },
    }
}

/// Whether a status says the viewer is the one to write next.
pub open spec fn is_viewers_turn(t: ConversationTurnStatus) -> bool {
    t == ConversationTurnStatus::YourTurnToSend || t == ConversationTurnStatus::YourTurnToReply
}

/// In a tutor conversation exactly one side is to write: the teacher while
/// the learner is idle, the learner while working on a message.
pub proof fn lemma_tutor_turns_alternate(learner_idle: bool)
    ensures
        is_viewers_turn(tutor_status_spec(ParticipantRole::Teacher, learner_idle)) != is_viewers_turn(
            tutor_status_spec(ParticipantRole::Learner, learner_idle),
        ),
        is_viewers_turn(tutor_status_spec(ParticipantRole::Teacher, learner_idle)) == learner_idle,
{
}

/// In a turn-based exchange whose turn belongs to one of two participants
/// with different numbers, exactly that one is told it is their turn.
pub proof fn lemma_exchange_turn_has_one_holder(c: ConversationView, a: ParticipantView, b: ParticipantView)
    requires
        a.phone != b.phone,
        c.exchange_turn_phone == Some(a.phone) || c.exchange_turn_phone == Some(b.phone),
    ensures
        is_viewers_turn(exchange_turns_status_spec(c, a)) != is_viewers_turn(
            exchange_turns_status_spec(c, b),
        ),
        is_viewers_turn(exchange_turns_status_spec(c, a)) <==> c.exchange_turn_phone == Some(a.phone),
{
}

/// In a tutor conversation, whose turn it is from a participant's side:
/// the teacher sends while the learner's session is idle, and the learner
/// works while it is not.
pub fn turn_status_for_participant(participant: &Participant, learner_session_idle: bool) -> (r:
    ConversationTurnStatus)
    ensures
        r == tutor_status_spec(participant.role, learner_session_idle),
{
    match participant.role {
        ParticipantRole::Teacher => if learner_session_idle {
            ConversationTurnStatus::YourTurnToSend
        } else {
            ConversationTurnStatus::WaitingForReply
        },
        ParticipantRole::Learner => if learner_session_idle {
            ConversationTurnStatus::WaitingForMessage
        } else {
            ConversationTurnStatus::YourTurnToReply
        },
    }
}

pub open spec fn listing_turn_spec(
    is_pending: bool,
    c: ConversationView,
    p: ParticipantView,
    exchange_ready: bool,
    learner_idle: bool,
) -> Option<ConversationTurnStatus> {
    if is_pending {
        None
    } else if c.mode == ConversationMode::ExchangeTurns {
        if exchange_ready {
            Some(exchange_turns_status_spec(c, p))
        } else {
            Some(ConversationTurnStatus::WaitingForMessage)
        }
    } else if c.mode == ConversationMode::Exchange {
        if exchange_ready {
            Some(ConversationTurnStatus::YourTurnToSend)
        } else {
            Some(ConversationTurnStatus::WaitingForMessage)
        }
    } else {
        Some(tutor_status_spec(p.role, learner_idle))
    }
}

/// The turn shown in a user's list for one of their conversations.
pub fn listing_turn(
    is_pending: bool,
    conversation: &Conversation,
    participant: &Participant,
    exchange_ready: bool,
    learner_session_idle: bool,
) -> (r: Option<ConversationTurnStatus>)
    ensures
        r == listing_turn_spec(
            is_pending,
            conversation@,
            participant@,
            exchange_ready,
            learner_session_idle,
        ),
{
    if is_pending {
        None
    } else if conversation.mode == ConversationMode::ExchangeTurns {
        if exchange_ready {
            Some(turn_status_for_exchange_turns(conversation, participant))
        } else {
            Some(ConversationTurnStatus::WaitingForMessage)
        }
    } else if conversation.mode == ConversationMode::Exchange {
        if exchange_ready {
            Some(ConversationTurnStatus::YourTurnToSend)
        } else {
            Some(ConversationTurnStatus::WaitingForMessage)
        }
    } else {
        Some(turn_status_for_participant(participant, learner_session_idle))
    }
}

pub open spec fn invite_partner_spec(invite: ConversationInvite, phone: Seq<char>) -> Seq<char> {
    if invite.inviter_phone@ == phone {
        invite.invitee_phone@
    } else {
        invite.inviter_phone@
    }
}

/// The other side of a pending invite, seen from `phone` (a normalised number).
pub fn invite_partner_phone(invite: &ConversationInvite, phone: &str) -> (r: String)
    ensures
        r@ == invite_partner_spec(*invite, phone@),
{
    if chars_eq_str(&chars_of(invite.inviter_phone.as_str()), phone) {
        invite.invitee_phone.clone()
    } else {
        invite.inviter_phone.clone()
    }
}

/// How a participant's message is stored.
pub fn message_role_for(role: ParticipantRole) -> (r: MessageRole)
    ensures
        r == (match role {
            ParticipantRole::Teacher => MessageRole::Teacher,
            ParticipantRole::Learner => MessageRole::Learner,
        }),
{
    match role {
        ParticipantRole::Teacher => MessageRole::Teacher,
        ParticipantRole::Learner => MessageRole::Learner,
    }
}

// ---------------------------------------------------------------------------
// Changing a conversation's mode
// ---------------------------------------------------------------------------

/// The first position at or after `i` whose participant satisfies `pred`.
pub open spec fn first_match(ps: Seq<ParticipantView>, pred: spec_fn(ParticipantView) -> bool, i: int) -> Option<
    nat,
>
    decreases ps.len() - i,
{
    if i < 0 || i >= ps.len() {
        None
    } else if pred(ps[i]) {
        Some(i as nat)
    } else {
        first_match(ps, pred, i + 1)
    }
}

pub open spec fn has_phone(phone: Seq<char>) -> spec_fn(ParticipantView) -> bool {
    |p: ParticipantView| p.phone == phone
}

pub open spec fn other_phone(phone: Seq<char>) -> spec_fn(ParticipantView) -> bool {
    |p: ParticipantView| p.phone != phone
}

pub open spec fn is_learner() -> spec_fn(ParticipantView) -> bool {
    |p: ParticipantView| p.role == ParticipantRole::Learner
}

pub proof fn lemma_first_match(ps: Seq<ParticipantView>, pred: spec_fn(ParticipantView) -> bool, i: int)
    requires
        0 <= i,
    ensures
        first_match(ps, pred, i) matches Some(k) ==> i <= k < ps.len() && pred(ps[k as int]),
        first_match(ps, pred, i) is None ==> forall|k: int| i <= k < ps.len() ==> !pred(
            #[trigger] ps[k],
        ),
    decreases ps.len() - i,
{
    if i < ps.len() && !pred(ps[i]) {
        lemma_first_match(ps, pred, i + 1);
    }
}

/// A participant without a learning language gets a default when a chat
/// becomes an exchange: the learner learns the conversation's language, the
/// teacher the learner's own.
pub open spec fn with_default_language(p: ParticipantView, c: ConversationView) -> ParticipantView {
    if p.learning_language is None {
        ParticipantView {
            learning_language: Some(
                if p.role == ParticipantRole::Learner {
                    c.target_language
                } else {
                    c.source_language
                },
            ),
            ..p
        }
    } else {
        p
    }
}

pub open spec fn with_default_languages(ps: Seq<ParticipantView>, c: ConversationView) -> Seq<
    ParticipantView,
> {
    Seq::new(ps.len(), |i: int| with_default_language(ps[i], c))
}

pub open spec fn with_roles_swapped(ps: Seq<ParticipantView>) -> Seq<ParticipantView> {
    Seq::new(ps.len(), |i: int| ParticipantView { role: opposite_role(ps[i].role), ..ps[i] })
}

pub open spec fn with_tutor_roles(
    ps: Seq<ParticipantView>,
    phone: Seq<char>,
    partner_phone: Seq<char>,
    desired: ParticipantRole,
) -> Seq<ParticipantView> {
    Seq::new(
        ps.len(),
        |i: int|
            if ps[i].phone == phone {
                ParticipantView { role: desired, ..ps[i] }
            } else if ps[i].phone == partner_phone {
                ParticipantView { role: opposite_role(desired), ..ps[i] }
            } else {
                ps[i]
            },
    )
}

pub open spec fn desired_role(setting: ConversationModeSetting) -> ParticipantRole {
    if setting == ConversationModeSetting::Teacher {
        ParticipantRole::Teacher
    } else {
        ParticipantRole::Learner
    }
}

pub open spec fn or_else(a: Option<Seq<char>>, b: Option<Seq<char>>, c: Seq<char>) -> Seq<char> {
    match a {
        Some(x) => x,
        None => match b {
            Some(y) => y,
            None => c,
        },
    }
}

/// The rows after the change (before the requester and partner are read
/// back): the conversation, its participants, and whether the exchange's
/// awaiting-reply flag is cleared. `None` when an exchange has no partner to
/// take the other tutor role.
pub open spec fn changed_rows(
    c: ConversationView,
    ps: Seq<ParticipantView>,
    phone: Seq<char>,
    setting: ConversationModeSetting,
) -> Option<(ConversationView, Seq<ParticipantView>, bool)> {
    match setting {
        ConversationModeSetting::Exchange => if c.mode == ConversationMode::Exchange {
            Some((c, ps, false))
        } else {
            Some(
                (
                    ConversationView {
                        mode: ConversationMode::Exchange,
                        exchange_turn_phone: None,
                        ..c
                    },
                    with_default_languages(ps, c),
                    true,
                ),
            )
        },
        ConversationModeSetting::ExchangeTurns => if c.mode == ConversationMode::ExchangeTurns {
            Some((c, ps, false))
        } else {
            Some(
                (
                    ConversationView {
                        mode: ConversationMode::ExchangeTurns,
                        exchange_turn_phone: Some(phone),
                        ..c
                    },
                    with_default_languages(ps, c),
                    true,
                ),
            )
        },
        _ => {
            let desired = desired_role(setting);
            if c.mode != ConversationMode::Tutor {
                match (first_match(ps, has_phone(phone), 0), first_match(ps, other_phone(phone), 0)) {
                    (Some(r), Some(q)) => {
                        let requester = ps[r as int];
                        let partner = ps[q as int];
                        let target = if desired == ParticipantRole::Learner {
                            or_else(
                                requester.learning_language,
                                partner.learning_language,
                                c.target_language,
                            )
                        } else {
                            or_else(
                                partner.learning_language,
                                requester.learning_language,
                                c.target_language,
                            )
                        };
                        Some(
                            (
                                ConversationView {
                                    mode: ConversationMode::Tutor,
                                    target_language: target,
                                    exchange_turn_phone: None,
                                    ..c
                                },
                                with_tutor_roles(ps, phone, partner.phone, desired),
                                true,
                            ),
                        )
                    },
                    _ => None,
                }
            } else {
                match first_match(ps, has_phone(phone), 0) {
                    Some(r) => if ps[r as int].role != desired {
                        Some((c, with_roles_swapped(ps), false))
                    } else {
                        Some((c, ps, false))
                    },
                    None => None,
                }
            }
        },
    }
}

pub struct ModeChangeView {
    pub conversation: ConversationView,
    pub participants: Seq<ParticipantView>,
    pub reset_awaiting_reply: bool,
    pub requester: ParticipantView,
    pub partner: ParticipantView,
    pub reset_learner: Option<i64>,
}

/// What changing a conversation's mode does, or why it is refused.
///
/// A mode change needs both participants, is asked for by one of them, and
/// is refused while a tutor conversation's learner is working on a message.
/// Afterwards the requester and the partner are read back; a tutor
/// conversation's learner starts over with an idle session.
pub open spec fn mode_change_spec(
    c: ConversationView,
    ps: Seq<ParticipantView>,
    phone: Seq<char>,
    setting: ConversationModeSetting,
    learner_idle: bool,
) -> Result<ModeChangeView, SetModeError> {
    let phone = crate::phone::digits_only(phone);
    if ps.len() < 2 {
        Err(SetModeError::NotComplete)
    } else if first_match(ps, has_phone(phone), 0) is None {
        Err(SetModeError::NotParticipant)
    } else if c.mode == ConversationMode::Tutor && first_match(ps, is_learner(), 0) is Some
        && !learner_idle {
        Err(SetModeError::ActiveExchange)
    } else {
        match changed_rows(c, ps, phone, setting) {
            None => Err(SetModeError::NotComplete),
            Some((c2, ps2, reset)) => match (
                first_match(ps2, has_phone(phone), 0),
                first_match(ps2, other_phone(phone), 0),
            ) {
                (Some(r), Some(q)) => Ok(
                    ModeChangeView {
                        conversation: c2,
                        participants: ps2,
                        reset_awaiting_reply: reset,
                        requester: ps2[r as int],
                        partner: ps2[q as int],
                        reset_learner: if c2.mode == ConversationMode::Tutor {
                            Some(
                                if ps2[r as int].role == ParticipantRole::Learner {
                                    ps2[r as int].id
                                } else {
                                    ps2[q as int].id
                                },
                            )
                        } else {
                            None
                        },
                    },
                ),
                _ => Err(SetModeError::NotComplete),
            },
        }
    }
}

/// The first participant with, or without, a number depends on the numbers
/// alone.
pub proof fn lemma_first_match_by_phone(
    ps: Seq<ParticipantView>,
    qs: Seq<ParticipantView>,
    phone: Seq<char>,
    i: int,
)
    requires
        ps.len() == qs.len(),
        forall|k: int| 0 <= k < ps.len() ==> (#[trigger] ps[k]).phone == qs[k].phone,
        0 <= i,
    ensures
        first_match(ps, has_phone(phone), i) == first_match(qs, has_phone(phone), i),
        first_match(ps, other_phone(phone), i) == first_match(qs, other_phone(phone), i),
    decreases ps.len() - i,
{
    if i < ps.len() {
        assert(ps[i].phone == qs[i].phone);
        lemma_first_match_by_phone(ps, qs, phone, i + 1);
    }
}

pub open spec fn mode_for_setting(setting: ConversationModeSetting) -> ConversationMode {
    match setting {
        ConversationModeSetting::Exchange => ConversationMode::Exchange,
        ConversationModeSetting::ExchangeTurns => ConversationMode::ExchangeTurns,
        _ => ConversationMode::Tutor,
    }
}

/// A mode change puts the conversation in the mode asked for. The requester
/// is the participant with the requesting number and the partner another
/// one; asked for Teacher or Learner, the requester then has that role; a
/// conversation that becomes turn-based starts with the requester's turn.
pub proof fn lemma_mode_change_reaches_setting(
    c: ConversationView,
    ps: Seq<ParticipantView>,
    phone: Seq<char>,
    setting: ConversationModeSetting,
    learner_idle: bool,
)
    requires
        mode_change_spec(c, ps, phone, setting, learner_idle) is Ok,
    ensures
        ({
            let m = mode_change_spec(c, ps, phone, setting, learner_idle)->Ok_0;
            let p = crate::phone::digits_only(phone);
            &&& m.conversation.mode == mode_for_setting(setting)
            &&& m.requester.phone == p
            &&& m.partner.phone != p
            &&& (setting == ConversationModeSetting::Teacher || setting
                == ConversationModeSetting::Learner) ==> m.requester.role == desired_role(setting)
            &&& (setting == ConversationModeSetting::ExchangeTurns && c.mode
                != ConversationMode::ExchangeTurns) ==> m.conversation.exchange_turn_phone == Some(p)
        }),
{
    let p = crate::phone::digits_only(phone);
    let (c2, ps2, reset) = changed_rows(c, ps, p, setting)->0;
    lemma_first_match(ps2, has_phone(p), 0);
    lemma_first_match(ps2, other_phone(p), 0);
    lemma_first_match(ps, has_phone(p), 0);
    lemma_first_match(ps, other_phone(p), 0);
    if setting == ConversationModeSetting::Teacher || setting == ConversationModeSetting::Learner {
        let desired = desired_role(setting);
        if c.mode != ConversationMode::Tutor {
            let q = first_match(ps, other_phone(p), 0)->0;
            let partner = ps[q as int];
            lemma_first_match_by_phone(ps, ps2, p, 0);
            let r = first_match(ps2, has_phone(p), 0)->0;
            assert(ps2[r as int].phone == p);
            assert(ps2[r as int] == (ParticipantView { role: desired, ..ps[r as int] }));
        } else {
            let r0 = first_match(ps, has_phone(p), 0)->0;
            if ps[r0 as int].role != desired {
                assert(ps2 == with_roles_swapped(ps));
                lemma_first_match_by_phone(ps, ps2, p, 0);
                let r = first_match(ps2, has_phone(p), 0)->0;
                assert(r == r0);
                assert(ps2[r as int].role == opposite_role(ps[r as int].role));
            }
        }
    }
}

/// Asking again for the mode a change just made changes nothing: the same
/// conversation and participants come back, and no flag is cleared. (The
/// change left a tutor conversation's learner idle.)
pub proof fn lemma_mode_change_idempotent(
    c: ConversationView,
    ps: Seq<ParticipantView>,
    phone: Seq<char>,
    setting: ConversationModeSetting,
    learner_idle: bool,
)
    requires
        mode_change_spec(c, ps, phone, setting, learner_idle) is Ok,
    ensures
        ({
            let m = mode_change_spec(c, ps, phone, setting, learner_idle)->Ok_0;
            let again = mode_change_spec(m.conversation, m.participants, phone, setting, true);
            &&& again is Ok
            &&& again->Ok_0.conversation == m.conversation
            &&& again->Ok_0.participants == m.participants
            &&& !again->Ok_0.reset_awaiting_reply
        }),
{
    lemma_mode_change_reaches_setting(c, ps, phone, setting, learner_idle);
    crate::phone::lemma_digits_only_idempotent(phone);
    let p = crate::phone::digits_only(phone);
    let (c2, ps2, reset) = changed_rows(c, ps, p, setting)->0;
    assert(ps2.len() == ps.len());
    lemma_first_match(ps2, has_phone(p), 0);
}

/// The rows that a mode change writes, and the pair it reports.
pub struct ModeChange {
    pub conversation: Conversation,
    pub participants: Vec<Participant>,
    /// Clear the exchange's awaiting-reply flag.
    pub reset_awaiting_reply: bool,
    pub requester: Participant,
    pub partner: Participant,
    /// The participant whose learner session is reset to idle.
    pub reset_learner: Option<i64>,
}

impl View for ModeChange {
    type V = ModeChangeView;

    open spec fn view(&self) -> ModeChangeView {
        ModeChangeView {
            conversation: self.conversation@,
            participants: participants_view(self.participants@),
            reset_awaiting_reply: self.reset_awaiting_reply,
            requester: self.requester@,
            partner: self.partner@,
            reset_learner: self.reset_learner,
        }
    }
}

fn find_phone(ps: &Vec<Participant>, phone: &String) -> (r: Option<usize>)
    ensures
        match first_match(participants_view(ps@), has_phone(phone@), 0) {
            Some(k) => r == Some(k as usize),
            None => r is None,
        },
        first_match(participants_view(ps@), has_phone(phone@), 0) matches Some(k) ==> k < ps.len(),
        r matches Some(k) ==> k < ps.len(),
{
    proof {
        lemma_first_match(participants_view(ps@), has_phone(phone@), 0);
    }
    let ghost pv = participants_view(ps@);
    let mut i: usize = 0;
    while i < ps.len()
        invariant
            i <= ps.len(),
            pv == participants_view(ps@),
            first_match(pv, has_phone(phone@), 0) == first_match(pv, has_phone(phone@), i as int),
        decreases ps.len() - i,
    {
        if ps[i].phone == *phone {
            return Some(i);
        }
        i = i + 1;
    }
    None
}

fn find_other_phone(ps: &Vec<Participant>, phone: &String) -> (r: Option<usize>)
    ensures
        match first_match(participants_view(ps@), other_phone(phone@), 0) {
            Some(k) => r == Some(k as usize),
            None => r is None,
        },
        first_match(participants_view(ps@), other_phone(phone@), 0) matches Some(k) ==> k < ps.len(),
        r matches Some(k) ==> k < ps.len(),
{
    proof {
        lemma_first_match(participants_view(ps@), other_phone(phone@), 0);
    }
    let ghost pv = participants_view(ps@);
    let mut i: usize = 0;
    while i < ps.len()
        invariant
            i <= ps.len(),
            pv == participants_view(ps@),
            first_match(pv, other_phone(phone@), 0) == first_match(pv, other_phone(phone@), i as int),
        decreases ps.len() - i,
    {
        if ps[i].phone != *phone {
            return Some(i);
        }
        i = i + 1;
    }
    None
}

/// The position of the first learner among the participants (whose session
/// decides whether a tutor conversation may change mode).
pub fn find_first_learner(ps: &Vec<Participant>) -> (r: Option<usize>)
    ensures
        match first_match(participants_view(ps@), is_learner(), 0) {
            Some(k) => r == Some(k as usize),
            None => r is None,
        },
        first_match(participants_view(ps@), is_learner(), 0) matches Some(k) ==> k < ps.len(),
        r matches Some(k) ==> k < ps.len(),
{
    proof {
        lemma_first_match(participants_view(ps@), is_learner(), 0);
    }
    let ghost pv = participants_view(ps@);
    let mut i: usize = 0;
    while i < ps.len()
        invariant
            i <= ps.len(),
            pv == participants_view(ps@),
            first_match(pv, is_learner(), 0) == first_match(pv, is_learner(), i as int),
        decreases ps.len() - i,
    {
        if ps[i].role == ParticipantRole::Learner {
            return Some(i);
        }
        i = i + 1;
    }
    None
}

fn defaults_applied(ps: &Vec<Participant>, c: &Conversation) -> (r: Vec<Participant>)
    ensures
        participants_view(r@) == with_default_languages(participants_view(ps@), c@),
{
    let mut r: Vec<Participant> = Vec::new();
    let mut i: usize = 0;
    while i < ps.len()
        invariant
            i <= ps.len(),
            r@.len() == i,
            forall|k: int| 0 <= k < i ==> (#[trigger] r@[k])@ == with_default_language(ps@[k]@, c@),
        decreases ps.len() - i,
    {
        let p = &ps[i];
        let language = match &p.learning_language {
            Some(l) => Some(l.clone()),
            None => if p.role == ParticipantRole::Learner {
                Some(c.target_language.clone())
            } else {
                Some(c.source_language.clone())
            },
        };
        r.push(
            Participant {
                id: p.id,
                conversation_id: p.conversation_id,
                phone: p.phone.clone(),
                role: p.role,
                learning_language: language,
            },
        );
        i = i + 1;
    }
    assert(participants_view(r@) =~= with_default_languages(participants_view(ps@), c@));
    r
}

fn roles_swapped(ps: &Vec<Participant>) -> (r: Vec<Participant>)
    ensures
        participants_view(r@) == with_roles_swapped(participants_view(ps@)),
{
    let mut r: Vec<Participant> = Vec::new();
    let mut i: usize = 0;
    while i < ps.len()
        invariant
            i <= ps.len(),
            r@.len() == i,
            forall|k: int|
                0 <= k < i ==> (#[trigger] r@[k])@ == (ParticipantView {
                    role: opposite_role(ps@[k].role),
                    ..ps@[k]@
                }),
        decreases ps.len() - i,
    {
        let mut p = copy_participant(&ps[i]);
        p.role = p.role.opposite();
        r.push(p);
        i = i + 1;
    }
    assert(participants_view(r@) =~= with_roles_swapped(participants_view(ps@)));
    r
}

fn tutor_roles(ps: &Vec<Participant>, phone: &String, partner_phone: &String, desired: ParticipantRole) -> (r:
    Vec<Participant>)
    ensures
        participants_view(r@) == with_tutor_roles(
            participants_view(ps@),
            phone@,
            partner_phone@,
            desired,
        ),
{
    let ghost target = with_tutor_roles(participants_view(ps@), phone@, partner_phone@, desired);
    let mut r: Vec<Participant> = Vec::new();
    let mut i: usize = 0;
    while i < ps.len()
        invariant
            i <= ps.len(),
            r@.len() == i,
            target == with_tutor_roles(participants_view(ps@), phone@, partner_phone@, desired),
            forall|k: int| 0 <= k < i ==> (#[trigger] r@[k])@ == target[k],
        decreases ps.len() - i,
    {
        let mut p = copy_participant(&ps[i]);
        if p.phone == *phone {
            p.role = desired;
        } else if p.phone == *partner_phone {
            p.role = desired.opposite();
        }
        r.push(p);
        i = i + 1;
    }
    assert(participants_view(r@) =~= target);
    r
}

fn copy_participants(ps: &Vec<Participant>) -> (r: Vec<Participant>)
    ensures
        participants_view(r@) == participants_view(ps@),
{
    let mut r: Vec<Participant> = Vec::new();
    let mut i: usize = 0;
    while i < ps.len()
        invariant
            i <= ps.len(),
            r@.len() == i,
            forall|k: int| 0 <= k < i ==> (#[trigger] r@[k])@ == ps@[k]@,
        decreases ps.len() - i,
    {
        r.push(copy_participant(&ps[i]));
        i = i + 1;
    }
    assert(participants_view(r@) =~= participants_view(ps@));
    r
}

fn copy_conversation(c: &Conversation) -> (r: Conversation)
    ensures
        r@ == c@,
{
    Conversation {
        id: c.id,
        mode: c.mode,
        target_language: c.target_language.clone(),
        source_language: c.source_language.clone(),
        exchange_turn_phone: copy_opt_string(&c.exchange_turn_phone),
    }
}

fn first_language(a: &Option<String>, b: &Option<String>, c: &String) -> (r: String)
    ensures
        r@ == or_else(opt_chars(*a), opt_chars(*b), c@),
{
    match a {
        Some(x) => x.clone(),
        None => match b {
            Some(y) => y.clone(),
            None => c.clone(),
        },
    }
}

/// Changes a conversation's mode (or the tutor roles in it) as `phone` asks.
///
/// `participants` are the conversation's participants in storage order, and
/// `learner_session_idle` tells whether the first learner among them (if
/// any) has an idle session. The result holds the rows to write back.
pub fn apply_conversation_mode(
    conversation: &Conversation,
    participants: &Vec<Participant>,
    phone: &str,
    setting: ConversationModeSetting,
    learner_session_idle: bool,
) -> (r: Result<ModeChange, SetModeError>)
    ensures
        match mode_change_spec(
            conversation@,
            participants_view(participants@),
            phone@,
            setting,
            learner_session_idle,
        ) {
            Ok(v) => r is Ok && r->Ok_0@ == v,
            Err(e) => r == Err::<ModeChange, SetModeError>(e),
        },
{
    let ghost pv = participants_view(participants@);
    let phone = crate::phone::normalize_phone(phone);
    if participants.len() < 2 {
        return Err(SetModeError::NotComplete);
    }
    if find_phone(participants, &phone).is_none() {
        return Err(SetModeError::NotParticipant);
    }
    if conversation.mode == ConversationMode::Tutor && find_first_learner(participants).is_some()
        && !learner_session_idle {
        return Err(SetModeError::ActiveExchange);
    }
    let (c2, ps2, reset): (Conversation, Vec<Participant>, bool) = match setting {
        ConversationModeSetting::Exchange => {
            if conversation.mode == ConversationMode::Exchange {
                let c2 = copy_conversation(conversation);
                let ps2 = copy_participants(participants);
                assert(changed_rows(conversation@, pv, phone@, setting) == Some((c2@, participants_view(ps2@), false)));
                (c2, ps2, false)
            } else {
                let mut c2 = copy_conversation(conversation);
                c2.mode = ConversationMode::Exchange;
                c2.exchange_turn_phone = None;
                let ps2 = defaults_applied(participants, conversation);
                assert(c2@ == (ConversationView {
                    mode: ConversationMode::Exchange,
                    exchange_turn_phone: None,
                    ..conversation@
                }));
                assert(changed_rows(conversation@, pv, phone@, setting) == Some((c2@, participants_view(ps2@), true)));
                (c2, ps2, true)
            }
        },
        ConversationModeSetting::ExchangeTurns => {
            if conversation.mode == ConversationMode::ExchangeTurns {
                (copy_conversation(conversation), copy_participants(participants), false)
            } else {
                let mut c2 = copy_conversation(conversation);
                c2.mode = ConversationMode::ExchangeTurns;
                c2.exchange_turn_phone = Some(phone.clone());
                let ps2 = defaults_applied(participants, conversation);
                assert(c2@ == (ConversationView {
                    mode: ConversationMode::ExchangeTurns,
                    exchange_turn_phone: Some(phone@),
                    ..conversation@
                }));
                assert(changed_rows(conversation@, pv, phone@, setting) == Some((c2@, participants_view(ps2@), true)));
                (c2, ps2, true)
            }
        },
        _ => {
            let desired = if setting == ConversationModeSetting::Teacher {
                ParticipantRole::Teacher
            } else {
                ParticipantRole::Learner
            };
            if conversation.mode != ConversationMode::Tutor {
                let ri = find_phone(participants, &phone);
                let qi = find_other_phone(participants, &phone);
                match (ri, qi) {
                    (Some(ri), Some(qi)) => {
                        let requester = &participants[ri];
                        let partner = &participants[qi];
                        let target = if desired == ParticipantRole::Learner {
                            first_language(
                                &requester.learning_language,
                                &partner.learning_language,
                                &conversation.target_language,
                            )
                        } else {
                            first_language(
                                &partner.learning_language,
                                &requester.learning_language,
                                &conversation.target_language,
                            )
                        };
                        let mut c2 = copy_conversation(conversation);
                        c2.mode = ConversationMode::Tutor;
                        c2.target_language = target.clone();
                        c2.exchange_turn_phone = None;
                        let ps2 = tutor_roles(participants, &phone, &partner.phone, desired);
                        assert(pv[ri as int] == requester@);
                        assert(pv[qi as int] == partner@);
                        assert(desired == desired_role(setting));
                        assert(first_match(pv, has_phone(phone@), 0) == Some(ri as nat));
                        assert(first_match(pv, other_phone(phone@), 0) == Some(qi as nat));
                        assert(participants_view(ps2@) == with_tutor_roles(pv, phone@, pv[qi as int].phone, desired));
                        assert(target@ == (if desired == ParticipantRole::Learner {
                            or_else(pv[ri as int].learning_language, pv[qi as int].learning_language, conversation@.target_language)
                        } else {
                            or_else(pv[qi as int].learning_language, pv[ri as int].learning_language, conversation@.target_language)
                        }));
                        assert(c2@ == (ConversationView {
                            mode: ConversationMode::Tutor,
                            target_language: target@,
                            exchange_turn_phone: None,
                            ..conversation@
                        }));
                        assert(changed_rows(conversation@, pv, phone@, setting) == Some((c2@, participants_view(ps2@), true)));
                        (c2, ps2, true)
                    },
                    _ => {
                        return Err(SetModeError::NotComplete);
                    },
                }
            } else {
                match find_phone(participants, &phone) {
                    Some(ri) => {
                        assert(pv[ri as int] == participants@[ri as int]@);
                        assert(desired == desired_role(setting));
                        if participants[ri].role != desired {
                            (copy_conversation(conversation), roles_swapped(participants), false)
                        } else {
                            (copy_conversation(conversation), copy_participants(participants), false)
                        }
                    },
                    None => {
                        return Err(SetModeError::NotComplete);
                    },
                }
            }
        },
    };
    assert(changed_rows(conversation@, pv, phone@, setting) == Some((c2@, participants_view(ps2@), reset)));
    let ri = find_phone(&ps2, &phone);
    let qi = find_other_phone(&ps2, &phone);
    match (ri, qi) {
        (Some(ri), Some(qi)) => {
            let requester = copy_participant(&ps2[ri]);
            let partner = copy_participant(&ps2[qi]);
            let reset_learner = if c2.mode == ConversationMode::Tutor {
                if requester.role == ParticipantRole::Learner {
                    Some(requester.id)
                } else {
                    Some(partner.id)
                }
            } else {
                None
            };
            Ok(
                ModeChange {
                    conversation: c2,
                    participants: ps2,
                    reset_awaiting_reply: reset,
                    requester,
                    partner,
                    reset_learner,
                },
            )
        },
        _ => Err(SetModeError::NotComplete),
    }
}

// ---------------------------------------------------------------------------
// One line of a user's list
// ---------------------------------------------------------------------------

/// A conversation is pending while it has fewer than two participants.
pub open spec fn pending_spec(members: Seq<ParticipantView>) -> bool {
    members.len() < 2
}

/// The partner's number seen from `viewer` (a normalised number): while
/// pending, the other side of the open invite (if any); otherwise the first
/// participant with another number.
pub open spec fn listing_partner_phone_spec(
    members: Seq<ParticipantView>,
    invite: Option<ConversationInvite>,
    viewer: Seq<char>,
) -> Option<Seq<char>> {
    if pending_spec(members) {
        match invite {
            Some(i) => Some(invite_partner_spec(i, viewer)),
            None => None,
        }
    } else {
        match first_match(members, other_phone(viewer), 0) {
            Some(k) => Some(members[k as int].phone),
            None => None,
        }
    }
}

/// The partner's learning language: none while pending; otherwise that of
/// the first participant with the partner's number.
pub open spec fn listing_partner_language_spec(
    members: Seq<ParticipantView>,
    invite: Option<ConversationInvite>,
    viewer: Seq<char>,
) -> Option<Seq<char>> {
    if pending_spec(members) {
        None
    } else {
        match listing_partner_phone_spec(members, invite, viewer) {
            Some(p) => match first_match(members, has_phone(p), 0) {
                Some(k) => members[k as int].learning_language,
                None => None,
            },
            None => None,
        }
    }
}

/// The partner's number for a user's listing of a conversation whose
/// participant rows are `members` (`viewer` is the user's normalised number).
pub fn listing_partner_phone(
    members: &Vec<Participant>,
    pending_invite: &Option<ConversationInvite>,
    viewer: &str,
) -> (r: Option<String>)
    ensures
        opt_chars(r) == listing_partner_phone_spec(participants_view(members@), *pending_invite, viewer@),
{
    proof {
        lemma_first_match(participants_view(members@), other_phone(viewer@), 0);
    }
    if members.len() < 2 {
        match pending_invite {
            Some(invite) => Some(invite_partner_phone(invite, viewer)),
            None => None,
        }
    } else {
        let v = String::from_str(viewer);
        match find_other_phone(members, &v) {
            Some(k) => Some(members[k].phone.clone()),
            None => None,
        }
    }
}

/// One line of a user's list of conversations: the user's participant row
/// `participant`, its conversation, the conversation's participant rows
/// `members`, its open invite, the partner's display name, the user's
/// active conversation, and whether the tutor conversation's learner is idle.
pub fn make_listing(
    participant: &Participant,
    conversation: &Conversation,
    members: &Vec<Participant>,
    pending_invite: &Option<ConversationInvite>,
    viewer: &str,
    partner_display_name: Option<String>,
    active_conversation_id: Option<i64>,
    learner_session_idle: bool,
) -> (r: ConversationListing)
    ensures
        r.conversation_id == participant.conversation_id,
        r.mode == conversation.mode,
        r.target_language@ == conversation.target_language@,
        r.role == participant.role,
        opt_chars(r.learning_language) == opt_chars(participant.learning_language),
        r.is_pending == pending_spec(participants_view(members@)),
        opt_chars(r.partner_phone) == listing_partner_phone_spec(
            participants_view(members@),
            *pending_invite,
            viewer@,
        ),
        opt_chars(r.partner_display_name) == opt_chars(partner_display_name),
        opt_chars(r.partner_learning_language) == listing_partner_language_spec(
            participants_view(members@),
            *pending_invite,
            viewer@,
        ),
        r.is_active == (active_conversation_id == Some(participant.conversation_id)),
        r.turn == listing_turn_spec(
            r.is_pending,
            conversation@,
            participant@,
            exchange_ready_spec(participants_view(members@)),
            learner_session_idle,
        ),
        r.exchange_active_language is None,
        r.is_pending ==> r.turn is None && r.partner_learning_language is None,
        !r.is_pending ==> r.turn is Some,
        r.mode == ConversationMode::Exchange && !r.is_pending ==> (r.turn == Some(
            ConversationTurnStatus::YourTurnToSend,
        ) || r.turn == Some(ConversationTurnStatus::WaitingForMessage)),
{
    let is_pending = members.len() < 2;
    let partner_phone = listing_partner_phone(members, pending_invite, viewer);
    let partner_learning_language = if is_pending {
        None
    } else {
        match &partner_phone {
            Some(p) => {
                proof {
                    lemma_first_match(participants_view(members@), has_phone(p@), 0);
                }
                match find_phone(members, p) {
                    Some(k) => copy_opt_string(&members[k].learning_language),
                    None => None,
                }
            },
            None => None,
        }
    };
    let ready = exchange_is_ready(members);
    let turn = listing_turn(is_pending, conversation, participant, ready, learner_session_idle);
    ConversationListing {
        conversation_id: participant.conversation_id,
        mode: conversation.mode,
        target_language: conversation.target_language.clone(),
        role: participant.role,
        learning_language: copy_opt_string(&participant.learning_language),
        partner_learning_language,
        partner_phone,
        partner_display_name,
        is_active: match active_conversation_id {
            Some(a) => a == participant.conversation_id,
            None => false,
        },
        is_pending,
        turn,
        exchange_active_language: None,
    }
}

// ---------------------------------------------------------------------------
// Ordering a user's conversations
// ---------------------------------------------------------------------------

/// `a` is listed before `b`: active first, then live before pending, then by
/// conversation id.
pub open spec fn listed_before(a: ConversationListing, b: ConversationListing) -> bool {
    (a.is_active && !b.is_active) || (a.is_active == b.is_active && ((!a.is_pending && b.is_pending)
        || (a.is_pending == b.is_pending && a.conversation_id < b.conversation_id)))
}

/// Where a listing goes in an already ordered list: before the first entry
/// it is listed before (so after every entry it ties with).
pub open spec fn insertion_index(s: Seq<ConversationListing>, x: ConversationListing, i: int) -> int
    decreases s.len() - i,
{
    if i < 0 || i >= s.len() {
        s.len() as int
    } else if listed_before(x, s[i]) {
        i
    } else {
        insertion_index(s, x, i + 1)
    }
}

/// The listings in list order; ties keep the order they came in (a stable sort).
pub open spec fn ordered_listings(s: Seq<ConversationListing>) -> Seq<ConversationListing>
    decreases s.len(),
{
    if s.len() == 0 {
        s
    } else {
        let rest = ordered_listings(s.drop_last());
        rest.insert(insertion_index(rest, s.last(), 0), s.last())
    }
}

pub open spec fn in_list_order(s: Seq<ConversationListing>) -> bool {
    forall|i: int, j: int| 0 <= i < j < s.len() ==> !listed_before(#[trigger] s[j], #[trigger] s[i])
}

fn is_listed_before(a: &ConversationListing, b: &ConversationListing) -> (r: bool)
    ensures
        r == listed_before(*a, *b),
{
    (a.is_active && !b.is_active) || (a.is_active == b.is_active && ((!a.is_pending
        && b.is_pending) || (a.is_pending == b.is_pending && a.conversation_id
        < b.conversation_id)))
}

proof fn lemma_insertion_index_bounds(s: Seq<ConversationListing>, x: ConversationListing, i: int)
    requires
        0 <= i <= s.len(),
    ensures
        i <= insertion_index(s, x, i) <= s.len(),
        forall|k: int| i <= k < insertion_index(s, x, i) ==> !listed_before(x, #[trigger] s[k]),
        insertion_index(s, x, i) < s.len() ==> listed_before(x, s[insertion_index(s, x, i)]),
    decreases s.len() - i,
{
    if i < s.len() && !listed_before(x, s[i]) {
        lemma_insertion_index_bounds(s, x, i + 1);
    }
}

/// Orders a user's conversations for display: the active one first, then
/// live conversations before pending invites, then oldest first; ties keep
/// their order.
pub fn sort_listings(listings: Vec<ConversationListing>) -> (r: Vec<ConversationListing>)
    ensures
        r@ == ordered_listings(listings@),
{
    let ghost orig = listings@;
    assert(orig.len() == listings.len());
    let mut input = listings;
    let mut out: Vec<ConversationListing> = Vec::new();
    let mut n: usize = 0;
    assert(orig.take(0) =~= Seq::<ConversationListing>::empty());
    while input.len() > 0
        invariant
            n <= orig.len() <= usize::MAX,
            input@ == orig.skip(n as int),
            input@.len() == orig.len() - n,
            out@ == ordered_listings(orig.take(n as int)),
        decreases input.len(),
    {
        let x = input.remove(0);
        assert(x == orig[n as int]);
        assert(input@ =~= orig.skip(n as int + 1));
        let ghost sorted = out@;
        let mut pos: usize = 0;
        while pos < out.len() && !is_listed_before(&x, &out[pos])
            invariant
                pos <= out.len(),
                out@ == sorted,
                insertion_index(sorted, x, 0) == insertion_index(sorted, x, pos as int),
            decreases out.len() - pos,
        {
            pos = pos + 1;
        }
        assert(insertion_index(sorted, x, pos as int) == pos as int);
        out.insert(pos, x);
        proof {
            let t = orig.take(n as int + 1);
            assert(t.drop_last() =~= orig.take(n as int));
            assert(t.last() == x);
        }
        n = n + 1;
    }
    assert(orig.take(n as int) =~= orig);
    out
}

/// Ordering keeps every listing and adds none.
pub proof fn lemma_ordered_listings_permutation(s: Seq<ConversationListing>)
    ensures
        ordered_listings(s).to_multiset() =~= s.to_multiset(),
        ordered_listings(s).len() == s.len(),
    decreases s.len(),
{
    broadcast use vstd::seq_lib::group_to_multiset_ensures;

    if s.len() > 0 {
        let rest = ordered_listings(s.drop_last());
        lemma_ordered_listings_permutation(s.drop_last());
        let k = insertion_index(rest, s.last(), 0);
        lemma_insertion_index_bounds(rest, s.last(), 0);
        let t = rest.insert(k, s.last());
        assert(t.remove(k) =~= rest);
        assert(t[k] == s.last());
        assert(s.drop_last().push(s.last()) =~= s);
    }
}

/// Ordered listings are in list order: no entry is listed before one that
/// precedes it.
pub proof fn lemma_ordered_listings_sorted(s: Seq<ConversationListing>)
    ensures
        in_list_order(ordered_listings(s)),
    decreases s.len(),
{
    if s.len() > 0 {
        let rest = ordered_listings(s.drop_last());
        lemma_ordered_listings_sorted(s.drop_last());
        let x = s.last();
        let k = insertion_index(rest, x, 0);
        lemma_insertion_index_bounds(rest, x, 0);
        let t = rest.insert(k, x);
        assert forall|i: int, j: int| 0 <= i < j < t.len() implies !listed_before(
            #[trigger] t[j],
            #[trigger] t[i],
        ) by {
            if j < k {
                assert(t[i] == rest[i] && t[j] == rest[j]);
            } else if j == k {
                assert(t[i] == rest[i]);
            } else if i < k {
                assert(t[i] == rest[i] && t[j] == rest[j - 1]);
            } else if i == k {
                assert(t[j] == rest[j - 1]);
                assert(listed_before(x, rest[k]));
                if j - 1 > k {
                    assert(!listed_before(rest[j - 1], rest[k]));
                }
            } else {
                assert(t[i] == rest[i - 1] && t[j] == rest[j - 1]);
            }
        }
    }
}

// ---------------------------------------------------------------------------
// Which conversation a message belongs to
// ---------------------------------------------------------------------------

/// The next thing to do to find out what a phone's message is about.
pub enum ResolveStep {
    NotRegistered,
    PickConversation,
    /// The participant at this position is the sender in a conversation
    /// with both participants; `set_active` asks to make it the active one.
    Ready { index: usize, set_active: bool },
    /// The participant at this position is in a conversation still missing
    /// its partner: with a pending invite the sender is waiting for it,
    /// without one the conversation is stale.
    CheckInvite { index: usize },
}

/// The first position at or after `i` whose completeness is `want` and whose
/// conversation is `conv` (any conversation when `conv` is `None`).
pub open spec fn first_flagged(
    ps: Seq<ParticipantView>,
    complete: Seq<bool>,
    want: bool,
    conv: Option<i64>,
    i: int,
) -> Option<nat>
    decreases ps.len() - i,
{
    if i < 0 || i >= ps.len() {
        None
    } else if complete[i] == want && (match conv {
        Some(c) => ps[i].conversation_id == c,
        None => true,
    }) {
        Some(i as nat)
    } else {
        first_flagged(ps, complete, want, conv, i + 1)
    }
}

pub open spec fn count_flag(complete: Seq<bool>, want: bool) -> nat
    decreases complete.len(),
{
    if complete.len() == 0 {
        0
    } else {
        count_flag(complete.drop_last(), want) + if complete.last() == want {
            1nat
        } else {
            0nat
        }
    }
}

/// A phone's participants (one per conversation it is in) and whether each
/// conversation has both participants decide what a message is about: the
/// active conversation first, then the only complete one, then the only
/// incomplete one.
pub open spec fn resolve_spec(ps: Seq<ParticipantView>, complete: Seq<bool>, active: Option<i64>) -> ResolveStep {
    let tail = if count_flag(complete, true) == 0 {
        if count_flag(complete, false) == 1 {
            match first_flagged(ps, complete, false, None, 0) {
                Some(k) => ResolveStep::CheckInvite { index: k as usize },
                None => ResolveStep::NotRegistered,
            }
        } else {
            ResolveStep::NotRegistered
        }
    } else if count_flag(complete, true) == 1 {
        match first_flagged(ps, complete, true, None, 0) {
            Some(k) => ResolveStep::Ready { index: k as usize, set_active: true },
            None => ResolveStep::PickConversation,
        }
    } else {
        ResolveStep::PickConversation
    };
    if ps.len() == 0 {
        ResolveStep::NotRegistered
    } else {
        match active {
            Some(a) => match first_flagged(ps, complete, false, Some(a), 0) {
                Some(k) => ResolveStep::CheckInvite { index: k as usize },
                None => match first_flagged(ps, complete, true, Some(a), 0) {
                    Some(k) => ResolveStep::Ready { index: k as usize, set_active: false },
                    None => tail,
                },
            },
            None => tail,
        }
    }
}

/// Whether position `j` has completeness `want` and, when one is given, the
/// conversation `conv`.
pub open spec fn flag_hit(ps: Seq<ParticipantView>, complete: Seq<bool>, want: bool, conv: Option<i64>, j: int) -> bool {
    complete[j] == want && (match conv {
        Some(c) => ps[j].conversation_id == c,
        None => true,
    })
}

proof fn lemma_first_flagged(
    ps: Seq<ParticipantView>,
    complete: Seq<bool>,
    want: bool,
    conv: Option<i64>,
    i: int,
)
    requires
        0 <= i,
        complete.len() == ps.len(),
    ensures
        first_flagged(ps, complete, want, conv, i) matches Some(k) ==> i <= k < ps.len()
            && complete[k as int] == want && flag_hit(ps, complete, want, conv, k as int),
        first_flagged(ps, complete, want, conv, i) is None ==> forall|j: int|
            i <= j < ps.len() ==> !#[trigger] flag_hit(ps, complete, want, conv, j),
    decreases ps.len() - i,
{
    if i < ps.len() && !(complete[i] == want && (match conv {
        Some(c) => ps[i].conversation_id == c,
        None => true,
    })) {
        lemma_first_flagged(ps, complete, want, conv, i + 1);
    }
}

/// A message goes to the sender's active conversation when that
/// conversation has both participants: the sender's participant there
/// answers it, and which conversation is active does not change.
pub proof fn lemma_active_conversation_answers(
    ps: Seq<ParticipantView>,
    complete: Seq<bool>,
    active: i64,
    k: int,
)
    requires
        complete.len() == ps.len() <= usize::MAX,
        0 <= k < ps.len(),
        ps[k].conversation_id == active,
        forall|j: int| 0 <= j < ps.len() && ps[j].conversation_id == active ==> complete[j],
    ensures
        resolve_spec(ps, complete, Some(active)) matches ResolveStep::Ready { index, set_active }
            && !set_active && index < ps.len() && ps[index as int].conversation_id == active,
{
    lemma_first_flagged(ps, complete, false, Some(active), 0);
    lemma_first_flagged(ps, complete, true, Some(active), 0);
    assert(flag_hit(ps, complete, true, Some(active), k));
    match first_flagged(ps, complete, false, Some(active), 0) {
        Some(j) => {
            assert(flag_hit(ps, complete, false, Some(active), j as int));
            assert(complete[j as int]);
        },
        None => {},
    }
}

proof fn lemma_count_flag_has(complete: Seq<bool>, want: bool, i: int)
    requires
        0 <= i < complete.len(),
        complete[i] == want,
    ensures
        count_flag(complete, want) >= 1,
    decreases complete.len(),
{
    if i < complete.len() - 1 {
        lemma_count_flag_has(complete.drop_last(), want, i);
    }
}

proof fn lemma_count_flag_two(complete: Seq<bool>, want: bool, i: int, j: int)
    requires
        0 <= i < j < complete.len(),
        complete[i] == want,
        complete[j] == want,
    ensures
        count_flag(complete, want) >= 2,
    decreases complete.len(),
{
    if j == complete.len() - 1 {
        lemma_count_flag_has(complete.drop_last(), want, i);
    } else {
        lemma_count_flag_two(complete.drop_last(), want, i, j);
    }
}

/// Whatever the inputs, a message is only ever handed to a participant of
/// the phone: `Ready` names one whose conversation has both participants,
/// and `CheckInvite` one whose conversation is still missing its partner.
pub proof fn lemma_resolved_participant_fits(
    ps: Seq<ParticipantView>,
    complete: Seq<bool>,
    active: Option<i64>,
)
    requires
        complete.len() == ps.len() <= usize::MAX,
    ensures
        resolve_spec(ps, complete, active) matches ResolveStep::Ready { index, .. } ==> index
            < ps.len() && complete[index as int],
        resolve_spec(ps, complete, active) matches ResolveStep::CheckInvite { index } ==> index
            < ps.len() && !complete[index as int],
        resolve_spec(ps, complete, active) matches ResolveStep::Ready { index, set_active: false }
            ==> active == Some(ps[index as int].conversation_id),
{
    lemma_first_flagged(ps, complete, false, None, 0);
    lemma_first_flagged(ps, complete, true, None, 0);
    match active {
        Some(a) => {
            lemma_first_flagged(ps, complete, false, Some(a), 0);
            lemma_first_flagged(ps, complete, true, Some(a), 0);
        },
        None => {},
    }
}

/// When the active conversation does not apply (there is none, or the phone
/// has no participant in it) and exactly one of the phone's conversations
/// has both participants, the message goes to that conversation, which
/// becomes the active one.
pub proof fn lemma_only_complete_conversation_answers(
    ps: Seq<ParticipantView>,
    complete: Seq<bool>,
    active: Option<i64>,
    k: int,
)
    requires
        complete.len() == ps.len() <= usize::MAX,
        0 <= k < ps.len(),
        complete[k],
        forall|j: int| 0 <= j < ps.len() && j != k ==> !complete[j],
        active matches Some(a) ==> forall|j: int| 0 <= j < ps.len() ==> ps[j].conversation_id != a,
    ensures
        resolve_spec(ps, complete, active) == (ResolveStep::Ready { index: k as usize, set_active: true }),
{
    lemma_first_flagged(ps, complete, true, None, 0);
    lemma_count_flag_has(complete, true, k);
    match first_flagged(ps, complete, true, None, 0) {
        Some(j) => {
            assert(flag_hit(ps, complete, true, None, j as int));
            assert(j == k);
        },
        None => {
            assert(!flag_hit(ps, complete, true, None, k));
        },
    }
    if count_flag(complete, true) >= 2 {
        lemma_count_two_positions(complete, true);
    }
    match active {
        Some(a) => {
            lemma_first_flagged(ps, complete, false, Some(a), 0);
            lemma_first_flagged(ps, complete, true, Some(a), 0);
            match first_flagged(ps, complete, false, Some(a), 0) {
                Some(j) => assert(flag_hit(ps, complete, false, Some(a), j as int)),
                None => {},
            }
            match first_flagged(ps, complete, true, Some(a), 0) {
                Some(j) => assert(flag_hit(ps, complete, true, Some(a), j as int)),
                None => {},
            }
        },
        None => {},
    }
}

proof fn lemma_count_two_positions(complete: Seq<bool>, want: bool)
    requires
        count_flag(complete, want) >= 2,
    ensures
        exists|i: int, j: int| 0 <= i < j < complete.len() && complete[i] == want && complete[j] == want,
    decreases complete.len(),
{
    let d = complete.drop_last();
    if complete.last() == want {
        lemma_count_one_position(d, want);
        let i = choose|i: int| 0 <= i < d.len() && d[i] == want;
        assert(complete[i] == want && complete[complete.len() - 1] == want);
    } else {
        lemma_count_two_positions(d, want);
        let (i, j) = choose|i: int, j: int| 0 <= i < j < d.len() && d[i] == want && d[j] == want;
        assert(complete[i] == want && complete[j] == want);
    }
}

proof fn lemma_count_one_position(complete: Seq<bool>, want: bool)
    requires
        count_flag(complete, want) >= 1,
    ensures
        exists|i: int| 0 <= i < complete.len() && complete[i] == want,
    decreases complete.len(),
{
    let d = complete.drop_last();
    if complete.last() == want {
        assert(complete[complete.len() - 1] == want);
    } else {
        lemma_count_one_position(d, want);
        let i = choose|i: int| 0 <= i < d.len() && d[i] == want;
        assert(complete[i] == want);
    }
}

fn find_flagged(ps: &Vec<Participant>, complete: &Vec<bool>, want: bool, conv: Option<i64>) -> (r:
    Option<usize>)
    requires
        complete.len() == ps.len(),
    ensures
        match first_flagged(participants_view(ps@), complete@, want, conv, 0) {
            Some(k) => r == Some(k as usize),
            None => r is None,
        },
{
    let ghost pv = participants_view(ps@);
    proof {
        lemma_first_flagged(pv, complete@, want, conv, 0);
    }
    let mut i: usize = 0;
    while i < ps.len()
        invariant
            i <= ps.len() == complete.len(),
            pv == participants_view(ps@),
            first_flagged(pv, complete@, want, conv, 0) == first_flagged(
                pv,
                complete@,
                want,
                conv,
                i as int,
            ),
        decreases ps.len() - i,
    {
        let matches_conv = match conv {
            Some(c) => ps[i].conversation_id == c,
            None => true,
        };
        if complete[i] == want && matches_conv {
            return Some(i);
        }
        i = i + 1;
    }
    None
}

fn count_flagged(complete: &Vec<bool>, want: bool) -> (r: usize)
    ensures
        r == count_flag(complete@, want),
{
    let mut n: usize = 0;
    let mut i: usize = 0;
    while i < complete.len()
        invariant
            i <= complete.len(),
            n <= i,
            n == count_flag(complete@.take(i as int), want),
        decreases complete.len() - i,
    {
        assert(complete@.take(i as int + 1).drop_last() =~= complete@.take(i as int));
        if complete[i] == want {
            n = n + 1;
        }
        i = i + 1;
    }
    assert(complete@.take(complete.len() as int) =~= complete@);
    n
}

/// What a message from a phone is about, given the phone's participants,
/// whether each of their conversations has both participants, and the
/// phone's active conversation.
pub fn resolve_participant(
    participants: &Vec<Participant>,
    complete: &Vec<bool>,
    active_conversation_id: Option<i64>,
) -> (r: ResolveStep)
    requires
        complete.len() == participants.len(),
    ensures
        r == resolve_spec(participants_view(participants@), complete@, active_conversation_id),
{
    if participants.len() == 0 {
        return ResolveStep::NotRegistered;
    }
    if let Some(a) = active_conversation_id {
        if let Some(k) = find_flagged(participants, complete, false, Some(a)) {
            return ResolveStep::CheckInvite { index: k };
        }
        if let Some(k) = find_flagged(participants, complete, true, Some(a)) {
            return ResolveStep::Ready { index: k, set_active: false };
        }
    }
    let complete_count = count_flagged(complete, true);
    if complete_count == 0 {
        if count_flagged(complete, false) == 1 {
            match find_flagged(participants, complete, false, None) {
                Some(k) => ResolveStep::CheckInvite { index: k },
                None => ResolveStep::NotRegistered,
            }
        } else {
            ResolveStep::NotRegistered
        }
    } else if complete_count == 1 {
        match find_flagged(participants, complete, true, None) {
            Some(k) => ResolveStep::Ready { index: k, set_active: true },
            None => ResolveStep::PickConversation,
        }
    } else {
        ResolveStep::PickConversation
    }
}

// ---------------------------------------------------------------------------
// Database location
// ---------------------------------------------------------------------------

pub open spec fn sqlite_file_path_spec(url: Seq<char>) -> Option<Seq<char>> {
    match strip_prefix(url, "sqlite:///"@) {
        Some(p) => Some(p),
        None => strip_prefix(url, "sqlite:"@),
    }
}

/// The file behind a `sqlite:` database URL.
pub fn sqlite_file_path(url: &str) -> (r: Option<String>)
    ensures
        opt_chars(r) == sqlite_file_path_spec(url@),
{
    let v = chars_of(url);
    if let Some(p) = strip_prefix_chars(&v, "sqlite:///") {
        return Some(string_of(&p));
    }
    match strip_prefix_chars(&v, "sqlite:") {
        Some(p) => Some(string_of(&p)),
        None => None,
    }
}

} // verus!
