//! How the bot routes a user's message, and what it says in tutor and
//! exchange conversations.

use vstd::prelude::*;
use crate::conversations::{
    SetLanguageCommand, SetModeCommand, StartConversationCommand, is_help_command,
    is_help_command_spec, is_list_command, is_list_command_spec, numbered_command_spec,
    parse_cancel_selection, parse_set_language, parse_set_language_spec, parse_set_mode,
    parse_set_mode_spec, parse_start_conversation_command, parse_switch_selection,
    start_command_spec,
};
use crate::db::{Conversation, ConversationView, Participant, ParticipantView};
use crate::flow::JudgmentResponse;
use crate::menu::{is_menu_command, is_menu_command_spec};
use crate::text::{opt_chars};

verus! {

/// A text command, or an ordinary chat message.
pub enum Command {
    List,
    Help,
    Switch(usize),
    SetMode(SetModeCommand),
    SetLanguage(SetLanguageCommand),
    Cancel(usize),
    Start(StartConversationCommand),
    /// Not a command: a message for the conversation.
    Chat,
}

/// The commands are tried in this order; the first that reads the text wins.
pub open spec fn command_kind(text: Seq<char>) -> u8 {
    if is_list_command_spec(text) {
        0
    } else if is_help_command_spec(text) {
        1
    } else if numbered_command_spec(text, "SWITCH"@) is Some {
        2
    } else if parse_set_mode_spec(text) is Some {
        3
    } else if parse_set_language_spec(text) is Some {
        4
    } else if numbered_command_spec(text, "CANCEL"@) is Some {
        5
    } else if start_command_spec(text) is Some {
        6
    } else {
        7
    }
}

/// Whether `r` is the command that `text` reads as.
pub open spec fn routed_as(text: Seq<char>, r: Command) -> bool {
    match command_kind(text) {
        0 => r is List,
        1 => r is Help,
        2 => r == Command::Switch(numbered_command_spec(text, "SWITCH"@)->0),
        3 => r == Command::SetMode(parse_set_mode_spec(text)->0),
        4 => r matches Command::SetLanguage(c) && Some((c.index, c.language@))
            == parse_set_language_spec(text),
        5 => r == Command::Cancel(numbered_command_spec(text, "CANCEL"@)->0),
        6 => r == Command::Start(start_command_spec(text)->0),
        _ => r is Chat,
    }
}

/// What a message from a registered user (not in onboarding, not answering
/// an invite) asks for.
pub fn route_command(text: &str) -> (r: Command)
    ensures
        routed_as(text@, r),
{
    if is_list_command(text) {
        return Command::List;
    }
    if is_help_command(text) {
        return Command::Help;
    }
    if let Some(selection) = parse_switch_selection(text) {
        return Command::Switch(selection);
    }
    if let Some(command) = parse_set_mode(text) {
        return Command::SetMode(command);
    }
    if let Some(command) = parse_set_language(text) {
        return Command::SetLanguage(command);
    }
    if let Some(selection) = parse_cancel_selection(text) {
        return Command::Cancel(selection);
    }
    if let Some(command) = parse_start_conversation_command(text) {
        return Command::Start(command);
    }
    Command::Chat
}

/// Where a message goes, in the order the bot looks.
pub enum Route {
    /// The sender has an open invite: the message answers it.
    InviteResponse,
    /// The sender is in onboarding: the message continues it.
    Onboarding,
    /// `MENU`: show the main menu.
    Menu,
    /// The sender has a menu session open; a tap is first tried as a menu row.
    MenuSession { tap_first: bool },
    /// A tap outside a menu session: tried as a menu row, else this command.
    Tap(Command),
    /// Typed text: this command, or a chat message.
    Text(Command),
}

/// Which route a message takes: 0 invite, 1 onboarding, 2 menu, 3 menu
/// session, 4 tap, 5 text.
pub open spec fn route_kind(
    has_pending_invite: bool,
    in_onboarding: bool,
    in_menu_session: bool,
    text: Seq<char>,
    is_interactive: bool,
) -> u8 {
    if has_pending_invite {
        0
    } else if in_onboarding {
        1
    } else if is_menu_command_spec(text) {
        2
    } else if in_menu_session {
        3
    } else if is_interactive {
        4
    } else {
        5
    }
}

/// Where a message goes: an open invite first, then onboarding, then the
/// menu word, an open menu session, a tap, and last the text commands and
/// chat. The menu word, menu sessions and taps are the list-menu entry points
/// of the `menu` module; the reminders button, `SET TIMEZONE` and the "Ping
/// them" buttons are not routed here, so such texts are read as commands or
/// chat like any other.
pub fn route_message(
    has_pending_invite: bool,
    in_onboarding: bool,
    in_menu_session: bool,
    text: &str,
    is_interactive: bool,
) -> (r: Route)
    ensures
        match route_kind(has_pending_invite, in_onboarding, in_menu_session, text@, is_interactive) {
            0 => r is InviteResponse,
            1 => r is Onboarding,
            2 => r is Menu,
            3 => r == Route::MenuSession { tap_first: is_interactive },
            4 => r matches Route::Tap(c) && routed_as(text@, c),
            _ => r matches Route::Text(c) && routed_as(text@, c),
        },
{
    if has_pending_invite {
        return Route::InviteResponse;
    }
    if in_onboarding {
        return Route::Onboarding;
    }
    if is_menu_command(text) {
        return Route::Menu;
    }
    if in_menu_session {
        return Route::MenuSession { tap_first: is_interactive };
    }
    if is_interactive {
        return Route::Tap(route_command(text));
    }
    Route::Text(route_command(text))
}

// ---------------------------------------------------------------------------
// Replies while resolving the conversation
// ---------------------------------------------------------------------------

pub open spec fn pick_conversation_spec() -> Seq<char> {
    "You have multiple conversations. Reply LIST to see them, then SWITCH <number> to pick one."@
}

pub fn pick_conversation_text() -> (r: String)
    ensures
        r@ == pick_conversation_spec(),
{
    String::from_str(
        "You have multiple conversations. Reply LIST to see them, then SWITCH <number> to pick one.",
    )
}

pub open spec fn still_waiting_spec(invitee_label: Seq<char>) -> Seq<char> {
    "Still waiting for "@ + invitee_label + " to accept your invite."@
}

pub fn still_waiting_text(invitee_label: &str) -> (r: String)
    ensures
        r@ == still_waiting_spec(invitee_label@),
{
    let mut r = String::from_str("Still waiting for ");
    r.append(invitee_label);
    r.append(" to accept your invite.");
    r
}

pub open spec fn stale_conversation_spec() -> Seq<char> {
    "That conversation is no longer active. Reply LEARNER or TEACHER to start a new one."@
}

pub fn stale_conversation_text() -> (r: String)
    ensures
        r@ == stale_conversation_spec(),
{
    String::from_str(
        "That conversation is no longer active. Reply LEARNER or TEACHER to start a new one.",
    )
}

pub open spec fn went_wrong_spec() -> Seq<char> {
    "Sorry, something went wrong. Please try again in a moment."@
}

/// The apology sent when handling a message failed.
pub fn went_wrong_text() -> (r: String)
    ensures
        r@ == went_wrong_spec(),
{
    String::from_str("Sorry, something went wrong. Please try again in a moment.")
}

// ---------------------------------------------------------------------------
// Tutor conversations
// ---------------------------------------------------------------------------

pub open spec fn learner_busy_spec() -> Seq<char> {
    "Please wait — the learner is still working on your last message."@
}

/// Told to a teacher who writes while the learner is still on the last message.
pub fn learner_busy_text() -> (r: String)
    ensures
        r@ == learner_busy_spec(),
{
    String::from_str("Please wait — the learner is still working on your last message.")
}

pub open spec fn rejected_spec(feedback: Seq<char>) -> Seq<char> {
    "Rejected: "@ + feedback
}

/// Told to a teacher whose message is not in the language being learnt.
pub fn rejected_text(feedback: &str) -> (r: String)
    ensures
        r@ == rejected_spec(feedback@),
{
    let mut r = String::from_str("Rejected: ");
    r.append(feedback);
    r
}

/// What happens to a teacher's message.
pub enum TeacherTurn {
    /// The learner is still on the last message: tell the teacher this.
    Busy(String),
    /// Ask the model whether the message is in the language being learnt.
    Ask,
    /// The model refused the message: tell the teacher this.
    Rejected(String),
    /// Store the message and start the learner's review of it.
    Forward,
}

pub enum TeacherTurnView {
    Busy(Seq<char>),
    Ask,
    Rejected(Seq<char>),
    Forward,
}

impl View for TeacherTurn {
    type V = TeacherTurnView;

    open spec fn view(&self) -> TeacherTurnView {
        match self {
            TeacherTurn::Busy(t) => TeacherTurnView::Busy(t@),
            TeacherTurn::Ask => TeacherTurnView::Ask,
            TeacherTurn::Rejected(t) => TeacherTurnView::Rejected(t@),
            TeacherTurn::Forward => TeacherTurnView::Forward,
        }
    }
}

/// A teacher's message, given whether the learner is idle and, once it has
/// been asked, the model's verdict (accepted, feedback).
pub open spec fn teacher_turn_spec(learner_idle: bool, verdict: Option<(bool, Seq<char>)>) -> TeacherTurnView {
    if !learner_idle {
        TeacherTurnView::Busy(learner_busy_spec())
    } else {
        match verdict {
            None => TeacherTurnView::Ask,
            Some((accepted, feedback)) => if accepted {
                TeacherTurnView::Forward
            } else {
                TeacherTurnView::Rejected(rejected_spec(feedback))
            },
        }
    }
}

/// What a teacher's message leads to: refused while the learner works,
/// then judged by the model, then forwarded or refused with the feedback.
pub fn teacher_turn(learner_idle: bool, verdict: Option<&JudgmentResponse>) -> (r: TeacherTurn)
    ensures
        r@ == teacher_turn_spec(
            learner_idle,
            match verdict {
                Some(j) => Some((j.accepted, j.feedback@)),
                None => None,
            },
        ),
{
    if !learner_idle {
        return TeacherTurn::Busy(learner_busy_text());
    }
    match verdict {
        None => TeacherTurn::Ask,
        Some(j) => if j.accepted {
            TeacherTurn::Forward
        } else {
            TeacherTurn::Rejected(rejected_text(j.feedback.as_str()))
        },
    }
}

/// A teacher's message reaches the learner only while the learner is idle
/// and once the model has accepted it; the model is asked only while the
/// learner is idle.
pub proof fn lemma_teacher_forwarded_only_when_idle_and_accepted(
    learner_idle: bool,
    verdict: Option<(bool, Seq<char>)>,
)
    ensures
        teacher_turn_spec(learner_idle, verdict) is Forward <==> (learner_idle && verdict is Some
            && (verdict->0).0),
        teacher_turn_spec(learner_idle, verdict) is Ask <==> (learner_idle && verdict is None),
{
}

/// The note added when a message moves the recipient to another chat.
pub open spec fn switched_note_spec(previous_active: Option<i64>, conversation_id: i64, chat_label: Seq<char>) -> Seq<
    char,
> {
    if previous_active is Some && previous_active != Some(conversation_id) {
        "\n\n(Switched active chat to "@ + chat_label + ".)"@
    } else {
        seq![]
    }
}

/// The note added to a message that makes its recipient's active chat change.
pub fn switched_note(previous_active: Option<i64>, conversation_id: i64, chat_label: &str) -> (r:
    String)
    ensures
        r@ == switched_note_spec(previous_active, conversation_id, chat_label@),
{
    let moved = match previous_active {
        Some(id) => id != conversation_id,
        None => false,
    };
    if moved {
        let mut r = String::from_str("\n\n(Switched active chat to ");
        r.append(chat_label);
        r.append(".)");
        r
    } else {
        String::new()
    }
}

pub open spec fn sent_to_learner_spec(learner_label: Seq<char>) -> Seq<char> {
    "Message sent to "@ + learner_label + " (learner)."@
}

/// The teacher's confirmation.
pub fn sent_to_learner_text(learner_label: &str) -> (r: String)
    ensures
        r@ == sent_to_learner_spec(learner_label@),
{
    let mut r = String::from_str("Message sent to ");
    r.append(learner_label);
    r.append(" (learner).");
    r
}

pub open spec fn sent_to_spec(partner_label: Seq<char>) -> Seq<char> {
    "Message sent to "@ + partner_label + "."@
}

/// An exchange partner's confirmation.
pub fn sent_to_text(partner_label: &str) -> (r: String)
    ensures
        r@ == sent_to_spec(partner_label@),
{
    let mut r = String::from_str("Message sent to ");
    r.append(partner_label);
    r.append(".");
    r
}

// ---------------------------------------------------------------------------
// Exchange conversations
// ---------------------------------------------------------------------------

pub open spec fn or_default(o: Option<Seq<char>>, d: Seq<char>) -> Seq<char> {
    match o {
        Some(x) => x,
        None => d,
    }
}

/// The languages of an exchange: the one the sender learns (by default the
/// conversation's language) and the one the partner learns (by default the
/// conversation's other language).
pub open spec fn exchange_languages_spec(
    sender: ParticipantView,
    partner: ParticipantView,
    c: ConversationView,
) -> (Seq<char>, Seq<char>) {
    (
        or_default(sender.learning_language, c.target_language),
        or_default(partner.learning_language, c.source_language),
    )
}

pub fn exchange_languages(sender: &Participant, partner: &Participant, conversation: &Conversation) -> (r:
    (String, String))
    ensures
        (r.0@, r.1@) == exchange_languages_spec(sender@, partner@, conversation@),
{
    let mine = match &sender.learning_language {
        Some(l) => l.clone(),
        None => conversation.target_language.clone(),
    };
    let theirs = match &partner.learning_language {
        Some(l) => l.clone(),
        None => conversation.source_language.clone(),
    };
    (mine, theirs)
}

/// Whether the sender may write now in a turn-based exchange.
pub enum TurnCheck {
    /// The conversation has no turn holder yet.
    NotInitialized,
    /// It is someone else's turn: tell the sender who holds it (the partner,
    /// or else the sender's own record) and in which language they write.
    NotYourTurn { holder_is_partner: bool, holder_language: String },
    YourTurn,
}

pub open spec fn turn_check_spec(sender: ParticipantView, partner: ParticipantView, c: ConversationView) -> Option<
    Option<(bool, Seq<char>)>,
> {
    match c.exchange_turn_phone {
        None => None,
        Some(t) => if sender.phone == t {
            Some(None)
        } else {
            let holder_is_partner = partner.phone == t;
            let holder = if holder_is_partner {
                partner
            } else {
                sender
            };
            Some(Some((holder_is_partner, or_default(holder.learning_language, c.target_language))))
        },
    }
}

/// Whether `sender` holds the turn in a turn-based exchange.
pub fn turn_check(sender: &Participant, partner: &Participant, conversation: &Conversation) -> (r:
    TurnCheck)
    ensures
        match turn_check_spec(sender@, partner@, conversation@) {
            None => r is NotInitialized,
            Some(None) => r is YourTurn,
            Some(Some((p, l))) => r matches TurnCheck::NotYourTurn {
                holder_is_partner,
                holder_language,
            } && holder_is_partner == p && holder_language@ == l,
        },
{
    match &conversation.exchange_turn_phone {
        None => TurnCheck::NotInitialized,
        Some(t) => {
            if sender.phone == *t {
                TurnCheck::YourTurn
            } else {
                let holder_is_partner = partner.phone == *t;
                let holder = if holder_is_partner {
                    partner
                } else {
                    sender
                };
                let holder_language = match &holder.learning_language {
                    Some(l) => l.clone(),
                    None => conversation.target_language.clone(),
                };
                TurnCheck::NotYourTurn { holder_is_partner, holder_language }
            }
        },
    }
}

/// In a turn-based exchange only the turn holder may write: two
/// participants who may both write have the same number.
pub proof fn lemma_one_writer_per_turn(a: ParticipantView, b: ParticipantView, c: ConversationView)
    requires
        turn_check_spec(a, b, c) == Some(None::<(bool, Seq<char>)>),
        turn_check_spec(b, a, c) == Some(None::<(bool, Seq<char>)>),
    ensures
        a.phone == b.phone,
{
}

pub open spec fn not_your_turn_spec(holder_label: Seq<char>, holder_language: Seq<char>) -> Seq<char> {
    "It's "@ + holder_label + "'s turn — wait for them to write in "@ + holder_language + "."@
}

pub fn not_your_turn_text(holder_label: &str, holder_language: &str) -> (r: String)
    ensures
        r@ == not_your_turn_spec(holder_label@, holder_language@),
{
    let mut r = String::from_str("It's ");
    r.append(holder_label);
    r.append("'s turn — wait for them to write in ");
    r.append(holder_language);
    r.append(".");
    r
}

/// What the partner receives of an exchange message: the sender's label and
/// text, in turns followed by whose turn it is, then the switch note.
pub open spec fn exchange_forward_spec(
    sender_label: Seq<char>,
    text: Seq<char>,
    partner_language: Seq<char>,
    turns: bool,
    previous_active: Option<i64>,
    conversation_id: i64,
) -> Seq<char> {
    let body = "["@ + sender_label + "]: "@ + text;
    if turns {
        body + "\n\nYour turn — write in "@ + partner_language + "."@ + switched_note_spec(
            previous_active,
            conversation_id,
            "exchange (turns) with "@ + sender_label,
        )
    } else {
        body + switched_note_spec(
            previous_active,
            conversation_id,
            "exchange — you learn "@ + partner_language + " with "@ + sender_label,
        )
    }
}

/// The message forwarded to an exchange partner.
pub fn exchange_forward(
    sender_label: &str,
    text: &str,
    partner_language: &str,
    turns: bool,
    previous_active: Option<i64>,
    conversation_id: i64,
) -> (r: String)
    ensures
        r@ == exchange_forward_spec(
            sender_label@,
            text@,
            partner_language@,
            turns,
            previous_active,
            conversation_id,
        ),
{
    let mut r = String::from_str("[");
    r.append(sender_label);
    r.append("]: ");
    r.append(text);
    if turns {
        r.append("\n\nYour turn — write in ");
        r.append(partner_language);
        r.append(".");
        let mut label = String::from_str("exchange (turns) with ");
        label.append(sender_label);
        let note = switched_note(previous_active, conversation_id, label.as_str());
        r.append(note.as_str());
    } else {
        let mut label = String::from_str("exchange — you learn ");
        label.append(partner_language);
        label.append(" with ");
        label.append(sender_label);
        let note = switched_note(previous_active, conversation_id, label.as_str());
        r.append(note.as_str());
    }
    r
}

} // verus!
