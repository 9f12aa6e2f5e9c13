//! The interactive menu: the ids of its rows, what a tapped row or a typed
//! reply selects, and the rows and texts the menu shows.

use vstd::prelude::*;
use crate::conversations::{
    default_listing, format_listing_line, format_listing_menu_description, listing_is_broken,
    listing_is_broken_spec, listing_line_spec, listing_menu_description_spec, listing_partner_spec,
    menu_description_cuts_cleanly, format_listing_partner, choose_listing, ListingChoice,
    choose_listing_spec, mode_word,
};
use crate::db::{
    ConversationListing, ConversationMode, ConversationModeSetting, MenuAction, MenuStep,
    ParticipantRole,
};
use crate::phone::digits_only;
use crate::text::{
    append_chars, chars_eq_str, chars_of, cuts_cleanly, decimal, join, join_words, lower, parse_usize,
    parse_usize_spec, string_of, strip_prefix, strip_prefix_chars, trim, trim_chars, trimmed,
    truncate_bytes, truncate_to_bytes, upper, usize_text, views,
};

verus! {

pub const MAIN_LIST: &'static str = "menu_list";

pub const MAIN_SWITCH: &'static str = "menu_switch";

pub const MAIN_SET_MODE: &'static str = "menu_set_mode";

pub const MAIN_SET_LANGUAGE: &'static str = "menu_set_language";

pub const MAIN_CANCEL: &'static str = "menu_cancel";

pub const MAIN_START: &'static str = "menu_start";

pub const MAIN_HELP: &'static str = "menu_help";

pub const MAIN_REVIEW_VOCAB: &'static str = "menu_review_vocab";

pub const START_LEARNER: &'static str = "mode_learner";

pub const START_TEACHER: &'static str = "mode_teacher";

pub const START_EXCHANGE: &'static str = "mode_exchange";

pub const START_TURNS: &'static str = "mode_turns";

pub const MODE_TEACHER: &'static str = "menu_mode_teacher";

pub const MODE_LEARNER: &'static str = "menu_mode_learner";

pub const MODE_EXCHANGE: &'static str = "menu_mode_exchange";

pub const MODE_TURNS: &'static str = "menu_mode_turns";

pub const CONV_PREFIX: &'static str = "menu_conv_";

/// More conversations than this are offered as a numbered text list rather
/// than as menu rows.
pub const MAX_MENU_CONVERSATIONS: usize = 10;

// ---------------------------------------------------------------------------
// Reading selections
// ---------------------------------------------------------------------------

pub open spec fn is_menu_command_spec(text: Seq<char>) -> bool {
    upper(trim(text)) == "MENU"@
}

/// `MENU`, in any case.
pub fn is_menu_command(text: &str) -> (r: bool)
    ensures
        r == is_menu_command_spec(text@),
{
    let w = crate::text::to_upper(&trimmed(text));
    chars_eq_str(&w, "MENU")
}

pub open spec fn in_range(i: Option<usize>, count: usize) -> Option<usize> {
    match i {
        Some(n) => if 1 <= n && n <= count {
            Some(n)
        } else {
            None
        },
        None => None,
    }
}

/// A tapped conversation row (`menu_conv_<n>`) or a typed number, from 1 to `count`.
pub open spec fn conversation_selection_spec(text: Seq<char>, count: usize) -> Option<usize> {
    match strip_prefix(text, CONV_PREFIX@) {
        Some(id) => in_range(parse_usize_spec(id), count),
        None => in_range(parse_usize_spec(trim(text)), count),
    }
}

fn keep_in_range(i: Option<usize>, count: usize) -> (r: Option<usize>)
    ensures
        r == in_range(i, count),
{
    match i {
        Some(n) => if 1 <= n && n <= count {
            Some(n)
        } else {
            None
        },
        None => None,
    }
}

/// The conversation a reply picks from a list of `count`.
pub fn parse_conversation_selection(text: &str, count: usize) -> (r: Option<usize>)
    ensures
        r == conversation_selection_spec(text@, count),
{
    let v = chars_of(text);
    match strip_prefix_chars(&v, CONV_PREFIX) {
        Some(id) => keep_in_range(parse_usize(&id), count),
        None => keep_in_range(parse_usize(&trim_chars(&v)), count),
    }
}

/// A tapped mode row, or the mode's name in capitals.
pub open spec fn mode_selection_spec(text: Seq<char>) -> Option<ConversationModeSetting> {
    let t = trim(text);
    if t == MODE_TEACHER@ || t == "TEACHER"@ {
        Some(ConversationModeSetting::Teacher)
    } else if t == MODE_LEARNER@ || t == "LEARNER"@ {
        Some(ConversationModeSetting::Learner)
    } else if t == MODE_EXCHANGE@ || t == "EXCHANGE"@ {
        Some(ConversationModeSetting::Exchange)
    } else if t == MODE_TURNS@ || t == "EXCHANGE-TURNS"@ || t == "EXCHANGE_TURNS"@ || t == "TURNS"@ {
        Some(ConversationModeSetting::ExchangeTurns)
    } else {
        None
    }
}

/// The mode a reply picks in the mode menu.
pub fn parse_mode_selection(text: &str) -> (r: Option<ConversationModeSetting>)
    ensures
        r == mode_selection_spec(text@),
{
    let t = trimmed(text);
    if chars_eq_str(&t, MODE_TEACHER) || chars_eq_str(&t, "TEACHER") {
        Some(ConversationModeSetting::Teacher)
    } else if chars_eq_str(&t, MODE_LEARNER) || chars_eq_str(&t, "LEARNER") {
        Some(ConversationModeSetting::Learner)
    } else if chars_eq_str(&t, MODE_EXCHANGE) || chars_eq_str(&t, "EXCHANGE") {
        Some(ConversationModeSetting::Exchange)
    } else if chars_eq_str(&t, MODE_TURNS) || chars_eq_str(&t, "EXCHANGE-TURNS") || chars_eq_str(
        &t,
        "EXCHANGE_TURNS",
    ) || chars_eq_str(&t, "TURNS") {
        Some(ConversationModeSetting::ExchangeTurns)
    } else {
        None
    }
}

/// What a tapped menu row selects.
pub enum MenuSelection {
    List,
    Switch,
    SetMode,
    SetLanguage,
    Cancel,
    Start,
    Help,
    ReviewVocab,
    StartTutor(ParticipantRole),
    StartExchange(ConversationMode),
    /// A row of the mode menu; it applies while a mode is being picked.
    PickMode(ConversationModeSetting),
    /// A row of the conversation menu (1-based); it applies while a
    /// conversation is being picked.
    PickConversation(usize),
    /// Not a menu row.
    Unknown,
}

pub open spec fn menu_selection_spec(s: Seq<char>) -> MenuSelection {
    if s == MAIN_LIST@ {
        MenuSelection::List
    } else if s == MAIN_SWITCH@ {
        MenuSelection::Switch
    } else if s == MAIN_SET_MODE@ {
        MenuSelection::SetMode
    } else if s == MAIN_SET_LANGUAGE@ {
        MenuSelection::SetLanguage
    } else if s == MAIN_CANCEL@ {
        MenuSelection::Cancel
    } else if s == MAIN_START@ {
        MenuSelection::Start
    } else if s == MAIN_HELP@ {
        MenuSelection::Help
    } else if s == MAIN_REVIEW_VOCAB@ {
        MenuSelection::ReviewVocab
    } else if s == START_LEARNER@ {
        MenuSelection::StartTutor(ParticipantRole::Learner)
    } else if s == START_TEACHER@ {
        MenuSelection::StartTutor(ParticipantRole::Teacher)
    } else if s == START_EXCHANGE@ {
        MenuSelection::StartExchange(ConversationMode::Exchange)
    } else if s == START_TURNS@ {
        MenuSelection::StartExchange(ConversationMode::ExchangeTurns)
    } else if s == MODE_TEACHER@ || s == MODE_LEARNER@ || s == MODE_EXCHANGE@ || s == MODE_TURNS@ {
        match mode_selection_spec(s) {
            Some(m) => MenuSelection::PickMode(m),
            None => MenuSelection::Unknown,
        }
    } else {
        match strip_prefix(s, CONV_PREFIX@) {
            Some(id) => match parse_usize_spec(id) {
                Some(n) => if n >= 1 {
                    MenuSelection::PickConversation(n)
                } else {
                    MenuSelection::Unknown
                },
                None => MenuSelection::Unknown,
            },
            None => MenuSelection::Unknown,
        }
    }
}

/// What a tapped menu row (its id) selects.
pub fn parse_menu_selection(selection: &str) -> (r: MenuSelection)
    ensures
        r == menu_selection_spec(selection@),
{
    let s = chars_of(selection);
    if chars_eq_str(&s, MAIN_LIST) {
        MenuSelection::List
    } else if chars_eq_str(&s, MAIN_SWITCH) {
        MenuSelection::Switch
    } else if chars_eq_str(&s, MAIN_SET_MODE) {
        MenuSelection::SetMode
    } else if chars_eq_str(&s, MAIN_SET_LANGUAGE) {
        MenuSelection::SetLanguage
    } else if chars_eq_str(&s, MAIN_CANCEL) {
        MenuSelection::Cancel
    } else if chars_eq_str(&s, MAIN_START) {
        MenuSelection::Start
    } else if chars_eq_str(&s, MAIN_HELP) {
        MenuSelection::Help
    } else if chars_eq_str(&s, MAIN_REVIEW_VOCAB) {
        MenuSelection::ReviewVocab
    } else if chars_eq_str(&s, START_LEARNER) {
        MenuSelection::StartTutor(ParticipantRole::Learner)
    } else if chars_eq_str(&s, START_TEACHER) {
        MenuSelection::StartTutor(ParticipantRole::Teacher)
    } else if chars_eq_str(&s, START_EXCHANGE) {
        MenuSelection::StartExchange(ConversationMode::Exchange)
    } else if chars_eq_str(&s, START_TURNS) {
        MenuSelection::StartExchange(ConversationMode::ExchangeTurns)
    } else if chars_eq_str(&s, MODE_TEACHER) || chars_eq_str(&s, MODE_LEARNER) || chars_eq_str(
        &s,
        MODE_EXCHANGE,
    ) || chars_eq_str(&s, MODE_TURNS) {
        match parse_mode_selection(selection) {
            Some(m) => MenuSelection::PickMode(m),
            None => MenuSelection::Unknown,
        }
    } else {
        match strip_prefix_chars(&s, CONV_PREFIX) {
            Some(id) => match parse_usize(&id) {
                Some(n) => if n >= 1 {
                    MenuSelection::PickConversation(n)
                } else {
                    MenuSelection::Unknown
                },
                None => MenuSelection::Unknown,
            },
            None => MenuSelection::Unknown,
        }
    }
}

// ---------------------------------------------------------------------------
// The conversations a menu action offers
// ---------------------------------------------------------------------------

pub open spec fn cancellable(l: ConversationListing, viewer: Seq<char>) -> bool {
    l.is_pending || listing_is_broken_spec(l, viewer)
}

/// The listings that can be cancelled, in order.
pub open spec fn cancellable_listings(ls: Seq<ConversationListing>, viewer: Seq<char>) -> Seq<
    ConversationListing,
>
    decreases ls.len(),
{
    if ls.len() == 0 {
        seq![]
    } else if cancellable(ls.last(), viewer) {
        cancellable_listings(ls.drop_last(), viewer).push(ls.last())
    } else {
        cancellable_listings(ls.drop_last(), viewer)
    }
}

pub open spec fn listings_for_action_spec(
    ls: Seq<ConversationListing>,
    phone: Seq<char>,
    action: MenuAction,
) -> Seq<ConversationListing> {
    if action != MenuAction::Cancel {
        ls
    } else {
        cancellable_listings(ls, digits_only(phone))
    }
}

/// The conversations a menu action chooses from: all of them, except that
/// Cancel offers only pending invites and invites to one's own number.
/// "Cancel invite" offers exactly the user's pending and invalid invites:
/// each one it offers is one of them, and each of them is offered.
pub proof fn lemma_cancel_offers_pending_or_invalid(ls: Seq<ConversationListing>, viewer: Seq<char>)
    ensures
        forall|i: int|
            0 <= i < cancellable_listings(ls, viewer).len() ==> cancellable(
                #[trigger] cancellable_listings(ls, viewer)[i],
                viewer,
            ) && ls.contains(cancellable_listings(ls, viewer)[i]),
        forall|j: int|
            0 <= j < ls.len() && cancellable(#[trigger] ls[j], viewer) ==> cancellable_listings(
                ls,
                viewer,
            ).contains(ls[j]),
    decreases ls.len(),
{
    if ls.len() > 0 {
        let rest = ls.drop_last();
        lemma_cancel_offers_pending_or_invalid(rest, viewer);
        let a = cancellable_listings(ls, viewer);
        let ar = cancellable_listings(rest, viewer);
        assert forall|i: int| 0 <= i < a.len() implies cancellable(#[trigger] a[i], viewer)
            && ls.contains(a[i]) by {
            if i < ar.len() {
                assert(a[i] == ar[i]);
                let k = choose|k: int| 0 <= k < rest.len() && rest[k] == ar[i];
                assert(ls[k] == rest[k]);
            } else {
                assert(a[i] == ls.last());
                assert(ls[ls.len() - 1] == ls.last());
            }
        }
        assert forall|j: int| 0 <= j < ls.len() && cancellable(#[trigger] ls[j], viewer) implies a.contains(
            ls[j],
        ) by {
            if j < ls.len() - 1 {
                assert(rest[j] == ls[j]);
                assert(ar.contains(rest[j]));
                let k = choose|k: int| 0 <= k < ar.len() && ar[k] == rest[j];
                assert(a[k] == ar[k]);
            } else {
                assert(a[a.len() - 1] == ls.last());
            }
        }
    }
}

pub fn listings_for_action(
    listings: Vec<ConversationListing>,
    phone: &str,
    action: MenuAction,
) -> (r: Vec<ConversationListing>)
    ensures
        r@ == listings_for_action_spec(listings@, phone@, action),
{
    if action != MenuAction::Cancel {
        return listings;
    }
    let viewer = crate::phone::normalize_phone(phone);
    let ghost orig = listings@;
    assert(orig.len() == listings.len());
    let mut input = listings;
    let mut out: Vec<ConversationListing> = Vec::new();
    let mut n: usize = 0;
    assert(orig.take(0) =~= Seq::<ConversationListing>::empty());
    while input.len() > 0
        invariant
            n <= orig.len() <= usize::MAX,
            input@ == orig.skip(n as int),
            input@.len() == orig.len() - n,
            viewer@ == digits_only(phone@),
            out@ == cancellable_listings(orig.take(n as int), viewer@),
        decreases input.len(),
    {
        let x = input.remove(0);
        assert(x == orig[n as int]);
        assert(input@ =~= orig.skip(n as int + 1));
        assert(orig.take(n as int + 1).drop_last() =~= orig.take(n as int));
        assert(orig.take(n as int + 1).last() == x);
        if x.is_pending || listing_is_broken(&x, viewer.as_str()) {
            out.push(x);
        }
        n = n + 1;
    }
    assert(orig.take(n as int) =~= orig);
    out
}

// ---------------------------------------------------------------------------
// Menu rows and texts
// ---------------------------------------------------------------------------

/// A row of a list menu: id, title, description.
pub struct MenuRow {
    pub id: String,
    pub title: String,
    pub description: String,
}

pub open spec fn row_view(r: MenuRow) -> (Seq<char>, Seq<char>, Seq<char>) {
    (r.id@, r.title@, r.description@)
}

pub open spec fn rows_view(rs: Seq<MenuRow>) -> Seq<(Seq<char>, Seq<char>, Seq<char>)> {
    Seq::new(rs.len(), |i: int| row_view(rs[i]))
}

fn row(id: &str, title: &str, description: &str) -> (r: MenuRow)
    ensures
        row_view(r) == (id@, title@, description@),
{
    MenuRow {
        id: String::from_str(id),
        title: String::from_str(title),
        description: String::from_str(description),
    }
}

pub open spec fn main_menu_rows_spec() -> Seq<(Seq<char>, Seq<char>, Seq<char>)> {
    seq![
        (MAIN_LIST@, "View conversations"@, "See all your chats"@),
        (MAIN_SWITCH@, "Switch chat"@, "Change active conversation"@),
        (MAIN_SET_MODE@, "Set mode"@, "Change mode on active chat"@),
        (MAIN_SET_LANGUAGE@, "Set language"@, "Change language on active chat"@),
        (MAIN_CANCEL@, "Cancel invite"@, "Remove a pending invite"@),
        (MAIN_START@, "Start new"@, "Learner, teacher, or exchange"@),
        (MAIN_REVIEW_VOCAB@, "Review vocab"@, "Flashcards for active language"@),
        (MAIN_HELP@, "Help"@, "How molvakt works"@),
    ]
}

/// The rows of the main menu.
pub fn main_menu_rows() -> (r: Vec<MenuRow>)
    ensures
        rows_view(r@) == main_menu_rows_spec(),
{
    let mut r: Vec<MenuRow> = Vec::new();
    r.push(row(MAIN_LIST, "View conversations", "See all your chats"));
    r.push(row(MAIN_SWITCH, "Switch chat", "Change active conversation"));
    r.push(row(MAIN_SET_MODE, "Set mode", "Change mode on active chat"));
    r.push(row(MAIN_SET_LANGUAGE, "Set language", "Change language on active chat"));
    r.push(row(MAIN_CANCEL, "Cancel invite", "Remove a pending invite"));
    r.push(row(MAIN_START, "Start new", "Learner, teacher, or exchange"));
    r.push(row(MAIN_REVIEW_VOCAB, "Review vocab", "Flashcards for active language"));
    r.push(row(MAIN_HELP, "Help", "How molvakt works"));
    assert(rows_view(r@) =~= main_menu_rows_spec());
    r
}

pub open spec fn mode_menu_rows_spec() -> Seq<(Seq<char>, Seq<char>, Seq<char>)> {
    seq![
        (MODE_LEARNER@, "Learner"@, "You practice, partner teaches"@),
        (MODE_TEACHER@, "Teacher"@, "You teach, partner practices"@),
        (MODE_EXCHANGE@, "Exchange"@, "Write in your learning language"@),
        (MODE_TURNS@, "Exchange (turns)"@, "Alternate languages each round"@),
    ]
}

/// The word that follows `menu_mode_` in a mode row's id.
pub open spec fn mode_row_word(id: Seq<char>) -> Seq<char> {
    id.skip(10)
}

/// Each row of the mode menu picks the mode it shows, and no two rows pick
/// the same one. A row's id is `menu_mode_<word>`, and tapping it picks the
/// mode that `SET MODE <word>` names; typing the word in capitals in the
/// mode menu picks the same mode; and where the row's title is itself a mode
/// word, it names that mode too.
pub proof fn lemma_mode_rows_pick_their_mode()
    ensures
        forall|i: int|
            #![trigger mode_menu_rows_spec()[i]]
            0 <= i < mode_menu_rows_spec().len() ==> {
                let id = mode_menu_rows_spec()[i].0;
                let title = mode_menu_rows_spec()[i].1;
                &&& id == "menu_mode_"@ + mode_row_word(id)
                &&& mode_word(mode_row_word(id)) is Some
                &&& mode_selection_spec(id) == mode_word(mode_row_word(id))
                &&& mode_selection_spec(upper(mode_row_word(id))) == mode_selection_spec(id)
                &&& (mode_word(title) is Some ==> mode_word(title) == mode_selection_spec(id))
            },
        forall|i: int|
            0 <= i < mode_menu_rows_spec().len() ==> menu_selection_spec(
                #[trigger] mode_menu_rows_spec()[i].0,
            ) == MenuSelection::PickMode(mode_selection_spec(mode_menu_rows_spec()[i].0)->0),
        forall|i: int, j: int|
            0 <= i < j < mode_menu_rows_spec().len() ==> mode_selection_spec(
                #[trigger] mode_menu_rows_spec()[i].0,
            ) != mode_selection_spec(#[trigger] mode_menu_rows_spec()[j].0),
{
    lemma_mode_row(MODE_LEARNER@, "learner"@, "LEARNER"@, "Learner"@, ConversationModeSetting::Learner);
    lemma_mode_row(MODE_TEACHER@, "teacher"@, "TEACHER"@, "Teacher"@, ConversationModeSetting::Teacher);
    lemma_mode_row(MODE_EXCHANGE@, "exchange"@, "EXCHANGE"@, "Exchange"@, ConversationModeSetting::Exchange);
    lemma_mode_row(MODE_TURNS@, "turns"@, "TURNS"@, "Exchange (turns)"@, ConversationModeSetting::ExchangeTurns);
    let rows = mode_menu_rows_spec();
    assert(rows[0].0 == MODE_LEARNER@);
    assert(rows[1].0 == MODE_TEACHER@);
    assert(rows[2].0 == MODE_EXCHANGE@);
    assert(rows[3].0 == MODE_TURNS@);
}

proof fn lemma_mode_row(
    id: Seq<char>,
    word: Seq<char>,
    capitals: Seq<char>,
    title: Seq<char>,
    mode: ConversationModeSetting,
)
    requires
        (id, word, capitals, title, mode) == (MODE_LEARNER@, "learner"@, "LEARNER"@, "Learner"@, ConversationModeSetting::Learner)
        || (id, word, capitals, title, mode) == (MODE_TEACHER@, "teacher"@, "TEACHER"@, "Teacher"@, ConversationModeSetting::Teacher)
        || (id, word, capitals, title, mode) == (MODE_EXCHANGE@, "exchange"@, "EXCHANGE"@, "Exchange"@, ConversationModeSetting::Exchange)
        || (id, word, capitals, title, mode) == (MODE_TURNS@, "turns"@, "TURNS"@, "Exchange (turns)"@, ConversationModeSetting::ExchangeTurns),
    ensures
        id == "menu_mode_"@ + mode_row_word(id),
        mode_row_word(id) == word,
        mode_word(word) == Some(mode),
        mode_selection_spec(id) == Some(mode),
        mode_selection_spec(upper(word)) == Some(mode),
        mode_word(title) is Some ==> mode_word(title) == Some(mode),
        menu_selection_spec(id) == MenuSelection::PickMode(mode),
{
    reveal_strlit("menu_list");
    reveal_strlit("menu_switch");
    reveal_strlit("menu_set_mode");
    reveal_strlit("menu_set_language");
    reveal_strlit("menu_cancel");
    reveal_strlit("menu_start");
    reveal_strlit("menu_help");
    reveal_strlit("menu_review_vocab");
    reveal_strlit("mode_learner");
    reveal_strlit("mode_teacher");
    reveal_strlit("mode_exchange");
    reveal_strlit("mode_turns");
    reveal_strlit("menu_mode_");
    reveal_strlit("menu_mode_teacher");
    reveal_strlit("menu_mode_learner");
    reveal_strlit("menu_mode_exchange");
    reveal_strlit("menu_mode_turns");
    reveal_strlit("teacher");
    reveal_strlit("learner");
    reveal_strlit("exchange");
    reveal_strlit("turns");
    reveal_strlit("exchange-turns");
    reveal_strlit("exchange_turns");
    reveal_strlit("TEACHER");
    reveal_strlit("LEARNER");
    reveal_strlit("EXCHANGE");
    reveal_strlit("TURNS");
    reveal_strlit("EXCHANGE-TURNS");
    reveal_strlit("EXCHANGE_TURNS");
    reveal_strlit("Teacher");
    reveal_strlit("Learner");
    reveal_strlit("Exchange");
    reveal_strlit("Exchange (turns)");
    assert(id =~= "menu_mode_"@ + id.skip(10));
    assert(id.skip(10) =~= word);
    assert(lower(word) =~= word);
    assert(upper(word) =~= capitals);
    assert(trim(id) == id);
    assert(trim(capitals) == capitals);
    assert(id[5] == 'm' && MAIN_SET_LANGUAGE@[5] == 's' && MAIN_REVIEW_VOCAB@[5] == 'r');
    if mode == ConversationModeSetting::ExchangeTurns {
        assert(lower(title).len() == 16);
    } else {
        assert(lower(title) =~= word);
    }
}

/// The rows of the mode menu.
pub fn mode_menu_rows() -> (r: Vec<MenuRow>)
    ensures
        rows_view(r@) == mode_menu_rows_spec(),
{
    let mut r: Vec<MenuRow> = Vec::new();
    r.push(row(MODE_LEARNER, "Learner", "You practice, partner teaches"));
    r.push(row(MODE_TEACHER, "Teacher", "You teach, partner practices"));
    r.push(row(MODE_EXCHANGE, "Exchange", "Write in your learning language"));
    r.push(row(MODE_TURNS, "Exchange (turns)", "Alternate languages each round"));
    assert(rows_view(r@) =~= mode_menu_rows_spec());
    r
}

/// The body above the main menu's rows.
pub open spec fn main_menu_body_spec(summary: Seq<char>) -> Seq<char> {
    summary + "\n\nPick an action below."@
}

pub fn main_menu_body(summary: &str) -> (r: String)
    ensures
        r@ == main_menu_body_spec(summary@),
{
    let mut r = String::from_str(summary);
    r.append("\n\nPick an action below.");
    r
}

pub open spec fn mode_menu_body_spec(partner: Seq<char>) -> Seq<char> {
    "Choose a mode for your chat with "@ + partner + "."@
}

pub fn mode_menu_body(partner: &str) -> (r: String)
    ensures
        r@ == mode_menu_body_spec(partner@),
{
    let mut r = String::from_str("Choose a mode for your chat with ");
    r.append(partner);
    r.append(".");
    r
}

pub open spec fn language_question_spec(partner: Seq<char>) -> Seq<char> {
    "What language should your chat with "@ + partner + " use? (e.g. Norwegian)"@
}

pub fn language_question(partner: &str) -> (r: String)
    ensures
        r@ == language_question_spec(partner@),
{
    let mut r = String::from_str("What language should your chat with ");
    r.append(partner);
    r.append(" use? (e.g. Norwegian)");
    r
}

// ---------------------------------------------------------------------------
// Conversation rows
// ---------------------------------------------------------------------------

/// A conversation row's title before it is cut to 24 bytes.
pub open spec fn row_title_full(index: nat, l: ConversationListing) -> Seq<char> {
    let t = decimal(index) + ". "@ + listing_partner_spec(l);
    if l.is_active {
        t.push('*')
    } else {
        t
    }
}

/// The row can be labelled without cutting a character in half.
pub open spec fn row_labels_cut_cleanly(index: nat, l: ConversationListing, viewer: Seq<char>) -> bool {
    cuts_cleanly(row_title_full(index, l), 24) && menu_description_cuts_cleanly(l, viewer)
}

pub open spec fn row_labels_spec(index: nat, l: ConversationListing, viewer: Seq<char>) -> (
    Seq<char>,
    Seq<char>,
) {
    (truncate_bytes(row_title_full(index, l), 24), listing_menu_description_spec(l, viewer))
}

/// The title (at most 24 bytes) and description of a conversation row.
/// Whether a conversation row's title and description can be cut to their
/// limits (what `listing_menu_labels_owned` needs).
pub fn row_labels_fit(index: usize, listing: &ConversationListing, viewer_phone: &str) -> (r: bool)
    ensures
        r == row_labels_cut_cleanly(index as nat, *listing, viewer_phone@),
{
    let partner = format_listing_partner(listing);
    let mut title = string_of(&usize_text(index));
    title.append(". ");
    title.append(partner.as_str());
    let mut t = chars_of(title.as_str());
    if listing.is_active {
        t.push('*');
    }
    if !crate::text::cuts_at(&t, 24) {
        return false;
    }
    crate::conversations::menu_description_fits(listing, viewer_phone)
}

pub fn listing_menu_labels_owned(index: usize, listing: &ConversationListing, viewer_phone: &str) -> (r:
    (String, String))
    requires
        row_labels_cut_cleanly(index as nat, *listing, viewer_phone@),
    ensures
        (r.0@, r.1@) == row_labels_spec(index as nat, *listing, viewer_phone@),
{
    let partner = format_listing_partner(listing);
    let mut title = string_of(&usize_text(index));
    title.append(". ");
    title.append(partner.as_str());
    let mut t = chars_of(title.as_str());
    if listing.is_active {
        t.push('*');
    }
    let cut = truncate_to_bytes(&t, 24);
    let description = format_listing_menu_description(listing, viewer_phone);
    (string_of(&cut), description)
}

pub open spec fn conversation_row_id_spec(index: nat) -> Seq<char> {
    CONV_PREFIX@ + decimal(index)
}

pub open spec fn conversation_rows_spec(ls: Seq<ConversationListing>, viewer: Seq<char>) -> Seq<
    (Seq<char>, Seq<char>, Seq<char>),
> {
    Seq::new(
        ls.len(),
        |i: int|
            {
                let (title, description) = row_labels_spec((i + 1) as nat, ls[i], viewer);
                (conversation_row_id_spec((i + 1) as nat), title, description)
            },
    )
}

/// Tapping a row of the conversation menu picks the conversation that row
/// shows: its id reads back as the row's number, which chooses that listing.
pub proof fn lemma_conversation_row_picks_listing(ls: Seq<ConversationListing>, viewer: Seq<char>, i: int)
    requires
        0 <= i < ls.len(),
        ls.len() <= usize::MAX,
    ensures
        conversation_selection_spec(conversation_rows_spec(ls, viewer)[i].0, ls.len() as usize)
            == Some((i + 1) as usize),
        choose_listing_spec(ls, Some((i + 1) as usize)) == ListingChoice::Chosen(i as usize),
{
    reveal_strlit("menu_conv_");
    let id = conversation_row_id_spec((i + 1) as nat);
    assert(id.take(10) =~= CONV_PREFIX@);
    assert(id.skip(10) =~= decimal((i + 1) as nat));
    crate::text::lemma_decimal_parses_usize((i + 1) as usize);
}

/// The rows of the conversation menu, numbered from 1.
pub fn conversation_menu_rows(listings: &Vec<ConversationListing>, phone: &str) -> (r: Vec<MenuRow>)
    requires
        forall|i: int|
            0 <= i < listings.len() ==> row_labels_cut_cleanly(
                (i + 1) as nat,
                #[trigger] listings@[i],
                digits_only(phone@),
            ),
    ensures
        rows_view(r@) == conversation_rows_spec(listings@, digits_only(phone@)),
{
    let viewer = crate::phone::normalize_phone(phone);
    let ghost target = conversation_rows_spec(listings@, viewer@);
    let mut r: Vec<MenuRow> = Vec::new();
    let mut i: usize = 0;
    while i < listings.len()
        invariant
            i <= listings.len(),
            viewer@ == digits_only(phone@),
            target == conversation_rows_spec(listings@, viewer@),
            forall|k: int|
                0 <= k < listings.len() ==> row_labels_cut_cleanly(
                    (k + 1) as nat,
                    #[trigger] listings@[k],
                    digits_only(phone@),
                ),
            rows_view(r@) == target.take(i as int),
        decreases listings.len() - i,
    {
        let mut id = String::from_str(CONV_PREFIX);
        append_chars(&mut id, &usize_text(i + 1));
        let (title, description) = listing_menu_labels_owned(i + 1, &listings[i], viewer.as_str());
        let ghost before = rows_view(r@);
        r.push(MenuRow { id, title, description });
        assert(rows_view(r@) =~= before.push(target[i as int]));
        assert(target.take(i as int + 1) =~= target.take(i as int).push(target[i as int]));
        i = i + 1;
    }
    assert(target.take(listings.len() as int) =~= target);
    r
}

pub open spec fn pick_body_spec(action: MenuAction) -> Seq<char> {
    match action {
        MenuAction::Switch => "Which conversation do you want to switch to?"@,
        MenuAction::SetMode => "Which conversation do you want to change mode on?"@,
        MenuAction::SetLanguage => "Which conversation do you want to set language on?"@,
        MenuAction::Cancel => "Which invite do you want to cancel?"@,
    }
}

/// The question above the conversation menu.
pub fn pick_body(action: MenuAction) -> (r: &'static str)
    ensures
        r@ == pick_body_spec(action),
{
    match action {
        MenuAction::Switch => "Which conversation do you want to switch to?",
        MenuAction::SetMode => "Which conversation do you want to change mode on?",
        MenuAction::SetLanguage => "Which conversation do you want to set language on?",
        MenuAction::Cancel => "Which invite do you want to cancel?",
    }
}

pub open spec fn text_list_intro(action: MenuAction) -> Seq<char> {
    if action == MenuAction::Cancel {
        "You have more than 10 pending invites. "@
    } else {
        "You have more than 10 conversations. "@
    }
}

pub open spec fn conversation_text_list_spec(
    ls: Seq<ConversationListing>,
    phone: Seq<char>,
    action: MenuAction,
) -> Seq<char> {
    join(
        seq![text_list_intro(action), "Your conversations:"@] + Seq::new(
            ls.len(),
            |i: int| listing_line_spec((i + 1) as nat, ls[i], digits_only(phone)),
        ) + seq![seq![], "Reply with the number of your choice."@, "Reply MENU to start over."@],
        "\n"@,
    )
}

fn push_line(lines: &mut Vec<Vec<char>>, s: &str)
    ensures
        views(final(lines)@) == views(old(lines)@).push(s@),
{
    let ghost before = views(lines@);
    lines.push(chars_of(s));
    assert(views(lines@) =~= before.push(s@));
}

/// The numbered list offered instead of a menu when there are more than 10 conversations.
pub fn conversation_text_list(
    listings: &Vec<ConversationListing>,
    phone: &str,
    action: MenuAction,
) -> (r: String)
    ensures
        r@ == conversation_text_list_spec(listings@, phone@, action),
{
    let viewer = crate::phone::normalize_phone(phone);
    let ghost numbered = Seq::new(
        listings@.len(),
        |i: int| listing_line_spec((i + 1) as nat, listings@[i], viewer@),
    );
    let mut lines: Vec<Vec<char>> = Vec::new();
    assert(views(lines@) =~= Seq::<Seq<char>>::empty());
    if action == MenuAction::Cancel {
        push_line(&mut lines, "You have more than 10 pending invites. ");
    } else {
        push_line(&mut lines, "You have more than 10 conversations. ");
    }
    push_line(&mut lines, "Your conversations:");
    let ghost head = views(lines@);
    let mut i: usize = 0;
    while i < listings.len()
        invariant
            i <= listings.len(),
            viewer@ == digits_only(phone@),
            numbered == Seq::new(
                listings@.len(),
                |i: int| listing_line_spec((i + 1) as nat, listings@[i], viewer@),
            ),
            views(lines@) == head + numbered.take(i as int),
        decreases listings.len() - i,
    {
        let line = format_listing_line(i + 1, &listings[i], viewer.as_str());
        let ghost before = views(lines@);
        lines.push(chars_of(line.as_str()));
        assert(views(lines@) =~= before.push(numbered[i as int]));
        assert(numbered.take(i as int + 1) =~= numbered.take(i as int).push(numbered[i as int]));
        i = i + 1;
    }
    assert(numbered.take(listings.len() as int) =~= numbered);
    push_line(&mut lines, "");
    push_line(&mut lines, "Reply with the number of your choice.");
    push_line(&mut lines, "Reply MENU to start over.");
    proof {
        reveal_strlit("");
        assert(""@ =~= Seq::<char>::empty());
    }
    assert(views(lines@) =~= seq![text_list_intro(action), "Your conversations:"@] + numbered
        + seq![seq![], "Reply with the number of your choice."@, "Reply MENU to start over."@]);
    string_of(&join_words(&lines, "\n"))
}

// ---------------------------------------------------------------------------
// Starting a pick
// ---------------------------------------------------------------------------

/// How a menu action offers the conversations it chooses from.
pub enum PickPlan {
    /// Nothing to choose from: reply with this text.
    Nothing(String),
    /// A single conversation: act on it at once (selection 1).
    Single,
    /// Up to 10: show the conversation menu and wait for a row.
    Menu,
    /// More than 10: send the numbered text list and wait for a number.
    TextList,
}

pub open spec fn nothing_to_pick_text(action: MenuAction) -> Seq<char> {
    if action == MenuAction::Cancel {
        "You don't have any pending invites to cancel."@
    } else {
        "You don't have any conversations yet. Use Start new to create one."@
    }
}

pub open spec fn pick_plan_spec(count: nat, action: MenuAction) -> Result<int, Seq<char>> {
    if count == 0 {
        Err(nothing_to_pick_text(action))
    } else if count == 1 {
        Ok(0)
    } else if count <= 10 {
        Ok(1)
    } else {
        Ok(2)
    }
}

/// How to offer `count` conversations for a menu action.
pub fn plan_conversation_pick(count: usize, action: MenuAction) -> (r: PickPlan)
    ensures
        match pick_plan_spec(count as nat, action) {
            Err(text) => r is Nothing && r->Nothing_0@ == text,
            Ok(k) => (k == 0 ==> r is Single) && (k == 1 ==> r is Menu) && (k == 2 ==> r is TextList),
        },
{
    if count == 0 {
        if action == MenuAction::Cancel {
            PickPlan::Nothing(String::from_str("You don't have any pending invites to cancel."))
        } else {
            PickPlan::Nothing(
                String::from_str("You don't have any conversations yet. Use Start new to create one."),
            )
        }
    } else if count == 1 {
        PickPlan::Single
    } else if count <= MAX_MENU_CONVERSATIONS {
        PickPlan::Menu
    } else {
        PickPlan::TextList
    }
}

/// The chat that "Set mode" and "Set language" act on (the active one, or
/// the only one), or the reply that refuses.
pub open spec fn menu_active_listing_spec(ls: Seq<ConversationListing>, phone: Seq<char>) -> Result<
    nat,
    Seq<char>,
> {
    if ls.len() == 0 {
        Err("You don't have any conversations yet. Use Start new to create one."@)
    } else {
        match default_listing(ls) {
            None => Err("No active chat. Use Switch chat first, then try again."@),
            Some(i) => if listing_is_broken_spec(ls[i as int], digits_only(phone)) {
                Err("Your active chat is invalid. Cancel it from the menu first."@)
            } else if ls[i as int].is_pending {
                Err("Your active chat is still waiting for your partner to accept."@)
            } else {
                Ok(i)
            },
        }
    }
}

/// The chat that "Set mode" and "Set language" act on, or the refusal.
pub fn menu_active_listing(listings: &Vec<ConversationListing>, phone: &str) -> (r: Result<
    usize,
    String,
>)
    ensures
        match menu_active_listing_spec(listings@, phone@) {
            Ok(i) => r == Ok::<usize, String>(i as usize),
            Err(text) => r is Err && r->Err_0@ == text,
        },
{
    if listings.len() == 0 {
        return Err(
            String::from_str("You don't have any conversations yet. Use Start new to create one."),
        );
    }
    proof {
        crate::conversations::lemma_first_active_found(listings@, 0);
    }
    match choose_listing(listings, None) {
        ListingChoice::Chosen(i) => {
            let viewer = crate::phone::normalize_phone(phone);
            if listing_is_broken(&listings[i], viewer.as_str()) {
                Err(String::from_str("Your active chat is invalid. Cancel it from the menu first."))
            } else if listings[i].is_pending {
                Err(String::from_str("Your active chat is still waiting for your partner to accept."))
            } else {
                Ok(i)
            }
        },
        _ => Err(String::from_str("No active chat. Use Switch chat first, then try again.")),
    }
}

// ---------------------------------------------------------------------------
// Replies while a menu session is open
// ---------------------------------------------------------------------------

/// What a typed reply does while a menu session waits for input.
pub enum MenuReply {
    /// `MENU`: close the session and show the main menu again.
    Restart,
    /// Reply with this text; the session stays.
    Invalid(String),
    /// Close the session and act on conversation `n` (1-based) of the action's list.
    Conversation(usize),
    /// Close the session and change the active chat's mode.
    SetMode(ConversationModeSetting),
    /// Close the session and set the active chat's language to this text.
    SetLanguage(String),
    /// The flashcard review handles the reply.
    Flashcards,
}

/// What a typed reply does in a menu session at `step`; `count` is the
/// number of conversations the session's action offers.
pub fn menu_reply(step: MenuStep, text: &str, count: usize) -> (r: MenuReply)
    ensures
        is_menu_command_spec(text@) ==> r is Restart,
        !is_menu_command_spec(text@) ==> match step {
            MenuStep::PickConversation => match conversation_selection_spec(text@, count) {
                Some(n) => r == MenuReply::Conversation(n),
                None => r is Invalid && r->Invalid_0@
                    == "Invalid selection. Reply MENU to start over."@,
            },
            MenuStep::PickMode => match mode_selection_spec(text@) {
                Some(m) => r == MenuReply::SetMode(m),
                None => r is Invalid && r->Invalid_0@
                    == "Invalid selection. Reply MENU to start over."@,
            },
            MenuStep::AwaitLanguage => r is SetLanguage && r->SetLanguage_0@ == trim(text@),
            MenuStep::FlashcardReview => r is Flashcards,
        },
{
    if is_menu_command(text) {
        return MenuReply::Restart;
    }
    match step {
        MenuStep::PickConversation => match parse_conversation_selection(text, count) {
            Some(n) => MenuReply::Conversation(n),
            None => MenuReply::Invalid(
                String::from_str("Invalid selection. Reply MENU to start over."),
            ),
        },
        MenuStep::PickMode => match parse_mode_selection(text) {
            Some(m) => MenuReply::SetMode(m),
            None => MenuReply::Invalid(
                String::from_str("Invalid selection. Reply MENU to start over."),
            ),
        },
        MenuStep::AwaitLanguage => MenuReply::SetLanguage(string_of(&trimmed(text))),
        MenuStep::FlashcardReview => MenuReply::Flashcards,
    }
}

} // verus!
