//! A user's conversations: how each one is described in lists and menus, the
//! text commands that act on them (LIST, SWITCH, SET MODE, SET LANGUAGE,
//! CANCEL, ...), and the decisions those commands make.

use vstd::prelude::*;
use crate::db::{
    ConversationListing, ConversationMode, ConversationModeSetting, ConversationTurnStatus,
    ParticipantRole, turn_label,
};
use crate::phone::{
    contact_label, contact_label_spec, digits_only, looks_like_phone, looks_like_phone_spec,
    phones_match,
};
use crate::text::{
    append_chars, chars_of, cuts_cleanly, eq_ignore_case, eq_ignore_case_str, i64_text,
    int_decimal, join, join_words, lower, opt_chars, parse_i64, parse_i64_spec, parse_usize,
    parse_usize_spec, shorten, shorten_chars, split_words, string_of, strip_prefix,
    strip_prefix_chars, to_lower, to_upper, trim, trim_chars, trimmed, truncate_bytes,
    truncate_to_bytes, upper, views, words, chars_eq_str, decimal, usize_text,
};

verus! {

// ---------------------------------------------------------------------------
// Describing a conversation
// ---------------------------------------------------------------------------

pub open spec fn language_name_spec(language: Seq<char>) -> Seq<char> {
    if looks_like_phone_spec(language) {
        "(invalid — use SET LANGUAGE)"@
    } else {
        language
    }
}

/// A listing is broken when its partner is the viewer themself.
pub open spec fn listing_is_broken_spec(l: ConversationListing, viewer: Seq<char>) -> bool {
    match l.partner_phone {
        Some(p) => digits_only(p@) == digits_only(viewer),
        None => false,
    }
}

pub open spec fn listing_partner_spec(l: ConversationListing) -> Seq<char> {
    match l.partner_phone {
        Some(p) => contact_label_spec(p@, opt_chars(l.partner_display_name)),
        None => "unknown"@,
    }
}

pub open spec fn optional_language(o: Option<Seq<char>>, missing: Seq<char>) -> Seq<char> {
    match o {
        Some(l) => language_name_spec(l),
        None => missing,
    }
}

pub open spec fn exchange_role_desc_spec(l: ConversationListing, turns: bool) -> Seq<char> {
    let yours = optional_language(opt_chars(l.learning_language), "unknown"@);
    let partners = optional_language(opt_chars(l.partner_learning_language), "?"@);
    if turns {
        "Exchange (turns) — you learn "@ + yours + ", partner learns "@ + partners
            + "; alternate languages each round"@
    } else {
        "Exchange — you learn "@ + yours + ", partner learns "@ + partners
            + "; always write in your language"@
    }
}

pub open spec fn listing_role_desc_spec(l: ConversationListing) -> Seq<char> {
    match l.mode {
        ConversationMode::Exchange => exchange_role_desc_spec(l, false),
        ConversationMode::ExchangeTurns => exchange_role_desc_spec(l, true),
        ConversationMode::Tutor => match l.role {
            ParticipantRole::Teacher => "You teach "@ + language_name_spec(l.target_language@),
            ParticipantRole::Learner => "You learn "@ + language_name_spec(l.target_language@),
        },
    }
}

pub open spec fn listing_awaits_user_reply_spec(l: ConversationListing, viewer: Seq<char>) -> bool {
    if l.is_pending || listing_is_broken_spec(l, viewer) {
        false
    } else {
        match l.turn {
            Some(ConversationTurnStatus::YourTurnToReply) => true,
            Some(ConversationTurnStatus::YourTurnToSend) => l.mode == ConversationMode::ExchangeTurns
                || (l.mode == ConversationMode::Tutor && l.role == ParticipantRole::Teacher),
            _ => false,
        }
    }
}

pub open spec fn show_partner_last_message_spec(l: ConversationListing) -> bool {
    match l.turn {
        Some(ConversationTurnStatus::YourTurnToReply) => true,
        Some(ConversationTurnStatus::YourTurnToSend) => l.mode == ConversationMode::ExchangeTurns,
        _ => false,
    }
}

pub open spec fn listing_status_text_spec(l: ConversationListing) -> Seq<char> {
    if l.is_pending {
        "waiting for partner"@
    } else {
        match l.turn {
            Some(t) => turn_label(t),
            None => seq![],
        }
    }
}

/// Role and status, as one line of at most 72 bytes.
pub open spec fn menu_description_full(l: ConversationListing) -> Seq<char> {
    let status = listing_status_text_spec(l);
    if status.len() == 0 {
        listing_role_desc_spec(l)
    } else {
        listing_role_desc_spec(l) + ", "@ + status
    }
}

pub open spec fn listing_menu_description_spec(l: ConversationListing, viewer: Seq<char>) -> Seq<
    char,
> {
    if listing_is_broken_spec(l, viewer) {
        "Invalid invite"@
    } else {
        truncate_bytes(menu_description_full(l), 72)
    }
}

/// The description can be cut at 72 bytes (the cases in which the
/// description is built at all).
pub open spec fn menu_description_cuts_cleanly(l: ConversationListing, viewer: Seq<char>) -> bool {
    listing_is_broken_spec(l, viewer) || cuts_cleanly(menu_description_full(l), 72)
}

pub open spec fn active_chat_summary_spec(l: ConversationListing, viewer: Seq<char>) -> Seq<char> {
    let partner = listing_partner_spec(l);
    if listing_is_broken_spec(l, viewer) {
        "Current chat: "@ + partner + "\nInvalid invite — cancel it from the menu."@
    } else if l.is_pending {
        "Current chat: "@ + partner + "\nWaiting for partner to accept."@
    } else {
        let status = listing_status_text_spec(l);
        if status.len() == 0 {
            "Current chat: "@ + partner + "\n"@ + listing_role_desc_spec(l)
        } else {
            "Current chat: "@ + partner + "\n"@ + listing_role_desc_spec(l) + "\n"@ + status
        }
    }
}

/// The bracketed tags after a conversation in the LIST output.
pub open spec fn status_tags(l: ConversationListing) -> Seq<Seq<char>> {
    let active: Seq<Seq<char>> = if l.is_active {
        seq!["active"@]
    } else {
        seq![]
    };
    let rest: Seq<Seq<char>> = if l.is_pending {
        seq!["waiting for partner"@]
    } else if l.mode == ConversationMode::ExchangeTurns {
        match l.exchange_active_language {
            Some(lang) => match l.turn {
                Some(ConversationTurnStatus::YourTurnToSend) => seq![
                    "your turn — write in "@ + lang@,
                ],
                Some(ConversationTurnStatus::WaitingForMessage) => seq![
                    "waiting — current language: "@ + lang@,
                ],
                _ => seq!["current language: "@ + lang@],
            },
            None => seq![],
        }
    } else {
        match l.turn {
            Some(t) => seq![turn_label(t)],
            None => seq![],
        }
    };
    active + rest
}

pub open spec fn listing_status_spec(l: ConversationListing) -> Seq<char> {
    let tags = status_tags(l);
    if tags.len() == 0 {
        seq![]
    } else {
        " ["@ + join(tags, ", "@) + "]"@
    }
}

pub open spec fn listing_line_spec(index: nat, l: ConversationListing, viewer: Seq<char>) -> Seq<
    char,
> {
    let head = decimal(index) + ". "@ + listing_role_desc_spec(l) + " — partner: "@
        + listing_partner_spec(l);
    if listing_is_broken_spec(l, viewer) {
        head + " [invalid — reply CANCEL "@ + decimal(index) + "]"@
    } else {
        head + listing_status_spec(l)
    }
}

pub open spec fn chat_label_spec(
    role: ParticipantRole,
    language: Seq<char>,
    partner_phone: Seq<char>,
    partner_name: Option<Seq<char>>,
) -> Seq<char> {
    let lang = language_name_spec(language);
    let partner = contact_label_spec(partner_phone, partner_name);
    match role {
        ParticipantRole::Learner => lang + " with "@ + partner,
        ParticipantRole::Teacher => "teaching "@ + lang + " to "@ + partner,
    }
}

fn format_language_name(language: &str) -> (r: String)
    ensures
        r@ == language_name_spec(language@),
{
    if looks_like_phone(language) {
        String::from_str("(invalid — use SET LANGUAGE)")
    } else {
        String::from_str(language)
    }
}

fn optional_language_name(o: &Option<String>, missing: &str) -> (r: String)
    ensures
        r@ == optional_language(opt_chars(*o), missing@),
{
    match o {
        Some(l) => format_language_name(l.as_str()),
        None => String::from_str(missing),
    }
}

/// Whether the listing's partner is the viewer themself (an invite sent to
/// one's own number).
pub fn listing_is_broken(listing: &ConversationListing, viewer_phone: &str) -> (r: bool)
    ensures
        r == listing_is_broken_spec(*listing, viewer_phone@),
{
    match &listing.partner_phone {
        Some(p) => phones_match(p.as_str(), viewer_phone),
        None => false,
    }
}

/// The partner's label, or `unknown`.
pub fn format_listing_partner(listing: &ConversationListing) -> (r: String)
    ensures
        r@ == listing_partner_spec(*listing),
{
    match &listing.partner_phone {
        Some(p) => {
            let name: Option<&str> = match &listing.partner_display_name {
                Some(n) => Some(n.as_str()),
                None => None,
            };
            contact_label(p.as_str(), name)
        },
        None => String::from_str("unknown"),
    }
}

fn format_exchange_role_desc(listing: &ConversationListing, turns: bool) -> (r: String)
    ensures
        r@ == exchange_role_desc_spec(*listing, turns),
{
    let yours = optional_language_name(&listing.learning_language, "unknown");
    let partners = optional_language_name(&listing.partner_learning_language, "?");
    let mut r = if turns {
        String::from_str("Exchange (turns) — you learn ")
    } else {
        String::from_str("Exchange — you learn ")
    };
    r.append(yours.as_str());
    r.append(", partner learns ");
    r.append(partners.as_str());
    if turns {
        r.append("; alternate languages each round");
    } else {
        r.append("; always write in your language");
    }
    r
}

/// What the viewer does in the conversation, and in which language.
pub fn format_listing_role_desc(listing: &ConversationListing) -> (r: String)
    ensures
        r@ == listing_role_desc_spec(*listing),
{
    match listing.mode {
        ConversationMode::Exchange => format_exchange_role_desc(listing, false),
        ConversationMode::ExchangeTurns => format_exchange_role_desc(listing, true),
        ConversationMode::Tutor => {
            let language = format_language_name(listing.target_language.as_str());
            let mut r = match listing.role {
                ParticipantRole::Teacher => String::from_str("You teach "),
                ParticipantRole::Learner => String::from_str("You learn "),
            };
            r.append(language.as_str());
            r
        },
    }
}

/// Whether the conversation is waiting for the viewer to write.
pub fn listing_awaits_user_reply(listing: &ConversationListing, viewer_phone: &str) -> (r: bool)
    ensures
        r == listing_awaits_user_reply_spec(*listing, viewer_phone@),
{
    if listing.is_pending || listing_is_broken(listing, viewer_phone) {
        return false;
    }
    match listing.turn {
        Some(ConversationTurnStatus::YourTurnToReply) => true,
        Some(ConversationTurnStatus::YourTurnToSend) => {
            listing.mode == ConversationMode::ExchangeTurns || (listing.mode
                == ConversationMode::Tutor && listing.role == ParticipantRole::Teacher)
        },
        _ => false,
    }
}

/// Whether switching to the conversation should quote the partner's last message.
pub fn listing_should_show_partner_last_message(listing: &ConversationListing) -> (r: bool)
    ensures
        r == show_partner_last_message_spec(*listing),
{
    match listing.turn {
        Some(ConversationTurnStatus::YourTurnToReply) => true,
        Some(ConversationTurnStatus::YourTurnToSend) => listing.mode
            == ConversationMode::ExchangeTurns,
        _ => false,
    }
}

/// `waiting for partner`, the turn's label, or nothing.
pub fn format_listing_status_text(listing: &ConversationListing) -> (r: String)
    ensures
        r@ == listing_status_text_spec(*listing),
{
    if listing.is_pending {
        String::from_str("waiting for partner")
    } else {
        match listing.turn {
            Some(t) => String::from_str(t.label()),
            None => String::new(),
        }
    }
}

fn menu_description_untruncated(listing: &ConversationListing) -> (r: Vec<char>)
    ensures
        r@ == menu_description_full(*listing),
{
    let mut description = format_listing_role_desc(listing);
    let status = format_listing_status_text(listing);
    if !status.as_str().is_empty() {
        description.append(", ");
        description.append(status.as_str());
    }
    chars_of(description.as_str())
}

/// Whether a listing's menu description can be cut to 72 bytes (what
/// `format_listing_menu_description` needs).
pub fn menu_description_fits(listing: &ConversationListing, viewer_phone: &str) -> (r: bool)
    ensures
        r == menu_description_cuts_cleanly(*listing, viewer_phone@),
{
    if listing_is_broken(listing, viewer_phone) {
        return true;
    }
    let full = menu_description_untruncated(listing);
    crate::text::cuts_at(&full, 72)
}

/// The description under a conversation in a menu row (at most 72 bytes).
pub fn format_listing_menu_description(listing: &ConversationListing, viewer_phone: &str) -> (r:
    String)
    requires
        menu_description_cuts_cleanly(*listing, viewer_phone@),
    ensures
        r@ == listing_menu_description_spec(*listing, viewer_phone@),
{
    if listing_is_broken(listing, viewer_phone) {
        return String::from_str("Invalid invite");
    }
    let full = menu_description_untruncated(listing);
    let cut = truncate_to_bytes(&full, 72);
    string_of(&cut)
}

/// The summary of the active chat at the top of the menu.
pub fn format_active_chat_summary(listing: &ConversationListing, viewer_phone: &str) -> (r: String)
    ensures
        r@ == active_chat_summary_spec(*listing, viewer_phone@),
{
    let partner = format_listing_partner(listing);
    let mut r = String::from_str("Current chat: ");
    r.append(partner.as_str());
    if listing_is_broken(listing, viewer_phone) {
        r.append("\nInvalid invite — cancel it from the menu.");
        return r;
    }
    if listing.is_pending {
        r.append("\nWaiting for partner to accept.");
        return r;
    }
    let role_desc = format_listing_role_desc(listing);
    let status = format_listing_status_text(listing);
    r.append("\n");
    r.append(role_desc.as_str());
    if !status.as_str().is_empty() {
        r.append("\n");
        r.append(status.as_str());
    }
    r
}

fn push_text(v: &mut Vec<Vec<char>>, s: &String)
    ensures
        views(final(v)@) == views(old(v)@).push(s@),
{
    let ghost before = views(v@);
    v.push(chars_of(s.as_str()));
    assert(views(v@) =~= before.push(s@));
}

fn format_listing_status(listing: &ConversationListing) -> (r: String)
    ensures
        r@ == listing_status_spec(*listing),
{
    let mut tags: Vec<Vec<char>> = Vec::new();
    assert(views(tags@) =~= Seq::<Seq<char>>::empty());
    if listing.is_active {
        push_text(&mut tags, &String::from_str("active"));
    }
    let ghost after_active = views(tags@);
    if listing.is_pending {
        push_text(&mut tags, &String::from_str("waiting for partner"));
    } else if listing.mode == ConversationMode::ExchangeTurns {
        if let Some(language) = &listing.exchange_active_language {
            let mut tag = match listing.turn {
                Some(ConversationTurnStatus::YourTurnToSend) => String::from_str(
                    "your turn — write in ",
                ),
                Some(ConversationTurnStatus::WaitingForMessage) => String::from_str(
                    "waiting — current language: ",
                ),
                _ => String::from_str("current language: "),
            };
            tag.append(language.as_str());
            push_text(&mut tags, &tag);
        }
    } else if let Some(turn) = listing.turn {
        push_text(&mut tags, &String::from_str(turn.label()));
    }
    assert(views(tags@) =~= status_tags(*listing));
    if tags.len() == 0 {
        String::new()
    } else {
        let mut r = String::from_str(" [");
        let joined = join_words(&tags, ", ");
        append_chars(&mut r, &joined);
        r.append("]");
        r
    }
}

/// One numbered line of the LIST output.
pub fn format_listing_line(index: usize, listing: &ConversationListing, viewer_phone: &str) -> (r:
    String)
    ensures
        r@ == listing_line_spec(index as nat, *listing, viewer_phone@),
{
    let partner = format_listing_partner(listing);
    let role_desc = format_listing_role_desc(listing);
    let status = format_listing_status(listing);
    let number = usize_text(index);
    let mut r = string_of(&number);
    r.append(". ");
    r.append(role_desc.as_str());
    r.append(" — partner: ");
    r.append(partner.as_str());
    if listing_is_broken(listing, viewer_phone) {
        r.append(" [invalid — reply CANCEL ");
        append_chars(&mut r, &number);
        r.append("]");
    } else {
        r.append(status.as_str());
    }
    r
}

/// How a chat is named when the bot switches someone to it.
pub fn format_chat_label(
    role: ParticipantRole,
    language: &str,
    partner_phone: &str,
    partner_display_name: Option<&str>,
) -> (r: String)
    ensures
        r@ == chat_label_spec(
            role,
            language@,
            partner_phone@,
            crate::text::opt_str_chars(partner_display_name),
        ),
{
    let language = format_language_name(language);
    let partner = contact_label(partner_phone, partner_display_name);
    match role {
        ParticipantRole::Learner => {
            let mut r = language;
            r.append(" with ");
            r.append(partner.as_str());
            r
        },
        ParticipantRole::Teacher => {
            let mut r = String::from_str("teaching ");
            r.append(language.as_str());
            r.append(" to ");
            r.append(partner.as_str());
            r
        },
    }
}

/// At most `max_len` characters of `text`, with `…` when it was longer.
pub fn truncate_for_display(text: &str, max_len: usize) -> (r: String)
    ensures
        r@ == shorten(text@, max_len as nat),
{
    let v = chars_of(text);
    string_of(&shorten_chars(&v, max_len))
}

// ---------------------------------------------------------------------------
// Text commands
// ---------------------------------------------------------------------------

pub struct SetLanguageCommand {
    pub index: Option<usize>,
    pub language: String,
}

pub struct SetModeCommand {
    pub index: Option<usize>,
    pub mode: ConversationModeSetting,
}

pub enum StartConversationCommand {
    Tutor(ParticipantRole),
    Exchange(ConversationMode),
}

/// `SET LANGUAGE <name>` or `SET <number> <name>` (words compared without
/// regard to ASCII case; `SET MODE ...` is not a language command).
pub open spec fn parse_set_language_spec(text: Seq<char>) -> Option<(Option<usize>, Seq<char>)> {
    let w = words(text);
    if w.len() < 2 || !eq_ignore_case(w[0], "SET"@) {
        None
    } else if eq_ignore_case(w[1], "MODE"@) {
        None
    } else if w.len() >= 3 && eq_ignore_case(w[1], "LANGUAGE"@) {
        Some((None, join(w.skip(2), " "@)))
    } else {
        match parse_usize_spec(w[1]) {
            Some(i) => if w.len() < 3 {
                None
            } else {
                Some((Some(i), join(w.skip(2), " "@)))
            },
            None => None,
        }
    }
}

pub open spec fn mode_word(w: Seq<char>) -> Option<ConversationModeSetting> {
    let l = lower(w);
    if l == "teacher"@ {
        Some(ConversationModeSetting::Teacher)
    } else if l == "learner"@ {
        Some(ConversationModeSetting::Learner)
    } else if l == "exchange"@ {
        Some(ConversationModeSetting::Exchange)
    } else if l == "exchange-turns"@ || l == "exchange_turns"@ || l == "turns"@ {
        Some(ConversationModeSetting::ExchangeTurns)
    } else {
        None
    }
}

/// `SET MODE [<number>] <mode>`.
pub open spec fn parse_set_mode_spec(text: Seq<char>) -> Option<SetModeCommand> {
    let w = words(text);
    if w.len() < 3 || !eq_ignore_case(w[0], "SET"@) || !eq_ignore_case(w[1], "MODE"@) {
        None
    } else {
        let index = parse_usize_spec(w[2]);
        let mode_at: int = if index is Some {
            3
        } else {
            2
        };
        if mode_at >= w.len() {
            None
        } else {
            match mode_word(w[mode_at]) {
                Some(mode) => Some(SetModeCommand { index, mode }),
                None => None,
            }
        }
    }
}

/// `<COMMAND> <number>` (the command word as given, case and all).
pub open spec fn numbered_command_spec(text: Seq<char>, command: Seq<char>) -> Option<usize> {
    match strip_prefix(trim(text), command) {
        Some(rest) => parse_usize_spec(trim(rest)),
        None => None,
    }
}

/// The trimmed text in upper case: how one-word commands are recognised.
pub open spec fn command_word(text: Seq<char>) -> Seq<char> {
    upper(trim(text))
}

pub open spec fn is_list_command_spec(text: Seq<char>) -> bool {
    command_word(text) == "LIST"@ || command_word(text) == "CONVERSATIONS"@
}

pub open spec fn is_help_command_spec(text: Seq<char>) -> bool {
    command_word(text) == "HELP"@ || command_word(text) == "COMMANDS"@
}

pub open spec fn start_command_spec(text: Seq<char>) -> Option<StartConversationCommand> {
    let w = command_word(text);
    if w == "LEARNER"@ {
        Some(StartConversationCommand::Tutor(ParticipantRole::Learner))
    } else if w == "TEACHER"@ {
        Some(StartConversationCommand::Tutor(ParticipantRole::Teacher))
    } else if w == "EXCHANGE"@ {
        Some(StartConversationCommand::Exchange(ConversationMode::Exchange))
    } else if w == "EXCHANGE-TURNS"@ || w == "EXCHANGE_TURNS"@ || w == "TURNS"@ {
        Some(StartConversationCommand::Exchange(ConversationMode::ExchangeTurns))
    } else {
        None
    }
}

fn words_from(ws: &Vec<Vec<char>>, from: usize) -> (r: Vec<Vec<char>>)
    requires
        from <= ws.len(),
    ensures
        views(r@) == views(ws@).skip(from as int),
{
    let mut r: Vec<Vec<char>> = Vec::new();
    let mut i: usize = from;
    while i < ws.len()
        invariant
            from <= i <= ws.len(),
            views(r@) == views(ws@).subrange(from as int, i as int),
        decreases ws.len() - i,
    {
        let ghost before = views(r@);
        let w = crate::text::slice_chars(&ws[i], 0, ws[i].len());
        assert(w@ =~= ws[i as int]@);
        r.push(w);
        assert(views(r@) =~= before.push(ws[i as int]@));
        assert(views(ws@).subrange(from as int, i as int + 1) =~= views(ws@).subrange(
            from as int,
            i as int,
        ).push(ws[i as int]@));
        i = i + 1;
    }
    assert(views(ws@).subrange(from as int, ws.len() as int) =~= views(ws@).skip(from as int));
    r
}

/// Parses `SET LANGUAGE <name>` / `SET <number> <name>`.
pub fn parse_set_language(text: &str) -> (r: Option<SetLanguageCommand>)
    ensures
        match parse_set_language_spec(text@) {
            Some((index, language)) => r is Some && r->0.index == index && r->0.language@
                == language,
            None => r is None,
        },
{
    let w = split_words(&chars_of(text));
    proof {
        assert(views(w@).len() == w@.len());
    }
    if w.len() < 2 || !eq_ignore_case_str(&w[0], "SET") {
        return None;
    }
    if eq_ignore_case_str(&w[1], "MODE") {
        return None;
    }
    if w.len() >= 3 && eq_ignore_case_str(&w[1], "LANGUAGE") {
        let rest = words_from(&w, 2);
        let language = string_of(&join_words(&rest, " "));
        return Some(SetLanguageCommand { index: None, language });
    }
    let index = match parse_usize(&w[1]) {
        Some(i) => i,
        None => return None,
    };
    if w.len() < 3 {
        return None;
    }
    let rest = words_from(&w, 2);
    let language = string_of(&join_words(&rest, " "));
    Some(SetLanguageCommand { index: Some(index), language })
}

fn parse_mode_word(w: &Vec<char>) -> (r: Option<ConversationModeSetting>)
    ensures
        r == mode_word(w@),
{
    let l = to_lower(w);
    if chars_eq_str(&l, "teacher") {
        Some(ConversationModeSetting::Teacher)
    } else if chars_eq_str(&l, "learner") {
        Some(ConversationModeSetting::Learner)
    } else if chars_eq_str(&l, "exchange") {
        Some(ConversationModeSetting::Exchange)
    } else if chars_eq_str(&l, "exchange-turns") || chars_eq_str(&l, "exchange_turns")
        || chars_eq_str(&l, "turns") {
        Some(ConversationModeSetting::ExchangeTurns)
    } else {
        None
    }
}

/// Parses `SET MODE [<number>] teacher|learner|exchange|exchange-turns`.
pub fn parse_set_mode(text: &str) -> (r: Option<SetModeCommand>)
    ensures
        r == parse_set_mode_spec(text@),
{
    let w = split_words(&chars_of(text));
    proof {
        assert(views(w@).len() == w@.len());
    }
    if w.len() < 3 || !eq_ignore_case_str(&w[0], "SET") || !eq_ignore_case_str(&w[1], "MODE") {
        return None;
    }
    let index = parse_usize(&w[2]);
    let mode_at: usize = if index.is_some() {
        3
    } else {
        2
    };
    if mode_at >= w.len() {
        return None;
    }
    match parse_mode_word(&w[mode_at]) {
        Some(mode) => Some(SetModeCommand { index, mode }),
        None => None,
    }
}

fn parse_numbered_command(text: &str, command: &str) -> (r: Option<usize>)
    ensures
        r == numbered_command_spec(text@, command@),
{
    let t = trimmed(text);
    match strip_prefix_chars(&t, command) {
        Some(rest) => parse_usize(&trim_chars(&rest)),
        None => None,
    }
}

/// `SWITCH <number>`.
pub fn parse_switch_selection(text: &str) -> (r: Option<usize>)
    ensures
        r == numbered_command_spec(text@, "SWITCH"@),
{
    parse_numbered_command(text, "SWITCH")
}

/// `CANCEL <number>`.
pub fn parse_cancel_selection(text: &str) -> (r: Option<usize>)
    ensures
        r == numbered_command_spec(text@, "CANCEL"@),
{
    parse_numbered_command(text, "CANCEL")
}

fn command_word_of(text: &str) -> (r: Vec<char>)
    ensures
        r@ == command_word(text@),
{
    to_upper(&trimmed(text))
}

/// `LIST` or `CONVERSATIONS`, in any case.
pub fn is_list_command(text: &str) -> (r: bool)
    ensures
        r == is_list_command_spec(text@),
{
    let w = command_word_of(text);
    chars_eq_str(&w, "LIST") || chars_eq_str(&w, "CONVERSATIONS")
}

/// `HELP` or `COMMANDS`, in any case.
pub fn is_help_command(text: &str) -> (r: bool)
    ensures
        r == is_help_command_spec(text@),
{
    let w = command_word_of(text);
    chars_eq_str(&w, "HELP") || chars_eq_str(&w, "COMMANDS")
}

/// `LEARNER`, `TEACHER`, `EXCHANGE` or `EXCHANGE-TURNS`: start a new conversation.
pub fn parse_start_conversation_command(text: &str) -> (r: Option<StartConversationCommand>)
    ensures
        r == start_command_spec(text@),
{
    let w = command_word_of(text);
    if chars_eq_str(&w, "LEARNER") {
        Some(StartConversationCommand::Tutor(ParticipantRole::Learner))
    } else if chars_eq_str(&w, "TEACHER") {
        Some(StartConversationCommand::Tutor(ParticipantRole::Teacher))
    } else if chars_eq_str(&w, "EXCHANGE") {
        Some(StartConversationCommand::Exchange(ConversationMode::Exchange))
    } else if chars_eq_str(&w, "EXCHANGE-TURNS") || chars_eq_str(&w, "EXCHANGE_TURNS")
        || chars_eq_str(&w, "TURNS") {
        Some(StartConversationCommand::Exchange(ConversationMode::ExchangeTurns))
    } else {
        None
    }
}

// ---------------------------------------------------------------------------
// Pinging a partner
// ---------------------------------------------------------------------------

pub const PING_PARTNER_PREFIX: &'static str = "ping_";

pub const PING_MIN_MINUTES: i64 = 30;

pub open spec fn ping_button_spec(conversation_id: i64) -> Seq<char> {
    "ping_"@ + int_decimal(conversation_id as int)
}

pub open spec fn parse_ping_button_spec(text: Seq<char>) -> Option<i64> {
    match strip_prefix(text, "ping_"@) {
        Some(rest) => parse_i64_spec(rest),
        None => None,
    }
}

/// The conversation a "Ping them" button is for.
pub fn parse_ping_button(text: &str) -> (r: Option<i64>)
    ensures
        r == parse_ping_button_spec(text@),
{
    let v = chars_of(text);
    match strip_prefix_chars(&v, PING_PARTNER_PREFIX) {
        Some(rest) => parse_i64(&rest),
        None => None,
    }
}

/// The "Ping them" button names the conversation it was made for: reading
/// its id gives that conversation back.
pub proof fn lemma_ping_button_roundtrip(conversation_id: i64)
    ensures
        parse_ping_button_spec(ping_button_spec(conversation_id)) == Some(conversation_id),
{
    reveal_strlit("ping_");
    let d = int_decimal(conversation_id as int);
    let s = ping_button_spec(conversation_id);
    assert(s.take(5) =~= "ping_"@);
    assert(s.skip(5) =~= d);
    crate::text::lemma_int_decimal_parses(conversation_id);
}

/// The id of the "Ping them" button for a conversation.
pub fn ping_button_id(conversation_id: i64) -> (r: String)
    ensures
        r@ == ping_button_spec(conversation_id),
{
    let mut r = String::from_str(PING_PARTNER_PREFIX);
    append_chars(&mut r, &i64_text(conversation_id));
    r
}

pub open spec fn can_ping_spec(
    l: ConversationListing,
    viewer: Seq<char>,
    viewer_sent_last: bool,
    minutes_since_sent: Option<i64>,
) -> bool {
    &&& !l.is_pending
    &&& !listing_is_broken_spec(l, viewer)
    &&& viewer_sent_last
    &&& (l.turn == Some(ConversationTurnStatus::WaitingForReply) || l.turn == Some(
        ConversationTurnStatus::WaitingForMessage,
    ))
    &&& match minutes_since_sent {
        Some(m) => m >= 30,
        None => false,
    }
}

/// A user may ping their partner when the chat is live, the user sent the
/// last message, it is the partner's turn, and at least 30 minutes have
/// passed since the user's message.
pub fn can_ping_partner(
    listing: &ConversationListing,
    viewer_phone: &str,
    viewer_sent_last_message: bool,
    minutes_since_viewer_sent: Option<i64>,
) -> (r: bool)
    ensures
        r == can_ping_spec(*listing, viewer_phone@, viewer_sent_last_message, minutes_since_viewer_sent),
{
    if listing.is_pending || listing_is_broken(listing, viewer_phone) {
        return false;
    }
    if !viewer_sent_last_message {
        return false;
    }
    let still_their_turn = match listing.turn {
        Some(ConversationTurnStatus::WaitingForReply) => true,
        Some(ConversationTurnStatus::WaitingForMessage) => true,
        _ => false,
    };
    if !still_their_turn {
        return false;
    }
    match minutes_since_viewer_sent {
        Some(minutes) => minutes >= PING_MIN_MINUTES,
        None => false,
    }
}

/// A ping is allowed whenever the chat is live and not broken, the viewer
/// sent the last message, the partner has yet to answer (whether a reply or
/// a new message is awaited), and 30 minutes or more have passed.
pub proof fn lemma_ping_allowed_while_partner_owes_an_answer(
    l: ConversationListing,
    viewer: Seq<char>,
    minutes: i64,
)
    requires
        !l.is_pending,
        !listing_is_broken_spec(l, viewer),
        l.turn == Some(ConversationTurnStatus::WaitingForReply) || l.turn == Some(
            ConversationTurnStatus::WaitingForMessage,
        ),
        minutes >= 30,
    ensures
        can_ping_spec(l, viewer, true, Some(minutes)),
{
}

/// A ping is refused unless the chat is live and not broken, the viewer sent
/// the last message, it is not the viewer's own turn, and at least 30
/// minutes are known to have passed.
pub proof fn lemma_ping_needs_partner_to_owe_an_answer(
    l: ConversationListing,
    viewer: Seq<char>,
    viewer_sent_last: bool,
    minutes_since_sent: Option<i64>,
)
    requires
        can_ping_spec(l, viewer, viewer_sent_last, minutes_since_sent),
    ensures
        !l.is_pending,
        !listing_is_broken_spec(l, viewer),
        viewer_sent_last,
        l.turn is Some,
        l.turn != Some(ConversationTurnStatus::YourTurnToSend),
        l.turn != Some(ConversationTurnStatus::YourTurnToReply),
        minutes_since_sent matches Some(m) && m >= 30,
{
}

/// Which answer the partner owes does not matter: waiting for their reply
/// and waiting for their message allow a ping alike. And waiting longer
/// never takes a ping away.
pub proof fn lemma_ping_same_for_both_waiting_states(
    l: ConversationListing,
    viewer: Seq<char>,
    viewer_sent_last: bool,
    m1: i64,
    m2: i64,
)
    requires
        m1 <= m2,
    ensures
        can_ping_spec(
            ConversationListing { turn: Some(ConversationTurnStatus::WaitingForReply), ..l },
            viewer,
            viewer_sent_last,
            Some(m1),
        ) == can_ping_spec(
            ConversationListing { turn: Some(ConversationTurnStatus::WaitingForMessage), ..l },
            viewer,
            viewer_sent_last,
            Some(m1),
        ),
        can_ping_spec(l, viewer, viewer_sent_last, Some(m1)) ==> can_ping_spec(
            l,
            viewer,
            viewer_sent_last,
            Some(m2),
        ),
{
}

/// The position of the listing for a conversation, if the user has it.
pub open spec fn listing_position(ls: Seq<ConversationListing>, conversation_id: i64, i: int) -> Option<nat>
    decreases ls.len() - i,
{
    if i < 0 || i >= ls.len() {
        None
    } else if ls[i].conversation_id == conversation_id {
        Some(i as nat)
    } else {
        listing_position(ls, conversation_id, i + 1)
    }
}

/// The first listing of conversation `conversation_id`.
pub fn find_listing(listings: &Vec<ConversationListing>, conversation_id: i64) -> (r: Option<usize>)
    ensures
        match listing_position(listings@, conversation_id, 0) {
            Some(i) => r == Some(i as usize),
            None => r is None,
        },
{
    let mut i: usize = 0;
    while i < listings.len()
        invariant
            i <= listings.len(),
            listing_position(listings@, conversation_id, 0) == listing_position(
                listings@,
                conversation_id,
                i as int,
            ),
        decreases listings.len() - i,
    {
        if listings[i].conversation_id == conversation_id {
            return Some(i);
        }
        i = i + 1;
    }
    None
}

pub const CHAT_GONE_TEXT: &'static str = "That chat is no longer available.";

pub const PING_REFUSED_TEXT: &'static str =
    "You can't ping right now — it's your turn, they already replied, or it's been less than 30 minutes since you sent.";

pub open spec fn pinged_spec(sender_label: Seq<char>) -> Seq<char> {
    sender_label + " pinged you to reply to their message."@
}

/// What the partner receives when pinged.
pub fn pinged_text(sender_label: &str) -> (r: String)
    ensures
        r@ == pinged_spec(sender_label@),
{
    let mut r = String::from_str(sender_label);
    r.append(" pinged you to reply to their message.");
    r
}

pub open spec fn reminder_sent_spec(partner_label: Seq<char>) -> Seq<char> {
    "Reminder sent to "@ + partner_label + "."@
}

/// The pinger's confirmation.
pub fn reminder_sent_text(partner_label: &str) -> (r: String)
    ensures
        r@ == reminder_sent_spec(partner_label@),
{
    let mut r = String::from_str("Reminder sent to ");
    r.append(partner_label);
    r.append(".");
    r
}

pub const CANCEL_INVALID_TEXT: &'static str =
    "Invalid selection. Reply MENU or LIST to see your conversations.";

pub const CANCEL_REFUSED_TEXT: &'static str = "Only pending or invalid invites can be cancelled.";

pub const CANCELLED_TEXT: &'static str = "Pending invite cancelled.";

// ---------------------------------------------------------------------------
// Choosing the conversation a command acts on
// ---------------------------------------------------------------------------

/// The list position a 1-based selection refers to (0 counts as 1).
pub open spec fn selection_index(selection: usize, count: nat) -> Option<nat> {
    let i: nat = if selection == 0 {
        0
    } else {
        (selection - 1) as nat
    };
    if i < count {
        Some(i)
    } else {
        None
    }
}

/// The first active listing at or after position `i`.
pub open spec fn first_active_from(ls: Seq<ConversationListing>, i: int) -> Option<nat>
    decreases ls.len() - i,
{
    if i < 0 || i >= ls.len() {
        None
    } else if ls[i].is_active {
        Some(i as nat)
    } else {
        first_active_from(ls, i + 1)
    }
}

pub proof fn lemma_first_active_found(ls: Seq<ConversationListing>, i: int)
    ensures
        first_active_from(ls, i) matches Some(k) ==> i <= k < ls.len() && ls[k as int].is_active,
    decreases ls.len() - i,
{
    if 0 <= i < ls.len() && !ls[i].is_active {
        lemma_first_active_found(ls, i + 1);
    }
}

/// The listing a command without a number acts on: the active one, or the
/// only one.
pub open spec fn default_listing(ls: Seq<ConversationListing>) -> Option<nat> {
    match first_active_from(ls, 0) {
        Some(i) => Some(i),
        None => if ls.len() == 1 {
            Some(0)
        } else {
            None
        },
    }
}

pub enum ListingChoice {
    /// The position of the chosen listing.
    Chosen(usize),
    /// The number given is not in the list.
    InvalidSelection,
    /// No number was given and there is neither an active nor a single conversation.
    Ambiguous,
}

pub open spec fn choose_listing_spec(ls: Seq<ConversationListing>, index: Option<usize>) -> ListingChoice {
    match index {
        Some(sel) => match selection_index(sel, ls.len()) {
            Some(i) => ListingChoice::Chosen(i as usize),
            None => ListingChoice::InvalidSelection,
        },
        None => match default_listing(ls) {
            Some(i) => ListingChoice::Chosen(i as usize),
            None => ListingChoice::Ambiguous,
        },
    }
}

/// The position of the first active listing.
pub fn find_active_listing(listings: &Vec<ConversationListing>) -> (r: Option<usize>)
    ensures
        match first_active_from(listings@, 0) {
            Some(i) => r == Some(i as usize),
            None => r is None,
        },
        r matches Some(i) ==> i < listings.len() && listings[i as int].is_active,
{
    proof {
        lemma_first_active_found(listings@, 0);
    }
    let mut i: usize = 0;
    while i < listings.len()
        invariant
            i <= listings.len(),
            first_active_from(listings@, 0) == first_active_from(listings@, i as int),
        decreases listings.len() - i,
    {
        if listings[i].is_active {
            return Some(i);
        }
        i = i + 1;
    }
    None
}

/// The listing a numbered or unnumbered command acts on.
pub fn choose_listing(listings: &Vec<ConversationListing>, index: Option<usize>) -> (r: ListingChoice)
    ensures
        r == choose_listing_spec(listings@, index),
        r matches ListingChoice::Chosen(i) ==> i < listings.len(),
{
    match index {
        Some(selection) => {
            let i = if selection == 0 {
                0
            } else {
                selection - 1
            };
            if i < listings.len() {
                ListingChoice::Chosen(i)
            } else {
                ListingChoice::InvalidSelection
            }
        },
        None => match find_active_listing(listings) {
            Some(i) => ListingChoice::Chosen(i),
            None => if listings.len() == 1 {
                ListingChoice::Chosen(0)
            } else {
                ListingChoice::Ambiguous
            },
        },
    }
}

pub open spec fn invalid_selection_text(count: nat) -> Seq<char> {
    "Invalid selection. Reply LIST to see your "@ + decimal(count) + " conversation(s)."@
}

fn invalid_selection_reply(count: usize) -> (r: String)
    ensures
        r@ == invalid_selection_text(count as nat),
{
    let mut r = String::from_str("Invalid selection. Reply LIST to see your ");
    append_chars(&mut r, &usize_text(count));
    r.append(" conversation(s).");
    r
}

// ---------------------------------------------------------------------------
// LIST and the menu summary
// ---------------------------------------------------------------------------

pub open spec fn no_conversations_text() -> Seq<char> {
    "You don't have any conversations yet.\n\nReply LEARNER, TEACHER, EXCHANGE, or EXCHANGE-TURNS to start one.\n(Or open the menu if you haven't set up yet.)"@
}

pub open spec fn list_footer() -> Seq<Seq<char>> {
    seq![
        seq![],
        "Reply MENU for actions, or use text commands:"@,
        "SWITCH <number>, SET MODE <number> <mode>, CANCEL <number>."@,
        "SET LANGUAGE <name>, or SET <number> <language>."@,
        "LEARNER, TEACHER, EXCHANGE, or EXCHANGE-TURNS to start a new one."@,
    ]
}

pub open spec fn listing_lines(ls: Seq<ConversationListing>, viewer: Seq<char>) -> Seq<Seq<char>> {
    Seq::new(ls.len(), |i: int| listing_line_spec((i + 1) as nat, ls[i], viewer))
}

/// The reply to LIST.
pub open spec fn conversation_list_spec(ls: Seq<ConversationListing>, phone: Seq<char>) -> Seq<char> {
    if ls.len() == 0 {
        no_conversations_text()
    } else {
        join(
            seq!["Your conversations:"@] + listing_lines(ls, digits_only(phone)) + list_footer(),
            "\n"@,
        )
    }
}

fn numbered_lines(listings: &Vec<ConversationListing>, viewer: &str) -> (r: Vec<Vec<char>>)
    ensures
        views(r@) == listing_lines(listings@, viewer@),
{
    let mut r: Vec<Vec<char>> = Vec::new();
    let mut i: usize = 0;
    while i < listings.len()
        invariant
            i <= listings.len(),
            views(r@) == listing_lines(listings@, viewer@).take(i as int),
        decreases listings.len() - i,
    {
        let line = format_listing_line(i + 1, &listings[i], viewer);
        let ghost before = views(r@);
        r.push(chars_of(line.as_str()));
        assert(views(r@) =~= before.push(line@));
        assert(listing_lines(listings@, viewer@).take(i as int + 1) =~= listing_lines(
            listings@,
            viewer@,
        ).take(i as int).push(line@));
        i = i + 1;
    }
    assert(listing_lines(listings@, viewer@).take(listings.len() as int) =~= listing_lines(
        listings@,
        viewer@,
    ));
    r
}

fn push_line(lines: &mut Vec<Vec<char>>, s: &str)
    ensures
        views(final(lines)@) == views(old(lines)@).push(s@),
{
    let ghost before = views(lines@);
    lines.push(chars_of(s));
    assert(views(lines@) =~= before.push(s@));
}

/// The reply to LIST: every conversation, numbered, and the commands.
pub fn conversation_list_text(listings: &Vec<ConversationListing>, phone: &str) -> (r: String)
    ensures
        r@ == conversation_list_spec(listings@, phone@),
{
    if listings.len() == 0 {
        return String::from_str(
            "You don't have any conversations yet.\n\nReply LEARNER, TEACHER, EXCHANGE, or EXCHANGE-TURNS to start one.\n(Or open the menu if you haven't set up yet.)",
        );
    }
    let viewer = crate::phone::normalize_phone(phone);
    let mut lines: Vec<Vec<char>> = Vec::new();
    assert(views(lines@) =~= Seq::<Seq<char>>::empty());
    push_line(&mut lines, "Your conversations:");
    let numbered = numbered_lines(listings, viewer.as_str());
    let mut i: usize = 0;
    let ghost head = views(lines@);
    while i < numbered.len()
        invariant
            i <= numbered.len(),
            head == seq!["Your conversations:"@],
            views(lines@) == head + views(numbered@).take(i as int),
        decreases numbered.len() - i,
    {
        let ghost before = views(lines@);
        let line = crate::text::slice_chars(&numbered[i], 0, numbered[i].len());
        assert(line@ =~= numbered[i as int]@);
        lines.push(line);
        assert(views(lines@) =~= before.push(numbered[i as int]@));
        assert(views(numbered@).take(i as int + 1) =~= views(numbered@).take(i as int).push(
            numbered[i as int]@,
        ));
        i = i + 1;
    }
    assert(views(numbered@).take(numbered.len() as int) =~= views(numbered@));
    push_line(&mut lines, "");
    push_line(&mut lines, "Reply MENU for actions, or use text commands:");
    push_line(&mut lines, "SWITCH <number>, SET MODE <number> <mode>, CANCEL <number>.");
    push_line(&mut lines, "SET LANGUAGE <name>, or SET <number> <language>.");
    push_line(&mut lines, "LEARNER, TEACHER, EXCHANGE, or EXCHANGE-TURNS to start a new one.");
    proof {
        reveal_strlit("");
        assert(""@ =~= Seq::<char>::empty());
    }
    assert(views(lines@) =~= seq!["Your conversations:"@] + listing_lines(listings@, viewer@)
        + list_footer());
    string_of(&join_words(&lines, "\n"))
}

/// The summary at the top of the menu.
pub open spec fn menu_body_spec(ls: Seq<ConversationListing>, phone: Seq<char>) -> Seq<char> {
    let viewer = digits_only(phone);
    if ls.len() == 0 {
        "No chats yet — start one below."@
    } else {
        match first_active_from(ls, 0) {
            Some(i) => active_chat_summary_spec(ls[i as int], viewer),
            None => if ls.len() == 1 {
                active_chat_summary_spec(ls[0], viewer)
                    + "\n\n(This is your only chat — it becomes active when you message.)"@
            } else {
                "No active chat — use Switch chat below."@
            },
        }
    }
}

/// The summary at the top of the menu, from the user's conversations.
pub fn format_menu_body(listings: &Vec<ConversationListing>, phone: &str) -> (r: String)
    ensures
        r@ == menu_body_spec(listings@, phone@),
{
    if listings.len() == 0 {
        return String::from_str("No chats yet — start one below.");
    }
    let viewer = crate::phone::normalize_phone(phone);
    proof {
        lemma_first_active_found(listings@, 0);
    }
    match find_active_listing(listings) {
        Some(i) => format_active_chat_summary(&listings[i], viewer.as_str()),
        None => {
            if listings.len() == 1 {
                let mut r = format_active_chat_summary(&listings[0], viewer.as_str());
                r.append("\n\n(This is your only chat — it becomes active when you message.)");
                r
            } else {
                String::from_str("No active chat — use Switch chat below.")
            }
        },
    }
}

// ---------------------------------------------------------------------------
// SWITCH
// ---------------------------------------------------------------------------

pub enum SwitchOutcome {
    /// Reply with this text and change nothing.
    Refused(String),
    /// Make the listing at this position the active conversation.
    Switch(usize),
}

pub open spec fn broken_chat_text() -> Seq<char> {
    "That conversation is invalid. Reply CANCEL to remove it."@
}

pub open spec fn pending_chat_text() -> Seq<char> {
    "That conversation is still waiting for your partner to accept the invite."@
}

pub open spec fn switch_spec(ls: Seq<ConversationListing>, selection: usize, phone: Seq<char>) -> Result<
    nat,
    Seq<char>,
> {
    match selection_index(selection, ls.len()) {
        None => Err(invalid_selection_text(ls.len())),
        Some(i) => if listing_is_broken_spec(ls[i as int], digits_only(phone)) {
            Err(broken_chat_text())
        } else if ls[i as int].is_pending {
            Err(pending_chat_text())
        } else {
            Ok(i)
        },
    }
}

/// What `SWITCH <selection>` does: refuse with a reason, or switch.
pub fn switch_decision(listings: &Vec<ConversationListing>, selection: usize, phone: &str) -> (r:
    SwitchOutcome)
    ensures
        match switch_spec(listings@, selection, phone@) {
            Ok(i) => r == SwitchOutcome::Switch(i as usize),
            Err(text) => r is Refused && r->Refused_0@ == text,
        },
{
    match choose_listing(listings, Some(selection)) {
        ListingChoice::Chosen(i) => {
            let viewer = crate::phone::normalize_phone(phone);
            if listing_is_broken(&listings[i], viewer.as_str()) {
                SwitchOutcome::Refused(
                    String::from_str("That conversation is invalid. Reply CANCEL to remove it."),
                )
            } else if listings[i].is_pending {
                SwitchOutcome::Refused(
                    String::from_str(
                        "That conversation is still waiting for your partner to accept the invite.",
                    ),
                )
            } else {
                SwitchOutcome::Switch(i)
            }
        },
        _ => SwitchOutcome::Refused(invalid_selection_reply(listings.len())),
    }
}

pub open spec fn switch_message_spec(l: ConversationListing, last: Option<Seq<char>>) -> Seq<char> {
    let partner = listing_partner_spec(l);
    let status = listing_status_text_spec(l);
    let base = if status.len() == 0 {
        "Switched to "@ + listing_role_desc_spec(l) + " — partner: "@ + partner + "."@
    } else {
        "Switched to "@ + listing_role_desc_spec(l) + " — partner: "@ + partner + " ("@ + status
            + ")."@
    };
    match last {
        Some(m) => if show_partner_last_message_spec(l) {
            base + "\n\nLast from "@ + partner + ":\n"@ + shorten(m, 400)
        } else {
            base
        },
        None => base,
    }
}

/// The confirmation of a switch; it quotes the partner's last message
/// (shortened to 400 characters) when it is the viewer's turn to answer it.
pub fn switch_message(listing: &ConversationListing, last_partner_message: Option<&str>) -> (r:
    String)
    ensures
        r@ == switch_message_spec(*listing, crate::text::opt_str_chars(last_partner_message)),
{
    let role_desc = format_listing_role_desc(listing);
    let partner = format_listing_partner(listing);
    let status = format_listing_status_text(listing);
    let mut r = String::from_str("Switched to ");
    r.append(role_desc.as_str());
    r.append(" — partner: ");
    r.append(partner.as_str());
    if status.as_str().is_empty() {
        r.append(".");
    } else {
        r.append(" (");
        r.append(status.as_str());
        r.append(").");
    }
    if let Some(last) = last_partner_message {
        if listing_should_show_partner_last_message(listing) {
            r.append("\n\nLast from ");
            r.append(partner.as_str());
            r.append(":\n");
            let short = truncate_for_display(last, 400);
            r.append(short.as_str());
        }
    }
    r
}

// ---------------------------------------------------------------------------
// SET MODE
// ---------------------------------------------------------------------------

pub open spec fn set_mode_ambiguous_text() -> Seq<char> {
    "You have multiple conversations. Use SET MODE <number> <mode>, e.g. SET MODE 1 exchange.\nReply LIST to see the numbers."@
}

/// Which conversation `SET MODE` changes, or the reply that refuses it.
pub open spec fn set_mode_target_spec(
    ls: Seq<ConversationListing>,
    index: Option<usize>,
    phone: Seq<char>,
) -> Result<nat, Seq<char>> {
    match choose_listing_spec(ls, index) {
        ListingChoice::InvalidSelection => Err(invalid_selection_text(ls.len())),
        ListingChoice::Ambiguous => Err(set_mode_ambiguous_text()),
        ListingChoice::Chosen(i) => if listing_is_broken_spec(ls[i as int], digits_only(phone)) {
            Err(broken_chat_text())
        } else if ls[i as int].is_pending {
            Err(pending_chat_text())
        } else {
            Ok(i as nat)
        },
    }
}

/// Which conversation `SET MODE` changes, or the reply that refuses it.
pub fn set_mode_target(listings: &Vec<ConversationListing>, index: Option<usize>, phone: &str) -> (r:
    Result<usize, String>)
    ensures
        match set_mode_target_spec(listings@, index, phone@) {
            Ok(i) => r == Ok::<usize, String>(i as usize),
            Err(text) => r is Err && r->Err_0@ == text,
        },
{
    match choose_listing(listings, index) {
        ListingChoice::InvalidSelection => Err(invalid_selection_reply(listings.len())),
        ListingChoice::Ambiguous => Err(
            String::from_str(
                "You have multiple conversations. Use SET MODE <number> <mode>, e.g. SET MODE 1 exchange.\nReply LIST to see the numbers.",
            ),
        ),
        ListingChoice::Chosen(i) => {
            let viewer = crate::phone::normalize_phone(phone);
            if listing_is_broken(&listings[i], viewer.as_str()) {
                Err(String::from_str("That conversation is invalid. Reply CANCEL to remove it."))
            } else if listings[i].is_pending {
                Err(
                    String::from_str(
                        "That conversation is still waiting for your partner to accept the invite.",
                    ),
                )
            } else {
                Ok(i)
            }
        },
    }
}

pub open spec fn language_or_not_set(o: Option<String>) -> Seq<char> {
    optional_language(opt_chars(o), "not set"@)
}

/// What the requester and the partner are told after a mode change.
pub open spec fn set_mode_notices_spec(
    mode: ConversationModeSetting,
    you: crate::db::Participant,
    partner: crate::db::Participant,
    your_label: Seq<char>,
    partner_label: Seq<char>,
    target_language: Seq<char>,
) -> (Seq<char>, Seq<char>) {
    let yours = language_or_not_set(you.learning_language);
    let theirs = language_or_not_set(partner.learning_language);
    match mode {
        ConversationModeSetting::Exchange => (
            "Switched to exchange mode with "@ + partner_label + ". You learn "@ + yours
                + " — always write in that language."@,
            your_label + " switched this chat to exchange mode. You learn "@ + theirs
                + " — always write in that language."@,
        ),
        ConversationModeSetting::ExchangeTurns => (
            "Switched to turn-based exchange with "@ + partner_label + ". You learn "@ + yours
                + ", they learn "@ + theirs
                + ". Take turns — both write in one language, then both write in the other."@,
            your_label + " switched this chat to turn-based exchange. You learn "@ + theirs
                + ", they learn "@ + yours
                + ". Take turns in the shared language each round — you go first."@,
        ),
        _ => {
            let lang = language_name_spec(target_language);
            (
                "You are now the "@ + crate::db::role_name(you.role) + " for "@ + lang + " with "@
                    + partner_label + "."@,
                your_label + " switched mode. You are now the "@ + crate::db::role_name(
                    partner.role,
                ) + " for "@ + lang + "."@,
            )
        },
    }
}

fn language_or_not_set_text(o: &Option<String>) -> (r: String)
    ensures
        r@ == language_or_not_set(*o),
{
    optional_language_name(o, "not set")
}

/// The notices for the requester and for the partner after a mode change.
/// `target_language` is the conversation's language after the change (used
/// for the tutor modes).
pub fn set_mode_notices(
    mode: ConversationModeSetting,
    you: &crate::db::Participant,
    partner: &crate::db::Participant,
    your_label: &str,
    partner_label: &str,
    target_language: &str,
) -> (r: (String, String))
    ensures
        (r.0@, r.1@) == set_mode_notices_spec(
            mode,
            *you,
            *partner,
            your_label@,
            partner_label@,
            target_language@,
        ),
{
    let yours = language_or_not_set_text(&you.learning_language);
    let theirs = language_or_not_set_text(&partner.learning_language);
    match mode {
        ConversationModeSetting::Exchange => {
            let mut a = String::from_str("Switched to exchange mode with ");
            a.append(partner_label);
            a.append(". You learn ");
            a.append(yours.as_str());
            a.append(" — always write in that language.");
            let mut b = String::from_str(your_label);
            b.append(" switched this chat to exchange mode. You learn ");
            b.append(theirs.as_str());
            b.append(" — always write in that language.");
            (a, b)
        },
        ConversationModeSetting::ExchangeTurns => {
            let mut a = String::from_str("Switched to turn-based exchange with ");
            a.append(partner_label);
            a.append(". You learn ");
            a.append(yours.as_str());
            a.append(", they learn ");
            a.append(theirs.as_str());
            a.append(". Take turns — both write in one language, then both write in the other.");
            let mut b = String::from_str(your_label);
            b.append(" switched this chat to turn-based exchange. You learn ");
            b.append(theirs.as_str());
            b.append(", they learn ");
            b.append(yours.as_str());
            b.append(". Take turns in the shared language each round — you go first.");
            (a, b)
        },
        _ => {
            let lang = format_language_name(target_language);
            let mut a = String::from_str("You are now the ");
            a.append(you.role.label());
            a.append(" for ");
            a.append(lang.as_str());
            a.append(" with ");
            a.append(partner_label);
            a.append(".");
            let mut b = String::from_str(your_label);
            b.append(" switched mode. You are now the ");
            b.append(partner.role.label());
            b.append(" for ");
            b.append(lang.as_str());
            b.append(".");
            (a, b)
        },
    }
}

pub open spec fn set_mode_error_reply_spec(e: crate::db::SetModeError) -> Option<Seq<char>> {
    match e {
        crate::db::SetModeError::ActiveExchange => Some(
            "Can't change mode while a message is in progress. Wait until the learner finishes their current reply."@,
        ),
        crate::db::SetModeError::NotComplete => Some(
            "That conversation isn't ready for a mode change yet."@,
        ),
        crate::db::SetModeError::NotParticipant => Some("You aren't part of that conversation."@),
        crate::db::SetModeError::MissingLanguage => None,
    }
}

/// The reply to a refused mode change; `None` for the error that is not
/// answered but passed on.
pub fn set_mode_error_reply(e: crate::db::SetModeError) -> (r: Option<String>)
    ensures
        opt_chars(r) == set_mode_error_reply_spec(e),
{
    match e {
        crate::db::SetModeError::ActiveExchange => Some(
            String::from_str(
                "Can't change mode while a message is in progress. Wait until the learner finishes their current reply.",
            ),
        ),
        crate::db::SetModeError::NotComplete => Some(
            String::from_str("That conversation isn't ready for a mode change yet."),
        ),
        crate::db::SetModeError::NotParticipant => Some(
            String::from_str("You aren't part of that conversation."),
        ),
        crate::db::SetModeError::MissingLanguage => None,
    }
}

// ---------------------------------------------------------------------------
// SET LANGUAGE
// ---------------------------------------------------------------------------

pub enum LanguageUpdate {
    /// Reply with this text and change nothing.
    Refused(String),
    /// Set the language of this conversation: the sender's own learning
    /// language in an exchange, the conversation's language otherwise.
    Update { conversation_id: i64, per_participant: bool },
}

pub open spec fn set_language_ambiguous_text() -> Seq<char> {
    "You have multiple conversations. Use SET <number> <language>, e.g. SET 1 Norwegian.\nReply LIST to see the numbers."@
}

/// The reply that refuses a `SET LANGUAGE` for its language alone: none
/// given, or one that looks like a phone number. These are checked before
/// the sender's conversations are read.
pub open spec fn language_refusal_spec(language: Seq<char>) -> Option<Seq<char>> {
    if language.len() == 0 {
        Some("Please include a language, e.g. SET LANGUAGE Norwegian"@)
    } else if looks_like_phone_spec(language) {
        Some("That looks like a phone number, not a language.\nExample: SET LANGUAGE Norwegian"@)
    } else {
        None
    }
}

/// The refusal of a language, if `SET LANGUAGE` refuses it whatever the
/// sender's conversations are.
pub fn language_refusal(language: &str) -> (r: Option<String>)
    ensures
        opt_chars(r) == language_refusal_spec(language@),
{
    if language.is_empty() {
        return Some(String::from_str("Please include a language, e.g. SET LANGUAGE Norwegian"));
    }
    if looks_like_phone(language) {
        return Some(
            String::from_str(
                "That looks like a phone number, not a language.\nExample: SET LANGUAGE Norwegian",
            ),
        );
    }
    None
}

pub open spec fn set_language_spec(
    index: Option<usize>,
    language: Seq<char>,
    ls: Seq<ConversationListing>,
) -> Result<(i64, bool), Seq<char>> {
    if language_refusal_spec(language) is Some {
        Err(language_refusal_spec(language)->0)
    } else if ls.len() == 0 {
        Err("You don't have any conversations yet."@)
    } else {
        match choose_listing_spec(ls, index) {
            ListingChoice::InvalidSelection => Err(invalid_selection_text(ls.len())),
            ListingChoice::Ambiguous => Err(set_language_ambiguous_text()),
            ListingChoice::Chosen(i) => Ok(
                (
                    ls[i as int].conversation_id,
                    ls[i as int].mode != ConversationMode::Tutor,
                ),
            ),
        }
    }
}

/// A language refused for itself is refused the same way whatever the
/// sender's conversations are, so the refusal can be given before they are
/// read.
pub proof fn lemma_language_refusal_ignores_listings(
    index: Option<usize>,
    language: Seq<char>,
    ls1: Seq<ConversationListing>,
    ls2: Seq<ConversationListing>,
)
    requires
        language_refusal_spec(language) is Some,
    ensures
        set_language_spec(index, language, ls1) == Err::<(i64, bool), Seq<char>>(language_refusal_spec(language)->0),
        set_language_spec(index, language, ls1) == set_language_spec(index, language, ls2),
{
}

/// What `SET LANGUAGE` changes, or the reply that refuses it.
pub fn plan_set_language(command: &SetLanguageCommand, listings: &Vec<ConversationListing>) -> (r:
    LanguageUpdate)
    ensures
        match set_language_spec(command.index, command.language@, listings@) {
            Ok((id, per)) => r == LanguageUpdate::Update { conversation_id: id, per_participant: per },
            Err(text) => r is Refused && r->Refused_0@ == text,
        },
{
    if let Some(refusal) = language_refusal(command.language.as_str()) {
        return LanguageUpdate::Refused(refusal);
    }
    if listings.len() == 0 {
        return LanguageUpdate::Refused(String::from_str("You don't have any conversations yet."));
    }
    match choose_listing(listings, command.index) {
        ListingChoice::InvalidSelection => LanguageUpdate::Refused(
            invalid_selection_reply(listings.len()),
        ),
        ListingChoice::Ambiguous => LanguageUpdate::Refused(
            String::from_str(
                "You have multiple conversations. Use SET <number> <language>, e.g. SET 1 Norwegian.\nReply LIST to see the numbers.",
            ),
        ),
        ListingChoice::Chosen(i) => LanguageUpdate::Update {
            conversation_id: listings[i].conversation_id,
            per_participant: listings[i].mode.is_exchange(),
        },
    }
}

pub open spec fn language_updated_spec(language: Seq<char>) -> Seq<char> {
    "Language updated to "@ + language + "."@
}

/// The confirmation of a language change.
pub fn language_updated_text(language: &str) -> (r: String)
    ensures
        r@ == language_updated_spec(language@),
{
    let mut r = String::from_str("Language updated to ");
    r.append(language);
    r.append(".");
    r
}

// ---------------------------------------------------------------------------
// CANCEL and HELP
// ---------------------------------------------------------------------------

pub open spec fn cancel_allowed_spec(l: ConversationListing, phone: Seq<char>) -> bool {
    l.is_pending || listing_is_broken_spec(l, digits_only(phone))
}

/// Only a pending invite, or one sent to one's own number, can be cancelled.
pub fn cancel_allowed(listing: &ConversationListing, phone: &str) -> (r: bool)
    ensures
        r == cancel_allowed_spec(*listing, phone@),
{
    let viewer = crate::phone::normalize_phone(phone);
    listing.is_pending || listing_is_broken(listing, viewer.as_str())
}

pub open spec fn help_spec() -> Seq<char> {
    "molvakt commands:\n\nMENU — open the action menu (recommended)\nReview vocab — flashcards from your chats (also in MENU)\nLIST — show your conversations\nSWITCH <number> — change active conversation\nSET MODE <number> teacher|learner|exchange|exchange-turns — change conversation mode\nCANCEL <number> — cancel a pending invite\nSET LANGUAGE <name> — fix language on active conversation\nSET TIMEZONE <region> — morning reminder time (e.g. Europe/Oslo)\nSET <number> <language> — fix language on a specific one\nLEARNER / TEACHER / EXCHANGE / EXCHANGE-TURNS — start a new conversation\n(New users: message the bot to open the setup menu)\n\nIn an active conversation, just message normally."@
}

/// The reply to HELP.
pub fn help_text() -> (r: String)
    ensures
        r@ == help_spec(),
{
    String::from_str(
        "molvakt commands:\n\nMENU — open the action menu (recommended)\nReview vocab — flashcards from your chats (also in MENU)\nLIST — show your conversations\nSWITCH <number> — change active conversation\nSET MODE <number> teacher|learner|exchange|exchange-turns — change conversation mode\nCANCEL <number> — cancel a pending invite\nSET LANGUAGE <name> — fix language on active conversation\nSET TIMEZONE <region> — morning reminder time (e.g. Europe/Oslo)\nSET <number> <language> — fix language on a specific one\nLEARNER / TEACHER / EXCHANGE / EXCHANGE-TURNS — start a new conversation\n(New users: message the bot to open the setup menu)\n\nIn an active conversation, just message normally.",
    )
}

} // verus!
