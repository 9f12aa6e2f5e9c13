//! Vocabulary flashcards: which language a user reviews, the cards made from
//! extracted vocabulary, and the texts of a review session.

use vstd::prelude::*;
use crate::db::{ConversationListing, ConversationMode, ParticipantRole};
use crate::conversations::{first_active_from, listing_is_broken, listing_is_broken_spec};
use crate::phone::{contact_label, contact_label_spec, digits_only, phones_match};
use crate::text::{append_chars, chars_eq_str, chars_of, copy_opt_string, i64_text, int_decimal, opt_chars, opt_str_chars};

verus! {

pub const VOCAB_SHOW: &'static str = "vocab_show";

pub const VOCAB_GOOD: &'static str = "vocab_good";

pub const VOCAB_AGAIN: &'static str = "vocab_again";

pub open spec fn is_vocab_button_spec(text: Seq<char>) -> bool {
    text == VOCAB_SHOW@ || text == VOCAB_GOOD@ || text == VOCAB_AGAIN@
}

/// One of the flashcard buttons.
pub fn is_vocab_button(text: &str) -> (r: bool)
    ensures
        r == is_vocab_button_spec(text@),
{
    let v = chars_of(text);
    chars_eq_str(&v, VOCAB_SHOW) || chars_eq_str(&v, VOCAB_GOOD) || chars_eq_str(&v, VOCAB_AGAIN)
}

pub struct VocabCard {
    pub id: i64,
    pub user_phone: String,
    pub language: String,
    pub front: String,
    pub back: String,
    pub partner_phone: Option<String>,
}

// ---------------------------------------------------------------------------
// Which language a user reviews
// ---------------------------------------------------------------------------

pub open spec fn first_live_from(ls: Seq<ConversationListing>, i: int) -> Option<nat>
    decreases ls.len() - i,
{
    if i < 0 || i >= ls.len() {
        None
    } else if !ls[i].is_pending {
        Some(i as nat)
    } else {
        first_live_from(ls, i + 1)
    }
}

/// The conversation whose vocabulary is reviewed: the active one, else the
/// first live one, else the first one.
pub open spec fn review_listing(ls: Seq<ConversationListing>) -> Option<nat> {
    match first_active_from(ls, 0) {
        Some(i) => Some(i),
        None => match first_live_from(ls, 0) {
            Some(i) => Some(i),
            None => if ls.len() > 0 {
                Some(0)
            } else {
                None
            },
        },
    }
}

/// The language reviewed and the partner's number; none for a broken or
/// pending chat, or for a teacher (who has nothing to learn there).
pub open spec fn review_language_spec(ls: Seq<ConversationListing>, phone: Seq<char>) -> Option<
    (Seq<char>, Option<Seq<char>>),
> {
    match review_listing(ls) {
        None => None,
        Some(i) => {
            let l = ls[i as int];
            if listing_is_broken_spec(l, digits_only(phone)) || l.is_pending {
                None
            } else if l.mode != ConversationMode::Tutor {
                Some(
                    (
                        match l.learning_language {
                            Some(x) => x@,
                            None => l.target_language@,
                        },
                        opt_chars(l.partner_phone),
                    ),
                )
            } else if l.role == ParticipantRole::Learner {
                Some((l.target_language@, opt_chars(l.partner_phone)))
            } else {
                None
            }
        },
    }
}

proof fn lemma_first_live_found(ls: Seq<ConversationListing>, i: int)
    ensures
        first_live_from(ls, i) matches Some(k) ==> i <= k < ls.len(),
    decreases ls.len() - i,
{
    if 0 <= i < ls.len() && ls[i].is_pending {
        lemma_first_live_found(ls, i + 1);
    }
}

fn find_live(listings: &Vec<ConversationListing>) -> (r: Option<usize>)
    ensures
        match first_live_from(listings@, 0) {
            Some(i) => r == Some(i as usize),
            None => r is None,
        },
        r matches Some(i) ==> i < listings.len(),
{
    proof {
        lemma_first_live_found(listings@, 0);
    }
    let mut i: usize = 0;
    while i < listings.len()
        invariant
            i <= listings.len(),
            first_live_from(listings@, 0) == first_live_from(listings@, i as int),
        decreases listings.len() - i,
    {
        if !listings[i].is_pending {
            return Some(i);
        }
        i = i + 1;
    }
    None
}

/// The language `phone` reviews, and the partner of that chat.
pub fn review_language(listings: &Vec<ConversationListing>, phone: &str) -> (r: Option<
    (String, Option<String>),
>)
    ensures
        match review_language_spec(listings@, phone@) {
            Some((lang, partner)) => r matches Some(pair) && pair.0@ == lang && opt_chars(pair.1) == partner,
            None => r is None,
        },
{
    proof {
        crate::conversations::lemma_first_active_found(listings@, 0);
        lemma_first_live_found(listings@, 0);
    }
    let index = match crate::conversations::find_active_listing(listings) {
        Some(i) => i,
        None => match find_live(listings) {
            Some(i) => i,
            None => if listings.len() > 0 {
                0
            } else {
                return None;
            },
        },
    };
    let l = &listings[index];
    let viewer = crate::phone::normalize_phone(phone);
    if listing_is_broken(l, viewer.as_str()) || l.is_pending {
        return None;
    }
    if l.mode.is_exchange() {
        let language = match &l.learning_language {
            Some(x) => x.clone(),
            None => l.target_language.clone(),
        };
        Some((language, copy_opt_string(&l.partner_phone)))
    } else if l.role == ParticipantRole::Learner {
        Some((l.target_language.clone(), copy_opt_string(&l.partner_phone)))
    } else {
        None
    }
}

// ---------------------------------------------------------------------------
// Cards from extracted vocabulary
// ---------------------------------------------------------------------------

/// Each extracted pair gives two cards, one in each direction.
pub open spec fn cards_from_pairs(pairs: Seq<(Seq<char>, Seq<char>)>) -> Seq<(Seq<char>, Seq<char>)>
    decreases pairs.len(),
{
    if pairs.len() == 0 {
        seq![]
    } else {
        let (term, translation) = pairs.last();
        cards_from_pairs(pairs.drop_last()).push((term, translation)).push((translation, term))
    }
}

/// Every extracted pair is learnt both ways: pair `i` gives card `2i`
/// (term to translation) and card `2i + 1` (translation to term), and there
/// are no other cards.
pub proof fn lemma_cards_both_directions(pairs: Seq<(Seq<char>, Seq<char>)>)
    ensures
        cards_from_pairs(pairs).len() == 2 * pairs.len(),
        forall|i: int|
            0 <= i < pairs.len() ==> cards_from_pairs(pairs)[2 * i] == #[trigger] pairs[i]
                && cards_from_pairs(pairs)[2 * i + 1] == (pairs[i].1, pairs[i].0),
    decreases pairs.len(),
{
    if pairs.len() > 0 {
        let rest = pairs.drop_last();
        lemma_cards_both_directions(rest);
        assert forall|i: int| 0 <= i < pairs.len() implies cards_from_pairs(pairs)[2 * i]
            == #[trigger] pairs[i] && cards_from_pairs(pairs)[2 * i + 1] == (pairs[i].1, pairs[i].0) by {
            if i < rest.len() {
                assert(pairs[i] == rest[i]);
            }
        }
    }
}

/// The (front, back) sides of the cards to store, in order.
pub fn cards_for_pairs(pairs: &Vec<(String, String)>) -> (r: Vec<(String, String)>)
    ensures
        crate::llm::pairs_view(r@) == cards_from_pairs(crate::llm::pairs_view(pairs@)),
{
    let ghost pv = crate::llm::pairs_view(pairs@);
    let mut r: Vec<(String, String)> = Vec::new();
    let mut i: usize = 0;
    assert(crate::llm::pairs_view(r@) =~= cards_from_pairs(pv.take(0)));
    while i < pairs.len()
        invariant
            i <= pairs.len(),
            pv == crate::llm::pairs_view(pairs@),
            crate::llm::pairs_view(r@) == cards_from_pairs(pv.take(i as int)),
        decreases pairs.len() - i,
    {
        assert(pv.take(i as int + 1).drop_last() =~= pv.take(i as int));
        assert(pv.take(i as int + 1).last() == pv[i as int]);
        let ghost before = crate::llm::pairs_view(r@);
        let (term, translation) = (&pairs[i].0, &pairs[i].1);
        r.push((term.clone(), translation.clone()));
        r.push((translation.clone(), term.clone()));
        assert(crate::llm::pairs_view(r@) =~= before.push((term@, translation@)).push(
            (translation@, term@),
        ));
        i = i + 1;
    }
    assert(pv.take(pairs.len() as int) =~= pv);
    r
}

// ---------------------------------------------------------------------------
// Review texts
// ---------------------------------------------------------------------------

pub open spec fn card_prompt_spec(card: VocabCard) -> Seq<char> {
    let note = match card.partner_phone {
        Some(p) => "\n(from chat with "@ + contact_label_spec(p@, None) + ")"@,
        None => seq![],
    };
    "Flashcard ("@ + card.language@ + ")"@ + note + "\n\n"@ + card.front@
}

/// A card's front, with the chat it came from.
pub fn card_prompt(card: &VocabCard) -> (r: String)
    ensures
        r@ == card_prompt_spec(*card),
{
    let mut r = String::from_str("Flashcard (");
    r.append(card.language.as_str());
    r.append(")");
    if let Some(p) = &card.partner_phone {
        r.append("\n(from chat with ");
        let label = contact_label(p.as_str(), None);
        r.append(label.as_str());
        r.append(")");
    }
    r.append("\n\n");
    r.append(card.front.as_str());
    r
}

pub open spec fn card_answer_spec(card: VocabCard) -> Seq<char> {
    "Flashcard ("@ + card.language@ + ")\n\n"@ + card.front@ + "\n\n→ "@ + card.back@
}

/// A card's front and back.
pub fn card_answer(card: &VocabCard) -> (r: String)
    ensures
        r@ == card_answer_spec(*card),
{
    let mut r = String::from_str("Flashcard (");
    r.append(card.language.as_str());
    r.append(")\n\n");
    r.append(card.front.as_str());
    r.append("\n\n→ ");
    r.append(card.back.as_str());
    r
}

/// Why a review cannot start, or `None` when a card is due.
pub open spec fn review_start_spec(language: Seq<char>, total: i64, due: i64) -> Option<Seq<char>> {
    if total == 0 {
        Some("No vocab cards for "@ + language + " yet — they'll appear as you chat."@)
    } else if due == 0 {
        Some(
            "No "@ + language + " cards due right now. You have "@ + int_decimal(total as int)
                + " card(s) — check back later."@,
        )
    } else {
        None
    }
}

/// Why a review of `language` cannot start (`total` cards, `due` of them due).
pub fn review_start_refusal(language: &str, total: i64, due: i64) -> (r: Option<String>)
    ensures
        opt_chars(r) == review_start_spec(language@, total, due),
{
    if total == 0 {
        let mut r = String::from_str("No vocab cards for ");
        r.append(language);
        r.append(" yet — they'll appear as you chat.");
        Some(r)
    } else if due == 0 {
        let mut r = String::from_str("No ");
        r.append(language);
        r.append(" cards due right now. You have ");
        append_chars(&mut r, &i64_text(total));
        r.append(" card(s) — check back later.");
        Some(r)
    } else {
        None
    }
}

pub open spec fn last_card_spec(passed: bool) -> Seq<char> {
    if passed {
        "Nice — that was the last card due for now."@
    } else {
        "That card will come back soon. No more due right now."@
    }
}

/// What is said after the last due card was rated.
pub fn last_card_text(passed: bool) -> (r: &'static str)
    ensures
        r@ == last_card_spec(passed),
{
    if passed {
        "Nice — that was the last card due for now."
    } else {
        "That card will come back soon. No more due right now."
    }
}

// ---------------------------------------------------------------------------
// A review session, one button at a time
// ---------------------------------------------------------------------------

/// What a message means while a flashcard session is open.
pub enum FlashcardLookup {
    /// Not a flashcard button: the menu handles the message.
    NotAButton,
    /// A button, but the session names no card.
    Expired,
    /// A button about this card, which is to be looked up.
    Card(i64),
}

pub open spec fn flashcard_lookup_spec(text: Seq<char>, flashcard_id: Option<i64>) -> FlashcardLookup {
    if !is_vocab_button_spec(text) {
        FlashcardLookup::NotAButton
    } else {
        match flashcard_id {
            None => FlashcardLookup::Expired,
            Some(id) => FlashcardLookup::Card(id),
        }
    }
}

/// Reads a message sent while the session shows the card `flashcard_id`.
pub fn flashcard_lookup(text: &str, flashcard_id: Option<i64>) -> (r: FlashcardLookup)
    ensures
        r == flashcard_lookup_spec(text@, flashcard_id),
{
    if !is_vocab_button(text) {
        FlashcardLookup::NotAButton
    } else {
        match flashcard_id {
            None => FlashcardLookup::Expired,
            Some(id) => FlashcardLookup::Card(id),
        }
    }
}

pub const SESSION_EXPIRED_TEXT: &'static str = "Session expired. Reply MENU to start over.";

pub const CARD_GONE_TEXT: &'static str = "That card is no longer available. Reply MENU to start over.";

pub const NO_REVIEW_CHAT_TEXT: &'static str =
    "No active chat to review vocab for. Switch to a conversation first, or start one.";

pub const ALL_DONE_TEXT: &'static str = "All done for now — no more cards due.";

/// What a flashcard button does to the card it names.
pub enum VocabAction {
    /// The card is gone, or belongs to someone else.
    CardGone,
    ShowAnswer,
    /// Rated: `true` for "Got it", `false` for "Again".
    Rate(bool),
    /// Not one of the buttons: nothing happens.
    Ignore,
}

pub open spec fn vocab_action_spec(card_owner: Option<Seq<char>>, phone: Seq<char>, button: Seq<char>) -> VocabAction {
    match card_owner {
        None => VocabAction::CardGone,
        Some(owner) => if digits_only(owner) != digits_only(phone) {
            VocabAction::CardGone
        } else if button == VOCAB_SHOW@ {
            VocabAction::ShowAnswer
        } else if button == VOCAB_GOOD@ {
            VocabAction::Rate(true)
        } else if button == VOCAB_AGAIN@ {
            VocabAction::Rate(false)
        } else {
            VocabAction::Ignore
        },
    }
}

/// The action of `button`, pressed by `phone`, on a card owned by
/// `card_owner` (`None` when no card has the id).
pub fn vocab_action(card_owner: Option<&str>, phone: &str, button: &str) -> (r: VocabAction)
    ensures
        r == vocab_action_spec(opt_str_chars(card_owner), phone@, button@),
{
    match card_owner {
        None => VocabAction::CardGone,
        Some(owner) => {
            if !phones_match(owner, phone) {
                VocabAction::CardGone
            } else {
                let b = chars_of(button);
                if chars_eq_str(&b, VOCAB_SHOW) {
                    VocabAction::ShowAnswer
                } else if chars_eq_str(&b, VOCAB_GOOD) {
                    VocabAction::Rate(true)
                } else if chars_eq_str(&b, VOCAB_AGAIN) {
                    VocabAction::Rate(false)
                } else {
                    VocabAction::Ignore
                }
            }
        },
    }
}

// ---------------------------------------------------------------------------
// When a card comes back
// ---------------------------------------------------------------------------

/// The longest gap between two reviews of a card, in days.
pub const MAX_INTERVAL_DAYS: u32 = 365;

/// A card that was not known comes back after ten minutes.
pub const RETRY_SECONDS: i64 = 600;

/// The gap after a review: a known card's gap doubles (one day after the
/// first success, at most a year); a card that was not known starts over.
pub open spec fn next_interval_spec(interval_days: u32, passed: bool) -> u32 {
    if !passed {
        0
    } else if interval_days == 0 {
        1
    } else if interval_days * 2 > MAX_INTERVAL_DAYS {
        MAX_INTERVAL_DAYS
    } else {
        (interval_days * 2) as u32
    }
}

/// The card's new gap in days, and the seconds until it is due again.
pub fn next_review(interval_days: u32, passed: bool) -> (r: (u32, i64))
    ensures
        r.0 == next_interval_spec(interval_days, passed),
        r.1 == if passed {
            r.0 * 86400
        } else {
            RETRY_SECONDS as int
        },
{
    if !passed {
        return (0, RETRY_SECONDS);
    }
    let days: u32 = if interval_days == 0 {
        1
    } else if interval_days > MAX_INTERVAL_DAYS / 2 {
        MAX_INTERVAL_DAYS
    } else {
        interval_days * 2
    };
    (days, (days as i64) * 86400)
}

} // verus!
