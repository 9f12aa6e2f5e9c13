//! The messages of a conversation so far, as the language model sees them.

use vstd::prelude::*;
use crate::db::{MessageRole, message_role_from_name, unknown_name_error};
use crate::text::opt_chars;

verus! {

pub enum HistoryEntry {
    Teacher(String),
    Learner(String),
    Exchange { sender: String, content: String },
}

/// What a stored message becomes: in an exchange, the sender's words under
/// the sender's number (empty when none was stored); in a tutor conversation,
/// the teacher's or the learner's words by the stored role.
pub open spec fn history_entry_spec(
    exchange: bool,
    role: Seq<char>,
    content: Seq<char>,
    sender_phone: Option<Seq<char>>,
) -> Result<(int, Seq<char>, Seq<char>), Seq<char>> {
    if exchange {
        Ok((2, match sender_phone { Some(p) => p, None => seq![] }, content))
    } else {
        match message_role_from_name(role) {
            Some(MessageRole::Teacher) => Ok((0, seq![], content)),
            Some(MessageRole::Learner) => Ok((1, seq![], content)),
            None => Err(unknown_name_error("message role"@, role)),
        }
    }
}

pub open spec fn entry_view(e: HistoryEntry) -> (int, Seq<char>, Seq<char>) {
    match e {
        HistoryEntry::Teacher(c) => (0, seq![], c@),
        HistoryEntry::Learner(c) => (1, seq![], c@),
        HistoryEntry::Exchange { sender, content } => (2, sender@, content@),
    }
}

/// Turns a stored message row into a history entry.
pub fn history_entry(exchange: bool, role: &str, content: String, sender_phone: Option<String>) -> (r:
    Result<HistoryEntry, String>)
    ensures
        match history_entry_spec(exchange, role@, content@, opt_chars(sender_phone)) {
            Ok(v) => r is Ok && entry_view(r->Ok_0) == v,
            Err(e) => r is Err && r->Err_0@ == e,
        },
{
    if exchange {
        let sender = match sender_phone {
            Some(p) => p,
            None => String::new(),
        };
        return Ok(HistoryEntry::Exchange { sender, content });
    }
    match MessageRole::from_str(role) {
        Ok(MessageRole::Teacher) => Ok(HistoryEntry::Teacher(content)),
        Ok(MessageRole::Learner) => Ok(HistoryEntry::Learner(content)),
        Err(e) => Err(e),
    }
}

} // verus!
