//! Incoming WhatsApp webhooks: the payload's shape, and the messages the bot
//! handles in it (typed text, and taps on list rows or reply buttons).

use vstd::prelude::*;
use crate::phone::digits_only;
use crate::text::{chars_eq, chars_eq_str, chars_of, copy_opt_string, opt_chars};

verus! {

pub struct ParsedIncomingMessage {
    pub from: String,
    pub text: String,
    /// True when the user tapped a list row or reply button (not typed text).
    pub is_interactive: bool,
    pub profile_name: Option<String>,
}

pub struct WebhookPayload {
    pub entry: Option<Vec<WebhookEntry>>,
}

pub struct WebhookEntry {
    pub changes: Option<Vec<WebhookChange>>,
}

pub struct WebhookChange {
    pub value: Option<WebhookValue>,
}

pub struct WebhookValue {
    pub messages: Option<Vec<IncomingMessage>>,
    pub contacts: Option<Vec<WebhookContact>>,
}

pub struct WebhookContact {
    pub wa_id: String,
    pub profile: Option<WebhookProfile>,
}

pub struct WebhookProfile {
    pub name: String,
}

pub struct IncomingMessage {
    pub from: String,
    pub message_type: String,
    pub text: Option<TextBody>,
    pub interactive: Option<InteractiveBody>,
}

pub struct InteractiveBody {
    pub interactive_type: String,
    pub button_reply: Option<InteractiveReply>,
    pub list_reply: Option<InteractiveReply>,
}

pub struct InteractiveReply {
    pub id: String,
    pub title: String,
}

pub struct TextBody {
    pub body: String,
}

pub struct ParsedView {
    pub from: Seq<char>,
    pub text: Seq<char>,
    pub is_interactive: bool,
    pub profile_name: Option<Seq<char>>,
}

impl View for ParsedIncomingMessage {
    type V = ParsedView;

    open spec fn view(&self) -> ParsedView {
        ParsedView {
            from: self.from@,
            text: self.text@,
            is_interactive: self.is_interactive,
            profile_name: opt_chars(self.profile_name),
        }
    }
}

pub open spec fn parsed_view(v: Seq<ParsedIncomingMessage>) -> Seq<ParsedView> {
    Seq::new(v.len(), |i: int| v[i]@)
}

/// What a message says: the text of a text message, or the id of the row or
/// button that was tapped (marked interactive). Other kinds are ignored.
pub open spec fn message_body_spec(m: IncomingMessage) -> Option<(Seq<char>, bool)> {
    if m.message_type@ == "text"@ {
        match m.text {
            Some(t) => Some((t.body@, false)),
            None => None,
        }
    } else if m.message_type@ == "interactive"@ {
        match m.interactive {
            Some(i) => if i.interactive_type@ == "button_reply"@ {
                match i.button_reply {
                    Some(r) => Some((r.id@, true)),
                    None => None,
                }
            } else if i.interactive_type@ == "list_reply"@ {
                match i.list_reply {
                    Some(r) => Some((r.id@, true)),
                    None => None,
                }
            } else {
                None
            },
            None => None,
        }
    } else {
        None
    }
}

/// What a message says, and whether it was a tap.
pub fn message_body(message: &IncomingMessage) -> (r: Option<(String, bool)>)
    ensures
        match message_body_spec(*message) {
            Some((t, i)) => r matches Some(p) && p.0@ == t && p.1 == i,
            None => r is None,
        },
{
    let kind = chars_of(message.message_type.as_str());
    if chars_eq_str(&kind, "text") {
        match &message.text {
            Some(t) => Some((t.body.clone(), false)),
            None => None,
        }
    } else if chars_eq_str(&kind, "interactive") {
        match &message.interactive {
            Some(i) => {
                let itype = chars_of(i.interactive_type.as_str());
                if chars_eq_str(&itype, "button_reply") {
                    match &i.button_reply {
                        Some(reply) => Some((reply.id.clone(), true)),
                        None => None,
                    }
                } else if chars_eq_str(&itype, "list_reply") {
                    match &i.list_reply {
                        Some(reply) => Some((reply.id.clone(), true)),
                        None => None,
                    }
                } else {
                    None
                }
            },
            None => None,
        }
    } else {
        None
    }
}

/// The position of the first contact with the same number as `from`.
pub open spec fn contact_index(contacts: Seq<WebhookContact>, from: Seq<char>, i: int) -> Option<nat>
    decreases contacts.len() - i,
{
    if i < 0 || i >= contacts.len() {
        None
    } else if digits_only(contacts[i].wa_id@) == digits_only(from) {
        Some(i as nat)
    } else {
        contact_index(contacts, from, i + 1)
    }
}

/// The sender's profile name: that of the first contact with the sender's
/// number, if that contact has a profile.
pub open spec fn profile_name_spec(contacts: Seq<WebhookContact>, from: Seq<char>) -> Option<Seq<char>> {
    match contact_index(contacts, from, 0) {
        Some(k) => match contacts[k as int].profile {
            Some(p) => Some(p.name@),
            None => None,
        },
        None => None,
    }
}

/// The handled messages among `ms`, in order.
pub open spec fn handled_messages(ms: Seq<IncomingMessage>, contacts: Seq<WebhookContact>) -> Seq<
    ParsedView,
>
    decreases ms.len(),
{
    if ms.len() == 0 {
        seq![]
    } else {
        let rest = handled_messages(ms.drop_last(), contacts);
        let m = ms.last();
        match message_body_spec(m) {
            Some((text, interactive)) => rest.push(
                ParsedView {
                    from: m.from@,
                    text,
                    is_interactive: interactive,
                    profile_name: profile_name_spec(contacts, m.from@),
                },
            ),
            None => rest,
        }
    }
}

pub open spec fn or_empty<T>(o: Option<Vec<T>>) -> Seq<T> {
    match o {
        Some(v) => v@,
        None => seq![],
    }
}

pub open spec fn change_messages(c: WebhookChange) -> Seq<ParsedView> {
    match c.value {
        Some(v) => handled_messages(or_empty(v.messages), or_empty(v.contacts)),
        None => seq![],
    }
}

pub open spec fn changes_messages(cs: Seq<WebhookChange>) -> Seq<ParsedView>
    decreases cs.len(),
{
    if cs.len() == 0 {
        seq![]
    } else {
        changes_messages(cs.drop_last()) + change_messages(cs.last())
    }
}

pub open spec fn entries_messages(es: Seq<WebhookEntry>) -> Seq<ParsedView>
    decreases es.len(),
{
    if es.len() == 0 {
        seq![]
    } else {
        entries_messages(es.drop_last()) + changes_messages(or_empty(es.last().changes))
    }
}

/// Every handled message of a webhook, in the order the payload lists them.
pub open spec fn incoming_messages_spec(p: WebhookPayload) -> Seq<ParsedView> {
    entries_messages(or_empty(p.entry))
}

proof fn lemma_changes_messages_flat(cs: Seq<WebhookChange>)
    ensures
        changes_messages(cs) == cs.map_values(|c: WebhookChange| change_messages(c)).flatten_alt(),
    decreases cs.len(),
{
    let m = cs.map_values(|c: WebhookChange| change_messages(c));
    if cs.len() > 0 {
        lemma_changes_messages_flat(cs.drop_last());
        assert(cs.drop_last().map_values(|c: WebhookChange| change_messages(c)) =~= m.drop_last());
    }
}

proof fn lemma_entries_messages_flat(es: Seq<WebhookEntry>)
    ensures
        entries_messages(es) == es.map_values(
            |e: WebhookEntry| or_empty(e.changes).map_values(|c: WebhookChange| change_messages(c)).flatten(),
        ).flatten_alt(),
    decreases es.len(),
{
    let f = |e: WebhookEntry| or_empty(e.changes).map_values(|c: WebhookChange| change_messages(c)).flatten();
    let m = es.map_values(f);
    if es.len() > 0 {
        lemma_entries_messages_flat(es.drop_last());
        assert(es.drop_last().map_values(f) =~= m.drop_last());
        let cs = or_empty(es.last().changes);
        lemma_changes_messages_flat(cs);
        cs.map_values(|c: WebhookChange| change_messages(c)).lemma_flatten_and_flatten_alt_are_equivalent();
    }
}

/// A payload's messages are, in order, those of every entry, and within an
/// entry those of every change: no entry and no change is skipped, so the
/// count is the sum over all of them.
pub proof fn lemma_every_entry_and_change_is_read(p: WebhookPayload)
    ensures
        incoming_messages_spec(p) == or_empty(p.entry).map_values(
            |e: WebhookEntry| or_empty(e.changes).map_values(|c: WebhookChange| change_messages(c)).flatten(),
        ).flatten(),
{
    let es = or_empty(p.entry);
    lemma_entries_messages_flat(es);
    es.map_values(
        |e: WebhookEntry| or_empty(e.changes).map_values(|c: WebhookChange| change_messages(c)).flatten(),
    ).lemma_flatten_and_flatten_alt_are_equivalent();
}

fn profile_name(contacts: &Vec<WebhookContact>, from: &String) -> (r: Option<String>)
    ensures
        opt_chars(r) == profile_name_spec(contacts@, from@),
{
    let sender = crate::phone::digits_of(&chars_of(from.as_str()));
    let mut i: usize = 0;
    while i < contacts.len()
        invariant
            i <= contacts.len(),
            sender@ == digits_only(from@),
            contact_index(contacts@, from@, 0) == contact_index(contacts@, from@, i as int),
        decreases contacts.len() - i,
    {
        let id = crate::phone::digits_of(&chars_of(contacts[i].wa_id.as_str()));
        if chars_eq(&id, &sender) {
            return match &contacts[i].profile {
                Some(p) => Some(p.name.clone()),
                None => None,
            };
        }
        i = i + 1;
    }
    None
}

fn value_messages(value: &WebhookValue, out: &mut Vec<ParsedIncomingMessage>)
    ensures
        parsed_view(final(out)@) == parsed_view(old(out)@) + handled_messages(
            or_empty(value.messages),
            or_empty(value.contacts),
        ),
{
    let empty: Vec<WebhookContact> = Vec::new();
    let contacts = match &value.contacts {
        Some(c) => c,
        None => &empty,
    };
    assert(contacts@ == or_empty(value.contacts));
    match &value.messages {
        None => {
            assert(parsed_view(out@) =~= parsed_view(out@) + Seq::<ParsedView>::empty());
        },
        Some(messages) => {
            let ghost start = parsed_view(out@);
            let mut i: usize = 0;
            assert(messages@.take(0) =~= Seq::<IncomingMessage>::empty());
            assert(start + handled_messages(messages@.take(0), contacts@) =~= start);
            while i < messages.len()
                invariant
                    i <= messages.len(),
                    parsed_view(out@) == start + handled_messages(messages@.take(i as int), contacts@),
                decreases messages.len() - i,
            {
                let m = &messages[i];
                assert(messages@.take(i as int + 1).drop_last() =~= messages@.take(i as int));
                assert(messages@.take(i as int + 1).last() == *m);
                let ghost before = parsed_view(out@);
                match message_body(m) {
                    Some((text, is_interactive)) => {
                        let profile = profile_name(contacts, &m.from);
                        out.push(
                            ParsedIncomingMessage {
                                from: m.from.clone(),
                                text,
                                is_interactive,
                                profile_name: profile,
                            },
                        );
                        assert(parsed_view(out@) =~= before.push(
                            ParsedView {
                                from: m.from@,
                                text: out@.last().text@,
                                is_interactive,
                                profile_name: profile_name_spec(contacts@, m.from@),
                            },
                        ));
                    },
                    None => {},
                }
                i = i + 1;
            }
            assert(messages@.take(messages.len() as int) =~= messages@);
        },
    }
}

fn entry_messages(entry: &WebhookEntry, out: &mut Vec<ParsedIncomingMessage>)
    ensures
        parsed_view(final(out)@) == parsed_view(old(out)@) + changes_messages(
            or_empty(entry.changes),
        ),
{
    match &entry.changes {
        None => {
            assert(parsed_view(out@) =~= parsed_view(out@) + Seq::<ParsedView>::empty());
        },
        Some(changes) => {
            let ghost start = parsed_view(out@);
            let mut i: usize = 0;
            assert(changes@.take(0) =~= Seq::<WebhookChange>::empty());
            assert(start + changes_messages(changes@.take(0)) =~= start);
            while i < changes.len()
                invariant
                    i <= changes.len(),
                    parsed_view(out@) == start + changes_messages(changes@.take(i as int)),
                decreases changes.len() - i,
            {
                let c = &changes[i];
                assert(changes@.take(i as int + 1).drop_last() =~= changes@.take(i as int));
                assert(changes@.take(i as int + 1).last() == *c);
                let ghost before = parsed_view(out@);
                match &c.value {
                    Some(v) => value_messages(v, out),
                    None => {},
                }
                assert(parsed_view(out@) =~= before + change_messages(*c));
                assert(start + changes_messages(changes@.take(i as int + 1)) =~= start
                    + changes_messages(changes@.take(i as int)) + change_messages(*c));
                i = i + 1;
            }
            assert(changes@.take(changes.len() as int) =~= changes@);
        },
    }
}

/// The messages the bot handles in a webhook payload, with each sender's
/// profile name when the payload has it.
pub fn incoming_messages(payload: &WebhookPayload) -> (r: Vec<ParsedIncomingMessage>)
    ensures
        parsed_view(r@) == incoming_messages_spec(*payload),
{
    let mut out: Vec<ParsedIncomingMessage> = Vec::new();
    match &payload.entry {
        None => {
            assert(parsed_view(out@) =~= Seq::<ParsedView>::empty());
        },
        Some(entries) => {
            let mut i: usize = 0;
            assert(parsed_view(out@) =~= entries_messages(entries@.take(0)));
            while i < entries.len()
                invariant
                    i <= entries.len(),
                    parsed_view(out@) == entries_messages(entries@.take(i as int)),
                decreases entries.len() - i,
            {
                let e = &entries[i];
                assert(entries@.take(i as int + 1).drop_last() =~= entries@.take(i as int));
                assert(entries@.take(i as int + 1).last() == *e);
                entry_messages(e, &mut out);
                i = i + 1;
            }
            assert(entries@.take(entries.len() as int) =~= entries@);
        },
    }
    out
}

// ---------------------------------------------------------------------------
// Webhook verification
// ---------------------------------------------------------------------------

/// The answer to WhatsApp's verification request: its challenge, when the
/// mode is `subscribe` and the token sent equals the one configured.
pub open spec fn verification_spec(
    mode: Option<Seq<char>>,
    token: Option<Seq<char>>,
    expected: Option<Seq<char>>,
    challenge: Option<Seq<char>>,
) -> Option<Seq<char>> {
    if mode == Some("subscribe"@) && expected is Some && token == expected {
        challenge
    } else {
        None
    }
}

/// The challenge to echo back when a subscription request is genuine;
/// `None` means the request is refused.
pub fn verify_subscription(
    mode: Option<&str>,
    token: Option<&str>,
    expected: Option<&str>,
    challenge: Option<String>,
) -> (r: Option<String>)
    ensures
        opt_chars(r) == verification_spec(
            crate::text::opt_str_chars(mode),
            crate::text::opt_str_chars(token),
            crate::text::opt_str_chars(expected),
            opt_chars(challenge),
        ),
{
    let subscribed = match mode {
        Some(m) => chars_eq_str(&chars_of(m), "subscribe"),
        None => false,
    };
    let token_ok = match (token, expected) {
        (Some(t), Some(e)) => chars_eq_str(&chars_of(t), e),
        _ => false,
    };
    if subscribed && token_ok {
        challenge
    } else {
        None
    }
}

} // verus!
