//! Morning reminders: when a user gets one, what it says, and the commands
//! that set the user's time zone or turn reminders off.

use vstd::prelude::*;
use crate::conversations::{
    format_listing_partner, format_listing_role_desc, format_listing_status_text,
    listing_awaits_user_reply, listing_awaits_user_reply_spec, listing_partner_spec,
    listing_role_desc_spec, listing_status_text_spec,
};
use crate::db::ConversationListing;
use crate::phone::digits_only;
use crate::text::{
    chars_eq_str, chars_of, join, join_words, opt_str_chars, string_of, strip_prefix,
    strip_prefix_chars, trim, trim_chars, trimmed, views,
};

verus! {

pub const DEFAULT_TIMEZONE: &'static str = "Europe/Oslo";

/// Reminders go out in the hour that starts at 8:00 local time.
pub const MORNING_HOUR: u32 = 8;

pub const DISABLE_DAILY_REMINDERS_BUTTON: &'static str = "reminders_off";

pub const REMINDERS_OFF_TEXT: &'static str = "Daily reminders turned off.";

/// The "Turn off reminders" button.
pub fn is_disable_daily_reminders_button(text: &str) -> (r: bool)
    ensures
        r == (text@ == DISABLE_DAILY_REMINDERS_BUTTON@),
{
    chars_eq_str(&chars_of(text), DISABLE_DAILY_REMINDERS_BUTTON)
}

// ---------------------------------------------------------------------------
// Time zones and timestamps (chrono-tz, chrono)
// ---------------------------------------------------------------------------

/// Whether chrono-tz knows a time zone by this exact name.
pub uninterp spec fn known_timezone(name: Seq<char>) -> bool;

/// Trusted: `chrono_tz::Tz::from_str` looks the name up in the time-zone
/// table compiled into chrono-tz and succeeds exactly when it is there; the
/// result depends on the name alone, which `known_timezone` names. Which
/// names the table holds is not stated.
#[verifier::external_body]
fn timezone_is_known(name: &str) -> (r: bool)
    ensures
        r == known_timezone(name@),
{
    <chrono_tz::Tz as core::str::FromStr>::from_str(name).is_ok()
}

/// The seconds since the Unix epoch of a `%Y-%m-%d %H:%M:%S` timestamp read
/// as UTC, when chrono can read it.
pub uninterp spec fn utc_seconds(raw: Seq<char>) -> Option<i64>;

/// Trusted: `chrono::NaiveDateTime::parse_from_str` with the format
/// `%Y-%m-%d %H:%M:%S`, and the result taken as UTC in whole seconds
/// (`and_utc().timestamp()`). The result depends on the text alone, which
/// `utc_seconds` names; which texts chrono accepts is not stated.
#[verifier::external_body]
fn parse_utc_seconds(raw: &str) -> (r: Option<i64>)
    ensures
        r == utc_seconds(raw@),
{
    match chrono::NaiveDateTime::parse_from_str(raw, "%Y-%m-%d %H:%M:%S") {
        Ok(at) => Some(at.and_utc().timestamp()),
        Err(_) => None,
    }
}

/// The time zone a user's reminders follow: the stored one when chrono-tz
/// knows it, else the default.
pub open spec fn reminder_timezone_spec(stored: Option<Seq<char>>) -> Seq<char> {
    match stored {
        Some(name) => if known_timezone(name) {
            name
        } else {
            DEFAULT_TIMEZONE@
        },
        None => DEFAULT_TIMEZONE@,
    }
}

/// The time zone to compute a user's local morning in.
pub fn reminder_timezone(stored: Option<&str>) -> (r: String)
    ensures
        r@ == reminder_timezone_spec(opt_str_chars(stored)),
{
    match stored {
        Some(name) => {
            if timezone_is_known(name) {
                String::from_str(name)
            } else {
                String::from_str(DEFAULT_TIMEZONE)
            }
        },
        None => String::from_str(DEFAULT_TIMEZONE),
    }
}

/// The local hour and the local date (as `%Y-%m-%d`) at an instant, given
/// in seconds since the Unix epoch, in a named time zone.
pub uninterp spec fn local_clock(timezone: Seq<char>, unix_seconds: i64) -> Option<(u32, Seq<char>)>;

/// Trusted: finds the zone with `chrono_tz::Tz::from_str`, makes the instant
/// with `chrono::DateTime::from_timestamp(unix_seconds, 0)`, moves it into
/// the zone with `with_timezone`, and reads its `hour()` and its date as
/// `format("%Y-%m-%d")` writes it; `None` when the zone is unknown or the
/// instant is outside chrono's range. The result depends on the two
/// arguments alone (the zone table is compiled into chrono-tz), which
/// `local_clock` names; the hour is below 24, as `Timelike::hour` documents.
/// Which hour and date come out is not stated.
#[verifier::external_body]
fn local_hour_and_date(timezone: &str, unix_seconds: i64) -> (r: Option<(u32, String)>)
    ensures
        match r {
            Some(p) => local_clock(timezone@, unix_seconds) == Some((p.0, p.1@)) && p.0 < 24,
            None => local_clock(timezone@, unix_seconds) is None,
        },
{
    let tz = <chrono_tz::Tz as core::str::FromStr>::from_str(timezone).ok()?;
    let local = chrono::DateTime::from_timestamp(unix_seconds, 0)?.with_timezone(&tz);
    Some((chrono::Timelike::hour(&local), local.format("%Y-%m-%d").to_string()))
}

/// The name after `SET TIMEZONE `, trimmed, when there is one.
pub open spec fn timezone_candidate_spec(text: Seq<char>) -> Option<Seq<char>> {
    match strip_prefix(trim(text), "SET TIMEZONE "@) {
        Some(rest) => if trim(rest).len() > 0 {
            Some(trim(rest))
        } else {
            None
        },
        None => None,
    }
}

/// The name that `SET TIMEZONE <name>` gives, before it is checked.
pub fn timezone_candidate(text: &str) -> (r: Option<String>)
    ensures
        crate::text::opt_chars(r) == timezone_candidate_spec(text@),
{
    let t = trimmed(text);
    match strip_prefix_chars(&t, "SET TIMEZONE ") {
        Some(rest) => {
            let name = trim_chars(&rest);
            if name.len() > 0 {
                Some(string_of(&name))
            } else {
                None
            }
        },
        None => None,
    }
}

/// `SET TIMEZONE <name>` with a name that chrono-tz knows.
pub fn parse_timezone_name(text: &str) -> (r: Option<String>)
    ensures
        match timezone_candidate_spec(text@) {
            Some(name) => if known_timezone(name) {
                r is Some && r->0@ == name
            } else {
                r is None
            },
            None => r is None,
        },
{
    match timezone_candidate(text) {
        Some(name) => if timezone_is_known(name.as_str()) {
            Some(name)
        } else {
            None
        },
        None => None,
    }
}

pub open spec fn inactive_spec(last_message_at: Option<Seq<char>>, now: i64) -> bool {
    match last_message_at {
        None => true,
        Some(raw) => match utc_seconds(raw) {
            None => true,
            Some(at) => now - at >= 3600,
        },
    }
}

/// Whether the user has been quiet for at least an hour at `now` (Unix
/// seconds): no recorded message, or one that cannot be read, counts as quiet.
pub fn user_inactive_for_hour(last_message_at: Option<&str>, now: i64) -> (r: bool)
    ensures
        r == inactive_spec(opt_str_chars(last_message_at), now),
{
    match last_message_at {
        None => true,
        Some(raw) => match parse_utc_seconds(raw) {
            None => true,
            Some(at) => (now as i128) - (at as i128) >= 3600,
        },
    }
}

pub open spec fn reminder_due_spec(
    enabled: bool,
    local_hour: u32,
    local_date: Seq<char>,
    last_reminder_date: Option<Seq<char>>,
    inactive: bool,
) -> bool {
    enabled && local_hour == 8 && last_reminder_date != Some(local_date) && inactive
}

/// A morning reminder is due when reminders are on, it is the 8 o'clock hour
/// locally, none was sent today (`local_date`), and the user has been quiet
/// for an hour.
pub fn morning_reminder_due(
    enabled: bool,
    local_hour: u32,
    local_date: &str,
    last_reminder_date: Option<&str>,
    inactive: bool,
) -> (r: bool)
    ensures
        r == reminder_due_spec(
            enabled,
            local_hour,
            local_date@,
            opt_str_chars(last_reminder_date),
            inactive,
        ),
{
    if !enabled || local_hour != MORNING_HOUR || !inactive {
        return false;
    }
    match last_reminder_date {
        Some(d) => !chars_eq_str(&chars_of(d), local_date),
        None => true,
    }
}

// ---------------------------------------------------------------------------
// The reminder
// ---------------------------------------------------------------------------

/// The listings that wait for the viewer, in order.
pub open spec fn awaiting(ls: Seq<ConversationListing>, viewer: Seq<char>) -> Seq<ConversationListing>
    decreases ls.len(),
{
    if ls.len() == 0 {
        seq![]
    } else if listing_awaits_user_reply_spec(ls.last(), viewer) {
        awaiting(ls.drop_last(), viewer).push(ls.last())
    } else {
        awaiting(ls.drop_last(), viewer)
    }
}

/// A reminder names exactly the chats that wait for the user: each one it
/// lists does, and each one that does is listed.
pub proof fn lemma_reminder_lists_waiting_chats(ls: Seq<ConversationListing>, viewer: Seq<char>)
    ensures
        forall|i: int|
            0 <= i < awaiting(ls, viewer).len() ==> listing_awaits_user_reply_spec(
                #[trigger] awaiting(ls, viewer)[i],
                viewer,
            ) && ls.contains(awaiting(ls, viewer)[i]),
        forall|j: int|
            0 <= j < ls.len() && listing_awaits_user_reply_spec(#[trigger] ls[j], viewer) ==> awaiting(
                ls,
                viewer,
            ).contains(ls[j]),
    decreases ls.len(),
{
    if ls.len() > 0 {
        let rest = ls.drop_last();
        lemma_reminder_lists_waiting_chats(rest, viewer);
        let a = awaiting(ls, viewer);
        let ar = awaiting(rest, viewer);
        assert forall|i: int| 0 <= i < a.len() implies listing_awaits_user_reply_spec(
            #[trigger] a[i],
            viewer,
        ) && ls.contains(a[i]) by {
            if i < ar.len() {
                assert(a[i] == ar[i]);
                let k = choose|k: int| 0 <= k < rest.len() && rest[k] == ar[i];
                assert(ls[k] == rest[k]);
            } else {
                assert(a[i] == ls.last());
                assert(ls[ls.len() - 1] == ls.last());
            }
        }
        assert forall|j: int| 0 <= j < ls.len() && listing_awaits_user_reply_spec(
            #[trigger] ls[j],
            viewer,
        ) implies a.contains(ls[j]) by {
            if j < ls.len() - 1 {
                assert(rest[j] == ls[j]);
                assert(ar.contains(rest[j]));
                let k = choose|k: int| 0 <= k < ar.len() && ar[k] == rest[j];
                assert(a[k] == ar[k]);
            } else {
                assert(a[a.len() - 1] == ls.last());
            }
        }
    }
}

/// The user's conversations that wait for them to write.
pub fn listings_awaiting_reply(listings: Vec<ConversationListing>, phone: &str) -> (r: Vec<
    ConversationListing,
>)
    ensures
        r@ == awaiting(listings@, digits_only(phone@)),
{
    let viewer = crate::phone::normalize_phone(phone);
    let ghost orig = listings@;
    assert(orig.len() == listings.len());
    let mut input = listings;
    let mut out: Vec<ConversationListing> = Vec::new();
    let mut n: usize = 0;
    assert(orig.take(0) =~= Seq::<ConversationListing>::empty());
    while input.len() > 0
        invariant
            n <= orig.len() <= usize::MAX,
            input@ == orig.skip(n as int),
            input@.len() == orig.len() - n,
            viewer@ == digits_only(phone@),
            out@ == awaiting(orig.take(n as int), viewer@),
        decreases input.len(),
    {
        let x = input.remove(0);
        assert(x == orig[n as int]);
        assert(input@ =~= orig.skip(n as int + 1));
        assert(orig.take(n as int + 1).drop_last() =~= orig.take(n as int));
        assert(orig.take(n as int + 1).last() == x);
        if listing_awaits_user_reply(&x, viewer.as_str()) {
            out.push(x);
        }
        n = n + 1;
    }
    assert(orig.take(n as int) =~= orig);
    out
}

pub open spec fn reminder_line(l: ConversationListing) -> Seq<char> {
    let status = listing_status_text_spec(l);
    let detail = if status.len() == 0 {
        listing_role_desc_spec(l)
    } else {
        listing_role_desc_spec(l) + ", "@ + status
    };
    "• "@ + listing_partner_spec(l) + " — "@ + detail
}

pub open spec fn reminder_spec(ls: Seq<ConversationListing>) -> Seq<char> {
    join(
        seq!["Good morning! You have chats waiting for a reply:"@, seq![]] + Seq::new(
            ls.len(),
            |i: int| reminder_line(ls[i]),
        ) + seq![
            seq![],
            "Open WhatsApp and reply when you're ready, or send MENU for options."@,
        ],
        "\n"@,
    )
}

fn reminder_line_of(l: &ConversationListing) -> (r: Vec<char>)
    ensures
        r@ == reminder_line(*l),
{
    let partner = format_listing_partner(l);
    let role_desc = format_listing_role_desc(l);
    let status = format_listing_status_text(l);
    let mut line = String::from_str("• ");
    line.append(partner.as_str());
    line.append(" — ");
    line.append(role_desc.as_str());
    if !status.as_str().is_empty() {
        line.append(", ");
        line.append(status.as_str());
    }
    chars_of(line.as_str())
}

fn push_line(lines: &mut Vec<Vec<char>>, s: &str)
    ensures
        views(final(lines)@) == views(old(lines)@).push(s@),
{
    let ghost before = views(lines@);
    lines.push(chars_of(s));
    assert(views(lines@) =~= before.push(s@));
}

/// The morning reminder listing the chats that wait for the user.
pub fn format_reminder_message(listings: &Vec<ConversationListing>) -> (r: String)
    ensures
        r@ == reminder_spec(listings@),
{
    let ghost middle = Seq::new(listings@.len(), |i: int| reminder_line(listings@[i]));
    let mut lines: Vec<Vec<char>> = Vec::new();
    assert(views(lines@) =~= Seq::<Seq<char>>::empty());
    push_line(&mut lines, "Good morning! You have chats waiting for a reply:");
    push_line(&mut lines, "");
    let ghost head = views(lines@);
    let mut i: usize = 0;
    while i < listings.len()
        invariant
            i <= listings.len(),
            middle == Seq::new(listings@.len(), |i: int| reminder_line(listings@[i])),
            views(lines@) == head + middle.take(i as int),
        decreases listings.len() - i,
    {
        let ghost before = views(lines@);
        lines.push(reminder_line_of(&listings[i]));
        assert(views(lines@) =~= before.push(middle[i as int]));
        assert(middle.take(i as int + 1) =~= middle.take(i as int).push(middle[i as int]));
        i = i + 1;
    }
    assert(middle.take(listings.len() as int) =~= middle);
    push_line(&mut lines, "");
    push_line(&mut lines, "Open WhatsApp and reply when you're ready, or send MENU for options.");
    proof {
        reveal_strlit("");
        assert(""@ =~= Seq::<char>::empty());
    }
    assert(views(lines@) =~= seq!["Good morning! You have chats waiting for a reply:"@, seq![]]
        + middle + seq![
        seq![],
        "Open WhatsApp and reply when you're ready, or send MENU for options."@,
    ]);
    string_of(&join_words(&lines, "\n"))
}

pub open spec fn timezone_set_spec(timezone: Seq<char>) -> Seq<char> {
    "Timezone set to "@ + timezone + ". Morning reminders arrive around 8:00 local time."@
}

/// The confirmation of `SET TIMEZONE`.
pub fn timezone_set_text(timezone: &str) -> (r: String)
    ensures
        r@ == timezone_set_spec(timezone@),
{
    let mut r = String::from_str("Timezone set to ");
    r.append(timezone);
    r.append(". Morning reminders arrive around 8:00 local time.");
    r
}

/// The local date under which a morning reminder is sent now (`now` in
/// seconds since the Unix epoch), or `None` when none is due: reminders are
/// on, it is the 8 o'clock hour in the user's zone (the stored one when
/// known, else the default), none went out that local day, and the user has
/// been quiet for an hour.
pub open spec fn reminder_date_spec(
    enabled: bool,
    stored_timezone: Option<Seq<char>>,
    now: i64,
    last_reminder_date: Option<Seq<char>>,
    last_message_at: Option<Seq<char>>,
) -> Option<Seq<char>> {
    match local_clock(reminder_timezone_spec(stored_timezone), now) {
        None => None,
        Some((hour, date)) => if reminder_due_spec(
            enabled,
            hour,
            date,
            last_reminder_date,
            inactive_spec(last_message_at, now),
        ) {
            Some(date)
        } else {
            None
        },
    }
}

/// Whether a user's morning reminder is due now, and the local date to
/// record it under.
pub fn morning_reminder_date(
    enabled: bool,
    stored_timezone: Option<&str>,
    now: i64,
    last_reminder_date: Option<&str>,
    last_message_at: Option<&str>,
) -> (r: Option<String>)
    ensures
        crate::text::opt_chars(r) == reminder_date_spec(
            enabled,
            opt_str_chars(stored_timezone),
            now,
            opt_str_chars(last_reminder_date),
            opt_str_chars(last_message_at),
        ),
{
    let timezone = reminder_timezone(stored_timezone);
    match local_hour_and_date(timezone.as_str(), now) {
        None => None,
        Some((hour, date)) => {
            let inactive = user_inactive_for_hour(last_message_at, now);
            if morning_reminder_due(enabled, hour, date.as_str(), last_reminder_date, inactive) {
                Some(date)
            } else {
                None
            }
        },
    }
}

} // verus!
