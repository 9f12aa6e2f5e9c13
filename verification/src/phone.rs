//! Phone numbers: normalisation to digits and the labels shown for a contact.

use vstd::prelude::*;
use crate::text::{
    byte_len, chars_eq, chars_of, extend_chars, is_ascii_digit, is_digit, string_of, trim,
    trimmed, utf8_len, opt_str_chars,
};

verus! {

/// The ASCII digits of `s`, in order.
pub open spec fn digits_only(s: Seq<char>) -> Seq<char>
    decreases s.len(),
{
    if s.len() == 0 {
        seq![]
    } else if is_digit(s.last()) {
        digits_only(s.drop_last()).push(s.last())
    } else {
        digits_only(s.drop_last())
    }
}

/// Text "looks like" a phone number when, once trimmed, it is not empty,
/// holds at least eight digits, and digits make up at least half of its bytes.
pub open spec fn looks_like_phone_spec(s: Seq<char>) -> bool {
    let t = trim(s);
    t.len() > 0 && digits_only(t).len() >= 8 && digits_only(t).len() * 2 >= utf8_len(t)
}

/// `+` and the digits of the number, or the text as given when it has no digits.
pub open spec fn display_phone_spec(phone: Seq<char>) -> Seq<char> {
    let d = digits_only(phone);
    if d.len() == 0 {
        phone
    } else {
        seq!['+'] + d
    }
}

/// The trimmed display name when there is a non-blank one, else the phone as displayed.
pub open spec fn contact_label_spec(phone: Seq<char>, name: Option<Seq<char>>) -> Seq<char> {
    match name {
        Some(n) => if trim(n).len() > 0 {
            trim(n)
        } else {
            display_phone_spec(phone)
        },
        None => display_phone_spec(phone),
    }
}

pub open spec fn partner_label_spec(
    phone: Seq<char>,
    language: Seq<char>,
    name: Option<Seq<char>>,
) -> Seq<char> {
    contact_label_spec(phone, name) + " ("@ + language + ")"@
}

/// Normalising is idempotent: the digits of a digit string are the string itself.
pub proof fn lemma_digits_only_idempotent(s: Seq<char>)
    ensures
        digits_only(digits_only(s)) == digits_only(s),
    decreases s.len(),
{
    if s.len() > 0 {
        lemma_digits_only_idempotent(s.drop_last());
        let d = digits_only(s.drop_last());
        if is_digit(s.last()) {
            assert(d.push(s.last()).drop_last() =~= d);
        }
    }
}

pub proof fn lemma_digits_only_len(s: Seq<char>)
    ensures
        digits_only(s).len() <= s.len(),
    decreases s.len(),
{
    if s.len() > 0 {
        lemma_digits_only_len(s.drop_last());
    }
}

/// The digits of a character sequence.
pub fn digits_of(v: &Vec<char>) -> (r: Vec<char>)
    ensures
        r@ == digits_only(v@),
{
    let mut r: Vec<char> = Vec::new();
    let mut i: usize = 0;
    while i < v.len()
        invariant
            i <= v.len(),
            r@ == digits_only(v@.take(i as int)),
        decreases v.len() - i,
    {
        assert(v@.take(i as int + 1).drop_last() =~= v@.take(i as int));
        assert(v@.take(i as int + 1).last() == v@[i as int]);
        if is_ascii_digit(v[i]) {
            r.push(v[i]);
        }
        i = i + 1;
    }
    assert(v@.take(v.len() as int) =~= v@);
    r
}

/// Keeps only the ASCII digits of a phone number.
pub fn normalize_phone(phone: &str) -> (r: String)
    ensures
        r@ == digits_only(phone@),
{
    let v = chars_of(phone);
    let d = digits_of(&v);
    string_of(&d)
}

/// Two numbers match when their digits are the same.
pub fn phones_match(left: &str, right: &str) -> (r: bool)
    ensures
        r == (digits_only(left@) == digits_only(right@)),
{
    let l = digits_of(&chars_of(left));
    let r = digits_of(&chars_of(right));
    chars_eq(&l, &r)
}

/// Whether text is more likely a phone number than a word.
pub fn looks_like_phone(text: &str) -> (r: bool)
    ensures
        r == looks_like_phone_spec(text@),
{
    let t = trimmed(text);
    if t.len() == 0 {
        return false;
    }
    let d = digits_of(&t);
    let bytes = byte_len(&t);
    proof {
        lemma_digits_only_len(t@);
    }
    d.len() >= 8 && d.len() as u128 * 2 >= bytes
}

/// A number as shown to users: `+` followed by its digits.
pub fn display_phone(phone: &str) -> (r: String)
    ensures
        r@ == display_phone_spec(phone@),
{
    let v = chars_of(phone);
    let d = digits_of(&v);
    if d.len() == 0 {
        return string_of(&v);
    }
    let mut out: Vec<char> = Vec::new();
    out.push('+');
    extend_chars(&mut out, &d);
    assert(out@ =~= seq!['+'] + d@);
    string_of(&out)
}

/// The label for a contact: its display name, or its number.
pub fn contact_label(phone: &str, display_name: Option<&str>) -> (r: String)
    ensures
        r@ == contact_label_spec(phone@, opt_str_chars(display_name)),
{
    if let Some(name) = display_name {
        let t = trimmed(name);
        if t.len() > 0 {
            return string_of(&t);
        }
    }
    display_phone(phone)
}

/// The label for a chat partner: contact label and language.
pub fn partner_label(phone: &str, language: &str, display_name: Option<&str>) -> (r: String)
    ensures
        r@ == partner_label_spec(phone@, language@, opt_str_chars(display_name)),
{
    let mut r = contact_label(phone, display_name);
    r.append(" (");
    r.append(language);
    r.append(")");
    r
}

} // verus!
