//! Text helpers over character sequences: conversion between `&str`, `String`
//! and `Vec<char>`, whitespace handling, ASCII case folding, decimal numbers
//! and UTF-8 byte lengths.

use vstd::prelude::*;

verus! {

// ---------------------------------------------------------------------------
// Specifications
// ---------------------------------------------------------------------------

/// Unicode `White_Space`, the set that `char::is_whitespace` and
/// `str::trim` / `str::split_whitespace` use.
pub open spec fn is_white(c: char) -> bool {
    let u = c as u32;
    (9 <= u && u <= 13) || u == 32 || u == 0x85 || u == 0xa0 || u == 0x1680 || (0x2000 <= u
        && u <= 0x200a) || u == 0x2028 || u == 0x2029 || u == 0x202f || u == 0x205f || u == 0x3000
}

pub open spec fn is_digit(c: char) -> bool {
    '0' <= c && c <= '9'
}

pub open spec fn ascii_upper(c: char) -> char {
    if 'a' <= c && c <= 'z' {
        ((c as u32) - 32) as char
    } else {
        c
    }
}

pub open spec fn ascii_lower(c: char) -> char {
    if 'A' <= c && c <= 'Z' {
        ((c as u32) + 32) as char
    } else {
        c
    }
}

/// `str::to_ascii_uppercase`.
pub open spec fn upper(s: Seq<char>) -> Seq<char> {
    Seq::new(s.len(), |i: int| ascii_upper(s[i]))
}

/// `str::to_ascii_lowercase`.
pub open spec fn lower(s: Seq<char>) -> Seq<char> {
    Seq::new(s.len(), |i: int| ascii_lower(s[i]))
}

/// `str::eq_ignore_ascii_case`.
pub open spec fn eq_ignore_case(a: Seq<char>, b: Seq<char>) -> bool {
    a.len() == b.len() && forall|i: int| 0 <= i < a.len() ==> ascii_lower(a[i]) == ascii_lower(b[i])
}

/// `str::trim_start`: the sequence without its leading whitespace.
pub open spec fn trim_start(s: Seq<char>) -> Seq<char>
    decreases s.len(),
{
    if s.len() > 0 && is_white(s[0]) {
        trim_start(s.drop_first())
    } else {
        s
    }
}

/// `str::trim_end`: the sequence without its trailing whitespace.
pub open spec fn trim_end(s: Seq<char>) -> Seq<char>
    decreases s.len(),
{
    if s.len() > 0 && is_white(s.last()) {
        trim_end(s.drop_last())
    } else {
        s
    }
}

/// `str::trim`.
pub open spec fn trim(s: Seq<char>) -> Seq<char> {
    trim_end(trim_start(s))
}

/// Words of `s` after the word `cur` that is being read: the pieces that
/// `str::split_whitespace` yields.
pub open spec fn words_after(s: Seq<char>, cur: Seq<char>) -> Seq<Seq<char>>
    decreases s.len(),
{
    if s.len() == 0 {
        if cur.len() > 0 {
            seq![cur]
        } else {
            seq![]
        }
    } else if is_white(s[0]) {
        (if cur.len() > 0 {
            seq![cur]
        } else {
            Seq::<Seq<char>>::empty()
        }) + words_after(s.drop_first(), seq![])
    } else {
        words_after(s.drop_first(), cur.push(s[0]))
    }
}

/// `str::split_whitespace`: the maximal runs of non-whitespace characters.
pub open spec fn words(s: Seq<char>) -> Seq<Seq<char>> {
    words_after(s, seq![])
}

/// The character sequences held by a vector of character vectors.
pub open spec fn views(ws: Seq<Vec<char>>) -> Seq<Seq<char>> {
    Seq::new(ws.len(), |i: int| ws[i]@)
}

/// `[&str]::join(sep)`.
pub open spec fn join(ws: Seq<Seq<char>>, sep: Seq<char>) -> Seq<char>
    decreases ws.len(),
{
    if ws.len() == 0 {
        seq![]
    } else if ws.len() == 1 {
        ws[0]
    } else {
        join(ws.drop_last(), sep) + sep + ws.last()
    }
}

pub open spec fn has_prefix(s: Seq<char>, p: Seq<char>) -> bool {
    p.len() <= s.len() && s.take(p.len() as int) == p
}

/// `str::strip_prefix`.
pub open spec fn strip_prefix(s: Seq<char>, p: Seq<char>) -> Option<Seq<char>> {
    if has_prefix(s, p) {
        Some(s.skip(p.len() as int))
    } else {
        None
    }
}

pub open spec fn all_digits(s: Seq<char>) -> bool {
    forall|i: int| 0 <= i < s.len() ==> is_digit(s[i])
}

pub open spec fn digit_value(c: char) -> nat {
    ((c as u32) - ('0' as u32)) as nat
}

/// The number that a run of decimal digits denotes.
pub open spec fn digits_value(s: Seq<char>) -> nat
    decreases s.len(),
{
    if s.len() == 0 {
        0
    } else {
        digits_value(s.drop_last()) * 10 + digit_value(s.last())
    }
}

/// The magnitude that `s` denotes when it is a non-empty run of digits,
/// after an optional leading `+`.
pub open spec fn unsigned_value(s: Seq<char>) -> Option<nat> {
    let d = if s.len() > 0 && s[0] == '+' {
        s.drop_first()
    } else {
        s
    };
    if d.len() > 0 && all_digits(d) {
        Some(digits_value(d))
    } else {
        None
    }
}

/// `s.parse::<usize>()`, with `None` for every error.
pub open spec fn parse_usize_spec(s: Seq<char>) -> Option<usize> {
    match unsigned_value(s) {
        Some(v) => if v <= usize::MAX {
            Some(v as usize)
        } else {
            None
        },
        None => None,
    }
}

/// `s.parse::<i64>()`, with `None` for every error.
pub open spec fn parse_i64_spec(s: Seq<char>) -> Option<i64> {
    if s.len() > 0 && s[0] == '-' {
        let d = s.drop_first();
        if d.len() > 0 && all_digits(d) && digits_value(d) <= 0x8000_0000_0000_0000 {
            Some((-digits_value(d)) as i64)
        } else {
            None
        }
    } else {
        match unsigned_value(s) {
            Some(v) => if v <= i64::MAX {
                Some(v as i64)
            } else {
                None
            },
            None => None,
        }
    }
}

pub open spec fn digit_char(d: nat) -> char {
    if d == 0 {
        '0'
    } else if d == 1 {
        '1'
    } else if d == 2 {
        '2'
    } else if d == 3 {
        '3'
    } else if d == 4 {
        '4'
    } else if d == 5 {
        '5'
    } else if d == 6 {
        '6'
    } else if d == 7 {
        '7'
    } else if d == 8 {
        '8'
    } else {
        '9'
    }
}

/// The decimal digits of `n`, as `Display` writes them.
pub open spec fn decimal(n: nat) -> Seq<char>
    decreases n,
{
    if n < 10 {
        seq![digit_char(n)]
    } else {
        decimal(n / 10).push(digit_char(n % 10))
    }
}

/// A signed integer as `Display` writes it.
pub open spec fn int_decimal(i: int) -> Seq<char> {
    if i < 0 {
        seq!['-'] + decimal((-i) as nat)
    } else {
        decimal(i as nat)
    }
}

/// Bytes that the UTF-8 encoding of `c` takes.
pub open spec fn utf8_width(c: char) -> nat {
    let u = c as u32;
    if u < 0x80 {
        1
    } else if u < 0x800 {
        2
    } else if u < 0x10000 {
        3
    } else {
        4
    }
}

/// Bytes that the UTF-8 encoding of `s` takes (`str::len`).
pub open spec fn utf8_len(s: Seq<char>) -> nat
    decreases s.len(),
{
    if s.len() == 0 {
        0
    } else {
        utf8_len(s.drop_last()) + utf8_width(s.last())
    }
}

/// `String::truncate(max)` would cut `s` on a character boundary
/// (or not at all): the cases in which it does not panic.
pub open spec fn cuts_cleanly(s: Seq<char>, max: nat) -> bool {
    utf8_len(s) <= max || exists|k: int| 0 <= k <= s.len() && utf8_len(s.take(k)) == max
}

/// The number of leading characters that `String::truncate(max)` keeps.
pub open spec fn kept_chars(s: Seq<char>, max: nat) -> int {
    choose|k: int| 0 <= k <= s.len() && utf8_len(s.take(k)) == max
}

/// `String::truncate(max)` on a string whose byte length exceeds `max`
/// (applied only where `cuts_cleanly` holds).
pub open spec fn truncate_bytes(s: Seq<char>, max: nat) -> Seq<char> {
    if utf8_len(s) <= max {
        s
    } else {
        s.take(kept_chars(s, max))
    }
}

/// At most `max` characters of `s`, followed by an ellipsis when some were cut.
pub open spec fn shorten(s: Seq<char>, max: nat) -> Seq<char> {
    if s.len() <= max {
        s
    } else {
        s.take(max as int) + seq!['…']
    }
}

/// The characters of an optional string.
pub open spec fn opt_chars(o: Option<String>) -> Option<Seq<char>> {
    match o {
        Some(s) => Some(s@),
        None => None,
    }
}

/// The characters of an optional string slice.
pub open spec fn opt_str_chars(o: Option<&str>) -> Option<Seq<char>> {
    match o {
        Some(s) => Some(s@),
        None => None,
    }
}

// ---------------------------------------------------------------------------
// Lemmas
// ---------------------------------------------------------------------------

proof fn lemma_trim_start_at(s: Seq<char>, i: int)
    requires
        0 <= i <= s.len(),
        forall|k: int| 0 <= k < i ==> is_white(#[trigger] s[k]),
        i == s.len() || !is_white(s[i]),
    ensures
        trim_start(s) == s.skip(i),
    decreases i,
{
    if i == 0 {
        assert(s.skip(0) =~= s);
    } else {
        let t = s.drop_first();
        assert forall|k: int| 0 <= k < i - 1 implies is_white(#[trigger] t[k]) by {
            assert(t[k] == s[k + 1]);
        }
        if i - 1 < t.len() {
            assert(t[i - 1] == s[i]);
        }
        lemma_trim_start_at(t, i - 1);
        assert(t.skip(i - 1) =~= s.skip(i));
    }
}

proof fn lemma_trim_end_at(s: Seq<char>, j: int)
    requires
        0 <= j <= s.len(),
        forall|k: int| j <= k < s.len() ==> is_white(#[trigger] s[k]),
        j == 0 || !is_white(s[j - 1]),
    ensures
        trim_end(s) == s.take(j),
    decreases s.len() - j,
{
    if j == s.len() {
        assert(s.take(j) =~= s);
    } else {
        let t = s.drop_last();
        assert(is_white(s[s.len() - 1]));
        assert forall|k: int| j <= k < t.len() implies is_white(#[trigger] t[k]) by {
            assert(t[k] == s[k]);
        }
        if j > 0 {
            assert(t[j - 1] == s[j - 1]);
        }
        lemma_trim_end_at(t, j);
        assert(t.take(j) =~= s.take(j));
    }
}

proof fn lemma_trim_start_shape(s: Seq<char>)
    ensures
        trim_start(s).len() == 0 || !is_white(trim_start(s)[0]),
    decreases s.len(),
{
    if s.len() > 0 && is_white(s[0]) {
        lemma_trim_start_shape(s.drop_first());
    }
}

proof fn lemma_trim_end_shape(s: Seq<char>)
    ensures
        trim_end(s).len() <= s.len(),
        forall|i: int| 0 <= i < trim_end(s).len() ==> #[trigger] trim_end(s)[i] == s[i],
        trim_end(s).len() == 0 || !is_white(trim_end(s).last()),
    decreases s.len(),
{
    if s.len() > 0 && is_white(s.last()) {
        lemma_trim_end_shape(s.drop_last());
    }
}

/// Trimming twice is trimming once.
pub proof fn lemma_trim_idempotent(s: Seq<char>)
    ensures
        trim(trim(s)) == trim(s),
{
    let u = trim_start(s);
    let t = trim(s);
    lemma_trim_start_shape(s);
    lemma_trim_end_shape(u);
    if t.len() > 0 {
        assert(t[0] == u[0]);
        assert(trim_start(t) == t);
        assert(trim_end(t) == t);
    }
}

proof fn lemma_digits_value_prefix(s: Seq<char>, k: int)
    requires
        0 <= k <= s.len(),
    ensures
        digits_value(s.take(k)) <= digits_value(s),
    decreases s.len() - k,
{
    if k < s.len() {
        lemma_digits_value_prefix(s, k + 1);
        assert(s.take(k + 1).drop_last() =~= s.take(k));
    } else {
        assert(s.take(k) =~= s);
    }
}

proof fn lemma_utf8_width_pos(c: char)
    ensures
        1 <= utf8_width(c) <= 4,
{
}

proof fn lemma_utf8_len_take_step(s: Seq<char>, k: int)
    requires
        0 <= k < s.len(),
    ensures
        utf8_len(s.take(k + 1)) == utf8_len(s.take(k)) + utf8_width(s[k]),
{
    assert(s.take(k + 1).drop_last() =~= s.take(k));
}

proof fn lemma_utf8_len_take_strict(s: Seq<char>, a: int, b: int)
    requires
        0 <= a < b <= s.len(),
    ensures
        utf8_len(s.take(a)) < utf8_len(s.take(b)),
    decreases b - a,
{
    lemma_utf8_len_take_step(s, b - 1);
    lemma_utf8_width_pos(s[b - 1]);
    if a < b - 1 {
        lemma_utf8_len_take_strict(s, a, b - 1);
    }
}

proof fn lemma_utf8_len_all(s: Seq<char>)
    ensures
        utf8_len(s.take(s.len() as int)) == utf8_len(s),
{
    assert(s.take(s.len() as int) =~= s);
}

/// `decimal(n)` is never empty and holds only digits.
pub proof fn lemma_decimal_digits(n: nat)
    ensures
        decimal(n).len() >= 1,
        all_digits(decimal(n)),
    decreases n,
{
    if n >= 10 {
        lemma_decimal_digits(n / 10);
    }
}

proof fn lemma_digit_char_value(d: nat)
    requires
        d < 10,
    ensures
        digit_value(digit_char(d)) == d,
{
}

/// Reading back the digits of `n` gives `n`.
pub proof fn lemma_decimal_value(n: nat)
    ensures
        digits_value(decimal(n)) == n,
    decreases n,
{
    if n >= 10 {
        lemma_decimal_value(n / 10);
        lemma_digit_char_value(n % 10);
        let d = decimal(n / 10);
        assert(decimal(n).drop_last() =~= d);
        assert(decimal(n).last() == digit_char(n % 10));
        assert(n == (n / 10) * 10 + n % 10);
        assert(digits_value(decimal(n)) == digits_value(d) * 10 + digit_value(digit_char(n % 10)));
    } else {
        lemma_digit_char_value(n);
        assert(decimal(n).drop_last() =~= Seq::<char>::empty());
        assert(digits_value(decimal(n)) == digits_value(Seq::<char>::empty()) * 10 + digit_value(
            digit_char(n),
        ));
    }
}

/// What `Display` writes of an `i64`, `parse` reads back.
pub proof fn lemma_int_decimal_parses(i: i64)
    ensures
        parse_i64_spec(int_decimal(i as int)) == Some(i),
{
    if i < 0 {
        let m = (-i) as nat;
        lemma_decimal_value(m);
        lemma_decimal_digits(m);
        let s = int_decimal(i as int);
        assert(s.drop_first() =~= decimal(m));
    } else {
        lemma_decimal_value(i as nat);
        lemma_decimal_digits(i as nat);
        let s = decimal(i as nat);
        assert(is_digit(s[0]));
    }
}

/// What `Display` writes of a `usize`, `parse` reads back.
pub proof fn lemma_decimal_parses_usize(n: usize)
    ensures
        parse_usize_spec(decimal(n as nat)) == Some(n),
{
    lemma_decimal_value(n as nat);
    lemma_decimal_digits(n as nat);
    assert(is_digit(decimal(n as nat)[0]));
}

// ---------------------------------------------------------------------------
// Executable helpers
// ---------------------------------------------------------------------------

/// Appends one character to a `String` (`String::push`).
/// Trusted: the result's characters are the old ones followed by `c`,
/// which is what the standard library documents for `push`.
#[verifier::external_body]
fn push_char(s: &mut String, c: char)
    ensures
        final(s)@ == old(s)@.push(c),
{
    s.push(c)
}

/// The characters of `s`, in order.
pub fn chars_of(s: &str) -> (v: Vec<char>)
    ensures
        v@ == s@,
{
    let mut v: Vec<char> = Vec::new();
    for c in it: s.chars()
        invariant
            v@ == it.seq().take(it.index() as int),
            it.seq() == s@,
    {
        v.push(c);
    }
    v
}

/// The string made of the characters of `v`, in order.
pub fn string_of(v: &Vec<char>) -> (s: String)
    ensures
        s@ == v@,
{
    let mut s = String::new();
    let mut i: usize = 0;
    while i < v.len()
        invariant
            i <= v.len(),
            s@ == v@.take(i as int),
        decreases v.len() - i,
    {
        push_char(&mut s, v[i]);
        assert(v@.take(i as int).push(v@[i as int]) =~= v@.take(i as int + 1));
        i = i + 1;
    }
    assert(v@.take(v.len() as int) =~= v@);
    s
}

/// Appends the characters of `b` to `a`.
pub fn extend_chars(a: &mut Vec<char>, b: &Vec<char>)
    ensures
        final(a)@ == old(a)@ + b@,
{
    let mut i: usize = 0;
    while i < b.len()
        invariant
            i <= b.len(),
            a@ == old(a)@ + b@.take(i as int),
        decreases b.len() - i,
    {
        a.push(b[i]);
        assert(old(a)@ + b@.take(i as int + 1) =~= (old(a)@ + b@.take(i as int)).push(b@[i as int]));
        i = i + 1;
    }
    assert(b@.take(b.len() as int) =~= b@);
}

/// Appends the characters of `s` to `a`.
pub fn extend_str(a: &mut Vec<char>, s: &str)
    ensures
        final(a)@ == old(a)@ + s@,
{
    let b = chars_of(s);
    extend_chars(a, &b);
}

/// Appends the characters of `v` to a `String`.
pub fn append_chars(s: &mut String, v: &Vec<char>)
    ensures
        final(s)@ == old(s)@ + v@,
{
    let t = string_of(v);
    s.append(t.as_str());
}

/// A copy of an optional string.
pub fn copy_opt_string(o: &Option<String>) -> (r: Option<String>)
    ensures
        opt_chars(r) == opt_chars(*o),
{
    match o {
        Some(s) => Some(s.clone()),
        None => None,
    }
}

/// Characters `from..to` of `v`.
pub fn slice_chars(v: &Vec<char>, from: usize, to: usize) -> (r: Vec<char>)
    requires
        from <= to <= v.len(),
    ensures
        r@ == v@.subrange(from as int, to as int),
{
    let mut r: Vec<char> = Vec::new();
    let mut i: usize = from;
    while i < to
        invariant
            from <= i <= to <= v.len(),
            r@ == v@.subrange(from as int, i as int),
        decreases to - i,
    {
        r.push(v[i]);
        assert(v@.subrange(from as int, i as int + 1) =~= v@.subrange(from as int, i as int).push(
            v@[i as int],
        ));
        i = i + 1;
    }
    r
}

/// `a == b` on character sequences.
pub fn chars_eq(a: &Vec<char>, b: &Vec<char>) -> (r: bool)
    ensures
        r == (a@ == b@),
{
    if a.len() != b.len() {
        return false;
    }
    let mut i: usize = 0;
    while i < a.len()
        invariant
            i <= a.len() == b.len(),
            forall|k: int| 0 <= k < i ==> a@[k] == b@[k],
        decreases a.len() - i,
    {
        if a[i] != b[i] {
            return false;
        }
        i = i + 1;
    }
    assert(a@ =~= b@);
    true
}

/// `v == s` for a character sequence and a string slice.
pub fn chars_eq_str(v: &Vec<char>, s: &str) -> (r: bool)
    ensures
        r == (v@ == s@),
{
    let w = chars_of(s);
    chars_eq(v, &w)
}

/// `char::is_whitespace`.
pub fn is_whitespace(c: char) -> (b: bool)
    ensures
        b == is_white(c),
{
    let u = c as u32;
    (9 <= u && u <= 13) || u == 32 || u == 0x85 || u == 0xa0 || u == 0x1680 || (0x2000 <= u && u
        <= 0x200a) || u == 0x2028 || u == 0x2029 || u == 0x202f || u == 0x205f || u == 0x3000
}

/// `char::is_ascii_digit`.
pub fn is_ascii_digit(c: char) -> (b: bool)
    ensures
        b == is_digit(c),
{
    '0' <= c && c <= '9'
}

fn char_upper(c: char) -> (r: char)
    ensures
        r == ascii_upper(c),
{
    if 'a' <= c && c <= 'z' {
        let u = ((c as u32) - 32) as u8;
        u as char
    } else {
        c
    }
}

fn char_lower(c: char) -> (r: char)
    ensures
        r == ascii_lower(c),
{
    if 'A' <= c && c <= 'Z' {
        let u = ((c as u32) + 32) as u8;
        u as char
    } else {
        c
    }
}

/// `to_ascii_uppercase` on a character sequence.
pub fn to_upper(v: &Vec<char>) -> (r: Vec<char>)
    ensures
        r@ == upper(v@),
{
    let mut r: Vec<char> = Vec::new();
    let mut i: usize = 0;
    while i < v.len()
        invariant
            i <= v.len(),
            r@.len() == i,
            forall|k: int| 0 <= k < i ==> r@[k] == ascii_upper(v@[k]),
        decreases v.len() - i,
    {
        let c = char_upper(v[i]);
        r.push(c);
        i = i + 1;
    }
    assert(r@ =~= upper(v@));
    r
}

/// `to_ascii_lowercase` on a character sequence.
pub fn to_lower(v: &Vec<char>) -> (r: Vec<char>)
    ensures
        r@ == lower(v@),
{
    let mut r: Vec<char> = Vec::new();
    let mut i: usize = 0;
    while i < v.len()
        invariant
            i <= v.len(),
            r@.len() == i,
            forall|k: int| 0 <= k < i ==> r@[k] == ascii_lower(v@[k]),
        decreases v.len() - i,
    {
        let c = char_lower(v[i]);
        r.push(c);
        i = i + 1;
    }
    assert(r@ =~= lower(v@));
    r
}

/// `eq_ignore_ascii_case` between a character sequence and a string slice.
pub fn eq_ignore_case_str(v: &Vec<char>, s: &str) -> (r: bool)
    ensures
        r == eq_ignore_case(v@, s@),
{
    let w = chars_of(s);
    if v.len() != w.len() {
        return false;
    }
    let mut i: usize = 0;
    while i < v.len()
        invariant
            i <= v.len() == w.len(),
            w@ == s@,
            forall|k: int| 0 <= k < i ==> ascii_lower(v@[k]) == ascii_lower(w@[k]),
        decreases v.len() - i,
    {
        if char_lower(v[i]) != char_lower(w[i]) {
            return false;
        }
        i = i + 1;
    }
    true
}

/// `str::trim` on a character sequence.
pub fn trim_chars(v: &Vec<char>) -> (r: Vec<char>)
    ensures
        r@ == trim(v@),
{
    let n = v.len();
    let mut i: usize = 0;
    while i < n && is_whitespace(v[i])
        invariant
            i <= n == v.len(),
            forall|k: int| 0 <= k < i ==> is_white(#[trigger] v@[k]),
        decreases n - i,
    {
        i = i + 1;
    }
    proof {
        lemma_trim_start_at(v@, i as int);
    }
    let mut j: usize = n;
    while j > i && is_whitespace(v[j - 1])
        invariant
            i <= j <= n == v.len(),
            forall|k: int| j <= k < n ==> is_white(#[trigger] v@[k]),
        decreases j - i,
    {
        j = j - 1;
    }
    proof {
        let t = v@.skip(i as int);
        let jj = j - i;
        assert forall|k: int| jj <= k < t.len() implies is_white(#[trigger] t[k]) by {
            assert(t[k] == v@[k + i]);
        }
        if jj > 0 {
            assert(t[jj - 1] == v@[j - 1]);
        }
        lemma_trim_end_at(t, jj);
        assert(t.take(jj) =~= v@.subrange(i as int, j as int));
    }
    slice_chars(v, i, j)
}

/// `str::trim` of a string slice, as characters.
pub fn trimmed(s: &str) -> (r: Vec<char>)
    ensures
        r@ == trim(s@),
{
    let v = chars_of(s);
    trim_chars(&v)
}

/// `str::split_whitespace` on a character sequence.
pub fn split_words(v: &Vec<char>) -> (r: Vec<Vec<char>>)
    ensures
        views(r@) == words(v@),
{
    let mut out: Vec<Vec<char>> = Vec::new();
    let mut cur: Vec<char> = Vec::new();
    let mut i: usize = 0;
    assert(v@.skip(0) =~= v@);
    assert(views(out@) + words_after(v@, cur@) =~= words(v@));
    while i < v.len()
        invariant
            i <= v.len(),
            views(out@) + words_after(v@.skip(i as int), cur@) == words(v@),
        decreases v.len() - i,
    {
        let ghost rest = v@.skip(i as int);
        assert(rest.drop_first() =~= v@.skip(i as int + 1));
        assert(rest[0] == v@[i as int]);
        if is_whitespace(v[i]) {
            if cur.len() > 0 {
                let ghost before = views(out@);
                let ghost w = cur@;
                out.push(cur);
                assert(views(out@) =~= before + seq![w]);
                cur = Vec::new();
                assert(before + (seq![w] + words_after(rest.drop_first(), seq![])) =~= views(out@)
                    + words_after(rest.drop_first(), cur@));
            } else {
                assert(cur@ =~= Seq::<char>::empty());
                assert(views(out@) + (Seq::<Seq<char>>::empty() + words_after(
                    rest.drop_first(),
                    seq![],
                )) =~= views(out@) + words_after(rest.drop_first(), cur@));
            }
        } else {
            cur.push(v[i]);
        }
        i = i + 1;
    }
    assert(v@.skip(i as int) =~= Seq::<char>::empty());
    if cur.len() > 0 {
        let ghost before = views(out@);
        let ghost w = cur@;
        out.push(cur);
        assert(views(out@) =~= before + seq![w]);
    } else {
        assert(views(out@) + Seq::<Seq<char>>::empty() =~= views(out@));
    }
    out
}

/// `[&str]::join(sep)` on character sequences.
pub fn join_words(ws: &Vec<Vec<char>>, sep: &str) -> (r: Vec<char>)
    ensures
        r@ == join(views(ws@), sep@),
{
    let sepv = chars_of(sep);
    let mut r: Vec<char> = Vec::new();
    let mut i: usize = 0;
    while i < ws.len()
        invariant
            i <= ws.len(),
            sepv@ == sep@,
            r@ == join(views(ws@).take(i as int), sep@),
        decreases ws.len() - i,
    {
        let ghost pre = views(ws@).take(i as int);
        let ghost next = views(ws@).take(i as int + 1);
        assert(next.drop_last() =~= pre);
        assert(next.last() == ws[i as int]@);
        if i > 0 {
            extend_chars(&mut r, &sepv);
        } else {
            assert(pre.len() == 0);
        }
        extend_chars(&mut r, &ws[i]);
        i = i + 1;
    }
    assert(views(ws@).take(ws.len() as int) =~= views(ws@));
    r
}

/// `str::starts_with` on character sequences.
pub fn starts_with(v: &Vec<char>, p: &Vec<char>) -> (r: bool)
    ensures
        r == has_prefix(v@, p@),
{
    if p.len() > v.len() {
        return false;
    }
    let head = slice_chars(v, 0, p.len());
    assert(head@ =~= v@.take(p@.len() as int));
    chars_eq(&head, p)
}

/// `str::strip_prefix` on character sequences.
pub fn strip_prefix_chars(v: &Vec<char>, p: &str) -> (r: Option<Vec<char>>)
    ensures
        match strip_prefix(v@, p@) {
            Some(rest) => r is Some && r->0@ == rest,
            None => r is None,
        },
{
    let pv = chars_of(p);
    if starts_with(v, &pv) {
        let rest = slice_chars(v, pv.len(), v.len());
        assert(rest@ =~= v@.skip(pv@.len() as int));
        Some(rest)
    } else {
        None
    }
}

/// Parses an optional leading `+` followed by one or more decimal digits;
/// `None` when the text is not of that form or denotes a number above `limit`.
fn parse_unsigned_upto(v: &Vec<char>, limit: u128) -> (r: Option<u128>)
    requires
        limit <= 0x1_0000_0000_0000_0000,
    ensures
        match unsigned_value(v@) {
            Some(n) => if n <= limit {
                r == Some(n as u128)
            } else {
                r is None
            },
            None => r is None,
        },
{
    let start: usize = if v.len() > 0 && v[0] == '+' {
        1
    } else {
        0
    };
    let ghost d = if v@.len() > 0 && v@[0] == '+' {
        v@.drop_first()
    } else {
        v@
    };
    assert(d =~= v@.skip(start as int));
    if start >= v.len() {
        return None;
    }
    let mut acc: u128 = 0;
    let mut i: usize = start;
    while i < v.len()
        invariant
            start <= i <= v.len(),
            start < v.len(),
            d == v@.skip(start as int),
            unsigned_value(v@) == (if d.len() > 0 && all_digits(d) {
                Some(digits_value(d))
            } else {
                None::<nat>
            }),
            limit <= 0x1_0000_0000_0000_0000,
            acc <= limit,
            all_digits(d.take(i - start)),
            acc == digits_value(d.take(i - start)),
        decreases v.len() - i,
    {
        let c = v[i];
        assert(d[i - start] == v@[i as int]);
        if !is_ascii_digit(c) {
            assert(!all_digits(d));
            return None;
        }
        let dv = (c as u32 - '0' as u32) as u128;
        assert(d.take(i - start + 1).drop_last() =~= d.take(i - start));
        assert(d.take(i - start + 1).last() == c);
        let next = acc * 10 + dv;
        assert(all_digits(d.take(i - start + 1))) by {
            assert forall|k: int| 0 <= k < i - start + 1 implies is_digit(#[trigger] d.take(i - start + 1)[k]) by {
                if k < i - start {
                    assert(d.take(i - start + 1)[k] == d.take(i - start)[k]);
                }
            }
        }
        if next > limit {
            proof {
                lemma_digits_value_prefix(d, i - start + 1);
            }
            // the remaining characters either break the digit run or make
            // the number larger still
            let mut j: usize = i + 1;
            while j < v.len()
                invariant
                    start <= i,
                    i + 1 <= j <= v.len(),
                    d == v@.skip(start as int),
                    digits_value(d.take(i - start + 1)) > limit,
                    unsigned_value(v@) == (if d.len() > 0 && all_digits(d) {
                        Some(digits_value(d))
                    } else {
                        None::<nat>
                    }),
                    all_digits(d.take(j - start)),
                decreases v.len() - j,
            {
                assert(d[j - start] == v@[j as int]);
                if !is_ascii_digit(v[j]) {
                    assert(!all_digits(d));
                    return None;
                }
                assert(all_digits(d.take(j - start + 1))) by {
                    assert forall|k: int| 0 <= k < j - start + 1 implies is_digit(
                        #[trigger] d.take(j - start + 1)[k],
                    ) by {
                        if k < j - start {
                            assert(d.take(j - start + 1)[k] == d.take(j - start)[k]);
                        }
                    }
                }
                j = j + 1;
            }
            assert(d.take(j - start) =~= d);
            proof {
                lemma_digits_value_prefix(d, i - start + 1);
            }
            return None;
        }
        acc = next;
        i = i + 1;
    }
    assert(d.take(i - start) =~= d);
    Some(acc)
}

/// `s.parse::<usize>().ok()`.
pub fn parse_usize(v: &Vec<char>) -> (r: Option<usize>)
    ensures
        r == parse_usize_spec(v@),
{
    match parse_unsigned_upto(v, usize::MAX as u128) {
        Some(n) => Some(n as usize),
        None => None,
    }
}

/// `s.parse::<i64>().ok()`.
pub fn parse_i64(v: &Vec<char>) -> (r: Option<i64>)
    ensures
        r == parse_i64_spec(v@),
{
    if v.len() > 0 && v[0] == '-' {
        let rest = slice_chars(v, 1, v.len());
        assert(rest@ =~= v@.drop_first());
        if rest.len() > 0 && rest[0] == '+' {
            assert(!all_digits(rest@));
            return None;
        }
        assert(unsigned_value(rest@) == (if rest@.len() > 0 && all_digits(rest@) {
            Some(digits_value(rest@))
        } else {
            None::<nat>
        }));
        match parse_unsigned_upto(&rest, 0x8000_0000_0000_0000) {
            Some(n) => {
                let m = -(n as i128);
                Some(m as i64)
            },
            None => None,
        }
    } else {
        match parse_unsigned_upto(v, 0x7fff_ffff_ffff_ffff) {
            Some(n) => Some(n as i64),
            None => None,
        }
    }
}

fn digit_to_char(d: u64) -> (c: char)
    requires
        d < 10,
    ensures
        c == digit_char(d as nat),
{
    if d == 0 {
        '0'
    } else if d == 1 {
        '1'
    } else if d == 2 {
        '2'
    } else if d == 3 {
        '3'
    } else if d == 4 {
        '4'
    } else if d == 5 {
        '5'
    } else if d == 6 {
        '6'
    } else if d == 7 {
        '7'
    } else if d == 8 {
        '8'
    } else {
        '9'
    }
}

/// The decimal digits of `n`.
pub fn decimal_of(n: u64) -> (r: Vec<char>)
    ensures
        r@ == decimal(n as nat),
    decreases n,
{
    if n < 10 {
        let mut r: Vec<char> = Vec::new();
        r.push(digit_to_char(n));
        assert(r@ =~= seq![digit_char(n as nat)]);
        r
    } else {
        let mut r = decimal_of(n / 10);
        r.push(digit_to_char(n % 10));
        r
    }
}

/// `n.to_string()` for a `usize`.
pub fn usize_text(n: usize) -> (r: Vec<char>)
    ensures
        r@ == decimal(n as nat),
{
    decimal_of(n as u64)
}

/// `n.to_string()` for an `i64`.
pub fn i64_text(n: i64) -> (r: Vec<char>)
    ensures
        r@ == int_decimal(n as int),
{
    if n < 0 {
        let m = (-(n as i128)) as u64;
        let digits = decimal_of(m);
        let mut r: Vec<char> = Vec::new();
        r.push('-');
        extend_chars(&mut r, &digits);
        assert(r@ =~= seq!['-'] + decimal((-(n as int)) as nat));
        r
    } else {
        decimal_of(n as u64)
    }
}

fn utf8_width_of(c: char) -> (w: usize)
    ensures
        w == utf8_width(c),
{
    let u = c as u32;
    if u < 0x80 {
        1
    } else if u < 0x800 {
        2
    } else if u < 0x10000 {
        3
    } else {
        4
    }
}

/// `str::len`: the number of bytes of the UTF-8 encoding of `v`.
pub fn byte_len(v: &Vec<char>) -> (n: u128)
    ensures
        n == utf8_len(v@),
{
    let mut n: u128 = 0;
    let mut i: usize = 0;
    while i < v.len()
        invariant
            i <= v.len(),
            n == utf8_len(v@.take(i as int)),
            n <= 4 * i,
        decreases v.len() - i,
    {
        proof {
            lemma_utf8_len_take_step(v@, i as int);
        }
        n = n + utf8_width_of(v[i]) as u128;
        i = i + 1;
    }
    proof {
        lemma_utf8_len_all(v@);
    }
    n
}

/// `String::truncate(max)`: keeps the longest prefix whose UTF-8 encoding
/// takes at most `max` bytes; the cut must fall on a character boundary.
pub fn truncate_to_bytes(v: &Vec<char>, max: usize) -> (r: Vec<char>)
    requires
        cuts_cleanly(v@, max as nat),
    ensures
        r@ == truncate_bytes(v@, max as nat),
{
    let mut bytes: usize = 0;
    let mut i: usize = 0;
    while i < v.len()
        invariant
            i <= v.len(),
            bytes == utf8_len(v@.take(i as int)),
            bytes <= max,
            cuts_cleanly(v@, max as nat),
        decreases v.len() - i,
    {
        let w = utf8_width_of(v[i]);
        proof {
            lemma_utf8_len_take_step(v@, i as int);
        }
        if w > max - bytes {
            // the next character does not fit: the prefix so far is the answer
            proof {
                lemma_utf8_len_all(v@);
                if i + 1 < v.len() {
                    lemma_utf8_len_take_strict(v@, i as int + 1, v.len() as int);
                }
                assert(utf8_len(v@) > max);
                let k = kept_chars(v@, max as nat);
                if k < i {
                    lemma_utf8_len_take_strict(v@, k, i as int);
                }
                if k > i + 1 {
                    lemma_utf8_len_take_strict(v@, i as int + 1, k);
                }
                assert(k == i);
            }
            return slice_chars(v, 0, i);
        }
        bytes = bytes + w;
        i = i + 1;
    }
    proof {
        lemma_utf8_len_all(v@);
    }
    assert(v@.take(v.len() as int) =~= v@);
    slice_chars(v, 0, v.len())
}

/// Whether `String::truncate(max)` can cut `v` (it fits, or some prefix
/// takes exactly `max` bytes).
pub fn cuts_at(v: &Vec<char>, max: usize) -> (r: bool)
    ensures
        r == cuts_cleanly(v@, max as nat),
{
    let mut bytes: usize = 0;
    let mut i: usize = 0;
    while i < v.len()
        invariant
            i <= v.len(),
            bytes == utf8_len(v@.take(i as int)),
            bytes <= max,
        decreases v.len() - i,
    {
        if bytes == max {
            return true;
        }
        let w = utf8_width_of(v[i]);
        proof {
            lemma_utf8_len_take_step(v@, i as int);
        }
        if w > max - bytes {
            proof {
                lemma_utf8_len_all(v@);
                if i + 1 < v.len() {
                    lemma_utf8_len_take_strict(v@, i as int + 1, v.len() as int);
                }
                assert forall|k: int| 0 <= k <= v@.len() implies utf8_len(v@.take(k)) != max by {
                    if k < i {
                        lemma_utf8_len_take_strict(v@, k, i as int);
                    } else if k > i + 1 {
                        lemma_utf8_len_take_strict(v@, i as int + 1, k);
                    }
                }
            }
            return false;
        }
        bytes = bytes + w;
        i = i + 1;
    }
    proof {
        lemma_utf8_len_all(v@);
    }
    true
}

/// At most `max` characters of `v`, with an ellipsis when some were cut.
pub fn shorten_chars(v: &Vec<char>, max: usize) -> (r: Vec<char>)
    ensures
        r@ == shorten(v@, max as nat),
{
    if v.len() <= max {
        slice_chars(v, 0, v.len())
    } else {
        let mut r = slice_chars(v, 0, max);
        r.push('…');
        r
    }
}

} // verus!
