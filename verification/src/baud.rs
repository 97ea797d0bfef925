//! Reading a baud rate from its textual form.
//!
//! A rate is written in decimal, optionally preceded by `+`, and may hold `_`
//! anywhere as a digit separator: `921_600` and `921600` are the same rate.

use vstd::prelude::*;
use vstd::string::StrSliceExecFns;
use vstd::string::StringExecFns;

verus! {

/// The predicate that keeps every character but the digit separator.
pub open spec fn not_separator() -> spec_fn(char) -> bool {
    |c: char| c != '_'
}

/// `text` with every digit separator taken out.
pub open spec fn without_separators(text: Seq<char>) -> Seq<char> {
    text.filter(not_separator())
}

pub open spec fn is_decimal_digit(c: char) -> bool {
    0x30 <= c as u32 <= 0x39
}

/// The value of one decimal digit; 0 for any other character.
pub open spec fn digit_of(c: char) -> nat {
    if is_decimal_digit(c) {
        (c as u32 - 0x30) as nat
    } else {
        0
    }
}

pub open spec fn digits_only(s: Seq<char>) -> bool {
    forall|i: int| 0 <= i < s.len() ==> is_decimal_digit(#[trigger] s[i])
}

/// The number that a string of decimal digits denotes, most significant digit first.
pub open spec fn decimal(digits: Seq<char>) -> nat
    decreases digits.len(),
{
    if digits.len() == 0 {
        0
    } else {
        10 * decimal(digits.drop_last()) + digit_of(digits.last())
    }
}

/// `s` without its leading `+`, if it has one.
pub open spec fn magnitude(s: Seq<char>) -> Seq<char> {
    if s.len() > 0 && s[0] == '+' {
        s.subrange(1, s.len() as int)
    } else {
        s
    }
}

/// The unsigned 32-bit number that `s` denotes: an optional `+`, then at least
/// one decimal digit and nothing else, with a value that fits in 32 bits.
pub open spec fn unsigned_value(s: Seq<char>) -> Option<u32> {
    let m = magnitude(s);
    if m.len() > 0 && digits_only(m) && decimal(m) <= u32::MAX {
        Some(decimal(m) as u32)
    } else {
        None
    }
}

/// The baud rate that `text` denotes, if it denotes one.
pub open spec fn baud_value(text: Seq<char>) -> Option<u32> {
    unsigned_value(without_separators(text))
}

/// A baud rate that could not be read.
pub struct BaudError {
    /// The rejected text, digit separators already removed.
    pub cleaned: String,
}

impl BaudError {
    /// The diagnostic for the user.
    pub fn message(&self) -> (text: String)
        ensures
            text@ == "baud "@ + self.cleaned@ + " could not be parsed to a `u32`."@,
    {
        let text = String::from_str("baud ");
        let text = text.concat(self.cleaned.as_str());
        text.concat(" could not be parsed to a `u32`.")
    }

    /// The status the process ends with after this error.
    pub fn exit_status(&self) -> (status: i32)
        ensures
            status == 1,
    {
        1
    }
}

/// A longer string of digits never denotes a smaller number than its prefix.
proof fn lemma_decimal_prefix(digits: Seq<char>, k: int)
    requires
        0 <= k <= digits.len(),
    ensures
        decimal(digits.take(k)) <= decimal(digits),
    decreases digits.len() - k,
{
    if k == digits.len() {
        assert(digits.take(k) =~= digits);
    } else {
        lemma_decimal_prefix(digits, k + 1);
        assert(digits.take(k + 1).drop_last() =~= digits.take(k));
    }
}

/// Removes every `_` from `text`.
pub fn strip_separators(text: &str) -> (cleaned: String)
    ensures
        cleaned@ == without_separators(text@),
{
    let n = text.unicode_len();
    let mut cleaned = String::from_str("");
    let mut i: usize = 0;
    proof {
        reveal_strlit("");
        reveal(Seq::filter);
        assert(text@.take(0) =~= Seq::<char>::empty());
    }
    while i < n
        invariant
            n == text@.len(),
            i <= n,
            cleaned@ == without_separators(text@.take(i as int)),
        decreases n - i,
    {
        let c = text.get_char(i);
        proof {
            assert(text@.take(i + 1) =~= text@.take(i as int).push(c));
            text@.take(i as int).lemma_filter_push(c, not_separator());
        }
        if c != '_' {
            let piece = text.substring_char(i, i + 1);
            assert(piece@ =~= seq![c]);
            assert(cleaned@ + piece@ =~= cleaned@.push(c));
            cleaned.append(piece);
        }
        i += 1;
    }
    assert(text@.take(n as int) =~= text@);
    cleaned
}

/// Reads an unsigned 32-bit decimal number. Nothing but an optional leading
/// `+` and decimal digits is accepted, and at least one digit is needed.
pub fn parse_unsigned(text: &str) -> (value: Option<u32>)
    ensures
        value == unsigned_value(text@),
{
    let n = text.unicode_len();
    let mut i: usize = 0;
    if n > 0 && text.get_char(0) == '+' {
        i = 1;
    }
    let start: usize = i;
    let ghost m = magnitude(text@);
    if i == n {
        return None;
    }
    let mut acc: u32 = 0;
    assert(m.take(0) =~= Seq::<char>::empty());
    while i < n
        invariant
            n == text@.len(),
            start <= i <= n,
            m == magnitude(text@),
            m.len() == n - start,
            m.len() > 0,
            forall|j: int| 0 <= j < m.len() ==> m[j] == text@[j + start],
            digits_only(m.take(i - start)),
            acc == decimal(m.take(i - start)),
        decreases n - i,
    {
        let c = text.get_char(i);
        let code: u32 = c as u32;
        let ghost k = i - start;
        assert(m[k] == c);
        if code < 0x30 || code > 0x39 {
            assert(!is_decimal_digit(m[k]));
            return None;
        }
        let d: u32 = code - 0x30;
        proof {
            assert(m.take(k + 1).drop_last() =~= m.take(k));
            assert(m.take(k + 1).last() == c);
            assert(decimal(m.take(k + 1)) == 10 * acc + d);
            lemma_decimal_prefix(m, k + 1);
        }
        if acc > 429_496_729 || (acc == 429_496_729 && d > 5) {
            return None;
        }
        acc = acc * 10 + d;
        i += 1;
    }
    assert(m.take(n - start) =~= m);
    Some(acc)
}

/// Reads a baud rate: digit separators are dropped, and what is left must be
/// an unsigned 32-bit decimal number.
pub fn parse_baud(text: &str) -> (rate: Result<u32, BaudError>)
    ensures
        match rate {
            Ok(value) => baud_value(text@) == Some(value),
            Err(error) => baud_value(text@) is None && error.cleaned@ == without_separators(text@),
        },
{
    let cleaned = strip_separators(text);
    match parse_unsigned(cleaned.as_str()) {
        Some(value) => Ok(value),
        None => Err(BaudError { cleaned }),
    }
}

/// The rate used when none is given.
pub fn default_baud() -> (rate: u32)
    ensures
        rate == 921_600,
        baud_value("921_600"@) == Some(rate),
{
    proof {
        lemma_default_baud_text();
    }
    921_600
}

proof fn lemma_default_baud_text()
    ensures
        baud_value("921_600"@) == Some(921_600u32),
{
    reveal_strlit("921_600");
    let text = "921_600"@;
    let digits = seq!['9', '2', '1', '6', '0', '0'];
    assert(text =~= seq!['9', '2', '1', '_', '6', '0', '0']);
    reveal_with_fuel(Seq::filter, 8);
    assert(without_separators(text) =~= digits);
    assert(magnitude(digits) == digits);
    reveal_with_fuel(decimal, 7);
    assert(digits.drop_last() =~= seq!['9', '2', '1', '6', '0']);
    assert(digits.drop_last().drop_last() =~= seq!['9', '2', '1', '6']);
    assert(digits.drop_last().drop_last().drop_last() =~= seq!['9', '2', '1']);
    assert(digits.drop_last().drop_last().drop_last().drop_last() =~= seq!['9', '2']);
    assert(digits.drop_last().drop_last().drop_last().drop_last().drop_last() =~= seq!['9']);
    assert(decimal(digits) == 921_600);
}

/// What is left when the separators are removed holds no separator, removing
/// them again changes nothing, and it denotes the rate that the text denoted
/// with them.
pub proof fn lemma_without_separators_idempotent(text: Seq<char>)
    ensures
        !without_separators(text).contains('_'),
        without_separators(without_separators(text)) == without_separators(text),
        baud_value(without_separators(text)) == baud_value(text),
        unsigned_value(without_separators(text)) == baud_value(text),
    decreases text.len(),
{
    reveal(Seq::filter);
    if text.len() > 0 {
        let head = text.drop_last();
        lemma_without_separators_idempotent(head);
        if text.last() != '_' {
            without_separators(head).lemma_filter_push(text.last(), not_separator());
        }
    }
    let cleaned = without_separators(text);
    assert forall|i: int| 0 <= i < cleaned.len() implies cleaned[i] != '_' by {
        text.lemma_filter_pred(not_separator(), i);
    }
}

/// A separator may be put anywhere into a baud string, or taken out of it,
/// without changing what the string denotes; and a string without separators
/// is read as it stands.
pub proof fn lemma_separator_is_ignored(text: Seq<char>, at: int)
    requires
        0 <= at <= text.len(),
    ensures
        baud_value(text.insert(at, '_')) == baud_value(text),
        baud_value(text) == unsigned_value(without_separators(text)),
        !text.contains('_') ==> baud_value(text) == unsigned_value(text),
{
    let head = text.take(at);
    let tail = text.skip(at);
    let mark = seq!['_'];
    assert(text.insert(at, '_') =~= head + mark + tail);
    assert(text =~= head + tail);
    Seq::filter_distributes_over_add(head + mark, tail, not_separator());
    Seq::filter_distributes_over_add(head, mark, not_separator());
    Seq::filter_distributes_over_add(head, tail, not_separator());
    assert(mark.filter(not_separator()) =~= Seq::<char>::empty()) by {
        reveal_with_fuel(Seq::filter, 2);
    }
    assert(without_separators(head) + Seq::<char>::empty() =~= without_separators(head));
    if !text.contains('_') {
        lemma_nothing_to_strip(text);
    }
}

proof fn lemma_nothing_to_strip(text: Seq<char>)
    requires
        !text.contains('_'),
    ensures
        without_separators(text) == text,
    decreases text.len(),
{
    reveal(Seq::filter);
    if text.len() > 0 {
        let head = text.drop_last();
        assert(text.last() == text[text.len() - 1]);
        assert forall|i: int| 0 <= i < head.len() implies head[i] != '_' by {
            assert(head[i] == text[i]);
        }
        lemma_nothing_to_strip(head);
        assert(head.push(text.last()) =~= text);
    }
}

/// A string that holds anything but decimal digits, separators and `+`
/// denotes no baud rate; neither does one without a single digit.
pub proof fn lemma_not_a_number(text: Seq<char>)
    ensures
        (exists|i: int|
            0 <= i < text.len() && !is_decimal_digit(#[trigger] text[i]) && text[i] != '_'
                && text[i] != '+') ==> baud_value(text) is None,
        (forall|i: int| 0 <= i < text.len() ==> !is_decimal_digit(#[trigger] text[i]))
            ==> baud_value(text) is None,
{
    let cleaned = without_separators(text);
    let m = magnitude(cleaned);
    if exists|i: int|
        0 <= i < text.len() && !is_decimal_digit(#[trigger] text[i]) && text[i] != '_' && text[i]
            != '+' {
        let i = choose|i: int|
            0 <= i < text.len() && !is_decimal_digit(#[trigger] text[i]) && text[i] != '_'
                && text[i] != '+';
        let c = text[i];
        assert(not_separator()(c));
        text.lemma_filter_contains(not_separator(), i);
        let j = choose|j: int| 0 <= j < cleaned.len() && cleaned[j] == c;
        if cleaned[0] == '+' {
            assert(m[j - 1] == c);
        } else {
            assert(m[j] == c);
        }
        assert(!digits_only(m));
    }
    if forall|i: int| 0 <= i < text.len() ==> !is_decimal_digit(#[trigger] text[i]) {
        if m.len() > 0 {
            let c = m[0];
            assert(cleaned.contains(c)) by {
                if cleaned[0] == '+' {
                    assert(cleaned[1] == c);
                } else {
                    assert(cleaned[0] == c);
                }
            }
            text.lemma_filter_contains_rev(not_separator(), c);
            assert(!is_decimal_digit(c));
            assert(!digits_only(m));
        }
    }
}

} // verus!
