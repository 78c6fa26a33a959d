//! Text helpers: comparing, joining, splitting and reading numbers.

use vstd::prelude::*;
use vstd::string::StringExecFns;

verus! {

/// Whether two texts hold the same characters.
pub fn same_text(a: &str, b: &str) -> (same: bool)
    ensures
        same == (a@ == b@),
{
    let x = a.to_owned();
    let y = b.to_owned();
    x == y
}

/// A list of texts, each as a sequence of characters.
pub open spec fn text_views(texts: Seq<String>) -> Seq<Seq<char>> {
    Seq::new(texts.len(), |i: int| texts[i]@)
}

/// Whether the text at `i` stands in the list before `i` too.
pub open spec fn seen_before(texts: Seq<Seq<char>>, i: int) -> bool {
    exists|j: int| 0 <= j < i && #[trigger] texts[j] == texts[i]
}

/// Whether the text at `i` stands in the list before `i` too.
pub fn occurs_before(texts: &Vec<String>, i: usize) -> (seen: bool)
    requires
        i < texts.len(),
    ensures
        seen == seen_before(text_views(texts@), i as int),
{
    let mut j: usize = 0;
    while j < i
        invariant
            j <= i,
            i < texts.len(),
            forall|k: int| 0 <= k < j ==> #[trigger] text_views(texts@)[k] != text_views(texts@)[i as int],
        decreases i - j,
    {
        if texts[j] == texts[i] {
            assert(text_views(texts@)[j as int] == text_views(texts@)[i as int]);
            return true;
        }
        j += 1;
    }
    false
}

/// A copy of a list of texts.
pub fn copy_texts(texts: &Vec<String>) -> (copy: Vec<String>)
    ensures
        text_views(copy@) == text_views(texts@),
{
    let mut copy: Vec<String> = Vec::new();
    let mut i: usize = 0;
    while i < texts.len()
        invariant
            i <= texts.len(),
            copy@.len() == i,
            forall|j: int| 0 <= j < i ==> (#[trigger] copy@[j])@ == texts@[j]@,
        decreases texts.len() - i,
    {
        copy.push(texts[i].clone());
        i += 1;
    }
    assert(text_views(copy@) =~= text_views(texts@));
    copy
}

/// Three texts, one after the other.
pub fn join3(a: &str, b: &str, c: &str) -> (joined: String)
    ensures
        joined@ == a@ + b@ + c@,
{
    let mut joined = String::from_str(a);
    joined.append(b);
    joined.append(c);
    joined
}

/// How often `c` occurs in `s`.
pub open spec fn occurrences(s: Seq<char>, c: char) -> nat
    decreases s.len(),
{
    if s.len() == 0 {
        0
    } else if s[0] == c {
        1 + occurrences(s.drop_first(), c)
    } else {
        occurrences(s.drop_first(), c)
    }
}

/// The fields of `s` between occurrences of `sep`, in order. An empty text has
/// one empty field; a separator at the front closes an empty field; any other
/// character belongs to the first field of what follows.
pub open spec fn split_on(s: Seq<char>, sep: char) -> Seq<Seq<char>>
    decreases s.len(),
{
    if s.len() == 0 {
        seq![Seq::<char>::empty()]
    } else {
        let rest = split_on(s.drop_first(), sep);
        if s[0] == sep {
            seq![Seq::<char>::empty()] + rest
        } else {
            rest.update(0, seq![s[0]] + rest[0])
        }
    }
}

/// A text has one field more than it has separators.
pub proof fn lemma_split_count(s: Seq<char>, sep: char)
    ensures
        split_on(s, sep).len() == occurrences(s, sep) + 1,
    decreases s.len(),
{
    if s.len() > 0 {
        lemma_split_count(s.drop_first(), sep);
    }
}

/// `str::split` with a character as the pattern, each piece copied into a
/// `String`. The standard library documents the pieces as the substrings
/// between matches of the pattern, in order, empty ones included, which is
/// what `split_on` says.
#[verifier::external_body]
pub(crate) fn split_text(s: &str, sep: char) -> (fields: Vec<String>)
    ensures
        fields@.len() == split_on(s@, sep).len(),
        forall|i: int| 0 <= i < fields@.len() ==> (#[trigger] fields@[i])@ == split_on(s@, sep)[i],
{
    s.split(sep).map(String::from).collect()
}

/// Whether a character is one of the ten decimal digits.
pub open spec fn is_digit(c: char) -> bool {
    48 <= c as u32 <= 57
}

/// The number that a sequence of decimal digits spells; zero for none.
pub open spec fn decimal_value(digits: Seq<char>) -> nat
    decreases digits.len(),
{
    if digits.len() == 0 {
        0
    } else {
        decimal_value(digits.drop_last()) * 10 + (digits.last() as u32 - 48) as nat
    }
}

/// The number up to `max` that a text spells: an optional `+`, then one or
/// more decimal digits and nothing else. `None` for any other text, and for a
/// number over `max`.
pub open spec fn unsigned_decimal(text: Seq<char>, max: nat) -> Option<nat> {
    let digits = if text.len() > 0 && text[0] == '+' {
        text.drop_first()
    } else {
        text
    };
    if digits.len() > 0 && (forall|i: int| 0 <= i < digits.len() ==> is_digit(#[trigger] digits[i]))
        && decimal_value(digits) <= max {
        Some(decimal_value(digits))
    } else {
        None
    }
}

/// The number that a text spells, if it fits in eight bits.
pub open spec fn decimal_u8(text: Seq<char>) -> Option<u8> {
    match unsigned_decimal(text, 255) {
        Some(n) => Some(n as u8),
        None => None,
    }
}

/// `str::parse::<u8>`, with the reason of a failure dropped. The standard
/// library documents the text that it accepts as an optional `+` sign followed
/// by only digits, read in base ten, and refuses a number that does not fit.
#[verifier::external_body]
pub(crate) fn parse_u8(s: &str) -> (n: Option<u8>)
    ensures
        n == decimal_u8(s@),
{
    s.parse::<u8>().ok()
}

/// The number that a text spells, if it fits in thirty-two bits.
pub open spec fn decimal_u32(text: Seq<char>) -> Option<u32> {
    match unsigned_decimal(text, 4294967295) {
        Some(n) => Some(n as u32),
        None => None,
    }
}

/// `str::parse::<u32>`, with the reason of a failure dropped. The standard
/// library documents the text that it accepts as an optional `+` sign followed
/// by only digits, read in base ten, and refuses a number that does not fit.
#[verifier::external_body]
pub(crate) fn parse_u32(s: &str) -> (n: Option<u32>)
    ensures
        n == decimal_u32(s@),
{
    s.parse::<u32>().ok()
}

/// The character that writes a digit.
pub open spec fn digit_char(d: int) -> char {
    ((48 + d) as u8) as char
}

/// The decimal digits of a number, the most significant first, without a
/// sign and without leading zeros: one digit for a number under ten, and for
/// any other the digits of its tenth followed by its last digit.
pub open spec fn decimal_text(n: u64) -> Seq<char>
    decreases n,
{
    if n < 10 {
        seq![digit_char(n as int)]
    } else {
        decimal_text(n / 10).push(digit_char(n as int % 10))
    }
}

/// What is written for a number reads back as that number.
pub proof fn lemma_decimal_text_reads_back(n: u64)
    ensures
        unsigned_decimal(decimal_text(n), u64::MAX as nat) == Some(n as nat),
        decimal_text(n).len() > 0,
        forall|i: int| 0 <= i < decimal_text(n).len() ==> is_digit(#[trigger] decimal_text(n)[i]),
        decimal_value(decimal_text(n)) == n,
    decreases n,
{
    let text = decimal_text(n);
    if n < 10 {
        assert(text.drop_last() =~= Seq::<char>::empty());
        assert(text.last() == digit_char(n as int));
        assert(digit_char(n as int) as u32 == 48 + n);
        assert(decimal_value(text.drop_last()) == 0);
    } else {
        lemma_decimal_text_reads_back(n / 10);
        let front = decimal_text(n / 10);
        assert(text.drop_last() =~= front);
        assert(text.last() == digit_char(n as int % 10));
        assert(digit_char(n as int % 10) as u32 == 48 + n % 10);
        assert forall|i: int| 0 <= i < text.len() implies is_digit(#[trigger] text[i]) by {
            if i < front.len() {
                assert(text[i] == front[i]);
            }
        }
    }
    assert(text[0] != '+') by {
        assert(is_digit(text[0]));
    }
}

/// `u64::to_string`: the number written in decimal digits, as `decimal_text`
/// says.
#[verifier::external_body]
pub(crate) fn number_text(n: u64) -> (digits: String)
    ensures
        digits@ == decimal_text(n),
{
    n.to_string()
}

/// The truth value that a text spells: `true` or `false`, nothing else.
pub open spec fn boolean_word(text: Seq<char>) -> Option<bool> {
    if text == "true"@ {
        Some(true)
    } else if text == "false"@ {
        Some(false)
    } else {
        None
    }
}

/// Reads a truth value.
pub fn parse_bool(s: &str) -> (b: Option<bool>)
    ensures
        b == boolean_word(s@),
{
    if same_text(s, "true") {
        Some(true)
    } else if same_text(s, "false") {
        Some(false)
    } else {
        None
    }
}

} // verus!
