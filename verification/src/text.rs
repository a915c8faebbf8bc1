//! Text as sequences of characters: decimal numerals, and the search for a
//! phrase in a text.

use vstd::prelude::*;

verus! {

/// Trusted: `String::push` appends the character to the end of the string,
/// as its documentation says.
pub assume_specification[ String::push ](s: &mut String, ch: char)
    ensures
        final(s)@ == old(s)@.push(ch),
;

/// The characters of `text`, in order.
pub fn chars_of(text: &str) -> (chars: Vec<char>)
    ensures
        chars@ == text@,
{
    let mut chars: Vec<char> = Vec::new();
    for c in it: text.chars()
        invariant
            it.seq() == text@,
            chars@ == it.seq().take(it.index()),
    {
        chars.push(c);
    }
    chars
}

/// The character for a decimal digit, for `digit` in `0..=9`.
pub open spec fn digit_char(digit: int) -> char {
    if digit == 0 {
        '0'
    } else if digit == 1 {
        '1'
    } else if digit == 2 {
        '2'
    } else if digit == 3 {
        '3'
    } else if digit == 4 {
        '4'
    } else if digit == 5 {
        '5'
    } else if digit == 6 {
        '6'
    } else if digit == 7 {
        '7'
    } else if digit == 8 {
        '8'
    } else {
        '9'
    }
}

/// The decimal numeral of a natural number, without leading zeros: one digit
/// for a number under ten, else the numeral of its tenth followed by its last
/// digit.
pub open spec fn digits(n: nat) -> Seq<char>
    decreases n,
{
    if n < 10 {
        seq![digit_char(n as int)]
    } else {
        digits(n / 10).push(digit_char((n % 10) as int))
    }
}

/// The decimal numeral of an integer: a minus sign before the digits of a
/// negative one.
pub open spec fn decimal(i: int) -> Seq<char> {
    if i < 0 {
        seq!['-'] + digits((-i) as nat)
    } else {
        digits(i as nat)
    }
}

/// Whether `c` is one of the ten decimal digits.
pub open spec fn is_digit(c: char) -> bool {
    c == '0' || c == '1' || c == '2' || c == '3' || c == '4' || c == '5' || c == '6' || c == '7'
        || c == '8' || c == '9'
}

/// A numeral of a natural number has at least one character, all of them
/// digits.
pub proof fn lemma_digits_shape(n: nat)
    ensures
        digits(n).len() >= 1,
        forall|k: int| 0 <= k < digits(n).len() ==> is_digit(#[trigger] digits(n)[k]),
    decreases n,
{
    if n >= 10 {
        lemma_digits_shape(n / 10);
    }
}

/// The number that a sequence of digits reads as.
pub open spec fn digits_value(s: Seq<char>) -> nat
    decreases s.len(),
{
    if s.len() == 0 {
        0
    } else {
        digits_value(s.drop_last()) * 10 + digit_value(s.last())
    }
}

/// The value of a digit character; 0 for any other character.
pub open spec fn digit_value(c: char) -> nat {
    if c == '1' {
        1
    } else if c == '2' {
        2
    } else if c == '3' {
        3
    } else if c == '4' {
        4
    } else if c == '5' {
        5
    } else if c == '6' {
        6
    } else if c == '7' {
        7
    } else if c == '8' {
        8
    } else if c == '9' {
        9
    } else {
        0
    }
}

/// Reading a numeral gives the number back.
pub proof fn lemma_digits_value(n: nat)
    ensures
        digits_value(digits(n)) == n,
    decreases n,
{
    if n < 10 {
        let s = digits(n);
        assert(s.drop_last() =~= Seq::<char>::empty());
        assert(digits_value(s.drop_last()) == 0);
    } else {
        lemma_digits_value(n / 10);
        let s = digits(n);
        assert(s.drop_last() =~= digits(n / 10));
    }
}

/// Whether `c` can stand in the numeral of an integer: a digit or the minus
/// sign.
pub open spec fn is_numeral_char(c: char) -> bool {
    is_digit(c) || c == '-'
}

/// The numeral of an integer has at least one character, all of them digits
/// but for a minus sign in front of a negative number.
pub proof fn lemma_decimal_shape(i: int)
    ensures
        decimal(i).len() >= 1,
        forall|k: int| 0 <= k < decimal(i).len() ==> is_numeral_char(#[trigger] decimal(i)[k]),
        decimal(i)[0] == '-' <==> i < 0,
{
    if i < 0 {
        lemma_digits_shape((-i) as nat);
        let tail = digits((-i) as nat);
        assert forall|k: int| 0 <= k < decimal(i).len() implies is_numeral_char(
            #[trigger] decimal(i)[k],
        ) by {
            if k > 0 {
                assert(decimal(i)[k] == tail[k - 1]);
            }
        }
    } else {
        lemma_digits_shape(i as nat);
        assert(is_digit(digits(i as nat)[0]));
    }
}

/// Two integers with the same numeral are the same integer.
pub proof fn lemma_decimal_is_one_to_one(a: int, b: int)
    requires
        decimal(a) == decimal(b),
    ensures
        a == b,
{
    lemma_decimal_shape(a);
    lemma_decimal_shape(b);
    if a < 0 {
        let tail_a = digits((-a) as nat);
        let tail_b = digits((-b) as nat);
        assert(tail_a =~= decimal(a).subrange(1, decimal(a).len() as int));
        assert(tail_b =~= decimal(b).subrange(1, decimal(b).len() as int));
        lemma_digits_value((-a) as nat);
        lemma_digits_value((-b) as nat);
    } else {
        lemma_digits_value(a as nat);
        lemma_digits_value(b as nat);
    }
}

/// Whether `c` stands nowhere in `s`.
pub open spec fn is_free_of(s: Seq<char>, c: char) -> bool {
    forall|k: int| 0 <= k < s.len() ==> #[trigger] s[k] != c
}

/// A text is cut at the first place of a character in one way only: where
/// two texts that are free of `mark`, each followed by `mark` and a rest, make
/// the same text, the two are the same and so are the rests.
pub proof fn lemma_cut_at_mark(
    a: Seq<char>,
    rest_a: Seq<char>,
    b: Seq<char>,
    rest_b: Seq<char>,
    mark: char,
)
    requires
        is_free_of(a, mark),
        is_free_of(b, mark),
        a + seq![mark] + rest_a == b + seq![mark] + rest_b,
    ensures
        a == b,
        rest_a == rest_b,
{
    let whole_a = a + seq![mark] + rest_a;
    let whole_b = b + seq![mark] + rest_b;
    if a.len() < b.len() {
        assert(whole_a[a.len() as int] == mark);
        assert(whole_b[a.len() as int] == b[a.len() as int]);
    }
    if b.len() < a.len() {
        assert(whole_b[b.len() as int] == mark);
        assert(whole_a[b.len() as int] == a[b.len() as int]);
    }
    assert(a.len() == b.len());
    assert forall|k: int| 0 <= k < a.len() implies a[k] == b[k] by {
        assert(whole_a[k] == a[k]);
        assert(whole_b[k] == b[k]);
    }
    assert(a =~= b);
    assert(whole_a.len() == whole_b.len());
    assert forall|k: int| 0 <= k < rest_a.len() implies rest_a[k] == rest_b[k] by {
        assert(whole_a[a.len() + 1 + k] == rest_a[k]);
        assert(whole_b[b.len() + 1 + k] == rest_b[k]);
    }
    assert(rest_a =~= rest_b);
}

fn digit_to_char(digit: u64) -> (c: char)
    requires
        digit <= 9,
    ensures
        c == digit_char(digit as int),
{
    if digit == 0 {
        '0'
    } else if digit == 1 {
        '1'
    } else if digit == 2 {
        '2'
    } else if digit == 3 {
        '3'
    } else if digit == 4 {
        '4'
    } else if digit == 5 {
        '5'
    } else if digit == 6 {
        '6'
    } else if digit == 7 {
        '7'
    } else if digit == 8 {
        '8'
    } else {
        '9'
    }
}

/// Appends the decimal numeral of `n` to `out`.
pub fn push_digits(out: &mut String, n: u64)
    ensures
        final(out)@ == old(out)@ + digits(n as nat),
    decreases n,
{
    if n >= 10 {
        push_digits(out, n / 10);
    }
    out.push(digit_to_char(n % 10));
    proof {
        assert(final(out)@ =~= old(out)@ + digits(n as nat));
    }
}

/// Appends the decimal numeral of `value` to `out`.
pub fn push_decimal(out: &mut String, value: i64)
    ensures
        final(out)@ == old(out)@ + decimal(value as int),
{
    if value < 0 {
        out.push('-');
        // -(value + 1) cannot overflow, and one more is the magnitude.
        let magnitude: u64 = (-(value + 1)) as u64 + 1;
        push_digits(out, magnitude);
        proof {
            assert(final(out)@ =~= old(out)@ + decimal(value as int));
        }
    } else {
        push_digits(out, value as u64);
    }
}

/// Whether `phrase` stands in `text` at position `at`.
pub open spec fn occurs_at(text: Seq<char>, phrase: Seq<char>, at: int) -> bool {
    &&& 0 <= at
    &&& at + phrase.len() <= text.len()
    &&& text.subrange(at, at + phrase.len()) == phrase
}

/// Whether `phrase` stands somewhere in `text`.
pub open spec fn contains_phrase(text: Seq<char>, phrase: Seq<char>) -> bool {
    exists|at: int| occurs_at(text, phrase, at)
}

/// Whether `phrase` stands in `text` at position `at`.
fn matches_at(text: &Vec<char>, phrase: &Vec<char>, at: usize) -> (found: bool)
    requires
        at + phrase.len() <= text.len(),
    ensures
        found == occurs_at(text@, phrase@, at as int),
{
    let mut k: usize = 0;
    while k < phrase.len()
        invariant
            k <= phrase.len(),
            at + phrase.len() <= text.len(),
            forall|j: int| 0 <= j < k ==> text@[at + j] == phrase@[j],
        decreases phrase.len() - k,
    {
        if text[at + k] != phrase[k] {
            proof {
                let window = text@.subrange(at as int, at + phrase.len());
                assert(window[k as int] != phrase@[k as int]);
            }
            return false;
        }
        k += 1;
    }
    proof {
        assert(text@.subrange(at as int, at + phrase.len()) =~= phrase@);
    }
    true
}

/// Whether `phrase` stands somewhere in `text`. The empty phrase stands in
/// every text.
pub fn contains(text: &str, phrase: &str) -> (found: bool)
    ensures
        found == contains_phrase(text@, phrase@),
{
    let haystack = chars_of(text);
    let needle = chars_of(phrase);
    if needle.len() > haystack.len() {
        return false;
    }
    let last: usize = haystack.len() - needle.len();
    let mut at: usize = 0;
    loop
        invariant
            haystack@ == text@,
            needle@ == phrase@,
            last == haystack.len() - needle.len(),
            at <= last,
            forall|j: int| 0 <= j < at ==> !occurs_at(text@, phrase@, j),
        decreases last - at,
    {
        if matches_at(&haystack, &needle, at) {
            return true;
        }
        if at == last {
            return false;
        }
        at += 1;
    }
}

} // verus!
