//! Text.

use vstd::prelude::*;

verus! {

/// Whether two texts hold the same characters.
pub fn same_text(a: &str, b: &str) -> (r: bool)
    ensures
        r == (a@ == b@),
{
    let n: usize = a.unicode_len();
    if n != b.unicode_len() {
        return false;
    }
    let mut i: usize = 0;
    while i < n
        invariant
            n == a@.len(),
            n == b@.len(),
            i <= n,
            forall|k: int| 0 <= k < i ==> a@[k] == b@[k],
        decreases n - i,
    {
        if a.get_char(i) != b.get_char(i) {
            return false;
        }
        i = i + 1;
    }
    proof {
        assert(a@ =~= b@);
    }
    true
}

/// One text after another.
pub fn joined(a: &str, b: &str) -> (r: String)
    ensures
        r@ == a@ + b@,
{
    let mut r: String = String::from_str(a);
    r.append(b);
    r
}

/// The digit for a number below ten.
pub open spec fn digit(n: int) -> char {
    if n == 0 {
        '0'
    } else if n == 1 {
        '1'
    } else if n == 2 {
        '2'
    } else if n == 3 {
        '3'
    } else if n == 4 {
        '4'
    } else if n == 5 {
        '5'
    } else if n == 6 {
        '6'
    } else if n == 7 {
        '7'
    } else if n == 8 {
        '8'
    } else {
        '9'
    }
}

/// A number written in decimal.
pub open spec fn decimal(n: nat) -> Seq<char>
    decreases n,
{
    if n < 10 {
        seq![digit(n as int)]
    } else {
        decimal((n / 10) as nat).push(digit((n % 10) as int))
    }
}

/// The digit for a number below ten, as a text.
fn digit_text(n: u64) -> (r: &'static str)
    requires
        n < 10,
    ensures
        r@ == seq![digit(n as int)],
{
    proof {
        reveal_strlit("0");
        reveal_strlit("1");
        reveal_strlit("2");
        reveal_strlit("3");
        reveal_strlit("4");
        reveal_strlit("5");
        reveal_strlit("6");
        reveal_strlit("7");
        reveal_strlit("8");
        reveal_strlit("9");
    }
    let r: &'static str = if n == 0 {
        "0"
    } else if n == 1 {
        "1"
    } else if n == 2 {
        "2"
    } else if n == 3 {
        "3"
    } else if n == 4 {
        "4"
    } else if n == 5 {
        "5"
    } else if n == 6 {
        "6"
    } else if n == 7 {
        "7"
    } else if n == 8 {
        "8"
    } else {
        "9"
    };
    assert(r@ =~= seq![digit(n as int)]);
    r
}

/// A number written in decimal.
pub fn decimal_text(n: u64) -> (r: String)
    ensures
        r@ == decimal(n as nat),
    decreases n,
{
    if n < 10 {
        String::from_str(digit_text(n))
    } else {
        let mut r: String = decimal_text(n / 10);
        r.append(digit_text(n % 10));
        assert(r@ =~= decimal((n / 10) as nat).push(digit((n % 10) as int)));
        r
    }
}

/// Whether Unicode counts the character as white space.
pub open spec fn is_white(c: char) -> bool {
    ||| '\u{9}' <= c <= '\u{d}'
    ||| c == ' '
    ||| c == '\u{85}'
    ||| c == '\u{a0}'
    ||| c == '\u{1680}'
    ||| '\u{2000}' <= c <= '\u{200a}'
    ||| c == '\u{2028}'
    ||| c == '\u{2029}'
    ||| c == '\u{202f}'
    ||| c == '\u{205f}'
    ||| c == '\u{3000}'
}

/// Where the text begins once white space in front is left out.
pub open spec fn first_inked(text: Seq<char>) -> int
    decreases text.len(),
{
    if text.len() == 0 || !is_white(text[0]) {
        0
    } else {
        1 + first_inked(text.skip(1))
    }
}

/// Where the text ends once white space behind is left out.
pub open spec fn last_inked(text: Seq<char>) -> int
    decreases text.len(),
{
    if text.len() == 0 || !is_white(text.last()) {
        text.len() as int
    } else {
        last_inked(text.drop_last())
    }
}

/// The text without white space in front and behind.
pub open spec fn trimmed_text(text: Seq<char>) -> Seq<char> {
    let rest = text.skip(first_inked(text));
    rest.take(last_inked(rest))
}

/// Whether Unicode counts the character as white space.
fn white(c: char) -> (r: bool)
    ensures
        r == is_white(c),
{
    ('\u{9}' <= c && c <= '\u{d}') || c == ' ' || c == '\u{85}' || c == '\u{a0}' || c == '\u{1680}'
        || ('\u{2000}' <= c && c <= '\u{200a}') || c == '\u{2028}' || c == '\u{2029}' || c
        == '\u{202f}' || c == '\u{205f}' || c == '\u{3000}'
}

proof fn lemma_first_inked(text: Seq<char>, i: int)
    requires
        0 <= i <= text.len(),
        forall|k: int| 0 <= k < i ==> is_white(#[trigger] text[k]),
        i < text.len() ==> !is_white(text[i]),
    ensures
        first_inked(text) == i,
    decreases i,
{
    if i > 0 {
        let rest = text.skip(1);
        assert forall|k: int| 0 <= k < i - 1 implies is_white(#[trigger] rest[k]) by {
            assert(rest[k] == text[k + 1]);
        }
        assert(is_white(text[0]));
        lemma_first_inked(rest, i - 1);
    }
}

proof fn lemma_last_inked(text: Seq<char>, n: int)
    requires
        0 <= n <= text.len(),
        forall|k: int| n <= k < text.len() ==> is_white(#[trigger] text[k]),
        n > 0 ==> !is_white(text[n - 1]),
    ensures
        last_inked(text) == n,
    decreases text.len(),
{
    if n < text.len() {
        let rest = text.drop_last();
        assert(is_white(text[text.len() - 1]));
        assert forall|k: int| n <= k < rest.len() implies is_white(#[trigger] rest[k]) by {
            assert(rest[k] == text[k]);
        }
        lemma_last_inked(rest, n);
    }
}

/// The text without white space in front and behind.
pub fn trimmed(text: &str) -> (r: &str)
    ensures
        r@ == trimmed_text(text@),
{
    let n: usize = text.unicode_len();
    let mut start: usize = 0;
    while start < n && white(text.get_char(start))
        invariant
            n == text@.len(),
            start <= n,
            forall|k: int| 0 <= k < start ==> is_white(#[trigger] text@[k]),
        decreases n - start,
    {
        start = start + 1;
    }
    let mut end: usize = n;
    while end > start && white(text.get_char(end - 1))
        invariant
            n == text@.len(),
            start <= end <= n,
            forall|k: int| end <= k < n ==> is_white(#[trigger] text@[k]),
        decreases end,
    {
        end = end - 1;
    }
    proof {
        lemma_first_inked(text@, start as int);
        let rest = text@.skip(start as int);
        assert forall|k: int| end - start <= k < rest.len() implies is_white(#[trigger] rest[k]) by {
            assert(rest[k] == text@[k + start]);
        }
        if end > start {
            assert(rest[end - start - 1] == text@[end - 1]);
        }
        lemma_last_inked(rest, end - start);
        assert(text@.subrange(start as int, end as int) =~= rest.take(end - start));
    }
    text.substring_char(start, end)
}

/// Whether `needle` occurs in `text`.
pub open spec fn holds_text(text: Seq<char>, needle: Seq<char>) -> bool {
    exists|i: int|
        0 <= i <= text.len() - needle.len() && #[trigger] text.subrange(i, i + needle.len())
            == needle
}

/// Whether `needle` occurs in `text`.
pub fn contains_text(text: &str, needle: &str) -> (r: bool)
    ensures
        r == holds_text(text@, needle@),
{
    let n: usize = text.unicode_len();
    let m: usize = needle.unicode_len();
    if m > n {
        return false;
    }
    let mut i: usize = 0;
    while i <= n - m
        invariant
            n == text@.len(),
            m == needle@.len(),
            m <= n,
            i <= n - m + 1,
            forall|k: int| 0 <= k < i ==> #[trigger] text@.subrange(k, k + m) != needle@,
        decreases n - m + 1 - i,
    {
        if same_text(text.substring_char(i, i + m), needle) {
            return true;
        }
        if i == n - m {
            return false;
        }
        i = i + 1;
    }
    false
}

/// Whether every letter of a text is an ASCII one.
pub open spec fn is_plain(text: Seq<char>) -> bool {
    forall|i: int| 0 <= i < text.len() ==> (#[trigger] text[i] as u32) < 128
}

/// A letter in lower case, as far as it is one of the alphabet.
pub open spec fn small_letter(c: char) -> char {
    match c {
        'A' => 'a',
        'B' => 'b',
        'C' => 'c',
        'D' => 'd',
        'E' => 'e',
        'F' => 'f',
        'G' => 'g',
        'H' => 'h',
        'I' => 'i',
        'J' => 'j',
        'K' => 'k',
        'L' => 'l',
        'M' => 'm',
        'N' => 'n',
        'O' => 'o',
        'P' => 'p',
        'Q' => 'q',
        'R' => 'r',
        'S' => 's',
        'T' => 't',
        'U' => 'u',
        'V' => 'v',
        'W' => 'w',
        'X' => 'x',
        'Y' => 'y',
        'Z' => 'z',
        _ => c,
    }
}

/// A letter in upper case, as far as it is one of the alphabet.
pub open spec fn capital_letter(c: char) -> char {
    match c {
        'a' => 'A',
        'b' => 'B',
        'c' => 'C',
        'd' => 'D',
        'e' => 'E',
        'f' => 'F',
        'g' => 'G',
        'h' => 'H',
        'i' => 'I',
        'j' => 'J',
        'k' => 'K',
        'l' => 'L',
        'm' => 'M',
        'n' => 'N',
        'o' => 'O',
        'p' => 'P',
        'q' => 'Q',
        'r' => 'R',
        's' => 'S',
        't' => 'T',
        'u' => 'U',
        'v' => 'V',
        'w' => 'W',
        'x' => 'X',
        'y' => 'Y',
        'z' => 'Z',
        _ => c,
    }
}

/// A text with each letter of the alphabet in lower case.
pub open spec fn in_small(text: Seq<char>) -> Seq<char> {
    text.map_values(|c: char| small_letter(c))
}

/// A text with each letter of the alphabet in upper case.
pub open spec fn in_capitals(text: Seq<char>) -> Seq<char> {
    text.map_values(|c: char| capital_letter(c))
}

/// Writing a text in capitals first makes no difference to it in lower case.
pub proof fn lemma_capitals_in_small(text: Seq<char>)
    ensures
        in_small(in_capitals(text)) == in_small(text),
{
    assert forall|i: int| 0 <= i < text.len() implies in_small(in_capitals(text))[i] == in_small(
        text,
    )[i] by {
        assert(small_letter(capital_letter(text[i])) == small_letter(text[i]));
    }
    assert(in_small(in_capitals(text)) =~= in_small(text));
}

/// A plain text is plain in capitals.
pub proof fn lemma_capitals_are_plain(text: Seq<char>)
    requires
        is_plain(text),
    ensures
        is_plain(in_capitals(text)),
{
    assert forall|i: int| 0 <= i < text.len() implies (#[trigger] in_capitals(text)[i] as u32)
        < 128 by {
        assert((text[i] as u32) < 128);
    }
}

/// A text that holds another holds every part of it.
pub proof fn lemma_holds_part(text: Seq<char>, needle: Seq<char>, i: int, j: int)
    requires
        holds_text(text, needle),
        0 <= i <= j <= needle.len(),
    ensures
        holds_text(text, needle.subrange(i, j)),
{
    let at = choose|at: int|
        0 <= at <= text.len() - needle.len() && #[trigger] text.subrange(at, at + needle.len())
            == needle;
    let part = needle.subrange(i, j);
    let found = text.subrange(at, at + needle.len());
    assert forall|k: int| 0 <= k < part.len() implies text.subrange(
        at + i,
        at + i + part.len(),
    )[k] == part[k] by {
        assert(found[i + k] == needle[i + k]);
    }
    assert(text.subrange(at + i, at + i + part.len()) =~= part);
}

/// The text in lower case, as `str::to_lowercase` gives it.
pub uninterp spec fn lowered(text: Seq<char>) -> Seq<char>;

/// `str::to_lowercase`: the text with each letter in lower case as Unicode maps
/// it. The same text gives the same answer, and an ASCII text is lowered letter
/// by letter.
#[verifier::external_body]
pub(crate) fn to_lower(text: &str) -> (r: String)
    ensures
        r@ == lowered(text@),
        is_plain(text@) ==> r@ == in_small(text@),
{
    text.to_lowercase()
}

/// Trimming takes white space from both ends and nothing else: what is left begins
/// and ends with something else than white space, or is empty.
pub proof fn law_trimming_takes_white_space_from_the_ends(text: Seq<char>)
    ensures
        exists|front: Seq<char>, back: Seq<char>|
            {
                &&& text == #[trigger] (front + trimmed_text(text) + back)
                &&& forall|k: int| 0 <= k < front.len() ==> is_white(#[trigger] front[k])
                &&& forall|k: int| 0 <= k < back.len() ==> is_white(#[trigger] back[k])
            },
        trimmed_text(text).len() > 0 ==> !is_white(trimmed_text(text)[0]) && !is_white(
            trimmed_text(text).last(),
        ),
{
    lemma_first_inked_is(text);
    let start = first_inked(text);
    let rest = text.skip(start);
    lemma_last_inked_is(rest);
    let end = last_inked(rest);
    let front = text.take(start);
    let back = rest.skip(end);
    let inner = trimmed_text(text);
    assert(text =~= front + inner + back);
    assert forall|k: int| 0 <= k < front.len() implies is_white(#[trigger] front[k]) by {
        assert(front[k] == text[k]);
    }
    assert forall|k: int| 0 <= k < back.len() implies is_white(#[trigger] back[k]) by {
        assert(back[k] == rest[k + end]);
    }
    if inner.len() > 0 {
        assert(inner[0] == text[start]);
        assert(inner.last() == rest[end - 1]);
    }
}

proof fn lemma_first_inked_is(text: Seq<char>)
    ensures
        0 <= first_inked(text) <= text.len(),
        forall|k: int| 0 <= k < first_inked(text) ==> is_white(#[trigger] text[k]),
        first_inked(text) < text.len() ==> !is_white(text[first_inked(text)]),
    decreases text.len(),
{
    if text.len() > 0 && is_white(text[0]) {
        let rest = text.skip(1);
        lemma_first_inked_is(rest);
        assert forall|k: int| 0 <= k < first_inked(text) implies is_white(#[trigger] text[k]) by {
            if k > 0 {
                assert(rest[k - 1] == text[k]);
            }
        }
        if first_inked(text) < text.len() {
            assert(rest[first_inked(rest)] == text[first_inked(text)]);
        }
    }
}

proof fn lemma_last_inked_is(text: Seq<char>)
    ensures
        0 <= last_inked(text) <= text.len(),
        forall|k: int| last_inked(text) <= k < text.len() ==> is_white(#[trigger] text[k]),
        last_inked(text) > 0 ==> !is_white(text[last_inked(text) - 1]),
    decreases text.len(),
{
    if text.len() > 0 && is_white(text.last()) {
        let rest = text.drop_last();
        lemma_last_inked_is(rest);
        assert forall|k: int| last_inked(text) <= k < text.len() implies is_white(
            #[trigger] text[k],
        ) by {
            if k < rest.len() {
                assert(rest[k] == text[k]);
            }
        }
    }
}

/// A text without white space at its ends is left as it is, so that trimming twice
/// trims no more than once.
pub proof fn law_trimmed_text_stands(text: Seq<char>)
    ensures
        text.len() == 0 || (!is_white(text[0]) && !is_white(text.last())) ==> trimmed_text(text)
            == text,
        trimmed_text(trimmed_text(text)) == trimmed_text(text),
{
    if text.len() == 0 || (!is_white(text[0]) && !is_white(text.last())) {
        lemma_ends_stand(text);
    }
    law_trimming_takes_white_space_from_the_ends(text);
    lemma_ends_stand(trimmed_text(text));
}

proof fn lemma_ends_stand(text: Seq<char>)
    requires
        text.len() == 0 || (!is_white(text[0]) && !is_white(text.last())),
    ensures
        trimmed_text(text) == text,
{
    let rest = text.skip(first_inked(text));
    assert(rest =~= text);
    assert(rest.take(last_inked(rest)) =~= text);
}

/// A text holds another exactly where it is that text with something, or nothing, in
/// front and behind.
pub proof fn law_holding_is_having_inside(
    text: Seq<char>,
    needle: Seq<char>,
    front: Seq<char>,
    back: Seq<char>,
)
    ensures
        holds_text(front + needle + back, needle),
        holds_text(text, needle) ==> exists|a: Seq<char>, b: Seq<char>|
            text == #[trigger] (a + needle + b),
{
    let whole = front + needle + back;
    let at = front.len() as int;
    assert(whole.subrange(at, at + needle.len()) =~= needle);
    if holds_text(text, needle) {
        let i = choose|i: int|
            0 <= i <= text.len() - needle.len() && #[trigger] text.subrange(i, i + needle.len())
                == needle;
        let a = text.take(i);
        let b = text.skip(i + needle.len());
        let found = text.subrange(i, i + needle.len());
        assert(text =~= a + found + b);
        assert(text == a + needle + b);
    }
}

/// The digits are those of the alphabet of digits, in order.
pub proof fn law_digits_are_in_order(n: int)
    requires
        0 <= n < 10,
    ensures
        digit(n) as u32 == 48 + n,
{
}

/// A digit behind a number makes it ten times as much and the digit more, no number is
/// written with a nought in front, and two numbers that are written alike are the
/// same.
pub proof fn law_decimal_is_the_number(m: nat, n: nat)
    ensures
        m > 0 && n < 10 ==> decimal((m * 10 + n) as nat) == decimal(m).push(digit(n as int)),
        n < 10 ==> decimal(n) == seq![digit(n as int)],
        n > 0 ==> decimal(n)[0] != '0',
        decimal(m) == decimal(n) ==> m == n,
    decreases m + n,
{
    if m > 0 && n < 10 {
        assert((m * 10 + n) / 10 == m && (m * 10 + n) % 10 == n);
    }
    if n > 0 {
        lemma_no_nought_in_front(n);
    }
    lemma_decimal_len(m);
    lemma_decimal_len(n);
    if decimal(m) == decimal(n) {
        if m < 10 && n < 10 {
            assert(decimal(m)[0] == decimal(n)[0]);
            law_digits_are_in_order(m as int);
            law_digits_are_in_order(n as int);
        } else if m >= 10 && n >= 10 {
            let p = (m / 10) as nat;
            let q = (n / 10) as nat;
            assert(decimal(m).drop_last() =~= decimal(p));
            assert(decimal(n).drop_last() =~= decimal(q));
            assert(decimal(m).last() == decimal(n).last());
            law_decimal_is_the_number(p, q);
            law_digits_are_in_order((m % 10) as int);
            law_digits_are_in_order((n % 10) as int);
            assert(m == p * 10 + m % 10 && n == q * 10 + n % 10);
        }
    }
}

proof fn lemma_no_nought_in_front(n: nat)
    requires
        n > 0,
    ensures
        decimal(n).len() > 0,
        decimal(n)[0] != '0',
    decreases n,
{
    if n < 10 {
        law_digits_are_in_order(n as int);
    } else {
        lemma_no_nought_in_front((n / 10) as nat);
    }
}

proof fn lemma_decimal_len(n: nat)
    ensures
        n < 10 ==> decimal(n).len() == 1,
        n >= 10 ==> decimal(n).len() > 1,
    decreases n,
{
    if n >= 10 {
        lemma_decimal_len((n / 10) as nat);
    }
}

/// A capital of the alphabet becomes the small letter at its place, and every other
/// character stays.
pub proof fn law_lowering_keeps_the_place(c: char)
    ensures
        'A' <= c && c <= 'Z' ==> small_letter(c) as u32 == c as u32 + 32,
        !('A' <= c && c <= 'Z') ==> small_letter(c) == c,
        'a' <= c && c <= 'z' ==> capital_letter(c) as u32 + 32 == c as u32,
        !('a' <= c && c <= 'z') ==> capital_letter(c) == c,
{
}

/// Of the ASCII characters, the blank and the five from the tab to the carriage return are
/// white space, and no other.
pub proof fn law_plain_white_space(c: char)
    requires
        (c as u32) < 128,
    ensures
        is_white(c) <==> c as u32 == 32 || 9 <= c as u32 <= 13,
{
}

} // verus!
