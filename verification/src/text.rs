//! Character-level helpers: Unicode white space, trimming, literal comparison.

use vstd::prelude::*;
use vstd::utf8::encode_utf8_decode_utf8;

verus! {

/// Whether `c` carries the Unicode `White_Space` property.
pub open spec fn is_white_space(c: char) -> bool {
    let n = c as u32;
    ||| 0x09 <= n <= 0x0D
    ||| n == 0x20
    ||| n == 0x85
    ||| n == 0xA0
    ||| n == 0x1680
    ||| 0x2000 <= n <= 0x200A
    ||| n == 0x2028
    ||| n == 0x2029
    ||| n == 0x202F
    ||| n == 0x205F
    ||| n == 0x3000
}

/// `text` without its trailing white space.
pub open spec fn trim_end(text: Seq<char>) -> Seq<char>
    decreases text.len(),
{
    if text.len() > 0 && is_white_space(text.last()) {
        trim_end(text.drop_last())
    } else {
        text
    }
}

/// `text` without its leading white space.
pub open spec fn trim_start(text: Seq<char>) -> Seq<char>
    decreases text.len(),
{
    if text.len() > 0 && is_white_space(text.first()) {
        trim_start(text.drop_first())
    } else {
        text
    }
}

/// `text` without leading and trailing white space.
pub open spec fn trimmed(text: Seq<char>) -> Seq<char> {
    trim_start(trim_end(text))
}

/// The last character of `text` that is not white space, if there is one.
pub open spec fn last_visible(text: Seq<char>) -> Option<char>
    decreases text.len(),
{
    if text.len() == 0 {
        None
    } else if is_white_space(text.last()) {
        last_visible(text.drop_last())
    } else {
        Some(text.last())
    }
}

/// Whether `text`, once trimmed, ends with the character `c`.
pub open spec fn trims_to_end_with(text: Seq<char>, c: char) -> bool {
    trimmed(text).len() > 0 && trimmed(text).last() == c
}

/// Trimming the end leaves a text whose last character, if any, is the last
/// visible character of the original.
pub proof fn lemma_trim_end_last(text: Seq<char>)
    ensures
        last_visible(text) is None <==> trim_end(text).len() == 0,
        last_visible(text) matches Some(c) ==> trim_end(text).last() == c && !is_white_space(c),
    decreases text.len(),
{
    if text.len() > 0 && is_white_space(text.last()) {
        lemma_trim_end_last(text.drop_last());
    }
}

/// Trimming the start of a text that ends in a visible character keeps that
/// character last.
pub proof fn lemma_trim_start_keeps_last(text: Seq<char>)
    requires
        text.len() > 0,
        !is_white_space(text.last()),
    ensures
        trim_start(text).len() > 0,
        trim_start(text).last() == text.last(),
    decreases text.len(),
{
    if is_white_space(text.first()) {
        assert(text.len() > 1);
        lemma_trim_start_keeps_last(text.drop_first());
    }
}

/// A trimmed text ends with its original's last visible character, and is
/// empty exactly when the original has none.
pub proof fn lemma_trimmed_last(text: Seq<char>)
    ensures
        last_visible(text) is None <==> trimmed(text).len() == 0,
        last_visible(text) matches Some(c) ==> trimmed(text).last() == c,
        forall|c: char| trims_to_end_with(text, c) <==> last_visible(text) == Some(c),
{
    lemma_trim_end_last(text);
    if trim_end(text).len() > 0 {
        lemma_trim_start_keeps_last(trim_end(text));
    }
}

/// The last visible character of two texts put together is that of the
/// second, or that of the first where the second has none.
pub proof fn lemma_last_visible_concat(head: Seq<char>, tail: Seq<char>)
    ensures
        last_visible(head + tail) == if last_visible(tail) is Some {
            last_visible(tail)
        } else {
            last_visible(head)
        },
    decreases tail.len(),
{
    if tail.len() == 0 {
        assert(head + tail =~= head);
    } else {
        assert((head + tail).last() == tail.last());
        assert((head + tail).drop_last() =~= head + tail.drop_last());
        if is_white_space(tail.last()) {
            lemma_last_visible_concat(head, tail.drop_last());
        }
    }
}

/// Decides whether `c` is Unicode white space.
pub fn char_is_white_space(c: char) -> (r: bool)
    ensures
        r == is_white_space(c),
{
    let n: u32 = c as u32;
    (0x09 <= n && n <= 0x0D) || n == 0x20 || n == 0x85 || n == 0xA0 || n == 0x1680 || (0x2000
        <= n && n <= 0x200A) || n == 0x2028 || n == 0x2029 || n == 0x202F || n == 0x205F || n
        == 0x3000
}

/// Decides whether `s`, once trimmed of white space, ends with `c`.
pub fn ends_with_after_trim(s: &str, c: char) -> (r: bool)
    ensures
        r == trims_to_end_with(s@, c),
{
    broadcast use vstd::string::group_string_axioms;

    let mut last: Option<char> = None;
    for ch in it: s.chars()
        invariant
            it.seq() == s@,
            last == last_visible(s@.take(it.index())),
    {
        proof {
            assert(s@.take(it.index() + 1).drop_last() == s@.take(it.index()));
        }
        if !char_is_white_space(ch) {
            last = Some(ch);
        }
    }
    proof {
        assert(s@.take(s@.len() as int) == s@);
        lemma_trimmed_last(s@);
    }
    match last {
        Some(ch) => ch == c,
        None => false,
    }
}

/// Decides whether two texts hold the same characters.
pub fn same_text(a: &str, b: &str) -> (r: bool)
    ensures
        r == (a@ == b@),
{
    let x = a.as_bytes();
    let y = b.as_bytes();
    proof {
        encode_utf8_decode_utf8(a@);
        encode_utf8_decode_utf8(b@);
    }
    if x.len() != y.len() {
        return false;
    }
    let mut i: usize = 0;
    while i < x.len()
        invariant
            i <= x.len(),
            x.len() == y.len(),
            x@ == vstd::utf8::encode_utf8(a@),
            y@ == vstd::utf8::encode_utf8(b@),
            forall|j: int| 0 <= j < i ==> x@[j] == y@[j],
        decreases x.len() - i,
    {
        if x[i] != y[i] {
            assert(x@ != y@);
            return false;
        }
        i += 1;
    }
    proof {
        assert(x@ =~= y@);
    }
    true
}

/// `text` with every trailing repetition of `suffix` removed.
pub open spec fn strip_suffix_repeatedly(text: Seq<char>, suffix: Seq<char>) -> Seq<char>
    decreases text.len(),
{
    if 0 < suffix.len() <= text.len() && text.skip(text.len() - suffix.len()) == suffix {
        strip_suffix_repeatedly(text.take(text.len() - suffix.len()), suffix)
    } else {
        text
    }
}

/// Removes every trailing repetition of `suffix` from `s`.
pub fn without_trailing(s: &str, suffix: &str) -> (r: String)
    ensures
        r@ == strip_suffix_repeatedly(s@, suffix@),
{
    let width: usize = suffix.unicode_len();
    let mut end: usize = s.unicode_len();
    let mut stripping: bool = width > 0;
    proof {
        assert(s@.take(end as int) == s@);
    }
    while stripping
        invariant
            width == suffix@.len(),
            stripping ==> width > 0,
            end <= s@.len(),
            strip_suffix_repeatedly(s@, suffix@) == strip_suffix_repeatedly(
                s@.take(end as int),
                suffix@,
            ),
            !stripping ==> strip_suffix_repeatedly(s@.take(end as int), suffix@) == s@.take(
                end as int,
            ),
        decreases end, (if stripping { 1int } else { 0int }),
    {
        if end < width {
            stripping = false;
        } else {
            let tail = s.substring_char(end - width, end);
            proof {
                assert(s@.take(end as int).skip(end - width) == s@.subrange(
                    end - width,
                    end as int,
                ));
                assert(s@.take(end as int).take(end - width) == s@.take(end - width));
            }
            if same_text(tail, suffix) {
                end = end - width;
            } else {
                stripping = false;
            }
        }
    }
    proof {
        assert(s@.subrange(0, end as int) == s@.take(end as int));
    }
    String::from_str(s.substring_char(0, end))
}

/// The character that writes the decimal digit `d`.
pub open spec fn digit_char(d: int) -> char {
    if d == 0 {
        '0'
    } else if d == 1 {
        '1'
    } else if d == 2 {
        '2'
    } else if d == 3 {
        '3'
    } else if d == 4 {
        '4'
    } else if d == 5 {
        '5'
    } else if d == 6 {
        '6'
    } else if d == 7 {
        '7'
    } else if d == 8 {
        '8'
    } else {
        '9'
    }
}

/// The decimal digits of `n`, most significant first, without leading zeros.
pub open spec fn decimal_digits(n: nat) -> Seq<char>
    decreases n,
{
    if n < 10 {
        seq![digit_char(n as int)]
    } else {
        decimal_digits(n / 10).push(digit_char((n % 10) as int))
    }
}

/// The decimal notation of `n`, with a leading `-` for a negative number.
pub open spec fn decimal(n: int) -> Seq<char> {
    if n < 0 {
        seq!['-'] + decimal_digits((-n) as nat)
    } else {
        decimal_digits(n as nat)
    }
}

/// The one-character text of the decimal digit `d`.
fn digit_text(d: u32) -> (r: &'static str)
    requires
        d < 10,
    ensures
        r@ == seq![digit_char(d as int)],
{
    proof {
        reveal_strlit("0");
        reveal_strlit("1");
        reveal_strlit("2");
        reveal_strlit("3");
        reveal_strlit("4");
        reveal_strlit("5");
        reveal_strlit("6");
        reveal_strlit("7");
        reveal_strlit("8");
        reveal_strlit("9");
    }
    let r = if d == 0 {
        "0"
    } else if d == 1 {
        "1"
    } else if d == 2 {
        "2"
    } else if d == 3 {
        "3"
    } else if d == 4 {
        "4"
    } else if d == 5 {
        "5"
    } else if d == 6 {
        "6"
    } else if d == 7 {
        "7"
    } else if d == 8 {
        "8"
    } else {
        "9"
    };
    assert(r@ =~= seq![digit_char(d as int)]);
    r
}

/// Appends the decimal digits of `n` to `out`.
pub fn append_decimal_digits(out: &mut String, n: u32)
    ensures
        final(out)@ == old(out)@ + decimal_digits(n as nat),
    decreases n,
{
    if n >= 10 {
        append_decimal_digits(out, n / 10);
    }
    out.append(digit_text(n % 10));
    assert(out@ =~= old(out)@ + decimal_digits(n as nat));
}

/// Writes `value` in decimal notation.
pub fn decimal_text(value: i32) -> (r: String)
    ensures
        r@ == decimal(value as int),
{
    let mut out = String::new();
    if value < 0 {
        proof {
            reveal_strlit("-");
        }
        out.append("-");
        let magnitude: i64 = -(value as i64);
        append_decimal_digits(&mut out, magnitude as u32);
        assert(out@ =~= decimal(value as int));
    } else {
        append_decimal_digits(&mut out, value as u32);
        assert(out@ =~= decimal(value as int));
    }
    out
}

} // verus!
