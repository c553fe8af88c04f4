//! Text handling shared by the other modules: comparison, decimal rendering
//! and the trimming of padding around a payload.

use vstd::prelude::*;
use vstd::string::*;
use vstd::utf8::*;

verus! {

/// The characters of a text that may be missing.
pub open spec fn optional_text(text: Option<&str>) -> Option<Seq<char>> {
    match text {
        Some(text) => Some(text@),
        None => None,
    }
}

/// Whether two texts hold the same characters.
pub fn same_text(a: &str, b: &str) -> (same: bool)
    ensures
        same == (a@ == b@),
{
    let left = a.as_bytes();
    let right = b.as_bytes();
    proof {
        encode_utf8_decode_utf8(a@);
        encode_utf8_decode_utf8(b@);
    }
    if left.len() != right.len() {
        return false;
    }
    let mut i: usize = 0;
    while i < left.len()
        invariant
            i <= left@.len(),
            left@.len() == right@.len(),
            left@ == encode_utf8(a@),
            right@ == encode_utf8(b@),
            decode_utf8(encode_utf8(a@)) == a@,
            decode_utf8(encode_utf8(b@)) == b@,
            forall|k: int| 0 <= k < i ==> left@[k] == right@[k],
        decreases left@.len() - i,
    {
        if left[i] != right[i] {
            return false;
        }
        i += 1;
    }
    assert(left@ =~= right@);
    true
}

/// The characters of a text, in order.
pub fn chars_of(s: &str) -> (chars: Vec<char>)
    ensures
        chars@ == s@,
{
    let mut chars: Vec<char> = Vec::new();
    for c in it: s.chars()
        invariant
            chars@ == it.seq().take(it.index() as int),
    {
        chars.push(c);
    }
    chars
}

/// `s` begins with `prefix`.
pub open spec fn has_prefix(s: Seq<char>, prefix: Seq<char>) -> bool {
    prefix.len() <= s.len() && s.subrange(0, prefix.len() as int) == prefix
}

/// Whether `s` begins with `prefix`.
pub fn starts_with(s: &str, prefix: &str) -> (yes: bool)
    ensures
        yes == has_prefix(s@, prefix@),
{
    let text = chars_of(s);
    let head = chars_of(prefix);
    if head.len() > text.len() {
        return false;
    }
    let mut i: usize = 0;
    while i < head.len()
        invariant
            i <= head@.len() <= text@.len(),
            text@ == s@,
            head@ == prefix@,
            forall|k: int| 0 <= k < i ==> text@[k] == head@[k],
        decreases head@.len() - i,
    {
        if text[i] != head[i] {
            assert(s@.subrange(0, prefix@.len() as int)[i as int] != prefix@[i as int]);
            return false;
        }
        i += 1;
    }
    assert(s@.subrange(0, prefix@.len() as int) =~= prefix@);
    true
}

/// The character that writes the decimal digit `d`.
pub open spec fn digit_char(d: nat) -> char {
    if d == 0 {
        '0'
    } else if d == 1 {
        '1'
    } else if d == 2 {
        '2'
    } else if d == 3 {
        '3'
    } else if d == 4 {
        '4'
    } else if d == 5 {
        '5'
    } else if d == 6 {
        '6'
    } else if d == 7 {
        '7'
    } else if d == 8 {
        '8'
    } else {
        '9'
    }
}

/// The decimal numeral of `n`: no sign, no leading zero, `"0"` for zero.
pub open spec fn decimal_text(n: nat) -> Seq<char>
    decreases n,
{
    if n < 10 {
        seq![digit_char(n)]
    } else {
        decimal_text(n / 10).push(digit_char(n % 10))
    }
}

/// The one-character text of a decimal digit.
fn digit_text(d: u64) -> (t: &'static str)
    requires
        d < 10,
    ensures
        t@ == seq![digit_char(d as nat)],
{
    proof {
        reveal_strlit("0");
        reveal_strlit("1");
        reveal_strlit("2");
        reveal_strlit("3");
        reveal_strlit("4");
        reveal_strlit("5");
        reveal_strlit("6");
        reveal_strlit("7");
        reveal_strlit("8");
        reveal_strlit("9");
    }
    let t = if d == 0 {
        "0"
    } else if d == 1 {
        "1"
    } else if d == 2 {
        "2"
    } else if d == 3 {
        "3"
    } else if d == 4 {
        "4"
    } else if d == 5 {
        "5"
    } else if d == 6 {
        "6"
    } else if d == 7 {
        "7"
    } else if d == 8 {
        "8"
    } else {
        "9"
    };
    assert(t@ =~= seq![digit_char(d as nat)]);
    t
}

/// Appends the decimal numeral of `n` to `out`.
pub fn push_decimal(out: &mut String, n: u64)
    ensures
        final(out)@ == old(out)@ + decimal_text(n as nat),
    decreases n,
{
    if n >= 10 {
        push_decimal(out, n / 10);
    }
    out.append(digit_text(n % 10));
    assert(out@ =~= old(out)@ + decimal_text(n as nat));
}

/// The characters with Unicode's White_Space property.
pub open spec fn is_whitespace(c: char) -> bool {
    ||| '\u{9}' <= c <= '\u{d}'
    ||| c == ' '
    ||| c == '\u{85}'
    ||| c == '\u{a0}'
    ||| c == '\u{1680}'
    ||| '\u{2000}' <= c <= '\u{200a}'
    ||| c == '\u{2028}'
    ||| c == '\u{2029}'
    ||| c == '\u{202f}'
    ||| c == '\u{205f}'
    ||| c == '\u{3000}'
}

/// What may surround a code-fenced payload: backticks, line feeds, spaces.
pub open spec fn is_fence_padding(c: char) -> bool {
    c == '`' || c == '\n' || c == ' '
}

/// A class of characters that is trimmed from around a payload.
#[derive(Clone, Copy, Debug, PartialEq, Eq, Structural)]
pub enum Padding {
    /// Unicode white space.
    Whitespace,
    /// Backticks, line feeds and spaces.
    Fence,
}

impl Padding {
    /// Whether `c` belongs to this class.
    pub open spec fn covers(self, c: char) -> bool {
        match self {
            Padding::Whitespace => is_whitespace(c),
            Padding::Fence => is_fence_padding(c),
        }
    }

    /// Whether `c` belongs to this class.
    pub fn has(&self, c: char) -> (yes: bool)
        ensures
            yes == self.covers(c),
    {
        match self {
            Padding::Whitespace => {
                ('\u{9}' <= c && c <= '\u{d}') || c == ' ' || c == '\u{85}' || c == '\u{a0}' || c
                    == '\u{1680}' || ('\u{2000}' <= c && c <= '\u{200a}') || c == '\u{2028}' || c
                    == '\u{2029}' || c == '\u{202f}' || c == '\u{205f}' || c == '\u{3000}'
            },
            Padding::Fence => c == '`' || c == '\n' || c == ' ',
        }
    }
}

/// `s` without its longest prefix made of `pad`.
pub open spec fn without_leading(s: Seq<char>, pad: Padding) -> Seq<char>
    decreases s.len(),
{
    if s.len() > 0 && pad.covers(s.first()) {
        without_leading(s.drop_first(), pad)
    } else {
        s
    }
}

/// `s` without its longest suffix made of `pad`.
pub open spec fn without_trailing(s: Seq<char>, pad: Padding) -> Seq<char>
    decreases s.len(),
{
    if s.len() > 0 && pad.covers(s.last()) {
        without_trailing(s.drop_last(), pad)
    } else {
        s
    }
}

/// `s` with `pad` removed from both ends.
pub open spec fn trimmed(s: Seq<char>, pad: Padding) -> Seq<char> {
    without_trailing(without_leading(s, pad), pad)
}

/// Trims `pad` from both ends of `chars[from..to]` and gives the bounds of
/// what is left. Where nothing is left, both bounds are `to`.
pub fn trim_range(
    chars: &Vec<char>,
    from: usize,
    to: usize,
    pad: Padding,
) -> (kept: (usize, usize))
    requires
        from <= to <= chars@.len(),
    ensures
        from <= kept.0 <= kept.1 <= to,
        chars@.subrange(kept.0 as int, kept.1 as int) == trimmed(
            chars@.subrange(from as int, to as int),
            pad,
        ),
        forall|k: int| from <= k < kept.0 ==> pad.covers(#[trigger] chars@[k]),
        forall|k: int| kept.1 <= k < to ==> pad.covers(#[trigger] chars@[k]),
        kept.0 < kept.1 ==> !pad.covers(chars@[kept.0 as int]) && !pad.covers(
            chars@[kept.1 - 1],
        ),
        kept.0 == kept.1 ==> kept.1 == to,
{
    let mut start = from;
    while start < to && pad.has(chars[start])
        invariant
            from <= start <= to <= chars@.len(),
            without_leading(chars@.subrange(from as int, to as int), pad) == without_leading(
                chars@.subrange(start as int, to as int),
                pad,
            ),
            forall|k: int| from <= k < start ==> pad.covers(#[trigger] chars@[k]),
        decreases to - start,
    {
        assert(chars@.subrange(start as int, to as int).drop_first() =~= chars@.subrange(
            start + 1,
            to as int,
        ));
        start += 1;
    }
    if start == to {
        assert(chars@.subrange(to as int, to as int).len() == 0);
        return (to, to);
    }
    let ghost body = chars@.subrange(start as int, to as int);
    assert(without_leading(body, pad) == body);
    let mut end = to;
    while start < end && pad.has(chars[end - 1])
        invariant
            start <= end <= to <= chars@.len(),
            start < to,
            !pad.covers(chars@[start as int]),
            without_trailing(chars@.subrange(start as int, to as int), pad) == without_trailing(
                chars@.subrange(start as int, end as int),
                pad,
            ),
            forall|k: int| end <= k < to ==> pad.covers(#[trigger] chars@[k]),
        decreases end - start,
    {
        assert(chars@.subrange(start as int, end as int).drop_last() =~= chars@.subrange(
            start as int,
            end - 1,
        ));
        end -= 1;
    }
    assert(start < end);
    assert(without_trailing(chars@.subrange(start as int, end as int), pad) == chars@.subrange(
        start as int,
        end as int,
    ));
    (start, end)
}

} // verus!
