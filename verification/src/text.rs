//! Plain text: decimal numerals and padding to a width, for the tables the
//! library renders.
use vstd::prelude::*;

use vstd::string::StringExecFns;

verus! {

/// The character of a decimal digit.
pub open spec fn digit_char(d: int) -> char {
    if d == 0 {
        '0'
    } else if d == 1 {
        '1'
    } else if d == 2 {
        '2'
    } else if d == 3 {
        '3'
    } else if d == 4 {
        '4'
    } else if d == 5 {
        '5'
    } else if d == 6 {
        '6'
    } else if d == 7 {
        '7'
    } else if d == 8 {
        '8'
    } else {
        '9'
    }
}

/// The decimal numeral of a natural number, without leading zeros.
pub open spec fn decimal(n: nat) -> Seq<char>
    decreases n,
{
    if n < 10 {
        seq![digit_char(n as int)]
    } else {
        decimal(n / 10).push(digit_char((n % 10) as int))
    }
}

/// The decimal numeral of an integer, with a minus sign when negative.
pub open spec fn signed_decimal(n: int) -> Seq<char> {
    if n < 0 {
        seq!['-'] + decimal((-n) as nat)
    } else {
        decimal(n as nat)
    }
}

/// `text` followed by as many `fill` characters as bring it to `width`.
pub open spec fn fill_to(text: Seq<char>, fill: char, width: nat) -> Seq<char> {
    if text.len() < width {
        text + Seq::new((width - text.len()) as nat, |i: int| fill)
    } else {
        text
    }
}

/// `text` after as many spaces as bring it to `width`.
pub open spec fn pad_to(text: Seq<char>, width: nat) -> Seq<char> {
    if text.len() < width {
        Seq::new((width - text.len()) as nat, |i: int| ' ') + text
    } else {
        text
    }
}

/// The string of one decimal digit.
fn digit_str(d: u64) -> (s: &'static str)
    requires
        d < 10,
    ensures
        s@ == seq![digit_char(d as int)],
{
    proof {
        reveal_strlit("0");
        reveal_strlit("1");
        reveal_strlit("2");
        reveal_strlit("3");
        reveal_strlit("4");
        reveal_strlit("5");
        reveal_strlit("6");
        reveal_strlit("7");
        reveal_strlit("8");
        reveal_strlit("9");
    }
    if d == 0 {
        "0"
    } else if d == 1 {
        "1"
    } else if d == 2 {
        "2"
    } else if d == 3 {
        "3"
    } else if d == 4 {
        "4"
    } else if d == 5 {
        "5"
    } else if d == 6 {
        "6"
    } else if d == 7 {
        "7"
    } else if d == 8 {
        "8"
    } else {
        "9"
    }
}

/// Writes the decimal numeral of `n` at the end of `s`.
pub fn append_decimal(s: &mut String, n: u64)
    ensures
        final(s)@ == old(s)@ + decimal(n as nat),
    decreases n,
{
    if n >= 10 {
        append_decimal(s, n / 10);
    }
    s.append(digit_str(n % 10));
    proof {
        if n >= 10 {
            assert(decimal(n as nat) == decimal((n / 10) as nat).push(digit_char((n % 10) as int)));
        }
    }
}

/// Writes the decimal numeral of `n`, signed, at the end of `s`.
pub fn append_signed(s: &mut String, n: i64)
    ensures
        final(s)@ == old(s)@ + signed_decimal(n as int),
{
    if n < 0 {
        proof {
            reveal_strlit("-");
        }
        s.append("-");
        let magnitude: u64 = (0i128 - n as i128) as u64;
        append_decimal(s, magnitude);
    } else {
        append_decimal(s, n as u64);
    }
}

/// The decimal numeral of `n`.
pub fn decimal_string(n: i64) -> (s: String)
    ensures
        s@ == signed_decimal(n as int),
{
    let mut s = String::new();
    append_signed(&mut s, n);
    s
}

/// The number of characters in `text`, counted up to `cap`.
pub fn char_count_up_to(text: &str, cap: usize) -> (n: usize)
    ensures
        n == (if text@.len() < cap {
            text@.len()
        } else {
            cap as nat
        }),
{
    let mut n: usize = 0;
    for c in it: text.chars()
        invariant
            it.seq() == text@,
            n == (if it.index() < cap {
                it.index()
            } else {
                cap as int
            }),
    {
        if n < cap {
            n = n + 1;
        }
    }
    n
}

/// Writes `count` copies of the one-character string `fill` at the end of
/// `s`.
fn append_repeated(s: &mut String, fill: &str, count: usize)
    requires
        fill@.len() == 1,
    ensures
        final(s)@ == old(s)@ + Seq::new(count as nat, |i: int| fill@[0]),
{
    let mut k: usize = 0;
    while k < count
        invariant
            k <= count,
            fill@.len() == 1,
            s@ == old(s)@ + Seq::new(k as nat, |i: int| fill@[0]),
        decreases count - k,
    {
        let ghost before = s@;
        s.append(fill);
        k = k + 1;
        proof {
            assert(s@ =~= old(s)@ + Seq::new(k as nat, |i: int| fill@[0]));
        }
    }
}

/// Writes `text` and then the one-character `fill` until `width`
/// characters have been written.
pub fn append_filled(s: &mut String, text: &str, fill: &str, width: usize)
    requires
        fill@.len() == 1,
    ensures
        final(s)@ == old(s)@ + fill_to(text@, fill@[0], width as nat),
{
    let n = char_count_up_to(text, width);
    s.append(text);
    let ghost mid = s@;
    append_repeated(s, fill, width - n);
    proof {
        if text@.len() < width {
            assert(s@ =~= old(s)@ + fill_to(text@, fill@[0], width as nat));
        } else {
            assert(Seq::new(0, |i: int| fill@[0]) =~= Seq::<char>::empty());
            assert(s@ =~= old(s)@ + fill_to(text@, fill@[0], width as nat));
        }
    }
}

/// Writes `text` after as many spaces as bring it to `width` characters.
pub fn append_padded(s: &mut String, text: &str, width: usize)
    ensures
        final(s)@ == old(s)@ + pad_to(text@, width as nat),
{
    proof {
        reveal_strlit(" ");
    }
    let n = char_count_up_to(text, width);
    append_repeated(s, " ", width - n);
    s.append(text);
    proof {
        if text@.len() < width {
            assert(s@ =~= old(s)@ + pad_to(text@, width as nat));
        } else {
            assert(Seq::new(0, |i: int| ' ') =~= Seq::<char>::empty());
            assert(s@ =~= old(s)@ + pad_to(text@, width as nat));
        }
    }
}

/// The parts written one after another with `sep` between each two.
pub open spec fn joined(parts: Seq<Seq<char>>, sep: Seq<char>) -> Seq<char>
    decreases parts.len(),
{
    if parts.len() == 0 {
        Seq::empty()
    } else if parts.len() == 1 {
        parts[0]
    } else {
        joined(parts.drop_last(), sep) + sep + parts.last()
    }
}

/// Adding a part to a joined list writes the separator and the part.
pub proof fn lemma_joined_push(parts: Seq<Seq<char>>, sep: Seq<char>, part: Seq<char>)
    ensures
        joined(parts.push(part), sep) == if parts.len() == 0 {
            part
        } else {
            joined(parts, sep) + sep + part
        },
{
    assert(parts.push(part).drop_last() =~= parts);
}

} // verus!
