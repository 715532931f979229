//! Texts that messages are made of.

use crate::lexer::chars_of;
use vstd::prelude::*;

verus! {

/// The digit that stands for `d`, a number below ten.
pub open spec fn digit(d: int) -> char {
    if d == 0 {
        '0'
    } else if d == 1 {
        '1'
    } else if d == 2 {
        '2'
    } else if d == 3 {
        '3'
    } else if d == 4 {
        '4'
    } else if d == 5 {
        '5'
    } else if d == 6 {
        '6'
    } else if d == 7 {
        '7'
    } else if d == 8 {
        '8'
    } else {
        '9'
    }
}

/// The decimal digits of a natural number, without leading zeros.
pub open spec fn digits(n: nat) -> Seq<char>
    decreases n,
{
    if n < 10 {
        seq![digit(n as int)]
    } else {
        digits(n / 10).push(digit((n % 10) as int))
    }
}

/// The decimal text of an integer: its digits, behind a minus sign where it
/// is negative.
pub open spec fn decimal(n: int) -> Seq<char> {
    if n < 0 {
        seq!['-'] + digits((-n) as nat)
    } else {
        digits(n as nat)
    }
}

/// The digit that stands for `d`.
pub fn digit_of(d: u32) -> (c: char)
    requires
        d < 10,
    ensures
        c == digit(d as int),
{
    if d == 0 {
        '0'
    } else if d == 1 {
        '1'
    } else if d == 2 {
        '2'
    } else if d == 3 {
        '3'
    } else if d == 4 {
        '4'
    } else if d == 5 {
        '5'
    } else if d == 6 {
        '6'
    } else if d == 7 {
        '7'
    } else if d == 8 {
        '8'
    } else {
        '9'
    }
}

/// Appends the decimal digits of `n` to `text`.
pub fn push_digits(text: &mut String, n: u32)
    ensures
        final(text)@ == old(text)@ + digits(n as nat),
    decreases n,
{
    if n < 10 {
        text.push(digit_of(n));
        assert(old(text)@.push(digit(n as int)) =~= old(text)@ + digits(n as nat));
    } else {
        push_digits(text, n / 10);
        text.push(digit_of(n % 10));
        assert((old(text)@ + digits((n / 10) as nat)).push(digit((n % 10) as int)) =~= old(text)@
            + digits(n as nat));
    }
}

/// The decimal text of `n`.
pub fn decimal_text(n: i32) -> (r: String)
    ensures
        r@ == decimal(n as int),
{
    let mut r = String::new();
    if n < 0 {
        r.push('-');
        let magnitude: u32 = if n == i32::MIN {
            2147483648u32
        } else {
            (-n) as u32
        };
        push_digits(&mut r, magnitude);
    } else {
        push_digits(&mut r, n as u32);
        assert(Seq::<char>::empty() + digits(n as nat) =~= digits(n as nat));
    }
    r
}

/// The text made of `n` times the character `c`.
pub open spec fn repeated(c: char, n: nat) -> Seq<char> {
    Seq::new(n, |i: int| c)
}

/// Appends `n` times the character `c` to `text`.
pub fn push_repeated(text: &mut String, c: char, n: usize)
    ensures
        final(text)@ == old(text)@ + repeated(c, n as nat),
{
    let mut i: usize = 0;
    assert(old(text)@ + repeated(c, 0) =~= old(text)@);
    while i < n
        invariant
            i <= n,
            text@ == old(text)@ + repeated(c, i as nat),
        decreases n - i,
    {
        text.push(c);
        i += 1;
        assert((old(text)@ + repeated(c, (i - 1) as nat)).push(c) =~= old(text)@ + repeated(
            c,
            i as nat,
        ));
    }
}

/// Where the line that starts at index `i` of `s` ends: at the next
/// newline, or at the end of `s`.
pub open spec fn line_end(s: Seq<char>, i: int) -> int
    decreases s.len() - i,
{
    if 0 <= i < s.len() && s[i] != '\n' {
        line_end(s, i + 1)
    } else {
        i
    }
}

/// The line ends behind its start and inside the text.
pub proof fn lemma_line_end_bounds(s: Seq<char>, i: int)
    requires
        0 <= i <= s.len(),
    ensures
        i <= line_end(s, i) <= s.len(),
    decreases s.len() - i,
{
    if 0 <= i < s.len() && s[i] != '\n' {
        lemma_line_end_bounds(s, i + 1);
    }
}

/// Where the line with the number `n`, counted from 0, starts among the
/// lines of `s` from index `i` on; nowhere if there are not so many lines.
pub open spec fn line_start(s: Seq<char>, i: int, n: nat) -> Option<int>
    decreases n,
{
    if !(0 <= i < s.len()) {
        None
    } else if n == 0 {
        Some(i)
    } else {
        line_start(s, line_end(s, i) + 1, (n - 1) as nat)
    }
}

/// The line with the number `n`, counted from 0, of the text `s`: what
/// stands between two newlines, without a carriage return at its end. A
/// text has no line behind its last character.
pub open spec fn line(s: Seq<char>, n: nat) -> Seq<char> {
    match line_start(s, 0, n) {
        None => Seq::empty(),
        Some(a) => {
            let b = line_end(s, a);
            if a < b && s[b - 1] == '\r' {
                s.subrange(a, b - 1)
            } else {
                s.subrange(a, b)
            }
        },
    }
}

/// The line with the number `n`, counted from 0, of `source`.
pub fn line_of(source: &str, n: usize) -> (r: String)
    ensures
        r@ == line(source@, n as nat),
{
    let chars = chars_of(source);
    let mut start: usize = 0;
    let mut k: usize = n;
    loop
        invariant
            chars@ == source@,
            start <= chars.len(),
            line_start(chars@, start as int, k as nat) == line_start(chars@, 0, n as nat),
        ensures
            start < chars.len(),
            line_start(chars@, 0, n as nat) == Some(start as int),
        decreases k,
    {
        if start >= chars.len() {
            return String::new();
        }
        if k == 0 {
            break ;
        }
        let mut end: usize = start;
        while end < chars.len() && chars[end] != '\n'
            invariant
                start <= end <= chars.len(),
                line_end(chars@, end as int) == line_end(chars@, start as int),
            decreases chars.len() - end,
        {
            end += 1;
        }
        assert(line_end(chars@, end as int) == end);
        if end >= chars.len() {
            assert(line_start(chars@, end + 1, (k - 1) as nat) is None);
            return String::new();
        }
        start = end + 1;
        k -= 1;
    }
    let mut end: usize = start;
    let mut r = String::new();
    assert(chars@.subrange(start as int, start as int) =~= Seq::<char>::empty());
    while end < chars.len() && chars[end] != '\n'
        invariant
            start <= end <= chars.len(),
            line_end(chars@, end as int) == line_end(chars@, start as int),
            start < end && chars@[end - 1] != '\r' ==> r@ == chars@.subrange(
                start as int,
                end as int,
            ),
            start == end ==> r@ == chars@.subrange(start as int, end as int),
            start < end && chars@[end - 1] == '\r' ==> r@ == chars@.subrange(start as int, end - 1),
        decreases chars.len() - end,
    {
        if end > start && chars[end - 1] == '\r' {
            r.push('\r');
            assert(chars@.subrange(start as int, end - 1).push('\r') =~= chars@.subrange(
                start as int,
                end as int,
            ));
        }
        let c: char = chars[end];
        if c != '\r' {
            r.push(c);
            assert(chars@.subrange(start as int, end as int).push(c) =~= chars@.subrange(
                start as int,
                end + 1,
            ));
        }
        end += 1;
    }
    assert(line_end(chars@, end as int) == end);
    r
}

} // verus!
