//! Fixed-width text: padding, truncation and decimal numbers.

use vstd::prelude::*;

verus! {

/// `n` blanks.
pub open spec fn spaces(n: nat) -> Seq<char> {
    Seq::new(n, |i: int| ' ')
}

/// `s` followed by as many blanks as it takes to reach `width` characters;
/// `s` itself when it is that long already.
pub open spec fn pad(s: Seq<char>, width: nat) -> Seq<char> {
    if s.len() >= width {
        s
    } else {
        s + spaces((width - s.len()) as nat)
    }
}

/// `s` cut or padded with blanks to exactly `width` characters.
pub open spec fn fit(s: Seq<char>, width: nat) -> Seq<char> {
    pad(s, width).take(width as int)
}

/// The character that shows the digit `d`.
pub open spec fn digit(d: nat) -> char {
    if d == 0 {
        '0'
    } else if d == 1 {
        '1'
    } else if d == 2 {
        '2'
    } else if d == 3 {
        '3'
    } else if d == 4 {
        '4'
    } else if d == 5 {
        '5'
    } else if d == 6 {
        '6'
    } else if d == 7 {
        '7'
    } else if d == 8 {
        '8'
    } else {
        '9'
    }
}

/// The decimal notation of `n`, without leading zeros.
pub open spec fn decimal(n: nat) -> Seq<char>
    decreases n,
{
    if n < 10 {
        seq![digit(n)]
    } else {
        decimal(n / 10).push(digit(n % 10))
    }
}

/// `String::push` appends the character to the end of the string.
pub assume_specification[ String::push ](s: &mut String, ch: char)
    ensures
        final(s)@ == old(s)@.push(ch),
;

/// `String::pop` removes the last character and returns it; on an empty
/// string it returns `None` and leaves the string empty.
pub assume_specification[ String::pop ](s: &mut String) -> (ch: Option<char>)
    ensures
        old(s)@.len() == 0 ==> ch is None && final(s)@ == old(s)@,
        old(s)@.len() > 0 ==> ch == Some(old(s)@.last()) && final(s)@ == old(s)@.drop_last(),
;

/// Appends blanks to `s` until it is `width` characters long.
pub fn pad_to(s: &mut String, width: usize)
    ensures
        final(s)@ == pad(old(s)@, width as nat),
{
    let len = s.as_str().unicode_len();
    let mut n: usize = len;
    while n < width
        invariant
            len == old(s)@.len(),
            len <= n,
            n <= width || n == len,
            s@ == old(s)@ + spaces((n - len) as nat),
        decreases width - n,
    {
        s.push(' ');
        n = n + 1;
    }
}

/// The text cut or padded with blanks to exactly `width` characters.
pub fn fit_to_width(s: &str, width: usize) -> (out: String)
    ensures
        out@ == fit(s@, width as nat),
{
    let len = s.unicode_len();
    if len > width {
        String::from_str(s.substring_char(0, width))
    } else {
        let mut out = String::from_str(s);
        pad_to(&mut out, width);
        out
    }
}

/// The one-character text for a digit.
fn digit_str(d: usize) -> (s: &'static str)
    requires
        d < 10,
    ensures
        s@ == seq![digit(d as nat)],
{
    proof {
        reveal_strlit("0");
        reveal_strlit("1");
        reveal_strlit("2");
        reveal_strlit("3");
        reveal_strlit("4");
        reveal_strlit("5");
        reveal_strlit("6");
        reveal_strlit("7");
        reveal_strlit("8");
        reveal_strlit("9");
    }
    let s = if d == 0 {
        "0"
    } else if d == 1 {
        "1"
    } else if d == 2 {
        "2"
    } else if d == 3 {
        "3"
    } else if d == 4 {
        "4"
    } else if d == 5 {
        "5"
    } else if d == 6 {
        "6"
    } else if d == 7 {
        "7"
    } else if d == 8 {
        "8"
    } else {
        "9"
    };
    assert(s@ =~= seq![digit(d as nat)]);
    s
}

/// The decimal notation of `n`.
pub fn decimal_string(n: usize) -> (s: String)
    ensures
        s@ == decimal(n as nat),
    decreases n,
{
    if n < 10 {
        String::from_str(digit_str(n))
    } else {
        let mut s = decimal_string(n / 10);
        s.append(digit_str(n % 10));
        s
    }
}

/// A fitted text has exactly the width asked for and starts with as much
/// of the text as fits; a padded text is never shorter than the text or
/// the width and starts with the whole text.
pub proof fn lemma_fit_has_width(s: Seq<char>, width: nat)
    ensures
        fit(s, width).len() == width,
        forall|i: int| 0 <= i < width && i < s.len() ==> fit(s, width)[i] == s[i],
        forall|i: int| s.len() <= i < width ==> fit(s, width)[i] == ' ',
        pad(s, width).len() == if s.len() >= width {
            s.len()
        } else {
            width
        },
        pad(s, width).take(s.len() as int) == s,
{
    assert(pad(s, width).take(s.len() as int) =~= s);
}

} // verus!
