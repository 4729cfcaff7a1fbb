//! Small helpers on text: the first line of a text, and numbers written in
//! decimal.

use vstd::prelude::*;
use vstd::string::*;

verus! {

/// Position of the first `c` in `s`, or the length of `s` where it holds none.
pub open spec fn first_index_of(s: Seq<char>, c: char) -> int
    decreases s.len(),
{
    if s.len() == 0 {
        0
    } else if s[0] == c {
        0
    } else {
        1 + first_index_of(s.skip(1), c)
    }
}

/// The first line of a text, without the line feed that ends it nor a
/// carriage return in front of that line feed; a text that is empty has no
/// line.
pub open spec fn first_line_of(text: Seq<char>) -> Option<Seq<char>> {
    let end = first_index_of(text, '\n');
    if text.len() == 0 {
        None
    } else if 0 < end < text.len() && text[end - 1] == '\r' {
        Some(text.take(end - 1))
    } else {
        Some(text.take(end))
    }
}

/// `first_index_of` is the one position before which no `c` stands and which
/// holds a `c` or ends the text.
pub proof fn lemma_first_index_of(s: Seq<char>, c: char, i: int)
    requires
        0 <= i <= s.len(),
        i < s.len() ==> s[i] == c,
        forall|j: int| 0 <= j < i ==> s[j] != c,
    ensures
        first_index_of(s, c) == i,
    decreases s.len(),
{
    if s.len() > 0 && s[0] != c {
        assert forall|j: int| 0 <= j < i - 1 implies s.skip(1)[j] != c by {
            assert(s.skip(1)[j] == s[j + 1]);
        }
        lemma_first_index_of(s.skip(1), c, i - 1);
    }
}

/// The first line of a text.
pub fn first_line(text: &str) -> (line: Option<&str>)
    ensures
        match line {
            Some(l) => first_line_of(text@) == Some(l@),
            None => first_line_of(text@).is_none(),
        },
{
    let n = text.unicode_len();
    if n == 0 {
        return None;
    }
    let mut end: usize = 0;
    while end < n && text.get_char(end) != '\n'
        invariant
            end <= n,
            n == text@.len(),
            forall|j: int| 0 <= j < end ==> text@[j] != '\n',
        decreases n - end,
    {
        end += 1;
    }
    proof {
        lemma_first_index_of(text@, '\n', end as int);
    }
    if end > 0 && end < n && text.get_char(end - 1) == '\r' {
        Some(text.substring_char(0, end - 1))
    } else {
        Some(text.substring_char(0, end))
    }
}

/// The character that stands for a digit.
pub open spec fn digit_char(d: int) -> char {
    if d == 0 {
        '0'
    } else if d == 1 {
        '1'
    } else if d == 2 {
        '2'
    } else if d == 3 {
        '3'
    } else if d == 4 {
        '4'
    } else if d == 5 {
        '5'
    } else if d == 6 {
        '6'
    } else if d == 7 {
        '7'
    } else if d == 8 {
        '8'
    } else {
        '9'
    }
}

/// A number in decimal digits, without leading zeros.
pub open spec fn decimal_text(n: nat) -> Seq<char>
    decreases n,
{
    if n < 10 {
        seq![digit_char(n as int)]
    } else {
        decimal_text(n / 10).push(digit_char((n % 10) as int))
    }
}

fn digit_str(d: u32) -> (text: &'static str)
    requires
        d < 10,
    ensures
        text@ == seq![digit_char(d as int)],
{
    proof {
        reveal_strlit("0");
        reveal_strlit("1");
        reveal_strlit("2");
        reveal_strlit("3");
        reveal_strlit("4");
        reveal_strlit("5");
        reveal_strlit("6");
        reveal_strlit("7");
        reveal_strlit("8");
        reveal_strlit("9");
    }
    let text = if d == 0 {
        "0"
    } else if d == 1 {
        "1"
    } else if d == 2 {
        "2"
    } else if d == 3 {
        "3"
    } else if d == 4 {
        "4"
    } else if d == 5 {
        "5"
    } else if d == 6 {
        "6"
    } else if d == 7 {
        "7"
    } else if d == 8 {
        "8"
    } else {
        "9"
    };
    assert(text@ =~= seq![digit_char(d as int)]);
    text
}

/// Writes a number in decimal digits.
pub fn decimal(n: u32) -> (text: String)
    ensures
        text@ == decimal_text(n as nat),
    decreases n,
{
    if n < 10 {
        digit_str(n).to_owned()
    } else {
        let head = decimal(n / 10);
        let text = head.concat(digit_str(n % 10));
        assert(text@ =~= decimal_text(n as nat));
        text
    }
}

} // verus!
