//! Text: decimal numbers, surrounding blanks and occurrences.

use vstd::prelude::*;
use vstd::string::*;

verus! {

/// The digit `d`.
pub open spec fn digit(d: int) -> char {
    (48 + d) as char
}

/// The decimal digits of `n`, without leading zeros.
pub open spec fn decimal(n: nat) -> Seq<char>
    decreases n,
{
    if n < 10 {
        seq![digit(n as int)]
    } else {
        decimal(n / 10).push(digit((n % 10) as int))
    }
}

/// The text of one digit.
fn digit_text(d: u64) -> (text: String)
    requires
        d < 10,
    ensures
        text@ == seq![digit(d as int)],
{
    proof {
        reveal_strlit("0");
        reveal_strlit("1");
        reveal_strlit("2");
        reveal_strlit("3");
        reveal_strlit("4");
        reveal_strlit("5");
        reveal_strlit("6");
        reveal_strlit("7");
        reveal_strlit("8");
        reveal_strlit("9");
    }
    let t: &str = if d == 0 {
        "0"
    } else if d == 1 {
        "1"
    } else if d == 2 {
        "2"
    } else if d == 3 {
        "3"
    } else if d == 4 {
        "4"
    } else if d == 5 {
        "5"
    } else if d == 6 {
        "6"
    } else if d == 7 {
        "7"
    } else if d == 8 {
        "8"
    } else {
        "9"
    };
    let text = t.to_owned();
    assert(text@ =~= seq![digit(d as int)]);
    text
}

/// Writes a number in decimal.
pub fn decimal_text(n: u64) -> (text: String)
    ensures
        text@ == decimal(n as nat),
    decreases n,
{
    if n < 10 {
        digit_text(n)
    } else {
        let mut text = decimal_text(n / 10);
        let last = digit_text(n % 10);
        let ghost before = text@;
        text.append(last.as_str());
        assert(text@ =~= before.push(digit((n % 10) as int)));
        text
    }
}

/// Joins two texts.
pub fn joined(a: &str, b: &str) -> (text: String)
    ensures
        text@ == a@ + b@,
{
    let mut text = a.to_owned();
    text.append(b);
    text
}

/// Compares a text with a fixed one.
pub fn text_is(text: &String, fixed: &str) -> (same: bool)
    ensures
        same == (text@ == fixed@),
{
    *text == fixed.to_owned()
}

/// The characters that Unicode counts as white space.
pub open spec fn is_blank(c: char) -> bool {
    let n = c as u32;
    ||| 9 <= n <= 13
    ||| n == 0x20
    ||| n == 0x85
    ||| n == 0xa0
    ||| n == 0x1680
    ||| 0x2000 <= n <= 0x200a
    ||| n == 0x2028
    ||| n == 0x2029
    ||| n == 0x202f
    ||| n == 0x205f
    ||| n == 0x3000
}

/// Tells whether a character is white space.
fn blank(c: char) -> (b: bool)
    ensures
        b == is_blank(c),
{
    let n: u32 = c as u32;
    (9 <= n && n <= 13) || n == 0x20 || n == 0x85 || n == 0xa0 || n == 0x1680 || (0x2000 <= n && n
        <= 0x200a) || n == 0x2028 || n == 0x2029 || n == 0x202f || n == 0x205f || n == 0x3000
}

/// Whether `inner` is `text` without the white space around it.
pub open spec fn is_trimmed(text: Seq<char>, inner: Seq<char>) -> bool {
    exists|a: int, b: int| #[trigger] trimmed_at(text, inner, a, b)
}

/// Whether `inner` is what stands from `a` to `b` in `text`, with nothing but
/// white space around it and none at its ends.
pub open spec fn trimmed_at(text: Seq<char>, inner: Seq<char>, a: int, b: int) -> bool {
    &&& 0 <= a <= b <= text.len()
    &&& inner == text.subrange(a, b)
    &&& forall|i: int| 0 <= i < a ==> is_blank(#[trigger] text[i])
    &&& forall|i: int| b <= i < text.len() ==> is_blank(#[trigger] text[i])
    &&& inner.len() > 0 ==> !is_blank(inner[0]) && !is_blank(inner[inner.len() - 1])
}

/// The text without the white space around it.
pub fn trimmed(text: &String) -> (inner: String)
    ensures
        is_trimmed(text@, inner@),
{
    let s: &str = text.as_str();
    let n: usize = s.unicode_len();
    let mut a: usize = 0;
    while a < n && blank(s.get_char(a))
        invariant
            n == s@.len(),
            a <= n,
            forall|i: int| 0 <= i < a ==> is_blank(#[trigger] s@[i]),
        decreases n - a,
    {
        a = a + 1;
    }
    let mut b: usize = n;
    while b > a && blank(s.get_char(b - 1))
        invariant
            n == s@.len(),
            a <= b <= n,
            forall|i: int| b <= i < s@.len() ==> is_blank(#[trigger] s@[i]),
        decreases b,
    {
        b = b - 1;
    }
    let inner = s.substring_char(a, b).to_owned();
    assert(trimmed_at(text@, inner@, a as int, b as int));
    inner
}

/// A text has only one trimmed form.
pub proof fn law_trimmed_form_is_unique(text: Seq<char>, x: Seq<char>, y: Seq<char>)
    requires
        is_trimmed(text, x),
        is_trimmed(text, y),
    ensures
        x == y,
{
    let (a, b) = choose|a: int, b: int| #[trigger] trimmed_at(text, x, a, b);
    let (c, d) = choose|c: int, d: int| #[trigger] trimmed_at(text, y, c, d);
    assert(x.len() > 0 ==> x[0] == text[a] && x[x.len() - 1] == text[b - 1]);
    assert(y.len() > 0 ==> y[0] == text[c] && y[y.len() - 1] == text[d - 1]);
    if x.len() > 0 && y.len() == 0 {
        assert(a < c || d <= a);
    }
    if y.len() > 0 && x.len() == 0 {
        assert(c < a || b <= c);
    }
    assert(x =~= y);
}

/// Whether `part` stands in `text` from position `at` on.
pub open spec fn occurs_at(text: Seq<char>, part: Seq<char>, at: int) -> bool {
    0 <= at && at + part.len() <= text.len() && text.subrange(at, at + part.len()) == part
}

/// Whether `part` stands anywhere in `text`.
pub open spec fn occurs_in(text: Seq<char>, part: Seq<char>) -> bool {
    exists|at: int| #[trigger] occurs_at(text, part, at)
}

/// Tells whether `part` stands anywhere in `text`.
pub fn contains_text(text: &str, part: &str) -> (found: bool)
    ensures
        found == occurs_in(text@, part@),
{
    let n: usize = text.unicode_len();
    let m: usize = part.unicode_len();
    if m > n {
        return false;
    }
    let wanted = part.to_owned();
    let mut at: usize = 0;
    while at <= n - m
        invariant
            n == text@.len(),
            m == part@.len(),
            m <= n,
            wanted@ == part@,
            at <= n - m + 1,
            forall|i: int| 0 <= i < at ==> !#[trigger] occurs_at(text@, part@, i),
        decreases n - m + 1 - at,
    {
        let here = text.substring_char(at, at + m).to_owned();
        if here == wanted {
            assert(occurs_at(text@, part@, at as int));
            return true;
        }
        if at == n - m {
            return false;
        }
        at = at + 1;
    }
    false
}

} // verus!
