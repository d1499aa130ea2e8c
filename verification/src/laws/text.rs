//! Text: numbers, blanks and occurrences.

use crate::text::{
    contains_text, decimal, decimal_text, digit, is_blank, joined, law_trimmed_form_is_unique,
    occurs_at, text_is, trimmed, trimmed_at,
};
use vstd::prelude::*;

verus! {

/// The number that decimal digits stand for.
pub open spec fn reads(text: Seq<char>) -> int
    decreases text.len(),
{
    if text.len() == 0 {
        0
    } else {
        reads(text.drop_last()) * 10 + (text.last() as int - 48)
    }
}

/// Whether a text is made of decimal digits.
pub open spec fn is_digits(text: Seq<char>) -> bool {
    forall|i: int| 0 <= i < text.len() ==> 48 <= (#[trigger] text[i]) as int <= 57
}

proof fn lemma_decimal_reads(n: nat)
    ensures
        decimal(n).len() > 0,
        is_digits(decimal(n)),
        reads(decimal(n)) == n,
        n > 0 ==> decimal(n)[0] as int != 48,
        n < 10 ==> decimal(n).len() == 1,
    decreases n,
{
    reveal_with_fuel(reads, 2);
    if n < 10 {
        assert(decimal(n).drop_last() =~= Seq::<char>::empty());
    } else {
        let rest = decimal(n / 10);
        lemma_decimal_reads(n / 10);
        assert(decimal(n).drop_last() =~= rest);
        assert(decimal(n).last() == digit((n % 10) as int));
        assert forall|i: int| 0 <= i < decimal(n).len() implies 48 <= (#[trigger] decimal(
            n,
        )[i]) as int <= 57 by {
            if i < rest.len() {
                assert(decimal(n)[i] == rest[i]);
            }
        }
    }
}

/// A number is written in decimal digits that read as that number, without a zero
/// in front.
pub proof fn law_written_numbers_read_back(n: u64, text: String)
    requires
        call_ensures(decimal_text, (n,), text),
    ensures
        text@.len() > 0,
        is_digits(text@),
        reads(text@) == n,
        n > 0 ==> text@[0] != '0',
        n == 0 ==> text@.len() == 1,
{
    lemma_decimal_reads(n as nat);
}

/// Two texts are joined end to end.
pub proof fn law_joined_texts_keep_both(a: &str, b: &str, text: String)
    requires
        call_ensures(joined, (a, b), text),
    ensures
        text@.len() == a@.len() + b@.len(),
        text@.take(a@.len() as int) == a@,
        text@.skip(a@.len() as int) == b@,
{
    assert(text@.take(a@.len() as int) =~= a@);
    assert(text@.skip(a@.len() as int) =~= b@);
}

/// Texts are the same where their characters are.
pub proof fn law_texts_compare_by_characters(text: &String, fixed: &str, same: bool)
    requires
        call_ensures(text_is, (text, fixed), same),
    ensures
        same <==> text@ == fixed@,
{
}

/// Whether a character is white space.
pub open spec fn is_white(c: char) -> bool {
    let n = c as u32;
    ||| 9 <= n <= 13
    ||| n == 32
    ||| n == 133
    ||| n == 160
    ||| n == 5760
    ||| 8192 <= n <= 8202
    ||| n == 8232
    ||| n == 8233
    ||| n == 8239
    ||| n == 8287
    ||| n == 12288
}

/// Whether a text is nothing but white space.
pub open spec fn all_white(text: Seq<char>) -> bool {
    forall|i: int| 0 <= i < text.len() ==> is_white(#[trigger] text[i])
}

/// Trimming takes the white space off both ends, and nothing more.
pub proof fn law_trimming_takes_off_white_space(
    text: &String,
    inner: String,
    before: Seq<char>,
    core: Seq<char>,
    after: Seq<char>,
)
    requires
        call_ensures(trimmed, (text,), inner),
        text@ == before + core + after,
        all_white(before),
        all_white(after),
        core.len() > 0 ==> !is_white(core[0]) && !is_white(core.last()),
    ensures
        inner@ == core,
{
    let t = text@;
    let a = before.len() as int;
    let b = a + core.len();
    assert forall|i: int| 0 <= i < a implies is_blank(#[trigger] t[i]) by {
        assert(is_white(before[i]));
    }
    assert forall|i: int| b <= i < t.len() implies is_blank(#[trigger] t[i]) by {
        assert(is_white(after[i - b]));
    }
    assert(core =~= t.subrange(a, b));
    if core.len() == 0 {
        assert forall|i: int| 0 <= i < t.len() implies is_blank(#[trigger] t[i]) by {}
    }
    assert(trimmed_at(t, core, a, b));
    law_trimmed_form_is_unique(t, inner@, core);
}

/// A part is found exactly where the text is something before it, the part, and
/// something after it.
pub proof fn law_parts_are_found_where_they_stand(
    text: &str,
    part: &str,
    found: bool,
    before: Seq<char>,
    after: Seq<char>,
)
    requires
        call_ensures(contains_text, (text, part), found),
    ensures
        text@ == before + part@ + after ==> found,
        found ==> exists|at: int|
            0 <= at <= text@.len() - part@.len() && #[trigger] text@.skip(at).take(
                part@.len() as int,
            ) == part@,
{
    if text@ == before + part@ + after {
        let at = before.len() as int;
        assert(text@.subrange(at, at + part@.len()) =~= part@);
        assert(occurs_at(text@, part@, at));
    }
    if found {
        let at = choose|at: int| #[trigger] occurs_at(text@, part@, at);
        assert(text@.skip(at).take(part@.len() as int) =~= part@);
    }
}

} // verus!
