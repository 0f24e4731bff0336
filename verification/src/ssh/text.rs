//! Text helpers: finding a character and writing a number in decimal.

use vstd::prelude::*;
use vstd::string::*;

verus! {

/// The digits `0` to `9`, each at its own index.
const DIGITS: &'static str = "0123456789";

/// The character for the digit `d`.
pub open spec fn digit(d: nat) -> char {
    ('0' as nat + d) as char
}

/// `n` in decimal, without leading zeros.
pub open spec fn decimal(n: nat) -> Seq<char>
    decreases n,
{
    if n < 10 {
        seq![digit(n)]
    } else {
        decimal(n / 10).push(digit(n % 10))
    }
}

/// The first index of `c` in `s`, counted in characters.
pub fn find_char(s: &str, c: char) -> (found: Option<usize>)
    ensures
        match found {
            Some(i) => s@.index_of_first(c) == Some(i as int) && i < s@.len(),
            None => s@.index_of_first(c) is None,
        },
{
    let len: usize = s.unicode_len();
    let mut i: usize = 0;
    proof {
        s@.index_of_first_ensures(c);
    }
    for x in chars: s.chars()
        invariant
            len == s@.len(),
            chars.seq() == s@,
            i == chars.index(),
            forall|j: int| 0 <= j < i ==> s@[j] != c,
            match s@.index_of_first(c) {
                Some(k) => 0 <= k < s@.len() && s@[k] == c && forall|j: int|
                    0 <= j < k ==> s@[j] != c,
                None => !s@.contains(c),
            },
    {
        if x == c {
            assert(s@[i as int] == c);
            return Some(i);
        }
        i = i + 1;
    }
    None
}

/// The text of a single digit.
fn digit_text(d: u16) -> (text: &'static str)
    requires
        d < 10,
    ensures
        text@ == seq![digit(d as nat)],
{
    proof {
        reveal_strlit("0123456789");
    }
    DIGITS.substring_char(d as usize, d as usize + 1)
}

/// Writes `n` in decimal.
pub fn decimal_text(n: u16) -> (text: String)
    ensures
        text@ == decimal(n as nat),
    decreases n,
{
    let last = digit_text(n % 10);
    if n < 10 {
        last.to_owned()
    } else {
        decimal_text(n / 10).concat(last)
    }
}

/// A number in decimal is never empty and holds digits alone.
pub proof fn decimal_holds_digits(n: nat)
    ensures
        decimal(n).len() > 0,
        forall|i: int| 0 <= i < decimal(n).len() ==> '0' <= #[trigger] decimal(n)[i] <= '9',
    decreases n,
{
    if n >= 10 {
        decimal_holds_digits(n / 10);
    }
}

/// Different numbers have different decimal texts.
pub proof fn decimal_is_injective(m: nat, n: nat)
    requires
        decimal(m) == decimal(n),
    ensures
        m == n,
    decreases m,
{
    decimal_holds_digits(m / 10);
    decimal_holds_digits(n / 10);
    assert(decimal(m).last() == digit(m % 10));
    assert(decimal(n).last() == digit(n % 10));
    if m >= 10 && n >= 10 {
        assert(decimal(m).drop_last() == decimal(m / 10));
        assert(decimal(n).drop_last() == decimal(n / 10));
        decimal_is_injective(m / 10, n / 10);
    }
}

/// The number that a text of decimal digits reads as.
pub open spec fn number_read(text: Seq<char>) -> nat
    decreases text.len(),
{
    if text.len() == 0 {
        0
    } else {
        10 * number_read(text.drop_last()) + (text.last() as nat - '0' as nat) as nat
    }
}

/// The decimal text of a number reads back as that number and has no leading
/// zero.
pub proof fn decimal_reads_back(n: nat)
    ensures
        number_read(decimal(n)) == n,
        n > 0 ==> decimal(n)[0] != '0',
        decimal(n).len() == 1 <==> n < 10,
    decreases n,
{
    if n >= 10 {
        decimal_reads_back(n / 10);
        decimal_holds_digits(n / 10);
        assert(decimal(n).drop_last() == decimal(n / 10));
    } else {
        reveal_with_fuel(number_read, 2);
        assert(decimal(n).drop_last() == Seq::<char>::empty());
    }
}

/// Whatever number is written, its text holds digits alone, reads back as the
/// number, and starts with a zero only where it is nothing but a zero.
pub proof fn written_number_reads_back(n: u16, text: String)
    requires
        call_ensures(decimal_text, (n,), text),
    ensures
        text@.len() > 0,
        forall|i: int| 0 <= i < text@.len() ==> '0' <= #[trigger] text@[i] <= '9',
        number_read(text@) == n,
        text@[0] == '0' ==> text@.len() == 1,
{
    decimal_holds_digits(n as nat);
    decimal_reads_back(n as nat);
}

/// A character that is found is at its place and at none before it; one that
/// is not found is nowhere.
pub proof fn first_occurrence_is_found(s: &str, c: char, found: Option<usize>)
    requires
        call_ensures(find_char, (s, c), found),
    ensures
        found is Some <==> s@.contains(c),
        found matches Some(i) ==> i < s@.len() && s@[i as int] == c && !s@.take(
            i as int,
        ).contains(c),
{
    s@.index_of_first_ensures(c);
}

} // verus!
