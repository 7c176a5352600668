//! Small operations on strings, stated over their character sequences.

use vstd::prelude::*;
use vstd::std_specs::iter::IteratorSpec;

verus! {

/// The number of positions of `s` that hold `c`.
pub open spec fn count_of(s: Seq<char>, c: char) -> nat
    decreases s.len(),
{
    if s.len() == 0 {
        0
    } else {
        count_of(s.drop_last(), c) + if s.last() == c {
            1nat
        } else {
            0nat
        }
    }
}

/// The first position of `s` that holds `c`, or the length of `s` where none does.
pub open spec fn first_index_of(s: Seq<char>, c: char) -> int
    decreases s.len(),
{
    if s.len() == 0 {
        0
    } else if s[0] == c {
        0
    } else {
        1 + first_index_of(s.drop_first(), c)
    }
}

/// The first position that holds `c` lies within `s` exactly when `c` occurs
/// in it, and then holds `c`; nothing before it does.
pub proof fn lemma_first_index_bounds(s: Seq<char>, c: char)
    ensures
        0 <= first_index_of(s, c) <= s.len(),
        count_of(s, c) > 0 <==> first_index_of(s, c) < s.len(),
        first_index_of(s, c) < s.len() ==> s[first_index_of(s, c)] == c,
        count_of(s.take(first_index_of(s, c)), c) == 0,
    decreases s.len(),
{
    if s.len() == 0 {
        assert(s.take(0) =~= s);
    } else {
        lemma_count_split_first(s, c);
        if s[0] == c {
            assert(s.take(0).len() == 0);
        } else {
            let rest = s.drop_first();
            lemma_first_index_bounds(rest, c);
            let at = first_index_of(rest, c);
            assert(s.take(at + 1).drop_first() =~= rest.take(at));
            lemma_count_split_first(s.take(at + 1), c);
        }
    }
}

/// Counting from the front gives what counting from the back gives.
pub proof fn lemma_count_split_first(s: Seq<char>, c: char)
    requires
        s.len() > 0,
    ensures
        count_of(s, c) == count_of(s.drop_first(), c) + if s[0] == c {
            1nat
        } else {
            0nat
        },
    decreases s.len(),
{
    reveal_with_fuel(count_of, 2);
    if s.len() == 1 {
        assert(s.drop_last().len() == 0);
        assert(s.drop_first().len() == 0);
    } else {
        lemma_count_split_first(s.drop_last(), c);
        assert(s.drop_last().drop_first() =~= s.drop_first().drop_last());
    }
}

/// How the first position of `c` moves when one character is added at the end.
pub proof fn lemma_first_index_push(s: Seq<char>, last: char, c: char)
    ensures
        first_index_of(s.push(last), c) == if first_index_of(s, c) < s.len() || last == c {
            first_index_of(s, c)
        } else {
            s.len() as int + 1
        },
        0 <= first_index_of(s, c) <= s.len(),
    decreases s.len(),
{
    reveal_with_fuel(first_index_of, 2);
    if s.len() == 0 {
        assert(s.push(last).drop_first().len() == 0);
    } else {
        assert(s.push(last).drop_first() =~= s.drop_first().push(last));
        lemma_first_index_push(s.drop_first(), last, c);
    }
}

/// The decimal digit for a value below ten.
pub open spec fn digit_char(d: int) -> char {
    "0123456789"@[d]
}

/// A number in decimal notation, without leading zeros.
pub open spec fn decimal_of(n: nat) -> Seq<char>
    decreases n,
{
    if n < 10 {
        seq![digit_char(n as int)]
    } else {
        decimal_of(n / 10).push(digit_char((n % 10) as int))
    }
}

/// The digit for `d`, as a string of one character.
fn decimal_digit(d: usize) -> (r: &'static str)
    requires
        d < 10,
    ensures
        r@ == seq![digit_char(d as int)],
{
    let digit = match d {
        0 => "0",
        1 => "1",
        2 => "2",
        3 => "3",
        4 => "4",
        5 => "5",
        6 => "6",
        7 => "7",
        8 => "8",
        _ => "9",
    };
    proof {
        reveal_strlit("0123456789");
        reveal_strlit("0");
        reveal_strlit("1");
        reveal_strlit("2");
        reveal_strlit("3");
        reveal_strlit("4");
        reveal_strlit("5");
        reveal_strlit("6");
        reveal_strlit("7");
        reveal_strlit("8");
        reveal_strlit("9");
        assert(digit@ =~= seq![digit_char(d as int)]);
    }
    digit
}

/// Writes a number in decimal notation.
pub fn decimal(n: usize) -> (r: String)
    ensures
        r@ == decimal_of(n as nat),
{
    let mut text = decimal_digit(n % 10).to_owned();
    let mut rest = n / 10;
    while rest > 0
        invariant
            decimal_of(n as nat) == if rest > 0 {
                decimal_of(rest as nat) + text@
            } else {
                text@
            },
        decreases rest,
    {
        let ghost before = text@;
        text = join(decimal_digit(rest % 10), text.as_str());
        proof {
            if rest >= 10 {
                assert(decimal_of((rest / 10) as nat).push(digit_char((rest % 10) as int)) + before
                    =~= decimal_of((rest / 10) as nat) + text@);
            }
        }
        rest = rest / 10;
    }
    text
}

/// `a` and `b` joined into one owned string.
pub fn join(a: &str, b: &str) -> (r: String)
    ensures
        r@ == a@ + b@,
{
    let mut r = a.to_owned();
    r.append(b);
    r
}

/// Whether two strings hold the same characters.
pub fn same_text(a: &str, b: &str) -> (r: bool)
    ensures
        r == (a@ == b@),
{
    let n = a.unicode_len();
    if n != b.unicode_len() {
        return false;
    }
    let mut ia = a.chars();
    let mut ib = b.chars();
    let mut i: usize = 0;
    while i < n
        invariant
            i <= n,
            n == a@.len(),
            n == b@.len(),
            ia.remaining() == a@.skip(i as int),
            ib.remaining() == b@.skip(i as int),
            a@.take(i as int) == b@.take(i as int),
        decreases n - i,
    {
        let ca = ia.next();
        let cb = ib.next();
        if ca != cb {
            return false;
        }
        i += 1;
    }
    proof {
        assert(a@.take(n as int) =~= a@);
        assert(b@.take(n as int) =~= b@);
    }
    true
}

} // verus!
