//! The text that error messages and representations are made of: numbers in
//! decimal and hexadecimal, and lists of names.

use vstd::prelude::*;
use vstd::string::StringExecFns;
use itertools::Itertools;

verus! {

/// The character of one digit, for digits up to fifteen.
pub open spec fn digit_char(d: nat) -> char {
    if d == 0 {
        '0'
    } else if d == 1 {
        '1'
    } else if d == 2 {
        '2'
    } else if d == 3 {
        '3'
    } else if d == 4 {
        '4'
    } else if d == 5 {
        '5'
    } else if d == 6 {
        '6'
    } else if d == 7 {
        '7'
    } else if d == 8 {
        '8'
    } else if d == 9 {
        '9'
    } else if d == 10 {
        'a'
    } else if d == 11 {
        'b'
    } else if d == 12 {
        'c'
    } else if d == 13 {
        'd'
    } else if d == 14 {
        'e'
    } else {
        'f'
    }
}

/// `n` written in decimal, most significant digit first, without leading
/// zeros; zero is the single digit `0`.
pub open spec fn decimal(n: nat) -> Seq<char>
    decreases n,
{
    if n < 10 {
        seq![digit_char(n)]
    } else {
        decimal(n / 10).push(digit_char(n % 10))
    }
}

/// `n` written in lower-case hexadecimal, most significant digit first,
/// without a prefix and without leading zeros.
pub open spec fn hexadecimal(n: nat) -> Seq<char>
    decreases n,
{
    if n < 16 {
        seq![digit_char(n)]
    } else {
        hexadecimal(n / 16).push(digit_char(n % 16))
    }
}

/// The items of a list written one after the other with `sep` between
/// neighbours.
pub open spec fn joined(items: Seq<Seq<char>>, sep: Seq<char>) -> Seq<char>
    decreases items.len(),
{
    if items.len() == 0 {
        Seq::empty()
    } else if items.len() == 1 {
        items[0]
    } else {
        joined(items.drop_last(), sep) + sep + items.last()
    }
}

/// A list of names as a sentence has it, each name in single quotes:
/// `'a'`, then `'a' and 'b'`, then `'a', 'b', and 'c'`.
pub open spec fn quoted_list(names: Seq<Seq<char>>) -> Seq<char> {
    if names.len() <= 1 {
        "'"@ + joined(names, "', '"@) + "'"@
    } else if names.len() == 2 {
        "'"@ + names[0] + "' and '"@ + names[1] + "'"@
    } else {
        "'"@ + joined(names.drop_last(), "', '"@) + "', and '"@ + names.last() + "'"@
    }
}

/// One digit as text.
fn digit_str(d: usize) -> (s: &'static str)
    requires
        d < 16,
    ensures
        s@ == seq![digit_char(d as nat)],
{
    proof {
        reveal_strlit("0");
        reveal_strlit("1");
        reveal_strlit("2");
        reveal_strlit("3");
        reveal_strlit("4");
        reveal_strlit("5");
        reveal_strlit("6");
        reveal_strlit("7");
        reveal_strlit("8");
        reveal_strlit("9");
        reveal_strlit("a");
        reveal_strlit("b");
        reveal_strlit("c");
        reveal_strlit("d");
        reveal_strlit("e");
        reveal_strlit("f");
    }
    let s = if d == 0 {
        "0"
    } else if d == 1 {
        "1"
    } else if d == 2 {
        "2"
    } else if d == 3 {
        "3"
    } else if d == 4 {
        "4"
    } else if d == 5 {
        "5"
    } else if d == 6 {
        "6"
    } else if d == 7 {
        "7"
    } else if d == 8 {
        "8"
    } else if d == 9 {
        "9"
    } else if d == 10 {
        "a"
    } else if d == 11 {
        "b"
    } else if d == 12 {
        "c"
    } else if d == 13 {
        "d"
    } else if d == 14 {
        "e"
    } else {
        "f"
    };
    assert(s@ =~= seq![digit_char(d as nat)]);
    s
}

/// Appends `n` in decimal to `out`.
pub fn push_decimal(out: &mut String, n: usize)
    ensures
        final(out)@ == old(out)@ + decimal(n as nat),
    decreases n,
{
    if n < 10 {
        out.append(digit_str(n));
        assert(old(out)@ + seq![digit_char(n as nat)] =~= old(out)@ + decimal(n as nat));
    } else {
        push_decimal(out, n / 10);
        out.append(digit_str(n % 10));
        assert(old(out)@ + decimal((n / 10) as nat) + seq![digit_char((n % 10) as nat)] =~= old(
            out,
        )@ + decimal(n as nat));
    }
}

/// Appends `n` in lower-case hexadecimal to `out`.
pub fn push_hexadecimal(out: &mut String, n: u64)
    ensures
        final(out)@ == old(out)@ + hexadecimal(n as nat),
    decreases n,
{
    if n < 16 {
        out.append(digit_str(n as usize));
        assert(old(out)@ + seq![digit_char(n as nat)] =~= old(out)@ + hexadecimal(n as nat));
    } else {
        push_hexadecimal(out, n / 16);
        out.append(digit_str((n % 16) as usize));
        assert(old(out)@ + hexadecimal((n / 16) as nat) + seq![digit_char((n % 16) as nat)]
            =~= old(out)@ + hexadecimal(n as nat));
    }
}

/// Joins `items` with `sep` between neighbours.
///
/// This is `Itertools::join` on an iterator over the strings: it writes the
/// first item, then for every further item the separator and the item, each
/// item as its `Display` gives it, which for a string is the string itself.
/// The contract claims that the result is exactly that concatenation.
#[verifier::external_body]
fn join_names(items: &Vec<String>, sep: &str) -> (out: String)
    ensures
        out@ == joined(items.deep_view(), sep@),
{
    items.iter().join(sep)
}

/// Writes a list of names in single quotes, with `and` before the last of two
/// or more and a comma after each but the last of three or more.
pub fn quote_names(names: &Vec<String>) -> (out: String)
    ensures
        out@ == quoted_list(names.deep_view()),
{
    let n = names.len();
    let mut out = String::from_str("'");
    if n <= 1 {
        let body = join_names(names, "', '");
        out.append(body.as_str());
        out.append("'");
    } else {
        let mut head: Vec<String> = Vec::new();
        let mut i: usize = 0;
        while i < n - 1
            invariant
                n == names.len(),
                n >= 2,
                i <= n - 1,
                head@ == names@.take(i as int),
            decreases n - i,
        {
            head.push(names[i].clone());
            assert(head@ =~= names@.take(i + 1));
            i = i + 1;
        }
        assert(head.deep_view() =~= names.deep_view().drop_last());
        let body = join_names(&head, "', '");
        out.append(body.as_str());
        if n == 2 {
            out.append("' and '");
            proof {
                let one = names.deep_view().drop_last();
                assert(joined(one, "', '"@) == names.deep_view()[0]);
            }
        } else {
            out.append("', and '");
        }
        out.append(names[n - 1].as_str());
        out.append("'");
        assert(names.deep_view().last() == names[n - 1]@);
    }
    out
}

} // verus!
