//! Verified rendering of integers as decimal text.
//!
//! The carrier's wire format carries money amounts, seat counts and dates as
//! plain decimal strings, and weights and volumes as decimal fractions.  The
//! functions here produce those strings and are specified against the spec
//! functions `dec_digits`, `int_str` and `milli_str`.

use vstd::prelude::*;
use vstd::string::StringExecFns;

verus! {

/// The character for one decimal digit.
pub open spec fn digit_char(d: nat) -> char {
    if d == 0 {
        '0'
    } else if d == 1 {
        '1'
    } else if d == 2 {
        '2'
    } else if d == 3 {
        '3'
    } else if d == 4 {
        '4'
    } else if d == 5 {
        '5'
    } else if d == 6 {
        '6'
    } else if d == 7 {
        '7'
    } else if d == 8 {
        '8'
    } else {
        '9'
    }
}

/// The decimal digits of `n`, most significant first, with no leading zeros
/// (a single `'0'` for zero).
pub open spec fn dec_digits(n: nat) -> Seq<char>
    decreases n,
{
    if n < 10 {
        seq![digit_char(n)]
    } else {
        dec_digits(n / 10).push(digit_char(n % 10))
    }
}

/// The decimal rendering of an integer, a leading `'-'` for negative values.
pub open spec fn int_str(i: int) -> Seq<char> {
    if i < 0 {
        seq!['-'] + dec_digits((-i) as nat)
    } else {
        dec_digits(i as nat)
    }
}

/// One digit as a string slice.
fn digit_str(d: u64) -> (r: &'static str)
    requires
        d < 10,
    ensures
        r@ =~= seq![digit_char(d as nat)],
{
    proof {
        reveal_strlit("0");
        reveal_strlit("1");
        reveal_strlit("2");
        reveal_strlit("3");
        reveal_strlit("4");
        reveal_strlit("5");
        reveal_strlit("6");
        reveal_strlit("7");
        reveal_strlit("8");
        reveal_strlit("9");
    }
    if d == 0 {
        "0"
    } else if d == 1 {
        "1"
    } else if d == 2 {
        "2"
    } else if d == 3 {
        "3"
    } else if d == 4 {
        "4"
    } else if d == 5 {
        "5"
    } else if d == 6 {
        "6"
    } else if d == 7 {
        "7"
    } else if d == 8 {
        "8"
    } else {
        "9"
    }
}

/// Appends the decimal digits of `n` to `out`.
fn push_dec_digits(n: u64, out: &mut String)
    ensures
        final(out)@ == old(out)@ + dec_digits(n as nat),
    decreases n,
{
    if n < 10 {
        out.append(digit_str(n));
    } else {
        push_dec_digits(n / 10, out);
        out.append(digit_str(n % 10));
        proof {
            assert(old(out)@ + dec_digits(n as nat) =~= (old(out)@ + dec_digits(
                n as nat / 10,
            )).push(digit_char(n as nat % 10)));
        }
    }
}

/// The decimal text of an unsigned integer.
pub fn u64_to_string(n: u64) -> (r: String)
    ensures
        r@ == dec_digits(n as nat),
{
    let mut out = String::new();
    push_dec_digits(n, &mut out);
    proof {
        assert(out@ =~= dec_digits(n as nat));
    }
    out
}

/// The decimal text of a signed integer, as `{}` formatting renders it.
pub fn i64_to_string(n: i64) -> (r: String)
    ensures
        r@ == int_str(n as int),
{
    if n >= 0 {
        u64_to_string(n as u64)
    } else {
        let mag: u64 = (-(n as i128)) as u64;
        let mut out = String::new();
        proof {
            reveal_strlit("-");
        }
        out.append("-");
        push_dec_digits(mag, &mut out);
        proof {
            assert(out@ =~= int_str(n as int));
        }
        out
    }
}

/// The decimal text of a quantity counted in thousandths, rendered as the
/// plain decimal fraction with trailing zeros trimmed: 500 thousandths give
/// "0.5", 20000 give "20", 1234 give "1.234".
pub open spec fn milli_str(n: nat) -> Seq<char> {
    if n % 1000 == 0 {
        dec_digits(n / 1000)
    } else {
        dec_digits(n / 1000) + seq!['.'] + frac_digits(n % 1000)
    }
}

/// Up to three fractional digits with trailing zeros trimmed.
pub open spec fn frac_digits(f: nat) -> Seq<char>
    recommends
        0 < f < 1000,
{
    if f % 10 != 0 {
        seq![digit_char(f / 100), digit_char((f / 10) % 10), digit_char(f % 10)]
    } else if f % 100 != 0 {
        seq![digit_char(f / 100), digit_char((f / 10) % 10)]
    } else {
        seq![digit_char(f / 100)]
    }
}

/// The decimal text of a quantity counted in thousandths.
pub fn milli_to_string(n: u64) -> (r: String)
    ensures
        r@ == milli_str(n as nat),
{
    let whole: u64 = n / 1000;
    let frac: u64 = n % 1000;
    let mut out = u64_to_string(whole);
    if frac == 0 {
        out
    } else {
        proof {
            reveal_strlit(".");
        }
        out.append(".");
        out.append(digit_str(frac / 100));
        if frac % 100 != 0 || frac % 10 != 0 {
            out.append(digit_str((frac / 10) % 10));
        }
        if frac % 10 != 0 {
            out.append(digit_str(frac % 10));
        }
        proof {
            assert(out@ =~= milli_str(n as nat));
        }
        out
    }
}

/// Whether a `String` holds the same characters as a string slice.
pub fn string_eq_str(s: &String, t: &str) -> (r: bool)
    ensures
        r == (s@ == t@),
{
    let o: String = t.to_owned();
    *s == o
}

/// The items joined with single commas between them.
pub open spec fn join_comma(items: Seq<Seq<char>>) -> Seq<char>
    decreases items.len(),
{
    if items.len() == 0 {
        Seq::empty()
    } else if items.len() == 1 {
        items[0]
    } else {
        items[0] + seq![','] + join_comma(items.drop_first())
    }
}

proof fn lemma_join_comma_push(items: Seq<Seq<char>>, x: Seq<char>)
    ensures
        join_comma(items.push(x)) == if items.len() == 0 {
            x
        } else {
            join_comma(items) + seq![','] + x
        },
    decreases items.len(),
{
    if items.len() == 0 {
        assert(items.push(x)[0] == x);
        assert(join_comma(items.push(x)) == x);
    } else if items.len() == 1 {
        assert(items.push(x).drop_first() =~= seq![x]);
        assert(items.push(x)[0] == items[0]);
        assert(join_comma(seq![x]) == x);
        assert(join_comma(items.push(x)) =~= items[0] + seq![','] + x);
    } else {
        assert(items.push(x)[0] == items[0]);
        lemma_join_comma_push(items.drop_first(), x);
        assert(items.push(x).drop_first() =~= items.drop_first().push(x));
        assert(join_comma(items) + seq![','] + x =~= items[0] + seq![','] + (join_comma(
            items.drop_first(),
        ) + seq![','] + x));
    }
}

/// Joins the strings with commas, as the carrier's URL paths want lists.
pub fn join_with_commas(items: &Vec<String>) -> (r: String)
    ensures
        r@ == join_comma(items@.map_values(|s: String| s@)),
{
    let ghost views = items@.map_values(|s: String| s@);
    let mut out = String::new();
    let mut i: usize = 0;
    proof {
        reveal_strlit(",");
        assert(views.subrange(0, 0) =~= Seq::<Seq<char>>::empty());
    }
    while i < items.len()
        invariant
            0 <= i <= items@.len(),
            views == items@.map_values(|s: String| s@),
            views.len() == items@.len(),
            out@ == join_comma(views.subrange(0, i as int)),
        decreases items@.len() - i,
    {
        if i > 0 {
            out.append(",");
        }
        out.append(items[i].as_str());
        proof {
            reveal_strlit(",");
            assert(views.subrange(0, i as int).push(views[i as int]) =~= views.subrange(
                0,
                i as int + 1,
            ));
            lemma_join_comma_push(views.subrange(0, i as int), views[i as int]);
            assert(out@ =~= join_comma(views.subrange(0, i as int + 1)));
        }
        i = i + 1;
    }
    proof {
        assert(views.subrange(0, items@.len() as int) =~= views);
    }
    out
}

} // verus!
