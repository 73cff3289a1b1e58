//! Small verified string utilities: decimal rendering of integers,
//! comma-joining of string lists, and hyphen normalization.

use vstd::prelude::*;
use vstd::std_specs::iter::IteratorSpec;

verus! {

broadcast use vstd::string::group_string_axioms;

/// The decimal digit character of `d`.
pub open spec fn spec_digit(d: int) -> char {
    if d == 0 {
        '0'
    } else if d == 1 {
        '1'
    } else if d == 2 {
        '2'
    } else if d == 3 {
        '3'
    } else if d == 4 {
        '4'
    } else if d == 5 {
        '5'
    } else if d == 6 {
        '6'
    } else if d == 7 {
        '7'
    } else if d == 8 {
        '8'
    } else {
        '9'
    }
}

/// The decimal text of a non-negative integer, without leading zeros.
pub open spec fn spec_udec(n: nat) -> Seq<char>
    decreases n,
{
    if n < 10 {
        seq![spec_digit(n as int)]
    } else {
        spec_udec(n / 10).push(spec_digit((n % 10) as int))
    }
}

/// The decimal text of a signed integer.
pub open spec fn spec_idec(n: int) -> Seq<char> {
    if n >= 0 {
        spec_udec(n as nat)
    } else {
        "-"@ + spec_udec((-n) as nat)
    }
}

/// Relies on `String::push`: appends the given character to the end of
/// the string.
#[verifier::external_body]
pub(crate) fn push_char(s: &mut String, c: char)
    ensures
        final(s)@ == old(s)@.push(c),
{
    s.push(c)
}

fn digit_char(d: u64) -> (r: char)
    requires
        d < 10,
    ensures
        r == spec_digit(d as int),
{
    match d {
        0 => '0',
        1 => '1',
        2 => '2',
        3 => '3',
        4 => '4',
        5 => '5',
        6 => '6',
        7 => '7',
        8 => '8',
        _ => '9',
    }
}

/// Renders `n` in decimal.
pub fn u64_dec(n: u64) -> (r: String)
    ensures
        r@ == spec_udec(n as nat),
    decreases n,
{
    if n < 10 {
        let mut s = String::new();
        push_char(&mut s, digit_char(n));
        s
    } else {
        let mut s = u64_dec(n / 10);
        push_char(&mut s, digit_char(n % 10));
        s
    }
}

/// Renders `n` in decimal.
pub fn u32_dec(n: u32) -> (r: String)
    ensures
        r@ == spec_udec(n as nat),
{
    u64_dec(n as u64)
}

/// Renders `n` in decimal, with a leading minus sign when negative.
pub fn i64_dec(n: i64) -> (r: String)
    ensures
        r@ == spec_idec(n as int),
{
    if n >= 0 {
        u64_dec(n as u64)
    } else {
        let magnitude: u64 = ((-(n + 1)) as u64) + 1;
        assert(magnitude as int == -(n as int));
        let mut s = String::new();
        s.append("-");
        let digits = u64_dec(magnitude);
        s.append(digits.as_str());
        s
    }
}

/// The comma-separated join of a list of strings.
pub open spec fn spec_join_comma(items: Seq<Seq<char>>) -> Seq<char>
    decreases items.len(),
{
    if items.len() == 0 {
        Seq::<char>::empty()
    } else if items.len() == 1 {
        items[0]
    } else {
        items[0] + ","@ + spec_join_comma(items.drop_first())
    }
}

proof fn lemma_join_comma_push(items: Seq<Seq<char>>, x: Seq<char>)
    requires
        items.len() >= 1,
    ensures
        spec_join_comma(items.push(x)) == spec_join_comma(items) + ","@ + x,
    decreases items.len(),
{
    if items.len() == 1 {
        assert(items.push(x).drop_first() =~= seq![x]);
        assert(spec_join_comma(seq![x]) == x);
        assert(spec_join_comma(items.push(x)) == items[0] + ","@ + x);
    } else {
        assert(items.push(x).drop_first() =~= items.drop_first().push(x));
        lemma_join_comma_push(items.drop_first(), x);
        assert(spec_join_comma(items.push(x)) == items[0] + ","@ + (spec_join_comma(
            items.drop_first(),
        ) + ","@ + x));
        assert(items[0] + ","@ + (spec_join_comma(items.drop_first()) + ","@ + x) =~= (items[0]
            + ","@ + spec_join_comma(items.drop_first())) + ","@ + x);
    }
}

/// Joins the strings with commas, in order.
pub fn join_comma(items: &Vec<String>) -> (r: String)
    ensures
        r@ == spec_join_comma(items.deep_view()),
{
    let n = items.len();
    if n == 0 {
        return String::new();
    }
    let mut s = items[0].clone();
    let mut i: usize = 1;
    proof {
        assert(items.deep_view().take(1) =~= seq![items@[0]@]);
    }
    while i < n
        invariant
            1 <= i <= n,
            n == items.len(),
            s@ == spec_join_comma(items.deep_view().take(i as int)),
        decreases n - i,
    {
        s.append(",");
        s.append(items[i].as_str());
        proof {
            assert(items.deep_view().take(i as int + 1) =~= items.deep_view().take(
                i as int,
            ).push(items@[i as int]@));
            lemma_join_comma_push(items.deep_view().take(i as int), items@[i as int]@);
        }
        i = i + 1;
    }
    proof {
        assert(items.deep_view().take(n as int) =~= items.deep_view());
    }
    s
}

/// `s` with every hyphen replaced by an underscore.
pub open spec fn spec_dash_to_underscore(s: Seq<char>) -> Seq<char> {
    Seq::new(s.len(), |i: int| if s[i] == '-' {
        '_'
    } else {
        s[i]
    })
}

/// Replaces every hyphen with an underscore.
pub fn dash_to_underscore(s: &str) -> (r: String)
    ensures
        r@ == spec_dash_to_underscore(s@),
{
    let mut out = String::new();
    let mut it = s.chars();
    let ghost mut done: int = 0;
    loop
        invariant
            0 <= done <= s@.len(),
            it.obeys_prophetic_iter_laws(),
            it.remaining() =~= s@.skip(done),
            out@ =~= spec_dash_to_underscore(s@.take(done)),
        ensures
            out@ =~= spec_dash_to_underscore(s@),
        decreases s@.len() - done,
    {
        match it.next() {
            Some(c) => {
                if c == '-' {
                    push_char(&mut out, '_');
                } else {
                    push_char(&mut out, c);
                }
                proof {
                    assert(s@.skip(done)[0] == s@[done]);
                    assert(s@.skip(done).drop_first() =~= s@.skip(done + 1));
                    assert(spec_dash_to_underscore(s@.take(done)).push(
                        if s@[done] == '-' {
                            '_'
                        } else {
                            s@[done]
                        },
                    ) =~= spec_dash_to_underscore(s@.take(done + 1)));
                    done = done + 1;
                }
            },
            None => {
                proof {
                    assert(s@.skip(done).len() == 0);
                    assert(s@.take(done) =~= s@);
                }
                break ;
            },
        }
    }
    out
}

} // verus!
