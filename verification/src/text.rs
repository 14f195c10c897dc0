//! Decimal rendering and joining of strings, with their specifications.
use vstd::prelude::*;
use vstd::string::*;

verus! {

/// The character that writes the decimal digit `d` (for `0 <= d <= 9`).
pub open spec fn digit_char(d: int) -> char {
    if d == 0 {
        '0'
    } else if d == 1 {
        '1'
    } else if d == 2 {
        '2'
    } else if d == 3 {
        '3'
    } else if d == 4 {
        '4'
    } else if d == 5 {
        '5'
    } else if d == 6 {
        '6'
    } else if d == 7 {
        '7'
    } else if d == 8 {
        '8'
    } else {
        '9'
    }
}

/// The decimal notation of `n`, most significant digit first, without
/// leading zeros (`0` is written `"0"`).
pub open spec fn decimal_digits(n: nat) -> Seq<char>
    decreases n,
{
    if n < 10 {
        seq![digit_char(n as int)]
    } else {
        decimal_digits(n / 10).push(digit_char((n % 10) as int))
    }
}

/// Whether every character of `d` is one of the ASCII digits `0` to `9`.
pub open spec fn all_digits(d: Seq<char>) -> bool {
    forall|i: int| 0 <= i < d.len() ==> 48 <= (#[trigger] d[i]) as int <= 57
}

/// The number that the decimal digits `d` write, most significant first
/// (leading zeros allowed; the empty sequence writes 0).
pub open spec fn digits_value(d: Seq<char>) -> int
    decreases d.len(),
{
    if d.len() == 0 {
        0
    } else {
        digits_value(d.drop_last()) * 10 + (d.last() as int - 48)
    }
}

/// The parts joined with `sep` between each two neighbours.
pub open spec fn join_seqs(parts: Seq<Seq<char>>, sep: Seq<char>) -> Seq<char>
    decreases parts.len(),
{
    if parts.len() == 0 {
        Seq::empty()
    } else if parts.len() == 1 {
        parts[0]
    } else {
        join_seqs(parts.drop_last(), sep) + sep + parts.last()
    }
}

/// Joining nothing gives the empty text, joining one part gives that part,
/// and joining one more part adds the separator and that part at the end: so
/// the parts stand in order, each two neighbours with one separator between.
pub proof fn law_join_shape(parts: Seq<Seq<char>>, p: Seq<char>, sep: Seq<char>)
    ensures
        join_seqs(Seq::empty(), sep) == Seq::<char>::empty(),
        join_seqs(seq![p], sep) == p,
        parts.len() > 0 ==> join_seqs(parts.push(p), sep) == join_seqs(parts, sep) + sep + p,
        parts.len() > 0 ==> join_seqs(parts.push(p), sep).len() == join_seqs(parts, sep).len() + sep.len()
            + p.len(),
{
    assert(seq![p].len() == 1);
    assert(parts.push(p).drop_last() =~= parts);
}

/// The views of a vector of strings.
pub open spec fn string_views(v: Seq<String>) -> Seq<Seq<char>> {
    v.map_values(|s: String| s@)
}

/// The decimal notation of `n` is a non-empty run of digits that writes `n`.
pub proof fn law_decimal_digits_value(n: nat)
    ensures
        decimal_digits(n).len() > 0,
        all_digits(decimal_digits(n)),
        digits_value(decimal_digits(n)) == n,
        n == 0 ==> decimal_digits(n) == seq!['0'],
        n > 0 ==> decimal_digits(n)[0] != '0',
    decreases n,
{
    if n < 10 {
        let d = decimal_digits(n);
        assert(d.drop_last() =~= Seq::<char>::empty());
        assert(digits_value(d.drop_last()) == 0);
        assert(digit_char(n as int) as int == 48 + n);
        assert(d.last() == digit_char(n as int));
        assert(48 <= d[0] as int <= 57);
        if n == 0 {
            assert(d =~= seq!['0']);
        }
    } else {
        let q = n / 10;
        let r = (n % 10) as int;
        law_decimal_digits_value(q);
        let d = decimal_digits(n);
        assert(d.drop_last() =~= decimal_digits(q));
        assert(d.last() == digit_char(r));
        assert(digit_char(r) as int == 48 + r);
        assert(q * 10 + r == n);
        assert(d[0] == decimal_digits(q)[0]);
        assert(digits_value(d) == digits_value(decimal_digits(q)) * 10 + r);
        assert forall|i: int| 0 <= i < d.len() implies 48 <= (#[trigger] d[i]) as int <= 57 by {
            if i < d.len() - 1 {
                assert(d[i] == decimal_digits(q)[i]);
            }
        }
    }
}

fn digit_str(d: u64) -> (s: &'static str)
    requires
        d < 10,
    ensures
        s@ == seq![digit_char(d as int)],
{
    if d == 0 {
        proof { reveal_strlit("0"); }
        "0"
    } else if d == 1 {
        proof { reveal_strlit("1"); }
        "1"
    } else if d == 2 {
        proof { reveal_strlit("2"); }
        "2"
    } else if d == 3 {
        proof { reveal_strlit("3"); }
        "3"
    } else if d == 4 {
        proof { reveal_strlit("4"); }
        "4"
    } else if d == 5 {
        proof { reveal_strlit("5"); }
        "5"
    } else if d == 6 {
        proof { reveal_strlit("6"); }
        "6"
    } else if d == 7 {
        proof { reveal_strlit("7"); }
        "7"
    } else if d == 8 {
        proof { reveal_strlit("8"); }
        "8"
    } else {
        proof { reveal_strlit("9"); }
        "9"
    }
}

/// Appends the decimal notation of `n` to `s`.
pub fn push_decimal(s: &mut String, n: u64)
    ensures
        final(s)@ == old(s)@ + decimal_digits(n as nat),
    decreases n,
{
    if n >= 10 {
        push_decimal(s, n / 10);
        s.append(digit_str(n % 10));
        assert(s@ =~= old(s)@ + decimal_digits(n as nat));
    } else {
        s.append(digit_str(n));
    }
}

/// The decimal notation of `n`, as `format!("{}", n)` writes it.
pub fn decimal_string(n: u64) -> (r: String)
    ensures
        r@ == decimal_digits(n as nat),
{
    let mut r = String::new();
    push_decimal(&mut r, n);
    assert(r@ =~= decimal_digits(n as nat));
    r
}

/// The strings joined with `sep` between each two neighbours, as
/// `parts.join(sep)` writes them.
pub fn join_strings(parts: &Vec<String>, sep: &str) -> (r: String)
    ensures
        r@ == join_seqs(string_views(parts@), sep@),
{
    let ghost views = string_views(parts@);
    let mut r = String::new();
    let mut i: usize = 0;
    while i < parts.len()
        invariant
            i <= parts.len(),
            views == string_views(parts@),
            views.len() == parts@.len(),
            r@ == join_seqs(views.take(i as int), sep@),
        decreases parts.len() - i,
    {
        assert(views.take(i + 1).drop_last() =~= views.take(i as int));
        if i > 0 {
            r.append(sep);
        } else {
            assert(r@ =~= Seq::<char>::empty());
        }
        r.append(parts[i].as_str());
        assert(views[i as int] == parts@[i as int]@);
        i = i + 1;
    }
    assert(views.take(parts.len() as int) =~= views);
    r
}

} // verus!
