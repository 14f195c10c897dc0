//! Reading a port number from the text the user typed, the way
//! `str::parse::<u16>` reads it.
use vstd::prelude::*;
use vstd::string::*;
use crate::text::{all_digits, decimal_digits, digits_value, law_decimal_digits_value};

verus! {

/// Why a port could not be read from a string.
#[derive(Clone, Copy, Debug, PartialEq, Eq, Structural)]
pub enum PortParseError {
    /// The string is empty.
    Empty,
    /// A character that is not a decimal digit was met before the value grew
    /// too large (a lone `+` counts as such).
    InvalidDigit,
    /// The digits read so far already make a value above 65535.
    TooLarge,
}

/// Whether `c` is one of the ASCII digits `0` to `9`.
pub open spec fn is_digit(c: char) -> bool {
    48 <= c as int <= 57
}

/// The value of the ASCII digit `c`.
pub open spec fn digit_value(c: char) -> int {
    c as int - 48
}

/// Reads `digits` from left to right, starting from the value `acc`. The
/// first of these that occurs decides: a character that is not a digit gives
/// `InvalidDigit`, a value above 65535 gives `TooLarge`; otherwise the value
/// of all digits.
pub open spec fn scan_digits(digits: Seq<char>, acc: int) -> Result<int, PortParseError>
    decreases digits.len(),
{
    if digits.len() == 0 {
        Ok(acc)
    } else if !is_digit(digits[0]) {
        Err(PortParseError::InvalidDigit)
    } else if acc * 10 + digit_value(digits[0]) > 65535 {
        Err(PortParseError::TooLarge)
    } else {
        scan_digits(digits.drop_first(), acc * 10 + digit_value(digits[0]))
    }
}

/// The digits of `s`: all of it, less one leading `+`.
pub open spec fn unsigned_body(s: Seq<char>) -> Seq<char> {
    if s.len() > 0 && s[0] == '+' {
        s.drop_first()
    } else {
        s
    }
}

/// What reading a port from `s` gives: an optional `+`, then one or more
/// decimal digits whose value is at most 65535.
pub open spec fn port_from_text(s: Seq<char>) -> Result<u16, PortParseError> {
    if s.len() == 0 {
        Err(PortParseError::Empty)
    } else if unsigned_body(s).len() == 0 {
        Err(PortParseError::InvalidDigit)
    } else {
        match scan_digits(unsigned_body(s), 0) {
            Ok(v) => Ok(v as u16),
            Err(e) => Err(e),
        }
    }
}

/// The message that the error shows, as `ParseIntError` words it.
pub open spec fn port_error_text(e: PortParseError) -> Seq<char> {
    match e {
        PortParseError::Empty => "cannot parse integer from empty string"@,
        PortParseError::InvalidDigit => "invalid digit found in string"@,
        PortParseError::TooLarge => "number too large to fit in target type"@,
    }
}

impl PortParseError {
    /// The message that this error shows to the user.
    pub fn message(&self) -> (r: String)
        ensures
            r@ == port_error_text(*self),
    {
        match self {
            PortParseError::Empty => String::from_str("cannot parse integer from empty string"),
            PortParseError::InvalidDigit => String::from_str("invalid digit found in string"),
            PortParseError::TooLarge => String::from_str("number too large to fit in target type"),
        }
    }
}

/// Reads a port number from `s`: an optional `+` followed by one or more
/// decimal digits with a value of at most 65535.
pub fn parse_port(s: &str) -> (r: Result<u16, PortParseError>)
    ensures
        r == port_from_text(s@),
        r matches Ok(p) ==> ({
            let body = if s@.len() > 0 && s@[0] == '+' { s@.drop_first() } else { s@ };
            body.len() > 0 && all_digits(body) && digits_value(body) == p as int
        }),
{
    proof {
        law_port_reads_digits_only(s@);
    }
    let len = s.unicode_len();
    if len == 0 {
        return Err(PortParseError::Empty);
    }
    let mut i: usize = 0;
    if s.get_char(0) == '+' {
        i = 1;
    }
    let ghost body = unsigned_body(s@);
    assert(body =~= s@.subrange(i as int, len as int));
    if i == len {
        return Err(PortParseError::InvalidDigit);
    }
    let mut acc: u32 = 0;
    while i < len
        invariant
            len == s@.len(),
            body == unsigned_body(s@),
            body.len() > 0,
            0 <= i <= len,
            acc <= 65535,
            body == s@.subrange(len - body.len(), len as int),
            len - body.len() <= i,
            scan_digits(body, 0) == scan_digits(s@.subrange(i as int, len as int), acc as int),
        decreases len - i,
    {
        let c = s.get_char(i);
        let code = c as u32;
        let ghost rest = s@.subrange(i as int, len as int);
        assert(rest[0] == c);
        assert(rest.drop_first() =~= s@.subrange(i + 1, len as int));
        if code < 48 || code > 57 {
            return Err(PortParseError::InvalidDigit);
        }
        let next = acc * 10 + (code - 48);
        if next > 65535 {
            return Err(PortParseError::TooLarge);
        }
        acc = next;
        i = i + 1;
    }
    assert(s@.subrange(len as int, len as int) =~= Seq::<char>::empty());
    Ok(acc as u16)
}

/// Reading a digit sequence to which one more character is appended.
proof fn lemma_scan_push(s: Seq<char>, c: char, acc: int)
    ensures
        scan_digits(s.push(c), acc) == match scan_digits(s, acc) {
            Ok(v) => scan_digits(seq![c], v),
            Err(e) => Err(e),
        },
    decreases s.len(),
{
    if s.len() == 0 {
        assert(s.push(c) =~= seq![c]);
    } else {
        assert(s.push(c).drop_first() =~= s.drop_first().push(c));
        if is_digit(s[0]) && acc * 10 + digit_value(s[0]) <= 65535 {
            lemma_scan_push(s.drop_first(), c, acc * 10 + digit_value(s[0]));
        }
    }
}

/// Reading a digit sequence from 0 gives its value exactly when it holds only
/// digits and writes at most 65535.
proof fn lemma_scan_value(d: Seq<char>)
    ensures
        scan_digits(d, 0) matches Ok(v) ==> all_digits(d) && v == digits_value(d) && 0 <= v <= 65535,
        all_digits(d) && digits_value(d) <= 65535 ==> scan_digits(d, 0) == Ok::<int, PortParseError>(
            digits_value(d),
        ) && 0 <= digits_value(d),
    decreases d.len(),
{
    if d.len() > 0 {
        let front = d.drop_last();
        let c = d.last();
        assert(front.push(c) =~= d);
        lemma_scan_value(front);
        lemma_scan_push(front, c, 0);
        let one = seq![c];
        assert(one.drop_first() =~= Seq::<char>::empty());
        assert(one[0] == c);
        assert(digits_value(d) == digits_value(front) * 10 + (c as int - 48));
        assert forall|v: int| #[trigger] scan_digits(one, v) == (if !is_digit(c) {
            Err::<int, PortParseError>(PortParseError::InvalidDigit)
        } else if v * 10 + digit_value(c) > 65535 {
            Err::<int, PortParseError>(PortParseError::TooLarge)
        } else {
            Ok::<int, PortParseError>(v * 10 + digit_value(c))
        }) by {
            if is_digit(c) && v * 10 + digit_value(c) <= 65535 {
                assert(scan_digits(one.drop_first(), v * 10 + digit_value(c)) == Ok::<int, PortParseError>(
                    v * 10 + digit_value(c),
                ));
            }
        }
        if all_digits(d) {
            assert forall|i: int| 0 <= i < front.len() implies 48 <= (#[trigger] front[i]) as int <= 57 by {
                assert(front[i] == d[i]);
            }
            assert(48 <= d[d.len() - 1] as int <= 57);
        }
        if scan_digits(d, 0) is Ok {
            assert(scan_digits(front, 0) is Ok);
            assert(is_digit(c));
            assert forall|i: int| 0 <= i < d.len() implies 48 <= (#[trigger] d[i]) as int <= 57 by {
                if i < d.len() - 1 {
                    assert(d[i] == front[i]);
                }
            }
        }
    }
}

/// What reading a port accepts: `Ok(p)` only for an optional `+` followed by
/// one or more decimal digits and nothing else, which write the number `p`;
/// and every such text that writes at most 65535 is accepted with its value.
/// So a text with any other character after the optional `+` (a space, a
/// `-`, a `,`, a second `+`) is refused.
pub proof fn law_port_reads_digits_only(s: Seq<char>)
    ensures
        ({
            let body = if s.len() > 0 && s[0] == '+' { s.drop_first() } else { s };
            &&& port_from_text(s) matches Ok(p) ==> body.len() > 0 && all_digits(body) && digits_value(
                body,
            ) == p as int
            &&& (body.len() > 0 && all_digits(body) && digits_value(body) <= 65535) ==> port_from_text(s)
                == Ok::<u16, PortParseError>(digits_value(body) as u16)
            &&& s.len() == 0 ==> port_from_text(s) == Err::<u16, PortParseError>(PortParseError::Empty)
        }),
{
    lemma_scan_value(unsigned_body(s));
}

/// Reading `p + rest` reads `p` first and goes on with `rest` from where it
/// stopped.
proof fn lemma_scan_append(p: Seq<char>, rest: Seq<char>, acc: int)
    ensures
        scan_digits(p + rest, acc) == match scan_digits(p, acc) {
            Ok(v) => scan_digits(rest, v),
            Err(e) => Err(e),
        },
    decreases p.len(),
{
    if p.len() == 0 {
        assert(p + rest =~= rest);
    } else {
        assert((p + rest).drop_first() =~= p.drop_first() + rest);
        assert((p + rest)[0] == p[0]);
        if is_digit(p[0]) && acc * 10 + digit_value(p[0]) <= 65535 {
            lemma_scan_append(p.drop_first(), rest, acc * 10 + digit_value(p[0]));
        }
    }
}

/// Reading digits only never meets an invalid character.
proof fn lemma_digits_never_invalid(d: Seq<char>, acc: int)
    requires
        all_digits(d),
    ensures
        scan_digits(d, acc) matches Err(e) ==> e == PortParseError::TooLarge,
    decreases d.len(),
{
    if d.len() > 0 {
        assert(48 <= d[0] as int <= 57);
        assert forall|i: int| 0 <= i < d.drop_first().len() implies 48 <= (#[trigger] d.drop_first()[i]) as int
            <= 57 by {
            assert(d.drop_first()[i] == d[i + 1]);
        }
        if acc * 10 + digit_value(d[0]) <= 65535 {
            lemma_digits_never_invalid(d.drop_first(), acc * 10 + digit_value(d[0]));
        }
    }
}

/// Which error a refused port gets. Read after the optional `+`: when a
/// character that is not a digit comes before the digits ahead of it write
/// more than 65535, the error is `InvalidDigit`; when some run of digits at the
/// start already writes more than 65535, it is `TooLarge`; a lone `+` is
/// `InvalidDigit`.
pub proof fn law_port_error_kinds(s: Seq<char>, k: int)
    ensures
        ({
            let body = if s.len() > 0 && s[0] == '+' { s.drop_first() } else { s };
            &&& (s.len() > 0 && body.len() == 0) ==> port_from_text(s) == Err::<u16, PortParseError>(
                PortParseError::InvalidDigit,
            )
            &&& (0 <= k < body.len() && !(48 <= body[k] as int <= 57) && all_digits(body.take(k))
                && digits_value(body.take(k)) <= 65535) ==> port_from_text(s) == Err::<u16, PortParseError>(
                PortParseError::InvalidDigit,
            )
            &&& (0 <= k <= body.len() && all_digits(body.take(k)) && digits_value(body.take(k)) > 65535)
                ==> port_from_text(s) == Err::<u16, PortParseError>(PortParseError::TooLarge)
        }),
{
    let body = unsigned_body(s);
    if 0 <= k <= body.len() {
        let pre = body.take(k);
        let rest = body.skip(k);
        assert(pre + rest =~= body);
        lemma_scan_append(pre, rest, 0);
        lemma_scan_value(pre);
        if all_digits(pre) {
            lemma_digits_never_invalid(pre, 0);
        }
        if k < body.len() {
            assert(rest[0] == body[k]);
        }
    }
}

/// A port written out in decimal reads back as the same port: for every
/// `u16` value `p`, reading `format!("{}", p)` gives `Ok(p)`, and so does
/// reading it with a leading `+`.
pub proof fn law_port_text_round_trip(p: u16)
    ensures
        port_from_text(decimal_digits(p as nat)) == Ok::<u16, PortParseError>(p),
        port_from_text(seq!['+'] + decimal_digits(p as nat)) == Ok::<u16, PortParseError>(p),
{
    law_decimal_digits_value(p as nat);
    law_port_reads_digits_only(decimal_digits(p as nat));
    law_port_reads_digits_only(seq!['+'] + decimal_digits(p as nat));
    let t = decimal_digits(p as nat);
    assert(unsigned_body(t) == t);
    assert((seq!['+'] + t).drop_first() =~= t);
}

} // verus!
