//! Decimal text handling: rendering unsigned numbers for display strings and
//! parsing the numeric property values that the audio server reports.

use vstd::prelude::*;

verus! {

/// The character for a single decimal digit.
pub open spec fn spec_digit_char(d: nat) -> char {
    if d == 0 {
        '0'
    } else if d == 1 {
        '1'
    } else if d == 2 {
        '2'
    } else if d == 3 {
        '3'
    } else if d == 4 {
        '4'
    } else if d == 5 {
        '5'
    } else if d == 6 {
        '6'
    } else if d == 7 {
        '7'
    } else if d == 8 {
        '8'
    } else {
        '9'
    }
}

/// The decimal rendering of `n`, most significant digit first, with no
/// leading zeros (`0` itself renders as the single character `'0'`).
pub open spec fn spec_decimal(n: nat) -> Seq<char>
    decreases n,
{
    if n < 10 {
        seq![spec_digit_char(n)]
    } else {
        spec_decimal(n / 10).push(spec_digit_char(n % 10))
    }
}

pub open spec fn spec_is_digit(c: char) -> bool {
    '0' <= c && c <= '9'
}

/// The numeric value of a digit character; zero for anything else.
pub open spec fn spec_digit_val(c: char) -> nat {
    if spec_is_digit(c) {
        ((c as int) - 48) as nat
    } else {
        0
    }
}

/// The value of a digit string, read most significant digit first.
pub open spec fn spec_digits_value(s: Seq<char>) -> nat
    decreases s.len(),
{
    if s.len() == 0 {
        0
    } else {
        spec_digits_value(s.drop_last()) * 10 + spec_digit_val(s.last())
    }
}

pub open spec fn spec_all_digits(s: Seq<char>) -> bool {
    forall|i: int| 0 <= i < s.len() ==> spec_is_digit(#[trigger] s[i])
}

/// What `parse_u32` accepts: an optional leading `'+'`, then one or more
/// decimal digits whose value fits in a `u32`.
pub open spec fn spec_parse_u32(s: Seq<char>) -> Option<u32> {
    let t = if s.len() > 0 && s[0] == '+' {
        s.subrange(1, s.len() as int)
    } else {
        s
    };
    if t.len() > 0 && spec_all_digits(t) && spec_digits_value(t) <= u32::MAX {
        Some(spec_digits_value(t) as u32)
    } else {
        None
    }
}

/// A longer digit string never has a smaller value.
proof fn lemma_digits_value_prefix(s: Seq<char>, i: int)
    requires
        0 <= i <= s.len(),
    ensures
        spec_digits_value(s.take(i)) <= spec_digits_value(s),
    decreases s.len() - i,
{
    if i < s.len() {
        lemma_digits_value_prefix(s, i + 1);
        assert(s.take(i + 1).drop_last() =~= s.take(i));
        assert(spec_digits_value(s.take(i + 1)) == spec_digits_value(s.take(i)) * 10
            + spec_digit_val(s.take(i + 1).last()));
        assert(s.take(s.len() as int) =~= s);
    } else {
        assert(s.take(i) =~= s);
    }
}

/// The decimal digit as a borrowed one-character string.
fn digit_str(d: u32) -> (s: &'static str)
    requires
        d < 10,
    ensures
        s@ == seq![spec_digit_char(d as nat)],
{
    match d {
        0 => {
            proof {
                reveal_strlit("0");
                assert("0"@ =~= seq![spec_digit_char(0)]);
            }
            "0"
        },
        1 => {
            proof {
                reveal_strlit("1");
                assert("1"@ =~= seq![spec_digit_char(1)]);
            }
            "1"
        },
        2 => {
            proof {
                reveal_strlit("2");
                assert("2"@ =~= seq![spec_digit_char(2)]);
            }
            "2"
        },
        3 => {
            proof {
                reveal_strlit("3");
                assert("3"@ =~= seq![spec_digit_char(3)]);
            }
            "3"
        },
        4 => {
            proof {
                reveal_strlit("4");
                assert("4"@ =~= seq![spec_digit_char(4)]);
            }
            "4"
        },
        5 => {
            proof {
                reveal_strlit("5");
                assert("5"@ =~= seq![spec_digit_char(5)]);
            }
            "5"
        },
        6 => {
            proof {
                reveal_strlit("6");
                assert("6"@ =~= seq![spec_digit_char(6)]);
            }
            "6"
        },
        7 => {
            proof {
                reveal_strlit("7");
                assert("7"@ =~= seq![spec_digit_char(7)]);
            }
            "7"
        },
        8 => {
            proof {
                reveal_strlit("8");
                assert("8"@ =~= seq![spec_digit_char(8)]);
            }
            "8"
        },
        _ => {
            proof {
                reveal_strlit("9");
                assert("9"@ =~= seq![spec_digit_char(9)]);
            }
            "9"
        },
    }
}

/// The digit buffer read back to front, as characters.
spec fn rev_digit_chars(ds: Seq<u64>) -> Seq<char> {
    Seq::new(ds.len(), |i: int| spec_digit_char(ds[ds.len() - 1 - i] as nat))
}

/// Renders `n` in decimal, exactly as `spec_decimal` describes.
pub fn u64_to_string(n: u64) -> (s: String)
    ensures
        s@ == spec_decimal(n as nat),
{
    let mut digits: Vec<u64> = Vec::new();
    let mut m: u64 = n;
    if m == 0 {
        digits.push(0);
        proof {
            assert(rev_digit_chars(digits@) =~= seq![spec_digit_char(0)]);
            assert(spec_decimal(n as nat) == rev_digit_chars(digits@));
        }
    }
    while m > 0
        invariant
            m > 0 || digits@.len() > 0,
            forall|i: int| 0 <= i < digits@.len() ==> #[trigger] digits@[i] < 10,
            spec_decimal(n as nat) == if m > 0 {
                spec_decimal(m as nat) + rev_digit_chars(digits@)
            } else {
                rev_digit_chars(digits@)
            },
        decreases m,
    {
        let d = m % 10;
        let ghost old_digits = digits@;
        digits.push(d);
        m = m / 10;
        proof {
            assert(rev_digit_chars(old_digits.push(d)) =~= seq![spec_digit_char(d as nat)]
                + rev_digit_chars(old_digits));
        }
    }
    let mut s = String::new();
    let mut i: usize = digits.len();
    while i > 0
        invariant
            i <= digits@.len(),
            forall|j: int| 0 <= j < digits@.len() ==> #[trigger] digits@[j] < 10,
            spec_decimal(n as nat) == rev_digit_chars(digits@),
            s@ == rev_digit_chars(digits@).take(digits@.len() - i),
        decreases i,
    {
        i = i - 1;
        s.append(digit_str(digits[i] as u32));
        proof {
            assert(s@ =~= rev_digit_chars(digits@).take(digits@.len() - i));
        }
    }
    proof {
        assert(s@ =~= rev_digit_chars(digits@));
    }
    s
}

/// Renders `n` in decimal, exactly as `spec_decimal` describes.
pub fn u32_to_string(n: u32) -> (s: String)
    ensures
        s@ == spec_decimal(n as nat),
{
    u64_to_string(n as u64)
}

/// Parses an unsigned decimal number the way the server's property strings
/// spell one: an optional `'+'`, then digits, rejecting overflow.
pub fn parse_u32(s: &str) -> (r: Option<u32>)
    ensures
        r == spec_parse_u32(s@),
{
    let len = s.unicode_len();
    let mut i: usize = 0;
    if len > 0 && s.get_char(0) == '+' {
        i = 1;
    }
    let ghost t = if s@.len() > 0 && s@[0] == '+' {
        s@.subrange(1, s@.len() as int)
    } else {
        s@
    };
    let ghost start = i as int;
    proof {
        assert(t =~= s@.subrange(start, s@.len() as int));
    }
    if i >= len {
        return None;
    }
    let mut acc: u32 = 0;
    while i < len
        invariant
            0 <= start <= i as int <= len,
            len == s@.len(),
            start <= 1,
            t == s@.subrange(start, s@.len() as int),
            t == (if s@.len() > 0 && s@[0] == '+' {
                s@.subrange(1, s@.len() as int)
            } else {
                s@
            }),
            t.len() > 0,
            spec_all_digits(t.take(i - start)),
            acc == spec_digits_value(t.take(i - start)),
        decreases len - i,
    {
        let c = s.get_char(i);
        proof {
            assert(s@.subrange(start, s@.len() as int).len() == s@.len() - start);
            assert(s@.subrange(start, s@.len() as int)[i - start] == s@[i as int]);
        }
        let d32 = c as u32;
        if d32 < 48 || d32 > 57 {
            proof {
                assert(t[i - start] == c);
                assert(!spec_is_digit(c));
                assert(!spec_all_digits(t));
            }
            return None;
        }
        let d = d32 - 48;
        if acc > (u32::MAX - d) / 10 {
            proof {
                let k = i - start;
                assert(t.take(k + 1).drop_last() =~= t.take(k));
                assert(t.take(k + 1).last() == t[k]);
                assert(t[k] == c);
                assert(spec_digits_value(t.take(k + 1)) == acc * 10 + d);
                assert(acc * 10 + d > u32::MAX);
                lemma_digits_value_prefix(t, k + 1);
            }
            return None;
        }
        proof {
            let k = i - start;
            assert(t.take(k + 1).drop_last() =~= t.take(k));
            assert(t.take(k + 1).last() == t[k]);
            assert(t[k] == c);
            assert(spec_is_digit(c));
        }
        acc = acc * 10 + d;
        i = i + 1;
    }
    proof {
        assert(t.take(i - start) =~= t);
    }
    Some(acc)
}

/// The views of a list of strings.
pub open spec fn strs_view(s: Seq<String>) -> Seq<Seq<char>> {
    s.map_values(|x: String| x@)
}

/// The parts joined with the separator between consecutive parts.
pub open spec fn spec_join(parts: Seq<Seq<char>>, sep: Seq<char>) -> Seq<char>
    decreases parts.len(),
{
    if parts.len() == 0 {
        Seq::empty()
    } else if parts.len() == 1 {
        parts[0]
    } else {
        parts[0] + sep + spec_join(parts.drop_first(), sep)
    }
}

/// One more part joins behind a separator, or stands alone.
pub proof fn lemma_spec_join_push(parts: Seq<Seq<char>>, sep: Seq<char>, x: Seq<char>)
    ensures
        spec_join(parts.push(x), sep) == if parts.len() == 0 {
            x
        } else {
            spec_join(parts, sep) + sep + x
        },
    decreases parts.len(),
{
    let w = parts.push(x);
    if parts.len() == 0 {
        assert(w.len() == 1);
        assert(w[0] == x);
    } else {
        lemma_spec_join_push(parts.drop_first(), sep, x);
        assert(w.drop_first() =~= parts.drop_first().push(x));
        assert(w[0] == parts[0]);
        if parts.len() == 1 {
            assert(w.drop_first().len() == 1);
            assert(spec_join(w.drop_first(), sep) == w.drop_first()[0]);
            assert(w.drop_first()[0] == x);
            assert(spec_join(parts, sep) == parts[0]);
        } else {
            assert((parts[0] + sep + (spec_join(parts.drop_first(), sep) + sep + x)) =~= ((parts[0]
                + sep + spec_join(parts.drop_first(), sep)) + sep + x));
        }
    }
}

/// Joins the strings with the separator, as `spec_join` describes.
pub fn join_strings(parts: &Vec<String>, sep: &str) -> (r: String)
    ensures
        r@ == spec_join(strs_view(parts@), sep@),
{
    if parts.len() == 0 {
        proof {
            assert(strs_view(parts@).len() == 0);
        }
        return String::new();
    }
    let mut s: String = parts[0].clone();
    proof {
        assert(strs_view(parts@).take(1)[0] == parts@[0]@);
        assert(spec_join(strs_view(parts@).take(1), sep@) == parts@[0]@);
    }
    let mut i: usize = 1;
    while i < parts.len()
        invariant
            1 <= i <= parts@.len(),
            s@ == spec_join(strs_view(parts@).take(i as int), sep@),
        decreases parts@.len() - i,
    {
        s.append(sep);
        s.append(parts[i].as_str());
        proof {
            let pv = strs_view(parts@);
            lemma_spec_join_push(pv.take(i as int), sep@, pv[i as int]);
            assert(pv[i as int] == parts@[i as int]@);
            assert(pv.take(i as int + 1) =~= pv.take(i as int).push(pv[i as int]));
            assert(s@ =~= spec_join(pv.take(i as int), sep@) + sep@ + pv[i as int]);
        }
        i = i + 1;
    }
    proof {
        assert(strs_view(parts@).take(parts@.len() as int) =~= strs_view(parts@));
    }
    s
}

/// Character-for-character string comparison.
pub fn str_eq(a: &str, b: &str) -> (r: bool)
    ensures
        r == (a@ == b@),
{
    let sa: String = a.to_owned();
    let sb: String = b.to_owned();
    sa == sb
}

} // verus!
