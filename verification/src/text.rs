//! Verified text utilities: decimal formatting and parsing of unsigned
//! integers, joining a list of strings with a separator, and splitting a
//! string at a separator character.

use vstd::prelude::*;
use vstd::string::StrSliceExecFns;
use vstd::string::StringExecFns;

verus! {

/// The decimal digit character for `d` (`0 <= d <= 9`).
pub open spec fn digit_char(d: nat) -> char {
    if d == 0 {
        '0'
    } else if d == 1 {
        '1'
    } else if d == 2 {
        '2'
    } else if d == 3 {
        '3'
    } else if d == 4 {
        '4'
    } else if d == 5 {
        '5'
    } else if d == 6 {
        '6'
    } else if d == 7 {
        '7'
    } else if d == 8 {
        '8'
    } else {
        '9'
    }
}

/// The decimal digit sequence of `n`, most significant digit first,
/// with no leading zeros (the number 0 is written "0").
pub open spec fn spec_udec(n: nat) -> Seq<char>
    decreases n,
{
    if n < 10 {
        seq![digit_char(n)]
    } else {
        spec_udec(n / 10) + seq![digit_char(n % 10)]
    }
}

fn digit_str(d: u64) -> (r: &'static str)
    requires
        d < 10,
    ensures
        r@ == seq![digit_char(d as nat)],
{
    proof {
        reveal_strlit("0");
        reveal_strlit("1");
        reveal_strlit("2");
        reveal_strlit("3");
        reveal_strlit("4");
        reveal_strlit("5");
        reveal_strlit("6");
        reveal_strlit("7");
        reveal_strlit("8");
        reveal_strlit("9");
    }
    let r: &'static str = if d == 0 {
        "0"
    } else if d == 1 {
        "1"
    } else if d == 2 {
        "2"
    } else if d == 3 {
        "3"
    } else if d == 4 {
        "4"
    } else if d == 5 {
        "5"
    } else if d == 6 {
        "6"
    } else if d == 7 {
        "7"
    } else if d == 8 {
        "8"
    } else {
        "9"
    };
    proof {
        assert(r@ =~= seq![digit_char(d as nat)]);
    }
    r
}

/// Renders `n` in decimal.
pub fn u64_to_string(n: u64) -> (r: String)
    ensures
        r@ == spec_udec(n as nat),
    decreases n,
{
    if n < 10 {
        digit_str(n).to_owned()
    } else {
        let prefix = u64_to_string(n / 10);
        let r = prefix.concat(digit_str(n % 10));
        proof {
            assert(r@ =~= spec_udec(n as nat));
        }
        r
    }
}

/// `items` joined by `sep`: the items in order, `sep` between neighbours.
pub open spec fn spec_join(items: Seq<Seq<char>>, sep: Seq<char>) -> Seq<char>
    decreases items.len(),
{
    if items.len() == 0 {
        Seq::empty()
    } else if items.len() == 1 {
        items[0]
    } else {
        items[0] + sep + spec_join(items.skip(1), sep)
    }
}

fn join_from(items: &Vec<String>, i: usize, sep: &str) -> (r: String)
    requires
        i <= items@.len(),
    ensures
        r@ == spec_join(items.deep_view().skip(i as int), sep@),
    decreases items@.len() - i,
{
    if i >= items.len() {
        proof {
            assert(items.deep_view().skip(i as int) =~= Seq::<Seq<char>>::empty());
        }
        String::new()
    } else if i == items.len() - 1 {
        let r = items[i].clone();
        proof {
            assert(items.deep_view().skip(i as int) =~= seq![items.deep_view()[i as int]]);
        }
        r
    } else {
        let rest = join_from(items, i + 1, sep);
        let r = items[i].clone().concat(sep).concat(rest.as_str());
        proof {
            let tail = items.deep_view().skip(i as int);
            assert(tail.skip(1) =~= items.deep_view().skip(i + 1));
            assert(tail[0] == items.deep_view()[i as int]);
            assert(r@ =~= spec_join(tail, sep@));
        }
        r
    }
}

/// Joins `items` with the separator `sep`.
pub fn join_strings(items: &Vec<String>, sep: &str) -> (r: String)
    ensures
        r@ == spec_join(items.deep_view(), sep@),
{
    let r = join_from(items, 0, sep);
    proof {
        assert(items.deep_view().skip(0) =~= items.deep_view());
    }
    r
}

/// `s` split at `sep`, having already read a partial segment `cur`:
/// the remaining segments, each without the separator.
pub open spec fn spec_split_rec(s: Seq<char>, sep: char, cur: Seq<char>) -> Seq<Seq<char>>
    decreases s.len(),
{
    if s.len() == 0 {
        seq![cur]
    } else if s[0] == sep {
        seq![cur] + spec_split_rec(s.skip(1), sep, Seq::empty())
    } else {
        spec_split_rec(s.skip(1), sep, cur.push(s[0]))
    }
}

/// `s` split at every occurrence of `sep`. Splitting never yields an empty
/// list: a string without the separator is one segment, and separators at
/// the ends or side by side yield empty segments.
pub open spec fn spec_split(s: Seq<char>, sep: char) -> Seq<Seq<char>> {
    spec_split_rec(s, sep, Seq::empty())
}

/// Splits `s` at every occurrence of `sep`.
pub fn split_char(s: &str, sep: char) -> (r: Vec<String>)
    ensures
        r.deep_view() == spec_split(s@, sep),
{
    let len = s.unicode_len();
    let mut segs: Vec<String> = Vec::new();
    let mut start: usize = 0;
    let mut i: usize = 0;
    proof {
        assert(s@.skip(0) =~= s@);
        assert(s@.subrange(0, 0) =~= Seq::<char>::empty());
        assert(segs.deep_view() =~= Seq::<Seq<char>>::empty());
        assert(segs.deep_view() + spec_split_rec(s@, sep, Seq::empty()) =~= spec_split_rec(
            s@,
            sep,
            Seq::empty(),
        ));
    }
    while i < len
        invariant
            0 <= start <= i <= len,
            len == s@.len(),
            spec_split(s@, sep) == segs.deep_view() + spec_split_rec(
                s@.skip(i as int),
                sep,
                s@.subrange(start as int, i as int),
            ),
        decreases len - i,
    {
        let ghost tail = s@.skip(i as int);
        let ghost cur = s@.subrange(start as int, i as int);
        proof {
            assert(tail[0] == s@[i as int]);
            assert(tail.skip(1) =~= s@.skip(i + 1));
        }
        if s.get_char(i) == sep {
            segs.push(s.substring_char(start, i).to_owned());
            start = i + 1;
            proof {
                assert(spec_split_rec(tail, sep, cur) == seq![cur] + spec_split_rec(
                    s@.skip(i + 1),
                    sep,
                    Seq::empty(),
                ));
                assert(s@.subrange(start as int, i + 1) =~= Seq::<char>::empty());
                assert(segs.deep_view() =~= segs.deep_view().subrange(
                    0,
                    segs.deep_view().len() - 1,
                ).push(cur));
                assert(segs.deep_view() + spec_split_rec(s@.skip(i + 1), sep, Seq::empty())
                    =~= (segs.deep_view().subrange(0, segs.deep_view().len() - 1) + (seq![cur]
                    + spec_split_rec(s@.skip(i + 1), sep, Seq::empty()))));
            }
        } else {
            proof {
                assert(spec_split_rec(tail, sep, cur) == spec_split_rec(
                    s@.skip(i + 1),
                    sep,
                    cur.push(s@[i as int]),
                ));
                assert(cur.push(s@[i as int]) =~= s@.subrange(start as int, i + 1));
            }
        }
        i += 1;
    }
    proof {
        assert(s@.skip(len as int) =~= Seq::<char>::empty());
    }
    segs.push(s.substring_char(start, len).to_owned());
    proof {
        let cur = s@.subrange(start as int, len as int);
        assert(spec_split_rec(Seq::<char>::empty(), sep, cur) == seq![cur]);
        assert(segs.deep_view() =~= segs.deep_view().subrange(0, segs.deep_view().len() - 1)
            + seq![cur]);
        assert(segs.deep_view() =~= spec_split(s@, sep));
    }
    segs
}

/// Whether `c` is a decimal digit.
pub open spec fn is_digit(c: char) -> bool {
    48 <= c as u32 <= 57
}

/// The numeric value of the digit `c`.
pub open spec fn digit_val(c: char) -> nat {
    (c as u32 - 48) as nat
}

/// Whether every character of `s` is a decimal digit.
pub open spec fn all_digits(s: Seq<char>) -> bool {
    forall|i: int| 0 <= i < s.len() ==> is_digit(#[trigger] s[i])
}

/// The value of the digit string `s`, most significant digit first.
pub open spec fn dec_value(s: Seq<char>) -> nat
    decreases s.len(),
{
    if s.len() == 0 {
        0
    } else {
        dec_value(s.drop_last()) * 10 + digit_val(s.last())
    }
}

/// The unsigned decimal reading of `s`: an optional leading `+`, then at
/// least one digit, with a value that fits in 64 bits; any other string
/// has no reading.
pub open spec fn spec_parse_u64(s: Seq<char>) -> Option<u64> {
    let t = if s.len() >= 1 && s[0] == '+' {
        s.skip(1)
    } else {
        s
    };
    if t.len() > 0 && all_digits(t) && dec_value(t) <= u64::MAX {
        Some(dec_value(t) as u64)
    } else {
        None
    }
}

proof fn lemma_dec_value_take_le(s: Seq<char>, j: int)
    requires
        0 <= j <= s.len(),
    ensures
        dec_value(s.take(j)) <= dec_value(s),
    decreases s.len() - j,
{
    if j == s.len() {
        assert(s.take(j) =~= s);
    } else {
        lemma_dec_value_take_le(s, j + 1);
        assert(s.take(j + 1).drop_last() =~= s.take(j));
        assert(s.take(j + 1).last() == s[j]);
        assert(dec_value(s.take(j)) <= dec_value(s.take(j)) * 10 + digit_val(s[j]));
    }
}

/// Reads `s` as an unsigned 64-bit decimal number.
pub fn parse_u64(s: &str) -> (r: Option<u64>)
    ensures
        r == spec_parse_u64(s@),
{
    let len = s.unicode_len();
    let mut i: usize = 0;
    if len > 0 && s.get_char(0) == '+' {
        i = 1;
    }
    let ghost t = if s@.len() >= 1 && s@[0] == '+' {
        s@.skip(1)
    } else {
        s@
    };
    proof {
        assert(t =~= s@.subrange(i as int, len as int));
    }
    if i >= len {
        return None;
    }
    let mut v: u64 = 0;
    let mut j: usize = i;
    proof {
        assert(s@.subrange(i as int, i as int) =~= Seq::<char>::empty());
    }
    while j < len
        invariant
            i <= j <= len,
            len == s@.len(),
            t =~= s@.subrange(i as int, len as int),
            t == (if s@.len() >= 1 && s@[0] == '+' {
                s@.skip(1)
            } else {
                s@
            }),
            all_digits(s@.subrange(i as int, j as int)),
            v == dec_value(s@.subrange(i as int, j as int)),
        decreases len - j,
    {
        let ghost pre = s@.subrange(i as int, j as int);
        proof {
            assert(s@.subrange(i as int, j + 1).drop_last() =~= pre);
            assert(s@.subrange(i as int, j + 1).last() == s@[j as int]);
            assert(t[j - i] == s@[j as int]);
        }
        let c = s.get_char(j);
        let u = c as u32;
        if u < 48 || u > 57 {
            proof {
                assert(!is_digit(t[j - i]));
                assert(!all_digits(t));
            }
            return None;
        }
        let d = (u - 48) as u64;
        let overflowed: bool = match v.checked_mul(10) {
            Some(m) => match m.checked_add(d) {
                Some(x) => {
                    v = x;
                    false
                },
                None => true,
            },
            None => true,
        };
        if overflowed {
            proof {
                assert(dec_value(s@.subrange(i as int, j + 1)) == dec_value(pre) * 10 + digit_val(
                    s@[j as int],
                ));
                assert(digit_val(s@[j as int]) == d);
                assert(dec_value(s@.subrange(i as int, j + 1)) > u64::MAX);
                if all_digits(t) {
                    lemma_dec_value_take_le(t, j + 1 - i);
                    assert(t.take(j + 1 - i) =~= s@.subrange(i as int, j + 1));
                    assert(dec_value(t) > u64::MAX);
                }
            }
            return None;
        }
        j += 1;
    }
    proof {
        assert(s@.subrange(i as int, len as int) =~= t);
    }
    Some(v)
}

} // verus!
