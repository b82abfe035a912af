//! Decimal integers as text: std's `to_string` and `parse` for `u64` and
//! `i64`, thousands grouping for money amounts, and the comma-separated id
//! lists that the expense forms carry.

use vstd::prelude::*;
use crate::text::{chars_of, is_ws, join_commas, push_char, string_of_chars, string_of_range, trim, trim_end, trim_start};

verus! {

/// The ASCII digit for `d` (0..=9).
pub open spec fn digit_char(d: int) -> char {
    (('0' as u32) + d) as char
}

pub open spec fn is_digit(c: char) -> bool {
    '0' <= c && c <= '9'
}

pub open spec fn digit_value(c: char) -> int {
    (c as u32) - ('0' as u32)
}

/// Decimal representation of `n`, without sign or leading zeros.
pub open spec fn decimal(n: nat) -> Seq<char>
    decreases n,
{
    if n < 10 {
        seq![digit_char(n as int)]
    } else {
        decimal(n / 10).push(digit_char((n % 10) as int))
    }
}

/// Decimal representation of `n` as `i64::to_string` writes it.
pub open spec fn signed_decimal(n: int) -> Seq<char> {
    if n < 0 {
        seq!['-'] + decimal((-n) as nat)
    } else {
        decimal(n as nat)
    }
}

/// `s` with a comma before every group of three digits counted from the right.
pub open spec fn group3(s: Seq<char>) -> Seq<char>
    decreases s.len(),
{
    if s.len() <= 3 {
        s
    } else {
        group3(s.take(s.len() - 3)) + seq![','] + s.skip(s.len() - 3)
    }
}

/// Whole dollars with thousands separators: `1234567` is `1,234,567`,
/// `-1500` is `-1,500`.
pub open spec fn thousands(n: int) -> Seq<char> {
    if n < 0 {
        seq!['-'] + group3(decimal((-n) as nat))
    } else {
        group3(decimal(n as nat))
    }
}

/// Value of a run of decimal digits.
pub open spec fn digits_value(s: Seq<char>) -> int
    decreases s.len(),
{
    if s.len() == 0 {
        0
    } else {
        digits_value(s.drop_last()) * 10 + digit_value(s.last())
    }
}

pub open spec fn all_digits(s: Seq<char>) -> bool {
    forall|i: int| 0 <= i < s.len() ==> is_digit(#[trigger] s[i])
}

/// The integer that std's `str::parse` reads from `s` (before the range
/// check): an optional `+` or `-`, then one or more ASCII digits.
pub open spec fn parse_integer(s: Seq<char>) -> Option<int> {
    if s.len() > 0 && (s[0] == '+' || s[0] == '-') {
        let body = s.drop_first();
        if body.len() > 0 && all_digits(body) {
            if s[0] == '-' {
                Some(-digits_value(body))
            } else {
                Some(digits_value(body))
            }
        } else {
            None
        }
    } else if s.len() > 0 && all_digits(s) {
        Some(digits_value(s))
    } else {
        None
    }
}

/// `s.parse::<i64>().ok()`.
pub open spec fn parse_i64_spec(s: Seq<char>) -> Option<i64> {
    match parse_integer(s) {
        Some(v) => if i64::MIN <= v <= i64::MAX {
            Some(v as i64)
        } else {
            None
        },
        None => None,
    }
}

/// `s.parse::<u64>().ok()`: like `i64`, but a `-` sign is refused.
pub open spec fn parse_u64_spec(s: Seq<char>) -> Option<u64> {
    if s.len() > 0 && s[0] == '-' {
        None
    } else {
        match parse_integer(s) {
            Some(v) => if 0 <= v <= u64::MAX {
                Some(v as u64)
            } else {
                None
            },
            None => None,
        }
    }
}

pub proof fn lemma_digit_char_value(d: int)
    requires
        0 <= d < 10,
    ensures
        is_digit(digit_char(d)),
        digit_value(digit_char(d)) == d,
        digit_char(d) != '0' || d == 0,
{
    assert(0x30 <= ('0' as u32) + d < 0xD800);
}

pub proof fn lemma_decimal_digits(n: nat)
    ensures
        decimal(n).len() >= 1,
        all_digits(decimal(n)),
        digits_value(decimal(n)) == n,
        decimal(n)[0] != '0' || n == 0,
    decreases n,
{
    lemma_digit_char_value((n % 10) as int);
    if n >= 10 {
        lemma_decimal_digits(n / 10);
        let d = decimal(n);
        assert(d.drop_last() =~= decimal(n / 10));
        assert(d[0] == decimal(n / 10)[0]);
        assert(d.last() == digit_char((n % 10) as int));
        assert(n == (n / 10) * 10 + n % 10);
        assert(digits_value(d) == digits_value(d.drop_last()) * 10 + digit_value(d.last()));
    } else {
        let d = decimal(n);
        assert(d.drop_last() =~= Seq::<char>::empty());
        assert(n % 10 == n);
        assert(digits_value(d) == digits_value(d.drop_last()) * 10 + digit_value(d.last()));
        assert(digits_value(Seq::<char>::empty()) == 0);
    }
}

fn digit_of(d: u64) -> (c: char)
    requires
        d < 10,
    ensures
        c == digit_char(d as int),
        is_digit(c),
        digit_value(c) == d,
{
    if d == 0 {
        '0'
    } else if d == 1 {
        '1'
    } else if d == 2 {
        '2'
    } else if d == 3 {
        '3'
    } else if d == 4 {
        '4'
    } else if d == 5 {
        '5'
    } else if d == 6 {
        '6'
    } else if d == 7 {
        '7'
    } else if d == 8 {
        '8'
    } else {
        '9'
    }
}

/// `n.to_string()` for `u64`.
pub fn u64_to_string(n: u64) -> (r: String)
    ensures
        r@ == decimal(n as nat),
    decreases n,
{
    if n < 10 {
        let mut r = String::new();
        push_char(&mut r, digit_of(n));
        assert(r@ =~= decimal(n as nat));
        r
    } else {
        let mut r = u64_to_string(n / 10);
        push_char(&mut r, digit_of(n % 10));
        r
    }
}

/// `n.to_string()` for `i64`.
pub fn i64_to_string(n: i64) -> (r: String)
    ensures
        r@ == signed_decimal(n as int),
{
    if n < 0 {
        let m: u64 = if n == i64::MIN {
            9223372036854775808u64
        } else {
            (-n) as u64
        };
        let d = u64_to_string(m);
        let mut r = String::new();
        push_char(&mut r, '-');
        r.append(d.as_str());
        r
    } else {
        u64_to_string(n as u64)
    }
}


/// Groups the characters of `cs` in threes from the right, with commas.
fn group_thousands(cs: &Vec<char>) -> (r: String)
    ensures
        r@ == group3(cs@),
    decreases cs@.len(),
{
    let n = cs.len();
    if n <= 3 {
        let r = string_of_chars(cs);
        r
    } else {
        let mut head: Vec<char> = Vec::new();
        let mut i: usize = 0;
        while i < n - 3
            invariant
                n == cs@.len(),
                n > 3,
                i <= n - 3,
                head@ == cs@.take(i as int),
            decreases n - 3 - i,
        {
            head.push(cs[i]);
            i = i + 1;
            assert(head@ =~= cs@.take(i as int));
        }
        let mut r = group_thousands(&head);
        push_char(&mut r, ',');
        let tail = string_of_range(cs, n - 3, n);
        r.append(tail.as_str());
        assert(cs@.subrange((n - 3) as int, n as int) =~= cs@.skip(n - 3));
        r
    }
}

/// Whole-dollar amount with thousands separators, as the action headlines
/// show it. `n` is the amount already rounded to whole dollars.
pub fn fmt_thousands(n: i64) -> (r: String)
    requires
        n > i64::MIN,
    ensures
        r@ == thousands(n as int),
{
    let m: u64 = if n < 0 {
        (-n) as u64
    } else {
        n as u64
    };
    let d = u64_to_string(m);
    let cs = chars_of(d.as_str());
    let g = group_thousands(&cs);
    if n < 0 {
        let mut r = String::new();
        push_char(&mut r, '-');
        r.append(g.as_str());
        r
    } else {
        g
    }
}

const PARSE_CAP: u128 = 18446744073709551616u128;

/// Saturating value of the digits `cs[from..to]`: exact below `PARSE_CAP`,
/// `PARSE_CAP` otherwise; `None` when a character is not a digit.
fn digits_saturating(cs: &Vec<char>, from: usize, to: usize) -> (r: Option<u128>)
    requires
        from <= to <= cs@.len(),
    ensures
        match r {
            Some(v) => all_digits(cs@.subrange(from as int, to as int)) && v == (if digits_value(
                cs@.subrange(from as int, to as int),
            ) < PARSE_CAP {
                digits_value(cs@.subrange(from as int, to as int))
            } else {
                PARSE_CAP as int
            }),
            None => !all_digits(cs@.subrange(from as int, to as int)),
        },
{
    let mut acc: u128 = 0;
    let mut i = from;
    proof {
        assert(cs@.subrange(from as int, from as int) =~= Seq::<char>::empty());
    }
    while i < to
        invariant
            from <= i <= to <= cs@.len(),
            all_digits(cs@.subrange(from as int, i as int)),
            digits_value(cs@.subrange(from as int, i as int)) >= 0,
            acc == (if digits_value(cs@.subrange(from as int, i as int)) < PARSE_CAP {
                digits_value(cs@.subrange(from as int, i as int))
            } else {
                PARSE_CAP as int
            }),
        decreases to - i,
    {
        let c = cs[i];
        if !('0' <= c && c <= '9') {
            proof {
                let s = cs@.subrange(from as int, to as int);
                assert(s[i - from] == c);
            }
            return None;
        }
        let d: u128 = ((c as u32) - ('0' as u32)) as u128;
        let ghost prev = cs@.subrange(from as int, i as int);
        let ghost next = cs@.subrange(from as int, i + 1);
        proof {
            assert(next.drop_last() =~= prev);
            assert(next.last() == c);
            assert(digits_value(next) == digits_value(prev) * 10 + d);
            assert forall|k: int| 0 <= k < next.len() implies is_digit(#[trigger] next[k]) by {
                if k < prev.len() {
                    assert(next[k] == prev[k]);
                }
            }
        }
        if acc >= PARSE_CAP {
            acc = PARSE_CAP;
        } else {
            let v = acc * 10 + d;
            acc = if v >= PARSE_CAP {
                PARSE_CAP
            } else {
                v
            };
        }
        i = i + 1;
    }
    Some(acc)
}

/// `s.parse::<i64>().ok()`.
pub fn parse_i64(s: &str) -> (r: Option<i64>)
    ensures
        r == parse_i64_spec(s@),
{
    let cs = chars_of(s);
    assert(cs@.subrange(0, cs@.len() as int) =~= s@);
    parse_i64_chars(&cs, 0, cs.len())
}

/// `cs[from..to]` read as by `str::parse::<i64>`.
pub fn parse_i64_chars(cs: &Vec<char>, from: usize, to: usize) -> (r: Option<i64>)
    requires
        from <= to <= cs@.len(),
    ensures
        r == parse_i64_spec(cs@.subrange(from as int, to as int)),
{
    let ghost s = cs@.subrange(from as int, to as int);
    if from == to {
        return None;
    }
    let c0 = cs[from];
    let (neg, start) = if c0 == '-' {
        (true, from + 1)
    } else if c0 == '+' {
        (false, from + 1)
    } else {
        (false, from)
    };
    proof {
        assert(s[0] == c0);
        if start == from + 1 {
            assert(s.drop_first() =~= cs@.subrange(start as int, to as int));
        } else {
            assert(s =~= cs@.subrange(start as int, to as int));
            assert(!is_digit(c0) ==> !all_digits(s));
        }
    }
    if start == to {
        return None;
    }
    match digits_saturating(cs, start, to) {
        None => None,
        Some(v) => {
            if neg {
                if v <= 9223372036854775808u128 {
                    if v == 9223372036854775808u128 {
                        Some(i64::MIN)
                    } else {
                        Some(-(v as i64))
                    }
                } else {
                    None
                }
            } else {
                if v <= 9223372036854775807u128 {
                    Some(v as i64)
                } else {
                    None
                }
            }
        },
    }
}

/// `s.parse::<u64>().ok()`.
pub fn parse_u64(s: &str) -> (r: Option<u64>)
    ensures
        r == parse_u64_spec(s@),
{
    let cs = chars_of(s);
    let n = cs.len();
    if n == 0 {
        return None;
    }
    let c0 = cs[0];
    if c0 == '-' {
        return None;
    }
    let start: usize = if c0 == '+' {
        1
    } else {
        0
    };
    proof {
        assert(cs@.subrange(0, n as int) =~= s@);
        if start == 1 {
            assert(s@.drop_first() =~= cs@.subrange(1, n as int));
        } else {
            assert(!is_digit(c0) ==> !all_digits(s@));
        }
    }
    if start == n {
        return None;
    }
    match digits_saturating(&cs, start, n) {
        None => None,
        Some(v) => {
            if v <= 18446744073709551615u128 {
                Some(v as u64)
            } else {
                None
            }
        },
    }
}


/// `signed_decimal(n)` is not empty, holds no comma and no white space, and
/// starts and ends with a character that is not white space.
proof fn lemma_signed_decimal_shape(n: int)
    ensures
        signed_decimal(n).len() >= 1,
        forall|k: int| 0 <= k < signed_decimal(n).len() ==> #[trigger] signed_decimal(n)[k] != ',',
        forall|k: int| 0 <= k < signed_decimal(n).len() ==> !is_ws(#[trigger] signed_decimal(n)[k]),
{
    let m: nat = if n < 0 {
        (-n) as nat
    } else {
        n as nat
    };
    lemma_decimal_digits(m);
    let d = decimal(m);
    let s = signed_decimal(n);
    assert forall|k: int| 0 <= k < s.len() implies #[trigger] s[k] != ',' && !is_ws(s[k]) by {
        if n < 0 {
            if k == 0 {
                assert(s[k] == '-');
            } else {
                assert(s[k] == d[k - 1]);
                assert(is_digit(d[k - 1]));
            }
        } else {
            assert(is_digit(d[k]));
        }
    }
}

/// Text without white space at either end is its own trim.
proof fn lemma_trim_keeps(s: Seq<char>)
    requires
        s.len() >= 1,
        !is_ws(s[0]),
        !is_ws(s.last()),
    ensures
        trim(s) == s,
{
    assert(trim_start(s) == s);
    assert(trim_end(s) == s);
}

/// Std's parse reads back what `to_string` wrote, for every `i64`.
pub proof fn law_i64_text_roundtrip(n: i64)
    ensures
        parse_i64_spec(signed_decimal(n as int)) == Some(n),
{
    let s = signed_decimal(n as int);
    if n < 0 {
        let m = (-n) as nat;
        lemma_decimal_digits(m);
        assert(s.drop_first() =~= decimal(m));
        assert(s[0] == '-');
    } else {
        lemma_decimal_digits(n as nat);
        assert(is_digit(s[0]));
    }
}

/// Std's parse reads back what `to_string` wrote, for every `u64`.
pub proof fn law_u64_text_roundtrip(n: u64)
    ensures
        parse_u64_spec(decimal(n as nat)) == Some(n),
{
    lemma_decimal_digits(n as nat);
    assert(is_digit(decimal(n as nat)[0]));
}

/// `s` with its commas taken out.
pub open spec fn without_commas(s: Seq<char>) -> Seq<char>
    decreases s.len(),
{
    if s.len() == 0 {
        s
    } else if s.last() == ',' {
        without_commas(s.drop_last())
    } else {
        without_commas(s.drop_last()).push(s.last())
    }
}

proof fn lemma_without_commas_add(a: Seq<char>, b: Seq<char>)
    ensures
        without_commas(a + b) == without_commas(a) + without_commas(b),
    decreases b.len(),
{
    if b.len() == 0 {
        assert(a + b =~= a);
        assert(without_commas(a) + without_commas(b) =~= without_commas(a));
    } else {
        lemma_without_commas_add(a, b.drop_last());
        assert((a + b).drop_last() =~= a + b.drop_last());
        assert((a + b).last() == b.last());
        if b.last() != ',' {
            assert(without_commas(a) + without_commas(b.drop_last()).push(b.last()) =~= (
            without_commas(a) + without_commas(b.drop_last())).push(b.last()));
        }
    }
}

proof fn lemma_without_commas_none(s: Seq<char>)
    requires
        forall|k: int| 0 <= k < s.len() ==> #[trigger] s[k] != ',',
    ensures
        without_commas(s) == s,
    decreases s.len(),
{
    if s.len() > 0 {
        let t = s.drop_last();
        assert forall|k: int| 0 <= k < t.len() implies #[trigger] t[k] != ',' by {
            assert(t[k] == s[k]);
        }
        lemma_without_commas_none(t);
        assert(t.push(s.last()) =~= s);
    }
}

proof fn lemma_group3_digits(s: Seq<char>)
    requires
        forall|k: int| 0 <= k < s.len() ==> #[trigger] s[k] != ',',
    ensures
        without_commas(group3(s)) == s,
    decreases s.len(),
{
    if s.len() <= 3 {
        lemma_without_commas_none(s);
    } else {
        let h = s.take(s.len() - 3);
        let t = s.skip(s.len() - 3);
        assert forall|k: int| 0 <= k < h.len() implies #[trigger] h[k] != ',' by {
            assert(h[k] == s[k]);
        }
        assert forall|k: int| 0 <= k < t.len() implies #[trigger] t[k] != ',' by {
            assert(t[k] == s[k + s.len() - 3]);
        }
        lemma_group3_digits(h);
        lemma_without_commas_none(t);
        lemma_without_commas_add(group3(h) + seq![','], t);
        lemma_without_commas_add(group3(h), seq![',']);
        assert(seq![','].drop_last() =~= Seq::<char>::empty());
        assert(seq![','].last() == ',');
        assert(without_commas(Seq::<char>::empty()) == Seq::<char>::empty());
        assert(without_commas(seq![',']) =~= Seq::<char>::empty());
        assert(h + t =~= s);
    }
}

/// Grouping in thousands only adds commas: taking them out of
/// `fmt_thousands(n)` leaves `n.to_string()`.
pub proof fn law_thousands_keeps_digits(n: i64)
    requires
        n > i64::MIN,
    ensures
        without_commas(thousands(n as int)) == signed_decimal(n as int),
{
    let m: nat = if n < 0 {
        (-n) as nat
    } else {
        n as nat
    };
    lemma_decimal_digits(m);
    let d = decimal(m);
    assert forall|k: int| 0 <= k < d.len() implies #[trigger] d[k] != ',' by {
        assert(is_digit(d[k]));
    }
    lemma_group3_digits(d);
    if n < 0 {
        lemma_without_commas_add(seq!['-'], group3(d));
        assert(seq!['-'].drop_last() =~= Seq::<char>::empty());
        assert(seq!['-'].last() == '-');
        assert(without_commas(Seq::<char>::empty()) == Seq::<char>::empty());
        assert(Seq::<char>::empty().push('-') =~= seq!['-']);
        assert(without_commas(seq!['-']) =~= seq!['-']);
    }
}

} // verus!

verus! {

/// The pieces of `s` between commas, as `str::split(',')` yields them.
pub open spec fn split_commas(s: Seq<char>) -> Seq<Seq<char>>
    decreases s.len(),
{
    if s.len() == 0 {
        seq![Seq::<char>::empty()]
    } else {
        let p = split_commas(s.drop_last());
        if s.last() == ',' {
            p.push(Seq::<char>::empty())
        } else {
            p.update(p.len() - 1, p.last().push(s.last()))
        }
    }
}

pub proof fn lemma_split_commas_nonempty(s: Seq<char>)
    ensures
        split_commas(s).len() >= 1,
    decreases s.len(),
{
    if s.len() > 0 {
        lemma_split_commas_nonempty(s.drop_last());
    }
}

/// The ids read from a list of pieces: each piece is trimmed and read as an
/// `i64`; pieces that are blank or do not read as a number are skipped.
pub open spec fn ids_of_pieces(ps: Seq<Seq<char>>) -> Seq<i64>
    decreases ps.len(),
{
    if ps.len() == 0 {
        Seq::empty()
    } else {
        let rest = ids_of_pieces(ps.drop_last());
        match parse_i64_spec(trim(ps.last())) {
            Some(v) => rest.push(v),
            None => rest,
        }
    }
}

/// The label ids of a comma-separated list such as `"3, 7,12"`.
pub open spec fn label_ids_spec(raw: Seq<char>) -> Seq<i64> {
    ids_of_pieces(split_commas(raw))
}

/// The text of a list of ids: each in decimal, commas between them.
pub open spec fn id_list_text(ids: Seq<i64>) -> Seq<char> {
    join_commas(decimal_texts(ids))
}

/// Each id in decimal.
pub open spec fn decimal_texts(ids: Seq<i64>) -> Seq<Seq<char>> {
    ids.map_values(|v: i64| signed_decimal(v as int))
}

proof fn lemma_split_commas_comma(p: Seq<char>)
    ensures
        split_commas(p + seq![',']) == split_commas(p).push(Seq::<char>::empty()),
{
    let s = p + seq![','];
    assert(s.drop_last() =~= p);
    assert(s.last() == ',');
}

/// Appending text without commas extends the last piece.
proof fn lemma_split_commas_extend(p: Seq<char>, t: Seq<char>)
    requires
        forall|k: int| 0 <= k < t.len() ==> #[trigger] t[k] != ',',
    ensures
        split_commas(p).len() >= 1,
        split_commas(p + t) == split_commas(p).update(
            split_commas(p).len() - 1,
            split_commas(p).last() + t,
        ),
    decreases t.len(),
{
    lemma_split_commas_nonempty(p);
    let ps = split_commas(p);
    if t.len() == 0 {
        assert(p + t =~= p);
        assert(ps.last() + t =~= ps.last());
        assert(ps.update(ps.len() - 1, ps.last() + t) =~= ps);
    } else {
        let u = t.drop_last();
        let c = t.last();
        assert forall|k: int| 0 <= k < u.len() implies #[trigger] u[k] != ',' by {
            assert(u[k] == t[k]);
        }
        lemma_split_commas_extend(p, u);
        let s = p + t;
        assert(s.drop_last() =~= p + u);
        assert(s.last() == c);
        assert(c != ',');
        let q = split_commas(p + u);
        assert(q == ps.update(ps.len() - 1, ps.last() + u));
        assert(q.len() == ps.len());
        assert(q.last() == ps.last() + u);
        assert((ps.last() + u).push(c) =~= ps.last() + t);
        assert(q.update(q.len() - 1, q.last().push(c)) =~= ps.update(ps.len() - 1, ps.last() + t));
    }
}

/// Splitting a comma-joined list of comma-free parts gives the parts back.
proof fn lemma_split_join(parts: Seq<Seq<char>>)
    requires
        parts.len() >= 1,
        forall|i: int, k: int|
            0 <= i < parts.len() && 0 <= k < parts[i].len() ==> #[trigger] parts[i][k] != ',',
    ensures
        split_commas(join_commas(parts)) == parts,
    decreases parts.len(),
{
    let last = parts.last();
    assert forall|k: int| 0 <= k < last.len() implies #[trigger] last[k] != ',' by {
        assert(last[k] == parts[parts.len() - 1][k]);
    }
    if parts.len() == 1 {
        let e = Seq::<char>::empty();
        lemma_split_commas_extend(e, last);
        assert(e + last =~= last);
        assert(split_commas(e) =~= seq![e]);
        assert(seq![e].update(0, e + last) =~= parts);
    } else {
        let init = parts.drop_last();
        assert forall|i: int, k: int| 0 <= i < init.len() && 0 <= k < init[i].len() implies #[trigger] init[i][k] != ',' by {
            assert(init[i] == parts[i]);
        }
        lemma_split_join(init);
        let head = join_commas(init) + ","@;
        assert(","@ =~= seq![',']) by {
            reveal_strlit(",");
        }
        lemma_split_commas_comma(join_commas(init));
        lemma_split_commas_extend(head, last);
        let ph = split_commas(head);
        assert(ph == init.push(Seq::<char>::empty()));
        assert(Seq::<char>::empty() + last =~= last);
        assert(ph.update(ph.len() - 1, ph.last() + last) =~= parts);
    }
}

/// The ids read from pieces that are each an id's decimal text.
proof fn lemma_ids_of_decimal_pieces(ids: Seq<i64>)
    ensures
        ids_of_pieces(decimal_texts(ids)) == ids,
    decreases ids.len(),
{
    let ps = decimal_texts(ids);
    if ids.len() > 0 {
        let init = ids.drop_last();
        lemma_ids_of_decimal_pieces(init);
        assert(ps.drop_last() =~= decimal_texts(init));
        let v = ids.last();
        let d = signed_decimal(v as int);
        assert(ps.last() == d);
        lemma_signed_decimal_shape(v as int);
        lemma_trim_keeps(d);
        law_i64_text_roundtrip(v);
        assert(init.push(v) =~= ids);
    } else {
        assert(ps.len() == 0);
    }
}

/// What the label picker writes, the expense forms read back: the ids of a
/// comma-joined list of decimal ids are those ids, in order.
pub proof fn law_label_ids_roundtrip(ids: Seq<i64>)
    ensures
        label_ids_spec(id_list_text(ids)) == ids,
{
    let ps = decimal_texts(ids);
    if ids.len() == 0 {
        assert(ps.len() == 0);
        let e = Seq::<char>::empty();
        assert(join_commas(ps) == e);
        assert(split_commas(e) =~= seq![e]);
        assert(seq![e].drop_last() =~= Seq::<Seq<char>>::empty());
        assert(seq![e].last() == e);
        assert(trim_start(e) == e);
        assert(trim_end(e) == e);
        assert(trim(e) == e);
        assert(parse_i64_spec(e) is None);
        assert(ids_of_pieces(Seq::<Seq<char>>::empty()) == Seq::<i64>::empty());
        assert(ids_of_pieces(seq![e]) == Seq::<i64>::empty());
        assert(ids =~= Seq::<i64>::empty());
    } else {
        assert forall|i: int, k: int| 0 <= i < ps.len() && 0 <= k < ps[i].len() implies #[trigger] ps[i][k] != ',' by {
            lemma_signed_decimal_shape(ids[i] as int);
        }
        lemma_split_join(ps);
        lemma_ids_of_decimal_pieces(ids);
    }
}

/// Reads the comma-separated label ids that the expense forms send
/// (`raw.split(',')`, each piece trimmed; blank pieces and pieces that are
/// not an `i64` are skipped).
pub fn parse_label_ids(raw: &str) -> (ids: Vec<i64>)
    ensures
        ids@ == label_ids_spec(raw@),
{
    let cs = chars_of(raw);
    let n = cs.len();
    let mut ids: Vec<i64> = Vec::new();
    let mut start: usize = 0;
    let mut i: usize = 0;
    proof {
        assert(cs@.take(0) =~= Seq::<char>::empty());
        assert(split_commas(Seq::<char>::empty()).drop_last() =~= Seq::<Seq<char>>::empty());
        assert(cs@.subrange(0, 0) =~= Seq::<char>::empty());
    }
    while i < n
        invariant
            n == cs@.len(),
            start <= i <= n,
            split_commas(cs@.take(i as int)).len() >= 1,
            ids@ == ids_of_pieces(split_commas(cs@.take(i as int)).drop_last()),
            split_commas(cs@.take(i as int)).last() == cs@.subrange(start as int, i as int),
        decreases n - i,
    {
        let c = cs[i];
        let ghost before = split_commas(cs@.take(i as int));
        proof {
            let t = cs@.take(i + 1);
            assert(t.drop_last() =~= cs@.take(i as int));
            assert(t.last() == c);
        }
        if c == ',' {
            let (lo, hi) = crate::text::trim_bounds(&cs, start, i);
            let p = parse_i64_chars(&cs, lo, hi);
            match p {
                Some(v) => {
                    ids.push(v);
                },
                None => {},
            }
            proof {
                let after = split_commas(cs@.take(i + 1));
                assert(after == before.push(Seq::<char>::empty()));
                assert(after.drop_last() =~= before);
                assert(before.drop_last() == before.drop_last());
            }
            start = i + 1;
            proof {
                assert(cs@.subrange(start as int, (i + 1) as int) =~= Seq::<char>::empty());
            }
        } else {
            proof {
                let after = split_commas(cs@.take(i + 1));
                assert(after == before.update(before.len() - 1, before.last().push(c)));
                assert(after.drop_last() =~= before.drop_last());
                assert(after.last() =~= cs@.subrange(start as int, i + 1));
            }
        }
        i = i + 1;
    }
    let (lo, hi) = crate::text::trim_bounds(&cs, start, n);
    let p = parse_i64_chars(&cs, lo, hi);
    match p {
        Some(v) => {
            ids.push(v);
        },
        None => {},
    }
    proof {
        assert(cs@.take(n as int) =~= raw@);
    }
    ids
}

} // verus!
