//! Parsing of the textual values the command line accepts: booleans, `u8`
//! numbers (as `str::parse::<u8>` reads them) and dotted-quad IPv4 addresses
//! (as `str::parse::<Ipv4Addr>` reads them).

use vstd::prelude::*;

verus! {

/// An ASCII decimal digit.
pub open spec fn is_digit(c: char) -> bool {
    0x30 <= (c as u32) && (c as u32) <= 0x39
}

/// Every character of `s` is an ASCII decimal digit.
pub open spec fn all_digits(s: Seq<char>) -> bool {
    forall|i: int| 0 <= i < s.len() ==> #[trigger] is_digit(s[i])
}

/// The number that the decimal digits `s` write.
pub open spec fn digits_value(s: Seq<char>) -> nat
    decreases s.len(),
{
    if s.len() == 0 {
        0
    } else {
        digits_value(s.drop_last()) * 10 + ((s.last() as u32) - 0x30) as nat
    }
}

/// What `str::parse::<u8>` gives: an optional `+` followed by one or more
/// decimal digits whose value fits in a `u8`.
pub open spec fn parse_u8_spec(s: Seq<char>) -> Option<u8> {
    let d = if s.len() > 0 && s[0] == '+' {
        s.drop_first()
    } else {
        s
    };
    if d.len() > 0 && all_digits(d) && digits_value(d) <= 255 {
        Some(digits_value(d) as u8)
    } else {
        None
    }
}

/// What `str::parse::<bool>` gives: `true` for "true", `false` for "false".
pub open spec fn parse_bool_spec(s: Seq<char>) -> Option<bool> {
    if s == seq!['t', 'r', 'u', 'e'] {
        Some(true)
    } else if s == seq!['f', 'a', 'l', 's', 'e'] {
        Some(false)
    } else {
        None
    }
}

/// The pieces of `s` between its dots, as `str::split('.')` yields them.
pub open spec fn split_dots(s: Seq<char>) -> Seq<Seq<char>>
    decreases s.len(),
{
    if s.len() == 0 {
        seq![Seq::<char>::empty()]
    } else {
        let r = split_dots(s.drop_last());
        if s.last() == '.' {
            r.push(Seq::<char>::empty())
        } else {
            r.update(r.len() - 1, r.last().push(s.last()))
        }
    }
}

/// One field of a dotted-quad address: one to three digits, no leading zero
/// unless the field is "0", at most 255.
pub open spec fn is_octet_text(t: Seq<char>) -> bool {
    &&& 1 <= t.len() <= 3
    &&& all_digits(t)
    &&& (t.len() == 1 || t[0] != '0')
    &&& digits_value(t) <= 255
}

/// `s` is an IPv4 address in dotted-quad notation.
pub open spec fn is_ipv4_text(s: Seq<char>) -> bool {
    &&& split_dots(s).len() == 4
    &&& forall|k: int| 0 <= k < 4 ==> #[trigger] is_octet_text(split_dots(s)[k])
}

/// The four octets that the dotted-quad address `s` writes.
pub open spec fn ipv4_octets(s: Seq<char>) -> Seq<u8> {
    split_dots(s).map_values(|t: Seq<char>| digits_value(t) as u8)
}

/// What `str::parse::<Ipv4Addr>` gives, as the address's four octets.
pub open spec fn parse_ipv4_spec(s: Seq<char>) -> Option<Seq<u8>> {
    if is_ipv4_text(s) {
        Some(ipv4_octets(s))
    } else {
        None
    }
}

/// Reads the decimal digits of `s` between character positions `from` and
/// `to`: `None` unless there is at least one and all are digits; else their
/// value, or 256 when the value exceeds 255.
fn parse_digits_capped(s: &str, from: usize, to: usize) -> (r: Option<u32>)
    requires
        from <= to <= s@.len(),
    ensures
        r is Some <==> (from < to && all_digits(s@.subrange(from as int, to as int))),
        r matches Some(v) ==> v == if digits_value(s@.subrange(from as int, to as int)) <= 255 {
            digits_value(s@.subrange(from as int, to as int))
        } else {
            256
        },
{
    if from == to {
        return None;
    }
    let mut acc: u32 = 0;
    let mut i = from;
    assert(s@.subrange(from as int, from as int) =~= Seq::<char>::empty());
    while i < to
        invariant
            from <= i <= to <= s@.len(),
            all_digits(s@.subrange(from as int, i as int)),
            acc == if digits_value(s@.subrange(from as int, i as int)) <= 255 {
                digits_value(s@.subrange(from as int, i as int))
            } else {
                256
            },
        decreases to - i,
    {
        let c = s.get_char(i);
        if !((c as u32) >= 0x30 && (c as u32) <= 0x39) {
            assert(!is_digit(s@.subrange(from as int, to as int)[i - from]));
            return None;
        }
        let ghost prev = s@.subrange(from as int, i as int);
        let ghost next = s@.subrange(from as int, i + 1);
        assert(next.drop_last() =~= prev);
        assert(next.last() == c);
        let d = (c as u32) - 0x30;
        if acc < 256 {
            let v = acc * 10 + d;
            acc = if v <= 255 { v } else { 256 };
        }
        assert(all_digits(next)) by {
            assert forall|k: int| 0 <= k < next.len() implies #[trigger] is_digit(next[k]) by {
                if k < prev.len() {
                    assert(next[k] == prev[k]);
                }
            }
        }
        i = i + 1;
    }
    Some(acc)
}

/// Parses `s` as `str::parse::<u8>` does.
pub fn parse_u8(s: &str) -> (r: Option<u8>)
    ensures
        r == parse_u8_spec(s@),
{
    let n = s.unicode_len();
    let from: usize = if n > 0 && s.get_char(0) == '+' {
        1
    } else {
        0
    };
    let ghost d = if s@.len() > 0 && s@[0] == '+' {
        s@.drop_first()
    } else {
        s@
    };
    assert(s@.subrange(from as int, n as int) =~= d);
    match parse_digits_capped(s, from, n) {
        Some(v) => {
            if v <= 255 {
                Some(v as u8)
            } else {
                None
            }
        },
        None => None,
    }
}

/// Parses `s` as `str::parse::<bool>` does.
pub fn parse_bool(s: &str) -> (r: Option<bool>)
    ensures
        r == parse_bool_spec(s@),
{
    let t = "true";
    let f = "false";
    proof {
        reveal_strlit("true");
        reveal_strlit("false");
    }
    assert(t@ =~= seq!['t', 'r', 'u', 'e']);
    assert(f@ =~= seq!['f', 'a', 'l', 's', 'e']);
    if crate::text::str_eq(s, t) {
        Some(true)
    } else if crate::text::str_eq(s, f) {
        Some(false)
    } else {
        None
    }
}

/// Reads one field of a dotted-quad address between positions `from` and `to`.
fn parse_octet(s: &str, from: usize, to: usize) -> (r: Option<u8>)
    requires
        from <= to <= s@.len(),
    ensures
        r is Some <==> is_octet_text(s@.subrange(from as int, to as int)),
        r matches Some(v) ==> v == digits_value(s@.subrange(from as int, to as int)),
{
    let ghost t = s@.subrange(from as int, to as int);
    if to - from > 3 {
        return None;
    }
    if to - from > 1 && s.get_char(from) == '0' {
        assert(t[0] == '0');
        return None;
    }
    match parse_digits_capped(s, from, to) {
        Some(v) => {
            if v <= 255 {
                Some(v as u8)
            } else {
                None
            }
        },
        None => None,
    }
}

/// Parses `s` as a dotted-quad IPv4 address, as `str::parse::<Ipv4Addr>` does,
/// giving its four octets.
pub fn parse_ipv4(s: &str) -> (r: Option<[u8; 4]>)
    ensures
        r is Some <==> is_ipv4_text(s@),
        r matches Some(a) ==> a@ == ipv4_octets(s@),
{
    let n = s.unicode_len();
    let mut i: usize = 0;
    let mut start: usize = 0;
    let mut count: usize = 0;
    let mut good = true;
    let mut octs: Vec<u8> = Vec::new();
    assert(s@.take(0) =~= Seq::<char>::empty());
    assert(split_dots(s@.take(0)) =~= seq![Seq::<char>::empty()]);
    while i < n
        invariant
            n == s@.len(),
            start <= i <= n,
            count <= i,
            split_dots(s@.take(i as int)).len() == count + 1,
            split_dots(s@.take(i as int)).last() =~= s@.subrange(start as int, i as int),
            good == forall|k: int|
                0 <= k < count ==> #[trigger] is_octet_text(split_dots(s@.take(i as int))[k]),
            good ==> octs@.len() == count,
            good ==> forall|k: int|
                0 <= k < count ==> octs@[k] == digits_value(
                    #[trigger] split_dots(s@.take(i as int))[k],
                ),
        decreases n - i,
    {
        let ghost prev = split_dots(s@.take(i as int));
        let ghost next_s = s@.take(i + 1);
        assert(next_s.drop_last() =~= s@.take(i as int));
        let c = s.get_char(i);
        assert(next_s.last() == c);
        if c == '.' {
            let o = parse_octet(s, start, i);
            let ghost next = split_dots(next_s);
            assert(next == prev.push(Seq::<char>::empty()));
            assert(next[count as int] == prev.last());
            match o {
                Some(v) => {
                    if good {
                        octs.push(v);
                    }
                },
                None => {
                    good = false;
                },
            }
            assert(forall|k: int| 0 <= k < count ==> next[k] == prev[k]);
            assert(next.last() =~= s@.subrange(i + 1, i + 1));
            count = count + 1;
            start = i + 1;
        } else {
            let ghost next = split_dots(next_s);
            assert(next == prev.update(prev.len() - 1, prev.last().push(c)));
            assert(forall|k: int| 0 <= k < count ==> next[k] == prev[k]);
            assert(next.last() =~= s@.subrange(start as int, i + 1));
        }
        i = i + 1;
    }
    assert(s@.take(n as int) =~= s@);
    let last = parse_octet(s, start, n);
    if count == 3 && good {
        match last {
            Some(v) => {
                let a: [u8; 4] = [octs[0], octs[1], octs[2], v];
                assert(forall|k: int| 0 <= k < 4 ==> #[trigger] is_octet_text(split_dots(s@)[k])) by {
                    assert(split_dots(s@)[3] =~= s@.subrange(start as int, n as int));
                }
                assert(a@ =~= ipv4_octets(s@));
                return Some(a);
            },
            None => {
                assert(!is_octet_text(split_dots(s@)[3]));
                return None;
            },
        }
    }
    proof {
        if count == 3 {
            let k = choose|k: int| 0 <= k < 3 && !is_octet_text(split_dots(s@)[k]);
            assert(!is_octet_text(split_dots(s@)[k]));
        }
    }
    None
}

/// The decimal digits of `n`, without leading zeros.
pub open spec fn decimal_text(n: u8) -> Seq<char> {
    if n < 10 {
        seq![((n as u32) + 0x30) as char]
    } else if n < 100 {
        seq![((n / 10) as u32 + 0x30) as char, ((n % 10) as u32 + 0x30) as char]
    } else {
        seq![
            ((n / 100) as u32 + 0x30) as char,
            ((n / 10 % 10) as u32 + 0x30) as char,
            ((n % 10) as u32 + 0x30) as char,
        ]
    }
}

/// Every `u8` written in decimal reads back as itself, with or without a
/// leading `+`.
pub proof fn decimal_text_reads_back(n: u8)
    ensures
        parse_u8_spec(decimal_text(n)) == Some(n),
        parse_u8_spec(seq!['+'] + decimal_text(n)) == Some(n),
{
    let t = decimal_text(n);
    reveal_with_fuel(digits_value, 4);
    if n < 10 {
        assert(t.drop_last() =~= Seq::<char>::empty());
    } else if n < 100 {
        assert(t.drop_last() =~= seq![t[0]]);
        assert(t.drop_last().drop_last() =~= Seq::<char>::empty());
    } else {
        assert(t.drop_last() =~= seq![t[0], t[1]]);
        assert(t.drop_last().drop_last() =~= seq![t[0]]);
        assert(t.drop_last().drop_last().drop_last() =~= Seq::<char>::empty());
    }
    assert(all_digits(t));
    assert(t[0] != '+');
    assert((seq!['+'] + t).drop_first() =~= t);
}

proof fn lemma_split_dots_no_dot(s: Seq<char>)
    requires
        forall|i: int| 0 <= i < s.len() ==> s[i] != '.',
    ensures
        split_dots(s) == seq![s],
    decreases s.len(),
{
    if s.len() > 0 {
        lemma_split_dots_no_dot(s.drop_last());
        assert(s.drop_last().push(s.last()) =~= s);
        assert(seq![s.drop_last()].update(0, s.drop_last().push(s.last())) =~= seq![s]);
    } else {
        assert(s =~= Seq::<char>::empty());
    }
}

proof fn lemma_split_dots_append(x: Seq<char>, y: Seq<char>)
    requires
        forall|i: int| 0 <= i < y.len() ==> y[i] != '.',
    ensures
        split_dots(x + seq!['.'] + y) == split_dots(x).push(y),
    decreases y.len(),
{
    let s = x + seq!['.'] + y;
    if y.len() == 0 {
        assert(s.drop_last() =~= x);
        assert(y =~= Seq::<char>::empty());
    } else {
        assert(s.drop_last() =~= x + seq!['.'] + y.drop_last());
        lemma_split_dots_append(x, y.drop_last());
        let r = split_dots(x).push(y.drop_last());
        assert(s.last() == y.last());
        assert(y.drop_last().push(y.last()) =~= y);
        assert(r.last() == y.drop_last());
        assert(r.update(r.len() - 1, r.last().push(s.last())) =~= split_dots(x).push(y));
    }
}

/// An address written in dotted-quad notation.
pub open spec fn dotted_quad(a: u8, b: u8, c: u8, d: u8) -> Seq<char> {
    decimal_text(a) + seq!['.'] + decimal_text(b) + seq!['.'] + decimal_text(c) + seq!['.']
        + decimal_text(d)
}

proof fn lemma_decimal_text_octet(n: u8)
    ensures
        is_octet_text(decimal_text(n)),
        digits_value(decimal_text(n)) == n,
        forall|i: int| 0 <= i < decimal_text(n).len() ==> decimal_text(n)[i] != '.',
{
    decimal_text_reads_back(n);
}

/// Any four octets written in dotted-quad notation read back as those
/// octets: the address parser accepts every address and loses nothing.
pub proof fn dotted_quad_reads_back(a: u8, b: u8, c: u8, d: u8)
    ensures
        is_ipv4_text(dotted_quad(a, b, c, d)),
        parse_ipv4_spec(dotted_quad(a, b, c, d)) == Some(seq![a, b, c, d]),
{
    lemma_decimal_text_octet(a);
    lemma_decimal_text_octet(b);
    lemma_decimal_text_octet(c);
    lemma_decimal_text_octet(d);
    let ta = decimal_text(a);
    let tb = decimal_text(b);
    let tc = decimal_text(c);
    let td = decimal_text(d);
    lemma_split_dots_no_dot(ta);
    lemma_split_dots_append(ta, tb);
    lemma_split_dots_append(ta + seq!['.'] + tb, tc);
    lemma_split_dots_append(ta + seq!['.'] + tb + seq!['.'] + tc, td);
    let parts = split_dots(dotted_quad(a, b, c, d));
    assert(parts =~= seq![ta, tb, tc, td]);
    assert(forall|k: int| 0 <= k < 4 ==> #[trigger] is_octet_text(parts[k])) by {
        assert(parts[0] == ta && parts[1] == tb && parts[2] == tc && parts[3] == td);
    }
    assert(ipv4_octets(dotted_quad(a, b, c, d)) =~= seq![a, b, c, d]);
}

} // verus!
