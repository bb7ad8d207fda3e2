//! Plain-text helpers the engine and the icon codec share: decimal
//! rendering of numbers, decimal parsing, whitespace trimming, substring
//! search and separator splitting, all over character sequences.

use vstd::prelude::*;

verus! {

/// Relies on String's FromIterator over char: collecting characters yields a
/// string of exactly those characters, in order.
#[verifier::external_body]
pub fn chars_to_string(chars: &Vec<char>) -> (s: String)
    ensures
        s@ == chars@,
{
    chars.iter().copied().collect()
}

/// Relies on str::chars: iterating a string slice yields its characters in
/// order.
#[verifier::external_body]
pub fn str_chars(s: &str) -> (r: Vec<char>)
    ensures
        r@ == s@,
{
    s.chars().collect()
}

/// The decimal digit character for a value below ten.
pub open spec fn decimal_digit(d: nat) -> char {
    if d == 0 { '0' } else if d == 1 { '1' } else if d == 2 { '2' }
    else if d == 3 { '3' } else if d == 4 { '4' } else if d == 5 { '5' }
    else if d == 6 { '6' } else if d == 7 { '7' } else if d == 8 { '8' }
    else { '9' }
}

/// The decimal representation of a number, most significant digit first, no
/// leading zeros except for zero itself.
pub open spec fn decimal_seq(n: nat) -> Seq<char>
    decreases n,
{
    if n < 10 {
        seq![decimal_digit(n)]
    } else {
        decimal_seq(n / 10).push(decimal_digit(n % 10))
    }
}

/// Renders a number in decimal.
pub fn usize_to_string(n: usize) -> (s: String)
    ensures
        s@ == decimal_seq(n as nat),
    decreases n,
{
    let d: usize = n % 10;
    let ds: &str = if d == 0 { "0" } else if d == 1 { "1" } else if d == 2 { "2" }
    else if d == 3 { "3" } else if d == 4 { "4" } else if d == 5 { "5" }
    else if d == 6 { "6" } else if d == 7 { "7" } else if d == 8 { "8" }
    else { "9" };
    proof {
        reveal_strlit("0"); reveal_strlit("1"); reveal_strlit("2"); reveal_strlit("3");
        reveal_strlit("4"); reveal_strlit("5"); reveal_strlit("6"); reveal_strlit("7");
        reveal_strlit("8"); reveal_strlit("9");
        assert(ds@ =~= seq![decimal_digit((n % 10) as nat)]);
    }
    if n < 10 {
        ds.to_owned()
    } else {
        let mut s = usize_to_string(n / 10);
        s.append(ds);
        proof {
            assert(s@ =~= decimal_seq(n as nat));
        }
        s
    }
}

/// Renders a byte value in decimal.
pub fn u8_to_string(n: u8) -> (s: String)
    ensures
        s@ == decimal_seq(n as nat),
{
    usize_to_string(n as usize)
}

/// Whether a character is a decimal digit.
pub open spec fn is_dec_digit(c: char) -> bool {
    '0' <= c && c <= '9'
}

/// The value of a decimal digit character.
pub open spec fn digit_value(c: char) -> nat {
    (c as nat - '0' as nat) as nat
}

/// The value of a digit sequence read in decimal.
pub open spec fn decimal_value(s: Seq<char>) -> nat
    decreases s.len(),
{
    if s.len() == 0 {
        0
    } else {
        decimal_value(s.drop_last()) * 10 + digit_value(s.last())
    }
}

/// The byte value of a plain digit sequence: at least one digit, all
/// digits, worth at most 255.
pub open spec fn digits_as_u8(t: Seq<char>) -> Option<u8> {
    if t.len() > 0 && (forall|i: int| 0 <= i < t.len() ==> is_dec_digit(#[trigger] t[i]))
        && decimal_value(t) <= 255 {
        Some(decimal_value(t) as u8)
    } else {
        None
    }
}

/// Whether a sequence parses as an unsigned byte the way the standard
/// parser reads one: an optional leading plus sign, then at least one
/// decimal digit, with a value of at most 255.
pub open spec fn parses_as_u8(s: Seq<char>) -> Option<u8> {
    digits_as_u8(
        if s.len() > 0 && s[0] == '+' {
            s.skip(1)
        } else {
            s
        },
    )
}

/// Parses a byte value from a character range, or reports that the range
/// does not hold one.
pub fn parse_u8_range(v: &Vec<char>, from: usize, to: usize) -> (r: Option<u8>)
    requires
        from <= to <= v@.len(),
    ensures
        r == parses_as_u8(v@.subrange(from as int, to as int)),
{
    let ghost s = v@.subrange(from as int, to as int);
    let start: usize = if from < to && v[from] == '+' {
        from + 1
    } else {
        from
    };
    let ghost t = v@.subrange(start as int, to as int);
    proof {
        if s.len() > 0 && s[0] == '+' {
            assert(t =~= s.skip(1));
        } else {
            assert(t =~= s);
        }
    }
    if start == to {
        proof {
            assert(parses_as_u8(s) == digits_as_u8(t));
        }
        return None;
    }
    let mut acc: u32 = 0;
    let mut i: usize = start;
    let mut ok: bool = true;
    while i < to
        invariant
            from <= start <= i <= to <= v@.len(),
            s == v@.subrange(from as int, to as int),
            t == v@.subrange(start as int, to as int),
            t == (if s.len() > 0 && s[0] == '+' { s.skip(1) } else { s }),
            ok ==> (forall|j: int| start <= j < i ==> is_dec_digit(#[trigger] v@[j])),
            ok ==> acc == decimal_value(v@.subrange(start as int, i as int)),
            ok ==> acc <= 255,
            !ok ==> digits_as_u8(t) is None,
        decreases to - i,
    {
        let c = v[i];
        if ok {
            if '0' <= c && c <= '9' {
                let d: u32 = (c as u32) - ('0' as u32);
                let next: u32 = acc * 10 + d;
                proof {
                    let prefix = v@.subrange(start as int, (i + 1) as int);
                    assert(prefix.drop_last() =~= v@.subrange(start as int, i as int));
                    assert(prefix.last() == v@[i as int]);
                    assert(digit_value(prefix.last()) == d);
                    assert(decimal_value(prefix) == acc * 10 + d);
                }
                if next <= 255 {
                    acc = next;
                } else {
                    ok = false;
                    proof {
                        let prefix = v@.subrange(start as int, (i + 1) as int);
                        assert(prefix.last() == v@[i as int]);
                        assert(digit_value(prefix.last()) == d);
                        assert(decimal_value(prefix) == acc * 10 + d);
                        assert(prefix =~= t.subrange(0, i + 1 - start));
                        lemma_decimal_value_prefix_monotone(t, i + 1 - start);
                        assert(decimal_value(t) > 255);
                        assert(digits_as_u8(t) is None);
                    }
                }
            } else {
                ok = false;
                proof {
                    assert(t[i - start as int] == c);
                    assert(!is_dec_digit(t[i - start as int]));
                    assert(digits_as_u8(t) is None);
                }
            }
        }
        i = i + 1;
    }
    if ok {
        proof {
            assert(v@.subrange(start as int, to as int) == t);
            assert(forall|j: int| 0 <= j < t.len() ==> is_dec_digit(#[trigger] t[j]));
            assert(parses_as_u8(s) == digits_as_u8(t));
        }
        Some(acc as u8)
    } else {
        proof {
            assert(parses_as_u8(s) == digits_as_u8(t));
        }
        None
    }
}

/// A digit sequence is worth at least any of its prefixes: extending a
/// digit sequence on the right never lowers its decimal value.
proof fn lemma_decimal_value_prefix_monotone(t: Seq<char>, k: int)
    requires
        0 <= k <= t.len(),
    ensures
        decimal_value(t.subrange(0, k)) <= decimal_value(t),
    decreases t.len() - k,
{
    if k < t.len() {
        assert(t.subrange(0, k + 1).drop_last() =~= t.subrange(0, k));
        assert(decimal_value(t.subrange(0, k)) <= decimal_value(t.subrange(0, k + 1)));
        lemma_decimal_value_prefix_monotone(t, k + 1);
        assert(t.subrange(0, t.len() as int) =~= t);
    } else {
        assert(t.subrange(0, k) =~= t);
    }
}

/// Whether a character counts as trimmable whitespace here: space, tab,
/// newline or carriage return.
pub open spec fn is_space(c: char) -> bool {
    c == ' ' || c == '\t' || c == '\n' || c == '\r'
}

/// A sequence with its leading whitespace removed.
pub open spec fn trim_front(s: Seq<char>) -> Seq<char>
    decreases s.len(),
{
    if s.len() > 0 && is_space(s[0]) {
        trim_front(s.skip(1))
    } else {
        s
    }
}

/// A sequence with its trailing whitespace removed.
pub open spec fn trim_back(s: Seq<char>) -> Seq<char>
    decreases s.len(),
{
    if s.len() > 0 && is_space(s.last()) {
        trim_back(s.drop_last())
    } else {
        s
    }
}

/// A sequence with whitespace removed from both ends.
pub open spec fn trimmed(s: Seq<char>) -> Seq<char> {
    trim_back(trim_front(s))
}

/// Finds the trimmed bounds of a character range: the range with leading
/// and trailing whitespace left out.
pub fn trim_bounds(v: &Vec<char>, from: usize, to: usize) -> (r: (usize, usize))
    requires
        from <= to <= v@.len(),
    ensures
        from <= r.0 <= r.1 <= to,
        v@.subrange(r.0 as int, r.1 as int) == trimmed(v@.subrange(from as int, to as int)),
{
    let mut a: usize = from;
    while a < to && (v[a] == ' ' || v[a] == '\t' || v[a] == '\n' || v[a] == '\r')
        invariant
            from <= a <= to <= v@.len(),
            trim_front(v@.subrange(from as int, to as int))
                == trim_front(v@.subrange(a as int, to as int)),
        decreases to - a,
    {
        proof {
            assert(v@.subrange(a as int, to as int).skip(1)
                =~= v@.subrange(a + 1 as int, to as int));
        }
        a = a + 1;
    }
    proof {
        if a < to {
            assert(!is_space(v@.subrange(a as int, to as int)[0]));
        }
        assert(trim_front(v@.subrange(a as int, to as int)) == v@.subrange(a as int, to as int));
    }
    let mut b: usize = to;
    while b > a && (v[b - 1] == ' ' || v[b - 1] == '\t' || v[b - 1] == '\n' || v[b - 1] == '\r')
        invariant
            from <= a <= b <= to <= v@.len(),
            trim_front(v@.subrange(from as int, to as int)) == v@.subrange(a as int, to as int),
            trim_back(v@.subrange(a as int, to as int))
                == trim_back(v@.subrange(a as int, b as int)),
        decreases b,
    {
        proof {
            assert(v@.subrange(a as int, b as int).drop_last()
                =~= v@.subrange(a as int, b - 1 as int));
        }
        b = b - 1;
    }
    proof {
        if b > a {
            assert(v@.subrange(a as int, b as int).last() == v@[b - 1]);
        }
        assert(trim_back(v@.subrange(a as int, b as int)) == v@.subrange(a as int, b as int));
    }
    (a, b)
}

/// Whether a needle occurs in a haystack at a given position.
pub open spec fn matches_at(s: Seq<char>, needle: Seq<char>, i: int) -> bool {
    0 <= i && i + needle.len() <= s.len() && s.subrange(i, i + needle.len()) == needle
}

/// Finds the first occurrence of a needle, if any.
pub fn find_sub(v: &Vec<char>, needle: &Vec<char>) -> (r: Option<usize>)
    ensures
        match r {
            Some(i) => matches_at(v@, needle@, i as int) && (forall|j: int|
                0 <= j < i ==> !matches_at(v@, needle@, j)),
            None => forall|j: int| !matches_at(v@, needle@, j),
        },
{
    let n = v.len();
    let m = needle.len();
    if m == 0 {
        proof {
            assert(v@.subrange(0, 0) =~= needle@);
        }
        return Some(0);
    }
    if m > n {
        return None;
    }
    let mut i: usize = 0;
    while i <= n - m
        invariant
            1 <= m <= n == v@.len(),
            m == needle@.len(),
            i <= n - m + 1,
            forall|j: int| 0 <= j < i ==> !matches_at(v@, needle@, j),
        decreases n - i,
    {
        let mut k: usize = 0;
        let mut hit: bool = true;
        while k < m
            invariant
                m <= n == v@.len(),
                m == needle@.len(),
                i + m <= n,
                k <= m,
                hit ==> (forall|t: int| 0 <= t < k ==> v@[i + t] == needle@[t]),
                !hit ==> !matches_at(v@, needle@, i as int),
            decreases m - k,
        {
            if hit && v[i + k] != needle[k] {
                hit = false;
                proof {
                    assert(v@.subrange(i as int, i + m) [k as int] == v@[i + k]);
                }
            }
            k = k + 1;
        }
        if hit {
            proof {
                assert(v@.subrange(i as int, i + m) =~= needle@);
            }
            return Some(i);
        }
        i = i + 1;
    }
    proof {
        assert(forall|j: int| j > n - m ==> !matches_at(v@, needle@, j));
    }
    None
}

/// The position of the first separator in a sequence, or -1 if there is
/// none.
pub open spec fn index_of(s: Seq<char>, sep: char) -> int
    decreases s.len(),
{
    if s.len() == 0 {
        -1
    } else if s[0] == sep {
        0
    } else {
        let r = index_of(s.skip(1), sep);
        if r == -1 {
            -1
        } else {
            r + 1
        }
    }
}

/// The first separator position, where there is one, lies inside the
/// sequence.
pub proof fn lemma_index_of_bounds(s: Seq<char>, sep: char)
    ensures
        index_of(s, sep) == -1 || (0 <= index_of(s, sep) < s.len() && s[index_of(s, sep)] == sep),
    decreases s.len(),
{
    if s.len() > 0 && s[0] != sep {
        lemma_index_of_bounds(s.skip(1), sep);
    }
}

/// Splitting on a separator: the pieces between separators, in order,
/// including empty pieces; a sequence without the separator is one piece.
pub open spec fn split_char(s: Seq<char>, sep: char) -> Seq<Seq<char>>
    decreases s.len(),
    via split_char_decreases
{
    let i = index_of(s, sep);
    if i == -1 {
        seq![s]
    } else {
        seq![s.subrange(0, i)] + split_char(s.skip(i + 1), sep)
    }
}

#[via_fn]
proof fn split_char_decreases(s: Seq<char>, sep: char) {
    lemma_index_of_bounds(s, sep);
}

/// The recursive separator position agrees with a directly scanned one.
proof fn lemma_index_of_scan(s: Seq<char>, sep: char, i: int)
    requires
        0 <= i <= s.len(),
        forall|j: int| 0 <= j < i ==> s[j] != sep,
        i < s.len() ==> s[i] == sep,
    ensures
        i < s.len() ==> index_of(s, sep) == i,
        i == s.len() ==> index_of(s, sep) == -1,
    decreases s.len(),
{
    if s.len() > 0 {
        if s[0] == sep {
        } else {
            lemma_index_of_scan(s.skip(1), sep, i - 1);
        }
    }
}

/// Copies a character range into a fresh vector.
pub fn copy_range(v: &Vec<char>, from: usize, to: usize) -> (r: Vec<char>)
    requires
        from <= to <= v@.len(),
    ensures
        r@ == v@.subrange(from as int, to as int),
{
    let mut r: Vec<char> = Vec::new();
    let mut i: usize = from;
    while i < to
        invariant
            from <= i <= to <= v@.len(),
            r@ == v@.subrange(from as int, i as int),
        decreases to - i,
    {
        r.push(v[i]);
        proof {
            assert(v@.subrange(from as int, i + 1 as int)
                =~= v@.subrange(from as int, i as int).push(v@[i as int]));
        }
        i = i + 1;
    }
    r
}

/// Splits the tail of a vector on a separator.
pub fn split_from(v: &Vec<char>, from: usize, sep: char) -> (r: Vec<Vec<char>>)
    requires
        from <= v@.len(),
    ensures
        r.deep_view() == split_char(v@.skip(from as int), sep),
    decreases v@.len() - from,
{
    let ghost s = v@.skip(from as int);
    let n = v.len();
    let mut i: usize = from;
    while i < n && v[i] != sep
        invariant
            from <= i <= n == v@.len(),
            forall|j: int| from <= j < i ==> v@[j] != sep,
        decreases n - i,
    {
        i = i + 1;
    }
    proof {
        assert(forall|j: int| 0 <= j < i - from ==> s[j] == v@[from + j] && v@[from + j] != sep);
        if i < n {
            assert(s[i - from as int] == v@[i as int]);
        }
        lemma_index_of_scan(s, sep, i - from as int);
    }
    if i < n {
        let piece = copy_range(v, from, i);
        let ghost pv = piece@;
        let mut rest = split_from(v, i + 1, sep);
        let ghost restold = rest@;
        let ghost restview = rest.deep_view();
        let mut r: Vec<Vec<char>> = Vec::new();
        r.push(piece);
        r.append(&mut rest);
        proof {
            assert forall|k: int| 0 <= k < r@.len() implies #[trigger] r.deep_view()[k]
                == (seq![v@.subrange(from as int, i as int)] + restview)[k] by {
                if k == 0 {
                    assert(r@[0]@ == pv);
                    assert(r@[0].deep_view() =~= pv);
                } else {
                    assert(r@[k] == restold[k - 1]);
                    assert(restview[k - 1] == restold[k - 1].deep_view());
                }
            }
            assert(r.deep_view() =~= seq![v@.subrange(from as int, i as int)] + restview);
            assert(s.subrange(0, i - from as int) =~= v@.subrange(from as int, i as int));
            assert(s.skip(i - from + 1) =~= v@.skip(i + 1 as int));
            assert(r.deep_view() =~= split_char(s, sep));
        }
        r
    } else {
        let piece = copy_range(v, from, n);
        let ghost pv = piece@;
        let mut r: Vec<Vec<char>> = Vec::new();
        r.push(piece);
        proof {
            assert(s =~= v@.subrange(from as int, n as int));
            assert(r.deep_view()[0] == pv);
            assert(r.deep_view() =~= seq![s]);
        }
        r
    }
}

} // verus!
