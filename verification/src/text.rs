//! Character-level text handling shared by the tweaks: Unicode whitespace,
//! trimming, splitting on a separator, decimal numbers and `a:b` pairs.

use vstd::prelude::*;

verus! {

/// The Unicode `White_Space` property, the set that `char::is_whitespace`
/// and `str::trim` use.
pub open spec fn is_ws(c: char) -> bool {
    let u = c as u32;
    ||| 0x09 <= u <= 0x0d
    ||| u == 0x20
    ||| u == 0x85
    ||| u == 0xa0
    ||| u == 0x1680
    ||| 0x2000 <= u <= 0x200a
    ||| u == 0x2028
    ||| u == 0x2029
    ||| u == 0x202f
    ||| u == 0x205f
    ||| u == 0x3000
}

/// Whether `c` is Unicode whitespace.
pub fn is_whitespace(c: char) -> (r: bool)
    ensures
        r == is_ws(c),
{
    let u = c as u32;
    (0x09 <= u && u <= 0x0d) || u == 0x20 || u == 0x85 || u == 0xa0 || u == 0x1680 || (0x2000
        <= u && u <= 0x200a) || u == 0x2028 || u == 0x2029 || u == 0x202f || u == 0x205f || u
        == 0x3000
}

/// `s` without its leading whitespace.
pub open spec fn trim_start(s: Seq<char>) -> Seq<char>
    decreases s.len(),
{
    if s.len() > 0 && is_ws(s[0]) {
        trim_start(s.drop_first())
    } else {
        s
    }
}

/// `s` without its trailing whitespace.
pub open spec fn trim_end(s: Seq<char>) -> Seq<char>
    decreases s.len(),
{
    if s.len() > 0 && is_ws(s.last()) {
        trim_end(s.drop_last())
    } else {
        s
    }
}

/// `s` without leading and trailing whitespace, as `str::trim` gives it.
pub open spec fn trim(s: Seq<char>) -> Seq<char> {
    trim_end(trim_start(s))
}

/// The characters of `s`, in order.
pub fn chars_of(s: &str) -> (r: Vec<char>)
    ensures
        r@ == s@,
{
    let mut v: Vec<char> = Vec::new();
    for c in it: s.chars()
        invariant
            v@ == it.seq().take(it.index() as int),
            it.seq() == s@,
    {
        v.push(c);
    }
    v
}

/// The characters `a..b` of `s`, as an owned string.
pub fn string_of_range(s: &str, a: usize, b: usize) -> (r: String)
    requires
        a <= b <= s@.len(),
    ensures
        r@ == s@.subrange(a as int, b as int),
{
    let sub = s.substring_char(a, b);
    sub.to_owned()
}

/// The bounds, inside `lo..hi`, of `cs[lo..hi]` with its surrounding
/// whitespace removed.
pub fn trim_range(cs: &Vec<char>, lo: usize, hi: usize) -> (r: (usize, usize))
    requires
        lo <= hi <= cs@.len(),
    ensures
        lo <= r.0 <= r.1 <= hi,
        cs@.subrange(r.0 as int, r.1 as int) == trim(cs@.subrange(lo as int, hi as int)),
{
    let mut a = lo;
    while a < hi && is_whitespace(cs[a])
        invariant
            lo <= a <= hi <= cs@.len(),
            trim_start(cs@.subrange(lo as int, hi as int)) == trim_start(
                cs@.subrange(a as int, hi as int),
            ),
        decreases hi - a,
    {
        assert(cs@.subrange(a as int, hi as int).drop_first() =~= cs@.subrange(
            a + 1,
            hi as int,
        ));
        a = a + 1;
    }
    let ghost t = cs@.subrange(a as int, hi as int);
    assert(trim_start(t) == t);
    let mut b = hi;
    while b > a && is_whitespace(cs[b - 1])
        invariant
            lo <= a <= b <= hi <= cs@.len(),
            t == cs@.subrange(a as int, hi as int),
            trim_end(t) == trim_end(cs@.subrange(a as int, b as int)),
        decreases b - a,
    {
        assert(cs@.subrange(a as int, b as int).drop_last() =~= cs@.subrange(
            a as int,
            b - 1,
        ));
        b = b - 1;
    }
    (a, b)
}

/// `s` with leading and trailing whitespace removed.
pub fn trim_str(s: &str) -> (r: String)
    ensures
        r@ == trim(s@),
{
    let cs = chars_of(s);
    let (a, b) = trim_range(&cs, 0, cs.len());
    assert(cs@.subrange(0, cs@.len() as int) =~= cs@);
    string_of_range(s, a, b)
}


/// What separates the pieces of a split: one given character, or any
/// whitespace character.
#[derive(Clone, Copy)]
pub enum Separator {
    Char(char),
    Whitespace,
}

/// Whether `c` separates pieces under `sep`.
pub open spec fn is_sep(sep: Separator, c: char) -> bool {
    match sep {
        Separator::Char(x) => c == x,
        Separator::Whitespace => is_ws(c),
    }
}

/// The pieces of `s` between separators, empty pieces included, as
/// `str::split` gives them: a string with `n` separators has `n + 1` pieces.
pub open spec fn split(s: Seq<char>, sep: Separator) -> Seq<Seq<char>>
    decreases s.len(),
{
    if s.len() == 0 {
        seq![Seq::<char>::empty()]
    } else {
        let p = split(s.drop_last(), sep);
        if is_sep(sep, s.last()) {
            p.push(Seq::<char>::empty())
        } else {
            p.update(p.len() - 1, p.last().push(s.last()))
        }
    }
}

/// A split always has at least one piece.
pub proof fn lemma_split_nonempty(s: Seq<char>, sep: Separator)
    ensures
        split(s, sep).len() >= 1,
    decreases s.len(),
{
    if s.len() > 0 {
        lemma_split_nonempty(s.drop_last(), sep);
    }
}

/// Appending text without separators only extends the last piece.
pub proof fn lemma_split_append_plain(x: Seq<char>, y: Seq<char>, sep: Separator)
    requires
        forall|i: int| 0 <= i < y.len() ==> !is_sep(sep, #[trigger] y[i]),
    ensures
        split(x + y, sep) == split(x, sep).update(
            split(x, sep).len() - 1,
            split(x, sep).last() + y,
        ),
    decreases y.len(),
{
    lemma_split_nonempty(x, sep);
    if y.len() == 0 {
        assert(x + y =~= x);
        assert(split(x, sep).last() + y =~= split(x, sep).last());
        assert(split(x, sep).update(split(x, sep).len() - 1, split(x, sep).last() + y) =~= split(
            x,
            sep,
        ));
    } else {
        let yd = y.drop_last();
        lemma_split_append_plain(x, yd, sep);
        assert((x + y).drop_last() =~= x + yd);
        assert((x + y).last() == y.last());
        assert(!is_sep(sep, y[y.len() - 1]));
        assert(split(x, sep).last() + yd + seq![y.last()] =~= split(x, sep).last() + y);
        assert((split(x, sep).last() + yd).push(y.last()) =~= split(x, sep).last() + y);
    }
}

/// Text without separators is a single piece.
pub proof fn lemma_split_plain(y: Seq<char>, sep: Separator)
    requires
        forall|i: int| 0 <= i < y.len() ==> !is_sep(sep, #[trigger] y[i]),
    ensures
        split(y, sep) == seq![y],
{
    let e = Seq::<char>::empty();
    lemma_split_append_plain(e, y, sep);
    assert(e + y =~= y);
    assert(split(e, sep) == seq![e]);
    assert(seq![e].update(0, e + y) =~= seq![y]);
}

/// The bounds of the pieces of `cs[lo..hi]` split at `sep`, in order.
pub fn split_ranges(cs: &Vec<char>, lo: usize, hi: usize, sep: Separator) -> (r: Vec<
    (usize, usize),
>)
    requires
        lo <= hi <= cs@.len(),
    ensures
        r@.len() == split(cs@.subrange(lo as int, hi as int), sep).len(),
        forall|k: int|
            0 <= k < r@.len() ==> lo <= (#[trigger] r@[k]).0 <= r@[k].1 <= hi && cs@.subrange(
                r@[k].0 as int,
                r@[k].1 as int,
            ) == split(cs@.subrange(lo as int, hi as int), sep)[k],
{
    let mut r: Vec<(usize, usize)> = Vec::new();
    r.push((lo, lo));
    assert(cs@.subrange(lo as int, lo as int) =~= Seq::<char>::empty());
    let mut i = lo;
    while i < hi
        invariant
            lo <= i <= hi <= cs@.len(),
            r@.len() >= 1,
            r@[r@.len() - 1].1 == i,
            r@.len() == split(cs@.subrange(lo as int, i as int), sep).len(),
            forall|k: int|
                0 <= k < r@.len() ==> lo <= (#[trigger] r@[k]).0 <= r@[k].1 <= i
                    && cs@.subrange(r@[k].0 as int, r@[k].1 as int) == split(
                    cs@.subrange(lo as int, i as int),
                    sep,
                )[k],
        decreases hi - i,
    {
        let ghost prev = split(cs@.subrange(lo as int, i as int), sep);
        let ghost cur = cs@.subrange(lo as int, i + 1);
        assert(cur.drop_last() =~= cs@.subrange(lo as int, i as int));
        assert(cur.last() == cs@[i as int]);
        let c = cs[i];
        let is_s = match sep {
            Separator::Char(x) => c == x,
            Separator::Whitespace => is_whitespace(c),
        };
        if is_s {
            r.push((i + 1, i + 1));
            assert(cs@.subrange(i + 1, i + 1) =~= Seq::<char>::empty());
            assert(split(cur, sep) == prev.push(Seq::<char>::empty()));
        } else {
            let last = r.len() - 1;
            let a = r[last].0;
            r.set(last, (a, i + 1));
            assert(cs@.subrange(a as int, i + 1) =~= cs@.subrange(a as int, i as int).push(
                cs@[i as int],
            ));
            assert(split(cur, sep) == prev.update(prev.len() - 1, prev.last().push(cur.last())));
        }
        i = i + 1;
    }
    r
}

/// Whether `cs[a..b]` equals `other`.
pub fn range_equals(cs: &Vec<char>, a: usize, b: usize, other: &Vec<char>) -> (r: bool)
    requires
        a <= b <= cs@.len(),
    ensures
        r == (cs@.subrange(a as int, b as int) == other@),
{
    if b - a != other.len() {
        return false;
    }
    let mut i: usize = 0;
    while i < other.len()
        invariant
            a <= b <= cs@.len(),
            b - a == other@.len(),
            i <= other@.len(),
            forall|j: int| 0 <= j < i ==> cs@[a + j] == other@[j],
        decreases other@.len() - i,
    {
        if cs[a + i] != other[i] {
            assert(cs@.subrange(a as int, b as int)[i as int] != other@[i as int]);
            return false;
        }
        i = i + 1;
    }
    assert(cs@.subrange(a as int, b as int) =~= other@);
    true
}

/// Whether `cs[a..b]` begins with `prefix`.
pub fn range_starts_with(cs: &Vec<char>, a: usize, b: usize, prefix: &Vec<char>) -> (r: bool)
    requires
        a <= b <= cs@.len(),
    ensures
        r == prefix@.is_prefix_of(cs@.subrange(a as int, b as int)),
{
    if b - a < prefix.len() {
        return false;
    }
    let e = a + prefix.len();
    let r = range_equals(cs, a, e, prefix);
    assert(cs@.subrange(a as int, b as int).subrange(0, prefix@.len() as int) =~= cs@.subrange(
        a as int,
        e as int,
    ));
    r
}

/// Whether two strings hold the same characters.
pub fn str_eq(a: &str, b: &str) -> (r: bool)
    ensures
        r == (a@ == b@),
{
    let ca = chars_of(a);
    let cb = chars_of(b);
    let r = range_equals(&ca, 0, ca.len(), &cb);
    assert(ca@.subrange(0, ca@.len() as int) =~= ca@);
    r
}


/// Whether `c` is an ASCII decimal digit.
pub open spec fn is_digit(c: char) -> bool {
    48 <= (c as u32) <= 57
}

/// The value of an ASCII decimal digit.
pub open spec fn digit_value(c: char) -> int {
    (c as u32) - 48
}

/// The ASCII digit for `d`, which is below ten.
pub open spec fn digit_char(d: nat) -> char {
    if d == 0 {
        '0'
    } else if d == 1 {
        '1'
    } else if d == 2 {
        '2'
    } else if d == 3 {
        '3'
    } else if d == 4 {
        '4'
    } else if d == 5 {
        '5'
    } else if d == 6 {
        '6'
    } else if d == 7 {
        '7'
    } else if d == 8 {
        '8'
    } else {
        '9'
    }
}

/// The number that the decimal digits `s` spell, most significant first.
pub open spec fn digits_value(s: Seq<char>) -> int
    decreases s.len(),
{
    if s.len() == 0 {
        0
    } else {
        digits_value(s.drop_last()) * 10 + digit_value(s.last())
    }
}

/// Whether every character of `s` is a decimal digit.
pub open spec fn all_digits(s: Seq<char>) -> bool {
    forall|i: int| 0 <= i < s.len() ==> is_digit(#[trigger] s[i])
}

/// The decimal form of `n`, without leading zeros, as `to_string` writes it.
pub open spec fn decimal(n: nat) -> Seq<char>
    decreases n,
{
    if n < 10 {
        seq![digit_char(n)]
    } else {
        decimal(n / 10).push(digit_char(n % 10))
    }
}

/// What `u32::from_str` gives for `s`: an optional `+`, then one or more
/// ASCII digits whose value fits in a `u32`.
pub open spec fn parse_u32_spec(s: Seq<char>) -> Option<u32> {
    let d = if s.len() > 0 && s[0] == '+' {
        s.drop_first()
    } else {
        s
    };
    if d.len() > 0 && all_digits(d) && digits_value(d) <= u32::MAX {
        Some(digits_value(d) as u32)
    } else {
        None
    }
}

proof fn lemma_digit_char(d: nat)
    requires
        d < 10,
    ensures
        is_digit(digit_char(d)),
        digit_value(digit_char(d)) == d,
        digit_char(d) != '+',
        digit_char(d) != ':',
{
}

/// A decimal form is all digits and spells back its number.
pub proof fn lemma_decimal(n: nat)
    ensures
        decimal(n).len() > 0,
        all_digits(decimal(n)),
        digits_value(decimal(n)) == n,
    decreases n,
{
    if n < 10 {
        lemma_digit_char(n);
        assert(decimal(n).drop_last() =~= Seq::<char>::empty());
        assert(decimal(n).last() == digit_char(n));
        assert(digits_value(Seq::<char>::empty()) == 0);
        assert(digits_value(decimal(n)) == digits_value(decimal(n).drop_last()) * 10
            + digit_value(decimal(n).last()));
    } else {
        lemma_decimal(n / 10);
        lemma_digit_char(n % 10);
        assert(decimal(n).drop_last() =~= decimal(n / 10));
        assert(decimal(n).last() == digit_char(n % 10));
        assert(digits_value(decimal(n)) == digits_value(decimal(n).drop_last()) * 10
            + digit_value(decimal(n).last()));
        assert((n / 10) * 10 + n % 10 == n) by (nonlinear_arith);
        let d = decimal(n);
        assert forall|i: int| 0 <= i < d.len() implies is_digit(#[trigger] d[i]) by {
            if i < d.len() - 1 {
                assert(d[i] == decimal(n / 10)[i]);
            }
        }
    }
}

/// Parsing the decimal form of a number gives the number back.
pub proof fn lemma_parse_decimal(n: u32)
    ensures
        parse_u32_spec(decimal(n as nat)) == Some(n),
{
    lemma_decimal(n as nat);
    let d = decimal(n as nat);
    assert(is_digit(d[0]));
}

/// A decimal form holds no colon.
pub proof fn lemma_decimal_no_colon(n: nat)
    ensures
        forall|i: int| 0 <= i < decimal(n).len() ==> #[trigger] decimal(n)[i] != ':',
{
    lemma_decimal(n);
    assert forall|i: int| 0 <= i < decimal(n).len() implies #[trigger] decimal(n)[i] != ':' by {
        assert(is_digit(decimal(n)[i]));
    }
}

fn push_digit(out: &mut String, d: u64)
    requires
        d < 10,
    ensures
        final(out)@ == old(out)@.push(digit_char(d as nat)),
{
    proof {
        reveal_strlit("0");
        reveal_strlit("1");
        reveal_strlit("2");
        reveal_strlit("3");
        reveal_strlit("4");
        reveal_strlit("5");
        reveal_strlit("6");
        reveal_strlit("7");
        reveal_strlit("8");
        reveal_strlit("9");
    }
    if d == 0 {
        out.append("0");
    } else if d == 1 {
        out.append("1");
    } else if d == 2 {
        out.append("2");
    } else if d == 3 {
        out.append("3");
    } else if d == 4 {
        out.append("4");
    } else if d == 5 {
        out.append("5");
    } else if d == 6 {
        out.append("6");
    } else if d == 7 {
        out.append("7");
    } else if d == 8 {
        out.append("8");
    } else {
        out.append("9");
    }
    assert(out@ =~= old(out)@.push(digit_char(d as nat)));
}

fn push_decimal(n: u64, out: &mut String)
    ensures
        final(out)@ == old(out)@ + decimal(n as nat),
    decreases n,
{
    if n >= 10 {
        push_decimal(n / 10, out);
    }
    push_digit(out, n % 10);
    proof {
        if n < 10 {
            assert(decimal(n as nat) =~= seq![digit_char(n as nat)]);
        }
        assert(old(out)@ + decimal(n as nat) =~= out@);
    }
}

/// The decimal form of `n`.
pub fn decimal_string(n: u64) -> (r: String)
    ensures
        r@ == decimal(n as nat),
{
    let mut out = String::new();
    push_decimal(n, &mut out);
    assert(out@ =~= decimal(n as nat));
    out
}

proof fn lemma_digits_value_grows(s: Seq<char>, j: int)
    requires
        all_digits(s),
        0 <= j <= s.len(),
    ensures
        digits_value(s.take(j)) <= digits_value(s),
        digits_value(s) >= 0,
    decreases s.len(),
{
    if s.len() > 0 {
        let t = s.drop_last();
        assert(all_digits(t)) by {
            assert forall|i: int| 0 <= i < t.len() implies is_digit(#[trigger] t[i]) by {
                assert(t[i] == s[i]);
            }
        }
        assert(is_digit(s[s.len() - 1]));
        if j < s.len() {
            assert(s.take(j) =~= t.take(j));
            lemma_digits_value_grows(t, j);
        } else {
            assert(s.take(j) =~= s);
            lemma_digits_value_grows(t, 0);
        }
    } else {
        assert(s.take(j) =~= s);
    }
}

/// `s` read as a `u32` the way `u32::from_str` reads it.
pub fn parse_u32(s: &str) -> (r: Option<u32>)
    ensures
        r == parse_u32_spec(s@),
{
    let cs = chars_of(s);
    let n = cs.len();
    let start: usize = if n > 0 && cs[0] == '+' {
        1
    } else {
        0
    };
    let ghost d = if cs@.len() > 0 && cs@[0] == '+' {
        cs@.drop_first()
    } else {
        cs@
    };
    assert(d =~= cs@.subrange(start as int, n as int));
    if start == n {
        return None;
    }
    let mut acc: u64 = 0;
    let mut j = start;
    assert(cs@.subrange(start as int, start as int) =~= Seq::<char>::empty());
    while j < n
        invariant
            start <= j <= n == cs@.len(),
            start < n,
            cs@ == s@,
            d == (if s@.len() > 0 && s@[0] == '+' {
                s@.drop_first()
            } else {
                s@
            }),
            d == cs@.subrange(start as int, n as int),
            acc == digits_value(cs@.subrange(start as int, j as int)),
            acc <= u32::MAX,
            all_digits(cs@.subrange(start as int, j as int)),
        decreases n - j,
    {
        let c = cs[j];
        let u = c as u32;
        let ghost pre = cs@.subrange(start as int, j as int);
        let ghost cur = cs@.subrange(start as int, j + 1);
        assert(cur.drop_last() =~= pre);
        assert(cur.last() == c);
        if u < 48 || u > 57 {
            assert(d[j - start] == c);
            assert(!is_digit(d[j - start]));
            assert(!all_digits(d));
            return None;
        }
        acc = acc * 10 + (u - 48) as u64;
        assert(all_digits(cur)) by {
            assert forall|i: int| 0 <= i < cur.len() implies is_digit(#[trigger] cur[i]) by {
                if i < cur.len() - 1 {
                    assert(cur[i] == pre[i]);
                }
            }
        }
        if acc > 4294967295 {
            proof {
                if all_digits(d) {
                    assert(d.take(j + 1 - start) =~= cur);
                    lemma_digits_value_grows(d, j + 1 - start);
                }
            }
            return None;
        }
        j = j + 1;
    }
    Some(acc as u32)
}

/// The two pieces of `s` around its colon, when it holds exactly one:
/// `split(':')` giving two parts.
pub open spec fn colon_pair_spec(s: Seq<char>) -> Option<(Seq<char>, Seq<char>)> {
    let parts = split(s, Separator::Char(':'));
    if parts.len() == 2 {
        Some((parts[0], parts[1]))
    } else {
        None
    }
}

/// The two pieces of `s` around its colon, when `s` splits at `:` into
/// exactly two parts.
pub fn colon_pair(s: &str) -> (r: Option<(String, String)>)
    ensures
        match r {
            Some((a, b)) => colon_pair_spec(s@) == Some((a@, b@)),
            None => colon_pair_spec(s@) is None,
        },
{
    let cs = chars_of(s);
    let ranges = split_ranges(&cs, 0, cs.len(), Separator::Char(':'));
    assert(cs@.subrange(0, cs@.len() as int) =~= cs@);
    if ranges.len() == 2 {
        let (a0, b0) = ranges[0];
        let (a1, b1) = ranges[1];
        let first = string_of_range(s, a0, b0);
        let second = string_of_range(s, a1, b1);
        Some((first, second))
    } else {
        None
    }
}

/// `a`, a colon, then `b`.
pub fn join_pair(a: &str, b: &str) -> (r: String)
    ensures
        r@ == a@ + seq![':'] + b@,
{
    let mut r = a.to_owned();
    r.append(":");
    proof {
        reveal_strlit(":");
    }
    r.append(b);
    r
}

/// Splitting `a:b` at its colon gives `a` and `b` back when neither holds a
/// colon.
pub proof fn lemma_colon_pair_roundtrip(a: Seq<char>, b: Seq<char>)
    requires
        forall|i: int| 0 <= i < a.len() ==> #[trigger] a[i] != ':',
        forall|i: int| 0 <= i < b.len() ==> #[trigger] b[i] != ':',
    ensures
        colon_pair_spec(a + seq![':'] + b) == Some((a, b)),
{
    lemma_split_two(a, b, ':');
}

/// Text that holds one separator splits into the two pieces around it.
pub proof fn lemma_split_two(a: Seq<char>, b: Seq<char>, c: char)
    requires
        forall|i: int| 0 <= i < a.len() ==> #[trigger] a[i] != c,
        forall|i: int| 0 <= i < b.len() ==> #[trigger] b[i] != c,
    ensures
        split(a + seq![c] + b, Separator::Char(c)) == seq![a, b],
{
    lemma_split_join(seq![a, b], c);
    assert(join_with(seq![a, b], c) == join_with(seq![a], c) + seq![c] + b) by {
        assert(seq![a, b].drop_last() =~= seq![a]);
    }
}

/// The pieces `ps` with the character `c` between each two of them, as
/// `join` writes them.
pub open spec fn join_with(ps: Seq<Seq<char>>, c: char) -> Seq<char>
    decreases ps.len(),
{
    if ps.len() == 0 {
        Seq::empty()
    } else if ps.len() == 1 {
        ps[0]
    } else {
        join_with(ps.drop_last(), c) + seq![c] + ps.last()
    }
}

/// Splitting pieces joined with a separator that none of them holds gives
/// the pieces back.
pub proof fn lemma_split_join(ps: Seq<Seq<char>>, c: char)
    requires
        ps.len() >= 1,
        forall|k: int, i: int| 0 <= k < ps.len() && 0 <= i < ps[k].len() ==> #[trigger] ps[k][i] != c,
    ensures
        split(join_with(ps, c), Separator::Char(c)) == ps,
    decreases ps.len(),
{
    let sep = Separator::Char(c);
    if ps.len() == 1 {
        let p = ps[0];
        assert forall|i: int| 0 <= i < p.len() implies !is_sep(sep, #[trigger] p[i]) by {
            assert(ps[0][i] != c);
        }
        lemma_split_plain(p, sep);
        assert(seq![p] =~= ps);
    } else {
        let d = ps.drop_last();
        assert forall|k: int, i: int| 0 <= k < d.len() && 0 <= i < d[k].len() implies #[trigger] d[k][i] != c by {
            assert(d[k] == ps[k]);
        }
        lemma_split_join(d, c);
        let x = join_with(d, c) + seq![c];
        assert(x.drop_last() =~= join_with(d, c));
        assert(split(x, sep) == d.push(Seq::<char>::empty()));
        let y = ps.last();
        assert forall|i: int| 0 <= i < y.len() implies !is_sep(sep, #[trigger] y[i]) by {
            assert(ps[ps.len() - 1][i] != c);
        }
        lemma_split_append_plain(x, y, sep);
        assert(Seq::<char>::empty() + y =~= y);
        assert(split(x + y, sep) =~= ps);
    }
}

} // verus!
