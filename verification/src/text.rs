//! Text helpers over the character sequences that strings view as.
use vstd::prelude::*;

verus! {

/// The characters that carry the Unicode `White_Space` property, which is
/// what `char::is_whitespace` and `str::trim` go by.
pub open spec fn is_unicode_whitespace(c: char) -> bool {
    ||| ('\u{9}' <= c && c <= '\u{d}')
    ||| c == ' '
    ||| c == '\u{85}'
    ||| c == '\u{a0}'
    ||| c == '\u{1680}'
    ||| ('\u{2000}' <= c && c <= '\u{200a}')
    ||| c == '\u{2028}'
    ||| c == '\u{2029}'
    ||| c == '\u{202f}'
    ||| c == '\u{205f}'
    ||| c == '\u{3000}'
}

/// `s` without its leading whitespace.
pub open spec fn trim_start_spec(s: Seq<char>) -> Seq<char>
    decreases s.len(),
{
    if s.len() > 0 && is_unicode_whitespace(s[0]) {
        trim_start_spec(s.drop_first())
    } else {
        s
    }
}

/// `s` without its trailing whitespace.
pub open spec fn trim_end_spec(s: Seq<char>) -> Seq<char>
    decreases s.len(),
{
    if s.len() > 0 && is_unicode_whitespace(s.last()) {
        trim_end_spec(s.drop_last())
    } else {
        s
    }
}

/// `s` without leading and trailing whitespace, as `str::trim` gives it.
pub open spec fn trim_spec(s: Seq<char>) -> Seq<char> {
    trim_end_spec(trim_start_spec(s))
}

/// Whether `needle` occurs in `hay` as a contiguous run.
pub open spec fn contains_seq(hay: Seq<char>, needle: Seq<char>) -> bool {
    exists|i: int| 0 <= i <= hay.len() - needle.len() && #[trigger] hay.subrange(i, i + needle.len()) == needle
}

/// The code point of `c` after ASCII lower-casing; other characters are kept.
pub open spec fn ascii_lower(c: char) -> u32 {
    if 'A' <= c && c <= 'Z' {
        (c as u32 + 32) as u32
    } else {
        c as u32
    }
}

/// Equality up to ASCII case, as `str::eq_ignore_ascii_case` compares.
pub open spec fn eq_ignore_ascii_case_spec(a: Seq<char>, b: Seq<char>) -> bool {
    a.len() == b.len() && forall|i: int| 0 <= i < a.len() ==> ascii_lower(#[trigger] a[i]) == ascii_lower(b[i])
}

/// The decimal digit for `d` (which is below ten).
pub open spec fn digit_char(d: nat) -> char {
    if d == 0 { '0' } else if d == 1 { '1' } else if d == 2 { '2' } else if d == 3 { '3' }
    else if d == 4 { '4' } else if d == 5 { '5' } else if d == 6 { '6' } else if d == 7 { '7' }
    else if d == 8 { '8' } else { '9' }
}

/// The decimal digits of `n`, most significant first, without leading zeros.
pub open spec fn nat_digits(n: nat) -> Seq<char>
    decreases n,
{
    if n < 10 {
        seq![digit_char(n)]
    } else {
        nat_digits(n / 10).push(digit_char(n % 10))
    }
}

/// The decimal text of a signed integer, as `Display` writes it.
pub open spec fn int_decimal(n: int) -> Seq<char> {
    if n < 0 {
        seq!['-'] + nat_digits((-n) as nat)
    } else {
        nat_digits(n as nat)
    }
}

/// The characters of `s`, one by one.
pub fn chars_of(s: &str) -> (v: Vec<char>)
    ensures
        v@ == s@,
{
    let mut v: Vec<char> = Vec::new();
    for c in it: s.chars()
        invariant
            it.seq() == s@,
            v@ == it.seq().take(it.index() as int),
    {
        v.push(c);
    }
    v
}

/// `String::push`: appends one character.
#[verifier::external_body]
pub(crate) fn push_char(s: &mut String, c: char)
    ensures
        final(s)@ == old(s)@.push(c),
{
    s.push(c);
}

/// A string holding the characters of `v`.
pub fn string_from_chars(v: &[char]) -> (s: String)
    ensures
        s@ == v@,
{
    let mut s = String::new();
    let mut i: usize = 0;
    while i < v.len()
        invariant
            i <= v.len(),
            s@ == v@.take(i as int),
        decreases v.len() - i,
    {
        push_char(&mut s, v[i]);
        assert(v@.take(i as int + 1) == v@.take(i as int).push(v@[i as int]));
        i = i + 1;
    }
    assert(v@.take(v.len() as int) == v@);
    s
}

/// Appends the characters of `t` to `s`.
pub fn push_str(s: &mut String, t: &str)
    ensures
        final(s)@ == old(s)@ + t@,
{
    let ghost first = s@;
    for c in it: t.chars()
        invariant
            it.seq() == t@,
            s@ == first + it.seq().take(it.index() as int),
    {
        push_char(s, c);
        assert(first + it.seq().take(it.index() as int + 1) == (first + it.seq().take(it.index() as int)).push(c));
    }
    assert(t@.take(t@.len() as int) == t@);
}

/// A new string: `a` followed by `b`.
pub fn concat(a: &str, b: &str) -> (s: String)
    ensures
        s@ == a@ + b@,
{
    let mut s = String::new();
    for c in it: a.chars()
        invariant
            it.seq() == a@,
            s@ == it.seq().take(it.index() as int),
    {
        push_char(&mut s, c);
    }
    let ghost first = s@;
    for c in it: b.chars()
        invariant
            it.seq() == b@,
            first == a@,
            s@ == first + it.seq().take(it.index() as int),
    {
        push_char(&mut s, c);
        assert(first + it.seq().take(it.index() as int + 1) == (first + it.seq().take(it.index() as int)).push(c));
    }
    s
}

/// Whether the two strings hold the same characters.
pub fn str_eq(a: &str, b: &str) -> (r: bool)
    ensures
        r == (a@ == b@),
{
    let x = chars_of(a);
    let y = chars_of(b);
    if x.len() != y.len() {
        return false;
    }
    let mut i: usize = 0;
    while i < x.len()
        invariant
            x@ == a@,
            y@ == b@,
            x.len() == y.len(),
            i <= x.len(),
            forall|j: int| 0 <= j < i ==> x@[j] == y@[j],
        decreases x.len() - i,
    {
        if x[i] != y[i] {
            return false;
        }
        i = i + 1;
    }
    assert(x@ =~= y@);
    true
}

/// Whether the two strings are equal up to ASCII case.
pub fn eq_ignore_ascii_case(a: &str, b: &str) -> (r: bool)
    ensures
        r == eq_ignore_ascii_case_spec(a@, b@),
{
    let x = chars_of(a);
    let y = chars_of(b);
    if x.len() != y.len() {
        return false;
    }
    let mut i: usize = 0;
    while i < x.len()
        invariant
            x@ == a@,
            y@ == b@,
            x.len() == y.len(),
            i <= x.len(),
            forall|j: int| 0 <= j < i ==> ascii_lower(#[trigger] x@[j]) == ascii_lower(y@[j]),
        decreases x.len() - i,
    {
        let cx = x[i];
        let cy = y[i];
        let lx: u32 = if 'A' <= cx && cx <= 'Z' { cx as u32 + 32 } else { cx as u32 };
        let ly: u32 = if 'A' <= cy && cy <= 'Z' { cy as u32 + 32 } else { cy as u32 };
        if lx != ly {
            return false;
        }
        i = i + 1;
    }
    true
}

proof fn lemma_trim_start_suffix(s: Seq<char>)
    ensures
        exists|k: int| 0 <= k <= s.len() && trim_start_spec(s) == #[trigger] s.subrange(k, s.len() as int)
            && (forall|j: int| 0 <= j < k ==> is_unicode_whitespace(#[trigger] s[j]))
            && (k < s.len() ==> !is_unicode_whitespace(s[k])),
    decreases s.len(),
{
    if s.len() > 0 && is_unicode_whitespace(s[0]) {
        lemma_trim_start_suffix(s.drop_first());
        let t = s.drop_first();
        let k = choose|k: int| 0 <= k <= t.len() && trim_start_spec(t) == #[trigger] t.subrange(k, t.len() as int)
            && (forall|j: int| 0 <= j < k ==> is_unicode_whitespace(#[trigger] t[j]))
            && (k < t.len() ==> !is_unicode_whitespace(t[k]));
        assert(t.subrange(k, t.len() as int) == s.subrange(k + 1, s.len() as int));
        assert forall|j: int| 0 <= j < k + 1 implies is_unicode_whitespace(#[trigger] s[j]) by {
            if j > 0 {
                assert(s[j] == t[j - 1]);
            }
        }
    } else {
        assert(s.subrange(0, s.len() as int) == s);
    }
}

proof fn lemma_trim_end_prefix(s: Seq<char>)
    ensures
        exists|k: int| 0 <= k <= s.len() && trim_end_spec(s) == #[trigger] s.subrange(0, k)
            && (forall|j: int| k <= j < s.len() ==> is_unicode_whitespace(#[trigger] s[j]))
            && (k > 0 ==> !is_unicode_whitespace(s[k - 1])),
    decreases s.len(),
{
    if s.len() > 0 && is_unicode_whitespace(s.last()) {
        lemma_trim_end_prefix(s.drop_last());
        let t = s.drop_last();
        let k = choose|k: int| 0 <= k <= t.len() && trim_end_spec(t) == #[trigger] t.subrange(0, k)
            && (forall|j: int| k <= j < t.len() ==> is_unicode_whitespace(#[trigger] t[j]))
            && (k > 0 ==> !is_unicode_whitespace(t[k - 1]));
        assert(t.subrange(0, k) == s.subrange(0, k));
        assert forall|j: int| k <= j < s.len() implies is_unicode_whitespace(#[trigger] s[j]) by {
            if j < s.len() - 1 {
                assert(s[j] == t[j]);
            }
        }
    } else {
        assert(s.subrange(0, s.len() as int) == s);
    }
}

/// Whether `c` has the Unicode `White_Space` property.
pub fn is_whitespace(c: char) -> (r: bool)
    ensures
        r == is_unicode_whitespace(c),
{
    ('\u{9}' <= c && c <= '\u{d}') || c == ' ' || c == '\u{85}' || c == '\u{a0}' || c == '\u{1680}'
        || ('\u{2000}' <= c && c <= '\u{200a}') || c == '\u{2028}' || c == '\u{2029}'
        || c == '\u{202f}' || c == '\u{205f}' || c == '\u{3000}'
}

/// `s` with leading and trailing whitespace removed.
pub fn trim(s: &str) -> (r: String)
    ensures
        r@ == trim_spec(s@),
{
    let v = chars_of(s);
    let n = v.len();
    let mut lo: usize = 0;
    while lo < n && is_whitespace(v[lo])
        invariant
            v@ == s@,
            n == v.len(),
            lo <= n,
            forall|j: int| 0 <= j < lo ==> is_unicode_whitespace(#[trigger] v@[j]),
        decreases n - lo,
    {
        lo = lo + 1;
    }
    let mut hi: usize = n;
    while hi > lo && is_whitespace(v[hi - 1])
        invariant
            v@ == s@,
            n == v.len(),
            lo <= hi <= n,
            forall|j: int| hi <= j < n ==> is_unicode_whitespace(#[trigger] v@[j]),
        decreases hi - lo,
    {
        hi = hi - 1;
    }
    let mut out = String::new();
    let mut i: usize = lo;
    while i < hi
        invariant
            v@ == s@,
            lo <= i <= hi <= n,
            n == v.len(),
            out@ == v@.subrange(lo as int, i as int),
        decreases hi - i,
    {
        push_char(&mut out, v[i]);
        assert(v@.subrange(lo as int, i as int + 1) == v@.subrange(lo as int, i as int).push(v@[i as int]));
        i = i + 1;
    }
    proof {
        let sv = s@;
        lemma_trim_start_suffix(sv);
        let k = choose|k: int| 0 <= k <= sv.len() && trim_start_spec(sv) == #[trigger] sv.subrange(k, sv.len() as int)
            && (forall|j: int| 0 <= j < k ==> is_unicode_whitespace(#[trigger] sv[j]))
            && (k < sv.len() ==> !is_unicode_whitespace(sv[k]));
        if k < lo {
            assert(is_unicode_whitespace(sv[k]));
        }
        if lo < k {
            assert(is_unicode_whitespace(sv[lo as int]));
        }
        assert(k == lo);
        let t = sv.subrange(lo as int, n as int);
        lemma_trim_end_prefix(t);
        let m = choose|m: int| 0 <= m <= t.len() && trim_end_spec(t) == #[trigger] t.subrange(0, m)
            && (forall|j: int| m <= j < t.len() ==> is_unicode_whitespace(#[trigger] t[j]))
            && (m > 0 ==> !is_unicode_whitespace(t[m - 1]));
        let h = hi - lo;
        if m < h {
            assert(t[h - 1] == sv[hi - 1]);
            assert(is_unicode_whitespace(t[h - 1]));
        }
        if h < m {
            assert(t[h] == sv[hi as int]);
            assert(is_unicode_whitespace(t[h]));
        }
        assert(m == h);
        assert(t.subrange(0, m) == sv.subrange(lo as int, hi as int));
    }
    out
}

/// Whether `needle` occurs in `hay`.
pub fn contains_str(hay: &str, needle: &str) -> (r: bool)
    ensures
        r == contains_seq(hay@, needle@),
{
    let h = chars_of(hay);
    let n = chars_of(needle);
    if n.len() > h.len() {
        proof {
            assert forall|i: int| !(0 <= i <= hay@.len() - needle@.len() && #[trigger] hay@.subrange(i, i + needle@.len()) == needle@) by {}
        }
        return false;
    }
    let mut i: usize = 0;
    while i <= h.len() - n.len()
        invariant
            h@ == hay@,
            n@ == needle@,
            n.len() <= h.len(),
            i <= h.len() - n.len() + 1,
            forall|p: int| 0 <= p < i ==> #[trigger] h@.subrange(p, p + n@.len()) != n@,
        decreases h.len() - n.len() + 1 - i,
    {
        let mut j: usize = 0;
        let mut same = true;
        while j < n.len()
            invariant
                h@ == hay@,
                n@ == needle@,
                n.len() <= h.len(),
                i <= h.len() - n.len(),
                j <= n.len(),
                same == (forall|q: int| 0 <= q < j ==> h@[i + q] == n@[q]),
            decreases n.len() - j,
        {
            if h[i + j] != n[j] {
                same = false;
            }
            j = j + 1;
        }
        if same {
            assert(h@.subrange(i as int, i + n@.len()) =~= n@);
            return true;
        }
        assert(h@.subrange(i as int, i + n@.len())[(choose|q: int| 0 <= q < n.len() && h@[i + q] != n@[q])] != n@[(choose|q: int| 0 <= q < n.len() && h@[i + q] != n@[q])]);
        i = i + 1;
    }
    false
}

fn digit(d: u64) -> (c: char)
    requires
        d < 10,
    ensures
        c == digit_char(d as nat),
{
    if d == 0 { '0' } else if d == 1 { '1' } else if d == 2 { '2' } else if d == 3 { '3' }
    else if d == 4 { '4' } else if d == 5 { '5' } else if d == 6 { '6' } else if d == 7 { '7' }
    else if d == 8 { '8' } else { '9' }
}

fn push_digits(out: &mut String, m: u64)
    ensures
        final(out)@ == old(out)@ + nat_digits(m as nat),
    decreases m,
{
    if m >= 10 {
        push_digits(out, m / 10);
    }
    push_char(out, digit(m % 10));
    proof {
        if m >= 10 {
            assert(nat_digits(m as nat) == nat_digits((m / 10) as nat).push(digit_char((m % 10) as nat)));
        }
    }
}

/// The decimal text of `n`.
pub fn i64_to_decimal(n: i64) -> (s: String)
    ensures
        s@ == int_decimal(n as int),
{
    let mut out = String::new();
    if n < 0 {
        push_char(&mut out, '-');
        let m: u64 = (0i128 - n as i128) as u64;
        push_digits(&mut out, m);
    } else {
        push_digits(&mut out, n as u64);
    }
    out
}

/// The first index at or after `from` where `s` holds `c`, or the length.
pub open spec fn find_from(s: Seq<char>, c: char, from: int) -> int
    decreases s.len() - from,
{
    if from >= s.len() {
        s.len() as int
    } else if s[from] == c {
        from
    } else {
        find_from(s, c, from + 1)
    }
}

pub proof fn lemma_find_from(s: Seq<char>, c: char, from: int)
    requires
        0 <= from <= s.len(),
    ensures
        from <= find_from(s, c, from) <= s.len(),
        find_from(s, c, from) < s.len() ==> s[find_from(s, c, from)] == c,
        forall|k: int| from <= k < find_from(s, c, from) ==> s[k] != c,
    decreases s.len() - from,
{
    if from < s.len() && s[from] != c {
        lemma_find_from(s, c, from + 1);
    }
}

pub fn find_char_from(s: &Vec<char>, c: char, from: usize) -> (r: usize)
    requires
        from <= s.len(),
    ensures
        r == find_from(s@, c, from as int),
    decreases s.len() - from,
{
    if from >= s.len() {
        s.len()
    } else if s[from] == c {
        from
    } else {
        find_char_from(s, c, from + 1)
    }
}

/// The pieces of `s[start..]` between the separators `c` (`str::split`).
pub open spec fn split_from(s: Seq<char>, c: char, start: int) -> Seq<Seq<char>>
    decreases s.len() - start,
{
    if start < 0 || start > s.len() {
        Seq::empty()
    } else {
        let end = find_from(s, c, start);
        proof {
            lemma_find_from(s, c, start);
        }
        if end >= s.len() {
            seq![s.subrange(start, end)]
        } else {
            seq![s.subrange(start, end)] + split_from(s, c, end + 1)
        }
    }
}

/// The pieces of `s` between commas, each trimmed.
pub open spec fn trimmed_pieces(s: Seq<char>) -> Seq<Seq<char>> {
    split_from(s, ',', 0).map_values(|p: Seq<char>| trim_spec(p))
}

fn trimmed_pieces_from(s: &Vec<char>, start: usize) -> (r: Vec<String>)
    requires
        start <= s.len(),
    ensures
        r@.map_values(|x: String| x@) == split_from(s@, ',', start as int).map_values(|p: Seq<char>| trim_spec(p)),
    decreases s.len() - start,
{
    proof {
        lemma_find_from(s@, ',', start as int);
    }
    let end = find_char_from(s, ',', start);
    let mut piece: Vec<char> = Vec::new();
    let mut i = start;
    while i < end
        invariant
            start <= i <= end <= s.len(),
            piece@ == s@.subrange(start as int, i as int),
        decreases end - i,
    {
        piece.push(s[i]);
        assert(s@.subrange(start as int, i as int + 1) == s@.subrange(start as int, i as int).push(s@[i as int]));
        i = i + 1;
    }
    let text = string_from_chars(piece.as_slice());
    let first = trim(text.as_str());
    let mut r: Vec<String> = Vec::new();
    r.push(first);
    if end >= s.len() {
        assert(r@.map_values(|x: String| x@) =~= split_from(s@, ',', start as int).map_values(|p: Seq<char>| trim_spec(p)));
        r
    } else {
        let rest = trimmed_pieces_from(s, end + 1);
        let ghost rv = rest@;
        let mut out = r;
        let mut k: usize = 0;
        while k < rest.len()
            invariant
                k <= rest.len(),
                rest@ == rv,
                out@.len() == 1 + k,
                out@[0]@ == trim_spec(s@.subrange(start as int, end as int)),
                forall|j: int| 0 <= j < k ==> #[trigger] out@[1 + j] == rv[j],
            decreases rest.len() - k,
        {
            out.push(rest[k].clone());
            k = k + 1;
        }
        proof {
            let a = out@.map_values(|x: String| x@);
            let b = split_from(s@, ',', start as int).map_values(|p: Seq<char>| trim_spec(p));
            let tail = split_from(s@, ',', end as int + 1);
            assert(split_from(s@, ',', start as int) == seq![s@.subrange(start as int, end as int)] + tail);
            assert(rv.map_values(|x: String| x@).len() == tail.map_values(|p: Seq<char>| trim_spec(p)).len());
            assert(rv.len() == tail.len());
            assert(out@.len() == 1 + rv.len());
            assert(a.len() == b.len());
            assert forall|j: int| 0 <= j < a.len() implies a[j] == b[j] by {
                if j > 0 {
                    assert(out@[1 + (j - 1)] == rv[j - 1]);
                    assert(rv.map_values(|x: String| x@)[j - 1] == tail.map_values(|p: Seq<char>| trim_spec(p))[j - 1]);
                }
            }
            assert(a =~= b);
        }
        out
    }
}

/// The pieces of a comma-separated list, each trimmed (as the allowed
/// origins are read).
pub fn split_trimmed(s: &str) -> (r: Vec<String>)
    ensures
        r@.map_values(|x: String| x@) == trimmed_pieces(s@),
{
    let v = chars_of(s);
    trimmed_pieces_from(&v, 0)
}

} // verus!
