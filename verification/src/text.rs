//! Character-level helpers on strings, with their specifications.
use vstd::prelude::*;
use vstd::string::StrSliceExecFns;

verus! {

/// Appends one character to a string (`String::push`).
/// Trusted: `String::push` appends `c` at the end of the string.
#[verifier::external_body]
fn push_char(s: &mut String, c: char)
    ensures
        final(s)@ == old(s)@.push(c),
{
    s.push(c);
}

/// The characters of `s`, in order.
pub fn chars_of(s: &str) -> (v: Vec<char>)
    ensures
        v@ == s@,
{
    let n = s.unicode_len();
    let mut v: Vec<char> = Vec::new();
    let mut i: usize = 0;
    while i < n
        invariant
            n == s@.len(),
            i <= n,
            v@ == s@.take(i as int),
        decreases n - i,
    {
        let c = s.get_char(i);
        v.push(c);
        i = i + 1;
        assert(v@ =~= s@.take(i as int));
    }
    assert(v@ =~= s@);
    v
}

/// Whitespace as `char::is_whitespace` defines it: the characters with the
/// Unicode `White_Space` property.
pub open spec fn is_whitespace(c: char) -> bool {
    let u = c as int;
    ||| 0x9 <= u <= 0xD
    ||| u == 0x20
    ||| u == 0x85
    ||| u == 0xA0
    ||| u == 0x1680
    ||| 0x2000 <= u <= 0x200A
    ||| u == 0x2028
    ||| u == 0x2029
    ||| u == 0x202F
    ||| u == 0x205F
    ||| u == 0x3000
}

/// `s` without its leading whitespace.
pub open spec fn trim_start(s: Seq<char>) -> Seq<char>
    decreases s.len(),
{
    if s.len() > 0 && is_whitespace(s[0]) {
        trim_start(s.drop_first())
    } else {
        s
    }
}

/// `s` without its trailing whitespace.
pub open spec fn trim_end(s: Seq<char>) -> Seq<char>
    decreases s.len(),
{
    if s.len() > 0 && is_whitespace(s.last()) {
        trim_end(s.drop_last())
    } else {
        s
    }
}

/// `s` without leading and trailing whitespace (what `str::trim` gives).
pub open spec fn trimmed(s: Seq<char>) -> Seq<char> {
    trim_end(trim_start(s))
}

/// A character's code point is the same read as `u32` or as an integer.
proof fn lemma_char_code(c: char)
    ensures
        (c as u32) as int == c as int,
{
}

/// Whether `c` is whitespace.
pub fn char_is_whitespace(c: char) -> (b: bool)
    ensures
        b == is_whitespace(c),
{
    let u = c as u32;
    proof {
        lemma_char_code(c);
    }
    (0x9 <= u && u <= 0xD) || u == 0x20 || u == 0x85 || u == 0xA0 || u == 0x1680 || (0x2000 <= u
        && u <= 0x200A) || u == 0x2028 || u == 0x2029 || u == 0x202F || u == 0x205F || u == 0x3000
}

/// `s` with leading and trailing whitespace removed.
pub fn trim(s: &str) -> (t: String)
    ensures
        t@ == trimmed(s@),
{
    let v = chars_of(s);
    let n = v.len();
    let mut i: usize = 0;
    assert(s@.skip(0) =~= s@);
    while i < n && char_is_whitespace(v[i])
        invariant
            n == v@.len(),
            v@ == s@,
            i <= n,
            trim_start(s@) == trim_start(s@.skip(i as int)),
        decreases n - i,
    {
        assert(s@.skip(i as int).drop_first() =~= s@.skip(i + 1));
        i = i + 1;
    }
    assert(trim_start(s@) == s@.subrange(i as int, n as int)) by {
        assert(s@.skip(i as int) =~= s@.subrange(i as int, n as int));
    }
    let mut j: usize = n;
    while j > i && char_is_whitespace(v[j - 1])
        invariant
            n == v@.len(),
            v@ == s@,
            i <= j <= n,
            trimmed(s@) == trim_end(s@.subrange(i as int, j as int)),
        decreases j - i,
    {
        assert(s@.subrange(i as int, j as int).drop_last() =~= s@.subrange(i as int, j - 1));
        j = j - 1;
    }
    let mut t = String::new();
    let mut k: usize = i;
    while k < j
        invariant
            n == v@.len(),
            v@ == s@,
            i <= k <= j <= n,
            t@ == s@.subrange(i as int, k as int),
        decreases j - k,
    {
        push_char(&mut t, v[k]);
        k = k + 1;
        assert(t@ =~= s@.subrange(i as int, k as int));
    }
    t
}

/// Whether `s` begins with `prefix`.
pub fn starts_with(s: &str, prefix: &str) -> (b: bool)
    ensures
        b == prefix@.is_prefix_of(s@),
{
    let sv = chars_of(s);
    let pv = chars_of(prefix);
    if pv.len() > sv.len() {
        return false;
    }
    let mut i: usize = 0;
    while i < pv.len()
        invariant
            sv@ == s@,
            pv@ == prefix@,
            pv.len() <= sv.len(),
            i <= pv.len(),
            forall|k: int| 0 <= k < i ==> sv@[k] == pv@[k],
        decreases pv.len() - i,
    {
        if sv[i] != pv[i] {
            return false;
        }
        i = i + 1;
    }
    assert(s@.take(prefix@.len() as int) =~= prefix@);
    true
}

/// Whether `needle` occurs in `hay` starting at position `i`.
pub open spec fn occurs_at(hay: Seq<char>, needle: Seq<char>, i: int) -> bool {
    &&& 0 <= i
    &&& i + needle.len() <= hay.len()
    &&& hay.subrange(i, i + needle.len()) == needle
}

/// Whether `needle` occurs anywhere in `hay`.
pub open spec fn has_substring(hay: Seq<char>, needle: Seq<char>) -> bool {
    exists|i: int| occurs_at(hay, needle, i)
}

fn occurs_at_exec(hv: &Vec<char>, nv: &Vec<char>, i: usize) -> (b: bool)
    requires
        i + nv@.len() <= hv@.len(),
    ensures
        b == occurs_at(hv@, nv@, i as int),
{
    let mut k: usize = 0;
    while k < nv.len()
        invariant
            i + nv@.len() <= hv@.len(),
            k <= nv.len(),
            forall|m: int| 0 <= m < k ==> hv@[i + m] == nv@[m],
        decreases nv.len() - k,
    {
        assert(i + k < hv.len());
        if hv[i + k] != nv[k] {
            assert(hv@.subrange(i as int, i + nv@.len())[k as int] != nv@[k as int]);
            return false;
        }
        k = k + 1;
    }
    assert(hv@.subrange(i as int, i + nv@.len()) =~= nv@);
    true
}

/// Whether `needle` occurs in `hay` (`str::contains` with a `&str` pattern).
pub fn contains(hay: &str, needle: &str) -> (b: bool)
    ensures
        b == has_substring(hay@, needle@),
{
    let hv = chars_of(hay);
    let nv = chars_of(needle);
    if nv.len() > hv.len() {
        return false;
    }
    let last = hv.len() - nv.len();
    let mut i: usize = 0;
    loop
        invariant
            hv@ == hay@,
            nv@ == needle@,
            last == hv@.len() - nv@.len(),
            i <= last,
            forall|m: int| 0 <= m < i ==> !occurs_at(hay@, needle@, m),
        decreases last - i,
    {
        if occurs_at_exec(&hv, &nv, i) {
            return true;
        }
        if i == last {
            return false;
        }
        i = i + 1;
    }
}


/// Whether `c` is an ASCII decimal digit.
pub open spec fn is_digit(c: char) -> bool {
    48 <= (c as int) <= 57
}

/// Whether every character of `s` is an ASCII decimal digit.
pub open spec fn all_digits(s: Seq<char>) -> bool {
    forall|i: int| 0 <= i < s.len() ==> is_digit(#[trigger] s[i])
}

/// The value of a string of decimal digits.
pub open spec fn digits_value(s: Seq<char>) -> int
    decreases s.len(),
{
    if s.len() == 0 {
        0
    } else {
        digits_value(s.drop_last()) * 10 + ((s.last() as int) - 48)
    }
}

/// What `i64::from_str` accepts: an optional `+` or `-`, then one or more
/// ASCII digits whose value, with the sign, lies in the range of `i64`.
pub open spec fn decimal_i64(s: Seq<char>) -> Option<i64> {
    let negative = s.len() > 0 && s[0] == '-';
    let body = if s.len() > 0 && (s[0] == '-' || s[0] == '+') {
        s.drop_first()
    } else {
        s
    };
    let v = if negative {
        -digits_value(body)
    } else {
        digits_value(body)
    };
    if body.len() == 0 || !all_digits(body) || v < i64::MIN || v > i64::MAX {
        None
    } else {
        Some(v as i64)
    }
}

proof fn lemma_digits_value_nonneg(s: Seq<char>)
    requires
        all_digits(s),
    ensures
        digits_value(s) >= 0,
    decreases s.len(),
{
    if s.len() > 0 {
        assert(all_digits(s.drop_last())) by {
            assert forall|i: int| 0 <= i < s.drop_last().len() implies is_digit(
                #[trigger] s.drop_last()[i],
            ) by {
                assert(s.drop_last()[i] == s[i]);
            }
        }
        lemma_digits_value_nonneg(s.drop_last());
        assert(is_digit(s[s.len() - 1]));
    }
}

/// The value of a digit string is at least the value of any of its prefixes.
proof fn lemma_digits_value_prefix(s: Seq<char>, k: int)
    requires
        all_digits(s),
        0 <= k <= s.len(),
    ensures
        digits_value(s.take(k)) <= digits_value(s),
    decreases s.len(),
{
    if k < s.len() {
        let d = s.drop_last();
        assert(all_digits(d)) by {
            assert forall|i: int| 0 <= i < d.len() implies is_digit(#[trigger] d[i]) by {
                assert(d[i] == s[i]);
            }
        }
        lemma_digits_value_prefix(d, k);
        assert(d.take(k) =~= s.take(k));
        lemma_digits_value_nonneg(d);
        assert(is_digit(s[s.len() - 1]));
    } else {
        assert(s.take(k) =~= s);
    }
}

/// Parses a decimal `i64` as `i64::from_str` does.
pub fn parse_i64(s: &str) -> (r: Option<i64>)
    ensures
        r == decimal_i64(s@),
{
    let v = chars_of(s);
    let n = v.len();
    let negative = n > 0 && v[0] == '-';
    let start: usize = if n > 0 && (v[0] == '-' || v[0] == '+') {
        1
    } else {
        0
    };
    let ghost body = if s@.len() > 0 && (s@[0] == '-' || s@[0] == '+') {
        s@.drop_first()
    } else {
        s@
    };
    assert(body =~= s@.skip(start as int));
    if start == n {
        return None;
    }
    let limit: u64 = 0x8000_0000_0000_0000;
    let mut mag: u64 = 0;
    let mut i: usize = start;
    while i < n
        invariant
            v@ == s@,
            n == v@.len(),
            start <= i <= n,
            body == s@.skip(start as int),
            body == (if s@.len() > 0 && (s@[0] == '-' || s@[0] == '+') {
                s@.drop_first()
            } else {
                s@
            }),
            negative == (s@.len() > 0 && s@[0] == '-'),
            limit == 0x8000_0000_0000_0000u64,
            all_digits(s@.subrange(start as int, i as int)),
            mag as int == digits_value(s@.subrange(start as int, i as int)),
            mag <= limit,
        decreases n - i,
    {
        let c = v[i];
        let u = c as u32;
        proof {
            lemma_char_code(c);
        }
        let ghost pre = s@.subrange(start as int, i as int);
        let ghost next = s@.subrange(start as int, i + 1);
        assert(next.drop_last() =~= pre);
        assert(next.take(i - start) =~= pre);
        assert(body.take(i - start) =~= pre);
        assert(body[i - start] == c);
        if u < 48 || u > 57 {
            assert(!all_digits(body));
            return None;
        }
        let d = (u - 48) as u64;
        if mag > (limit - d) / 10 {
            assert(mag * 10 + d > limit) by (nonlinear_arith)
                requires
                    mag > (limit - d) / 10,
                    d <= 9,
                    limit == 0x8000_0000_0000_0000u64,
            ;
            proof {
                if all_digits(body) {
                    assert(next.take(i + 1 - start) =~= next);
                    assert(body.take(i + 1 - start) =~= next);
                    lemma_digits_value_prefix(body, i + 1 - start);
                }
            }
            return None;
        }
        assert(mag * 10 + d <= limit) by (nonlinear_arith)
            requires
                mag <= (limit - d) / 10,
                d <= 9,
                limit == 0x8000_0000_0000_0000u64,
        ;
        mag = mag * 10 + d;
        assert(all_digits(next)) by {
            assert forall|k: int| 0 <= k < next.len() implies is_digit(#[trigger] next[k]) by {
                if k < next.len() - 1 {
                    assert(next[k] == pre[k]);
                }
            }
        }
        i = i + 1;
    }
    assert(s@.subrange(start as int, n as int) =~= body);
    if negative {
        if mag == limit {
            Some(i64::MIN)
        } else {
            Some(-(mag as i64))
        }
    } else {
        if mag == limit {
            None
        } else {
            Some(mag as i64)
        }
    }
}


/// Lexicographic order on character sequences, comparing characters by code
/// point; a proper prefix comes first. For valid UTF-8 this is the byte order
/// that `str` and `OsStr` comparisons use.
pub open spec fn lex_lt(a: Seq<char>, b: Seq<char>) -> bool
    decreases a.len(),
{
    if a.len() == 0 {
        b.len() > 0
    } else if b.len() == 0 {
        false
    } else if (a[0] as int) < (b[0] as int) {
        true
    } else if a[0] == b[0] {
        lex_lt(a.drop_first(), b.drop_first())
    } else {
        false
    }
}

/// `a` comes before `b` or equals it.
pub open spec fn lex_le(a: Seq<char>, b: Seq<char>) -> bool {
    lex_lt(a, b) || a == b
}

/// The strings of `s` are in ascending lexicographic order.
pub open spec fn sorted_strings(s: Seq<String>) -> bool {
    forall|i: int, j: int| 0 <= i < j < s.len() ==> lex_le(#[trigger] s[i]@, #[trigger] s[j]@)
}

/// Lexicographic order is irreflexive.
pub proof fn lemma_lex_irreflexive(a: Seq<char>)
    ensures
        !lex_lt(a, a),
    decreases a.len(),
{
    if a.len() > 0 {
        lemma_lex_irreflexive(a.drop_first());
    }
}

/// Lexicographic order is transitive.
pub proof fn lemma_lex_transitive(a: Seq<char>, b: Seq<char>, c: Seq<char>)
    requires
        lex_lt(a, b),
        lex_lt(b, c),
    ensures
        lex_lt(a, c),
    decreases a.len(),
{
    if a.len() > 0 && b.len() > 0 && c.len() > 0 && a[0] == b[0] && b[0] == c[0] {
        lemma_lex_transitive(a.drop_first(), b.drop_first(), c.drop_first());
    }
}

/// Any two distinct sequences are ordered one way or the other.
pub proof fn lemma_lex_total(a: Seq<char>, b: Seq<char>)
    ensures
        lex_lt(a, b) || lex_lt(b, a) || a == b,
    decreases a.len(),
{
    if a.len() > 0 && b.len() > 0 && a[0] == b[0] {
        lemma_lex_total(a.drop_first(), b.drop_first());
        if a.drop_first() == b.drop_first() {
            assert(a =~= seq![a[0]] + a.drop_first());
            assert(b =~= seq![b[0]] + b.drop_first());
        }
    } else if a.len() == 0 && b.len() == 0 {
        assert(a =~= b);
    } else if a.len() > 0 && b.len() > 0 {
        assert((a[0] as int) != (b[0] as int));
    }
}

/// Whether `a` comes strictly before `b` in lexicographic order.
pub fn str_less(a: &str, b: &str) -> (r: bool)
    ensures
        r == lex_lt(a@, b@),
{
    let av = chars_of(a);
    let bv = chars_of(b);
    let mut i: usize = 0;
    assert(a@.skip(0) =~= a@);
    assert(b@.skip(0) =~= b@);
    loop
        invariant
            av@ == a@,
            bv@ == b@,
            i <= av.len(),
            i <= bv.len(),
            lex_lt(a@, b@) == lex_lt(a@.skip(i as int), b@.skip(i as int)),
        decreases av.len() - i,
    {
        if i == av.len() {
            return i < bv.len();
        }
        if i == bv.len() {
            return false;
        }
        let x = av[i];
        let y = bv[i];
        assert(a@.skip(i as int)[0] == x);
        assert(b@.skip(i as int)[0] == y);
        if x < y {
            return true;
        }
        if x != y {
            return false;
        }
        assert(a@.skip(i as int).drop_first() =~= a@.skip(i + 1));
        assert(b@.skip(i as int).drop_first() =~= b@.skip(i + 1));
        i = i + 1;
    }
}

proof fn lemma_insert_to_multiset<A>(s: Seq<A>, p: int, x: A)
    requires
        0 <= p <= s.len(),
    ensures
        s.insert(p, x).to_multiset() =~= s.to_multiset().insert(x),
{
    broadcast use vstd::seq_lib::group_to_multiset_ensures;

    let l = s.subrange(0, p);
    let r = s.subrange(p, s.len() as int);
    assert(s =~= l + r);
    vstd::seq_lib::lemma_multiset_commutative(l, r);
    vstd::seq_lib::lemma_multiset_commutative(l.push(x), r);
}

/// Inserts `x` into the sorted vector `v` so that it stays sorted.
pub fn insert_sorted(v: &mut Vec<String>, x: String)
    requires
        sorted_strings(old(v)@),
    ensures
        sorted_strings(final(v)@),
        final(v)@.to_multiset() =~= old(v)@.to_multiset().insert(x),
{
    let mut p: usize = 0;
    while p < v.len() && !str_less(x.as_str(), v[p].as_str())
        invariant
            p <= v@.len(),
            sorted_strings(v@),
            forall|k: int| 0 <= k < p ==> !lex_lt(x@, #[trigger] v@[k]@),
        decreases v.len() - p,
    {
        p = p + 1;
    }
    let ghost before = v@;
    proof {
        lemma_insert_to_multiset(before, p as int, x);
        before.insert_ensures(p as int, x);
    }
    v.insert(p, x);
    assert(v@ == before.insert(p as int, x));
    assert forall|i: int, j: int| 0 <= i < j < v@.len() implies lex_le(
        #[trigger] v@[i]@,
        #[trigger] v@[j]@,
    ) by {
        if i < p && j < p {
            assert(v@[i] == before[i] && v@[j] == before[j]);
        } else if i > p && j > p {
            assert(v@[i] == before[i - 1] && v@[j] == before[j - 1]);
        } else if i < p && j == p {
            assert(v@[i] == before[i]);
            lemma_lex_total(x@, before[i]@);
        } else if i < p && j > p {
            assert(v@[i] == before[i] && v@[j] == before[j - 1]);
        } else {
            // i == p < j: x precedes before[p], which precedes before[j - 1]
            assert(v@[j] == before[j - 1]);
            assert(lex_lt(x@, before[p as int]@));
            if j - 1 > p {
                assert(lex_le(before[p as int]@, before[j - 1]@));
                if lex_lt(before[p as int]@, before[j - 1]@) {
                    lemma_lex_transitive(x@, before[p as int]@, before[j - 1]@);
                }
            }
        }
    }
}


/// The lowercase hexadecimal digit for `n` (`0 <= n < 16`).
pub open spec fn hex_digit(n: int) -> char {
    if n < 10 {
        (48 + n) as char
    } else {
        (87 + n) as char
    }
}

/// Lowercase hexadecimal encoding: two digits per byte, high nibble first.
pub open spec fn hex_lower(data: Seq<u8>) -> Seq<char>
    decreases data.len(),
{
    if data.len() == 0 {
        Seq::empty()
    } else {
        hex_lower(data.drop_last()) + seq![
            hex_digit(data.last() as int / 16),
            hex_digit(data.last() as int % 16),
        ]
    }
}

/// The hex encoding has two characters per byte.
pub proof fn lemma_hex_lower_len(data: Seq<u8>)
    ensures
        hex_lower(data).len() == 2 * data.len(),
    decreases data.len(),
{
    if data.len() > 0 {
        lemma_hex_lower_len(data.drop_last());
    }
}

/// Whether `c` is a lowercase hexadecimal digit.
pub open spec fn is_lower_hex_digit(c: char) -> bool {
    (48 <= (c as int) <= 57) || (97 <= (c as int) <= 102)
}

/// The hex encoding holds nothing but lowercase hexadecimal digits.
pub proof fn lemma_hex_lower_digits(data: Seq<u8>)
    ensures
        forall|i: int|
            0 <= i < hex_lower(data).len() ==> is_lower_hex_digit(#[trigger] hex_lower(data)[i]),
    decreases data.len(),
{
    if data.len() > 0 {
        lemma_hex_lower_digits(data.drop_last());
        lemma_hex_lower_len(data.drop_last());
        let prev = hex_lower(data.drop_last());
        let hi = data.last() as int / 16;
        let lo = data.last() as int % 16;
        assert(is_lower_hex_digit(hex_digit(hi)));
        assert(is_lower_hex_digit(hex_digit(lo)));
        assert forall|i: int|
            0 <= i < hex_lower(data).len() implies is_lower_hex_digit(
            #[trigger] hex_lower(data)[i],
        ) by {
            if i < prev.len() {
                assert(hex_lower(data)[i] == prev[i]);
            }
        }
    }
}

/// Byte `i` is encoded at positions `2i` (high nibble) and `2i + 1` (low).
pub proof fn lemma_hex_lower_index(data: Seq<u8>, i: int)
    requires
        0 <= i < data.len(),
    ensures
        hex_lower(data)[2 * i] == hex_digit(data[i] as int / 16),
        hex_lower(data)[2 * i + 1] == hex_digit(data[i] as int % 16),
    decreases data.len(),
{
    lemma_hex_lower_len(data.drop_last());
    if i < data.len() - 1 {
        lemma_hex_lower_index(data.drop_last(), i);
    }
}

fn hex_digit_char(n: u8) -> (c: char)
    requires
        n < 16,
    ensures
        c == hex_digit(n as int),
{
    if n < 10 {
        (48 + n) as char
    } else {
        (87 + n) as char
    }
}

/// Lowercase hexadecimal encoding of `data`.
pub fn hex_encode(data: &[u8]) -> (s: String)
    ensures
        s@ == hex_lower(data@),
{
    let mut s = String::new();
    let mut i: usize = 0;
    while i < data.len()
        invariant
            i <= data@.len(),
            s@ == hex_lower(data@.take(i as int)),
        decreases data.len() - i,
    {
        let b = data[i];
        push_char(&mut s, hex_digit_char(b / 16));
        push_char(&mut s, hex_digit_char(b % 16));
        assert(data@.take(i + 1).drop_last() =~= data@.take(i as int));
        i = i + 1;
        assert(s@ =~= hex_lower(data@.take(i as int)));
    }
    assert(data@.take(i as int) =~= data@);
    s
}


/// The decimal digit for `d` (`0 <= d < 10`).
pub open spec fn decimal_digit(d: int) -> char {
    (48 + d) as char
}

/// The decimal numeral of `n`, without leading zeros.
pub open spec fn decimal_text(n: nat) -> Seq<char>
    decreases n,
{
    if n < 10 {
        seq![decimal_digit(n as int)]
    } else {
        decimal_text(n / 10).push(decimal_digit((n % 10) as int))
    }
}

fn decimal_digit_char(d: usize) -> (c: char)
    requires
        d < 10,
    ensures
        c == decimal_digit(d as int),
{
    (48 + d as u8) as char
}

/// The decimal numeral of `n` (see `decimal_text`).
pub fn decimal_string(n: usize) -> (s: String)
    ensures
        s@ == decimal_text(n as nat),
    decreases n,
{
    if n < 10 {
        let mut s = String::new();
        push_char(&mut s, decimal_digit_char(n));
        s
    } else {
        let mut s = decimal_string(n / 10);
        push_char(&mut s, decimal_digit_char(n % 10));
        s
    }
}

/// Whether `a` and `b` hold the same characters.
pub fn str_eq(a: &str, b: &str) -> (r: bool)
    ensures
        r == (a@ == b@),
{
    let av = chars_of(a);
    let bv = chars_of(b);
    if av.len() != bv.len() {
        return false;
    }
    let mut i: usize = 0;
    while i < av.len()
        invariant
            av@ == a@,
            bv@ == b@,
            av.len() == bv.len(),
            i <= av.len(),
            forall|k: int| 0 <= k < i ==> av@[k] == bv@[k],
        decreases av.len() - i,
    {
        if av[i] != bv[i] {
            return false;
        }
        i = i + 1;
    }
    assert(a@ =~= b@);
    true
}


/// Whether `s` ends with `suffix`.
pub fn ends_with(s: &str, suffix: &str) -> (b: bool)
    ensures
        b == suffix@.is_suffix_of(s@),
{
    let sv = chars_of(s);
    let xv = chars_of(suffix);
    if xv.len() > sv.len() {
        return false;
    }
    let off = sv.len() - xv.len();
    let mut i: usize = 0;
    while i < xv.len()
        invariant
            sv@ == s@,
            xv@ == suffix@,
            off == sv@.len() - xv@.len(),
            off + xv.len() == sv.len(),
            i <= xv.len(),
            forall|k: int| 0 <= k < i ==> sv@[off + k] == xv@[k],
        decreases xv.len() - i,
    {
        if sv[off + i] != xv[i] {
            assert(s@.subrange(off as int, s@.len() as int)[i as int] != suffix@[i as int]);
            return false;
        }
        i = i + 1;
    }
    assert(suffix@ =~= s@.subrange(off as int, s@.len() as int));
    true
}

/// Whether `name` begins with `prefix` and ends with `suffix`, the two not
/// overlapping (the shell pattern `prefix*suffix`).
pub open spec fn has_affixes(name: Seq<char>, prefix: Seq<char>, suffix: Seq<char>) -> bool {
    &&& prefix.is_prefix_of(name)
    &&& suffix.is_suffix_of(name)
    &&& prefix.len() + suffix.len() <= name.len()
}

/// Whether `name` matches `prefix*suffix`.
pub fn matches_affixes(name: &str, prefix: &str, suffix: &str) -> (b: bool)
    ensures
        b == has_affixes(name@, prefix@, suffix@),
{
    let n = name.unicode_len();
    let p = prefix.unicode_len();
    let x = suffix.unicode_len();
    starts_with(name, prefix) && ends_with(name, suffix) && p <= n && x <= n - p
}

/// The entries named `prefix*suffix`, in ascending order.
pub fn select_sorted(entries: &Vec<String>, prefix: &str, suffix: &str) -> (r: Vec<String>)
    ensures
        sorted_strings(r@),
        r@.to_multiset() =~= entries@.filter(|e: String| has_affixes(e@, prefix@, suffix@)).to_multiset(),
{
    let ghost pred = |e: String| has_affixes(e@, prefix@, suffix@);
    let mut out: Vec<String> = Vec::new();
    let mut i: usize = 0;
    proof {
        reveal_with_fuel(Seq::filter, 1);
        assert(entries@.take(0) =~= Seq::<String>::empty());
    }
    while i < entries.len()
        invariant
            i <= entries@.len(),
            pred == (|e: String| has_affixes(e@, prefix@, suffix@)),
            sorted_strings(out@),
            out@.to_multiset() =~= entries@.take(i as int).filter(pred).to_multiset(),
        decreases entries.len() - i,
    {
        let e = entries[i].clone();
        proof {
            entries@.take(i as int).lemma_filter_push(e, pred);
            assert(entries@.take(i + 1) =~= entries@.take(i as int).push(e));
        }
        let selected = matches_affixes(e.as_str(), prefix, suffix);
        assert(selected == pred(e));
        if selected {
            insert_sorted(&mut out, e);
            proof {
                broadcast use vstd::seq_lib::group_to_multiset_ensures;

                assert(entries@.take(i as int).filter(pred).push(e).to_multiset()
                    =~= entries@.take(i as int).filter(pred).to_multiset().insert(e));
            }
        }
        i = i + 1;
    }
    proof {
        assert(entries@.take(entries@.len() as int) =~= entries@);
    }
    out
}

/// The string of the characters `v[from..to]`.
pub fn string_of_range(v: &Vec<char>, from: usize, to: usize) -> (s: String)
    requires
        from <= to <= v@.len(),
    ensures
        s@ == v@.subrange(from as int, to as int),
{
    let mut s = String::new();
    let mut k: usize = from;
    while k < to
        invariant
            from <= k <= to <= v@.len(),
            s@ == v@.subrange(from as int, k as int),
        decreases to - k,
    {
        push_char(&mut s, v[k]);
        k = k + 1;
        assert(s@ =~= v@.subrange(from as int, k as int));
    }
    s
}

/// The pieces of `s` between occurrences of `sep`, as `str::split` gives
/// them: one more piece than there are separators, empty pieces included.
pub open spec fn split_on(s: Seq<char>, sep: char) -> Seq<Seq<char>>
    decreases s.len(),
{
    if s.len() == 0 {
        seq![Seq::<char>::empty()]
    } else {
        let init = split_on(s.drop_last(), sep);
        if s.last() == sep {
            init.push(Seq::<char>::empty())
        } else {
            init.update(init.len() - 1, init.last().push(s.last()))
        }
    }
}

/// `split_on` always gives at least one piece.
pub proof fn lemma_split_on_nonempty(s: Seq<char>, sep: char)
    ensures
        split_on(s, sep).len() >= 1,
    decreases s.len(),
{
    if s.len() > 0 {
        lemma_split_on_nonempty(s.drop_last(), sep);
    }
}

/// The views of the strings of `v`.
pub open spec fn string_views(v: Seq<String>) -> Seq<Seq<char>> {
    v.map_values(|x: String| x@)
}

/// The pieces of `s` between occurrences of `sep` (see `split_on`).
pub fn split_chars(s: &str, sep: char) -> (r: Vec<String>)
    ensures
        string_views(r@) == split_on(s@, sep),
{
    let v = chars_of(s);
    let mut done: Vec<String> = Vec::new();
    let mut start: usize = 0;
    let mut i: usize = 0;
    assert(s@.take(0) =~= Seq::<char>::empty());
    while i < v.len()
        invariant
            v@ == s@,
            start <= i <= v@.len(),
            split_on(s@.take(i as int), sep) == string_views(done@).push(
                s@.subrange(start as int, i as int),
            ),
        decreases v.len() - i,
    {
        let ghost prev = s@.take(i as int);
        assert(s@.take(i + 1).drop_last() =~= prev);
        assert(s@.take(i + 1).last() == v@[i as int]);
        if v[i] == sep {
            let piece = string_of_range(&v, start, i);
            let ghost before = done@;
            let ghost piece_view = piece@;
            done.push(piece);
            assert(string_views(done@) =~= string_views(before).push(piece_view));
            start = i + 1;
            assert(s@.subrange(start as int, i + 1) =~= Seq::<char>::empty());
        } else {
            assert(s@.subrange(start as int, i + 1) =~= s@.subrange(start as int, i as int).push(
                v@[i as int],
            ));
        }
        i = i + 1;
        assert(split_on(s@.take(i as int), sep) =~= string_views(done@).push(
            s@.subrange(start as int, i as int),
        ));
    }
    let last = string_of_range(&v, start, v.len());
    let ghost before = done@;
    let ghost last_view = last@;
    done.push(last);
    assert(string_views(done@) =~= string_views(before).push(last_view));
    assert(s@.take(v@.len() as int) =~= s@);
    assert(string_views(done@) =~= split_on(s@, sep));
    done
}

} // verus!
