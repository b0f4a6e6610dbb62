//! Character-level helpers shared by the HTTP parsers: ASCII case mapping,
//! Unicode white space trimming, splitting, decimal numbers and string building.
use vstd::prelude::*;

verus! {

broadcast use vstd::string::group_string_axioms;

// ---------------------------------------------------------------- characters

/// ASCII lowercase of one character; every other character is unchanged.
pub open spec fn lower_char(c: char) -> char {
    if 'A' <= c && c <= 'Z' {
        ((c as u32) + 32) as char
    } else {
        c
    }
}

/// ASCII uppercase of one character; every other character is unchanged.
pub open spec fn upper_char(c: char) -> char {
    if 'a' <= c && c <= 'z' {
        ((c as u32) - 32) as char
    } else {
        c
    }
}

/// ASCII lowercase of a whole sequence.
pub open spec fn lower_seq(s: Seq<char>) -> Seq<char> {
    Seq::new(s.len(), |i: int| lower_char(s[i]))
}

/// ASCII uppercase of a whole sequence.
pub open spec fn upper_seq(s: Seq<char>) -> Seq<char> {
    Seq::new(s.len(), |i: int| upper_char(s[i]))
}

pub open spec fn is_digit(c: char) -> bool {
    '0' <= c && c <= '9'
}

pub open spec fn is_alnum(c: char) -> bool {
    is_digit(c) || ('a' <= c && c <= 'z') || ('A' <= c && c <= 'Z')
}

pub open spec fn is_ascii_char(c: char) -> bool {
    (c as u32) < 128
}

pub open spec fn all_ascii(s: Seq<char>) -> bool {
    forall|i: int| 0 <= i < s.len() ==> is_ascii_char(#[trigger] s[i])
}

/// The characters that carry the Unicode `White_Space` property, which is
/// what `str::trim` removes.
pub open spec fn is_white_space(c: char) -> bool {
    let u = c as u32;
    (0x09 <= u && u <= 0x0D) || u == 0x20 || u == 0x85 || u == 0xA0 || u == 0x1680 || (0x2000
        <= u && u <= 0x200A) || u == 0x2028 || u == 0x2029 || u == 0x202F || u == 0x205F || u
        == 0x3000
}

/// Value of a decimal digit.
pub open spec fn digit_value(c: char) -> nat {
    ((c as u32) - ('0' as u32)) as nat
}

/// The decimal digit character of `d < 10`.
pub open spec fn digit_char(d: nat) -> char {
    ((d + ('0' as u32)) as u32) as char
}

pub fn to_lower_char(c: char) -> (r: char)
    ensures
        r == lower_char(c),
{
    if 'A' <= c && c <= 'Z' {
        let u: u8 = (c as u8) + 32;
        u as char
    } else {
        c
    }
}

pub fn to_upper_char(c: char) -> (r: char)
    ensures
        r == upper_char(c),
{
    if 'a' <= c && c <= 'z' {
        let u: u8 = (c as u8) - 32;
        u as char
    } else {
        c
    }
}

pub fn char_is_digit(c: char) -> (r: bool)
    ensures
        r == is_digit(c),
{
    '0' <= c && c <= '9'
}

pub fn char_is_alnum(c: char) -> (r: bool)
    ensures
        r == is_alnum(c),
{
    ('0' <= c && c <= '9') || ('a' <= c && c <= 'z') || ('A' <= c && c <= 'Z')
}

pub fn char_is_white_space(c: char) -> (r: bool)
    ensures
        r == is_white_space(c),
{
    let u = c as u32;
    (0x09 <= u && u <= 0x0D) || u == 0x20 || u == 0x85 || u == 0xA0 || u == 0x1680 || (0x2000
        <= u && u <= 0x200A) || u == 0x2028 || u == 0x2029 || u == 0x202F || u == 0x205F || u
        == 0x3000
}

// ---------------------------------------------------------------- building strings

/// Wraps `String::push`, which appends one character to the string.
#[verifier::external_body]
pub(crate) fn push_char(s: &mut String, c: char)
    ensures
        final(s)@ == old(s)@.push(c),
{
    s.push(c);
}

/// The characters of a string slice, in order.
pub fn chars_of(s: &str) -> (r: Vec<char>)
    ensures
        r@ == s@,
{
    let mut v: Vec<char> = Vec::new();
    for c in it: s.chars()
        invariant
            v@ == it.seq().take(it.index() as int),
            it.seq() == s@,
    {
        v.push(c);
    }
    v
}

/// A string made of the characters of `v[from..to]`.
pub fn string_of_range(v: &Vec<char>, from: usize, to: usize) -> (r: String)
    requires
        from <= to <= v@.len(),
    ensures
        r@ == v@.subrange(from as int, to as int),
{
    let mut s = String::new();
    let mut i = from;
    while i < to
        invariant
            from <= i <= to <= v@.len(),
            s@ == v@.subrange(from as int, i as int),
        decreases to - i,
    {
        push_char(&mut s, v[i]);
        i = i + 1;
        assert(s@ =~= v@.subrange(from as int, i as int));
    }
    s
}

/// A string made of all characters of `v`.
pub fn string_of(v: &Vec<char>) -> (r: String)
    ensures
        r@ == v@,
{
    let r = string_of_range(v, 0, v.len());
    assert(v@.subrange(0, v@.len() as int) =~= v@);
    r
}

/// The ASCII lowercase of the characters of `v`, as a string.
pub fn lower_string(v: &Vec<char>) -> (r: String)
    ensures
        r@ == lower_seq(v@),
{
    let mut s = String::new();
    let mut i: usize = 0;
    while i < v.len()
        invariant
            i <= v@.len(),
            s@ == lower_seq(v@.take(i as int)),
        decreases v@.len() - i,
    {
        push_char(&mut s, to_lower_char(v[i]));
        i = i + 1;
        assert(s@ =~= lower_seq(v@.take(i as int)));
    }
    assert(v@.take(v@.len() as int) =~= v@);
    s
}

/// An owned copy of a string slice.
pub fn string_from(s: &str) -> (r: String)
    ensures
        r@ == s@,
{
    let v = chars_of(s);
    string_of(&v)
}

/// An owned copy of a string.
pub fn copy_string(s: &String) -> (r: String)
    ensures
        r@ == s@,
{
    s.clone()
}

/// Appends the characters of `v` to `s`.
pub fn push_chars(s: &mut String, v: &Vec<char>)
    ensures
        final(s)@ == old(s)@ + v@,
{
    let mut i: usize = 0;
    let ghost s0 = s@;
    while i < v.len()
        invariant
            i <= v@.len(),
            s@ == s0 + v@.subrange(0, i as int),
        decreases v@.len() - i,
    {
        push_char(s, v[i]);
        i = i + 1;
        assert(s@ =~= s0 + v@.subrange(0, i as int));
    }
    assert(v@.subrange(0, v@.len() as int) =~= v@);
}

/// Appends a string slice to `s`.
pub fn push_str(s: &mut String, t: &str)
    ensures
        final(s)@ == old(s)@ + t@,
{
    let v = chars_of(t);
    push_chars(s, &v);
}

/// A string of the characters that the bytes stand for as ASCII.
pub fn ascii_string(b: &[u8]) -> (r: String)
    requires
        forall|i: int| 0 <= i < b@.len() ==> b@[i] < 128,
    ensures
        r@ == Seq::new(b@.len(), |i: int| b@[i] as char),
{
    let mut s = String::new();
    let mut i: usize = 0;
    while i < b.len()
        invariant
            i <= b@.len(),
            forall|j: int| 0 <= j < b@.len() ==> b@[j] < 128,
            s@ == Seq::new(i as nat, |j: int| b@[j] as char),
        decreases b@.len() - i,
    {
        push_char(&mut s, b[i] as char);
        i = i + 1;
        assert(s@ =~= Seq::new(i as nat, |j: int| b@[j] as char));
    }
    s
}

/// Wraps `String::from_utf8`, which accepts the bytes exactly when they are
/// well-formed UTF-8 and then holds the characters they encode.
#[verifier::external_body]
pub(crate) fn utf8_string(b: Vec<u8>) -> (r: Option<String>)
    ensures
        r is Some <==> vstd::utf8::valid_utf8(b@),
        r matches Some(s) ==> s@ == vstd::utf8::decode_utf8(b@),
{
    String::from_utf8(b).ok()
}

// ---------------------------------------------------------------- comparing

/// Character equality of two sequences held in vectors.
pub fn chars_eq(a: &Vec<char>, b: &Vec<char>) -> (r: bool)
    ensures
        r == (a@ == b@),
{
    if a.len() != b.len() {
        return false;
    }
    let mut i: usize = 0;
    while i < a.len()
        invariant
            a@.len() == b@.len(),
            i <= a@.len(),
            forall|j: int| 0 <= j < i ==> a@[j] == b@[j],
        decreases a@.len() - i,
    {
        if a[i] != b[i] {
            return false;
        }
        i = i + 1;
    }
    assert(a@ =~= b@);
    true
}

/// Does `a[from..to]` hold exactly the characters of `lit`?
pub fn range_eq_str(a: &Vec<char>, from: usize, to: usize, lit: &str) -> (r: bool)
    requires
        from <= to <= a@.len(),
    ensures
        r == (a@.subrange(from as int, to as int) == lit@),
{
    let n = lit.unicode_len();
    if to - from != n {
        return false;
    }
    let mut i: usize = 0;
    while i < n
        invariant
            n == lit@.len(),
            from <= to <= a@.len(),
            to - from == n,
            i <= n,
            forall|j: int| 0 <= j < i ==> a@[from + j] == lit@[j],
        decreases n - i,
    {
        if a[from + i] != lit.get_char(i) {
            assert(a@.subrange(from as int, to as int)[i as int] != lit@[i as int]);
            return false;
        }
        i = i + 1;
    }
    assert(a@.subrange(from as int, to as int) =~= lit@);
    true
}

/// Do the characters of `a` equal those of `lit`?
pub fn chars_eq_str(a: &Vec<char>, lit: &str) -> (r: bool)
    ensures
        r == (a@ == lit@),
{
    let r = range_eq_str(a, 0, a.len(), lit);
    assert(a@.subrange(0, a@.len() as int) =~= a@);
    r
}

/// Character equality of two string slices.
pub fn str_eq(a: &str, b: &str) -> (r: bool)
    ensures
        r == (a@ == b@),
{
    let v = chars_of(a);
    chars_eq_str(&v, b)
}

/// Does `a[from..to]`, ASCII-lowercased, equal `lit`?
pub fn range_eq_lower_str(a: &Vec<char>, from: usize, to: usize, lit: &str) -> (r: bool)
    requires
        from <= to <= a@.len(),
    ensures
        r == (lower_seq(a@.subrange(from as int, to as int)) == lit@),
{
    let n = lit.unicode_len();
    if to - from != n {
        return false;
    }
    let mut i: usize = 0;
    while i < n
        invariant
            n == lit@.len(),
            from <= to <= a@.len(),
            to - from == n,
            i <= n,
            forall|j: int| 0 <= j < i ==> lower_char(a@[from + j]) == lit@[j],
        decreases n - i,
    {
        if to_lower_char(a[from + i]) != lit.get_char(i) {
            assert(lower_seq(a@.subrange(from as int, to as int))[i as int] != lit@[i as int]);
            return false;
        }
        i = i + 1;
    }
    assert(lower_seq(a@.subrange(from as int, to as int)) =~= lit@);
    true
}

/// Does `a`, ASCII-lowercased, equal `lit`?
pub fn chars_eq_lower_str(a: &Vec<char>, lit: &str) -> (r: bool)
    ensures
        r == (lower_seq(a@) == lit@),
{
    let r = range_eq_lower_str(a, 0, a.len(), lit);
    assert(a@.subrange(0, a@.len() as int) =~= a@);
    r
}

/// Does `s` start with `p`?
pub open spec fn has_prefix(s: Seq<char>, p: Seq<char>) -> bool {
    p.len() <= s.len() && s.take(p.len() as int) == p
}

/// Does `s` end with `p`?
pub open spec fn has_suffix(s: Seq<char>, p: Seq<char>) -> bool {
    p.len() <= s.len() && s.skip(s.len() - p.len()) == p
}

pub fn starts_with_str(a: &Vec<char>, p: &str) -> (r: bool)
    ensures
        r == has_prefix(a@, p@),
{
    let n = p.unicode_len();
    if n > a.len() {
        return false;
    }
    let r = range_eq_str(a, 0, n, p);
    assert(a@.subrange(0, n as int) =~= a@.take(n as int));
    r
}

pub fn ends_with_str(a: &Vec<char>, p: &str) -> (r: bool)
    ensures
        r == has_suffix(a@, p@),
{
    let n = p.unicode_len();
    if n > a.len() {
        return false;
    }
    let r = range_eq_str(a, a.len() - n, a.len(), p);
    assert(a@.subrange(a@.len() - n, a@.len() as int) =~= a@.skip(a@.len() - n));
    r
}

// ---------------------------------------------------------------- searching and splitting

/// Index of the first `c` in `s`, or -1.
pub open spec fn index_of(s: Seq<char>, c: char) -> int
    decreases s.len(),
{
    if s.len() == 0 {
        -1
    } else if s[0] == c {
        0
    } else {
        let r = index_of(s.drop_first(), c);
        if r < 0 {
            -1
        } else {
            r + 1
        }
    }
}

pub proof fn lemma_index_of(s: Seq<char>, c: char, i: int)
    requires
        (0 <= i < s.len() && s[i] == c && forall|j: int| 0 <= j < i ==> s[j] != c) || (i == -1
            && forall|j: int| 0 <= j < s.len() ==> s[j] != c),
    ensures
        index_of(s, c) == i,
    decreases s.len(),
{
    if s.len() > 0 && s[0] != c {
        let t = s.drop_first();
        if i == -1 {
            assert forall|j: int| 0 <= j < t.len() implies t[j] != c by {
                assert(t[j] == s[j + 1]);
            }
            lemma_index_of(t, c, -1);
        } else {
            assert forall|j: int| 0 <= j < i - 1 implies t[j] != c by {
                assert(t[j] == s[j + 1]);
            }
            lemma_index_of(t, c, i - 1);
        }
    }
}

/// Index of the first `c` in `a[from..]`, counted from the start of `a`.
pub fn find_char(a: &Vec<char>, c: char, from: usize) -> (r: Option<usize>)
    requires
        from <= a@.len(),
    ensures
        r matches Some(i) ==> from <= i < a@.len() && a@[i as int] == c,
        r matches Some(i) ==> forall|j: int| from <= j < i ==> a@[j] != c,
        r is None ==> forall|j: int| from <= j < a@.len() ==> a@[j] != c,
        r matches Some(i) ==> index_of(a@.skip(from as int), c) == i - from,
        r is None ==> index_of(a@.skip(from as int), c) == -1,
{
    let mut i = from;
    while i < a.len()
        invariant
            from <= i <= a@.len(),
            forall|j: int| from <= j < i ==> a@[j] != c,
        decreases a@.len() - i,
    {
        if a[i] == c {
            proof {
                let t = a@.skip(from as int);
                assert forall|j: int| 0 <= j < i - from implies t[j] != c by {
                    assert(t[j] == a@[from + j]);
                }
                lemma_index_of(t, c, i - from);
            }
            return Some(i);
        }
        i = i + 1;
    }
    proof {
        let t = a@.skip(from as int);
        assert forall|j: int| 0 <= j < t.len() implies t[j] != c by {
            assert(t[j] == a@[from + j]);
        }
        lemma_index_of(t, c, -1);
    }
    None
}

/// The pieces of `s` between the occurrences of `c`, as `str::split` yields them.
pub open spec fn split_seq(s: Seq<char>, c: char) -> Seq<Seq<char>>
    decreases s.len(),
{
    let i = index_of(s, c);
    if i < 0 {
        seq![s]
    } else {
        if 0 <= i < s.len() {
            seq![s.take(i)] + split_seq(s.skip(i + 1), c)
        } else {
            seq![s]
        }
    }
}

pub proof fn lemma_index_of_bounds(s: Seq<char>, c: char)
    ensures
        -1 <= index_of(s, c) < s.len(),
        index_of(s, c) >= 0 ==> s[index_of(s, c)] == c,
        index_of(s, c) == -1 ==> !s.contains(c),
        forall|j: int| 0 <= j < index_of(s, c) ==> s[j] != c,
    decreases s.len(),
{
    if s.len() > 0 && s[0] != c {
        lemma_index_of_bounds(s.drop_first(), c);
        if index_of(s, c) == -1 {
            assert forall|j: int| 0 <= j < s.len() implies s[j] != c by {
                if j > 0 {
                    assert(s[j] == s.drop_first()[j - 1]);
                }
            }
        } else {
            assert forall|j: int| 0 <= j < index_of(s, c) implies s[j] != c by {
                if j > 0 {
                    assert(s[j] == s.drop_first()[j - 1]);
                }
            }
        }
    }
}

/// The views of a vector of character vectors.
pub open spec fn views_of(v: Seq<Vec<char>>) -> Seq<Seq<char>> {
    Seq::new(v.len(), |i: int| v[i]@)
}

/// Splits `a` at every `c`, as `str::split` does.
pub fn split_chars(a: &Vec<char>, c: char) -> (r: Vec<Vec<char>>)
    ensures
        views_of(r@) == split_seq(a@, c),
{
    let n = a.len();
    let mut parts: Vec<Vec<char>> = Vec::new();
    let mut start: usize = 0;
    proof {
        assert(a@.skip(0) =~= a@);
        assert(views_of(parts@) + split_seq(a@, c) =~= split_seq(a@, c));
    }
    loop
        invariant
            n == a@.len(),
            start <= a@.len(),
            views_of(parts@) + split_seq(a@.skip(start as int), c) == split_seq(a@, c),
        decreases a@.len() - start,
    {
        let found = find_char(a, c, start);
        match found {
            Some(i) => {
                let piece = sub_chars(a, start, i);
                proof {
                    let t = a@.skip(start as int);
                    assert(piece@ =~= t.take(i - start));
                    assert(t.skip(i - start + 1) =~= a@.skip(i + 1));
                    assert(split_seq(t, c) == seq![t.take(i - start)] + split_seq(
                        t.skip(i - start + 1),
                        c,
                    ));
                }
                let ghost old_parts = parts@;
                parts.push(piece);
                proof {
                    assert(views_of(parts@) =~= views_of(old_parts) + seq![piece@]);
                    assert(views_of(old_parts) + split_seq(a@.skip(start as int), c) =~= views_of(
                        parts@,
                    ) + split_seq(a@.skip(i + 1), c));
                }
                assert(i < n);
                start = i + 1;
            },
            None => {
                let piece = sub_chars(a, start, a.len());
                proof {
                    let t = a@.skip(start as int);
                    assert(piece@ =~= t);
                }
                let ghost old_parts = parts@;
                parts.push(piece);
                proof {
                    assert(views_of(parts@) =~= views_of(old_parts) + seq![piece@]);
                }
                return parts;
            },
        }
    }
}

/// A copy of `a[from..to]`.
pub fn sub_chars(a: &Vec<char>, from: usize, to: usize) -> (r: Vec<char>)
    requires
        from <= to <= a@.len(),
    ensures
        r@ == a@.subrange(from as int, to as int),
{
    let mut v: Vec<char> = Vec::new();
    let mut i = from;
    while i < to
        invariant
            from <= i <= to <= a@.len(),
            v@ == a@.subrange(from as int, i as int),
        decreases to - i,
    {
        v.push(a[i]);
        i = i + 1;
        assert(v@ =~= a@.subrange(from as int, i as int));
    }
    v
}

// ---------------------------------------------------------------- trimming

/// Number of white space characters at the start of `s`.
pub open spec fn lead_ws(s: Seq<char>) -> nat
    decreases s.len(),
{
    if s.len() > 0 && is_white_space(s[0]) {
        1 + lead_ws(s.drop_first())
    } else {
        0
    }
}

/// Number of white space characters at the end of `s`.
pub open spec fn trail_ws(s: Seq<char>) -> nat
    decreases s.len(),
{
    if s.len() > 0 && is_white_space(s.last()) {
        1 + trail_ws(s.drop_last())
    } else {
        0
    }
}

/// `s` without leading and trailing white space, as `str::trim` returns it.
pub open spec fn trim_seq(s: Seq<char>) -> Seq<char> {
    let t = s.skip(lead_ws(s) as int);
    t.take(t.len() - trail_ws(t))
}

proof fn lemma_lead_ws(s: Seq<char>, i: int)
    requires
        0 <= i <= s.len(),
        forall|j: int| 0 <= j < i ==> is_white_space(s[j]),
        i == s.len() || !is_white_space(s[i]),
    ensures
        lead_ws(s) == i,
    decreases s.len(),
{
    if i > 0 {
        let t = s.drop_first();
        assert forall|j: int| 0 <= j < i - 1 implies is_white_space(t[j]) by {
            assert(t[j] == s[j + 1]);
        }
        lemma_lead_ws(t, i - 1);
    }
}

proof fn lemma_trail_ws(s: Seq<char>, k: int)
    requires
        0 <= k <= s.len(),
        forall|j: int| s.len() - k <= j < s.len() ==> is_white_space(s[j]),
        k == s.len() || !is_white_space(s[s.len() - k - 1]),
    ensures
        trail_ws(s) == k,
    decreases s.len(),
{
    if k > 0 {
        let t = s.drop_last();
        assert forall|j: int| t.len() - (k - 1) <= j < t.len() implies is_white_space(t[j]) by {
            assert(t[j] == s[j]);
        }
        lemma_trail_ws(t, k - 1);
    }
}

/// Bounds of the trimmed part of `a[from..to]`.
pub fn trim_bounds(a: &Vec<char>, from: usize, to: usize) -> (r: (usize, usize))
    requires
        from <= to <= a@.len(),
    ensures
        from <= r.0 <= r.1 <= to,
        a@.subrange(r.0 as int, r.1 as int) == trim_seq(a@.subrange(from as int, to as int)),
{
    let ghost s = a@.subrange(from as int, to as int);
    let mut i = from;
    while i < to && char_is_white_space(a[i])
        invariant
            from <= i <= to <= a@.len(),
            forall|j: int| from <= j < i ==> is_white_space(a@[j]),
        decreases to - i,
    {
        i = i + 1;
    }
    proof {
        assert forall|j: int| 0 <= j < i - from implies is_white_space(s[j]) by {
            assert(s[j] == a@[from + j]);
        }
        lemma_lead_ws(s, i - from);
    }
    let ghost t = s.skip(i - from);
    let mut k = to;
    while k > i && char_is_white_space(a[k - 1])
        invariant
            i <= k <= to <= a@.len(),
            forall|j: int| k <= j < to ==> is_white_space(a@[j]),
        decreases k - i,
    {
        k = k - 1;
    }
    proof {
        assert(t =~= a@.subrange(i as int, to as int));
        assert forall|j: int| t.len() - (to - k) <= j < t.len() implies is_white_space(t[j]) by {
            assert(t[j] == a@[i + j]);
        }
        lemma_trail_ws(t, to - k);
        assert(a@.subrange(i as int, k as int) =~= t.take(t.len() - (to - k)));
    }
    (i, k)
}

/// `a` with leading and trailing white space removed.
pub fn trim_chars(a: &Vec<char>) -> (r: Vec<char>)
    ensures
        r@ == trim_seq(a@),
{
    let (i, k) = trim_bounds(a, 0, a.len());
    assert(a@.subrange(0, a@.len() as int) =~= a@);
    sub_chars(a, i, k)
}

// ---------------------------------------------------------------- decimal numbers

/// Value of a sequence of decimal digits.
pub open spec fn digits_value(s: Seq<char>) -> nat
    decreases s.len(),
{
    if s.len() == 0 {
        0
    } else {
        digits_value(s.drop_last()) * 10 + digit_value(s.last())
    }
}

pub open spec fn all_digits(s: Seq<char>) -> bool {
    forall|i: int| 0 <= i < s.len() ==> is_digit(#[trigger] s[i])
}

/// What `str::parse` gives for an unsigned integer type whose maximum is `max`:
/// an optional `+`, then at least one decimal digit, and a value that fits.
pub open spec fn parse_unsigned(s: Seq<char>, max: nat) -> Option<nat> {
    let d = if s.len() > 0 && s[0] == '+' {
        s.drop_first()
    } else {
        s
    };
    if d.len() == 0 || !all_digits(d) || digits_value(d) > max {
        None
    } else {
        Some(digits_value(d))
    }
}

proof fn lemma_digits_value_monotone(s: Seq<char>, i: int)
    requires
        0 <= i <= s.len(),
        all_digits(s),
    ensures
        digits_value(s.take(i)) <= digits_value(s),
    decreases s.len() - i,
{
    if i < s.len() {
        lemma_digits_value_monotone(s, i + 1);
        let t = s.take(i + 1);
        assert(t.drop_last() =~= s.take(i));
        assert(digits_value(t) == digits_value(t.drop_last()) * 10 + digit_value(t.last()));
    } else {
        assert(s.take(i) =~= s);
    }
}

/// Parses `a[from..to]` like `str::parse` for an unsigned integer no larger than `max`.
pub fn parse_unsigned_range(a: &Vec<char>, from: usize, to: usize, max: u64) -> (r: Option<u64>)
    requires
        from <= to <= a@.len(),
    ensures
        r matches Some(v) ==> parse_unsigned(a@.subrange(from as int, to as int), max as nat)
            == Some(v as nat),
        r is None ==> parse_unsigned(a@.subrange(from as int, to as int), max as nat) is None,
{
    let ghost s = a@.subrange(from as int, to as int);
    let mut i = from;
    if i < to && a[i] == '+' {
        i = i + 1;
    }
    let ghost d = a@.subrange(i as int, to as int);
    proof {
        if s.len() > 0 && s[0] == '+' {
            assert(s.drop_first() =~= d);
        } else {
            assert(s =~= d);
        }
    }
    if i == to {
        return None;
    }
    let start = i;
    let mut v: u64 = 0;
    while i < to
        invariant
            from <= start <= i <= to <= a@.len(),
            d == a@.subrange(start as int, to as int),
            s == a@.subrange(from as int, to as int),
            parse_unsigned(s, max as nat) == (if d.len() == 0 || !all_digits(d) || digits_value(d)
                > max {
                None
            } else {
                Some(digits_value(d))
            }),
            forall|j: int| start <= j < i ==> is_digit(a@[j]),
            v as nat == digits_value(a@.subrange(start as int, i as int)),
            v <= max,
        decreases to - i,
    {
        let c = a[i];
        if !char_is_digit(c) {
            assert(d[i - start] == c);
            assert(!all_digits(d));
            return None;
        }
        let dv: u64 = (c as u32 - '0' as u32) as u64;
        assert(a@.subrange(start as int, i + 1).drop_last() =~= a@.subrange(start as int, i as int));
        if dv > max || v > (max - dv) / 10 {
            proof {
                assert(v * 10 + dv > max) by (nonlinear_arith)
                    requires
                        dv > max || v > (max - dv) / 10,
                ;
                let p = a@.subrange(start as int, i + 1);
                assert(p.last() == c);
                assert(digits_value(p) == digits_value(p.drop_last()) * 10 + digit_value(p.last()));
                assert(digits_value(p) == v * 10 + dv);
                if all_digits(d) {
                    lemma_digits_value_monotone(d, i + 1 - start);
                    assert(d.take(i + 1 - start) =~= a@.subrange(start as int, i + 1));
                }
            }
            return None;
        }
        proof {
            assert(v * 10 + dv <= max) by (nonlinear_arith)
                requires
                    v <= (max - dv) / 10,
                    dv <= max,
            ;
        }
        v = v * 10 + dv;
        i = i + 1;
    }
    assert(d =~= a@.subrange(start as int, i as int));
    Some(v)
}

/// Decimal representation of `n`, without leading zeros.
pub open spec fn dec_seq(n: nat) -> Seq<char>
    decreases n,
{
    if n < 10 {
        seq![digit_char(n)]
    } else {
        dec_seq(n / 10).push(digit_char(n % 10))
    }
}

/// Appends the decimal representation of `n` to `s`.
pub fn push_decimal(s: &mut String, n: u64)
    ensures
        final(s)@ == old(s)@ + dec_seq(n as nat),
    decreases n,
{
    if n < 10 {
        let c = ((n as u8) + ('0' as u8)) as char;
        push_char(s, c);
        assert(seq![digit_char(n as nat)] == seq![c]);
    } else {
        push_decimal(s, n / 10);
        let c = (((n % 10) as u8) + ('0' as u8)) as char;
        push_char(s, c);
        assert(digit_char((n % 10) as nat) == c);
    }
}


/// Leading white space ends before the first other character.
pub proof fn lemma_lead_ws_stops(s: Seq<char>)
    ensures
        lead_ws(s) <= s.len(),
        lead_ws(s) < s.len() ==> !is_white_space(s[lead_ws(s) as int]),
    decreases s.len(),
{
    if s.len() > 0 && is_white_space(s[0]) {
        let t = s.drop_first();
        lemma_lead_ws_stops(t);
        if lead_ws(s) < s.len() {
            assert(s[lead_ws(s) as int] == t[lead_ws(t) as int]);
        }
    }
}

/// Trailing white space starts after the last other character.
pub proof fn lemma_trail_ws_stops(s: Seq<char>)
    ensures
        trail_ws(s) <= s.len(),
        trail_ws(s) < s.len() ==> !is_white_space(
            s[s.len() - 1 - trail_ws(s)],
        ),
    decreases s.len(),
{
    if s.len() > 0 && is_white_space(s.last()) {
        let t = s.drop_last();
        lemma_trail_ws_stops(t);
        if trail_ws(s) < s.len() {
            assert(s[s.len() - 1 - trail_ws(s)] == t[t.len() - 1 - trail_ws(t)]);
        }
    }
}

/// A trimmed text neither starts nor ends with white space, and holds no
/// character that the text it came from does not hold.
pub proof fn lemma_trim_facts(p: Seq<char>, c: char)
    ensures
        trim_seq(p).len() > 0 ==> !is_white_space(trim_seq(p)[0])
            && !is_white_space(trim_seq(p).last()),
        !p.contains(c) ==> !trim_seq(p).contains(c),
{
    lemma_lead_ws_stops(p);
    let a = lead_ws(p) as int;
    let t = p.skip(a);
    lemma_trail_ws_stops(t);
    let b = t.len() - trail_ws(t);
    let u = t.take(b);
    assert(u == trim_seq(p));
    if u.len() > 0 {
        assert(u[0] == p[a]);
        assert(u.last() == t[t.len() - 1 - trail_ws(t)]);
    }
    if !p.contains(c) {
        assert forall|j: int| 0 <= j < u.len() implies u[j] != c by {
            assert(u[j] == p[j + a]);
        }
    }
}


/// The decimal representation of a number reads back as that number: it is
/// made of digits, their value is the number, and it starts with "0" only for 0.
pub proof fn lemma_dec_seq_reads_back(n: nat)
    ensures
        dec_seq(n).len() > 0,
        all_digits(dec_seq(n)),
        digits_value(dec_seq(n)) == n,
        dec_seq(n)[0] == '0' ==> n == 0,
    decreases n,
{
    let s = dec_seq(n);
    if n < 10 {
        assert(s.drop_last() =~= Seq::<char>::empty());
        assert(digits_value(Seq::<char>::empty()) == 0);
        assert(s.last() == digit_char(n));
        assert(digit_value(digit_char(n)) == n);
        assert(digits_value(s) == digits_value(s.drop_last()) * 10 + digit_value(s.last()));
    } else {
        lemma_dec_seq_reads_back(n / 10);
        let p = dec_seq(n / 10);
        let c = digit_char(n % 10);
        assert(s == p.push(c));
        assert(s.drop_last() =~= p);
        assert(digit_value(c) == n % 10);
        assert(s.last() == c);
        assert(digits_value(s) == digits_value(s.drop_last()) * 10 + digit_value(s.last()));
        assert((n / 10) * 10 + n % 10 == n) by (nonlinear_arith);
        assert forall|i: int| 0 <= i < s.len() implies is_digit(#[trigger] s[i]) by {
            if i < p.len() {
                assert(s[i] == p[i]);
            }
        }
        assert(s[0] == p[0]);
    }
}

/// No part that splitting a text at a character gives holds that character.
pub proof fn lemma_split_has_no_separator(s: Seq<char>, c: char)
    ensures
        forall|k: int| 0 <= k < split_seq(s, c).len() ==> !(#[trigger] split_seq(s, c)[k]).contains(c),
    decreases s.len(),
{
    lemma_index_of_bounds(s, c);
    let i = index_of(s, c);
    if i >= 0 {
        let head = s.take(i);
        assert forall|j: int| 0 <= j < head.len() implies head[j] != c by {}
        lemma_split_has_no_separator(s.skip(i + 1), c);
        let rest = split_seq(s.skip(i + 1), c);
        assert forall|k: int| 0 <= k < split_seq(s, c).len() implies !(#[trigger] split_seq(s, c)[k]).contains(c) by {
            if k > 0 {
                assert(split_seq(s, c)[k] == rest[k - 1]);
            }
        }
    }
}

} // verus!
