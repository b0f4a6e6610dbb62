//! Percent-decoding of text, as used in paths and query strings.
use vstd::prelude::*;
use vstd::string::StringSliceAdditionalSpecFns;

verus! {

/// The value of one hexadecimal digit, if the byte is one.
pub open spec fn hex_digit_value(b: u8) -> Option<u8> {
    if 0x30 <= b <= 0x39 {
        Some((b - 0x30) as u8)
    } else if 0x61 <= b <= 0x66 {
        Some((b - 0x61 + 10) as u8)
    } else if 0x41 <= b <= 0x46 {
        Some((b - 0x41 + 10) as u8)
    } else {
        None
    }
}

/// The byte that the two characters after a `%` stand for, read as a base-16
/// number in the way std's `u8::from_str_radix` reads it: a leading `+` is a
/// sign, so `+` and one digit stand for that digit.
pub open spec fn escape_value(h1: u8, h2: u8) -> Option<u8> {
    if h1 == 0x2b {
        hex_digit_value(h2)
    } else {
        match (hex_digit_value(h1), hex_digit_value(h2)) {
            (Some(a), Some(b)) => Some((a * 16 + b) as u8),
            _ => None,
        }
    }
}

/// The bytes that percent-decoding gives: each `%` and the two bytes after it
/// become the byte they stand for, every other byte stays; `None` where a `%`
/// is not followed by two bytes that stand for a byte.
pub open spec fn percent_decoded(s: Seq<u8>) -> Option<Seq<u8>>
    decreases s.len(),
{
    if s.len() == 0 {
        Some(seq![])
    } else if s[0] == 0x25 {
        if s.len() < 3 {
            None
        } else {
            match escape_value(s[1], s[2]) {
                Some(b) => match percent_decoded(s.skip(3)) {
                    Some(r) => Some(seq![b] + r),
                    None => None,
                },
                None => None,
            }
        }
    } else {
        match percent_decoded(s.skip(1)) {
            Some(r) => Some(seq![s[0]] + r),
            None => None,
        }
    }
}

fn hex_digit(b: u8) -> (r: Option<u8>)
    ensures
        r == hex_digit_value(b),
{
    if 0x30 <= b && b <= 0x39 {
        Some(b - 0x30)
    } else if 0x61 <= b && b <= 0x66 {
        Some(b - 0x61 + 10)
    } else if 0x41 <= b && b <= 0x46 {
        Some(b - 0x41 + 10)
    } else {
        None
    }
}

fn escape(h1: u8, h2: u8) -> (r: Option<u8>)
    ensures
        r == escape_value(h1, h2),
{
    if h1 == 0x2b {
        hex_digit(h2)
    } else {
        match (hex_digit(h1), hex_digit(h2)) {
            (Some(a), Some(b)) => Some(a * 16 + b),
            _ => None,
        }
    }
}

/// Percent-decodes a sequence of bytes.
pub fn percent_decode_bytes(s: &[u8]) -> (r: Option<Vec<u8>>)
    ensures
        r matches Some(v) ==> percent_decoded(s@) == Some(v@),
        r is None ==> percent_decoded(s@) is None,
{
    let mut decoded: Vec<u8> = Vec::new();
    let mut i: usize = 0;
    let n = s.len();
    assert(s@.skip(0) =~= s@);
    while i < n
        invariant
            n == s@.len(),
            i <= n,
            percent_decoded(s@) == match percent_decoded(s@.skip(i as int)) {
                Some(r) => Some(decoded@ + r),
                None => None::<Seq<u8>>,
            },
        decreases n - i,
    {
        let ghost rest = s@.skip(i as int);
        if s[i] == 0x25 {
            if n - i < 3 {
                return None;
            }
            assert(rest[1] == s@[i + 1] && rest[2] == s@[i + 2]);
            match escape(s[i + 1], s[i + 2]) {
                Some(b) => {
                    assert(rest.skip(3) =~= s@.skip(i + 3));
                    let ghost before = decoded@;
                    decoded.push(b);
                    proof {
                        match percent_decoded(s@.skip(i + 3)) {
                            Some(r) => assert(before + (seq![b] + r) =~= decoded@ + r),
                            None => {},
                        }
                    }
                    i = i + 3;
                },
                None => {
                    return None;
                },
            }
        } else {
            assert(rest.skip(1) =~= s@.skip(i + 1));
            let ghost before = decoded@;
            decoded.push(s[i]);
            proof {
                match percent_decoded(s@.skip(i + 1)) {
                    Some(r) => assert(before + (seq![s@[i as int]] + r) =~= decoded@ + r),
                    None => {},
                }
            }
            i = i + 1;
        }
    }
    assert(s@.skip(n as int) =~= Seq::<u8>::empty());
    assert(decoded@ + Seq::<u8>::empty() =~= decoded@);
    Some(decoded)
}

/// The ability of a text to be percent-decoded.
pub trait PercentDecode {
    /// The bytes that are decoded: the UTF-8 encoding of the text.
    spec fn percent_source(&self) -> Seq<u8>;

    /// Percent-decodes the text; `None` where a `%` is not followed by two
    /// characters that stand for a byte.
    fn percent_decode(&self) -> (r: Option<Vec<u8>>)
        ensures
            r matches Some(v) ==> percent_decoded(self.percent_source()) == Some(v@),
            r is None ==> percent_decoded(self.percent_source()) is None,
    ;
}

impl PercentDecode for str {
    open spec fn percent_source(&self) -> Seq<u8> {
        self.spec_bytes()
    }

    fn percent_decode(&self) -> (r: Option<Vec<u8>>) {
        percent_decode_bytes(self.as_bytes())
    }
}

impl PercentDecode for String {
    open spec fn percent_source(&self) -> Seq<u8> {
        vstd::utf8::encode_utf8(self@)
    }

    fn percent_decode(&self) -> (r: Option<Vec<u8>>) {
        percent_decode_bytes(self.as_str().as_bytes())
    }
}


/// Bytes without a `%` decode to themselves.
pub proof fn lemma_decode_without_percent(s: Seq<u8>)
    requires
        !s.contains(0x25u8),
    ensures
        percent_decoded(s) == Some(s),
    decreases s.len(),
{
    if s.len() > 0 {
        assert(s[0] != 0x25u8);
        assert(!s.skip(1).contains(0x25u8)) by {
            if s.skip(1).contains(0x25u8) {
                let k = choose|k: int| 0 <= k < s.skip(1).len() && s.skip(1)[k] == 0x25u8;
                assert(s[k + 1] == 0x25u8);
            }
        }
        lemma_decode_without_percent(s.skip(1));
        assert(seq![s[0]] + s.skip(1) =~= s);
    }
}

/// Decoding a `%` followed by two hexadecimal digits, and then the rest,
/// gives the byte the digits stand for and then the decoded rest.
pub proof fn lemma_decode_escape(h1: u8, h2: u8, rest: Seq<u8>)
    requires
        hex_digit_value(h1) is Some,
        hex_digit_value(h2) is Some,
    ensures
        percent_decoded(seq![0x25u8, h1, h2] + rest) == match percent_decoded(rest) {
            Some(r) => Some(seq![(hex_digit_value(h1)->0 * 16 + hex_digit_value(h2)->0) as u8] + r),
            None => None,
        },
{
    let s = seq![0x25u8, h1, h2] + rest;
    assert(s.skip(3) =~= rest);
    assert(s[0] == 0x25u8 && s[1] == h1 && s[2] == h2);
}

} // verus!
