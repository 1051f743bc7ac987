//! String handling at the native boundary.
//!
//! Every string that crosses into the native library travels as a
//! NUL-terminated byte string; a caller-supplied string with an interior NUL
//! byte cannot be represented and is rejected as invalid input. Numeric
//! metadata comes back from the native side as decimal text and is parsed
//! here.

use vstd::prelude::*;
use vstd::string::StringSliceAdditionalSpecFns;

use crate::error;
use crate::error::Error;
use crate::error::ErrorKind;

verus! {

/// Whether the byte string holds a NUL byte, which the native
/// string representation cannot carry.
pub open spec fn has_interior_nul(bytes: Seq<u8>) -> bool {
    exists|i: int| 0 <= i < bytes.len() && bytes[i] == 0u8
}

/// The form in which a string crosses the native boundary: its bytes
/// followed by one terminating NUL.
pub open spec fn c_bytes_of(bytes: Seq<u8>) -> Seq<u8> {
    bytes.push(0u8)
}

/// Converts a string to the NUL-terminated byte form the native boundary
/// takes. A string with an interior NUL byte cannot be represented on the
/// C side and is rejected as invalid input.
pub fn to_c_bytes(s: &str) -> (r: Result<Vec<u8>, Error>)
    ensures
        match r {
            Ok(v) => !has_interior_nul(s.spec_bytes()) && v@ == c_bytes_of(s.spec_bytes()),
            Err(e) => has_interior_nul(s.spec_bytes()) && e.kind == ErrorKind::InvalidInput,
        },
{
    let bytes = s.as_bytes();
    let n = bytes.len();
    let mut v: Vec<u8> = Vec::new();
    let mut i: usize = 0;
    while i < n
        invariant
            i <= n,
            n == bytes@.len(),
            bytes@ == s.spec_bytes(),
            v@ == bytes@.subrange(0, i as int),
            forall|j: int| 0 <= j < i ==> bytes@[j] != 0u8,
        decreases n - i,
    {
        let b = bytes[i];
        if b == 0 {
            return Err(error::new(ErrorKind::InvalidInput));
        }
        v.push(b);
        i += 1;
    }
    proof {
        assert(v@ =~= s.spec_bytes());
    }
    v.push(0);
    proof {
        assert(v@ =~= c_bytes_of(s.spec_bytes()));
    }
    Ok(v)
}

/// Whether a character sequence, written in its byte form, holds an
/// interior NUL byte.
pub open spec fn chars_have_nul(s: Seq<char>) -> bool {
    has_interior_nul(vstd::utf8::encode_utf8(s))
}

/// The view of an optional owned string: its characters, if it is there.
pub open spec fn opt_chars(o: Option<String>) -> Option<Seq<char>> {
    match o {
        Some(s) => Some(s@),
        None => None,
    }
}

/// Maps a native return code to a result: a non-negative code is success, a
/// negative one carries the negated OS error code.
pub fn errno_to_result(errno: i32) -> (r: Result<(), Error>)
    requires
        errno > i32::MIN,
    ensures
        match r {
            Ok(u) => errno >= 0,
            Err(e) => errno < 0 && e.kind == error::kind_of_code(-errno as i32),
        },
{
    if errno >= 0 {
        Ok(())
    } else {
        Err(error::from_errno(errno))
    }
}

/// Copies a borrowed string into an owned one.
pub(crate) fn copy_str(s: &str) -> (r: String)
    ensures
        r@ == s@,
{
    String::from_str(s)
}

/// Whether two strings are equal, decided on their byte forms.
///
/// UTF-8 encoding is injective — decoding an encoding gives the characters
/// back — so equal bytes mean equal character sequences and unequal bytes
/// mean unequal ones.
pub fn str_eq(a: &str, b: &str) -> (r: bool)
    ensures
        r == (a@ == b@),
{
    let ab = a.as_bytes();
    let bb = b.as_bytes();
    if ab.len() != bb.len() {
        return false;
    }
    let n = ab.len();
    let mut i: usize = 0;
    while i < n
        invariant
            i <= n,
            n == ab@.len() == bb@.len(),
            ab@ == a.spec_bytes(),
            bb@ == b.spec_bytes(),
            forall|j: int| 0 <= j < i ==> ab@[j] == bb@[j],
        decreases n - i,
    {
        if ab[i] != bb[i] {
            return false;
        }
        i += 1;
    }
    proof {
        assert(a.spec_bytes() =~= b.spec_bytes());
        vstd::utf8::encode_utf8_decode_utf8(a@);
        vstd::utf8::encode_utf8_decode_utf8(b@);
    }
    true
}

/// Whether the character is a decimal digit.
pub open spec fn is_digit(c: char) -> bool {
    '0' <= c && c <= '9'
}

/// The numeric value of a decimal digit character.
pub open spec fn digit_val(c: char) -> int {
    (c as u32) - 48
}

/// Whether every character of the sequence is a decimal digit.
pub open spec fn digits_only(s: Seq<char>) -> bool {
    forall|i: int| 0 <= i < s.len() ==> is_digit(s[i])
}

/// The numeric value of a sequence of decimal digit characters.
pub open spec fn digits_val(s: Seq<char>) -> int
    decreases s.len(),
{
    if s.len() == 0 {
        0
    } else {
        digits_val(s.drop_last()) * 10 + digit_val(s.last())
    }
}

/// The digit part of a decimal numeral: everything after one optional
/// leading plus sign.
pub open spec fn numeral_body(s: Seq<char>) -> Seq<char> {
    if s.len() > 0 && s[0] == '+' {
        s.drop_first()
    } else {
        s
    }
}

/// Whether the sequence is a decimal numeral: an optional leading plus
/// sign, then at least one digit and nothing else.
pub open spec fn is_numeral(s: Seq<char>) -> bool {
    numeral_body(s).len() > 0 && digits_only(numeral_body(s))
}

/// What parsing a string as an unsigned number gives: the numeral's value
/// when the string is a numeral and the value fits, nothing otherwise.
pub open spec fn parsed_usize(s: Seq<char>) -> Option<usize> {
    if is_numeral(s) && digits_val(numeral_body(s)) <= usize::MAX {
        Some(digits_val(numeral_body(s)) as usize)
    } else {
        None
    }
}

/// The value of a digit string is never negative.
proof fn lemma_digits_val_nonneg(s: Seq<char>)
    requires
        digits_only(s),
    ensures
        digits_val(s) >= 0,
    decreases s.len(),
{
    if s.len() > 0 {
        assert(digits_only(s.drop_last()));
        lemma_digits_val_nonneg(s.drop_last());
    }
}

/// Reading one more digit multiplies the value so far by ten and adds the
/// digit.
proof fn lemma_digits_val_step(s: Seq<char>, i: int)
    requires
        0 <= i < s.len(),
    ensures
        digits_val(s.take(i + 1)) == digits_val(s.take(i)) * 10 + digit_val(s[i]),
{
    assert(s.take(i + 1).drop_last() =~= s.take(i));
    assert(s.take(i + 1).last() == s[i]);
}

/// A digit string is worth at least any of its prefixes.
proof fn lemma_digits_val_prefix(s: Seq<char>, i: int)
    requires
        digits_only(s),
        0 <= i <= s.len(),
    ensures
        digits_val(s.take(i)) <= digits_val(s),
    decreases s.len() - i,
{
    if i == s.len() {
        assert(s.take(i) =~= s);
    } else {
        lemma_digits_val_step(s, i);
        assert(digits_only(s.take(i)));
        lemma_digits_val_nonneg(s.take(i));
        lemma_digits_val_prefix(s, i + 1);
    }
}

/// Parses a decimal numeral — an optional leading plus sign, then one or
/// more digits — as an unsigned number. Returns nothing when the string is
/// not of that shape or its value does not fit.
pub fn parse_usize(s: &str) -> (r: Option<usize>)
    ensures
        r == parsed_usize(s@),
{
    broadcast use vstd::string::is_ascii_spec_bytes;

    if !s.is_ascii() {
        proof {
            let k = choose|k: int|
                0 <= k < s@.len() && !('\0' <= #[trigger] s@[k] && s@[k] <= '\u{7f}');
            if is_numeral(s@) {
                let body = numeral_body(s@);
                if k == 0 && s@.len() > 0 && s@[0] == '+' {
                    assert(('+' as u32) == 43);
                    assert('\0' <= s@[0] && s@[0] <= '\u{7f}');
                } else {
                    let j = if s@.len() > 0 && s@[0] == '+' {
                        k - 1
                    } else {
                        k
                    };
                    assert(body[j] == s@[k]);
                    assert(is_digit(body[j]));
                    assert('\0' <= s@[k] && s@[k] <= '\u{7f}');
                }
            }
        }
        return None;
    }
    let bytes = s.as_bytes();
    let n = bytes.len();
    proof {
        assert(n == s@.len());
    }
    let start: usize = if n > 0 && bytes[0] == 43 {
        proof {
            assert((s@[0] as u8) == 43 && (s@[0] as u32) < 128);
            assert((s@[0] as u32) == 43);
            assert(s@[0] == '+');
        }
        1
    } else {
        proof {
            if n > 0 {
                assert((s@[0] as u32) < 128);
                assert(('+' as u32) == 43);
                assert(s@[0] == '+' ==> (s@[0] as u8) == 43);
            }
        }
        0
    };
    let ghost body = numeral_body(s@);
    proof {
        assert(body =~= s@.subrange(start as int, n as int));
    }
    if n == start {
        return None;
    }
    let mut value: usize = 0;
    let mut i: usize = start;
    while i < n
        invariant
            start <= i <= n,
            n == bytes@.len() == s@.len(),
            bytes@ == s.spec_bytes(),
            s.is_ascii(),
            body == numeral_body(s@),
            body =~= s@.subrange(start as int, n as int),
            forall|j: int| 0 <= j < s@.len() ==> (s@[j] as u32) < 128 && bytes@[j] == (s@[j] as u8),
            digits_only(body.take(i - start)),
            value == digits_val(body.take(i - start)),
        decreases n - i,
    {
        let b = bytes[i];
        proof {
            assert(b == (s@[i as int] as u8));
            assert(body[i - start] == s@[i as int]);
            assert((48 <= b <= 57) == is_digit(s@[i as int]));
            assert(48 <= b <= 57 ==> digit_val(s@[i as int]) == b - 48);
        }
        if b < 48 || b > 57 {
            return None;
        }
        let d = (b - 48) as usize;
        proof {
            lemma_digits_val_step(body, i - start);
        }
        let next = match value.checked_mul(10) {
            Some(x) => x.checked_add(d),
            None => None,
        };
        match next {
            Some(x) => {
                value = x;
            },
            None => {
                proof {
                    if is_numeral(s@) {
                        lemma_digits_val_prefix(body, i - start + 1);
                        assert(digits_val(body) > usize::MAX);
                    }
                }
                return None;
            },
        }
        i += 1;
    }
    proof {
        assert(body.take(n - start) =~= body);
    }
    Some(value)
}

} // verus!
