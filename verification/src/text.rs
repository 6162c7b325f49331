//! Text as the C library hands it out and takes it in: NUL-terminated bytes,
//! and numbers in decimal.

use vstd::prelude::*;
use vstd::string::StringExecFns;
use vstd::utf8::{decode_utf8, valid_utf8};

verus! {

/// The bytes of a C string: everything before the first NUL, or the whole
/// buffer where there is none.
pub open spec fn before_nul(buf: Seq<u8>) -> Seq<u8> {
    match buf.index_of_first(0u8) {
        Some(n) => buf.take(n),
        None => buf,
    }
}

/// The place of the first NUL in `buf`.
pub(crate) fn find_nul(buf: &[u8]) -> (r: Option<usize>)
    ensures
        match r {
            Some(n) => buf@.index_of_first(0u8) == Some(n as int),
            None => buf@.index_of_first(0u8) is None && !buf@.contains(0u8),
        },
        r is Some <==> buf@.contains(0u8),
{
    proof {
        buf@.index_of_first_ensures(0u8);
    }
    let mut i: usize = 0;
    while i < buf.len()
        invariant
            i <= buf.len(),
            forall|j: int| 0 <= j < i ==> buf@[j] != 0u8,
        decreases buf.len() - i,
    {
        if buf[i] == 0 {
            proof {
                buf@.index_of_first_ensures(0u8);
                let k = buf@.index_of_first(0u8)->0;
                assert(k == i as int) by {
                    if k < i {
                        assert(buf@[k] != 0u8);
                    }
                    assert(buf@[i as int] == 0u8);
                }
            }
            return Some(i);
        }
        i = i + 1;
    }
    None
}

/// Copies the bytes of the C string at the start of `buf`.
pub(crate) fn until_nul(buf: &[u8]) -> (r: Vec<u8>)
    ensures
        r@ == before_nul(buf@),
{
    let end: usize = match find_nul(buf) {
        Some(n) => n,
        None => buf.len(),
    };
    proof {
        buf@.index_of_first_ensures(0u8);
    }
    let mut out: Vec<u8> = Vec::new();
    let mut i: usize = 0;
    while i < end
        invariant
            i <= end <= buf.len(),
            out@ == buf@.take(i as int),
        decreases end - i,
    {
        out.push(buf[i]);
        i = i + 1;
        assert(out@ == buf@.take(i as int));
    }
    assert(buf@.take(buf.len() as int) == buf@);
    out
}

/// What `String::from_utf8_lossy` makes of `bytes`.
pub uninterp spec fn utf8_lossy(bytes: Seq<u8>) -> Seq<char>;

/// Decodes `bytes` with `String::from_utf8_lossy`.
///
/// Trusted: the result depends on the bytes alone; valid UTF-8 is decoded as it
/// stands; an invalid part becomes a replacement character, so that only the
/// empty slice gives the empty string.
#[verifier::external_body]
pub(crate) fn lossy(bytes: &[u8]) -> (r: String)
    ensures
        r@ == utf8_lossy(bytes@),
        valid_utf8(bytes@) ==> r@ == decode_utf8(bytes@),
        r@.len() == 0 <==> bytes@.len() == 0,
{
    String::from_utf8_lossy(bytes).into_owned()
}

/// A decimal digit.
pub open spec fn digit(d: nat) -> char {
    (48 + d) as char
}

/// A natural number in decimal, without leading zeros.
pub open spec fn decimal_nat(n: nat) -> Seq<char>
    decreases n,
{
    if n < 10 {
        seq![digit(n)]
    } else {
        decimal_nat(n / 10).push(digit(n % 10))
    }
}

/// An integer in decimal, with a minus sign where it is negative.
pub open spec fn decimal(i: int) -> Seq<char> {
    if i < 0 {
        seq!['-'] + decimal_nat((-i) as nat)
    } else {
        decimal_nat(i as nat)
    }
}

fn digit_str(d: u64) -> (r: &'static str)
    requires
        d < 10,
    ensures
        r@ == seq![digit(d as nat)],
{
    proof {
        reveal_strlit("0");
        reveal_strlit("1");
        reveal_strlit("2");
        reveal_strlit("3");
        reveal_strlit("4");
        reveal_strlit("5");
        reveal_strlit("6");
        reveal_strlit("7");
        reveal_strlit("8");
        reveal_strlit("9");
    }
    if d == 0 {
        "0"
    } else if d == 1 {
        "1"
    } else if d == 2 {
        "2"
    } else if d == 3 {
        "3"
    } else if d == 4 {
        "4"
    } else if d == 5 {
        "5"
    } else if d == 6 {
        "6"
    } else if d == 7 {
        "7"
    } else if d == 8 {
        "8"
    } else {
        "9"
    }
}

/// Appends `n` in decimal.
pub(crate) fn push_decimal(out: &mut String, n: u64)
    ensures
        final(out)@ == old(out)@ + decimal_nat(n as nat),
    decreases n,
{
    if n >= 10 {
        push_decimal(out, n / 10);
    }
    out.append(digit_str(n % 10));
}

/// Appends `i` in decimal.
pub(crate) fn push_decimal_i32(out: &mut String, i: i32)
    ensures
        final(out)@ == old(out)@ + decimal(i as int),
{
    if i < 0 {
        proof {
            reveal_strlit("-");
        }
        out.append("-");
        assert(out@ == old(out)@ + seq!['-']);
        push_decimal(out, (-(i as i64)) as u64);
    } else {
        push_decimal(out, i as u64);
    }
}

/// A C string is what stands before the first NUL of a buffer, however long it is
/// and whatever stands behind; in a buffer without a NUL it is the whole buffer.
pub proof fn c_strings_end_at_the_first_nul(s: Seq<u8>, rest: Seq<u8>)
    requires
        !s.contains(0u8),
    ensures
        before_nul(s + seq![0u8] + rest) == s,
        before_nul(s) == s,
{
    let buf = s + seq![0u8] + rest;
    buf.index_of_first_ensures(0u8);
    s.index_of_first_ensures(0u8);
    assert(buf[s.len() as int] == 0u8);
    let n = buf.index_of_first(0u8)->0;
    if n < s.len() {
        assert(s[n] == 0u8);
    }
    assert(buf.take(s.len() as int) =~= s);
}

} // verus!
