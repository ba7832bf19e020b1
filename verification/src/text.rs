//! Decoding of the fixed-size, zero-terminated byte buffers the foreign
//! surface fills with text (version strings, paths, diagnostics).
//!
//! A buffer's payload is the prefix up to the first terminating zero byte
//! (`nul_prefix`); decoding stops there and validates the payload as UTF-8,
//! reporting `None` instead of assuming validity.

use vstd::prelude::*;
use vstd::utf8::{decode_utf8, valid_utf8};

verus! {

/// Length of the payload of a zero-terminated buffer: the number of bytes
/// before the first zero, or the whole length if no zero occurs.
pub open spec fn nul_len(s: Seq<u8>) -> int
    decreases s.len(),
{
    if s.len() == 0 {
        0
    } else if s.first() == 0u8 {
        0
    } else {
        1 + nul_len(s.drop_first())
    }
}

/// The payload of a zero-terminated buffer.
pub open spec fn nul_prefix(s: Seq<u8>) -> Seq<u8> {
    s.take(nul_len(s))
}

/// An index below which everything is non-zero and at which (if inside the
/// buffer) a zero stands is exactly `nul_len`.
pub proof fn lemma_nul_len_unique(s: Seq<u8>, n: int)
    requires
        0 <= n <= s.len(),
        forall|j: int| 0 <= j < n ==> s[j] != 0u8,
        n < s.len() ==> s[n] == 0u8,
    ensures
        n == nul_len(s),
    decreases s.len(),
{
    if s.len() == 0 {
    } else if s.first() == 0u8 {
        assert(n == 0);
    } else {
        assert(n != 0);
        assert forall|j: int| 0 <= j < n - 1 implies s.drop_first()[j] != 0u8 by {
            assert(s.drop_first()[j] == s[j + 1]);
        }
        if n - 1 < s.drop_first().len() {
            assert(s.drop_first()[n - 1] == s[n]);
        }
        lemma_nul_len_unique(s.drop_first(), n - 1);
    }
}

/// Relies on `std::str::from_utf8`: it returns `Ok` exactly when the bytes
/// are valid UTF-8, and the resulting string is their decoding.
#[verifier::external_body]
fn utf8_to_string(bytes: &[u8]) -> (r: Option<String>)
    ensures
        r is Some <==> valid_utf8(bytes@),
        r matches Some(s) ==> s@ == decode_utf8(bytes@),
{
    match std::str::from_utf8(bytes) {
        Ok(s) => Some(s.to_owned()),
        Err(_) => None,
    }
}

/// Decode a zero-terminated text buffer: take the payload before the first
/// zero byte and validate it as UTF-8. `None` reports illegal text rather
/// than trusting the buffer blindly.
pub fn decode_c_string(buf: &[u8]) -> (r: Option<String>)
    ensures
        r is Some <==> valid_utf8(nul_prefix(buf@)),
        r matches Some(s) ==> s@ == decode_utf8(nul_prefix(buf@)),
{
    let mut n: usize = 0;
    while n < buf.len() && buf[n] != 0
        invariant
            n <= buf@.len(),
            forall|j: int| 0 <= j < n ==> buf@[j] != 0u8,
        decreases buf@.len() - n,
    {
        n = n + 1;
    }
    proof {
        lemma_nul_len_unique(buf@, n as int);
    }
    let mut payload: Vec<u8> = Vec::new();
    let mut i: usize = 0;
    while i < n
        invariant
            i <= n <= buf@.len(),
            payload@ == buf@.subrange(0, i as int),
        decreases n - i,
    {
        payload.push(buf[i]);
        proof {
            assert(payload@ =~= buf@.subrange(0, i + 1));
        }
        i = i + 1;
    }
    proof {
        assert(payload@ =~= nul_prefix(buf@));
    }
    utf8_to_string(payload.as_slice())
}

} // verus!
