//! One body-position query: composing the options, gating on the lifecycle
//! guard, and translating the foreign surface's raw outcome — a status
//! code, six doubles and a diagnostic buffer — into a structured result.
//!
//! The six numeric values pass through this layer untouched, as the bit
//! patterns of the surface's double-precision outputs; the caller
//! reinterprets them. A calculation is wholly successful or wholly failed:
//! a non-negative status code carries the six values and no diagnostic, a
//! negative one carries the decoded diagnostic and no values.

use vstd::prelude::*;
use vstd::utf8::{decode_utf8, valid_utf8};

use crate::body::{body_id, Body};
use crate::flag::{mask_of, compose_flags, Flag};
use crate::lifecycle::{Ephemeris, LifecycleState};
use crate::text::{decode_c_string, nul_prefix};

verus! {

/// Outcome of a position query. The six numeric fields hold the bit
/// patterns of the foreign surface's doubles: longitude, latitude,
/// distance, and their rates of change. They are meaningful exactly when
/// `code` is non-negative; the diagnostic is populated exactly when it is
/// negative.
pub struct CalcResult {
    pub lng: u64,
    pub lat: u64,
    pub dist: u64,
    pub lng_speed: u64,
    pub lat_speed: u64,
    pub dist_speed: u64,
    pub code: i32,
    pub error: String,
}

/// What the foreign surface is to be asked: the body's ordinal identifier
/// and the composed option bitmask. Gated on the guard's `Ready` window —
/// a query outside it is a programming error and is excluded.
pub fn prepare_calc(g: &Ephemeris, body: Body, flags: &[Flag]) -> (r: (i32, u32))
    requires
        g@.state == LifecycleState::Ready,
    ensures
        r.0 == body_id(body),
        r.1 == mask_of(flags@),
{
    (body.id(), compose_flags(flags))
}

/// Translate a completed foreign call. `values` are the six output slots,
/// `error_buf` the zero-terminated diagnostic buffer, `code` the returned
/// status.
///
/// A non-negative code succeeds: the six slots are carried over
/// positionally and the diagnostic is empty, whatever the buffer holds. A
/// negative code fails: the buffer's payload is decoded as the diagnostic,
/// the numeric slots are not exposed, and `None` reports a payload that is
/// not legal text.
pub fn interpret_calc(code: i32, values: &[u64], error_buf: &[u8]) -> (r: Option<CalcResult>)
    requires
        values@.len() == 6,
    ensures
        code >= 0 ==> (r matches Some(c) && c.code == code && c.lng == values@[0] && c.lat
            == values@[1] && c.dist == values@[2] && c.lng_speed == values@[3] && c.lat_speed
            == values@[4] && c.dist_speed == values@[5] && c.error@ == Seq::<char>::empty()),
        code < 0 ==> ((r is Some <==> valid_utf8(nul_prefix(error_buf@))) && (r matches Some(c)
            ==> c.code == code && c.error@ == decode_utf8(nul_prefix(error_buf@)) && c.lng == 0
            && c.lat == 0 && c.dist == 0 && c.lng_speed == 0 && c.lat_speed == 0 && c.dist_speed
            == 0)),
{
    if code >= 0 {
        Some(
            CalcResult {
                lng: values[0],
                lat: values[1],
                dist: values[2],
                lng_speed: values[3],
                lat_speed: values[4],
                dist_speed: values[5],
                code,
                error: String::new(),
            },
        )
    } else {
        match decode_c_string(error_buf) {
            Some(message) => Some(
                CalcResult {
                    lng: 0,
                    lat: 0,
                    dist: 0,
                    lng_speed: 0,
                    lat_speed: 0,
                    dist_speed: 0,
                    code,
                    error: message,
                },
            ),
            None => None,
        }
    }
}

/// Law: a failed calculation whose diagnostic buffer carries any legal
/// payload at all yields a non-empty diagnostic — the decoding of a
/// non-empty valid byte sequence is never empty.
pub proof fn lemma_nonempty_diagnostic(payload: Seq<u8>)
    requires
        valid_utf8(payload),
        payload.len() > 0,
    ensures
        decode_utf8(payload).len() > 0,
{
}

} // verus!
