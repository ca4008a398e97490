//! Decoding and validation of the single HID output report.
use vstd::prelude::*;

verus! {

/// The longest activation accepted, in milliseconds (ten minutes).
pub const MAX_DURATION: u32 = 600_000;

/// The report identifier of the one report this device defines.
pub const REPORT_ID: u8 = 1;

/// What the transport answers to the host for an output report.
#[derive(Clone, Copy, Debug, PartialEq, Eq, Structural)]
pub enum OutResponse {
    Accepted,
    Rejected,
}

/// The unsigned value of four bytes read most significant first.
pub open spec fn be_u32(b: Seq<u8>) -> int
    recommends
        b.len() == 4,
{
    b[0] as int * 16777216 + b[1] as int * 65536 + b[2] as int * 256 + b[3] as int
}

/// A duration that starts an activation.
pub open spec fn valid_duration(d: int) -> bool {
    1 <= d <= MAX_DURATION as int
}

/// The transport-level answer to a payload: only its length matters.
pub open spec fn response_for(data: Seq<u8>) -> OutResponse {
    if data.len() == 4 {
        OutResponse::Accepted
    } else {
        OutResponse::Rejected
    }
}

/// The command that a payload forwards to the relay, if any.
pub open spec fn command_of(data: Seq<u8>) -> Option<u32> {
    if data.len() == 4 && valid_duration(be_u32(data)) {
        Some(be_u32(data) as u32)
    } else {
        None
    }
}

/// Reads a big-endian `u32` from a payload of exactly four bytes.
pub fn decode_duration(data: &[u8]) -> (r: Option<u32>)
    ensures
        data@.len() == 4 <==> r.is_some(),
        r matches Some(d) ==> d as int == be_u32(data@),
{
    if data.len() != 4 {
        return None;
    }
    let b0 = data[0] as u32;
    let b1 = data[1] as u32;
    let b2 = data[2] as u32;
    let b3 = data[3] as u32;
    assert(b0 * 16777216 <= 255 * 16777216) by (nonlinear_arith)
        requires
            b0 <= 255,
    ;
    assert(b1 * 65536 <= 255 * 65536) by (nonlinear_arith)
        requires
            b1 <= 255,
    ;
    assert(b2 * 256 <= 255 * 256) by (nonlinear_arith)
        requires
            b2 <= 255,
    ;
    Some(b0 * 16777216 + b1 * 65536 + b2 * 256 + b3)
}

/// Whether a duration is in the accepted range `1 ..= MAX_DURATION`.
pub fn is_valid_duration(d: u32) -> (r: bool)
    ensures
        r == valid_duration(d as int),
{
    d > 0 && d <= MAX_DURATION
}

/// Validates a payload: the transport answer, and the command to forward.
pub fn validate_report(data: &[u8]) -> (r: (OutResponse, Option<u32>))
    ensures
        r.0 == response_for(data@),
        r.1 == command_of(data@),
{
    match decode_duration(data) {
        None => (OutResponse::Rejected, None),
        Some(d) => {
            if is_valid_duration(d) {
                (OutResponse::Accepted, Some(d))
            } else {
                (OutResponse::Accepted, None)
            }
        },
    }
}

} // verus!
