//! Payloads of the ISP commands on the vendor-daemon control socket.
//!
//! Every answer is checked against its exact wire size: a payload of another
//! length means the daemon and this client disagree on the struct, and
//! decoding it would give offset-shifted, plausible-looking numbers.

use vstd::prelude::*;

use crate::hal::common::imaging::{
    AeAttr, AeRunInfo, AE_ATTR_WIRE_LEN, AE_RUN_INFO_WIRE_LEN, AWB_STAT_WIRE_LEN,
    MWB_ATTR_WIRE_LEN,
};
use crate::hal::wire::{le_bytes_i32, le_i32_at, le_u32_at, push_i32_le, read_i32_le, read_u32_le};

verus! {

/// The little-endian u16 at `s[off..off + 2]`.
pub open spec fn le_u16_at(s: Seq<u8>, off: int) -> int {
    s[off] as int + 256 * (s[off + 1] as int)
}

/// The two little-endian bytes of `v`.
pub open spec fn le_bytes_u16(v: u16) -> Seq<u8> {
    seq![(v % 256) as u8, (v / 256) as u8]
}

/// Body of a single-`i32` command (brightness, contrast, saturation,
/// sharpness, WDR, BLC, hue): the value, LE.
pub fn i32_request(value: i32) -> (req: Vec<u8>)
    ensures
        req@ == le_bytes_i32(value),
{
    let mut req: Vec<u8> = Vec::new();
    push_i32_le(&mut req, value);
    req
}

/// Body of a boolean switch (IR filter; AE mode, where 1 is auto): 1 or 0 as an `i32`.
pub fn bool_request(enabled: bool) -> (req: Vec<u8>)
    ensures
        req@ == le_bytes_i32(if enabled { 1 } else { 0 }),
{
    let value: i32 = if enabled { 1 } else { 0 };
    i32_request(value)
}

/// Body of `SET_WB_TYPE` and `SET_POWER_HZ`: the `u16` widened to an `i32`.
pub fn u16_as_i32_request(value: u16) -> (req: Vec<u8>)
    ensures
        req@ == le_bytes_i32(value as i32),
{
    i32_request(value as i32)
}

/// Body of `SET_STYLE_ID`: the id widened to an `i32`.
pub fn u8_as_i32_request(value: u8) -> (req: Vec<u8>)
    ensures
        req@ == le_bytes_i32(value as i32),
{
    i32_request(value as i32)
}

/// Body of `SET_MWB_ATTR`: `[u16 r_gain][u16 b_gain]`, LE.
pub fn mwb_attr_request(r_gain: u16, b_gain: u16) -> (req: Vec<u8>)
    ensures
        req@ == le_bytes_u16(r_gain) + le_bytes_u16(b_gain),
{
    let mut req: Vec<u8> = Vec::new();
    req.push((r_gain % 256) as u8);
    req.push((r_gain / 256) as u8);
    req.push((b_gain % 256) as u8);
    req.push((b_gain / 256) as u8);
    assert(req@ =~= le_bytes_u16(r_gain) + le_bytes_u16(b_gain));
    req
}

/// Body of `AE_SET_ATTR`: `[i32 a_gain_max][i32 exp_time_max]`, LE, where an
/// absent ceiling travels as 0, the daemon's "leave alone".
pub fn ae_attr_request(a_gain_max: Option<i32>, exp_time_max: Option<i32>) -> (req: Vec<u8>)
    ensures
        req@ == le_bytes_i32(
            match a_gain_max {
                Some(v) => v,
                None => 0,
            },
        ) + le_bytes_i32(
            match exp_time_max {
                Some(v) => v,
                None => 0,
            },
        ),
{
    let a = match a_gain_max {
        Some(v) => v,
        None => 0,
    };
    let e = match exp_time_max {
        Some(v) => v,
        None => 0,
    };
    let mut req = i32_request(a);
    push_i32_le(&mut req, e);
    req
}

/// Decode the AE luma answer: exactly one byte.
pub fn decode_ae_luma(status: i32, data: &[u8]) -> (r: Option<u8>)
    ensures
        status == 0 && data@.len() == 1 ==> r == Some(data@[0]),
        !(status == 0 && data@.len() == 1) ==> r is None,
{
    if status == 0 && data.len() == 1 {
        Some(data[0])
    } else {
        None
    }
}

/// Decode the luminance factor answer: exactly one LE `i32`, and strictly
/// positive (the driver reports failure as -1, and a non-positive factor
/// would read as daylight).
pub fn decode_lum_factor(status: i32, data: &[u8]) -> (r: Option<i32>)
    ensures
        status == 0 && data@.len() == 4 && le_i32_at(data@, 0) > 0 ==> r == Some(
            le_i32_at(data@, 0) as i32,
        ),
        !(status == 0 && data@.len() == 4 && le_i32_at(data@, 0) > 0) ==> r is None,
{
    if status == 0 && data.len() == 4 {
        let factor = read_i32_le(data, 0);
        if factor > 0 {
            Some(factor)
        } else {
            None
        }
    } else {
        None
    }
}

/// Decode the AE limits answer: exactly [`AE_ATTR_WIRE_LEN`] bytes, with the
/// exposure ceiling and floor at 0 and 4, the digital gain ceiling at 8, the
/// analog gain ceiling at 24 and the target luminance at 40 (u32 LE).
pub fn decode_ae_attr(status: i32, data: &[u8]) -> (r: Option<AeAttr>)
    ensures
        status == 0 && data@.len() == AE_ATTR_WIRE_LEN ==> r == Some(
            AeAttr {
                exp_time_max: le_u32_at(data@, 0) as u32,
                exp_time_min: le_u32_at(data@, 4) as u32,
                d_gain_max: le_u32_at(data@, 8) as u32,
                a_gain_max: le_u32_at(data@, 24) as u32,
                target_lumiance: le_u32_at(data@, 40) as u32,
            },
        ),
        !(status == 0 && data@.len() == AE_ATTR_WIRE_LEN) ==> r is None,
{
    if status == 0 && data.len() == AE_ATTR_WIRE_LEN {
        Some(
            AeAttr {
                exp_time_max: read_u32_le(data, 0),
                exp_time_min: read_u32_le(data, 4),
                d_gain_max: read_u32_le(data, 8),
                a_gain_max: read_u32_le(data, 24),
                target_lumiance: read_u32_le(data, 40),
            },
        )
    } else {
        None
    }
}

/// Decode the AWB statistics answer: exactly ten LE `i32` bins. All-zero
/// bins are a legitimate reading and decode as such.
pub fn decode_awb_stat(status: i32, data: &[u8]) -> (r: Option<[i32; 10]>)
    ensures
        status == 0 && data@.len() == AWB_STAT_WIRE_LEN ==> (r matches Some(bins) && forall|
            i: int,
        |
            0 <= i < 10 ==> #[trigger] bins@[i] == le_i32_at(data@, 4 * i)),
        !(status == 0 && data@.len() == AWB_STAT_WIRE_LEN) ==> r is None,
{
    if !(status == 0 && data.len() == AWB_STAT_WIRE_LEN) {
        return None;
    }
    let mut bins = [0i32; 10];
    let mut i: usize = 0;
    while i < 10
        invariant
            data@.len() == 40,
            i <= 10,
            bins@.len() == 10,
            forall|k: int| 0 <= k < i ==> #[trigger] bins@[k] == le_i32_at(data@, 4 * k),
        decreases 10 - i,
    {
        bins[i] = read_i32_le(data, i * 4);
        i = i + 1;
    }
    Some(bins)
}

/// Decode the manual white-balance answer: exactly [`MWB_ATTR_WIRE_LEN`]
/// bytes, red gain at 0 and blue gain at 4 (u16 LE); the green gain and the
/// offsets are not reported.
pub fn decode_mwb_attr(status: i32, data: &[u8]) -> (r: Option<(u16, u16)>)
    ensures
        status == 0 && data@.len() == MWB_ATTR_WIRE_LEN ==> r == Some(
            (le_u16_at(data@, 0) as u16, le_u16_at(data@, 4) as u16),
        ),
        !(status == 0 && data@.len() == MWB_ATTR_WIRE_LEN) ==> r is None,
{
    if status == 0 && data.len() == MWB_ATTR_WIRE_LEN {
        let r_gain = (data[0] as u16) + 256 * (data[1] as u16);
        let b_gain = (data[4] as u16) + 256 * (data[5] as u16);
        Some((r_gain, b_gain))
    } else {
        None
    }
}

/// Decode the AE run-info answer: exactly [`AE_RUN_INFO_WIRE_LEN`] bytes:
/// three status bytes and a pad, then analog gain, digital gain, ISP digital
/// gain and exposure time (i32 LE at 4, 8, 12, 16).
pub fn decode_ae_run_info(status: i32, data: &[u8]) -> (r: Option<AeRunInfo>)
    ensures
        status == 0 && data@.len() == AE_RUN_INFO_WIRE_LEN ==> r == Some(
            AeRunInfo {
                avg_lumi: data@[0],
                compensation_lumi: data@[1],
                darked_flag: data@[2],
                a_gain: le_i32_at(data@, 4) as i32,
                d_gain: le_i32_at(data@, 8) as i32,
                isp_d_gain: le_i32_at(data@, 12) as i32,
                exp_time: le_i32_at(data@, 16) as i32,
            },
        ),
        !(status == 0 && data@.len() == AE_RUN_INFO_WIRE_LEN) ==> r is None,
{
    if status == 0 && data.len() == AE_RUN_INFO_WIRE_LEN {
        Some(
            AeRunInfo {
                avg_lumi: data[0],
                compensation_lumi: data[1],
                darked_flag: data[2],
                a_gain: read_i32_le(data, 4),
                d_gain: read_i32_le(data, 8),
                isp_d_gain: read_i32_le(data, 12),
                exp_time: read_i32_le(data, 16),
            },
        )
    } else {
        None
    }
}

} // verus!
