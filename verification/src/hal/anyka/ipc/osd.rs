//! Payloads of the OSD commands on the vendor-daemon control socket, and the
//! checks made on them before any round trip.

use vstd::prelude::*;

use crate::hal::common::{check_result, sdk_result_ok};
use crate::hal::wire::{le_bytes_i32, le_bytes_u64, le_i32_at, push_i32_le, push_u64_le, read_i32_le};
use crate::platform::{is_hardware_failure, is_invalid_parameter, PlatformError, PlatformResult};
use crate::text::{dec_int, dec_nat, fmt_i64, fmt_u64};

use super::imaging::le_bytes_u16;

verus! {

/// Width and height of an OSD channel's largest rectangle.
#[derive(Debug, Clone, Copy, PartialEq, Eq, Structural)]
pub struct ChannelDims {
    pub width: i32,
    pub height: i32,
}

/// Body of `OSD_INIT`: the input handle as a `u64`, LE.
pub fn osd_init_request(vi_handle: u64) -> (req: Vec<u8>)
    ensures
        req@ == le_bytes_u64(vi_handle),
{
    let mut req: Vec<u8> = Vec::new();
    push_u64_le(&mut req, vi_handle);
    assert(req@ =~= le_bytes_u64(vi_handle));
    req
}

/// Message of an `OSD_INIT` answer shorter than its 16 bytes.
pub open spec fn msg_osd_init_short(len: nat) -> Seq<char> {
    "osd_init: short response ("@ + dec_nat(len) + " bytes)"@
}

/// Decode the answer to `OSD_INIT`: the status first, then four `i32`s,
/// the main channel's width and height and the sub channel's.
pub fn decode_osd_init(status: i32, resp: &[u8]) -> (res: PlatformResult<[ChannelDims; 2]>)
    ensures
        status != 0 ==> sdk_result_ok(status, "osd_init"@, res),
        status == 0 && resp@.len() < 16 ==> is_hardware_failure(res, msg_osd_init_short(resp@.len())),
        status == 0 && resp@.len() >= 16 ==> (res matches Ok(d) && d[0].width == le_i32_at(resp@, 0)
            && d[0].height == le_i32_at(resp@, 4) && d[1].width == le_i32_at(resp@, 8) && d[1].height
            == le_i32_at(resp@, 12)),
{
    if status != 0 {
        return match check_result(status, "osd_init") {
            Ok(()) => Ok([ChannelDims { width: 0, height: 0 }, ChannelDims { width: 0, height: 0 }]),
            Err(e) => Err(e),
        };
    }
    if resp.len() < 16 {
        let mut m = String::from_str("osd_init: short response (");
        m.append(fmt_u64(resp.len() as u64).as_str());
        m.append(" bytes)");
        return Err(PlatformError::HardwareFailure(m));
    }
    let main = ChannelDims { width: read_i32_le(resp, 0), height: read_i32_le(resp, 4) };
    let sub = ChannelDims { width: read_i32_le(resp, 8), height: read_i32_le(resp, 12) };
    Ok([main, sub])
}

/// Body of `OSD_SET_RECT`: `[u64 vi_handle][i32 channel][i32 rect][i32 x]
/// [i32 y][i32 w][i32 h]`, LE.
pub fn osd_set_rect_request(vi_handle: u64, channel: i32, rect: i32, x: i32, y: i32, w: i32, h: i32) -> (req:
    Vec<u8>)
    ensures
        req@ == le_bytes_u64(vi_handle) + le_bytes_i32(channel) + le_bytes_i32(rect) + le_bytes_i32(x)
            + le_bytes_i32(y) + le_bytes_i32(w) + le_bytes_i32(h),
{
    let mut req: Vec<u8> = Vec::new();
    push_u64_le(&mut req, vi_handle);
    push_i32_le(&mut req, channel);
    push_i32_le(&mut req, rect);
    push_i32_le(&mut req, x);
    push_i32_le(&mut req, y);
    push_i32_le(&mut req, w);
    push_i32_le(&mut req, h);
    assert(req@ =~= le_bytes_u64(vi_handle) + le_bytes_i32(channel) + le_bytes_i32(rect) + le_bytes_i32(x)
        + le_bytes_i32(y) + le_bytes_i32(w) + le_bytes_i32(h));
    req
}

/// The glyph codes, each as two LE bytes.
pub open spec fn glyph_bytes(glyphs: Seq<u16>) -> Seq<u8>
    decreases glyphs.len(),
{
    if glyphs.len() == 0 {
        Seq::empty()
    } else {
        glyph_bytes(glyphs.drop_last()) + le_bytes_u16(glyphs.last())
    }
}

/// Message of a glyph string that is empty or longer than the limit.
pub open spec fn msg_glyph_count(n: nat) -> Seq<char> {
    "osd_draw_str: glyph count "@ + dec_nat(n) + " out of range"@
}

/// Body of `OSD_DRAW_STR`: `[i32 channel][i32 rect][i32 x][i32 y][u16 count]`
/// then each glyph code as a `u16`, LE. A glyph string that is empty or
/// longer than `max_glyphs` (the OSD encoder's limit, at most `u16::MAX`)
/// is refused before any round trip.
pub fn osd_draw_str_request(channel: i32, rect: i32, x: i32, y: i32, glyphs: &[u16], max_glyphs: usize) -> (res:
    PlatformResult<Vec<u8>>)
    requires
        max_glyphs <= u16::MAX,
    ensures
        (glyphs@.len() == 0 || glyphs@.len() > max_glyphs) ==> is_invalid_parameter(
            res,
            msg_glyph_count(glyphs@.len()),
        ),
        (0 < glyphs@.len() <= max_glyphs) ==> (res matches Ok(req) && req@ == le_bytes_i32(channel)
            + le_bytes_i32(rect) + le_bytes_i32(x) + le_bytes_i32(y) + le_bytes_u16(glyphs@.len() as u16)
            + glyph_bytes(glyphs@)),
{
    if glyphs.len() == 0 || glyphs.len() > max_glyphs {
        let mut m = String::from_str("osd_draw_str: glyph count ");
        m.append(fmt_u64(glyphs.len() as u64).as_str());
        m.append(" out of range");
        return Err(PlatformError::InvalidParameter(m));
    }
    let mut req: Vec<u8> = Vec::new();
    push_i32_le(&mut req, channel);
    push_i32_le(&mut req, rect);
    push_i32_le(&mut req, x);
    push_i32_le(&mut req, y);
    let count = glyphs.len() as u16;
    req.push((count % 256) as u8);
    req.push((count / 256) as u8);
    let ghost head = le_bytes_i32(channel) + le_bytes_i32(rect) + le_bytes_i32(x) + le_bytes_i32(y)
        + le_bytes_u16(count);
    assert(req@ =~= head);
    let mut i: usize = 0;
    while i < glyphs.len()
        invariant
            i <= glyphs@.len(),
            req@ == head + glyph_bytes(glyphs@.subrange(0, i as int)),
        decreases glyphs@.len() - i,
    {
        let g = glyphs[i];
        req.push((g % 256) as u8);
        req.push((g / 256) as u8);
        proof {
            let before = glyphs@.subrange(0, i as int);
            let after = glyphs@.subrange(0, i + 1);
            assert(after.drop_last() =~= before);
            assert(after.last() == g);
        }
        i = i + 1;
    }
    assert(glyphs@.subrange(0, glyphs@.len() as int) =~= glyphs@);
    assert(req@ =~= head + glyph_bytes(glyphs@));
    Ok(req)
}

/// Body of `OSD_SET_ENABLE`: `[i32 channel][i32 rect][i32 enable]`, LE,
/// with `enable` 1 or 0.
pub fn osd_set_enable_request(channel: i32, rect: i32, enable: bool) -> (req: Vec<u8>)
    ensures
        req@ == le_bytes_i32(channel) + le_bytes_i32(rect) + le_bytes_i32(if enable { 1 } else { 0 }),
{
    let mut req: Vec<u8> = Vec::new();
    push_i32_le(&mut req, channel);
    push_i32_le(&mut req, rect);
    push_i32_le(&mut req, if enable { 1 } else { 0 });
    assert(req@ =~= le_bytes_i32(channel) + le_bytes_i32(rect) + le_bytes_i32(if enable { 1 } else { 0 }));
    req
}

/// Whether an OSD style is in range: colours 0..=15, alpha 1..=100.
pub open spec fn osd_style_in_range(front: i32, bg: i32, edge: i32, alpha: i32) -> bool {
    0 <= front <= 15 && 0 <= bg <= 15 && 0 <= edge <= 15 && 1 <= alpha <= 100
}

/// Message of an OSD style out of range.
pub open spec fn msg_osd_style(front: i32, bg: i32, edge: i32, alpha: i32) -> Seq<char> {
    "osd_set_style: out of range front="@ + dec_int(front as int) + " bg="@ + dec_int(bg as int) + " edge="@
        + dec_int(edge as int) + " alpha="@ + dec_int(alpha as int)
}

/// Body of `OSD_SET_STYLE`: `[i32 front][i32 bg][i32 edge][i32 alpha]`, LE;
/// a style out of range is refused before any round trip.
pub fn osd_set_style_request(front_color: i32, bg_color: i32, edge_color: i32, alpha: i32) -> (res:
    PlatformResult<Vec<u8>>)
    ensures
        !osd_style_in_range(front_color, bg_color, edge_color, alpha) ==> is_invalid_parameter(
            res,
            msg_osd_style(front_color, bg_color, edge_color, alpha),
        ),
        osd_style_in_range(front_color, bg_color, edge_color, alpha) ==> (res matches Ok(req) && req@
            == le_bytes_i32(front_color) + le_bytes_i32(bg_color) + le_bytes_i32(edge_color) + le_bytes_i32(
            alpha,
        )),
{
    if !(0 <= front_color && front_color <= 15) || !(0 <= bg_color && bg_color <= 15) || !(0 <= edge_color
        && edge_color <= 15) || !(1 <= alpha && alpha <= 100) {
        let mut m = String::from_str("osd_set_style: out of range front=");
        m.append(fmt_i64(front_color as i64).as_str());
        m.append(" bg=");
        m.append(fmt_i64(bg_color as i64).as_str());
        m.append(" edge=");
        m.append(fmt_i64(edge_color as i64).as_str());
        m.append(" alpha=");
        m.append(fmt_i64(alpha as i64).as_str());
        return Err(PlatformError::InvalidParameter(m));
    }
    let mut req: Vec<u8> = Vec::new();
    push_i32_le(&mut req, front_color);
    push_i32_le(&mut req, bg_color);
    push_i32_le(&mut req, edge_color);
    push_i32_le(&mut req, alpha);
    assert(req@ =~= le_bytes_i32(front_color) + le_bytes_i32(bg_color) + le_bytes_i32(edge_color) + le_bytes_i32(
        alpha,
    ));
    Ok(req)
}

} // verus!
