//! ISP auto-exposure and white-balance values as the vendor daemon reports
//! them, with their wire sizes.

use vstd::prelude::*;

use crate::platform::{is_invalid_parameter, PlatformError, PlatformResult};
use crate::text::{dec_nat, fmt_u64};

verus! {

/// Live ISP auto-exposure limits (the decoded fields of `struct
/// vpss_isp_ae_attr`, 204 bytes on the wire).
#[derive(Debug, Clone, Copy, PartialEq, Eq, Structural)]
pub struct AeAttr {
    pub exp_time_max: u32,
    pub exp_time_min: u32,
    pub d_gain_max: u32,
    pub a_gain_max: u32,
    pub target_lumiance: u32,
}

/// Wire size of `struct vpss_isp_ae_attr`.
pub const AE_ATTR_WIRE_LEN: usize = 204;

/// Wire size of the AWB colour-bin answer: ten i32 bins.
pub const AWB_STAT_WIRE_LEN: usize = 40;

/// Wire size of the manual white-balance answer (`AK_ISP_MWB_ATTR`: three
/// u16 gains, three s16 offsets).
pub const MWB_ATTR_WIRE_LEN: usize = 12;

/// The AE loop's live operating point (`struct vpss_isp_ae_run_info`, 36
/// bytes on the wire; the step fields are not decoded), in the driver's raw units.
#[derive(Debug, Clone, Copy, PartialEq, Eq, Structural)]
pub struct AeRunInfo {
    pub avg_lumi: u8,
    pub compensation_lumi: u8,
    /// 1 when the driver considers the scene dark (night path).
    pub darked_flag: u8,
    pub a_gain: i32,
    pub d_gain: i32,
    pub isp_d_gain: i32,
    pub exp_time: i32,
}

/// Wire size of `struct vpss_isp_ae_run_info`.
pub const AE_RUN_INFO_WIRE_LEN: usize = 36;

/// The driver's manual white balance.
pub const WB_TYPE_MANUAL: u16 = 0;

/// The driver's auto white balance.
pub const WB_TYPE_AUTO: u16 = 1;

/// Message of a mains frequency other than 50 or 60 Hz.
pub open spec fn msg_bad_power_hz(hz: u16) -> Seq<char> {
    "power_hz must be 50 or 60 (got "@ + dec_nat(hz as nat) + ")"@
}

/// The mains frequency for flicker reduction must be 50 or 60 Hz: the
/// vendor library silently takes anything, so it is checked before the call.
pub fn check_power_hz(hz: u16) -> (res: PlatformResult<()>)
    ensures
        (hz == 50 || hz == 60) ==> res is Ok,
        !(hz == 50 || hz == 60) ==> is_invalid_parameter(res, msg_bad_power_hz(hz)),
{
    if hz != 50 && hz != 60 {
        let mut m = String::from_str("power_hz must be 50 or 60 (got ");
        m.append(fmt_u64(hz as u64).as_str());
        m.append(")");
        return Err(PlatformError::InvalidParameter(m));
    }
    Ok(())
}

/// Message of a picture-style id above 2.
pub open spec fn msg_bad_style_id(style_id: u8) -> Seq<char> {
    "style_id must be 0-2 (got "@ + dec_nat(style_id as nat) + ")"@
}

/// An ISP picture-style id must be 0, 1 or 2 (an entry of the ISP config).
pub fn check_style_id(style_id: u8) -> (res: PlatformResult<()>)
    ensures
        style_id <= 2 ==> res is Ok,
        style_id > 2 ==> is_invalid_parameter(res, msg_bad_style_id(style_id)),
{
    if style_id > 2 {
        let mut m = String::from_str("style_id must be 0-2 (got ");
        m.append(fmt_u64(style_id as u64).as_str());
        m.append(")");
        return Err(PlatformError::InvalidParameter(m));
    }
    Ok(())
}

} // verus!
