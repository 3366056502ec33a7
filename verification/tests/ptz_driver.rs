use onvif_hal::hal::anyka::ptz::driver::{
    iow, ior, motor_for, motor_parm_for_travel, plan_turn, stop_targets, turn_outcome,
    wait_action, wait_timed_out, MotorGeometry, MotorMessage, MotorParm, NotifyData, PollOutcome,
    TurnPlan, WaitAction, AK_MOTOR_GET_ANG_SPEED, AK_MOTOR_IOC_MAGIC, AK_MOTOR_SET_ANG_SPEED,
    AK_MOTOR_TURN_ANTICLKWISE, AK_MOTOR_TURN_CLKWISE, AK_MOTOR_TURN_STOP, CYCLE_STEP,
    MOTOR_GET_STATUS, MOTOR_PARM, PAN_TRAVEL_DEGREES, RESET_STEP, SIZE_INT, TILT_TRAVEL_DEGREES,
};
use onvif_hal::hal::anyka::ptz::{ptz_device, ptz_turn_direction};
use onvif_hal::ffi::ptz_driver as ffi_driver;
use onvif_hal::platform::PlatformError;

#[test]
fn test_v500_ioctl_encoding_matches_vendor() {
    assert_eq!(MOTOR_PARM, 0x4004_6D00, "MOTOR_PARM must be _IOW('m', 0x00, int)");
    assert_eq!(MOTOR_GET_STATUS, 0x4004_6D43, "MOTOR_GET_STATUS must be _IOW('m', 0x43, int)");
    assert_eq!(iow(AK_MOTOR_IOC_MAGIC, 0x00, SIZE_INT), MOTOR_PARM);
    assert_eq!(iow(AK_MOTOR_IOC_MAGIC, 0x43, SIZE_INT), MOTOR_GET_STATUS);
}

#[test]
fn test_legacy_ioctl_encoding() {
    assert_eq!(AK_MOTOR_SET_ANG_SPEED, 0x4004_6D0B);
    assert_eq!(AK_MOTOR_TURN_CLKWISE, 0x4004_6D0D);
    assert_eq!(AK_MOTOR_TURN_ANTICLKWISE, 0x4004_6D0E);
    assert_eq!(AK_MOTOR_TURN_STOP, 0x4004_6D10);
    assert_eq!(iow(AK_MOTOR_IOC_MAGIC, 11, SIZE_INT), AK_MOTOR_SET_ANG_SPEED);
    assert_eq!(iow(AK_MOTOR_IOC_MAGIC, 16, SIZE_INT), AK_MOTOR_TURN_STOP);
    assert_eq!(ior(AK_MOTOR_IOC_MAGIC, 12, SIZE_INT), AK_MOTOR_GET_ANG_SPEED);
}

#[test]
fn test_travel_degrees_convert_to_vendor_step_counts() {
    assert_eq!(CYCLE_STEP * PAN_TRAVEL_DEGREES / 360, 3982);
    assert_eq!(CYCLE_STEP * TILT_TRAVEL_DEGREES / 360, 1479);
    assert_eq!(motor_parm_for_travel(PAN_TRAVEL_DEGREES).total_steps, 3982);
    assert_eq!(motor_parm_for_travel(TILT_TRAVEL_DEGREES).total_steps, 1479);
}

#[test]
fn motor_parm_seed_matches_vendor_setup() {
    let p: MotorParm = motor_parm_for_travel(PAN_TRAVEL_DEGREES);
    assert_eq!(p.pos, 1991);
    assert_eq!(p.speed_step, 400);
    assert_eq!(p.steps_one_circle, 2048);
    assert_eq!(p.boundary_steps, 0);
    let n = motor_parm_for_travel(-700);
    assert_eq!(n.total_steps, -3982);
    assert_eq!(n.pos, -1991);
}

#[test]
fn driver_test_ptz_device_values() {
    assert_eq!(ptz_device::PTZ_DEV_H as i32, 0);
    assert_eq!(ptz_device::PTZ_DEV_V as i32, 1);
}

#[test]
fn driver_test_ptz_turn_direction_values() {
    assert_eq!(ptz_turn_direction::PTZ_TURN_LEFT as i32, 1);
    assert_eq!(ptz_turn_direction::PTZ_TURN_RIGHT as i32, 2);
    assert_eq!(ptz_turn_direction::PTZ_TURN_UP as i32, 3);
    assert_eq!(ptz_turn_direction::PTZ_TURN_DOWN as i32, 4);
}

#[test]
fn ptz_driver_test_ptz_device_values() {
    assert_eq!(ffi_driver::ptz_device::PTZ_DEV_H as i32, 0);
    assert_eq!(ffi_driver::ptz_device::PTZ_DEV_V as i32, 1);
}

#[test]
fn ptz_driver_test_ptz_turn_direction_values() {
    assert_eq!(ffi_driver::ptz_turn_direction::PTZ_TURN_LEFT as i32, 1);
    assert_eq!(ffi_driver::ptz_turn_direction::PTZ_TURN_RIGHT as i32, 2);
    assert_eq!(ffi_driver::ptz_turn_direction::PTZ_TURN_UP as i32, 3);
    assert_eq!(ffi_driver::ptz_turn_direction::PTZ_TURN_DOWN as i32, 4);
}

#[test]
fn driver_test_notify_data_size() {
    assert_eq!(std::mem::size_of::<NotifyData>(), 12);
}

#[test]
fn ptz_driver_test_notify_data_size() {
    assert_eq!(std::mem::size_of::<ffi_driver::NotifyData>(), 12);
}

#[test]
fn test_motor_parm_size() {
    assert_eq!(std::mem::size_of::<MotorParm>(), 20);
}

#[test]
fn test_start_turn_without_open_returns_unavailable() {
    let result = plan_turn(&None, ptz_turn_direction::PTZ_TURN_LEFT, 30);
    assert!(matches!(result, Err(PlatformError::HardwareUnavailable(_))));
}

#[test]
fn test_turn_reserved_direction_is_invalid() {
    let result = plan_turn(&None, ptz_turn_direction::PTZ_TURN_RESERVED, 10);
    assert!(result.is_err());
    let open = Some((MotorGeometry::new(), MotorGeometry::new()));
    match plan_turn(&open, ptz_turn_direction::PTZ_TURN_RESERVED, 10) {
        Err(PlatformError::InvalidParameter(m)) => assert_eq!(m, "PTZ_TURN_RESERVED not valid for turn"),
        _ => panic!("expected InvalidParameter"),
    }
}

#[test]
fn test_stop_without_open_is_ok() {
    assert_eq!(stop_targets(false, ptz_turn_direction::PTZ_TURN_RESERVED), (false, false));
}

#[test]
fn stop_targets_follow_the_direction() {
    assert_eq!(stop_targets(true, ptz_turn_direction::PTZ_TURN_LEFT), (true, false));
    assert_eq!(stop_targets(true, ptz_turn_direction::PTZ_TURN_RIGHT), (true, false));
    assert_eq!(stop_targets(true, ptz_turn_direction::PTZ_TURN_UP), (false, true));
    assert_eq!(stop_targets(true, ptz_turn_direction::PTZ_TURN_DOWN), (false, true));
    assert_eq!(stop_targets(true, ptz_turn_direction::PTZ_TURN_RESERVED), (true, true));
}

#[test]
fn motor_selection_per_direction() {
    assert_eq!(motor_for(true, ptz_turn_direction::PTZ_TURN_LEFT).unwrap(), (ptz_device::PTZ_DEV_H, false));
    assert_eq!(motor_for(true, ptz_turn_direction::PTZ_TURN_RIGHT).unwrap(), (ptz_device::PTZ_DEV_H, true));
    assert_eq!(motor_for(true, ptz_turn_direction::PTZ_TURN_UP).unwrap(), (ptz_device::PTZ_DEV_V, true));
    assert_eq!(motor_for(true, ptz_turn_direction::PTZ_TURN_DOWN).unwrap(), (ptz_device::PTZ_DEV_V, false));
    match motor_for(false, ptz_turn_direction::PTZ_TURN_RESERVED) {
        Err(PlatformError::HardwareUnavailable(m)) => assert_eq!(m, "PTZ device not opened"),
        _ => panic!("closed device is reported first"),
    }
}

#[test]
fn turn_plan_uses_the_motor_geometry() {
    let mut h = MotorGeometry::new();
    let v = MotorGeometry::new();
    h.adopt_status(&MotorMessage { steps_one_circle: 4096, total_steps: 8000, ..MotorMessage::default() });
    assert_eq!(h.cycle_step, 4096);
    assert_eq!(h.total_steps, 8000);
    let open = Some((h, v));
    assert_eq!(
        plan_turn(&open, ptz_turn_direction::PTZ_TURN_RIGHT, 90).unwrap(),
        Some(TurnPlan { motor: ptz_device::PTZ_DEV_H, clockwise: true, steps: 1024 })
    );
    assert_eq!(
        plan_turn(&open, ptz_turn_direction::PTZ_TURN_DOWN, 45).unwrap(),
        Some(TurnPlan { motor: ptz_device::PTZ_DEV_V, clockwise: false, steps: 256 })
    );
    // A move that rounds to zero steps issues nothing.
    assert_eq!(plan_turn(&open, ptz_turn_direction::PTZ_TURN_UP, 0).unwrap(), None);
    assert_eq!(plan_turn(&open, ptz_turn_direction::PTZ_TURN_UP, -10).unwrap(), None);
}

#[test]
fn geometry_degree_to_steps_and_reset_step() {
    let mut g = MotorGeometry::new();
    assert_eq!(g.degree_to_steps(360), 2048);
    assert_eq!(g.degree_to_steps(-1), -5);
    assert_eq!(g.reset_step(), RESET_STEP);
    g.adopt_status(&MotorMessage { steps_one_circle: 0, total_steps: 3000, ..MotorMessage::default() });
    assert_eq!(g.cycle_step, 2048);
    assert_eq!(g.reset_step(), 1500);
}

#[test]
fn wait_actions() {
    assert_eq!(wait_action(true, PollOutcome::Readable, true), WaitAction::StopAndReportInterrupted);
    assert_eq!(wait_action(false, PollOutcome::Interrupted, true), WaitAction::PollAgain);
    assert_eq!(wait_action(false, PollOutcome::TimedOut, false), WaitAction::PollAgain);
    assert_eq!(wait_action(false, PollOutcome::TimedOut, true), WaitAction::TimedOut);
    assert_eq!(wait_action(false, PollOutcome::Readable, false), WaitAction::ReadNotification);
    match wait_timed_out() {
        PlatformError::HardwareFailure(m) => assert_eq!(m, "motor wait timed out"),
        _ => panic!("expected HardwareFailure"),
    }
}

#[test]
fn turn_outcome_reads_back_position_or_minus_one() {
    let notify = NotifyData { hit_num: 0, event: 4, remain_steps: 0 };
    let o = turn_outcome(&notify, false, Ok(812));
    assert!(!o.interrupted);
    assert_eq!(o.step_pos, 812);
    assert_eq!(o.event, 4);
    let o = turn_outcome(&NotifyData::default(), true, Err(PlatformError::Timeout));
    assert!(o.interrupted);
    assert_eq!(o.step_pos, -1);
    assert_eq!(o.event, 0);
}
