use wasi_devices::gpio::types::{
    finish_digital, finish_pwm, map_digital_hal_error, map_pwm_hal_error, ErrorCode, HalGpioError,
    HalPinState, PinState,
};
use wasi_devices::gpio::wait::{InputWaitPin, WaitError, WaitKind, WaitState};
use wasi_devices::sysfs_pwm::{duty_cycle_ns, max_duty_cycle, MAX_DUTY};

fn err(detail: &str) -> HalGpioError {
    HalGpioError { detail: detail.to_string() }
}

#[test]
fn pin_state_to_hal() {
    assert_eq!(PinState::Low.to_hal(), HalPinState::Low);
    assert_eq!(PinState::High.to_hal(), HalPinState::High);
}

#[test]
fn digital_and_pwm_errors() {
    assert_eq!(map_digital_hal_error(err("EBUSY"), false), ErrorCode::Other("Hardware GPIO error".to_string()));
    assert_eq!(map_digital_hal_error(err("EBUSY"), true), ErrorCode::Other("EBUSY".to_string()));
    assert_eq!(map_pwm_hal_error(err("EIO"), false), ErrorCode::Other("Hardware PWM error".to_string()));
    assert_eq!(map_pwm_hal_error(err("EIO"), true), ErrorCode::Other("EIO".to_string()));
    assert_eq!(finish_digital(Ok(true), false), Ok(true));
    assert_eq!(finish_digital::<bool>(Err(err("x")), false), Err(ErrorCode::Other("Hardware GPIO error".to_string())));
    assert_eq!(finish_pwm(Ok(()), true), Ok(()));
    assert_eq!(finish_pwm(Err(err("x")), true), Err(ErrorCode::Other("x".to_string())));
}

#[test]
fn duty_cycle_arithmetic() {
    assert_eq!(max_duty_cycle(), 65535);
    assert_eq!(MAX_DUTY, u16::MAX);
    assert_eq!(duty_cycle_ns(0, 20_000_000), 0);
    assert_eq!(duty_cycle_ns(MAX_DUTY, 20_000_000), 20_000_000);
    assert_eq!(duty_cycle_ns(32768, 20_000_000), 10_000_152);
    assert_eq!(duty_cycle_ns(MAX_DUTY, u32::MAX), u32::MAX);
    assert_eq!(duty_cycle_ns(1, 1000), 0);
}

#[test]
fn duty_cycle_is_monotone_and_bounded() {
    let period = 1_234_567u32;
    let mut last = 0;
    for duty in (0..=u16::MAX).step_by(257) {
        let ns = duty_cycle_ns(duty, period);
        assert!(ns >= last);
        assert!(ns <= period);
        last = ns;
    }
}

#[test]
fn wait_cycle_success() {
    let mut pin = InputWaitPin::new("button".to_string(), (), false);
    assert_eq!(pin.pending_wait(), None);
    assert_eq!(pin.start_wait(WaitKind::RisingEdge), Ok(()));
    assert_eq!(pin.pending_wait(), Some(WaitKind::RisingEdge));
    assert_eq!(pin.finish_wait(), Err(WaitError::WouldBlock));
    pin.complete_wait(Ok(()));
    assert_eq!(pin.pending_wait(), None);
    assert_eq!(pin.finish_wait(), Ok(()));
    assert_eq!(pin.wait_state, WaitState::Idle);
    assert_eq!(pin.finish_wait(), Err(WaitError::NotInProgress));
}

#[test]
fn wait_cycle_error() {
    let mut pin = InputWaitPin::new("button".to_string(), (), true);
    assert_eq!(pin.start_wait(WaitKind::High), Ok(()));
    pin.complete_wait(Err(err("line gone")));
    assert_eq!(pin.finish_wait(), Err(WaitError::Other(ErrorCode::Other("line gone".to_string()))));
    assert_eq!(pin.start_wait(WaitKind::Low), Ok(()));
}

#[test]
fn one_wait_at_a_time() {
    let mut pin = InputWaitPin::new("button".to_string(), 0u8, false);
    assert_eq!(pin.start_wait(WaitKind::AnyEdge), Ok(()));
    assert_eq!(
        pin.start_wait(WaitKind::FallingEdge),
        Err(ErrorCode::Other("Wait already in progress".to_string()))
    );
    assert_eq!(pin.pending_wait(), Some(WaitKind::AnyEdge));
    pin.complete_wait(Err(err("x")));
    assert_eq!(
        pin.start_wait(WaitKind::High),
        Err(ErrorCode::Other("Wait already in progress".to_string()))
    );
    assert_eq!(pin.finish_wait(), Err(WaitError::Other(ErrorCode::Other("Hardware GPIO error".to_string()))));
}

#[test]
fn complete_without_wait_changes_nothing() {
    let mut pin = InputWaitPin::new("button".to_string(), (), false);
    pin.complete_wait(Ok(()));
    assert_eq!(pin.wait_state, WaitState::Idle);
}
