use wasi_devices::can::types::ErrorCode;
use wasi_devices::can::WasiCanCtx;
use wasi_devices::gpio::types::ErrorCode as GpioErrorCode;
use wasi_devices::gpio::WasiGpioCtx;
use wasi_devices::registry::{position_named, put_back, take_named};

#[test]
fn new_can_context_is_empty() {
    let ctx: WasiCanCtx<u32, u32> = WasiCanCtx::new();
    assert!(ctx.blocking_can.is_empty());
    assert!(ctx.nonblocking_can.is_empty());
    assert!(!ctx.debug);
}

#[test]
fn set_debug_mode_sets_the_flag() {
    let mut ctx: WasiCanCtx<u32, u32> = WasiCanCtx::new();
    ctx.set_debug_mode(true);
    assert!(ctx.debug);
    ctx.set_debug_mode(false);
    assert!(!ctx.debug);
    let mut g: WasiGpioCtx<u8, u8, u8, u8> = WasiGpioCtx::new();
    g.set_debug_mode(true);
    assert!(g.debug);
}

#[test]
fn open_unknown_can_fails() {
    let mut ctx: WasiCanCtx<u32, u32> = WasiCanCtx::new();
    ctx.add_blocking_can("can".to_string(), 1);
    let r = ctx.open_blocking("vcan".to_string());
    assert_eq!(r.err(), Some(ErrorCode::Other("Hardware unavailable".to_string())));
    assert_eq!(ctx.blocking_can.len(), 1);
}

#[test]
fn open_takes_device_and_close_returns_it() {
    let mut ctx: WasiCanCtx<u32, u32> = WasiCanCtx::new();
    ctx.add_blocking_can("can".to_string(), 1);
    ctx.add_nonblocking_can("can".to_string(), 2);
    let can = ctx.open_blocking("can".to_string()).ok().unwrap();
    assert_eq!(can.name, "can");
    assert_eq!(can.erased_can, 1);
    assert!(ctx.open_blocking("can".to_string()).is_err());
    assert_eq!(ctx.nonblocking_can.len(), 1);
    ctx.close_blocking(can);
    let again = ctx.open_blocking("can".to_string()).ok().unwrap();
    assert_eq!(again.erased_can, 1);
    let nb = ctx.open_nonblocking("can".to_string()).ok().unwrap();
    assert_eq!(nb.erased_can, 2);
    assert!(ctx.open_nonblocking("can".to_string()).is_err());
    ctx.close_nonblocking(nb);
    assert_eq!(ctx.nonblocking_can.len(), 1);
}

#[test]
fn first_of_several_devices_opens_first() {
    let mut ctx: WasiCanCtx<u32, u32> = WasiCanCtx::new();
    ctx.add_blocking_can("a".to_string(), 10);
    ctx.add_blocking_can("b".to_string(), 20);
    ctx.add_blocking_can("a".to_string(), 30);
    let first = ctx.open_blocking("a".to_string()).ok().unwrap();
    assert_eq!(first.erased_can, 10);
    let second = ctx.open_blocking("a".to_string()).ok().unwrap();
    assert_eq!(second.erased_can, 30);
    assert!(ctx.open_blocking("a".to_string()).is_err());
    let names: Vec<&str> = ctx.blocking_can.iter().map(|e| e.0.as_str()).collect();
    assert_eq!(names, vec!["b"]);
}

#[test]
fn pool_functions() {
    let mut pool: Vec<(String, u8)> = vec![("x".to_string(), 1), ("y".to_string(), 2), ("x".to_string(), 3)];
    assert_eq!(position_named(&pool, &"x".to_string()), Some(0));
    assert_eq!(position_named(&pool, &"y".to_string()), Some(1));
    assert_eq!(position_named(&pool, &"z".to_string()), None);
    assert_eq!(take_named(&mut pool, &"y".to_string()), Some(("y".to_string(), 2)));
    assert_eq!(take_named(&mut pool, &"y".to_string()), None);
    put_back(&mut pool, "y".to_string(), 2);
    assert_eq!(pool, vec![("x".to_string(), 1), ("x".to_string(), 3), ("y".to_string(), 2)]);
}

#[test]
fn gpio_pools_are_separate() {
    let mut ctx: WasiGpioCtx<&str, &str, &str, &str> = WasiGpioCtx::new();
    ctx.add_output_pin("pin2".to_string(), "out");
    ctx.add_input_pin("pin3".to_string(), "in");
    ctx.add_pwm_pin("pwm".to_string(), "pwm");
    ctx.add_stateful_output_pin("pin4".to_string(), "stateful");
    assert_eq!(
        ctx.open_output("pin3".to_string()).err(),
        Some(GpioErrorCode::Other("Hardware unavailable".to_string()))
    );
    let out = ctx.open_output("pin2".to_string()).ok().unwrap();
    assert_eq!(out.erased_pin, "out");
    let input = ctx.open_input("pin3".to_string()).ok().unwrap();
    assert_eq!(input.name, "pin3");
    let pwm = ctx.open_pwm("pwm".to_string()).ok().unwrap();
    let st = ctx.open_stateful_output("pin4".to_string()).ok().unwrap();
    assert!(ctx.open_pwm("pwm".to_string()).is_err());
    assert!(ctx.open_stateful_output("pin4".to_string()).is_err());
    ctx.close_output(out);
    ctx.close_input(input);
    ctx.close_pwm(pwm);
    ctx.close_stateful_output(st);
    assert_eq!(ctx.output_pin.len(), 1);
    assert_eq!(ctx.input_pin.len(), 1);
    assert_eq!(ctx.pwm_pin.len(), 1);
    assert_eq!(ctx.stateful_output_pin.len(), 1);
    assert!(ctx.open_pwm("pwm".to_string()).is_ok());
}
