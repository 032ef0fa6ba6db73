use wasi_devices::policy::{
    Blocking, Can, Gpio, InputPin, Nonblocking, OutputPin, Policy, PolicyError, PwmPin,
    StatefulOutputPin,
};

fn can_policy() -> Policy {
    Policy {
        can: Some(Can {
            debug: true,
            blocking: vec![Blocking { ifname: "can0".to_string(), name: "can".to_string() }],
            nonblocking: vec![
                Nonblocking { ifname: "can0".to_string(), name: "can".to_string() },
                Nonblocking { ifname: "vcan1".to_string(), name: "aux".to_string() },
            ],
        }),
        gpio: None,
    }
}

fn open_ok(ifname: &String) -> Result<String, String> {
    Ok(format!("socket:{ifname}"))
}

#[test]
fn no_can_policy_gives_empty_context() {
    let p = Policy { can: None, gpio: None };
    let ctx = p.build_can_context(open_ok, open_ok).ok().unwrap();
    assert!(ctx.blocking_can.is_empty());
    assert!(ctx.nonblocking_can.is_empty());
    assert!(!ctx.debug);
}

#[test]
fn can_policy_registers_in_order() {
    let ctx = can_policy().build_can_context(open_ok, open_ok).ok().unwrap();
    assert!(ctx.debug);
    assert_eq!(ctx.blocking_can, vec![("can".to_string(), "socket:can0".to_string())]);
    assert_eq!(
        ctx.nonblocking_can,
        vec![
            ("can".to_string(), "socket:can0".to_string()),
            ("aux".to_string(), "socket:vcan1".to_string())
        ]
    );
}

#[test]
fn failing_interface_is_reported() {
    let r = can_policy().build_can_context(open_ok, |ifname: &String| {
        if ifname == "vcan1" { Err("no such device".to_string()) } else { Ok(ifname.clone()) }
    });
    match r {
        Err(PolicyError::OpenNonblockingCan { ifname, source }) => {
            assert_eq!(ifname, "vcan1");
            assert_eq!(source, "no such device");
        }
        _ => panic!("expected a nonblocking open failure"),
    }
    let r = can_policy().build_can_context(|_: &String| Err::<u8, _>(1u8), |_: &String| Ok(0u8));
    assert!(matches!(r, Err(PolicyError::OpenBlockingCan { .. })));
}

fn gpio_policy() -> Policy {
    Policy {
        can: None,
        gpio: Some(Gpio {
            debug: false,
            output_pin: vec![OutputPin { pin_name: "GPIO2".to_string(), name: "pin2".to_string() }],
            stateful_output_pin: vec![StatefulOutputPin { pin_name: "GPIO4".to_string(), name: "pin4".to_string() }],
            input_pin: vec![InputPin { pin_name: "GPIO3".to_string(), name: "pin3".to_string() }],
            pwm_pin: vec![PwmPin { chip: 0, channel: 1, period_ns: 20_000_000, name: "pwm".to_string() }],
        }),
    }
}

#[test]
fn gpio_policy_registers_every_pin() {
    let ctx = gpio_policy()
        .build_gpio_context(
            |n: &String| Ok::<String, ()>(format!("out:{n}")),
            |n: &String| Ok(format!("st:{n}")),
            |n: &String| Ok(format!("in:{n}")),
            |c: u32, ch: u32, p: u32| Ok((c, ch, p)),
        )
        .ok()
        .unwrap();
    assert!(!ctx.debug);
    assert_eq!(ctx.output_pin, vec![("pin2".to_string(), "out:GPIO2".to_string())]);
    assert_eq!(ctx.stateful_output_pin, vec![("pin4".to_string(), "st:GPIO4".to_string())]);
    assert_eq!(ctx.input_pin, vec![("pin3".to_string(), "in:GPIO3".to_string())]);
    assert_eq!(ctx.pwm_pin, vec![("pwm".to_string(), (0, 1, 20_000_000))]);
}

#[test]
fn gpio_failures_are_reported() {
    let r = gpio_policy().build_gpio_context(
        |n: &String| Ok::<String, &str>(n.clone()),
        |n: &String| Ok(n.clone()),
        |_: &String| Err::<String, &str>("busy"),
        |_: u32, _: u32, _: u32| Ok(()),
    );
    match r {
        Err(PolicyError::OpenInputPin { pin_name, source }) => {
            assert_eq!(pin_name, "GPIO3");
            assert_eq!(source, "busy");
        }
        _ => panic!("expected an input pin failure"),
    }
    let r = gpio_policy().build_gpio_context(
        |n: &String| Ok::<String, &str>(n.clone()),
        |n: &String| Ok(n.clone()),
        |n: &String| Ok(n.clone()),
        |_: u32, _: u32, _: u32| Err::<(), _>("no chip"),
    );
    assert!(matches!(r, Err(PolicyError::OpenPwm { chip: 0, channel: 1, source: "no chip" })));
    let none = Policy { can: None, gpio: None }.build_gpio_context(
        |_: &String| Err::<(), &str>("x"),
        |_: &String| Err::<(), &str>("x"),
        |_: &String| Err::<(), &str>("x"),
        |_: u32, _: u32, _: u32| Err::<(), &str>("x"),
    );
    assert!(none.is_ok());
}
