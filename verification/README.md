# wasi_devices

Host-side support for WebAssembly components that drive CAN buses and GPIO
pins through the `wasi:can` and `wasi:gpio` interfaces, with its logic
specified and proved in Verus.

- `src/registry.rs`: pools of named devices; opening takes the first device
  of a name out of its pool, closing puts it back.
- `src/can.rs`, `src/can/`: the CAN device context, `wasi:can` frames,
  identifiers and error codes, their conversion to and from the embedded-can
  view, the decisions around each blocking and nonblocking transmit and
  receive, and the guest's embedded-can view of `wasi:can` values.
- `src/gpio.rs`, `src/gpio/`: the GPIO pin context, pin error mapping, and the
  wait cycle of an input pin a guest waits on.
- `src/sysfs_pwm.rs`: the duty-cycle arithmetic of a sysfs PWM channel.
- `src/policy.rs`: building the device contexts from a host policy.
- `app/`: the host program: wasmtime linker entries, the resource table,
  device access through socketcan, gpiocdev and sysfs, and the command line.
