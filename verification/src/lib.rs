//! Host-side bookkeeping for WASI CAN and GPIO devices: named device pools,
//! CAN frame and identifier conversions, error mapping, PWM duty arithmetic
//! and the policy that decides which devices a guest may open.

pub mod registry;
pub mod can;
pub mod gpio;
pub mod sysfs_pwm;
pub mod policy;
