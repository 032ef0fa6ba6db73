//! The host policy: which CAN interfaces and GPIO pins a guest may open,
//! under which names, and the building of the device contexts from it.
//!
//! Opening a device is the caller's business (a socket, a GPIO line, a
//! sysfs PWM channel); the policy decides what is opened, in which order,
//! under which name it is registered, and which failure is reported.

use vstd::prelude::*;
use crate::can::WasiCanCtx;
use crate::gpio::WasiGpioCtx;

verus! {

/// The whole host policy.
pub struct Policy {
    pub can: Option<Can>,
    pub gpio: Option<Gpio>,
}

/// The CAN part of the policy.
pub struct Can {
    pub debug: bool,
    pub blocking: Vec<Blocking>,
    pub nonblocking: Vec<Nonblocking>,
}

/// A CAN interface offered to guests through the blocking interface.
pub struct Blocking {
    pub ifname: String,
    pub name: String,
}

/// A CAN interface offered to guests through the nonblocking interface.
pub struct Nonblocking {
    pub ifname: String,
    pub name: String,
}

/// The GPIO part of the policy.
pub struct Gpio {
    pub debug: bool,
    pub output_pin: Vec<OutputPin>,
    pub stateful_output_pin: Vec<StatefulOutputPin>,
    pub input_pin: Vec<InputPin>,
    pub pwm_pin: Vec<PwmPin>,
}

/// A GPIO line offered as an output pin.
pub struct OutputPin {
    pub pin_name: String,
    pub name: String,
}

/// A GPIO line offered as a stateful output pin.
pub struct StatefulOutputPin {
    pub pin_name: String,
    pub name: String,
}

/// A GPIO line offered as an input pin.
pub struct InputPin {
    pub pin_name: String,
    pub name: String,
}

/// A sysfs PWM channel offered as a PWM pin.
pub struct PwmPin {
    pub chip: u32,
    pub channel: u32,
    pub period_ns: u32,
    pub name: String,
}

/// The device that could not be opened while a context was built, with
/// the opener's own error.
pub enum PolicyError<E> {
    OpenBlockingCan { ifname: String, source: E },
    OpenNonblockingCan { ifname: String, source: E },
    OpenOutputPin { pin_name: String, source: E },
    OpenStatefulOutputPin { pin_name: String, source: E },
    OpenInputPin { pin_name: String, source: E },
    OpenPwm { chip: u32, channel: u32, source: E },
}

/// Every blocking entry of the pool is the device opened for the policy
/// entry at the same position, registered under that entry's name.
pub open spec fn opened_blocking<B, E, F: Fn(&String) -> Result<B, E>>(
    pool: Seq<(String, B)>,
    entries: Seq<Blocking>,
    open: F,
) -> bool {
    &&& pool.len() == entries.len()
    &&& forall|i: int| 0 <= i < pool.len() ==> {
        &&& (#[trigger] pool[i]).0@ == entries[i].name@
        &&& open.ensures((&entries[i].ifname,), Ok(pool[i].1))
    }
}

/// Every nonblocking entry of the pool is the device opened for the policy
/// entry at the same position, registered under that entry's name.
pub open spec fn opened_nonblocking<N, E, F: Fn(&String) -> Result<N, E>>(
    pool: Seq<(String, N)>,
    entries: Seq<Nonblocking>,
    open: F,
) -> bool {
    &&& pool.len() == entries.len()
    &&& forall|i: int| 0 <= i < pool.len() ==> {
        &&& (#[trigger] pool[i]).0@ == entries[i].name@
        &&& open.ensures((&entries[i].ifname,), Ok(pool[i].1))
    }
}

/// Every entry of the pool is an output pin opened for the policy entry at the
/// same position, registered under that entry's name.
pub open spec fn opened_output_pin<D, E, F: Fn(&String) -> Result<D, E>>(
    pool: Seq<(String, D)>,
    entries: Seq<OutputPin>,
    open: F,
) -> bool {
    &&& pool.len() == entries.len()
    &&& forall|i: int| 0 <= i < pool.len() ==> {
        &&& (#[trigger] pool[i]).0@ == entries[i].name@
        &&& open.ensures((&entries[i].pin_name,), Ok(pool[i].1))
    }
}

/// Every entry of the pool is a stateful output pin opened for the policy entry at the
/// same position, registered under that entry's name.
pub open spec fn opened_stateful_output_pin<D, E, F: Fn(&String) -> Result<D, E>>(
    pool: Seq<(String, D)>,
    entries: Seq<StatefulOutputPin>,
    open: F,
) -> bool {
    &&& pool.len() == entries.len()
    &&& forall|i: int| 0 <= i < pool.len() ==> {
        &&& (#[trigger] pool[i]).0@ == entries[i].name@
        &&& open.ensures((&entries[i].pin_name,), Ok(pool[i].1))
    }
}

/// Every entry of the pool is an input pin opened for the policy entry at the
/// same position, registered under that entry's name.
pub open spec fn opened_input_pin<D, E, F: Fn(&String) -> Result<D, E>>(
    pool: Seq<(String, D)>,
    entries: Seq<InputPin>,
    open: F,
) -> bool {
    &&& pool.len() == entries.len()
    &&& forall|i: int| 0 <= i < pool.len() ==> {
        &&& (#[trigger] pool[i]).0@ == entries[i].name@
        &&& open.ensures((&entries[i].pin_name,), Ok(pool[i].1))
    }
}

/// Every entry of the pool is a PWM pin opened for the policy entry at the
/// same position, registered under that entry's name.
pub open spec fn opened_pwm_pin<D, E, F: Fn(u32, u32, u32) -> Result<D, E>>(
    pool: Seq<(String, D)>,
    entries: Seq<PwmPin>,
    open: F,
) -> bool {
    &&& pool.len() == entries.len()
    &&& forall|i: int| 0 <= i < pool.len() ==> {
        &&& (#[trigger] pool[i]).0@ == entries[i].name@
        &&& open.ensures((entries[i].chip, entries[i].channel, entries[i].period_ns), Ok(pool[i].1))
    }
}

/// Every entry of `entries` can be opened: some run of the opener gives a
/// device for each of them.
pub open spec fn opens_all_blocking<D, E, F: Fn(&String) -> Result<D, E>>(entries: Seq<Blocking>, open: F) -> bool {
    exists|pool: Seq<(String, D)>| #[trigger] opened_blocking(pool, entries, open)
}

/// Every entry of `entries` can be opened: some run of the opener gives a
/// device for each of them.
pub open spec fn opens_all_nonblocking<D, E, F: Fn(&String) -> Result<D, E>>(entries: Seq<Nonblocking>, open: F) -> bool {
    exists|pool: Seq<(String, D)>| #[trigger] opened_nonblocking(pool, entries, open)
}

/// Every entry of `entries` can be opened: some run of the opener gives a
/// device for each of them.
pub open spec fn opens_all_output_pin<D, E, F: Fn(&String) -> Result<D, E>>(entries: Seq<OutputPin>, open: F) -> bool {
    exists|pool: Seq<(String, D)>| #[trigger] opened_output_pin(pool, entries, open)
}

/// Every entry of `entries` can be opened: some run of the opener gives a
/// device for each of them.
pub open spec fn opens_all_stateful_output_pin<D, E, F: Fn(&String) -> Result<D, E>>(entries: Seq<StatefulOutputPin>, open: F) -> bool {
    exists|pool: Seq<(String, D)>| #[trigger] opened_stateful_output_pin(pool, entries, open)
}

/// Every entry of `entries` can be opened: some run of the opener gives a
/// device for each of them.
pub open spec fn opens_all_input_pin<D, E, F: Fn(&String) -> Result<D, E>>(entries: Seq<InputPin>, open: F) -> bool {
    exists|pool: Seq<(String, D)>| #[trigger] opened_input_pin(pool, entries, open)
}

/// Every entry of `entries` can be opened: some run of the opener gives a
/// device for each of them.
pub open spec fn opens_all_pwm_pin<D, E, F: Fn(u32, u32, u32) -> Result<D, E>>(entries: Seq<PwmPin>, open: F) -> bool {
    exists|pool: Seq<(String, D)>| #[trigger] opened_pwm_pin(pool, entries, open)
}

/// The opener failed with `source` on the entry whose ifname is `ifname`,
/// after every entry before it had opened.
pub open spec fn blocking_failed<D, E, F: Fn(&String) -> Result<D, E>>(entries: Seq<Blocking>, open: F, ifname: Seq<char>, source: E) -> bool {
    exists|i: int|
        0 <= i < entries.len() && #[trigger] entries[i].ifname@ == ifname
            && open.ensures((&entries[i].ifname,), Err(source))
            && opens_all_blocking(entries.subrange(0, i), open)
}

/// An opener failure at entry `i` of a build that has opened every entry
/// before it.
proof fn lemma_blocking_failed<D, E, F: Fn(&String) -> Result<D, E>>(
    entries: Seq<Blocking>,
    open: F,
    pool: Seq<(String, D)>,
    i: int,
    ifname: Seq<char>,
    source: E,
)
    requires
        0 <= i < entries.len(),
        entries[i].ifname@ == ifname,
        open.ensures((&entries[i].ifname,), Err(source)),
        opened_blocking(pool, entries.subrange(0, i), open),
    ensures
        blocking_failed(entries, open, ifname, source),
{
}

/// The opener failed with `source` on the entry whose ifname is `ifname`,
/// after every entry before it had opened.
pub open spec fn nonblocking_failed<D, E, F: Fn(&String) -> Result<D, E>>(entries: Seq<Nonblocking>, open: F, ifname: Seq<char>, source: E) -> bool {
    exists|i: int|
        0 <= i < entries.len() && #[trigger] entries[i].ifname@ == ifname
            && open.ensures((&entries[i].ifname,), Err(source))
            && opens_all_nonblocking(entries.subrange(0, i), open)
}

/// An opener failure at entry `i` of a build that has opened every entry
/// before it.
proof fn lemma_nonblocking_failed<D, E, F: Fn(&String) -> Result<D, E>>(
    entries: Seq<Nonblocking>,
    open: F,
    pool: Seq<(String, D)>,
    i: int,
    ifname: Seq<char>,
    source: E,
)
    requires
        0 <= i < entries.len(),
        entries[i].ifname@ == ifname,
        open.ensures((&entries[i].ifname,), Err(source)),
        opened_nonblocking(pool, entries.subrange(0, i), open),
    ensures
        nonblocking_failed(entries, open, ifname, source),
{
}

/// The opener failed with `source` on the entry whose pin name is `pin_name`,
/// after every entry before it had opened.
pub open spec fn output_pin_failed<D, E, F: Fn(&String) -> Result<D, E>>(entries: Seq<OutputPin>, open: F, pin_name: Seq<char>, source: E) -> bool {
    exists|i: int|
        0 <= i < entries.len() && #[trigger] entries[i].pin_name@ == pin_name
            && open.ensures((&entries[i].pin_name,), Err(source))
            && opens_all_output_pin(entries.subrange(0, i), open)
}

/// An opener failure at entry `i` of a build that has opened every entry
/// before it.
proof fn lemma_output_pin_failed<D, E, F: Fn(&String) -> Result<D, E>>(
    entries: Seq<OutputPin>,
    open: F,
    pool: Seq<(String, D)>,
    i: int,
    pin_name: Seq<char>,
    source: E,
)
    requires
        0 <= i < entries.len(),
        entries[i].pin_name@ == pin_name,
        open.ensures((&entries[i].pin_name,), Err(source)),
        opened_output_pin(pool, entries.subrange(0, i), open),
    ensures
        output_pin_failed(entries, open, pin_name, source),
{
}

/// The opener failed with `source` on the entry whose pin name is `pin_name`,
/// after every entry before it had opened.
pub open spec fn stateful_output_pin_failed<D, E, F: Fn(&String) -> Result<D, E>>(entries: Seq<StatefulOutputPin>, open: F, pin_name: Seq<char>, source: E) -> bool {
    exists|i: int|
        0 <= i < entries.len() && #[trigger] entries[i].pin_name@ == pin_name
            && open.ensures((&entries[i].pin_name,), Err(source))
            && opens_all_stateful_output_pin(entries.subrange(0, i), open)
}

/// An opener failure at entry `i` of a build that has opened every entry
/// before it.
proof fn lemma_stateful_output_pin_failed<D, E, F: Fn(&String) -> Result<D, E>>(
    entries: Seq<StatefulOutputPin>,
    open: F,
    pool: Seq<(String, D)>,
    i: int,
    pin_name: Seq<char>,
    source: E,
)
    requires
        0 <= i < entries.len(),
        entries[i].pin_name@ == pin_name,
        open.ensures((&entries[i].pin_name,), Err(source)),
        opened_stateful_output_pin(pool, entries.subrange(0, i), open),
    ensures
        stateful_output_pin_failed(entries, open, pin_name, source),
{
}

/// The opener failed with `source` on the entry whose pin name is `pin_name`,
/// after every entry before it had opened.
pub open spec fn input_pin_failed<D, E, F: Fn(&String) -> Result<D, E>>(entries: Seq<InputPin>, open: F, pin_name: Seq<char>, source: E) -> bool {
    exists|i: int|
        0 <= i < entries.len() && #[trigger] entries[i].pin_name@ == pin_name
            && open.ensures((&entries[i].pin_name,), Err(source))
            && opens_all_input_pin(entries.subrange(0, i), open)
}

/// An opener failure at entry `i` of a build that has opened every entry
/// before it.
proof fn lemma_input_pin_failed<D, E, F: Fn(&String) -> Result<D, E>>(
    entries: Seq<InputPin>,
    open: F,
    pool: Seq<(String, D)>,
    i: int,
    pin_name: Seq<char>,
    source: E,
)
    requires
        0 <= i < entries.len(),
        entries[i].pin_name@ == pin_name,
        open.ensures((&entries[i].pin_name,), Err(source)),
        opened_input_pin(pool, entries.subrange(0, i), open),
    ensures
        input_pin_failed(entries, open, pin_name, source),
{
}

/// The opener failed with `source` on the entry for PWM `chip` and
/// `channel`, after every entry before it had opened.
pub open spec fn pwm_pin_failed<D, E, F: Fn(u32, u32, u32) -> Result<D, E>>(
    entries: Seq<PwmPin>,
    open: F,
    chip: u32,
    channel: u32,
    source: E,
) -> bool {
    exists|i: int|
        0 <= i < entries.len() && #[trigger] entries[i].chip == chip && entries[i].channel == channel
            && open.ensures((chip, channel, entries[i].period_ns), Err(source))
            && opens_all_pwm_pin(entries.subrange(0, i), open)
}

/// An opener failure at entry `i` of a build that has opened every entry
/// before it.
proof fn lemma_pwm_pin_failed<D, E, F: Fn(u32, u32, u32) -> Result<D, E>>(
    entries: Seq<PwmPin>,
    open: F,
    pool: Seq<(String, D)>,
    i: int,
    source: E,
)
    requires
        0 <= i < entries.len(),
        open.ensures((entries[i].chip, entries[i].channel, entries[i].period_ns), Err(source)),
        opened_pwm_pin(pool, entries.subrange(0, i), open),
    ensures
        pwm_pin_failed(entries, open, entries[i].chip, entries[i].channel, source),
{
}

impl Policy {
    /// Builds the CAN context: with no CAN policy, an empty context outside
    /// debug mode; otherwise the policy's debug mode, every blocking
    /// interface opened and registered in order, then every nonblocking
    /// one. The first interface that fails to open ends the build with its
    /// error.
    pub fn build_can_context<B, N, E, FB, FN>(&self, open_blocking: FB, open_nonblocking: FN) -> (r: Result<WasiCanCtx<B, N>, PolicyError<E>>)
        where
            FB: Fn(&String) -> Result<B, E>,
            FN: Fn(&String) -> Result<N, E>,
        requires
            forall|s: &String| open_blocking.requires((s,)),
            forall|s: &String| open_nonblocking.requires((s,)),
        ensures
            self.can is None ==> (r matches Ok(ctx) && ctx.blocking_can@.len() == 0
                && ctx.nonblocking_can@.len() == 0 && !ctx.debug),
            self.can matches Some(p) ==> match r {
                Ok(ctx) => {
                    &&& ctx.debug == p.debug
                    &&& opened_blocking(ctx.blocking_can@, p.blocking@, open_blocking)
                    &&& opened_nonblocking(ctx.nonblocking_can@, p.nonblocking@, open_nonblocking)
                },
                Err(PolicyError::OpenBlockingCan { ifname, source }) =>
                    blocking_failed(p.blocking@, open_blocking, ifname@, source),
                Err(PolicyError::OpenNonblockingCan { ifname, source }) => opens_all_blocking(p.blocking@, open_blocking)
                    && nonblocking_failed(p.nonblocking@, open_nonblocking, ifname@, source),
                Err(_) => false,
            },
    {
        let mut ctx: WasiCanCtx<B, N> = WasiCanCtx::new();
        let policy = match &self.can {
            None => return Ok(ctx),
            Some(p) => p,
        };
        ctx.set_debug_mode(policy.debug);
        let mut i: usize = 0;
        while i < policy.blocking.len()
            invariant
                i <= policy.blocking@.len(),
                self.can == Some(*policy),
                ctx.debug == policy.debug,
                ctx.nonblocking_can@.len() == 0,
                opened_blocking(ctx.blocking_can@, policy.blocking@.subrange(0, i as int), open_blocking),
                forall|s: &String| open_blocking.requires((s,)),
            decreases policy.blocking@.len() - i,
        {
            let entry = &policy.blocking[i];
            match open_blocking(&entry.ifname) {
                Ok(can) => ctx.add_blocking_can(entry.name.clone(), can),
                Err(source) => {
                    let ifname = entry.ifname.clone();
                    proof {
                        lemma_blocking_failed(policy.blocking@, open_blocking, ctx.blocking_can@, i as int, ifname@, source);
                    }
                    return Err(PolicyError::OpenBlockingCan { ifname, source });
                },
            }
            i = i + 1;
        }
        let mut j: usize = 0;
        while j < policy.nonblocking.len()
            invariant
                j <= policy.nonblocking@.len(),
                self.can == Some(*policy),
                ctx.debug == policy.debug,
                opened_blocking(ctx.blocking_can@, policy.blocking@, open_blocking),
                opened_nonblocking(ctx.nonblocking_can@, policy.nonblocking@.subrange(0, j as int), open_nonblocking),
                forall|s: &String| open_nonblocking.requires((s,)),
            decreases policy.nonblocking@.len() - j,
        {
            let entry = &policy.nonblocking[j];
            match open_nonblocking(&entry.ifname) {
                Ok(can) => ctx.add_nonblocking_can(entry.name.clone(), can),
                Err(source) => {
                    let ifname = entry.ifname.clone();
                    proof {
                        lemma_nonblocking_failed(policy.nonblocking@, open_nonblocking, ctx.nonblocking_can@, j as int, ifname@, source);
                    }
                    return Err(PolicyError::OpenNonblockingCan { ifname, source });
                },
            }
            j = j + 1;
        }
        proof {
            assert(policy.blocking@.subrange(0, policy.blocking@.len() as int) =~= policy.blocking@);
            assert(policy.nonblocking@.subrange(0, policy.nonblocking@.len() as int) =~= policy.nonblocking@);
        }
        Ok(ctx)
    }

    /// Builds the GPIO context: with no GPIO policy, an empty context
    /// outside debug mode; otherwise the policy's debug mode and every
    /// output pin, stateful output pin, input pin and PWM pin opened and
    /// registered in that order. The first pin that fails to open ends the
    /// build with its error.
    pub fn build_gpio_context<O, S, I, P, E, FO, FS, FI, FP>(
        &self,
        open_output: FO,
        open_stateful_output: FS,
        open_input: FI,
        open_pwm: FP,
    ) -> (r: Result<WasiGpioCtx<O, S, I, P>, PolicyError<E>>)
        where
            FO: Fn(&String) -> Result<O, E>,
            FS: Fn(&String) -> Result<S, E>,
            FI: Fn(&String) -> Result<I, E>,
            FP: Fn(u32, u32, u32) -> Result<P, E>,
        requires
            forall|s: &String| open_output.requires((s,)),
            forall|s: &String| open_stateful_output.requires((s,)),
            forall|s: &String| open_input.requires((s,)),
            forall|c: u32, n: u32, t: u32| open_pwm.requires((c, n, t)),
        ensures
            self.gpio is None ==> (r matches Ok(ctx) && ctx.output_pin@.len() == 0
                && ctx.stateful_output_pin@.len() == 0 && ctx.input_pin@.len() == 0
                && ctx.pwm_pin@.len() == 0 && !ctx.debug),
            self.gpio matches Some(p) ==> match r {
                Ok(ctx) => {
                    &&& ctx.debug == p.debug
                    &&& opened_output_pin(ctx.output_pin@, p.output_pin@, open_output)
                    &&& opened_stateful_output_pin(ctx.stateful_output_pin@, p.stateful_output_pin@, open_stateful_output)
                    &&& opened_input_pin(ctx.input_pin@, p.input_pin@, open_input)
                    &&& opened_pwm_pin(ctx.pwm_pin@, p.pwm_pin@, open_pwm)
                },
                Err(PolicyError::OpenOutputPin { pin_name, source }) =>
                    output_pin_failed(p.output_pin@, open_output, pin_name@, source),
                Err(PolicyError::OpenStatefulOutputPin { pin_name, source }) => opens_all_output_pin(p.output_pin@, open_output)
                    && stateful_output_pin_failed(p.stateful_output_pin@, open_stateful_output, pin_name@, source),
                Err(PolicyError::OpenInputPin { pin_name, source }) => opens_all_output_pin(p.output_pin@, open_output)
                    && opens_all_stateful_output_pin(p.stateful_output_pin@, open_stateful_output)
                    && input_pin_failed(p.input_pin@, open_input, pin_name@, source),
                Err(PolicyError::OpenPwm { chip, channel, source }) => opens_all_output_pin(p.output_pin@, open_output)
                    && opens_all_stateful_output_pin(p.stateful_output_pin@, open_stateful_output)
                    && opens_all_input_pin(p.input_pin@, open_input)
                    && pwm_pin_failed(p.pwm_pin@, open_pwm, chip, channel, source),
                Err(_) => false,
            },
    {
        let mut ctx: WasiGpioCtx<O, S, I, P> = WasiGpioCtx::new();
        let policy = match &self.gpio {
            None => return Ok(ctx),
            Some(p) => p,
        };
        ctx.set_debug_mode(policy.debug);
        let mut i: usize = 0;
        while i < policy.output_pin.len()
            invariant
                i <= policy.output_pin@.len(),
                self.gpio == Some(*policy),
                ctx.debug == policy.debug,
                opened_output_pin(ctx.output_pin@, policy.output_pin@.subrange(0, i as int), open_output),
                ctx.stateful_output_pin@.len() == 0,
                ctx.input_pin@.len() == 0,
                ctx.pwm_pin@.len() == 0,
                forall|s: &String| open_output.requires((s,)),
            decreases policy.output_pin@.len() - i,
        {
            let entry = &policy.output_pin[i];
            match open_output(&entry.pin_name) {
                Ok(pin) => ctx.add_output_pin(entry.name.clone(), pin),
                Err(source) => {
                    let pin_name = entry.pin_name.clone();
                    proof {
                        lemma_output_pin_failed(policy.output_pin@, open_output, ctx.output_pin@, i as int, pin_name@, source);
                    }
                    return Err(PolicyError::OpenOutputPin { pin_name, source });
                },
            }
            i = i + 1;
        }
        proof {
            assert(policy.output_pin@.subrange(0, policy.output_pin@.len() as int) =~= policy.output_pin@);
        }
        let mut i: usize = 0;
        while i < policy.stateful_output_pin.len()
            invariant
                i <= policy.stateful_output_pin@.len(),
                self.gpio == Some(*policy),
                ctx.debug == policy.debug,
                opened_output_pin(ctx.output_pin@, policy.output_pin@, open_output),
                opened_stateful_output_pin(ctx.stateful_output_pin@, policy.stateful_output_pin@.subrange(0, i as int), open_stateful_output),
                ctx.input_pin@.len() == 0,
                ctx.pwm_pin@.len() == 0,
                forall|s: &String| open_stateful_output.requires((s,)),
            decreases policy.stateful_output_pin@.len() - i,
        {
            let entry = &policy.stateful_output_pin[i];
            match open_stateful_output(&entry.pin_name) {
                Ok(pin) => ctx.add_stateful_output_pin(entry.name.clone(), pin),
                Err(source) => {
                    let pin_name = entry.pin_name.clone();
                    proof {
                        lemma_stateful_output_pin_failed(policy.stateful_output_pin@, open_stateful_output, ctx.stateful_output_pin@, i as int, pin_name@, source);
                    }
                    return Err(PolicyError::OpenStatefulOutputPin { pin_name, source });
                },
            }
            i = i + 1;
        }
        proof {
            assert(policy.stateful_output_pin@.subrange(0, policy.stateful_output_pin@.len() as int) =~= policy.stateful_output_pin@);
        }
        let mut i: usize = 0;
        while i < policy.input_pin.len()
            invariant
                i <= policy.input_pin@.len(),
                self.gpio == Some(*policy),
                ctx.debug == policy.debug,
                opened_output_pin(ctx.output_pin@, policy.output_pin@, open_output),
                opened_stateful_output_pin(ctx.stateful_output_pin@, policy.stateful_output_pin@, open_stateful_output),
                opened_input_pin(ctx.input_pin@, policy.input_pin@.subrange(0, i as int), open_input),
                ctx.pwm_pin@.len() == 0,
                forall|s: &String| open_input.requires((s,)),
            decreases policy.input_pin@.len() - i,
        {
            let entry = &policy.input_pin[i];
            match open_input(&entry.pin_name) {
                Ok(pin) => ctx.add_input_pin(entry.name.clone(), pin),
                Err(source) => {
                    let pin_name = entry.pin_name.clone();
                    proof {
                        lemma_input_pin_failed(policy.input_pin@, open_input, ctx.input_pin@, i as int, pin_name@, source);
                    }
                    return Err(PolicyError::OpenInputPin { pin_name, source });
                },
            }
            i = i + 1;
        }
        proof {
            assert(policy.input_pin@.subrange(0, policy.input_pin@.len() as int) =~= policy.input_pin@);
        }
        let mut i: usize = 0;
        while i < policy.pwm_pin.len()
            invariant
                i <= policy.pwm_pin@.len(),
                self.gpio == Some(*policy),
                ctx.debug == policy.debug,
                opened_output_pin(ctx.output_pin@, policy.output_pin@, open_output),
                opened_stateful_output_pin(ctx.stateful_output_pin@, policy.stateful_output_pin@, open_stateful_output),
                opened_input_pin(ctx.input_pin@, policy.input_pin@, open_input),
                opened_pwm_pin(ctx.pwm_pin@, policy.pwm_pin@.subrange(0, i as int), open_pwm),
                forall|c: u32, n: u32, t: u32| open_pwm.requires((c, n, t)),
            decreases policy.pwm_pin@.len() - i,
        {
            let entry = &policy.pwm_pin[i];
            match open_pwm(entry.chip, entry.channel, entry.period_ns) {
                Ok(pin) => ctx.add_pwm_pin(entry.name.clone(), pin),
                Err(source) => {
                    proof {
                        lemma_pwm_pin_failed(policy.pwm_pin@, open_pwm, ctx.pwm_pin@, i as int, source);
                    }
                    return Err(PolicyError::OpenPwm { chip: entry.chip, channel: entry.channel, source });
                },
            }
            i = i + 1;
        }
        proof {
            assert(policy.pwm_pin@.subrange(0, policy.pwm_pin@.len() as int) =~= policy.pwm_pin@);
        }
        Ok(ctx)
    }
}

} // verus!
