//! The two-channel PWM actuator driver.
//!
//! The driver owns the register-level device handle of a PCA9685 PWM
//! controller and the two calibrated output channels (steering and
//! throttle/brake). Commands and calibration are micro-unit values (see
//! [`crate::fixed`]); the duty-cycle and prescaler register arithmetic
//! is exact integer math with full contracts. The register reads and
//! writes themselves go through trusted wrappers around `i2cdev`.

use crate::error::{I2CError, SetupError};
use crate::fixed::{scale_micro, scaled_micro};
use i2cdev::linux::{LinuxI2CDevice, LinuxI2CError};
use vstd::arithmetic::div_mod::{
    lemma_div_is_ordered, lemma_fundamental_div_mod_converse, lemma_multiply_divide_lt,
};
use vstd::prelude::*;

verus! {

// Register numbers specific to the PCA9685 PWM driver.
const REG_MODE1: u8 = 0x00;

const REG_PRESCALER: u8 = 0xFE;

const REG_CHANNEL_BASE: u8 = 0x06;

const CHANNEL_STEERING: u8 = 0;

const CHANNEL_THROTTLE: u8 = 1;

// The mode register values for configuration (sleep) and normal
// (auto-increment enabled) operation.
const MODE1_SLEEP: u8 = 0x11;

const MODE1_RUN: u8 = 0x21;

#[verifier::external_type_specification]
#[verifier::external_body]
pub struct ExLinuxI2CDevice(LinuxI2CDevice);

#[verifier::external_type_specification]
#[verifier::external_body]
pub struct ExLinuxI2CError(LinuxI2CError);

/// Relies on `i2cdev::linux::LinuxI2CDevice::new`: opens the device
/// node at `path` and selects the slave at `address`. Whether it
/// succeeds depends on the machine, so nothing is promised.
#[verifier::external_body]
fn open_device(path: &str, address: u16) -> Result<LinuxI2CDevice, LinuxI2CError> {
    LinuxI2CDevice::new(path, address)
}

/// Relies on `I2CDevice::smbus_read_byte_data` for `LinuxI2CDevice`:
/// reads one byte from `register`. The value depends on the hardware,
/// so nothing is promised.
#[verifier::external_body]
fn read_byte_reg(dev: &mut LinuxI2CDevice, register: u8) -> Result<u8, LinuxI2CError> {
    i2cdev::core::I2CDevice::smbus_read_byte_data(dev, register)
}

/// Relies on `I2CDevice::smbus_write_byte_data` for `LinuxI2CDevice`:
/// writes one byte to `register`. Success depends on the hardware, so
/// nothing is promised.
#[verifier::external_body]
fn write_byte_reg(dev: &mut LinuxI2CDevice, register: u8, value: u8) -> Result<
    (),
    LinuxI2CError,
> {
    i2cdev::core::I2CDevice::smbus_write_byte_data(dev, register, value)
}

/// Relies on `I2CDevice::smbus_write_word_data` for `LinuxI2CDevice`:
/// writes a 16-bit word to `register`. Success depends on the hardware,
/// so nothing is promised.
#[verifier::external_body]
fn write_word_reg(dev: &mut LinuxI2CDevice, register: u8, value: u16) -> Result<
    (),
    LinuxI2CError,
> {
    i2cdev::core::I2CDevice::smbus_write_word_data(dev, register, value)
}

/// The prescaler register value for a PWM frequency in hertz:
/// `round(25_000_000 / 4096 / freq) - 1`, clamped to the 8-bit register.
pub open spec fn spec_prescaler(freq: int) -> int
    recommends
        freq >= 1,
{
    let den = 4096 * freq;
    let rounded = (25_000_000 + den / 2) / den;
    if rounded < 1 {
        0
    } else if rounded - 1 > 255 {
        255
    } else {
        rounded - 1
    }
}

/// Computes the clock prescaler register value for a PWM frequency.
pub fn calc_prescaler(freq: u32) -> (r: u8)
    requires
        freq >= 1,
    ensures
        r == spec_prescaler(freq as int),
{
    let den: u64 = 4096u64 * (freq as u64);
    let rounded: u64 = (25_000_000u64 + den / 2) / den;
    proof {
        lemma_multiply_divide_lt((25_000_000 + den / 2) as int, den as int, 0x10000000000);
    }
    if rounded < 1 {
        0
    } else if rounded - 1 > 255 {
        255
    } else {
        (rounded - 1) as u8
    }
}

/// At the deployed 50 Hz servo frequency the prescaler register value
/// is exactly 121.
pub proof fn lemma_prescaler_at_50hz()
    ensures
        spec_prescaler(50) == 121,
{
    lemma_fundamental_div_mod_converse(25_102_400, 204_800, 122, 116_800);
}

/// The first register of PWM channel `n`: channels occupy four
/// consecutive registers each, starting at a fixed base.
pub open spec fn spec_channel_base_reg(channel: int) -> int {
    6 + 4 * channel
}

/// Computes the base register number of a PWM channel.
pub fn calc_channel_base_reg(channel: u8) -> (r: u8)
    requires
        channel < 16,
    ensures
        r == spec_channel_base_reg(channel as int),
{
    REG_CHANNEL_BASE + channel * 4
}

/// The duty-cycle register value for a percentage in micro-units:
/// `round(percentage * 4096)`, clamped to the register's width. A
/// negative percentage (possible for out-of-range commands, which are
/// not rejected) clamps to 0.
pub open spec fn spec_duty_cycle(percentage_micro: int) -> int {
    if percentage_micro <= 0 {
        0
    } else {
        let d = (percentage_micro * 4096 + 500_000) / 1_000_000;
        if d > 0xffff {
            0xffff
        } else {
            d
        }
    }
}

/// Computes the duty-cycle register value for a percentage given in
/// micro-units.
pub fn calc_duty_cycle(percentage_micro: i32) -> (r: u16)
    ensures
        r == spec_duty_cycle(percentage_micro as int),
{
    if percentage_micro <= 0 {
        0
    } else {
        let d: u64 = ((percentage_micro as u64) * 4096 + 500_000) / 1_000_000;
        proof {
            lemma_multiply_divide_lt(
                (percentage_micro as u64 * 4096 + 500_000) as int,
                1_000_000,
                0x1000000000,
            );
        }
        if d > 0xffff {
            0xffff
        } else {
            d as u16
        }
    }
}

/// For a percentage within `[0, 1]` the clamp never engages: the duty
/// cycle register value is exactly the percentage rounded to 4096ths.
pub proof fn lemma_duty_cycle_rounds(percentage_micro: int)
    requires
        0 <= percentage_micro <= 1_000_000,
    ensures
        spec_duty_cycle(percentage_micro) == (percentage_micro * 4096 + 500_000) / 1_000_000,
        spec_duty_cycle(percentage_micro) <= 4096,
{
    assert(percentage_micro * 4096 <= 4_096_000_000);
    lemma_multiply_divide_lt(percentage_micro * 4096 + 500_000, 1_000_000, 4097);
    if percentage_micro == 0 {
        vstd::arithmetic::div_mod::lemma_basic_div(500_000, 1_000_000);
    }
}

/// The duty-cycle register value is monotonic in the percentage.
pub proof fn lemma_duty_cycle_monotonic(p1: int, p2: int)
    requires
        p1 <= p2,
    ensures
        spec_duty_cycle(p1) <= spec_duty_cycle(p2),
{
    if 0 < p1 {
        assert(p1 * 4096 <= p2 * 4096);
        lemma_div_is_ordered(p1 * 4096 + 500_000, p2 * 4096 + 500_000, 1_000_000);
    } else if 0 < p2 {
        lemma_div_is_ordered(500_000, p2 * 4096 + 500_000, 1_000_000);
    }
}

/// Calibration of one PWM output channel, in micro-units of duty cycle.
#[derive(Clone, Copy, Debug, PartialEq, Eq, Structural)]
pub struct PwmChannelArgs {
    /// Duty cycle of the channel's neutral position, in `[0, 1]`.
    pub neutral: u32,
    /// Duty-cycle deflection range: at a command of 1 the channel
    /// assumes its extreme position `neutral + range`.
    pub range: u32,
}

impl PwmChannelArgs {
    /// The calibration the arithmetic is specified for: neutral and
    /// range within one duty-cycle unit.
    pub open spec fn wf(&self) -> bool {
        self.neutral <= 1_000_000 && self.range <= 1_000_000
    }
}

/// Everything the driver needs to bring the hardware up.
#[derive(Clone, Copy, Debug, PartialEq, Eq, Structural)]
pub struct PwmArgs {
    /// I2C address of the PWM driver board.
    pub address: u16,
    /// PWM frequency to use, in hertz.
    pub freq: u32,
    /// Steering channel calibration.
    pub steering: PwmChannelArgs,
    /// Throttle/brake channel calibration.
    pub throttle: PwmChannelArgs,
}

impl PwmArgs {
    pub open spec fn wf(&self) -> bool {
        self.freq >= 1 && self.steering.wf() && self.throttle.wf()
    }
}

/// The duty-cycle register value a channel assumes for a micro-unit
/// command: the command scales the deflection range around neutral.
pub open spec fn spec_channel_duty(config: PwmChannelArgs, value_micro: int) -> int {
    spec_duty_cycle(config.neutral + scaled_micro(value_micro, config.range as int))
}

/// One calibrated PWM output channel.
pub struct PwmChannel {
    config: PwmChannelArgs,
    channel_num: u8,
}

impl PwmChannel {
    pub closed spec fn spec_config(&self) -> PwmChannelArgs {
        self.config
    }

    pub closed spec fn spec_channel_num(&self) -> u8 {
        self.channel_num
    }

    pub open spec fn wf(&self) -> bool {
        self.spec_config().wf() && self.spec_channel_num() < 16
    }

    /// Brings the channel up on `device`: the "on" register is fixed to
    /// 0 (the signal rises at cycle start) and the duty cycle starts at
    /// the neutral position.
    fn new(device: &mut LinuxI2CDevice, args: PwmChannelArgs, channel_num: u8) -> (r: Result<
        PwmChannel,
        I2CError,
    >)
        requires
            args.wf(),
            channel_num < 16,
        ensures
            r matches Ok(c) ==> c.spec_config() == args && c.spec_channel_num() == channel_num,
            r matches Err(e) ==> e is I2CDevice,
    {
        let channel_base_reg = calc_channel_base_reg(channel_num);
        match write_word_reg(device, channel_base_reg, 0x0000) {
            Ok(()) => (),
            Err(e) => {
                return Err(I2CError::I2CDevice(e));
            },
        }
        proof {
            lemma_duty_cycle_rounds_neutral(args);
        }
        match write_word_reg(device, channel_base_reg + 2, calc_duty_cycle(args.neutral as i32)) {
            Ok(()) => (),
            Err(e) => {
                return Err(I2CError::I2CDevice(e));
            },
        }
        Ok(PwmChannel { config: args, channel_num })
    }

    /// The duty-cycle register value this channel assumes for a
    /// micro-unit command.
    pub fn duty_for(&self, value_micro: i32) -> (r: u16)
        requires
            self.wf(),
            -1_000_000 <= value_micro <= 1_000_000,
        ensures
            r == spec_channel_duty(self.spec_config(), value_micro as int),
    {
        let deflection = scale_micro(value_micro, self.config.range as i32);
        calc_duty_cycle(self.config.neutral as i32 + deflection)
    }

    /// Sets the position of the servo connected to this PWM channel.
    /// `value_micro` is the new position in micro-units of `[-1, 1]`;
    /// 0 means neutral. The write goes to the channel's "off" register
    /// on `device`.
    pub fn set_value(&mut self, device: &mut LinuxI2CDevice, value_micro: i32) -> (r: Result<
        (),
        I2CError,
    >)
        requires
            old(self).wf(),
            -1_000_000 <= value_micro <= 1_000_000,
        ensures
            *final(self) == *old(self),
            r matches Err(e) ==> e is I2CDevice,
    {
        let duty = self.duty_for(value_micro);
        match write_word_reg(device, calc_channel_base_reg(self.channel_num) + 2, duty) {
            Ok(()) => Ok(()),
            Err(e) => Err(I2CError::I2CDevice(e)),
        }
    }
}

/// The neutral duty cycle of a well-formed calibration stays within
/// the register's width.
proof fn lemma_duty_cycle_rounds_neutral(args: PwmChannelArgs)
    requires
        args.wf(),
    ensures
        0 <= spec_duty_cycle(args.neutral as int) <= 4096,
{
    lemma_duty_cycle_rounds(args.neutral as int);
}

/// Classifies the outcome of the startup probe: the register contents
/// do not matter, so a successful read passes; any failure means the
/// device cannot be reached at all, a setup error distinct from a
/// transport error on a working device.
fn classify_probe(probe: Result<u8, LinuxI2CError>) -> (r: Result<(), I2CError>)
    ensures
        probe is Ok <==> r is Ok,
        probe is Err ==> (r matches Err(e) && e matches I2CError::Setup(s) && s.spec_msg()
            == "Could not communicate with PWM driver. Please check the connection"@),
{
    match probe {
        Ok(_) => Ok(()),
        Err(_) => Err(
            I2CError::Setup(
                SetupError::new("Could not communicate with PWM driver. Please check the connection"),
            ),
        ),
    }
}

/// Selects one of the driver's two output channels.
#[derive(Clone, Copy, Debug, PartialEq, Eq, Structural)]
pub enum ServoChannel {
    Steering,
    Throttle,
}

/// The PWM actuator driver: exclusive owner of the physical device
/// handle and of the two output channels. While it lives, the device
/// is held in normal operation; `shutdown` puts the device to sleep
/// and gives the handle up, after which every further register write
/// fails with [`I2CError::ReferenceInvalid`].
pub struct PwmDriver {
    device: Option<LinuxI2CDevice>,
    pub steering: PwmChannel,
    pub throttle: PwmChannel,
}

impl PwmDriver {
    /// Whether the device handle still exists.
    pub closed spec fn live(&self) -> bool {
        self.device is Some
    }

    pub closed spec fn wf(&self) -> bool {
        self.steering.wf() && self.throttle.wf()
    }

    /// The steering channel, as seen by specifications.
    pub closed spec fn spec_steering(&self) -> PwmChannel {
        self.steering
    }

    /// The throttle channel, as seen by specifications.
    pub closed spec fn spec_throttle(&self) -> PwmChannel {
        self.throttle
    }

    /// Opens the device, probes it, configures the clock prescaler for
    /// `args.freq`, resumes normal operation and brings both channels
    /// up at their neutral positions.
    pub fn new(path: &str, args: PwmArgs) -> (r: Result<PwmDriver, I2CError>)
        requires
            args.wf(),
        ensures
            r matches Ok(d) ==> {
                &&& d.wf()
                &&& d.live()
                &&& d.spec_steering().spec_config() == args.steering
                &&& d.spec_steering().spec_channel_num() == 0
                &&& d.spec_throttle().spec_config() == args.throttle
                &&& d.spec_throttle().spec_channel_num() == 1
            },
            r matches Err(e) ==> !(e is ReferenceInvalid),
    {
        let mut device = match open_device(path, args.address) {
            Ok(d) => d,
            Err(e) => {
                return Err(I2CError::I2CDevice(e));
            },
        };
        match classify_probe(read_byte_reg(&mut device, REG_MODE1)) {
            Ok(()) => (),
            Err(e) => {
                return Err(e);
            },
        }
        // Sleep mode is required while configuring the PWM frequency
        // prescaler.
        match write_byte_reg(&mut device, REG_MODE1, MODE1_SLEEP) {
            Ok(()) => (),
            Err(e) => {
                return Err(I2CError::I2CDevice(e));
            },
        }
        match write_byte_reg(&mut device, REG_PRESCALER, calc_prescaler(args.freq)) {
            Ok(()) => (),
            Err(e) => {
                return Err(I2CError::I2CDevice(e));
            },
        }
        match write_byte_reg(&mut device, REG_MODE1, MODE1_RUN) {
            Ok(()) => (),
            Err(e) => {
                return Err(I2CError::I2CDevice(e));
            },
        }
        let steering = match PwmChannel::new(&mut device, args.steering, CHANNEL_STEERING) {
            Ok(c) => c,
            Err(e) => {
                return Err(e);
            },
        };
        let throttle = match PwmChannel::new(&mut device, args.throttle, CHANNEL_THROTTLE) {
            Ok(c) => c,
            Err(e) => {
                return Err(e);
            },
        };
        Ok(PwmDriver { device: Some(device), steering, throttle })
    }

    /// Writes the duty cycle for `value_micro` to the selected channel,
    /// or reports that the device handle is already gone.
    pub fn set_channel_value(&mut self, channel: ServoChannel, value_micro: i32) -> (r: Result<
        (),
        I2CError,
    >)
        requires
            old(self).wf(),
            -1_000_000 <= value_micro <= 1_000_000,
        ensures
            final(self).wf(),
            final(self).live() == old(self).live(),
            final(self).spec_steering() == old(self).spec_steering(),
            final(self).spec_throttle() == old(self).spec_throttle(),
            !old(self).live() ==> (r matches Err(e) && e is ReferenceInvalid),
            old(self).live() ==> (r is Ok || (r matches Err(e) && e is I2CDevice)),
    {
        match &mut self.device {
            Some(device) => match channel {
                ServoChannel::Steering => self.steering.set_value(device, value_micro),
                ServoChannel::Throttle => self.throttle.set_value(device, value_micro),
            },
            None => Err(I2CError::ReferenceInvalid),
        }
    }

    /// Writes a duty-cycle register value, as carried in a notification
    /// effect, to the selected channel, or reports that the device
    /// handle is already gone.
    pub fn write_channel_duty(&mut self, channel: ServoChannel, duty: u16) -> (r: Result<
        (),
        I2CError,
    >)
        requires
            old(self).wf(),
        ensures
            final(self).wf(),
            final(self).live() == old(self).live(),
            final(self).spec_steering() == old(self).spec_steering(),
            final(self).spec_throttle() == old(self).spec_throttle(),
            !old(self).live() ==> (r matches Err(e) && e is ReferenceInvalid),
            old(self).live() ==> (r is Ok || (r matches Err(e) && e is I2CDevice)),
    {
        match &mut self.device {
            Some(device) => {
                let channel_num = match channel {
                    ServoChannel::Steering => CHANNEL_STEERING,
                    ServoChannel::Throttle => CHANNEL_THROTTLE,
                };
                match write_word_reg(device, calc_channel_base_reg(channel_num) + 2, duty) {
                    Ok(()) => Ok(()),
                    Err(e) => Err(I2CError::I2CDevice(e)),
                }
            },
            None => Err(I2CError::ReferenceInvalid),
        }
    }

    /// Puts the device to sleep and gives the handle up: the driver's
    /// unconditional last action before the process ends. A failure to
    /// write the sleep mode is reported and is fatal to the caller,
    /// since the device can then no longer be told to stop.
    pub fn shutdown(&mut self) -> (r: Result<(), I2CError>)
        ensures
            !final(self).live(),
            !old(self).live() ==> (r matches Err(e) && e is ReferenceInvalid),
            old(self).live() ==> (r is Ok || (r matches Err(e) && e is I2CDevice)),
    {
        let device = self.device.take();
        match device {
            Some(mut d) => match write_byte_reg(&mut d, REG_MODE1, MODE1_SLEEP) {
                Ok(()) => Ok(()),
                Err(e) => Err(I2CError::I2CDevice(e)),
            },
            None => Err(I2CError::ReferenceInvalid),
        }
    }
}

} // verus!
