//! Operator input decisions.
//!
//! The remote-control front-end reads raw key and gamepad events from
//! device nodes and turns them into the two normalized commands the
//! control service takes. The device reads live in the surrounding
//! process; the mapping from raw events to commands is decided here,
//! over micro-unit values (see [`crate::fixed`]).

use crate::messages::{word_of_le16, word_of_le32};
use vstd::arithmetic::div_mod::lemma_multiply_divide_lt;
use vstd::prelude::*;

verus! {

/// The operator's current commands, in micro-units of `[-1, 1]`, and
/// whether the remote control should keep running.
#[derive(Clone, Copy, Debug, PartialEq, Eq, Structural)]
pub struct Inputs {
    pub steering: i32,
    pub throttle: i32,
    pub running: bool,
}

/// A source of operator commands: polled once per send interval, it
/// folds whatever events it has pending into the commands.
pub trait InputDevice {
    fn poll(&mut self, inputs: &mut Inputs);
}

// The raw key codes the keyboard front-end reacts to.
pub const KEY_CODE_LEFT: u16 = 105;

pub const KEY_CODE_RIGHT: u16 = 106;

pub const KEY_CODE_UP: u16 = 103;

pub const KEY_CODE_DOWN: u16 = 108;

pub const KEY_CODE_CTRL: u16 = 29;

pub const KEY_CODE_C: u16 = 46;

/// One raw input event: the fields of a 24-byte input record that the
/// mapping reads (the two leading timestamp words are dropped).
#[derive(Clone, Copy, Debug, PartialEq, Eq, Structural)]
pub struct KeyEvent {
    pub event_type: u16,
    pub code: u16,
    pub value: i32,
}

/// Reads the event type, code and value out of a raw 24-byte input
/// record: little-endian words at offsets 16, 18 and 20.
pub fn parse_input_event(buffer: &[u8]) -> (r: KeyEvent)
    requires
        buffer@.len() == 24,
    ensures
        r.event_type == word_of_le16(buffer@[16], buffer@[17]),
        r.code == word_of_le16(buffer@[18], buffer@[19]),
        r.value == word_of_le32(buffer@[20], buffer@[21], buffer@[22], buffer@[23]) as i32,
{
    let event_type = crate::messages::read_le16(buffer, 16);
    let code = crate::messages::read_le16(buffer, 18);
    let value = crate::messages::read_le32(buffer, 20) as i32;
    KeyEvent { event_type, code, value }
}

/// The commands after one key-state event: the arrow keys drive
/// steering and throttle to full deflection while held, and Ctrl+C
/// asks the remote control to stop. Events that are neither a key-down
/// nor a key-up (such as key-repeat) change nothing.
pub open spec fn keyboard_next(inputs: Inputs, ctrl_down: bool, code: u16, value: i32) -> (
    Inputs,
    bool,
) {
    if value != 0 && value != 1 {
        (inputs, ctrl_down)
    } else {
        let down = value == 1;
        if code == KEY_CODE_LEFT {
            (
                Inputs {
                    steering: if down {
                        -1_000_000i32
                    } else {
                        0
                    },
                    ..inputs
                },
                ctrl_down,
            )
        } else if code == KEY_CODE_RIGHT {
            (
                Inputs {
                    steering: if down {
                        1_000_000
                    } else {
                        0
                    },
                    ..inputs
                },
                ctrl_down,
            )
        } else if code == KEY_CODE_UP {
            (
                Inputs {
                    throttle: if down {
                        1_000_000
                    } else {
                        0
                    },
                    ..inputs
                },
                ctrl_down,
            )
        } else if code == KEY_CODE_DOWN {
            (
                Inputs {
                    throttle: if down {
                        -1_000_000i32
                    } else {
                        0
                    },
                    ..inputs
                },
                ctrl_down,
            )
        } else if code == KEY_CODE_CTRL {
            (inputs, down)
        } else if code == KEY_CODE_C {
            if ctrl_down {
                (Inputs { running: false, ..inputs }, ctrl_down)
            } else {
                (inputs, ctrl_down)
            }
        } else {
            (inputs, ctrl_down)
        }
    }
}

/// Folds one raw input record into the commands. Only key events
/// (event type 1) are considered.
pub fn apply_key_event(inputs: &mut Inputs, ctrl_down: &mut bool, ev: KeyEvent)
    ensures
        ev.event_type == 1 ==> (*final(inputs), *final(ctrl_down)) == keyboard_next(
            *old(inputs),
            *old(ctrl_down),
            ev.code,
            ev.value,
        ),
        ev.event_type != 1 ==> *final(inputs) == *old(inputs) && *final(ctrl_down) == *old(
            ctrl_down,
        ),
{
    if ev.event_type != 1 {
        return ;
    }
    if ev.value != 0 && ev.value != 1 {
        return ;
    }
    let down = ev.value == 1;
    if ev.code == KEY_CODE_LEFT {
        inputs.steering = if down {
            -1_000_000
        } else {
            0
        };
    } else if ev.code == KEY_CODE_RIGHT {
        inputs.steering = if down {
            1_000_000
        } else {
            0
        };
    } else if ev.code == KEY_CODE_UP {
        inputs.throttle = if down {
            1_000_000
        } else {
            0
        };
    } else if ev.code == KEY_CODE_DOWN {
        inputs.throttle = if down {
            -1_000_000
        } else {
            0
        };
    } else if ev.code == KEY_CODE_CTRL {
        *ctrl_down = down;
    } else if ev.code == KEY_CODE_C {
        if *ctrl_down {
            inputs.running = false;
        }
    }
}

/// One gamepad axis report.
#[derive(Clone, Copy, Debug, PartialEq, Eq, Structural)]
pub struct AxisEvent {
    pub axis: u32,
    pub value: i16,
}

/// A signed axis reading as a micro-unit fraction of full deflection:
/// `value / 32767`, rounded to the nearest millionth (ties away from
/// zero) and saturated to the command range (the lowest raw reading
/// sits one count below it).
pub open spec fn axis_fraction(value: int) -> int {
    let s = value * 1_000_000;
    let raw = if s >= 0 {
        (s + 16_383) / 32_767
    } else {
        -((-s + 16_383) / 32_767)
    };
    if raw > 1_000_000 {
        1_000_000
    } else if raw < -1_000_000 {
        -1_000_000
    } else {
        raw
    }
}

/// A trigger axis reading as a micro-unit fraction of `[0, 1]`:
/// `(value + 32767) / 65535`, rounded to the nearest millionth and
/// clamped at the bottom of the range (the lowest raw reading sits one
/// count below it).
pub open spec fn trigger_fraction(value: int) -> int {
    let base = if value + 32_767 < 0 {
        0
    } else {
        value + 32_767
    };
    (base * 1_000_000 + 32_767) / 65_535
}

/// Computes [`axis_fraction`] for a raw axis value.
pub fn axis_fraction_micro(value: i16) -> (r: i32)
    ensures
        r == axis_fraction(value as int),
        -1_000_000 <= r <= 1_000_000,
{
    let s: i64 = (value as i64) * 1_000_000;
    let neg: bool = s < 0;
    let mag: u64 = if neg {
        (-s) as u64
    } else {
        s as u64
    };
    let m: u64 = (mag + 16_383) / 32_767;
    proof {
        lemma_multiply_divide_lt((mag + 16_383) as int, 32_767, 1_000_032);
    }
    let saturated: u64 = if m > 1_000_000 {
        1_000_000
    } else {
        m
    };
    if neg {
        -(saturated as i32)
    } else {
        saturated as i32
    }
}

/// Computes [`trigger_fraction`] for a raw trigger value.
pub fn trigger_fraction_micro(value: i16) -> (r: i32)
    ensures
        r == trigger_fraction(value as int),
        0 <= r <= 1_000_000,
{
    let base: i64 = (value as i64) + 32_767;
    let shifted: u64 = if base < 0 {
        0
    } else {
        base as u64
    };
    let m: u64 = (shifted * 1_000_000 + 32_767) / 65_535;
    proof {
        lemma_multiply_divide_lt((shifted * 1_000_000 + 32_767) as int, 65_535, 1_000_001);
    }
    m as i32
}

/// The commands after one pass over a gamepad's pending events: axis 0
/// steers; axis 4 (accelerator) and axis 5 (brake, negated) combine
/// into the throttle command, the brake overriding the accelerator
/// beyond a small dead zone.
pub open spec fn gamepad_next(inputs: Inputs, events: Seq<AxisEvent>) -> Inputs {
    let steering = last_steering(events, inputs.steering as int);
    let throttle = last_throttle(events);
    let brake = last_brake(events);
    let combined = if brake < -50_000 || brake > 50_000 {
        brake
    } else {
        throttle + brake
    };
    Inputs { steering: steering as i32, throttle: combined as i32, running: inputs.running }
}

/// The steering command after the events: the last axis-0 report as a
/// fraction, or `default` if there is none.
pub open spec fn last_steering(events: Seq<AxisEvent>, default: int) -> int
    decreases events.len(),
{
    if events.len() == 0 {
        default
    } else if events.last().axis == 0 {
        axis_fraction(events.last().value as int)
    } else {
        last_steering(events.drop_last(), default)
    }
}

/// The accelerator reading after the events: the last axis-4 report as
/// a trigger fraction, or 0 if there is none.
pub open spec fn last_throttle(events: Seq<AxisEvent>) -> int
    decreases events.len(),
{
    if events.len() == 0 {
        0
    } else if events.last().axis == 4 {
        trigger_fraction(events.last().value as int)
    } else {
        last_throttle(events.drop_last())
    }
}

/// The brake reading after the events: the last axis-5 report as a
/// negated trigger fraction, or 0 if there is none.
pub open spec fn last_brake(events: Seq<AxisEvent>) -> int
    decreases events.len(),
{
    if events.len() == 0 {
        0
    } else if events.last().axis == 5 {
        -trigger_fraction(events.last().value as int)
    } else {
        last_brake(events.drop_last())
    }
}

/// Folds a pass of gamepad events into the commands.
pub fn apply_gamepad_events(inputs: &mut Inputs, events: &Vec<AxisEvent>)
    ensures
        *final(inputs) == gamepad_next(*old(inputs), events@),
{
    let mut steering: i32 = inputs.steering;
    let mut throttle: i32 = 0;
    let mut brake: i32 = 0;
    let n = events.len();
    let mut i: usize = 0;
    proof {
        assert(events@.take(0) =~= Seq::<AxisEvent>::empty());
    }
    while i < n
        invariant
            i <= n,
            events@.len() == n,
            steering == last_steering(events@.take(i as int), old(inputs).steering as int),
            throttle == last_throttle(events@.take(i as int)),
            brake == last_brake(events@.take(i as int)),
            0 <= throttle <= 1_000_000,
            -1_000_000 <= brake <= 0,
            *inputs == *old(inputs),
        decreases n - i,
    {
        let ev = events[i];
        if ev.axis == 0 {
            steering = axis_fraction_micro(ev.value);
        } else if ev.axis == 4 {
            throttle = trigger_fraction_micro(ev.value);
        } else if ev.axis == 5 {
            brake = -trigger_fraction_micro(ev.value);
        }
        proof {
            assert(events@.take(i + 1).drop_last() =~= events@.take(i as int));
            assert(events@.take(i + 1).last() == events@[i as int]);
        }
        i = i + 1;
    }
    proof {
        assert(events@.take(n as int) =~= events@);
    }
    inputs.steering = steering;
    inputs.throttle = if brake < -50_000 || brake > 50_000 {
        brake
    } else {
        throttle + brake
    };
}

} // verus!
