//! The network-facing control session state machine.
//!
//! One controlling client is served at a time. While connected, each
//! decoded wire message updates the steering or throttle value cell;
//! a read timeout is not an error but the failsafe trigger: both cells
//! are driven to 0 at once and the connection stays open. Any other
//! read failure, and a graceful `Bye`, end the session (failsafe, then
//! back to waiting). The surrounding process owns the sockets and the
//! hardware; it feeds events in and carries the returned effects out.

use crate::fixed::{micro_of_bits, scaled_micro};
use crate::messages::drive_core::MessageType;
use crate::pwm_driver::{spec_channel_duty, PwmChannelArgs, ServoChannel};
use crate::variable::{emitted, notified, set_value_post, survivors, Listener, ListenerError, Variable};
use vstd::prelude::*;

verus! {

/// An action a notification pass asks the surrounding process to carry
/// out: the decisions are made and verified here, the input/output is
/// not.
#[derive(Clone, Copy, Debug, PartialEq, Eq, Structural)]
pub enum Effect {
    /// Write this duty cycle to the selected hardware channel.
    HwWrite { channel: ServoChannel, duty: u16 },
    /// Push this value (its wire bit pattern) under the granted
    /// telemetry log id.
    LogValue { id: i32, bits: u32 },
}

/// The listeners deployed on the command value cells: the channel
/// binding that turns a command into a hardware write, and the
/// telemetry reporter.
#[derive(Clone, Copy, Debug, PartialEq, Eq, Structural)]
pub enum CoreListener {
    /// Wires a value cell to an actuator channel without owning it.
    /// `attached` models the non-owning reference: when the channel is
    /// gone the binding does nothing, and never fails.
    Binding {
        channel: ServoChannel,
        config: PwmChannelArgs,
        factor_micro: i32,
        attached: bool,
    },
    /// Reports each change under a telemetry log id.
    Logger { id: i32 },
}

/// Whether a binding's calibration and factor are within the ranges
/// the duty-cycle arithmetic is specified for.
pub open spec fn binding_usable(config: PwmChannelArgs, factor_micro: i32) -> bool {
    config.wf() && -1_000_000 <= factor_micro <= 1_000_000
}

/// The duty cycle a binding writes for a wire bit pattern: the command
/// scaled by the binding's factor, applied around the channel's
/// neutral point.
pub open spec fn binding_duty(config: PwmChannelArgs, factor_micro: i32, bits: u32) -> int {
    spec_channel_duty(config, scaled_micro(micro_of_bits(bits), factor_micro as int))
}

impl Listener<u32> for CoreListener {
    type Effect = Effect;

    /// A notification never changes the listener and never asks for
    /// removal. A usable, attached binding emits exactly the hardware
    /// write for the observed command; a detached or unusable binding
    /// emits nothing. A telemetry listener emits exactly one log
    /// record.
    open spec fn on_notify(
        pre: Self,
        val: u32,
        post: Self,
        effects: Seq<Effect>,
        removed: bool,
    ) -> bool {
        &&& post == pre
        &&& removed == false
        &&& match pre {
            CoreListener::Binding { channel, config, factor_micro, attached } => {
                if attached && binding_usable(config, factor_micro) {
                    effects == seq![
                        Effect::HwWrite {
                            channel,
                            duty: binding_duty(config, factor_micro, val) as u16,
                        },
                    ]
                } else {
                    effects == Seq::<Effect>::empty()
                }
            },
            CoreListener::Logger { id } => effects == seq![Effect::LogValue { id, bits: val }],
        }
    }

    fn notify(&mut self, val: &u32) -> (r: (Result<(), ListenerError>, Vec<Effect>)) {
        match self {
            CoreListener::Binding { channel, config, factor_micro, attached } => {
                let usable = *attached && config.neutral <= 1_000_000 && config.range <= 1_000_000
                    && -1_000_000 <= *factor_micro && *factor_micro <= 1_000_000;
                if usable {
                    let micro = crate::fixed::micro_from_bits(*val);
                    let scaled = crate::fixed::scale_micro(micro, *factor_micro);
                    let deflection = crate::fixed::scale_micro(scaled, config.range as i32);
                    let duty = crate::pwm_driver::calc_duty_cycle(
                        config.neutral as i32 + deflection,
                    );
                    let out = vec![Effect::HwWrite { channel: *channel, duty }];
                    proof {
                        assert(0 <= binding_duty(*config, *factor_micro, *val) <= 0xffff);
                        assert(duty == binding_duty(*config, *factor_micro, *val) as u16);
                        assert(out@ =~= seq![
                            Effect::HwWrite {
                                channel: *channel,
                                duty: binding_duty(*config, *factor_micro, *val) as u16,
                            },
                        ]);
                    }
                    (Ok(()), out)
                } else {
                    (Ok(()), Vec::new())
                }
            },
            CoreListener::Logger { id } => {
                let out = vec![Effect::LogValue { id: *id, bits: *val }];
                proof {
                    assert(out@ =~= seq![Effect::LogValue { id: *id, bits: *val }]);
                }
                (Ok(()), out)
            },
        }
    }
}

/// The binding deployed on the steering cell: the steering channel,
/// with the command's sign inverted by convention.
pub open spec fn deployed_steering_binding(config: PwmChannelArgs) -> CoreListener {
    CoreListener::Binding {
        channel: ServoChannel::Steering,
        config,
        factor_micro: -1_000_000i32,
        attached: true,
    }
}

/// The binding deployed on the throttle cell.
pub open spec fn deployed_throttle_binding(config: PwmChannelArgs) -> CoreListener {
    CoreListener::Binding {
        channel: ServoChannel::Throttle,
        config,
        factor_micro: 1_000_000i32,
        attached: true,
    }
}

/// A neutral command writes the channel's neutral duty cycle: what a
/// binding puts on the wire whenever the failsafe fires.
pub proof fn lemma_neutral_command_gives_neutral_duty(config: PwmChannelArgs, factor_micro: i32)
    ensures
        binding_duty(config, factor_micro, 0) == crate::pwm_driver::spec_duty_cycle(
            config.neutral as int,
        ),
{
    crate::fixed::lemma_zero_bits_is_zero();
    crate::fixed::lemma_scaled_zero(factor_micro as int);
    crate::fixed::lemma_scaled_zero(config.range as int);
}

/// What one notification pass over the deployed binding alone emits:
/// exactly the hardware write for the observed command. This pins the
/// whole command path down: wire bit pattern to duty-cycle register
/// value.
pub proof fn lemma_deployed_binding_effects(
    pre: Variable<u32, CoreListener>,
    val: u32,
    post: Variable<u32, CoreListener>,
    effects: Seq<Effect>,
    channel: ServoChannel,
    config: PwmChannelArgs,
    factor_micro: i32,
)
    requires
        applied(pre, val, post, effects),
        pre.spec_value() != val,
        binding_usable(config, factor_micro),
        pre.spec_listeners() == seq![
            CoreListener::Binding { channel, config, factor_micro, attached: true },
        ],
    ensures
        effects == seq![
            Effect::HwWrite { channel, duty: binding_duty(config, factor_micro, val) as u16 },
        ],
        post.spec_listeners() == pre.spec_listeners(),
{
    let trace = choose|trace: Seq<(CoreListener, Seq<Effect>, bool)>|
        {
            &&& #[trigger] notified(pre.spec_listeners(), val, trace)
            &&& post.spec_listeners() == survivors::<u32, CoreListener>(trace)
            &&& effects == emitted::<u32, CoreListener>(trace)
            &&& post.spec_value() == val
        };
    assert(notified(pre.spec_listeners(), val, trace));
    assert(trace.len() == 1);
    assert(CoreListener::on_notify(
        pre.spec_listeners()[0],
        val,
        trace[0].0,
        trace[0].1,
        trace[0].2,
    ));
    assert(trace.drop_last() =~= Seq::<(CoreListener, Seq<Effect>, bool)>::empty());
    assert(trace.last() == trace[0]);
    assert(emitted::<u32, CoreListener>(Seq::empty()) == Seq::<Effect>::empty());
    assert(emitted::<u32, CoreListener>(trace) == Seq::<Effect>::empty() + trace[0].1);
    assert(Seq::<Effect>::empty() + trace[0].1 =~= trace[0].1);
    assert(survivors::<u32, CoreListener>(Seq::empty()) == Seq::<CoreListener>::empty());
    assert(survivors::<u32, CoreListener>(trace) == Seq::<CoreListener>::empty().push(
        trace[0].0,
    ));
    assert(Seq::<CoreListener>::empty().push(trace[0].0) =~= seq![trace[0].0]);
}

/// Whether an effect is the neutral-position write of one of the two
/// deployed channels: what the failsafe is allowed to put on the wire.
pub open spec fn is_neutral_write(
    e: Effect,
    steering_config: PwmChannelArgs,
    throttle_config: PwmChannelArgs,
) -> bool {
    ||| e == (Effect::HwWrite {
        channel: ServoChannel::Steering,
        duty: crate::pwm_driver::spec_duty_cycle(steering_config.neutral as int) as u16,
    })
    ||| e == (Effect::HwWrite {
        channel: ServoChannel::Throttle,
        duty: crate::pwm_driver::spec_duty_cycle(throttle_config.neutral as int) as u16,
    })
}

/// The no-signal-means-stop guarantee: once the failsafe has run over
/// the deployed bindings, everything it asked the process to write is
/// a neutral-position duty cycle. No stale command survives a silent
/// or broken link.
pub proof fn lemma_failsafe_writes_only_neutral(
    pre: &ControlSession,
    post: &ControlSession,
    effects: Seq<Effect>,
    steering_config: PwmChannelArgs,
    throttle_config: PwmChannelArgs,
)
    requires
        failsafe_post(pre, post, effects),
        steering_config.wf(),
        throttle_config.wf(),
        pre.spec_steering().spec_listeners() == seq![deployed_steering_binding(steering_config)],
        pre.spec_throttle().spec_listeners() == seq![deployed_throttle_binding(throttle_config)],
    ensures
        forall|i: int|
            0 <= i < effects.len() ==> is_neutral_write(
                #[trigger] effects[i],
                steering_config,
                throttle_config,
            ),
{
    let k = choose|k: int|
        {
            &&& 0 <= k <= effects.len()
            &&& #[trigger] applied(pre.spec_steering(), 0, post.spec_steering(), effects.take(k))
            &&& applied(pre.spec_throttle(), 0, post.spec_throttle(), effects.skip(k))
        };
    lemma_neutral_command_gives_neutral_duty(steering_config, -1_000_000i32);
    lemma_neutral_command_gives_neutral_duty(throttle_config, 1_000_000i32);
    assert forall|i: int| 0 <= i < effects.len() implies is_neutral_write(
        #[trigger] effects[i],
        steering_config,
        throttle_config,
    ) by {
        if i < k {
            assert(effects[i] == effects.take(k)[i]);
            assert(pre.spec_steering().spec_value() != 0);
            lemma_deployed_binding_effects(
                pre.spec_steering(),
                0,
                post.spec_steering(),
                effects.take(k),
                ServoChannel::Steering,
                steering_config,
                -1_000_000i32,
            );
            assert(effects.take(k) == seq![
                Effect::HwWrite {
                    channel: ServoChannel::Steering,
                    duty: binding_duty(steering_config, -1_000_000i32, 0) as u16,
                },
            ]);
            assert(i == 0);
        } else {
            assert(effects[i] == effects.skip(k)[i - k]);
            assert(pre.spec_throttle().spec_value() != 0);
            lemma_deployed_binding_effects(
                pre.spec_throttle(),
                0,
                post.spec_throttle(),
                effects.skip(k),
                ServoChannel::Throttle,
                throttle_config,
                1_000_000i32,
            );
            assert(effects.skip(k) == seq![
                Effect::HwWrite {
                    channel: ServoChannel::Throttle,
                    duty: binding_duty(throttle_config, 1_000_000i32, 0) as u16,
                },
            ]);
            assert(i - k == 0);
        }
    }
}

/// Where the session stands: waiting for a client to connect, or
/// serving the one connected client.
#[derive(Clone, Copy, Debug, PartialEq, Eq, Structural)]
pub enum SessionState {
    WaitingForClient,
    Connected,
}

/// What the surrounding process observed on the wire.
#[derive(Clone, Copy, Debug, PartialEq, Eq, Structural)]
pub enum SessionEvent {
    /// A client connected; its read timeout is already set to the
    /// session's bound.
    ClientAccepted,
    /// One control message was decoded from the stream.
    Received(MessageType),
    /// No message arrived within the read-timeout bound. Not an
    /// error: the failsafe trigger.
    ReadTimedOut,
    /// The read failed for any other reason: malformed frame, reset,
    /// or end of stream.
    ReadFailed,
}

/// What holds of a value cell after a command was applied to it: it
/// holds the command; a command equal to the old value notified
/// nobody and left the cell untouched, a differing one drove a full
/// notification pass that produced exactly `effects`. At this value
/// type the case split is unconditional: `u32` equality is spec
/// equality.
pub open spec fn applied(
    pre: Variable<u32, CoreListener>,
    val: u32,
    post: Variable<u32, CoreListener>,
    effects: Seq<Effect>,
) -> bool {
    &&& post.spec_value() == val
    &&& if pre.spec_value() == val {
        post == pre && effects.len() == 0
    } else {
        set_value_post(pre.spec_listeners(), val, post.spec_value(), post.spec_listeners(), effects)
    }
}

/// What holds after the failsafe: both cells hold 0, each notified as
/// [`applied`] demands, and `effects` is the steering pass followed by
/// the throttle pass.
pub open spec fn failsafe_post(
    pre: &ControlSession,
    post: &ControlSession,
    effects: Seq<Effect>,
) -> bool {
    exists|k: int|
        {
            &&& 0 <= k <= effects.len()
            &&& #[trigger] applied(pre.spec_steering(), 0, post.spec_steering(), effects.take(k))
            &&& applied(pre.spec_throttle(), 0, post.spec_throttle(), effects.skip(k))
        }
}

/// The per-connection control session: the two command value cells
/// with their deployed listeners, and the protocol state.
pub struct ControlSession {
    state: SessionState,
    read_timeout_ms: u64,
    steering: Variable<u32, CoreListener>,
    throttle: Variable<u32, CoreListener>,
}

impl ControlSession {
    pub closed spec fn spec_state(&self) -> SessionState {
        self.state
    }

    pub closed spec fn spec_read_timeout_ms(&self) -> u64 {
        self.read_timeout_ms
    }

    pub closed spec fn spec_steering(&self) -> Variable<u32, CoreListener> {
        self.steering
    }

    pub closed spec fn spec_throttle(&self) -> Variable<u32, CoreListener> {
        self.throttle
    }

    /// Builds the session for the given calibrations: both cells start
    /// at 0 (failsafe asserted before any client connects), each wired
    /// to its channel. Steering applies the command with inverted sign
    /// relative to throttle, by deployed convention a property of the
    /// binding, not of the channel.
    pub fn new(
        read_timeout_ms: u64,
        steering_config: PwmChannelArgs,
        throttle_config: PwmChannelArgs,
    ) -> (r: ControlSession)
        ensures
            r.spec_state() == SessionState::WaitingForClient,
            r.spec_read_timeout_ms() == read_timeout_ms,
            r.spec_steering().spec_value() == 0,
            r.spec_throttle().spec_value() == 0,
            r.spec_steering().spec_listeners() == seq![deployed_steering_binding(steering_config)],
            r.spec_throttle().spec_listeners() == seq![deployed_throttle_binding(throttle_config)],
    {
        let mut steering: Variable<u32, CoreListener> = Variable::new(0);
        let mut throttle: Variable<u32, CoreListener> = Variable::new(0);
        steering.add_listener(
            CoreListener::Binding {
                channel: ServoChannel::Steering,
                config: steering_config,
                factor_micro: -1_000_000i32,
                attached: true,
            },
        );
        throttle.add_listener(
            CoreListener::Binding {
                channel: ServoChannel::Throttle,
                config: throttle_config,
                factor_micro: 1_000_000,
                attached: true,
            },
        );
        proof {
            assert(Seq::<CoreListener>::empty().push(deployed_steering_binding(steering_config))
                =~= seq![deployed_steering_binding(steering_config)]);
            assert(Seq::<CoreListener>::empty().push(deployed_throttle_binding(throttle_config))
                =~= seq![deployed_throttle_binding(throttle_config)]);
        }
        ControlSession {
            state: SessionState::WaitingForClient,
            read_timeout_ms,
            steering,
            throttle,
        }
    }

    /// The read-timeout bound the accepted connection must be given:
    /// the failsafe trigger window, not a tuning knob.
    pub fn read_timeout_ms(&self) -> (r: u64)
        ensures
            r == self.spec_read_timeout_ms(),
    {
        self.read_timeout_ms
    }

    /// Where the session stands, so the surrounding loop knows whether
    /// to accept or to read.
    pub fn state(&self) -> (r: SessionState)
        ensures
            r == self.spec_state(),
    {
        self.state
    }

    /// Registers a further listener on the steering cell.
    pub fn add_steering_listener(&mut self, listener: CoreListener)
        ensures
            final(self).spec_state() == old(self).spec_state(),
            final(self).spec_read_timeout_ms() == old(self).spec_read_timeout_ms(),
            final(self).spec_throttle() == old(self).spec_throttle(),
            final(self).spec_steering().spec_value() == old(self).spec_steering().spec_value(),
            final(self).spec_steering().spec_listeners() == old(
                self,
            ).spec_steering().spec_listeners().push(listener),
    {
        self.steering.add_listener(listener);
    }

    /// Registers a further listener on the throttle cell.
    pub fn add_throttle_listener(&mut self, listener: CoreListener)
        ensures
            final(self).spec_state() == old(self).spec_state(),
            final(self).spec_read_timeout_ms() == old(self).spec_read_timeout_ms(),
            final(self).spec_steering() == old(self).spec_steering(),
            final(self).spec_throttle().spec_value() == old(self).spec_throttle().spec_value(),
            final(self).spec_throttle().spec_listeners() == old(
                self,
            ).spec_throttle().spec_listeners().push(listener),
    {
        self.throttle.add_listener(listener);
    }

    /// The current steering command's wire bit pattern.
    pub fn steering_bits(&self) -> (r: u32)
        ensures
            r == self.spec_steering().spec_value(),
    {
        *self.steering.value()
    }

    /// The current throttle command's wire bit pattern.
    pub fn throttle_bits(&self) -> (r: u32)
        ensures
            r == self.spec_throttle().spec_value(),
    {
        *self.throttle.value()
    }

    /// Drives both cells to 0: the no-signal-means-stop action. The
    /// returned effects carry the neutral hardware writes out.
    pub fn failsafe(&mut self) -> (effects: Vec<Effect>)
        ensures
            final(self).spec_state() == old(self).spec_state(),
            final(self).spec_read_timeout_ms() == old(self).spec_read_timeout_ms(),
            final(self).spec_steering().spec_value() == 0,
            final(self).spec_throttle().spec_value() == 0,
            failsafe_post(old(self), final(self), effects@),
    {
        let mut effects = self.steering.set_value(0);
        let ghost e1 = effects@;
        let mut more = self.throttle.set_value(0);
        let ghost e2 = more@;
        effects.append(&mut more);
        proof {
            let k = e1.len() as int;
            assert(effects@.take(k) =~= e1);
            assert(effects@.skip(k) =~= e2);
            assert(applied(old(self).spec_steering(), 0, self.spec_steering(), effects@.take(k)));
            assert(applied(old(self).spec_throttle(), 0, self.spec_throttle(), effects@.skip(k)));
        }
        effects
    }

    /// Consumes one event. Commands update their cell (and through the
    /// listeners, the hardware); a timeout fires the failsafe and keeps
    /// the connection; `Bye` and read failures fire the failsafe and
    /// return the session to waiting.
    pub fn step(&mut self, event: SessionEvent) -> (effects: Vec<Effect>)
        requires
            event == SessionEvent::ClientAccepted ==> old(self).spec_state()
                == SessionState::WaitingForClient,
            event != SessionEvent::ClientAccepted ==> old(self).spec_state()
                == SessionState::Connected,
        ensures
            final(self).spec_read_timeout_ms() == old(self).spec_read_timeout_ms(),
            match event {
                SessionEvent::ClientAccepted => {
                    &&& final(self).spec_state() == SessionState::Connected
                    &&& final(self).spec_steering() == old(self).spec_steering()
                    &&& final(self).spec_throttle() == old(self).spec_throttle()
                    &&& effects@.len() == 0
                },
                SessionEvent::Received(MessageType::SetSteering(bits)) => {
                    &&& final(self).spec_state() == SessionState::Connected
                    &&& applied(old(self).spec_steering(), bits, final(self).spec_steering(), effects@)
                    &&& final(self).spec_throttle() == old(self).spec_throttle()
                },
                SessionEvent::Received(MessageType::SetThrottle(bits)) => {
                    &&& final(self).spec_state() == SessionState::Connected
                    &&& applied(old(self).spec_throttle(), bits, final(self).spec_throttle(), effects@)
                    &&& final(self).spec_steering() == old(self).spec_steering()
                },
                SessionEvent::Received(MessageType::Bye) => {
                    &&& final(self).spec_state() == SessionState::WaitingForClient
                    &&& final(self).spec_steering().spec_value() == 0
                    &&& final(self).spec_throttle().spec_value() == 0
                    &&& failsafe_post(old(self), final(self), effects@)
                },
                SessionEvent::ReadTimedOut => {
                    &&& final(self).spec_state() == SessionState::Connected
                    &&& final(self).spec_steering().spec_value() == 0
                    &&& final(self).spec_throttle().spec_value() == 0
                    &&& failsafe_post(old(self), final(self), effects@)
                },
                SessionEvent::ReadFailed => {
                    &&& final(self).spec_state() == SessionState::WaitingForClient
                    &&& final(self).spec_steering().spec_value() == 0
                    &&& final(self).spec_throttle().spec_value() == 0
                    &&& failsafe_post(old(self), final(self), effects@)
                },
            },
    {
        match event {
            SessionEvent::ClientAccepted => {
                self.state = SessionState::Connected;
                Vec::new()
            },
            SessionEvent::Received(MessageType::SetSteering(bits)) => {
                self.steering.set_value(bits)
            },
            SessionEvent::Received(MessageType::SetThrottle(bits)) => {
                self.throttle.set_value(bits)
            },
            SessionEvent::Received(MessageType::Bye) => {
                let effects = self.failsafe();
                self.state = SessionState::WaitingForClient;
                effects
            },
            SessionEvent::ReadTimedOut => self.failsafe(),
            SessionEvent::ReadFailed => {
                let effects = self.failsafe();
                self.state = SessionState::WaitingForClient;
                effects
            },
        }
    }
}

} // verus!
