//! The audio processing unit: two pulse channels, a triangle, a noise
//! channel driven by a 15-bit LFSR, the frame counter, and the mixer that
//! folds the channel levels into signed 16-bit samples.

use vstd::prelude::*;

verus! {

/// Which clocks a frame-counter step emits.
pub enum Frame {
    Neither,
    Quarter,
    Half,
}

/// The frame counter mode: 4-step or 5-step.
#[derive(Copy, Clone, PartialEq, Eq, Structural)]
pub enum CounterMode {
    Zero,
    One,
}

/// The envelope control byte: volume/decay in the low nibble, constant
/// volume in bit 4, loop/halt in bit 5.
#[derive(Copy, Clone, PartialEq, Eq, Structural)]
pub struct EnvelopeRegister(pub u8);

impl EnvelopeRegister {
    pub fn constant_volume(&self) -> (r: u8)
        ensures
            r == self.0 & 0x0F,
            r < 16,
    {
        proof {
            crate::bit_facts::lemma_u8_mask_bounds();
        }
        self.0 & 0x0F
    }

    pub fn decay(&self) -> (r: u8)
        ensures
            r == self.0 & 0x0F,
            r < 16,
    {
        proof {
            crate::bit_facts::lemma_u8_mask_bounds();
        }
        self.0 & 0x0F
    }

    pub fn reload(&self) -> (r: bool)
        ensures
            r == (self.0 & 0x10 != 0),
    {
        self.0 & 0x10 != 0
    }

    pub fn loop_flag(&self) -> (r: bool)
        ensures
            r == (self.0 & 0x20 != 0),
    {
        self.0 & 0x20 != 0
    }
}

/// One of the four pulse duty waveforms, by duty index and sequencer step.
pub open spec fn spec_waveform(duty: int, step: int) -> u8 {
    if duty == 0 {
        if step == 1 {
            1u8
        } else {
            0u8
        }
    } else if duty == 1 {
        if step == 1 || step == 2 {
            1u8
        } else {
            0u8
        }
    } else if duty == 2 {
        if 1 <= step <= 4 {
            1u8
        } else {
            0u8
        }
    } else {
        if step == 0 || 3 <= step <= 7 {
            1u8
        } else {
            0u8
        }
    }
}

/// One of the four pulse duty waveforms.
pub fn waveform(duty: usize, step: usize) -> (r: u8)
    requires
        duty < 4,
        step < 8,
    ensures
        r == spec_waveform(duty as int, step as int),
        r <= 1,
{
    if duty == 0 {
        if step == 1 {
            1
        } else {
            0
        }
    } else if duty == 1 {
        if step == 1 || step == 2 {
            1
        } else {
            0
        }
    } else if duty == 2 {
        if 1 <= step && step <= 4 {
            1
        } else {
            0
        }
    } else {
        if step == 0 || (3 <= step && step <= 7) {
            1
        } else {
            0
        }
    }
}

/// The length-counter load table, indexed by the high five bits of the
/// length register write.
pub open spec fn spec_length_table(i: int) -> u8 {
    let t = seq![
        10u8, 254, 20, 2, 40, 4, 80, 6, 160, 8, 60, 10, 14, 12, 26, 14, 12, 16, 24, 18, 48, 20,
        96, 22, 192, 24, 72, 26, 16, 28, 32, 30,
    ];
    t[i % 32]
}

/// The length-counter load table.
pub fn length_table(i: u8) -> (r: u8)
    requires
        i < 32,
    ensures
        r == spec_length_table(i as int),
{
    let v: Vec<u8> = vec![
        10u8, 254, 20, 2, 40, 4, 80, 6, 160, 8, 60, 10, 14, 12, 26, 14, 12, 16, 24, 18, 48, 20,
        96, 22, 192, 24, 72, 26, 16, 28, 32, 30,
    ];
    v[i as usize]
}

/// The noise channel period table, by the low four bits of the register.
pub open spec fn spec_noise_timer(i: int) -> u16 {
    let t = seq![4u16, 8, 16, 32, 64, 96, 128, 160, 202, 254, 380, 508, 762, 1016, 2034, 4068];
    t[i % 16]
}

/// The noise channel period table.
pub fn noise_timer(i: u8) -> (r: u16)
    requires
        i < 16,
    ensures
        r == spec_noise_timer(i as int),
        r < 0x1000,
{
    let v: Vec<u16> = vec![
        4u16, 8, 16, 32, 64, 96, 128, 160, 202, 254, 380, 508, 762, 1016, 2034, 4068,
    ];
    v[i as usize]
}

/// The 32-step triangle output sequence (15 down to 0, then back up).
pub open spec fn spec_triangle_sequence(i: int) -> u8 {
    let t = seq![
        15u8, 14, 13, 12, 11, 10, 9, 8, 7, 6, 5, 4, 3, 2, 1, 0, 0, 1, 2, 3, 4, 5, 6, 7, 8, 9,
        10, 11, 12, 13, 14, 15,
    ];
    t[i % 32]
}

/// The 32-step triangle output sequence.
pub fn triangle_sequence(i: usize) -> (r: u8)
    requires
        i < 32,
    ensures
        r == spec_triangle_sequence(i as int),
        r <= 15,
{
    let v: Vec<u8> = vec![
        15u8, 14, 13, 12, 11, 10, 9, 8, 7, 6, 5, 4, 3, 2, 1, 0, 0, 1, 2, 3, 4, 5, 6, 7, 8, 9,
        10, 11, 12, 13, 14, 15,
    ];
    v[i]
}

/// A timer/sequencer: an 11-bit period (`decay`) reloads the divider
/// (`reload`); each clock at zero advances the step counter.
pub struct SEQUENCER {
    pub reload: u16,
    pub decay: u16,
    pub steps: usize,
    pub current_step: usize,
}

impl SEQUENCER {
    pub open spec fn wf(&self) -> bool {
        &&& self.steps > 0
        &&& self.current_step < self.steps
        &&& self.decay < 0x800
        &&& self.reload < 0x800
    }

    pub fn new(output_length: usize) -> (s: SEQUENCER)
        requires
            output_length > 0,
        ensures
            s == (SEQUENCER { reload: 0, decay: 0, steps: output_length, current_step: 0 }),
            s.wf(),
    {
        SEQUENCER { reload: 0, decay: 0, current_step: 0, steps: output_length }
    }

    /// One divider clock: at zero the divider reloads from the period and,
    /// if enabled, the step advances modulo the step count; otherwise the
    /// divider counts down.
    pub fn clock(&mut self, step_enabled: bool) -> (wrapped: bool)
        requires
            old(self).wf(),
        ensures
            final(self).wf(),
            final(self).steps == old(self).steps,
            final(self).decay == old(self).decay,
            old(self).reload == 0 ==> wrapped && final(self).reload == old(self).decay
                && final(self).current_step == (if step_enabled {
                    (old(self).current_step + 1) as int % old(self).steps as int
                } else {
                    old(self).current_step as int
                }),
            old(self).reload != 0 ==> !wrapped && final(self).reload == old(self).reload - 1
                && final(self).current_step == old(self).current_step,
    {
        if self.reload == 0 {
            self.reload = self.decay;
            if step_enabled {
                self.current_step = (self.current_step + 1) % self.steps;
            }
            true
        } else {
            self.reload = self.reload - 1;
            false
        }
    }
}

/// The sweep unit: periodically bends a pulse channel's period up or down.
pub struct SWEEPER {
    pub enabled: bool,
    pub reload: bool,
    pub shift: u8,
    pub negate: bool,
    pub negation_mode: bool,
    pub period: u8,
    pub counter: u8,
}

/// The swept period: the current period plus or minus its shifted self;
/// in negate mode pulse 1 subtracts one more (the negate-mode asymmetry).
pub open spec fn spec_sweep_target(decay: u16, shift: u8, negate: bool, negation_mode: bool) -> u16 {
    if !negate {
        decay.wrapping_add(decay >> shift as u16)
    } else {
        (decay.wrapping_sub(decay >> shift as u16)).wrapping_sub(
            if negation_mode {
                1
            } else {
                0
            },
        )
    }
}

impl SWEEPER {
    pub open spec fn wf(&self) -> bool {
        self.shift < 16
    }

    pub fn new(negation_mode: bool) -> (s: SWEEPER)
        ensures
            s == (SWEEPER {
                enabled: false,
                reload: false,
                shift: 0,
                negate: false,
                period: 0,
                counter: 0,
                negation_mode,
            }),
            s.wf(),
    {
        SWEEPER {
            enabled: false,
            reload: false,
            shift: 0,
            negate: false,
            period: 0,
            counter: 0,
            negation_mode,
        }
    }

    /// One half-frame clock: an expired, enabled sweep with a non-zero
    /// shift bends the sequencer's period (when the target stays in
    /// range); the sweep divider reloads or counts down.
    pub fn clock(&mut self, sequencer: &mut SEQUENCER)
        requires
            old(self).wf(),
            old(sequencer).wf(),
        ensures
            final(self).wf(),
            final(sequencer).wf(),
            ({
                let target = spec_sweep_target(
                    old(sequencer).decay,
                    old(self).shift,
                    old(self).negate,
                    old(self).negation_mode,
                );
                let sweeps = old(self).counter == 0 && old(self).enabled && old(self).shift > 0
                    && old(sequencer).decay >= 8 && target < 0x800;
                *final(sequencer) == (SEQUENCER {
                    decay: if sweeps {
                        target
                    } else {
                        old(sequencer).decay
                    },
                    ..*old(sequencer)
                })
            }),
            *final(self) == (SWEEPER {
                counter: if old(self).counter == 0 || old(self).reload {
                    old(self).period
                } else {
                    (old(self).counter - 1) as u8
                },
                reload: false && (old(self).counter == 0 || old(self).reload) || (!(old(
                    self,
                ).counter == 0 || old(self).reload) && old(self).reload),
                ..*old(self)
            }),
    {
        if self.counter == 0 && self.enabled && self.shift > 0 && sequencer.decay >= 8 {
            let period: u16 = if self.negate == false {
                sequencer.decay.wrapping_add(sequencer.decay >> self.shift as u16)
            } else {
                (sequencer.decay.wrapping_sub(sequencer.decay >> self.shift as u16)).wrapping_sub(
                    if self.negation_mode {
                        1
                    } else {
                        0
                    },
                )
            };
            if period < 0x800 {
                sequencer.decay = period;
            }
        }
        if self.counter == 0 || self.reload {
            self.counter = self.period;
            self.reload = false;
        } else {
            self.counter = self.counter - 1;
        }
    }
}

/// A length counter: gates a channel to silence when it reaches zero.
/// Register writes are staged in `pending` fields and taken up on the
/// next CPU-cycle update.
pub struct LENGTH_COUNTER {
    pub counter: u8,
    pub enabled: bool,
    pub stopped: bool,
    pub pending_stop: Option<bool>,
    pub pending_register: Option<u8>,
}

impl LENGTH_COUNTER {
    pub fn new() -> (l: LENGTH_COUNTER)
        ensures
            l == (LENGTH_COUNTER {
                counter: 0,
                enabled: false,
                stopped: false,
                pending_stop: None,
                pending_register: None,
            }),
    {
        LENGTH_COUNTER {
            counter: 0,
            enabled: false,
            stopped: false,
            pending_stop: None,
            pending_register: None,
        }
    }

    /// Enable or disable the counter; disabling zeroes it.
    pub fn enable(&mut self, v: bool)
        ensures
            *final(self) == (LENGTH_COUNTER {
                enabled: v,
                counter: if v {
                    old(self).counter
                } else {
                    0
                },
                ..*old(self)
            }),
    {
        self.enabled = v;
        if !v {
            self.counter = 0;
        }
    }

    /// Take up pending halt and length-register writes: a pending length
    /// write loads the counter from the length table while enabled.
    pub fn update(&mut self)
        ensures
            *final(self) == (LENGTH_COUNTER {
                stopped: match old(self).pending_stop {
                    Some(v) => v,
                    None => old(self).stopped,
                },
                pending_stop: None,
                counter: match old(self).pending_register {
                    Some(v) => if old(self).enabled {
                        spec_length_table((v >> 3) as int)
                    } else {
                        old(self).counter
                    },
                    None => old(self).counter,
                },
                pending_register: None,
                ..*old(self)
            }),
    {
        proof {
            crate::bit_facts::lemma_u8_mask_bounds();
        }
        match self.pending_stop {
            Some(v) => {
                self.stopped = v;
                self.pending_stop = None;
            },
            None => {},
        }
        match self.pending_register {
            Some(value) => {
                if self.enabled {
                    let idx = value >> 3;
                    assert(value >> 3 < 32) by (bit_vector);
                    self.counter = length_table(idx);
                }
                self.pending_register = None;
            },
            None => {},
        }
    }

    /// One half-frame clock: decrement while enabled, not halted and
    /// non-zero. A length write pending on a zero counter suppresses the
    /// clock; pending on a non-zero counter it is discarded.
    pub fn clock(&mut self)
        ensures
            old(self).pending_register is Some && old(self).counter == 0 ==> *final(self) == *old(
                self,
            ),
            !(old(self).pending_register is Some && old(self).counter == 0) ==> *final(self)
                == (LENGTH_COUNTER {
                pending_register: None,
                counter: if old(self).enabled && !old(self).stopped && old(self).counter > 0 {
                    (old(self).counter - 1) as u8
                } else {
                    old(self).counter
                },
                ..*old(self)
            }),
    {
        match self.pending_register {
            Some(_) => {
                if self.counter == 0 {
                    return;
                } else {
                    self.pending_register = None;
                }
            },
            None => {},
        }
        if self.enabled && !self.stopped && self.counter > 0 {
            self.counter = self.counter - 1;
        }
    }
}

/// The envelope: a decaying 15-level volume source with an optional loop,
/// or a constant volume taken straight from the control byte.
pub struct ENVELOPE {
    pub controller: EnvelopeRegister,
    pub counter: u8,
    pub level: u8,
    pub restart: bool,
}

impl ENVELOPE {
    pub open spec fn wf(&self) -> bool {
        self.level < 16
    }

    pub fn new() -> (e: ENVELOPE)
        ensures
            e == (ENVELOPE {
                counter: 0,
                level: 0,
                controller: EnvelopeRegister(0),
                restart: false,
            }),
            e.wf(),
    {
        ENVELOPE { counter: 0, level: 0, controller: EnvelopeRegister(0), restart: false }
    }

    /// One quarter-frame clock: a restart reloads the level and divider;
    /// otherwise the divider counts down, and at zero the level decays
    /// (or reloads when looping).
    pub fn clock(&mut self)
        requires
            old(self).wf(),
        ensures
            final(self).wf(),
            old(self).restart ==> *final(self) == (ENVELOPE {
                restart: false,
                level: 0x0F,
                counter: (old(self).controller.0 & 0x0F) as u8,
                ..*old(self)
            }),
            !old(self).restart && old(self).counter > 0 ==> *final(self) == (ENVELOPE {
                counter: (old(self).counter - 1) as u8,
                ..*old(self)
            }),
            !old(self).restart && old(self).counter == 0 && old(self).level > 0 ==> *final(self)
                == (ENVELOPE {
                level: (old(self).level - 1) as u8,
                counter: (old(self).controller.0 & 0x0F) as u8,
                ..*old(self)
            }),
            !old(self).restart && old(self).counter == 0 && old(self).level == 0 && (old(
                self,
            ).controller.0 & 0x20 != 0) ==> *final(self) == (ENVELOPE {
                level: 0x0F,
                counter: (old(self).controller.0 & 0x0F) as u8,
                ..*old(self)
            }),
            !old(self).restart && old(self).counter == 0 && old(self).level == 0 && (old(
                self,
            ).controller.0 & 0x20 == 0) ==> *final(self) == *old(self),
    {
        proof {
            crate::bit_facts::lemma_u8_mask_bounds();
        }
        if self.restart {
            self.restart = false;
            self.level = 0x0F;
            self.counter = self.controller.decay();
        } else {
            if self.counter > 0 {
                self.counter = self.counter - 1;
            } else {
                if self.level > 0 {
                    let level = self.level - 1;
                    self.level = level & 0x0F;
                    self.counter = self.controller.decay();
                } else if self.controller.loop_flag() {
                    self.level = 0x0F;
                    self.counter = self.controller.decay();
                }
            }
        }
    }

    /// The output volume: the constant volume when bit 4 of the control
    /// byte is set, else the decaying level.
    pub fn volume(&self) -> (v: u8)
        requires
            self.wf(),
        ensures
            v == spec_volume(self),
            v < 16,
    {
        proof {
            crate::bit_facts::lemma_u8_mask_bounds();
        }
        if self.controller.reload() {
            return self.controller.constant_volume();
        } else {
            return self.level;
        }
    }
}

/// The envelope's output volume.
pub open spec fn spec_volume(e: &ENVELOPE) -> u8 {
    if e.controller.0 & 0x10 != 0 {
        (e.controller.0 & 0x0F) as u8
    } else {
        e.level
    }
}

/// A pulse channel: sequencer, sweep, envelope, and length counter.
pub struct PULSE {
    pub sweeper: SWEEPER,
    pub envelope: ENVELOPE,
    pub sequencer: SEQUENCER,
    pub length_counter: LENGTH_COUNTER,
    pub duty_cycle: usize,
}

/// The pulse channel is audible: its length counter is live, its period
/// is at least 8, and the sweep target is in range.
pub open spec fn spec_pulse_audible(p: &PULSE) -> bool {
    &&& p.length_counter.enabled
    &&& p.length_counter.counter > 0
    &&& p.sequencer.decay >= 8
    &&& spec_sweep_target(p.sequencer.decay, p.sweeper.shift, p.sweeper.negate, p.sweeper.negation_mode)
        < 0x800
}

impl PULSE {
    pub open spec fn wf(&self) -> bool {
        &&& self.sweeper.wf()
        &&& self.envelope.wf()
        &&& self.sequencer.wf()
        &&& self.sequencer.steps == 8
        &&& self.duty_cycle < 4
    }

    pub fn new(negation: bool) -> (p: PULSE)
        ensures
            p.wf(),
            p == (PULSE {
                sweeper: SWEEPER {
                    enabled: false,
                    reload: false,
                    shift: 0,
                    negate: false,
                    period: 0,
                    counter: 0,
                    negation_mode: negation,
                },
                envelope: ENVELOPE {
                    counter: 0,
                    level: 0,
                    controller: EnvelopeRegister(0),
                    restart: false,
                },
                sequencer: SEQUENCER { reload: 0, decay: 0, steps: 8, current_step: 0 },
                length_counter: LENGTH_COUNTER {
                    counter: 0,
                    enabled: false,
                    stopped: false,
                    pending_stop: None,
                    pending_register: None,
                },
                duty_cycle: 0,
            }),
    {
        PULSE {
            sweeper: SWEEPER::new(negation),
            envelope: ENVELOPE::new(),
            sequencer: SEQUENCER::new(8),
            length_counter: LENGTH_COUNTER::new(),
            duty_cycle: 0,
        }
    }

    /// The channel's current output level: the duty waveform bit at the
    /// sequencer step, scaled by the envelope volume, when audible.
    pub fn sample(&self) -> (s: u8)
        requires
            self.wf(),
        ensures
            s == spec_pulse_sample(self),
            s <= 15,
    {
        let period: u16 = if self.sweeper.negate == false {
            self.sequencer.decay.wrapping_add(self.sequencer.decay >> self.sweeper.shift as u16)
        } else {
            (self.sequencer.decay.wrapping_sub(
                self.sequencer.decay >> self.sweeper.shift as u16,
            )).wrapping_sub(
                if self.sweeper.negation_mode {
                    1
                } else {
                    0
                },
            )
        };

        if (self.length_counter.enabled && self.length_counter.counter > 0)
            && self.sequencer.decay >= 8 && period < 0x800 {
            return waveform(self.duty_cycle, self.sequencer.current_step) * self.envelope.volume();
        } else {
            return 0;
        }
    }
}

/// The pulse channel's output level.
pub open spec fn spec_pulse_sample(p: &PULSE) -> u8 {
    if spec_pulse_audible(p) {
        (spec_waveform(p.duty_cycle as int, p.sequencer.current_step as int) * spec_volume(
            &p.envelope,
        )) as u8
    } else {
        0
    }
}

/// The triangle channel: a 32-step sequencer gated by both the linear and
/// length counters.
pub struct TRIANGLE {
    pub length_counter: LENGTH_COUNTER,
    pub sequencer: SEQUENCER,
    pub linear_counter: u8,
    pub linear_counter_start: bool,
    pub linear_counter_period: u8,
    pub control_flag: bool,
}

/// The triangle channel advances: both its length and linear counters are
/// live.
pub open spec fn spec_triangle_active(t: &TRIANGLE) -> bool {
    t.length_counter.enabled && t.length_counter.counter > 0 && t.linear_counter > 0
}

impl TRIANGLE {
    pub open spec fn wf(&self) -> bool {
        &&& self.sequencer.wf()
        &&& self.sequencer.steps == 32
    }

    pub fn new() -> (t: TRIANGLE)
        ensures
            t.wf(),
            t == (TRIANGLE {
                length_counter: LENGTH_COUNTER {
                    counter: 0,
                    enabled: false,
                    stopped: false,
                    pending_stop: None,
                    pending_register: None,
                },
                sequencer: SEQUENCER { reload: 0, decay: 0, steps: 32, current_step: 0 },
                linear_counter: 0,
                control_flag: false,
                linear_counter_period: 0,
                linear_counter_start: false,
            }),
    {
        TRIANGLE {
            length_counter: LENGTH_COUNTER::new(),
            sequencer: SEQUENCER::new(32),
            linear_counter: 0,
            control_flag: false,
            linear_counter_period: 0,
            linear_counter_start: false,
        }
    }

    /// The channel's output: the current sequence value while active, or
    /// silence when the period is under 2 (which would be ultrasonic).
    pub fn sample(&self) -> (s: u8)
        requires
            self.wf(),
        ensures
            s == spec_triangle_sample(self),
            s <= 15,
    {
        let active = (self.length_counter.enabled && self.length_counter.counter > 0)
            && self.linear_counter > 0;
        if active && self.sequencer.decay >= 2 {
            return triangle_sequence(self.sequencer.current_step);
        } else {
            return 0;
        }
    }

    /// One CPU-cycle clock of the 32-step sequencer, advancing only while
    /// both counters are live.
    pub fn clock_sequencer(&mut self)
        requires
            old(self).wf(),
        ensures
            final(self).wf(),
            *final(self) == (TRIANGLE { sequencer: final(self).sequencer, ..*old(self) }),
            final(self).sequencer.decay == old(self).sequencer.decay,
            final(self).sequencer.steps == 32,
    {
        let active = (self.length_counter.enabled && self.length_counter.counter > 0)
            && self.linear_counter > 0;
        self.sequencer.clock(active);
    }

    /// One quarter-frame clock of the linear counter: reload while the
    /// start flag is set, else count down; the start flag clears unless
    /// the control flag holds it.
    pub fn clock_quarter(&mut self)
        requires
            old(self).wf(),
        ensures
            final(self).wf(),
            *final(self) == (TRIANGLE {
                linear_counter: if old(self).linear_counter_start {
                    old(self).linear_counter_period
                } else if old(self).linear_counter > 0 {
                    (old(self).linear_counter - 1) as u8
                } else {
                    0
                },
                linear_counter_start: if !old(self).control_flag {
                    false
                } else {
                    old(self).linear_counter_start
                },
                ..*old(self)
            }),
    {
        if self.linear_counter_start {
            self.linear_counter = self.linear_counter_period;
        } else if self.linear_counter > 0 {
            self.linear_counter = self.linear_counter - 1;
        }

        if !self.control_flag {
            self.linear_counter_start = false;
        }
    }
}

/// The triangle channel's output level.
pub open spec fn spec_triangle_sample(t: &TRIANGLE) -> u8 {
    if spec_triangle_active(t) && t.sequencer.decay >= 2 {
        spec_triangle_sequence(t.sequencer.current_step as int)
    } else {
        0
    }
}

/// The noise channel: a 15-bit linear feedback shift register whose tap
/// is selected by the mode flag.
pub struct NOISE {
    pub envelope: ENVELOPE,
    pub length_counter: LENGTH_COUNTER,
    pub mode: bool,
    pub period: u16,
    pub counter: u16,
    pub shift: u16,
}

/// The LFSR's successor: shift right, feeding back the XOR of bit 0 and
/// bit 1 (mode off) or bit 6 (mode on) into bit 14.
pub open spec fn spec_lfsr_next(s: u16, mode: bool) -> u16 {
    let tap = if mode {
        (s >> 6) & 1
    } else {
        (s >> 1) & 1
    };
    ((s >> 1) | (((tap ^ (s & 1)) << 14) as u16)) as u16
}

/// A non-zero 15-bit LFSR state steps to a non-zero 15-bit state, so the
/// register can never become stuck at zero.
pub proof fn lemma_lfsr_nonzero()
    by (bit_vector)
    ensures
        forall|s: u16, mode: bool| 0 < s < 0x8000 ==> 0 < #[trigger] spec_lfsr_next(s, mode)
            < 0x8000,
{
}

impl NOISE {
    pub open spec fn wf(&self) -> bool {
        &&& self.envelope.wf()
        &&& 0 < self.shift < 0x8000
        &&& self.period < 0x1000
    }

    pub fn new() -> (n: NOISE)
        ensures
            n.wf(),
            n == (NOISE {
                envelope: ENVELOPE {
                    counter: 0,
                    level: 0,
                    controller: EnvelopeRegister(0),
                    restart: false,
                },
                length_counter: LENGTH_COUNTER {
                    counter: 0,
                    enabled: false,
                    stopped: false,
                    pending_stop: None,
                    pending_register: None,
                },
                mode: false,
                period: 0,
                counter: 0,
                shift: 1,
            }),
    {
        NOISE {
            envelope: ENVELOPE::new(),
            length_counter: LENGTH_COUNTER::new(),
            mode: false,
            period: 0,
            counter: 0,
            shift: 1,
        }
    }

    /// The channel's output: the envelope volume while the length counter
    /// is live and bit 0 of the LFSR is clear.
    pub fn sample(&self) -> (s: u8)
        requires
            self.wf(),
        ensures
            s == spec_noise_sample(self),
            s <= 15,
    {
        if (self.length_counter.enabled && self.length_counter.counter > 0) && self.shift & 1
            == 0 {
            return self.envelope.volume();
        } else {
            return 0;
        }
    }

    /// One channel clock: the timer counts down; at zero it reloads from
    /// the period and the LFSR steps. The LFSR stays non-zero and 15-bit.
    pub fn clock(&mut self)
        requires
            old(self).wf(),
        ensures
            final(self).wf(),
            old(self).counter > 0 ==> *final(self) == (NOISE {
                counter: (old(self).counter - 1) as u16,
                ..*old(self)
            }),
            old(self).counter == 0 ==> *final(self) == (NOISE {
                counter: old(self).period,
                shift: spec_lfsr_next(old(self).shift, old(self).mode),
                ..*old(self)
            }),
            0 < final(self).shift < 0x8000,
    {
        if self.counter > 0 {
            self.counter = self.counter - 1;
        } else {
            self.counter = self.period;
            let bit1: u16 = (self.shift >> (if self.mode {
                6u16
            } else {
                1u16
            })) & 1;
            let bit2: u16 = self.shift & 1;
            proof {
                lemma_lfsr_nonzero();
            }
            self.shift = (self.shift >> 1) | ((bit1 ^ bit2) << 14);
        }
    }

    /// One quarter-frame clock: the envelope.
    pub fn clock_quarter(&mut self)
        requires
            old(self).wf(),
        ensures
            final(self).wf(),
            *final(self) == (NOISE { envelope: final(self).envelope, ..*old(self) }),
            spec_envelope_clock(&old(self).envelope, &final(self).envelope),
    {
        self.envelope.clock();
    }

    /// One half-frame clock: the length counter.
    pub fn clock_half(&mut self)
        requires
            old(self).wf(),
        ensures
            final(self).wf(),
            *final(self) == (NOISE { length_counter: final(self).length_counter, ..*old(self) }),
            spec_length_clock(&old(self).length_counter, &final(self).length_counter),
    {
        self.length_counter.clock();
    }
}

/// The noise channel's output level.
pub open spec fn spec_noise_sample(n: &NOISE) -> u8 {
    if n.length_counter.enabled && n.length_counter.counter > 0 && n.shift & 1 == 0 {
        spec_volume(&n.envelope)
    } else {
        0
    }
}

/// The audio core: four channels, the frame counter, and the sample queue.
pub struct APU {
    pub samples: Vec<i16>,
    pub pulse_0: PULSE,
    pub pulse_1: PULSE,
    pub triangle: TRIANGLE,
    pub noise: NOISE,
    pub global_time: u32,

    pub counter: i64,
    pub cycles: u64,
    pub irq: bool,
    pub public_irq: bool,
    pub private_irq: bool,
    pub counter_mode: CounterMode,
}

/// The frame counter's next value: it advances by one each cycle and
/// restarts after the last step of its mode (29,830 cycles in 4-step
/// mode, 37,282 in 5-step mode).
pub open spec fn spec_frame_counter_next(mode: CounterMode, c: int) -> int {
    match mode {
        CounterMode::Zero => if c == 29830 {
            1int
        } else {
            c + 1
        },
        CounterMode::One => if c == 37281 {
            1int
        } else {
            c + 1
        },
    }
}

/// The mixed 16-bit output for the four channel levels. The hardware
/// formulas `95.88 / (8128/(p0+p1) + 100)` and
/// `159.79 / (1/(t/8227 + n/12241) + 100)` are evaluated exactly over the
/// integers after scaling by 65535: the constants are
/// `9588 * 65535 = 628349580`, `100 * 8128 = 812800`,
/// `15979 * 65535 = 1047183765` and `100 * 8227 * 12241 = 10070670700`,
/// and the sum saturates at 32767.
pub open spec fn spec_mix(p0: int, p1: int, t: int, n: int) -> int {
    let s = p0 + p1;
    let k = 12241 * t + 8227 * n;
    let pulse_scaled: int = if s == 0 {
        0
    } else {
        (628349580 * s) / (812800 + 10000 * s)
    };
    let tnd_scaled: int = if k == 0 {
        0
    } else {
        (1047183765 * k) / (10070670700 + 10000 * k)
    };
    let sum = pulse_scaled + tnd_scaled;
    if sum > 32767 {
        32767int
    } else {
        sum
    }
}

impl APU {
    pub open spec fn wf(&self) -> bool {
        &&& self.pulse_0.wf()
        &&& self.pulse_1.wf()
        &&& self.triangle.wf()
        &&& self.noise.wf()
        &&& -1 <= self.counter <= 37281
        &&& (self.counter_mode is Zero ==> self.counter <= 29830)
    }

    pub fn new() -> (a: APU)
        ensures
            a.wf(),
            a.samples@.len() == 0,
            a.global_time == 0,
            a.counter == 0,
            a.cycles == 0,
            a.irq == true,
            a.public_irq == false,
            a.private_irq == false,
            a.counter_mode == CounterMode::Zero,
            a.noise.shift == 1,
    {
        APU {
            pulse_0: PULSE::new(false),
            pulse_1: PULSE::new(true),
            triangle: TRIANGLE::new(),
            noise: NOISE::new(),
            global_time: 0,
            samples: Vec::new(),
            counter: 0,
            cycles: 0,
            irq: true,
            public_irq: false,
            private_irq: false,
            counter_mode: CounterMode::Zero,
        }
    }

    /// A register write at `$4000-$4017`: channel control, period and
    /// length registers, the length-counter enables at `$4015` (pulse,
    /// pulse, triangle, noise on bits 0..3), and the frame counter mode
    /// and IRQ inhibit at `$4017`.
    pub fn cpu_write(&mut self, address: u16, data: u8)
        requires
            old(self).wf(),
        ensures
            final(self).wf(),
            spec_apu_write_rel(old(self), final(self), address, data),
    {
        if 0x4000 <= address && address <= 0x4003 {
            self.write_pulse_0(address, data);
        } else if 0x4004 <= address && address <= 0x4007 {
            self.write_pulse_1(address, data);
        } else if 0x4008 <= address && address <= 0x400B {
            self.write_triangle(address, data);
        } else if 0x400C <= address && address <= 0x400F {
            self.write_noise(address, data);
        } else if address == 0x4015 || address == 0x4017 {
            self.write_control(address, data);
        }
    }

    /// Pulse channel 0 register writes (`$4000-$4003`).
    #[verifier::rlimit(100)]
    fn write_pulse_0(&mut self, address: u16, data: u8)
        requires
            old(self).wf(),
            0x4000 <= address <= 0x4003,
        ensures
            final(self).wf(),
            spec_apu_write_rel(old(self), final(self), address, data),
    {
        proof {
            crate::bit_facts::lemma_u8_mask_bounds();
            crate::bit_facts::lemma_apu_write_bounds();
        }
        if address == 0x4000 {
            self.pulse_0.duty_cycle = (data >> 6) as usize;
            self.pulse_0.envelope.controller = EnvelopeRegister(data);
            self.pulse_0.length_counter.pending_stop = Some(data & 0x20 != 0);
        } else if address == 0x4001 {
            self.pulse_0.sweeper.enabled = data & 0x80 != 0;
            self.pulse_0.sweeper.period = (data & 0x70) >> 4;
            self.pulse_0.sweeper.negate = data & 0x08 != 0;
            self.pulse_0.sweeper.shift = data & 0x07;
            self.pulse_0.sweeper.reload = true;
        } else if address == 0x4002 {
            self.pulse_0.sequencer.decay = (self.pulse_0.sequencer.decay & 0xFF00)
                | data as u16;
        } else {
            self.pulse_0.length_counter.pending_register = Some(data);
            self.pulse_0.sequencer.decay = (self.pulse_0.sequencer.decay & 0x00FF) | (((data
                & 0x07) as u16) << 8);
            self.pulse_0.envelope.restart = true;
            self.pulse_0.sequencer.current_step = 0;
        }
    }

    /// Pulse channel 1 register writes (`$4004-$4007`).
    #[verifier::rlimit(100)]
    fn write_pulse_1(&mut self, address: u16, data: u8)
        requires
            old(self).wf(),
            0x4004 <= address <= 0x4007,
        ensures
            final(self).wf(),
            spec_apu_write_rel(old(self), final(self), address, data),
    {
        proof {
            crate::bit_facts::lemma_u8_mask_bounds();
            crate::bit_facts::lemma_apu_write_bounds();
        }
        if address == 0x4004 {
            self.pulse_1.duty_cycle = (data >> 6) as usize;
            self.pulse_1.envelope.controller = EnvelopeRegister(data);
            self.pulse_1.length_counter.pending_stop = Some(data & 0x20 != 0);
        } else if address == 0x4005 {
            self.pulse_1.sweeper.enabled = data & 0x80 != 0;
            self.pulse_1.sweeper.period = (data & 0x70) >> 4;
            self.pulse_1.sweeper.negate = data & 0x08 != 0;
            self.pulse_1.sweeper.shift = data & 0x07;
            self.pulse_1.sweeper.reload = true;
        } else if address == 0x4006 {
            self.pulse_1.sequencer.decay = (self.pulse_1.sequencer.decay & 0xFF00)
                | data as u16;
        } else {
            self.pulse_1.length_counter.pending_register = Some(data);
            self.pulse_1.sequencer.decay = (self.pulse_1.sequencer.decay & 0x00FF) | (((data
                & 0x07) as u16) << 8);
            self.pulse_1.envelope.restart = true;
            self.pulse_1.sequencer.current_step = 0;
        }
    }

    /// Triangle channel register writes (`$4008-$400B`).
    #[verifier::rlimit(100)]
    fn write_triangle(&mut self, address: u16, data: u8)
        requires
            old(self).wf(),
            0x4008 <= address <= 0x400B,
        ensures
            final(self).wf(),
            spec_apu_write_rel(old(self), final(self), address, data),
    {
        proof {
            crate::bit_facts::lemma_u8_mask_bounds();
            crate::bit_facts::lemma_apu_write_bounds();
        }
        if address == 0x4008 {
            self.triangle.control_flag = data & 0x80 != 0;
            self.triangle.length_counter.pending_stop = Some(data & 0x20 != 0);
            self.triangle.linear_counter_period = data & 0x7F;
        } else if address == 0x400A {
            self.triangle.sequencer.decay = (self.triangle.sequencer.decay & 0xFF00)
                | data as u16;
        } else if address == 0x400B {
            self.triangle.length_counter.pending_register = Some(data);
            self.triangle.sequencer.decay = (self.triangle.sequencer.decay & 0x00FF) | (((data
                & 0x07) as u16) << 8);
            self.triangle.linear_counter_start = true;
        }
    }

    /// Noise channel register writes (`$400C-$400F`).
    #[verifier::rlimit(100)]
    fn write_noise(&mut self, address: u16, data: u8)
        requires
            old(self).wf(),
            0x400C <= address <= 0x400F,
        ensures
            final(self).wf(),
            spec_apu_write_rel(old(self), final(self), address, data),
    {
        proof {
            crate::bit_facts::lemma_u8_mask_bounds();
        }
        if address == 0x400C {
            self.noise.length_counter.pending_stop = Some(data & 0x20 != 0);
            self.noise.envelope.controller = EnvelopeRegister(data);
        } else if address == 0x400E {
            self.noise.mode = data & 0x80 != 0;
            self.noise.period = noise_timer(data & 0x0F);
        } else if address == 0x400F {
            self.noise.length_counter.pending_register = Some(data);
            self.noise.envelope.restart = true;
        }
    }

    /// The status (`$4015`) and frame counter (`$4017`) writes.
    #[verifier::rlimit(100)]
    fn write_control(&mut self, address: u16, data: u8)
        requires
            old(self).wf(),
            address == 0x4015 || address == 0x4017,
        ensures
            final(self).wf(),
            spec_apu_write_rel(old(self), final(self), address, data),
    {
        proof {
            reveal(spec_quarter_channels);
            reveal(spec_half_channels);
        }
        if address == 0x4015 {
            self.pulse_0.length_counter.enable(data & 0x01 != 0);
            self.pulse_1.length_counter.enable(data & 0x02 != 0);
            self.triangle.length_counter.enable(data & 0x04 != 0);
            self.noise.length_counter.enable(data & 0x08 != 0);
        } else {
            self.irq = data & 0x40 == 0;
            if !self.irq {
                self.public_irq = false;
                self.private_irq = false;
            }

            self.counter_mode = if data & 0x80 == 0 {
                CounterMode::Zero
            } else {
                CounterMode::One
            };

            self.counter = if self.cycles & 1 == 0 {
                0
            } else {
                -1
            };

            let frame = match self.counter_mode {
                CounterMode::Zero => Frame::Neither,
                CounterMode::One => Frame::Half,
            };
            self.match_frame(frame);
        }
    }

    /// One step of the 4-step frame counter, from the pre-increment cycle
    /// number: quarter and half clocks at 7457, 14913 and 22371, the IRQ
    /// raise at 29828/29829, and the restart at 29830.
    fn clock_zero(&mut self) -> (frame: Frame)
        ensures
            old(self).counter == 29830 ==> *final(self) == (APU {
                counter: 0,
                private_irq: if old(self).irq {
                    true
                } else {
                    old(self).private_irq
                },
                public_irq: if old(self).irq {
                    true
                } else {
                    false
                },
                ..*old(self)
            }) && frame is Neither,
            old(self).counter == 29829 ==> *final(self) == (APU {
                private_irq: if old(self).irq {
                    true
                } else {
                    old(self).private_irq
                },
                public_irq: if old(self).irq {
                    true
                } else {
                    false
                },
                ..*old(self)
            }) && frame is Half,
            old(self).counter == 29828 ==> *final(self) == (APU {
                private_irq: if old(self).irq {
                    true
                } else {
                    old(self).private_irq
                },
                ..*old(self)
            }) && frame is Neither,
            old(self).counter == 7457 || old(self).counter == 22371 ==> *final(self) == *old(self)
                && frame is Quarter,
            old(self).counter == 14913 ==> *final(self) == *old(self) && frame is Half,
            !(old(self).counter == 7457 || old(self).counter == 14913 || old(self).counter
                == 22371 || old(self).counter == 29828 || old(self).counter == 29829 || old(
                self,
            ).counter == 29830) ==> *final(self) == *old(self) && frame is Neither,
    {
        if self.counter == 7457 {
            Frame::Quarter
        } else if self.counter == 14913 {
            Frame::Half
        } else if self.counter == 22371 {
            Frame::Quarter
        } else if self.counter == 29828 {
            if self.irq {
                self.private_irq = true;
            }
            Frame::Neither
        } else if self.counter == 29829 {
            if self.irq {
                self.private_irq = true;
                self.public_irq = true;
            } else {
                self.public_irq = false;
            }
            Frame::Half
        } else if self.counter == 29830 {
            if self.irq {
                self.private_irq = true;
                self.public_irq = true;
            } else {
                self.public_irq = false;
            }
            self.counter = 0;
            Frame::Neither
        } else {
            Frame::Neither
        }
    }

    /// One step of the 5-step frame counter: quarter and half clocks at
    /// 7457, 14913 and 22371, and the restart (with no IRQ) at 37281.
    fn clock_one(&mut self) -> (frame: Frame)
        ensures
            old(self).counter == 37281 ==> *final(self) == (APU { counter: 0, ..*old(self) })
                && frame is Half,
            old(self).counter == 7457 || old(self).counter == 22371 ==> *final(self) == *old(self)
                && frame is Quarter,
            old(self).counter == 14913 ==> *final(self) == *old(self) && frame is Half,
            !(old(self).counter == 7457 || old(self).counter == 14913 || old(self).counter
                == 22371 || old(self).counter == 37281) ==> *final(self) == *old(self)
                && frame is Neither,
    {
        if self.counter == 7457 {
            Frame::Quarter
        } else if self.counter == 14913 {
            Frame::Half
        } else if self.counter == 22371 {
            Frame::Quarter
        } else if self.counter == 37281 {
            self.counter = 0;
            Frame::Half
        } else {
            Frame::Neither
        }
    }

}

/// How one quarter-frame clock steps an envelope: a restart reloads the
/// level and divider; otherwise the divider counts down, and at zero the
/// level decays (or reloads when looping).
pub open spec fn spec_envelope_clock(pre: &ENVELOPE, post: &ENVELOPE) -> bool {
    &&& (pre.restart ==> *post == (ENVELOPE {
        restart: false,
        level: 0x0F,
        counter: (pre.controller.0 & 0x0F) as u8,
        ..*pre
    }))
    &&& (!pre.restart && pre.counter > 0 ==> *post == (ENVELOPE {
        counter: (pre.counter - 1) as u8,
        ..*pre
    }))
    &&& (!pre.restart && pre.counter == 0 && pre.level > 0 ==> *post == (ENVELOPE {
        level: (pre.level - 1) as u8,
        counter: (pre.controller.0 & 0x0F) as u8,
        ..*pre
    }))
    &&& (!pre.restart && pre.counter == 0 && pre.level == 0 && (pre.controller.0 & 0x20 != 0)
        ==> *post == (ENVELOPE { level: 0x0F, counter: (pre.controller.0 & 0x0F) as u8, ..*pre }))
    &&& (!pre.restart && pre.counter == 0 && pre.level == 0 && (pre.controller.0 & 0x20 == 0)
        ==> *post == *pre)
}

/// How one half-frame clock steps a length counter: decrement while
/// enabled, not halted and non-zero; a length write pending on a zero
/// counter suppresses the clock.
pub open spec fn spec_length_clock(pre: &LENGTH_COUNTER, post: &LENGTH_COUNTER) -> bool {
    &&& (pre.pending_register is Some && pre.counter == 0 ==> *post == *pre)
    &&& (!(pre.pending_register is Some && pre.counter == 0) ==> *post == (LENGTH_COUNTER {
        pending_register: None,
        counter: if pre.enabled && !pre.stopped && pre.counter > 0 {
            (pre.counter - 1) as u8
        } else {
            pre.counter
        },
        ..*pre
    }))
}

/// How one half-frame clock steps a sweep unit and its sequencer: an
/// expired, enabled sweep with a non-zero shift bends the period when the
/// target stays in range; the sweep divider reloads or counts down.
pub open spec fn spec_sweep_clock(
    pre_s: &SWEEPER,
    post_s: &SWEEPER,
    pre_q: &SEQUENCER,
    post_q: &SEQUENCER,
) -> bool {
    &&& ({
        let target = spec_sweep_target(pre_q.decay, pre_s.shift, pre_s.negate, pre_s.negation_mode);
        let sweeps = pre_s.counter == 0 && pre_s.enabled && pre_s.shift > 0 && pre_q.decay >= 8
            && target < 0x800;
        *post_q == (SEQUENCER {
            decay: if sweeps {
                target
            } else {
                pre_q.decay
            },
            ..*pre_q
        })
    })
    &&& *post_s == (SWEEPER {
        counter: if pre_s.counter == 0 || pre_s.reload {
            pre_s.period
        } else {
            (pre_s.counter - 1) as u8
        },
        reload: false && (pre_s.counter == 0 || pre_s.reload) || (!(pre_s.counter == 0
            || pre_s.reload) && pre_s.reload),
        ..*pre_s
    })
}

/// How one quarter-frame clock steps the triangle's linear counter.
pub open spec fn spec_triangle_quarter(pre: &TRIANGLE, post: &TRIANGLE) -> bool {
    *post == (TRIANGLE {
        linear_counter: if pre.linear_counter_start {
            pre.linear_counter_period
        } else if pre.linear_counter > 0 {
            (pre.linear_counter - 1) as u8
        } else {
            0
        },
        linear_counter_start: if !pre.control_flag {
            false
        } else {
            pre.linear_counter_start
        },
        ..*pre
    })
}

/// How a quarter-frame event steps the four channels: the pulse and
/// noise envelopes and the triangle's linear counter clock.
#[verifier::opaque]
pub open spec fn spec_quarter_channels(pre: &APU, post: &APU) -> bool {
    &&& spec_envelope_clock(&pre.pulse_0.envelope, &post.pulse_0.envelope)
    &&& post.pulse_0 == (PULSE { envelope: post.pulse_0.envelope, ..pre.pulse_0 })
    &&& spec_envelope_clock(&pre.pulse_1.envelope, &post.pulse_1.envelope)
    &&& post.pulse_1 == (PULSE { envelope: post.pulse_1.envelope, ..pre.pulse_1 })
    &&& spec_triangle_quarter(&pre.triangle, &post.triangle)
    &&& post.noise == pre.noise
}

/// How a half-frame event steps the four channels: every quarter-frame
/// effect, plus the length counters, the pulse sweeps and the noise
/// length counter.
#[verifier::opaque]
pub open spec fn spec_half_channels(pre: &APU, post: &APU) -> bool {
    &&& spec_envelope_clock(&pre.pulse_0.envelope, &post.pulse_0.envelope)
    &&& spec_length_clock(&pre.pulse_0.length_counter, &post.pulse_0.length_counter)
    &&& spec_sweep_clock(
        &pre.pulse_0.sweeper,
        &post.pulse_0.sweeper,
        &pre.pulse_0.sequencer,
        &post.pulse_0.sequencer,
    )
    &&& post.pulse_0 == (PULSE {
        envelope: post.pulse_0.envelope,
        length_counter: post.pulse_0.length_counter,
        sweeper: post.pulse_0.sweeper,
        sequencer: post.pulse_0.sequencer,
        ..pre.pulse_0
    })
    &&& spec_envelope_clock(&pre.pulse_1.envelope, &post.pulse_1.envelope)
    &&& spec_length_clock(&pre.pulse_1.length_counter, &post.pulse_1.length_counter)
    &&& spec_sweep_clock(
        &pre.pulse_1.sweeper,
        &post.pulse_1.sweeper,
        &pre.pulse_1.sequencer,
        &post.pulse_1.sequencer,
    )
    &&& post.pulse_1 == (PULSE {
        envelope: post.pulse_1.envelope,
        length_counter: post.pulse_1.length_counter,
        sweeper: post.pulse_1.sweeper,
        sequencer: post.pulse_1.sequencer,
        ..pre.pulse_1
    })
    &&& spec_triangle_quarter(
        &pre.triangle,
        &(TRIANGLE { length_counter: pre.triangle.length_counter, ..post.triangle }),
    )
    &&& spec_length_clock(&pre.triangle.length_counter, &post.triangle.length_counter)
    &&& spec_envelope_clock(&pre.noise.envelope, &post.noise.envelope)
    &&& spec_length_clock(&pre.noise.length_counter, &post.noise.length_counter)
    &&& post.noise == (NOISE {
        envelope: post.noise.envelope,
        length_counter: post.noise.length_counter,
        ..pre.noise
    })
}

impl APU {
    /// Dispatch a frame-counter result: a quarter clock drives envelopes
    /// and the triangle's linear counter; a half clock additionally
    /// drives length counters and the sweeps.
    fn match_frame(&mut self, result: Frame)
        requires
            old(self).wf(),
        ensures
            final(self).wf(),
            *final(self) == (APU {
                pulse_0: final(self).pulse_0,
                pulse_1: final(self).pulse_1,
                triangle: final(self).triangle,
                noise: final(self).noise,
                ..*old(self)
            }),
            result is Neither ==> *final(self) == *old(self),
            result is Quarter ==> spec_quarter_channels(old(self), final(self)),
            result is Half ==> spec_half_channels(old(self), final(self)),
    {
        proof {
            reveal(spec_quarter_channels);
            reveal(spec_half_channels);
        }
        match result {
            Frame::Quarter => {
                self.pulse_0.envelope.clock();
                self.pulse_1.envelope.clock();
                self.triangle.clock_quarter();
            },
            Frame::Half => {
                self.pulse_0.envelope.clock();
                self.pulse_0.length_counter.clock();
                self.pulse_0.sweeper.clock(&mut self.pulse_0.sequencer);

                self.pulse_1.envelope.clock();
                self.pulse_1.length_counter.clock();
                self.pulse_1.sweeper.clock(&mut self.pulse_1.sequencer);

                self.triangle.clock_quarter();
                self.triangle.length_counter.clock();

                self.noise.clock_quarter();
                self.noise.clock_half();
            },
            Frame::Neither => {},
        }
    }

    /// One APU cycle: the triangle sequencer runs every cycle, the pulse
    /// sequencers and noise timer every other cycle, the frame counter
    /// emits its step, pending length writes are taken up, and every 40th
    /// cycle one mixed sample is pushed into the queue.
    #[verifier::rlimit(100)]
    #[verifier::spinoff_prover]
    pub fn clock(&mut self)
        requires
            old(self).wf(),
        ensures
            final(self).wf(),
            final(self).global_time == old(self).global_time.wrapping_add(1),
            final(self).cycles == old(self).cycles.wrapping_add(1),
            final(self).counter == spec_frame_counter_next(
                old(self).counter_mode,
                old(self).counter as int,
            ),
            final(self).counter_mode == old(self).counter_mode,
            final(self).irq == old(self).irq,
            old(self).global_time % 40 == 0 ==> final(self).samples@.len()
                == old(self).samples@.len() + 1
                && final(self).samples@[final(self).samples@.len() - 1] == spec_mix(
                spec_pulse_sample(&final(self).pulse_0) as int,
                spec_pulse_sample(&final(self).pulse_1) as int,
                spec_triangle_sample(&final(self).triangle) as int,
                spec_noise_sample(&final(self).noise) as int,
            ),
            old(self).global_time % 40 != 0 ==> final(self).samples == old(self).samples,
            old(self).counter_mode is Zero ==> final(self).private_irq == (if old(self).irq && (
            old(self).counter == 29828 || old(self).counter == 29829 || old(self).counter
                == 29830) {
                true
            } else {
                old(self).private_irq
            }),
            old(self).counter_mode is Zero ==> final(self).public_irq == (if old(self).counter
                == 29829 || old(self).counter == 29830 {
                old(self).irq
            } else {
                old(self).public_irq
            }),
            old(self).counter_mode is One ==> final(self).private_irq == old(self).private_irq
                && final(self).public_irq == old(self).public_irq,
    {
        self.triangle.clock_sequencer();
        if self.global_time % 2 == 1 {
            self.pulse_0.sequencer.clock(true);
            self.pulse_1.sequencer.clock(true);
            self.noise.clock();
        }
        let frame = match self.counter_mode {
            CounterMode::Zero => self.clock_zero(),
            CounterMode::One => self.clock_one(),
        };
        self.counter = self.counter + 1;
        self.match_frame(frame);

        self.pulse_0.length_counter.update();
        self.pulse_1.length_counter.update();
        self.triangle.length_counter.update();
        self.noise.length_counter.update();

        if self.global_time % 40 == 0 {
            let sample = self.sample();
            proof {
                assert(sample == spec_mix(
                    spec_pulse_sample(&self.pulse_0) as int,
                    spec_pulse_sample(&self.pulse_1) as int,
                    spec_triangle_sample(&self.triangle) as int,
                    spec_noise_sample(&self.noise) as int,
                ));
            }
            self.samples.push(sample);
        }
        self.global_time = self.global_time.wrapping_add(1);
        self.cycles = self.cycles.wrapping_add(1);
    }

    /// The current mixed output sample.
    pub fn sample(&mut self) -> (out: i16)
        requires
            old(self).wf(),
        ensures
            *final(self) == *old(self),
            out == spec_mix(
                spec_pulse_sample(&old(self).pulse_0) as int,
                spec_pulse_sample(&old(self).pulse_1) as int,
                spec_triangle_sample(&old(self).triangle) as int,
                spec_noise_sample(&old(self).noise) as int,
            ),
    {
        let p0 = self.pulse_0.sample() as u64;
        let p1 = self.pulse_1.sample() as u64;
        let t = self.triangle.sample() as u64;
        let n = self.noise.sample() as u64;

        let s: u64 = p0 + p1;
        let pulse_scaled: u64 = if s == 0 {
            0
        } else {
            628349580 * s / (812800 + 10000 * s)
        };
        let k: u64 = 12241 * t + 8227 * n;
        let tnd_scaled: u64 = if k == 0 {
            0
        } else {
            1047183765 * k / (10070670700 + 10000 * k)
        };
        let sum: u64 = pulse_scaled + tnd_scaled;
        if sum > 32767 {
            return 32767;
        }
        return sum as i16;
    }
}

/// A length counter after an enable write: disabling zeroes the counter.
pub open spec fn spec_enable(l: &LENGTH_COUNTER, v: bool) -> LENGTH_COUNTER {
    LENGTH_COUNTER {
        enabled: v,
        counter: if v {
            l.counter
        } else {
            0
        },
        ..*l
    }
}

/// How an APU register write changes the audio core.
pub open spec fn spec_apu_write_rel(pre: &APU, post: &APU, address: u16, data: u8) -> bool {
    &&& (

            address == 0x4000 ==> *post == (APU {
                pulse_0: PULSE {
                    duty_cycle: (data >> 6) as usize,
                    envelope: ENVELOPE {
                        controller: EnvelopeRegister(data),
                        ..pre.pulse_0.envelope
                    },
                    length_counter: LENGTH_COUNTER {
                        pending_stop: Some(data & 0x20 != 0),
                        ..pre.pulse_0.length_counter
                    },
                    ..pre.pulse_0
                },
                ..*pre
            })
    )
    &&& (
            address == 0x4001 ==> *post == (APU {
                pulse_0: PULSE {
                    sweeper: SWEEPER {
                        enabled: data & 0x80 != 0,
                        period: ((data & 0x70) >> 4) as u8,
                        negate: data & 0x08 != 0,
                        shift: (data & 0x07) as u8,
                        reload: true,
                        ..pre.pulse_0.sweeper
                    },
                    ..pre.pulse_0
                },
                ..*pre
            })
    )
    &&& (
            address == 0x4002 ==> *post == (APU {
                pulse_0: PULSE {
                    sequencer: SEQUENCER {
                        decay: ((pre.pulse_0.sequencer.decay & 0xFF00)
                            | data as u16) as u16,
                        ..pre.pulse_0.sequencer
                    },
                    ..pre.pulse_0
                },
                ..*pre
            })
    )
    &&& (
            address == 0x4003 ==> *post == (APU {
                pulse_0: PULSE {
                    length_counter: LENGTH_COUNTER {
                        pending_register: Some(data),
                        ..pre.pulse_0.length_counter
                    },
                    sequencer: SEQUENCER {
                        decay: ((pre.pulse_0.sequencer.decay & 0x00FF) | (((data
                            & 0x07) as u16) << 8)) as u16,
                        current_step: 0,
                        ..pre.pulse_0.sequencer
                    },
                    envelope: ENVELOPE { restart: true, ..pre.pulse_0.envelope },
                    ..pre.pulse_0
                },
                ..*pre
            })
    )
    &&& (
            address == 0x4004 ==> *post == (APU {
                pulse_1: PULSE {
                    duty_cycle: (data >> 6) as usize,
                    envelope: ENVELOPE {
                        controller: EnvelopeRegister(data),
                        ..pre.pulse_1.envelope
                    },
                    length_counter: LENGTH_COUNTER {
                        pending_stop: Some(data & 0x20 != 0),
                        ..pre.pulse_1.length_counter
                    },
                    ..pre.pulse_1
                },
                ..*pre
            })
    )
    &&& (
            address == 0x4005 ==> *post == (APU {
                pulse_1: PULSE {
                    sweeper: SWEEPER {
                        enabled: data & 0x80 != 0,
                        period: ((data & 0x70) >> 4) as u8,
                        negate: data & 0x08 != 0,
                        shift: (data & 0x07) as u8,
                        reload: true,
                        ..pre.pulse_1.sweeper
                    },
                    ..pre.pulse_1
                },
                ..*pre
            })
    )
    &&& (
            address == 0x4006 ==> *post == (APU {
                pulse_1: PULSE {
                    sequencer: SEQUENCER {
                        decay: ((pre.pulse_1.sequencer.decay & 0xFF00)
                            | data as u16) as u16,
                        ..pre.pulse_1.sequencer
                    },
                    ..pre.pulse_1
                },
                ..*pre
            })
    )
    &&& (
            address == 0x4007 ==> *post == (APU {
                pulse_1: PULSE {
                    length_counter: LENGTH_COUNTER {
                        pending_register: Some(data),
                        ..pre.pulse_1.length_counter
                    },
                    sequencer: SEQUENCER {
                        decay: ((pre.pulse_1.sequencer.decay & 0x00FF) | (((data
                            & 0x07) as u16) << 8)) as u16,
                        current_step: 0,
                        ..pre.pulse_1.sequencer
                    },
                    envelope: ENVELOPE { restart: true, ..pre.pulse_1.envelope },
                    ..pre.pulse_1
                },
                ..*pre
            })
    )
    &&& (
            address == 0x4008 ==> *post == (APU {
                triangle: TRIANGLE {
                    control_flag: data & 0x80 != 0,
                    length_counter: LENGTH_COUNTER {
                        pending_stop: Some(data & 0x20 != 0),
                        ..pre.triangle.length_counter
                    },
                    linear_counter_period: (data & 0x7F) as u8,
                    ..pre.triangle
                },
                ..*pre
            })
    )
    &&& (
            address == 0x400A ==> *post == (APU {
                triangle: TRIANGLE {
                    sequencer: SEQUENCER {
                        decay: ((pre.triangle.sequencer.decay & 0xFF00)
                            | data as u16) as u16,
                        ..pre.triangle.sequencer
                    },
                    ..pre.triangle
                },
                ..*pre
            })
    )
    &&& (
            address == 0x400B ==> *post == (APU {
                triangle: TRIANGLE {
                    length_counter: LENGTH_COUNTER {
                        pending_register: Some(data),
                        ..pre.triangle.length_counter
                    },
                    sequencer: SEQUENCER {
                        decay: ((pre.triangle.sequencer.decay & 0x00FF) | (((data
                            & 0x07) as u16) << 8)) as u16,
                        ..pre.triangle.sequencer
                    },
                    linear_counter_start: true,
                    ..pre.triangle
                },
                ..*pre
            })
    )
    &&& (
            address == 0x400C ==> *post == (APU {
                noise: NOISE {
                    length_counter: LENGTH_COUNTER {
                        pending_stop: Some(data & 0x20 != 0),
                        ..pre.noise.length_counter
                    },
                    envelope: ENVELOPE {
                        controller: EnvelopeRegister(data),
                        ..pre.noise.envelope
                    },
                    ..pre.noise
                },
                ..*pre
            })
    )
    &&& (
            address == 0x400E ==> *post == (APU {
                noise: NOISE {
                    mode: data & 0x80 != 0,
                    period: spec_noise_timer((data & 0x0F) as int),
                    ..pre.noise
                },
                ..*pre
            })
    )
    &&& (
            address == 0x400F ==> *post == (APU {
                noise: NOISE {
                    length_counter: LENGTH_COUNTER {
                        pending_register: Some(data),
                        ..pre.noise.length_counter
                    },
                    envelope: ENVELOPE { restart: true, ..pre.noise.envelope },
                    ..pre.noise
                },
                ..*pre
            })
    )
    &&& (
            address == 0x4015 ==> *post == (APU {
                pulse_0: PULSE {
                    length_counter: spec_enable(&pre.pulse_0.length_counter, data & 0x01
                        != 0),
                    ..pre.pulse_0
                },
                pulse_1: PULSE {
                    length_counter: spec_enable(&pre.pulse_1.length_counter, data & 0x02
                        != 0),
                    ..pre.pulse_1
                },
                triangle: TRIANGLE {
                    length_counter: spec_enable(&pre.triangle.length_counter, data & 0x04
                        != 0),
                    ..pre.triangle
                },
                noise: NOISE {
                    length_counter: spec_enable(&pre.noise.length_counter, data & 0x08
                        != 0),
                    ..pre.noise
                },
                ..*pre
            })
    )
    &&& (
            address == 0x4017 ==> ({
                &&& post.irq == (data & 0x40 == 0)
                &&& post.public_irq == (if data & 0x40 == 0 {
                    pre.public_irq
                } else {
                    false
                })
                &&& post.private_irq == (if data & 0x40 == 0 {
                    pre.private_irq
                } else {
                    false
                })
                &&& post.counter_mode == (if data & 0x80 == 0 {
                    CounterMode::Zero
                } else {
                    CounterMode::One
                })
                &&& post.counter == (if pre.cycles & 1 == 0 {
                    0int
                } else {
                    -1int
                })
                &&& post.samples == pre.samples
                &&& post.global_time == pre.global_time
                &&& post.cycles == pre.cycles
                &&& (data & 0x80 == 0 ==> post.pulse_0 == pre.pulse_0
                    && post.pulse_1 == pre.pulse_1
                    && post.triangle == pre.triangle
                    && post.noise == pre.noise)
                // selecting 5-step mode fires an immediate half-frame clock
                &&& (data & 0x80 != 0 ==> spec_half_channels(pre, post))
            })
    )
    &&& (
            !(0x4000 <= address <= 0x400F || address == 0x4015 || address == 0x4017)
                ==> *post == *pre
    )
    &&& (
            address == 0x4009 || address == 0x400D ==> *post == *pre
    )
}

} // verus!
