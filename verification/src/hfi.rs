//! High frequency voltage injection: when and on which axis a voltage is added.

use vstd::prelude::*;

use crate::single::{Single, ONE, ZERO};
use crate::types;
use crate::types::{ClarkParkValue, SinCosResult};

verus! {

#[derive(Clone, Copy, Debug, PartialEq, Eq, Structural)]
pub struct HfiParams {
    /// 0 for no injection
    pub amplitude_v: Single,
    pub injection_frequency_hz: Single,
    /// q-axis pairs between d-axis pairs, 0 for q-axis only
    pub q_pairs_per_d_pair: u16,
}

impl HfiParams {
    /// There is something to inject.
    pub open spec fn injects(self) -> bool {
        !self.amplitude_v.less_or_equal(types::zero())
            && !self.injection_frequency_hz.less_or_equal(types::zero())
    }

    pub fn none() -> (params: Self)
        ensures
            params == (HfiParams {
                amplitude_v: types::zero(),
                injection_frequency_hz: types::zero(),
                q_pairs_per_d_pair: 0,
            }),
            !params.injects(),
    {
        HfiParams {
            amplitude_v: Single::zero(),
            injection_frequency_hz: Single::zero(),
            q_pairs_per_d_pair: 0,
        }
    }
}

/// A source of injected voltage.
pub trait HfiSource {
    /// Which source this is.
    closed spec fn identity(&self) -> int {
        arbitrary()
    }

    fn compute(&mut self, params: types::HfiParams) -> (injection: ClarkParkValue)
        ensures
            final(self).identity() == old(self).identity(),
    ;
}

pub struct NoHfi;

impl HfiSource for NoHfi {
    open spec fn identity(&self) -> int {
        0
    }

    fn compute(&mut self, _params: types::HfiParams) -> (injection: ClarkParkValue)
        ensures
            injection == ClarkParkValue::none(),
    {
        ClarkParkValue::zero()
    }
}

/// Square wave voltage injection in the estimated rotor frame, as balanced +/- pairs
#[derive(Clone, Copy, Debug, PartialEq, Eq, Structural)]
pub struct Hfi {
    pub sampling_time_s: Single,
    pub cycle: u32,
    pub negative: bool,
    pub pair: u16,
    pub amplitude: Single,
}

/// The amplitude that fits the headroom.
pub open spec fn fitting_amplitude(amplitude_v: Single, headroom_v: Single) -> Single {
    amplitude_v.lesser(headroom_v.greater(types::zero()))
}

impl Hfi {
    /// The injection at the start of its first pair.
    pub open spec fn initial(sampling_time_s: Single) -> Hfi {
        Hfi { sampling_time_s, cycle: 0, negative: false, pair: 0, amplitude: types::zero() }
    }

    /// The injection at the start of a pair.
    pub open spec fn restarted(self) -> Hfi {
        Hfi { cycle: 0, negative: false, pair: 0, ..self }
    }

    /// Amplitude of the cycle at hand: each pair is sized at its start.
    pub open spec fn sized(self, params: HfiParams, headroom_v: Single) -> Single {
        if self.cycle == 0 && !self.negative {
            fitting_amplitude(params.amplitude_v, headroom_v)
        } else {
            self.amplitude
        }
    }

    /// The pair at hand is on the d axis.
    pub open spec fn on_d(self, params: HfiParams) -> bool {
        params.q_pairs_per_d_pair > 0 && self.pair == params.q_pairs_per_d_pair
    }

    /// The voltage of the cycle at hand.
    pub open spec fn injection(self, params: HfiParams, headroom_v: Single) -> ClarkParkValue {
        let amplitude = self.sized(params, headroom_v);
        let voltage = if self.negative {
            amplitude.negated()
        } else {
            amplitude
        };
        if self.on_d(params) {
            ClarkParkValue { d: voltage, q: types::zero() }
        } else {
            ClarkParkValue { d: types::zero(), q: voltage }
        }
    }

    /// The injection one cycle later.
    pub open spec fn advanced(
        self,
        params: HfiParams,
        half_period_cycles: u32,
        headroom_v: Single,
    ) -> Hfi {
        let amplitude = self.sized(params, headroom_v);
        if self.cycle + 1 < half_period_cycles {
            Hfi { cycle: (self.cycle + 1) as u32, amplitude, ..self }
        } else {
            Hfi {
                cycle: 0,
                negative: !self.negative,
                pair: if !self.negative {
                    self.pair
                } else if self.on_d(params) {
                    0
                } else {
                    following_pair(self.pair)
                },
                amplitude,
                ..self
            }
        }
    }

    pub fn new(sampling_time_s: Single) -> (hfi: Self)
        ensures
            hfi == Hfi::initial(sampling_time_s),
    {
        Hfi {
            sampling_time_s,
            cycle: 0,
            negative: false,
            pair: 0,
            amplitude: Single { bits: ZERO },
        }
    }

    pub fn reset(&mut self)
        ensures
            *final(self) == old(self).restarted(),
    {
        self.cycle = 0;
        self.negative = false;
        self.pair = 0;
    }

    /// Voltage to add on the estimated d and q axes this cycle, each pair sized to the headroom at its start
    ///
    /// `half_period_cycles` is the number of cycles of half an injection period, one at least.
    pub fn compute(&mut self, params: HfiParams, half_period_cycles: u32, headroom_v: Single)
        -> (injection: ClarkParkValue)
        requires
            old(self).cycle < u32::MAX,
        ensures
            if params.injects() {
                &&& injection == old(self).injection(params, headroom_v)
                &&& *final(self) == old(self).advanced(params, half_period_cycles, headroom_v)
            } else {
                &&& injection == ClarkParkValue::none()
                &&& *final(self) == old(self).restarted()
            },
            final(self).cycle < u32::MAX,
    {
        if params.amplitude_v.le(Single::zero()) || params.injection_frequency_hz.le(
            Single::zero(),
        ) {
            self.reset();
            return ClarkParkValue::zero();
        }
        if self.cycle == 0 && !self.negative {
            self.amplitude = params.amplitude_v.min(headroom_v.max(Single::zero()));
        }
        let voltage = if self.negative {
            self.amplitude.neg()
        } else {
            self.amplitude
        };
        let on_d = params.q_pairs_per_d_pair > 0 && self.pair == params.q_pairs_per_d_pair;
        let injection = if on_d {
            ClarkParkValue { d: voltage, q: Single::zero() }
        } else {
            ClarkParkValue { d: Single::zero(), q: voltage }
        };

        let cycle: u32 = self.cycle + 1;
        if cycle >= half_period_cycles {
            self.cycle = 0;
            if self.negative {
                self.pair =
                if on_d {
                    0
                } else if self.pair == u16::MAX {
                    0
                } else {
                    self.pair + 1
                };
            }
            self.negative = !self.negative;
        } else {
            self.cycle = cycle;
        }
        injection
    }
}

/// Number of the pair behind a pair. The count starts over behind its largest value.
pub open spec fn following_pair(pair: u16) -> u16 {
    if pair == u16::MAX {
        0
    } else {
        (pair + 1) as u16
    }
}

/// The injection after a number of cycles with the same parameters.
pub open spec fn after_cycles(
    hfi: Hfi,
    params: HfiParams,
    half_period_cycles: u32,
    headroom_v: Single,
    cycles: nat,
) -> Hfi
    decreases cycles,
{
    if cycles == 0 {
        hfi
    } else {
        after_cycles(hfi, params, half_period_cycles, headroom_v, (cycles - 1) as nat).advanced(
            params,
            half_period_cycles,
            headroom_v,
        )
    }
}

/// A pair is balanced: from its start, each voltage of the first half period is given with the
/// other sign in the second half period, on the same axis.
pub proof fn law_pairs_are_balanced(
    hfi: Hfi,
    params: HfiParams,
    half_period_cycles: u32,
    headroom_v: Single,
    cycles: nat,
)
    requires
        hfi.cycle == 0,
        !hfi.negative,
        cycles < half_period_cycles,
    ensures
        ({
            let early = after_cycles(hfi, params, half_period_cycles, headroom_v, cycles);
            let late = after_cycles(
                hfi,
                params,
                half_period_cycles,
                headroom_v,
                cycles + half_period_cycles as nat,
            );
            let amplitude = fitting_amplitude(params.amplitude_v, headroom_v);
            &&& early.injection(params, headroom_v) == if hfi.on_d(params) {
                ClarkParkValue { d: amplitude, q: types::zero() }
            } else {
                ClarkParkValue { d: types::zero(), q: amplitude }
            }
            &&& late.injection(params, headroom_v) == if hfi.on_d(params) {
                ClarkParkValue { d: amplitude.negated(), q: types::zero() }
            } else {
                ClarkParkValue { d: types::zero(), q: amplitude.negated() }
            }
        }),
{
    lemma_first_half(hfi, params, half_period_cycles, headroom_v, cycles);
    lemma_second_half(hfi, params, half_period_cycles, headroom_v, cycles);
}

proof fn lemma_first_half(
    hfi: Hfi,
    params: HfiParams,
    half_period_cycles: u32,
    headroom_v: Single,
    cycles: nat,
)
    requires
        hfi.cycle == 0,
        !hfi.negative,
        cycles < half_period_cycles,
    ensures
        ({
            let after = after_cycles(hfi, params, half_period_cycles, headroom_v, cycles);
            &&& after.cycle == cycles
            &&& !after.negative
            &&& after.pair == hfi.pair
            &&& after.sized(params, headroom_v) == fitting_amplitude(params.amplitude_v, headroom_v)
        }),
    decreases cycles,
{
    if cycles > 0 {
        lemma_first_half(hfi, params, half_period_cycles, headroom_v, (cycles - 1) as nat);
    }
}

proof fn lemma_second_half(
    hfi: Hfi,
    params: HfiParams,
    half_period_cycles: u32,
    headroom_v: Single,
    cycles: nat,
)
    requires
        hfi.cycle == 0,
        !hfi.negative,
        cycles < half_period_cycles,
    ensures
        ({
            let after = after_cycles(
                hfi,
                params,
                half_period_cycles,
                headroom_v,
                cycles + half_period_cycles as nat,
            );
            &&& after.cycle == cycles
            &&& after.negative
            &&& after.pair == hfi.pair
            &&& after.amplitude == fitting_amplitude(params.amplitude_v, headroom_v)
        }),
    decreases cycles,
{
    if cycles > 0 {
        lemma_second_half(hfi, params, half_period_cycles, headroom_v, (cycles - 1) as nat);
    } else {
        lemma_first_half(
            hfi,
            params,
            half_period_cycles,
            headroom_v,
            (half_period_cycles - 1) as nat,
        );
    }
}

/// Sinusoidal d-axis voltage injection
#[derive(Clone, Copy, Debug, PartialEq, Eq, Structural)]
pub struct SinusoidalPulsingHfi {
    pub period_ticks: u32,
    pub tick_counter: u32,
    /// Phase of the tick at hand
    pub phasor: SinCosResult,
}

impl SinusoidalPulsingHfi {
    /// The phase at the start of a period.
    pub open spec fn start_phasor() -> SinCosResult {
        SinCosResult { sin: types::zero(), cos: Single { bits: ONE } }
    }

    /// An injection with a period of a number of ticks, one at least.
    pub fn new(period_ticks: u32) -> (hfi: Self)
        ensures
            hfi == (SinusoidalPulsingHfi {
                period_ticks: if period_ticks == 0 {
                    1
                } else {
                    period_ticks
                },
                tick_counter: 0,
                phasor: Self::start_phasor(),
            }),
    {
        SinusoidalPulsingHfi {
            period_ticks: if period_ticks == 0 {
                1
            } else {
                period_ticks
            },
            tick_counter: 0,
            phasor: SinCosResult { sin: Single::zero(), cos: Single::from_bits(ONE) },
        }
    }

    pub fn reset(&mut self)
        ensures
            *final(self) == (SinusoidalPulsingHfi {
                tick_counter: 0,
                phasor: Self::start_phasor(),
                ..*old(self)
            }),
    {
        self.tick_counter = 0;
        self.phasor = SinCosResult { sin: Single::zero(), cos: Single::from_bits(ONE) };
    }

    /// Goes on to the next tick. `rotated` is the phase rotated by one tick: a period starts over
    /// at its exact phase, so that rounding does not add up.
    pub fn advance(&mut self, rotated: SinCosResult)
        requires
            old(self).tick_counter < u32::MAX,
        ensures
            *final(self) == if old(self).tick_counter + 1 >= old(self).period_ticks {
                SinusoidalPulsingHfi {
                    tick_counter: 0,
                    phasor: Self::start_phasor(),
                    ..*old(self)
                }
            } else {
                SinusoidalPulsingHfi {
                    tick_counter: (old(self).tick_counter + 1) as u32,
                    phasor: rotated,
                    ..*old(self)
                }
            },
            final(self).tick_counter < u32::MAX,
            final(self).period_ticks == old(self).period_ticks,
            final(self).tick_counter == 0 ==> final(self).phasor.sin.bits == 0
                && final(self).phasor.cos.bits == 0x3F80_0000,
            final(self).tick_counter > 0 ==> final(self).phasor == rotated
                && final(self).tick_counter == old(self).tick_counter + 1,
            old(self).period_ticks > 0 ==> final(self).tick_counter < old(self).period_ticks,
    {
        self.tick_counter += 1;
        if self.tick_counter >= self.period_ticks {
            self.reset();
        } else {
            self.phasor = rotated;
        }
    }
}

/// A pair is sized at its start: the amplitude is the wanted one where the headroom suffices, else
/// the headroom, and never negative where the wanted one is not. During the pair it stays.
pub proof fn law_amplitude_fits_the_headroom(
    hfi: Hfi,
    params: HfiParams,
    half_period_cycles: u32,
    headroom_v: Single,
)
    requires
        !params.amplitude_v.nan(),
        !headroom_v.nan(),
        types::zero().less(params.amplitude_v),
    ensures
        ({
            let amplitude = hfi.sized(params, headroom_v);
            let starts = hfi.cycle == 0 && !hfi.negative;
            &&& starts && params.amplitude_v.less(headroom_v) ==> amplitude == params.amplitude_v
            &&& starts && types::zero().less(headroom_v) && headroom_v.less(params.amplitude_v)
                ==> amplitude == headroom_v
            &&& starts && headroom_v.less(types::zero()) ==> amplitude.same_value(types::zero())
            &&& starts ==> types::zero().less_or_equal(amplitude) && amplitude.less_or_equal(
                params.amplitude_v,
            )
            &&& !starts ==> amplitude == hfi.amplitude
            &&& hfi.advanced(params, half_period_cycles, headroom_v).amplitude == amplitude
        }),
{
}

/// The sign changes after every half period, and the pair is counted on at the end of its second
/// half. Behind a pair on the d axis the count starts over.
pub proof fn law_pairs_follow_each_other(
    hfi: Hfi,
    params: HfiParams,
    half_period_cycles: u32,
    headroom_v: Single,
)
    ensures
        ({
            let next = hfi.advanced(params, half_period_cycles, headroom_v);
            let half_done = hfi.cycle + 1 >= half_period_cycles;
            &&& next.sampling_time_s == hfi.sampling_time_s
            &&& half_done <==> next.negative != hfi.negative
            &&& half_done ==> next.cycle == 0
            &&& !half_done ==> next.cycle == hfi.cycle + 1 && next.pair == hfi.pair
            &&& half_done && !hfi.negative ==> next.pair == hfi.pair
            &&& half_done && hfi.negative && params.q_pairs_per_d_pair > 0 && hfi.pair
                == params.q_pairs_per_d_pair ==> next.pair == 0
            &&& half_done && hfi.negative && (params.q_pairs_per_d_pair == 0 || hfi.pair
                < params.q_pairs_per_d_pair) && hfi.pair < u16::MAX ==> next.pair == hfi.pair + 1
            &&& hfi.pair <= params.q_pairs_per_d_pair && params.q_pairs_per_d_pair > 0
                ==> next.pair <= params.q_pairs_per_d_pair
        }),
{
}

/// A voltage is injected along one axis: along d in the pair that follows the given number of q
/// pairs, else along q, and along q alone where that number is zero.
pub proof fn law_one_axis_at_a_time(hfi: Hfi, params: HfiParams, headroom_v: Single)
    ensures
        ({
            let voltage = hfi.injection(params, headroom_v);
            let along_d = params.q_pairs_per_d_pair != 0 && hfi.pair == params.q_pairs_per_d_pair;
            let amplitude = hfi.sized(params, headroom_v);
            &&& along_d ==> voltage.q.bits == 0 && voltage.d.absolute() == amplitude.absolute()
            &&& !along_d ==> voltage.d.bits == 0 && voltage.q.absolute() == amplitude.absolute()
            &&& along_d && !hfi.negative ==> voltage.d == amplitude
            &&& along_d && hfi.negative ==> voltage.d == amplitude.negated()
            &&& !along_d && !hfi.negative ==> voltage.q == amplitude
            &&& !along_d && hfi.negative ==> voltage.q == amplitude.negated()
        }),
{
}

/// Nothing is injected without an amplitude and a frequency, and an interrupted injection starts
/// with a new pair.
pub proof fn law_injection_takes_amplitude_and_frequency(hfi: Hfi, params: HfiParams)
    ensures
        types::zero().less(params.amplitude_v) && types::zero().less(params.injection_frequency_hz)
            ==> params.injects(),
        params.injects() ==> !params.amplitude_v.less_or_equal(types::zero())
            && !params.injection_frequency_hz.less_or_equal(types::zero()),
        hfi.restarted().cycle == 0 && !hfi.restarted().negative && hfi.restarted().pair == 0,
        hfi.restarted().sampling_time_s == hfi.sampling_time_s,
{
}

/// An injection begins with the positive half of a q pair, and a sinusoidal one at the zero of its
/// sine.
pub proof fn law_injection_begins_positive(sampling_time_s: Single)
    ensures
        Hfi::initial(sampling_time_s).cycle == 0,
        !Hfi::initial(sampling_time_s).negative,
        Hfi::initial(sampling_time_s).pair == 0,
        Hfi::initial(sampling_time_s).sampling_time_s == sampling_time_s,
        SinusoidalPulsingHfi::start_phasor().sin.bits == 0,
        SinusoidalPulsingHfi::start_phasor().cos.bits == 0x3F80_0000,
{
}

} // verus!
