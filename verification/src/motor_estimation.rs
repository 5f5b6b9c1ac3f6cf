//! Identification of the motor parameters: stator resistance, inductances and flux linkage, one
//! test after the other.

use vstd::prelude::*;

use crate::single::{Single, ZERO};
use crate::types;
use crate::types::{ClarkParkValue, FocResult, MotorParamsEstimate};

verus! {

#[derive(Clone, Copy, Debug, PartialEq, Eq, Structural)]
pub enum EstimationStepFault {
    MissingParameter,
    Overflow,
    InsufficientSamples,
    DegenSolution,
    ParameterOutOfBounds,
    TargetCurrentUnreachable,
}

/// Samples that a parameter is solved from at least
pub const MIN_SOLVE_SAMPLES: u32 = 1000;

/// Alternations between the two current levels of the resistance test
pub const EST_R_BLOCKS: u32 = 4;

/// Relative error at which a current level counts as reached: 0.05
pub const EST_R_TARGET_TOLERANCE: u32 = 0x3D4C_CCCD;

/// Smallest difference between the current levels that a resistance is solved from: 1e-3
pub const MIN_DELTA_I_A: u32 = 0x3A83_126F;

/// Largest sum of squares that counts as no excitation: 1e-12
pub const DEGENERATE_SUM: u32 = 0x2B8C_BCCC;

#[derive(Clone, Copy, Debug, PartialEq, Eq, Structural)]
pub enum Axis {
    D,
    Q,
}

impl Axis {
    /// The component of a value along the axis.
    pub open spec fn component(self, value: ClarkParkValue) -> Single {
        match self {
            Axis::D => value.d,
            Axis::Q => value.q,
        }
    }

    /// A value that has only a component along the axis.
    pub open spec fn along(self, magnitude: Single) -> ClarkParkValue {
        match self {
            Axis::D => ClarkParkValue { d: magnitude, q: types::zero() },
            Axis::Q => ClarkParkValue { d: types::zero(), q: magnitude },
        }
    }

    pub fn of(self, value: ClarkParkValue) -> (component: Single)
        ensures
            component == self.component(value),
    {
        match self {
            Axis::D => value.d,
            Axis::Q => value.q,
        }
    }

    pub fn vector(self, magnitude: Single) -> (value: ClarkParkValue)
        ensures
            value == self.along(magnitude),
    {
        match self {
            Axis::D => ClarkParkValue { d: magnitude, q: Single::zero() },
            Axis::Q => ClarkParkValue { d: Single::zero(), q: magnitude },
        }
    }
}

/// Accumulator for solving y = a*x via least-squares: a = sum(x*y) / sum(x^2)
#[derive(Clone, Copy, Debug, PartialEq, Eq, Structural)]
pub struct Lse {
    pub xy_sum: Single,
    pub xx_sum: Single,
    pub num_data: u32,
    pub overflow: bool,
}

impl Lse {
    pub open spec fn empty() -> Lse {
        Lse { xy_sum: types::zero(), xx_sum: types::zero(), num_data: 0, overflow: false }
    }

    /// The accumulator with one more sample, which makes the sums `xy_sum` and `xx_sum`. A
    /// sample that makes a sum overflow is dropped, and marks the accumulator.
    pub open spec fn with_sample(self, xy_sum: Single, xx_sum: Single) -> Lse {
        if xy_sum.finite() && xx_sum.finite() {
            Lse { xy_sum, xx_sum, num_data: (self.num_data + 1) as u32, overflow: self.overflow }
        } else {
            Lse { overflow: true, ..self }
        }
    }

    /// Why nothing can be solved for yet.
    pub open spec fn obstacle(self, min_data: u32) -> Option<EstimationStepFault> {
        if self.overflow {
            Some(EstimationStepFault::Overflow)
        } else if self.num_data < min_data {
            Some(EstimationStepFault::InsufficientSamples)
        } else if (Single { bits: DEGENERATE_SUM }).less(self.xx_sum) {
            None
        } else {
            Some(EstimationStepFault::DegenSolution)
        }
    }

    pub fn new() -> (lse: Self)
        ensures
            lse == Lse::empty(),
    {
        Lse { xy_sum: Single::zero(), xx_sum: Single::zero(), num_data: 0, overflow: false }
    }

    /// Takes a sample in that makes the sums `xy_sum` and `xx_sum`.
    pub fn accumulate(&mut self, xy_sum: Single, xx_sum: Single)
        requires
            old(self).num_data < u32::MAX,
        ensures
            *final(self) == old(self).with_sample(xy_sum, xx_sum),
    {
        if xy_sum.is_finite() && xx_sum.is_finite() {
            self.xy_sum = xy_sum;
            self.xx_sum = xx_sum;
            self.num_data += 1;
        } else {
            self.overflow = true;
        }
    }

    /// The quotient of the sums, where there is enough to solve for it.
    pub fn solve(&self, min_data: u32, quotient: Single) -> (solution: Result<
        Single,
        EstimationStepFault,
    >)
        ensures
            solution == match self.obstacle(min_data) {
                Some(fault) => Err(fault),
                None => Ok(quotient),
            },
    {
        if self.overflow {
            return Err(EstimationStepFault::Overflow);
        }
        if self.num_data < min_data {
            return Err(EstimationStepFault::InsufficientSamples);
        }
        if self.xx_sum.gt(Single::from_bits(DEGENERATE_SUM)) {
            Ok(quotient)
        } else {
            Err(EstimationStepFault::DegenSolution)
        }
    }
}

/// Accumulator for the mean of (x, y) samples
#[derive(Clone, Copy, Debug, PartialEq, Eq, Structural)]
pub struct Mean {
    pub x_sum: Single,
    pub y_sum: Single,
    pub num_data: u32,
}

impl Mean {
    pub open spec fn empty() -> Mean {
        Mean { x_sum: types::zero(), y_sum: types::zero(), num_data: 0 }
    }

    /// The accumulator with one more sample, which makes the sums `x_sum` and `y_sum`.
    pub open spec fn with_sample(self, x_sum: Single, y_sum: Single) -> Mean {
        Mean { x_sum, y_sum, num_data: (self.num_data + 1) as u32 }
    }

    pub fn new() -> (mean: Self)
        ensures
            mean == Mean::empty(),
    {
        Mean { x_sum: Single::zero(), y_sum: Single::zero(), num_data: 0 }
    }

    /// Takes a sample in that makes the sums `x_sum` and `y_sum`.
    pub fn accumulate(&mut self, x_sum: Single, y_sum: Single)
        requires
            old(self).num_data < u32::MAX,
        ensures
            *final(self) == old(self).with_sample(x_sum, y_sum),
    {
        self.x_sum = x_sum;
        self.y_sum = y_sum;
        self.num_data += 1;
    }

    pub fn num_data(&self) -> (num_data: u32)
        ensures
            num_data == self.num_data,
    {
        self.num_data
    }
}

#[derive(Clone, Copy, Debug, PartialEq, Eq, Structural)]
pub struct OfflineEstimatorConfig {
    pub settle_time_s: Single,
    pub test_time_s: Single,
    pub max_spin_time_s: Single,
    pub spin_omega: Single,
    pub dt_s: Single,
}

/// Numbers of one tick of a test, worked out of the state of the test and the measurements.
#[derive(Clone, Copy, Debug, PartialEq, Eq, Structural)]
pub struct EstimationNumbers {
    /// Time that the present wait, block or test has run, the tick at hand included
    pub elapsed_s: Single,
    /// Resistance test: relative distance of the d-axis current from the level of the block
    pub error_ratio: Single,
    /// Resistance test: duration of a block
    pub block_time_s: Single,
    /// Resistance test: sums of the level at hand, the tick at hand included
    pub level_i_sum: Single,
    pub level_u_sum: Single,
    /// Resistance test: difference of the mean currents of the levels, the tick at hand included
    pub delta_i: Single,
    pub resistance: Single,
    pub inverter_voltage_error: Single,
    /// Inductance test: voltage of the test, and what the target current needs at least
    pub test_voltage_v: Single,
    pub needed_voltage_v: Single,
    /// Inductance test: current to be reached, and the current predicted in its direction
    pub target_current_a: Single,
    pub predicted_i: Single,
    /// Inductance test: time after which it is given up
    pub give_up_s: Single,
    pub inductance: Single,
    /// Least squares sums with the sample of the tick at hand
    pub xy_sum: Single,
    pub xx_sum: Single,
    /// Flux test: speed of the spin-up at the time that it has run so far
    pub spin_up_omega: Single,
    /// Flux test and rampdown: forced angle one tick further
    pub next_theta: Single,
    /// Flux test: time at which it ends
    pub spin_end_s: Single,
    pub flux_linkage: Single,
}

#[derive(Clone, Copy, Debug, PartialEq, Eq, Structural)]
pub enum OfflineEstimatorState {
    Off,
    /// Commanding d-axis current, waiting for rotor to align
    RotorLockWait { waited_s: Single },
    /// Steady-state d-axis current (di/dt ~ 0) at two levels, high and low:
    /// R = (mean(v_d_high) - mean(v_d_low)) / (mean(i_d_high) - mean(i_d_low))
    /// inverter_voltage_error = mean(v_d_high) - R * mean(i_d_high)
    EstR { block: u32, block_ran_s: Single, target_reached: bool, high: Mean, low: Mean },
    /// Square wave voltage on one axis, flipped when the current reaches the calibration target.
    /// R term cancels due to symmetry over whole periods so the voltage equation simplifies to:
    /// L = |v| / |di/dt|
    EstL {
        axis: Axis,
        ran_s: Single,
        resistance: Single,
        /// Sign of the voltage that is commanded
        positive: bool,
        sign_flips: u32,
        /// Signs commanded two and one ticks ago, the interval di/dt spans
        early_half: Option<bool>,
        late_half: Option<bool>,
        prev_i: Single,
        /// Solves 1/L from the LSE problem:
        /// sign * di/dt = (1/L) * |v|
        lse: Lse,
    },
    /// Need to tune current controller before proceeding
    TuningRequired { resistance: Single },
    /// Open loop rotation: d-axis current in a frame forced to rotate at omega, the rotor follows
    /// with a load angle. The back-EMF magnitude is independent of that angle:
    /// e_d = v_d - R*i_d + omega*L_q*i_q
    /// e_q = v_q - R*i_q - omega*L_d*i_d
    /// e_d^2 + e_q^2 = pm_flux^2 * omega^2
    EstF {
        ran_s: Single,
        theta: Single,
        omega: Single,
        resistance: Single,
        d_inductance: Single,
        q_inductance: Single,
        /// Solves pm_flux^2 from the LSE problem:
        /// |e|^2 = pm_flux^2 * omega^2
        lse: Lse,
    },
    /// Ramp the current down at constant omega so the rotor coasts instead of braking
    RampDown {
        pm_flux_linkage: Option<Single>,
        pending_fault: Option<EstimationStepFault>,
        ran_s: Single,
        theta: Single,
        omega: Single,
        ramp_duration_s: Single,
    },
    Failure { fault: EstimationStepFault },
    Done,
}

/// What one tick of a test gave, beside the new state of the test.
#[derive(Clone, Copy, Debug, PartialEq, Eq, Structural)]
pub enum StepResult {
    Transition(OfflineEstimatorState),
    EstimateR { resistance: Single, inverter_voltage_error: Single, next: OfflineEstimatorState },
    EstimateL { axis: Axis, inductance: Single, next: OfflineEstimatorState },
    EstimateF { next: OfflineEstimatorState },
    RampDown { pm_flux_linkage: Option<Single> },
}

/// State and answer that a tick leads to.
pub type Stepped = (OfflineEstimatorState, Result<Option<StepResult>, EstimationStepFault>);

/// The number is zero or less.
pub open spec fn not_positive(number: Single) -> bool {
    number.less_or_equal(types::zero())
}

/// After this number of sign flips whole periods were recorded: the flip that began the recording
/// does not count.
pub open spec fn whole_periods(sign_flips: int) -> bool {
    sign_flips >= 3 && sign_flips % 2 == 1
}

impl OfflineEstimatorState {
    /// The first state of the inductance test of an axis.
    pub open spec fn est_l_start(
        axis: Axis,
        resistance: Single,
        data: FocResult,
    ) -> OfflineEstimatorState {
        OfflineEstimatorState::EstL {
            axis,
            ran_s: types::zero(),
            resistance,
            positive: true,
            sign_flips: 0,
            early_half: None,
            late_half: None,
            prev_i: axis.component(data.measured_i_dq),
            lse: Lse::empty(),
        }
    }

    /// The first state of the resistance test.
    pub open spec fn est_r_start() -> OfflineEstimatorState {
        OfflineEstimatorState::EstR {
            block: 0,
            block_ran_s: types::zero(),
            target_reached: false,
            high: Mean::empty(),
            low: Mean::empty(),
        }
    }

    /// No counter of the state is at its largest value.
    pub open spec fn can_count(self) -> bool {
        match self {
            OfflineEstimatorState::EstR { block, high, low, .. } => {
                block < u32::MAX && high.num_data < u32::MAX && low.num_data < u32::MAX
            },
            OfflineEstimatorState::EstL { sign_flips, lse, .. } => {
                sign_flips < u32::MAX && lse.num_data < u32::MAX
            },
            OfflineEstimatorState::EstF { lse, .. } => lse.num_data < u32::MAX,
            _ => true,
        }
    }

    /// One tick of the resistance test.
    pub open spec fn est_r_stepped(
        block: u32,
        target_reached: bool,
        high: Mean,
        low: Mean,
        data: FocResult,
        config: OfflineEstimatorConfig,
        n: EstimationNumbers,
    ) -> Stepped {
        let within = n.error_ratio.less_or_equal(Single { bits: EST_R_TARGET_TOLERANCE });
        let on_high = block % 2 == 0;
        let high2 = if on_high {
            high.with_sample(n.level_i_sum, n.level_u_sum)
        } else {
            high
        };
        let low2 = if on_high {
            low
        } else {
            low.with_sample(n.level_i_sum, n.level_u_sum)
        };
        if !target_reached {
            // Waiting for the current of the block
            (
                OfflineEstimatorState::EstR {
                    block,
                    block_ran_s: if within {
                        types::zero()
                    } else {
                        n.elapsed_s
                    },
                    target_reached: within,
                    high,
                    low,
                },
                if !within && config.test_time_s.less_or_equal(n.elapsed_s) {
                    Err(EstimationStepFault::TargetCurrentUnreachable)
                } else {
                    Ok(None)
                },
            )
        } else if n.elapsed_s.less(n.block_time_s) {
            (
                OfflineEstimatorState::EstR {
                    block,
                    block_ran_s: n.elapsed_s,
                    target_reached,
                    high: high2,
                    low: low2,
                },
                Ok(None),
            )
        } else {
            // The block is complete
            (
                OfflineEstimatorState::EstR {
                    block: (block + 1) as u32,
                    block_ran_s: types::zero(),
                    target_reached: false,
                    high: high2,
                    low: low2,
                },
                if block + 1 < EST_R_BLOCKS {
                    Ok(None)
                } else if high2.num_data < MIN_SOLVE_SAMPLES || low2.num_data
                    < MIN_SOLVE_SAMPLES {
                    Err(EstimationStepFault::InsufficientSamples)
                } else if n.delta_i.absolute().less(Single { bits: MIN_DELTA_I_A }) {
                    Err(EstimationStepFault::DegenSolution)
                } else if not_positive(n.resistance) {
                    Err(EstimationStepFault::ParameterOutOfBounds)
                } else {
                    Ok(
                        Some(
                            StepResult::EstimateR {
                                resistance: n.resistance,
                                inverter_voltage_error: n.inverter_voltage_error,
                                next: OfflineEstimatorState::est_l_start(
                                    Axis::D,
                                    n.resistance,
                                    data,
                                ),
                            },
                        ),
                    )
                },
            )
        }
    }

    /// The inductance test records a sample this tick: the signs of the last two ticks are the
    /// same, so that the current did not pass a peak between them.
    pub open spec fn records_inductance_sample(
        sign_flips: u32,
        early_half: Option<bool>,
        late_half: Option<bool>,
    ) -> bool {
        sign_flips > 0 && early_half is Some && early_half == late_half
    }

    /// One tick of an inductance test, where the test voltage suffices.
    pub open spec fn est_l_stepped(
        axis: Axis,
        resistance: Single,
        positive: bool,
        sign_flips: u32,
        early_half: Option<bool>,
        late_half: Option<bool>,
        lse: Lse,
        data: FocResult,
        config: OfflineEstimatorConfig,
        n: EstimationNumbers,
    ) -> Stepped {
        let lse2 = if Self::records_inductance_sample(sign_flips, early_half, late_half) {
            lse.with_sample(n.xy_sum, n.xx_sum)
        } else {
            lse
        };
        let gives_up = n.give_up_s.less_or_equal(n.elapsed_s);
        let flips = !gives_up && !n.predicted_i.less(n.target_current_a);
        let flips2 = if flips {
            sign_flips + 1
        } else {
            sign_flips as int
        };
        (
            OfflineEstimatorState::EstL {
                axis,
                ran_s: n.elapsed_s,
                resistance,
                positive: positive != flips,
                sign_flips: flips2 as u32,
                early_half: late_half,
                late_half: Some(positive),
                prev_i: axis.component(data.measured_i_dq),
                lse: lse2,
            },
            if gives_up {
                Err(EstimationStepFault::InsufficientSamples)
            } else if flips && config.test_time_s.less_or_equal(n.elapsed_s) && whole_periods(
                flips2,
            ) {
                match lse2.obstacle(MIN_SOLVE_SAMPLES) {
                    Some(fault) => Err(fault),
                    None => if not_positive(n.inductance) {
                        Err(EstimationStepFault::ParameterOutOfBounds)
                    } else {
                        Ok(
                            Some(
                                StepResult::EstimateL {
                                    axis,
                                    inductance: n.inductance,
                                    next: match axis {
                                        Axis::D => Self::est_l_start(Axis::Q, resistance, data),
                                        Axis::Q => OfflineEstimatorState::TuningRequired {
                                            resistance,
                                        },
                                    },
                                },
                            ),
                        )
                    },
                }
            } else {
                Ok(None)
            },
        )
    }

    /// One tick of the flux test.
    pub open spec fn est_f_stepped(
        ran_s: Single,
        omega: Single,
        resistance: Single,
        d_inductance: Single,
        q_inductance: Single,
        lse: Lse,
        config: OfflineEstimatorConfig,
        n: EstimationNumbers,
    ) -> Stepped {
        let spinning_up = ran_s.less(config.max_spin_time_s);
        let omega2 = if spinning_up {
            n.spin_up_omega
        } else {
            omega
        };
        let lse2 = if spinning_up {
            lse
        } else {
            lse.with_sample(n.xy_sum, n.xx_sum)
        };
        let obstacle = lse2.obstacle(MIN_SOLVE_SAMPLES);
        (
            OfflineEstimatorState::EstF {
                ran_s: n.elapsed_s,
                theta: n.next_theta,
                omega: omega2,
                resistance,
                d_inductance,
                q_inductance,
                lse: lse2,
            },
            if !n.spin_end_s.less_or_equal(n.elapsed_s) {
                Ok(None)
            } else if obstacle is None && not_positive(n.flux_linkage) {
                Err(EstimationStepFault::ParameterOutOfBounds)
            } else {
                Ok(
                    Some(
                        StepResult::EstimateF {
                            next: OfflineEstimatorState::RampDown {
                                pm_flux_linkage: if obstacle is None {
                                    Some(n.flux_linkage)
                                } else {
                                    None
                                },
                                pending_fault: obstacle,
                                ran_s: types::zero(),
                                theta: n.next_theta,
                                omega: omega2,
                                ramp_duration_s: config.test_time_s,
                            },
                        },
                    ),
                )
            },
        )
    }

    /// State and answer that a tick leads to.
    pub open spec fn stepped(
        self,
        data: FocResult,
        config: OfflineEstimatorConfig,
        n: EstimationNumbers,
    ) -> Stepped {
        match self {
            OfflineEstimatorState::RotorLockWait { .. } => (
                OfflineEstimatorState::RotorLockWait { waited_s: n.elapsed_s },
                if config.settle_time_s.less_or_equal(n.elapsed_s) {
                    Ok(Some(StepResult::Transition(Self::est_r_start())))
                } else {
                    Ok(None)
                },
            ),
            OfflineEstimatorState::EstR { block, target_reached, high, low, .. } => {
                Self::est_r_stepped(block, target_reached, high, low, data, config, n)
            },
            OfflineEstimatorState::EstL {
                axis,
                resistance,
                positive,
                sign_flips,
                early_half,
                late_half,
                lse,
                ..
            } => {
                if n.test_voltage_v.less(n.needed_voltage_v) {
                    (self, Err(EstimationStepFault::TargetCurrentUnreachable))
                } else {
                    Self::est_l_stepped(
                        axis,
                        resistance,
                        positive,
                        sign_flips,
                        early_half,
                        late_half,
                        lse,
                        data,
                        config,
                        n,
                    )
                }
            },
            OfflineEstimatorState::EstF {
                ran_s,
                omega,
                resistance,
                d_inductance,
                q_inductance,
                lse,
                ..
            } => Self::est_f_stepped(
                ran_s,
                omega,
                resistance,
                d_inductance,
                q_inductance,
                lse,
                config,
                n,
            ),
            OfflineEstimatorState::RampDown {
                pm_flux_linkage,
                pending_fault,
                omega,
                ramp_duration_s,
                ..
            } => (
                OfflineEstimatorState::RampDown {
                    pm_flux_linkage,
                    pending_fault,
                    ran_s: n.elapsed_s,
                    theta: n.next_theta,
                    omega,
                    ramp_duration_s,
                },
                if !ramp_duration_s.less_or_equal(n.elapsed_s) {
                    Ok(None)
                } else {
                    match pending_fault {
                        Some(fault) => Err(fault),
                        None => Ok(Some(StepResult::RampDown { pm_flux_linkage })),
                    }
                },
            ),
            OfflineEstimatorState::Off
            | OfflineEstimatorState::TuningRequired { .. }
            | OfflineEstimatorState::Failure { .. }
            | OfflineEstimatorState::Done => (self, Ok(None)),
        }
    }

    fn est_l(axis: Axis, resistance: Single, data: &FocResult) -> (state: Self)
        ensures
            state == Self::est_l_start(axis, resistance, *data),
    {
        OfflineEstimatorState::EstL {
            axis,
            ran_s: Single::zero(),
            resistance,
            positive: true,
            sign_flips: 0,
            early_half: None,
            late_half: None,
            prev_i: axis.of(data.measured_i_dq),
            lse: Lse::new(),
        }
    }

    /// Advances the test at hand by one tick.
    pub fn step(
        &mut self,
        data: &FocResult,
        config: &OfflineEstimatorConfig,
        n: &EstimationNumbers,
    ) -> (result: Result<Option<StepResult>, EstimationStepFault>)
        requires
            old(self).can_count(),
        ensures
            (*final(self), result) == old(self).stepped(*data, *config, *n),
    {
        match *self {
            OfflineEstimatorState::Off
            | OfflineEstimatorState::Done
            | OfflineEstimatorState::Failure { .. } => Ok(None),
            OfflineEstimatorState::RotorLockWait { .. } => {
                *self = OfflineEstimatorState::RotorLockWait { waited_s: n.elapsed_s };
                if n.elapsed_s.ge(config.settle_time_s) {
                    let result = StepResult::Transition(
                        OfflineEstimatorState::EstR {
                            block: 0,
                            block_ran_s: Single::zero(),
                            target_reached: false,
                            high: Mean::new(),
                            low: Mean::new(),
                        },
                    );
                    Ok(Some(result))
                } else {
                    Ok(None)
                }
            },
            OfflineEstimatorState::EstR { block, target_reached, high, low, .. } => {
                if !target_reached {
                    let reached = n.error_ratio.le(Single::from_bits(EST_R_TARGET_TOLERANCE));
                    let block_ran_s = if reached {
                        Single::zero()
                    } else {
                        n.elapsed_s
                    };
                    *self =
                    OfflineEstimatorState::EstR {
                        block,
                        block_ran_s,
                        target_reached: reached,
                        high,
                        low,
                    };
                    if !reached && n.elapsed_s.ge(config.test_time_s) {
                        return Err(EstimationStepFault::TargetCurrentUnreachable);
                    }
                    return Ok(None);
                }
                let mut high = high;
                let mut low = low;
                if block % 2 == 0 {
                    high.accumulate(n.level_i_sum, n.level_u_sum);
                } else {
                    low.accumulate(n.level_i_sum, n.level_u_sum);
                }
                if n.elapsed_s.lt(n.block_time_s) {
                    *self =
                    OfflineEstimatorState::EstR {
                        block,
                        block_ran_s: n.elapsed_s,
                        target_reached,
                        high,
                        low,
                    };
                    return Ok(None);
                }
                let block: u32 = block + 1;
                *self =
                OfflineEstimatorState::EstR {
                    block,
                    block_ran_s: Single::zero(),
                    target_reached: false,
                    high,
                    low,
                };
                if block >= EST_R_BLOCKS {
                    if high.num_data() < MIN_SOLVE_SAMPLES || low.num_data() < MIN_SOLVE_SAMPLES {
                        return Err(EstimationStepFault::InsufficientSamples);
                    }
                    if n.delta_i.abs().lt(Single::from_bits(MIN_DELTA_I_A)) {
                        return Err(EstimationStepFault::DegenSolution);
                    }
                    if n.resistance.le(Single::zero()) {
                        return Err(EstimationStepFault::ParameterOutOfBounds);
                    }
                    let result = StepResult::EstimateR {
                        resistance: n.resistance,
                        inverter_voltage_error: n.inverter_voltage_error,
                        next: Self::est_l(Axis::D, n.resistance, data),
                    };
                    Ok(Some(result))
                } else {
                    Ok(None)
                }
            },
            OfflineEstimatorState::EstL {
                axis,
                resistance,
                positive,
                sign_flips,
                early_half,
                late_half,
                lse,
                ..
            } => {
                if n.test_voltage_v.lt(n.needed_voltage_v) {
                    return Err(EstimationStepFault::TargetCurrentUnreachable);
                }
                let mut lse = lse;
                if Self::inductance_sample_due(sign_flips, early_half, late_half) {
                    lse.accumulate(n.xy_sum, n.xx_sum);
                }
                let mut positive2: bool = positive;
                let mut sign_flips2: u32 = sign_flips;
                let gives_up = n.elapsed_s.ge(n.give_up_s);
                // Flip when the current (+ some predicted change) exceeds the target:
                let flips = !gives_up && !n.predicted_i.lt(n.target_current_a);
                if flips {
                    positive2 = !positive;
                    sign_flips2 = sign_flips + 1;
                }
                *self =
                OfflineEstimatorState::EstL {
                    axis,
                    ran_s: n.elapsed_s,
                    resistance,
                    positive: positive2,
                    sign_flips: sign_flips2,
                    early_half: late_half,
                    late_half: Some(positive),
                    prev_i: axis.of(data.measured_i_dq),
                    lse,
                };
                if gives_up {
                    return Err(EstimationStepFault::InsufficientSamples);
                }
                if !flips {
                    return Ok(None);
                }
                // The R term will only cancel with data from symmetric excitation:
                let accumulated_halves: u32 = sign_flips2 - 1;
                let whole = accumulated_halves >= 2 && accumulated_halves % 2 == 0;
                if n.elapsed_s.ge(config.test_time_s) && whole {
                    let inductance = match lse.solve(MIN_SOLVE_SAMPLES, n.inductance) {
                        Ok(inductance) => inductance,
                        Err(fault) => {
                            return Err(fault);
                        },
                    };
                    if inductance.le(Single::zero()) {
                        return Err(EstimationStepFault::ParameterOutOfBounds);
                    }
                    let next = match axis {
                        Axis::D => Self::est_l(Axis::Q, resistance, data),
                        Axis::Q => OfflineEstimatorState::TuningRequired { resistance },
                    };
                    Ok(Some(StepResult::EstimateL { axis, inductance, next }))
                } else {
                    Ok(None)
                }
            },
            OfflineEstimatorState::TuningRequired { .. } => {
                // Transition happens through acknowledgement of tuning request
                Ok(None)
            },
            OfflineEstimatorState::EstF {
                ran_s,
                omega,
                resistance,
                d_inductance,
                q_inductance,
                lse,
                ..
            } => {
                let mut omega = omega;
                let mut lse = lse;
                let spinning_up = ran_s.lt(config.max_spin_time_s);
                if spinning_up {
                    omega = n.spin_up_omega;
                } else {
                    lse.accumulate(n.xy_sum, n.xx_sum);
                }
                *self =
                OfflineEstimatorState::EstF {
                    ran_s: n.elapsed_s,
                    theta: n.next_theta,
                    omega,
                    resistance,
                    d_inductance,
                    q_inductance,
                    lse,
                };
                if n.elapsed_s.ge(n.spin_end_s) {
                    let (pm_flux_linkage, pending_fault) = match lse.solve(
                        MIN_SOLVE_SAMPLES,
                        n.flux_linkage,
                    ) {
                        Ok(flux_linkage) => {
                            if flux_linkage.le(Single::zero()) {
                                return Err(EstimationStepFault::ParameterOutOfBounds);
                            }
                            (Some(flux_linkage), None)
                        },
                        Err(fault) => (None, Some(fault)),
                    };
                    let next = OfflineEstimatorState::RampDown {
                        pm_flux_linkage,
                        pending_fault,
                        ran_s: Single::zero(),
                        theta: n.next_theta,
                        omega,
                        ramp_duration_s: config.test_time_s,
                    };
                    Ok(Some(StepResult::EstimateF { next }))
                } else {
                    Ok(None)
                }
            },
            OfflineEstimatorState::RampDown {
                pm_flux_linkage,
                pending_fault,
                omega,
                ramp_duration_s,
                ..
            } => {
                *self =
                OfflineEstimatorState::RampDown {
                    pm_flux_linkage,
                    pending_fault,
                    ran_s: n.elapsed_s,
                    theta: n.next_theta,
                    omega,
                    ramp_duration_s,
                };
                if n.elapsed_s.ge(ramp_duration_s) {
                    match pending_fault {
                        Some(fault) => Err(fault),
                        None => Ok(Some(StepResult::RampDown { pm_flux_linkage })),
                    }
                } else {
                    Ok(None)
                }
            },
        }
    }

    /// Whether the inductance test records a sample this tick.
    ///
    /// The current takes a triangular shape in response, and a sign flip indicates we went "through" a peak,
    /// so due to symmetry: i(t-1) = i(t) = di/dt=0, which would make the sample invalid.
    pub fn inductance_sample_due(
        sign_flips: u32,
        early_half: Option<bool>,
        late_half: Option<bool>,
    ) -> (due: bool)
        ensures
            due == Self::records_inductance_sample(sign_flips, early_half, late_half),
    {
        match (early_half, late_half) {
            (Some(early), Some(late)) => sign_flips > 0 && early == late,
            _ => false,
        }
    }
}

#[derive(Clone, Copy, Debug, PartialEq, Eq, Structural)]
pub enum OfflineEstimatorOutput {
    CalibrationCurrent(ClarkParkValue),
    CalibrationVoltage(ClarkParkValue),
    Current(ClarkParkValue),
}

#[derive(Clone, Copy, Debug, PartialEq, Eq, Structural)]
pub struct OfflineEstimatorCommand {
    pub output: OfflineEstimatorOutput,
    pub theta: Single,
}

#[derive(Clone, Copy, Debug, PartialEq, Eq, Structural)]
pub struct OfflineEstimatorInput {
    pub dc_bus_voltage: Single,
    pub target_voltage: Single,
    pub target_current: Single,
    /// Half of the target current
    pub half_current: Single,
    /// What is left of the target current at the present time of the rampdown
    pub ramped_current: Single,
    pub theta: Single,
}

#[derive(Clone, Copy, Debug, PartialEq, Eq, Structural)]
pub struct OfflineMotorEstimator {
    pub state: OfflineEstimatorState,
    pub params: MotorParamsEstimate,
    pub config: OfflineEstimatorConfig,
    pub should_unwind_controller: bool,
}

impl OfflineEstimatorState {
    /// What is commanded in a state.
    pub open spec fn command(self, input: OfflineEstimatorInput) -> OfflineEstimatorCommand {
        match self {
            OfflineEstimatorState::RotorLockWait { .. } => OfflineEstimatorCommand {
                output: OfflineEstimatorOutput::CalibrationCurrent(
                    ClarkParkValue::on_d(input.target_current),
                ),
                theta: types::zero(),
            },
            OfflineEstimatorState::EstR { block, .. } => OfflineEstimatorCommand {
                output: OfflineEstimatorOutput::CalibrationCurrent(
                    ClarkParkValue::on_d(
                        if block % 2 == 0 {
                            input.target_current
                        } else {
                            input.half_current
                        },
                    ),
                ),
                theta: types::zero(),
            },
            OfflineEstimatorState::EstL { axis, positive, .. } => OfflineEstimatorCommand {
                output: OfflineEstimatorOutput::CalibrationVoltage(
                    axis.along(
                        if positive {
                            input.target_voltage
                        } else {
                            input.target_voltage.negated()
                        },
                    ),
                ),
                theta: types::zero(),
            },
            OfflineEstimatorState::EstF { theta, .. } => OfflineEstimatorCommand {
                output: OfflineEstimatorOutput::Current(ClarkParkValue::on_d(input.target_current)),
                theta,
            },
            OfflineEstimatorState::RampDown { theta, .. } => OfflineEstimatorCommand {
                output: OfflineEstimatorOutput::Current(ClarkParkValue::on_d(input.ramped_current)),
                theta,
            },
            _ => OfflineEstimatorCommand {
                output: OfflineEstimatorOutput::CalibrationCurrent(ClarkParkValue::none()),
                theta: types::zero(),
            },
        }
    }

    /// How far the estimation has come.
    pub open spec fn stage(self) -> int {
        match self {
            OfflineEstimatorState::Off => 0,
            OfflineEstimatorState::RotorLockWait { .. } => 1,
            OfflineEstimatorState::EstR { .. } => 2,
            OfflineEstimatorState::EstL { axis, .. } => if axis == Axis::D {
                3
            } else {
                4
            },
            OfflineEstimatorState::TuningRequired { .. } => 5,
            OfflineEstimatorState::EstF { .. } => 6,
            OfflineEstimatorState::RampDown { .. } => 7,
            OfflineEstimatorState::Done => 8,
            OfflineEstimatorState::Failure { .. } => 9,
        }
    }
}

impl OfflineMotorEstimator {
    /// An estimator that is switched off, of a motor with this number of pole pairs.
    pub open spec fn initially(config: OfflineEstimatorConfig, num_pole_pairs: u8) -> Self {
        OfflineMotorEstimator {
            state: OfflineEstimatorState::Off,
            params: MotorParamsEstimate {
                num_pole_pairs: Some(num_pole_pairs),
                ..MotorParamsEstimate::unknown()
            },
            config,
            should_unwind_controller: false,
        }
    }

    /// The estimator at the start of an estimation.
    pub open spec fn started(self, num_pole_pairs: u8) -> Self {
        OfflineMotorEstimator {
            state: OfflineEstimatorState::RotorLockWait { waited_s: types::zero() },
            params: MotorParamsEstimate { num_pole_pairs: Some(num_pole_pairs), ..self.params },
            config: self.config,
            should_unwind_controller: false,
        }
    }

    /// The estimator once the gains were tuned that it asked for.
    pub open spec fn tuned(self) -> Self {
        match self.state {
            OfflineEstimatorState::TuningRequired { resistance } => OfflineMotorEstimator {
                state: match (self.params.d_inductance, self.params.q_inductance) {
                    (Some(d_inductance), Some(q_inductance)) => OfflineEstimatorState::EstF {
                        ran_s: types::zero(),
                        theta: types::zero(),
                        omega: types::zero(),
                        resistance,
                        d_inductance,
                        q_inductance,
                        lse: Lse::empty(),
                    },
                    _ => OfflineEstimatorState::Failure {
                        fault: EstimationStepFault::MissingParameter,
                    },
                },
                ..self
            },
            _ => self,
        }
    }

    /// The estimator once the outcome of a tick was taken into account: `state` is what the tick
    /// made of its state, `result` what it gave.
    pub open spec fn with_outcome(
        self,
        state: OfflineEstimatorState,
        result: Result<Option<StepResult>, EstimationStepFault>,
    ) -> Self {
        match result {
            Err(fault) => OfflineMotorEstimator {
                state: OfflineEstimatorState::Failure { fault },
                should_unwind_controller: true,
                ..self
            },
            Ok(None) => OfflineMotorEstimator { state, ..self },
            Ok(Some(StepResult::Transition(next))) => OfflineMotorEstimator { state: next, ..self },
            Ok(Some(StepResult::EstimateR { resistance, inverter_voltage_error, next })) => {
                OfflineMotorEstimator {
                    state: next,
                    params: MotorParamsEstimate {
                        stator_resistance: Some(resistance),
                        inverter_voltage_error: Some(inverter_voltage_error),
                        ..self.params
                    },
                    should_unwind_controller: true,
                    ..self
                }
            },
            Ok(Some(StepResult::EstimateL { axis, inductance, next })) => OfflineMotorEstimator {
                state: next,
                params: match axis {
                    Axis::D => MotorParamsEstimate {
                        d_inductance: Some(inductance),
                        ..self.params
                    },
                    Axis::Q => MotorParamsEstimate {
                        q_inductance: Some(inductance),
                        ..self.params
                    },
                },
                ..self
            },
            Ok(Some(StepResult::EstimateF { next })) => OfflineMotorEstimator {
                state: next,
                ..self
            },
            Ok(Some(StepResult::RampDown { pm_flux_linkage })) => OfflineMotorEstimator {
                state: OfflineEstimatorState::Done,
                params: MotorParamsEstimate { pm_flux_linkage, ..self.params },
                should_unwind_controller: true,
                ..self
            },
        }
    }

    /// The state that a tick begins in: without pole pairs the estimation has failed.
    pub open spec fn tick_state(self) -> OfflineEstimatorState {
        if self.params.num_pole_pairs is None {
            OfflineEstimatorState::Failure { fault: EstimationStepFault::MissingParameter }
        } else {
            self.state
        }
    }

    /// The estimator after an iteration of the current controller.
    pub open spec fn iterated(self, data: FocResult, n: EstimationNumbers) -> Self {
        let (state, result) = self.tick_state().stepped(data, self.config, n);
        self.with_outcome(state, result)
    }

    /// Each test that was passed has left its parameters.
    pub open spec fn consistent(self) -> bool {
        let stage = self.state.stage();
        stage < 9 ==> {
            &&& self.params.num_pole_pairs is Some || stage == 0
            &&& stage >= 3 ==> self.params.stator_resistance is Some
            &&& stage >= 3 ==> self.params.inverter_voltage_error is Some
            &&& stage >= 4 ==> self.params.d_inductance is Some
            &&& stage >= 5 ==> self.params.q_inductance is Some
            &&& self.state matches OfflineEstimatorState::RampDown {
                pm_flux_linkage,
                pending_fault,
                ..
            } ==> (pm_flux_linkage is Some <==> pending_fault is None)
            &&& stage == 8 ==> self.params.pm_flux_linkage is Some
        }
    }

    pub fn new(config: OfflineEstimatorConfig, num_pole_pairs: u8) -> (estimator: Self)
        ensures
            estimator == Self::initially(config, num_pole_pairs),
    {
        let mut params = MotorParamsEstimate::new_empty();
        params.num_pole_pairs = Some(num_pole_pairs);
        OfflineMotorEstimator {
            state: OfflineEstimatorState::Off,
            params,
            config,
            should_unwind_controller: false,
        }
    }

    pub fn reset(&mut self)
        ensures
            *final(self) == (OfflineMotorEstimator {
                state: OfflineEstimatorState::Off,
                params: MotorParamsEstimate::unknown(),
                config: old(self).config,
                should_unwind_controller: false,
            }),
    {
        self.state = OfflineEstimatorState::Off;
        self.params = MotorParamsEstimate::new_empty();
        self.should_unwind_controller = false;
    }

    pub fn start(&mut self, num_pole_pairs: u8)
        ensures
            *final(self) == old(self).started(num_pole_pairs),
    {
        self.params.num_pole_pairs = Some(num_pole_pairs);
        self.state = OfflineEstimatorState::RotorLockWait { waited_s: Single { bits: ZERO } };
        self.should_unwind_controller = false;
    }

    /// Returns the command for the current state.
    pub fn get_command(&self, input: OfflineEstimatorInput) -> (command: OfflineEstimatorCommand)
        ensures
            command == self.state.command(input),
    {
        match self.state {
            OfflineEstimatorState::RotorLockWait { .. } => OfflineEstimatorCommand {
                output: OfflineEstimatorOutput::CalibrationCurrent(
                    ClarkParkValue::along_d(input.target_current),
                ),
                theta: Single::zero(),
            },
            OfflineEstimatorState::EstR { block, .. } => {
                let target = if block % 2 == 0 {
                    input.target_current
                } else {
                    input.half_current
                };
                OfflineEstimatorCommand {
                    output: OfflineEstimatorOutput::CalibrationCurrent(
                        ClarkParkValue::along_d(target),
                    ),
                    theta: Single::zero(),
                }
            },
            OfflineEstimatorState::EstL { axis, positive, .. } => {
                let voltage = if positive {
                    input.target_voltage
                } else {
                    input.target_voltage.neg()
                };
                OfflineEstimatorCommand {
                    output: OfflineEstimatorOutput::CalibrationVoltage(axis.vector(voltage)),
                    theta: Single::zero(),
                }
            },
            OfflineEstimatorState::EstF { theta, .. } => OfflineEstimatorCommand {
                output: OfflineEstimatorOutput::Current(
                    ClarkParkValue::along_d(input.target_current),
                ),
                theta,
            },
            OfflineEstimatorState::RampDown { theta, .. } => OfflineEstimatorCommand {
                output: OfflineEstimatorOutput::Current(
                    ClarkParkValue::along_d(input.ramped_current),
                ),
                theta,
            },
            _ => OfflineEstimatorCommand {
                output: OfflineEstimatorOutput::CalibrationCurrent(ClarkParkValue::zero()),
                theta: Single::zero(),
            },
        }
    }

    /// Whether the commanded currents are controlled by the slow controllers of a calibration: the
    /// flux test and its rampdown use the tuned ones.
    pub fn using_calibration_pi(&self) -> (uses: bool)
        ensures
            uses == !(self.state is EstF || self.state is RampDown),
    {
        match self.state {
            OfflineEstimatorState::EstF { .. } | OfflineEstimatorState::RampDown { .. } => false,
            _ => true,
        }
    }

    pub fn estimation_done(&self) -> (done: bool)
        ensures
            done == (self.state is Done),
    {
        match self.state {
            OfflineEstimatorState::Done => true,
            _ => false,
        }
    }

    pub fn estimation_failed(&self) -> (failed: bool)
        ensures
            failed == (self.state is Failure),
    {
        match self.state {
            OfflineEstimatorState::Failure { .. } => true,
            _ => false,
        }
    }

    pub fn should_unwind_controller(&self) -> (unwind: bool)
        ensures
            unwind == self.should_unwind_controller,
    {
        self.should_unwind_controller
    }

    pub fn should_tune_controller(&self) -> (tune: bool)
        ensures
            tune == (self.state is TuningRequired),
    {
        match self.state {
            OfflineEstimatorState::TuningRequired { .. } => true,
            _ => false,
        }
    }

    pub fn acknowledge_unwind_request(&mut self)
        ensures
            *final(self) == (OfflineMotorEstimator {
                should_unwind_controller: false,
                ..*old(self)
            }),
    {
        self.should_unwind_controller = false;
    }

    pub fn acknowledge_tuning_request(&mut self)
        ensures
            *final(self) == old(self).tuned(),
    {
        if let OfflineEstimatorState::TuningRequired { resistance } = self.state {
            self.state =
            match (self.params.d_inductance, self.params.q_inductance) {
                (Some(d_inductance), Some(q_inductance)) => OfflineEstimatorState::EstF {
                    ran_s: Single::zero(),
                    theta: Single::zero(),
                    omega: Single::zero(),
                    resistance,
                    d_inductance,
                    q_inductance,
                    lse: Lse::new(),
                },
                _ => OfflineEstimatorState::Failure {
                    fault: EstimationStepFault::MissingParameter,
                },
            };
        }
    }

    pub fn get_fault(&self) -> (fault: Option<EstimationStepFault>)
        ensures
            fault == match self.state {
                OfflineEstimatorState::Failure { fault } => Some(fault),
                _ => None,
            },
    {
        match self.state {
            OfflineEstimatorState::Failure { fault } => Some(fault),
            _ => None,
        }
    }

    /// Takes the result of an iteration of the current controller into account.
    pub fn after_foc_iteration(&mut self, data: &FocResult, n: &EstimationNumbers)
        requires
            old(self).state.can_count(),
        ensures
            *final(self) == old(self).iterated(*data, *n),
    {
        if self.params.num_pole_pairs.is_none() {
            self.state =
            OfflineEstimatorState::Failure { fault: EstimationStepFault::MissingParameter };
        }
        let mut state = self.state;
        let config = self.config;
        match state.step(data, &config, n) {
            Err(fault) => {
                self.state = OfflineEstimatorState::Failure { fault };
                self.should_unwind_controller = true;
            },
            Ok(Some(result)) => match result {
                StepResult::Transition(next) => {
                    self.state = next;
                },
                StepResult::EstimateR { resistance, inverter_voltage_error, next } => {
                    self.params.stator_resistance = Some(resistance);
                    self.params.inverter_voltage_error = Some(inverter_voltage_error);
                    self.state = next;
                    self.should_unwind_controller = true;
                },
                StepResult::EstimateL { axis, inductance, next } => {
                    match axis {
                        Axis::D => {
                            self.params.d_inductance = Some(inductance);
                        },
                        Axis::Q => {
                            self.params.q_inductance = Some(inductance);
                        },
                    }
                    self.state = next;
                },
                StepResult::EstimateF { next } => {
                    self.state = next;
                },
                StepResult::RampDown { pm_flux_linkage } => {
                    self.params.pm_flux_linkage = pm_flux_linkage;
                    self.state = OfflineEstimatorState::Done;
                    self.should_unwind_controller = true;
                },
            },
            Ok(None) => {
                self.state = state;
            },
        }
    }

    pub fn get_estimate(&self) -> (estimate: MotorParamsEstimate)
        ensures
            estimate == self.params,
    {
        self.params
    }
}

/// The tests run in order: an iteration leaves the stage as it is, goes on to the next one, or
/// ends in failure. The tuning stage is left by acknowledgement alone.
pub proof fn law_tests_run_in_order(
    estimator: OfflineMotorEstimator,
    data: FocResult,
    n: EstimationNumbers,
)
    requires
        estimator.params.num_pole_pairs is Some,
    ensures
        ({
            let before = estimator.state.stage();
            let after = estimator.iterated(data, n).state.stage();
            &&& after == before || after == before + 1 || after == 9
            &&& before == 0 || before == 5 || before == 8 || before == 9 ==> after == before
        }),
{
}

/// A new, started, tuned or iterated estimator has the parameters of every test that was passed.
pub proof fn law_passed_tests_leave_their_parameters(
    estimator: OfflineMotorEstimator,
    config: OfflineEstimatorConfig,
    num_pole_pairs: u8,
    data: FocResult,
    n: EstimationNumbers,
)
    requires
        estimator.consistent(),
    ensures
        OfflineMotorEstimator::initially(config, num_pole_pairs).consistent(),
        estimator.started(num_pole_pairs).consistent(),
        estimator.tuned().consistent(),
        estimator.iterated(data, n).consistent(),
{
}

/// An estimation that is done knows every parameter.
pub proof fn law_finished_estimation_is_complete(estimator: OfflineMotorEstimator)
    requires
        estimator.consistent(),
        estimator.state is Done,
    ensures
        estimator.params.num_pole_pairs is Some,
        estimator.params.stator_resistance is Some,
        estimator.params.inverter_voltage_error is Some,
        estimator.params.d_inductance is Some,
        estimator.params.q_inductance is Some,
        estimator.params.pm_flux_linkage is Some,
{
}

/// An iteration that fails the estimation asks for the controller to be unwound, and a failed
/// estimation commands no current.
pub proof fn law_failure_unwinds_and_commands_nothing(
    estimator: OfflineMotorEstimator,
    data: FocResult,
    n: EstimationNumbers,
    input: OfflineEstimatorInput,
)
    requires
        estimator.params.num_pole_pairs is Some,
        !(estimator.state is Failure),
        estimator.iterated(data, n).state is Failure,
    ensures
        estimator.iterated(data, n).should_unwind_controller,
        estimator.iterated(data, n).state.command(input).output
            == OfflineEstimatorOutput::CalibrationCurrent(ClarkParkValue::none()),
{
}

/// Every parameter that an iteration leaves is the one that its test solved, in its own place, and
/// no other parameter changes.
pub proof fn law_parameters_come_from_their_tests(
    estimator: OfflineMotorEstimator,
    data: FocResult,
    n: EstimationNumbers,
)
    requires
        estimator.params.num_pole_pairs is Some,
    ensures
        ({
            let before = estimator.params;
            let after = estimator.iterated(data, n).params;
            let next = estimator.iterated(data, n).state;
            &&& after.num_pole_pairs == before.num_pole_pairs
            &&& after.stator_resistance == before.stator_resistance || (estimator.state is EstR
                && after.stator_resistance == Some(n.resistance))
            &&& after.inverter_voltage_error == before.inverter_voltage_error || (estimator.state
                is EstR && after.inverter_voltage_error == Some(n.inverter_voltage_error))
            &&& after.d_inductance == before.d_inductance || (estimator.state is EstL
                && estimator.state->axis == Axis::D && after.d_inductance == Some(n.inductance))
            &&& after.q_inductance == before.q_inductance || (estimator.state is EstL
                && estimator.state->axis == Axis::Q && after.q_inductance == Some(n.inductance))
            &&& after.pm_flux_linkage == before.pm_flux_linkage || (estimator.state is RampDown
                && after.pm_flux_linkage == estimator.state->RampDown_pm_flux_linkage)
            &&& estimator.state is EstR && next is EstL ==> after.stator_resistance == Some(
                n.resistance,
            ) && after.inverter_voltage_error == Some(n.inverter_voltage_error)
            &&& estimator.state is EstL && estimator.state->axis == Axis::D && next is EstL
                && next->axis == Axis::Q ==> after.d_inductance == Some(n.inductance)
            &&& estimator.state is EstL && estimator.state->axis == Axis::Q && next
                is TuningRequired ==> after.q_inductance == Some(n.inductance)
            &&& estimator.state is RampDown && next is Done ==> after.pm_flux_linkage
                == estimator.state->RampDown_pm_flux_linkage
            &&& estimator.state is EstF && next is RampDown && next->pending_fault is None
                ==> next->RampDown_pm_flux_linkage == Some(n.flux_linkage)
            &&& estimator.iterated(data, n).config == estimator.config
        }),
{
}

/// The resistance that is solved is the one that the later tests go by, and so are the inductances.
pub proof fn law_later_tests_go_by_what_was_found(
    estimator: OfflineMotorEstimator,
    data: FocResult,
    n: EstimationNumbers,
)
    requires
        estimator.params.num_pole_pairs is Some,
    ensures
        ({
            let next = estimator.iterated(data, n).state;
            &&& estimator.state is EstR && next is EstL ==> next->EstL_resistance == n.resistance
                && next->axis == Axis::D && next->prev_i == data.measured_i_dq.d
            &&& estimator.state is EstL && next is EstL ==> next->EstL_resistance
                == estimator.state->EstL_resistance
            &&& next is EstL && next->axis == Axis::D ==> next->prev_i == data.measured_i_dq.d
            &&& next is EstL && next->axis == Axis::Q && estimator.state is EstL ==> next->prev_i
                == data.measured_i_dq.q || n.test_voltage_v.less(n.needed_voltage_v)
            &&& estimator.state is EstL && next is TuningRequired ==> next->TuningRequired_resistance
                == estimator.state->EstL_resistance
            &&& estimator.state is EstF && next is EstF ==> {
                &&& next->EstF_resistance == estimator.state->EstF_resistance
                &&& next->EstF_d_inductance == estimator.state->EstF_d_inductance
                &&& next->EstF_q_inductance == estimator.state->EstF_q_inductance
                &&& next->EstF_theta == n.next_theta
                &&& next->EstF_ran_s == n.elapsed_s
            }
        }),
        ({
            let tuned = estimator.tuned();
            &&& estimator.state is TuningRequired && estimator.params.d_inductance is Some
                && estimator.params.q_inductance is Some ==> {
                &&& tuned.state is EstF
                &&& Some(tuned.state->EstF_d_inductance) == estimator.params.d_inductance
                &&& Some(tuned.state->EstF_q_inductance) == estimator.params.q_inductance
                &&& tuned.state->EstF_resistance == estimator.state->TuningRequired_resistance
                &&& tuned.state->EstF_ran_s.bits == 0 && tuned.state->EstF_theta.bits == 0
                    && tuned.state->EstF_omega.bits == 0
            }
            &&& estimator.state is TuningRequired && (estimator.params.d_inductance is None
                || estimator.params.q_inductance is None) ==> tuned.state
                == (OfflineEstimatorState::Failure { fault: EstimationStepFault::MissingParameter })
            &&& !(estimator.state is TuningRequired) ==> tuned == estimator
            &&& tuned.params == estimator.params
        }),
{
}

/// The resistance test alternates between the levels: samples of even blocks go to the high level
/// and those of odd blocks to the low one, only once the level of the block was reached.
pub proof fn law_resistance_samples_go_to_their_level(
    block: u32,
    block_ran_s: Single,
    target_reached: bool,
    high: Mean,
    low: Mean,
    data: FocResult,
    config: OfflineEstimatorConfig,
    n: EstimationNumbers,
)
    requires
        high.num_data < u32::MAX && low.num_data < u32::MAX && block < u32::MAX,
    ensures
        ({
            let (next, result) = (OfflineEstimatorState::EstR {
                block,
                block_ran_s,
                target_reached,
                high,
                low,
            }).stepped(data, config, n);
            &&& next is EstR
            &&& !target_reached ==> next->high == high && next->low == low && next->block == block
            &&& target_reached && block % 2 == 0 ==> {
                &&& next->high.num_data == high.num_data + 1
                &&& next->high.x_sum == n.level_i_sum && next->high.y_sum == n.level_u_sum
                &&& next->low == low
            }
            &&& target_reached && block % 2 == 1 ==> {
                &&& next->low.num_data == low.num_data + 1
                &&& next->low.x_sum == n.level_i_sum && next->low.y_sum == n.level_u_sum
                &&& next->high == high
            }
            &&& next->block == if target_reached && !n.elapsed_s.less(n.block_time_s) {
                block + 1
            } else {
                block as int
            }
            &&& !target_reached ==> (next->target_reached <==> n.error_ratio.less_or_equal(
                Single { bits: 0x3D4C_CCCD },
            ))
            &&& next->block == block + 1 ==> !next->target_reached && next->block_ran_s.bits == 0
            &&& result == Err::<Option<StepResult>, _>(
                EstimationStepFault::TargetCurrentUnreachable,
            ) <==> !target_reached && !next->target_reached && config.test_time_s.less_or_equal(
                n.elapsed_s,
            )
            &&& result is Ok && result->Ok_0 is Some ==> {
                &&& next->block >= 4
                &&& next->high.num_data >= 1000 && next->low.num_data >= 1000
                &&& !n.resistance.less_or_equal(types::zero())
                &&& !n.delta_i.absolute().less(Single { bits: 0x3A83_126F })
            }
            &&& next->block < 4 && target_reached ==> result == Ok::<_, EstimationStepFault>(
                None::<StepResult>,
            )
            &&& !target_reached && next->target_reached ==> next->block_ran_s.bits == 0
            &&& !target_reached && !next->target_reached ==> next->block_ran_s == n.elapsed_s
            &&& target_reached && next->block == block ==> next->block_ran_s == n.elapsed_s
                && next->target_reached
            &&& next->block == block + 1 && next->block >= 4 ==> {
                let few = next->high.num_data < 1000 || next->low.num_data < 1000;
                let flat = n.delta_i.absolute().less(Single { bits: 0x3A83_126F });
                let bad = n.resistance.less_or_equal(types::zero());
                &&& few <==> result == Err::<Option<StepResult>, _>(
                    EstimationStepFault::InsufficientSamples,
                )
                &&& !few && flat <==> result == Err::<Option<StepResult>, _>(
                    EstimationStepFault::DegenSolution,
                )
                &&& !few && !flat && bad <==> result == Err::<Option<StepResult>, _>(
                    EstimationStepFault::ParameterOutOfBounds,
                )
                &&& !few && !flat && !bad ==> result is Ok && result->Ok_0 is Some
            }
        }),
{
}

/// The voltage of an inductance test changes its sign exactly when the current has reached its
/// target, and every change is counted. A sample is recorded only away from the peaks of the
/// current.
pub proof fn law_inductance_test_is_a_square_wave(
    state: OfflineEstimatorState,
    data: FocResult,
    config: OfflineEstimatorConfig,
    n: EstimationNumbers,
)
    requires
        state is EstL,
        state.can_count(),
        !n.test_voltage_v.less(n.needed_voltage_v),
    ensures
        ({
            let (next, result) = state.stepped(data, config, n);
            let given_up = n.give_up_s.less_or_equal(n.elapsed_s);
            let reached = !n.predicted_i.less(n.target_current_a);
            let flips = reached && !given_up;
            &&& next is EstL
            &&& next->axis == state->axis
            &&& next->positive != state->positive <==> flips
            &&& next->sign_flips == state->sign_flips + if flips {
                1int
            } else {
                0
            }
            &&& next->late_half == Some(state->positive)
            &&& next->early_half == state->late_half
            &&& next->EstL_ran_s == n.elapsed_s
            &&& given_up ==> result == Err::<Option<StepResult>, _>(
                EstimationStepFault::InsufficientSamples,
            )
            &&& !given_up && !reached ==> result == Ok::<_, EstimationStepFault>(
                None::<StepResult>,
            )
            &&& next->EstL_lse != state->EstL_lse ==> state->sign_flips > 0 && state->early_half
                == state->late_half && state->early_half is Some
            &&& result is Ok && result->Ok_0 is Some ==> {
                &&& flips
                &&& next->sign_flips >= 3 && next->sign_flips % 2 == 1
                &&& config.test_time_s.less_or_equal(n.elapsed_s)
                &&& next->EstL_lse.num_data >= 1000 && !next->EstL_lse.overflow
                &&& !n.inductance.less_or_equal(types::zero())
            }
        }),
{
}

/// A sample counts where its sums are finite, and marks the accumulator else. Nothing is solved
/// from a marked accumulator, from too few samples, or without excitation.
pub proof fn law_only_sound_samples_count(lse: Lse, xy_sum: Single, xx_sum: Single, min_data: u32)
    requires
        lse.num_data < u32::MAX,
    ensures
        ({
            let next = lse.with_sample(xy_sum, xx_sum);
            let sound = xy_sum.finite() && xx_sum.finite();
            &&& sound ==> next.num_data == lse.num_data + 1 && next.xy_sum == xy_sum && next.xx_sum
                == xx_sum && next.overflow == lse.overflow
            &&& !sound ==> next.num_data == lse.num_data && next.xy_sum == lse.xy_sum
                && next.xx_sum == lse.xx_sum && next.overflow
            &&& lse.overflow ==> next.overflow
        }),
        lse.obstacle(min_data) is None <==> !lse.overflow && lse.num_data >= min_data && (Single {
            bits: 0x2B8C_BCCC,
        }).less(lse.xx_sum),
        lse.overflow ==> lse.obstacle(min_data) == Some(EstimationStepFault::Overflow),
        !lse.overflow && lse.num_data < min_data ==> lse.obstacle(min_data) == Some(
            EstimationStepFault::InsufficientSamples,
        ),
        !lse.overflow && lse.num_data >= min_data && lse.obstacle(min_data) is Some
            ==> lse.obstacle(min_data) == Some(EstimationStepFault::DegenSolution),
{
}

/// The flux test speeds up first and records at constant speed afterwards. What it found is kept
/// through the rampdown, which is driven at the speed that was reached.
pub proof fn law_flux_is_recorded_at_constant_speed(
    state: OfflineEstimatorState,
    data: FocResult,
    config: OfflineEstimatorConfig,
    n: EstimationNumbers,
)
    requires
        state is EstF || state is RampDown,
        state.can_count(),
    ensures
        ({
            let (next, result) = state.stepped(data, config, n);
            &&& state is EstF ==> {
                let speeding_up = state->EstF_ran_s.less(config.max_spin_time_s);
                &&& next is EstF
                &&& speeding_up ==> next->EstF_omega == n.spin_up_omega && next->EstF_lse
                    == state->EstF_lse
                &&& !speeding_up ==> next->EstF_omega == state->EstF_omega && next->EstF_lse
                    == state->EstF_lse.with_sample(n.xy_sum, n.xx_sum)
                &&& !n.spin_end_s.less_or_equal(n.elapsed_s) <==> result == Ok::<
                    _,
                    EstimationStepFault,
                >(None::<StepResult>)
                &&& result matches Ok(Some(StepResult::EstimateF { next: rampdown })) ==> {
                    &&& rampdown is RampDown
                    &&& rampdown->RampDown_omega == next->EstF_omega
                    &&& rampdown->RampDown_theta == n.next_theta
                    &&& rampdown->RampDown_ran_s.bits == 0
                    &&& rampdown->ramp_duration_s == config.test_time_s
                    &&& rampdown->RampDown_pm_flux_linkage is Some ==> {
                        &&& rampdown->RampDown_pm_flux_linkage == Some(n.flux_linkage)
                        &&& !n.flux_linkage.less_or_equal(types::zero())
                        &&& next->EstF_lse.num_data >= 1000
                    }
                }
            }
            &&& state is RampDown ==> {
                &&& next is RampDown
                &&& next->RampDown_omega == state->RampDown_omega
                &&& next->RampDown_theta == n.next_theta
                &&& next->RampDown_ran_s == n.elapsed_s
                &&& next->RampDown_pm_flux_linkage == state->RampDown_pm_flux_linkage
                &&& next->pending_fault == state->pending_fault
                &&& !state->ramp_duration_s.less_or_equal(n.elapsed_s) <==> result == Ok::<
                    _,
                    EstimationStepFault,
                >(None::<StepResult>)
                &&& state->ramp_duration_s.less_or_equal(n.elapsed_s) && state->pending_fault
                    is Some ==> result == Err::<Option<StepResult>, _>(state->pending_fault->0)
            }
        }),
{
}

/// What is commanded: the target current along d while the rotor locks and turns, the levels of the
/// resistance test in turn, the test voltage with its sign along the axis of an inductance test,
/// and what the rampdown leaves. Everything but the turning rotor is commanded at a zero angle.
pub proof fn law_tests_command_their_excitation(
    state: OfflineEstimatorState,
    input: OfflineEstimatorInput,
)
    ensures
        ({
            let command = state.command(input);
            &&& state is RotorLockWait ==> command.output
                == OfflineEstimatorOutput::CalibrationCurrent(
                ClarkParkValue { d: input.target_current, q: types::zero() },
            )
            &&& state is EstR && state->block % 2 == 0 ==> command.output
                == OfflineEstimatorOutput::CalibrationCurrent(
                ClarkParkValue { d: input.target_current, q: types::zero() },
            )
            &&& state is EstR && state->block % 2 == 1 ==> command.output
                == OfflineEstimatorOutput::CalibrationCurrent(
                ClarkParkValue { d: input.half_current, q: types::zero() },
            )
            &&& state is EstL ==> {
                &&& command.output matches OfflineEstimatorOutput::CalibrationVoltage(u_dq)
                &&& state->axis == Axis::D ==> u_dq.q.bits == 0 && u_dq.d == if state->positive {
                    input.target_voltage
                } else {
                    input.target_voltage.negated()
                }
                &&& state->axis == Axis::Q ==> u_dq.d.bits == 0 && u_dq.q == if state->positive {
                    input.target_voltage
                } else {
                    input.target_voltage.negated()
                }
            }
            &&& state is EstF ==> command.output == OfflineEstimatorOutput::Current(
                ClarkParkValue { d: input.target_current, q: types::zero() },
            ) && command.theta == state->EstF_theta
            &&& state is RampDown ==> command.output == OfflineEstimatorOutput::Current(
                ClarkParkValue { d: input.ramped_current, q: types::zero() },
            ) && command.theta == state->RampDown_theta
            &&& !(state is EstF) && !(state is RampDown) ==> command.theta.bits == 0
            &&& state is Off || state is TuningRequired || state is Done || state is Failure
                ==> command.output == OfflineEstimatorOutput::CalibrationCurrent(
                ClarkParkValue { d: types::zero(), q: types::zero() },
            )
        }),
{
}

/// An estimation starts with the rotor lock and the given pole pairs, keeps what was known, and
/// asks for no unwinding. Failures keep their fault and every parameter.
pub proof fn law_estimation_starts_with_the_rotor_lock(
    estimator: OfflineMotorEstimator,
    config: OfflineEstimatorConfig,
    num_pole_pairs: u8,
    data: FocResult,
    n: EstimationNumbers,
)
    ensures
        ({
            let started = estimator.started(num_pole_pairs);
            &&& started.state matches OfflineEstimatorState::RotorLockWait { waited_s }
            &&& waited_s.bits == 0
            &&& started.params.num_pole_pairs == Some(num_pole_pairs)
            &&& started.params.stator_resistance == estimator.params.stator_resistance
            &&& started.params.d_inductance == estimator.params.d_inductance
            &&& started.params.q_inductance == estimator.params.q_inductance
            &&& started.config == estimator.config
            &&& !started.should_unwind_controller
        }),
        ({
            let fresh = OfflineMotorEstimator::initially(config, num_pole_pairs);
            &&& fresh.params.num_pole_pairs == Some(num_pole_pairs)
            &&& fresh.params.stator_resistance is None && fresh.params.d_inductance is None
                && fresh.params.q_inductance is None && fresh.params.pm_flux_linkage is None
                && fresh.params.inverter_voltage_error is None
            &&& fresh.state is Off && !fresh.should_unwind_controller && fresh.config == config
        }),
        estimator.state is RotorLockWait && estimator.params.num_pole_pairs is Some ==> {
            let next = estimator.iterated(data, n).state;
            &&& estimator.config.settle_time_s.less_or_equal(n.elapsed_s) <==> next is EstR
            &&& next is EstR ==> next->block == 0 && !next->target_reached && next->high.num_data
                == 0 && next->low.num_data == 0
            &&& !(next is EstR) ==> next == (OfflineEstimatorState::RotorLockWait {
                waited_s: n.elapsed_s,
            })
        },
        estimator.iterated(data, n).state is Failure ==> estimator.iterated(data, n).params
            == estimator.params,
{
}

/// An inductance test begins with a positive voltage, nothing counted and nothing recorded, and the
/// one of the other axis begins so as well.
pub proof fn law_inductance_tests_begin_alike(
    estimator: OfflineMotorEstimator,
    data: FocResult,
    n: EstimationNumbers,
)
    requires
        estimator.params.num_pole_pairs is Some,
        estimator.state is EstR || (estimator.state is EstL && estimator.state->axis == Axis::D
            && estimator.iterated(data, n).state is EstL && estimator.iterated(data, n).state->axis
            == Axis::Q),
        estimator.iterated(data, n).state is EstL,
    ensures
        ({
            let next = estimator.iterated(data, n).state;
            &&& next->positive
            &&& next->sign_flips == 0
            &&& next->early_half is None && next->late_half is None
            &&& next->EstL_ran_s.bits == 0
            &&& next->EstL_lse.num_data == 0 && !next->EstL_lse.overflow
            &&& next->EstL_lse.xy_sum.bits == 0 && next->EstL_lse.xx_sum.bits == 0
            &&& estimator.state is EstR ==> next->axis == Axis::D && next->prev_i
                == data.measured_i_dq.d
            &&& estimator.state is EstL ==> next->axis == Axis::Q && next->prev_i
                == data.measured_i_dq.q
        }),
{
}

/// Why an inductance test fails: the voltage does not suffice, the time is over, or at its end too
/// little was recorded or the inductance is none that a motor has.
pub proof fn law_inductance_tests_fail_for_a_reason(
    state: OfflineEstimatorState,
    data: FocResult,
    config: OfflineEstimatorConfig,
    n: EstimationNumbers,
)
    requires
        state is EstL,
        state.can_count(),
    ensures
        ({
            let (next, result) = state.stepped(data, config, n);
            let unreachable = n.test_voltage_v.less(n.needed_voltage_v);
            let given_up = n.give_up_s.less_or_equal(n.elapsed_s);
            let ends = !n.predicted_i.less(n.target_current_a) && config.test_time_s.less_or_equal(
                n.elapsed_s,
            ) && state->sign_flips >= 2 && state->sign_flips % 2 == 0;
            let lse = next->EstL_lse;
            &&& unreachable <==> result == Err::<Option<StepResult>, _>(
                EstimationStepFault::TargetCurrentUnreachable,
            )
            &&& unreachable ==> next == state
            &&& !unreachable && !given_up && !ends ==> result == Ok::<_, EstimationStepFault>(
                None::<StepResult>,
            )
            &&& !unreachable && !given_up && ends ==> {
                &&& lse.overflow <==> result == Err::<Option<StepResult>, _>(
                    EstimationStepFault::Overflow,
                )
                &&& !lse.overflow && lse.num_data < 1000 <==> result == Err::<
                    Option<StepResult>,
                    _,
                >(EstimationStepFault::InsufficientSamples)
                &&& lse.obstacle(1000) is None && n.inductance.less_or_equal(types::zero())
                    <==> result == Err::<Option<StepResult>, _>(
                    EstimationStepFault::ParameterOutOfBounds,
                )
                &&& lse.obstacle(1000) is None && !n.inductance.less_or_equal(types::zero())
                    ==> result is Ok && result->Ok_0 is Some
            }
            &&& !unreachable && state->sign_flips > 0 && state->early_half is Some
                && state->early_half == state->late_half ==> lse == state->EstL_lse.with_sample(
                n.xy_sum,
                n.xx_sum,
            )
        }),
{
}

/// The controller is to be unwound behind the resistance test, behind the rampdown and behind a
/// failure, where its integral is of no use any more. No other iteration asks for it.
pub proof fn law_unwinding_follows_the_slow_tests(
    estimator: OfflineMotorEstimator,
    data: FocResult,
    n: EstimationNumbers,
)
    requires
        estimator.params.num_pole_pairs is Some,
        !estimator.should_unwind_controller,
    ensures
        ({
            let after = estimator.iterated(data, n);
            after.should_unwind_controller <==> (after.state is Failure && !(estimator.state
                is Failure)) || (estimator.state is EstR && after.state is EstL) || (estimator.state
                is RampDown && after.state is Done)
        }),
{
}

/// The fault of the flux test is told behind the rampdown: what the recording lacked is kept, and
/// only a flux linkage that no motor has fails at once.
pub proof fn law_flux_faults_wait_for_the_rampdown(
    state: OfflineEstimatorState,
    data: FocResult,
    config: OfflineEstimatorConfig,
    n: EstimationNumbers,
)
    requires
        state is EstF,
        state.can_count(),
        n.spin_end_s.less_or_equal(n.elapsed_s),
    ensures
        ({
            let (next, result) = state.stepped(data, config, n);
            let obstacle = next->EstF_lse.obstacle(1000);
            &&& obstacle is Some ==> {
                &&& result matches Ok(Some(StepResult::EstimateF { next: rampdown }))
                &&& rampdown is RampDown
                &&& rampdown->pending_fault == obstacle
                &&& rampdown->RampDown_pm_flux_linkage is None
            }
            &&& obstacle is None && n.flux_linkage.less_or_equal(types::zero()) ==> result == Err::<
                Option<StepResult>,
                _,
            >(EstimationStepFault::ParameterOutOfBounds)
            &&& obstacle is None && !n.flux_linkage.less_or_equal(types::zero()) ==> {
                &&& result matches Ok(Some(StepResult::EstimateF { next: rampdown }))
                &&& rampdown is RampDown
                &&& rampdown->pending_fault is None
                &&& rampdown->RampDown_pm_flux_linkage == Some(n.flux_linkage)
            }
        }),
{
}

} // verus!
