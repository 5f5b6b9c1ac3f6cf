//! Quantities of field oriented control.

use vstd::prelude::*;

use crate::single::{Single, ZERO};

verus! {

#[derive(Clone, Copy, Debug, PartialEq, Eq, Structural)]
pub enum AngleType {
    Mechanical,
    Electrical,
}

#[derive(Clone, Copy, Debug, PartialEq, Eq, Structural)]
pub enum RotorFeedbackFault {
    NotCalibrated,
    MissingParameter,
    NoFeedback,
    ErroneousValue,
    Unobservable,
}

#[derive(Clone, Copy, Debug, PartialEq, Eq, Structural)]
pub struct RotorFeedback {
    pub angle_type: AngleType,
    pub theta: Single,
    pub omega: Single,
}

/// Rotor angle of each Hall edge, by the pattern that is entered
pub type HallCalibration = [Single; 6];

#[derive(Clone, Copy, Debug, PartialEq, Eq, Structural)]
pub struct SinCosResult {
    pub sin: Single,
    pub cos: Single,
}

#[derive(Clone, Copy, Debug, PartialEq, Eq, Structural)]
pub struct AlphaBeta {
    pub alpha: Single,
    pub beta: Single,
}

#[derive(Clone, Copy, Debug, PartialEq, Eq, Structural)]
pub struct ClarkParkValue {
    pub d: Single,
    pub q: Single,
}

#[derive(Clone, Copy, Debug, PartialEq, Eq, Structural)]
pub struct PhaseValues {
    pub u: Single,
    pub v: Single,
    pub w: Single,
}

/// The number zero.
pub open spec fn zero() -> Single {
    Single { bits: ZERO }
}

impl ClarkParkValue {
    /// Zero on both axes.
    pub open spec fn none() -> ClarkParkValue {
        ClarkParkValue { d: zero(), q: zero() }
    }

    /// A value on the d axis alone.
    pub open spec fn on_d(d: Single) -> ClarkParkValue {
        ClarkParkValue { d, q: zero() }
    }

    pub fn zero() -> (value: ClarkParkValue)
        ensures
            value == ClarkParkValue::none(),
    {
        ClarkParkValue { d: Single::zero(), q: Single::zero() }
    }

    /// A value on the d axis alone.
    pub fn along_d(d: Single) -> (value: ClarkParkValue)
        ensures
            value == ClarkParkValue::on_d(d),
    {
        ClarkParkValue { d, q: Single::zero() }
    }
}

impl PhaseValues {
    pub fn zero() -> (values: PhaseValues)
        ensures
            values == (PhaseValues { u: zero(), v: zero(), w: zero() }),
    {
        PhaseValues { u: Single::zero(), v: Single::zero(), w: Single::zero() }
    }
}

#[derive(Clone, Copy, Debug, PartialEq, Eq, Structural)]
pub enum FocInputType {
    /// Raw voltage command without any compensation
    RawVoltages(ClarkParkValue),
    /// Raw voltage command which gets directly converted to duty cycles
    CalibrationVoltage(ClarkParkValue),
    /// Command for calibration use, uses separate slow PI controllers, and has no feedforward compensation
    CalibrationCurrents(ClarkParkValue),
    /// Command for estimation use, uses the normal fast PI controllers, but bypasses back-emf feedforward compensation
    TargetCurrents(ClarkParkValue),
    /// Torque command for normal use, in Nm
    TargetTorque(Single),
}

#[derive(Clone, Copy, Debug, PartialEq, Eq, Structural)]
pub struct HfiParams {
    /// 0 for no injection
    pub amplitude_v: Single,
    pub injection_frequency_hz: Single,
    pub disable_threshold_omega_rads: Single,
}

impl HfiParams {
    pub fn none() -> (params: Self)
        ensures
            params == (HfiParams {
                amplitude_v: zero(),
                injection_frequency_hz: zero(),
                disable_threshold_omega_rads: zero(),
            }),
    {
        HfiParams {
            amplitude_v: Single::zero(),
            injection_frequency_hz: Single::zero(),
            disable_threshold_omega_rads: Single::zero(),
        }
    }
}

#[derive(Clone, Copy, Debug, PartialEq, Eq, Structural)]
pub struct FocInput {
    pub command: FocInputType,
    pub dc_bus_voltage_v: Single,
    pub angle_type: AngleType,
    pub theta: Single,
    pub omega: Single,
    pub phase_currents: PhaseValues,
    pub current_limit_a: Single,
    pub hfi_params: HfiParams,
}

#[derive(Clone, Copy, Debug, PartialEq, Eq, Structural)]
pub enum FocFault {
    MissingMotorParams,
    MissingControllerGains,
    InvalidParameter,
    NumericalError,
}

#[derive(Clone, Copy, Debug, PartialEq, Eq, Structural)]
pub struct FocResult {
    pub theta_e: Single,
    pub omega_e: Single,
    pub duty_cycles: PhaseValues,
    pub voltage_hexagon_sector: u8,
    pub measured_i_ab: AlphaBeta,
    pub measured_i_dq: ClarkParkValue,
    pub target_i_dq: ClarkParkValue,
    /// Applied voltage, HFI included
    pub u_dq: ClarkParkValue,
    /// Applied voltage, HFI included
    pub u_ab: AlphaBeta,
    pub u_injected: ClarkParkValue,
}

impl FocResult {
    /// Every number is zero.
    pub open spec fn nothing() -> FocResult {
        FocResult {
            theta_e: zero(),
            omega_e: zero(),
            duty_cycles: PhaseValues { u: zero(), v: zero(), w: zero() },
            voltage_hexagon_sector: 0,
            measured_i_ab: AlphaBeta { alpha: zero(), beta: zero() },
            measured_i_dq: ClarkParkValue::none(),
            target_i_dq: ClarkParkValue::none(),
            u_dq: ClarkParkValue::none(),
            u_ab: AlphaBeta { alpha: zero(), beta: zero() },
            u_injected: ClarkParkValue::none(),
        }
    }

    pub fn none() -> (result: Self)
        ensures
            result == FocResult::nothing(),
    {
        FocResult {
            theta_e: Single::zero(),
            omega_e: Single::zero(),
            duty_cycles: PhaseValues::zero(),
            voltage_hexagon_sector: 0,
            measured_i_ab: AlphaBeta { alpha: Single::zero(), beta: Single::zero() },
            measured_i_dq: ClarkParkValue::zero(),
            target_i_dq: ClarkParkValue::zero(),
            u_dq: ClarkParkValue::zero(),
            u_ab: AlphaBeta { alpha: Single::zero(), beta: Single::zero() },
            u_injected: ClarkParkValue::zero(),
        }
    }
}

/// What is known of a motor.
#[derive(Clone, Copy, Debug, PartialEq, Eq, Structural)]
pub struct MotorParamsEstimate {
    pub num_pole_pairs: Option<u8>,
    pub stator_resistance: Option<Single>,
    pub d_inductance: Option<Single>,
    pub q_inductance: Option<Single>,
    pub pm_flux_linkage: Option<Single>,
    pub inverter_voltage_error: Option<Single>,
}

impl MotorParamsEstimate {
    /// Nothing is known.
    pub open spec fn unknown() -> MotorParamsEstimate {
        MotorParamsEstimate {
            num_pole_pairs: None,
            stator_resistance: None,
            d_inductance: None,
            q_inductance: None,
            pm_flux_linkage: None,
            inverter_voltage_error: None,
        }
    }

    pub fn new_empty() -> (estimate: Self)
        ensures
            estimate == MotorParamsEstimate::unknown(),
    {
        MotorParamsEstimate {
            num_pole_pairs: None,
            stator_resistance: None,
            d_inductance: None,
            q_inductance: None,
            pm_flux_linkage: None,
            inverter_voltage_error: None,
        }
    }
}

/// Why the polarity of the rotor could not be told.
#[derive(Clone, Copy, Debug, PartialEq, Eq, Structural)]
pub enum PolarityTestFault {
    /// The tracking PLL did not lock onto the d-axis within the test timeout
    ConvergenceTimeout,
    /// The PLL locked, but the test itself reached no verdict within the timeout
    TestTimeout,
    Inconclusive,
    MissingParameter,
}

/// Why the gains of a current controller could not be tuned.
#[derive(Clone, Copy, Debug, PartialEq, Eq, Structural)]
pub enum PITuningFault {
    MissingMotorParameters,
    InfeasibleMotorParameters,
    InvalidTuningGoals,
    Unstable,
    NotRobust,
}

/// The values that stand for nothing: zeros on every axis and phase, and no known parameter. A value on
/// the d axis has nothing on the other one.
pub proof fn law_nothing_is_zero(d: Single)
    ensures
        zero().bits == 0,
        ClarkParkValue::none().d.bits == 0 && ClarkParkValue::none().q.bits == 0,
        ClarkParkValue::on_d(d).d == d && ClarkParkValue::on_d(d).q.bits == 0,
        MotorParamsEstimate::unknown().num_pole_pairs is None,
        MotorParamsEstimate::unknown().stator_resistance is None,
        MotorParamsEstimate::unknown().d_inductance is None,
        MotorParamsEstimate::unknown().q_inductance is None,
        MotorParamsEstimate::unknown().pm_flux_linkage is None,
        MotorParamsEstimate::unknown().inverter_voltage_error is None,
        ({
            let nothing = FocResult::nothing();
            &&& nothing.duty_cycles.u.bits == 0 && nothing.duty_cycles.v.bits == 0
                && nothing.duty_cycles.w.bits == 0
            &&& nothing.u_dq.d.bits == 0 && nothing.u_dq.q.bits == 0
            &&& nothing.measured_i_dq.d.bits == 0 && nothing.measured_i_dq.q.bits == 0
            &&& nothing.omega_e.bits == 0 && nothing.theta_e.bits == 0
        }),
{
}

} // verus!
