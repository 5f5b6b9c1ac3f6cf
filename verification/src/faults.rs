//! Causes of faults, and which cause stands for the failure of each component.

use vstd::prelude::*;

use crate::calibration::CalibrationFailureCause;
use crate::hall_calibration::HallCalibrationFault;
use crate::motor_estimation::EstimationStepFault;
use crate::types::{FocFault, PITuningFault, PolarityTestFault};

verus! {

/// Why the controller is in fault mode.
#[derive(Clone, Copy, Debug, PartialEq, Eq, Structural)]
pub enum FaultCause {
    Empty,
    Overcurrent,
    Overtemperature,
    DcUnderVoltage,
    DcOverVoltage,
    Break1,
    Break2,
    Watchdog,
    MissingMotorParams,
    MissingControllerGains,
    CalibrationTimeout,
    HallEdgeDisagreement,
    EstimationOverflow,
    EstimationInsufficientSamples,
    EstimationDegenSolution,
    EstimationParameterOutOfBounds,
    TuningUnstable,
    TuningInfeasibleParameters,
    TuningMissingMotorParams,
    ControllerNumericalError,
    MemoryFlashFault,
    MemoryCorruptedData,
    MemoryTooLarge,
    CANMessageIntegrity,
    SetpointTimeout,
    Overspeed,
    RegenLimitExceeded,
    RealtimeViolated,
    WatchdogReboot,
    InvalidRotorFeedback,
    SensorlessPolarityTestFault,
}

impl FaultCause {
    /// The number that stands for the cause in messages.
    pub open spec fn number(self) -> u8 {
        match self {
            FaultCause::Empty => 0,
            FaultCause::Overcurrent => 1,
            FaultCause::Overtemperature => 2,
            FaultCause::DcUnderVoltage => 3,
            FaultCause::DcOverVoltage => 4,
            FaultCause::Break1 => 5,
            FaultCause::Break2 => 6,
            FaultCause::Watchdog => 7,
            FaultCause::MissingMotorParams => 8,
            FaultCause::MissingControllerGains => 9,
            FaultCause::CalibrationTimeout => 10,
            FaultCause::HallEdgeDisagreement => 11,
            FaultCause::EstimationOverflow => 12,
            FaultCause::EstimationInsufficientSamples => 13,
            FaultCause::EstimationDegenSolution => 14,
            FaultCause::EstimationParameterOutOfBounds => 15,
            FaultCause::TuningUnstable => 16,
            FaultCause::TuningInfeasibleParameters => 17,
            FaultCause::TuningMissingMotorParams => 18,
            FaultCause::ControllerNumericalError => 19,
            FaultCause::MemoryFlashFault => 20,
            FaultCause::MemoryCorruptedData => 21,
            FaultCause::MemoryTooLarge => 22,
            FaultCause::CANMessageIntegrity => 23,
            FaultCause::SetpointTimeout => 24,
            FaultCause::Overspeed => 25,
            FaultCause::RegenLimitExceeded => 26,
            FaultCause::RealtimeViolated => 27,
            FaultCause::WatchdogReboot => 28,
            FaultCause::InvalidRotorFeedback => 29,
            FaultCause::SensorlessPolarityTestFault => 30,
        }
    }

    /// The cause that stands for a failure.
    pub open spec fn of_controller(f: FocFault) -> FaultCause {
        match f {
            FocFault::MissingMotorParams => FaultCause::MissingMotorParams,
            FocFault::MissingControllerGains => FaultCause::MissingControllerGains,
            FocFault::InvalidParameter => FaultCause::ControllerNumericalError,
            FocFault::NumericalError => FaultCause::ControllerNumericalError,
        }
    }

    /// The cause that stands for a failure.
    pub open spec fn of_estimation(f: EstimationStepFault) -> FaultCause {
        match f {
            EstimationStepFault::MissingParameter => FaultCause::MissingMotorParams,
            EstimationStepFault::Overflow => FaultCause::EstimationOverflow,
            EstimationStepFault::InsufficientSamples => FaultCause::EstimationInsufficientSamples,
            EstimationStepFault::DegenSolution => FaultCause::EstimationDegenSolution,
            EstimationStepFault::ParameterOutOfBounds => FaultCause::EstimationParameterOutOfBounds,
            EstimationStepFault::TargetCurrentUnreachable => FaultCause::EstimationParameterOutOfBounds,
        }
    }

    /// The cause that stands for a failure.
    pub open spec fn of_hall_calibration(f: HallCalibrationFault) -> FaultCause {
        match f {
            HallCalibrationFault::EdgeDisagreement => FaultCause::HallEdgeDisagreement,
        }
    }

    /// The cause that stands for a failure.
    pub open spec fn of_tuning(f: PITuningFault) -> FaultCause {
        match f {
            PITuningFault::Unstable | PITuningFault::NotRobust => FaultCause::TuningUnstable,
            PITuningFault::InfeasibleMotorParameters | PITuningFault::InvalidTuningGoals => FaultCause::TuningInfeasibleParameters,
            PITuningFault::MissingMotorParameters => FaultCause::TuningMissingMotorParams,
        }
    }

    /// The cause that stands for a failure.
    pub open spec fn of_memory(f: MemoryFault) -> FaultCause {
        match f {
            MemoryFault::FlashInternalFault => FaultCause::MemoryFlashFault,
            MemoryFault::CorruptedData => FaultCause::MemoryCorruptedData,
            MemoryFault::TooLarge => FaultCause::MemoryTooLarge,
        }
    }

    /// The cause that stands for a failure.
    pub open spec fn of_polarity_test(f: PolarityTestFault) -> FaultCause {
        match f {
            PolarityTestFault::ConvergenceTimeout
            | PolarityTestFault::TestTimeout
            | PolarityTestFault::Inconclusive
            | PolarityTestFault::MissingParameter => FaultCause::SensorlessPolarityTestFault,
        }
    }

    /// The cause that stands for a failure.
    pub open spec fn of_calibration(f: CalibrationFailureCause) -> FaultCause {
        match f {
            CalibrationFailureCause::Timeout => FaultCause::CalibrationTimeout,
            CalibrationFailureCause::MissingParameter => FaultCause::MissingMotorParams,
            CalibrationFailureCause::MotorParameterEstimation { fault } => FaultCause::of_estimation(fault),
            CalibrationFailureCause::HallCalibration { fault } => FaultCause::of_hall_calibration(fault),
        }
    }

    /// The number that stands for the cause in messages.
    pub fn encode(&self) -> (number: u8)
        ensures
            number == self.number(),
    {
        match self {
            FaultCause::Empty => 0,
            FaultCause::Overcurrent => 1,
            FaultCause::Overtemperature => 2,
            FaultCause::DcUnderVoltage => 3,
            FaultCause::DcOverVoltage => 4,
            FaultCause::Break1 => 5,
            FaultCause::Break2 => 6,
            FaultCause::Watchdog => 7,
            FaultCause::MissingMotorParams => 8,
            FaultCause::MissingControllerGains => 9,
            FaultCause::CalibrationTimeout => 10,
            FaultCause::HallEdgeDisagreement => 11,
            FaultCause::EstimationOverflow => 12,
            FaultCause::EstimationInsufficientSamples => 13,
            FaultCause::EstimationDegenSolution => 14,
            FaultCause::EstimationParameterOutOfBounds => 15,
            FaultCause::TuningUnstable => 16,
            FaultCause::TuningInfeasibleParameters => 17,
            FaultCause::TuningMissingMotorParams => 18,
            FaultCause::ControllerNumericalError => 19,
            FaultCause::MemoryFlashFault => 20,
            FaultCause::MemoryCorruptedData => 21,
            FaultCause::MemoryTooLarge => 22,
            FaultCause::CANMessageIntegrity => 23,
            FaultCause::SetpointTimeout => 24,
            FaultCause::Overspeed => 25,
            FaultCause::RegenLimitExceeded => 26,
            FaultCause::RealtimeViolated => 27,
            FaultCause::WatchdogReboot => 28,
            FaultCause::InvalidRotorFeedback => 29,
            FaultCause::SensorlessPolarityTestFault => 30,
        }
    }

    /// A word in which only the bit of the cause is set.
    pub fn dedup_bit(&self) -> (bit: u32)
        ensures
            bit == 1u32 << (self.number() as u32),
    {
        let number: u32 = self.encode() as u32;
        1u32 << number
    }
}

/// No two causes have the same number, and every number fits in a word of bits.
pub proof fn law_numbers_tell_causes_apart(a: FaultCause, b: FaultCause)
    ensures
        a.number() == b.number() ==> a == b,
        a.number() < 32,
{
}

/// No two causes have the same bit.
pub proof fn law_bits_tell_causes_apart(a: FaultCause, b: FaultCause)
    ensures
        (1u32 << (a.number() as u32)) == (1u32 << (b.number() as u32)) ==> a == b,
{
    let x = a.number() as u32;
    let y = b.number() as u32;
    assert(x < 32 && y < 32 && (1u32 << x) == (1u32 << y) ==> x == y) by (bit_vector);
    law_numbers_tell_causes_apart(a, b);
}

#[derive(Clone, Copy, Debug, PartialEq, Eq, Structural)]
pub enum MemoryFault {
    FlashInternalFault,
    CorruptedData,
    TooLarge,
}

impl From<FocFault> for FaultCause {
    fn from(f: FocFault) -> (cause: Self) {
        match f {
            FocFault::MissingMotorParams => FaultCause::MissingMotorParams,
            FocFault::MissingControllerGains => FaultCause::MissingControllerGains,
            FocFault::InvalidParameter => FaultCause::ControllerNumericalError,
            FocFault::NumericalError => FaultCause::ControllerNumericalError,
        }
    }
}

impl vstd::std_specs::convert::FromSpecImpl<FocFault> for FaultCause {
    open spec fn obeys_from_spec() -> bool {
        true
    }

    open spec fn from_spec(f: FocFault) -> Self {
        FaultCause::of_controller(f)
    }
}

impl From<EstimationStepFault> for FaultCause {
    fn from(f: EstimationStepFault) -> (cause: Self) {
        match f {
            EstimationStepFault::MissingParameter => FaultCause::MissingMotorParams,
            EstimationStepFault::Overflow => FaultCause::EstimationOverflow,
            EstimationStepFault::InsufficientSamples => FaultCause::EstimationInsufficientSamples,
            EstimationStepFault::DegenSolution => FaultCause::EstimationDegenSolution,
            EstimationStepFault::ParameterOutOfBounds => FaultCause::EstimationParameterOutOfBounds,
            EstimationStepFault::TargetCurrentUnreachable => FaultCause::EstimationParameterOutOfBounds,
        }
    }
}

impl vstd::std_specs::convert::FromSpecImpl<EstimationStepFault> for FaultCause {
    open spec fn obeys_from_spec() -> bool {
        true
    }

    open spec fn from_spec(f: EstimationStepFault) -> Self {
        FaultCause::of_estimation(f)
    }
}

impl From<HallCalibrationFault> for FaultCause {
    fn from(f: HallCalibrationFault) -> (cause: Self) {
        match f {
            HallCalibrationFault::EdgeDisagreement => FaultCause::HallEdgeDisagreement,
        }
    }
}

impl vstd::std_specs::convert::FromSpecImpl<HallCalibrationFault> for FaultCause {
    open spec fn obeys_from_spec() -> bool {
        true
    }

    open spec fn from_spec(f: HallCalibrationFault) -> Self {
        FaultCause::of_hall_calibration(f)
    }
}

impl From<PITuningFault> for FaultCause {
    fn from(f: PITuningFault) -> (cause: Self) {
        match f {
            PITuningFault::Unstable | PITuningFault::NotRobust => FaultCause::TuningUnstable,
            PITuningFault::InfeasibleMotorParameters | PITuningFault::InvalidTuningGoals => FaultCause::TuningInfeasibleParameters,
            PITuningFault::MissingMotorParameters => FaultCause::TuningMissingMotorParams,
        }
    }
}

impl vstd::std_specs::convert::FromSpecImpl<PITuningFault> for FaultCause {
    open spec fn obeys_from_spec() -> bool {
        true
    }

    open spec fn from_spec(f: PITuningFault) -> Self {
        FaultCause::of_tuning(f)
    }
}

impl From<MemoryFault> for FaultCause {
    fn from(f: MemoryFault) -> (cause: Self) {
        match f {
            MemoryFault::FlashInternalFault => FaultCause::MemoryFlashFault,
            MemoryFault::CorruptedData => FaultCause::MemoryCorruptedData,
            MemoryFault::TooLarge => FaultCause::MemoryTooLarge,
        }
    }
}

impl vstd::std_specs::convert::FromSpecImpl<MemoryFault> for FaultCause {
    open spec fn obeys_from_spec() -> bool {
        true
    }

    open spec fn from_spec(f: MemoryFault) -> Self {
        FaultCause::of_memory(f)
    }
}

impl From<PolarityTestFault> for FaultCause {
    fn from(f: PolarityTestFault) -> (cause: Self) {
        match f {
            PolarityTestFault::ConvergenceTimeout
            | PolarityTestFault::TestTimeout
            | PolarityTestFault::Inconclusive
            | PolarityTestFault::MissingParameter => FaultCause::SensorlessPolarityTestFault,
        }
    }
}

impl vstd::std_specs::convert::FromSpecImpl<PolarityTestFault> for FaultCause {
    open spec fn obeys_from_spec() -> bool {
        true
    }

    open spec fn from_spec(f: PolarityTestFault) -> Self {
        FaultCause::of_polarity_test(f)
    }
}

impl From<CalibrationFailureCause> for FaultCause {
    fn from(f: CalibrationFailureCause) -> (cause: Self) {
        match f {
            CalibrationFailureCause::Timeout => FaultCause::CalibrationTimeout,
            CalibrationFailureCause::MissingParameter => FaultCause::MissingMotorParams,
            CalibrationFailureCause::MotorParameterEstimation { fault } => FaultCause::from(fault),
            CalibrationFailureCause::HallCalibration { fault } => FaultCause::from(fault),
        }
    }
}

impl vstd::std_specs::convert::FromSpecImpl<CalibrationFailureCause> for FaultCause {
    open spec fn obeys_from_spec() -> bool {
        true
    }

    open spec fn from_spec(f: CalibrationFailureCause) -> Self {
        FaultCause::of_calibration(f)
    }
}

/// The cause names the component that failed: a failure of the controller is never told as one of
/// the estimation, the tuning or the memory, and the causes that have a name of their own keep it.
pub proof fn law_causes_name_what_failed(
    controller: FocFault,
    estimation: EstimationStepFault,
    tuning: PITuningFault,
    memory: MemoryFault,
    test: PolarityTestFault,
    calibration: CalibrationFailureCause,
)
    ensures
        controller is MissingMotorParams <==> FaultCause::of_controller(controller)
            is MissingMotorParams,
        controller is MissingControllerGains <==> FaultCause::of_controller(controller)
            is MissingControllerGains,
        controller is InvalidParameter || controller is NumericalError
            <==> FaultCause::of_controller(controller) is ControllerNumericalError,
        estimation is MissingParameter <==> FaultCause::of_estimation(estimation)
            is MissingMotorParams,
        estimation is Overflow <==> FaultCause::of_estimation(estimation) is EstimationOverflow,
        estimation is InsufficientSamples <==> FaultCause::of_estimation(estimation)
            is EstimationInsufficientSamples,
        estimation is DegenSolution <==> FaultCause::of_estimation(estimation)
            is EstimationDegenSolution,
        estimation is ParameterOutOfBounds || estimation is TargetCurrentUnreachable
            <==> FaultCause::of_estimation(estimation) is EstimationParameterOutOfBounds,
        tuning is Unstable || tuning is NotRobust <==> FaultCause::of_tuning(tuning)
            is TuningUnstable,
        tuning is MissingMotorParameters <==> FaultCause::of_tuning(tuning)
            is TuningMissingMotorParams,
        tuning is InfeasibleMotorParameters || tuning is InvalidTuningGoals
            <==> FaultCause::of_tuning(tuning) is TuningInfeasibleParameters,
        memory is FlashInternalFault <==> FaultCause::of_memory(memory) is MemoryFlashFault,
        memory is CorruptedData <==> FaultCause::of_memory(memory) is MemoryCorruptedData,
        memory is TooLarge <==> FaultCause::of_memory(memory) is MemoryTooLarge,
        FaultCause::of_polarity_test(test) is SensorlessPolarityTestFault,
        calibration is Timeout <==> FaultCause::of_calibration(calibration) is CalibrationTimeout,
        calibration is HallCalibration <==> FaultCause::of_calibration(calibration)
            is HallEdgeDisagreement,
        calibration is MissingParameter ==> FaultCause::of_calibration(calibration)
            is MissingMotorParams,
        calibration matches CalibrationFailureCause::MotorParameterEstimation { fault }
            ==> FaultCause::of_calibration(calibration) == FaultCause::of_estimation(fault),
{
}

/// The numbers that messages carry, in groups: none, the inverter, the parameters, the calibration
/// and the estimation, the tuning, the controller, the memory, and what supervision finds.
pub proof fn law_numbers_of_the_causes(cause: FaultCause)
    ensures
        cause is Empty <==> cause.number() == 0,
        cause is Overcurrent <==> cause.number() == 1,
        cause is Overtemperature <==> cause.number() == 2,
        cause is DcUnderVoltage <==> cause.number() == 3,
        cause is DcOverVoltage <==> cause.number() == 4,
        cause is Break1 <==> cause.number() == 5,
        cause is Break2 <==> cause.number() == 6,
        cause is Watchdog <==> cause.number() == 7,
        cause is MissingMotorParams <==> cause.number() == 8,
        cause is MissingControllerGains <==> cause.number() == 9,
        cause is CalibrationTimeout <==> cause.number() == 10,
        cause is HallEdgeDisagreement <==> cause.number() == 11,
        cause is EstimationOverflow <==> cause.number() == 12,
        cause is EstimationInsufficientSamples <==> cause.number() == 13,
        cause is EstimationDegenSolution <==> cause.number() == 14,
        cause is EstimationParameterOutOfBounds <==> cause.number() == 15,
        cause is TuningUnstable <==> cause.number() == 16,
        cause is TuningInfeasibleParameters <==> cause.number() == 17,
        cause is TuningMissingMotorParams <==> cause.number() == 18,
        cause is ControllerNumericalError <==> cause.number() == 19,
        cause is MemoryFlashFault <==> cause.number() == 20,
        cause is MemoryCorruptedData <==> cause.number() == 21,
        cause is MemoryTooLarge <==> cause.number() == 22,
        cause is CANMessageIntegrity <==> cause.number() == 23,
        cause is SetpointTimeout <==> cause.number() == 24,
        cause is Overspeed <==> cause.number() == 25,
        cause is RegenLimitExceeded <==> cause.number() == 26,
        cause is RealtimeViolated <==> cause.number() == 27,
        cause is WatchdogReboot <==> cause.number() == 28,
        cause is InvalidRotorFeedback <==> cause.number() == 29,
        cause is SensorlessPolarityTestFault <==> cause.number() == 30,
{
}

} // verus!
