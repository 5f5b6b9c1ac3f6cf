//! Operating modes of the controller and the commands that change them.

use vstd::array::{spec_array_fill_for_copy_type, spec_array_update};
use vstd::prelude::*;

use crate::calibration::{CalibrationPhase, CalibrationRunner, Calibrator};
use crate::faults::FaultCause;
use crate::safe_strategy;
use crate::safe_strategy::SafeControlStrategy;
use crate::single::Single;

verus! {

#[derive(Clone, Copy, Debug, PartialEq, Eq, Structural)]
pub struct FocGate {
    pub active: bool,
    pub use_safety_command: bool,
    pub feedback_optional: bool,
}

#[derive(Clone, Copy, Debug)]
pub enum Command {
    Idle { safe_strategy: SafeControlStrategy },
    StartCalibration {
        num_pole_pairs: u8,
        /// 75% of the max mechanical rotor speed
        spin_omega: Single,
        has_hall: bool,
        has_encoder: bool,
        dt_s: Single,
    },
    ResumeCalibration,
    FinishCalibration,
    CancelCalibration,
    EnableTorqueControl,
    AssertFault { cause: FaultCause },
    ClearFault,
    NoOp,
}

pub enum OperatingMode<C = CalibrationRunner> {
    Idle { safe_strategy: SafeControlStrategy },
    Calibration { calibrator: C },
    TorqueControl,
    /// The polarity of the rotor is being told before torque control
    SaliencyPolarityTest,
    Fault { safe_strategy: SafeControlStrategy, write_index: usize, trace: [FaultCause; 8] },
}

/// The first `written` causes of a trace hold `cause`.
pub open spec fn already_traced(trace: Seq<FaultCause>, written: int, cause: FaultCause) -> bool {
    exists|i: int| 0 <= i < written && i < trace.len() && #[trigger] trace[i] == cause
}

/// A trace and its number of causes once `cause` was asserted: a new cause is appended while
/// there is room.
pub open spec fn traced(trace: Seq<FaultCause>, written: int, cause: FaultCause) -> (
    Seq<FaultCause>,
    int,
) {
    if written < trace.len() && !already_traced(trace, written, cause) {
        (trace.update(written, cause), written + 1)
    } else {
        (trace, written)
    }
}

/// The trace of a fault mode that was just entered.
pub open spec fn first_trace(cause: FaultCause) -> Seq<FaultCause> {
    Seq::new(
        8,
        |i: int|
            if i == 0 {
                cause
            } else {
                FaultCause::Empty
            },
    )
}

/// The reaction of the strategy is still running.
pub open spec fn still_reacting(strategy: SafeControlStrategy) -> bool {
    strategy is SS1t || strategy is RampDown
}

impl<C: Calibrator> OperatingMode<C> {
    /// The mode once a fault was asserted.
    pub open spec fn faulted(self, cause: FaultCause) -> Self {
        match self {
            OperatingMode::Fault { safe_strategy, write_index, trace } => {
                let appends = write_index < 8 && !already_traced(trace@, write_index as int, cause);
                OperatingMode::Fault {
                    safe_strategy: safe_strategy.evolved(SafeControlStrategy::reaction(cause)),
                    write_index: if appends {
                        (write_index + 1) as usize
                    } else {
                        write_index
                    },
                    trace: if appends {
                        spec_array_update(trace, write_index as int, cause)
                    } else {
                        trace
                    },
                }
            },
            _ => OperatingMode::Fault {
                safe_strategy: SafeControlStrategy::reaction(cause),
                write_index: 1,
                trace: spec_array_update(
                    spec_array_fill_for_copy_type(FaultCause::Empty),
                    0,
                    cause,
                ),
            },
        }
    }

    /// The mode, faulted where `asserted`.
    pub open spec fn faulted_if(self, asserted: bool, cause: FaultCause) -> Self {
        if asserted {
            self.faulted(cause)
        } else {
            self
        }
    }

    /// The command leads from `self` to `after`.
    pub open spec fn leads_to(self, command: Command, after: Self) -> bool {
        match (self, command) {
            (OperatingMode::Fault { safe_strategy, .. }, Command::ClearFault) => {
                if still_reacting(safe_strategy) {
                    after == self
                } else {
                    after == (OperatingMode::<C>::Idle { safe_strategy })
                }
            },
            (_, Command::AssertFault { cause }) => after == self.faulted(cause),
            (
                OperatingMode::Idle { .. },
                Command::StartCalibration {
                    num_pole_pairs,
                    spin_omega,
                    has_hall,
                    has_encoder,
                    dt_s,
                },
            ) => {
                &&& after matches OperatingMode::Calibration { calibrator }
                &&& calibrator.is_new(num_pole_pairs, spin_omega, has_hall, has_encoder, dt_s)
            },
            (
                OperatingMode::Idle { .. } | OperatingMode::SaliencyPolarityTest,
                Command::EnableTorqueControl,
            ) => after == OperatingMode::<C>::TorqueControl,
            (OperatingMode::Calibration { calibrator }, Command::ResumeCalibration) => {
                &&& after matches OperatingMode::Calibration { calibrator: calibrator2 }
                &&& calibrator.resumes_to(calibrator2)
            },
            (
                OperatingMode::Calibration { .. },
                Command::FinishCalibration | Command::CancelCalibration,
            ) => after == (OperatingMode::<C>::Idle {
                safe_strategy: SafeControlStrategy::fresh_sto(),
            }),
            (OperatingMode::TorqueControl, Command::Idle { safe_strategy }) => {
                after == (OperatingMode::<C>::Idle { safe_strategy })
            },
            _ => after == self,
        }
    }

    /// Whether the current loop runs, what commands it, and whether it needs feedback.
    pub open spec fn gate(self) -> FocGate {
        match self {
            OperatingMode::Idle { safe_strategy } => FocGate {
                active: safe_strategy is RampDown,
                use_safety_command: true,
                feedback_optional: true,
            },
            OperatingMode::Calibration { calibrator } => FocGate {
                active: !(calibrator.current_phase() is WaitingHallCompletion) && !(
                calibrator.current_phase() is WaitingTuning),
                use_safety_command: false,
                feedback_optional: calibrator.current_phase() is WaitingEncoderZeroing
                    || calibrator.current_phase() is HallCalibration,
            },
            OperatingMode::TorqueControl | OperatingMode::SaliencyPolarityTest => FocGate {
                active: true,
                use_safety_command: false,
                feedback_optional: false,
            },
            OperatingMode::Fault { safe_strategy, .. } => FocGate {
                active: safe_strategy is SS1t,
                use_safety_command: true,
                feedback_optional: !(safe_strategy is SS1t),
            },
        }
    }

    /// Changes the mode as the command asks, where the mode allows it.
    pub fn on_command(&mut self, command: Command)
        ensures
            old(self).leads_to(command, *final(self)),
    {
        match command {
            Command::ClearFault => {
                if let OperatingMode::Fault { safe_strategy, .. } = self {
                    let strategy = *safe_strategy;
                    match strategy {
                        SafeControlStrategy::SS1t { .. } | SafeControlStrategy::RampDown {
                            ..
                        } => {},
                        _ => {
                            *self = OperatingMode::Idle { safe_strategy: strategy };
                        },
                    }
                }
            },
            Command::AssertFault { cause } => {
                if let OperatingMode::Fault { safe_strategy, write_index, trace } = self {
                    let index: usize = *write_index;
                    let ghost before = *trace;
                    if index < 8 && !trace_holds(trace, index, cause) {
                        trace[index] = cause;
                        *write_index = index + 1;
                        assert(*trace =~= spec_array_update(before, index as int, cause));
                    }
                    safe_strategy.fault_evolve(&SafeControlStrategy::from(cause));
                } else {
                    let empty = FaultCause::Empty;
                    let trace: [FaultCause; 8] = [
                        cause, empty, empty, empty, empty, empty, empty, empty,
                    ];
                    assert(trace =~= spec_array_update(
                        spec_array_fill_for_copy_type(FaultCause::Empty),
                        0,
                        cause,
                    ));
                    *self =
                    OperatingMode::Fault {
                        safe_strategy: SafeControlStrategy::from(cause),
                        write_index: 1,
                        trace,
                    };
                }
            },
            Command::StartCalibration {
                num_pole_pairs,
                spin_omega,
                has_hall,
                has_encoder,
                dt_s,
            } => {
                if let OperatingMode::Idle { .. } = self {
                    *self =
                    OperatingMode::Calibration {
                        calibrator: C::new(
                            num_pole_pairs,
                            spin_omega,
                            has_hall,
                            has_encoder,
                            dt_s,
                        ),
                    };
                }
            },
            Command::EnableTorqueControl => {
                match self {
                    OperatingMode::Idle { .. } | OperatingMode::SaliencyPolarityTest => {
                        *self = OperatingMode::TorqueControl;
                    },
                    _ => {},
                }
            },
            Command::ResumeCalibration => {
                if let OperatingMode::Calibration { calibrator } = self {
                    calibrator.resume();
                }
            },
            Command::FinishCalibration | Command::CancelCalibration => {
                if let OperatingMode::Calibration { .. } = self {
                    *self = OperatingMode::Idle { safe_strategy: SafeControlStrategy::sto() };
                }
            },
            Command::Idle { safe_strategy } => {
                if let OperatingMode::TorqueControl = self {
                    *self = OperatingMode::Idle { safe_strategy };
                }
            },
            Command::NoOp => {},
        }
    }

    pub fn foc_gate(&self) -> (gate: FocGate)
        ensures
            gate == self.gate(),
    {
        match self {
            OperatingMode::Idle { safe_strategy } => FocGate {
                active: matches!(*safe_strategy, SafeControlStrategy::RampDown { .. }),
                use_safety_command: true,
                feedback_optional: true,
            },
            OperatingMode::Calibration { calibrator } => {
                let phase = calibrator.phase();
                FocGate {
                    // Wait phases must not step the calibration state machine:
                    active: !matches!(
                        phase,
                        CalibrationPhase::WaitingHallCompletion | CalibrationPhase::WaitingTuning
                    ),
                    use_safety_command: false,
                    // Encoder zeroing and hall calibration phases do not use rotor feedback:
                    feedback_optional: matches!(
                        phase,
                        CalibrationPhase::WaitingEncoderZeroing { .. }
                            | CalibrationPhase::HallCalibration { .. }
                    ),
                }
            },
            OperatingMode::TorqueControl | OperatingMode::SaliencyPolarityTest => FocGate {
                active: true,
                use_safety_command: false,
                feedback_optional: false,
            },
            OperatingMode::Fault { safe_strategy, .. } => {
                let braking = matches!(*safe_strategy, SafeControlStrategy::SS1t { .. });
                FocGate {
                    active: braking,
                    use_safety_command: true,
                    feedback_optional: !braking,
                }
            },
        }
    }

    pub fn fault_trace(&self) -> (found: Option<[FaultCause; 8]>)
        ensures
            found == match *self {
                OperatingMode::Fault { trace, .. } => Some(trace),
                _ => None,
            },
    {
        match self {
            OperatingMode::Fault { trace, .. } => Some(*trace),
            _ => None,
        }
    }

    /// The number that stands for the mode in messages.
    pub fn encode(&self) -> (number: u8)
        ensures
            number == match *self {
                OperatingMode::Idle { .. } => 0u8,
                OperatingMode::Calibration { .. } => 1u8,
                OperatingMode::TorqueControl => 2u8,
                OperatingMode::SaliencyPolarityTest => 3u8,
                OperatingMode::Fault { .. } => 4u8,
            },
            *self is Idle <==> number == 0,
            *self is Calibration <==> number == 1,
            *self is TorqueControl <==> number == 2,
            *self is SaliencyPolarityTest <==> number == 3,
            *self is Fault <==> number == 4,
    {
        match self {
            OperatingMode::Idle { .. } => 0,
            OperatingMode::Calibration { .. } => 1,
            OperatingMode::TorqueControl => 2,
            OperatingMode::SaliencyPolarityTest => 3,
            OperatingMode::Fault { .. } => 4,
        }
    }
}

/// Whether the first `written` causes of a trace hold `cause`.
fn trace_holds(trace: &[FaultCause; 8], written: usize, cause: FaultCause) -> (holds: bool)
    requires
        written <= 8,
    ensures
        holds == already_traced(trace@, written as int, cause),
{
    let mut i: usize = 0;
    while i < written
        invariant
            i <= written <= 8,
            forall|j: int| 0 <= j < i ==> trace@[j] != cause,
        decreases written - i,
    {
        if trace[i] == cause {
            assert(trace@[i as int] == cause);
            return true;
        }
        i += 1;
    }
    false
}

/// A fault is latched: nothing but clearing it leaves the fault mode.
pub proof fn law_fault_is_latched<C: Calibrator>(
    mode: OperatingMode<C>,
    command: Command,
    after: OperatingMode<C>,
)
    requires
        mode is Fault,
        !(command is ClearFault),
        mode.leads_to(command, after),
    ensures
        after is Fault,
{
}

/// Clearing a fault is honoured exactly when its reaction has been applied.
pub proof fn law_fault_is_cleared_once_the_reaction_is_applied<C: Calibrator>(
    mode: OperatingMode<C>,
    after: OperatingMode<C>,
)
    requires
        mode is Fault,
        mode.leads_to(Command::ClearFault, after),
    ensures
        after is Idle <==> !still_reacting(mode->Fault_safe_strategy),
        after is Idle ==> after->Idle_safe_strategy == mode->Fault_safe_strategy,
        !(after is Idle) ==> after == mode,
{
}

/// What asserting a fault does to the trace.
pub proof fn law_asserted_faults_are_traced<C: Calibrator>(
    mode: OperatingMode<C>,
    cause: FaultCause,
)
    ensures
        mode.faulted(cause) is Fault,
        (mode.faulted(cause)->trace@, mode.faulted(cause)->write_index as int)
            == if mode is Fault {
            traced(mode->trace@, mode->write_index as int, cause)
        } else {
            (first_trace(cause), 1)
        },
{
    if !(mode is Fault) {
        assert(mode.faulted(cause)->trace@ =~= first_trace(cause));
    }
}

/// A fault is entered from every mode, with the reaction of its cause or one more severe.
pub proof fn law_every_mode_faults<C: Calibrator>(
    mode: OperatingMode<C>,
    cause: FaultCause,
    after: OperatingMode<C>,
)
    requires
        mode.leads_to(Command::AssertFault { cause }, after),
        mode is Fault ==> mode->Fault_safe_strategy.settled(),
    ensures
        after is Fault,
        after->Fault_safe_strategy.severity() >= SafeControlStrategy::reaction(cause).severity(),
        mode is Fault ==> after->Fault_safe_strategy.severity()
            >= mode->Fault_safe_strategy.severity(),
        already_traced(after->trace@, after->write_index as int, cause) || (mode is Fault
            && mode->write_index >= 8),
{
    law_asserted_faults_are_traced(mode, cause);
    if mode is Fault {
        safe_strategy::law_severity_never_drops(
            mode->Fault_safe_strategy,
            SafeControlStrategy::reaction(cause),
        );
        if mode->write_index < 8 && !already_traced(
            mode->trace@,
            mode->write_index as int,
            cause,
        ) {
            assert(after->trace@[mode->write_index as int] == cause);
        }
    } else {
        assert(after->trace@[0] == cause);
    }
}

/// Calibration is entered from idle and from nowhere else.
pub proof fn law_calibration_entry_only_from_idle<C: Calibrator>(
    mode: OperatingMode<C>,
    command: Command,
    after: OperatingMode<C>,
)
    requires
        mode.leads_to(command, after),
        after is Calibration,
        !(mode is Calibration),
    ensures
        mode is Idle,
        command is StartCalibration,
{
}

/// Torque control is entered from idle, or behind the polarity test, and from nowhere else.
pub proof fn law_torque_control_entry_only_from_idle<C: Calibrator>(
    mode: OperatingMode<C>,
    command: Command,
    after: OperatingMode<C>,
)
    requires
        mode.leads_to(command, after),
        after is TorqueControl,
        !(mode is TorqueControl),
    ensures
        mode is Idle || mode is SaliencyPolarityTest,
        command is EnableTorqueControl,
{
}

/// The causes in a trace are distinct.
pub open spec fn distinct_causes(trace: Seq<FaultCause>, written: int) -> bool {
    forall|i: int, j: int|
        0 <= i < j < written && j < trace.len() ==> #[trigger] trace[i] != #[trigger] trace[j]
}

/// A trace keeps its causes distinct, in the order in which they came, up to its length.
pub proof fn law_trace_keeps_distinct_causes(
    trace: Seq<FaultCause>,
    written: int,
    cause: FaultCause,
)
    requires
        0 <= written <= trace.len(),
        distinct_causes(trace, written),
    ensures
        ({
            let (trace2, written2) = traced(trace, written, cause);
            &&& distinct_causes(trace2, written2)
            &&& written <= written2 <= trace2.len()
            &&& trace2.len() == trace.len()
            &&& trace2.take(written) == trace.take(written)
        }),
        distinct_causes(first_trace(cause), 1),
{
    let (trace2, written2) = traced(trace, written, cause);
    assert(trace2.take(written) =~= trace.take(written));
    assert forall|i: int, j: int|
        0 <= i < j < written2 && j < trace2.len() implies #[trigger] trace2[i]
        != #[trigger] trace2[j] by {
        if j < written {
            assert(trace[i] != trace[j]);
        } else {
            assert(trace[i] == trace2[i]);
        }
    }
}

/// Commands lead where they are meant to from the modes that allow them, with what they carry, and
/// change nothing elsewhere.
pub proof fn law_commands_lead_where_they_are_meant_to<C: Calibrator>(
    mode: OperatingMode<C>,
    command: Command,
    after: OperatingMode<C>,
)
    requires
        mode.leads_to(command, after),
    ensures
        mode is Idle ==> (command matches Command::StartCalibration {
            num_pole_pairs,
            spin_omega,
            has_hall,
            has_encoder,
            dt_s,
        } ==> after is Calibration && after->calibrator.is_new(
            num_pole_pairs,
            spin_omega,
            has_hall,
            has_encoder,
            dt_s,
        )),
        command is StartCalibration && !(mode is Idle) ==> after == mode,
        command is EnableTorqueControl && (mode is Idle || mode is SaliencyPolarityTest) ==> after
            is TorqueControl,
        command is EnableTorqueControl && !(mode is Idle || mode is SaliencyPolarityTest) ==> after
            == mode,
        command is ResumeCalibration && mode is Calibration ==> after is Calibration
            && mode->calibrator.resumes_to(after->calibrator),
        (command is FinishCalibration || command is CancelCalibration) && mode is Calibration
            ==> after is Idle && after->Idle_safe_strategy is STO,
        (command is ResumeCalibration || command is FinishCalibration || command
            is CancelCalibration) && !(mode is Calibration) ==> after == mode,
        mode is TorqueControl ==> (command matches Command::Idle { safe_strategy } ==> after
            == (OperatingMode::<C>::Idle { safe_strategy })),
        command is Idle && !(mode is TorqueControl) ==> after == mode,
        command is ClearFault && !(mode is Fault) ==> after == mode,
        command is NoOp ==> after == mode,
{
}

/// A fault reacts as its cause asks for where there was none, and the trace begins with the cause.
/// A further fault is added behind the others.
pub proof fn law_first_fault_decides_the_reaction<C: Calibrator>(
    mode: OperatingMode<C>,
    cause: FaultCause,
)
    ensures
        !(mode is Fault) ==> {
            &&& mode.faulted(cause)->Fault_safe_strategy == SafeControlStrategy::reaction(cause)
            &&& mode.faulted(cause)->write_index == 1
            &&& mode.faulted(cause)->trace@[0] == cause
            &&& forall|i: int| 1 <= i < 8 ==> #[trigger] mode.faulted(cause)->trace@[i] is Empty
        },
        mode is Fault && mode->write_index < 8 && (forall|i: int|
            0 <= i < mode->write_index ==> #[trigger] mode->trace@[i] != cause) ==> {
            &&& mode.faulted(cause)->write_index == mode->write_index + 1
            &&& mode.faulted(cause)->trace@[mode->write_index as int] == cause
            &&& forall|i: int|
                0 <= i < 8 && i != mode->write_index ==> #[trigger] mode.faulted(cause)->trace@[i]
                    == mode->trace@[i]
        },
        mode is Fault && (mode->write_index >= 8 || exists|i: int|
            0 <= i < mode->write_index && i < 8 && #[trigger] mode->trace@[i] == cause)
            ==> mode.faulted(cause)->trace == mode->trace && mode.faulted(cause)->write_index
            == mode->write_index,
{
    law_asserted_faults_are_traced(mode, cause);
    if mode is Fault && mode->write_index < 8 && (forall|i: int|
        0 <= i < mode->write_index ==> #[trigger] mode->trace@[i] != cause) {
        assert(!already_traced(mode->trace@, mode->write_index as int, cause));
    }
    if mode is Fault && exists|i: int|
        0 <= i < mode->write_index && i < 8 && #[trigger] mode->trace@[i] == cause {
        assert(already_traced(mode->trace@, mode->write_index as int, cause));
    }
}

/// When the current loop runs: in torque control and the polarity test always, in a calibration but
/// for the phases that wait, and in the reactions that need torque. Feedback is needed wherever the
/// loop runs on the angle of the rotor.
pub proof fn law_loop_runs_where_current_is_needed<C: Calibrator>(mode: OperatingMode<C>)
    ensures
        mode is TorqueControl || mode is SaliencyPolarityTest ==> mode.gate().active
            && !mode.gate().feedback_optional && !mode.gate().use_safety_command,
        mode is Idle ==> mode.gate().feedback_optional && mode.gate().use_safety_command && (
        mode.gate().active <==> mode->Idle_safe_strategy is RampDown),
        mode is Fault ==> mode.gate().use_safety_command && (mode.gate().active
            <==> mode->Fault_safe_strategy is SS1t) && (mode.gate().feedback_optional <==> !(
        mode->Fault_safe_strategy is SS1t)),
        mode is Calibration ==> {
            let phase = mode->calibrator.current_phase();
            &&& !mode.gate().use_safety_command
            &&& mode.gate().active <==> !(phase is WaitingHallCompletion || phase is WaitingTuning)
            &&& mode.gate().feedback_optional <==> phase is WaitingEncoderZeroing || phase
                is HallCalibration
        },
{
}

/// The first cause of a fault stays the first one of the trace, whatever faults follow.
pub proof fn law_first_cause_stays<C: Calibrator>(mode: OperatingMode<C>, cause: FaultCause)
    ensures
        mode is Fault && mode->write_index >= 1 ==> mode.faulted(cause)->trace@[0]
            == mode->trace@[0] && mode.faulted(cause)->write_index >= 1,
        !(mode is Fault) ==> mode.faulted(cause)->trace@[0] == cause && mode.faulted(
            cause,
        )->write_index >= 1,
{
    law_asserted_faults_are_traced(mode, cause);
}

} // verus!
