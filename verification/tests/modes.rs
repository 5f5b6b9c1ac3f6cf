use firmware_core::calibration::{CalibrationPhase, CalibrationRunner};
use firmware_core::modes::{Command, FocGate, OperatingMode};
use firmware_core::safe_strategy::SafeControlStrategy;
use firmware_core::{FaultCause, Single};

const POLE_PAIRS: u8 = 7;
const MAX_RPM: f32 = 3000.0;
const DT_S: f32 = 1.0 / 20_000.0;

fn s(value: f32) -> Single {
    Single::from_bits(value.to_bits())
}

/// 75% of the max mechanical rotor speed
fn spin_omega() -> Single {
    s(0.75 * MAX_RPM * 2.0 * core::f32::consts::PI / 60.0)
}

fn faulted_with(safe_strategy: SafeControlStrategy) -> OperatingMode {
    OperatingMode::Fault { safe_strategy, write_index: 0, trace: [FaultCause::Empty; 8] }
}

fn calibrating() -> OperatingMode {
    OperatingMode::Calibration { calibrator: CalibrationRunner::new(POLE_PAIRS, spin_omega(), true, true, s(DT_S)) }
}

fn faulted(cause: FaultCause) -> OperatingMode {
    let mut mode = OperatingMode::Idle { safe_strategy: SafeControlStrategy::sto() };
    mode.on_command(Command::AssertFault { cause });
    mode
}

fn start_calibration() -> Command {
    Command::StartCalibration {
        num_pole_pairs: POLE_PAIRS,
        spin_omega: spin_omega(),
        has_hall: true,
        has_encoder: true,
        dt_s: s(DT_S),
    }
}

fn rampdown() -> SafeControlStrategy {
    SafeControlStrategy::RampDown { waited_ms: Single::zero() }
}

/// Calibration can be entered from idle and from nowhere else.
#[test]
fn calibration_entry_only_from_idle() {
    let mut mode: OperatingMode = OperatingMode::Idle { safe_strategy: SafeControlStrategy::sto() };
    mode.on_command(start_calibration());
    assert!(matches!(mode, OperatingMode::Calibration { .. }));

    let mut mode: OperatingMode = OperatingMode::TorqueControl;
    mode.on_command(start_calibration());
    assert!(matches!(mode, OperatingMode::TorqueControl));

    let mut mode = faulted(FaultCause::Overcurrent);
    mode.on_command(start_calibration());
    assert!(matches!(mode, OperatingMode::Fault { .. }));
}

/// Torque control can be entered from idle and from nowhere else.
#[test]
fn torque_control_entry_only_from_idle() {
    let mut mode: OperatingMode = OperatingMode::Idle { safe_strategy: SafeControlStrategy::sto() };
    mode.on_command(Command::EnableTorqueControl);
    assert!(matches!(mode, OperatingMode::TorqueControl));

    let mut mode = calibrating();
    mode.on_command(Command::EnableTorqueControl);
    assert!(matches!(mode, OperatingMode::Calibration { .. }));

    let mut mode = faulted(FaultCause::Overcurrent);
    mode.on_command(Command::EnableTorqueControl);
    assert!(matches!(mode, OperatingMode::Fault { .. }));
}

/// An idle request is honoured from torque control only.
#[test]
fn idle_command_only_accepted_from_torque_control() {
    let request = || Command::Idle { safe_strategy: rampdown() };

    let mut mode: OperatingMode = OperatingMode::TorqueControl;
    mode.on_command(request());
    assert!(matches!(mode, OperatingMode::Idle { safe_strategy: SafeControlStrategy::RampDown { .. } }));

    let mut mode = calibrating();
    mode.on_command(request());
    assert!(matches!(mode, OperatingMode::Calibration { .. }));

    let mut mode = faulted(FaultCause::Overcurrent);
    mode.on_command(request());
    assert!(matches!(mode, OperatingMode::Fault { .. }));
}

/// Both non-fault calibration exits land in idle with a non-conducting strategy.
#[test]
fn calibration_exit_paths_return_to_idle() {
    for command in [Command::FinishCalibration, Command::CancelCalibration] {
        let mut mode = calibrating();
        mode.on_command(command);
        assert!(matches!(mode, OperatingMode::Idle { safe_strategy: SafeControlStrategy::STO { .. } }));
    }
}

/// A fault is entered from any mode, carrying its cause and reaction.
#[test]
fn fault_entry_from_every_mode() {
    let modes = [
        OperatingMode::Idle { safe_strategy: SafeControlStrategy::sto() },
        calibrating(),
        OperatingMode::TorqueControl,
    ];
    for mut mode in modes {
        mode.on_command(Command::AssertFault { cause: FaultCause::DcOverVoltage });

        let OperatingMode::Fault { safe_strategy, write_index, trace } = mode else {
            panic!("fault not entered");
        };
        assert!(matches!(safe_strategy, SafeControlStrategy::ASC { .. }));
        assert_eq!(write_index, 1);
        assert_eq!(trace[0], FaultCause::DcOverVoltage);
    }
}

/// No mode request escapes a fault, only a fault clear does.
#[test]
fn fault_is_latched_until_cleared() {
    let mut mode = faulted(FaultCause::Overcurrent);
    let requests = [
        Command::EnableTorqueControl,
        start_calibration(),
        Command::Idle { safe_strategy: rampdown() },
        Command::FinishCalibration,
        Command::CancelCalibration,
        Command::ResumeCalibration,
        Command::NoOp,
    ];
    for request in requests {
        mode.on_command(request);
        assert!(matches!(mode, OperatingMode::Fault { .. }));
    }

    mode.on_command(Command::ClearFault);
    assert!(matches!(mode, OperatingMode::Idle { .. }));
}

/// A fault clear is honoured once the reaction has been applied, not while it is still running.
#[test]
fn clear_fault_blocked_until_reaction_applied() {
    let still_reacting = [rampdown(), SafeControlStrategy::ss1t()];
    for safe_strategy in still_reacting {
        let mut mode = faulted_with(safe_strategy);
        mode.on_command(Command::ClearFault);
        assert!(matches!(mode, OperatingMode::Fault { .. }), "cleared mid-reaction");
    }

    let reaction_applied = [SafeControlStrategy::sto(), SafeControlStrategy::asc(), SafeControlStrategy::STOf];
    for safe_strategy in reaction_applied {
        let mut mode = faulted_with(safe_strategy);
        mode.on_command(Command::ClearFault);
        assert!(matches!(mode, OperatingMode::Idle { .. }), "not cleared after reaction");
    }
}

/// A second fault escalates the reaction and appends to the existing trace.
#[test]
fn repeat_fault_evolves_strategy_without_restarting() {
    let mut mode = faulted(FaultCause::DcOverVoltage);
    mode.on_command(Command::AssertFault { cause: FaultCause::Overcurrent });

    let OperatingMode::Fault { safe_strategy, write_index, trace } = mode else {
        panic!("left fault mode");
    };
    assert!(matches!(safe_strategy, SafeControlStrategy::STOf));
    assert_eq!(write_index, 2);
    assert_eq!(trace[0], FaultCause::DcOverVoltage);
    assert_eq!(trace[1], FaultCause::Overcurrent);
}

/// The trace holds the first eight distinct causes and ignores repeats.
#[test]
fn fault_trace_keeps_distinct_causes_and_saturates() {
    let causes = [
        FaultCause::Overcurrent, FaultCause::DcOverVoltage, FaultCause::Overtemperature,
        FaultCause::DcUnderVoltage, FaultCause::RegenLimitExceeded, FaultCause::Overspeed,
        FaultCause::Break1, FaultCause::Break2, FaultCause::WatchdogReboot, FaultCause::RealtimeViolated,
    ];

    let mut mode: OperatingMode = OperatingMode::Idle { safe_strategy: SafeControlStrategy::sto() };
    for cause in causes {
        mode.on_command(Command::AssertFault { cause });
    }
    for cause in causes {
        mode.on_command(Command::AssertFault { cause });
    }

    let OperatingMode::Fault { write_index, trace, .. } = mode else {
        panic!("left fault mode");
    };
    assert_eq!(write_index, trace.len());
    assert_eq!(trace, causes[..trace.len()]);
}

fn assert_gate(gate: FocGate, expected: FocGate, label: &str) {
    assert_eq!(gate.active, expected.active, "{label}: active");
    assert_eq!(gate.use_safety_command, expected.use_safety_command, "{label}: use_safety_command");
    assert_eq!(gate.feedback_optional, expected.feedback_optional, "{label}: feedback_optional");
}

/// The foc control loop gate, command source and feedback tolerance follow the mode and its safe strategy.
#[test]
fn foc_gate_matches_the_mode_and_safe_strategy() {
    let closed_loop_control = FocGate { active: true, use_safety_command: false, feedback_optional: false };
    let calibration_no_feedback = FocGate { active: true, use_safety_command: false, feedback_optional: true };
    let calibration_hold = FocGate { active: false, use_safety_command: false, feedback_optional: false };
    let safety_hold = FocGate { active: false, use_safety_command: true, feedback_optional: true };
    let safety_rampdown = FocGate { active: true, use_safety_command: true, feedback_optional: true };
    let safety_braking = FocGate { active: true, use_safety_command: true, feedback_optional: false };

    let cases: [(OperatingMode, FocGate, &str); 10] = [
        (OperatingMode::TorqueControl, closed_loop_control, "torque control"),
        (OperatingMode::Idle { safe_strategy: SafeControlStrategy::sto() }, safety_hold, "idle STO"),
        (OperatingMode::Idle { safe_strategy: SafeControlStrategy::asc() }, safety_hold, "idle ASC"),
        (OperatingMode::Idle { safe_strategy: SafeControlStrategy::STOf }, safety_hold, "idle terminal STO"),
        (OperatingMode::Idle { safe_strategy: rampdown() }, safety_rampdown, "idle rampdown"),
        (faulted_with(SafeControlStrategy::sto()), safety_hold, "fault STO"),
        (faulted_with(SafeControlStrategy::asc()), safety_hold, "fault ASC"),
        (faulted_with(SafeControlStrategy::STOf), safety_hold, "fault terminal STO"),
        (faulted_with(rampdown()), safety_hold, "fault rampdown"),
        (faulted_with(SafeControlStrategy::ss1t()), safety_braking, "fault SS1-t"),
    ];

    for (mode, expected, label) in cases {
        assert_gate(mode.foc_gate(), expected, label);
    }

    let phases = [
        (
            CalibrationPhase::HallCalibration { time_passed_s: Single::zero() },
            calibration_no_feedback,
            "hall calibration",
        ),
        (CalibrationPhase::MotorEstimation, closed_loop_control, "motor estimation"),
        (CalibrationPhase::WaitingHallCompletion, calibration_hold, "waiting hall completion"),
        (CalibrationPhase::WaitingTuning, calibration_hold, "waiting tuning"),
        (CalibrationPhase::Done, closed_loop_control, "done"),
    ];

    for (phase, expected, label) in phases {
        let mut mode = calibrating();
        if let OperatingMode::Calibration { calibrator } = &mut mode {
            calibrator.phase = phase;
        }
        assert_gate(mode.foc_gate(), expected, label);
    }
}

#[test]
fn every_mode_has_its_number() {
    let modes: [OperatingMode; 5] = [
        OperatingMode::Idle { safe_strategy: SafeControlStrategy::sto() },
        calibrating(),
        OperatingMode::TorqueControl,
        OperatingMode::SaliencyPolarityTest,
        faulted(FaultCause::Break1),
    ];
    for (number, mode) in modes.iter().enumerate() {
        assert_eq!(mode.encode() as usize, number);
    }
}

#[test]
fn only_a_fault_has_a_trace() {
    let mode: OperatingMode = OperatingMode::TorqueControl;
    assert_eq!(mode.fault_trace(), None);
    let mut expected = [FaultCause::Empty; 8];
    expected[0] = FaultCause::Break2;
    assert_eq!(faulted(FaultCause::Break2).fault_trace(), Some(expected));
}
