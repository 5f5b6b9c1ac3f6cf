//! How the inverter is driven while no torque is wanted or a fault is present.
//!
//! - STO: safe torque off, no phase conducts
//! - ASC: active short circuit, the phases are shorted at the low side
//! - SS1-t: safe stop, the rotor is braked for a limited time first

use vstd::prelude::*;

use crate::braking::{BangBangBrake, BangBangBrakeStepInput};
use crate::checks::debounce;
use crate::checks::debounce::Debounced;
use crate::constants::{RAMPDOWN_DURATION_MS, STO_ASC_DEBOUNCE_TICKS};
use crate::faults::FaultCause;
use crate::single::Single;
use crate::types;
use crate::types::FocInputType;

verus! {

#[derive(Clone, Copy, Debug, PartialEq, Eq, Structural)]
pub enum SafeCommand {
    NonConducting,
    ActiveShort,
    FOC(FocInputType),
}

#[derive(Clone, Copy, Debug, PartialEq, Eq, Structural)]
pub struct SafeControlStrategyInput {
    pub rotor_feedback_valid: bool,
    /// Line-to-line back-EMF at the present speed, where the back-EMF constant is known
    pub back_emf_v: Option<Single>,
    pub dc_bus_v: Single,
    /// Bus voltage above which the phases are shorted
    pub asc_entry_v: Single,
    /// Bus voltage below which the phases are released
    pub sto_release_v: Single,
    /// Time spent ramping down, the tick at hand included
    pub waited_ms: Single,
    /// What the brake is applied with, where there is a valid cutoff speed
    pub brake: Option<BangBangBrakeStepInput>,
}

#[derive(Clone, Copy, Debug)]
pub enum SafeControlStrategy {
    /// Controlled rampdown to zero torque demand
    RampDown { waited_ms: Single },
    /// terminal STO which does not allow switch to ASC
    STOf,
    /// STO which can switch to ASC
    STO { should_switch: Debounced },
    ASC { should_switch: Debounced },
    SS1t { brake: BangBangBrake, done: Debounced },
}

impl SafeControlStrategyInput {
    /// The bus voltage asks for shorted phases.
    pub open spec fn bus_high(self) -> bool {
        self.asc_entry_v.less(self.dc_bus_v)
    }

    /// The phases may be released: the bus voltage is low, and the back-EMF is known to lie
    /// below it, in either direction of rotation, so that releasing would not raise it at once.
    pub open spec fn may_release(self) -> bool {
        &&& self.dc_bus_v.less(self.sto_release_v)
        &&& self.rotor_feedback_valid
        &&& self.back_emf_v matches Some(back_emf)
        &&& back_emf.absolute().less(self.dc_bus_v)
    }
}

impl SafeControlStrategy {
    pub open spec fn fresh_sto() -> SafeControlStrategy {
        SafeControlStrategy::STO { should_switch: Debounced::initially(false) }
    }

    pub open spec fn fresh_asc() -> SafeControlStrategy {
        SafeControlStrategy::ASC { should_switch: Debounced::initially(false) }
    }

    pub open spec fn fresh_ss1t() -> SafeControlStrategy {
        SafeControlStrategy::SS1t {
            brake: BangBangBrake::released(),
            done: Debounced::initially(false),
        }
    }

    /// The strategy behind a rampdown or braking, by the bus voltage.
    pub open spec fn handed_over(input: SafeControlStrategyInput) -> SafeControlStrategy {
        if input.bus_high() {
            SafeControlStrategy::fresh_asc()
        } else {
            SafeControlStrategy::fresh_sto()
        }
    }

    /// The strategy one tick later.
    pub open spec fn ticked(self, input: SafeControlStrategyInput) -> SafeControlStrategy {
        match self {
            SafeControlStrategy::RampDown { .. } => {
                if (Single { bits: RAMPDOWN_DURATION_MS }).less_or_equal(input.waited_ms) {
                    SafeControlStrategy::handed_over(input)
                } else {
                    SafeControlStrategy::RampDown { waited_ms: input.waited_ms }
                }
            },
            SafeControlStrategy::STOf => SafeControlStrategy::STOf,
            SafeControlStrategy::STO { should_switch } => {
                let next = should_switch.after(input.bus_high(), STO_ASC_DEBOUNCE_TICKS);
                if next.committed() {
                    SafeControlStrategy::fresh_asc()
                } else {
                    SafeControlStrategy::STO { should_switch: next }
                }
            },
            SafeControlStrategy::ASC { should_switch } => {
                let next = should_switch.after(input.may_release(), STO_ASC_DEBOUNCE_TICKS);
                if next.committed() {
                    SafeControlStrategy::fresh_sto()
                } else {
                    SafeControlStrategy::ASC { should_switch: next }
                }
            },
            SafeControlStrategy::SS1t { done, .. } => match input.brake {
                Some(braking) => {
                    let next = done.after(braking.ends(), STO_ASC_DEBOUNCE_TICKS);
                    if next.committed() {
                        SafeControlStrategy::handed_over(input)
                    } else {
                        SafeControlStrategy::SS1t {
                            brake: BangBangBrake::applied(braking),
                            done: next,
                        }
                    }
                },
                None => SafeControlStrategy::handed_over(input),
            },
        }
    }

    /// What the strategy commands.
    pub open spec fn command(self) -> SafeCommand {
        match self {
            SafeControlStrategy::RampDown { .. } => SafeCommand::FOC(
                FocInputType::TargetTorque(types::zero()),
            ),
            SafeControlStrategy::STOf | SafeControlStrategy::STO {
                ..
            } => SafeCommand::NonConducting,
            SafeControlStrategy::ASC { .. } => SafeCommand::ActiveShort,
            SafeControlStrategy::SS1t { brake, .. } => SafeCommand::FOC(
                FocInputType::TargetTorque(brake.braking_torque),
            ),
        }
    }

    /// The strategy once a further fault asked for `new`.
    pub open spec fn evolved(self, new: SafeControlStrategy) -> SafeControlStrategy {
        match (self, new) {
            (_, SafeControlStrategy::STOf) => SafeControlStrategy::STOf,
            (SafeControlStrategy::RampDown { .. }, SafeControlStrategy::RampDown { .. }) => self,
            (SafeControlStrategy::RampDown { .. }, _) => new,
            (SafeControlStrategy::SS1t { .. }, SafeControlStrategy::STO {
                ..
            }) => SafeControlStrategy::fresh_sto(),
            (SafeControlStrategy::SS1t { .. }, SafeControlStrategy::ASC {
                ..
            }) => SafeControlStrategy::fresh_asc(),
            (SafeControlStrategy::STO { .. }, SafeControlStrategy::ASC {
                ..
            }) => SafeControlStrategy::fresh_asc(),
            (SafeControlStrategy::ASC { .. }, SafeControlStrategy::ASC {
                ..
            }) => SafeControlStrategy::fresh_asc(),
            (SafeControlStrategy::ASC { should_switch }, SafeControlStrategy::STO { .. }) => {
                if should_switch.committed() {
                    SafeControlStrategy::fresh_sto()
                } else {
                    self
                }
            },
            _ => self,
        }
    }

    /// The strategy that a fault asks for.
    pub open spec fn reaction(cause: FaultCause) -> SafeControlStrategy {
        match cause {
            FaultCause::Break1 | FaultCause::Break2 | FaultCause::Overcurrent => {
                SafeControlStrategy::STOf
            },
            FaultCause::DcOverVoltage => SafeControlStrategy::fresh_asc(),
            FaultCause::SetpointTimeout
            | FaultCause::CANMessageIntegrity
            | FaultCause::CalibrationTimeout
            | FaultCause::Overtemperature => SafeControlStrategy::RampDown {
                waited_ms: types::zero(),
            },
            FaultCause::Overspeed => SafeControlStrategy::fresh_ss1t(),
            _ => SafeControlStrategy::fresh_sto(),
        }
    }

    /// A pending change is carried out with the sample that commits it, so none is left over.
    pub open spec fn settled(self) -> bool {
        match self {
            SafeControlStrategy::RampDown { .. } | SafeControlStrategy::STOf => true,
            SafeControlStrategy::STO { should_switch } => !should_switch.committed(),
            SafeControlStrategy::ASC { should_switch } => !should_switch.committed(),
            SafeControlStrategy::SS1t { done, .. } => !done.committed(),
        }
    }

    /// How far the strategy restricts the inverter.
    pub open spec fn severity(self) -> int {
        match self {
            SafeControlStrategy::RampDown { .. } => 0,
            SafeControlStrategy::SS1t { .. } => 1,
            SafeControlStrategy::STO { .. } => 2,
            SafeControlStrategy::ASC { .. } => 3,
            SafeControlStrategy::STOf => 4,
        }
    }

    pub fn sto() -> (strategy: Self)
        ensures
            strategy == SafeControlStrategy::fresh_sto(),
    {
        SafeControlStrategy::STO { should_switch: Debounced::new(false) }
    }

    pub fn asc() -> (strategy: Self)
        ensures
            strategy == SafeControlStrategy::fresh_asc(),
    {
        SafeControlStrategy::ASC { should_switch: Debounced::new(false) }
    }

    pub fn ss1t() -> (strategy: Self)
        ensures
            strategy == SafeControlStrategy::fresh_ss1t(),
    {
        SafeControlStrategy::SS1t { brake: BangBangBrake::new(), done: Debounced::new(false) }
    }

    fn hand_over(input: &SafeControlStrategyInput) -> (strategy: Self)
        ensures
            strategy == SafeControlStrategy::handed_over(*input),
    {
        if input.dc_bus_v.gt(input.asc_entry_v) {
            SafeControlStrategy::asc()
        } else {
            SafeControlStrategy::sto()
        }
    }

    /// Advances the strategy by one tick and gives its command.
    pub fn foc_tick(&mut self, input: SafeControlStrategyInput) -> (command: SafeCommand)
        ensures
            *final(self) == old(self).ticked(input),
            command == final(self).command(),
    {
        // Evolve strategy
        let next = match *self {
            SafeControlStrategy::RampDown { .. } => {
                if input.waited_ms.ge(Single::from_bits(RAMPDOWN_DURATION_MS)) {
                    SafeControlStrategy::hand_over(&input)
                } else {
                    SafeControlStrategy::RampDown { waited_ms: input.waited_ms }
                }
            },
            SafeControlStrategy::STOf => SafeControlStrategy::STOf,
            SafeControlStrategy::STO { should_switch } => {
                let mut should_switch = should_switch;
                if should_switch.update(
                    input.dc_bus_v.gt(input.asc_entry_v),
                    STO_ASC_DEBOUNCE_TICKS,
                ) {
                    SafeControlStrategy::asc()
                } else {
                    SafeControlStrategy::STO { should_switch }
                }
            },
            SafeControlStrategy::ASC { should_switch } => {
                let mut should_switch = should_switch;
                let sto_entry_gate = input.dc_bus_v.lt(input.sto_release_v);
                // Prevent immediate bus voltage spike due to STO when back-EMF would exceed bus voltage
                let asc_exit_gate = match input.back_emf_v {
                    Some(back_emf) => {
                        input.rotor_feedback_valid && back_emf.abs().lt(input.dc_bus_v)
                    },
                    None => false,
                };
                if should_switch.update(sto_entry_gate && asc_exit_gate, STO_ASC_DEBOUNCE_TICKS) {
                    SafeControlStrategy::sto()
                } else {
                    SafeControlStrategy::ASC { should_switch }
                }
            },
            SafeControlStrategy::SS1t { brake, done } => match input.brake {
                Some(braking) => {
                    let mut brake = brake;
                    let mut done = done;
                    let brake_done = brake.tick(braking);
                    if done.update(brake_done, STO_ASC_DEBOUNCE_TICKS) {
                        SafeControlStrategy::hand_over(&input)
                    } else {
                        SafeControlStrategy::SS1t { brake, done }
                    }
                },
                // Degrade to another strategy if there is no valid cutoff:
                None => SafeControlStrategy::hand_over(&input),
            },
        };
        *self = next;

        // Compute output
        match *self {
            SafeControlStrategy::RampDown { .. } => SafeCommand::FOC(
                FocInputType::TargetTorque(Single::zero()),
            ),
            SafeControlStrategy::STOf | SafeControlStrategy::STO {
                ..
            } => SafeCommand::NonConducting,
            SafeControlStrategy::ASC { .. } => SafeCommand::ActiveShort,
            SafeControlStrategy::SS1t { brake, .. } => SafeCommand::FOC(
                FocInputType::TargetTorque(brake.torque_demand()),
            ),
        }
    }

    /// Takes a strategy that a further fault asks for into account.
    pub fn fault_evolve(&mut self, new: &SafeControlStrategy)
        ensures
            *final(self) == old(self).evolved(*new),
    {
        let next = match (*self, *new) {
            (_, SafeControlStrategy::STOf) => SafeControlStrategy::STOf,
            (SafeControlStrategy::STO { .. }, SafeControlStrategy::ASC { .. }) => Self::asc(),
            (SafeControlStrategy::ASC { should_switch }, SafeControlStrategy::STO { .. }) => {
                if !should_switch.state() {
                    return ;
                }
                Self::sto()
            },
            (SafeControlStrategy::ASC { .. }, SafeControlStrategy::ASC { .. }) => Self::asc(),
            (SafeControlStrategy::SS1t { .. }, SafeControlStrategy::STO { .. }) => Self::sto(),
            (SafeControlStrategy::SS1t { .. }, SafeControlStrategy::ASC { .. }) => Self::asc(),
            (SafeControlStrategy::RampDown { .. }, SafeControlStrategy::RampDown { .. }) => {
                return ;
            },
            (SafeControlStrategy::RampDown { .. }, _) => *new,
            _ => {
                return ;
            },
        };
        *self = next;
    }
}

impl From<FaultCause> for SafeControlStrategy {
    fn from(value: FaultCause) -> (strategy: Self) {
        match value {
            FaultCause::Break1 | FaultCause::Break2 | FaultCause::Overcurrent => {
                SafeControlStrategy::STOf
            },
            FaultCause::InvalidRotorFeedback => Self::sto(),
            FaultCause::DcOverVoltage => Self::asc(),
            FaultCause::SetpointTimeout
            | FaultCause::CANMessageIntegrity
            | FaultCause::CalibrationTimeout
            | FaultCause::Overtemperature => SafeControlStrategy::RampDown {
                waited_ms: Single::zero(),
            },
            FaultCause::Overspeed => Self::ss1t(),
            _ => Self::sto(),
        }
    }
}

impl vstd::std_specs::convert::FromSpecImpl<FaultCause> for SafeControlStrategy {
    open spec fn obeys_from_spec() -> bool {
        true
    }

    open spec fn from_spec(value: FaultCause) -> Self {
        SafeControlStrategy::reaction(value)
    }
}

/// The strategies that faults ask for, and those that follow from settled ones, are settled.
pub proof fn law_strategies_stay_settled(
    strategy: SafeControlStrategy,
    new: SafeControlStrategy,
    input: SafeControlStrategyInput,
    cause: FaultCause,
)
    requires
        strategy.settled(),
        new.settled(),
    ensures
        strategy.ticked(input).settled(),
        strategy.evolved(new).settled(),
        SafeControlStrategy::reaction(cause).settled(),
{
    debounce::law_initially(false);
}

/// A further fault never relaxes the strategy: of what is active and what is asked for, the more
/// severe one holds afterwards.
pub proof fn law_severity_never_drops(strategy: SafeControlStrategy, new: SafeControlStrategy)
    requires
        strategy.settled(),
    ensures
        strategy.evolved(new).severity() == if new.severity() > strategy.severity() {
            new.severity()
        } else {
            strategy.severity()
        },
{
}

/// Terminal STO is left by no tick and no fault.
pub proof fn law_terminal_sto_is_terminal(
    new: SafeControlStrategy,
    input: SafeControlStrategyInput,
)
    ensures
        SafeControlStrategy::STOf.ticked(input) == SafeControlStrategy::STOf,
        SafeControlStrategy::STOf.evolved(new) == SafeControlStrategy::STOf,
        SafeControlStrategy::STOf.command() == SafeCommand::NonConducting,
{
}

/// Between the release voltage and the entry voltage neither STO nor ASC is left.
pub proof fn law_no_switching_inside_the_deadband(
    strategy: SafeControlStrategy,
    input: SafeControlStrategyInput,
)
    requires
        strategy.settled(),
        !input.dc_bus_v.less(input.sto_release_v),
        !input.asc_entry_v.less(input.dc_bus_v),
        strategy is STO || strategy is ASC,
    ensures
        strategy.ticked(input).severity() == strategy.severity(),
{
    match strategy {
        SafeControlStrategy::STO { should_switch } => {
            debounce::law_unchanged_sample(should_switch, false, STO_ASC_DEBOUNCE_TICKS);
        },
        SafeControlStrategy::ASC { should_switch } => {
            debounce::law_unchanged_sample(should_switch, false, STO_ASC_DEBOUNCE_TICKS);
        },
        _ => {},
    }
}

impl SafeControlStrategyInput {
    /// Releasing the phases would lead straight back to shorting them, or might: without valid
    /// feedback, without a known back-EMF, or with one whose magnitude is not below the bus voltage.
    pub open spec fn release_is_unsafe(self) -> bool {
        ||| !self.rotor_feedback_valid
        ||| self.back_emf_v is None
        ||| !self.back_emf_v->0.absolute().less(self.dc_bus_v)
    }
}

/// The strategy after a series of ticks.
pub open spec fn after_inputs(
    strategy: SafeControlStrategy,
    inputs: Seq<SafeControlStrategyInput>,
) -> SafeControlStrategy
    decreases inputs.len(),
{
    if inputs.len() == 0 {
        strategy
    } else {
        after_inputs(strategy, inputs.drop_last()).ticked(inputs.last())
    }
}

/// ASC is not left while releasing the phases would be unsafe, however many ticks that lasts and
/// however low the bus voltage is.
pub proof fn law_asc_is_held_while_releasing_is_unsafe(
    strategy: SafeControlStrategy,
    inputs: Seq<SafeControlStrategyInput>,
)
    requires
        strategy.settled(),
        strategy is ASC,
        forall|i: int| 0 <= i < inputs.len() ==> (#[trigger] inputs[i]).release_is_unsafe(),
    ensures
        after_inputs(strategy, inputs) is ASC,
        after_inputs(strategy, inputs).settled(),
        after_inputs(strategy, inputs).command() == SafeCommand::ActiveShort,
    decreases inputs.len(),
{
    if inputs.len() > 0 {
        let before = inputs.drop_last();
        assert forall|i: int| 0 <= i < before.len() implies (
        #[trigger] before[i]).release_is_unsafe() by {
            assert(before[i] == inputs[i]);
        }
        law_asc_is_held_while_releasing_is_unsafe(strategy, before);
        assert(inputs[inputs.len() - 1].release_is_unsafe());
        if let SafeControlStrategy::ASC { should_switch } = after_inputs(strategy, before) {
            debounce::law_unchanged_sample(should_switch, false, STO_ASC_DEBOUNCE_TICKS);
        }
    }
}

/// The torque of SS1-t is braking torque: it never acts in the direction of rotation.
pub proof fn law_braking_opposes_rotation(
    strategy: SafeControlStrategy,
    input: SafeControlStrategyInput,
)
    requires
        strategy is SS1t,
        strategy.ticked(input) is SS1t,
    ensures
        input.brake matches Some(braking) && strategy.ticked(input).command() matches SafeCommand::FOC(
            FocInputType::TargetTorque(torque),
        ) && {
            &&& types::zero().less(braking.omega) ==> !types::zero().less(torque)
            &&& braking.omega.less(types::zero()) ==> !torque.less(types::zero())
        },
{
    crate::braking::law_brake_opposes_rotation(input.brake->0);
}

/// The strategy after a number of ticks with the same input.
pub open spec fn after_ticks(
    strategy: SafeControlStrategy,
    input: SafeControlStrategyInput,
    ticks: nat,
) -> SafeControlStrategy
    decreases ticks,
{
    if ticks == 0 {
        strategy
    } else {
        after_ticks(strategy, input, (ticks - 1) as nat).ticked(input)
    }
}

/// STO turns into ASC with the tick that completes the debounce period at a high bus voltage, and
/// ASC into STO with the one that completes it while releasing is safe.
pub proof fn law_switching_takes_the_full_debounce_period(
    input: SafeControlStrategyInput,
    ticks: nat,
)
    requires
        ticks <= STO_ASC_DEBOUNCE_TICKS,
    ensures
        input.bus_high() ==> {
            let reached = after_ticks(SafeControlStrategy::fresh_sto(), input, ticks);
            if ticks < STO_ASC_DEBOUNCE_TICKS {
                reached is STO
            } else {
                reached == SafeControlStrategy::fresh_asc()
            }
        },
        input.may_release() ==> {
            let reached = after_ticks(SafeControlStrategy::fresh_asc(), input, ticks);
            if ticks < STO_ASC_DEBOUNCE_TICKS {
                reached is ASC
            } else {
                reached == SafeControlStrategy::fresh_sto()
            }
        },
{
    lemma_debounce_of_ticks(input, ticks);
}

proof fn lemma_debounce_of_ticks(input: SafeControlStrategyInput, ticks: nat)
    requires
        ticks <= STO_ASC_DEBOUNCE_TICKS,
    ensures
        input.bus_high() ==> after_ticks(SafeControlStrategy::fresh_sto(), input, ticks) == if ticks
            < STO_ASC_DEBOUNCE_TICKS {
            SafeControlStrategy::STO {
                should_switch: debounce::after_samples(
                    Debounced::initially(false),
                    true,
                    STO_ASC_DEBOUNCE_TICKS,
                    ticks,
                ),
            }
        } else {
            SafeControlStrategy::fresh_asc()
        },
        input.may_release() ==> after_ticks(SafeControlStrategy::fresh_asc(), input, ticks)
            == if ticks < STO_ASC_DEBOUNCE_TICKS {
            SafeControlStrategy::ASC {
                should_switch: debounce::after_samples(
                    Debounced::initially(false),
                    true,
                    STO_ASC_DEBOUNCE_TICKS,
                    ticks,
                ),
            }
        } else {
            SafeControlStrategy::fresh_sto()
        },
    decreases ticks,
{
    debounce::law_initially(false);
    debounce::law_commits_only_after_the_full_period(
        Debounced::initially(false),
        true,
        STO_ASC_DEBOUNCE_TICKS,
        ticks,
    );
    if ticks > 0 {
        lemma_debounce_of_ticks(input, (ticks - 1) as nat);
    }
}

/// What each strategy does to the inverter: a rampdown demands no torque, the two releases do not
/// conduct, the short shorts the phases, and the brake demands its torque.
pub proof fn law_strategies_command_what_they_are_for(strategy: SafeControlStrategy)
    ensures
        strategy is RampDown ==> strategy.command() == SafeCommand::FOC(
            FocInputType::TargetTorque(Single { bits: 0 }),
        ),
        strategy is STOf || strategy is STO <==> strategy.command() is NonConducting,
        strategy is ASC <==> strategy.command() is ActiveShort,
        strategy matches SafeControlStrategy::SS1t { brake, .. } ==> strategy.command()
            == SafeCommand::FOC(FocInputType::TargetTorque(brake.braking_torque)),
{
}

/// A rampdown lasts until its time has passed. What follows it goes by the bus voltage: shorted
/// phases above the entry voltage, a release else. So it is with a brake that is not known or is
/// done.
pub proof fn law_reactions_hand_over_by_the_bus_voltage(
    strategy: SafeControlStrategy,
    input: SafeControlStrategyInput,
)
    requires
        strategy is RampDown || strategy is SS1t,
    ensures
        ({
            let next = strategy.ticked(input);
            let high = input.asc_entry_v.less(input.dc_bus_v);
            &&& next is ASC ==> high
            &&& next is STO ==> !high
            &&& !(next is STOf)
            &&& strategy is RampDown ==> {
                let over = (Single { bits: RAMPDOWN_DURATION_MS }).less_or_equal(input.waited_ms);
                &&& over <==> next is ASC || next is STO
                &&& !over ==> next == (SafeControlStrategy::RampDown { waited_ms: input.waited_ms })
            }
            &&& strategy is SS1t && input.brake is None ==> next is ASC || next is STO
            &&& strategy is SS1t ==> !(next is RampDown)
            &&& next is ASC ==> !next->ASC_should_switch.committed()
            &&& next is STO ==> !next->STO_should_switch.committed()
        }),
{
    debounce::law_initially(false);
}

/// STO is left for shorted phases only by a bus above the entry voltage, and shorted phases for STO
/// only by a bus below the release voltage whose back-EMF is known and lies below it.
pub proof fn law_switching_goes_by_the_bus_voltage(
    strategy: SafeControlStrategy,
    input: SafeControlStrategyInput,
)
    requires
        strategy is STO || strategy is ASC,
        strategy.settled(),
    ensures
        strategy is STO ==> {
            let next = strategy.ticked(input);
            &&& next is STO || next is ASC
            &&& next is ASC ==> input.asc_entry_v.less(input.dc_bus_v)
        },
        strategy is ASC ==> {
            let next = strategy.ticked(input);
            &&& next is STO || next is ASC
            &&& next is STO ==> {
                &&& input.dc_bus_v.less(input.sto_release_v)
                &&& input.rotor_feedback_valid
                &&& input.back_emf_v is Some
                &&& input.back_emf_v->0.less(input.dc_bus_v)
                &&& input.back_emf_v->0.negated().less(input.dc_bus_v)
            }
        },
{
    if strategy is STO {
        debounce::law_unchanged_sample(strategy->STO_should_switch, false, STO_ASC_DEBOUNCE_TICKS);
    } else {
        debounce::law_unchanged_sample(strategy->ASC_should_switch, false, STO_ASC_DEBOUNCE_TICKS);
    }
}

/// The reaction to each fault: what damages the inverter releases it for good, too high a bus
/// voltage shorts the phases, too high a speed is braked, what concerns neither the motor nor its
/// feedback ramps down, and everything else releases.
pub proof fn law_faults_have_their_reaction(cause: FaultCause)
    ensures
        ({
            let reaction = SafeControlStrategy::reaction(cause);
            &&& reaction is STOf <==> cause is Break1 || cause is Break2 || cause is Overcurrent
            &&& reaction is ASC <==> cause is DcOverVoltage
            &&& reaction is SS1t <==> cause is Overspeed
            &&& reaction is RampDown <==> cause is SetpointTimeout || cause is CANMessageIntegrity
                || cause is CalibrationTimeout || cause is Overtemperature
            &&& reaction matches SafeControlStrategy::RampDown { waited_ms } ==> waited_ms.bits
                == 0
            &&& reaction matches SafeControlStrategy::SS1t { brake, done } ==> {
                &&& brake.braking_torque.bits == 0
                &&& !done.committed()
            }
            &&& reaction matches SafeControlStrategy::STO { should_switch }
                ==> !should_switch.committed()
            &&& reaction matches SafeControlStrategy::ASC { should_switch }
                ==> !should_switch.committed()
        }),
{
    debounce::law_initially(false);
}

/// The brake is done once its time is over or the rotor is slow in either direction, for the
/// debounce time. Until then it goes on, with the torque and the time of the tick.
pub proof fn law_braking_lasts_until_it_is_done(
    brake: BangBangBrake,
    done: Debounced,
    input: SafeControlStrategyInput,
)
    requires
        input.brake is Some,
    ensures
        ({
            let braking = input.brake->0;
            let slow = braking.omega.less(braking.omega_cutoff) && braking.omega.negated().less(
                braking.omega_cutoff,
            );
            let over = braking.max_duration_ms.less(braking.time_passed_ms);
            let next_done = done.after(slow || over, STO_ASC_DEBOUNCE_TICKS);
            let next = (SafeControlStrategy::SS1t { brake, done }).ticked(input);
            &&& next is SS1t <==> !next_done.committed()
            &&& next is SS1t ==> {
                &&& next->done == next_done
                &&& next->brake.time_passed_ms == braking.time_passed_ms
                &&& !braking.omega.nan() && !slow ==> next->brake.braking_torque.absolute()
                    == braking.ramped_torque.absolute()
            }
        }),
{
}

/// What a further fault makes of the strategy: a rampdown that is under way goes on, a brake gives
/// way to the releases and the short, a release gives way to the short, and the short starts its
/// debounce over. Nothing else changes.
pub proof fn law_further_faults_restrict(strategy: SafeControlStrategy, new: SafeControlStrategy)
    requires
        strategy.settled(),
    ensures
        new is STOf ==> strategy.evolved(new) is STOf,
        strategy is RampDown && new is RampDown ==> strategy.evolved(new) == strategy,
        strategy is RampDown && !(new is RampDown) ==> strategy.evolved(new) == new,
        strategy is SS1t && (new is RampDown || new is SS1t) ==> strategy.evolved(new) == strategy,
        strategy is SS1t && (new is STO || new is ASC) ==> {
            &&& strategy.evolved(new) is STO <==> new is STO
            &&& strategy.evolved(new) is ASC <==> new is ASC
        },
        strategy is STO && (new is RampDown || new is SS1t || new is STO) ==> strategy.evolved(new)
            == strategy,
        strategy is STO && new is ASC ==> strategy.evolved(new) == (SafeControlStrategy::ASC {
            should_switch: Debounced::initially(false),
        }),
        strategy is ASC && (new is RampDown || new is SS1t || new is STO) ==> strategy.evolved(new)
            == strategy,
        strategy is ASC && new is ASC ==> strategy.evolved(new) == (SafeControlStrategy::ASC {
            should_switch: Debounced::initially(false),
        }),
{
}

} // verus!
