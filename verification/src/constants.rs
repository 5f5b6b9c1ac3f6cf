//! Sizes and thresholds of the application. Quantities that are not whole numbers are given as
//! the bits of a binary32 number.

use vstd::prelude::*;

verus! {

// Calibration:

/// Time spend commanding a zero angle aligning torque at the start of hall calibration: 2.5
pub const HALL_ALIGN_DURATION_S: u32 = 0x4020_0000;

/// Maximum time duration allowed for the hall calibration to complete: 25.0
pub const HALL_CALIBRATION_TIMEOUT_S: u32 = 0x41C8_0000;

/// Time duration to wait for current transitions to have reached steady state: 2.5
pub const MOTOR_ESTIMATOR_SETTLING_DURATION_S: u32 = 0x4020_0000;

/// Maximum amount of time allocated to each indivudal system identification test: 5.0
pub const MOTOR_ESTIMATION_SINGLE_TEST_DURATION_S: u32 = 0x40A0_0000;

/// Maximum amount of time allocated to spinning up the motor during system identification: 15.0
pub const MOTOR_ESTIMATION_SPINUP_DURATION_S: u32 = 0x4170_0000;

// Safe strategy:

/// Number of consecutive ticks where the STO <-> ASC condition needs to hold before activating
pub const STO_ASC_DEBOUNCE_TICKS: u32 = 10;

/// Ratio of dc_bus_v/max_dc_bus_v which triggers ASC -> STO transition: 0.9
pub const STO_DC_BUS_RATIO: u32 = 0x3F66_6666;

/// Ratio of dc_bus_v/max_dc_bus_v which triggers STO -> ASC transition: 0.95
pub const ASC_DC_BUS_RATIO: u32 = 0x3F73_3333;

/// How long the rampdown stage between torque control and idle/fault lasts: 50.0
pub const RAMPDOWN_DURATION_MS: u32 = 0x4248_0000;

// Firmware update:

/// Bytes of a firmware image in one message of an update
pub const UPDATE_CHUNK_BYTES: usize = 6;

/// Bytes that are gathered before they are written to the DFU region
pub const UPDATE_STAGE_BYTES: usize = 24;

/// The voltage that releases the phases lies below the one that shorts them, so that neither leads
/// straight back to the other. A stage of an update is made of whole chunks and of whole flash
/// words.
pub proof fn law_thresholds_leave_a_deadband()
    ensures
        STO_DC_BUS_RATIO < ASC_DC_BUS_RATIO < 0x3F80_0000,
        STO_DC_BUS_RATIO == 0x3F66_6666 && ASC_DC_BUS_RATIO == 0x3F73_3333,
        STO_ASC_DEBOUNCE_TICKS == 10,
        RAMPDOWN_DURATION_MS == 0x4248_0000,
        HALL_ALIGN_DURATION_S == 0x4020_0000,
        HALL_CALIBRATION_TIMEOUT_S == 0x41C8_0000,
        HALL_ALIGN_DURATION_S < HALL_CALIBRATION_TIMEOUT_S,
        MOTOR_ESTIMATOR_SETTLING_DURATION_S == 0x4020_0000,
        MOTOR_ESTIMATION_SINGLE_TEST_DURATION_S == 0x40A0_0000,
        MOTOR_ESTIMATION_SPINUP_DURATION_S == 0x4170_0000,
        UPDATE_STAGE_BYTES % UPDATE_CHUNK_BYTES == 0,
        UPDATE_STAGE_BYTES % 8 == 0,
{
}

} // verus!
