//! Application logic of a motor controller: boot and update of the firmware image, integrity
//! checks, operating modes, fault reactions, calibration and the decisions of rotor estimation.

pub mod arbitration;
pub mod boot;
pub mod braking;
pub mod bytes;
pub mod calibration;
pub mod checks;
pub mod checksum;
pub mod constants;
pub mod control;
pub mod current_filter;
pub mod faults;
pub mod field_weakening;
pub mod foc_laws;
pub mod foc_step;
pub mod hall_calibration;
pub mod hall_estimation;
pub mod hall_model;
pub mod hfi;
pub mod linker;
pub mod loader;
pub mod modes;
pub mod modulation;
pub mod motor_estimation;
pub mod observer;
pub mod pi_control;
pub mod plot_plan;
pub mod polarity;
pub mod record;
pub mod safe_strategy;
pub mod saliency;
pub mod single;
pub mod swap;
pub mod swap_laws;
pub mod tuning;
pub mod types;
pub mod update;

pub use boot::{
    boot_decision, BootAction, BootloaderState, BootloaderStatus, DecodeResult,
};
pub use calibration::{CalibrationFailureCause, CalibrationPhase, StageResult};
pub use checks::{Debounced, FrameIntegrity, FrameIntegrityFault, LeakyBucket, Stamped};
pub use constants::{
    ASC_DC_BUS_RATIO, HALL_ALIGN_DURATION_S, HALL_CALIBRATION_TIMEOUT_S,
    MOTOR_ESTIMATION_SINGLE_TEST_DURATION_S, MOTOR_ESTIMATION_SPINUP_DURATION_S,
    MOTOR_ESTIMATOR_SETTLING_DURATION_S, RAMPDOWN_DURATION_MS, STO_ASC_DEBOUNCE_TICKS,
    STO_DC_BUS_RATIO, UPDATE_CHUNK_BYTES, UPDATE_STAGE_BYTES,
};
pub use control::{after_foc_step, FocStepInputs, FocStepOutcome};
pub use faults::{FaultCause, MemoryFault};
pub use foc_step::foc_step;
pub use modes::{Command, OperatingMode};
pub use record::{decode_record, encode_record, MAX_RECORD_BYTES};
pub use safe_strategy::SafeControlStrategy;
pub use single::Single;
pub use swap::{swap_images, BootloaderLayout, SwapMode, SwapOps};
pub use update::{DfuVerification, DfuWriteData, FirmwareUpdateFault, FirmwareUpdateState};
