use firmware_core::{
    boot_decision, swap_images, BootAction, BootloaderLayout, BootloaderState, BootloaderStatus,
    DecodeResult, SwapMode, SwapOps,
};

const STEP_MARK: u8 = 0x55;
const PAGE_SIZE_BYTES: usize = 4;

const LAYOUT: BootloaderLayout = BootloaderLayout {
    image_pages: 3,
    page_size_bytes: PAGE_SIZE_BYTES as u32,
    firmware_offset_bytes: 0,
    dfu_offset_bytes: 12,
    dfu_size_bytes: 16,
};

struct TestFlash {
    flash: [u8; 28],
    swap_log: [u8; 48],
    fail_at_step: Option<u32>,
}

fn flash_with(firmware: &[u8; 12], dfu_image: &[u8; 12]) -> TestFlash {
    let mut flash = [0xFF; 28];
    flash[0..12].copy_from_slice(firmware);
    flash[12..24].copy_from_slice(dfu_image);
    TestFlash { flash, swap_log: [0xFF; 48], fail_at_step: None }
}

impl SwapOps for TestFlash {
    type Error = ();

    fn firmware_to_dfu(&mut self, firmware_page_offset: u32, scratch_page_offset: u32) -> Result<(), ()> {
        self.flash.copy_within(firmware_page_offset as usize..firmware_page_offset as usize + PAGE_SIZE_BYTES, scratch_page_offset as usize);
        Ok(())
    }

    fn dfu_to_firmware(&mut self, dfu_page_offset: u32, firmware_page_offset: u32) -> Result<(), ()> {
        self.flash.copy_within(dfu_page_offset as usize..dfu_page_offset as usize + PAGE_SIZE_BYTES, firmware_page_offset as usize);
        Ok(())
    }

    fn log_step(&mut self, step: u32) -> Result<(), ()> {
        if self.fail_at_step == Some(step) {
            return Err(());
        }
        self.swap_log[step as usize * 8..(step as usize + 1) * 8].fill(STEP_MARK);
        Ok(())
    }
}

#[test]
fn swap_from_scratch_then_revert() {
    let firmware: [u8; 12] = core::array::from_fn(|i| 1 + (i / PAGE_SIZE_BYTES) as u8);
    let dfu_image: [u8; 12] = core::array::from_fn(|i| 11 + (i / PAGE_SIZE_BYTES) as u8);
    let mut tf = flash_with(&firmware, &dfu_image);

    let log = tf.swap_log;
    swap_images(&mut tf, &LAYOUT, SwapMode::Normal, &log).unwrap();
    assert_eq!(tf.flash[0..12], dfu_image);

    tf.swap_log = [0xFF; 48]; // status page erased between swaps
    let log = tf.swap_log;
    swap_images(&mut tf, &LAYOUT, SwapMode::Revert, &log).unwrap();
    assert_eq!(tf.flash[0..12], firmware);
}

#[test]
fn swap_via_resume_then_revert() {
    for interrupted_step in 0..2 * LAYOUT.image_pages {
        let firmware: [u8; 12] = core::array::from_fn(|i| 1 + (i / PAGE_SIZE_BYTES) as u8);
        let dfu_image: [u8; 12] = core::array::from_fn(|i| 11 + (i / PAGE_SIZE_BYTES) as u8);
        let mut tf = flash_with(&firmware, &dfu_image);

        tf.fail_at_step = Some(interrupted_step);
        let log = tf.swap_log;
        assert!(swap_images(&mut tf, &LAYOUT, SwapMode::Normal, &log).is_err());

        tf.fail_at_step = None;
        let log = tf.swap_log;
        swap_images(&mut tf, &LAYOUT, SwapMode::Normal, &log).unwrap();
        assert_eq!(tf.flash[0..12], dfu_image, "interrupted at step {interrupted_step}");

        tf.swap_log = [0xFF; 48]; // status page erased between swaps
        let log = tf.swap_log;
        swap_images(&mut tf, &LAYOUT, SwapMode::Revert, &log).unwrap();
        assert_eq!(tf.flash[0..12], firmware, "interrupted at step {interrupted_step}");
    }
}

/// A copy that was cut off half way is repeated by the resumed exchange.
#[test]
fn torn_page_is_copied_again() {
    for interrupted_step in 0..2 * LAYOUT.image_pages {
        let firmware: [u8; 12] = core::array::from_fn(|i| 1 + i as u8);
        let dfu_image: [u8; 12] = core::array::from_fn(|i| 101 + i as u8);
        let mut tf = flash_with(&firmware, &dfu_image);
        tf.fail_at_step = Some(interrupted_step);
        let log = tf.swap_log;
        assert!(swap_images(&mut tf, &LAYOUT, SwapMode::Normal, &log).is_err());
        let page = (interrupted_step / 2) as usize * PAGE_SIZE_BYTES;
        let torn = if interrupted_step % 2 == 0 { 12 + (12 + page) % 16 } else { page };
        tf.flash[torn..torn + PAGE_SIZE_BYTES].fill(0xEE);

        tf.fail_at_step = None;
        let log = tf.swap_log;
        swap_images(&mut tf, &LAYOUT, SwapMode::Normal, &log).unwrap();
        assert_eq!(tf.flash[0..12], dfu_image);
        assert_eq!(tf.flash[24..28], firmware[0..4]);
        assert_eq!(tf.flash[12..20], firmware[4..12]);
    }
}

/// A log without a free entry asks for nothing.
#[test]
fn full_log_leaves_the_flash_alone() {
    let firmware = [1u8; 12];
    let dfu_image = [2u8; 12];
    let mut tf = flash_with(&firmware, &dfu_image);
    swap_images(&mut tf, &LAYOUT, SwapMode::Normal, &[STEP_MARK; 48]).unwrap();
    assert_eq!(tf.flash[0..12], firmware);
    swap_images(&mut tf, &LAYOUT, SwapMode::Normal, &[0xFF; 7]).unwrap();
    assert_eq!(tf.flash[0..12], firmware);
}

#[test]
fn status_round_trips_through_its_stored_form() {
    for state in [
        BootloaderState::Invalid,
        BootloaderState::DfuFreshlyWritten,
        BootloaderState::DfuContentsRejected,
        BootloaderState::SwappedImageTrialBooted,
        BootloaderState::SwappedImageBootTimeout,
    ] {
        let status = BootloaderStatus::new(state, 0x0102_0304, 0xA0B0_C0D0);
        let bytes = status.to_bytes();
        assert_eq!(bytes[4..12], [4, 3, 2, 1, 0xD0, 0xC0, 0xB0, 0xA0]);
        assert_eq!(BootloaderStatus::from_bytes(&bytes), DecodeResult::Valid(status));
        for i in 0..16 {
            let mut corrupt = bytes;
            corrupt[i] ^= 0x10;
            assert_eq!(BootloaderStatus::from_bytes(&corrupt), DecodeResult::Corrupt);
        }
    }
    assert_eq!(BootloaderStatus::from_bytes(&[0xFF; 16]), DecodeResult::Empty);
}

/// The stored checksum is CRC-32/ISO-HDLC over the first twelve bytes.
#[test]
fn status_checksum_known_answer() {
    let status = BootloaderStatus::new(BootloaderState::DfuFreshlyWritten, 2, 3);
    let bytes = status.to_bytes();
    assert_eq!(bytes[0..12], [1, 0, 0, 0, 2, 0, 0, 0, 3, 0, 0, 0]);
    let mut crc = 0xFFFF_FFFFu32;
    for byte in &bytes[0..12] {
        crc ^= *byte as u32;
        for _ in 0..8 {
            crc = if crc & 1 == 1 { (crc >> 1) ^ 0xEDB8_8320 } else { crc >> 1 };
        }
    }
    assert_eq!(bytes[12..16], (!crc).to_le_bytes());
}

#[test]
fn unknown_state_numbers_read_as_invalid() {
    let bytes = BootloaderStatus::new(BootloaderState::Invalid, 0, 0).to_bytes_with_crc(7);
    let mut unknown = bytes;
    unknown[0] = 9;
    let DecodeResult::Valid(status) = BootloaderStatus::from_bytes_with_crc(&unknown, 7) else {
        panic!("not decoded");
    };
    assert_eq!(status.state, BootloaderState::Invalid);
    assert_eq!(BootloaderState::from(3), BootloaderState::SwappedImageTrialBooted);
    assert_eq!(BootloaderState::SwappedImageBootTimeout.code(), 4);
}

#[test]
fn reset_actions_follow_the_status() {
    let valid = |state| DecodeResult::Valid(BootloaderStatus::new(state, 0, 0));
    assert_eq!(boot_decision(DecodeResult::Empty, true), BootAction::Start);
    assert_eq!(
        boot_decision(DecodeResult::Corrupt, false),
        BootAction::Record(BootloaderState::DfuContentsRejected)
    );
    assert_eq!(
        boot_decision(valid(BootloaderState::DfuFreshlyWritten), false),
        BootAction::Swap { mode: SwapMode::Normal, then: BootloaderState::SwappedImageTrialBooted }
    );
    assert_eq!(
        boot_decision(valid(BootloaderState::SwappedImageTrialBooted), true),
        BootAction::Swap { mode: SwapMode::Revert, then: BootloaderState::SwappedImageBootTimeout }
    );
    assert_eq!(boot_decision(valid(BootloaderState::SwappedImageTrialBooted), false), BootAction::Start);
    assert_eq!(boot_decision(valid(BootloaderState::SwappedImageBootTimeout), true), BootAction::Start);
    assert_eq!(boot_decision(valid(BootloaderState::Invalid), true), BootAction::Start);
}
