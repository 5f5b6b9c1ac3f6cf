//! The status word that the application and the bootloader share, and what the bootloader does
//! with it at reset.

use vstd::prelude::*;

use crate::bytes;
use crate::bytes::{is_erased, read_u32, split_u32};
use crate::checksum;
use crate::checksum::crc32;
use crate::swap::SwapMode;

verus! {

/// Where the exchange of firmware images stands.
#[derive(Clone, Copy, Debug, PartialEq, Eq, Structural)]
pub enum BootloaderState {
    Invalid,
    DfuFreshlyWritten,
    DfuContentsRejected,
    SwappedImageTrialBooted,
    SwappedImageBootTimeout,
}

impl BootloaderState {
    /// The number that stands for the state in flash.
    pub open spec fn number(self) -> u32 {
        match self {
            BootloaderState::Invalid => 0,
            BootloaderState::DfuFreshlyWritten => 1,
            BootloaderState::DfuContentsRejected => 2,
            BootloaderState::SwappedImageTrialBooted => 3,
            BootloaderState::SwappedImageBootTimeout => 4,
        }
    }

    /// The state that a number in flash stands for.
    pub open spec fn of_number(raw: u32) -> BootloaderState {
        if raw == 1 {
            BootloaderState::DfuFreshlyWritten
        } else if raw == 2 {
            BootloaderState::DfuContentsRejected
        } else if raw == 3 {
            BootloaderState::SwappedImageTrialBooted
        } else if raw == 4 {
            BootloaderState::SwappedImageBootTimeout
        } else {
            BootloaderState::Invalid
        }
    }

    /// The number that stands for the state in flash.
    pub fn code(self) -> (raw: u32)
        ensures
            raw == self.number(),
    {
        match self {
            BootloaderState::Invalid => 0,
            BootloaderState::DfuFreshlyWritten => 1,
            BootloaderState::DfuContentsRejected => 2,
            BootloaderState::SwappedImageTrialBooted => 3,
            BootloaderState::SwappedImageBootTimeout => 4,
        }
    }
}

impl From<u32> for BootloaderState {
    fn from(raw: u32) -> (state: Self) {
        match raw {
            1 => BootloaderState::DfuFreshlyWritten,
            2 => BootloaderState::DfuContentsRejected,
            3 => BootloaderState::SwappedImageTrialBooted,
            4 => BootloaderState::SwappedImageBootTimeout,
            _ => BootloaderState::Invalid,
        }
    }
}

impl vstd::std_specs::convert::FromSpecImpl<u32> for BootloaderState {
    open spec fn obeys_from_spec() -> bool {
        true
    }

    open spec fn from_spec(raw: u32) -> Self {
        BootloaderState::of_number(raw)
    }
}

/// The bootloader status kept in flash.
#[derive(Clone, Copy, Debug, PartialEq, Eq, Structural)]
pub struct BootloaderStatus {
    pub state: BootloaderState,
    pub image_length: u32,
    pub image_crc32: u32,
}

/// What sixteen bytes of the status page hold.
#[derive(Clone, Copy, Debug, PartialEq, Eq, Structural)]
pub enum DecodeResult {
    /// Nothing was written since the page was erased.
    Empty,
    /// The checksum does not cover what precedes it.
    Corrupt,
    Valid(BootloaderStatus),
}

impl BootloaderStatus {
    /// The part of the stored form that the checksum covers.
    pub open spec fn covered(self) -> Seq<u8> {
        bytes::u32_bytes(self.state.number()) + bytes::u32_bytes(self.image_length) + bytes::u32_bytes(self.image_crc32)
    }

    /// The stored form, with `crc` as its checksum.
    pub open spec fn stored(self, crc: u32) -> Seq<u8> {
        self.covered() + bytes::u32_bytes(crc)
    }

    /// What stored bytes mean when the checksum computed over their first twelve is `crc`.
    pub open spec fn decoded(bytes: Seq<u8>, crc: u32) -> DecodeResult {
        if bytes::all_erased(bytes) {
            DecodeResult::Empty
        } else if crc != bytes::le_u32(bytes, 12) {
            DecodeResult::Corrupt
        } else {
            DecodeResult::Valid(
                BootloaderStatus {
                    state: BootloaderState::of_number(bytes::le_u32(bytes, 0)),
                    image_length: bytes::le_u32(bytes, 4),
                    image_crc32: bytes::le_u32(bytes, 8),
                },
            )
        }
    }

    pub fn new(state: BootloaderState, image_length: u32, image_crc32: u32) -> (status: Self)
        ensures
            status == (BootloaderStatus { state, image_length, image_crc32 }),
    {
        BootloaderStatus { state, image_length, image_crc32 }
    }

    /// Decodes the sixteen bytes of the status page.
    pub fn from_bytes(bytes: &[u8; 16]) -> (result: DecodeResult)
        ensures
            result == Self::decoded(bytes@, checksum::crc32_iso_hdlc(bytes@.subrange(0, 12))),
    {
        let crc = crc32(vstd::slice::slice_subrange(bytes.as_slice(), 0, 12));
        Self::from_bytes_with_crc(bytes, crc)
    }

    /// Decodes the sixteen bytes of the status page, given the checksum over the first twelve.
    pub fn from_bytes_with_crc(bytes: &[u8; 16], crc: u32) -> (result: DecodeResult)
        ensures
            result == Self::decoded(bytes@, crc),
    {
        let stored: &[u8] = bytes.as_slice();
        // A board flashed for the first time has nothing on its status page
        if is_erased(stored) {
            return DecodeResult::Empty;
        }
        let raw_state = read_u32(stored, 0);
        let image_length = read_u32(stored, 4);
        let image_crc32 = read_u32(stored, 8);
        if crc != read_u32(stored, 12) {
            return DecodeResult::Corrupt;
        }
        DecodeResult::Valid(
            BootloaderStatus { state: BootloaderState::from(raw_state), image_length, image_crc32 },
        )
    }

    /// The stored form of the status.
    pub fn to_bytes(&self) -> (bytes: [u8; 16])
        ensures
            bytes@ == self.stored(checksum::crc32_iso_hdlc(self.covered())),
    {
        let unsealed = self.to_bytes_with_crc(0);
        assert(unsealed@.subrange(0, 12) == self.covered());
        let crc = crc32(vstd::slice::slice_subrange(unsealed.as_slice(), 0, 12));
        self.to_bytes_with_crc(crc)
    }

    /// The stored form of the status, given the checksum over its first twelve bytes.
    pub fn to_bytes_with_crc(&self, crc: u32) -> (bytes: [u8; 16])
        ensures
            bytes@ == self.stored(crc),
    {
        let state = split_u32(self.state.code());
        let length = split_u32(self.image_length);
        let image = split_u32(self.image_crc32);
        let check = split_u32(crc);
        let bytes: [u8; 16] = [
            state[0], state[1], state[2], state[3],
            length[0], length[1], length[2], length[3],
            image[0], image[1], image[2], image[3],
            check[0], check[1], check[2], check[3],
        ];
        assert(bytes@ == self.stored(crc));
        bytes
    }
}

/// Decoding the stored form of a status gives that status back.
pub proof fn law_status_round_trip(status: BootloaderStatus)
    ensures
        ({
            let bytes = status.stored(checksum::crc32_iso_hdlc(status.covered()));
            BootloaderStatus::decoded(bytes, checksum::crc32_iso_hdlc(bytes.subrange(0, 12)))
                == DecodeResult::Valid(status)
        }),
{
    let crc = checksum::crc32_iso_hdlc(status.covered());
    let bytes = status.stored(crc);
    assert(bytes.subrange(0, 12) == status.covered());
    assert(bytes.subrange(0, 4) == bytes::u32_bytes(status.state.number()));
    assert(bytes.subrange(4, 8) == bytes::u32_bytes(status.image_length));
    assert(bytes.subrange(8, 12) == bytes::u32_bytes(status.image_crc32));
    assert(bytes.subrange(12, 16) == bytes::u32_bytes(crc));
    bytes::lemma_u32_round_trip(bytes, 0, status.state.number());
    bytes::lemma_u32_round_trip(bytes, 4, status.image_length);
    bytes::lemma_u32_round_trip(bytes, 8, status.image_crc32);
    bytes::lemma_u32_round_trip(bytes, 12, crc);
    assert(bytes[0] < 0xFF);
}

/// What the bootloader does before it starts the firmware.
#[derive(Clone, Copy, Debug, PartialEq, Eq, Structural)]
pub enum BootAction {
    /// Start the firmware as it stands.
    Start,
    /// Write the state to the status page, then start the firmware.
    Record(BootloaderState),
    /// Exchange the images, write the state to the status page, then start the firmware.
    Swap { mode: SwapMode, then: BootloaderState },
}

/// What is to be done at reset.
pub open spec fn boot_action(status: DecodeResult, watchdog_reset: bool) -> BootAction {
    match status {
        DecodeResult::Empty => BootAction::Start,
        DecodeResult::Corrupt => BootAction::Record(BootloaderState::DfuContentsRejected),
        DecodeResult::Valid(found) => match found.state {
            BootloaderState::DfuFreshlyWritten => BootAction::Swap {
                mode: SwapMode::Normal,
                then: BootloaderState::SwappedImageTrialBooted,
            },
            BootloaderState::SwappedImageTrialBooted => if watchdog_reset {
                BootAction::Swap {
                    mode: SwapMode::Revert,
                    then: BootloaderState::SwappedImageBootTimeout,
                }
            } else {
                BootAction::Start
            },
            _ => BootAction::Start,
        },
    }
}

/// The state that the status page holds once the action was carried out, from the state before.
pub open spec fn state_after(state: BootloaderState, action: BootAction) -> BootloaderState {
    match action {
        BootAction::Start => state,
        BootAction::Record(recorded) => recorded,
        BootAction::Swap { then, .. } => then,
    }
}

/// An image that was written is tried once: it is swapped in at the next reset, whatever the reason
/// of that reset is. A trial that the watchdog ends is swapped out again, and a trial that anything
/// else ends stays. Then nothing is swapped any more.
pub proof fn law_fresh_images_are_tried_once(
    status: BootloaderStatus,
    first_reset: bool,
    second_reset: bool,
    third_reset: bool,
)
    requires
        status.state is DfuFreshlyWritten,
    ensures
        ({
            let first = boot_action(DecodeResult::Valid(status), first_reset);
            let tried = BootloaderStatus { state: state_after(status.state, first), ..status };
            let second = boot_action(DecodeResult::Valid(tried), second_reset);
            let ended = BootloaderStatus { state: state_after(tried.state, second), ..status };
            let third = boot_action(DecodeResult::Valid(ended), third_reset);
            &&& first is Swap && first->mode is Normal
            &&& second is Swap <==> second_reset
            &&& second is Swap ==> second->mode is Revert
            &&& second_reset ==> third is Start && ended.state is SwappedImageBootTimeout
            &&& !second_reset ==> second is Start && ended.state is SwappedImageTrialBooted
        }),
{
}

/// Images are exchanged only for a fresh image and for a failed trial. A status that cannot be read
/// is recorded as rejected, and an empty one, a rejected image and a failed trial leave all as it
/// is.
pub proof fn law_nothing_else_is_swapped(status: DecodeResult, watchdog_reset: bool)
    ensures
        ({
            let action = boot_action(status, watchdog_reset);
            &&& action is Swap ==> status is Valid && (status->0.state is DfuFreshlyWritten || (
            status->0.state is SwappedImageTrialBooted && watchdog_reset))
            &&& status is Corrupt <==> action is Record
            &&& action matches BootAction::Record(recorded) ==> recorded is DfuContentsRejected
            &&& status is Empty ==> action is Start
            &&& status is Valid && (status->0.state is DfuContentsRejected || status->0.state
                is SwappedImageBootTimeout || status->0.state is Invalid) ==> action is Start
        }),
{
}

/// Chooses what to do at reset from the stored status and the reason of the reset.
///
/// A fresh image is swapped in for a trial boot, and swapped out again when the trial ended in a
/// watchdog reset.
pub fn boot_decision(status: DecodeResult, watchdog_reset: bool) -> (action: BootAction)
    ensures
        action == (match status {
            DecodeResult::Empty => BootAction::Start,
            DecodeResult::Corrupt => BootAction::Record(BootloaderState::DfuContentsRejected),
            DecodeResult::Valid(found) => match found.state {
                BootloaderState::DfuFreshlyWritten => BootAction::Swap {
                    mode: SwapMode::Normal,
                    then: BootloaderState::SwappedImageTrialBooted,
                },
                BootloaderState::SwappedImageTrialBooted => if watchdog_reset {
                    BootAction::Swap {
                        mode: SwapMode::Revert,
                        then: BootloaderState::SwappedImageBootTimeout,
                    }
                } else {
                    BootAction::Start
                },
                _ => BootAction::Start,
            },
        }),
        action == boot_action(status, watchdog_reset),
{
    match status {
        DecodeResult::Empty => BootAction::Start,
        DecodeResult::Corrupt => BootAction::Record(BootloaderState::DfuContentsRejected),
        DecodeResult::Valid(found) => match found.state {
            BootloaderState::DfuFreshlyWritten => BootAction::Swap {
                mode: SwapMode::Normal,
                then: BootloaderState::SwappedImageTrialBooted,
            },
            BootloaderState::SwappedImageTrialBooted => {
                if watchdog_reset {
                    BootAction::Swap {
                        mode: SwapMode::Revert,
                        then: BootloaderState::SwappedImageBootTimeout,
                    }
                } else {
                    BootAction::Start
                }
            }
            _ => BootAction::Start,
        },
    }
}

/// The layout of a stored status: the number of the state, the length and the checksum of the
/// image, and the checksum of all that, each with its least significant byte first.
pub proof fn law_status_layout(status: BootloaderStatus, crc: u32)
    ensures
        ({
            let b = status.stored(crc);
            &&& b.len() == 16
            &&& b[0] + 256 * b[1] + 65536 * b[2] + 16777216 * b[3] == status.state.number()
            &&& b[4] + 256 * b[5] + 65536 * b[6] + 16777216 * b[7] == status.image_length
            &&& b[8] + 256 * b[9] + 65536 * b[10] + 16777216 * b[11] == status.image_crc32
            &&& b[12] + 256 * b[13] + 65536 * b[14] + 16777216 * b[15] == crc
            &&& status.covered() == b.take(12)
        }),
{
    let b = status.stored(crc);
    assert(status.covered() =~= b.take(12));
    assert(b.subrange(0, 4) =~= bytes::u32_bytes(status.state.number()));
    assert(b.subrange(4, 8) =~= bytes::u32_bytes(status.image_length));
    assert(b.subrange(8, 12) =~= bytes::u32_bytes(status.image_crc32));
    assert(b.subrange(12, 16) =~= bytes::u32_bytes(crc));
    bytes::lemma_u32_round_trip(b, 0, status.state.number());
    bytes::lemma_u32_round_trip(b, 4, status.image_length);
    bytes::lemma_u32_round_trip(b, 8, status.image_crc32);
    bytes::lemma_u32_round_trip(b, 12, crc);
    bytes::law_least_significant_byte_first(0, 0, b, 0);
    bytes::law_least_significant_byte_first(0, 0, b, 4);
    bytes::law_least_significant_byte_first(0, 0, b, 8);
    bytes::law_least_significant_byte_first(0, 0, b, 12);
}

/// Each state has its number, and every other number stands for no state. Erased flash holds none.
pub proof fn law_states_have_their_numbers(state: BootloaderState, raw: u32)
    ensures
        BootloaderState::of_number(state.number()) == state,
        BootloaderState::DfuFreshlyWritten.number() == 1,
        BootloaderState::DfuContentsRejected.number() == 2,
        BootloaderState::SwappedImageTrialBooted.number() == 3,
        BootloaderState::SwappedImageBootTimeout.number() == 4,
        raw == 0 || raw > 4 <==> BootloaderState::of_number(raw) is Invalid,
{
}

/// A status is never trusted against its checksum: bytes that are not erased are valid exactly when
/// the checksum in the last four is the one given, and they are corrupt else.
pub proof fn law_corrupt_status_is_told(bytes: Seq<u8>, crc: u32)
    requires
        bytes.len() == 16,
    ensures
        ({
            let claimed = bytes[12] + 256 * bytes[13] + 65536 * bytes[14] + 16777216 * bytes[15];
            let erased = forall|i: int| 0 <= i < 16 ==> #[trigger] bytes[i] == 0xFF;
            let result = BootloaderStatus::decoded(bytes, crc);
            &&& erased <==> result is Empty
            &&& !erased && claimed != crc <==> result is Corrupt
            &&& result matches DecodeResult::Valid(found) ==> {
                &&& found.image_length == bytes[4] + 256 * bytes[5] + 65536 * bytes[6] + 16777216
                    * bytes[7]
                &&& found.image_crc32 == bytes[8] + 256 * bytes[9] + 65536 * bytes[10] + 16777216
                    * bytes[11]
            }
        }),
{
    assert(bytes::all_erased(bytes) == (forall|i: int|
        0 <= i < 16 ==> #[trigger] bytes[i] == 0xFF));
}

} // verus!
