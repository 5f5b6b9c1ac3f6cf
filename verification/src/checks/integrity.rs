//! Checksum and rolling counter of a CAN frame.

use vstd::prelude::*;

use crate::checksum;
use crate::checksum::crc8;

verus! {

#[derive(Clone, Copy, Debug, PartialEq, Eq, Structural)]
pub enum FrameIntegrityFault {
    ChecksumMismatch,
    RepeatedCounter,
}

/// Validates the CRC + rolling counter of a CAN frame.
pub struct FrameIntegrity {
    last_counter: Option<u8>,
}

/// What is wrong with a frame whose covered bytes have the checksum `computed`, behind a frame
/// with the counter `last`.
pub open spec fn frame_fault(
    last: Option<u8>,
    computed: u8,
    counter: u8,
    checksum: u8,
) -> Option<FrameIntegrityFault> {
    if computed != checksum {
        Some(FrameIntegrityFault::ChecksumMismatch)
    } else if last == Some(counter) {
        Some(FrameIntegrityFault::RepeatedCounter)
    } else {
        None
    }
}

impl FrameIntegrity {
    /// The counter of the last frame that passed.
    pub closed spec fn last(self) -> Option<u8> {
        self.last_counter
    }

    pub fn new() -> (integrity: Self)
        ensures
            integrity.last() is None,
    {
        FrameIntegrity { last_counter: None }
    }

    /// `covered` is the byte range the message definition computes its checksum over.
    /// Checksum failures don't consume the counter, so a repeated counter stays
    /// rejected until the sender advances it.
    pub fn check(&mut self, covered: &[u8], counter: u8, checksum: u8) -> (result: Result<
        (),
        FrameIntegrityFault,
    >)
        ensures
            match frame_fault(
                old(self).last(),
                checksum::crc8_sae_j1850(covered@),
                counter,
                checksum,
            ) {
                Some(fault) => result == Err::<(), _>(fault) && *final(self) == *old(self),
                None => result is Ok && final(self).last() == Some(counter),
            },
    {
        let computed = crc8(covered);
        self.check_computed(computed, counter, checksum)
    }

    /// Like `check`, given the checksum of the covered bytes.
    pub fn check_computed(&mut self, computed: u8, counter: u8, checksum: u8) -> (result: Result<
        (),
        FrameIntegrityFault,
    >)
        ensures
            match frame_fault(old(self).last(), computed, counter, checksum) {
                Some(fault) => result == Err::<(), _>(fault) && *final(self) == *old(self),
                None => result is Ok && final(self).last() == Some(counter),
            },
    {
        if computed != checksum {
            return Err(FrameIntegrityFault::ChecksumMismatch);
        }
        if let Some(last) = self.last_counter {
            if last == counter {
                return Err(FrameIntegrityFault::RepeatedCounter);
            }
        }
        self.last_counter = Some(counter);
        Ok(())
    }
}

/// A frame as it is checked: the checksum of its covered bytes, its counter and its checksum.
pub struct Frame {
    pub computed: u8,
    pub counter: u8,
    pub checksum: u8,
}

/// The counter of the last frame that passed, behind a series of frames.
pub open spec fn last_behind(last: Option<u8>, frames: Seq<Frame>) -> Option<u8>
    decreases frames.len(),
{
    if frames.len() == 0 {
        last
    } else {
        let before = last_behind(last, frames.drop_last());
        let frame = frames.last();
        if frame_fault(before, frame.computed, frame.counter, frame.checksum) is None {
            Some(frame.counter)
        } else {
            before
        }
    }
}

/// A counter that passed stays rejected until a frame with another counter passes, however many
/// frames with wrong checksums or with the same counter come between.
pub proof fn law_counter_is_accepted_once(counter: u8, frames: Seq<Frame>, frame: Frame)
    requires
        forall|i: int|
            0 <= i < frames.len() ==> (#[trigger] frames[i]).computed != frames[i].checksum
                || frames[i].counter == counter,
        frame.counter == counter,
    ensures
        last_behind(Some(counter), frames) == Some(counter),
        frame_fault(
            last_behind(Some(counter), frames),
            frame.computed,
            frame.counter,
            frame.checksum,
        ) == Some(
            if frame.computed != frame.checksum {
                FrameIntegrityFault::ChecksumMismatch
            } else {
                FrameIntegrityFault::RepeatedCounter
            },
        ),
    decreases frames.len(),
{
    if frames.len() > 0 {
        let before = frames.drop_last();
        assert forall|i: int| 0 <= i < before.len() implies (#[trigger] before[i]).computed
            != before[i].checksum || before[i].counter == counter by {
            assert(before[i] == frames[i]);
        }
        law_counter_is_accepted_once(counter, before, frame);
        assert(frames.last() == frames[frames.len() - 1]);
    }
}

/// A frame with a correct checksum passes exactly when its counter differs from the last one,
/// skipped and wrapped counters alike.
pub proof fn law_any_other_counter_passes(last: Option<u8>, counter: u8, computed: u8)
    ensures
        frame_fault(last, computed, counter, computed) is None <==> last != Some(counter),
{
}

/// A frame is told apart by its checksum first: it fails exactly when its checksum is not the one
/// of its bytes, or its counter is the last one that passed.
pub proof fn law_frames_fail_for_a_reason(last: Option<u8>, computed: u8, counter: u8, checksum: u8)
    ensures
        frame_fault(last, computed, counter, checksum) == Some(
            FrameIntegrityFault::ChecksumMismatch,
        ) <==> computed != checksum,
        frame_fault(last, computed, counter, checksum) == Some(FrameIntegrityFault::RepeatedCounter)
            <==> computed == checksum && last == Some(counter),
        frame_fault(None, computed, counter, computed) is None,
{
}

} // verus!
