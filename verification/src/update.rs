//! Reception of a firmware image, chunk by chunk.

use vstd::prelude::*;

use crate::constants::{UPDATE_CHUNK_BYTES, UPDATE_STAGE_BYTES};

verus! {

#[derive(Clone, Copy, Debug, PartialEq, Eq, Structural)]
pub enum FirmwareUpdateFault {
    CounterGap,
    ImageTooLarge,
    LengthMismatch,
    CrcMismatch,
}

/// Writable (partial) firmware bytes
#[derive(Debug)]
pub struct DfuWriteData {
    pub offset: u32,
    pub len: usize,
    pub data: [u8; UPDATE_STAGE_BYTES],
}

/// Verification to check the firmware data bytes against
#[derive(Clone, Copy, Debug, PartialEq, Eq, Structural)]
pub struct DfuVerification {
    pub length: u32,
    pub crc32: u32,
}

/// Where a transfer stands.
#[verifier::ext_equal]
pub struct Transfer {
    pub active: bool,
    /// Counter of the chunk that continues the transfer.
    pub next_counter: int,
    /// Number of bytes that were handed out for writing.
    pub flushed: int,
    /// Bytes received since.
    pub staged: Seq<u8>,
}

impl Transfer {
    /// No transfer under way.
    pub open spec fn idle() -> Transfer {
        Transfer { active: false, next_counter: 0, flushed: 0, staged: Seq::empty() }
    }

    /// A transfer that has just begun.
    pub open spec fn begun() -> Transfer {
        Transfer { active: true, next_counter: 0, flushed: 0, staged: Seq::empty() }
    }

    /// Number of bytes received.
    pub open spec fn received(self) -> int {
        self.flushed + self.staged.len()
    }

    /// The transfer that a chunk with this counter belongs to. Counter zero begins a new one.
    pub open spec fn addressed_by(self, counter: u16) -> Transfer {
        if counter == 0 {
            Transfer::begun()
        } else {
            self
        }
    }

    /// The counter continues the transfer or begins one.
    pub open spec fn continues(self, counter: u16) -> bool {
        counter == 0 || (self.active && counter == self.next_counter)
    }

    /// One more chunk fits in an image of `capacity` bytes.
    pub open spec fn has_room(self, capacity: u32) -> bool {
        self.received() + 6 <= capacity
    }

    /// The transfer once a chunk was received.
    pub open spec fn with_chunk(self, chunk: Seq<u8>) -> Transfer {
        let staged = self.staged + chunk;
        Transfer {
            active: true,
            next_counter: self.next_counter + 1,
            flushed: if staged.len() == 24 {
                self.flushed + 24
            } else {
                self.flushed
            },
            staged: if staged.len() == 24 {
                Seq::empty()
            } else {
                staged
            },
        }
    }

    /// What a chunk gives to be written: all that is staged, once that is a full stage.
    pub open spec fn stage_write(self, chunk: Seq<u8>) -> Option<(int, Seq<u8>)> {
        if self.staged.len() + chunk.len() == 24 {
            Some((self.flushed, self.staged + chunk))
        } else {
            None
        }
    }

    /// The image of `length` bytes ends in the chunk received last.
    pub open spec fn completes(self, length: u32) -> bool {
        self.active && 0 < length <= self.received() && self.received() - length < 6
    }

    /// The staged bytes, padded to a full stage as erased flash reads.
    pub open spec fn padded(self) -> Seq<u8> {
        self.staged + Seq::new((24 - self.staged.len()) as nat, |i: int| 0xFFu8)
    }
}

/// The least multiple of eight that is no less than `n`.
pub open spec fn whole_words(n: int) -> int {
    (n + 7) / 8 * 8
}

/// Receives the chunks of a firmware image and gathers them into writes.
pub struct FirmwareUpdateState {
    capacity: u32,
    active: bool,
    next_counter: u16,
    staged: [u8; UPDATE_STAGE_BYTES],
    staged_len: usize,
    write_offset: u32,
}

impl View for FirmwareUpdateState {
    type V = Transfer;

    closed spec fn view(&self) -> Transfer {
        Transfer {
            active: self.active,
            next_counter: self.next_counter as int,
            flushed: self.write_offset as int,
            staged: self.staged@.subrange(0, self.staged_len as int),
        }
    }
}

impl FirmwareUpdateState {
    #[verifier::type_invariant]
    spec fn well_formed(self) -> bool {
        &&& self.staged_len < 24
        &&& self.staged_len % 6 == 0
        &&& self.write_offset + self.staged_len == 6 * self.next_counter
    }

    /// Number of bytes that an image may have.
    pub closed spec fn image_capacity(self) -> u32 {
        self.capacity
    }

    pub fn new(capacity: u32) -> (state: Self)
        ensures
            state@ == Transfer::idle(),
            state.image_capacity() == capacity,
    {
        FirmwareUpdateState {
            capacity,
            active: false,
            next_counter: 0,
            staged: [0;UPDATE_STAGE_BYTES],
            staged_len: 0,
            write_offset: 0,
        }
    }

    /// Abandons the transfer.
    pub fn reset(&mut self)
        ensures
            final(self)@ == Transfer::idle(),
            final(self).image_capacity() == old(self).image_capacity(),
    {
        *self = FirmwareUpdateState::new(self.capacity);
    }

    /// Takes a chunk in. A chunk that does not continue the transfer, or does not fit, ends it.
    ///
    /// The last counter value has no successor, so its chunk cannot be taken in.
    pub fn on_data(&mut self, counter: u16, chunk: &[u8; UPDATE_CHUNK_BYTES]) -> (result: Result<
        Option<DfuWriteData>,
        FirmwareUpdateFault,
    >)
        requires
            counter < u16::MAX || !old(self)@.continues(counter) || !old(self)@.has_room(
                old(self).image_capacity(),
            ),
        ensures
            final(self).image_capacity() == old(self).image_capacity(),
            ({
                let before = old(self)@.addressed_by(counter);
                if !old(self)@.continues(counter) {
                    &&& result == Err::<Option<DfuWriteData>, _>(FirmwareUpdateFault::CounterGap)
                    &&& final(self)@ == Transfer::idle()
                } else if !before.has_room(old(self).image_capacity()) {
                    &&& result == Err::<Option<DfuWriteData>, _>(FirmwareUpdateFault::ImageTooLarge)
                    &&& final(self)@ == Transfer::idle()
                } else {
                    &&& final(self)@ == before.with_chunk(chunk@)
                    &&& match before.stage_write(chunk@) {
                        Some((offset, data)) => {
                            &&& result matches Ok(Some(write))
                            &&& write.offset == offset
                            &&& write.len == 24
                            &&& write.data@ == data
                        },
                        None => result matches Ok(None),
                    }
                }
            }),
    {
        proof {
            use_type_invariant(&*self);
        }
        let ghost before = self@.addressed_by(counter);
        if counter == 0 {
            *self = FirmwareUpdateState {
                capacity: self.capacity,
                active: true,
                next_counter: 0,
                staged: [0;UPDATE_STAGE_BYTES],
                staged_len: 0,
                write_offset: 0,
            };
        } else if !self.active || counter != self.next_counter {
            self.reset();
            return Err(FirmwareUpdateFault::CounterGap);
        }
        proof {
            use_type_invariant(&*self);
        }
        assert(self@ == before);
        if self.write_offset + (self.staged_len + UPDATE_CHUNK_BYTES) as u32 > self.capacity {
            self.reset();
            return Err(FirmwareUpdateFault::ImageTooLarge);
        }
        let mut staged = self.staged;
        let mut i: usize = 0;
        while i < UPDATE_CHUNK_BYTES
            invariant
                i <= 6,
                self.staged_len <= 18,
                forall|j: int| 0 <= j < self.staged_len ==> staged@[j] == self.staged@[j],
                forall|j: int| 0 <= j < i ==> staged@[self.staged_len + j] == chunk@[j],
            decreases 6 - i,
        {
            staged[self.staged_len + i] = chunk[i];
            i += 1;
        }
        let staged_len: usize = self.staged_len + UPDATE_CHUNK_BYTES;
        assert(staged@.subrange(0, staged_len as int) == before.staged + chunk@);
        if staged_len == UPDATE_STAGE_BYTES {
            assert(staged@ == before.staged + chunk@);
            let write = DfuWriteData {
                offset: self.write_offset,
                len: UPDATE_STAGE_BYTES,
                data: staged,
            };
            *self = FirmwareUpdateState {
                capacity: self.capacity,
                active: true,
                next_counter: counter + 1,
                staged,
                staged_len: 0,
                write_offset: self.write_offset + UPDATE_STAGE_BYTES as u32,
            };
            Ok(Some(write))
        } else {
            *self = FirmwareUpdateState {
                capacity: self.capacity,
                active: true,
                next_counter: counter + 1,
                staged,
                staged_len,
                write_offset: self.write_offset,
            };
            Ok(None)
        }
    }

    /// Ends the transfer. An image that is complete gives what is left to be written and what
    /// the written image is to be checked against.
    pub fn on_apply(&mut self, length: u32, crc32: u32) -> (result: Result<
        (Option<DfuWriteData>, DfuVerification),
        FirmwareUpdateFault,
    >)
        ensures
            final(self)@ == Transfer::idle(),
            final(self).image_capacity() == old(self).image_capacity(),
            ({
                let before = old(self)@;
                if !before.completes(length) {
                    result == Err::<(Option<DfuWriteData>, DfuVerification), _>(
                        FirmwareUpdateFault::LengthMismatch,
                    )
                } else {
                    &&& result matches Ok((flush, verification))
                    &&& verification == (DfuVerification { length, crc32 })
                    &&& verification.length == length
                    &&& verification.crc32 == crc32
                    &&& before.staged.len() == 0 ==> flush is None
                    &&& before.staged.len() > 0 ==> {
                        &&& flush matches Some(write)
                        &&& write.offset == before.flushed
                        &&& write.len == whole_words(length - before.flushed)
                        &&& write.data@ == before.padded()
                    }
                }
            }),
    {
        proof {
            use_type_invariant(&*self);
        }
        let ghost before = self@;
        let received: u32 = self.write_offset + self.staged_len as u32;
        let complete = self.active && length > 0 && length <= received && received - length
            < UPDATE_CHUNK_BYTES as u32;
        if !complete {
            self.reset();
            return Err(FirmwareUpdateFault::LengthMismatch);
        }
        let flush = if self.staged_len > 0 {
            // The padding lies beyond the length, outside the verified image
            let mut data = self.staged;
            let mut i: usize = self.staged_len;
            while i < UPDATE_STAGE_BYTES
                invariant
                    self.staged_len <= i <= 24,
                    forall|j: int| 0 <= j < self.staged_len ==> data@[j] == self.staged@[j],
                    forall|j: int| self.staged_len <= j < i ==> data@[j] == 0xFF,
                decreases 24 - i,
            {
                data[i] = 0xFF;
                i += 1;
            }
            assert(data@ == before.padded());
            let tail: u32 = length - self.write_offset;
            let len: usize = ((tail + 7) / 8 * 8) as usize;
            Some(DfuWriteData { offset: self.write_offset, len, data })
        } else {
            None
        };
        self.reset();
        Ok((flush, DfuVerification { length, crc32 }))
    }
}

/// The bytes of a series of chunks.
pub open spec fn sent(chunks: Seq<Seq<u8>>) -> Seq<u8>
    decreases chunks.len(),
{
    if chunks.len() == 0 {
        Seq::empty()
    } else {
        sent(chunks.drop_last()) + chunks.last()
    }
}

/// Where a transfer stands that received a series of chunks from counter zero on.
pub open spec fn transferred(chunks: Seq<Seq<u8>>) -> Transfer
    decreases chunks.len(),
{
    if chunks.len() == 0 {
        Transfer::begun()
    } else {
        transferred(chunks.drop_last()).with_chunk(chunks.last())
    }
}

/// What the writes of that transfer put into flash, one behind the other.
pub open spec fn written(chunks: Seq<Seq<u8>>) -> Seq<u8>
    decreases chunks.len(),
{
    if chunks.len() == 0 {
        Seq::empty()
    } else {
        match transferred(chunks.drop_last()).stage_write(chunks.last()) {
            Some((_, data)) => written(chunks.drop_last()) + data,
            None => written(chunks.drop_last()),
        }
    }
}

/// Nothing that was received is lost or reordered: what was written, followed by what is staged,
/// is what was sent, and each write goes where the one before it ended.
pub proof fn law_transfer_keeps_every_byte(chunks: Seq<Seq<u8>>)
    requires
        forall|i: int| 0 <= i < chunks.len() ==> (#[trigger] chunks[i]).len() == 6,
    ensures
        written(chunks) + transferred(chunks).staged == sent(chunks),
        transferred(chunks).flushed == written(chunks).len(),
        transferred(chunks).next_counter == chunks.len(),
        transferred(chunks).active,
        transferred(chunks).received() == 6 * chunks.len(),
        transferred(chunks).staged.len() < 24,
        transferred(chunks).staged.len() % 6 == 0,
    decreases chunks.len(),
{
    if chunks.len() > 0 {
        let before = chunks.drop_last();
        assert forall|i: int| 0 <= i < before.len() implies (#[trigger] before[i]).len() == 6 by {
            assert(before[i] == chunks[i]);
        }
        law_transfer_keeps_every_byte(before);
        assert(chunks.last().len() == 6);
        assert(written(chunks) + transferred(chunks).staged =~= written(before) + (transferred(
            before,
        ).staged + chunks.last()));
        assert(written(before) + (transferred(before).staged + chunks.last()) =~= sent(before)
            + chunks.last());
    }
}

/// Applying a transfer leaves in flash, up to the length applied, what was sent.
pub proof fn law_applied_image_is_what_was_sent(chunks: Seq<Seq<u8>>, length: u32)
    requires
        forall|i: int| 0 <= i < chunks.len() ==> (#[trigger] chunks[i]).len() == 6,
        transferred(chunks).completes(length),
    ensures
        ({
            let last = transferred(chunks);
            let tail = if last.staged.len() > 0 {
                last.padded().take(whole_words(length - last.flushed))
            } else {
                Seq::empty()
            };
            (written(chunks) + tail).take(length as int) == sent(chunks).take(length as int)
        }),
{
    law_transfer_keeps_every_byte(chunks);
    let last = transferred(chunks);
    let image = written(chunks) + last.staged;
    let tail = if last.staged.len() > 0 {
        last.padded().take(whole_words(length - last.flushed))
    } else {
        Seq::empty()
    };
    assert((written(chunks) + tail).take(length as int) =~= image.take(length as int));
}

/// A chunk is accepted exactly when it begins a transfer or is the one that follows the last one.
/// The first chunk of a transfer forgets what came before.
pub proof fn law_chunks_come_in_order(transfer: Transfer, counter: u16, chunk: Seq<u8>)
    ensures
        counter == 0 ==> transfer.continues(counter) && transfer.addressed_by(counter).received()
            == 0 && transfer.addressed_by(counter).next_counter == 0,
        counter != 0 ==> transfer.addressed_by(counter) == transfer,
        counter != 0 && transfer.active ==> (transfer.continues(counter) <==> counter
            == transfer.next_counter),
        counter != 0 && !transfer.active ==> !transfer.continues(counter),
        transfer.with_chunk(chunk).next_counter == transfer.next_counter + 1,
        transfer.with_chunk(chunk).active,
        !Transfer::idle().continues(1) && !Transfer::idle().active,
{
}

/// A chunk that was taken is never repeated and never skipped: behind it only the next counter
/// continues.
pub proof fn law_only_the_next_chunk_continues(
    transfer: Transfer,
    counter: u16,
    chunk: Seq<u8>,
    later: u16,
)
    requires
        transfer.continues(counter),
        later != 0,
    ensures
        transfer.addressed_by(counter).with_chunk(chunk).continues(later) <==> later == counter + 1,
{
}

/// A transfer takes chunks of six bytes as long as the image stays within the capacity, and writes
/// them out in full stages of twenty-four bytes, each where the last one ended.
pub proof fn law_chunks_fill_the_capacity(transfer: Transfer, chunk: Seq<u8>, capacity: u32)
    requires
        chunk.len() == 6,
        transfer.staged.len() < 24,
        transfer.staged.len() % 6 == 0,
        0 <= transfer.flushed,
    ensures
        transfer.has_room(capacity) <==> transfer.with_chunk(chunk).received() <= capacity,
        transfer.with_chunk(chunk).received() == transfer.received() + 6,
        transfer.with_chunk(chunk).staged.len() < 24,
        transfer.stage_write(chunk) is Some <==> transfer.staged.len() == 18,
        transfer.stage_write(chunk) matches Some((offset, data)) ==> {
            &&& offset == transfer.flushed
            &&& data.len() == 24
            &&& data.take(18) == transfer.staged
            &&& data.skip(18) == chunk
            &&& transfer.with_chunk(chunk).flushed == offset + 24
            &&& transfer.with_chunk(chunk).staged.len() == 0
        },
        transfer.stage_write(chunk) is None ==> transfer.with_chunk(chunk).flushed
            == transfer.flushed && transfer.with_chunk(chunk).staged.take(
            transfer.staged.len() as int,
        ) == transfer.staged,
{
    let staged = transfer.staged + chunk;
    assert(staged.take(transfer.staged.len() as int) =~= transfer.staged);
    assert(staged.skip(transfer.staged.len() as int) =~= chunk);
}

/// An image is complete when its length lies in the last chunk received: with every byte before it
/// received, and nothing sent behind that chunk. What is staged is written padded as erased flash
/// reads.
pub proof fn law_complete_images_end_in_the_last_chunk(transfer: Transfer, length: u32)
    requires
        transfer.staged.len() < 24,
    ensures
        transfer.completes(length) ==> transfer.active && length > 0,
        transfer.active && transfer.received() > 0 && length == transfer.received()
            ==> transfer.completes(length),
        transfer.active && length > transfer.received() ==> !transfer.completes(length),
        transfer.active && length > 0 && length <= transfer.received() - 6 ==> !transfer.completes(
            length,
        ),
        transfer.active && length > 0 && transfer.received() - 5 <= length <= transfer.received()
            ==> transfer.completes(length),
        transfer.padded().len() == 24,
        transfer.padded().take(transfer.staged.len() as int) == transfer.staged,
        forall|i: int| transfer.staged.len() <= i < 24 ==> #[trigger] transfer.padded()[i] == 0xFF,
        whole_words(length as int) >= length,
        whole_words(length as int) < length + 8,
        whole_words(length as int) % 8 == 0,
{
    assert(transfer.padded().take(transfer.staged.len() as int) =~= transfer.staged);
}

} // verus!
