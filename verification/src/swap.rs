//! Exchange of the firmware image with the image in the DFU region, page by page.

use vstd::prelude::*;

use crate::bytes;
use crate::bytes::is_erased;

verus! {

/// Direction of an exchange.
#[derive(Clone, Copy, Debug, PartialEq, Eq, Structural)]
pub enum SwapMode {
    /// Bring the image of the DFU region in, keep the firmware in the DFU region.
    Normal,
    /// Bring the kept firmware back in.
    Revert,
}

/// Where the two images lie in flash. The DFU region has one page more than the image.
#[derive(Clone, Copy, Debug)]
pub struct BootloaderLayout {
    pub image_pages: u32,
    pub page_size_bytes: u32,
    pub firmware_offset_bytes: u32,
    pub dfu_offset_bytes: u32,
    pub dfu_size_bytes: u32,
}

/// One request of an exchange to the flash.
pub enum SwapRequest {
    FirmwareToDfu { firmware_page_offset: u32, scratch_page_offset: u32 },
    DfuToFirmware { dfu_page_offset: u32, firmware_page_offset: u32 },
    LogStep { step: u32 },
}

/// The error of an answer, if it is one.
pub open spec fn failure<E>(answer: Result<(), E>) -> Option<E> {
    match answer {
        Ok(_) => None,
        Err(error) => Some(error),
    }
}

/// Flash operations that an exchange is made of.
pub trait SwapOps: Sized {
    type Error;

    /// The requests made so far, oldest first, each with the error that it failed with, if any.
    closed spec fn history(&self) -> Seq<(SwapRequest, Option<Self::Error>)> {
        arbitrary()
    }

    /// Copies the firmware page to the scratch page.
    fn firmware_to_dfu(&mut self, firmware_page_offset: u32, scratch_page_offset: u32) -> (answer:
        Result<(), Self::Error>)
        ensures
            final(self).history() == old(self).history().push(
                (SwapRequest::FirmwareToDfu { firmware_page_offset, scratch_page_offset }, failure(answer)),
            ),
    ;

    /// Copies the DFU page to the firmware page.
    fn dfu_to_firmware(&mut self, dfu_page_offset: u32, firmware_page_offset: u32) -> (answer:
        Result<(), Self::Error>)
        ensures
            final(self).history() == old(self).history().push(
                (SwapRequest::DfuToFirmware { dfu_page_offset, firmware_page_offset }, failure(answer)),
            ),
    ;

    /// Marks a step as completed in the swap log.
    fn log_step(&mut self, step: u32) -> (answer: Result<(), Self::Error>)
        ensures
            final(self).history() == old(self).history().push(
                (SwapRequest::LogStep { step }, failure(answer)),
            ),
    ;
}

impl BootloaderLayout {
    /// Offset of a firmware page.
    pub open spec fn firmware_page(self, page: int) -> int {
        self.firmware_offset_bytes + page * self.page_size_bytes
    }

    /// An offset past the last page of the DFU region continues at its start.
    pub open spec fn wrapped(self, offset: int) -> int {
        if offset > self.dfu_offset_bytes + self.dfu_size_bytes - self.page_size_bytes {
            self.dfu_offset_bytes + (offset - self.dfu_offset_bytes) % (self.dfu_size_bytes as int)
        } else {
            offset
        }
    }

    /// Offset in the DFU region of the page that takes the place of a firmware page.
    pub open spec fn incoming_page(self, mode: SwapMode, page: int) -> int {
        match mode {
            SwapMode::Normal => self.dfu_offset_bytes + page * self.page_size_bytes,
            SwapMode::Revert => self.wrapped(
                self.dfu_offset_bytes + self.dfu_size_bytes - self.page_size_bytes + page
                    * self.page_size_bytes,
            ),
        }
    }

    /// Offset in the DFU region at which a firmware page is kept.
    pub open spec fn outgoing_page(self, mode: SwapMode, page: int) -> int {
        match mode {
            SwapMode::Normal => self.wrapped(
                self.dfu_offset_bytes + self.dfu_size_bytes - self.page_size_bytes + page
                    * self.page_size_bytes,
            ),
            SwapMode::Revert => self.wrapped(
                self.dfu_offset_bytes + self.dfu_size_bytes - 2 * self.page_size_bytes + page
                    * self.page_size_bytes,
            ),
        }
    }

    /// Number of steps of a whole exchange: each page is kept, then replaced.
    pub open spec fn total_steps(self) -> int {
        2 * self.image_pages
    }

    /// Offset in the DFU region, before it continues at the start, that is `back` pages before the
    /// end for the first firmware page.
    pub open spec fn offset_from_end(self, back: int, page: int) -> int {
        self.dfu_offset_bytes + self.dfu_size_bytes - back * self.page_size_bytes + page
            * self.page_size_bytes
    }

    /// What is computed of an offset that is to continue at the start of the DFU region fits in 32
    /// bits.
    pub open spec fn can_wrap(self, offset: int) -> bool {
        let end = self.dfu_offset_bytes + self.dfu_size_bytes;
        &&& end <= u32::MAX
        &&& self.page_size_bytes <= end
        &&& 0 <= offset <= u32::MAX
        &&& offset > end - self.page_size_bytes ==> offset >= self.dfu_offset_bytes
            && self.dfu_size_bytes > 0
    }

    /// What a step computes fits in 32 bits.
    pub open spec fn step_fits(self, mode: SwapMode, step: int) -> bool {
        let page = step / 2;
        &&& self.firmware_page(page) <= u32::MAX
        &&& if step % 2 == 0 {
            let back = if mode == SwapMode::Normal {
                1
            } else {
                2int
            };
            &&& back * self.page_size_bytes <= u32::MAX
            &&& back * self.page_size_bytes <= self.dfu_offset_bytes + self.dfu_size_bytes
            &&& self.can_wrap(self.offset_from_end(back, page))
        } else {
            match mode {
                SwapMode::Normal => self.incoming_page(mode, page) <= u32::MAX,
                SwapMode::Revert => self.can_wrap(self.offset_from_end(1, page)),
            }
        }
    }

    /// What completing an exchange computes, judged by its log, fits in 32 bits. A log without a
    /// free entry asks for nothing.
    pub open spec fn exchangeable(self, mode: SwapMode, log: Seq<u8>) -> bool {
        forall|entry: int| #[trigger]
            is_first_unmarked(log, entry) ==> {
                &&& self.total_steps() <= u32::MAX
                &&& forall|step: int|
                    (entry as u32) <= step < self.total_steps() ==> #[trigger] self.step_fits(
                        mode,
                        step,
                    )
            }
    }

    /// The offsets that an exchange computes fit in 32 bits, in either mode and from any step on.
    pub open spec fn addressable(self) -> bool {
        self.image_pages > 0 ==> {
            let last = (self.image_pages - 1) * self.page_size_bytes;
            &&& 2 * self.image_pages <= u32::MAX
            &&& self.page_size_bytes <= self.dfu_size_bytes
            &&& 2 * self.page_size_bytes <= u32::MAX
            &&& 2 * self.page_size_bytes <= self.dfu_offset_bytes + self.dfu_size_bytes
            &&& self.dfu_offset_bytes + self.dfu_size_bytes - self.page_size_bytes + last
                <= u32::MAX
            &&& self.dfu_offset_bytes + self.dfu_size_bytes <= u32::MAX
            &&& self.firmware_offset_bytes + last <= u32::MAX
        }
    }

    /// The page copy of a step.
    pub open spec fn page_request(self, mode: SwapMode, step: int) -> SwapRequest {
        if step % 2 == 0 {
            SwapRequest::FirmwareToDfu {
                firmware_page_offset: self.firmware_page(step / 2) as u32,
                scratch_page_offset: self.outgoing_page(mode, step / 2) as u32,
            }
        } else {
            SwapRequest::DfuToFirmware {
                dfu_page_offset: self.incoming_page(mode, step / 2) as u32,
                firmware_page_offset: self.firmware_page(step / 2) as u32,
            }
        }
    }

    /// The requests of the steps from `start` to the end: the page copy of each, then its mark
    /// in the swap log.
    pub open spec fn requests_from(self, mode: SwapMode, start: int) -> Seq<SwapRequest> {
        Seq::new(
            if start < self.total_steps() {
                (2 * (self.total_steps() - start)) as nat
            } else {
                0
            },
            |i: int|
                if i % 2 == 0 {
                    self.page_request(mode, start + i / 2)
                } else {
                    SwapRequest::LogStep { step: (start + i / 2) as u32 }
                },
        )
    }

    /// An offset past the last page of the DFU region continues at its start.
    fn wrap_offset_to_dfu(&self, offset: u32) -> (wrapped: u32)
        requires
            self.can_wrap(offset as int),
        ensures
            wrapped == self.wrapped(offset as int),
    {
        if offset > self.dfu_offset_bytes + self.dfu_size_bytes - self.page_size_bytes {
            self.dfu_offset_bytes + (offset - self.dfu_offset_bytes) % self.dfu_size_bytes
        } else {
            offset
        }
    }

    /// Whether what is computed of an offset fits in 32 bits.
    fn wraps(&self, offset: u64) -> (fits: bool)
        ensures
            fits == self.can_wrap(offset as int),
    {
        let limit: u64 = u32::MAX as u64;
        let end: u64 = self.dfu_offset_bytes as u64 + self.dfu_size_bytes as u64;
        end <= limit && self.page_size_bytes as u64 <= end && offset <= limit && (offset <= end
            - self.page_size_bytes as u64 || (offset >= self.dfu_offset_bytes as u64
            && self.dfu_size_bytes > 0))
    }

    /// Whether what a step computes fits in 32 bits.
    fn fits_step(&self, mode: SwapMode, step: u32) -> (fits: bool)
        ensures
            fits == self.step_fits(mode, step as int),
    {
        let limit: u64 = u32::MAX as u64;
        let page: u64 = (step / 2) as u64;
        let size: u64 = self.page_size_bytes as u64;
        assert(0 <= page * size <= 0x7FFF_FFFF * 0xFFFF_FFFF) by (nonlinear_arith)
            requires
                0 <= page <= 0x7FFF_FFFF,
                0 <= size <= 0xFFFF_FFFF,
        ;
        let page_offset: u64 = page * size;
        assert(page_offset == (step as int / 2) * self.page_size_bytes);
        if self.firmware_offset_bytes as u64 + page_offset > limit {
            return false;
        }
        let end: u64 = self.dfu_offset_bytes as u64 + self.dfu_size_bytes as u64;
        if step % 2 == 0 {
            let back: u64 = match mode {
                SwapMode::Normal => size,
                SwapMode::Revert => 2 * size,
            };
            back <= limit && back <= end && self.wraps(end - back + page_offset)
        } else {
            match mode {
                SwapMode::Normal => self.dfu_offset_bytes as u64 + page_offset <= limit,
                SwapMode::Revert => size <= end && self.wraps(end - size + page_offset),
            }
        }
    }

    /// Whether what completing an exchange computes, judged by its log, fits in 32 bits.
    pub fn is_exchangeable(&self, mode: SwapMode, swap_log: &[u8]) -> (fits: bool)
        ensures
            fits == self.exchangeable(mode, swap_log@),
    {
        let start: u32 = match first_unmarked(swap_log) {
            Some(entry) => {
                proof {
                    assert forall|e: int| #[trigger] is_first_unmarked(swap_log@, e) implies e
                        == entry by {
                        lemma_first_unmarked_unique(swap_log@, e, entry as int);
                    }
                }
                #[verifier::truncate]
                (entry as u32)
            },
            None => {
                return true;
            },
        };
        let ghost first = choose|e: int| is_first_unmarked(swap_log@, e);
        if self.image_pages > u32::MAX / 2 {
            assert(is_first_unmarked(swap_log@, first));
            return false;
        }
        let stop: u32 = 2 * self.image_pages;
        let mut step: u32 = start;
        while step < stop
            invariant
                start <= step,
                stop == self.total_steps(),
                is_first_unmarked(swap_log@, first),
                start == first as u32,
                forall|s: int| start <= s < step ==> #[trigger] self.step_fits(mode, s),
            decreases stop - step,
        {
            if !self.fits_step(mode, step) {
                assert(!self.step_fits(mode, step as int));
                return false;
            }
            step += 1;
        }
        true
    }
}

/// An exchange in an addressable layout can be completed, in either mode and whatever its log is.
pub proof fn law_addressable_layouts_are_exchangeable(
    layout: BootloaderLayout,
    mode: SwapMode,
    log: Seq<u8>,
)
    requires
        layout.addressable(),
    ensures
        layout.exchangeable(mode, log),
{
    if layout.image_pages > 0 {
        let size = layout.page_size_bytes as int;
        let last = (layout.image_pages - 1) * size;
        assert forall|step: int| 0 <= step < layout.total_steps() implies #[trigger] layout.step_fits(
            mode,
            step,
        ) by {
            let page = step / 2;
            assert(0 <= page * size <= last) by (nonlinear_arith)
                requires
                    0 <= page <= layout.image_pages - 1,
                    last == (layout.image_pages - 1) * size,
                    0 <= size,
            ;
            if layout.dfu_size_bytes == 0 {
                assert(size == 0);
                assert(page * size == 0) by (nonlinear_arith)
                    requires
                        size == 0,
                ;
            }
        }
    }
}

/// An entry of the swap log, eight bytes.
pub open spec fn log_entry(log: Seq<u8>, entry: int) -> Seq<u8> {
    log.subrange(8 * entry, 8 * entry + 8)
}

/// `entry` is the first whole entry of the log that was not written since the last erase.
pub open spec fn is_first_unmarked(log: Seq<u8>, entry: int) -> bool {
    &&& 0 <= entry < log.len() / 8
    &&& bytes::all_erased(log_entry(log, entry))
    &&& forall|i: int| 0 <= i < entry ==> !bytes::all_erased(#[trigger] log_entry(log, i))
}

/// The requests that completing an exchange takes, judged by its log. A log without a free entry
/// asks for none.
pub open spec fn pending_requests(
    layout: BootloaderLayout,
    mode: SwapMode,
    log: Seq<u8>,
) -> Seq<SwapRequest> {
    if exists|entry: int| is_first_unmarked(log, entry) {
        layout.requests_from(
            mode,
            (choose|entry: int| is_first_unmarked(log, entry)) as u32 as int,
        )
    } else {
        Seq::empty()
    }
}

/// Requests that were all answered with success.
pub open spec fn succeeded<E>(requests: Seq<SwapRequest>) -> Seq<(SwapRequest, Option<E>)> {
    requests.map_values(|request: SwapRequest| (request, None))
}

/// Finds the first free entry of the swap log.
fn first_unmarked(log: &[u8]) -> (entry: Option<usize>)
    ensures
        match entry {
            Some(found) => is_first_unmarked(log@, found as int),
            None => forall|i: int| !is_first_unmarked(log@, i),
        },
{
    let entries: usize = log.len() / 8;
    let mut i: usize = 0;
    while i < entries
        invariant
            i <= entries,
            entries == log@.len() / 8,
            log@.len() <= usize::MAX,
            forall|j: int| 0 <= j < i ==> !bytes::all_erased(#[trigger] log_entry(log@, j)),
        decreases entries - i,
    {
        let entry = vstd::slice::slice_subrange(log, 8 * i, 8 * i + 8);
        if is_erased(entry) {
            return Some(i);
        }
        i += 1;
    }
    None
}

/// Exchanges the images, resuming behind the last step that the log marks as completed.
///
/// `swap_log` is the log as it was read before the call.
pub fn swap_images<T: SwapOps>(
    ops: &mut T,
    layout: &BootloaderLayout,
    mode: SwapMode,
    swap_log: &[u8],
) -> (result: Result<(), T::Error>)
    requires
        layout.exchangeable(mode, swap_log@),
    ensures
        ({
            let before = old(ops).history();
            let after = final(ops).history();
            let requests = pending_requests(*layout, mode, swap_log@);
            match result {
                Ok(()) => after == before + succeeded(requests),
                Err(error) => exists|i: int|
                    0 <= i < requests.len() && after == before + succeeded(
                        requests.take(i),
                    ).push((#[trigger] requests[i], Some(error))),
            }
        }),
{
    let ghost before = ops.history();
    let ghost requests = pending_requests(*layout, mode, swap_log@);
    let start: u32 = match first_unmarked(swap_log) {
        Some(entry) => {
            assert(is_first_unmarked(swap_log@, entry as int));
            proof {
                lemma_first_unmarked_unique(
                    swap_log@,
                    entry as int,
                    choose|e: int| is_first_unmarked(swap_log@, e),
                );
            }
            #[verifier::truncate]
            (entry as u32)
        },
        None => {
            assert(before + succeeded(requests) == before);
            return Ok(());
        },
    };
    assert(requests == layout.requests_from(mode, start as int));
    let stop: u32 = 2 * layout.image_pages;
    let mut step: u32 = start;
    assert(before + succeeded(requests.take(0)) == before);
    while step < stop
        invariant
            forall|s: int| start <= s < stop ==> #[trigger] layout.step_fits(mode, s),
            stop == layout.total_steps(),
            requests == layout.requests_from(mode, start as int),
            requests == pending_requests(*layout, mode, swap_log@),
            before == old(ops).history(),
            start <= step,
            start < stop ==> step <= stop,
            start >= stop ==> step == start,
            ops.history() == before + succeeded(
                requests.take(if start < stop { 2 * (step - start) } else { 0 }),
            ),
        decreases stop - step,
    {
        let ghost done = 2 * (step - start);
        let page: u32 = step / 2;
        proof {
            assert(layout.step_fits(mode, step as int));
            assert(0 <= page * layout.page_size_bytes) by (nonlinear_arith);
            assert(requests[done] == layout.page_request(mode, step as int));
            assert(requests[done + 1] == SwapRequest::LogStep { step });
            lemma_succeeded_push::<T::Error>(requests, done);
            lemma_succeeded_push::<T::Error>(requests, done + 1);
        }
        let page_offset: u32 = page * layout.page_size_bytes;
        let firmware_page_offset: u32 = layout.firmware_offset_bytes + page_offset;
        let answer = if step % 2 == 0 {
            let dfu_end: u32 = layout.dfu_offset_bytes + layout.dfu_size_bytes;
            let scratch_page_offset: u32 = match mode {
                SwapMode::Normal => layout.wrap_offset_to_dfu(
                    dfu_end - layout.page_size_bytes + page_offset,
                ),
                SwapMode::Revert => layout.wrap_offset_to_dfu(
                    dfu_end - 2 * layout.page_size_bytes + page_offset,
                ),
            };
            ops.firmware_to_dfu(firmware_page_offset, scratch_page_offset)
        } else {
            let dfu_page_offset: u32 = match mode {
                SwapMode::Normal => layout.dfu_offset_bytes + page_offset,
                SwapMode::Revert => layout.wrap_offset_to_dfu(
                    layout.dfu_offset_bytes + layout.dfu_size_bytes - layout.page_size_bytes
                        + page_offset,
                ),
            };
            ops.dfu_to_firmware(dfu_page_offset, firmware_page_offset)
        };
        match answer {
            Ok(()) => {},
            Err(error) => {
                assert(ops.history() == before + succeeded(requests.take(done)).push(
                    (requests[done], Some(error)),
                ));
                return Err(error);
            },
        }
        assert(ops.history() == before + succeeded(requests.take(done)).push(
            (requests[done], None),
        ));
        match ops.log_step(step) {
            Ok(()) => {},
            Err(error) => {
                assert(ops.history() == before + succeeded(requests.take(done + 1)).push(
                    (requests[done + 1], Some(error)),
                ));
                return Err(error);
            },
        }
        assert(ops.history() == before + succeeded(requests.take(done + 1)).push(
            (requests[done + 1], None),
        ));
        step += 1;
    }
    assert(requests.take(requests.len() as int) == requests);
    Ok(())
}

/// A log has at most one first free entry.
pub proof fn lemma_first_unmarked_unique(log: Seq<u8>, a: int, b: int)
    requires
        is_first_unmarked(log, a),
        is_first_unmarked(log, b),
    ensures
        a == b,
{
    if a < b {
        assert(!bytes::all_erased(log_entry(log, a)));
    } else if b < a {
        assert(!bytes::all_erased(log_entry(log, b)));
    }
}

proof fn lemma_succeeded_push<E>(requests: Seq<SwapRequest>, i: int)
    requires
        0 <= i < requests.len(),
    ensures
        succeeded::<E>(requests.take(i + 1)) == succeeded::<E>(requests.take(i)).push(
            (requests[i], None),
        ),
{
    assert(requests.take(i + 1) == requests.take(i).push(requests[i]));
}

} // verus!
