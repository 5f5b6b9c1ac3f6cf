//! What an exchange of images does to the contents of the flash, and what an interruption costs.

use vstd::prelude::*;

use crate::bytes;
use crate::swap;
use crate::swap::{BootloaderLayout, SwapMode, SwapRequest};

verus! {

/// Flash contents in which the `len` bytes at `from` were copied to `to`.
pub open spec fn copied(flash: spec_fn(int) -> u8, from: int, to: int, len: int) -> (spec_fn(
    int,
) -> u8) {
    |a: int|
        if to <= a < to + len {
            flash(from + (a - to))
        } else {
            flash(a)
        }
}

/// Flash contents once a request was served.
pub open spec fn served(
    flash: spec_fn(int) -> u8,
    request: SwapRequest,
    page_size: int,
) -> (spec_fn(int) -> u8) {
    match request {
        SwapRequest::FirmwareToDfu { firmware_page_offset, scratch_page_offset } => copied(
            flash,
            firmware_page_offset as int,
            scratch_page_offset as int,
            page_size,
        ),
        SwapRequest::DfuToFirmware { dfu_page_offset, firmware_page_offset } => copied(
            flash,
            dfu_page_offset as int,
            firmware_page_offset as int,
            page_size,
        ),
        SwapRequest::LogStep { .. } => flash,
    }
}

/// Flash contents once a series of requests was served.
pub open spec fn all_served(
    flash: spec_fn(int) -> u8,
    requests: Seq<SwapRequest>,
    page_size: int,
) -> (spec_fn(int) -> u8)
    decreases requests.len(),
{
    if requests.len() == 0 {
        flash
    } else {
        all_served(served(flash, requests[0], page_size), requests.drop_first(), page_size)
    }
}

impl BootloaderLayout {
    /// The DFU region holds the image and one page more, and lies apart from the firmware.
    pub open spec fn separated(self) -> bool {
        &&& self.addressable()
        &&& self.image_pages > 0
        &&& self.page_size_bytes > 0
        &&& self.dfu_size_bytes >= (self.image_pages + 1) * self.page_size_bytes
        &&& {
            ||| self.firmware_offset_bytes + self.image_pages * self.page_size_bytes
                <= self.dfu_offset_bytes
            ||| self.dfu_offset_bytes + self.dfu_size_bytes <= self.firmware_offset_bytes
        }
    }

    /// Offset of the page that the copy of a step overwrites.
    pub open spec fn overwritten_page(self, mode: SwapMode, step: int) -> int {
        if step % 2 == 0 {
            self.outgoing_page(mode, step / 2)
        } else {
            self.firmware_page(step / 2)
        }
    }

    /// The page of `flash` at `at` holds what the page of `origin` at `origin_at` holds.
    pub open spec fn page_holds(
        self,
        flash: spec_fn(int) -> u8,
        at: int,
        origin: spec_fn(int) -> u8,
        origin_at: int,
    ) -> bool {
        forall|b: int|
            0 <= b < self.page_size_bytes ==> #[trigger] flash(at + b) == origin(origin_at + b)
    }

    /// Contents of the flash from which the steps from `step` on complete an exchange that began
    /// at `origin`. Of the page that the next step overwrites nothing is asked.
    pub open spec fn resumable(
        self,
        mode: SwapMode,
        step: int,
        origin: spec_fn(int) -> u8,
        flash: spec_fn(int) -> u8,
    ) -> bool {
        forall|page: int| #[trigger]
            self.page_resumable(mode, step, origin, flash, page) || !(0 <= page < self.image_pages)
    }

    pub open spec fn page_resumable(
        self,
        mode: SwapMode,
        step: int,
        origin: spec_fn(int) -> u8,
        flash: spec_fn(int) -> u8,
        page: int,
    ) -> bool {
        let fw = self.firmware_page(page);
        let inc = self.incoming_page(mode, page);
        let out = self.outgoing_page(mode, page);
        &&& 2 * page + 1 < step ==> self.page_holds(flash, fw, origin, inc)
        &&& step <= 2 * page ==> self.page_holds(flash, fw, origin, fw)
        &&& step <= 2 * page + 1 ==> self.page_holds(flash, inc, origin, inc)
        &&& 2 * page < step ==> self.page_holds(flash, out, origin, fw)
    }

    /// Contents that an interruption of the copy of a step may leave: only the page that it
    /// overwrites differs. Behind the last step nothing is overwritten.
    pub open spec fn torn_during(
        self,
        mode: SwapMode,
        step: int,
        flash: spec_fn(int) -> u8,
        torn: spec_fn(int) -> u8,
    ) -> bool {
        let at = self.overwritten_page(mode, step);
        forall|a: int|
            step >= self.total_steps() || !(at <= a < at + self.page_size_bytes)
                ==> #[trigger] torn(a) == flash(a)
    }

    /// A series of interruptions of an exchange that began at `origin`: each with the step that
    /// was under way and the contents that it left. Each attempt goes on where the one before
    /// it was interrupted.
    pub open spec fn interrupted(
        self,
        mode: SwapMode,
        origin: spec_fn(int) -> u8,
        crashes: Seq<(int, spec_fn(int) -> u8)>,
    ) -> bool
        decreases crashes.len(),
    {
        crashes.len() > 0 ==> {
            let (start, before) = resume_point(origin, crashes.drop_last());
            let (stop, torn) = crashes.last();
            &&& self.interrupted(mode, origin, crashes.drop_last())
            &&& start <= stop <= self.total_steps()
            &&& self.torn_during(
                mode,
                stop,
                all_served(
                    before,
                    self.requests_from(mode, start).take(2 * (stop - start)),
                    self.page_size_bytes as int,
                ),
                torn,
            )
        }
    }

    /// The exchange is complete: each firmware page holds what its successor held, and what it
    /// held is kept in the DFU region.
    pub open spec fn exchanged(
        self,
        mode: SwapMode,
        origin: spec_fn(int) -> u8,
        flash: spec_fn(int) -> u8,
    ) -> bool {
        forall|page: int|
            0 <= page < self.image_pages ==> {
                &&& #[trigger] self.page_holds(
                    flash,
                    self.firmware_page(page),
                    origin,
                    self.incoming_page(mode, page),
                )
                &&& self.page_holds(
                    flash,
                    self.outgoing_page(mode, page),
                    origin,
                    self.firmware_page(page),
                )
            }
    }
}

/// Offsets in a DFU region of a page that lies `back` pages before the end, `page` pages on.
proof fn lemma_wrapped_page(layout: BootloaderLayout, back: int, page: int)
    requires
        layout.separated(),
        1 <= back <= 2,
        0 <= page < layout.image_pages,
    ensures
        layout.wrapped(
            layout.dfu_offset_bytes + layout.dfu_size_bytes - back * layout.page_size_bytes + page
                * layout.page_size_bytes,
        ) == if page < back {
            layout.dfu_offset_bytes + layout.dfu_size_bytes - (back - page) * layout.page_size_bytes
        } else {
            layout.dfu_offset_bytes + (page - back) * layout.page_size_bytes
        },
{
    let size = layout.page_size_bytes as int;
    let dfu = layout.dfu_size_bytes as int;
    let n = layout.image_pages as int;
    assert((back - page) * size == back * size - page * size) by (nonlinear_arith);
    assert((page - back) * size == page * size - back * size) by (nonlinear_arith);
    if page < back {
        assert((back - page) * size >= size) by (nonlinear_arith)
            requires
                back - page >= 1,
                size > 0,
        ;
    } else {
        assert(0 <= (page - back) * size < dfu) by (nonlinear_arith)
            requires
                0 <= page - back,
                page < n,
                back >= 1,
                size > 0,
                dfu >= (n + 1) * size,
        ;
        vstd::arithmetic::div_mod::lemma_mod_add_multiples_vanish((page - back) * size, dfu);
        vstd::arithmetic::div_mod::lemma_small_mod(((page - back) * size) as nat, dfu as nat);
    }
}

/// The step and the contents from which an exchange goes on after a series of interruptions.
pub open spec fn resume_point(
    origin: spec_fn(int) -> u8,
    crashes: Seq<(int, spec_fn(int) -> u8)>,
) -> (int, spec_fn(int) -> u8) {
    if crashes.len() == 0 {
        (0, origin)
    } else {
        crashes.last()
    }
}

/// Two pages do not overlap.
pub open spec fn apart(a: int, b: int, size: int) -> bool {
    a + size <= b || b + size <= a
}

/// Which pages of an exchange lie apart.
proof fn lemma_pages_apart(layout: BootloaderLayout, mode: SwapMode, page: int, other: int)
    requires
        layout.separated(),
        0 <= page < layout.image_pages,
        0 <= other < layout.image_pages,
    ensures
        ({
            let size = layout.page_size_bytes as int;
            &&& page <= other ==> apart(
                layout.outgoing_page(mode, page),
                layout.incoming_page(mode, other),
                size,
            )
            &&& page != other ==> apart(
                layout.outgoing_page(mode, page),
                layout.outgoing_page(mode, other),
                size,
            )
            &&& page != other ==> apart(
                layout.firmware_page(page),
                layout.firmware_page(other),
                size,
            )
            &&& apart(layout.firmware_page(page), layout.incoming_page(mode, other), size)
            &&& apart(layout.firmware_page(page), layout.outgoing_page(mode, other), size)
            &&& 0 <= layout.firmware_page(page) <= u32::MAX
            &&& 0 <= layout.incoming_page(mode, page) <= u32::MAX
            &&& 0 <= layout.outgoing_page(mode, page) <= u32::MAX
        }),
{
    let size = layout.page_size_bytes as int;
    let n = layout.image_pages as int;
    lemma_wrapped_page(layout, 1, page);
    lemma_wrapped_page(layout, 1, other);
    lemma_wrapped_page(layout, 2, page);
    lemma_wrapped_page(layout, 2, other);
    lemma_multiples(size, n, page, other);
    lemma_multiples(size, n, other, page);
}

proof fn lemma_multiples(size: int, n: int, page: int, other: int)
    requires
        size > 0,
        0 <= page < n,
        0 <= other < n,
    ensures
        0 <= page * size <= (n - 1) * size,
        (n - 1) * size + size == n * size,
        n * size + size == (n + 1) * size,
        (page - 1) * size == page * size - size,
        (page - 2) * size == page * size - 2 * size,
        (2 - page) * size == 2 * size - page * size,
        (1 - page) * size == size - page * size,
        page < other ==> page * size + size <= other * size,
        page + 1 < other ==> page * size + 2 * size <= other * size,
{
    assert(0 <= page * size <= (n - 1) * size) by (nonlinear_arith)
        requires
            0 <= page < n,
            size > 0,
    ;
    assert((n - 1) * size + size == n * size) by (nonlinear_arith);
    assert(n * size + size == (n + 1) * size) by (nonlinear_arith);
    assert((page - 1) * size == page * size - size) by (nonlinear_arith);
    assert((page - 2) * size == page * size - 2 * size) by (nonlinear_arith);
    assert((2 - page) * size == 2 * size - page * size) by (nonlinear_arith);
    assert((1 - page) * size == size - page * size) by (nonlinear_arith);
    if page < other {
        assert(page * size + size <= other * size) by (nonlinear_arith)
            requires
                page < other,
                size > 0,
        ;
    }
    if page + 1 < other {
        assert(page * size + 2 * size <= other * size) by (nonlinear_arith)
            requires
                page + 1 < other,
                size > 0,
        ;
    }
}



/// Serving the copy of one step leads from contents that the step can be resumed at to contents
/// that the next step can be resumed at.
proof fn lemma_step(
    layout: BootloaderLayout,
    mode: SwapMode,
    step: int,
    origin: spec_fn(int) -> u8,
    flash: spec_fn(int) -> u8,
)
    requires
        layout.separated(),
        0 <= step < layout.total_steps(),
        layout.resumable(mode, step, origin, flash),
    ensures
        layout.resumable(
            mode,
            step + 1,
            origin,
            served(flash, layout.page_request(mode, step), layout.page_size_bytes as int),
        ),
{
    let size = layout.page_size_bytes as int;
    let i = step / 2;
    let after = served(flash, layout.page_request(mode, step), size);
    assert forall|page: int| 0 <= page < layout.image_pages implies #[trigger] layout.page_resumable(
        mode,
        step + 1,
        origin,
        after,
        page,
    ) by {
        lemma_pages_apart(layout, mode, i, page);
        lemma_pages_apart(layout, mode, page, i);
        assert(layout.page_resumable(mode, step, origin, flash, page));
        assert(layout.page_resumable(mode, step, origin, flash, i));
        let fw = layout.firmware_page(page);
        let inc = layout.incoming_page(mode, page);
        let out = layout.outgoing_page(mode, page);
        assert forall|b: int| 0 <= b < size && 2 * page + 1 < step + 1 implies #[trigger] after(fw + b)
            == origin(inc + b) by {
            assert(flash(layout.incoming_page(mode, i) + b) == flash(
                layout.incoming_page(mode, i) + (fw + b - fw),
            ));
            if 2 * page + 1 < step {
                assert(flash(fw + b) == origin(inc + b));
            }
        }
        assert forall|b: int| 0 <= b < size && step + 1 <= 2 * page implies #[trigger] after(fw + b)
            == origin(fw + b) by {
            assert(flash(fw + b) == origin(fw + b));
        }
        assert forall|b: int|
            0 <= b < size && step + 1 <= 2 * page + 1 implies #[trigger] after(inc + b) == origin(
            inc + b,
        ) by {
            assert(flash(inc + b) == origin(inc + b));
        }
        assert forall|b: int| 0 <= b < size && 2 * page < step + 1 implies #[trigger] after(out + b)
            == origin(fw + b) by {
            if 2 * page < step {
                assert(flash(out + b) == origin(fw + b));
            } else {
                assert(flash(fw + b) == flash(fw + (out + b - out)));
            }
        }
    }
}

/// Contents that a step can be resumed at stay so whatever the page holds that the step is
/// about to overwrite.
proof fn lemma_torn(
    layout: BootloaderLayout,
    mode: SwapMode,
    step: int,
    origin: spec_fn(int) -> u8,
    flash: spec_fn(int) -> u8,
    torn: spec_fn(int) -> u8,
)
    requires
        layout.separated(),
        0 <= step <= layout.total_steps(),
        layout.resumable(mode, step, origin, flash),
        layout.torn_during(mode, step, flash, torn),
    ensures
        layout.resumable(mode, step, origin, torn),
{
    let size = layout.page_size_bytes as int;
    let i = step / 2;
    assert forall|page: int| 0 <= page < layout.image_pages implies #[trigger] layout.page_resumable(
        mode,
        step,
        origin,
        torn,
        page,
    ) by {
        if step < layout.total_steps() {
            lemma_pages_apart(layout, mode, i, page);
            lemma_pages_apart(layout, mode, page, i);
        }
        assert(layout.page_resumable(mode, step, origin, flash, page));
        let fw = layout.firmware_page(page);
        let inc = layout.incoming_page(mode, page);
        let out = layout.outgoing_page(mode, page);
        assert forall|b: int| 0 <= b < size && 2 * page + 1 < step implies #[trigger] torn(fw + b)
            == origin(inc + b) by {
            assert(flash(fw + b) == origin(inc + b));
        }
        assert forall|b: int| 0 <= b < size && step <= 2 * page implies #[trigger] torn(fw + b)
            == origin(fw + b) by {
            assert(flash(fw + b) == origin(fw + b));
        }
        assert forall|b: int| 0 <= b < size && step <= 2 * page + 1 implies #[trigger] torn(inc + b)
            == origin(inc + b) by {
            assert(flash(inc + b) == origin(inc + b));
        }
        assert forall|b: int| 0 <= b < size && 2 * page < step implies #[trigger] torn(out + b)
            == origin(fw + b) by {
            assert(flash(out + b) == origin(fw + b));
        }
    }
}

/// Serving the requests from a step on completes the exchange.
proof fn lemma_finish(
    layout: BootloaderLayout,
    mode: SwapMode,
    step: int,
    origin: spec_fn(int) -> u8,
    flash: spec_fn(int) -> u8,
)
    requires
        layout.separated(),
        0 <= step <= layout.total_steps(),
        layout.resumable(mode, step, origin, flash),
    ensures
        layout.exchanged(
            mode,
            origin,
            all_served(
                flash,
                layout.requests_from(mode, step),
                layout.page_size_bytes as int,
            ),
        ),
    decreases layout.total_steps() - step,
{
    let size = layout.page_size_bytes as int;
    let requests = layout.requests_from(mode, step);
    if step == layout.total_steps() {
        assert(requests.len() == 0);
        assert forall|page: int| 0 <= page < layout.image_pages implies #[trigger] layout.page_holds(
            flash,
            layout.firmware_page(page),
            origin,
            layout.incoming_page(mode, page),
        ) && layout.page_holds(
            flash,
            layout.outgoing_page(mode, page),
            origin,
            layout.firmware_page(page),
        ) by {
            assert(layout.page_resumable(mode, step, origin, flash, page));
        }
    } else {
        let next = served(flash, requests[0], size);
        lemma_step(layout, mode, step, origin, flash);
        lemma_finish(layout, mode, step + 1, origin, next);
        assert(requests.drop_first().drop_first() =~= layout.requests_from(mode, step + 1));
        assert(requests.drop_first()[0] == requests[1]);
        reveal_with_fuel(all_served, 3);
    }
}

/// Serving the requests of the steps from `start` to `stop` leads to contents that `stop` can be
/// resumed at.
proof fn lemma_part(
    layout: BootloaderLayout,
    mode: SwapMode,
    start: int,
    stop: int,
    origin: spec_fn(int) -> u8,
    flash: spec_fn(int) -> u8,
)
    requires
        layout.separated(),
        0 <= start <= stop <= layout.total_steps(),
        layout.resumable(mode, start, origin, flash),
    ensures
        layout.resumable(
            mode,
            stop,
            origin,
            all_served(
                flash,
                layout.requests_from(mode, start).take(2 * (stop - start)),
                layout.page_size_bytes as int,
            ),
        ),
    decreases stop - start,
{
    let size = layout.page_size_bytes as int;
    let requests = layout.requests_from(mode, start).take(2 * (stop - start));
    if start < stop {
        let next = served(flash, requests[0], size);
        lemma_step(layout, mode, start, origin, flash);
        lemma_part(layout, mode, start + 1, stop, origin, next);
        assert(requests.drop_first().drop_first() =~= layout.requests_from(mode, start + 1).take(
            2 * (stop - start - 1),
        ));
        assert(requests.drop_first()[0] == requests[1]);
        reveal_with_fuel(all_served, 3);
    }
}

/// However often an exchange is interrupted, the contents stay such that it can be resumed.
proof fn lemma_interrupted(
    layout: BootloaderLayout,
    mode: SwapMode,
    origin: spec_fn(int) -> u8,
    crashes: Seq<(int, spec_fn(int) -> u8)>,
)
    requires
        layout.separated(),
        layout.interrupted(mode, origin, crashes),
    ensures
        0 <= resume_point(origin, crashes).0 <= layout.total_steps(),
        layout.resumable(
            mode,
            resume_point(origin, crashes).0,
            origin,
            resume_point(origin, crashes).1,
        ),
    decreases crashes.len(),
{
    if crashes.len() == 0 {
        assert forall|page: int| 0 <= page < layout.image_pages implies
            #[trigger] layout.page_resumable(mode, 0, origin, origin, page) by {}
    } else {
        lemma_interrupted(layout, mode, origin, crashes.drop_last());
        let (start, before) = resume_point(origin, crashes.drop_last());
        let (stop, torn) = crashes.last();
        let at = all_served(
            before,
            layout.requests_from(mode, start).take(2 * (stop - start)),
            layout.page_size_bytes as int,
        );
        lemma_part(layout, mode, start, stop, origin, before);
        lemma_torn(layout, mode, stop, origin, at, torn);
    }
}

/// An exchange brings the other image in, page by page, and keeps the firmware.
pub proof fn law_swap_exchanges(
    layout: BootloaderLayout,
    mode: SwapMode,
    flash: spec_fn(int) -> u8,
)
    requires
        layout.separated(),
    ensures
        layout.exchanged(
            mode,
            flash,
            all_served(flash, layout.requests_from(mode, 0), layout.page_size_bytes as int),
        ),
{
    lemma_interrupted(layout, mode, flash, Seq::empty());
    lemma_finish(layout, mode, 0, flash, flash);
}

/// An exchange that was interrupted any number of times, at any point of any step, ends as one
/// that was not.
pub proof fn law_interrupted_swap_completes(
    layout: BootloaderLayout,
    mode: SwapMode,
    origin: spec_fn(int) -> u8,
    crashes: Seq<(int, spec_fn(int) -> u8)>,
)
    requires
        layout.separated(),
        layout.interrupted(mode, origin, crashes),
    ensures
        ({
            let (step, flash) = resume_point(origin, crashes);
            layout.exchanged(
                mode,
                origin,
                all_served(
                    flash,
                    layout.requests_from(mode, step),
                    layout.page_size_bytes as int,
                ),
            )
        }),
{
    lemma_interrupted(layout, mode, origin, crashes);
    let (step, flash) = resume_point(origin, crashes);
    lemma_finish(layout, mode, step, origin, flash);
}

/// Reverting an exchange brings every firmware page back as it was before the exchange.
pub proof fn law_revert_restores_firmware(
    layout: BootloaderLayout,
    origin: spec_fn(int) -> u8,
    swapped: spec_fn(int) -> u8,
    reverted: spec_fn(int) -> u8,
    page: int,
)
    requires
        layout.separated(),
        layout.exchanged(SwapMode::Normal, origin, swapped),
        layout.exchanged(SwapMode::Revert, swapped, reverted),
        0 <= page < layout.image_pages,
    ensures
        layout.page_holds(
            reverted,
            layout.firmware_page(page),
            origin,
            layout.firmware_page(page),
        ),
{
    let fw = layout.firmware_page(page);
    let kept = layout.outgoing_page(SwapMode::Normal, page);
    assert(layout.page_holds(
        swapped,
        fw,
        origin,
        layout.incoming_page(SwapMode::Normal, page),
    ));
    assert(layout.page_holds(swapped, kept, origin, fw));
    assert(layout.page_holds(
        reverted,
        fw,
        swapped,
        layout.incoming_page(SwapMode::Revert, page),
    ));
    assert forall|b: int| 0 <= b < layout.page_size_bytes implies #[trigger] reverted(fw + b)
        == origin(fw + b) by {
        assert(swapped(kept + b) == origin(fw + b));
    }
}

/// An erased log asks for the whole exchange.
pub proof fn law_erased_log_starts_at_the_first_step(
    layout: BootloaderLayout,
    mode: SwapMode,
    log: Seq<u8>,
)
    requires
        log.len() >= 8,
        bytes::all_erased(log),
    ensures
        swap::pending_requests(layout, mode, log) == layout.requests_from(mode, 0),
{
    assert(swap::is_first_unmarked(log, 0));
    swap::lemma_first_unmarked_unique(
        log,
        0,
        choose|entry: int| swap::is_first_unmarked(log, entry),
    );
}

/// Writing anything but erased bytes to the first free entry of the log moves the point of
/// resumption one step on.
pub proof fn law_logging_a_step_advances(
    layout: BootloaderLayout,
    mode: SwapMode,
    log: Seq<u8>,
    step: int,
    marked: Seq<u8>,
)
    requires
        swap::is_first_unmarked(log, step),
        step + 1 < log.len() / 8,
        step < u32::MAX,
        bytes::all_erased(swap::log_entry(log, step + 1)),
        marked.len() == log.len(),
        !bytes::all_erased(swap::log_entry(marked, step)),
        forall|i: int|
            0 <= i < log.len() && !(8 * step <= i < 8 * step + 8) ==> marked[i] == log[i],
    ensures
        swap::pending_requests(layout, mode, log) == layout.requests_from(mode, step),
        swap::pending_requests(layout, mode, marked) == layout.requests_from(mode, step + 1),
{
    swap::lemma_first_unmarked_unique(
        log,
        step,
        choose|entry: int| swap::is_first_unmarked(log, entry),
    );
    assert(swap::log_entry(marked, step + 1) =~= swap::log_entry(log, step + 1));
    assert forall|i: int| 0 <= i < step + 1 implies !bytes::all_erased(
        #[trigger] swap::log_entry(marked, i),
    ) by {
        if i < step {
            assert(swap::log_entry(marked, i) =~= swap::log_entry(log, i));
        }
    }
    assert(swap::is_first_unmarked(marked, step + 1));
    swap::lemma_first_unmarked_unique(
        marked,
        step + 1,
        choose|entry: int| swap::is_first_unmarked(marked, entry),
    );
}

/// A log whose first free entry lies behind the last step, or that has none, asks for nothing.
pub proof fn law_completed_log_asks_for_nothing(
    layout: BootloaderLayout,
    mode: SwapMode,
    log: Seq<u8>,
)
    requires
        log.len() <= u32::MAX,
        forall|step: int|
            0 <= step < layout.total_steps() && step < log.len() / 8 ==> !bytes::all_erased(
                #[trigger] swap::log_entry(log, step),
            ),
    ensures
        swap::pending_requests(layout, mode, log).len() == 0,
{
    if exists|entry: int| swap::is_first_unmarked(log, entry) {
        let entry = choose|entry: int| swap::is_first_unmarked(log, entry);
        assert(bytes::all_erased(swap::log_entry(log, entry)));
    }
}

/// An exchange brings every byte of the image in the DFU region to its place in the firmware, and
/// reverting it brings every byte of the firmware back.
pub proof fn law_every_byte_is_exchanged(
    layout: BootloaderLayout,
    flash: spec_fn(int) -> u8,
    offset: int,
)
    requires
        layout.separated(),
        0 <= offset < layout.image_pages * layout.page_size_bytes,
    ensures
        ({
            let size = layout.page_size_bytes as int;
            let swapped = all_served(flash, layout.requests_from(SwapMode::Normal, 0), size);
            let reverted = all_served(swapped, layout.requests_from(SwapMode::Revert, 0), size);
            &&& swapped(layout.firmware_offset_bytes + offset) == flash(
                layout.dfu_offset_bytes + offset,
            )
            &&& reverted(layout.firmware_offset_bytes + offset) == flash(
                layout.firmware_offset_bytes + offset,
            )
        }),
{
    let size = layout.page_size_bytes as int;
    let swapped = all_served(flash, layout.requests_from(SwapMode::Normal, 0), size);
    let reverted = all_served(swapped, layout.requests_from(SwapMode::Revert, 0), size);
    let page = offset / size;
    let b = offset % size;
    vstd::arithmetic::div_mod::lemma_fundamental_div_mod(offset, size);
    assert(page * size == size * page) by (nonlinear_arith);
    assert(0 <= page < layout.image_pages) by (nonlinear_arith)
        requires
            offset == size * page + b,
            0 <= b < size,
            0 <= offset < layout.image_pages * size,
    ;
    law_swap_exchanges(layout, SwapMode::Normal, flash);
    law_swap_exchanges(layout, SwapMode::Revert, swapped);
    assert(layout.page_holds(
        swapped,
        layout.firmware_page(page),
        flash,
        layout.incoming_page(SwapMode::Normal, page),
    ));
    assert(swapped(layout.firmware_page(page) + b) == flash(
        layout.incoming_page(SwapMode::Normal, page) + b,
    ));
    law_revert_restores_firmware(layout, flash, swapped, reverted, page);
    assert(reverted(layout.firmware_page(page) + b) == flash(layout.firmware_page(page) + b));
}

} // verus!
