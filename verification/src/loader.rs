//! Where the bootloader finds the images and its status page.

use vstd::prelude::*;

use crate::swap::BootloaderLayout;

verus! {

/// Byte that marks a step of an exchange as completed
pub const STEP_MARK: u8 = 0x55;

/// Bytes of the status in front of the swap log
pub const STATUS_BYTES: u32 = 16;

/// Layout of a firmware image of `firmware_size` bytes at `firmware_origin`, with the DFU region
/// at the start of the second flash bank and one page larger than the image.
pub fn bootloader_layout(
    firmware_origin: u32,
    firmware_size: u32,
    page_size: u32,
    flash_base: u32,
    second_bank: u32,
) -> (layout: BootloaderLayout)
    requires
        page_size > 0,
        flash_base <= firmware_origin,
        flash_base <= second_bank,
        firmware_size + page_size <= u32::MAX,
    ensures
        layout.image_pages == firmware_size as int / page_size as int,
        layout.page_size_bytes == page_size,
        layout.firmware_offset_bytes == firmware_origin - flash_base,
        layout.dfu_offset_bytes == second_bank - flash_base,
        layout.dfu_size_bytes == firmware_size + page_size,
{
    BootloaderLayout {
        image_pages: firmware_size / page_size,
        page_size_bytes: page_size,
        firmware_offset_bytes: firmware_origin - flash_base,
        dfu_offset_bytes: second_bank - flash_base,
        dfu_size_bytes: firmware_size + page_size,
    }
}

/// Offset of the status page, directly behind the DFU region.
pub fn status_offset(layout: &BootloaderLayout) -> (offset: u32)
    requires
        layout.dfu_offset_bytes + layout.dfu_size_bytes <= u32::MAX,
    ensures
        offset == layout.dfu_offset_bytes + layout.dfu_size_bytes,
{
    layout.dfu_offset_bytes + layout.dfu_size_bytes
}

/// Offset of the log entry of a step, in the page of the status.
pub fn log_entry_offset(layout: &BootloaderLayout, step: u32) -> (offset: u32)
    requires
        layout.dfu_offset_bytes + layout.dfu_size_bytes + 16 + 8 * step <= u32::MAX,
    ensures
        offset == layout.dfu_offset_bytes + layout.dfu_size_bytes + 16 + 8 * step,
{
    status_offset(layout) + (STATUS_BYTES + step * 8)
}

/// An image of whole pages that ends before the second bank, in a flash that 32 bits address with
/// room for a further image, is laid out so that the laws of an exchange hold.
pub proof fn law_layout_is_separated(layout: BootloaderLayout, firmware_size: u32)
    requires
        layout.page_size_bytes > 0,
        layout.image_pages > 0,
        firmware_size == layout.image_pages * layout.page_size_bytes,
        layout.dfu_size_bytes == firmware_size + layout.page_size_bytes,
        layout.firmware_offset_bytes + firmware_size <= layout.dfu_offset_bytes,
        layout.dfu_offset_bytes + 2 * firmware_size <= u32::MAX,
        layout.dfu_offset_bytes + layout.dfu_size_bytes <= u32::MAX,
    ensures
        layout.separated(),
{
    let pages = layout.image_pages as int;
    let size = layout.page_size_bytes as int;
    assert((pages - 1) * size == pages * size - size) by (nonlinear_arith);
    assert((pages + 1) * size == pages * size + size) by (nonlinear_arith);
    assert(size <= pages * size) by (nonlinear_arith)
        requires
            pages >= 1,
            size > 0,
    ;
    assert(pages <= pages * size) by (nonlinear_arith)
        requires
            pages >= 1,
            size >= 1,
    ;
}

} // verus!
