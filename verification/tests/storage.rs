use firmware_core::linker::{flash_region, linker_number, region_field, Region, RegionFault};
use firmware_core::loader::{bootloader_layout, log_entry_offset, status_offset};
use firmware_core::record::{decode_record_with_crc, encode_record_with_crc};
use firmware_core::{decode_record, encode_record, BootloaderLayout, FaultCause, MemoryFault, SwapMode, MAX_RECORD_BYTES};

/// CRC-32/ISO-HDLC, bit by bit
fn crc32(bytes: &[u8]) -> u32 {
    let mut crc = 0xFFFF_FFFFu32;
    for byte in bytes {
        crc ^= *byte as u32;
        for _ in 0..8 {
            crc = if crc & 1 != 0 { (crc >> 1) ^ 0xEDB8_8320 } else { crc >> 1 };
        }
    }
    !crc
}

#[test]
fn records_round_trip() {
    let mut buf = [0xFFu8; MAX_RECORD_BYTES];
    let used = encode_record(&[1, 2, 3], 0x0102, &mut buf).unwrap();
    assert_eq!(used, 11);
    assert_eq!(&buf[..7], &[0x02, 0x01, 3, 0, 1, 2, 3]);
    assert_eq!(&buf[7..11], &crc32(&buf[..7]).to_le_bytes());
    assert_eq!(decode_record(&buf, 0x0102), Ok(Some(vec![1, 2, 3])));
    assert_eq!(decode_record(&buf, 0x0103), Ok(None), "a record of another version");
}

#[test]
fn erased_sector_holds_no_record() {
    assert_eq!(decode_record(&[0xFF; MAX_RECORD_BYTES], 1), Ok(None));
}

#[test]
fn damaged_records_are_told() {
    let mut buf = [0xFFu8; MAX_RECORD_BYTES];
    encode_record(&[9; 8], 1, &mut buf).unwrap();
    for place in 0..16 {
        let mut damaged = buf;
        damaged[place] ^= 0x10;
        assert_eq!(decode_record(&damaged, 1), Err(MemoryFault::CorruptedData), "byte {place}");
    }
    // A length beyond the sector:
    let mut buf = [0u8; MAX_RECORD_BYTES];
    buf[2] = 57;
    assert_eq!(decode_record(&buf, 0), Err(MemoryFault::CorruptedData));
}

#[test]
fn largest_record_fills_the_buffer() {
    let mut buf = [0u8; MAX_RECORD_BYTES];
    assert_eq!(encode_record(&[7; 56], 1, &mut buf), Ok(MAX_RECORD_BYTES));
    assert_eq!(decode_record(&buf, 1), Ok(Some(vec![7; 56])));
    let before = buf;
    assert_eq!(encode_record(&[7; 57], 1, &mut buf), Err(MemoryFault::TooLarge));
    assert_eq!(buf, before);
}

#[test]
fn records_keep_a_checksum_that_is_given() {
    let mut buf = [0u8; MAX_RECORD_BYTES];
    encode_record_with_crc(&[5], 2, 0x1234_5678, &mut buf).unwrap();
    assert_eq!(decode_record_with_crc(&buf, 2, 0x1234_5678), Ok(Some(vec![5])));
    assert_eq!(decode_record_with_crc(&buf, 2, 0x1234_5679), Err(MemoryFault::CorruptedData));
}

#[test]
fn memory_faults_have_their_causes() {
    assert_eq!(FaultCause::from(MemoryFault::CorruptedData), FaultCause::MemoryCorruptedData);
    assert_eq!(FaultCause::from(MemoryFault::TooLarge), FaultCause::MemoryTooLarge);
    assert_eq!(FaultCause::from(MemoryFault::FlashInternalFault), FaultCause::MemoryFlashFault);
    assert_eq!(FaultCause::Empty.encode(), 0);
    assert_eq!(FaultCause::SetpointTimeout.encode(), 24);
    assert_eq!(FaultCause::SetpointTimeout.dedup_bit(), 1 << 24);
}

fn chars(text: &str) -> Vec<char> {
    text.chars().collect()
}

#[test]
fn linker_numbers_are_hex_decimal_or_scaled() {
    let cases = [
        ("0x08000000", Some(0x0800_0000)),
        ("0xfF", Some(255)),
        ("128K", Some(128 * 1024)),
        ("2M", Some(2 * 1024 * 1024)),
        ("4096", Some(4096)),
        ("+7", Some(7)),
        ("0x+A", Some(10)),
        ("4294967295", Some(u32::MAX)),
        ("4294967296", None),
        ("0x100000000", None),
        ("4095M", Some(4095 * 1024 * 1024)),
        ("4096M", None),
        ("", None),
        ("+", None),
        ("-1", None),
        ("0x", None),
        ("K", None),
        ("0X10", None),
        ("12k", None),
        ("1 2", None),
    ];
    for (text, expected) in cases {
        assert_eq!(linker_number(&chars(text)), expected, "{text}");
    }
}

#[test]
fn fields_are_found_by_their_keys() {
    let text = chars(" ORIGIN = 0x08000000, LENGTH=32K, ORIGIN = 5");
    assert_eq!(region_field(&text, "ORIGIN"), Some(0x0800_0000));
    assert_eq!(region_field(&text, "LENGTH"), Some(32 * 1024));
    assert_eq!(region_field(&text, "ALIGN"), None);
    assert_eq!(region_field(&chars("ORIGIN 5"), "ORIGIN"), None);
    assert_eq!(region_field(&chars("ORIGIN = "), "ORIGIN"), None);
}

#[test]
fn flash_region_is_read_from_a_memory_script() {
    let script = "MEMORY\n{\n  /* FLASH : ORIGIN = 1, LENGTH = 2 */\n  RAM : ORIGIN = 0x20000000, LENGTH = 128K\n\
                  \tFLASH : ORIGIN = 0x08000000, LENGTH = 32K /* 16 pages */\r\n}\n";
    assert_eq!(flash_region(&chars(script)), Ok(Region { origin: 0x0800_0000, length: 32 * 1024 }));
    assert_eq!(flash_region(&chars("RAM : ORIGIN = 1, LENGTH = 2")), Err(RegionFault::NoFlashRegion));
    assert_eq!(flash_region(&chars("")), Err(RegionFault::NoFlashRegion));
    assert_eq!(flash_region(&chars("FLASH (rx) : ORIGIN = 1, LENGTH = 2")), Err(RegionFault::NoFlashRegion));
    assert_eq!(flash_region(&chars("FLASH : LENGTH = 2")), Err(RegionFault::BadOrigin));
    assert_eq!(flash_region(&chars("FLASH : ORIGIN = 1, LENGTH = two")), Err(RegionFault::BadLength));
}

/// Scripts of a board with a bootloader in front of the firmware
#[test]
fn firmware_follows_the_bootloader() {
    let bootloader = flash_region(&chars(
        "MEMORY\n{\n    FLASH : ORIGIN = 0x08000000, LENGTH =  16K\n    RAM   : ORIGIN = 0x20000000, LENGTH =  96K\n}\n",
    ))
    .unwrap();
    let firmware = flash_region(&chars(
        "MEMORY\n{\n    FLASH  : ORIGIN = 0x08004000, LENGTH = 236K /* BANK_1 (offset by 16K bootloader) */\n    \
         RAM    : ORIGIN = 0x20000000, LENGTH =  96K /* SRAM1 + SRAM2 */\n}\n",
    ))
    .unwrap();
    assert_eq!(bootloader.origin + bootloader.length, firmware.origin);

    let layout = bootloader_layout(firmware.origin, firmware.length, 2048, 0x0800_0000, 0x0804_0000);
    assert_eq!(layout.image_pages, 118);
    assert!(layout.firmware_offset_bytes + firmware.length <= layout.dfu_offset_bytes);
    assert_eq!(status_offset(&layout), 0x4_0000 + 238 * 1024);
}

#[test]
fn images_lie_in_separate_banks() {
    let layout = bootloader_layout(0x0800_8000, 96 * 1024, 2048, 0x0800_0000, 0x0804_0000);
    assert_eq!(layout.image_pages, 48);
    assert_eq!(layout.page_size_bytes, 2048);
    assert_eq!(layout.firmware_offset_bytes, 0x8000);
    assert_eq!(layout.dfu_offset_bytes, 0x4_0000);
    assert_eq!(layout.dfu_size_bytes, 49 * 2048);
    assert_eq!(status_offset(&layout), 0x4_0000 + 49 * 2048);
    assert_eq!(log_entry_offset(&layout, 0), 0x4_0000 + 49 * 2048 + 16);
    assert_eq!(log_entry_offset(&layout, 3), 0x4_0000 + 49 * 2048 + 40);
}

#[test]
fn only_offsets_of_32_bits_can_be_exchanged() {
    let layout = bootloader_layout(0x0801_0000, 0x2_0000, 0x800, 0x0800_0000, 0x0804_0000);
    let erased = [0xFF; 1024];
    let completed = [0x55; 1024];
    let high_firmware = BootloaderLayout { firmware_offset_bytes: 0xFFFF_0000, ..layout };
    let high_dfu = BootloaderLayout { dfu_offset_bytes: 0xFFFF_0000, ..layout };
    let no_pages = BootloaderLayout { image_pages: 0, ..high_dfu };
    // A single page, kept in a DFU region at the start of the flash:
    let single = BootloaderLayout {
        image_pages: 1,
        page_size_bytes: 0x800,
        firmware_offset_bytes: 0x8000,
        dfu_offset_bytes: 0,
        dfu_size_bytes: 0x800,
    };
    for mode in [SwapMode::Normal, SwapMode::Revert] {
        assert!(layout.is_exchangeable(mode, &erased));
        assert!(!high_firmware.is_exchangeable(mode, &erased));
        assert!(!high_dfu.is_exchangeable(mode, &erased));
        assert!(no_pages.is_exchangeable(mode, &erased));
        // Nothing is computed where the log leaves nothing to do:
        assert!(high_firmware.is_exchangeable(mode, &completed));
    }
    assert!(single.is_exchangeable(SwapMode::Normal, &erased));
    assert!(!single.is_exchangeable(SwapMode::Revert, &erased));
}
