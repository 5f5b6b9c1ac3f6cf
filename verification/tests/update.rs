use firmware_core::{
    FirmwareUpdateFault, FirmwareUpdateState, UPDATE_CHUNK_BYTES, UPDATE_STAGE_BYTES,
};

fn chunk(fill: u8) -> [u8; UPDATE_CHUNK_BYTES] {
    [fill; UPDATE_CHUNK_BYTES]
}

#[test]
fn emits_a_stage_write_once_the_stage_buffer_fills() {
    let mut s = FirmwareUpdateState::new(2 * UPDATE_STAGE_BYTES as u32);
    assert!(s.on_data(0, &chunk(1)).unwrap().is_none());
    assert!(s.on_data(1, &chunk(2)).unwrap().is_none());
    assert!(s.on_data(2, &chunk(3)).unwrap().is_none());
    let write = s.on_data(3, &chunk(4)).unwrap().unwrap();
    assert_eq!(write.offset, 0);
    assert_eq!(write.len, UPDATE_STAGE_BYTES);
    assert_eq!(write.data[..UPDATE_CHUNK_BYTES], chunk(1));
    assert_eq!(write.data[UPDATE_STAGE_BYTES - UPDATE_CHUNK_BYTES..], chunk(4));
}

#[test]
fn counter_gap_faults_until_restarted_from_zero() {
    let mut s = FirmwareUpdateState::new(2 * UPDATE_STAGE_BYTES as u32);
    s.on_data(0, &chunk(0)).unwrap();
    assert!(matches!(s.on_data(2, &chunk(0)), Err(FirmwareUpdateFault::CounterGap)));
    // The fault deactivated the transfer, so the once-valid counter is rejected too
    assert!(matches!(s.on_data(1, &chunk(0)), Err(FirmwareUpdateFault::CounterGap)));
    assert!(s.on_data(0, &chunk(0)).is_ok());
}

#[test]
fn rejects_chunks_beyond_capacity() {
    let mut s = FirmwareUpdateState::new(UPDATE_CHUNK_BYTES as u32);
    s.on_data(0, &chunk(0)).unwrap();
    assert!(matches!(s.on_data(1, &chunk(0)), Err(FirmwareUpdateFault::ImageTooLarge)));
}

#[test]
fn apply_flushes_padded_tail_rounded_to_write_granularity() {
    let mut s = FirmwareUpdateState::new(2 * UPDATE_STAGE_BYTES as u32);
    s.on_data(0, &chunk(0xAB)).unwrap();
    let (flush, verification) = s.on_apply(5, 0x1234).unwrap();
    let write = flush.unwrap();
    assert_eq!(write.offset, 0);
    assert_eq!(write.len, 8);
    assert_eq!(write.data[..UPDATE_CHUNK_BYTES], chunk(0xAB));
    assert_eq!(write.data[UPDATE_CHUNK_BYTES..8], [0xFF; 8 - UPDATE_CHUNK_BYTES]);
    assert_eq!(verification.length, 5);
    assert_eq!(verification.crc32, 0x1234);
}

#[test]
fn apply_after_a_full_stage_needs_no_flush_and_resets() {
    let mut s = FirmwareUpdateState::new(2 * UPDATE_STAGE_BYTES as u32);
    for counter in 0..(UPDATE_STAGE_BYTES / UPDATE_CHUNK_BYTES) as u16 {
        s.on_data(counter, &chunk(0)).unwrap();
    }
    let (flush, _) = s.on_apply(UPDATE_STAGE_BYTES as u32, 0).unwrap();
    assert!(flush.is_none());
    // Reset by apply: continuing the old counter sequence is a gap
    assert!(matches!(s.on_data(4, &chunk(0)), Err(FirmwareUpdateFault::CounterGap)));
}

#[test]
fn apply_rejects_length_exceeding_received_bytes() {
    let mut s = FirmwareUpdateState::new(2 * UPDATE_STAGE_BYTES as u32);
    s.on_data(0, &chunk(0)).unwrap();
    let over = UPDATE_CHUNK_BYTES as u32 + 1;
    assert!(matches!(s.on_apply(over, 0), Err(FirmwareUpdateFault::LengthMismatch)));
}

/// Of an image of 61 bytes, what is written up to the applied length is what was sent.
#[test]
fn written_image_is_the_sent_image() {
    let image: Vec<u8> = (0..66).map(|i| (7 * i + 3) as u8).collect();
    let length: u32 = 61;
    let mut flash = vec![0u8; 96];
    let mut s = FirmwareUpdateState::new(72);
    for (counter, sent) in image.chunks(UPDATE_CHUNK_BYTES).enumerate() {
        let mut data = [0u8; UPDATE_CHUNK_BYTES];
        data.copy_from_slice(sent);
        if let Some(write) = s.on_data(counter as u16, &data).unwrap() {
            let at = write.offset as usize;
            flash[at..at + write.len].copy_from_slice(&write.data[..write.len]);
        }
    }
    let (flush, verification) = s.on_apply(length, 9).unwrap();
    let write = flush.unwrap();
    assert_eq!(write.offset, 48);
    assert_eq!(write.len, 16);
    assert_eq!(write.data[18..], [0xFF; 6]);
    let at = write.offset as usize;
    flash[at..at + write.len].copy_from_slice(&write.data[..write.len]);
    assert_eq!(flash[..61], image[..61]);
    assert_eq!(verification.length, 61);
}

/// The applied length has to end in the chunk received last, and cannot be zero.
#[test]
fn apply_rejects_lengths_that_end_before_the_last_chunk() {
    for (length, accepted) in [(0, false), (6, false), (7, true), (12, true), (13, false)] {
        let mut s = FirmwareUpdateState::new(100);
        s.on_data(0, &chunk(1)).unwrap();
        s.on_data(1, &chunk(2)).unwrap();
        assert_eq!(s.on_apply(length, 0).is_ok(), accepted, "length {length}");
    }
    let mut s = FirmwareUpdateState::new(100);
    assert!(matches!(s.on_apply(1, 0), Err(FirmwareUpdateFault::LengthMismatch)));
}

/// Counter zero begins anew, whatever was received before.
#[test]
fn counter_zero_restarts_the_transfer() {
    let mut s = FirmwareUpdateState::new(100);
    s.on_data(0, &chunk(1)).unwrap();
    s.on_data(1, &chunk(2)).unwrap();
    s.on_data(0, &chunk(3)).unwrap();
    let (flush, _) = s.on_apply(6, 0).unwrap();
    let write = flush.unwrap();
    assert_eq!(write.offset, 0);
    assert_eq!(write.data[..6], chunk(3));

    s.on_data(0, &chunk(1)).unwrap();
    s.reset();
    assert!(matches!(s.on_data(1, &chunk(2)), Err(FirmwareUpdateFault::CounterGap)));
}
