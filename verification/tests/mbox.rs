use raspboot::mbox::{Channel, Mbox, MboxError, Response, SimTransport, Tag};
use raspboot::mbox::{mailbox_write_word, response_matches};

/// Every catalog entry with arguments of the prescribed count.
fn catalog() -> Vec<(Tag, Vec<u32>)> {
    vec![
        (Tag::GetBoardSerial, vec![]),
        (Tag::GetFirmwareRevision, vec![]),
        (Tag::GetBoardModel, vec![]),
        (Tag::GetBoardRevision, vec![]),
        (Tag::GetBoardMAC, vec![]),
        (Tag::GetARMMemory, vec![]),
        (Tag::GetVCMemory, vec![]),
        (Tag::GetDMAChannels, vec![]),
        (Tag::GetPowerState, vec![0]),
        (Tag::GetTiming, vec![0, 1]),
        (Tag::SetPowerState, vec![0, 1]),
        (Tag::GetClockState, vec![2]),
        (Tag::SetClockState, vec![2, 1]),
        (Tag::GetClockRate, vec![2]),
        (Tag::SetClockRate, vec![2, 4_000_000, 0]),
    ]
}

#[test]
fn built_request_frames_every_catalog_entry() {
    for (tag, args) in catalog() {
        let mut m = Mbox::new();
        m.build_request(tag, &args);
        let argc: usize = tag.value_slots() + 2;
        assert_eq!((m.buffer[0] & 0xFF) as usize, 4 * (3 + argc + 1));
        assert_eq!(m.buffer[5 + tag.value_slots()], 0);
    }
}

#[test]
fn built_request_layout_for_board_mac() {
    let mut m = Mbox::new();
    m.build_request(Tag::GetBoardMAC, &vec![]);
    assert_eq!(m.buffer[0], 8 * 4);
    assert_eq!(m.buffer[1], 0);
    assert_eq!(m.buffer[2], 0x0001_0003);
    assert_eq!(m.buffer[3], 8);
    assert_eq!(m.buffer[4], 0);
    assert_eq!(m.buffer[5], 0);
    assert_eq!(m.buffer[6], 0);
    assert_eq!(m.buffer[7], 0);
}

#[test]
fn built_request_layout_for_set_clock_rate() {
    let mut m = Mbox::new();
    m.build_request(Tag::SetClockRate, &vec![2, 4_000_000, 0]);
    assert_eq!(m.buffer[0], 9 * 4);
    assert_eq!(m.buffer[1], 0);
    assert_eq!(m.buffer[2], 0x0003_8002);
    assert_eq!(m.buffer[3], 12);
    assert_eq!(m.buffer[4], 0);
    assert_eq!(m.buffer[5], 2);
    assert_eq!(m.buffer[6], 4_000_000);
    assert_eq!(m.buffer[7], 0);
    assert_eq!(m.buffer[8], 0);
}

#[test]
fn board_mac_round_trip() {
    let mut m = Mbox::new();
    let mut t = SimTransport { code: 0x8000_0000, words: vec![0x3322_1100, 0x0000_5544] };
    let r = m.get_board_mac(&mut t);
    assert_eq!(r, Ok(0x0000_5544_3322_1100u64));
}

#[test]
fn board_serial_reassembles_low_word_first() {
    let mut m = Mbox::new();
    let mut t = SimTransport { code: 0x8000_0000, words: vec![0xAABB_CCDD, 0x0102_0304] };
    let r = m.get_board_serial(&mut t);
    assert_eq!(r, Ok(0x0102_0304_AABB_CCDDu64));
}

#[test]
fn identical_simulated_responses_decode_identically() {
    // One client arrives with a dirtied buffer, the other fresh; the
    // decoded results depend only on the delivered response.
    let mut m1 = Mbox::new();
    let mut dirty = SimTransport { code: 0x8000_0000, words: vec![0xFFFF_FFFF, 0xFFFF_FFFF] };
    let _ = m1.get_board_serial(&mut dirty);
    let mut m2 = Mbox::new();
    let mut t1 = SimTransport { code: 0x8000_0000, words: vec![7, 9] };
    let mut t2 = SimTransport { code: 0x8000_0000, words: vec![7, 9] };
    let r1 = m1.get_power_state(&mut t1, raspboot::mbox::Power::SDCard);
    let r2 = m2.get_power_state(&mut t2, raspboot::mbox::Power::SDCard);
    assert_eq!(r1, Ok((7, 9)));
    assert_eq!(r1, r2);
}

#[test]
fn error_header_decodes_to_response_error_for_every_tag() {
    for (tag, args) in catalog() {
        let mut m = Mbox::new();
        let mut t = SimTransport { code: 0x8000_0001, words: vec![] };
        let r = m.perform_property_call(&mut t, tag, &args);
        assert_eq!(r, Err(MboxError::ResponseError));
    }
}

#[test]
fn other_headers_decode_to_unknown_error_for_every_tag() {
    for code in [0u32, 1, 0x7FFF_FFFF, 0x8000_0002, 0xFFFF_FFFF] {
        for (tag, args) in catalog() {
            let mut m = Mbox::new();
            let mut t = SimTransport { code, words: vec![] };
            let r = m.perform_property_call(&mut t, tag, &args);
            assert_eq!(r, Err(MboxError::UnknownError));
        }
    }
}

#[test]
fn response_from_decodes_the_two_sentinels() {
    assert_eq!(Response::from(0x8000_0000), Response::Success);
    assert_eq!(Response::from(0x8000_0001), Response::Error);
    assert_eq!(Response::from(0), Response::UnknownError);
    assert_eq!(Response::from(0x8000_0002), Response::UnknownError);
    assert_eq!(Response::from(0xFFFF_FFFF), Response::UnknownError);
}

#[test]
fn new_client_has_a_zeroed_buffer() {
    let m = Mbox::new();
    assert_eq!(m.buffer.len(), 36);
    assert!(m.buffer.iter().all(|w| *w == 0));
}

#[test]
fn call_reports_the_delivered_code() {
    let mut m = Mbox::new();
    let mut ok = SimTransport { code: 0x8000_0000, words: vec![] };
    assert_eq!(m.call(&mut ok, Channel::ArmToVCProperty), Ok(()));
    assert_eq!(m.buffer[1], 0x8000_0000);
    let mut bad = SimTransport { code: 0x8000_0001, words: vec![] };
    assert_eq!(m.call(&mut bad, Channel::ArmToVCProperty), Err(MboxError::ResponseError));
    let mut odd = SimTransport { code: 42, words: vec![] };
    assert_eq!(m.call(&mut odd, Channel::ArmToVCProperty), Err(MboxError::UnknownError));
}

#[test]
fn simulated_exchange_delivers_into_the_value_slots() {
    // Through a public call: a transport that handed its words nowhere
    // would make the firmware revision read back as zero, not 0xBEEF.
    let mut m = Mbox::new();
    let mut t = SimTransport { code: 0x8000_0000, words: vec![0xBEEF] };
    assert_eq!(m.get_firmware_revision(&mut t), Ok(0xBEEF));
}

#[test]
fn short_responses_leave_the_request_arguments_in_place() {
    // A success that delivers no words hands back what the request put
    // into the value slots: the device id and the requested state.
    let mut m = Mbox::new();
    let mut t = SimTransport { code: 0x8000_0000, words: vec![] };
    let r = m.set_power_state(&mut t, raspboot::mbox::Power::Uart0, 1);
    assert_eq!(r, Ok((1, 1)));
}

#[test]
fn getters_with_one_result_word() {
    let mut m = Mbox::new();
    let mut t = SimTransport { code: 0x8000_0000, words: vec![0x0001_0203] };
    assert_eq!(m.get_board_model(&mut t), Ok(0x0001_0203));
    let mut t = SimTransport { code: 0x8000_0000, words: vec![0xA2_20D3] };
    assert_eq!(m.get_board_revision(&mut t), Ok(0xA2_20D3));
    let mut t = SimTransport { code: 0x8000_0000, words: vec![0x7FFF] };
    assert_eq!(m.get_dma_channels(&mut t), Ok(0x7FFF));
}

#[test]
fn getters_with_two_result_words() {
    let mut m = Mbox::new();
    let mut t = SimTransport { code: 0x8000_0000, words: vec![0, 0x3C00_0000] };
    assert_eq!(m.get_arm_memory(&mut t), Ok((0, 0x3C00_0000)));
    let mut t = SimTransport { code: 0x8000_0000, words: vec![0x3C00_0000, 0x0400_0000] };
    assert_eq!(m.get_vc_memory(&mut t), Ok((0x3C00_0000, 0x0400_0000)));
    let mut t = SimTransport { code: 0x8000_0000, words: vec![0, 2] };
    assert_eq!(m.get_power_state(&mut t, raspboot::mbox::Power::SDCard), Ok((0, 2)));
    let mut t = SimTransport { code: 0x8000_0000, words: vec![0, 5000] };
    assert_eq!(m.get_timing(&mut t, raspboot::mbox::Power::SDCard, 1), Ok((0, 5000)));
    let mut t = SimTransport { code: 0x8000_0000, words: vec![2, 1] };
    assert_eq!(m.get_clock_state(&mut t, raspboot::mbox::Clocks::UART), Ok((2, 1)));
    let mut t = SimTransport { code: 0x8000_0000, words: vec![2, 1] };
    assert_eq!(m.set_clock_state(&mut t, raspboot::mbox::Clocks::UART, 1), Ok((2, 1)));
    let mut t = SimTransport { code: 0x8000_0000, words: vec![2, 48_000_000] };
    assert_eq!(m.get_clock_rate(&mut t, raspboot::mbox::Clocks::UART), Ok((2, 48_000_000)));
    let mut t = SimTransport { code: 0x8000_0000, words: vec![2, 4_000_000] };
    assert_eq!(m.set_clock_rate(&mut t, raspboot::mbox::Clocks::UART, 4_000_000, 0), Ok((
        2,
        4_000_000,
    )));
}

#[test]
fn each_operation_propagates_the_error_kinds() {
    let mut m = Mbox::new();
    let mut t = SimTransport { code: 0x8000_0001, words: vec![] };
    assert_eq!(m.get_board_serial(&mut t), Err(MboxError::ResponseError));
    let mut t = SimTransport { code: 0, words: vec![] };
    assert_eq!(m.get_board_mac(&mut t), Err(MboxError::UnknownError));
    let mut t = SimTransport { code: 0x8000_0001, words: vec![] };
    assert_eq!(
        m.get_clock_rate(&mut t, raspboot::mbox::Clocks::EMMC),
        Err(MboxError::ResponseError)
    );
}

#[test]
fn channel_ids_round_trip() {
    for id in 0u32..10 {
        let c = Channel::from(id);
        assert_eq!(c.id(), id);
    }
    assert_eq!(Channel::ArmToVCProperty.id(), 8);
}

#[test]
fn write_word_packs_channel_into_low_bits() {
    assert_eq!(mailbox_write_word(0x0007_AAC0, 8), 0x0007_AAC8);
    assert_eq!(mailbox_write_word(0x0007_AAC8, 8), 0x0007_AAC8);
    assert_eq!(mailbox_write_word(0xFFFF_FFF0, 0xF), 0xFFFF_FFFF);
}

#[test]
fn response_matching_checks_channel_and_address() {
    assert!(response_matches(0x0007_AAC8, 8, 0x0007_AAC0));
    assert!(!response_matches(0x0007_AAC1, 8, 0x0007_AAC0));
    assert!(!response_matches(0x0007_ABC8, 8, 0x0007_AAC0));
}
