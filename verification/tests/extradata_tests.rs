//! ExtraData decoding: known blocks, terminators, and malformed sizes.

use lnk::Error;
use lnk::ExtraData;
use lnk::ExtraDataBlock;

fn push_u32(v: &mut Vec<u8>, x: u32) {
    v.push((x & 0xff) as u8);
    v.push(((x >> 8) & 0xff) as u8);
    v.push(((x >> 16) & 0xff) as u8);
    v.push(((x >> 24) & 0xff) as u8);
}

#[test]
fn two_known_blocks_and_terminator() {
    // A ConsoleFE block for code page 1252, a SpecialFolder block for
    // folder 3 at offset 0x20, then a zero terminator.
    let mut data = vec![0x0c, 0, 0, 0, 0x04, 0, 0, 0xa0, 0xe4, 0x04, 0, 0];
    data.extend_from_slice(&[0x10, 0, 0, 0, 0x05, 0, 0, 0xa0]);
    push_u32(&mut data, 3);
    push_u32(&mut data, 0x20);
    data.extend_from_slice(&[0, 0, 0, 0]);
    let (xd, end) = ExtraData::read(&data, 0, 1252).unwrap();
    assert_eq!(xd.blocks().len(), 2);
    match &xd.blocks()[0] {
        ExtraDataBlock::ConsoleFeProps(b) => assert_eq!(b.code_page, 1252),
        other => panic!("unexpected first block: {:?}", other),
    }
    match &xd.blocks()[1] {
        ExtraDataBlock::SpecialFolderProps(b) => {
            assert_eq!(b.special_folder_id, 3);
            assert_eq!(b.offset, 0x20);
        },
        other => panic!("unexpected second block: {:?}", other),
    }
    assert_eq!(end, data.len());
}

#[test]
fn end_of_stream_terminates_without_terminator() {
    let mut data = vec![0x0c, 0, 0, 0, 0x04, 0, 0, 0xa0];
    push_u32(&mut data, 932);
    let (xd, end) = ExtraData::read(&data, 0, 1252).unwrap();
    assert_eq!(xd.blocks().len(), 1);
    assert_eq!(end, data.len());
}

#[test]
fn degenerate_size_word_terminates() {
    // A size word of 3 stops the decoder without an error.
    let data = vec![0x03, 0, 0, 0, 0xff, 0xff];
    let (xd, end) = ExtraData::read(&data, 0, 1252).unwrap();
    assert_eq!(xd.blocks().len(), 0);
    assert_eq!(end, 4);
}

#[test]
fn wrong_fixed_size_is_rejected() {
    // A ConsoleFE block must declare exactly 0x0C bytes.
    let data = vec![0x10, 0, 0, 0, 0x04, 0, 0, 0xa0, 0, 0, 0, 0, 0, 0, 0, 0];
    assert_eq!(
        ExtraData::read(&data, 0, 1252).unwrap_err(),
        Error::UnsupportedBlockSize { signature: 0xa000_0004, actual: 0x10, expected: 0xc }
    );
}

#[test]
fn unknown_signature_is_rejected() {
    let data = vec![0x0c, 0, 0, 0, 0xff, 0, 0, 0xa0, 0, 0, 0, 0];
    assert_eq!(
        ExtraData::read(&data, 0, 1252).unwrap_err(),
        Error::UnknownExtraData { signature: 0xa000_00ff }
    );
}

#[test]
fn block_larger_than_input_is_rejected() {
    let data = vec![0x40, 0, 0, 0, 0x04, 0, 0, 0xa0, 0, 0, 0, 0];
    assert_eq!(ExtraData::read(&data, 0, 1252).unwrap_err(), Error::TruncatedExtraData);
}

#[test]
fn known_folder_block() {
    let mut data = vec![0x1c, 0, 0, 0, 0x0b, 0, 0, 0xa0];
    // GUID {00021401-0000-0000-C000-000000000046} in packet form.
    data.extend_from_slice(&[
        0x01, 0x14, 0x02, 0x00, 0x00, 0x00, 0x00, 0x00, 0xc0, 0x00, 0x00, 0x00, 0x00, 0x00, 0x00,
        0x46,
    ]);
    push_u32(&mut data, 0x2a);
    data.extend_from_slice(&[0, 0, 0, 0]);
    let (xd, _) = ExtraData::read(&data, 0, 1252).unwrap();
    match &xd.blocks()[0] {
        ExtraDataBlock::KnownFolderProps(b) => {
            assert_eq!(b.known_folder_id.to_guid_string(), "00021401-0000-0000-c000-000000000046");
            assert_eq!(b.offset, 0x2a);
        },
        other => panic!("unexpected block: {:?}", other),
    }
}

#[test]
fn vista_id_list_block() {
    // Block of 0x10 bytes: one item of 4 bytes plus the terminator.
    let data = vec![0x10, 0, 0, 0, 0x0a, 0, 0, 0xa0, 4, 0, 0xab, 0xcd, 0, 0, 0, 0];
    let (xd, _) = ExtraData::read(&data, 0, 1252).unwrap();
    match &xd.blocks()[0] {
        ExtraDataBlock::VistaAndAboveIdListProps(b) => {
            assert_eq!(b.id_list.item_id_list().len(), 1);
            assert_eq!(b.id_list.item_id_list()[0].data(), &vec![0xab, 0xcd]);
        },
        other => panic!("unexpected block: {:?}", other),
    }
}

#[test]
fn property_store_keeps_opaque_bytes() {
    let data = vec![0x0c, 0, 0, 0, 0x09, 0, 0, 0xa0, 1, 2, 3, 4, 0, 0, 0, 0];
    let (xd, _) = ExtraData::read(&data, 0, 1252).unwrap();
    match &xd.blocks()[0] {
        ExtraDataBlock::PropertyStoreProps(b) => {
            assert_eq!(b.property_store, vec![1, 2, 3, 4]);
        },
        other => panic!("unexpected block: {:?}", other),
    }
}

#[test]
fn tracker_block() {
    let mut data = vec![0x60, 0, 0, 0, 0x03, 0, 0, 0xa0];
    push_u32(&mut data, 0x58);
    push_u32(&mut data, 0);
    let mut machine = vec![0u8; 16];
    machine[..4].copy_from_slice(b"host");
    data.extend_from_slice(&machine);
    for i in 0..4u8 {
        let mut g = vec![0u8; 16];
        g[0] = i + 1;
        data.extend_from_slice(&g);
    }
    data.extend_from_slice(&[0, 0, 0, 0]);
    let (xd, _) = ExtraData::read(&data, 0, 1252).unwrap();
    match &xd.blocks()[0] {
        ExtraDataBlock::TrackerProps(b) => {
            assert_eq!(b.length, 0x58);
            assert_eq!(b.version, 0);
            assert_eq!(b.machine_id, "host");
            assert_eq!(b.droid[0].data1, 1);
            assert_eq!(b.droid[1].data1, 2);
            assert_eq!(b.droid_birth[0].data1, 3);
            assert_eq!(b.droid_birth[1].data1, 4);
        },
        other => panic!("unexpected block: {:?}", other),
    }
}

#[test]
fn environment_block_prefers_unicode_when_present() {
    let mut data = vec![0x14, 0x03, 0, 0, 0x01, 0, 0, 0xa0];
    let mut ansi = vec![0u8; 260];
    ansi[..4].copy_from_slice(b"path");
    data.extend_from_slice(&ansi);
    let mut uni = vec![0u8; 520];
    uni[0] = b'U';
    data.extend_from_slice(&uni);
    data.extend_from_slice(&[0, 0, 0, 0]);
    let (xd, _) = ExtraData::read(&data, 0, 1252).unwrap();
    match &xd.blocks()[0] {
        ExtraDataBlock::EnvironmentProps(b) => {
            assert_eq!(b.target_ansi, "path");
            assert_eq!(b.target_unicode.as_deref(), Some("U"));
        },
        other => panic!("unexpected block: {:?}", other),
    }
}

#[test]
fn empty_unicode_path_is_absent() {
    let mut data = vec![0x14, 0x03, 0, 0, 0x07, 0, 0, 0xa0];
    data.extend_from_slice(&vec![0u8; 260 + 520]);
    data.extend_from_slice(&[0, 0, 0, 0]);
    let (xd, _) = ExtraData::read(&data, 0, 1252).unwrap();
    match &xd.blocks()[0] {
        ExtraDataBlock::IconEnvironmentProps(b) => {
            assert_eq!(b.target_ansi, "");
            assert_eq!(b.target_unicode, None);
        },
        other => panic!("unexpected block: {:?}", other),
    }
}

#[test]
fn console_block() {
    let mut data = vec![0xcc, 0, 0, 0, 0x02, 0, 0, 0xa0];
    let body_start = data.len();
    data.extend_from_slice(&[0x07, 0x00]); // fill attributes
    data.extend_from_slice(&[0x70, 0x00]); // popup fill attributes
    for w in [80i16, 25, 80, 25, -1, -1] {
        data.extend_from_slice(&(w as u16).to_le_bytes());
    }
    push_u32(&mut data, 0); // unused
    push_u32(&mut data, 0); // unused
    push_u32(&mut data, 0x000c_0000); // font size
    push_u32(&mut data, 0x36); // font family: modern, fixed pitch, vector
    push_u32(&mut data, 700); // font weight
    let mut face = vec![0u8; 64];
    face[0] = b'C';
    data.extend_from_slice(&face);
    push_u32(&mut data, 25); // cursor size
    push_u32(&mut data, 0); // full screen
    push_u32(&mut data, 1); // quick edit
    push_u32(&mut data, 1); // insert mode
    push_u32(&mut data, 0); // auto position
    push_u32(&mut data, 50); // history buffer size
    push_u32(&mut data, 4); // history buffer count
    push_u32(&mut data, 1); // history no dup
    for i in 0..16u32 {
        push_u32(&mut data, i * 0x0101);
    }
    assert_eq!(data.len() - body_start, 0xc4);
    data.extend_from_slice(&[0, 0, 0, 0]);
    let (xd, _) = ExtraData::read(&data, 0, 1252).unwrap();
    match &xd.blocks()[0] {
        ExtraDataBlock::ConsoleProps(b) => {
            assert_eq!(b.fill_attributes, 7);
            assert_eq!(b.popup_fill_attributes, 0x70);
            assert_eq!(b.screen_buffer_size_x, 80);
            assert_eq!(b.window_origin_x, -1);
            assert_eq!(b.font_family, 0x36);
            assert_eq!(b.face_name, "C");
            assert_eq!(b.cursor_size, 25);
            assert!(!b.full_screen);
            assert!(b.quick_edit);
            assert!(b.insert_mode);
            assert!(!b.auto_position);
            assert_eq!(b.history_buffer_size, 50);
            assert_eq!(b.number_of_history_buffers, 4);
            assert!(b.history_no_dup);
            assert_eq!(b.color_table[3], 3 * 0x0101);
        },
        other => panic!("unexpected block: {:?}", other),
    }
}

#[test]
fn console_block_with_undefined_fill_bits_is_rejected() {
    let mut data = vec![0xcc, 0, 0, 0, 0x02, 0, 0, 0xa0];
    data.extend_from_slice(&[0x00, 0x01]); // fill attributes: bit 8 set
    data.extend_from_slice(&vec![0u8; 0xc2]);
    data.extend_from_slice(&[0, 0, 0, 0]);
    assert!(matches!(
        ExtraData::read(&data, 0, 1252),
        Err(Error::InvalidBitPattern { .. })
    ));
}
