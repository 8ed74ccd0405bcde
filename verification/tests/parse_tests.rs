//! End-to-end decoding scenarios over hand-built byte streams.

use lnk::Error;
use lnk::FieldType;
use lnk::ShellLink;
use lnk::ShowCommand;
use lnk::header;

/// The 16 packet bytes of the shell link class identifier.
fn clsid_bytes() -> Vec<u8> {
    vec![
        0x01, 0x14, 0x02, 0x00, 0x00, 0x00, 0x00, 0x00, 0xc0, 0x00, 0x00, 0x00, 0x00, 0x00, 0x00,
        0x46,
    ]
}

fn push_u16(v: &mut Vec<u8>, x: u16) {
    v.push((x & 0xff) as u8);
    v.push((x >> 8) as u8);
}

fn push_u32(v: &mut Vec<u8>, x: u32) {
    push_u16(v, (x & 0xffff) as u16);
    push_u16(v, (x >> 16) as u16);
}

fn push_u64(v: &mut Vec<u8>, x: u64) {
    push_u32(v, (x & 0xffff_ffff) as u32);
    push_u32(v, (x >> 32) as u32);
}

/// A 0x4C-byte header with the given flags and attributes, other fields
/// zero / defaults.
fn header_bytes(flags: u32, attrs: u32, times: u64, show: u32) -> Vec<u8> {
    let mut v = Vec::new();
    push_u32(&mut v, 0x4c);
    v.extend_from_slice(&clsid_bytes());
    push_u32(&mut v, flags);
    push_u32(&mut v, attrs);
    push_u64(&mut v, times);
    push_u64(&mut v, times);
    push_u64(&mut v, times);
    push_u32(&mut v, 0); // file size
    push_u32(&mut v, 0); // icon index
    push_u32(&mut v, show);
    push_u16(&mut v, 0); // hotkey
    push_u16(&mut v, 0);
    push_u32(&mut v, 0);
    push_u32(&mut v, 0);
    assert_eq!(v.len(), 0x4c);
    v
}

fn utf16_field(s: &str) -> Vec<u8> {
    let units: Vec<u16> = s.encode_utf16().collect();
    let mut v = Vec::new();
    push_u16(&mut v, units.len() as u16);
    for u in units {
        push_u16(&mut v, u);
    }
    v
}

#[test]
fn minimal_header_and_name() {
    // IS_UNICODE | HAS_NAME, FILE_ATTRIBUTE_NORMAL, timestamps zero,
    // followed by the sized string "Hi" in UTF-16LE.
    let mut data = header_bytes(
        header::IS_UNICODE | header::HAS_NAME,
        header::FILE_ATTRIBUTE_NORMAL,
        0,
        1,
    );
    data.extend_from_slice(&[0x02, 0x00, b'H', 0x00, b'i', 0x00]);
    let sl = ShellLink::parse(&data, 1252).unwrap();
    assert_eq!(sl.name().as_deref(), Some("Hi"));
    assert_eq!(sl.relative_path(), &None);
    assert_eq!(sl.working_dir(), &None);
    assert_eq!(sl.arguments(), &None);
    assert_eq!(sl.icon_location(), &None);
    assert!(sl.link_info().is_none());
    assert!(sl.linktarget_id_list().is_none());
    assert_eq!(sl.extra_data().blocks().len(), 0);
}

#[test]
fn test_lnk_header() {
    // A classic notepad-style shortcut: target list, link info, relative
    // path and working dir, Unicode strings, metadata enabled.
    let flags = header::HAS_LINK_TARGET_ID_LIST | header::HAS_LINK_INFO
        | header::HAS_RELATIVE_PATH | header::HAS_WORKING_DIR | header::IS_UNICODE
        | header::ENABLE_TARGET_METADATA;
    let ticks: u64 = 128656890150000000; // 2008-09-12 10:30:15 UTC
    let mut data = header_bytes(flags, header::FILE_ATTRIBUTE_ARCHIVE, ticks, 1);
    // Target ID list: two bytes of list, holding only the terminator.
    data.extend_from_slice(&[0x02, 0x00, 0x00, 0x00]);
    // LinkInfo: no volume, no network link, empty common path suffix.
    push_u32(&mut data, 0x1d); // link_info_size
    push_u32(&mut data, 0x1c); // link_info_header_size
    push_u32(&mut data, 0); // link_info_flags
    push_u32(&mut data, 0); // volume_id_offset
    push_u32(&mut data, 0); // local_base_path_offset
    push_u32(&mut data, 0); // common_network_relative_link_offset
    push_u32(&mut data, 0x1c); // common_path_suffix_offset
    data.push(0); // empty suffix
    data.extend_from_slice(&utf16_field(r".\a.txt"));
    data.extend_from_slice(&utf16_field(r"C:\test"));

    let sl = ShellLink::parse(&data, 1252).unwrap();
    assert_eq!(
        sl.header().link_flags.bits(),
        flags,
        "Link flags should be parsed correctly"
    );
    assert_eq!(
        sl.header().file_attributes.bits(),
        header::FILE_ATTRIBUTE_ARCHIVE,
        "File attributes should be parsed correctly"
    );
    let c = sl.header().creation_time.datetime();
    assert_eq!(
        (c.year, c.month, c.day),
        (2008, 9, 12),
        "Creation time should be parsed correctly"
    );
    let a = sl.header().access_time.datetime();
    assert_eq!(
        (a.year, a.month, a.day),
        (2008, 9, 12),
        "Access time should be parsed correctly"
    );
    let w = sl.header().write_time.datetime();
    assert_eq!(
        (w.year, w.month, w.day),
        (2008, 9, 12),
        "Write time should be parsed correctly"
    );
    assert_eq!((c.hour, c.minute, c.second), (10, 30, 15));
    assert_eq!(sl.header().file_size, 0x00, "File size should be parsed correctly");
    assert_eq!(sl.header().icon_index, 0x00, "Icon index should be parsed correctly");
    assert_eq!(
        sl.header().show_command,
        ShowCommand::ShowNormal,
        "Show command should be parsed correctly"
    );
    assert_eq!(*sl.header().hotkey.key(), lnk::HotkeyKey::NoKeyAssigned);
    assert_eq!(sl.header().hotkey.modifiers().bits(), 0);
    assert_eq!(sl.name(), &None);
    assert_eq!(sl.relative_path(), &Some(r".\a.txt".to_string()));
    assert_eq!(sl.working_dir(), &Some(r"C:\test".to_string()));
}

#[test]
fn test_no_panic_reading_other_filetypes() {
    let res = ShellLink::parse(b"MZ this is not a shell link at all", 1252);
    assert!(res.is_err());
}

#[test]
fn not_a_shell_link() {
    let data = vec![0x4d, 0x00, 0x00, 0x00, 1, 2, 3, 4];
    assert_eq!(ShellLink::parse(&data, 1252).unwrap_err(), Error::NotAShellLink);
    // Wrong class identifier with a correct size word.
    let mut data = header_bytes(0, 0, 0, 1);
    data[4] = 0xff;
    assert_eq!(ShellLink::parse(&data, 1252).unwrap_err(), Error::NotAShellLink);
}

#[test]
fn short_input_is_io_error() {
    assert!(matches!(ShellLink::parse(&[], 1252), Err(Error::Io { .. })));
    assert!(matches!(ShellLink::parse(&[0x4c, 0, 0], 1252), Err(Error::Io { .. })));
    assert!(matches!(
        ShellLink::parse(&[0x4c, 0x00, 0x00, 0x00, 0x01], 1252),
        Err(Error::Io { .. })
    ));
}

#[test]
fn undefined_link_flag_bit_is_rejected() {
    let data = header_bytes(0x0800_0000, 0, 0, 1);
    assert_eq!(
        ShellLink::parse(&data, 1252).unwrap_err(),
        Error::InvalidBitPattern { raw: 0x0800_0000, field: FieldType::LinkFlags, offset: 20 }
    );
}

#[test]
fn undefined_file_attribute_bit_is_rejected() {
    let data = header_bytes(0, 0x8000, 0, 1);
    assert_eq!(
        ShellLink::parse(&data, 1252).unwrap_err(),
        Error::InvalidBitPattern { raw: 0x8000, field: FieldType::FileAttributeFlags, offset: 24 }
    );
}

#[test]
fn unknown_show_command_is_rejected() {
    let data = header_bytes(0, 0, 0, 2);
    assert_eq!(
        ShellLink::parse(&data, 1252).unwrap_err(),
        Error::UnknownEnumValue { raw: 2, field: FieldType::ShowCommand, offset: 60 }
    );
}

#[test]
fn header_only_link_parses() {
    let data = header_bytes(0, 0, 0, 3);
    let sl = ShellLink::parse(&data, 1252).unwrap();
    assert_eq!(sl.header().header_size, 0x4c);
    assert_eq!(sl.header().show_command, ShowCommand::ShowMaximized);
    assert!(sl.link_target().is_none());
}

#[test]
fn truncated_string_data() {
    let mut data = header_bytes(header::IS_UNICODE | header::HAS_NAME, 0, 0, 1);
    data.extend_from_slice(&[0x05, 0x00, b'H', 0x00]); // promises 5 chars, has 1
    assert_eq!(ShellLink::parse(&data, 1252).unwrap_err(), Error::TruncatedStringData);
}

#[test]
fn invalid_utf16_name_is_rejected() {
    let mut data = header_bytes(header::IS_UNICODE | header::HAS_NAME, 0, 0, 1);
    data.extend_from_slice(&[0x01, 0x00, 0x00, 0xd8]); // a lone high surrogate
    assert!(matches!(
        ShellLink::parse(&data, 1252),
        Err(Error::InvalidEncoding { .. })
    ));
}

#[test]
fn codepage_string_decodes_through_the_default_code_page() {
    // HAS_NAME without IS_UNICODE: one byte 0xE9, which windows-1252 maps
    // to an e-acute.
    let mut data = header_bytes(header::HAS_NAME, 0, 0, 1);
    data.extend_from_slice(&[0x01, 0x00, 0xe9]);
    let sl = ShellLink::parse(&data, 1252).unwrap();
    assert_eq!(sl.name().as_deref(), Some("\u{e9}"));
}

#[test]
fn extra_data_after_string_data() {
    // A name, then a ConsoleFE block and a SpecialFolder block closed by
    // a zero terminator.
    let mut data = header_bytes(header::IS_UNICODE | header::HAS_NAME, 0, 0, 1);
    data.extend_from_slice(&[0x01, 0x00, b'n', 0x00]);
    data.extend_from_slice(&[0x0c, 0, 0, 0, 0x04, 0, 0, 0xa0, 0xe4, 0x04, 0, 0]);
    data.extend_from_slice(&[0x10, 0, 0, 0, 0x05, 0, 0, 0xa0]);
    data.extend_from_slice(&[3, 0, 0, 0, 0x20, 0, 0, 0]);
    data.extend_from_slice(&[0, 0, 0, 0]);
    let sl = ShellLink::parse(&data, 1252).unwrap();
    assert_eq!(sl.extra_data().blocks().len(), 2);
    assert!(matches!(
        &sl.extra_data().blocks()[0],
        lnk::ExtraDataBlock::ConsoleFeProps(b) if b.code_page == 1252
    ));
    assert!(matches!(
        &sl.extra_data().blocks()[1],
        lnk::ExtraDataBlock::SpecialFolderProps(b) if b.special_folder_id == 3 && b.offset == 0x20
    ));
}
