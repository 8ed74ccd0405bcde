//! The primitive codecs: FILETIME calendar conversion, GUIDs, string
//! trimming, hotkeys, and string field serialisation.

use lnk::DateTime;
use lnk::DriveType;
use lnk::FixedSizeString;
use lnk::FileTime;
use lnk::Guid;
use lnk::HotkeyFlags;
use lnk::HotkeyKey;
use lnk::HotkeyModifiers;
use lnk::LinkFlags;
use lnk::NetworkProviderType;
use lnk::SizedString;
use lnk::StringEncoding;
use lnk::header;
use lnk::NullTerminatedString;
use lnk::to_data;
use lnk::trim_nul_terminated_string;

#[test]
fn filetime_raw_round_trip() {
    for t in [0u64, 1, 116444736000000000, u64::MAX / 2, u64::MAX] {
        assert_eq!(FileTime::from_u64(t).to_u64(), t);
    }
}

#[test]
fn filetime_epoch_is_1601() {
    let d = FileTime::from_u64(0).datetime();
    assert_eq!(
        d,
        DateTime { year: 1601, month: 1, day: 1, hour: 0, minute: 0, second: 0 }
    );
}

#[test]
fn filetime_known_dates() {
    // 2008-09-12 10:30:15 UTC.
    let d = FileTime::from_u64(128656890150000000).datetime();
    assert_eq!(
        d,
        DateTime { year: 2008, month: 9, day: 12, hour: 10, minute: 30, second: 15 }
    );
    // A leap day.
    let d = FileTime::from_u64(125962560000000000).datetime();
    assert_eq!((d.year, d.month, d.day), (2000, 2, 29));
    // One tick before that day ends.
    let d = FileTime::from_u64(125962560000000000 + 86400 * 10_000_000 - 1).datetime();
    assert_eq!(
        (d.year, d.month, d.day, d.hour, d.minute, d.second),
        (2000, 2, 29, 23, 59, 59)
    );
}

#[test]
fn filetime_default_is_unset() {
    let t: FileTime = Default::default();
    assert_eq!(t.to_u64(), 0);
}

#[test]
fn guid_round_trips_through_bytes() {
    let bytes: Vec<u8> = (1..=16).collect();
    let (g, end) = Guid::read(&bytes, 0).unwrap();
    assert_eq!(end, 16);
    let mut out = Vec::new();
    g.write(&mut out);
    assert_eq!(out, bytes);
}

#[test]
fn guid_string_form() {
    let bytes = [
        0x01u8, 0x14, 0x02, 0x00, 0x00, 0x00, 0x00, 0x00, 0xc0, 0x00, 0x00, 0x00, 0x00, 0x00,
        0x00, 0x46,
    ];
    let (g, _) = Guid::read(&bytes, 0).unwrap();
    assert_eq!(g.data1, 0x00021401);
    assert_eq!(g.to_guid_string(), "00021401-0000-0000-c000-000000000046");
}

#[test]
fn trim_nul_cuts_at_first_nul() {
    assert_eq!(trim_nul_terminated_string("ab\0cd"), "ab");
    assert_eq!(trim_nul_terminated_string("\0cd"), "");
    // A text with no NUL at all yields the empty string.
    assert_eq!(trim_nul_terminated_string("abc"), "");
}

#[test]
fn hotkey_flags_pack_into_a_word() {
    let mods = HotkeyModifiers::from_bits(header::HOTKEYF_CONTROL | header::HOTKEYF_ALT).unwrap();
    let mut hk = HotkeyFlags::new(HotkeyKey::F5, mods);
    assert_eq!(hk.to_flags_u16(), 0x0674);
    assert_eq!(*hk.key(), HotkeyKey::F5);
    assert_eq!(hk.modifiers().bits(), 0x06);
    hk.set_key(HotkeyKey::KeyA);
    hk.set_modifiers(HotkeyModifiers::from_bits(header::HOTKEYF_SHIFT).unwrap());
    assert_eq!(hk.to_flags_u16(), 0x0141);
}

#[test]
fn hotkey_key_rejects_undefined_codes() {
    assert_eq!(HotkeyKey::from_u8(0x2f), None);
    assert_eq!(HotkeyKey::from_u8(0x30), Some(HotkeyKey::Key0));
    assert_eq!(HotkeyKey::from_u8(0x91), Some(HotkeyKey::ScrollLock));
}

#[test]
fn to_data_unicode_counts_code_units() {
    let flags = LinkFlags::from_bits(header::IS_UNICODE).unwrap();
    assert_eq!(
        to_data("Hi", &flags).unwrap(),
        vec![0x02, 0x00, b'H', 0x00, b'i', 0x00]
    );
    // A supplementary character takes two UTF-16 code units.
    assert_eq!(
        to_data("\u{1F600}", &flags).unwrap(),
        vec![0x02, 0x00, 0x3d, 0xd8, 0x00, 0xde]
    );
}

#[test]
fn to_data_codepage_stores_low_bytes() {
    let flags = LinkFlags::from_bits(0).unwrap();
    assert_eq!(to_data("AB", &flags).unwrap(), vec![0x02, 0x00, b'A', b'B']);
}

#[test]
fn link_flags_round_trip_bits() {
    let flags = LinkFlags::from_bits(0x0008_009b).unwrap();
    assert_eq!(flags.bits(), 0x0008_009b);
    assert!(flags.has_link_target_id_list());
    assert!(flags.has_link_info());
    assert!(!flags.has_name());
    assert!(flags.has_relative_path());
    assert!(flags.has_working_dir());
    assert!(flags.is_unicode());
    assert_eq!(LinkFlags::from_bits(0x0800_0000), None);
}

#[test]
fn shell_item_identifiers_block() {
    // A block of 12 bytes: 8 of header, then a terminator-only list.
    let data = vec![0, 0, 0, 0];
    let (ids, end) = lnk::ShellItemIdentifiers::read(&data, 0, 12).unwrap();
    assert_eq!(ids.items.item_id_list().len(), 0);
    assert_eq!(end, 2);
    assert!(lnk::ShellItemIdentifiers::read(&data, 0, 7).is_err());
}

#[test]
fn current_offset_records_a_position() {
    let off = lnk::CurrentOffset::new(0x4c);
    assert_eq!(off.value(), 0x4c);
}

#[test]
fn encoding_follows_the_unicode_flag() {
    let unicode = LinkFlags::from_bits(header::IS_UNICODE).unwrap();
    let plain = LinkFlags::from_bits(0).unwrap();
    assert_eq!(StringEncoding::from_flags(&unicode, 1250), StringEncoding::Unicode);
    assert_eq!(StringEncoding::from_flags(&plain, 1250), StringEncoding::CodePage(1250));
}

#[test]
fn default_code_page_selects_the_mapping() {
    // Byte 0xB9 is a superscript one in windows-1252 but an a-ogonek in
    // windows-1250: the caller's code page decides.
    let data = [0xb9u8, 0x00];
    let (s, end) = NullTerminatedString::read(&data, 0, &StringEncoding::CodePage(1252)).unwrap();
    assert_eq!(s.as_str(), "\u{b9}");
    assert_eq!(end, 2);
    let (s, _) = NullTerminatedString::read(&data, 0, &StringEncoding::CodePage(1250)).unwrap();
    assert_eq!(s.as_str(), "\u{105}");
}

#[test]
fn fixed_size_string_trims_at_nul() {
    let data = [b'a', b'b', 0, b'z', b'z'];
    let (s, end) = FixedSizeString::read(&data, 0, 5, &StringEncoding::CodePage(1252)).unwrap();
    assert_eq!(s.as_str(), "ab");
    assert!(!s.is_empty());
    assert_eq!(end, 5);
}

#[test]
fn sized_string_reads_its_count() {
    let data = [3, 0, b'x', b'y', b'z', b'w'];
    let (s, end) = SizedString::read(&data, 0, &StringEncoding::CodePage(1252)).unwrap();
    assert_eq!(s.as_str(), "xyz");
    assert_eq!(end, 5);
}

#[test]
fn drive_and_provider_types_reject_unknown_words() {
    assert_eq!(DriveType::from_u32(6), Some(DriveType::DriveRamdisk));
    assert_eq!(DriveType::from_u32(7), None);
    assert_eq!(NetworkProviderType::from_u32(0x0002_0000), Some(NetworkProviderType::Smb));
    assert_eq!(NetworkProviderType::from_u32(0x0028_0000), None);
    assert_eq!(NetworkProviderType::Smb.code(), 0x0002_0000);
}
