//! LinkInfo decoding: offset chasing, Unicode variants, and the derived
//! link target path.

use lnk::Error;
use lnk::FieldType;
use lnk::ShellLink;
use lnk::header;

fn clsid_bytes() -> Vec<u8> {
    vec![
        0x01, 0x14, 0x02, 0x00, 0x00, 0x00, 0x00, 0x00, 0xc0, 0x00, 0x00, 0x00, 0x00, 0x00, 0x00,
        0x46,
    ]
}

fn push_u16(v: &mut Vec<u8>, x: u16) {
    v.push((x & 0xff) as u8);
    v.push((x >> 8) as u8);
}

fn push_u32(v: &mut Vec<u8>, x: u32) {
    push_u16(v, (x & 0xffff) as u16);
    push_u16(v, (x >> 16) as u16);
}

fn header_with_link_info() -> Vec<u8> {
    let mut v = Vec::new();
    push_u32(&mut v, 0x4c);
    v.extend_from_slice(&clsid_bytes());
    push_u32(&mut v, header::HAS_LINK_INFO);
    push_u32(&mut v, 0);
    for _ in 0..3 {
        push_u32(&mut v, 0);
        push_u32(&mut v, 0);
    }
    push_u32(&mut v, 0);
    push_u32(&mut v, 0);
    push_u32(&mut v, 1);
    push_u32(&mut v, 0);
    push_u32(&mut v, 0);
    push_u32(&mut v, 0);
    v
}

/// A LinkInfo with a network-relative link: net name `\\server\share`,
/// common path suffix `folder\file.ext`.
fn unc_link_info() -> Vec<u8> {
    let net_name = b"\\\\server\\share\0";
    let suffix = b"folder\\file.ext\0";
    let cnrl_size = 0x14 + net_name.len() as u32; // 0x23
    let cps_off = 0x1c + cnrl_size; // 0x3f
    let total = cps_off + suffix.len() as u32;
    let mut v = Vec::new();
    push_u32(&mut v, total);
    push_u32(&mut v, 0x1c);
    push_u32(&mut v, 2); // CommonNetworkRelativeLinkAndPathSuffix
    push_u32(&mut v, 0); // volume id offset
    push_u32(&mut v, 0); // local base path offset
    push_u32(&mut v, 0x1c); // network relative link offset
    push_u32(&mut v, cps_off);
    // CommonNetworkRelativeLink
    push_u32(&mut v, cnrl_size);
    push_u32(&mut v, 0); // neither ValidDevice nor ValidNetType
    push_u32(&mut v, 0x14); // net name offset: no Unicode variants
    push_u32(&mut v, 0); // device name offset
    push_u32(&mut v, 0); // provider type, ignored
    v.extend_from_slice(net_name);
    v.extend_from_slice(suffix);
    v
}

#[test]
fn unc_target_with_common_path_suffix() {
    let mut data = header_with_link_info();
    data.extend_from_slice(&unc_link_info());
    let sl = ShellLink::parse(&data, 1252).unwrap();
    let info = sl.link_info().as_ref().unwrap();
    let cnrl = info.common_network_relative_link().as_ref().unwrap();
    assert_eq!(cnrl.name(), r"\\server\share");
    assert_eq!(cnrl.net_name_offset, 0x14);
    assert!(cnrl.net_name_unicode.is_none());
    assert!(cnrl.device_name.is_none());
    assert_eq!(info.common_path_suffix(), r"folder\file.ext");
    assert_eq!(sl.link_target().as_deref(), Some(r"\\server\share\folder\file.ext"));
}

/// A LinkInfo with a volume and a base path that already ends in a
/// separator.
fn local_link_info(base: &[u8], label: &[u8], suffix: &[u8]) -> Vec<u8> {
    let vid_size = 0x10 as u32 + label.len() as u32;
    let lbp_off = 0x1c + vid_size;
    let cps_off = lbp_off + base.len() as u32;
    let total = cps_off + suffix.len() as u32;
    let mut v = Vec::new();
    push_u32(&mut v, total);
    push_u32(&mut v, 0x1c);
    push_u32(&mut v, 1); // VolumeIDAndLocalBasePath
    push_u32(&mut v, 0x1c); // volume id offset
    push_u32(&mut v, lbp_off);
    push_u32(&mut v, 0); // network relative link offset
    push_u32(&mut v, cps_off);
    // VolumeID: size, drive type Fixed, serial, label right after the
    // fixed prefix at offset 0x10.
    push_u32(&mut v, vid_size);
    push_u32(&mut v, 3);
    push_u32(&mut v, 0xdead_beef);
    push_u32(&mut v, 0x10);
    v.extend_from_slice(label);
    v.extend_from_slice(base);
    v.extend_from_slice(suffix);
    v
}

#[test]
fn base_already_ends_with_separator() {
    // An empty ANSI volume label; base path "C:\" keeps its own
    // separator, so no second one is inserted.
    let mut data = header_with_link_info();
    data.extend_from_slice(&local_link_info(b"C:\\\0", b"\0", b"x.txt\0"));
    let sl = ShellLink::parse(&data, 1252).unwrap();
    let info = sl.link_info().as_ref().unwrap();
    assert_eq!(info.local_base_path(), Some(r"C:\"));
    assert_eq!(info.volume_id.as_ref().unwrap().volume_label(), "");
    assert_eq!(info.volume_id.as_ref().unwrap().drive_serial_number, 0xdead_beef);
    assert_eq!(sl.link_target().as_deref(), Some(r"C:\x.txt"));
}

#[test]
fn base_without_separator_gets_one() {
    let mut data = header_with_link_info();
    data.extend_from_slice(&local_link_info(b"C:\\dir\0", b"\0", b"x.txt\0"));
    let sl = ShellLink::parse(&data, 1252).unwrap();
    assert_eq!(sl.link_target().as_deref(), Some(r"C:\dir\x.txt"));
}

#[test]
fn volume_label_in_the_default_code_page() {
    // Label byte 0xE9 decodes through windows-1252.
    let mut data = header_with_link_info();
    data.extend_from_slice(&local_link_info(b"C:\\\0", b"\xe9\0", b"s\0"));
    let sl = ShellLink::parse(&data, 1252).unwrap();
    let info = sl.link_info().as_ref().unwrap();
    assert_eq!(info.volume_id.as_ref().unwrap().volume_label(), "\u{e9}");
}

#[test]
fn volume_label_offset_0x14_supersedes_with_unicode() {
    // VolumeID whose label offset is 0x14: the following word gives the
    // Unicode label offset, and the label is read there as UTF-16LE.
    let label = [b'L', 0, 0, 0]; // "L" UTF-16LE + terminator
    let vid_size: u32 = 0x14 + label.len() as u32; // 0x18
    let lbp_off: u32 = 0x1c + vid_size;
    let base = b"C:\\\0";
    let cps_off = lbp_off + base.len() as u32;
    let suffix = b"s\0";
    let total = cps_off + suffix.len() as u32;
    let mut li = Vec::new();
    push_u32(&mut li, total);
    push_u32(&mut li, 0x1c);
    push_u32(&mut li, 1);
    push_u32(&mut li, 0x1c);
    push_u32(&mut li, lbp_off);
    push_u32(&mut li, 0);
    push_u32(&mut li, cps_off);
    push_u32(&mut li, vid_size);
    push_u32(&mut li, 2); // removable
    push_u32(&mut li, 7);
    push_u32(&mut li, 0x14); // redirect to the Unicode offset
    push_u32(&mut li, 0x14); // unicode label offset: right after the prefix
    li.extend_from_slice(&label);
    li.extend_from_slice(base);
    li.extend_from_slice(suffix);

    let mut data = header_with_link_info();
    data.extend_from_slice(&li);
    let sl = ShellLink::parse(&data, 1252).unwrap();
    let vid = sl.link_info().as_ref().unwrap().volume_id.clone().unwrap();
    assert_eq!(vid.volume_label_offset, 0x14);
    assert_eq!(vid.volume_label_offset_unicode, Some(0x14));
    assert_eq!(vid.volume_label(), "L");
}

#[test]
fn offset_out_of_bounds_is_rejected() {
    // The common path suffix offset equals the declared size.
    let mut li = Vec::new();
    push_u32(&mut li, 0x1d);
    push_u32(&mut li, 0x1c);
    push_u32(&mut li, 0);
    push_u32(&mut li, 0);
    push_u32(&mut li, 0);
    push_u32(&mut li, 0);
    push_u32(&mut li, 0x1d);
    li.push(0);
    let mut data = header_with_link_info();
    data.extend_from_slice(&li);
    assert_eq!(
        ShellLink::parse(&data, 1252).unwrap_err(),
        Error::OffsetOutOfBounds {
            offset: 0x1d,
            limit: 0x1d,
            context: FieldType::CommonPathSuffixOffset
        }
    );
}

#[test]
fn nonzero_offset_with_clear_flag_is_rejected() {
    // The volume id offset must be zero when the volume flag is clear.
    let mut li = Vec::new();
    push_u32(&mut li, 0x1d);
    push_u32(&mut li, 0x1c);
    push_u32(&mut li, 0);
    push_u32(&mut li, 5);
    push_u32(&mut li, 0);
    push_u32(&mut li, 0);
    push_u32(&mut li, 0x1c);
    li.push(0);
    let mut data = header_with_link_info();
    data.extend_from_slice(&li);
    assert!(matches!(
        ShellLink::parse(&data, 1252),
        Err(Error::OffsetOutOfBounds { context: FieldType::VolumeIdOffset, .. })
    ));
}

#[test]
fn link_info_extent_is_consumed_in_full() {
    // Trailing slack inside the LinkInfo extent is skipped: the string
    // section begins exactly at its end.
    let mut li = Vec::new();
    push_u32(&mut li, 0x21); // four bytes of slack after the suffix
    push_u32(&mut li, 0x1c);
    push_u32(&mut li, 0);
    push_u32(&mut li, 0);
    push_u32(&mut li, 0);
    push_u32(&mut li, 0);
    push_u32(&mut li, 0x1c);
    li.extend_from_slice(&[0, 0xaa, 0xbb, 0xcc, 0xdd]); // suffix + slack
    let mut v = Vec::new();
    push_u32(&mut v, 0x4c);
    v.extend_from_slice(&clsid_bytes());
    push_u32(&mut v, header::HAS_LINK_INFO | header::HAS_NAME);
    push_u32(&mut v, 0);
    for _ in 0..7 {
        push_u32(&mut v, 0); // times, file size
    }
    push_u32(&mut v, 0); // icon index
    push_u32(&mut v, 1); // show command
    push_u32(&mut v, 0); // hotkey and reserved words
    push_u32(&mut v, 0);
    push_u32(&mut v, 0);
    v.extend_from_slice(&li);
    v.extend_from_slice(&[0x01, 0x00, b'A']); // name, code page form
    let sl = ShellLink::parse(&v, 1252).unwrap();
    assert_eq!(sl.name().as_deref(), Some("A"));
}

#[test]
fn net_name_offset_above_0x14_activates_unicode_variants() {
    // A network-relative link whose net name offset exceeds 0x14: the
    // two Unicode offset words follow, and the Unicode strings are read.
    let net_name = b"\\\\s\\a\0";
    let net_uni: &[u8] = &[b'\\', 0, b'\\', 0, b's', 0, b'\\', 0, b'u', 0, 0, 0];
    let dev_name = b"D:\0";
    let dev_uni: &[u8] = &[b'D', 0, b':', 0, 0, 0];
    let nno: u32 = 0x1c; // past the two extra offset words
    let dno = nno + net_name.len() as u32;
    let nnu = dno + dev_name.len() as u32;
    let dnu = nnu + net_uni.len() as u32;
    let cnrl_size = dnu + dev_uni.len() as u32;
    let cps_off = 0x1c + cnrl_size;
    let suffix = b"f\0";
    let total = cps_off + suffix.len() as u32;

    let mut li = Vec::new();
    push_u32(&mut li, total);
    push_u32(&mut li, 0x1c);
    push_u32(&mut li, 2); // CommonNetworkRelativeLinkAndPathSuffix
    push_u32(&mut li, 0);
    push_u32(&mut li, 0);
    push_u32(&mut li, 0x1c);
    push_u32(&mut li, cps_off);
    push_u32(&mut li, cnrl_size);
    push_u32(&mut li, 1); // ValidDevice
    push_u32(&mut li, nno);
    push_u32(&mut li, dno);
    push_u32(&mut li, 0); // provider, ignored
    push_u32(&mut li, nnu);
    push_u32(&mut li, dnu);
    li.extend_from_slice(net_name);
    li.extend_from_slice(dev_name);
    li.extend_from_slice(net_uni);
    li.extend_from_slice(dev_uni);
    li.extend_from_slice(suffix);

    let mut data = header_with_link_info();
    data.extend_from_slice(&li);
    let sl = ShellLink::parse(&data, 1252).unwrap();
    let info = sl.link_info().as_ref().unwrap();
    let cnrl = info.common_network_relative_link().as_ref().unwrap();
    assert_eq!(cnrl.net_name_offset, 0x1c);
    assert_eq!(cnrl.net_name_offset_unicode, Some(nnu));
    assert_eq!(cnrl.device_name_offset_unicode, Some(dnu));
    assert_eq!(cnrl.name(), r"\\s\a");
    assert_eq!(cnrl.device_name.as_deref(), Some("D:"));
    assert_eq!(cnrl.net_name_unicode.as_deref(), Some(r"\\s\u"));
    assert_eq!(cnrl.device_name_unicode.as_deref(), Some("D:"));
    // The derived target still starts from the ANSI net name.
    assert_eq!(sl.link_target().as_deref(), Some(r"\\s\a\f"));
}
