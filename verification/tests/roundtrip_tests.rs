//! Writing a link and reading it back.

use lnk::ShellLink;

#[test]
fn create_read_blank() {
    for is_unicode in [false, true] {
        let mut shortcut = ShellLink::default();
        shortcut
            .header_mut()
            .update_link_flags(lnk::header::IS_UNICODE, is_unicode);
        shortcut.set_name(Some("Blank name".to_string()));
        let bytes = shortcut.write_data().expect("serialise shortcut");
        let shortcut = ShellLink::parse(&bytes, 1252).unwrap();
        assert_eq!(shortcut.name(), &Some("Blank name".to_string()));
        assert_eq!(shortcut.header().link_flags.is_unicode(), is_unicode);
    }
}

#[test]
fn setters_keep_flags_and_slots_in_step() {
    let mut sl = ShellLink::default();
    sl.set_relative_path(Some(r".\x.txt".to_string()));
    sl.set_working_dir(Some(r"C:\w".to_string()));
    sl.set_arguments(Some("-a".to_string()));
    sl.set_icon_location(Some(r"C:\i.ico".to_string()));
    assert!(sl.header().link_flags.has_relative_path());
    assert!(sl.header().link_flags.has_working_dir());
    assert!(sl.header().link_flags.has_arguments());
    assert!(sl.header().link_flags.has_icon_location());

    let bytes = sl.write_data().unwrap();
    let back = ShellLink::parse(&bytes, 1252).unwrap();
    assert_eq!(back.relative_path(), &Some(r".\x.txt".to_string()));
    assert_eq!(back.working_dir(), &Some(r"C:\w".to_string()));
    assert_eq!(back.arguments(), &Some("-a".to_string()));
    assert_eq!(back.icon_location(), &Some(r"C:\i.ico".to_string()));

    sl.set_arguments(None);
    assert!(!sl.header().link_flags.has_arguments());
    assert_eq!(sl.arguments(), &None);
}

#[test]
fn written_header_has_documented_layout() {
    let sl = ShellLink::default();
    let bytes = sl.write_data().unwrap();
    assert_eq!(bytes.len(), 0x4c);
    assert_eq!(&bytes[0..4], &[0x4c, 0, 0, 0]);
    assert_eq!(
        &bytes[4..20],
        &[
            0x01, 0x14, 0x02, 0x00, 0x00, 0x00, 0x00, 0x00, 0xc0, 0x00, 0x00, 0x00, 0x00, 0x00,
            0x00, 0x46
        ]
    );
    // Default flags: Unicode strings only.
    assert_eq!(&bytes[20..24], &[0x80, 0, 0, 0]);
    // Reserved tail bytes are zero.
    assert_eq!(&bytes[66..76], &[0u8; 10]);
}
