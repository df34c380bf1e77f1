use mslnk::header::{
    HAS_ARGUMENTS, HAS_LINK_INFO, HAS_LINK_TARGET_ID_LIST, HAS_NAME, HAS_RELATIVE_PATH,
    HAS_WORKING_DIR, IS_UNICODE,
};
use mslnk::{LinkFlags, LinkInfo, MSLinkError, ShellLink};

/// Building a link to a file target mirrors the metadata: unicode text,
/// target list, relative path and working directory all flagged and
/// filled.
#[test]
fn test_new_file_link() {
    let target = r"D:\编程地图书籍、源码\NumPy Essentials.epub";
    let sl = ShellLink::new_from_metadata(target, false, 42).unwrap();
    let bits = sl.header().link_flags().bits;
    assert_eq!(
        bits,
        IS_UNICODE | HAS_WORKING_DIR | HAS_RELATIVE_PATH | HAS_LINK_TARGET_ID_LIST
    );
    assert_eq!(sl.relative_path().as_deref(), Some("./NumPy Essentials.epub"));
    assert_eq!(sl.working_dir().as_deref(), Some(r"D:\编程地图书籍、源码"));
    assert_eq!(sl.header().file_size, 42);
    assert_eq!(sl.name(), &None);
    assert_eq!(sl.arguments(), &None);
    assert_eq!(sl.icon_location(), &None);
    // two path segments: computer, drive, directory, file
    assert_eq!(sl.linktarget_id_list.as_ref().unwrap().id_list.len(), 4);

    // the assembled stream is deterministic across repeated builds
    let bytes = sl.to_data().unwrap();
    let again = ShellLink::new_from_metadata(target, false, 42).unwrap();
    assert_eq!(again.to_data().unwrap(), bytes);
}

/// A directory target gets only the directory attribute and the unicode
/// flag; no sections follow the header.
#[test]
fn test_new_directory_link() {
    let sl = ShellLink::new_from_metadata(r"C:\Users\Admin\Desktop", true, 0).unwrap();
    assert_eq!(sl.header().link_flags().bits, IS_UNICODE);
    assert_eq!(sl.header().file_attributes.bits, 0x10);
    assert_eq!(sl.relative_path(), &None);
    assert_eq!(sl.working_dir(), &None);
    let bytes = sl.to_data().unwrap();
    assert_eq!(bytes.len(), 76);
}

/// A file target without a separator cannot be resolved.
#[test]
fn test_new_rejects_separatorless_path() {
    let e = ShellLink::new_from_metadata("no-separators-here", false, 0).unwrap_err();
    assert_eq!(e.kind, "parse");
}

/// The fixed header: magic size, class identifier, show command.
#[test]
fn test_header_layout() {
    let sl = ShellLink::default();
    let bytes = sl.to_data().unwrap();
    assert_eq!(bytes.len(), 76);
    assert_eq!(&bytes[0..4], &[0x4c, 0, 0, 0]);
    assert_eq!(
        &bytes[4..20],
        &[0x01, 0x14, 0x02, 0x00, 0x00, 0x00, 0x00, 0x00, 0xC0, 0x00, 0x00, 0x00, 0x00, 0x00,
            0x00, 0x46]
    );
    // no link flags, no attributes set on a blank link
    assert_eq!(&bytes[20..24], &[0, 0, 0, 0]);
    assert_eq!(&bytes[24..28], &[0, 0, 0, 0]);
    // show command "normal"
    assert_eq!(&bytes[60..64], &[1, 0, 0, 0]);
    // hotkey and reserved tail
    assert_eq!(&bytes[64..76], &[0; 12]);
}

/// Setting an optional text field to Some then None toggles its presence
/// flag on then off.
#[test]
fn test_flag_toggles_with_value() {
    let mut sl = ShellLink::default();
    assert!(!sl.header().link_flags().contains(HAS_NAME));
    sl.set_name(Some("hello".to_string()));
    assert!(sl.header().link_flags().contains(HAS_NAME));
    sl.set_name(None);
    assert!(!sl.header().link_flags().contains(HAS_NAME));

    sl.set_arguments(Some("-v".to_string()));
    assert!(sl.header().link_flags().contains(HAS_ARGUMENTS));
    sl.set_arguments(None);
    assert!(!sl.header().link_flags().contains(HAS_ARGUMENTS));
}

/// The assembler writes a string record exactly when its flag is set, and
/// never when unset.
#[test]
fn test_assembler_respects_flags() {
    let mut sl = ShellLink::default();
    let bare = sl.to_data().unwrap();
    assert_eq!(bare.len(), 76);

    // one non-unicode record: 2 count bytes + 5 text bytes
    sl.set_name(Some("hello".to_string()));
    let with_name = sl.to_data().unwrap();
    assert_eq!(with_name.len(), 76 + 2 + 5);
    assert_eq!(&with_name[76..78], &[5, 0]);
    assert_eq!(&with_name[78..83], b"hello");

    // clearing the value removes the record again
    sl.set_name(None);
    assert_eq!(sl.to_data().unwrap().len(), 76);

    // a flag without its value is refused, never silently skipped
    sl.header_mut().update_link_flags(HAS_NAME, true);
    let e = sl.to_data().unwrap_err();
    assert_eq!(e.kind, "invariant");
}

/// With the unicode flag set the records carry UTF-16LE code units behind
/// a unit count.
#[test]
fn test_unicode_string_record() {
    let mut sl = ShellLink::default();
    sl.header_mut().set_link_flags(LinkFlags::from_bits(IS_UNICODE));
    sl.set_name(Some("ab".to_string()));
    let bytes = sl.to_data().unwrap();
    assert_eq!(bytes.len(), 76 + 2 + 4);
    assert_eq!(&bytes[76..82], &[2, 0, b'a', 0, b'b', 0]);
}

/// String records follow the mandated order: name before relative path
/// before working directory.
#[test]
fn test_string_record_order() {
    let mut sl = ShellLink::default();
    sl.set_working_dir(Some("wd".to_string()));
    sl.set_name(Some("nm".to_string()));
    sl.set_relative_path(Some("rp".to_string()));
    let bytes = sl.to_data().unwrap();
    assert_eq!(bytes.len(), 76 + 4 + 4 + 4);
    assert_eq!(&bytes[76..80], &[2, 0, b'n', b'm']);
    assert_eq!(&bytes[80..84], &[2, 0, b'r', b'p']);
    assert_eq!(&bytes[84..88], &[2, 0, b'w', b'd']);
}

/// A flagged link-resolution section is reported as not yet serializable.
#[test]
fn test_link_info_unimplemented() {
    let mut sl = ShellLink::default();
    sl.header_mut().update_link_flags(HAS_LINK_INFO, true);
    // flagged but missing: an invariant violation
    let e = sl.to_data().unwrap_err();
    assert_eq!(e.kind, "invariant");
    // flagged and present: explicitly unimplemented
    sl.link_info = Some(LinkInfo::default());
    let e2 = sl.to_data().unwrap_err();
    assert_eq!(e2.kind, "unimplemented");
    assert_eq!(e2.msg(), format!("unimplemented:{}", e2.message));
}

/// The target-list flag without a stored list is an invariant violation.
#[test]
fn test_missing_target_list() {
    let mut sl = ShellLink::default();
    sl.linktarget_id_list = None;
    sl.header_mut().update_link_flags(HAS_LINK_TARGET_ID_LIST, true);
    let e = sl.to_data().unwrap_err();
    assert_eq!(e.kind, "invariant");
}

/// The error type keeps its kind and message and joins them for display.
#[test]
fn test_error_kinds() {
    let io = MSLinkError::io_error("boom".to_string());
    assert_eq!(io.kind, "io");
    assert_eq!(io.msg(), "io:boom");
    let parse = MSLinkError::parse_error("bad".to_string());
    assert_eq!(parse.kind, "parse");
    assert_eq!(parse.msg(), "parse:bad");
}

/// The mutable target-list accessor reaches the stored list.
#[test]
fn test_linktarget_mut() {
    let mut sl = ShellLink::default();
    sl.linktarget_mut().unwrap().set_linktarget(r"C:\a\b.txt").unwrap();
    assert_eq!(sl.linktarget_id_list.as_ref().unwrap().id_list.len(), 4);
    sl.linktarget_id_list = None;
    assert!(sl.linktarget_mut().is_none());
}

/// The working directory keeps the root separator for a drive-root parent.
#[test]
fn test_working_dir_of_root_child() {
    let sl = ShellLink::new_from_metadata(r"C:\a.txt", false, 1).unwrap();
    assert_eq!(sl.working_dir().as_deref(), Some(r"C:\"));
    assert_eq!(sl.relative_path().as_deref(), Some("./a.txt"));
}

/// Network provider types keep their binary codes.
#[test]
fn test_network_provider_codes() {
    assert_eq!(mslnk::linkinfo::NetworkProviderType::Avid.value(), 0x1a0000);
    assert_eq!(mslnk::linkinfo::NetworkProviderType::Dav.value(), 0x2e0000);
    assert_eq!(mslnk::linkinfo::NetworkProviderType::Google.value(), 0x430000);
}

/// A blank link-resolution section reports itself as not serializable.
#[test]
fn test_link_info_to_data_is_stub() {
    let info = LinkInfo::default();
    let e = info.to_data().unwrap_err();
    assert_eq!(e.kind, "unimplemented");
}
