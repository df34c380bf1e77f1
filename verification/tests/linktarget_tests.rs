use mslnk::linktarget::{
    get_driveitemid, return_fattrflag_clstpind, ItemID, LinkTargetIdList,
};

/// Round trip of one stored item: decoding a serialized item reproduces
/// its size and payload bytes exactly.
#[test]
fn test_item_roundtrip() {
    let raw: Vec<u8> = vec![5, 0, 1, 2, 3];
    let item = ItemID::from(&raw[..]);
    assert_eq!(item.size, 5);
    assert_eq!(item.data, vec![1, 2, 3]);
    let encoded = item.to_data();
    assert_eq!(encoded, raw);
    let again = ItemID::from(&encoded[..]);
    assert_eq!(again.size, item.size);
    assert_eq!(again.data, item.data);
}

/// Non-terminal segments are directories, the terminal one a file, with
/// class codes split by ASCII versus wide names.
#[test]
fn test_classification() {
    assert_eq!(return_fattrflag_clstpind("reports", 1, 3), (0x10, 0x31));
    assert_eq!(return_fattrflag_clstpind("reports", 2, 3), (0x20, 0x32));
    assert_eq!(return_fattrflag_clstpind("文档", 1, 3), (0x10, 0x35));
    assert_eq!(return_fattrflag_clstpind("文档", 2, 3), (0x20, 0x36));
}

/// The drive item template carries the drive letter at byte offset 3.
#[test]
fn test_drive_substitution() {
    let c = get_driveitemid('C');
    assert_eq!(c.len(), 25);
    assert_eq!(c[0], 0x19);
    assert_eq!(c[3], b'C');
    assert_eq!(c[4], b':');
    assert_eq!(c[5], b'\\');
    let d = get_driveitemid('D');
    assert_eq!(d[3], b'D');
}

/// Building from a path substitutes the drive letter inside the stored
/// drive item.
#[test]
fn test_drive_substitution_in_list() {
    let mut list = LinkTargetIdList::default();
    list.set_linktarget(r"C:\Users\x\f.txt").unwrap();
    let drive_item = list.id_list[1].to_data();
    assert_eq!(drive_item[3], b'C');
    let mut list_d = LinkTargetIdList::default();
    list_d.set_linktarget(r"D:\Users\x\f.txt").unwrap();
    assert_eq!(list_d.id_list[1].to_data()[3], b'D');
}

/// End-to-end: "C:\a\b.txt" gives exactly computer, drive, directory "a"
/// and file "b.txt", plus the terminator in the stream; the total length
/// is deterministic across repeated builds.
#[test]
fn test_end_to_end_small_path() {
    let mut list = LinkTargetIdList::default();
    list.set_linktarget(r"C:\a\b.txt").unwrap();
    assert_eq!(list.id_list.len(), 4);
    // computer 20 + drive 25 + item "a" (38 + 2 + 4) + item "b.txt"
    // (38 + 6 + 12), plus the 2 size bytes
    assert_eq!(list.size, 2 + 20 + 25 + 44 + 56);
    let bytes = list.to_data();
    assert_eq!(bytes.len() as u16, list.size + 2);
    // size field itself is stored little-endian
    assert_eq!(bytes[0] as u16 | ((bytes[1] as u16) << 8), list.size);
    // the stream ends with the two-byte terminator
    assert_eq!(bytes[bytes.len() - 2], 0);
    assert_eq!(bytes[bytes.len() - 1], 0);
    // repeated builds agree byte for byte
    let mut list2 = LinkTargetIdList::default();
    list2.set_linktarget(r"C:\a\b.txt").unwrap();
    assert_eq!(list2.to_data(), bytes);
}

/// The serialized bytes of one constructed file-entry item, field by
/// field.
#[test]
fn test_file_entry_layout() {
    let mut list = LinkTargetIdList::default();
    list.set_linktarget(r"C:\a\b.txt").unwrap();
    let item_a = list.id_list[2].to_data();
    assert_eq!(item_a.len(), 44);
    assert_eq!(&item_a[0..2], &[44, 0]); // size, self-inclusive
    assert_eq!(item_a[2], 0x31); // directory, ASCII name
    assert_eq!(item_a[3], 0); // reserved
    assert_eq!(&item_a[4..8], &[0, 0, 0, 0]); // file size unknown
    assert_eq!(&item_a[8..12], &[0, 0, 0, 0]); // modification time unknown
    assert_eq!(&item_a[12..14], &[0x10, 0]); // directory attribute bit
    assert_eq!(&item_a[14..16], &[b'a', 0]); // narrow name, terminated
    assert_eq!(&item_a[16..18], &[28, 0]); // extension size: 24 + 4
    assert_eq!(&item_a[18..20], &[0x08, 0]); // extension version
    assert_eq!(&item_a[20..24], &[0x04, 0x00, 0xef, 0xbe]); // signature
    assert_eq!(&item_a[24..28], &[0, 0, 0, 0]); // creation time unknown
    assert_eq!(&item_a[28..32], &[0, 0, 0, 0]); // access time unknown
    assert_eq!(&item_a[32..34], &[0x2a, 0]); // version identifier
    assert_eq!(&item_a[34..38], &[0, 0, 0, 0]); // reserved
    assert_eq!(&item_a[38..42], &[b'a', 0, 0, 0]); // wide name, terminated
    assert_eq!(&item_a[42..44], &[0x14, 0]); // first offset

    let item_b = list.id_list[3].to_data();
    assert_eq!(item_b.len(), 56);
    assert_eq!(item_b[2], 0x32); // file, ASCII name
    assert_eq!(&item_b[12..14], &[0x20, 0]); // file attribute bit
}

/// A segment of non-ASCII characters selects the wide class code, writes
/// the narrow field in the fallback wide form, and sizes the extension
/// block as 24 fixed bytes plus two bytes per character plus the
/// terminator.
#[test]
fn test_wide_segment() {
    let mut list = LinkTargetIdList::default();
    list.set_linktarget("C:\\文档").unwrap();
    assert_eq!(list.id_list.len(), 3);
    let item = list.id_list[2].to_data();
    // narrow fallback (6) and wide (6) both UTF-16LE with terminator
    assert_eq!(item.len(), 38 + 6 + 6);
    assert_eq!(item[2], 0x36); // file, wide name
    // 文 = U+6587, 档 = U+6863, little-endian, then the terminator
    assert_eq!(&item[14..20], &[0x87, 0x65, 0x63, 0x68, 0x00, 0x00]);
    assert_eq!(&item[20..22], &[30, 0]); // extension size: 24 + 2*(2+1)
}

/// Malformed paths fail fast with a parse error and leave the list
/// untouched.
#[test]
fn test_set_linktarget_rejects_malformed() {
    let mut list = LinkTargetIdList::default();
    let e = list.set_linktarget("").unwrap_err();
    assert_eq!(e.kind, "parse");
    assert_eq!(list.size, 0);
    assert_eq!(list.id_list.len(), 0);

    let e2 = list.set_linktarget("C:").unwrap_err();
    assert_eq!(e2.kind, "parse");
    assert_eq!(list.id_list.len(), 0);

    let e3 = list.set_linktarget("\\\\\\").unwrap_err();
    assert_eq!(e3.kind, "parse");
    assert_eq!(list.id_list.len(), 0);
}

/// A deep path of abbreviated segments: every stored item keeps a size
/// field consistent with its data, and the sizes sum to the list's.
#[test]
fn test_tilde_path() {
    let mut list = LinkTargetIdList::default();
    list.set_linktarget(r"D:\文档_~1\anki\ANKI__~1\ANKI_S~1.36\ANKI_S~1.EXE").unwrap();
    // computer, drive, and five segments
    assert_eq!(list.id_list.len(), 7);
    let bytes = list.to_data();
    assert_eq!(bytes.len() as u16, list.size + 2);
    let mut sum: u16 = 2;
    for item in &list.id_list {
        assert_eq!(item.data.len() + 2, item.size as usize);
        sum += item.size;
    }
    assert_eq!(sum, list.size);
}
