//! The target-identifier list: the chain of self-sized shell items —
//! computer root, drive, one file-entry item per path segment — that
//! identifies the link target, plus the item codec that serializes each
//! record with consistent nested size fields.

use vstd::prelude::*;
use vstd::string::{StrSliceExecFns, StringExecFns};
use vstd::utf8::is_ascii_chars;

use crate::encode::{
    ascii_bytes, le16, le16_at, le32, lemma_le16_at_le16, push_ascii, push_le16, push_le32,
    push_utf16le, utf16le, utf8_first_byte,
};
use crate::error::MSLinkError;

verus! {

/// True for the characters that separate path segments.
pub open spec fn is_sep(c: char) -> bool {
    c == '\\' || c == '/'
}

/// The non-empty runs of non-separator characters of `s`, given that the
/// characters of `cur` directly precede `s` in the run being read.
pub open spec fn split_acc(s: Seq<char>, cur: Seq<char>) -> Seq<Seq<char>>
    decreases s.len(),
{
    if s.len() == 0 {
        if cur.len() > 0 {
            seq![cur]
        } else {
            seq![]
        }
    } else if is_sep(s[0]) {
        (if cur.len() > 0 {
            seq![cur]
        } else {
            seq![]
        }) + split_acc(s.drop_first(), seq![])
    } else {
        split_acc(s.drop_first(), cur.push(s[0]))
    }
}

/// The non-empty tokens of `s` between path separators. The first token of
/// an absolute path is the drive designator.
pub open spec fn path_tokens(s: Seq<char>) -> Seq<Seq<char>> {
    split_acc(s, seq![])
}

/// The path segments proper: every token after the drive token.
pub open spec fn path_segments(s: Seq<char>) -> Seq<Seq<char>> {
    if path_tokens(s).len() == 0 {
        seq![]
    } else {
        path_tokens(s).drop_first()
    }
}

/// Splits `s` at separators into its non-empty tokens.
pub fn split_path(s: &str) -> (tokens: Vec<String>)
    ensures
        tokens.deep_view() == path_tokens(s@),
{
    let n: usize = s.unicode_len();
    let mut tokens: Vec<String> = Vec::new();
    let mut start: usize = 0;
    let mut i: usize = 0;
    proof {
        assert(s@.skip(0) =~= s@);
        assert(s@.subrange(0, 0) =~= Seq::<char>::empty());
        assert(tokens.deep_view() + split_acc(s@, seq![]) =~~= split_acc(s@, seq![]));
    }
    while i < n
        invariant
            start <= i <= n,
            n == s@.len(),
            path_tokens(s@) == tokens.deep_view() + split_acc(
                s@.skip(i as int),
                s@.subrange(start as int, i as int),
            ),
        decreases n - i,
    {
        let ghost cur = s@.subrange(start as int, i as int);
        proof {
            assert(s@.skip(i as int)[0] == s@[i as int]);
            assert(s@.skip(i as int).drop_first() =~= s@.skip(i + 1 as int));
        }
        let c = s.get_char(i);
        if c == '\\' || c == '/' {
            if i > start {
                let ghost toks0 = tokens.deep_view();
                let token = s.substring_char(start, i).to_owned();
                tokens.push(token);
                proof {
                    assert(split_acc(s@.skip(i as int), cur) =~= seq![cur] + split_acc(
                        s@.skip(i + 1 as int),
                        seq![],
                    ));
                    assert(tokens.deep_view() =~~= toks0 + seq![cur]);
                    assert(s@.subrange(i + 1 as int, i + 1 as int) =~= Seq::<char>::empty());
                    assert(path_tokens(s@) =~~= tokens.deep_view() + split_acc(
                        s@.skip(i + 1 as int),
                        s@.subrange(i + 1 as int, i + 1 as int),
                    ));
                }
            } else {
                proof {
                    assert(cur.len() == 0);
                    assert(split_acc(s@.skip(i as int), cur) =~= split_acc(
                        s@.skip(i + 1 as int),
                        seq![],
                    ));
                    assert(s@.subrange(i + 1 as int, i + 1 as int) =~= Seq::<char>::empty());
                }
            }
            start = i + 1;
        } else {
            proof {
                assert(cur.push(s@[i as int]) =~= s@.subrange(start as int, i + 1 as int));
            }
        }
        i = i + 1;
    }
    proof {
        assert(s@.skip(n as int) =~= Seq::<char>::empty());
    }
    if i > start {
        let ghost toks0 = tokens.deep_view();
        let token = s.substring_char(start, i).to_owned();
        tokens.push(token);
        proof {
            assert(tokens.deep_view() =~~= toks0 + seq![s@.subrange(start as int, i as int)]);
        }
    }
    tokens
}

proof fn lemma_split_acc_nonempty(s: Seq<char>, cur: Seq<char>)
    ensures
        forall|i: int|
            0 <= i < split_acc(s, cur).len() ==> (#[trigger] split_acc(s, cur)[i]).len() > 0,
    decreases s.len(),
{
    if s.len() == 0 {
        if cur.len() > 0 {
            assert(split_acc(s, cur) =~= seq![cur]);
            assert(split_acc(s, cur)[0] == cur);
        }
    } else if is_sep(s[0]) {
        let rest = split_acc(s.drop_first(), seq![]);
        lemma_split_acc_nonempty(s.drop_first(), seq![]);
        assert forall|i: int| 0 <= i < split_acc(s, cur).len() implies (#[trigger] split_acc(
            s,
            cur,
        )[i]).len() > 0 by {
            if cur.len() > 0 {
                if i == 0 {
                    assert(split_acc(s, cur)[0] == cur);
                } else {
                    assert(split_acc(s, cur)[i] == rest[i - 1]);
                }
            } else {
                assert(split_acc(s, cur)[i] == rest[i]);
            }
        }
    } else {
        lemma_split_acc_nonempty(s.drop_first(), cur.push(s[0]));
        assert forall|i: int| 0 <= i < split_acc(s, cur).len() implies (#[trigger] split_acc(
            s,
            cur,
        )[i]).len() > 0 by {
            assert(split_acc(s, cur)[i] == split_acc(s.drop_first(), cur.push(s[0]))[i]);
        }
    }
}

/// Law: path decomposition never yields an empty token, so no empty
/// segment text ever reaches the item codec.
pub proof fn lemma_path_segments_nonempty(s: Seq<char>)
    ensures
        forall|i: int| 0 <= i < path_tokens(s).len() ==> (#[trigger] path_tokens(s)[i]).len() > 0,
        forall|i: int|
            0 <= i < path_segments(s).len() ==> (#[trigger] path_segments(s)[i]).len() > 0,
{
    lemma_split_acc_nonempty(s, seq![]);
}

/// The attribute word of a file-entry item: the directory bit for every
/// segment but the last, the archive-file bit for the last.
pub open spec fn spec_file_attr(is_last: bool) -> u16 {
    if is_last {
        0x20
    } else {
        0x10
    }
}

/// The class-type byte of a file-entry item: directory or file, crossed
/// with whether the name is pure ASCII or needs wide characters.
pub open spec fn spec_class_type(name: Seq<char>, is_last: bool) -> u8 {
    if is_last {
        if is_ascii_chars(name) {
            0x32
        } else {
            0x36
        }
    } else {
        if is_ascii_chars(name) {
            0x31
        } else {
            0x35
        }
    }
}

/// Picks the attribute word and the class-type byte for the path segment
/// at `counter` out of `total_long_parts` positions: every position before
/// the last is a directory, the last is the target file, and each is
/// marked wide when its name has non-ASCII characters.
pub fn return_fattrflag_clstpind(long_name: &str, counter: usize, total_long_parts: usize) -> (r: (
    u16,
    u8,
))
    requires
        counter < total_long_parts,
    ensures
        r.0 == spec_file_attr(counter + 1 == total_long_parts),
        r.1 == spec_class_type(long_name@, counter + 1 == total_long_parts),
{
    if counter + 1 < total_long_parts {
        if long_name.is_ascii() {
            (0x0010u16, 0x31u8)
        } else {
            (0x0010u16, 0x35u8)
        }
    } else {
        if long_name.is_ascii() {
            (0x0020u16, 0x32u8)
        } else {
            (0x0020u16, 0x36u8)
        }
    }
}

/// The fixed 20-byte shell item identifying the computer root of the
/// shell namespace.
pub open spec fn root_folder_shell_bytes() -> Seq<u8> {
    seq![
        0x14u8,
        0x00,
        0x1F,
        0x50,
        0xE0,
        0x4F,
        0xD0,
        0x20,
        0xEA,
        0x3A,
        0x69,
        0x10,
        0xA2,
        0xD8,
        0x08,
        0x00,
        0x2B,
        0x30,
        0x30,
        0x9D,
    ]
}

/// The computer-root shell item as a byte vector.
pub fn root_folder_shell() -> (r: Vec<u8>)
    ensures
        r@ == root_folder_shell_bytes(),
{
    let template: [u8; 20] = [
        0x14,
        0x00,
        0x1F,
        0x50,
        0xE0,
        0x4F,
        0xD0,
        0x20,
        0xEA,
        0x3A,
        0x69,
        0x10,
        0xA2,
        0xD8,
        0x08,
        0x00,
        0x2B,
        0x30,
        0x30,
        0x9D,
    ];
    let r = vstd::slice::slice_to_vec(template.as_slice());
    assert(r@ =~= root_folder_shell_bytes());
    r
}

/// The fixed 25-byte drive shell item with the first byte of the drive
/// letter's UTF-8 form substituted at offset 3.
pub open spec fn drive_item_bytes(c: char) -> Seq<u8> {
    seq![
        0x19u8,
        0x00,
        0x2f,
        utf8_first_byte(c),
        0x3a,
        0x5c,
        0x00,
        0x00,
        0x00,
        0x00,
        0x00,
        0x00,
        0x00,
        0x00,
        0x00,
        0x00,
        0x00,
        0x00,
        0x00,
        0x00,
        0x00,
        0x00,
        0x00,
        0x00,
        0x00,
    ]
}

/// Builds the drive shell item for the given drive letter from its fixed
/// template.
pub fn get_driveitemid(driveletter: char) -> (r: [u8; 25])
    ensures
        r@ == drive_item_bytes(driveletter),
{
    let v = driveletter as u32;
    proof {
        vstd::utf8::char_is_scalar(driveletter);
        if v < 0x80 {
            assert(v & 0x7F == v) by (bit_vector)
                requires
                    v < 0x80,
            ;
        }
    }
    let b: u8 = if v < 0x80 {
        v as u8
    } else if v < 0x800 {
        0xC0u8 | ((v >> 6) & 0x1F) as u8
    } else if v < 0x10000 {
        0xE0u8 | ((v >> 12) & 0x0F) as u8
    } else {
        0xF0u8 | ((v >> 18) & 0x7) as u8
    };
    assert(b == utf8_first_byte(driveletter));
    let r: [u8; 25] = [
        0x19,
        0x00,
        0x2f,
        b,
        0x3a,
        0x5c,
        0x00,
        0x00,
        0x00,
        0x00,
        0x00,
        0x00,
        0x00,
        0x00,
        0x00,
        0x00,
        0x00,
        0x00,
        0x00,
        0x00,
        0x00,
        0x00,
        0x00,
        0x00,
        0x00,
    ];
    assert(r@ =~= drive_item_bytes(driveletter));
    r
}

/// One stored item of the identifier list: a self-inclusive 16-bit size
/// followed by `size - 2` bytes of shell data.
#[derive(Clone, Debug)]
pub struct ItemID {
    /// The size in bytes of the whole item, the two size bytes counted in.
    pub size: u16,
    /// The shell data of the item, without the size field.
    pub data: Vec<u8>,
}

impl ItemID {
    /// The size field is consistent with the stored data.
    pub open spec fn wf(self) -> bool {
        self.size == self.data@.len() + 2
    }

    /// The serialized bytes of the item.
    pub open spec fn spec_to_data(self) -> Seq<u8> {
        le16(self.size) + self.data@
    }

    /// Decodes one serialized item: the slice length is the item size and
    /// everything after the two size bytes is the payload.
    pub fn from(data: &[u8]) -> (r: ItemID)
        requires
            2 <= data@.len() <= 0xFFFF,
        ensures
            r.size == data@.len(),
            r.data@ == data@.subrange(2, data@.len() as int),
            r.wf(),
    {
        let n: usize = data.len();
        let payload = vstd::slice::slice_subrange(data, 2, n);
        ItemID { size: n as u16, data: vstd::slice::slice_to_vec(payload) }
    }

    /// Serializes the item: its size, little-endian, then its data.
    pub fn to_data(&self) -> (r: Vec<u8>)
        requires
            self.wf(),
        ensures
            r@ == self.spec_to_data(),
            r@.len() == self.size,
    {
        let mut out: Vec<u8> = Vec::new();
        push_le16(&mut out, self.size);
        out.extend_from_slice(self.data.as_slice());
        assert(out@ =~= self.spec_to_data());
        out
    }
}

impl Default for ItemID {
    /// An empty item: zero size, no data.
    fn default() -> (r: ItemID)
        ensures
            r.size == 0,
            r.data@ == Seq::<u8>::empty(),
    {
        ItemID { size: 0, data: Vec::new() }
    }
}

/// The sub-record attached to every file-entry item: version and
/// signature identifying the file-entry extension kind, zeroed timestamps,
/// and the offset of the wide name inside the enclosing item.
#[derive(Clone, Copy, Debug)]
pub struct ExtensionBlock {
    /// The size in bytes of the whole sub-record, its own size field counted.
    pub size: u16,
    pub version: u16,
    pub signature: u32,
    pub ctime: u32,
    pub atime: u32,
    pub unknown_ver_id: u16,
    pub unknown_emp: u32,
    /// Offset from the start of the enclosing item to its first extension
    /// field.
    pub first_offset: u16,
}

/// The 22 leading serialized bytes of an extension block; the
/// `first_offset` field is written separately, after the wide name.
pub open spec fn ext_bytes_except_first_offset(e: ExtensionBlock) -> Seq<u8> {
    le16(e.size) + le16(e.version) + le32(e.signature) + le32(e.ctime) + le32(e.atime) + le16(
        e.unknown_ver_id,
    ) + le32(e.unknown_emp)
}

/// The byte count of an extension block's fixed fields, the wide name
/// excluded.
pub const EXTENSION_FIXED_SIZE: u16 = 24;

impl Default for ExtensionBlock {
    /// An all-zero extension block.
    fn default() -> (r: ExtensionBlock)
        ensures
            r == (ExtensionBlock {
                size: 0,
                version: 0,
                signature: 0,
                ctime: 0,
                atime: 0,
                unknown_ver_id: 0,
                unknown_emp: 0,
                first_offset: 0,
            }),
    {
        ExtensionBlock {
            size: 0,
            version: 0,
            signature: 0,
            ctime: 0,
            atime: 0,
            unknown_ver_id: 0,
            unknown_emp: 0,
            first_offset: 0,
        }
    }
}

impl ExtensionBlock {
    /// Sets the size bottom-up: the fixed fields plus the wide name bytes
    /// that follow them.
    pub fn set_size(&mut self, wide_vec_len: u16)
        requires
            EXTENSION_FIXED_SIZE + wide_vec_len <= 0xFFFF,
        ensures
            *final(self) == (ExtensionBlock {
                size: (EXTENSION_FIXED_SIZE + wide_vec_len) as u16,
                ..*old(self)
            }),
    {
        self.size = EXTENSION_FIXED_SIZE + wide_vec_len;
    }

    /// Serializes every field but the trailing `first_offset`.
    pub fn return_vec_except_1stoffset(&self) -> (r: Vec<u8>)
        ensures
            r@ == ext_bytes_except_first_offset(*self),
            r@.len() == 22,
    {
        let mut out: Vec<u8> = Vec::new();
        push_le16(&mut out, self.size);
        push_le16(&mut out, self.version);
        push_le32(&mut out, self.signature);
        push_le32(&mut out, self.ctime);
        push_le32(&mut out, self.atime);
        push_le16(&mut out, self.unknown_ver_id);
        push_le32(&mut out, self.unknown_emp);
        assert(out@ =~= ext_bytes_except_first_offset(*self));
        out
    }
}

/// The narrow name field: ASCII bytes with a one-byte terminator for a
/// pure-ASCII name, otherwise the UTF-16LE bytes with a two-byte
/// terminator as the legacy fallback encoding.
pub open spec fn narrow_name_bytes(name: Seq<char>) -> Seq<u8> {
    if is_ascii_chars(name) {
        ascii_bytes(name) + seq![0u8]
    } else {
        utf16le(name) + seq![0u8, 0u8]
    }
}

/// The wide name field: UTF-16LE bytes with a two-byte terminator.
pub open spec fn wide_name_bytes(name: Seq<char>) -> Seq<u8> {
    utf16le(name) + seq![0u8, 0u8]
}

/// One path segment as a shell item: classification byte, attribute word,
/// zero file size and time, the segment name narrow and wide, and the
/// extension sub-record between them.
#[derive(Clone, Debug)]
pub struct FileEntryItem {
    /// The size in bytes of the whole item, the two size bytes counted in.
    pub size: u16,
    pub class_type_indicator: u8,
    pub unknown_empty: u8,
    pub filesize: u32,
    pub mtime: u32,
    pub file_attribute_flags: u16,
    /// The display text of the path segment.
    pub entry_name: String,
    pub extension_block: ExtensionBlock,
}

/// The serialized bytes of a file-entry item, in the mandated order:
/// size, class type, a reserved byte, file size, modification time,
/// attributes, narrow name, the extension block's fixed fields, wide name,
/// and the extension block's first offset.
pub open spec fn fei_bytes(f: FileEntryItem) -> Seq<u8> {
    le16(f.size) + seq![f.class_type_indicator, f.unknown_empty] + le32(f.filesize) + le32(f.mtime)
        + le16(f.file_attribute_flags) + narrow_name_bytes(f.entry_name@)
        + ext_bytes_except_first_offset(f.extension_block) + wide_name_bytes(f.entry_name@) + le16(
        f.extension_block.first_offset,
    )
}

impl Default for FileEntryItem {
    /// A blank file-entry item with an empty name.
    fn default() -> (r: FileEntryItem)
        ensures
            r.size == 0,
            r.class_type_indicator == 0,
            r.unknown_empty == 0,
            r.filesize == 0,
            r.mtime == 0,
            r.file_attribute_flags == 0,
            r.entry_name@ == Seq::<char>::empty(),
            r.extension_block == (ExtensionBlock {
                size: 0,
                version: 0,
                signature: 0,
                ctime: 0,
                atime: 0,
                unknown_ver_id: 0,
                unknown_emp: 0,
                first_offset: 0,
            }),
    {
        FileEntryItem {
            size: 0,
            class_type_indicator: 0,
            unknown_empty: 0,
            filesize: 0,
            mtime: 0,
            file_attribute_flags: 0,
            entry_name: String::new(),
            extension_block: ExtensionBlock::default(),
        }
    }
}

impl FileEntryItem {
    /// The size the item's size field must carry: the fixed fields, the
    /// narrow name, and the extension block.
    pub open spec fn spec_size(self) -> int {
        14 + narrow_name_bytes(self.entry_name@).len() + self.extension_block.size
    }

    /// The name as its wide field bytes: UTF-16LE plus terminator.
    pub fn return_entry_name_wide_vec(&self) -> (r: Vec<u8>)
        ensures
            r@ == wide_name_bytes(self.entry_name@),
    {
        let mut out: Vec<u8> = Vec::new();
        push_utf16le(&mut out, self.entry_name.as_str());
        out.push(0);
        out.push(0);
        assert(out@ =~= wide_name_bytes(self.entry_name@));
        out
    }

    /// The name as its narrow field bytes: one byte per character for
    /// ASCII, the wide encoding as a fallback otherwise, each terminated.
    pub fn return_entry_name_vec(&self) -> (r: Vec<u8>)
        ensures
            r@ == narrow_name_bytes(self.entry_name@),
    {
        let mut out: Vec<u8> = Vec::new();
        if !self.entry_name.as_str().is_ascii() {
            push_utf16le(&mut out, self.entry_name.as_str());
            out.push(0);
            out.push(0);
        } else {
            push_ascii(&mut out, self.entry_name.as_str());
            out.push(0);
        }
        assert(out@ =~= narrow_name_bytes(self.entry_name@));
        out
    }

    /// Computes the item size bottom-up from the encoded name and the
    /// extension block's size.
    pub fn set_size(&mut self)
        requires
            old(self).spec_size() <= 0xFFFF,
        ensures
            *final(self) == (FileEntryItem { size: old(self).spec_size() as u16, ..*old(self) }),
    {
        let name_vec = self.return_entry_name_vec();
        let total: usize = 14 + name_vec.len() + self.extension_block.size as usize;
        self.size = total as u16;
    }

    /// Serializes the item; the written length always equals the computed
    /// size field.
    pub fn to_data(&self) -> (r: Vec<u8>)
        requires
            self.size == self.spec_size(),
            self.extension_block.size == EXTENSION_FIXED_SIZE + wide_name_bytes(
                self.entry_name@,
            ).len(),
        ensures
            r@ == fei_bytes(*self),
            r@.len() == self.size,
    {
        let mut data: Vec<u8> = Vec::new();
        push_le16(&mut data, self.size);
        data.push(self.class_type_indicator);
        data.push(self.unknown_empty);
        push_le32(&mut data, self.filesize);
        push_le32(&mut data, self.mtime);
        push_le16(&mut data, self.file_attribute_flags);
        let mut name_vec = self.return_entry_name_vec();
        data.append(&mut name_vec);
        let mut exblock = self.extension_block.return_vec_except_1stoffset();
        data.append(&mut exblock);
        let mut wide_vec = self.return_entry_name_wide_vec();
        data.append(&mut wide_vec);
        push_le16(&mut data, self.extension_block.first_offset);
        assert(data@ =~= fei_bytes(*self));
        data
    }
}

/// Decoding a serialized item reproduces the original: the stream is
/// exactly `size` bytes long, its first two bytes decode back to `size`,
/// and the rest is the payload unchanged.
pub proof fn lemma_item_roundtrip(item: ItemID)
    requires
        item.wf(),
    ensures
        item.spec_to_data().len() == item.size,
        le16_at(item.spec_to_data(), 0) == item.size,
        item.spec_to_data().subrange(2, item.spec_to_data().len() as int) == item.data@,
{
    let b = item.spec_to_data();
    assert(b.subrange(0, 2) =~= le16(item.size));
    lemma_le16_at_le16(item.size, b, 0);
    assert(b.subrange(2, b.len() as int) =~= item.data@);
}

/// The size of a segment's extension block: 24 fixed bytes plus the wide
/// name.
pub open spec fn seg_ext_size(name: Seq<char>) -> int {
    24 + wide_name_bytes(name).len() as int
}

/// The total size of the shell item built for one path segment.
pub open spec fn seg_item_size(name: Seq<char>) -> int {
    14 + narrow_name_bytes(name).len() + seg_ext_size(name)
}

/// The complete serialized shell item for path segment `name`, terminal
/// when `is_last`.
pub open spec fn seg_item_bytes(name: Seq<char>, is_last: bool) -> Seq<u8> {
    le16(seg_item_size(name) as u16) + seq![spec_class_type(name, is_last), 0u8] + le32(0) + le32(0)
        + le16(spec_file_attr(is_last)) + narrow_name_bytes(name) + le16(seg_ext_size(name) as u16)
        + le16(0x0008) + le32(0xbeef0004) + le32(0) + le32(0) + le16(0x002a) + le32(0)
        + wide_name_bytes(name) + le16(0x0014)
}

/// Builds the complete shell item for the path segment at `counter` of
/// `total_parts` positions, or nothing when the item cannot fit its 16-bit
/// size field.
fn build_segment_item(name: &String, counter: usize, total_parts: usize) -> (r: Option<ItemID>)
    requires
        counter < total_parts,
    ensures
        ({
            let is_last = counter + 1 == total_parts;
            match r {
                Some(item) => seg_item_size(name@) <= 0xFFFF && item.wf() && item.size
                    == seg_item_size(name@) && item.spec_to_data() == seg_item_bytes(
                    name@,
                    is_last,
                ),
                None => seg_item_size(name@) > 0xFFFF,
            }
        }),
{
    let (fattr, class_type_indicator) = return_fattrflag_clstpind(
        name.as_str(),
        counter,
        total_parts,
    );
    let mut fileitem = FileEntryItem::default();
    fileitem.extension_block.version = 0x0008;
    fileitem.extension_block.signature = 0xbeef0004;
    fileitem.extension_block.ctime = 0;
    fileitem.extension_block.atime = 0;
    fileitem.extension_block.unknown_ver_id = 0x002a;
    fileitem.extension_block.unknown_emp = 0;
    fileitem.extension_block.first_offset = 0x0014;
    fileitem.class_type_indicator = class_type_indicator;
    fileitem.file_attribute_flags = fattr;
    fileitem.entry_name = name.clone();
    let wide_vec = fileitem.return_entry_name_wide_vec();
    let narrow_vec = fileitem.return_entry_name_vec();
    let w: usize = wide_vec.len();
    let nl: usize = narrow_vec.len();
    if w > 0xFFFF - 38 || nl > 0xFFFF - 38 - w {
        return None;
    }
    fileitem.extension_block.set_size(w as u16);
    fileitem.set_size();
    let item_vec = fileitem.to_data();
    let itemid = ItemID::from(item_vec.as_slice());
    proof {
        assert(item_vec@.subrange(0, 2) =~= le16(fileitem.size));
        assert(itemid.spec_to_data() =~= item_vec@);
        assert(item_vec@ =~= seg_item_bytes(name@, counter + 1 == total_parts));
    }
    Some(itemid)
}

/// The sizes of a sequence of items, summed.
pub open spec fn sum_item_sizes(items: Seq<ItemID>) -> int
    decreases items.len(),
{
    if items.len() == 0 {
        0
    } else {
        items[0].size + sum_item_sizes(items.drop_first())
    }
}

/// The serialized bytes of a sequence of items, concatenated in order.
pub open spec fn concat_item_bytes(items: Seq<ItemID>) -> Seq<u8>
    decreases items.len(),
{
    if items.len() == 0 {
        seq![]
    } else {
        items[0].spec_to_data() + concat_item_bytes(items.drop_first())
    }
}

/// Appending one item adds its size to the sum.
pub proof fn lemma_sum_item_sizes_push(items: Seq<ItemID>, item: ItemID)
    ensures
        sum_item_sizes(items.push(item)) == sum_item_sizes(items) + item.size,
    decreases items.len(),
{
    if items.len() == 0 {
        assert(items.push(item).drop_first() =~= items);
    } else {
        assert(items.push(item)[0] == items[0]);
        assert(items.push(item).drop_first() =~= items.drop_first().push(item));
        lemma_sum_item_sizes_push(items.drop_first(), item);
    }
}

/// Appending one item appends its bytes to the concatenation.
pub proof fn lemma_concat_item_bytes_push(items: Seq<ItemID>, item: ItemID)
    ensures
        concat_item_bytes(items.push(item)) == concat_item_bytes(items) + item.spec_to_data(),
    decreases items.len(),
{
    if items.len() == 0 {
        assert(items.push(item).drop_first() =~= items);
        assert(concat_item_bytes(items.push(item)) =~= concat_item_bytes(items)
            + item.spec_to_data());
    } else {
        assert(items.push(item)[0] == items[0]);
        assert(items.push(item).drop_first() =~= items.drop_first().push(item));
        lemma_concat_item_bytes_push(items.drop_first(), item);
        assert(concat_item_bytes(items.push(item)) =~= concat_item_bytes(items)
            + item.spec_to_data());
    }
}

/// For well-formed items the concatenated byte length is exactly the sum
/// of the stored sizes.
pub proof fn lemma_concat_item_bytes_len(items: Seq<ItemID>)
    requires
        forall|i: int| 0 <= i < items.len() ==> (#[trigger] items[i]).wf(),
    ensures
        concat_item_bytes(items).len() == sum_item_sizes(items),
    decreases items.len(),
{
    if items.len() > 0 {
        assert(items[0].wf());
        assert(forall|i: int|
            0 <= i < items.drop_first().len() ==> #[trigger] items.drop_first()[i] == items[i + 1]);
        lemma_concat_item_bytes_len(items.drop_first());
    }
}

/// The sizes of the shell items of a sequence of path segments, summed.
pub open spec fn sum_seg_item_sizes(segs: Seq<Seq<char>>) -> int
    decreases segs.len(),
{
    if segs.len() == 0 {
        0
    } else {
        seg_item_size(segs[0]) + sum_seg_item_sizes(segs.drop_first())
    }
}

/// The size a target-identifier list built from `path` must carry: its own
/// two size bytes, the 20-byte computer item, the 25-byte drive item, and
/// one item per segment.
pub open spec fn idlist_spec_size(path: Seq<char>) -> int {
    47 + sum_seg_item_sizes(path_segments(path))
}

/// True when a target path can be encoded: it has a drive character and at
/// least one segment, and the whole list fits its 16-bit size field.
pub open spec fn path_ok(path: Seq<char>) -> bool {
    &&& path.len() > 0
    &&& path_segments(path).len() > 0
    &&& idlist_spec_size(path) <= 0xFFFF
}

/// The serialized bytes of item `i` of the list built from `path`: the
/// computer item, then the drive item, then one file-entry item per
/// segment, the last of them terminal.
pub open spec fn expected_item_bytes(path: Seq<char>, i: int) -> Seq<u8> {
    let segs = path_segments(path);
    if i == 0 {
        root_folder_shell_bytes()
    } else if i == 1 {
        drive_item_bytes(path[0])
    } else {
        seg_item_bytes(segs[i - 2], i - 2 == segs.len() - 1)
    }
}

/// Taking one more segment adds that segment's item size.
proof fn lemma_sum_seg_take_succ(segs: Seq<Seq<char>>, j: int)
    requires
        0 <= j < segs.len(),
    ensures
        sum_seg_item_sizes(segs.take(j + 1)) == sum_seg_item_sizes(segs.take(j)) + seg_item_size(
            segs[j],
        ),
    decreases j,
{
    if j == 0 {
        assert(segs.take(0) =~= Seq::<Seq<char>>::empty());
        assert(segs.take(1) =~= seq![segs[0]]);
        assert(segs.take(1).drop_first() =~= Seq::<Seq<char>>::empty());
    } else {
        assert(segs.take(j + 1)[0] == segs[0]);
        assert(segs.take(j)[0] == segs[0]);
        assert(segs.take(j + 1).drop_first() =~= segs.drop_first().take(j));
        assert(segs.take(j).drop_first() =~= segs.drop_first().take(j - 1));
        lemma_sum_seg_take_succ(segs.drop_first(), j - 1);
    }
}

/// Item sizes are never negative, so every prefix sum is bounded by the
/// total.
proof fn lemma_sum_seg_prefix(segs: Seq<Seq<char>>, k: int)
    requires
        0 <= k <= segs.len(),
    ensures
        sum_seg_item_sizes(segs.take(k)) <= sum_seg_item_sizes(segs),
    decreases segs.len() - k,
{
    if k == segs.len() {
        assert(segs.take(k) =~= segs);
    } else {
        lemma_sum_seg_take_succ(segs, k);
        assert(seg_item_size(segs[k]) >= 0);
        lemma_sum_seg_prefix(segs, k + 1);
    }
}

/// The target-identifier list: its total size and the ordered items.
#[derive(Clone, Debug)]
pub struct LinkTargetIdList {
    /// The size, in bytes, of the size field itself plus every stored item;
    /// the terminator is not counted.
    pub size: u16,
    /// The stored items, terminator excluded.
    pub id_list: Vec<ItemID>,
}

impl Default for LinkTargetIdList {
    /// An empty list.
    fn default() -> (r: LinkTargetIdList)
        ensures
            r.size == 0,
            r.id_list@ == Seq::<ItemID>::empty(),
    {
        LinkTargetIdList { size: 0, id_list: Vec::new() }
    }
}

impl LinkTargetIdList {
    /// Every stored item has a consistent size field.
    pub open spec fn items_wf(self) -> bool {
        forall|i: int| 0 <= i < self.id_list@.len() ==> (#[trigger] self.id_list@[i]).wf()
    }

    /// The list's own size field counts its two bytes plus every item.
    pub open spec fn wf(self) -> bool {
        &&& self.items_wf()
        &&& self.size == 2 + sum_item_sizes(self.id_list@)
    }

    /// The serialized bytes of the list: the size field, each item in
    /// order, and the two-byte terminator.
    pub open spec fn spec_to_data(self) -> Seq<u8> {
        le16(self.size) + concat_item_bytes(self.id_list@) + le16(0)
    }

    /// Decomposes `target` into "computer root, drive, one item per path
    /// segment" and stores the chain with its total size. Fails, leaving
    /// the list untouched, when the path is empty, has no segment after
    /// the drive, or does not fit the 16-bit size fields.
    pub fn set_linktarget(&mut self, target: &str) -> (res: Result<(), MSLinkError>)
        ensures
            res is Ok <==> path_ok(target@),
            res is Ok ==> final(self).wf(),
            res is Ok ==> final(self).size == idlist_spec_size(target@),
            res is Ok ==> final(self).id_list@.len() == 2 + path_segments(target@).len(),
            res is Ok ==> forall|i: int|
                0 <= i < final(self).id_list@.len() ==> (#[trigger] final(self).id_list@[i])
                    .spec_to_data() == expected_item_bytes(target@, i),
            res is Err ==> *final(self) == *old(self) && res->Err_0.kind@ == "parse"@,
    {
        let n: usize = target.unicode_len();
        if n == 0 {
            return Err(MSLinkError::parse_error(String::from_str("target path is empty")));
        }
        let tokens = split_path(target);
        let num: usize = tokens.len();
        if num < 2 {
            assert(path_segments(target@).len() == 0);
            return Err(
                MSLinkError::parse_error(String::from_str("target path has no segments")),
            );
        }
        let ghost segs = path_segments(target@);
        proof {
            assert(segs =~~= tokens.deep_view().drop_first());
            lemma_template_size_bytes();
        }
        let computer = root_folder_shell();
        let itemid_computer = ItemID::from(computer.as_slice());
        let drive_letter = target.get_char(0);
        let drive = get_driveitemid(drive_letter);
        let itemid_drive = ItemID::from(drive.as_slice());
        let mut items: Vec<ItemID> = Vec::new();
        items.push(itemid_computer);
        items.push(itemid_drive);
        let mut total: u32 = 47;
        let mut c: usize = 1;
        proof {
            assert(segs.take(0) =~= Seq::<Seq<char>>::empty());
            assert(itemid_computer.spec_to_data() =~= root_folder_shell_bytes());
            assert(itemid_drive.spec_to_data() =~= drive_item_bytes(drive_letter));
            assert(items@ =~= seq![itemid_computer, itemid_drive]);
            assert(sum_item_sizes(items@) == 45) by {
                let s1 = items@.drop_first();
                assert(s1 =~= seq![itemid_drive]);
                assert(s1.drop_first() =~= Seq::<ItemID>::empty());
                assert(sum_item_sizes(s1.drop_first()) == 0);
                assert(sum_item_sizes(s1) == 25);
                assert(items@[0].size == 20);
            }
        }
        while c < num
            invariant
                1 <= c <= num,
                2 <= num == tokens@.len(),
                tokens.deep_view() == path_tokens(target@),
                target@.len() > 0,
                segs == path_segments(target@),
                segs.len() == num - 1,
                items@.len() == c + 1,
                total as int == 47 + sum_seg_item_sizes(segs.take(c - 1)),
                total <= 0xFFFF,
                sum_item_sizes(items@) == total - 2,
                forall|i: int| 0 <= i < items@.len() ==> (#[trigger] items@[i]).wf(),
                forall|i: int|
                    0 <= i < items@.len() ==> (#[trigger] items@[i]).spec_to_data()
                        == expected_item_bytes(target@, i),
            decreases num - c,
        {
            let long_item: &String = &tokens[c];
            proof {
                assert(long_item@ == tokens.deep_view()[c as int]);
                assert(segs[c - 1] == tokens.deep_view()[c as int]);
            }
            match build_segment_item(long_item, c, num) {
                None => {
                    proof {
                        lemma_sum_seg_take_succ(segs, c - 1);
                        lemma_sum_seg_prefix(segs, c as int);
                        assert(idlist_spec_size(target@) > 0xFFFF);
                    }
                    return Err(
                        MSLinkError::parse_error(
                            String::from_str("path segment too long to encode"),
                        ),
                    );
                },
                Some(itemid) => {
                    let item_size = itemid.size;
                    if total + item_size as u32 > 0xFFFF {
                        proof {
                            lemma_sum_seg_take_succ(segs, c - 1);
                            lemma_sum_seg_prefix(segs, c as int);
                            assert(idlist_spec_size(target@) > 0xFFFF);
                        }
                        return Err(
                            MSLinkError::parse_error(
                                String::from_str("target list size exceeds its 16-bit field"),
                            ),
                        );
                    }
                    proof {
                        lemma_sum_seg_take_succ(segs, c - 1);
                        lemma_sum_item_sizes_push(items@, itemid);
                        assert(segs.take(c as int)[c - 1] == segs[c - 1]);
                    }
                    total = total + item_size as u32;
                    items.push(itemid);
                    c = c + 1;
                },
            }
        }
        proof {
            assert(segs.take(c - 1) =~= segs);
        }
        self.id_list = items;
        self.size = total as u16;
        Ok(())
    }

    /// Checks at run time that every stored item's size field matches its
    /// data.
    pub fn items_wf_check(&self) -> (r: bool)
        ensures
            r == self.items_wf(),
    {
        let mut i: usize = 0;
        while i < self.id_list.len()
            invariant
                i <= self.id_list@.len(),
                forall|j: int| 0 <= j < i ==> (#[trigger] self.id_list@[j]).wf(),
            decreases self.id_list@.len() - i,
        {
            let item = &self.id_list[i];
            if item.data.len() > 0xFFFD {
                assert(!item.wf());
                return false;
            }
            if item.size as usize != item.data.len() + 2 {
                assert(!item.wf());
                return false;
            }
            i = i + 1;
        }
        true
    }

    /// Serializes the list: the size field, every item, the terminator.
    pub fn to_data(&self) -> (r: Vec<u8>)
        requires
            self.items_wf(),
        ensures
            r@ == self.spec_to_data(),
    {
        let mut data: Vec<u8> = Vec::new();
        push_le16(&mut data, self.size);
        let mut c: usize = 0;
        proof {
            assert(self.id_list@.take(0) =~= Seq::<ItemID>::empty());
        }
        while c < self.id_list.len()
            invariant
                c <= self.id_list@.len(),
                self.items_wf(),
                data@ == le16(self.size) + concat_item_bytes(self.id_list@.take(c as int)),
            decreases self.id_list@.len() - c,
        {
            let item = &self.id_list[c];
            let mut other = item.to_data();
            data.append(&mut other);
            proof {
                assert(self.id_list@.take(c + 1 as int) =~= self.id_list@.take(c as int).push(
                    self.id_list@[c as int],
                ));
                lemma_concat_item_bytes_push(self.id_list@.take(c as int), self.id_list@[c as int]);
            }
            c = c + 1;
        }
        push_le16(&mut data, 0);
        proof {
            assert(self.id_list@.take(self.id_list@.len() as int) =~= self.id_list@);
        }
        assert(data@ =~= self.spec_to_data());
        data
    }
}

/// Small byte facts about the fixed templates' size fields.
proof fn lemma_template_size_bytes()
    by (bit_vector)
    ensures
        20u16 & 0xff == 20,
        (20u16 >> 8) & 0xff == 0,
        25u16 & 0xff == 25,
        (25u16 >> 8) & 0xff == 0,
{
}

proof fn lemma_attr_const_bytes()
    by (bit_vector)
    ensures
        0x10u16 & 0xff == 0x10,
        (0x10u16 >> 8) & 0xff == 0,
        0x20u16 & 0xff == 0x20,
        (0x20u16 >> 8) & 0xff == 0,
{
}

/// Law: the item of every non-terminal segment carries a directory class
/// code — ASCII 0x31 or wide 0x35 — and the directory attribute bit, while
/// the terminal segment's item carries a file class code — 0x32 or 0x36 —
/// and the file attribute bit; the ASCII codes appear exactly when the
/// name is pure ASCII.
pub proof fn lemma_segment_classification(name: Seq<char>, is_last: bool)
    ensures
        seg_item_bytes(name, is_last)[2] == spec_class_type(name, is_last),
        !is_last ==> seg_item_bytes(name, is_last)[2] == 0x31 || seg_item_bytes(name, is_last)[2]
            == 0x35,
        !is_last ==> seg_item_bytes(name, is_last)[12] == 0x10 && seg_item_bytes(name, is_last)[13]
            == 0x00,
        is_last ==> seg_item_bytes(name, is_last)[2] == 0x32 || seg_item_bytes(name, is_last)[2]
            == 0x36,
        is_last ==> seg_item_bytes(name, is_last)[12] == 0x20 && seg_item_bytes(name, is_last)[13]
            == 0x00,
        is_ascii_chars(name) ==> seg_item_bytes(name, is_last)[2] == (if is_last {
            0x32u8
        } else {
            0x31u8
        }),
        !is_ascii_chars(name) ==> seg_item_bytes(name, is_last)[2] == (if is_last {
            0x36u8
        } else {
            0x35u8
        }),
{
    lemma_attr_const_bytes();
    let b = seg_item_bytes(name, is_last);
    assert(b[2] == spec_class_type(name, is_last));
    assert(b[12] == (spec_file_attr(is_last) & 0xff) as u8);
    assert(b[13] == ((spec_file_attr(is_last) >> 8) & 0xff) as u8);
}

/// Law: a segment's extension block is sized as its 24 fixed bytes plus
/// the UTF-16LE name bytes and the two-byte terminator.
pub proof fn lemma_extension_size(name: Seq<char>)
    ensures
        seg_ext_size(name) == 24 + utf16le(name).len() + 2,
{
}

/// Law: for a name of basic-plane characters the extension block's size is
/// the 24 fixed bytes plus two bytes per character, terminator counted.
pub proof fn lemma_extension_size_bmp(name: Seq<char>)
    requires
        forall|i: int| 0 <= i < name.len() ==> crate::encode::is_bmp_char(#[trigger] name[i]),
    ensures
        seg_ext_size(name) == 24 + 2 * (name.len() + 1),
{
    crate::encode::lemma_utf16le_len_bmp(name);
}

/// Law: the drive item is the 25-byte fixed template with the first byte
/// of the drive letter's UTF-8 form substituted at offset 3; for an ASCII
/// drive letter that byte is the letter's own code.
pub proof fn lemma_drive_substitution(c: char)
    ensures
        drive_item_bytes(c).len() == 25,
        drive_item_bytes(c)[3] == utf8_first_byte(c),
        '\0' <= c <= '\u{7f}' ==> drive_item_bytes(c)[3] == (c as u32) as u8,
{
    vstd::utf8::char_is_scalar(c);
    if '\0' <= c <= '\u{7f}' {
        let v = c as u32;
        assert(v < 0x80);
        assert(v & 0x7F == v && (v & 0x7F) as u8 == v as u8) by (bit_vector)
            requires
                v < 0x80,
        ;
    }
}

/// Law: a well-formed list's stored size is two bytes for the size field
/// plus the sizes of the non-terminator items, and the serialized stream
/// is exactly `size + 2` bytes long: the terminator is written but not
/// counted.
pub proof fn lemma_idlist_serialized_len(l: LinkTargetIdList)
    requires
        l.wf(),
    ensures
        l.size == 2 + sum_item_sizes(l.id_list@),
        l.spec_to_data().len() == l.size + 2,
{
    lemma_concat_item_bytes_len(l.id_list@);
}

} // verus!
