//! The fixed 76-byte header of a shell link: magic size and class
//! identifier, the flag words, timestamps, target size, show command and
//! hotkey, all little-endian.

use vstd::prelude::*;

use crate::encode::{le16, le32, le64, push_le16, push_le32, push_le64};

verus! {

/// The target-identifier list section is present.
pub const HAS_LINK_TARGET_ID_LIST: u32 = 0x00000001;

/// The link-resolution information section is present.
pub const HAS_LINK_INFO: u32 = 0x00000002;

/// The name string record is present.
pub const HAS_NAME: u32 = 0x00000004;

/// The relative-path string record is present.
pub const HAS_RELATIVE_PATH: u32 = 0x00000008;

/// The working-directory string record is present.
pub const HAS_WORKING_DIR: u32 = 0x00000010;

/// The command-line-arguments string record is present.
pub const HAS_ARGUMENTS: u32 = 0x00000020;

/// The icon-location string record is present.
pub const HAS_ICON_LOCATION: u32 = 0x00000040;

/// String records are written as UTF-16LE rather than single-byte text.
pub const IS_UNICODE: u32 = 0x00000080;

/// Bit set over the link-behaviour flags above.
#[derive(Clone, Copy, Debug, PartialEq, Eq, Structural)]
pub struct LinkFlags {
    pub bits: u32,
}

impl LinkFlags {
    /// No flag set.
    pub fn empty() -> (r: LinkFlags)
        ensures
            r.bits == 0,
    {
        LinkFlags { bits: 0 }
    }

    /// The flag set holding exactly the given bits.
    pub fn from_bits(bits: u32) -> (r: LinkFlags)
        ensures
            r.bits == bits,
    {
        LinkFlags { bits }
    }

    /// True when every bit of `mask` is set.
    pub fn contains(&self, mask: u32) -> (r: bool)
        ensures
            r == (self.bits & mask == mask),
    {
        self.bits & mask == mask
    }

    /// Sets every bit of `mask`.
    pub fn insert(&mut self, mask: u32)
        ensures
            final(self).bits == old(self).bits | mask,
    {
        self.bits = self.bits | mask;
    }

    /// Clears every bit of `mask`.
    pub fn remove(&mut self, mask: u32)
        ensures
            final(self).bits == old(self).bits & !mask,
    {
        self.bits = self.bits & !mask;
    }
}

/// The target is a directory.
pub const FILE_ATTRIBUTE_DIRECTORY: u32 = 0x00000010;

/// The target is an ordinary archive file.
pub const FILE_ATTRIBUTE_ARCHIVE: u32 = 0x00000020;

/// The target has no other attribute set.
pub const FILE_ATTRIBUTE_NORMAL: u32 = 0x00000080;

/// Bit set over the file-attribute flags above.
#[derive(Clone, Copy, Debug, PartialEq, Eq, Structural)]
pub struct FileAttributeFlags {
    pub bits: u32,
}

impl FileAttributeFlags {
    /// No attribute set.
    pub fn empty() -> (r: FileAttributeFlags)
        ensures
            r.bits == 0,
    {
        FileAttributeFlags { bits: 0 }
    }

    /// The attribute set holding exactly the given bits.
    pub fn from_bits(bits: u32) -> (r: FileAttributeFlags)
        ensures
            r.bits == bits,
    {
        FileAttributeFlags { bits }
    }

    /// True when every bit of `mask` is set.
    pub fn contains(&self, mask: u32) -> (r: bool)
        ensures
            r == (self.bits & mask == mask),
    {
        self.bits & mask == mask
    }
}

/// The hotkey assigned to the link: a virtual-key code and a byte of
/// modifier bits, stored as one 16-bit field.
#[derive(Clone, Copy, Debug, PartialEq, Eq, Structural)]
pub struct HotkeyFlags {
    pub key: u8,
    pub modifiers: u8,
}

/// The 16-bit form of the hotkey field: key in the low byte, modifiers in
/// the high byte.
pub open spec fn hotkey_value(h: HotkeyFlags) -> u16 {
    (h.key as u16) | ((h.modifiers as u16) << 8)
}

/// How the shell shows the window of the opened target.
#[derive(Clone, Copy, Debug, PartialEq, Eq, Structural)]
pub enum ShowCommand {
    Normal,
    Maximized,
    MinNoActive,
}

/// The 32-bit code of each show command in the binary header.
pub open spec fn show_command_value(c: ShowCommand) -> u32 {
    match c {
        ShowCommand::Normal => 1,
        ShowCommand::Maximized => 3,
        ShowCommand::MinNoActive => 7,
    }
}

/// The class identifier that opens every shell-link file, as its 16
/// little-endian bytes.
pub open spec fn clsid_bytes() -> Seq<u8> {
    seq![
        0x01u8,
        0x14,
        0x02,
        0x00,
        0x00,
        0x00,
        0x00,
        0x00,
        0xC0,
        0x00,
        0x00,
        0x00,
        0x00,
        0x00,
        0x00,
        0x46,
    ]
}

/// The fixed-layout header record.
#[derive(Clone, Copy, Debug)]
pub struct ShellLinkHeader {
    pub link_flags: LinkFlags,
    pub file_attributes: FileAttributeFlags,
    pub creation_time: u64,
    pub access_time: u64,
    pub write_time: u64,
    pub file_size: u32,
    pub icon_index: u32,
    pub show_command: ShowCommand,
    pub hotkey: HotkeyFlags,
}

/// The 76 serialized bytes of a header.
pub open spec fn header_bytes(h: ShellLinkHeader) -> Seq<u8> {
    le32(0x4c) + clsid_bytes() + le32(h.link_flags.bits) + le32(h.file_attributes.bits) + le64(
        h.creation_time,
    ) + le64(h.access_time) + le64(h.write_time) + le32(h.file_size) + le32(h.icon_index) + le32(
        show_command_value(h.show_command),
    ) + le16(hotkey_value(h.hotkey)) + le16(0) + le32(0) + le32(0)
}

impl Default for ShellLinkHeader {
    /// A blank header: no flags, no attributes, zero times and sizes, the
    /// normal show command and no hotkey.
    fn default() -> (r: ShellLinkHeader)
        ensures
            r.link_flags.bits == 0,
            r.file_attributes.bits == 0,
            r.creation_time == 0,
            r.access_time == 0,
            r.write_time == 0,
            r.file_size == 0,
            r.icon_index == 0,
            r.show_command == ShowCommand::Normal,
            r.hotkey == (HotkeyFlags { key: 0, modifiers: 0 }),
    {
        ShellLinkHeader {
            link_flags: LinkFlags { bits: 0 },
            file_attributes: FileAttributeFlags { bits: 0 },
            creation_time: 0,
            access_time: 0,
            write_time: 0,
            file_size: 0,
            icon_index: 0,
            show_command: ShowCommand::Normal,
            hotkey: HotkeyFlags { key: 0, modifiers: 0 },
        }
    }
}

impl ShellLinkHeader {
    /// The link-behaviour flags.
    pub fn link_flags(&self) -> (r: &LinkFlags)
        ensures
            r == self.link_flags,
    {
        &self.link_flags
    }

    /// Replaces the link-behaviour flags wholesale.
    pub fn set_link_flags(&mut self, link_flags: LinkFlags)
        ensures
            *final(self) == (ShellLinkHeader { link_flags, ..*old(self) }),
    {
        self.link_flags = link_flags;
    }

    /// Sets or clears one flag bit so that it matches `present`.
    pub fn update_link_flags(&mut self, mask: u32, present: bool)
        ensures
            *final(self) == (ShellLinkHeader {
                link_flags: final(self).link_flags,
                ..*old(self)
            }),
            final(self).link_flags.bits == if present {
                old(self).link_flags.bits | mask
            } else {
                old(self).link_flags.bits & !mask
            },
    {
        if present {
            self.link_flags.insert(mask);
        } else {
            self.link_flags.remove(mask);
        }
    }

    /// Replaces the file attributes of the target.
    pub fn set_file_attributes(&mut self, file_attributes: FileAttributeFlags)
        ensures
            *final(self) == (ShellLinkHeader { file_attributes, ..*old(self) }),
    {
        self.file_attributes = file_attributes;
    }

    /// Records the byte size of the target file.
    pub fn set_file_size(&mut self, file_size: u32)
        ensures
            *final(self) == (ShellLinkHeader { file_size, ..*old(self) }),
    {
        self.file_size = file_size;
    }

    /// Serializes the header into its fixed 76-byte record.
    pub fn to_data(&self) -> (r: Vec<u8>)
        ensures
            r@ == header_bytes(*self),
            r@.len() == 76,
    {
        let mut out: Vec<u8> = Vec::new();
        push_le32(&mut out, 0x4c);
        let clsid: [u8; 16] = [
            0x01,
            0x14,
            0x02,
            0x00,
            0x00,
            0x00,
            0x00,
            0x00,
            0xC0,
            0x00,
            0x00,
            0x00,
            0x00,
            0x00,
            0x00,
            0x46,
        ];
        let mut clsid_vec = vstd::slice::slice_to_vec(clsid.as_slice());
        assert(clsid_vec@ =~= clsid_bytes());
        out.append(&mut clsid_vec);
        push_le32(&mut out, self.link_flags.bits);
        push_le32(&mut out, self.file_attributes.bits);
        push_le64(&mut out, self.creation_time);
        push_le64(&mut out, self.access_time);
        push_le64(&mut out, self.write_time);
        push_le32(&mut out, self.file_size);
        push_le32(&mut out, self.icon_index);
        let show: u32 = match self.show_command {
            ShowCommand::Normal => 1,
            ShowCommand::Maximized => 3,
            ShowCommand::MinNoActive => 7,
        };
        push_le32(&mut out, show);
        let hotkey: u16 = (self.hotkey.key as u16) | ((self.hotkey.modifiers as u16) << 8);
        push_le16(&mut out, hotkey);
        push_le16(&mut out, 0);
        push_le32(&mut out, 0);
        push_le32(&mut out, 0);
        assert(out@ =~= header_bytes(*self));
        out
    }
}

} // verus!
