//! Shell-link writer: builds the binary layout of a Windows shortcut —
//! a fixed header, a target-identifier list describing a filesystem path as a
//! chain of self-sized shell items, and flag-gated string records — and proves
//! that every record carries the size its header claims.

use vstd::prelude::*;
use vstd::string::{StrSliceExecFns, StringExecFns};

pub mod encode;
pub mod error;
pub mod extradata;
pub mod header;
pub mod linkinfo;
pub mod linktarget;
pub mod stringdata;

pub use error::MSLinkError;
pub use extradata::ExtraData;
pub use linkinfo::LinkInfo;
pub use linktarget::{ItemID, LinkTargetIdList};
pub use header::{
    FileAttributeFlags, HotkeyFlags, LinkFlags, ShellLinkHeader, ShowCommand,
};

use header::{
    header_bytes, FILE_ATTRIBUTE_DIRECTORY, HAS_ARGUMENTS, HAS_ICON_LOCATION, HAS_LINK_INFO,
    HAS_LINK_TARGET_ID_LIST, HAS_NAME, HAS_RELATIVE_PATH, HAS_WORKING_DIR, IS_UNICODE,
};
use linktarget::{idlist_spec_size, is_sep, path_ok, path_segments, path_tokens, split_path};
use stringdata::{string_record_bytes, string_record_fits};

verus! {

/// A shell link: one header, the optional target-identifier list and
/// link-resolution section, five optional text fields, and trailing
/// extra-data blocks. The link owns every part.
#[derive(Clone, Debug)]
pub struct ShellLink {
    pub shell_link_header: ShellLinkHeader,
    pub linktarget_id_list: Option<LinkTargetIdList>,
    pub link_info: Option<LinkInfo>,
    pub name_string: Option<String>,
    pub relative_path: Option<String>,
    pub working_dir: Option<String>,
    pub command_line_arguments: Option<String>,
    pub icon_location: Option<String>,
    pub extra_data: Vec<ExtraData>,
}

impl Default for ShellLink {
    /// A blank link for manual configuration: no flags, an empty target
    /// list in place, and every optional field unset.
    fn default() -> (r: ShellLink)
        ensures
            r.shell_link_header.link_flags.bits == 0,
            r.shell_link_header.file_attributes.bits == 0,
            r.shell_link_header.file_size == 0,
            r.linktarget_id_list is Some,
            r.linktarget_id_list->Some_0.size == 0,
            r.linktarget_id_list->Some_0.id_list@ == Seq::<ItemID>::empty(),
            r.link_info is None,
            r.name_string is None,
            r.relative_path is None,
            r.working_dir is None,
            r.command_line_arguments is None,
            r.icon_location is None,
            r.extra_data@ == Seq::<ExtraData>::empty(),
    {
        ShellLink {
            shell_link_header: ShellLinkHeader::default(),
            linktarget_id_list: Some(LinkTargetIdList::default()),
            link_info: None,
            name_string: None,
            relative_path: None,
            working_dir: None,
            command_line_arguments: None,
            icon_location: None,
            extra_data: Vec::new(),
        }
    }
}

/// The index of the last separator of `s`, or -1 when `s` has none.
pub open spec fn last_sep_index(s: Seq<char>) -> int
    decreases s.len(),
{
    if s.len() == 0 {
        -1
    } else if is_sep(s[s.len() - 1]) {
        s.len() - 1
    } else {
        last_sep_index(s.drop_last())
    }
}

/// The working directory of a target path: everything before the last
/// separator, keeping the separator itself when it closes the drive root.
pub open spec fn parent_dir(s: Seq<char>) -> Seq<char>
    recommends
        last_sep_index(s) >= 0,
{
    let i = last_sep_index(s);
    if i <= 2 {
        s.take(i + 1)
    } else {
        s.take(i)
    }
}

/// Finds the index of the last separator of `s`, if any.
fn last_sep_position(s: &str) -> (r: Option<usize>)
    ensures
        r is Some <==> last_sep_index(s@) >= 0,
        r is Some ==> r->Some_0 == last_sep_index(s@) && r->Some_0 < s@.len(),
{
    let n: usize = s.unicode_len();
    let mut j: usize = n;
    proof {
        assert(s@.take(n as int) =~= s@);
    }
    while j > 0
        invariant
            j <= n,
            n == s@.len(),
            last_sep_index(s@) == last_sep_index(s@.take(j as int)),
        decreases j,
    {
        let c = s.get_char(j - 1);
        proof {
            assert(s@.take(j as int).len() == j);
            assert(s@.take(j as int)[j - 1] == s@[j - 1]);
            assert(s@.take(j as int).drop_last() =~= s@.take(j - 1));
        }
        if c == '\\' || c == '/' {
            return Some(j - 1);
        }
        j = j - 1;
    }
    proof {
        assert(s@.take(0) =~= Seq::<char>::empty());
    }
    None
}

/// The link flags a freshly built link carries: unicode text always; for a
/// file target also the working directory, relative path and target list.
pub open spec fn spec_new_flags(is_dir: bool) -> u32 {
    if is_dir {
        IS_UNICODE
    } else {
        IS_UNICODE | (HAS_WORKING_DIR | HAS_RELATIVE_PATH | HAS_LINK_TARGET_ID_LIST)
    }
}

impl ShellLink {
    /// Every bit of `mask` is set in the header's link flags.
    pub open spec fn has_flag(self, mask: u32) -> bool {
        self.shell_link_header.link_flags.bits & mask == mask
    }

    /// String records are written UTF-16LE.
    pub open spec fn is_unicode(self) -> bool {
        self.has_flag(IS_UNICODE)
    }

    /// The target-list section can be written: when its flag is set, the
    /// list is present with consistent items.
    pub open spec fn idlist_section_ok(self) -> bool {
        self.has_flag(HAS_LINK_TARGET_ID_LIST) ==> self.linktarget_id_list is Some
            && self.linktarget_id_list->Some_0.items_wf()
    }

    /// A flag-gated string field can be written: when the flag is set, the
    /// value is present and its record count fits 16 bits.
    pub open spec fn string_section_ok(self, mask: u32, field: Option<String>) -> bool {
        self.has_flag(mask) ==> field is Some && string_record_fits(
            field->Some_0@,
            self.is_unicode(),
        )
    }

    /// All five string sections can be written.
    pub open spec fn strings_ok(self) -> bool {
        &&& self.string_section_ok(HAS_NAME, self.name_string)
        &&& self.string_section_ok(HAS_RELATIVE_PATH, self.relative_path)
        &&& self.string_section_ok(HAS_WORKING_DIR, self.working_dir)
        &&& self.string_section_ok(HAS_ARGUMENTS, self.command_line_arguments)
        &&& self.string_section_ok(HAS_ICON_LOCATION, self.icon_location)
    }

    /// The whole stream can be written: every flagged section is present
    /// and encodable, and no link-resolution section is called for — that
    /// section cannot be serialized yet.
    pub open spec fn spec_writable(self) -> bool {
        &&& self.idlist_section_ok()
        &&& !self.has_flag(HAS_LINK_INFO)
        &&& self.strings_ok()
    }

    /// A failed serialization reports "unimplemented" exactly when the
    /// stream is whole up to a flagged link-resolution section, and
    /// "invariant" otherwise.
    pub open spec fn err_is_unimplemented(self) -> bool {
        &&& self.idlist_section_ok()
        &&& self.has_flag(HAS_LINK_INFO)
        &&& self.link_info is Some
    }

    /// The record for one flag-gated string field: its string record when
    /// the flag is set, nothing otherwise.
    pub open spec fn string_section_bytes(self, mask: u32, field: Option<String>) -> Seq<u8> {
        if self.has_flag(mask) {
            string_record_bytes(field->Some_0@, self.is_unicode())
        } else {
            seq![]
        }
    }

    /// The assembled stream: the header, then the target list if flagged,
    /// then each flagged string record in the mandated order.
    pub open spec fn spec_bytes(self) -> Seq<u8> {
        header_bytes(self.shell_link_header) + (if self.has_flag(HAS_LINK_TARGET_ID_LIST) {
            self.linktarget_id_list->Some_0.spec_to_data()
        } else {
            seq![]
        }) + self.string_section_bytes(HAS_NAME, self.name_string) + self.string_section_bytes(
            HAS_RELATIVE_PATH,
            self.relative_path,
        ) + self.string_section_bytes(HAS_WORKING_DIR, self.working_dir)
            + self.string_section_bytes(HAS_ARGUMENTS, self.command_line_arguments)
            + self.string_section_bytes(HAS_ICON_LOCATION, self.icon_location)
    }

    /// Builds the model of a link to `target`, whose filesystem metadata —
    /// directory or not, and byte size — the caller has already resolved.
    /// A directory link carries only flags and attributes; a file link
    /// also gets a relative path, a working directory, the file size, and
    /// the full target-identifier list.
    pub fn new_from_metadata(target: &str, is_dir: bool, file_size: u32) -> (res: Result<
        ShellLink,
        MSLinkError,
    >)
        ensures
            res is Ok <==> (is_dir || (last_sep_index(target@) >= 0 && path_ok(target@))),
            res is Err ==> res->Err_0.kind@ == "parse"@,
            res is Ok ==> ({
                let sl = res->Ok_0;
                &&& sl.shell_link_header.link_flags.bits == spec_new_flags(is_dir)
                &&& sl.shell_link_header.file_attributes.bits == (if is_dir {
                    FILE_ATTRIBUTE_DIRECTORY
                } else {
                    0
                })
                &&& sl.shell_link_header.file_size == (if is_dir {
                    0u32
                } else {
                    file_size
                })
                &&& sl.name_string is None
                &&& sl.command_line_arguments is None
                &&& sl.icon_location is None
                &&& sl.link_info is None
                &&& sl.extra_data@ == Seq::<ExtraData>::empty()
            }),
            res is Ok && is_dir ==> ({
                let sl = res->Ok_0;
                &&& sl.relative_path is None
                &&& sl.working_dir is None
            }),
            res is Ok && !is_dir ==> ({
                let sl = res->Ok_0;
                &&& sl.relative_path is Some
                &&& sl.relative_path->Some_0@ == "./"@ + path_tokens(target@).last()
                &&& sl.working_dir is Some
                &&& sl.working_dir->Some_0@ == parent_dir(target@)
                &&& sl.linktarget_id_list is Some
                &&& sl.linktarget_id_list->Some_0.wf()
                &&& sl.linktarget_id_list->Some_0.size == idlist_spec_size(target@)
                &&& sl.linktarget_id_list->Some_0.id_list@.len() == 2 + path_segments(
                    target@,
                ).len()
            }),
    {
        let mut sl = ShellLink::default();
        if is_dir {
            let flags = LinkFlags::from_bits(IS_UNICODE);
            sl.header_mut().set_link_flags(flags);
            sl.header_mut().set_file_attributes(
                FileAttributeFlags::from_bits(FILE_ATTRIBUTE_DIRECTORY),
            );
            return Ok(sl);
        }
        let sep = match last_sep_position(target) {
            None => {
                return Err(
                    MSLinkError::parse_error(
                        String::from_str("target path has no directory separator"),
                    ),
                );
            },
            Some(j) => j,
        };
        let mut list = LinkTargetIdList::default();
        match list.set_linktarget(target) {
            Err(e) => {
                return Err(e);
            },
            Ok(()) => {},
        }
        let tokens = split_path(target);
        let file_name: &String = &tokens[tokens.len() - 1];
        proof {
            assert(tokens.deep_view()[tokens@.len() - 1] == path_tokens(target@).last());
        }
        let rel = String::from_str("./").concat(file_name.as_str());
        sl.set_relative_path(Some(rel));
        let wd = if sep <= 2 {
            target.substring_char(0, sep + 1).to_owned()
        } else {
            target.substring_char(0, sep).to_owned()
        };
        sl.set_working_dir(Some(wd));
        sl.header_mut().set_file_size(file_size);
        let mut flags = LinkFlags::from_bits(IS_UNICODE);
        flags.insert(HAS_WORKING_DIR | HAS_RELATIVE_PATH | HAS_LINK_TARGET_ID_LIST);
        sl.header_mut().set_link_flags(flags);
        sl.linktarget_id_list = Some(list);
        Ok(sl)
    }

    /// Assembles the serialized stream: the header, then each flagged
    /// section in order. A string record is written exactly when its flag
    /// is set. Fails with kind "invariant" when a flagged section is
    /// missing or cannot fit its count field, and with kind
    /// "unimplemented" when a link-resolution section is flagged and
    /// present, since that section cannot be serialized.
    pub fn to_data(&self) -> (res: Result<Vec<u8>, MSLinkError>)
        ensures
            res is Ok <==> self.spec_writable(),
            res is Ok ==> res->Ok_0@ == self.spec_bytes(),
            res is Err ==> res->Err_0.kind@ == (if self.err_is_unimplemented() {
                "unimplemented"@
            } else {
                "invariant"@
            }),
    {
        let mut out = self.shell_link_header.to_data();
        let link_flags = *self.header().link_flags();
        if link_flags.contains(HAS_LINK_TARGET_ID_LIST) {
            match &self.linktarget_id_list {
                None => {
                    return Err(
                        MSLinkError::invariant_error(
                            String::from_str("target list is flagged but missing"),
                        ),
                    );
                },
                Some(list) => {
                    if !list.items_wf_check() {
                        return Err(
                            MSLinkError::invariant_error(
                                String::from_str("target list holds an inconsistent item"),
                            ),
                        );
                    }
                    let mut data = list.to_data();
                    out.append(&mut data);
                },
            }
        }
        if link_flags.contains(HAS_LINK_INFO) {
            match &self.link_info {
                None => {
                    return Err(
                        MSLinkError::invariant_error(
                            String::from_str("link-resolution section is flagged but missing"),
                        ),
                    );
                },
                Some(info) => {
                    match info.to_data() {
                        Err(e) => {
                            return Err(e);
                        },
                        Ok(data) => {
                            let mut data = data;
                            out.append(&mut data);
                        },
                    }
                },
            }
        }
        match self.append_string_section(&mut out, HAS_NAME, &self.name_string) {
            Err(e) => {
                return Err(e);
            },
            Ok(()) => {},
        }
        match self.append_string_section(&mut out, HAS_RELATIVE_PATH, &self.relative_path) {
            Err(e) => {
                return Err(e);
            },
            Ok(()) => {},
        }
        match self.append_string_section(&mut out, HAS_WORKING_DIR, &self.working_dir) {
            Err(e) => {
                return Err(e);
            },
            Ok(()) => {},
        }
        match self.append_string_section(&mut out, HAS_ARGUMENTS, &self.command_line_arguments) {
            Err(e) => {
                return Err(e);
            },
            Ok(()) => {},
        }
        match self.append_string_section(&mut out, HAS_ICON_LOCATION, &self.icon_location) {
            Err(e) => {
                return Err(e);
            },
            Ok(()) => {},
        }
        assert(out@ =~= self.spec_bytes());
        Ok(out)
    }

    /// Appends the record of one flag-gated string field to `out` when its
    /// flag is set; fails when the field is missing or does not fit.
    fn append_string_section(&self, out: &mut Vec<u8>, mask: u32, field: &Option<String>) -> (res:
        Result<(), MSLinkError>)
        ensures
            res is Ok <==> self.string_section_ok(mask, *field),
            res is Ok ==> final(out)@ == old(out)@ + self.string_section_bytes(mask, *field),
            res is Err ==> final(out)@ == old(out)@ && res->Err_0.kind@ == "invariant"@,
    {
        let link_flags = *self.header().link_flags();
        if link_flags.contains(mask) {
            match field {
                None => {
                    return Err(
                        MSLinkError::invariant_error(
                            String::from_str("string section is flagged but missing"),
                        ),
                    );
                },
                Some(text) => {
                    if !stringdata::record_fits(text.as_str(), link_flags.contains(IS_UNICODE)) {
                        return Err(
                            MSLinkError::invariant_error(
                                String::from_str("string section exceeds its 16-bit count"),
                            ),
                        );
                    }
                    let mut data = stringdata::to_data(text.as_str(), link_flags);
                    out.append(&mut data);
                },
            }
        }
        Ok(())
    }

    /// A mutable borrow of the link's target list, when one is in place.
    pub fn linktarget_mut(&mut self) -> (r: Option<&mut LinkTargetIdList>)
        ensures
            r is Some <==> old(self).linktarget_id_list is Some,
            r is Some ==> *r->Some_0 == old(self).linktarget_id_list->Some_0 && *final(self) == (
            ShellLink {
                linktarget_id_list: Some(*final(r->Some_0)),
                ..*old(self)
            }),
            old(self).linktarget_id_list is None ==> *final(self) == *old(self),
    {
        self.linktarget_id_list.as_mut()
    }

    /// The header of the link.
    pub fn header(&self) -> (r: &ShellLinkHeader)
        ensures
            r == self.shell_link_header,
    {
        &self.shell_link_header
    }

    /// A mutable borrow of the header.
    pub fn header_mut(&mut self) -> (r: &mut ShellLinkHeader)
        ensures
            *r == old(self).shell_link_header,
            *final(self) == (ShellLink { shell_link_header: *final(r), ..*old(self) }),
    {
        &mut self.shell_link_header
    }

    /// The link's name, if set.
    pub fn name(&self) -> (r: &Option<String>)
        ensures
            r == self.name_string,
    {
        &self.name_string
    }

    /// Sets the link's name and matches its presence flag.
    pub fn set_name(&mut self, name: Option<String>)
        ensures
            final(self).name_string == name,
            final(self).has_flag(HAS_NAME) <==> name is Some,
            final(self).shell_link_header.link_flags.bits == (if name is Some {
                old(self).shell_link_header.link_flags.bits | HAS_NAME
            } else {
                old(self).shell_link_header.link_flags.bits & !HAS_NAME
            }),
            *final(self) == (ShellLink {
                name_string: name,
                shell_link_header: final(self).shell_link_header,
                ..*old(self)
            }),
            final(self).shell_link_header == (ShellLinkHeader {
                link_flags: final(self).shell_link_header.link_flags,
                ..old(self).shell_link_header
            }),
    {
        proof {
            lemma_presence_bit(self.shell_link_header.link_flags.bits, HAS_NAME);
        }
        let present = name.is_some();
        self.header_mut().update_link_flags(HAS_NAME, present);
        self.name_string = name;
    }

    /// The link's relative path, if set.
    pub fn relative_path(&self) -> (r: &Option<String>)
        ensures
            r == self.relative_path,
    {
        &self.relative_path
    }

    /// Sets the link's relative path and matches its presence flag.
    pub fn set_relative_path(&mut self, relative_path: Option<String>)
        ensures
            final(self).relative_path == relative_path,
            final(self).has_flag(HAS_RELATIVE_PATH) <==> relative_path is Some,
            final(self).shell_link_header.link_flags.bits == (if relative_path is Some {
                old(self).shell_link_header.link_flags.bits | HAS_RELATIVE_PATH
            } else {
                old(self).shell_link_header.link_flags.bits & !HAS_RELATIVE_PATH
            }),
            *final(self) == (ShellLink {
                relative_path,
                shell_link_header: final(self).shell_link_header,
                ..*old(self)
            }),
            final(self).shell_link_header == (ShellLinkHeader {
                link_flags: final(self).shell_link_header.link_flags,
                ..old(self).shell_link_header
            }),
    {
        proof {
            lemma_presence_bit(self.shell_link_header.link_flags.bits, HAS_RELATIVE_PATH);
        }
        let present = relative_path.is_some();
        self.header_mut().update_link_flags(HAS_RELATIVE_PATH, present);
        self.relative_path = relative_path;
    }

    /// The link's working directory, if set.
    pub fn working_dir(&self) -> (r: &Option<String>)
        ensures
            r == self.working_dir,
    {
        &self.working_dir
    }

    /// Sets the link's working directory and matches its presence flag.
    pub fn set_working_dir(&mut self, working_dir: Option<String>)
        ensures
            final(self).working_dir == working_dir,
            final(self).has_flag(HAS_WORKING_DIR) <==> working_dir is Some,
            final(self).shell_link_header.link_flags.bits == (if working_dir is Some {
                old(self).shell_link_header.link_flags.bits | HAS_WORKING_DIR
            } else {
                old(self).shell_link_header.link_flags.bits & !HAS_WORKING_DIR
            }),
            *final(self) == (ShellLink {
                working_dir,
                shell_link_header: final(self).shell_link_header,
                ..*old(self)
            }),
            final(self).shell_link_header == (ShellLinkHeader {
                link_flags: final(self).shell_link_header.link_flags,
                ..old(self).shell_link_header
            }),
    {
        proof {
            lemma_presence_bit(self.shell_link_header.link_flags.bits, HAS_WORKING_DIR);
        }
        let present = working_dir.is_some();
        self.header_mut().update_link_flags(HAS_WORKING_DIR, present);
        self.working_dir = working_dir;
    }

    /// The link's command-line arguments, if set.
    pub fn arguments(&self) -> (r: &Option<String>)
        ensures
            r == self.command_line_arguments,
    {
        &self.command_line_arguments
    }

    /// Sets the link's command-line arguments and matches the presence
    /// flag.
    pub fn set_arguments(&mut self, arguments: Option<String>)
        ensures
            final(self).command_line_arguments == arguments,
            final(self).has_flag(HAS_ARGUMENTS) <==> arguments is Some,
            final(self).shell_link_header.link_flags.bits == (if arguments is Some {
                old(self).shell_link_header.link_flags.bits | HAS_ARGUMENTS
            } else {
                old(self).shell_link_header.link_flags.bits & !HAS_ARGUMENTS
            }),
            *final(self) == (ShellLink {
                command_line_arguments: arguments,
                shell_link_header: final(self).shell_link_header,
                ..*old(self)
            }),
            final(self).shell_link_header == (ShellLinkHeader {
                link_flags: final(self).shell_link_header.link_flags,
                ..old(self).shell_link_header
            }),
    {
        proof {
            lemma_presence_bit(self.shell_link_header.link_flags.bits, HAS_ARGUMENTS);
        }
        let present = arguments.is_some();
        self.header_mut().update_link_flags(HAS_ARGUMENTS, present);
        self.command_line_arguments = arguments;
    }

    /// The link's icon location, if set.
    pub fn icon_location(&self) -> (r: &Option<String>)
        ensures
            r == self.icon_location,
    {
        &self.icon_location
    }

    /// Sets the link's icon location and matches its presence flag.
    pub fn set_icon_location(&mut self, icon_location: Option<String>)
        ensures
            final(self).icon_location == icon_location,
            final(self).has_flag(HAS_ICON_LOCATION) <==> icon_location is Some,
            final(self).shell_link_header.link_flags.bits == (if icon_location is Some {
                old(self).shell_link_header.link_flags.bits | HAS_ICON_LOCATION
            } else {
                old(self).shell_link_header.link_flags.bits & !HAS_ICON_LOCATION
            }),
            *final(self) == (ShellLink {
                icon_location,
                shell_link_header: final(self).shell_link_header,
                ..*old(self)
            }),
            final(self).shell_link_header == (ShellLinkHeader {
                link_flags: final(self).shell_link_header.link_flags,
                ..old(self).shell_link_header
            }),
    {
        proof {
            lemma_presence_bit(self.shell_link_header.link_flags.bits, HAS_ICON_LOCATION);
        }
        let present = icon_location.is_some();
        self.header_mut().update_link_flags(HAS_ICON_LOCATION, present);
        self.icon_location = icon_location;
    }
}

/// Setting a presence bit makes the flag test pass; clearing it makes the
/// test fail. Shared by every setter's flag-consistency proof.
proof fn lemma_presence_bit(bits: u32, mask: u32)
    by (bit_vector)
    requires
        mask != 0,
    ensures
        (bits | mask) & mask == mask,
        ((bits & !mask) & mask == mask) == false,
{
}

/// Law: toggling an optional field's presence bit on and then off leaves
/// the flag matching the stored value at each step: after setting a value
/// the flag test passes, after clearing it the test fails, whatever other
/// flags are set.
pub proof fn lemma_flag_toggle(bits: u32, mask: u32)
    requires
        mask != 0,
    ensures
        (bits | mask) & mask == mask,
        ((bits | mask) & !mask) & mask != mask,
{
    lemma_presence_bit(bits, mask);
    lemma_presence_bit(bits | mask, mask);
}

} // verus!
