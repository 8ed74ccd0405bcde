//! Parser and limited writer for the Windows Shell Link (`.lnk`) binary
//! format, with machine-checked contracts on every decoding step.
//!
//! A caller hands the library the raw bytes of a shortcut file; the library
//! produces a fully typed model: header flags and timestamps, the optional
//! target item-id list, the optional link-info block, the five optional
//! string fields, and the trailing extra-data blocks.

use vstd::prelude::*;

mod bytes;
pub mod current_offset;
mod encoding;
pub mod extradata;
pub mod filetime;
pub mod guid;
pub mod header;
pub mod idlist;
pub mod itemid;
pub mod linkinfo;
pub mod linktarget;
pub mod stringdata;
pub mod strings;

pub use current_offset::CurrentOffset;
pub use extradata::ConsoleDataBlock;
pub use extradata::ConsoleFEDataBlock;
pub use extradata::DarwinDataBlock;
pub use extradata::EnvironmentVariableDataBlock;
pub use extradata::ExtraData;
pub use extradata::ExtraDataBlock;
pub use extradata::IconEnvironmentDataBlock;
pub use extradata::KnownFolderDataBlock;
pub use extradata::PropertyStoreDataBlock;
pub use extradata::ShellItemIdentifiers;
pub use extradata::ShimDataBlock;
pub use extradata::SpecialFolderDataBlock;
pub use extradata::TrackerDataBlock;
pub use extradata::VistaAndAboveIdListDataBlock;
pub use filetime::DateTime;
pub use filetime::FileTime;
pub use guid::Guid;
pub use header::FileAttributeFlags;
pub use header::HotkeyFlags;
pub use header::HotkeyKey;
pub use header::HotkeyModifiers;
pub use header::LinkFlags;
pub use header::ShellLinkHeader;
pub use header::ShowCommand;
pub use idlist::IdList;
pub use itemid::ItemID;
pub use linkinfo::CommonNetworkRelativeLink;
pub use linkinfo::CommonNetworkRelativeLinkFlags;
pub use linkinfo::DriveType;
pub use linkinfo::LinkInfo;
pub use linkinfo::LinkInfoFlags;
pub use linkinfo::NetworkProviderType;
pub use linkinfo::VolumeID;
pub use linktarget::LinkTargetIdList;
pub use stringdata::StringData;
pub use stringdata::to_data;
pub use strings::FixedSizeString;
pub use strings::NullTerminatedString;
pub use strings::SizedString;
pub use strings::StringEncoding;
pub use strings::trim_nul_terminated_string;

verus! {

/// Names the field or structure a decode error is about.
#[derive(Clone, Copy, Debug, PartialEq, Eq, Structural)]
pub enum FieldType {
    LinkFlags,
    FileAttributeFlags,
    HotkeyKey,
    HotkeyModifiers,
    ShowCommand,
    LinkInfoFlags,
    DriveType,
    CommonNetworkRelativeLinkFlags,
    NetworkProviderType,
    FillAttributeFlags,
    FontFamilyFlags,
    VolumeIdSize,
    VolumeIdOffset,
    VolumeLabelOffset,
    LocalBasePathOffset,
    CommonNetworkRelativeLinkOffset,
    CommonNetworkRelativeLinkSize,
    CommonPathSuffixOffset,
    LocalBasePathOffsetUnicode,
    CommonPathSuffixOffsetUnicode,
    NetNameOffset,
    DeviceNameOffset,
    TrackerLength,
    TrackerVersion,
}

/// The reasons a decode can fail. Every error aborts the decode; no partial
/// value is returned.
#[derive(Clone, Copy, Debug, PartialEq, Eq, Structural)]
pub enum Error {
    /// The input ended before the structure being read was complete.
    Io { offset: usize },
    /// The header size word or the class identifier does not match.
    NotAShellLink,
    /// A bit-flag field contains a bit outside the defined set.
    InvalidBitPattern { raw: u64, field: FieldType, offset: usize },
    /// An enumerated field holds a value outside its domain.
    UnknownEnumValue { raw: u64, field: FieldType, offset: usize },
    /// A declared offset reaches at or past its enclosing extent.
    OffsetOutOfBounds { offset: u32, limit: u32, context: FieldType },
    /// The item-id list ran out of budget before its terminator.
    TruncatedIdList,
    /// A string length prefix implies more bytes than are available.
    TruncatedStringData,
    /// An extra-data block size implies more bytes than are available.
    TruncatedExtraData,
    /// A fixed-size extra-data block declared the wrong size.
    UnsupportedBlockSize { signature: u32, actual: u32, expected: u32 },
    /// An extra-data signature outside the known set.
    UnknownExtraData { signature: u32 },
    /// Bytes that are not valid in the declared encoding.
    InvalidEncoding { encoding: StringEncoding, offset: usize },
}

} // verus!

verus! {

/// The encoding the header flags select for the string section.
pub open spec fn spec_flag_encoding(flags: u32, cp: u16) -> StringEncoding {
    if header::flag_set(flags, header::IS_UNICODE) {
        StringEncoding::Unicode
    } else {
        StringEncoding::CodePage(cp)
    }
}

/// Where the optional target ID list ends: just past the header when the
/// flag is clear, else past the declared extent.
pub open spec fn spec_after_idlist(d: Seq<u8>, flags: u32) -> int {
    if header::flag_set(flags, header::HAS_LINK_TARGET_ID_LIST) {
        0x4c + 2 + bytes::le_u16(d, 0x4c)
    } else {
        0x4c
    }
}

/// Where the optional LinkInfo structure ends.
pub open spec fn spec_after_linkinfo(d: Seq<u8>, flags: u32) -> int {
    let p = spec_after_idlist(d, flags);
    if header::flag_set(flags, header::HAS_LINK_INFO) {
        p + bytes::le_u32(d, p)
    } else {
        p
    }
}

/// Where the string section ends.
pub open spec fn spec_after_stringdata(d: Seq<u8>, flags: u32, cp: u16) -> int {
    stringdata::spec_stringdata_end(
        flags,
        spec_flag_encoding(flags, cp),
        d,
        spec_after_linkinfo(d, flags),
    )
}

/// Exactly when parsing a whole shell link from `d` succeeds: the header
/// is valid, the input addressable, and each section present per the
/// header flags decodes at its place.
pub open spec fn spec_parse_ok(d: Seq<u8>, cp: u16) -> bool {
    let flags = bytes::le_u32(d, 20);
    let enc = spec_flag_encoding(flags, cp);
    &&& header::spec_header_err(d) is None
    &&& d.len() <= u32::MAX
    &&& (header::flag_set(flags, header::HAS_LINK_TARGET_ID_LIST) ==> bytes::has_bytes(d, 0x4c, 2)
        && bytes::has_bytes(d, 0x4e, bytes::le_u16(d, 0x4c) as int) && idlist::spec_parse_idlist(
        d,
        0x4e,
        bytes::le_u16(d, 0x4c) as int,
    ) is Ok)
    &&& (header::flag_set(flags, header::HAS_LINK_INFO) ==> linkinfo::spec_link_info_ok(
        d,
        spec_after_idlist(d, flags),
        cp,
    ))
    &&& stringdata::spec_stringdata_parses(
        flags,
        enc,
        d,
        spec_after_linkinfo(d, flags),
    )
    &&& !extradata::spec_extra_fails(d, spec_after_stringdata(d, flags, cp), cp)
}

/// A parsed shell link: the header, the optional target list and link
/// info, the five optional strings, and the extra-data blocks.
#[derive(Clone, Debug)]
pub struct ShellLink {
    /// The fixed header.
    pub header: header::ShellLinkHeader,
    /// The target item ID list, when the header announces one.
    pub linktarget_id_list: Option<LinkTargetIdList>,
    /// The link information structure, when the header announces one.
    pub link_info: Option<LinkInfo>,
    /// The five optional strings.
    pub string_data: StringData,
    /// The trailing extra-data blocks.
    pub extra_data: extradata::ExtraData,
}

impl Default for ShellLink {
    /// A blank link: default header, no optional sections.
    fn default() -> (r: Self)
        ensures
            r.header.link_flags@ == header::IS_UNICODE,
            r.linktarget_id_list is None,
            r.link_info is None,
            r.string_data.name_string is None,
            r.string_data.relative_path is None,
            r.string_data.working_dir is None,
            r.string_data.command_line_arguments is None,
            r.string_data.icon_location is None,
            r.extra_data.blocks@.len() == 0,
    {
        ShellLink {
            header: Default::default(),
            linktarget_id_list: None,
            link_info: None,
            string_data: StringData {
                name_string: None,
                relative_path: None,
                working_dir: None,
                command_line_arguments: None,
                icon_location: None,
            },
            extra_data: extradata::ExtraData { blocks: Vec::new() },
        }
    }
}

impl ShellLink {
    /// Decodes a whole `.lnk` byte stream under a default code page:
    /// header, then per the header flags the target ID list, the link
    /// info, the five strings, and the extra-data blocks. Succeeds exactly
    /// when every announced section decodes; an input whose size word or
    /// class identifier is wrong is `NotAShellLink`.
    #[verifier::rlimit(100)]
    #[verifier::spinoff_prover]
    pub fn parse(data: &[u8], default_codepage: u16) -> (r: Result<ShellLink, Error>)
        ensures
            r is Ok <==> spec_parse_ok(data@, default_codepage),
            r matches Ok(sl) ==> {
                let flags = bytes::le_u32(data@, 20);
                let enc = spec_flag_encoding(flags, default_codepage);
                let li_pos = spec_after_idlist(data@, flags);
                let sd_pos = spec_after_linkinfo(data@, flags);
                let xd_pos = spec_after_stringdata(data@, flags, default_codepage);
                &&& header::spec_header_matches(sl.header, data@)
                &&& sl.header.header_size == 0x4c
                &&& sl.header.link_clsid == header::shell_link_clsid()
                &&& (sl.linktarget_id_list is Some <==> header::flag_set(
                    flags,
                    header::HAS_LINK_TARGET_ID_LIST,
                ))
                &&& (sl.linktarget_id_list matches Some(l) ==> l.size == bytes::le_u16(
                    data@,
                    0x4c,
                ) && (idlist::spec_parse_idlist(data@, 0x4e, l.size as int) matches Ok(p)
                    && idlist::spec_items_data(l.id_list.item_id_list@) == p.0))
                &&& (sl.link_info is Some <==> header::flag_set(flags, header::HAS_LINK_INFO))
                &&& (sl.link_info matches Some(li) ==> linkinfo::spec_link_info_matches(
                    li,
                    data@,
                    li_pos,
                    default_codepage,
                ) && li.offsets_sound())
                &&& sl.string_data.presence_matches(flags)
                &&& stringdata::spec_stringdata_matches(sl.string_data, flags, enc, data@, sd_pos)
                &&& extradata::spec_chain(
                    sl.extra_data.blocks@,
                    data@,
                    xd_pos,
                    default_codepage,
                    extradata::spec_chain_end(sl.extra_data.blocks@, data@, xd_pos),
                )
            },
            r matches Err(e) ==> (header::spec_header_err(data@) matches Some(e2) ==> e == e2),
            (data@.len() >= 4 && bytes::le_u32(data@, 0) != 0x4c) ==> r == Err::<
                ShellLink,
                Error,
            >(Error::NotAShellLink),
            r == Err::<ShellLink, Error>(Error::NotAShellLink) ==> (data@.len() >= 4
                && bytes::le_u32(data@, 0) != 0x4c) || (data@.len() >= 20 && guid::spec_guid_of(
                data@,
                4,
            ) != header::shell_link_clsid()),
    {
        let (hdr, mut pos) = match header::ShellLinkHeader::read(data) {
            Ok(p) => p,
            Err(e) => {
                return Err(e);
            },
        };
        let len: usize = data.len();
        if len > u32::MAX as usize {
            return Err(Error::Io { offset: 0 });
        }
        let linktarget_id_list: Option<LinkTargetIdList> = if hdr.link_flags.has_link_target_id_list() {
            proof {
                if bytes::has_bytes(data@, pos as int, 2) {
                    idlist::lemma_idlist_err_kinds(
                        data@,
                        pos + 2,
                        bytes::le_u16(data@, pos as int) as int,
                    );
                }
            }
            match LinkTargetIdList::read(data, pos) {
                Ok((l, end)) => {
                    pos = end;
                    Some(l)
                },
                Err(e) => {
                    return Err(e);
                },
            }
        } else {
            None
        };
        let link_info: Option<LinkInfo> = if hdr.link_flags.has_link_info() {
            match LinkInfo::read(data, pos, default_codepage) {
                Ok((li, end)) => {
                    pos = end;
                    Some(li)
                },
                Err(e) => {
                    return Err(e);
                },
            }
        } else {
            None
        };
        let (string_data, sd_end) = match StringData::read(
            data,
            pos,
            &hdr.link_flags,
            default_codepage,
        ) {
            Ok(p) => p,
            Err(e) => {
                return Err(e);
            },
        };
        let (extra_data, _xd_end) = match extradata::ExtraData::read(
            data,
            sd_end,
            default_codepage,
        ) {
            Ok(p) => p,
            Err(e) => {
                return Err(e);
            },
        };
        Ok(ShellLink { header: hdr, linktarget_id_list, link_info, string_data, extra_data })
    }

    /// The fixed header.
    pub fn header(&self) -> (r: &header::ShellLinkHeader)
        ensures
            r == self.header,
    {
        &self.header
    }

    /// The header, for updating.
    pub fn header_mut(&mut self) -> (r: &mut header::ShellLinkHeader)
        ensures
            *r == old(self).header,
            *final(self) == (ShellLink { header: *final(r), ..*old(self) }),
    {
        &mut self.header
    }

    /// The target item ID list, when present.
    pub fn linktarget_id_list(&self) -> (r: &Option<LinkTargetIdList>)
        ensures
            r == self.linktarget_id_list,
    {
        &self.linktarget_id_list
    }

    /// The link information structure, when present.
    pub fn link_info(&self) -> (r: &Option<LinkInfo>)
        ensures
            r == self.link_info,
    {
        &self.link_info
    }

    /// The five optional strings.
    pub fn string_data(&self) -> (r: &StringData)
        ensures
            r == self.string_data,
    {
        &self.string_data
    }

    /// The trailing extra-data blocks.
    pub fn extra_data(&self) -> (r: &extradata::ExtraData)
        ensures
            r == self.extra_data,
    {
        &self.extra_data
    }

    /// The shortcut's description, when present.
    pub fn name(&self) -> (r: &Option<String>)
        ensures
            r == self.string_data.name_string,
    {
        &self.string_data.name_string
    }

    /// The target's path relative to the link file, when present.
    pub fn relative_path(&self) -> (r: &Option<String>)
        ensures
            r == self.string_data.relative_path,
    {
        &self.string_data.relative_path
    }

    /// The working directory, when present.
    pub fn working_dir(&self) -> (r: &Option<String>)
        ensures
            r == self.string_data.working_dir,
    {
        &self.string_data.working_dir
    }

    /// The command-line arguments, when present.
    pub fn arguments(&self) -> (r: &Option<String>)
        ensures
            r == self.string_data.command_line_arguments,
    {
        &self.string_data.command_line_arguments
    }

    /// The icon location, when present.
    pub fn icon_location(&self) -> (r: &Option<String>)
        ensures
            r == self.string_data.icon_location,
    {
        &self.string_data.icon_location
    }
}

} // verus!

verus! {

/// The full target path a LinkInfo yields: the net name when the
/// network-relative flag is set, else the Unicode base path when present,
/// else the ANSI one; then the suffix (Unicode preferred), with a single
/// backslash between them unless the base already ends in one.
pub open spec fn spec_link_target(li: LinkInfo) -> Seq<char> {
    let base = if li.link_info_flags@ & linkinfo::COMMON_NETWORK_RELATIVE_LINK_AND_PATH_SUFFIX
        != 0 {
        li.common_network_relative_link->Some_0.net_name@
    } else {
        match li.local_base_path_unicode {
            Some(s) => s@,
            None => match li.local_base_path {
                Some(s) => s@,
                None => Seq::empty(),
            },
        }
    };
    let suffix = match li.common_path_suffix_unicode {
        Some(s) => s@,
        None => li.common_path_suffix@,
    };
    if base.len() > 0 && base.last() == '\\' {
        base + suffix
    } else {
        base + seq!['\\'] + suffix
    }
}

impl ShellLink {
    /// The full path of the link target, derived from the LinkInfo
    /// structure; `None` when the link carries none.
    pub fn link_target(&self) -> (r: Option<String>)
        requires
            self.link_info matches Some(li) ==> {
                &&& (li.link_info_flags@ & linkinfo::COMMON_NETWORK_RELATIVE_LINK_AND_PATH_SUFFIX
                    != 0 ==> li.common_network_relative_link is Some)
                &&& (li.link_info_flags@ & linkinfo::COMMON_NETWORK_RELATIVE_LINK_AND_PATH_SUFFIX
                    == 0 ==> li.local_base_path_unicode is Some || li.local_base_path is Some)
            },
        ensures
            r is Some <==> self.link_info is Some,
            r matches Some(s) ==> self.link_info matches Some(li) && s@ == spec_link_target(li),
    {
        let info = match &self.link_info {
            Some(info) => info,
            None => {
                return None;
            },
        };
        let mut out: String =
            if info.link_info_flags.has_common_network_relative_link_and_path_suffix() {
            match &info.common_network_relative_link {
                Some(l) => l.net_name.clone(),
                None => {
                    proof {
                        assert(false);
                    }
                    String::new()
                },
            }
        } else {
            match &info.local_base_path_unicode {
                Some(s) => s.clone(),
                None => match &info.local_base_path {
                    Some(s) => s.clone(),
                    None => {
                        proof {
                            assert(false);
                        }
                        String::new()
                    },
                },
            }
        };
        let n = out.as_str().unicode_len();
        let ends_in_sep = if n == 0 {
            false
        } else {
            out.as_str().get_char(n - 1) == '\\'
        };
        if !ends_in_sep {
            proof {
                reveal_strlit("\\");
            }
            out.append("\\");
        }
        match &info.common_path_suffix_unicode {
            Some(s) => out.append(s.as_str()),
            None => out.append(info.common_path_suffix.as_str()),
        }
        proof {
            assert(out@ =~= spec_link_target(*info));
        }
        Some(out)
    }

    /// Sets the name string and its presence flag together.
    pub fn set_name(&mut self, name: Option<String>)
        ensures
            final(self).string_data.name_string == name,
            final(self).header.link_flags@ == (if name is Some {
                old(self).header.link_flags@ | header::HAS_NAME
            } else {
                old(self).header.link_flags@ & !header::HAS_NAME
            }),
            final(self).header == (header::ShellLinkHeader {
                link_flags: final(self).header.link_flags,
                ..old(self).header
            }),
            final(self).string_data == (StringData {
                name_string: name,
                ..old(self).string_data
            }),
            final(self).linktarget_id_list == old(self).linktarget_id_list,
            final(self).link_info == old(self).link_info,
            final(self).extra_data == old(self).extra_data,
    {
        let is_present = name.is_some();
        self.header.update_link_flags(header::HAS_NAME, is_present);
        self.string_data.name_string = name;
    }

    /// Sets the relative path string and its presence flag together.
    pub fn set_relative_path(&mut self, relative_path: Option<String>)
        ensures
            final(self).string_data.relative_path == relative_path,
            final(self).header.link_flags@ == (if relative_path is Some {
                old(self).header.link_flags@ | header::HAS_RELATIVE_PATH
            } else {
                old(self).header.link_flags@ & !header::HAS_RELATIVE_PATH
            }),
            final(self).header == (header::ShellLinkHeader {
                link_flags: final(self).header.link_flags,
                ..old(self).header
            }),
            final(self).string_data == (StringData {
                relative_path: relative_path,
                ..old(self).string_data
            }),
            final(self).linktarget_id_list == old(self).linktarget_id_list,
            final(self).link_info == old(self).link_info,
            final(self).extra_data == old(self).extra_data,
    {
        let is_present = relative_path.is_some();
        self.header.update_link_flags(header::HAS_RELATIVE_PATH, is_present);
        self.string_data.relative_path = relative_path;
    }

    /// Sets the working directory string and its presence flag together.
    pub fn set_working_dir(&mut self, working_dir: Option<String>)
        ensures
            final(self).string_data.working_dir == working_dir,
            final(self).header.link_flags@ == (if working_dir is Some {
                old(self).header.link_flags@ | header::HAS_WORKING_DIR
            } else {
                old(self).header.link_flags@ & !header::HAS_WORKING_DIR
            }),
            final(self).header == (header::ShellLinkHeader {
                link_flags: final(self).header.link_flags,
                ..old(self).header
            }),
            final(self).string_data == (StringData {
                working_dir: working_dir,
                ..old(self).string_data
            }),
            final(self).linktarget_id_list == old(self).linktarget_id_list,
            final(self).link_info == old(self).link_info,
            final(self).extra_data == old(self).extra_data,
    {
        let is_present = working_dir.is_some();
        self.header.update_link_flags(header::HAS_WORKING_DIR, is_present);
        self.string_data.working_dir = working_dir;
    }

    /// Sets the command-line arguments and their presence flag together.
    pub fn set_arguments(&mut self, arguments: Option<String>)
        ensures
            final(self).string_data.command_line_arguments == arguments,
            final(self).header.link_flags@ == (if arguments is Some {
                old(self).header.link_flags@ | header::HAS_ARGUMENTS
            } else {
                old(self).header.link_flags@ & !header::HAS_ARGUMENTS
            }),
            final(self).header == (header::ShellLinkHeader {
                link_flags: final(self).header.link_flags,
                ..old(self).header
            }),
            final(self).string_data == (StringData {
                command_line_arguments: arguments,
                ..old(self).string_data
            }),
            final(self).linktarget_id_list == old(self).linktarget_id_list,
            final(self).link_info == old(self).link_info,
            final(self).extra_data == old(self).extra_data,
    {
        let is_present = arguments.is_some();
        self.header.update_link_flags(header::HAS_ARGUMENTS, is_present);
        self.string_data.command_line_arguments = arguments;
    }

    /// Sets the icon location string and its presence flag together.
    pub fn set_icon_location(&mut self, icon_location: Option<String>)
        ensures
            final(self).string_data.icon_location == icon_location,
            final(self).header.link_flags@ == (if icon_location is Some {
                old(self).header.link_flags@ | header::HAS_ICON_LOCATION
            } else {
                old(self).header.link_flags@ & !header::HAS_ICON_LOCATION
            }),
            final(self).header == (header::ShellLinkHeader {
                link_flags: final(self).header.link_flags,
                ..old(self).header
            }),
            final(self).string_data == (StringData {
                icon_location: icon_location,
                ..old(self).string_data
            }),
            final(self).linktarget_id_list == old(self).linktarget_id_list,
            final(self).link_info == old(self).link_info,
            final(self).extra_data == old(self).extra_data,
    {
        let is_present = icon_location.is_some();
        self.header.update_link_flags(header::HAS_ICON_LOCATION, is_present);
        self.string_data.icon_location = icon_location;
    }
}

} // verus!

verus! {

/// The bytes one optional string slot contributes to the output: nothing
/// when its flag is clear, its size-prefixed form when set.
pub open spec fn spec_slot_data(s: Option<String>, present: bool, unicode: bool) -> Option<
    Seq<u8>,
> {
    if !present {
        Some(Seq::<u8>::empty())
    } else {
        match s {
            Some(t) => stringdata::spec_to_data(t@, unicode),
            None => None,
        }
    }
}

impl ShellLink {
    /// Serialises the supported subset for writing: the header and the
    /// five optional strings, in stored order. Links that announce a
    /// target ID list or link info are outside the subset this writer
    /// defines. `None` when a string is too long for its 16-bit count.
    pub fn write_data(&self) -> (r: Option<Vec<u8>>)
        requires
            !header::flag_set(self.header.link_flags@, header::HAS_LINK_TARGET_ID_LIST),
            !header::flag_set(self.header.link_flags@, header::HAS_LINK_INFO),
            header::flag_set(self.header.link_flags@, header::HAS_NAME)
                ==> self.string_data.name_string is Some,
            header::flag_set(self.header.link_flags@, header::HAS_RELATIVE_PATH)
                ==> self.string_data.relative_path is Some,
            header::flag_set(self.header.link_flags@, header::HAS_WORKING_DIR)
                ==> self.string_data.working_dir is Some,
            header::flag_set(self.header.link_flags@, header::HAS_ARGUMENTS)
                ==> self.string_data.command_line_arguments is Some,
            header::flag_set(self.header.link_flags@, header::HAS_ICON_LOCATION)
                ==> self.string_data.icon_location is Some,
        ensures
            ({
                let flags = self.header.link_flags@;
                let unicode = header::flag_set(flags, header::IS_UNICODE);
                let d1 = spec_slot_data(
                    self.string_data.name_string,
                    header::flag_set(flags, header::HAS_NAME),
                    unicode,
                );
                let d2 = spec_slot_data(
                    self.string_data.relative_path,
                    header::flag_set(flags, header::HAS_RELATIVE_PATH),
                    unicode,
                );
                let d3 = spec_slot_data(
                    self.string_data.working_dir,
                    header::flag_set(flags, header::HAS_WORKING_DIR),
                    unicode,
                );
                let d4 = spec_slot_data(
                    self.string_data.command_line_arguments,
                    header::flag_set(flags, header::HAS_ARGUMENTS),
                    unicode,
                );
                let d5 = spec_slot_data(
                    self.string_data.icon_location,
                    header::flag_set(flags, header::HAS_ICON_LOCATION),
                    unicode,
                );
                &&& (r matches Some(v) ==> d1 is Some && d2 is Some && d3 is Some && d4 is Some
                    && d5 is Some && v@ == self.header.spec_bytes() + d1->Some_0 + d2->Some_0
                    + d3->Some_0 + d4->Some_0 + d5->Some_0)
                &&& (r is None <==> d1 is None || d2 is None || d3 is None || d4 is None
                    || d5 is None)
            }),
    {
        let mut out = self.header.to_bytes();
        if self.header.link_flags.has_name() {
            let text = match &self.string_data.name_string {
                Some(t) => t,
                None => {
                    proof {
                        assert(false);
                    }
                    return None;
                },
            };
            match stringdata::to_data(text.as_str(), &self.header.link_flags) {
                Some(mut b) => out.append(&mut b),
                None => {
                    return None;
                },
            }
        }
        if self.header.link_flags.has_relative_path() {
            let text = match &self.string_data.relative_path {
                Some(t) => t,
                None => {
                    proof {
                        assert(false);
                    }
                    return None;
                },
            };
            match stringdata::to_data(text.as_str(), &self.header.link_flags) {
                Some(mut b) => out.append(&mut b),
                None => {
                    return None;
                },
            }
        }
        if self.header.link_flags.has_working_dir() {
            let text = match &self.string_data.working_dir {
                Some(t) => t,
                None => {
                    proof {
                        assert(false);
                    }
                    return None;
                },
            };
            match stringdata::to_data(text.as_str(), &self.header.link_flags) {
                Some(mut b) => out.append(&mut b),
                None => {
                    return None;
                },
            }
        }
        if self.header.link_flags.has_arguments() {
            let text = match &self.string_data.command_line_arguments {
                Some(t) => t,
                None => {
                    proof {
                        assert(false);
                    }
                    return None;
                },
            };
            match stringdata::to_data(text.as_str(), &self.header.link_flags) {
                Some(mut b) => out.append(&mut b),
                None => {
                    return None;
                },
            }
        }
        if self.header.link_flags.has_icon_location() {
            let text = match &self.string_data.icon_location {
                Some(t) => t,
                None => {
                    proof {
                        assert(false);
                    }
                    return None;
                },
            };
            match stringdata::to_data(text.as_str(), &self.header.link_flags) {
                Some(mut b) => out.append(&mut b),
                None => {
                    return None;
                },
            }
        }
        proof {
            assert(Seq::<u8>::empty() + Seq::<u8>::empty() =~= Seq::<u8>::empty());
        }
        Some(out)
    }
}

} // verus!


