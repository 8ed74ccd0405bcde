//! The shell link header: magic size word, class identifier, the two big
//! flag sets, timestamps, and launch parameters.

use vstd::prelude::*;

use crate::Error;
use crate::FieldType;
use crate::bytes::i32_bits;
use crate::bytes::le_i32;
use crate::bytes::le_u16;
use crate::bytes::le_u32;
use crate::bytes::le_u64;
use crate::bytes::u16_le_bytes;
use crate::bytes::u32_le_bytes;
use crate::bytes::u64_le_bytes;
use crate::filetime::FileTime;
use crate::guid::Guid;
use crate::guid::spec_guid_bytes;
use crate::guid::spec_guid_of;

verus! {

/// The shell link is saved with an item ID list.
pub const HAS_LINK_TARGET_ID_LIST: u32 = 0x0000_0001;

/// The shell link is saved with link information.
pub const HAS_LINK_INFO: u32 = 0x0000_0002;

/// The shell link is saved with a name string.
pub const HAS_NAME: u32 = 0x0000_0004;

/// The shell link is saved with a relative path string.
pub const HAS_RELATIVE_PATH: u32 = 0x0000_0008;

/// The shell link is saved with a working directory string.
pub const HAS_WORKING_DIR: u32 = 0x0000_0010;

/// The shell link is saved with command line arguments.
pub const HAS_ARGUMENTS: u32 = 0x0000_0020;

/// The shell link is saved with an icon location string.
pub const HAS_ICON_LOCATION: u32 = 0x0000_0040;

/// String data is stored as UTF-16LE rather than in a code page.
pub const IS_UNICODE: u32 = 0x0000_0080;

/// The LinkInfo structure is ignored.
pub const FORCE_NO_LINK_INFO: u32 = 0x0000_0100;

/// The shell link is saved with an EnvironmentVariableDataBlock.
pub const HAS_EXP_STRING: u32 = 0x0000_0200;

/// The target runs in a separate virtual machine when it is 16-bit.
pub const RUN_IN_SEPARATE_PROCESS: u32 = 0x0000_0400;

/// A bit that is undefined and ignored.
pub const UNUSED1: u32 = 0x0000_0800;

/// The shell link is saved with a DarwinDataBlock.
pub const HAS_DARWIN_ID: u32 = 0x0000_1000;

/// The application runs as a different user when activated.
pub const RUN_AS_USER: u32 = 0x0000_2000;

/// The shell link is saved with an IconEnvironmentDataBlock.
pub const HAS_EXP_ICON: u32 = 0x0000_4000;

/// The file system location is represented in the shell namespace.
pub const NO_PIDL_ALIAS: u32 = 0x0000_8000;

/// A bit that is undefined and ignored.
pub const UNUSED2: u32 = 0x0001_0000;

/// The shell link is saved with a ShimDataBlock.
pub const RUN_WITH_SHIM_LAYER: u32 = 0x0002_0000;

/// The TrackerDataBlock is ignored.
pub const FORCE_NO_LINK_TRACK: u32 = 0x0004_0000;

/// Target properties are collected into the PropertyStoreDataBlock.
pub const ENABLE_TARGET_METADATA: u32 = 0x0008_0000;

/// The EnvironmentVariableDataBlock is ignored.
pub const DISABLE_LINK_PATH_TRACKING: u32 = 0x0010_0000;

/// The SpecialFolder and KnownFolder data blocks are ignored.
pub const DISABLE_KNOWN_FOLDER_TRACKING: u32 = 0x0020_0000;

/// The unaliased form of the known folder IDList is preferred.
pub const DISABLE_KNOWN_FOLDER_ALIAS: u32 = 0x0040_0000;

/// A link may reference another link.
pub const ALLOW_LINK_TO_LINK: u32 = 0x0080_0000;

/// The unaliased form is used when saving under a known folder.
pub const UNALIAS_ON_SAVE: u32 = 0x0100_0000;

/// The environment variable path is preferred over the target IDList.
pub const PREFER_ENVIRONMENT_PATH: u32 = 0x0200_0000;

/// A local IDList is kept for UNC targets on the local machine.
pub const KEEP_LOCAL_ID_LIST_FOR_UNC_TARGET: u32 = 0x0400_0000;

/// All 27 defined link flag bits.
pub const LINK_FLAGS_MASK: u32 = 0x07FF_FFFF;

/// The file or directory is read-only.
pub const FILE_ATTRIBUTE_READONLY: u32 = 0x0001;

/// The file or directory is hidden.
pub const FILE_ATTRIBUTE_HIDDEN: u32 = 0x0002;

/// The file or directory belongs to the operating system.
pub const FILE_ATTRIBUTE_SYSTEM: u32 = 0x0004;

/// A reserved attribute bit.
pub const FILE_ATTRIBUTE_RESERVED1: u32 = 0x0008;

/// The link target is a directory.
pub const FILE_ATTRIBUTE_DIRECTORY: u32 = 0x0010;

/// The file or directory is marked for archiving.
pub const FILE_ATTRIBUTE_ARCHIVE: u32 = 0x0020;

/// A reserved attribute bit.
pub const FILE_ATTRIBUTE_RESERVED2: u32 = 0x0040;

/// The file or directory has no other attributes set.
pub const FILE_ATTRIBUTE_NORMAL: u32 = 0x0080;

/// The file is used for temporary storage.
pub const FILE_ATTRIBUTE_TEMPORARY: u32 = 0x0100;

/// The file is sparse.
pub const FILE_ATTRIBUTE_SPARSE_FILE: u32 = 0x0200;

/// The file or directory has a reparse point.
pub const FILE_ATTRIBUTE_REPARSE_POINT: u32 = 0x0400;

/// The file or directory is compressed.
pub const FILE_ATTRIBUTE_COMPRESSED: u32 = 0x0800;

/// The data of the file is not immediately available.
pub const FILE_ATTRIBUTE_OFFLINE: u32 = 0x1000;

/// The contents of the file need to be indexed.
pub const FILE_ATTRIBUTE_NOT_CONTENT_INDEXED: u32 = 0x2000;

/// The file or directory is encrypted.
pub const FILE_ATTRIBUTE_ENCRYPTED: u32 = 0x4000;

/// All 15 defined file attribute bits.
pub const FILE_ATTRIBUTE_FLAGS_MASK: u32 = 0x7FFF;

/// No modifier key.
pub const NO_MODIFIER: u8 = 0x00;

/// The SHIFT key.
pub const HOTKEYF_SHIFT: u8 = 0x01;

/// The CTRL key.
pub const HOTKEYF_CONTROL: u8 = 0x02;

/// The ALT key.
pub const HOTKEYF_ALT: u8 = 0x04;

/// All defined hotkey modifier bits.
pub const HOTKEY_MODIFIERS_MASK: u8 = 0x07;

/// True when `bits` holds only defined link flag bits.
pub open spec fn valid_link_flags(bits: u32) -> bool {
    bits & !LINK_FLAGS_MASK == 0
}

/// True when `bits` holds only defined file attribute bits.
pub open spec fn valid_file_attribute_flags(bits: u32) -> bool {
    bits & !FILE_ATTRIBUTE_FLAGS_MASK == 0
}

/// True when `bits` holds only defined hotkey modifier bits.
pub open spec fn valid_hotkey_modifiers(bits: u8) -> bool {
    bits & !HOTKEY_MODIFIERS_MASK == 0
}

/// True when any bit of `mask` is set in `bits`.
pub open spec fn flag_set(bits: u32, mask: u32) -> bool {
    bits & mask != 0
}

/// The 27 defined bits that specify which structures follow the header.
#[derive(Clone, Copy, Debug, PartialEq, Eq, Structural)]
pub struct LinkFlags {
    bits: u32,
}

impl View for LinkFlags {
    type V = u32;

    closed spec fn view(&self) -> u32 {
        self.bits
    }
}

impl LinkFlags {
    /// Accepts a raw word iff every set bit is a defined flag.
    pub fn from_bits(raw: u32) -> (r: Option<LinkFlags>)
        ensures
            r matches Some(f) ==> valid_link_flags(raw) && f@ == raw,
            r is None <==> !valid_link_flags(raw),
    {
        if raw & !LINK_FLAGS_MASK == 0 {
            Some(LinkFlags { bits: raw })
        } else {
            None
        }
    }

    /// The raw bit pattern.
    pub fn bits(&self) -> (r: u32)
        ensures
            r == self@,
    {
        self.bits
    }

    /// True when any bit of `mask` is set.
    pub fn contains(&self, mask: u32) -> (r: bool)
        ensures
            r == flag_set(self@, mask),
    {
        self.bits & mask != 0
    }

    /// Sets or clears the bits of `mask`.
    pub fn set(&mut self, mask: u32, value: bool)
        ensures
            final(self)@ == (if value {
                old(self)@ | mask
            } else {
                old(self)@ & !mask
            }),
    {
        if value {
            self.bits = self.bits | mask;
        } else {
            self.bits = self.bits & !mask;
        }
    }

    pub fn has_link_target_id_list(&self) -> (r: bool)
        ensures
            r == flag_set(self@, HAS_LINK_TARGET_ID_LIST),
    {
        self.contains(HAS_LINK_TARGET_ID_LIST)
    }

    pub fn has_link_info(&self) -> (r: bool)
        ensures
            r == flag_set(self@, HAS_LINK_INFO),
    {
        self.contains(HAS_LINK_INFO)
    }

    pub fn has_name(&self) -> (r: bool)
        ensures
            r == flag_set(self@, HAS_NAME),
    {
        self.contains(HAS_NAME)
    }

    pub fn has_relative_path(&self) -> (r: bool)
        ensures
            r == flag_set(self@, HAS_RELATIVE_PATH),
    {
        self.contains(HAS_RELATIVE_PATH)
    }

    pub fn has_working_dir(&self) -> (r: bool)
        ensures
            r == flag_set(self@, HAS_WORKING_DIR),
    {
        self.contains(HAS_WORKING_DIR)
    }

    pub fn has_arguments(&self) -> (r: bool)
        ensures
            r == flag_set(self@, HAS_ARGUMENTS),
    {
        self.contains(HAS_ARGUMENTS)
    }

    pub fn has_icon_location(&self) -> (r: bool)
        ensures
            r == flag_set(self@, HAS_ICON_LOCATION),
    {
        self.contains(HAS_ICON_LOCATION)
    }

    pub fn is_unicode(&self) -> (r: bool)
        ensures
            r == flag_set(self@, IS_UNICODE),
    {
        self.contains(IS_UNICODE)
    }
}

/// The 15 defined attribute bits of the link target.
#[derive(Clone, Copy, Debug, PartialEq, Eq, Structural)]
pub struct FileAttributeFlags {
    bits: u32,
}

impl View for FileAttributeFlags {
    type V = u32;

    closed spec fn view(&self) -> u32 {
        self.bits
    }
}

impl FileAttributeFlags {
    /// Accepts a raw word iff every set bit is a defined attribute.
    pub fn from_bits(raw: u32) -> (r: Option<FileAttributeFlags>)
        ensures
            r matches Some(f) ==> valid_file_attribute_flags(raw) && f@ == raw,
            r is None <==> !valid_file_attribute_flags(raw),
    {
        if raw & !FILE_ATTRIBUTE_FLAGS_MASK == 0 {
            Some(FileAttributeFlags { bits: raw })
        } else {
            None
        }
    }

    /// The raw bit pattern.
    pub fn bits(&self) -> (r: u32)
        ensures
            r == self@,
    {
        self.bits
    }

    /// True when any bit of `mask` is set.
    pub fn contains(&self, mask: u32) -> (r: bool)
        ensures
            r == flag_set(self@, mask),
    {
        self.bits & mask != 0
    }
}

/// The defined modifier bits of a hotkey.
#[derive(Clone, Copy, Debug, PartialEq, Eq, Hash, Structural)]
pub struct HotkeyModifiers {
    bits: u8,
}

impl View for HotkeyModifiers {
    type V = u8;

    closed spec fn view(&self) -> u8 {
        self.bits
    }
}

impl HotkeyModifiers {
    /// Accepts a raw byte iff every set bit is a defined modifier.
    pub fn from_bits(raw: u8) -> (r: Option<HotkeyModifiers>)
        ensures
            r matches Some(f) ==> valid_hotkey_modifiers(raw) && f@ == raw,
            r is None <==> !valid_hotkey_modifiers(raw),
    {
        if raw & !HOTKEY_MODIFIERS_MASK == 0 {
            Some(HotkeyModifiers { bits: raw })
        } else {
            None
        }
    }

    /// The raw bit pattern.
    pub fn bits(&self) -> (r: u8)
        ensures
            r == self@,
    {
        self.bits
    }
}

/// The virtual key codes a hotkey may name.
#[derive(Clone, Copy, Debug, PartialEq, Eq, Hash, Structural)]
#[allow(missing_docs)]
pub enum HotkeyKey {
    NoKeyAssigned,
    Key0,
    Key1,
    Key2,
    Key3,
    Key4,
    Key5,
    Key6,
    Key7,
    Key8,
    Key9,
    KeyA,
    KeyB,
    KeyC,
    KeyD,
    KeyE,
    KeyF,
    KeyG,
    KeyH,
    KeyI,
    KeyJ,
    KeyK,
    KeyL,
    KeyM,
    KeyN,
    KeyO,
    KeyP,
    KeyQ,
    KeyR,
    KeyS,
    KeyT,
    KeyU,
    KeyV,
    KeyW,
    KeyX,
    KeyY,
    KeyZ,
    F1,
    F2,
    F3,
    F4,
    F5,
    F6,
    F7,
    F8,
    F9,
    F10,
    F11,
    F12,
    F13,
    F14,
    F15,
    F16,
    F17,
    F18,
    F19,
    F20,
    F21,
    F22,
    F23,
    F24,
    NumLock,
    ScrollLock,
}

/// The key a raw code denotes, if it is in the defined set.
pub open spec fn hotkey_key_of(raw: u8) -> Option<HotkeyKey> {
    if raw == 0x00 {
        Some(HotkeyKey::NoKeyAssigned)
    } else if raw == 0x30 {
        Some(HotkeyKey::Key0)
    } else if raw == 0x31 {
        Some(HotkeyKey::Key1)
    } else if raw == 0x32 {
        Some(HotkeyKey::Key2)
    } else if raw == 0x33 {
        Some(HotkeyKey::Key3)
    } else if raw == 0x34 {
        Some(HotkeyKey::Key4)
    } else if raw == 0x35 {
        Some(HotkeyKey::Key5)
    } else if raw == 0x36 {
        Some(HotkeyKey::Key6)
    } else if raw == 0x37 {
        Some(HotkeyKey::Key7)
    } else if raw == 0x38 {
        Some(HotkeyKey::Key8)
    } else if raw == 0x39 {
        Some(HotkeyKey::Key9)
    } else if raw == 0x41 {
        Some(HotkeyKey::KeyA)
    } else if raw == 0x42 {
        Some(HotkeyKey::KeyB)
    } else if raw == 0x43 {
        Some(HotkeyKey::KeyC)
    } else if raw == 0x44 {
        Some(HotkeyKey::KeyD)
    } else if raw == 0x45 {
        Some(HotkeyKey::KeyE)
    } else if raw == 0x46 {
        Some(HotkeyKey::KeyF)
    } else if raw == 0x47 {
        Some(HotkeyKey::KeyG)
    } else if raw == 0x48 {
        Some(HotkeyKey::KeyH)
    } else if raw == 0x49 {
        Some(HotkeyKey::KeyI)
    } else if raw == 0x4a {
        Some(HotkeyKey::KeyJ)
    } else if raw == 0x4b {
        Some(HotkeyKey::KeyK)
    } else if raw == 0x4c {
        Some(HotkeyKey::KeyL)
    } else if raw == 0x4d {
        Some(HotkeyKey::KeyM)
    } else if raw == 0x4e {
        Some(HotkeyKey::KeyN)
    } else if raw == 0x4f {
        Some(HotkeyKey::KeyO)
    } else if raw == 0x50 {
        Some(HotkeyKey::KeyP)
    } else if raw == 0x51 {
        Some(HotkeyKey::KeyQ)
    } else if raw == 0x52 {
        Some(HotkeyKey::KeyR)
    } else if raw == 0x53 {
        Some(HotkeyKey::KeyS)
    } else if raw == 0x54 {
        Some(HotkeyKey::KeyT)
    } else if raw == 0x55 {
        Some(HotkeyKey::KeyU)
    } else if raw == 0x56 {
        Some(HotkeyKey::KeyV)
    } else if raw == 0x57 {
        Some(HotkeyKey::KeyW)
    } else if raw == 0x58 {
        Some(HotkeyKey::KeyX)
    } else if raw == 0x59 {
        Some(HotkeyKey::KeyY)
    } else if raw == 0x5a {
        Some(HotkeyKey::KeyZ)
    } else if raw == 0x70 {
        Some(HotkeyKey::F1)
    } else if raw == 0x71 {
        Some(HotkeyKey::F2)
    } else if raw == 0x72 {
        Some(HotkeyKey::F3)
    } else if raw == 0x73 {
        Some(HotkeyKey::F4)
    } else if raw == 0x74 {
        Some(HotkeyKey::F5)
    } else if raw == 0x75 {
        Some(HotkeyKey::F6)
    } else if raw == 0x76 {
        Some(HotkeyKey::F7)
    } else if raw == 0x77 {
        Some(HotkeyKey::F8)
    } else if raw == 0x78 {
        Some(HotkeyKey::F9)
    } else if raw == 0x79 {
        Some(HotkeyKey::F10)
    } else if raw == 0x7a {
        Some(HotkeyKey::F11)
    } else if raw == 0x7b {
        Some(HotkeyKey::F12)
    } else if raw == 0x7c {
        Some(HotkeyKey::F13)
    } else if raw == 0x7d {
        Some(HotkeyKey::F14)
    } else if raw == 0x7e {
        Some(HotkeyKey::F15)
    } else if raw == 0x7f {
        Some(HotkeyKey::F16)
    } else if raw == 0x80 {
        Some(HotkeyKey::F17)
    } else if raw == 0x81 {
        Some(HotkeyKey::F18)
    } else if raw == 0x82 {
        Some(HotkeyKey::F19)
    } else if raw == 0x83 {
        Some(HotkeyKey::F20)
    } else if raw == 0x84 {
        Some(HotkeyKey::F21)
    } else if raw == 0x85 {
        Some(HotkeyKey::F22)
    } else if raw == 0x86 {
        Some(HotkeyKey::F23)
    } else if raw == 0x87 {
        Some(HotkeyKey::F24)
    } else if raw == 0x90 {
        Some(HotkeyKey::NumLock)
    } else if raw == 0x91 {
        Some(HotkeyKey::ScrollLock)
    } else {
        None
    }
}

/// The raw code of a key.
pub open spec fn hotkey_key_code(k: HotkeyKey) -> u8 {
    match k {
        HotkeyKey::NoKeyAssigned => 0x00,
        HotkeyKey::Key0 => 0x30,
        HotkeyKey::Key1 => 0x31,
        HotkeyKey::Key2 => 0x32,
        HotkeyKey::Key3 => 0x33,
        HotkeyKey::Key4 => 0x34,
        HotkeyKey::Key5 => 0x35,
        HotkeyKey::Key6 => 0x36,
        HotkeyKey::Key7 => 0x37,
        HotkeyKey::Key8 => 0x38,
        HotkeyKey::Key9 => 0x39,
        HotkeyKey::KeyA => 0x41,
        HotkeyKey::KeyB => 0x42,
        HotkeyKey::KeyC => 0x43,
        HotkeyKey::KeyD => 0x44,
        HotkeyKey::KeyE => 0x45,
        HotkeyKey::KeyF => 0x46,
        HotkeyKey::KeyG => 0x47,
        HotkeyKey::KeyH => 0x48,
        HotkeyKey::KeyI => 0x49,
        HotkeyKey::KeyJ => 0x4a,
        HotkeyKey::KeyK => 0x4b,
        HotkeyKey::KeyL => 0x4c,
        HotkeyKey::KeyM => 0x4d,
        HotkeyKey::KeyN => 0x4e,
        HotkeyKey::KeyO => 0x4f,
        HotkeyKey::KeyP => 0x50,
        HotkeyKey::KeyQ => 0x51,
        HotkeyKey::KeyR => 0x52,
        HotkeyKey::KeyS => 0x53,
        HotkeyKey::KeyT => 0x54,
        HotkeyKey::KeyU => 0x55,
        HotkeyKey::KeyV => 0x56,
        HotkeyKey::KeyW => 0x57,
        HotkeyKey::KeyX => 0x58,
        HotkeyKey::KeyY => 0x59,
        HotkeyKey::KeyZ => 0x5a,
        HotkeyKey::F1 => 0x70,
        HotkeyKey::F2 => 0x71,
        HotkeyKey::F3 => 0x72,
        HotkeyKey::F4 => 0x73,
        HotkeyKey::F5 => 0x74,
        HotkeyKey::F6 => 0x75,
        HotkeyKey::F7 => 0x76,
        HotkeyKey::F8 => 0x77,
        HotkeyKey::F9 => 0x78,
        HotkeyKey::F10 => 0x79,
        HotkeyKey::F11 => 0x7a,
        HotkeyKey::F12 => 0x7b,
        HotkeyKey::F13 => 0x7c,
        HotkeyKey::F14 => 0x7d,
        HotkeyKey::F15 => 0x7e,
        HotkeyKey::F16 => 0x7f,
        HotkeyKey::F17 => 0x80,
        HotkeyKey::F18 => 0x81,
        HotkeyKey::F19 => 0x82,
        HotkeyKey::F20 => 0x83,
        HotkeyKey::F21 => 0x84,
        HotkeyKey::F22 => 0x85,
        HotkeyKey::F23 => 0x86,
        HotkeyKey::F24 => 0x87,
        HotkeyKey::NumLock => 0x90,
        HotkeyKey::ScrollLock => 0x91,
    }
}

impl HotkeyKey {
    /// The key a raw code denotes, if any.
    pub fn from_u8(raw: u8) -> (r: Option<HotkeyKey>)
        ensures
            r == hotkey_key_of(raw),
    {
        if false {
            None
    } else if raw == 0x00 {
        Some(HotkeyKey::NoKeyAssigned)
    } else if raw == 0x30 {
        Some(HotkeyKey::Key0)
    } else if raw == 0x31 {
        Some(HotkeyKey::Key1)
    } else if raw == 0x32 {
        Some(HotkeyKey::Key2)
    } else if raw == 0x33 {
        Some(HotkeyKey::Key3)
    } else if raw == 0x34 {
        Some(HotkeyKey::Key4)
    } else if raw == 0x35 {
        Some(HotkeyKey::Key5)
    } else if raw == 0x36 {
        Some(HotkeyKey::Key6)
    } else if raw == 0x37 {
        Some(HotkeyKey::Key7)
    } else if raw == 0x38 {
        Some(HotkeyKey::Key8)
    } else if raw == 0x39 {
        Some(HotkeyKey::Key9)
    } else if raw == 0x41 {
        Some(HotkeyKey::KeyA)
    } else if raw == 0x42 {
        Some(HotkeyKey::KeyB)
    } else if raw == 0x43 {
        Some(HotkeyKey::KeyC)
    } else if raw == 0x44 {
        Some(HotkeyKey::KeyD)
    } else if raw == 0x45 {
        Some(HotkeyKey::KeyE)
    } else if raw == 0x46 {
        Some(HotkeyKey::KeyF)
    } else if raw == 0x47 {
        Some(HotkeyKey::KeyG)
    } else if raw == 0x48 {
        Some(HotkeyKey::KeyH)
    } else if raw == 0x49 {
        Some(HotkeyKey::KeyI)
    } else if raw == 0x4a {
        Some(HotkeyKey::KeyJ)
    } else if raw == 0x4b {
        Some(HotkeyKey::KeyK)
    } else if raw == 0x4c {
        Some(HotkeyKey::KeyL)
    } else if raw == 0x4d {
        Some(HotkeyKey::KeyM)
    } else if raw == 0x4e {
        Some(HotkeyKey::KeyN)
    } else if raw == 0x4f {
        Some(HotkeyKey::KeyO)
    } else if raw == 0x50 {
        Some(HotkeyKey::KeyP)
    } else if raw == 0x51 {
        Some(HotkeyKey::KeyQ)
    } else if raw == 0x52 {
        Some(HotkeyKey::KeyR)
    } else if raw == 0x53 {
        Some(HotkeyKey::KeyS)
    } else if raw == 0x54 {
        Some(HotkeyKey::KeyT)
    } else if raw == 0x55 {
        Some(HotkeyKey::KeyU)
    } else if raw == 0x56 {
        Some(HotkeyKey::KeyV)
    } else if raw == 0x57 {
        Some(HotkeyKey::KeyW)
    } else if raw == 0x58 {
        Some(HotkeyKey::KeyX)
    } else if raw == 0x59 {
        Some(HotkeyKey::KeyY)
    } else if raw == 0x5a {
        Some(HotkeyKey::KeyZ)
    } else if raw == 0x70 {
        Some(HotkeyKey::F1)
    } else if raw == 0x71 {
        Some(HotkeyKey::F2)
    } else if raw == 0x72 {
        Some(HotkeyKey::F3)
    } else if raw == 0x73 {
        Some(HotkeyKey::F4)
    } else if raw == 0x74 {
        Some(HotkeyKey::F5)
    } else if raw == 0x75 {
        Some(HotkeyKey::F6)
    } else if raw == 0x76 {
        Some(HotkeyKey::F7)
    } else if raw == 0x77 {
        Some(HotkeyKey::F8)
    } else if raw == 0x78 {
        Some(HotkeyKey::F9)
    } else if raw == 0x79 {
        Some(HotkeyKey::F10)
    } else if raw == 0x7a {
        Some(HotkeyKey::F11)
    } else if raw == 0x7b {
        Some(HotkeyKey::F12)
    } else if raw == 0x7c {
        Some(HotkeyKey::F13)
    } else if raw == 0x7d {
        Some(HotkeyKey::F14)
    } else if raw == 0x7e {
        Some(HotkeyKey::F15)
    } else if raw == 0x7f {
        Some(HotkeyKey::F16)
    } else if raw == 0x80 {
        Some(HotkeyKey::F17)
    } else if raw == 0x81 {
        Some(HotkeyKey::F18)
    } else if raw == 0x82 {
        Some(HotkeyKey::F19)
    } else if raw == 0x83 {
        Some(HotkeyKey::F20)
    } else if raw == 0x84 {
        Some(HotkeyKey::F21)
    } else if raw == 0x85 {
        Some(HotkeyKey::F22)
    } else if raw == 0x86 {
        Some(HotkeyKey::F23)
    } else if raw == 0x87 {
        Some(HotkeyKey::F24)
    } else if raw == 0x90 {
        Some(HotkeyKey::NumLock)
    } else if raw == 0x91 {
        Some(HotkeyKey::ScrollLock)
        } else {
            None
        }
    }

    /// The raw code of this key.
    pub fn code(&self) -> (r: u8)
        ensures
            r == hotkey_key_code(*self),
    {
        match *self {
        HotkeyKey::NoKeyAssigned => 0x00,
        HotkeyKey::Key0 => 0x30,
        HotkeyKey::Key1 => 0x31,
        HotkeyKey::Key2 => 0x32,
        HotkeyKey::Key3 => 0x33,
        HotkeyKey::Key4 => 0x34,
        HotkeyKey::Key5 => 0x35,
        HotkeyKey::Key6 => 0x36,
        HotkeyKey::Key7 => 0x37,
        HotkeyKey::Key8 => 0x38,
        HotkeyKey::Key9 => 0x39,
        HotkeyKey::KeyA => 0x41,
        HotkeyKey::KeyB => 0x42,
        HotkeyKey::KeyC => 0x43,
        HotkeyKey::KeyD => 0x44,
        HotkeyKey::KeyE => 0x45,
        HotkeyKey::KeyF => 0x46,
        HotkeyKey::KeyG => 0x47,
        HotkeyKey::KeyH => 0x48,
        HotkeyKey::KeyI => 0x49,
        HotkeyKey::KeyJ => 0x4a,
        HotkeyKey::KeyK => 0x4b,
        HotkeyKey::KeyL => 0x4c,
        HotkeyKey::KeyM => 0x4d,
        HotkeyKey::KeyN => 0x4e,
        HotkeyKey::KeyO => 0x4f,
        HotkeyKey::KeyP => 0x50,
        HotkeyKey::KeyQ => 0x51,
        HotkeyKey::KeyR => 0x52,
        HotkeyKey::KeyS => 0x53,
        HotkeyKey::KeyT => 0x54,
        HotkeyKey::KeyU => 0x55,
        HotkeyKey::KeyV => 0x56,
        HotkeyKey::KeyW => 0x57,
        HotkeyKey::KeyX => 0x58,
        HotkeyKey::KeyY => 0x59,
        HotkeyKey::KeyZ => 0x5a,
        HotkeyKey::F1 => 0x70,
        HotkeyKey::F2 => 0x71,
        HotkeyKey::F3 => 0x72,
        HotkeyKey::F4 => 0x73,
        HotkeyKey::F5 => 0x74,
        HotkeyKey::F6 => 0x75,
        HotkeyKey::F7 => 0x76,
        HotkeyKey::F8 => 0x77,
        HotkeyKey::F9 => 0x78,
        HotkeyKey::F10 => 0x79,
        HotkeyKey::F11 => 0x7a,
        HotkeyKey::F12 => 0x7b,
        HotkeyKey::F13 => 0x7c,
        HotkeyKey::F14 => 0x7d,
        HotkeyKey::F15 => 0x7e,
        HotkeyKey::F16 => 0x7f,
        HotkeyKey::F17 => 0x80,
        HotkeyKey::F18 => 0x81,
        HotkeyKey::F19 => 0x82,
        HotkeyKey::F20 => 0x83,
        HotkeyKey::F21 => 0x84,
        HotkeyKey::F22 => 0x85,
        HotkeyKey::F23 => 0x86,
        HotkeyKey::F24 => 0x87,
        HotkeyKey::NumLock => 0x90,
        HotkeyKey::ScrollLock => 0x91,
        }
    }
}

/// The expected window state of the launched application.
#[derive(Clone, Copy, Debug, PartialEq, Eq, Hash, Structural)]
pub enum ShowCommand {
    /// The window is shown normally.
    ShowNormal,
    /// The window is shown maximized.
    ShowMaximized,
    /// The window is not shown and not focused.
    ShowMinNoActive,
}

/// The show command a raw word denotes, if it is in the defined set.
pub open spec fn show_command_of(raw: u32) -> Option<ShowCommand> {
    if raw == 1 {
        Some(ShowCommand::ShowNormal)
    } else if raw == 3 {
        Some(ShowCommand::ShowMaximized)
    } else if raw == 7 {
        Some(ShowCommand::ShowMinNoActive)
    } else {
        None
    }
}

/// The raw word of a show command.
pub open spec fn show_command_code(c: ShowCommand) -> u32 {
    match c {
        ShowCommand::ShowNormal => 1,
        ShowCommand::ShowMaximized => 3,
        ShowCommand::ShowMinNoActive => 7,
    }
}

impl ShowCommand {
    /// The show command a raw word denotes, if any.
    pub fn from_u32(raw: u32) -> (r: Option<ShowCommand>)
        ensures
            r == show_command_of(raw),
    {
        if raw == 1 {
            Some(ShowCommand::ShowNormal)
        } else if raw == 3 {
            Some(ShowCommand::ShowMaximized)
        } else if raw == 7 {
            Some(ShowCommand::ShowMinNoActive)
        } else {
            None
        }
    }

    /// The raw word of this show command.
    pub fn code(&self) -> (r: u32)
        ensures
            r == show_command_code(*self),
    {
        match *self {
            ShowCommand::ShowNormal => 1,
            ShowCommand::ShowMaximized => 3,
            ShowCommand::ShowMinNoActive => 7,
        }
    }
}

/// The keystrokes that launch the link target: a key code byte and a
/// modifier byte, kept separate to avoid endianness confusion.
#[derive(Clone, Copy, Debug, PartialEq, Eq, Hash, Structural)]
pub struct HotkeyFlags {
    /// The key code byte.
    pub low_byte: HotkeyKey,
    /// The modifier byte.
    pub high_byte: HotkeyModifiers,
}

impl HotkeyFlags {
    /// Pairs a key with its modifiers.
    pub fn new(low_byte: HotkeyKey, high_byte: HotkeyModifiers) -> (r: Self)
        ensures
            r.low_byte == low_byte,
            r.high_byte == high_byte,
    {
        HotkeyFlags { low_byte, high_byte }
    }

    /// The 16-bit wire form: the key code in the low byte, the modifiers
    /// in the high byte.
    pub fn to_flags_u16(self) -> (r: u16)
        ensures
            r == hotkey_key_code(self.low_byte) + self.high_byte@ * 0x100,
    {
        self.low_byte.code() as u16 + (self.high_byte.bits() as u16) * 0x100
    }

    /// The primary key.
    pub fn key(&self) -> (r: &HotkeyKey)
        ensures
            r == self.low_byte,
    {
        &self.low_byte
    }

    /// Replaces the primary key.
    pub fn set_key(&mut self, key: HotkeyKey)
        ensures
            final(self).low_byte == key,
            final(self).high_byte == old(self).high_byte,
    {
        self.low_byte = key;
    }

    /// The modifier keys.
    pub fn modifiers(&self) -> (r: &HotkeyModifiers)
        ensures
            r == self.high_byte,
    {
        &self.high_byte
    }

    /// Replaces the modifier keys.
    pub fn set_modifiers(&mut self, modifiers: HotkeyModifiers)
        ensures
            final(self).high_byte == modifiers,
            final(self).low_byte == old(self).low_byte,
    {
        self.high_byte = modifiers;
    }
}

} // verus!

verus! {

/// The fixed class identifier of a shell link:
/// `{00021401-0000-0000-C000-000000000046}`.
pub open spec fn shell_link_clsid() -> Guid {
    Guid {
        data1: 0x00021401,
        data2: 0,
        data3: 0,
        data4: [0xc0, 0, 0, 0, 0, 0, 0, 0x46],
    }
}

/// The fixed class identifier of a shell link, as a value.
pub fn clsid_value() -> (r: Guid)
    ensures
        r == shell_link_clsid(),
{
    Guid { data1: 0x00021401, data2: 0, data3: 0, data4: [0xc0, 0, 0, 0, 0, 0, 0, 0x46] }
}

/// The header of a shell link: identification, timestamps, and the flags
/// that specify which optional structures follow.
#[derive(Clone, Copy, Debug, PartialEq, Eq)]
pub struct ShellLinkHeader {
    /// Always `0x4C`.
    pub header_size: u32,
    /// Always the fixed shell link class identifier.
    pub link_clsid: Guid,
    /// Which optional structures are present, and the string encoding.
    pub link_flags: LinkFlags,
    /// The file attributes of the link target.
    pub file_attributes: FileAttributeFlags,
    /// When the link target was created; zero when unset.
    pub creation_time: FileTime,
    /// When the link target was last accessed; zero when unset.
    pub access_time: FileTime,
    /// When the link target was last written; zero when unset.
    pub write_time: FileTime,
    /// The low 32 bits of the link target's size.
    pub file_size: u32,
    /// The index of the icon within the icon location.
    pub icon_index: i32,
    /// The expected window state of the launched application.
    pub show_command: ShowCommand,
    /// The keystrokes that launch the link target.
    pub hotkey: HotkeyFlags,
}

/// Why decoding a header at the start of `d` fails, in the order the
/// checks run; `None` when it succeeds.
pub open spec fn spec_header_err(d: Seq<u8>) -> Option<Error> {
    if d.len() < 4 {
        Some(Error::Io { offset: 0 })
    } else if le_u32(d, 0) != 0x4c {
        Some(Error::NotAShellLink)
    } else if d.len() < 20 {
        Some(Error::Io { offset: 4 })
    } else if spec_guid_of(d, 4) != shell_link_clsid() {
        Some(Error::NotAShellLink)
    } else if d.len() < 0x4c {
        Some(Error::Io { offset: 20 })
    } else if !valid_link_flags(le_u32(d, 20)) {
        Some(
            Error::InvalidBitPattern {
                raw: le_u32(d, 20) as u64,
                field: FieldType::LinkFlags,
                offset: 20,
            },
        )
    } else if !valid_file_attribute_flags(le_u32(d, 24)) {
        Some(
            Error::InvalidBitPattern {
                raw: le_u32(d, 24) as u64,
                field: FieldType::FileAttributeFlags,
                offset: 24,
            },
        )
    } else if show_command_of(le_u32(d, 60)) is None {
        Some(
            Error::UnknownEnumValue {
                raw: le_u32(d, 60) as u64,
                field: FieldType::ShowCommand,
                offset: 60,
            },
        )
    } else if hotkey_key_of(d[64]) is None {
        Some(
            Error::UnknownEnumValue { raw: d[64] as u64, field: FieldType::HotkeyKey, offset: 64 },
        )
    } else if !valid_hotkey_modifiers(d[65]) {
        Some(
            Error::InvalidBitPattern {
                raw: d[65] as u64,
                field: FieldType::HotkeyModifiers,
                offset: 65,
            },
        )
    } else {
        None
    }
}

/// What the decoded header holds when `spec_header_err(d)` is `None`:
/// each field equals the wire word at its documented position.
pub open spec fn spec_header_matches(h: ShellLinkHeader, d: Seq<u8>) -> bool {
    &&& h.header_size == 0x4c
    &&& h.link_clsid == shell_link_clsid()
    &&& h.link_flags@ == le_u32(d, 20)
    &&& h.file_attributes@ == le_u32(d, 24)
    &&& h.creation_time@ == le_u64(d, 28)
    &&& h.access_time@ == le_u64(d, 36)
    &&& h.write_time@ == le_u64(d, 44)
    &&& h.file_size == le_u32(d, 52)
    &&& h.icon_index == le_i32(d, 56)
    &&& Some(h.show_command) == show_command_of(le_u32(d, 60))
    &&& Some(h.hotkey.low_byte) == hotkey_key_of(d[64])
    &&& h.hotkey.high_byte@ == d[65]
}

impl ShellLinkHeader {
    /// Decodes the 0x4C-byte header at the start of `data`. Succeeds iff
    /// the magic size word and class identifier match, the two flag words
    /// hold only defined bits, and the show command and hotkey code are in
    /// their domains; the error names the first check that failed.
    pub fn read(data: &[u8]) -> (r: Result<(ShellLinkHeader, usize), Error>)
        ensures
            r matches Ok((h, end)) ==> spec_header_err(data@) is None && spec_header_matches(
                h,
                data@,
            ) && end == 0x4c,
            r matches Err(e) ==> spec_header_err(data@) == Some(e),
            r is Err <==> spec_header_err(data@) is Some,
    {
        let header_size = match crate::bytes::read_u32(data, 0) {
            Some(w) => w,
            None => {
                return Err(Error::Io { offset: 0 });
            },
        };
        if header_size != 0x4c {
            return Err(Error::NotAShellLink);
        }
        let link_clsid = match Guid::read(data, 4) {
            Some((g, _)) => g,
            None => {
                return Err(Error::Io { offset: 4 });
            },
        };
        let fixed = clsid_value();
        if !(link_clsid.data1 == fixed.data1 && link_clsid.data2 == fixed.data2
            && link_clsid.data3 == fixed.data3 && eq_array8(&link_clsid.data4, &fixed.data4)) {
            return Err(Error::NotAShellLink);
        }
        let len: usize = data.len();
        if len < 0x4c {
            return Err(Error::Io { offset: 20 });
        }
        let raw_flags = match crate::bytes::read_u32(data, 20) {
            Some(w) => w,
            None => 0,
        };
        let link_flags = match LinkFlags::from_bits(raw_flags) {
            Some(f) => f,
            None => {
                return Err(
                    Error::InvalidBitPattern {
                        raw: raw_flags as u64,
                        field: FieldType::LinkFlags,
                        offset: 20,
                    },
                );
            },
        };
        let raw_attrs = match crate::bytes::read_u32(data, 24) {
            Some(w) => w,
            None => 0,
        };
        let file_attributes = match FileAttributeFlags::from_bits(raw_attrs) {
            Some(f) => f,
            None => {
                return Err(
                    Error::InvalidBitPattern {
                        raw: raw_attrs as u64,
                        field: FieldType::FileAttributeFlags,
                        offset: 24,
                    },
                );
            },
        };
        let creation_time = FileTime::from_u64(
            match crate::bytes::read_u64(data, 28) {
                Some(w) => w,
                None => 0,
            },
        );
        let access_time = FileTime::from_u64(
            match crate::bytes::read_u64(data, 36) {
                Some(w) => w,
                None => 0,
            },
        );
        let write_time = FileTime::from_u64(
            match crate::bytes::read_u64(data, 44) {
                Some(w) => w,
                None => 0,
            },
        );
        let file_size = match crate::bytes::read_u32(data, 52) {
            Some(w) => w,
            None => 0,
        };
        let icon_index = match crate::bytes::read_i32(data, 56) {
            Some(w) => w,
            None => 0,
        };
        let raw_show = match crate::bytes::read_u32(data, 60) {
            Some(w) => w,
            None => 0,
        };
        let show_command = match ShowCommand::from_u32(raw_show) {
            Some(c) => c,
            None => {
                return Err(
                    Error::UnknownEnumValue {
                        raw: raw_show as u64,
                        field: FieldType::ShowCommand,
                        offset: 60,
                    },
                );
            },
        };
        let raw_key = match crate::bytes::read_u8(data, 64) {
            Some(b) => b,
            None => 0,
        };
        let low_byte = match HotkeyKey::from_u8(raw_key) {
            Some(k) => k,
            None => {
                return Err(
                    Error::UnknownEnumValue {
                        raw: raw_key as u64,
                        field: FieldType::HotkeyKey,
                        offset: 64,
                    },
                );
            },
        };
        let raw_mods = match crate::bytes::read_u8(data, 65) {
            Some(b) => b,
            None => 0,
        };
        let high_byte = match HotkeyModifiers::from_bits(raw_mods) {
            Some(m) => m,
            None => {
                return Err(
                    Error::InvalidBitPattern {
                        raw: raw_mods as u64,
                        field: FieldType::HotkeyModifiers,
                        offset: 65,
                    },
                );
            },
        };
        Ok(
            (
                ShellLinkHeader {
                    header_size: 0x4c,
                    link_clsid,
                    link_flags,
                    file_attributes,
                    creation_time,
                    access_time,
                    write_time,
                    file_size,
                    icon_index,
                    show_command,
                    hotkey: HotkeyFlags { low_byte, high_byte },
                },
                0x4c,
            ),
        )
    }

    /// The 0x4C bytes this header writes: every field at its documented
    /// position, the ten reserved bytes zero.
    pub open spec fn spec_bytes(self) -> Seq<u8> {
        u32_le_bytes(0x4c) + spec_guid_bytes(self.link_clsid) + u32_le_bytes(self.link_flags@)
            + u32_le_bytes(self.file_attributes@) + u64_le_bytes(self.creation_time@)
            + u64_le_bytes(self.access_time@) + u64_le_bytes(self.write_time@) + u32_le_bytes(
            self.file_size,
        ) + u32_le_bytes(i32_bits(self.icon_index)) + u32_le_bytes(show_command_code(self.show_command))
            + u16_le_bytes((hotkey_key_code(self.hotkey.low_byte) + self.hotkey.high_byte@ * 0x100) as u16)
            + seq![0u8, 0u8, 0u8, 0u8, 0u8, 0u8, 0u8, 0u8, 0u8, 0u8]
    }

    /// Serialises the header for writing.
    #[verifier::rlimit(100)]
    #[verifier::spinoff_prover]
    pub fn to_bytes(&self) -> (r: Vec<u8>)
        ensures
            r@ == self.spec_bytes(),
            r@.len() == 0x4c,
    {
        let mut v: Vec<u8> = Vec::new();
        crate::bytes::push_u32(&mut v, 0x4c);
        self.link_clsid.write(&mut v);
        crate::bytes::push_u32(&mut v, self.link_flags.bits());
        crate::bytes::push_u32(&mut v, self.file_attributes.bits());
        crate::bytes::push_u64(&mut v, self.creation_time.to_u64());
        crate::bytes::push_u64(&mut v, self.access_time.to_u64());
        crate::bytes::push_u64(&mut v, self.write_time.to_u64());
        crate::bytes::push_u32(&mut v, self.file_size);
        crate::bytes::push_i32(&mut v, self.icon_index);
        crate::bytes::push_u32(&mut v, self.show_command.code());
        crate::bytes::push_u16(&mut v, self.hotkey.to_flags_u16());
        let mut i: usize = 0;
        let ghost mid = v@;
        while i < 10
            invariant
                i <= 10,
                v@ == mid + Seq::new(i as nat, |_j: int| 0u8),
            decreases 10 - i,
        {
            v.push(0u8);
            i = i + 1;
            proof {
                assert(v@ =~= mid + Seq::new(i as nat, |_j: int| 0u8));
            }
        }
        proof {
            assert(v@ =~= self.spec_bytes());
        }
        v
    }

    /// Sets or clears flag bits.
    pub fn update_link_flags(&mut self, mask: u32, value: bool)
        ensures
            final(self).link_flags@ == (if value {
                old(self).link_flags@ | mask
            } else {
                old(self).link_flags@ & !mask
            }),
            *final(self) == (ShellLinkHeader { link_flags: final(self).link_flags, ..*old(self) }),
    {
        self.link_flags.set(mask, value);
    }
}

impl Default for ShellLinkHeader {
    /// A blank header: Unicode strings, normal attributes, unset times,
    /// normal show command, no hotkey.
    fn default() -> (r: Self)
        ensures
            r.header_size == 0x4c,
            r.link_clsid == shell_link_clsid(),
            r.link_flags@ == IS_UNICODE,
            r.file_attributes@ == FILE_ATTRIBUTE_NORMAL,
            r.creation_time@ == 0,
            r.access_time@ == 0,
            r.write_time@ == 0,
            r.file_size == 0,
            r.icon_index == 0,
            r.show_command == ShowCommand::ShowNormal,
            r.hotkey.low_byte == HotkeyKey::NoKeyAssigned,
            r.hotkey.high_byte@ == 0,
    {
        ShellLinkHeader {
            header_size: 0x4c,
            link_clsid: clsid_value(),
            link_flags: LinkFlags { bits: IS_UNICODE },
            file_attributes: FileAttributeFlags { bits: FILE_ATTRIBUTE_NORMAL },
            creation_time: FileTime::from_u64(0),
            access_time: FileTime::from_u64(0),
            write_time: FileTime::from_u64(0),
            file_size: 0,
            icon_index: 0,
            show_command: ShowCommand::ShowNormal,
            hotkey: HotkeyFlags {
                low_byte: HotkeyKey::NoKeyAssigned,
                high_byte: HotkeyModifiers { bits: 0 },
            },
        }
    }
}

/// Compares two 8-byte arrays.
fn eq_array8(a: &[u8; 8], b: &[u8; 8]) -> (r: bool)
    ensures
        r == (a@ == b@),
{
    let mut i: usize = 0;
    while i < 8
        invariant
            i <= 8,
            forall|j: int| 0 <= j < i ==> a@[j] == b@[j],
        decreases 8 - i,
    {
        if a[i] != b[i] {
            return false;
        }
        i = i + 1;
    }
    proof {
        assert(a@ =~= b@);
    }
    true
}

} // verus!
