//! The LinkInfo structure: volume, local path, network-relative link, and
//! the common path suffix, each reached through offsets recorded in the
//! structure's own header.

use vstd::prelude::*;

use crate::Error;
use crate::FieldType;
use crate::bytes::has_bytes;
use crate::bytes::le_u32;
use crate::bytes::read_u32;
use crate::current_offset::CurrentOffset;
use crate::strings::StringEncoding;
use crate::strings::read_null_terminated;
use crate::strings::spec_decoded;
use crate::strings::spec_nts_scan;

verus! {

/// The VolumeID and LocalBasePath fields are present.
pub const VOLUME_ID_AND_LOCAL_BASE_PATH: u32 = 0x0000_0001;

/// The CommonNetworkRelativeLink field is present.
pub const COMMON_NETWORK_RELATIVE_LINK_AND_PATH_SUFFIX: u32 = 0x0000_0002;

/// All defined LinkInfo flag bits.
pub const LINK_INFO_FLAGS_MASK: u32 = 0x0000_0003;

/// The DeviceNameOffset field holds an offset to the device name.
pub const VALID_DEVICE: u32 = 0x0000_0001;

/// The NetProviderType field holds the network provider type.
pub const VALID_NET_TYPE: u32 = 0x0000_0002;

/// All defined CommonNetworkRelativeLink flag bits.
pub const COMMON_NETWORK_RELATIVE_LINK_FLAGS_MASK: u32 = 0x0000_0003;

/// True when `bits` holds only defined LinkInfo flag bits.
pub open spec fn valid_link_info_flags(bits: u32) -> bool {
    bits & !LINK_INFO_FLAGS_MASK == 0
}

/// True when `bits` holds only defined network-relative-link flag bits.
pub open spec fn valid_cnrl_flags(bits: u32) -> bool {
    bits & !COMMON_NETWORK_RELATIVE_LINK_FLAGS_MASK == 0
}

/// Which optional fields of a LinkInfo structure are present.
#[derive(Clone, Copy, Debug, PartialEq, Eq, Structural)]
pub struct LinkInfoFlags {
    bits: u32,
}

impl View for LinkInfoFlags {
    type V = u32;

    closed spec fn view(&self) -> u32 {
        self.bits
    }
}

impl LinkInfoFlags {
    /// Accepts a raw word iff every set bit is a defined flag.
    pub fn from_bits(raw: u32) -> (r: Option<LinkInfoFlags>)
        ensures
            r matches Some(f) ==> valid_link_info_flags(raw) && f@ == raw,
            r is None <==> !valid_link_info_flags(raw),
    {
        if raw & !LINK_INFO_FLAGS_MASK == 0 {
            Some(LinkInfoFlags { bits: raw })
        } else {
            None
        }
    }

    /// The raw bit pattern.
    pub fn bits(&self) -> (r: u32)
        ensures
            r == self@,
    {
        self.bits
    }

    /// True when the VolumeID and LocalBasePath fields are present.
    pub fn has_volume_id_and_local_base_path(&self) -> (r: bool)
        ensures
            r == (self@ & VOLUME_ID_AND_LOCAL_BASE_PATH != 0),
    {
        self.bits & VOLUME_ID_AND_LOCAL_BASE_PATH != 0
    }

    /// True when the CommonNetworkRelativeLink field is present.
    pub fn has_common_network_relative_link_and_path_suffix(&self) -> (r: bool)
        ensures
            r == (self@ & COMMON_NETWORK_RELATIVE_LINK_AND_PATH_SUFFIX != 0),
    {
        self.bits & COMMON_NETWORK_RELATIVE_LINK_AND_PATH_SUFFIX != 0
    }
}

/// The flags of a CommonNetworkRelativeLink structure.
#[derive(Clone, Copy, Debug, PartialEq, Eq, Structural)]
pub struct CommonNetworkRelativeLinkFlags {
    bits: u32,
}

impl View for CommonNetworkRelativeLinkFlags {
    type V = u32;

    closed spec fn view(&self) -> u32 {
        self.bits
    }
}

impl CommonNetworkRelativeLinkFlags {
    /// Accepts a raw word iff every set bit is a defined flag.
    pub fn from_bits(raw: u32) -> (r: Option<CommonNetworkRelativeLinkFlags>)
        ensures
            r matches Some(f) ==> valid_cnrl_flags(raw) && f@ == raw,
            r is None <==> !valid_cnrl_flags(raw),
    {
        if raw & !COMMON_NETWORK_RELATIVE_LINK_FLAGS_MASK == 0 {
            Some(CommonNetworkRelativeLinkFlags { bits: raw })
        } else {
            None
        }
    }

    /// The raw bit pattern.
    pub fn bits(&self) -> (r: u32)
        ensures
            r == self@,
    {
        self.bits
    }

    /// True when the device name offset is meaningful.
    pub fn has_valid_device(&self) -> (r: bool)
        ensures
            r == (self@ & VALID_DEVICE != 0),
    {
        self.bits & VALID_DEVICE != 0
    }

    /// True when the network provider type is meaningful.
    pub fn has_valid_net_type(&self) -> (r: bool)
        ensures
            r == (self@ & VALID_NET_TYPE != 0),
    {
        self.bits & VALID_NET_TYPE != 0
    }
}

/// The type of drive a link target is stored on.
#[derive(Clone, Copy, Debug, PartialEq, Eq, Structural)]
#[allow(missing_docs)]
pub enum DriveType {
    DriveUnknown,
    DriveNoRootDir,
    DriveRemovable,
    DriveFixed,
    DriveRemote,
    DriveCDRom,
    DriveRamdisk,
}

/// The drive type a raw word denotes, if it is in the defined set.
pub open spec fn drive_type_of(raw: u32) -> Option<DriveType> {
    if raw == 0 {
        Some(DriveType::DriveUnknown)
    } else if raw == 1 {
        Some(DriveType::DriveNoRootDir)
    } else if raw == 2 {
        Some(DriveType::DriveRemovable)
    } else if raw == 3 {
        Some(DriveType::DriveFixed)
    } else if raw == 4 {
        Some(DriveType::DriveRemote)
    } else if raw == 5 {
        Some(DriveType::DriveCDRom)
    } else if raw == 6 {
        Some(DriveType::DriveRamdisk)
    } else {
        None
    }
}

/// The raw word of a drive type.
pub open spec fn drive_type_code(t: DriveType) -> u32 {
    match t {
        DriveType::DriveUnknown => 0,
        DriveType::DriveNoRootDir => 1,
        DriveType::DriveRemovable => 2,
        DriveType::DriveFixed => 3,
        DriveType::DriveRemote => 4,
        DriveType::DriveCDRom => 5,
        DriveType::DriveRamdisk => 6,
    }
}

impl DriveType {
    /// The drive type a raw word denotes, if any.
    pub fn from_u32(raw: u32) -> (r: Option<DriveType>)
        ensures
            r == drive_type_of(raw),
    {
        if false {
            None
    } else if raw == 0 {
        Some(DriveType::DriveUnknown)
    } else if raw == 1 {
        Some(DriveType::DriveNoRootDir)
    } else if raw == 2 {
        Some(DriveType::DriveRemovable)
    } else if raw == 3 {
        Some(DriveType::DriveFixed)
    } else if raw == 4 {
        Some(DriveType::DriveRemote)
    } else if raw == 5 {
        Some(DriveType::DriveCDRom)
    } else if raw == 6 {
        Some(DriveType::DriveRamdisk)
        } else {
            None
        }
    }

    /// The raw word of this drive type.
    pub fn code(&self) -> (r: u32)
        ensures
            r == drive_type_code(*self),
    {
        match *self {
        DriveType::DriveUnknown => 0,
        DriveType::DriveNoRootDir => 1,
        DriveType::DriveRemovable => 2,
        DriveType::DriveFixed => 3,
        DriveType::DriveRemote => 4,
        DriveType::DriveCDRom => 5,
        DriveType::DriveRamdisk => 6,
        }
    }
}

/// The type of network provider behind a network-relative link.
#[derive(Clone, Copy, Debug, PartialEq, Eq, Structural)]
#[allow(missing_docs)]
pub enum NetworkProviderType {
    MSNet,
    Smb,
    Netware,
    Vines,
    TenNet,
    Locus,
    SunPCNFS,
    LanStep,
    NineTiles,
    Lantastic,
    As400,
    FTPNFS,
    PathWorks,
    LifeNet,
    PowerLAN,
    BWNFS,
    Cogent,
    Farallon,
    AppleTalk,
    Intergraph,
    SymfoNet,
    ClearCase,
    Frontier,
    BMC,
    DCE,
    Avid,
    Docuspace,
    Mangosoft,
    Sernet,
    Riverfront1,
    Riverfront2,
    Decorb,
    Protstor,
    FjRedir,
    Distinct,
    Twins,
    Rdr2Sample,
    CSC,
    ThreeInOne,
    ExtendNet,
    Stac,
    Foxbat,
    Yahoo,
    Exifs,
    Dav,
    Knoware,
    ObjectDire,
    Masfax,
    HobNfs,
    Shiva,
    Ibmal,
    Lock,
    Termsrv,
    Srt,
    Quincy,
    Openafs,
    Avid1,
    Dfs,
    Kwnp,
    Zenworks,
    Driveonweb,
    Vmware,
    Rsfx,
    Mfiles,
    MsNfs,
    Google,
}

/// The provider a raw word denotes, if it is in the defined set.
pub open spec fn network_provider_type_of(raw: u32) -> Option<NetworkProviderType> {
    if raw == 0x00010000 {
        Some(NetworkProviderType::MSNet)
    } else if raw == 0x00020000 {
        Some(NetworkProviderType::Smb)
    } else if raw == 0x00030000 {
        Some(NetworkProviderType::Netware)
    } else if raw == 0x00040000 {
        Some(NetworkProviderType::Vines)
    } else if raw == 0x00050000 {
        Some(NetworkProviderType::TenNet)
    } else if raw == 0x00060000 {
        Some(NetworkProviderType::Locus)
    } else if raw == 0x00070000 {
        Some(NetworkProviderType::SunPCNFS)
    } else if raw == 0x00080000 {
        Some(NetworkProviderType::LanStep)
    } else if raw == 0x00090000 {
        Some(NetworkProviderType::NineTiles)
    } else if raw == 0x000a0000 {
        Some(NetworkProviderType::Lantastic)
    } else if raw == 0x000b0000 {
        Some(NetworkProviderType::As400)
    } else if raw == 0x000c0000 {
        Some(NetworkProviderType::FTPNFS)
    } else if raw == 0x000d0000 {
        Some(NetworkProviderType::PathWorks)
    } else if raw == 0x000e0000 {
        Some(NetworkProviderType::LifeNet)
    } else if raw == 0x000f0000 {
        Some(NetworkProviderType::PowerLAN)
    } else if raw == 0x00100000 {
        Some(NetworkProviderType::BWNFS)
    } else if raw == 0x00110000 {
        Some(NetworkProviderType::Cogent)
    } else if raw == 0x00120000 {
        Some(NetworkProviderType::Farallon)
    } else if raw == 0x00130000 {
        Some(NetworkProviderType::AppleTalk)
    } else if raw == 0x00140000 {
        Some(NetworkProviderType::Intergraph)
    } else if raw == 0x00150000 {
        Some(NetworkProviderType::SymfoNet)
    } else if raw == 0x00160000 {
        Some(NetworkProviderType::ClearCase)
    } else if raw == 0x00170000 {
        Some(NetworkProviderType::Frontier)
    } else if raw == 0x00180000 {
        Some(NetworkProviderType::BMC)
    } else if raw == 0x00190000 {
        Some(NetworkProviderType::DCE)
    } else if raw == 0x001a0000 {
        Some(NetworkProviderType::Avid)
    } else if raw == 0x001b0000 {
        Some(NetworkProviderType::Docuspace)
    } else if raw == 0x001c0000 {
        Some(NetworkProviderType::Mangosoft)
    } else if raw == 0x001d0000 {
        Some(NetworkProviderType::Sernet)
    } else if raw == 0x001e0000 {
        Some(NetworkProviderType::Riverfront1)
    } else if raw == 0x001f0000 {
        Some(NetworkProviderType::Riverfront2)
    } else if raw == 0x00200000 {
        Some(NetworkProviderType::Decorb)
    } else if raw == 0x00210000 {
        Some(NetworkProviderType::Protstor)
    } else if raw == 0x00220000 {
        Some(NetworkProviderType::FjRedir)
    } else if raw == 0x00230000 {
        Some(NetworkProviderType::Distinct)
    } else if raw == 0x00240000 {
        Some(NetworkProviderType::Twins)
    } else if raw == 0x00250000 {
        Some(NetworkProviderType::Rdr2Sample)
    } else if raw == 0x00260000 {
        Some(NetworkProviderType::CSC)
    } else if raw == 0x00270000 {
        Some(NetworkProviderType::ThreeInOne)
    } else if raw == 0x00290000 {
        Some(NetworkProviderType::ExtendNet)
    } else if raw == 0x002a0000 {
        Some(NetworkProviderType::Stac)
    } else if raw == 0x002b0000 {
        Some(NetworkProviderType::Foxbat)
    } else if raw == 0x002c0000 {
        Some(NetworkProviderType::Yahoo)
    } else if raw == 0x002d0000 {
        Some(NetworkProviderType::Exifs)
    } else if raw == 0x002e0000 {
        Some(NetworkProviderType::Dav)
    } else if raw == 0x002f0000 {
        Some(NetworkProviderType::Knoware)
    } else if raw == 0x00300000 {
        Some(NetworkProviderType::ObjectDire)
    } else if raw == 0x00310000 {
        Some(NetworkProviderType::Masfax)
    } else if raw == 0x00320000 {
        Some(NetworkProviderType::HobNfs)
    } else if raw == 0x00330000 {
        Some(NetworkProviderType::Shiva)
    } else if raw == 0x00340000 {
        Some(NetworkProviderType::Ibmal)
    } else if raw == 0x00350000 {
        Some(NetworkProviderType::Lock)
    } else if raw == 0x00360000 {
        Some(NetworkProviderType::Termsrv)
    } else if raw == 0x00370000 {
        Some(NetworkProviderType::Srt)
    } else if raw == 0x00380000 {
        Some(NetworkProviderType::Quincy)
    } else if raw == 0x00390000 {
        Some(NetworkProviderType::Openafs)
    } else if raw == 0x003a0000 {
        Some(NetworkProviderType::Avid1)
    } else if raw == 0x003b0000 {
        Some(NetworkProviderType::Dfs)
    } else if raw == 0x003c0000 {
        Some(NetworkProviderType::Kwnp)
    } else if raw == 0x003d0000 {
        Some(NetworkProviderType::Zenworks)
    } else if raw == 0x003e0000 {
        Some(NetworkProviderType::Driveonweb)
    } else if raw == 0x003f0000 {
        Some(NetworkProviderType::Vmware)
    } else if raw == 0x00400000 {
        Some(NetworkProviderType::Rsfx)
    } else if raw == 0x00410000 {
        Some(NetworkProviderType::Mfiles)
    } else if raw == 0x00420000 {
        Some(NetworkProviderType::MsNfs)
    } else if raw == 0x00430000 {
        Some(NetworkProviderType::Google)
    } else {
        None
    }
}

/// The raw word of a provider.
pub open spec fn network_provider_type_code(t: NetworkProviderType) -> u32 {
    match t {
        NetworkProviderType::MSNet => 0x00010000,
        NetworkProviderType::Smb => 0x00020000,
        NetworkProviderType::Netware => 0x00030000,
        NetworkProviderType::Vines => 0x00040000,
        NetworkProviderType::TenNet => 0x00050000,
        NetworkProviderType::Locus => 0x00060000,
        NetworkProviderType::SunPCNFS => 0x00070000,
        NetworkProviderType::LanStep => 0x00080000,
        NetworkProviderType::NineTiles => 0x00090000,
        NetworkProviderType::Lantastic => 0x000a0000,
        NetworkProviderType::As400 => 0x000b0000,
        NetworkProviderType::FTPNFS => 0x000c0000,
        NetworkProviderType::PathWorks => 0x000d0000,
        NetworkProviderType::LifeNet => 0x000e0000,
        NetworkProviderType::PowerLAN => 0x000f0000,
        NetworkProviderType::BWNFS => 0x00100000,
        NetworkProviderType::Cogent => 0x00110000,
        NetworkProviderType::Farallon => 0x00120000,
        NetworkProviderType::AppleTalk => 0x00130000,
        NetworkProviderType::Intergraph => 0x00140000,
        NetworkProviderType::SymfoNet => 0x00150000,
        NetworkProviderType::ClearCase => 0x00160000,
        NetworkProviderType::Frontier => 0x00170000,
        NetworkProviderType::BMC => 0x00180000,
        NetworkProviderType::DCE => 0x00190000,
        NetworkProviderType::Avid => 0x001a0000,
        NetworkProviderType::Docuspace => 0x001b0000,
        NetworkProviderType::Mangosoft => 0x001c0000,
        NetworkProviderType::Sernet => 0x001d0000,
        NetworkProviderType::Riverfront1 => 0x001e0000,
        NetworkProviderType::Riverfront2 => 0x001f0000,
        NetworkProviderType::Decorb => 0x00200000,
        NetworkProviderType::Protstor => 0x00210000,
        NetworkProviderType::FjRedir => 0x00220000,
        NetworkProviderType::Distinct => 0x00230000,
        NetworkProviderType::Twins => 0x00240000,
        NetworkProviderType::Rdr2Sample => 0x00250000,
        NetworkProviderType::CSC => 0x00260000,
        NetworkProviderType::ThreeInOne => 0x00270000,
        NetworkProviderType::ExtendNet => 0x00290000,
        NetworkProviderType::Stac => 0x002a0000,
        NetworkProviderType::Foxbat => 0x002b0000,
        NetworkProviderType::Yahoo => 0x002c0000,
        NetworkProviderType::Exifs => 0x002d0000,
        NetworkProviderType::Dav => 0x002e0000,
        NetworkProviderType::Knoware => 0x002f0000,
        NetworkProviderType::ObjectDire => 0x00300000,
        NetworkProviderType::Masfax => 0x00310000,
        NetworkProviderType::HobNfs => 0x00320000,
        NetworkProviderType::Shiva => 0x00330000,
        NetworkProviderType::Ibmal => 0x00340000,
        NetworkProviderType::Lock => 0x00350000,
        NetworkProviderType::Termsrv => 0x00360000,
        NetworkProviderType::Srt => 0x00370000,
        NetworkProviderType::Quincy => 0x00380000,
        NetworkProviderType::Openafs => 0x00390000,
        NetworkProviderType::Avid1 => 0x003a0000,
        NetworkProviderType::Dfs => 0x003b0000,
        NetworkProviderType::Kwnp => 0x003c0000,
        NetworkProviderType::Zenworks => 0x003d0000,
        NetworkProviderType::Driveonweb => 0x003e0000,
        NetworkProviderType::Vmware => 0x003f0000,
        NetworkProviderType::Rsfx => 0x00400000,
        NetworkProviderType::Mfiles => 0x00410000,
        NetworkProviderType::MsNfs => 0x00420000,
        NetworkProviderType::Google => 0x00430000,
    }
}

impl NetworkProviderType {
    /// The provider a raw word denotes, if any.
    pub fn from_u32(raw: u32) -> (r: Option<NetworkProviderType>)
        ensures
            r == network_provider_type_of(raw),
    {
        if false {
            None
    } else if raw == 0x00010000 {
        Some(NetworkProviderType::MSNet)
    } else if raw == 0x00020000 {
        Some(NetworkProviderType::Smb)
    } else if raw == 0x00030000 {
        Some(NetworkProviderType::Netware)
    } else if raw == 0x00040000 {
        Some(NetworkProviderType::Vines)
    } else if raw == 0x00050000 {
        Some(NetworkProviderType::TenNet)
    } else if raw == 0x00060000 {
        Some(NetworkProviderType::Locus)
    } else if raw == 0x00070000 {
        Some(NetworkProviderType::SunPCNFS)
    } else if raw == 0x00080000 {
        Some(NetworkProviderType::LanStep)
    } else if raw == 0x00090000 {
        Some(NetworkProviderType::NineTiles)
    } else if raw == 0x000a0000 {
        Some(NetworkProviderType::Lantastic)
    } else if raw == 0x000b0000 {
        Some(NetworkProviderType::As400)
    } else if raw == 0x000c0000 {
        Some(NetworkProviderType::FTPNFS)
    } else if raw == 0x000d0000 {
        Some(NetworkProviderType::PathWorks)
    } else if raw == 0x000e0000 {
        Some(NetworkProviderType::LifeNet)
    } else if raw == 0x000f0000 {
        Some(NetworkProviderType::PowerLAN)
    } else if raw == 0x00100000 {
        Some(NetworkProviderType::BWNFS)
    } else if raw == 0x00110000 {
        Some(NetworkProviderType::Cogent)
    } else if raw == 0x00120000 {
        Some(NetworkProviderType::Farallon)
    } else if raw == 0x00130000 {
        Some(NetworkProviderType::AppleTalk)
    } else if raw == 0x00140000 {
        Some(NetworkProviderType::Intergraph)
    } else if raw == 0x00150000 {
        Some(NetworkProviderType::SymfoNet)
    } else if raw == 0x00160000 {
        Some(NetworkProviderType::ClearCase)
    } else if raw == 0x00170000 {
        Some(NetworkProviderType::Frontier)
    } else if raw == 0x00180000 {
        Some(NetworkProviderType::BMC)
    } else if raw == 0x00190000 {
        Some(NetworkProviderType::DCE)
    } else if raw == 0x001a0000 {
        Some(NetworkProviderType::Avid)
    } else if raw == 0x001b0000 {
        Some(NetworkProviderType::Docuspace)
    } else if raw == 0x001c0000 {
        Some(NetworkProviderType::Mangosoft)
    } else if raw == 0x001d0000 {
        Some(NetworkProviderType::Sernet)
    } else if raw == 0x001e0000 {
        Some(NetworkProviderType::Riverfront1)
    } else if raw == 0x001f0000 {
        Some(NetworkProviderType::Riverfront2)
    } else if raw == 0x00200000 {
        Some(NetworkProviderType::Decorb)
    } else if raw == 0x00210000 {
        Some(NetworkProviderType::Protstor)
    } else if raw == 0x00220000 {
        Some(NetworkProviderType::FjRedir)
    } else if raw == 0x00230000 {
        Some(NetworkProviderType::Distinct)
    } else if raw == 0x00240000 {
        Some(NetworkProviderType::Twins)
    } else if raw == 0x00250000 {
        Some(NetworkProviderType::Rdr2Sample)
    } else if raw == 0x00260000 {
        Some(NetworkProviderType::CSC)
    } else if raw == 0x00270000 {
        Some(NetworkProviderType::ThreeInOne)
    } else if raw == 0x00290000 {
        Some(NetworkProviderType::ExtendNet)
    } else if raw == 0x002a0000 {
        Some(NetworkProviderType::Stac)
    } else if raw == 0x002b0000 {
        Some(NetworkProviderType::Foxbat)
    } else if raw == 0x002c0000 {
        Some(NetworkProviderType::Yahoo)
    } else if raw == 0x002d0000 {
        Some(NetworkProviderType::Exifs)
    } else if raw == 0x002e0000 {
        Some(NetworkProviderType::Dav)
    } else if raw == 0x002f0000 {
        Some(NetworkProviderType::Knoware)
    } else if raw == 0x00300000 {
        Some(NetworkProviderType::ObjectDire)
    } else if raw == 0x00310000 {
        Some(NetworkProviderType::Masfax)
    } else if raw == 0x00320000 {
        Some(NetworkProviderType::HobNfs)
    } else if raw == 0x00330000 {
        Some(NetworkProviderType::Shiva)
    } else if raw == 0x00340000 {
        Some(NetworkProviderType::Ibmal)
    } else if raw == 0x00350000 {
        Some(NetworkProviderType::Lock)
    } else if raw == 0x00360000 {
        Some(NetworkProviderType::Termsrv)
    } else if raw == 0x00370000 {
        Some(NetworkProviderType::Srt)
    } else if raw == 0x00380000 {
        Some(NetworkProviderType::Quincy)
    } else if raw == 0x00390000 {
        Some(NetworkProviderType::Openafs)
    } else if raw == 0x003a0000 {
        Some(NetworkProviderType::Avid1)
    } else if raw == 0x003b0000 {
        Some(NetworkProviderType::Dfs)
    } else if raw == 0x003c0000 {
        Some(NetworkProviderType::Kwnp)
    } else if raw == 0x003d0000 {
        Some(NetworkProviderType::Zenworks)
    } else if raw == 0x003e0000 {
        Some(NetworkProviderType::Driveonweb)
    } else if raw == 0x003f0000 {
        Some(NetworkProviderType::Vmware)
    } else if raw == 0x00400000 {
        Some(NetworkProviderType::Rsfx)
    } else if raw == 0x00410000 {
        Some(NetworkProviderType::Mfiles)
    } else if raw == 0x00420000 {
        Some(NetworkProviderType::MsNfs)
    } else if raw == 0x00430000 {
        Some(NetworkProviderType::Google)
        } else {
            None
        }
    }

    /// The raw word of this provider.
    pub fn code(&self) -> (r: u32)
        ensures
            r == network_provider_type_code(*self),
    {
        match *self {
        NetworkProviderType::MSNet => 0x00010000,
        NetworkProviderType::Smb => 0x00020000,
        NetworkProviderType::Netware => 0x00030000,
        NetworkProviderType::Vines => 0x00040000,
        NetworkProviderType::TenNet => 0x00050000,
        NetworkProviderType::Locus => 0x00060000,
        NetworkProviderType::SunPCNFS => 0x00070000,
        NetworkProviderType::LanStep => 0x00080000,
        NetworkProviderType::NineTiles => 0x00090000,
        NetworkProviderType::Lantastic => 0x000a0000,
        NetworkProviderType::As400 => 0x000b0000,
        NetworkProviderType::FTPNFS => 0x000c0000,
        NetworkProviderType::PathWorks => 0x000d0000,
        NetworkProviderType::LifeNet => 0x000e0000,
        NetworkProviderType::PowerLAN => 0x000f0000,
        NetworkProviderType::BWNFS => 0x00100000,
        NetworkProviderType::Cogent => 0x00110000,
        NetworkProviderType::Farallon => 0x00120000,
        NetworkProviderType::AppleTalk => 0x00130000,
        NetworkProviderType::Intergraph => 0x00140000,
        NetworkProviderType::SymfoNet => 0x00150000,
        NetworkProviderType::ClearCase => 0x00160000,
        NetworkProviderType::Frontier => 0x00170000,
        NetworkProviderType::BMC => 0x00180000,
        NetworkProviderType::DCE => 0x00190000,
        NetworkProviderType::Avid => 0x001a0000,
        NetworkProviderType::Docuspace => 0x001b0000,
        NetworkProviderType::Mangosoft => 0x001c0000,
        NetworkProviderType::Sernet => 0x001d0000,
        NetworkProviderType::Riverfront1 => 0x001e0000,
        NetworkProviderType::Riverfront2 => 0x001f0000,
        NetworkProviderType::Decorb => 0x00200000,
        NetworkProviderType::Protstor => 0x00210000,
        NetworkProviderType::FjRedir => 0x00220000,
        NetworkProviderType::Distinct => 0x00230000,
        NetworkProviderType::Twins => 0x00240000,
        NetworkProviderType::Rdr2Sample => 0x00250000,
        NetworkProviderType::CSC => 0x00260000,
        NetworkProviderType::ThreeInOne => 0x00270000,
        NetworkProviderType::ExtendNet => 0x00290000,
        NetworkProviderType::Stac => 0x002a0000,
        NetworkProviderType::Foxbat => 0x002b0000,
        NetworkProviderType::Yahoo => 0x002c0000,
        NetworkProviderType::Exifs => 0x002d0000,
        NetworkProviderType::Dav => 0x002e0000,
        NetworkProviderType::Knoware => 0x002f0000,
        NetworkProviderType::ObjectDire => 0x00300000,
        NetworkProviderType::Masfax => 0x00310000,
        NetworkProviderType::HobNfs => 0x00320000,
        NetworkProviderType::Shiva => 0x00330000,
        NetworkProviderType::Ibmal => 0x00340000,
        NetworkProviderType::Lock => 0x00350000,
        NetworkProviderType::Termsrv => 0x00360000,
        NetworkProviderType::Srt => 0x00370000,
        NetworkProviderType::Quincy => 0x00380000,
        NetworkProviderType::Openafs => 0x00390000,
        NetworkProviderType::Avid1 => 0x003a0000,
        NetworkProviderType::Dfs => 0x003b0000,
        NetworkProviderType::Kwnp => 0x003c0000,
        NetworkProviderType::Zenworks => 0x003d0000,
        NetworkProviderType::Driveonweb => 0x003e0000,
        NetworkProviderType::Vmware => 0x003f0000,
        NetworkProviderType::Rsfx => 0x00400000,
        NetworkProviderType::Mfiles => 0x00410000,
        NetworkProviderType::MsNfs => 0x00420000,
        NetworkProviderType::Google => 0x00430000,
        }
    }
}

} // verus!

verus! {

/// True when a null-terminated string read at `pos` under `enc` succeeds.
pub open spec fn spec_nts_ok(enc: StringEncoding, d: Seq<u8>, pos: int) -> bool {
    match spec_nts_scan(enc, d, pos) {
        Some((k, _)) => spec_decoded(enc, d.subrange(pos, k)) is Some,
        None => false,
    }
}

/// The text such a read yields; empty when it does not succeed.
pub open spec fn spec_nts_text(enc: StringEncoding, d: Seq<u8>, pos: int) -> Seq<char> {
    match spec_nts_scan(enc, d, pos) {
        Some((k, _)) => match spec_decoded(enc, d.subrange(pos, k)) {
            Some(t) => t,
            None => Seq::empty(),
        },
        None => Seq::empty(),
    }
}

/// Reads a null-terminated string, mapping both failure modes to errors.
fn read_nts(data: &[u8], pos: usize, enc: &StringEncoding) -> (r: Result<String, Error>)
    ensures
        r matches Ok(s) ==> spec_nts_ok(*enc, data@, pos as int) && s@ == spec_nts_text(
            *enc,
            data@,
            pos as int,
        ),
        r is Err <==> !spec_nts_ok(*enc, data@, pos as int),
        r matches Err(e) ==> (e matches Error::Io { .. } || e matches Error::InvalidEncoding {
            ..
        }),
{
    match read_null_terminated(data, pos, enc) {
        Ok((s, _)) => Ok(s),
        Err(e) => Err(e),
    }
}

/// Information about the volume the link target was stored on.
#[derive(Clone, Debug)]
pub struct VolumeID {
    /// Where this structure began in the input.
    pub start_offset: CurrentOffset,
    /// The declared size of the structure; above 0x10.
    pub volume_id_size: u32,
    /// The type of drive.
    pub drive_type: DriveType,
    /// The drive serial number.
    pub drive_serial_number: u32,
    /// Offset of the ANSI volume label; `0x14` redirects to the Unicode
    /// label offset that follows.
    pub volume_label_offset: u32,
    /// The Unicode label offset; present iff `volume_label_offset` is
    /// `0x14`, and then it supersedes the ANSI offset.
    pub volume_label_offset_unicode: Option<u32>,
    /// The label of the volume.
    pub volume_label: String,
}

/// Where a VolumeID's label is read from, and in which encoding: the
/// Unicode offset supersedes the ANSI one when the latter is `0x14`.
pub open spec fn spec_vid_label_pos(d: Seq<u8>, v: int, cp: u16) -> (StringEncoding, int) {
    if le_u32(d, v + 12) == 0x14 {
        (StringEncoding::Unicode, v + le_u32(d, v + 16))
    } else {
        (StringEncoding::CodePage(cp), v + le_u32(d, v + 12))
    }
}

/// Exactly when decoding a VolumeID at `v` succeeds: the fixed prefix is
/// present, the size exceeds 0x10, the drive type is known, the label
/// offsets stay inside the declared size, and the label string decodes.
pub open spec fn spec_volume_id_ok(d: Seq<u8>, v: int, cp: u16) -> bool {
    &&& has_bytes(d, v, 16)
    &&& le_u32(d, v) > 0x10
    &&& drive_type_of(le_u32(d, v + 4)) is Some
    &&& le_u32(d, v + 12) < le_u32(d, v)
    &&& (le_u32(d, v + 12) == 0x14 ==> has_bytes(d, v + 16, 4) && le_u32(d, v + 16) < le_u32(d, v))
    &&& spec_nts_ok(spec_vid_label_pos(d, v, cp).0, d, spec_vid_label_pos(d, v, cp).1)
}

/// What a decoded VolumeID holds: each field is the wire word at its
/// position, and the label is the string at the resolved offset.
pub open spec fn spec_volume_id_matches(vid: VolumeID, d: Seq<u8>, v: int, cp: u16) -> bool {
    &&& vid.start_offset@ == v
    &&& vid.volume_id_size == le_u32(d, v)
    &&& Some(vid.drive_type) == drive_type_of(le_u32(d, v + 4))
    &&& vid.drive_serial_number == le_u32(d, v + 8)
    &&& vid.volume_label_offset == le_u32(d, v + 12)
    &&& vid.volume_label_offset_unicode == (if le_u32(d, v + 12) == 0x14 {
        Some(le_u32(d, v + 16))
    } else {
        None::<u32>
    })
    &&& vid.volume_label@ == spec_nts_text(
        spec_vid_label_pos(d, v, cp).0,
        d,
        spec_vid_label_pos(d, v, cp).1,
    )
}

impl VolumeID {
    /// The label of the volume the link target is stored on.
    pub fn volume_label(&self) -> (r: &str)
        ensures
            r@ == self.volume_label@,
    {
        self.volume_label.as_str()
    }

    /// Decodes a VolumeID structure at `pos`.
    pub fn read(data: &[u8], pos: usize, default_codepage: u16) -> (r: Result<VolumeID, Error>)
        requires
            pos <= u32::MAX,
        ensures
            r matches Ok(vid) ==> spec_volume_id_ok(data@, pos as int, default_codepage)
                && spec_volume_id_matches(vid, data@, pos as int, default_codepage),
            r is Err <==> !spec_volume_id_ok(data@, pos as int, default_codepage),
            r matches Err(e) ==> (e matches Error::Io { .. } || e matches Error::UnknownEnumValue {
                ..
            } || e matches Error::OffsetOutOfBounds { .. } || e matches Error::InvalidEncoding {
                ..
            }),
    {
        let len: usize = data.len();
        if !(16 <= len && pos <= len - 16) {
            return Err(Error::Io { offset: pos });
        }
        let volume_id_size = match read_u32(data, pos) {
            Some(w) => w,
            None => 0,
        };
        if !(volume_id_size > 0x10) {
            return Err(
                Error::OffsetOutOfBounds {
                    offset: volume_id_size,
                    limit: 0x11,
                    context: FieldType::VolumeIdSize,
                },
            );
        }
        let raw_drive = match read_u32(data, pos + 4) {
            Some(w) => w,
            None => 0,
        };
        let drive_type = match DriveType::from_u32(raw_drive) {
            Some(t) => t,
            None => {
                return Err(
                    Error::UnknownEnumValue {
                        raw: raw_drive as u64,
                        field: FieldType::DriveType,
                        offset: pos + 4,
                    },
                );
            },
        };
        let drive_serial_number = match read_u32(data, pos + 8) {
            Some(w) => w,
            None => 0,
        };
        let volume_label_offset = match read_u32(data, pos + 12) {
            Some(w) => w,
            None => 0,
        };
        if !(volume_label_offset < volume_id_size) {
            return Err(
                Error::OffsetOutOfBounds {
                    offset: volume_label_offset,
                    limit: volume_id_size,
                    context: FieldType::VolumeLabelOffset,
                },
            );
        }
        let volume_label_offset_unicode: Option<u32> = if volume_label_offset == 0x14 {
            let u = match read_u32(data, pos + 16) {
                Some(w) => w,
                None => {
                    return Err(Error::Io { offset: pos + 16 });
                },
            };
            if !(u < volume_id_size) {
                return Err(
                    Error::OffsetOutOfBounds {
                        offset: u,
                        limit: volume_id_size,
                        context: FieldType::VolumeLabelOffset,
                    },
                );
            }
            Some(u)
        } else {
            None
        };
        let (enc, rel): (StringEncoding, u32) = match volume_label_offset_unicode {
            Some(u) => (StringEncoding::Unicode, u),
            None => (StringEncoding::CodePage(default_codepage), volume_label_offset),
        };
        let volume_label = match read_string_rel(data, pos, rel, &enc) {
            Ok(s) => s,
            Err(e) => {
                return Err(e);
            },
        };
        Ok(
            VolumeID {
                start_offset: CurrentOffset::new(pos as u32),
                volume_id_size,
                drive_type,
                drive_serial_number,
                volume_label_offset,
                volume_label_offset_unicode,
                volume_label,
            },
        )
    }
}

/// A read past the end of the input never finds a terminator.
proof fn lemma_nts_out_of_range(enc: StringEncoding, d: Seq<u8>, pos: int)
    requires
        pos >= d.len(),
    ensures
        !spec_nts_ok(enc, d, pos),
{
}

} // verus!

verus! {

/// The network location where a link target is stored.
#[derive(Clone, Debug)]
pub struct CommonNetworkRelativeLink {
    /// Where this structure began in the input.
    pub start_offset: CurrentOffset,
    /// The declared size of the structure; at least 0x14.
    pub common_network_relative_link_size: u32,
    /// Which optional fields are meaningful.
    pub flags: CommonNetworkRelativeLinkFlags,
    /// Offset of the ANSI server share name.
    pub net_name_offset: u32,
    /// Offset of the ANSI device name; zero unless the device is valid.
    pub device_name_offset: u32,
    /// The network provider; meaningful iff the ValidNetType flag is set.
    pub network_provider_type: Option<NetworkProviderType>,
    /// Offset of the Unicode net name; present iff `net_name_offset`
    /// exceeds 0x14.
    pub net_name_offset_unicode: Option<u32>,
    /// Offset of the Unicode device name; present iff `net_name_offset`
    /// exceeds 0x14.
    pub device_name_offset_unicode: Option<u32>,
    /// The server share path, such as `\\server\share`.
    pub net_name: String,
    /// The device, such as a drive letter; present iff the ValidDevice
    /// flag is set.
    pub device_name: Option<String>,
    /// The Unicode form of the net name, when the Unicode offsets are
    /// present.
    pub net_name_unicode: Option<String>,
    /// The Unicode form of the device name, when the Unicode offsets are
    /// present and the device is valid.
    pub device_name_unicode: Option<String>,
}

/// Exactly when decoding a CommonNetworkRelativeLink at `c` succeeds.
pub open spec fn spec_cnrl_ok(d: Seq<u8>, c: int, cp: u16) -> bool {
    let size = le_u32(d, c);
    let flags = le_u32(d, c + 4);
    let nno = le_u32(d, c + 8);
    let dno = le_u32(d, c + 12);
    &&& has_bytes(d, c, 20)
    &&& size >= 0x14
    &&& valid_cnrl_flags(flags)
    &&& nno < size
    &&& dno < size
    &&& (flags & VALID_DEVICE != 0 ==> dno > 0)
    &&& (flags & VALID_DEVICE == 0 ==> dno == 0)
    &&& (flags & VALID_NET_TYPE != 0 ==> network_provider_type_of(le_u32(d, c + 16)) is Some)
    &&& (nno > 0x14 ==> has_bytes(d, c + 20, 8) && le_u32(d, c + 20) < size && (flags
        & VALID_DEVICE != 0 ==> le_u32(d, c + 24) < size))
    &&& spec_nts_ok(StringEncoding::CodePage(cp), d, c + nno)
    &&& (flags & VALID_DEVICE != 0 ==> spec_nts_ok(StringEncoding::CodePage(cp), d, c + dno))
    &&& (nno > 0x14 ==> spec_nts_ok(StringEncoding::Unicode, d, c + le_u32(d, c + 20)))
    &&& (nno > 0x14 && flags & VALID_DEVICE != 0 ==> spec_nts_ok(
        StringEncoding::Unicode,
        d,
        c + le_u32(d, c + 24),
    ))
}

/// What a decoded CommonNetworkRelativeLink holds.
pub open spec fn spec_cnrl_matches(l: CommonNetworkRelativeLink, d: Seq<u8>, c: int, cp: u16) -> bool {
    let size = le_u32(d, c);
    let flags = le_u32(d, c + 4);
    let nno = le_u32(d, c + 8);
    let dno = le_u32(d, c + 12);
    &&& l.start_offset@ == c
    &&& l.common_network_relative_link_size == size
    &&& l.flags@ == flags
    &&& l.net_name_offset == nno
    &&& l.device_name_offset == dno
    &&& l.network_provider_type == (if flags & VALID_NET_TYPE != 0 {
        network_provider_type_of(le_u32(d, c + 16))
    } else {
        None::<NetworkProviderType>
    })
    &&& l.net_name_offset_unicode == (if nno > 0x14 {
        Some(le_u32(d, c + 20))
    } else {
        None::<u32>
    })
    &&& l.device_name_offset_unicode == (if nno > 0x14 {
        Some(le_u32(d, c + 24))
    } else {
        None::<u32>
    })
    &&& l.net_name@ == spec_nts_text(StringEncoding::CodePage(cp), d, c + nno)
    &&& (flags & VALID_DEVICE != 0 ==> (l.device_name matches Some(s) && s@ == spec_nts_text(
        StringEncoding::CodePage(cp),
        d,
        c + dno,
    )))
    &&& (flags & VALID_DEVICE == 0 ==> l.device_name is None)
    &&& (nno > 0x14 ==> (l.net_name_unicode matches Some(s) && s@ == spec_nts_text(
        StringEncoding::Unicode,
        d,
        c + le_u32(d, c + 20),
    )))
    &&& (nno <= 0x14 ==> l.net_name_unicode is None)
    &&& (nno > 0x14 && flags & VALID_DEVICE != 0 ==> (l.device_name_unicode matches Some(s) && s@
        == spec_nts_text(StringEncoding::Unicode, d, c + le_u32(d, c + 24))))
    &&& !(nno > 0x14 && flags & VALID_DEVICE != 0) ==> l.device_name_unicode is None
}

impl CommonNetworkRelativeLink {
    /// The server share path this link points into.
    pub fn name(&self) -> (r: &str)
        ensures
            r@ == self.net_name@,
    {
        self.net_name.as_str()
    }

    /// Decodes a CommonNetworkRelativeLink structure at `pos`.
    #[verifier::rlimit(60)]
    pub fn read(data: &[u8], pos: usize, default_codepage: u16) -> (r: Result<
        CommonNetworkRelativeLink,
        Error,
    >)
        requires
            pos <= u32::MAX,
        ensures
            r matches Ok(l) ==> spec_cnrl_ok(data@, pos as int, default_codepage)
                && spec_cnrl_matches(l, data@, pos as int, default_codepage),
            r is Err <==> !spec_cnrl_ok(data@, pos as int, default_codepage),
            r matches Err(e) ==> (e matches Error::Io { .. } || e matches Error::InvalidBitPattern {
                ..
            } || e matches Error::UnknownEnumValue { .. } || e matches Error::OffsetOutOfBounds {
                ..
            } || e matches Error::InvalidEncoding { .. }),
    {
        let len: usize = data.len();
        if !(20 <= len && pos <= len - 20) {
            return Err(Error::Io { offset: pos });
        }
        let size = match read_u32(data, pos) {
            Some(w) => w,
            None => 0,
        };
        if !(size >= 0x14) {
            return Err(
                Error::OffsetOutOfBounds {
                    offset: size,
                    limit: 0x14,
                    context: FieldType::CommonNetworkRelativeLinkSize,
                },
            );
        }
        let raw_flags = match read_u32(data, pos + 4) {
            Some(w) => w,
            None => 0,
        };
        let flags = match CommonNetworkRelativeLinkFlags::from_bits(raw_flags) {
            Some(f) => f,
            None => {
                return Err(
                    Error::InvalidBitPattern {
                        raw: raw_flags as u64,
                        field: FieldType::CommonNetworkRelativeLinkFlags,
                        offset: pos + 4,
                    },
                );
            },
        };
        let nno = match read_u32(data, pos + 8) {
            Some(w) => w,
            None => 0,
        };
        if !(nno < size) {
            return Err(
                Error::OffsetOutOfBounds {
                    offset: nno,
                    limit: size,
                    context: FieldType::NetNameOffset,
                },
            );
        }
        let dno = match read_u32(data, pos + 12) {
            Some(w) => w,
            None => 0,
        };
        let dev_ok = if flags.has_valid_device() {
            dno > 0 && dno < size
        } else {
            dno == 0
        };
        if !dev_ok {
            return Err(
                Error::OffsetOutOfBounds {
                    offset: dno,
                    limit: size,
                    context: FieldType::DeviceNameOffset,
                },
            );
        }
        let raw_net = match read_u32(data, pos + 16) {
            Some(w) => w,
            None => 0,
        };
        let network_provider_type: Option<NetworkProviderType> = if flags.has_valid_net_type() {
            match NetworkProviderType::from_u32(raw_net) {
                Some(t) => Some(t),
                None => {
                    return Err(
                        Error::UnknownEnumValue {
                            raw: raw_net as u64,
                            field: FieldType::NetworkProviderType,
                            offset: pos + 16,
                        },
                    );
                },
            }
        } else {
            None
        };
        let mut net_name_offset_unicode: Option<u32> = None;
        let mut device_name_offset_unicode: Option<u32> = None;
        if nno > 0x14 {
            let nnu = match read_u32(data, pos + 20) {
                Some(w) => w,
                None => {
                    return Err(Error::Io { offset: pos + 20 });
                },
            };
            let dnu = match read_u32(data, pos + 24) {
                Some(w) => w,
                None => {
                    return Err(Error::Io { offset: pos + 24 });
                },
            };
            if !(nnu < size) {
                return Err(
                    Error::OffsetOutOfBounds {
                        offset: nnu,
                        limit: size,
                        context: FieldType::NetNameOffset,
                    },
                );
            }
            if flags.has_valid_device() && !(dnu < size) {
                return Err(
                    Error::OffsetOutOfBounds {
                        offset: dnu,
                        limit: size,
                        context: FieldType::DeviceNameOffset,
                    },
                );
            }
            net_name_offset_unicode = Some(nnu);
            device_name_offset_unicode = Some(dnu);
        }
        let cp_enc = StringEncoding::CodePage(default_codepage);
        let uni_enc = StringEncoding::Unicode;
        let net_name = match read_string_rel(data, pos, nno, &cp_enc) {
            Ok(s) => s,
            Err(e) => {
                return Err(e);
            },
        };
        let device_name: Option<String> = if flags.has_valid_device() {
            match read_string_rel(data, pos, dno, &cp_enc) {
                Ok(s) => Some(s),
                Err(e) => {
                    return Err(e);
                },
            }
        } else {
            None
        };
        let net_name_unicode: Option<String> = match net_name_offset_unicode {
            Some(nnu) => match read_string_rel(data, pos, nnu, &uni_enc) {
                Ok(s) => Some(s),
                Err(e) => {
                    return Err(e);
                },
            },
            None => None,
        };
        let device_name_unicode: Option<String> = if flags.has_valid_device() {
            match device_name_offset_unicode {
                Some(dnu) => match read_string_rel(data, pos, dnu, &uni_enc) {
                    Ok(s) => Some(s),
                    Err(e) => {
                        return Err(e);
                    },
                },
                None => None,
            }
        } else {
            None
        };
        Ok(
            CommonNetworkRelativeLink {
                start_offset: CurrentOffset::new(pos as u32),
                common_network_relative_link_size: size,
                flags,
                net_name_offset: nno,
                device_name_offset: dno,
                network_provider_type,
                net_name_offset_unicode,
                device_name_offset_unicode,
                net_name,
                device_name,
                net_name_unicode,
                device_name_unicode,
            },
        )
    }
}

/// Reads a null-terminated string at `base + rel`, guarding the position
/// arithmetic: a position past the end fails exactly as the overflowed sum
/// would.
fn read_string_rel(data: &[u8], base: usize, rel: u32, enc: &StringEncoding) -> (r: Result<
    String,
    Error,
>)
    ensures
        r matches Ok(s) ==> spec_nts_ok(*enc, data@, base + rel as int) && s@ == spec_nts_text(
            *enc,
            data@,
            base + rel as int,
        ),
        r is Err <==> !spec_nts_ok(*enc, data@, base + rel as int),
        r matches Err(e) ==> (e matches Error::Io { .. } || e matches Error::InvalidEncoding {
            ..
        }),
{
    let len: usize = data.len();
    let pos: usize = if rel as usize <= usize::MAX - base {
        base + rel as usize
    } else {
        len
    };
    proof {
        if pos != base + rel as int {
            lemma_nts_out_of_range(*enc, data@, pos as int);
            lemma_nts_out_of_range(*enc, data@, base + rel as int);
        }
    }
    read_nts(data, pos, enc)
}

} // verus!

verus! {

/// Information necessary to resolve a link target that moved: the volume
/// it was on, its local base path, a network-relative form, and a common
/// path suffix.
#[derive(Clone, Debug)]
pub struct LinkInfo {
    /// Where this structure began in the input; every offset below is
    /// relative to it.
    pub start_offset: CurrentOffset,
    /// The extent of the whole structure; every offset stays below it.
    pub link_info_size: u32,
    /// The size of the fixed header; 0x24 or more means the two Unicode
    /// offsets are present.
    pub link_info_header_size: u32,
    /// Which optional fields are present.
    pub link_info_flags: LinkInfoFlags,
    /// Offset of the VolumeID structure, or zero.
    pub volume_id_offset: u32,
    /// Offset of the ANSI local base path, or zero.
    pub local_base_path_offset: u32,
    /// Offset of the CommonNetworkRelativeLink structure, or zero.
    pub common_network_relative_link_offset: u32,
    /// Offset of the ANSI common path suffix; never zero.
    pub common_path_suffix_offset: u32,
    /// Offset of the Unicode local base path; present iff the header size
    /// is at least 0x24.
    pub local_base_path_offset_unicode: Option<u32>,
    /// Offset of the Unicode common path suffix; present iff the header
    /// size is at least 0x24.
    pub common_path_suffix_offset_unicode: Option<u32>,
    /// The volume the target was stored on; present iff the
    /// VolumeIDAndLocalBasePath flag is set.
    pub volume_id: Option<VolumeID>,
    /// The ANSI base path; present iff the VolumeIDAndLocalBasePath flag
    /// is set.
    pub local_base_path: Option<String>,
    /// The network-relative link; present iff the
    /// CommonNetworkRelativeLinkAndPathSuffix flag is set.
    pub common_network_relative_link: Option<CommonNetworkRelativeLink>,
    /// The common path suffix appended to the base path.
    pub common_path_suffix: String,
    /// The Unicode base path, when the header carries Unicode offsets and
    /// the volume flag is set.
    pub local_base_path_unicode: Option<String>,
    /// The Unicode common path suffix, when its offset is present and not
    /// zero.
    pub common_path_suffix_unicode: Option<String>,
}

/// Offset soundness, the invariant every decoded LinkInfo satisfies: each
/// offset owned by a flag is zero exactly when its flag is clear, and
/// every nonzero offset lies strictly inside the declared extent.
pub open spec fn spec_offsets_sound(
    size: u32,
    flags: u32,
    header_size: u32,
    vol: u32,
    lbp: u32,
    cnrl: u32,
    cps: u32,
    lbpu: Option<u32>,
    cpsu: Option<u32>,
) -> bool {
    &&& (flags & VOLUME_ID_AND_LOCAL_BASE_PATH != 0 ==> 0 < vol < size && 0 < lbp < size)
    &&& (flags & VOLUME_ID_AND_LOCAL_BASE_PATH == 0 ==> vol == 0 && lbp == 0)
    &&& (flags & COMMON_NETWORK_RELATIVE_LINK_AND_PATH_SUFFIX != 0 ==> 0 < cnrl < size)
    &&& (flags & COMMON_NETWORK_RELATIVE_LINK_AND_PATH_SUFFIX == 0 ==> cnrl == 0)
    &&& 0 < cps < size
    &&& (lbpu is Some <==> header_size >= 0x24)
    &&& (cpsu is Some <==> header_size >= 0x24)
    &&& (lbpu matches Some(o) ==> (if flags & VOLUME_ID_AND_LOCAL_BASE_PATH != 0 {
        0 < o < size
    } else {
        o == 0
    }))
    &&& (cpsu matches Some(o) ==> o == 0 || o < size)
}

/// Exactly when the fixed prefix of a LinkInfo at `b` is acceptable: it
/// and its declared extent are present, the flags hold only defined bits,
/// and the offsets are sound.
pub open spec fn spec_link_info_prefix_ok(d: Seq<u8>, b: int) -> bool {
    let size = le_u32(d, b);
    let header_size = le_u32(d, b + 4);
    let flags = le_u32(d, b + 8);
    let vol = le_u32(d, b + 12);
    let lbp = le_u32(d, b + 16);
    let cnrl = le_u32(d, b + 20);
    let cps = le_u32(d, b + 24);
    let lbpu = if header_size >= 0x24 { Some(le_u32(d, b + 28)) } else { None::<u32> };
    let cpsu = if header_size >= 0x24 { Some(le_u32(d, b + 32)) } else { None::<u32> };
    &&& has_bytes(d, b, 0x1c)
    &&& b + size <= d.len()
    &&& valid_link_info_flags(flags)
    &&& (header_size >= 0x24 ==> has_bytes(d, b + 0x1c, 8))
    &&& spec_offsets_sound(size, flags, header_size, vol, lbp, cnrl, cps, lbpu, cpsu)
}

/// Exactly when decoding a LinkInfo at `b` succeeds: the prefix is
/// acceptable and each present substructure and string decodes at its
/// resolved position.
pub open spec fn spec_link_info_ok(d: Seq<u8>, b: int, cp: u16) -> bool {
    let size = le_u32(d, b);
    let header_size = le_u32(d, b + 4);
    let flags = le_u32(d, b + 8);
    let vol = le_u32(d, b + 12);
    let lbp = le_u32(d, b + 16);
    let cnrl = le_u32(d, b + 20);
    let cps = le_u32(d, b + 24);
    &&& spec_link_info_prefix_ok(d, b)
    &&& (flags & VOLUME_ID_AND_LOCAL_BASE_PATH != 0 ==> spec_volume_id_ok(d, b + vol, cp)
        && spec_nts_ok(StringEncoding::CodePage(cp), d, b + lbp))
    &&& (flags & COMMON_NETWORK_RELATIVE_LINK_AND_PATH_SUFFIX != 0 ==> spec_cnrl_ok(
        d,
        b + cnrl,
        cp,
    ))
    &&& spec_nts_ok(StringEncoding::CodePage(cp), d, b + cps)
    &&& (header_size >= 0x24 && flags & VOLUME_ID_AND_LOCAL_BASE_PATH != 0 ==> spec_nts_ok(
        StringEncoding::Unicode,
        d,
        b + le_u32(d, b + 28),
    ))
    &&& (header_size >= 0x24 && le_u32(d, b + 32) != 0 ==> spec_nts_ok(
        StringEncoding::Unicode,
        d,
        b + le_u32(d, b + 32),
    ))
}

/// The words of a LinkInfo fixed prefix, validated.
struct LinkInfoPrefix {
    link_info_size: u32,
    link_info_header_size: u32,
    link_info_flags: LinkInfoFlags,
    volume_id_offset: u32,
    local_base_path_offset: u32,
    common_network_relative_link_offset: u32,
    common_path_suffix_offset: u32,
    local_base_path_offset_unicode: Option<u32>,
    common_path_suffix_offset_unicode: Option<u32>,
}

/// Each prefix field equals the wire word at its position.
spec fn spec_prefix_matches(p: LinkInfoPrefix, d: Seq<u8>, b: int) -> bool {
    &&& p.link_info_size == le_u32(d, b)
    &&& p.link_info_header_size == le_u32(d, b + 4)
    &&& p.link_info_flags@ == le_u32(d, b + 8)
    &&& p.volume_id_offset == le_u32(d, b + 12)
    &&& p.local_base_path_offset == le_u32(d, b + 16)
    &&& p.common_network_relative_link_offset == le_u32(d, b + 20)
    &&& p.common_path_suffix_offset == le_u32(d, b + 24)
    &&& p.local_base_path_offset_unicode == (if p.link_info_header_size >= 0x24 {
        Some(le_u32(d, b + 28))
    } else {
        None::<u32>
    })
    &&& p.common_path_suffix_offset_unicode == (if p.link_info_header_size >= 0x24 {
        Some(le_u32(d, b + 32))
    } else {
        None::<u32>
    })
}

/// What a decoded LinkInfo holds when the decode succeeds.
pub open spec fn spec_link_info_matches(li: LinkInfo, d: Seq<u8>, b: int, cp: u16) -> bool {
    let size = le_u32(d, b);
    let header_size = le_u32(d, b + 4);
    let flags = le_u32(d, b + 8);
    let vol = le_u32(d, b + 12);
    let lbp = le_u32(d, b + 16);
    let cnrl = le_u32(d, b + 20);
    let cps = le_u32(d, b + 24);
    &&& li.start_offset@ == b
    &&& li.link_info_size == size
    &&& li.link_info_header_size == header_size
    &&& li.link_info_flags@ == flags
    &&& li.volume_id_offset == vol
    &&& li.local_base_path_offset == lbp
    &&& li.common_network_relative_link_offset == cnrl
    &&& li.common_path_suffix_offset == cps
    &&& li.local_base_path_offset_unicode == (if header_size >= 0x24 {
        Some(le_u32(d, b + 28))
    } else {
        None::<u32>
    })
    &&& li.common_path_suffix_offset_unicode == (if header_size >= 0x24 {
        Some(le_u32(d, b + 32))
    } else {
        None::<u32>
    })
    &&& (flags & VOLUME_ID_AND_LOCAL_BASE_PATH != 0 ==> (li.volume_id matches Some(vid)
        && spec_volume_id_matches(vid, d, b + vol, cp)))
    &&& (flags & VOLUME_ID_AND_LOCAL_BASE_PATH == 0 ==> li.volume_id is None)
    &&& (flags & VOLUME_ID_AND_LOCAL_BASE_PATH != 0 ==> (li.local_base_path matches Some(s) && s@
        == spec_nts_text(StringEncoding::CodePage(cp), d, b + lbp)))
    &&& (flags & VOLUME_ID_AND_LOCAL_BASE_PATH == 0 ==> li.local_base_path is None)
    &&& (flags & COMMON_NETWORK_RELATIVE_LINK_AND_PATH_SUFFIX != 0
        ==> (li.common_network_relative_link matches Some(l) && spec_cnrl_matches(
        l,
        d,
        b + cnrl,
        cp,
    )))
    &&& (flags & COMMON_NETWORK_RELATIVE_LINK_AND_PATH_SUFFIX == 0
        ==> li.common_network_relative_link is None)
    &&& li.common_path_suffix@ == spec_nts_text(StringEncoding::CodePage(cp), d, b + cps)
    &&& (header_size >= 0x24 && flags & VOLUME_ID_AND_LOCAL_BASE_PATH != 0
        ==> (li.local_base_path_unicode matches Some(s) && s@ == spec_nts_text(
        StringEncoding::Unicode,
        d,
        b + le_u32(d, b + 28),
    )))
    &&& !(header_size >= 0x24 && flags & VOLUME_ID_AND_LOCAL_BASE_PATH != 0)
        ==> li.local_base_path_unicode is None
    &&& (header_size >= 0x24 && le_u32(d, b + 32) != 0 ==> (li.common_path_suffix_unicode
        matches Some(s) && s@ == spec_nts_text(StringEncoding::Unicode, d, b + le_u32(d, b + 32))))
    &&& !(header_size >= 0x24 && le_u32(d, b + 32) != 0) ==> li.common_path_suffix_unicode is None
}

impl LinkInfo {
    /// The decoded offsets satisfy offset soundness with respect to the
    /// decoded size, flags and header size.
    pub open spec fn offsets_sound(&self) -> bool {
        spec_offsets_sound(
            self.link_info_size,
            self.link_info_flags@,
            self.link_info_header_size,
            self.volume_id_offset,
            self.local_base_path_offset,
            self.common_network_relative_link_offset,
            self.common_path_suffix_offset,
            self.local_base_path_offset_unicode,
            self.common_path_suffix_offset_unicode,
        )
    }

    /// The ANSI base path, when present.
    pub fn local_base_path(&self) -> (r: Option<&str>)
        ensures
            r matches Some(s) ==> self.local_base_path matches Some(t) && s@ == t@,
            r is Some <==> self.local_base_path is Some,
    {
        match &self.local_base_path {
            Some(s) => Some(s.as_str()),
            None => None,
        }
    }

    /// The common path suffix.
    pub fn common_path_suffix(&self) -> (r: &str)
        ensures
            r@ == self.common_path_suffix@,
    {
        self.common_path_suffix.as_str()
    }

    /// The flags that tell which optional fields are present.
    pub fn link_info_flags(&self) -> (r: &LinkInfoFlags)
        ensures
            r == self.link_info_flags,
    {
        &self.link_info_flags
    }

    /// The network-relative link, when present.
    pub fn common_network_relative_link(&self) -> (r: &Option<CommonNetworkRelativeLink>)
        ensures
            r == self.common_network_relative_link,
    {
        &self.common_network_relative_link
    }

    /// The Unicode base path, when present.
    pub fn local_base_path_unicode(&self) -> (r: &Option<String>)
        ensures
            r == self.local_base_path_unicode,
    {
        &self.local_base_path_unicode
    }

    /// The Unicode common path suffix, when present.
    pub fn common_path_suffix_unicode(&self) -> (r: &Option<String>)
        ensures
            r == self.common_path_suffix_unicode,
    {
        &self.common_path_suffix_unicode
    }

    /// Decodes a LinkInfo structure at `pos`, chasing each recorded offset
    /// for the substructures and strings, and lands exactly at
    /// `pos + link_info_size`.
    #[verifier::rlimit(100)]
    #[verifier::spinoff_prover]
    pub fn read(data: &[u8], pos: usize, default_codepage: u16) -> (r: Result<
        (LinkInfo, usize),
        Error,
    >)
        requires
            pos <= u32::MAX,
            data@.len() <= u32::MAX,
        ensures
            r matches Ok((li, end)) ==> {
                &&& spec_link_info_ok(data@, pos as int, default_codepage)
                &&& spec_link_info_matches(li, data@, pos as int, default_codepage)
                &&& li.offsets_sound()
                &&& end == pos + le_u32(data@, pos as int)
                &&& end <= data@.len()
            },
            r is Err <==> !spec_link_info_ok(data@, pos as int, default_codepage),
            r matches Err(e) ==> (e matches Error::Io { .. } || e matches Error::InvalidBitPattern {
                ..
            } || e matches Error::UnknownEnumValue { .. } || e matches Error::OffsetOutOfBounds {
                ..
            } || e matches Error::InvalidEncoding { .. }),
    {
        let len: usize = data.len();
        let p = match read_link_info_prefix(data, pos) {
            Ok(p) => p,
            Err(e) => {
                return Err(e);
            },
        };
        let link_info_size = p.link_info_size;
        let link_info_header_size = p.link_info_header_size;
        let link_info_flags = p.link_info_flags;
        let volume_id_offset = p.volume_id_offset;
        let local_base_path_offset = p.local_base_path_offset;
        let common_network_relative_link_offset = p.common_network_relative_link_offset;
        let common_path_suffix_offset = p.common_path_suffix_offset;
        let local_base_path_offset_unicode = p.local_base_path_offset_unicode;
        let common_path_suffix_offset_unicode = p.common_path_suffix_offset_unicode;
        let has_vol = link_info_flags.has_volume_id_and_local_base_path();
        let has_cnrl = link_info_flags.has_common_network_relative_link_and_path_suffix();
        let cp_enc = StringEncoding::CodePage(default_codepage);
        let uni_enc = StringEncoding::Unicode;
        let volume_id: Option<VolumeID> = if has_vol {
            match VolumeID::read(data, pos + volume_id_offset as usize, default_codepage) {
                Ok(v) => Some(v),
                Err(e) => {
                    return Err(e);
                },
            }
        } else {
            None
        };
        let local_base_path: Option<String> = if has_vol {
            match read_string_rel(data, pos, local_base_path_offset, &cp_enc) {
                Ok(s) => Some(s),
                Err(e) => {
                    return Err(e);
                },
            }
        } else {
            None
        };
        let common_network_relative_link: Option<CommonNetworkRelativeLink> = if has_cnrl {
            match CommonNetworkRelativeLink::read(
                data,
                pos + common_network_relative_link_offset as usize,
                default_codepage,
            ) {
                Ok(l) => Some(l),
                Err(e) => {
                    return Err(e);
                },
            }
        } else {
            None
        };
        let common_path_suffix = match read_string_rel(
            data,
            pos,
            common_path_suffix_offset,
            &cp_enc,
        ) {
            Ok(s) => s,
            Err(e) => {
                return Err(e);
            },
        };
        let local_base_path_unicode: Option<String> = if link_info_header_size >= 0x24 && has_vol {
            let lbpu = match local_base_path_offset_unicode {
                Some(o) => o,
                None => 0,
            };
            match read_string_rel(data, pos, lbpu, &uni_enc) {
                Ok(s) => Some(s),
                Err(e) => {
                    return Err(e);
                },
            }
        } else {
            None
        };
        let cpsu_val: u32 = match common_path_suffix_offset_unicode {
            Some(o) => o,
            None => 0,
        };
        let common_path_suffix_unicode: Option<String> = if link_info_header_size >= 0x24
            && cpsu_val != 0 {
            match read_string_rel(data, pos, cpsu_val, &uni_enc) {
                Ok(s) => Some(s),
                Err(e) => {
                    return Err(e);
                },
            }
        } else {
            None
        };
        Ok(
            (
                LinkInfo {
                    start_offset: CurrentOffset::new(pos as u32),
                    link_info_size,
                    link_info_header_size,
                    link_info_flags,
                    volume_id_offset,
                    local_base_path_offset,
                    common_network_relative_link_offset,
                    common_path_suffix_offset,
                    local_base_path_offset_unicode,
                    common_path_suffix_offset_unicode,
                    volume_id,
                    local_base_path,
                    common_network_relative_link,
                    common_path_suffix,
                    local_base_path_unicode,
                    common_path_suffix_unicode,
                },
                pos + link_info_size as usize,
            ),
        )
    }
}

} // verus!

verus! {

/// Reads and validates the fixed prefix of a LinkInfo structure.
#[verifier::rlimit(60)]
fn read_link_info_prefix(data: &[u8], pos: usize) -> (r: Result<LinkInfoPrefix, Error>)
    ensures
        r matches Ok(p) ==> spec_link_info_prefix_ok(data@, pos as int) && spec_prefix_matches(
            p,
            data@,
            pos as int,
        ) && pos + p.link_info_size <= data@.len(),
        r is Err <==> !spec_link_info_prefix_ok(data@, pos as int),
        r matches Err(e) ==> (e matches Error::Io { .. } || e matches Error::InvalidBitPattern {
            ..
        } || e matches Error::OffsetOutOfBounds { .. }),
{
        let len: usize = data.len();
        if !(0x1c <= len && pos <= len - 0x1c) {
            return Err(Error::Io { offset: pos });
        }
        let link_info_size = match read_u32(data, pos) {
            Some(w) => w,
            None => 0,
        };
        if !(link_info_size as usize <= len && pos <= len - link_info_size as usize) {
            return Err(Error::Io { offset: pos });
        }
        let link_info_header_size = match read_u32(data, pos + 4) {
            Some(w) => w,
            None => 0,
        };
        let raw_flags = match read_u32(data, pos + 8) {
            Some(w) => w,
            None => 0,
        };
        let link_info_flags = match LinkInfoFlags::from_bits(raw_flags) {
            Some(f) => f,
            None => {
                return Err(
                    Error::InvalidBitPattern {
                        raw: raw_flags as u64,
                        field: FieldType::LinkInfoFlags,
                        offset: pos + 8,
                    },
                );
            },
        };
        let has_vol = link_info_flags.has_volume_id_and_local_base_path();
        let has_cnrl = link_info_flags.has_common_network_relative_link_and_path_suffix();
        let volume_id_offset = match read_u32(data, pos + 12) {
            Some(w) => w,
            None => 0,
        };
        if !(if has_vol {
            0 < volume_id_offset && volume_id_offset < link_info_size
        } else {
            volume_id_offset == 0
        }) {
            return Err(
                Error::OffsetOutOfBounds {
                    offset: volume_id_offset,
                    limit: link_info_size,
                    context: FieldType::VolumeIdOffset,
                },
            );
        }
        let local_base_path_offset = match read_u32(data, pos + 16) {
            Some(w) => w,
            None => 0,
        };
        if !(if has_vol {
            0 < local_base_path_offset && local_base_path_offset < link_info_size
        } else {
            local_base_path_offset == 0
        }) {
            return Err(
                Error::OffsetOutOfBounds {
                    offset: local_base_path_offset,
                    limit: link_info_size,
                    context: FieldType::LocalBasePathOffset,
                },
            );
        }
        let common_network_relative_link_offset = match read_u32(data, pos + 20) {
            Some(w) => w,
            None => 0,
        };
        if !(if has_cnrl {
            0 < common_network_relative_link_offset && common_network_relative_link_offset
                < link_info_size
        } else {
            common_network_relative_link_offset == 0
        }) {
            return Err(
                Error::OffsetOutOfBounds {
                    offset: common_network_relative_link_offset,
                    limit: link_info_size,
                    context: FieldType::CommonNetworkRelativeLinkOffset,
                },
            );
        }
        let common_path_suffix_offset = match read_u32(data, pos + 24) {
            Some(w) => w,
            None => 0,
        };
        if !(0 < common_path_suffix_offset && common_path_suffix_offset < link_info_size) {
            return Err(
                Error::OffsetOutOfBounds {
                    offset: common_path_suffix_offset,
                    limit: link_info_size,
                    context: FieldType::CommonPathSuffixOffset,
                },
            );
        }
        let mut local_base_path_offset_unicode: Option<u32> = None;
        let mut common_path_suffix_offset_unicode: Option<u32> = None;
        if link_info_header_size >= 0x24 {
            if !(0x24 <= len && pos <= len - 0x24) {
                return Err(Error::Io { offset: pos + 0x1c });
            }
            let lbpu = match read_u32(data, pos + 28) {
                Some(w) => w,
                None => 0,
            };
            if !(if has_vol {
                0 < lbpu && lbpu < link_info_size
            } else {
                lbpu == 0
            }) {
                return Err(
                    Error::OffsetOutOfBounds {
                        offset: lbpu,
                        limit: link_info_size,
                        context: FieldType::LocalBasePathOffsetUnicode,
                    },
                );
            }
            let cpsu = match read_u32(data, pos + 32) {
                Some(w) => w,
                None => 0,
            };
            if !(cpsu == 0 || cpsu < link_info_size) {
                return Err(
                    Error::OffsetOutOfBounds {
                        offset: cpsu,
                        limit: link_info_size,
                        context: FieldType::CommonPathSuffixOffsetUnicode,
                    },
                );
            }
            local_base_path_offset_unicode = Some(lbpu);
            common_path_suffix_offset_unicode = Some(cpsu);
        }
        Ok(
            LinkInfoPrefix {
                link_info_size,
                link_info_header_size,
                link_info_flags,
                volume_id_offset,
                local_base_path_offset,
                common_network_relative_link_offset,
                common_path_suffix_offset,
                local_base_path_offset_unicode,
                common_path_suffix_offset_unicode,
            },
        )
}

} // verus!
