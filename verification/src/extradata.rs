//! The ExtraData section: tagged, length-prefixed blocks read until a
//! degenerate size word or the end of the input.

use vstd::prelude::*;

use crate::Error;
use crate::FieldType;
use crate::bytes::has_bytes;
use crate::bytes::le_i16;
use crate::bytes::le_u16;
use crate::bytes::le_u32;
use crate::bytes::read_bytes;
use crate::bytes::read_i16;
use crate::bytes::read_u32;
use crate::guid::Guid;
use crate::guid::spec_guid_of;
use crate::idlist::IdList;
use crate::idlist::spec_items_data;
use crate::idlist::spec_parse_idlist;
use crate::strings::StringEncoding;
use crate::strings::spec_decoded;
use crate::strings::trim_at_nul;

verus! {

/// The EnvironmentVariable block signature.
pub const SIG_ENVIRONMENT: u32 = 0xA000_0001;

/// The Console block signature.
pub const SIG_CONSOLE: u32 = 0xA000_0002;

/// The Tracker block signature.
pub const SIG_TRACKER: u32 = 0xA000_0003;

/// The ConsoleFE block signature.
pub const SIG_CONSOLE_FE: u32 = 0xA000_0004;

/// The SpecialFolder block signature.
pub const SIG_SPECIAL_FOLDER: u32 = 0xA000_0005;

/// The Darwin block signature.
pub const SIG_DARWIN: u32 = 0xA000_0006;

/// The IconEnvironment block signature.
pub const SIG_ICON_ENVIRONMENT: u32 = 0xA000_0007;

/// The Shim block signature.
pub const SIG_SHIM: u32 = 0xA000_0008;

/// The PropertyStore block signature.
pub const SIG_PROPERTY_STORE: u32 = 0xA000_0009;

/// The VistaAndAboveIDList block signature.
pub const SIG_VISTA_AND_ABOVE_ID_LIST: u32 = 0xA000_000A;

/// The KnownFolder block signature.
pub const SIG_KNOWN_FOLDER: u32 = 0xA000_000B;

/// The foreground and background text colour bits of a console window.
pub const FILL_ATTRIBUTE_FLAGS_MASK: u16 = 0x00FF;

/// The font family and pitch bits of a console font.
pub const FONT_FAMILY_FLAGS_MASK: u32 = 0x0000_007F;

/// True when `bits` holds only defined fill attribute bits.
pub open spec fn valid_fill_attribute_flags(bits: u16) -> bool {
    bits & !FILL_ATTRIBUTE_FLAGS_MASK == 0
}

/// True when `bits` holds only defined font family bits.
pub open spec fn valid_font_family_flags(bits: u32) -> bool {
    bits & !FONT_FAMILY_FLAGS_MASK == 0
}

/// True when a fixed-size string of `n` bytes at `pos` decodes under
/// `enc`.
pub open spec fn spec_fss_ok(enc: StringEncoding, d: Seq<u8>, pos: int, n: int) -> bool {
    &&& has_bytes(d, pos, n)
    &&& spec_decoded(enc, d.subrange(pos, pos + n)) is Some
}

/// The trimmed text such a read yields; empty when it does not succeed.
pub open spec fn spec_fss_text(enc: StringEncoding, d: Seq<u8>, pos: int, n: int) -> Seq<char> {
    match spec_decoded(enc, d.subrange(pos, pos + n)) {
        Some(t) => trim_at_nul(t),
        None => Seq::empty(),
    }
}

/// An ANSI path plus its optional Unicode form, the layout the
/// Environment, Darwin and IconEnvironment blocks share: 260 code-page
/// bytes then 520 UTF-16LE bytes, the Unicode form kept only when it is
/// not empty.
pub open spec fn spec_paths_ok(d: Seq<u8>, body: int, cp: u16) -> bool {
    &&& spec_fss_ok(StringEncoding::CodePage(cp), d, body, 260)
    &&& spec_fss_ok(StringEncoding::Unicode, d, body + 260, 520)
}

/// The ANSI text of such a pair.
pub open spec fn spec_paths_ansi(d: Seq<u8>, body: int, cp: u16) -> Seq<char> {
    spec_fss_text(StringEncoding::CodePage(cp), d, body, 260)
}

/// The Unicode text of such a pair, `None` when empty.
pub open spec fn spec_paths_unicode(d: Seq<u8>, body: int) -> Option<Seq<char>> {
    if spec_fss_text(StringEncoding::Unicode, d, body + 260, 520).len() == 0 {
        None
    } else {
        Some(spec_fss_text(StringEncoding::Unicode, d, body + 260, 520))
    }
}

/// Reads the shared ANSI-plus-Unicode path pair.
fn read_paths(data: &[u8], body: usize, cp: u16) -> (r: Result<(String, Option<String>), Error>)
    ensures
        r matches Ok((a, u)) ==> {
            &&& spec_paths_ok(data@, body as int, cp)
            &&& a@ == spec_paths_ansi(data@, body as int, cp)
            &&& (u matches Some(s) ==> spec_paths_unicode(data@, body as int) matches Some(t) && s@
                == t)
            &&& (u is Some <==> spec_paths_unicode(data@, body as int) is Some)
        },
        r is Err <==> !spec_paths_ok(data@, body as int, cp),
        r matches Err(e) ==> (e matches Error::Io { .. } || e matches Error::InvalidEncoding {
            ..
        }),
{
    let cp_enc = StringEncoding::CodePage(cp);
    let uni_enc = StringEncoding::Unicode;
    let (ansi, _) = match crate::strings::read_fixed_size(data, body, 260, &cp_enc) {
        Ok(p) => p,
        Err(e) => {
            return Err(e);
        },
    };
    let (uni, _) = match crate::strings::read_fixed_size(data, body + 260, 520, &uni_enc) {
        Ok(p) => p,
        Err(e) => {
            return Err(e);
        },
    };
    let unicode: Option<String> = if uni.as_str().unicode_len() == 0 {
        None
    } else {
        Some(uni)
    };
    Ok((ansi, unicode))
}

/// A path to environment variable information.
#[derive(Clone, Debug)]
pub struct EnvironmentVariableDataBlock {
    /// The code-page form of the path.
    pub target_ansi: String,
    /// The Unicode form, when not empty.
    pub target_unicode: Option<String>,
}

/// An application identifier used to install the target on activation.
#[derive(Clone, Debug)]
pub struct DarwinDataBlock {
    /// The code-page form of the identifier.
    pub darwin_data_ansi: String,
    /// The Unicode form, when not empty.
    pub darwin_data_unicode: Option<String>,
}

/// A path to an icon, expressed with environment variables.
#[derive(Clone, Debug)]
pub struct IconEnvironmentDataBlock {
    /// The code-page form of the icon path.
    pub target_ansi: String,
    /// The Unicode form, when not empty.
    pub target_unicode: Option<String>,
}

/// The code page used for console text.
#[derive(Clone, Copy, Debug, PartialEq, Eq, Structural)]
pub struct ConsoleFEDataBlock {
    /// A code page language identifier.
    pub code_page: u32,
}

/// The location of a special folder, for retranslating the target list.
#[derive(Clone, Copy, Debug, PartialEq, Eq, Structural)]
pub struct SpecialFolderDataBlock {
    /// The folder integer identifier.
    pub special_folder_id: u32,
    /// The offset of the first child segment in the target list.
    pub offset: u32,
}

/// The location of a known folder, for retranslating the target list.
#[derive(Clone, Copy, Debug, PartialEq, Eq)]
pub struct KnownFolderDataBlock {
    /// The folder identifier.
    pub known_folder_id: Guid,
    /// The offset of the first child segment in the target list.
    pub offset: u32,
}

/// An opaque serialized property storage.
#[derive(Clone, Debug)]
pub struct PropertyStoreDataBlock {
    /// The serialized property storage bytes, kept opaque.
    pub property_store: Vec<u8>,
}

/// The name of a shim layer to apply when activating the target.
#[derive(Clone, Debug)]
pub struct ShimDataBlock {
    /// The Unicode layer name.
    pub layer_name: String,
}

/// An alternate item ID list for newer platforms.
#[derive(Clone, Debug)]
pub struct VistaAndAboveIdListDataBlock {
    /// The embedded item ID list.
    pub id_list: IdList,
}

/// Data for the link tracking service.
#[derive(Clone, Debug)]
pub struct TrackerDataBlock {
    /// The length of the rest of the block; always 0x58.
    pub length: u32,
    /// The version; always zero.
    pub version: u32,
    /// The NetBIOS name of the machine the target last resided on.
    pub machine_id: String,
    /// Two identifiers used by the tracking service.
    pub droid: [Guid; 2],
    /// Two birth identifiers used by the tracking service.
    pub droid_birth: [Guid; 2],
}

} // verus!

verus! {

/// The display settings used when the target runs in a console window.
#[derive(Clone, Debug)]
pub struct ConsoleDataBlock {
    /// The text colours of the console window; only the low eight bits
    /// are defined.
    pub fill_attributes: u16,
    /// The text colours of console popups; only the low eight bits are
    /// defined.
    pub popup_fill_attributes: u16,
    /// The horizontal size of the screen buffer, in characters.
    pub screen_buffer_size_x: i16,
    /// The vertical size of the screen buffer, in characters.
    pub screen_buffer_size_y: i16,
    /// The horizontal size of the window, in characters.
    pub window_size_x: i16,
    /// The vertical size of the window, in characters.
    pub window_size_y: i16,
    /// The horizontal origin of the window, in pixels.
    pub window_origin_x: i16,
    /// The vertical origin of the window, in pixels.
    pub window_origin_y: i16,
    /// The font height and width, packed into one word.
    pub font_size: u32,
    /// The font family and pitch; only the defined bits may be set.
    pub font_family: u32,
    /// The stroke weight of the font.
    pub font_weight: u32,
    /// The face name of the font.
    pub face_name: String,
    /// The cursor size, in pixels.
    pub cursor_size: u32,
    /// Whether to open the window in full-screen mode.
    pub full_screen: bool,
    /// Whether to open the window in QuickEdit mode.
    pub quick_edit: bool,
    /// Whether insert mode is on.
    pub insert_mode: bool,
    /// Whether the window positions itself.
    pub auto_position: bool,
    /// The size, in characters, of one history buffer.
    pub history_buffer_size: u32,
    /// How many history buffers to keep.
    pub number_of_history_buffers: u32,
    /// Whether duplicates are removed from the history.
    pub history_no_dup: bool,
    /// The sixteen RGB colours the attribute fields index into.
    pub color_table: [u32; 16],
}

/// Exactly when a Console block body at `body` is acceptable.
pub open spec fn spec_console_ok(d: Seq<u8>, body: int) -> bool {
    &&& has_bytes(d, body, 0xc4)
    &&& valid_fill_attribute_flags(le_u16(d, body))
    &&& valid_fill_attribute_flags(le_u16(d, body + 2))
    &&& valid_font_family_flags(le_u32(d, body + 28))
    &&& spec_fss_ok(StringEncoding::Unicode, d, body + 36, 64)
}

/// What a decoded Console block holds.
pub open spec fn spec_console_matches(c: ConsoleDataBlock, d: Seq<u8>, body: int) -> bool {
    &&& c.fill_attributes == le_u16(d, body)
    &&& c.popup_fill_attributes == le_u16(d, body + 2)
    &&& c.screen_buffer_size_x == le_i16(d, body + 4)
    &&& c.screen_buffer_size_y == le_i16(d, body + 6)
    &&& c.window_size_x == le_i16(d, body + 8)
    &&& c.window_size_y == le_i16(d, body + 10)
    &&& c.window_origin_x == le_i16(d, body + 12)
    &&& c.window_origin_y == le_i16(d, body + 14)
    &&& c.font_size == le_u32(d, body + 24)
    &&& c.font_family == le_u32(d, body + 28)
    &&& c.font_weight == le_u32(d, body + 32)
    &&& c.face_name@ == spec_fss_text(StringEncoding::Unicode, d, body + 36, 64)
    &&& c.cursor_size == le_u32(d, body + 100)
    &&& c.full_screen == (le_u32(d, body + 104) != 0)
    &&& c.quick_edit == (le_u32(d, body + 108) != 0)
    &&& c.insert_mode == (le_u32(d, body + 112) != 0)
    &&& c.auto_position == (le_u32(d, body + 116) != 0)
    &&& c.history_buffer_size == le_u32(d, body + 120)
    &&& c.number_of_history_buffers == le_u32(d, body + 124)
    &&& c.history_no_dup == (le_u32(d, body + 128) != 0)
    &&& forall|i: int| 0 <= i < 16 ==> c.color_table@[i] == le_u32(d, body + 132 + 4 * i)
}

/// One decoded extra-data block, discriminated by its signature.
#[derive(Clone, Debug)]
#[allow(missing_docs)]
pub enum ExtraDataBlock {
    ConsoleProps(ConsoleDataBlock),
    ConsoleFeProps(ConsoleFEDataBlock),
    DarwinProps(DarwinDataBlock),
    EnvironmentProps(EnvironmentVariableDataBlock),
    IconEnvironmentProps(IconEnvironmentDataBlock),
    KnownFolderProps(KnownFolderDataBlock),
    PropertyStoreProps(PropertyStoreDataBlock),
    ShimProps(ShimDataBlock),
    SpecialFolderProps(SpecialFolderDataBlock),
    TrackerProps(TrackerDataBlock),
    VistaAndAboveIdListProps(VistaAndAboveIdListDataBlock),
}

/// True when `sig` is one of the eleven known block signatures.
pub open spec fn known_signature(sig: u32) -> bool {
    ||| sig == SIG_ENVIRONMENT
    ||| sig == SIG_CONSOLE
    ||| sig == SIG_TRACKER
    ||| sig == SIG_CONSOLE_FE
    ||| sig == SIG_SPECIAL_FOLDER
    ||| sig == SIG_DARWIN
    ||| sig == SIG_ICON_ENVIRONMENT
    ||| sig == SIG_SHIM
    ||| sig == SIG_PROPERTY_STORE
    ||| sig == SIG_VISTA_AND_ABOVE_ID_LIST
    ||| sig == SIG_KNOWN_FOLDER
}

/// The declared size a fixed-size block must carry; zero for the
/// variable-size kinds.
pub open spec fn fixed_block_size(sig: u32) -> int {
    if sig == SIG_ENVIRONMENT {
        0x314
    } else if sig == SIG_CONSOLE {
        0xcc
    } else if sig == SIG_TRACKER {
        0x60
    } else if sig == SIG_CONSOLE_FE {
        0xc
    } else if sig == SIG_SPECIAL_FOLDER {
        0x10
    } else if sig == SIG_DARWIN {
        0x314
    } else if sig == SIG_ICON_ENVIRONMENT {
        0x314
    } else if sig == SIG_KNOWN_FOLDER {
        0x1c
    } else {
        0
    }
}

/// The least size a variable-size block may declare.
pub open spec fn min_block_size(sig: u32) -> int {
    if sig == SIG_SHIM {
        0x88
    } else if sig == SIG_PROPERTY_STORE {
        0xc
    } else if sig == SIG_VISTA_AND_ABOVE_ID_LIST {
        0xa
    } else {
        0
    }
}

/// True when a known block's declared size is acceptable: fixed-size
/// kinds must match exactly, variable-size kinds must reach their
/// minimum.
pub open spec fn spec_block_size_ok(sig: u32, size: int) -> bool {
    if fixed_block_size(sig) != 0 {
        size == fixed_block_size(sig)
    } else {
        size >= min_block_size(sig)
    }
}

/// Exactly when the body of a known block at `pos` (size and signature
/// words included) decodes.
pub open spec fn spec_block_ok(d: Seq<u8>, pos: int, cp: u16) -> bool {
    let size = le_u32(d, pos) as int;
    let sig = le_u32(d, pos + 4);
    let body = pos + 8;
    &&& spec_block_size_ok(sig, size)
    &&& (sig == SIG_ENVIRONMENT || sig == SIG_DARWIN || sig == SIG_ICON_ENVIRONMENT
        ==> spec_paths_ok(d, body, cp))
    &&& (sig == SIG_CONSOLE ==> spec_console_ok(d, body))
    &&& (sig == SIG_TRACKER ==> le_u32(d, body) == 0x58 && le_u32(d, body + 4) == 0 && spec_fss_ok(
        StringEncoding::CodePage(cp),
        d,
        body + 8,
        16,
    ) && has_bytes(d, body + 24, 64))
    &&& (sig == SIG_CONSOLE_FE ==> has_bytes(d, body, 4))
    &&& (sig == SIG_SPECIAL_FOLDER ==> has_bytes(d, body, 8))
    &&& (sig == SIG_SHIM ==> spec_fss_ok(StringEncoding::Unicode, d, body, size - 8))
    &&& (sig == SIG_PROPERTY_STORE ==> has_bytes(d, body, size - 8))
    &&& (sig == SIG_VISTA_AND_ABOVE_ID_LIST ==> spec_parse_idlist(d, body, size - 8) is Ok)
    &&& (sig == SIG_KNOWN_FOLDER ==> has_bytes(d, body, 20))
}

/// What a decoded block holds, given the bytes of its block at `pos`.
pub open spec fn spec_block_matches(b: ExtraDataBlock, d: Seq<u8>, pos: int, cp: u16) -> bool {
    let size = le_u32(d, pos) as int;
    let sig = le_u32(d, pos + 4);
    let body = pos + 8;
    match b {
        ExtraDataBlock::EnvironmentProps(e) => {
            &&& sig == SIG_ENVIRONMENT
            &&& e.target_ansi@ == spec_paths_ansi(d, body, cp)
            &&& crate::stringdata::slot_view(e.target_unicode) == spec_paths_unicode(d, body)
        },
        ExtraDataBlock::DarwinProps(e) => {
            &&& sig == SIG_DARWIN
            &&& e.darwin_data_ansi@ == spec_paths_ansi(d, body, cp)
            &&& crate::stringdata::slot_view(e.darwin_data_unicode) == spec_paths_unicode(d, body)
        },
        ExtraDataBlock::IconEnvironmentProps(e) => {
            &&& sig == SIG_ICON_ENVIRONMENT
            &&& e.target_ansi@ == spec_paths_ansi(d, body, cp)
            &&& crate::stringdata::slot_view(e.target_unicode) == spec_paths_unicode(d, body)
        },
        ExtraDataBlock::ConsoleProps(c) => sig == SIG_CONSOLE && spec_console_matches(c, d, body),
        ExtraDataBlock::ConsoleFeProps(c) => sig == SIG_CONSOLE_FE && c.code_page == le_u32(
            d,
            body,
        ),
        ExtraDataBlock::SpecialFolderProps(f) => {
            &&& sig == SIG_SPECIAL_FOLDER
            &&& f.special_folder_id == le_u32(d, body)
            &&& f.offset == le_u32(d, body + 4)
        },
        ExtraDataBlock::KnownFolderProps(f) => {
            &&& sig == SIG_KNOWN_FOLDER
            &&& f.known_folder_id == spec_guid_of(d, body)
            &&& f.offset == le_u32(d, body + 16)
        },
        ExtraDataBlock::PropertyStoreProps(p) => {
            &&& sig == SIG_PROPERTY_STORE
            &&& p.property_store@ == d.subrange(body, pos + size)
        },
        ExtraDataBlock::ShimProps(sh) => {
            &&& sig == SIG_SHIM
            &&& sh.layer_name@ == spec_fss_text(StringEncoding::Unicode, d, body, size - 8)
        },
        ExtraDataBlock::VistaAndAboveIdListProps(v) => {
            &&& sig == SIG_VISTA_AND_ABOVE_ID_LIST
            &&& (spec_parse_idlist(d, body, size - 8) matches Ok(p) && spec_items_data(
                v.id_list.item_id_list@,
            ) == p.0)
        },
        ExtraDataBlock::TrackerProps(t) => {
            &&& sig == SIG_TRACKER
            &&& t.length == 0x58
            &&& t.version == 0
            &&& t.machine_id@ == spec_fss_text(StringEncoding::CodePage(cp), d, body + 8, 16)
            &&& t.droid@[0] == spec_guid_of(d, body + 24)
            &&& t.droid@[1] == spec_guid_of(d, body + 40)
            &&& t.droid_birth@[0] == spec_guid_of(d, body + 56)
            &&& t.droid_birth@[1] == spec_guid_of(d, body + 72)
        },
    }
}

} // verus!

verus! {

/// Decides membership in the known signature set.
fn is_known_signature(sig: u32) -> (r: bool)
    ensures
        r == known_signature(sig),
{
    sig == SIG_ENVIRONMENT || sig == SIG_CONSOLE || sig == SIG_TRACKER || sig == SIG_CONSOLE_FE
        || sig == SIG_SPECIAL_FOLDER || sig == SIG_DARWIN || sig == SIG_ICON_ENVIRONMENT || sig
        == SIG_SHIM || sig == SIG_PROPERTY_STORE || sig == SIG_VISTA_AND_ABOVE_ID_LIST || sig
        == SIG_KNOWN_FOLDER
}

/// Decodes the body of one known block whose size word and signature have
/// already been read and whose extent is in the input.
#[verifier::rlimit(100)]
#[verifier::spinoff_prover]
fn read_block(data: &[u8], pos: usize, size: u32, sig: u32, cp: u16) -> (r: Result<
    ExtraDataBlock,
    Error,
>)
    requires
        size == le_u32(data@, pos as int),
        sig == le_u32(data@, pos + 4),
        8 <= size,
        has_bytes(data@, pos as int, size as int),
        known_signature(sig),
    ensures
        r matches Ok(b) ==> spec_block_ok(data@, pos as int, cp) && spec_block_matches(
            b,
            data@,
            pos as int,
            cp,
        ),
        r is Err <==> !spec_block_ok(data@, pos as int, cp),
        r matches Err(e) ==> (e matches Error::UnsupportedBlockSize { .. } || e matches Error::Io {
            ..
        } || e matches Error::InvalidEncoding { .. } || e matches Error::InvalidBitPattern { .. }
            || e matches Error::OffsetOutOfBounds { .. } || e matches Error::TruncatedIdList),
{
    let len: usize = data.len();
    let body = pos + 8;
    if sig == SIG_ENVIRONMENT {
        if size != 0x314 {
            return Err(
                Error::UnsupportedBlockSize { signature: sig, actual: size, expected: 0x314 },
            );
        }
        match read_paths(data, body, cp) {
            Ok((target_ansi, target_unicode)) => Ok(
                ExtraDataBlock::EnvironmentProps(
                    EnvironmentVariableDataBlock { target_ansi, target_unicode },
                ),
            ),
            Err(e) => Err(e),
        }
    } else if sig == SIG_DARWIN {
        if size != 0x314 {
            return Err(
                Error::UnsupportedBlockSize { signature: sig, actual: size, expected: 0x314 },
            );
        }
        match read_paths(data, body, cp) {
            Ok((darwin_data_ansi, darwin_data_unicode)) => Ok(
                ExtraDataBlock::DarwinProps(
                    DarwinDataBlock { darwin_data_ansi, darwin_data_unicode },
                ),
            ),
            Err(e) => Err(e),
        }
    } else if sig == SIG_ICON_ENVIRONMENT {
        if size != 0x314 {
            return Err(
                Error::UnsupportedBlockSize { signature: sig, actual: size, expected: 0x314 },
            );
        }
        match read_paths(data, body, cp) {
            Ok((target_ansi, target_unicode)) => Ok(
                ExtraDataBlock::IconEnvironmentProps(
                    IconEnvironmentDataBlock { target_ansi, target_unicode },
                ),
            ),
            Err(e) => Err(e),
        }
    } else if sig == SIG_CONSOLE_FE {
        if size != 0xc {
            return Err(Error::UnsupportedBlockSize { signature: sig, actual: size, expected: 0xc });
        }
        let code_page = match read_u32(data, body) {
            Some(w) => w,
            None => 0,
        };
        Ok(ExtraDataBlock::ConsoleFeProps(ConsoleFEDataBlock { code_page }))
    } else if sig == SIG_SPECIAL_FOLDER {
        if size != 0x10 {
            return Err(
                Error::UnsupportedBlockSize { signature: sig, actual: size, expected: 0x10 },
            );
        }
        let special_folder_id = match read_u32(data, body) {
            Some(w) => w,
            None => 0,
        };
        let offset = match read_u32(data, body + 4) {
            Some(w) => w,
            None => 0,
        };
        Ok(ExtraDataBlock::SpecialFolderProps(SpecialFolderDataBlock { special_folder_id, offset }))
    } else if sig == SIG_KNOWN_FOLDER {
        if size != 0x1c {
            return Err(
                Error::UnsupportedBlockSize { signature: sig, actual: size, expected: 0x1c },
            );
        }
        let known_folder_id = match Guid::read(data, body) {
            Some((g, _)) => g,
            None => {
                return Err(Error::Io { offset: body });
            },
        };
        let offset = match read_u32(data, body + 16) {
            Some(w) => w,
            None => 0,
        };
        Ok(ExtraDataBlock::KnownFolderProps(KnownFolderDataBlock { known_folder_id, offset }))
    } else if sig == SIG_PROPERTY_STORE {
        if size < 0xc {
            return Err(Error::UnsupportedBlockSize { signature: sig, actual: size, expected: 0xc });
        }
        let property_store = match read_bytes(data, body, size as usize - 8) {
            Some(v) => v,
            None => {
                return Err(Error::Io { offset: body });
            },
        };
        Ok(ExtraDataBlock::PropertyStoreProps(PropertyStoreDataBlock { property_store }))
    } else if sig == SIG_SHIM {
        if size < 0x88 {
            return Err(
                Error::UnsupportedBlockSize { signature: sig, actual: size, expected: 0x88 },
            );
        }
        let uni_enc = StringEncoding::Unicode;
        let (layer_name, _) = match crate::strings::read_fixed_size(
            data,
            body,
            size as usize - 8,
            &uni_enc,
        ) {
            Ok(p) => p,
            Err(e) => {
                return Err(e);
            },
        };
        Ok(ExtraDataBlock::ShimProps(ShimDataBlock { layer_name }))
    } else if sig == SIG_VISTA_AND_ABOVE_ID_LIST {
        if size < 0xa {
            return Err(Error::UnsupportedBlockSize { signature: sig, actual: size, expected: 0xa });
        }
        proof {
            crate::idlist::lemma_idlist_err_kinds(data@, body as int, size - 8);
        }
        match IdList::read(data, body, size - 8) {
            Ok((id_list, _)) => Ok(
                ExtraDataBlock::VistaAndAboveIdListProps(VistaAndAboveIdListDataBlock { id_list }),
            ),
            Err(e) => Err(e),
        }
    } else if sig == SIG_TRACKER {
        if size != 0x60 {
            return Err(
                Error::UnsupportedBlockSize { signature: sig, actual: size, expected: 0x60 },
            );
        }
        let length = match read_u32(data, body) {
            Some(w) => w,
            None => 0,
        };
        if length != 0x58 {
            return Err(
                Error::OffsetOutOfBounds {
                    offset: length,
                    limit: 0x58,
                    context: FieldType::TrackerLength,
                },
            );
        }
        let version = match read_u32(data, body + 4) {
            Some(w) => w,
            None => 0,
        };
        if version != 0 {
            return Err(
                Error::OffsetOutOfBounds {
                    offset: version,
                    limit: 0,
                    context: FieldType::TrackerVersion,
                },
            );
        }
        let cp_enc = StringEncoding::CodePage(cp);
        let (machine_id, _) = match crate::strings::read_fixed_size(data, body + 8, 16, &cp_enc) {
            Ok(p) => p,
            Err(e) => {
                return Err(e);
            },
        };
        let d0 = match Guid::read(data, body + 24) {
            Some((g, _)) => g,
            None => {
                return Err(Error::Io { offset: body + 24 });
            },
        };
        let d1 = match Guid::read(data, body + 40) {
            Some((g, _)) => g,
            None => {
                return Err(Error::Io { offset: body + 40 });
            },
        };
        let b0 = match Guid::read(data, body + 56) {
            Some((g, _)) => g,
            None => {
                return Err(Error::Io { offset: body + 56 });
            },
        };
        let b1 = match Guid::read(data, body + 72) {
            Some((g, _)) => g,
            None => {
                return Err(Error::Io { offset: body + 72 });
            },
        };
        Ok(
            ExtraDataBlock::TrackerProps(
                TrackerDataBlock {
                    length,
                    version,
                    machine_id,
                    droid: [d0, d1],
                    droid_birth: [b0, b1],
                },
            ),
        )
    } else {
        if size != 0xcc {
            return Err(
                Error::UnsupportedBlockSize { signature: sig, actual: size, expected: 0xcc },
            );
        }
        read_console_block(data, pos, cp)
    }
}

/// Decodes a Console block whose size has been checked.
#[verifier::rlimit(100)]
#[verifier::spinoff_prover]
fn read_console_block(data: &[u8], pos: usize, cp: u16) -> (r: Result<ExtraDataBlock, Error>)
    requires
        le_u32(data@, pos + 4) == SIG_CONSOLE,
        le_u32(data@, pos as int) == 0xcc,
        has_bytes(data@, pos as int, 0xcc),
    ensures
        r matches Ok(b) ==> spec_block_ok(data@, pos as int, cp) && spec_block_matches(
            b,
            data@,
            pos as int,
            cp,
        ),
        r is Err <==> !spec_block_ok(data@, pos as int, cp),
        r matches Err(e) ==> (e matches Error::InvalidBitPattern { .. } || e
            matches Error::InvalidEncoding { .. } || e matches Error::Io { .. }),
{
    let len: usize = data.len();
    let body = pos + 8;
    let fill_attributes = match crate::bytes::read_u16(data, body) {
        Some(w) => w,
        None => 0,
    };
    if fill_attributes & !FILL_ATTRIBUTE_FLAGS_MASK != 0 {
        return Err(
            Error::InvalidBitPattern {
                raw: fill_attributes as u64,
                field: FieldType::FillAttributeFlags,
                offset: body,
            },
        );
    }
    let popup_fill_attributes = match crate::bytes::read_u16(data, body + 2) {
        Some(w) => w,
        None => 0,
    };
    if popup_fill_attributes & !FILL_ATTRIBUTE_FLAGS_MASK != 0 {
        return Err(
            Error::InvalidBitPattern {
                raw: popup_fill_attributes as u64,
                field: FieldType::FillAttributeFlags,
                offset: body + 2,
            },
        );
    }
    let screen_buffer_size_x = match read_i16(data, body + 4) {
        Some(w) => w,
        None => 0,
    };
    let screen_buffer_size_y = match read_i16(data, body + 6) {
        Some(w) => w,
        None => 0,
    };
    let window_size_x = match read_i16(data, body + 8) {
        Some(w) => w,
        None => 0,
    };
    let window_size_y = match read_i16(data, body + 10) {
        Some(w) => w,
        None => 0,
    };
    let window_origin_x = match read_i16(data, body + 12) {
        Some(w) => w,
        None => 0,
    };
    let window_origin_y = match read_i16(data, body + 14) {
        Some(w) => w,
        None => 0,
    };
    let font_size = match read_u32(data, body + 24) {
        Some(w) => w,
        None => 0,
    };
    let font_family = match read_u32(data, body + 28) {
        Some(w) => w,
        None => 0,
    };
    if font_family & !FONT_FAMILY_FLAGS_MASK != 0 {
        return Err(
            Error::InvalidBitPattern {
                raw: font_family as u64,
                field: FieldType::FontFamilyFlags,
                offset: body + 28,
            },
        );
    }
    let font_weight = match read_u32(data, body + 32) {
        Some(w) => w,
        None => 0,
    };
    let uni_enc = StringEncoding::Unicode;
    let (face_name, _) = match crate::strings::read_fixed_size(data, body + 36, 64, &uni_enc) {
        Ok(p) => p,
        Err(e) => {
            return Err(e);
        },
    };
    let cursor_size = match read_u32(data, body + 100) {
        Some(w) => w,
        None => 0,
    };
    let full_screen = match read_u32(data, body + 104) {
        Some(w) => w,
        None => 0,
    } != 0;
    let quick_edit = match read_u32(data, body + 108) {
        Some(w) => w,
        None => 0,
    } != 0;
    let insert_mode = match read_u32(data, body + 112) {
        Some(w) => w,
        None => 0,
    } != 0;
    let auto_position = match read_u32(data, body + 116) {
        Some(w) => w,
        None => 0,
    } != 0;
    let history_buffer_size = match read_u32(data, body + 120) {
        Some(w) => w,
        None => 0,
    };
    let number_of_history_buffers = match read_u32(data, body + 124) {
        Some(w) => w,
        None => 0,
    };
    let history_no_dup = match read_u32(data, body + 128) {
        Some(w) => w,
        None => 0,
    } != 0;
    let mut ct: Vec<u32> = Vec::new();
    let mut i: usize = 0;
    while i < 16
        invariant
            i <= 16,
            ct@.len() == i,
            has_bytes(data@, pos as int, 0xcc),
            body == pos + 8,
            len == data@.len(),
            forall|j: int| 0 <= j < i ==> ct@[j] == le_u32(data@, body + 132 + 4 * j),
        decreases 16 - i,
    {
        let w = match read_u32(data, body + 132 + 4 * i) {
            Some(w) => w,
            None => 0,
        };
        ct.push(w);
        i = i + 1;
    }
    let color_table: [u32; 16] = [
        ct[0],
        ct[1],
        ct[2],
        ct[3],
        ct[4],
        ct[5],
        ct[6],
        ct[7],
        ct[8],
        ct[9],
        ct[10],
        ct[11],
        ct[12],
        ct[13],
        ct[14],
        ct[15],
    ];
    Ok(
        ExtraDataBlock::ConsoleProps(
            ConsoleDataBlock {
                fill_attributes,
                popup_fill_attributes,
                screen_buffer_size_x,
                screen_buffer_size_y,
                window_size_x,
                window_size_y,
                window_origin_x,
                window_origin_y,
                font_size,
                font_family,
                font_weight,
                face_name,
                cursor_size,
                full_screen,
                quick_edit,
                insert_mode,
                auto_position,
                history_buffer_size,
                number_of_history_buffers,
                history_no_dup,
                color_table,
            },
        ),
    )
}

} // verus!

verus! {

/// The decoded extra-data section: the known blocks, in input order.
#[derive(Clone, Debug, Default)]
pub struct ExtraData {
    /// The blocks, in the order they were read.
    pub blocks: Vec<ExtraDataBlock>,
}

/// The blocks occupy the input from `pos` to `end`, back to back: each
/// one's size word covers it exactly, its signature is known, and its body
/// decodes to the listed value.
pub open spec fn spec_chain(
    blocks: Seq<ExtraDataBlock>,
    d: Seq<u8>,
    pos: int,
    cp: u16,
    end: int,
) -> bool
    decreases blocks.len(),
{
    if blocks.len() == 0 {
        end == pos
    } else {
        let size = le_u32(d, pos) as int;
        &&& pos + 4 <= d.len()
        &&& 8 <= size
        &&& pos + size <= d.len()
        &&& known_signature(le_u32(d, pos + 4))
        &&& spec_block_ok(d, pos, cp)
        &&& spec_block_matches(blocks[0], d, pos, cp)
        &&& spec_chain(blocks.drop_first(), d, pos + size, cp, end)
    }
}

/// The position just past a run of blocks laid back to back from `pos`.
pub open spec fn spec_chain_end(blocks: Seq<ExtraDataBlock>, d: Seq<u8>, pos: int) -> int
    decreases blocks.len(),
{
    if blocks.len() == 0 {
        pos
    } else {
        spec_chain_end(blocks.drop_first(), d, pos + le_u32(d, pos))
    }
}

/// A chain's end is the position just past its blocks.
pub proof fn lemma_chain_end(blocks: Seq<ExtraDataBlock>, d: Seq<u8>, pos: int, cp: u16, end: int)
    requires
        spec_chain(blocks, d, pos, cp, end),
    ensures
        spec_chain_end(blocks, d, pos) == end,
    decreases blocks.len(),
{
    if blocks.len() > 0 {
        lemma_chain_end(blocks.drop_first(), d, pos + le_u32(d, pos), cp, end);
    }
}

/// How the section ends after its blocks: fewer than four bytes remain,
/// or a size word below four is read and consumed.
pub open spec fn spec_extra_end(d: Seq<u8>, m: int, end: int) -> bool {
    if m + 4 > d.len() {
        end == m
    } else {
        le_u32(d, m) < 4 && end == m + 4
    }
}

/// Exactly when decoding the section at `pos` fails: some block reached
/// from `pos` is truncated, carries an unknown signature, or has a body
/// that does not decode.
pub open spec fn spec_extra_fails(d: Seq<u8>, pos: int, cp: u16) -> bool
    decreases d.len() - pos,
{
    if pos + 4 > d.len() {
        false
    } else {
        let size = le_u32(d, pos) as int;
        if size < 4 {
            false
        } else if size < 8 || pos + size > d.len() {
            true
        } else if !known_signature(le_u32(d, pos + 4)) {
            true
        } else if !spec_block_ok(d, pos, cp) {
            true
        } else {
            spec_extra_fails(d, pos + size, cp)
        }
    }
}

/// Appending a block that sits right after a chain extends the chain.
proof fn lemma_chain_snoc(
    blocks: Seq<ExtraDataBlock>,
    b: ExtraDataBlock,
    d: Seq<u8>,
    pos: int,
    cp: u16,
    mid: int,
)
    requires
        spec_chain(blocks, d, pos, cp, mid),
        mid + 4 <= d.len(),
        8 <= le_u32(d, mid),
        mid + le_u32(d, mid) <= d.len(),
        known_signature(le_u32(d, mid + 4)),
        spec_block_ok(d, mid, cp),
        spec_block_matches(b, d, mid, cp),
    ensures
        spec_chain(blocks.push(b), d, pos, cp, mid + le_u32(d, mid)),
    decreases blocks.len(),
{
    if blocks.len() == 0 {
        assert(blocks.push(b).drop_first() =~= Seq::<ExtraDataBlock>::empty());
        assert(blocks.push(b)[0] == b);
        assert(spec_chain(
            Seq::<ExtraDataBlock>::empty(),
            d,
            mid + le_u32(d, mid),
            cp,
            mid + le_u32(d, mid),
        ));
    } else {
        lemma_chain_snoc(blocks.drop_first(), b, d, pos + le_u32(d, pos), cp, mid);
        assert(blocks.push(b).drop_first() =~= blocks.drop_first().push(b));
        assert(blocks.push(b)[0] == blocks[0]);
    }
}

impl ExtraData {
    /// The decoded blocks.
    pub fn blocks(&self) -> (r: &Vec<ExtraDataBlock>)
        ensures
            r == self.blocks,
    {
        &self.blocks
    }

    /// Decodes blocks until a size word below four or the end of the
    /// input; the loop always advances, since every accepted block is at
    /// least eight bytes long.
    pub fn read(data: &[u8], pos: usize, default_codepage: u16) -> (r: Result<
        (ExtraData, usize),
        Error,
    >)
        ensures
            r matches Ok((x, end)) ==> spec_chain(
                x.blocks@,
                data@,
                pos as int,
                default_codepage,
                spec_chain_end(x.blocks@, data@, pos as int),
            ) && spec_extra_end(data@, spec_chain_end(x.blocks@, data@, pos as int), end as int),
            r is Err <==> spec_extra_fails(data@, pos as int, default_codepage),
            r matches Err(e) ==> (e matches Error::TruncatedExtraData || e
                matches Error::UnknownExtraData { .. } || e matches Error::UnsupportedBlockSize {
                ..
            } || e matches Error::Io { .. } || e matches Error::InvalidEncoding { .. } || e
                matches Error::InvalidBitPattern { .. } || e matches Error::OffsetOutOfBounds {
                ..
            } || e matches Error::TruncatedIdList),
    {
        let len: usize = data.len();
        let mut blocks: Vec<ExtraDataBlock> = Vec::new();
        let mut cur: usize = pos;
        loop
            invariant
                pos <= cur,
                len == data@.len(),
                spec_chain(blocks@, data@, pos as int, default_codepage, cur as int),
                spec_extra_fails(data@, pos as int, default_codepage) == spec_extra_fails(
                    data@,
                    cur as int,
                    default_codepage,
                ),
            decreases len - cur,
        {
            if !(4 <= len && cur <= len - 4) {
                proof {
                    lemma_chain_end(blocks@, data@, pos as int, default_codepage, cur as int);
                }
                return Ok((ExtraData { blocks }, cur));
            }
            let size = match read_u32(data, cur) {
                Some(w) => w,
                None => 0,
            };
            if size < 4 {
                proof {
                    lemma_chain_end(blocks@, data@, pos as int, default_codepage, cur as int);
                }
                return Ok((ExtraData { blocks }, cur + 4));
            }
            if size < 8 {
                return Err(Error::TruncatedExtraData);
            }
            if !(size as usize <= len && cur <= len - size as usize) {
                return Err(Error::TruncatedExtraData);
            }
            let sig = match read_u32(data, cur + 4) {
                Some(w) => w,
                None => 0,
            };
            if !is_known_signature(sig) {
                return Err(Error::UnknownExtraData { signature: sig });
            }
            let b = match read_block(data, cur, size, sig, default_codepage) {
                Ok(b) => b,
                Err(e) => {
                    return Err(e);
                },
            };
            proof {
                lemma_chain_snoc(
                    blocks@,
                    b,
                    data@,
                    pos as int,
                    default_codepage,
                    cur as int,
                );
            }
            blocks.push(b);
            cur = cur + size as usize;
        }
    }
}

} // verus!

verus! {

/// A stored run of item identifiers carried in a tagged block: the block
/// size word counts itself and the signature, the rest is the list.
#[derive(Clone, Debug)]
pub struct ShellItemIdentifiers {
    /// The stored item ID list.
    pub items: IdList,
}

impl ShellItemIdentifiers {
    /// Decodes the identifiers of a block of `block_size` bytes whose
    /// size and signature words have already been consumed.
    pub fn read(data: &[u8], pos: usize, block_size: u32) -> (r: Result<
        (ShellItemIdentifiers, usize),
        Error,
    >)
        ensures
            r matches Ok((s, end)) ==> {
                &&& block_size >= 8
                &&& spec_parse_idlist(data@, pos as int, block_size - 8) matches Ok(p)
                &&& spec_items_data(s.items.item_id_list@) == p.0
                &&& end == p.1
            },
            r is Err <==> block_size < 8 || spec_parse_idlist(
                data@,
                pos as int,
                block_size - 8,
            ) is Err,
    {
        if block_size < 8 {
            return Err(Error::TruncatedExtraData);
        }
        match IdList::read(data, pos, block_size - 8) {
            Ok((items, end)) => Ok((ShellItemIdentifiers { items }, end)),
            Err(e) => Err(e),
        }
    }
}

} // verus!
