//! The containers that carry an icon-metadata block, and their resolvers.
//!
//! Each resolver reads a container from the current position of a `ByteReader`,
//! moves to the next container of the chain, and ends in the icon-metadata block.
//! Its outcome is stated over a model of the format: the functions ending in `_at`
//! say, of the bytes of the source and a start position, which raw icon the chain
//! reaches or which error stops it.

use vstd::prelude::*;
use vstd::slice::slice_subrange;
use vstd::string::StringSliceAdditionalSpecFns;
use vstd::utf8::{valid_utf8, decode_utf8, encode_utf8, decode_utf8_encode_utf8};
use crate::error::{ContainerFormat, InvalidField, MissingResource, ParseError, UnsupportedReason};
use crate::icon::{IconBitmap, Rgba, decode_icon, icon_pixels};
use crate::reader::{ByteReader, fits, le16, le32, le64};

verus! {

/// Size in bytes of the large icon.
pub const SMDH_ICON_LEN: usize = 0x1200;

/// Size in bytes of a media unit.
pub const MEDIA_UNIT: u64 = 0x200;

pub open spec fn smdh_magic() -> Seq<u8> {
    seq![0x53u8, 0x4D, 0x44, 0x48]
}

pub open spec fn n3dsx_magic() -> Seq<u8> {
    seq![0x33u8, 0x44, 0x53, 0x58]
}

pub open spec fn ncsd_magic() -> Seq<u8> {
    seq![0x4Eu8, 0x43, 0x53, 0x44]
}

pub open spec fn ncch_magic() -> Seq<u8> {
    seq![0x4Eu8, 0x43, 0x43, 0x48]
}

/// The name of the embedded file that holds the icon-metadata block.
pub open spec fn icon_name() -> Seq<u8> {
    seq![0x69u8, 0x63, 0x6F, 0x6E]
}

/// `n` rounded up to a multiple of 64.
pub open spec fn pad64(n: int) -> int {
    ((n + 63) / 64) * 64
}

/// The raw large icon of the icon-metadata block that starts at `p`.
pub open spec fn smdh_icon_at(d: Seq<u8>, p: int) -> Result<Seq<u8>, ParseError> {
    if !fits(d, p, 4) {
        Err(ParseError::IOFailure)
    } else if d.subrange(p, p + 4) != smdh_magic() {
        Err(ParseError::MagicMismatch(ContainerFormat::Smdh))
    } else if !fits(d, p + 0x24C0, 0x1200) {
        Err(ParseError::IOFailure)
    } else {
        Ok(d.subrange(p + 0x24C0, p + 0x24C0 + 0x1200))
    }
}

/// The raw icon of a homebrew executable whose signature is at `p`; the offset of
/// its icon-metadata block stands at absolute position 0x20.
pub open spec fn n3dsx_icon_at(d: Seq<u8>, p: int) -> Result<Seq<u8>, ParseError> {
    if !fits(d, p, 4) {
        Err(ParseError::IOFailure)
    } else if d.subrange(p, p + 4) != n3dsx_magic() {
        Err(ParseError::MagicMismatch(ContainerFormat::N3dsx))
    } else if !fits(d, p + 4, 2) {
        Err(ParseError::IOFailure)
    } else if le16(d, p + 4) <= 32 {
        Err(ParseError::UnsupportedFeature(UnsupportedReason::NoExtendedHeader(le16(d, p + 4) as u16)))
    } else if !fits(d, 0x20, 8) {
        Err(ParseError::IOFailure)
    } else {
        smdh_icon_at(d, le32(d, 0x20))
    }
}

/// The kind that a metadata-section size stands for, if it is one of the four legal values.
pub open spec fn meta_size_kind(v: u32) -> Option<CIAMetaSize> {
    if v == 0 {
        Some(CIAMetaSize::Absent)
    } else if v == 8 {
        Some(CIAMetaSize::CVerUSA)
    } else if v == 0x200 {
        Some(CIAMetaSize::Dummy)
    } else if v == 0x3AC0 {
        Some(CIAMetaSize::Present)
    } else {
        None
    }
}

/// Where an installable package's metadata section starts: after the 0x2040-byte
/// header come the certificate chain, the ticket, the content metadata and the
/// content, each padded to a multiple of 64 bytes.
pub open spec fn cia_meta_offset(d: Seq<u8>) -> int {
    0x2040 + pad64(le32(d, 0x08)) + pad64(le32(d, 0x0C)) + pad64(le32(d, 0x10)) + pad64(le64(d, 0x18))
}

/// The raw icon of an installable package; its icon-metadata block lies 0x400 bytes
/// into the metadata section.
pub open spec fn cia_icon(d: Seq<u8>) -> Result<Seq<u8>, ParseError> {
    if !fits(d, 0x08, 16) {
        Err(ParseError::IOFailure)
    } else {
        let v = le32(d, 0x14) as u32;
        match meta_size_kind(v) {
            None => Err(ParseError::InvalidField(InvalidField::MetaSize(v))),
            Some(k) => if k != CIAMetaSize::Present {
                Err(ParseError::UnsupportedFeature(UnsupportedReason::MetaSection(k)))
            } else if !fits(d, 0x18, 8) {
                Err(ParseError::IOFailure)
            } else {
                smdh_icon_at(d, cia_meta_offset(d) + 0x400)
            },
        }
    }
}

/// The 16-byte directory slot `i` of an embedded file system that starts at `p`.
pub open spec fn exefs_slot(d: Seq<u8>, p: int, i: int) -> Seq<u8> {
    d.subrange(p + 16 * i, p + 16 * i + 16)
}

/// An unused slot is all zero bytes.
pub open spec fn slot_is_empty(s: Seq<u8>) -> bool {
    forall|k: int| 0 <= k < 16 ==> s[k] == 0
}

/// `b` without its trailing zero bytes.
pub open spec fn trim_zeros(b: Seq<u8>) -> Seq<u8>
    decreases b.len(),
{
    if b.len() > 0 && b.last() == 0 {
        trim_zeros(b.drop_last())
    } else {
        b
    }
}

/// The name bytes of a slot: its first eight bytes without the zero padding after them.
pub open spec fn slot_name(s: Seq<u8>) -> Seq<u8> {
    trim_zeros(s.subrange(0, 8))
}

/// True when the slot is used and names the icon file.
pub open spec fn is_icon_slot(s: Seq<u8>) -> bool {
    !slot_is_empty(s) && slot_name(s) == icon_name()
}

/// The first error met reading slots `i` to 9 in turn: a slot past the end, or a used
/// slot whose name is not valid UTF-8.
pub open spec fn exefs_table_error(d: Seq<u8>, p: int, i: int) -> Option<ParseError>
    decreases 10 - i,
{
    if i >= 10 {
        None
    } else if !fits(d, p + 16 * i, 16) {
        Some(ParseError::IOFailure)
    } else if !slot_is_empty(exefs_slot(d, p, i)) && !valid_utf8(slot_name(exefs_slot(d, p, i))) {
        Some(ParseError::InvalidField(InvalidField::EntryName))
    } else {
        exefs_table_error(d, p, i + 1)
    }
}

/// Where reading the directory from slot `i` on leaves the reader: just past the
/// table, before a slot past the end, or just past a slot with a badly encoded name.
pub open spec fn exefs_table_stop(d: Seq<u8>, p: int, i: int) -> int
    decreases 10 - i,
{
    if i >= 10 {
        p + 0xA0
    } else if !fits(d, p + 16 * i, 16) {
        p + 16 * i
    } else if !slot_is_empty(exefs_slot(d, p, i)) && !valid_utf8(slot_name(exefs_slot(d, p, i))) {
        p + 16 * (i + 1)
    } else {
        exefs_table_stop(d, p, i + 1)
    }
}

/// The first slot from `i` on that names the icon file.
pub open spec fn exefs_icon_slot(d: Seq<u8>, p: int, i: int) -> Option<int>
    decreases 10 - i,
{
    if i >= 10 {
        None
    } else if is_icon_slot(exefs_slot(d, p, i)) {
        Some(i)
    } else {
        exefs_icon_slot(d, p, i + 1)
    }
}

/// The raw icon of an embedded file system that starts at `p`: its icon file lies
/// at the entry's offset past the 0x200-byte header.
pub open spec fn exefs_icon_at(d: Seq<u8>, p: int) -> Result<Seq<u8>, ParseError> {
    match exefs_table_error(d, p, 0) {
        Some(e) => Err(e),
        None => match exefs_icon_slot(d, p, 0) {
            None => Err(ParseError::ResourceNotFound(MissingResource::IconEntry)),
            Some(i) => smdh_icon_at(d, p + 0x200 + le32(exefs_slot(d, p, i), 8)),
        },
    }
}

/// Reading the directory fails only on a short read or a badly encoded name.
pub proof fn lemma_exefs_table_error_kind(d: Seq<u8>, p: int, i: int)
    ensures
        exefs_table_error(d, p, i) matches Some(e)
            ==> e == ParseError::IOFailure || e == ParseError::InvalidField(InvalidField::EntryName),
    decreases 10 - i,
{
    if i < 10 {
        lemma_exefs_table_error_kind(d, p, i + 1);
    }
}

/// An icon-metadata block whose first signature byte is not 'S' is refused as such,
/// whatever follows it.
pub proof fn lemma_smdh_signature(d: Seq<u8>, p: int)
    requires
        fits(d, p, 4),
        d[p] != 0x53,
    ensures
        smdh_icon_at(d, p) == Err::<Seq<u8>, ParseError>(ParseError::MagicMismatch(ContainerFormat::Smdh)),
{
    assert(d.subrange(p, p + 4)[0] != smdh_magic()[0]);
}

/// A homebrew executable whose first signature byte is not '3' is refused as such,
/// whatever follows it.
pub proof fn lemma_n3dsx_signature(d: Seq<u8>, p: int)
    requires
        fits(d, p, 4),
        d[p] != 0x33,
    ensures
        n3dsx_icon_at(d, p) == Err::<Seq<u8>, ParseError>(ParseError::MagicMismatch(ContainerFormat::N3dsx)),
{
    assert(d.subrange(p, p + 4)[0] != n3dsx_magic()[0]);
}

/// A cartridge image whose first signature byte, at 0x100, is not 'N' is refused as
/// such, whatever follows it.
pub proof fn lemma_cci_signature(d: Seq<u8>)
    requires
        fits(d, 0x100, 4),
        d[0x100] != 0x4E,
    ensures
        cci_icon(d) == Err::<Seq<u8>, ParseError>(ParseError::MagicMismatch(ContainerFormat::Cci)),
{
    assert(d.subrange(0x100, 0x104)[0] != ncsd_magic()[0]);
}

/// An executable container whose first signature byte, 0x100 bytes in, is not 'N' is
/// refused as such, whatever follows it.
pub proof fn lemma_cxi_signature(d: Seq<u8>, p: int)
    requires
        fits(d, p + 0x100, 4),
        d[p + 0x100] != 0x4E,
    ensures
        cxi_icon_at(d, p) == Err::<Seq<u8>, ParseError>(ParseError::MagicMismatch(ContainerFormat::Cxi)),
{
    assert(d.subrange(p + 0x100, p + 0x104)[0] != ncch_magic()[0]);
}

/// The raw icon of an executable container that starts at `p`.
pub open spec fn cxi_icon_at(d: Seq<u8>, p: int) -> Result<Seq<u8>, ParseError> {
    if !fits(d, p + 0x100, 4) {
        Err(ParseError::IOFailure)
    } else if d.subrange(p + 0x100, p + 0x104) != ncch_magic() {
        Err(ParseError::MagicMismatch(ContainerFormat::Cxi))
    } else if !fits(d, p + 0x188, 8) {
        Err(ParseError::IOFailure)
    } else if d[p + 0x18F] & 4 != 4 {
        Err(ParseError::UnsupportedFeature(UnsupportedReason::EncryptedContent))
    } else if !fits(d, p + 0x1A0, 8) {
        Err(ParseError::IOFailure)
    } else {
        exefs_icon_at(d, p + le32(d, p + 0x1A0) * 512)
    }
}

/// The raw icon of a cartridge image, found in the first of its eight partitions.
pub open spec fn cci_icon(d: Seq<u8>) -> Result<Seq<u8>, ParseError> {
    if !fits(d, 0x100, 4) {
        Err(ParseError::IOFailure)
    } else if d.subrange(0x100, 0x104) != ncsd_magic() {
        Err(ParseError::MagicMismatch(ContainerFormat::Cci))
    } else if !fits(d, 0x120, 64) {
        Err(ParseError::IOFailure)
    } else {
        cxi_icon_at(d, le32(d, 0x120) * 512)
    }
}

/// The outcome of a parse, as the bitmap it gives or the error that stopped it.
pub open spec fn outcome(r: Result<SMDHIcon, ParseError>) -> Result<Seq<Rgba>, ParseError> {
    match r {
        Ok(icon) => Ok(icon@),
        Err(e) => Err(e),
    }
}

/// The bitmap that a located raw icon decodes to, or the error met on the way.
pub open spec fn decoded(r: Result<Seq<u8>, ParseError>) -> Result<Seq<Rgba>, ParseError> {
    match r {
        Ok(raw) => Ok(icon_pixels(raw)),
        Err(e) => Err(e),
    }
}

/// The size of a package's metadata section, one of four legal values.
#[derive(Clone, Copy, Debug, PartialEq, Eq, Structural)]
pub enum CIAMetaSize {
    Absent,
    CVerUSA,
    Dummy,
    Present,
}

impl TryFrom<u32> for CIAMetaSize {
    type Error = ParseError;

    fn try_from(value: u32) -> (r: Result<CIAMetaSize, ParseError>) {
        match value {
            0 => Ok(CIAMetaSize::Absent),
            8 => Ok(CIAMetaSize::CVerUSA),
            0x200 => Ok(CIAMetaSize::Dummy),
            0x3AC0 => Ok(CIAMetaSize::Present),
            _ => Err(ParseError::InvalidField(InvalidField::MetaSize(value))),
        }
    }
}

impl vstd::std_specs::convert::TryFromSpecImpl<u32> for CIAMetaSize {
    open spec fn obeys_try_from_spec() -> bool {
        true
    }

    open spec fn try_from_spec(v: u32) -> Result<CIAMetaSize, ParseError> {
        match meta_size_kind(v) {
            Some(k) => Ok(k),
            None => Err(ParseError::InvalidField(InvalidField::MetaSize(v))),
        }
    }
}

/// One entry of a cartridge image's partition table, in bytes.
#[derive(Clone, Copy, Debug, PartialEq, Eq, Structural)]
pub struct CCIPartition {
    pub offset: u64,
    pub _length: u64,
}

impl CCIPartition {
    /// Reads an entry: its offset and length in media units of 512 bytes.
    pub fn from_data(file_data: &mut ByteReader) -> (r: Result<CCIPartition, ParseError>)
        ensures
            final(file_data).bytes() == old(file_data).bytes(),
            old(file_data).bytes().len() <= u64::MAX,
            r is Ok <==> fits(old(file_data).bytes(), old(file_data).at(), 8),
            r is Err ==> r == Err::<CCIPartition, ParseError>(ParseError::IOFailure),
            r is Err ==> final(file_data).at() == if fits(old(file_data).bytes(), old(file_data).at(), 4) {
                old(file_data).at() + 4
            } else {
                old(file_data).at()
            },
            r matches Ok(e) ==> e.offset == le32(old(file_data).bytes(), old(file_data).at()) * 512
                && e._length == le32(old(file_data).bytes(), old(file_data).at() + 4) * 512
                && final(file_data).at() == old(file_data).at() + 8,
    {
        let offset = file_data.read_u32_le()?;
        let offset: u64 = offset as u64 * MEDIA_UNIT;
        let length = file_data.read_u32_le()?;
        let length: u64 = length as u64 * MEDIA_UNIT;
        Ok(CCIPartition { offset, _length: length })
    }

    pub fn offset(&self) -> (r: u64)
        ensures
            r == self.offset,
    {
        self.offset
    }

    pub fn _length(&self) -> (r: u64)
        ensures
            r == self._length,
    {
        self._length
    }
}

/// One used slot of an embedded file system's directory.
#[derive(Clone, Debug)]
pub struct ExeFSFileHeader {
    pub file_name: String,
    pub file_offset: u32,
    pub _file_size: u32,
}

/// Relies on `std::str::from_utf8`: it accepts exactly the valid UTF-8 byte
/// strings, and then holds the characters they encode.
#[verifier::external_body]
fn utf8_text(b: &[u8]) -> (r: Option<String>)
    ensures
        r is Some <==> valid_utf8(b@),
        r matches Some(s) ==> s@ == decode_utf8(b@),
{
    match std::str::from_utf8(b) {
        Ok(s) => Some(s.to_owned()),
        Err(_) => None,
    }
}

/// True when the name is that of the icon file.
fn is_icon_name(name: &str) -> (r: bool)
    ensures
        r == (name.spec_bytes() == icon_name()),
{
    let b = name.as_bytes();
    let r = b.len() == 4 && b[0] == 0x69 && b[1] == 0x63 && b[2] == 0x6F && b[3] == 0x6E;
    if r {
        assert(b@ =~= icon_name());
    } else {
        assert(b@ != icon_name()) by {
            if b@ == icon_name() {
                assert(b@[0] == 0x69 && b@[1] == 0x63 && b@[2] == 0x6F && b@[3] == 0x6E);
            }
        }
    }
    r
}

impl ExeFSFileHeader {
    /// Reads a 16-byte directory slot: `None` for an unused one.
    pub fn from_data(file_data: &mut ByteReader) -> (r: Result<Option<ExeFSFileHeader>, ParseError>)
        ensures
            final(file_data).bytes() == old(file_data).bytes(),
            old(file_data).bytes().len() <= u64::MAX,
            !fits(old(file_data).bytes(), old(file_data).at(), 16)
                ==> r == Err::<Option<ExeFSFileHeader>, ParseError>(ParseError::IOFailure)
                && final(file_data).at() == old(file_data).at(),
            fits(old(file_data).bytes(), old(file_data).at(), 16) ==> ({
                let s = old(file_data).bytes().subrange(old(file_data).at(), old(file_data).at() + 16);
                &&& final(file_data).at() == old(file_data).at() + 16
                &&& slot_is_empty(s) ==> r == Ok::<Option<ExeFSFileHeader>, ParseError>(None)
                &&& !slot_is_empty(s) && !valid_utf8(slot_name(s))
                    ==> r == Err::<Option<ExeFSFileHeader>, ParseError>(ParseError::InvalidField(InvalidField::EntryName))
                &&& !slot_is_empty(s) && valid_utf8(slot_name(s)) ==> (r matches Ok(Some(h))
                    && h.file_name@ == decode_utf8(slot_name(s))
                    && h.file_offset == le32(s, 8)
                    && h._file_size == le32(s, 12))
            }),
    {
        let file_header = file_data.read_exact(16)?;
        let ghost s = file_header@;
        let mut k: usize = 0;
        while k < 16 && file_header[k] == 0
            invariant
                k <= 16,
                s.len() == 16,
                file_header@ == s,
                forall|m: int| 0 <= m < k ==> s[m] == 0,
            decreases 16 - k,
        {
            k = k + 1;
        }
        if k == 16 {
            return Ok(None);
        }
        let mut end: usize = 8;
        while end > 0 && file_header[end - 1] == 0
            invariant
                end <= 8,
                s.len() == 16,
                file_header@ == s,
                trim_zeros(s.subrange(0, end as int)) == slot_name(s),
            decreases end,
        {
            assert(s.subrange(0, end as int).drop_last() =~= s.subrange(0, end - 1));
            end = end - 1;
        }
        let name_bytes = slice_subrange(file_header.as_slice(), 0, end);
        assert(name_bytes@ == slot_name(s));
        let file_name = match utf8_text(name_bytes) {
            Some(t) => t,
            None => {
                return Err(ParseError::InvalidField(InvalidField::EntryName));
            },
        };
        let file_offset = crate::reader::bytes_le32(&file_header, 8);
        let file_size = crate::reader::bytes_le32(&file_header, 12);
        assert(le32(s, 8) == le32(s.subrange(8, 16), 0));
        Ok(Some(ExeFSFileHeader { file_name, file_offset, _file_size: file_size }))
    }

    pub fn file_name(&self) -> (r: &str)
        ensures
            r@ == self.file_name@,
    {
        self.file_name.as_str()
    }

    pub fn file_offset(&self) -> (r: u32)
        ensures
            r == self.file_offset,
    {
        self.file_offset
    }

    pub fn _file_size(&self) -> (r: u32)
        ensures
            r == self._file_size,
    {
        self._file_size
    }
}

/// The icon found in an icon-metadata block.
#[derive(Clone, Debug)]
pub struct SMDHIcon {
    large_icon: IconBitmap,
}

impl View for SMDHIcon {
    type V = Seq<Rgba>;

    closed spec fn view(&self) -> Seq<Rgba> {
        self.large_icon@
    }
}

/// True when the four bytes `b` are `m`.
fn is_magic(b: &Vec<u8>, m0: u8, m1: u8, m2: u8, m3: u8) -> (r: bool)
    requires
        b@.len() == 4,
    ensures
        r == (b@ == seq![m0, m1, m2, m3]),
{
    let r = b[0] == m0 && b[1] == m1 && b[2] == m2 && b[3] == m3;
    if r {
        assert(b@ =~= seq![m0, m1, m2, m3]);
    } else {
        assert(b@ != seq![m0, m1, m2, m3]) by {
            if b@ == seq![m0, m1, m2, m3] {
                assert(b@[0] == m0 && b@[1] == m1 && b@[2] == m2 && b@[3] == m3);
            }
        }
    }
    r
}

/// `n` rounded up to a multiple of 64.
fn padded_to_64(n: u128) -> (r: u128)
    requires
        n <= u64::MAX,
    ensures
        r == pad64(n as int),
        r <= n + 63,
{
    assert((n + 63) / 64 * 64 <= n + 63) by (nonlinear_arith)
        requires n <= u64::MAX;
    (n + 63) / 64 * 64
}

impl SMDHIcon {
    /// The large icon.
    pub fn get_large_icon(&self) -> (r: IconBitmap)
        ensures
            r@ == self@,
    {
        self.large_icon.duplicate()
    }

    /// Reads an icon-metadata block at the current position.
    pub fn from_smdh(file_data: &mut ByteReader) -> (r: Result<SMDHIcon, ParseError>)
        ensures
            final(file_data).bytes() == old(file_data).bytes(),
            outcome(r) == decoded(smdh_icon_at(old(file_data).bytes(), old(file_data).at())),
            r == Err::<SMDHIcon, ParseError>(ParseError::MagicMismatch(ContainerFormat::Smdh))
                ==> final(file_data).at() == old(file_data).at() + 4,
            r is Ok ==> final(file_data).at() == old(file_data).at() + 0x36C0,
    {
        let smdh_magic = file_data.read_exact(4)?;
        if !is_magic(&smdh_magic, 0x53, 0x4D, 0x44, 0x48) {
            return Err(ParseError::MagicMismatch(ContainerFormat::Smdh));
        }
        file_data.seek_current(0x24C0 - 0x04)?;
        let large_icon_bytes = file_data.read_exact(SMDH_ICON_LEN)?;
        let large_icon = decode_icon(large_icon_bytes.as_slice())?;
        Ok(SMDHIcon { large_icon })
    }

    /// Reads a homebrew executable whose signature is at the current position.
    pub fn from_n3dsx(file_data: &mut ByteReader) -> (r: Result<SMDHIcon, ParseError>)
        ensures
            final(file_data).bytes() == old(file_data).bytes(),
            outcome(r) == decoded(n3dsx_icon_at(old(file_data).bytes(), old(file_data).at())),
            r == Err::<SMDHIcon, ParseError>(ParseError::MagicMismatch(ContainerFormat::N3dsx))
                ==> final(file_data).at() == old(file_data).at() + 4,
            r matches Err(ParseError::UnsupportedFeature(UnsupportedReason::NoExtendedHeader(_)))
                ==> final(file_data).at() == old(file_data).at() + 6,
    {
        let n3dsx_magic = file_data.read_exact(4)?;
        if !is_magic(&n3dsx_magic, 0x33, 0x44, 0x53, 0x58) {
            return Err(ParseError::MagicMismatch(ContainerFormat::N3dsx));
        }
        let header_size = file_data.read_u16_le()?;
        if !(header_size > 32) {
            return Err(ParseError::UnsupportedFeature(UnsupportedReason::NoExtendedHeader(header_size)));
        }
        file_data.seek_start(0x20);
        let smdh_offset = file_data.read_u32_le()?;
        let _smdh_size = file_data.read_u32_le()?;
        file_data.seek_start(smdh_offset as u64);
        SMDHIcon::from_smdh(file_data)
    }

    /// Reads an installable package from its start.
    pub fn from_cia(file_data: &mut ByteReader) -> (r: Result<SMDHIcon, ParseError>)
        ensures
            final(file_data).bytes() == old(file_data).bytes(),
            outcome(r) == decoded(cia_icon(old(file_data).bytes())),
            r matches Err(ParseError::UnsupportedFeature(UnsupportedReason::MetaSection(_)))
                ==> final(file_data).at() == 0x18,
            r matches Err(ParseError::InvalidField(InvalidField::MetaSize(_)))
                ==> final(file_data).at() == 0x18,
    {
        let ghost d = file_data.bytes();
        file_data.seek_start(0x08);
        let certificate_chain_size = file_data.read_u32_le()?;
        let ticket_size = file_data.read_u32_le()?;
        let tmd_size = file_data.read_u32_le()?;
        let meta_size = file_data.read_u32_le()?;
        let meta_size = CIAMetaSize::try_from(meta_size)?;
        match meta_size {
            CIAMetaSize::Present => {},
            _ => {
                return Err(ParseError::UnsupportedFeature(UnsupportedReason::MetaSection(meta_size)));
            },
        }
        let content_size = file_data.read_u64_le()?;
        let sections_offset: u128 = padded_to_64(certificate_chain_size as u128)
            + padded_to_64(ticket_size as u128) + padded_to_64(tmd_size as u128)
            + padded_to_64(content_size as u128);
        let meta_offset: u128 = 0x2040 + sections_offset;
        assert(meta_offset == cia_meta_offset(d));
        if meta_offset > u64::MAX as u128 {
            return Err(ParseError::IOFailure);
        }
        file_data.seek_start(meta_offset as u64);
        SMDHIcon::from_cia_meta(file_data)
    }

    /// Reads the metadata section of an installable package, which starts at the
    /// current position.
    pub fn from_cia_meta(file_data: &mut ByteReader) -> (r: Result<SMDHIcon, ParseError>)
        ensures
            final(file_data).bytes() == old(file_data).bytes(),
            outcome(r) == decoded(smdh_icon_at(old(file_data).bytes(), old(file_data).at() + 0x400)),
    {
        file_data.seek_current(0x400)?;
        SMDHIcon::from_smdh(file_data)
    }
    /// Reads a cartridge image from its start and follows its first partition.
    pub fn from_cci(file_data: &mut ByteReader) -> (r: Result<SMDHIcon, ParseError>)
        ensures
            final(file_data).bytes() == old(file_data).bytes(),
            outcome(r) == decoded(cci_icon(old(file_data).bytes())),
            r == Err::<SMDHIcon, ParseError>(ParseError::MagicMismatch(ContainerFormat::Cci))
                ==> final(file_data).at() == 0x104,
            fits(old(file_data).bytes(), 0x100, 4) && old(file_data).bytes().subrange(0x100, 0x104) == ncsd_magic()
                && !fits(old(file_data).bytes(), 0x120, 64) ==> ({
                // the reader stays at the 4-byte field whose read failed
                let a = final(file_data).at();
                &&& a >= 0x120
                &&& (a - 0x120) % 4 == 0
                &&& a == 0x120 || a <= old(file_data).bytes().len()
                &&& old(file_data).bytes().len() < a + 4
            }),
    {
        let ghost d = file_data.bytes();
        file_data.seek_start(0x100);
        let cci_magic = file_data.read_exact(4)?;
        if !is_magic(&cci_magic, 0x4E, 0x43, 0x53, 0x44) {
            return Err(ParseError::MagicMismatch(ContainerFormat::Cci));
        }
        file_data.seek_start(0x120);
        let mut partition_table: Vec<CCIPartition> = Vec::new();
        let mut i: usize = 0;
        while i < 8
            invariant
                i <= 8,
                d == old(file_data).bytes(),
                file_data.bytes() == d,
                file_data.at() == 0x120 + 8 * i,
                partition_table@.len() == i,
                i > 0 ==> fits(d, 0x120, 8 * i),
                i > 0 ==> partition_table@[0].offset == le32(d, 0x120) * 512,
                fits(d, 0x100, 4),
                d.subrange(0x100, 0x104) == ncsd_magic(),
            decreases 8 - i,
        {
            let entry = CCIPartition::from_data(file_data)?;
            partition_table.push(entry);
            i = i + 1;
        }
        if partition_table.len() == 0 {
            return Err(ParseError::ResourceNotFound(MissingResource::ExecutablePartition));
        }
        let first_partition = partition_table[0];
        file_data.seek_start(first_partition.offset());
        proof {
            let q = le32(d, 0x120) * 512;
            lemma_exefs_table_error_kind(d, q + le32(d, q + 0x1A0) * 512, 0);
        }
        SMDHIcon::from_cxi(file_data)
    }

    /// Reads an executable container that starts at the current position and follows
    /// its embedded file system.
    pub fn from_cxi(file_data: &mut ByteReader) -> (r: Result<SMDHIcon, ParseError>)
        ensures
            final(file_data).bytes() == old(file_data).bytes(),
            outcome(r) == decoded(cxi_icon_at(old(file_data).bytes(), old(file_data).at())),
            r == Err::<SMDHIcon, ParseError>(ParseError::MagicMismatch(ContainerFormat::Cxi))
                ==> final(file_data).at() == old(file_data).at() + 0x104,
            r == Err::<SMDHIcon, ParseError>(ParseError::UnsupportedFeature(UnsupportedReason::EncryptedContent))
                ==> final(file_data).at() == old(file_data).at() + 0x190,
    {
        let ghost d = file_data.bytes();
        let ghost p = file_data.at();
        file_data.seek_current(0x100)?;
        let cxi_magic = file_data.read_exact(4)?;
        if !is_magic(&cxi_magic, 0x4E, 0x43, 0x43, 0x48) {
            return Err(ParseError::MagicMismatch(ContainerFormat::Cxi));
        }
        file_data.seek_current(0x188 - 0x104)?;
        let flags = file_data.read_exact(8)?;
        let flags_index_7 = flags[7];
        let is_no_crypto = (flags_index_7 & 0x4) == 0x4;
        if !is_no_crypto {
            return Err(ParseError::UnsupportedFeature(UnsupportedReason::EncryptedContent));
        }
        file_data.seek_current(0x1A0 - 0x190)?;
        let exefs_offset = file_data.read_u32_le()?;
        let exefs_offset: u64 = exefs_offset as u64 * MEDIA_UNIT;
        let exefs_size = file_data.read_u32_le()?;
        let _exefs_size: u64 = exefs_size as u64 * MEDIA_UNIT;
        file_data.seek_current(exefs_offset as i64 - 0x1A8)?;
        proof {
            lemma_exefs_table_error_kind(d, p + exefs_offset, 0);
        }
        SMDHIcon::from_exefs(file_data)
    }

    /// Reads an embedded file system that starts at the current position: its ten
    /// directory slots, then the icon-metadata block of the entry named "icon".
    pub fn from_exefs(file_data: &mut ByteReader) -> (r: Result<SMDHIcon, ParseError>)
        ensures
            final(file_data).bytes() == old(file_data).bytes(),
            outcome(r) == decoded(exefs_icon_at(old(file_data).bytes(), old(file_data).at())),
            exefs_table_error(old(file_data).bytes(), old(file_data).at(), 0) is Some
                || exefs_icon_slot(old(file_data).bytes(), old(file_data).at(), 0) is None
                ==> final(file_data).at() == exefs_table_stop(old(file_data).bytes(), old(file_data).at(), 0),
    {
        let ghost d = file_data.bytes();
        let ghost p = file_data.at();
        let mut icon_offset: Option<u32> = None;
        let ghost mut found: Option<int> = None;
        let mut i: usize = 0;
        while i < 10
            invariant
                i <= 10,
                d == old(file_data).bytes(),
                p == old(file_data).at(),
                file_data.bytes() == d,
                file_data.at() == p + 16 * i,
                exefs_table_error(d, p, 0) == exefs_table_error(d, p, i as int),
                exefs_table_stop(d, p, 0) == exefs_table_stop(d, p, i as int),
                found is None ==> icon_offset is None && exefs_icon_slot(d, p, 0) == exefs_icon_slot(d, p, i as int),
                found matches Some(m) ==> exefs_icon_slot(d, p, 0) == Some(m)
                    && icon_offset == Some(le32(exefs_slot(d, p, m), 8) as u32),
            decreases 10 - i,
        {
            let entry = ExeFSFileHeader::from_data(file_data)?;
            let ghost slot = exefs_slot(d, p, i as int);
            assert(slot == d.subrange(p + 16 * i, p + 16 * i + 16));
            match entry {
                Some(h) => {
                    proof {
                        decode_utf8_encode_utf8(slot_name(slot));
                    }
                    let named_icon = is_icon_name(h.file_name());
                    assert(named_icon == is_icon_slot(slot));
                    if icon_offset.is_none() && named_icon {
                        icon_offset = Some(h.file_offset());
                        proof {
                            found = Some(i as int);
                        }
                    }
                },
                None => {},
            }
            i = i + 1;
        }
        let icon_file_offset = match icon_offset {
            Some(o) => o,
            None => {
                return Err(ParseError::ResourceNotFound(MissingResource::IconEntry));
            },
        };
        file_data.seek_current(0x200 + icon_file_offset as i64 - 0xA0)?;
        SMDHIcon::from_smdh(file_data)
    }
}

} // verus!
