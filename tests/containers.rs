use bign_handheld_thumbnailer::args::{input_kind, InputKind, ThumbnailerArgs, ThumbnailerArgsFileParams};
use bign_handheld_thumbnailer::color::Rgb565;
use bign_handheld_thumbnailer::error::{
    ContainerFormat, InvalidField, MissingResource, ParseError, UnsupportedReason,
};
use bign_handheld_thumbnailer::n3ds::{CCIPartition, CIAMetaSize, ExeFSFileHeader, SMDHIcon};
use bign_handheld_thumbnailer::reader::ByteReader;

const COLOR: u16 = 0x07E0;

fn put(d: &mut Vec<u8>, at: usize, bytes: &[u8]) {
    if d.len() < at + bytes.len() {
        d.resize(at + bytes.len(), 0);
    }
    d[at..at + bytes.len()].copy_from_slice(bytes);
}

fn put_u16(d: &mut Vec<u8>, at: usize, v: u16) {
    put(d, at, &v.to_le_bytes());
}

fn put_u32(d: &mut Vec<u8>, at: usize, v: u32) {
    put(d, at, &v.to_le_bytes());
}

fn put_u64(d: &mut Vec<u8>, at: usize, v: u64) {
    put(d, at, &v.to_le_bytes());
}

/// Writes an icon-metadata block at `at` whose icon is all `COLOR`.
fn put_smdh(d: &mut Vec<u8>, at: usize) {
    put(d, at, b"SMDH");
    let mut raw = Vec::new();
    for _ in 0..2304 {
        raw.extend_from_slice(&COLOR.to_le_bytes());
    }
    put(d, at + 0x24C0, &raw);
}

fn assert_icon(r: Result<SMDHIcon, ParseError>) {
    let icon = r.unwrap();
    let bm = icon.get_large_icon();
    let c = Rgb565::from_packed(COLOR);
    for (x, y) in [(0, 0), (47, 47), (13, 29), (40, 3)] {
        let p = bm.pixel(x, y);
        assert_eq!((p.r, p.g, p.b, p.a), (c.r, c.g, c.b, 255));
    }
}

fn n3dsx(header_size: u16, smdh_offset: u32) -> Vec<u8> {
    let mut d = Vec::new();
    put(&mut d, 0, b"3DSX");
    put_u16(&mut d, 4, header_size);
    put_u32(&mut d, 0x20, smdh_offset);
    put_u32(&mut d, 0x24, 0x36C0);
    d
}

fn cia(meta_size: u32) -> Vec<u8> {
    let mut d = Vec::new();
    put_u32(&mut d, 0x08, 0x20);
    put_u32(&mut d, 0x0C, 0x41);
    put_u32(&mut d, 0x10, 0);
    put_u32(&mut d, 0x14, meta_size);
    put_u64(&mut d, 0x18, 1);
    d
}

/// An embedded file system at `at` with the given used slots.
fn put_exefs(d: &mut Vec<u8>, at: usize, slots: &[(usize, &[u8], u32)]) {
    put(d, at + 0x9F, &[0]);
    for (i, name, offset) in slots {
        put(d, at + 16 * i, name);
        put_u32(d, at + 16 * i + 8, *offset);
        put_u32(d, at + 16 * i + 12, 0x36C0);
    }
}

/// An executable container at `at` whose file system lies `exefs_units` media units in.
fn put_cxi(d: &mut Vec<u8>, at: usize, no_crypto: bool, exefs_units: u32) {
    put(d, at + 0x100, b"NCCH");
    put(d, at + 0x18F, &[if no_crypto { 0x04 } else { 0x00 }]);
    put_u32(d, at + 0x1A0, exefs_units);
    put_u32(d, at + 0x1A4, 1);
}

fn cci(first_units: u32) -> Vec<u8> {
    let mut d = Vec::new();
    put(&mut d, 0x100, b"NCSD");
    put_u32(&mut d, 0x120, first_units);
    put_u32(&mut d, 0x124, 4);
    for i in 1..8 {
        put_u32(&mut d, 0x120 + 8 * i, 100 + i as u32);
        put_u32(&mut d, 0x124 + 8 * i, 1);
    }
    d
}

#[test]
fn smdh_block_decodes() {
    let mut d = Vec::new();
    put_smdh(&mut d, 0);
    assert_icon(SMDHIcon::from_smdh(&mut ByteReader::new(d)));
}

#[test]
fn smdh_signature_corrupted() {
    let mut d = Vec::new();
    put_smdh(&mut d, 0);
    d[0] = b'X';
    let mut r = ByteReader::new(d);
    let e = SMDHIcon::from_smdh(&mut r).unwrap_err();
    assert_eq!(e, ParseError::MagicMismatch(ContainerFormat::Smdh));
    assert_eq!(r.position(), 4);
}

#[test]
fn smdh_truncated_icon() {
    let mut d = Vec::new();
    put_smdh(&mut d, 0);
    d.truncate(0x24C0 + 0x1000);
    let e = SMDHIcon::from_smdh(&mut ByteReader::new(d)).unwrap_err();
    assert_eq!(e, ParseError::IOFailure);
}

#[test]
fn n3dsx_without_extended_header() {
    let d = n3dsx(32, 0x40);
    let e = SMDHIcon::from_n3dsx(&mut ByteReader::new(d)).unwrap_err();
    assert_eq!(e, ParseError::UnsupportedFeature(UnsupportedReason::NoExtendedHeader(32)));
}

#[test]
fn n3dsx_with_extended_header() {
    let mut d = n3dsx(33, 0x40);
    put_smdh(&mut d, 0x40);
    assert_icon(SMDHIcon::from_n3dsx(&mut ByteReader::new(d)));
}

#[test]
fn n3dsx_reads_offset_fields_after_header() {
    let mut d = n3dsx(33, 0x40);
    d.truncate(0x26);
    let e = SMDHIcon::from_n3dsx(&mut ByteReader::new(d)).unwrap_err();
    assert_eq!(e, ParseError::IOFailure);
    let mut d = n3dsx(33, 0x40);
    d.truncate(0x20);
    let e = SMDHIcon::from_n3dsx(&mut ByteReader::new(d)).unwrap_err();
    assert_eq!(e, ParseError::IOFailure);
}

#[test]
fn n3dsx_signature_corrupted() {
    let mut d = n3dsx(33, 0x40);
    put_smdh(&mut d, 0x40);
    d[0] = 0;
    let mut r = ByteReader::new(d);
    let e = SMDHIcon::from_n3dsx(&mut r).unwrap_err();
    assert_eq!(e, ParseError::MagicMismatch(ContainerFormat::N3dsx));
    assert_eq!(r.position(), 4);
}

#[test]
fn cia_meta_kinds_without_icon() {
    for (v, k) in [
        (0x200u32, CIAMetaSize::Dummy),
        (0, CIAMetaSize::Absent),
        (8, CIAMetaSize::CVerUSA),
    ] {
        let e = SMDHIcon::from_cia(&mut ByteReader::new(cia(v))).unwrap_err();
        assert_eq!(e, ParseError::UnsupportedFeature(UnsupportedReason::MetaSection(k)));
    }
}

#[test]
fn cia_meta_size_invalid() {
    let e = SMDHIcon::from_cia(&mut ByteReader::new(cia(0x1234))).unwrap_err();
    assert_eq!(e, ParseError::InvalidField(InvalidField::MetaSize(0x1234)));
}

#[test]
fn cia_meta_size_conversion() {
    assert_eq!(CIAMetaSize::try_from(0u32), Ok(CIAMetaSize::Absent));
    assert_eq!(CIAMetaSize::try_from(8u32), Ok(CIAMetaSize::CVerUSA));
    assert_eq!(CIAMetaSize::try_from(0x200u32), Ok(CIAMetaSize::Dummy));
    assert_eq!(CIAMetaSize::try_from(0x3AC0u32), Ok(CIAMetaSize::Present));
    assert_eq!(
        CIAMetaSize::try_from(7u32),
        Err(ParseError::InvalidField(InvalidField::MetaSize(7)))
    );
}

#[test]
fn cia_with_meta_section() {
    // 0x2040 + pad(0x20) + pad(0x41) + pad(0) + pad(1) = 0x2040 + 0x40 + 0x80 + 0 + 0x40
    let mut d = cia(0x3AC0);
    put_smdh(&mut d, 0x2140 + 0x400);
    assert_icon(SMDHIcon::from_cia(&mut ByteReader::new(d)));
}

#[test]
fn cia_meta_section_misplaced() {
    let mut d = cia(0x3AC0);
    put_smdh(&mut d, 0x2140 + 0x3C0);
    d.resize(0x2140 + 0x400 + 0x24C0 + 0x1200, 0);
    let e = SMDHIcon::from_cia(&mut ByteReader::new(d)).unwrap_err();
    assert_eq!(e, ParseError::MagicMismatch(ContainerFormat::Smdh));
}

#[test]
fn cia_meta_skips_to_block() {
    let mut d = vec![0u8; 0x10];
    put_smdh(&mut d, 0x410);
    let mut r = ByteReader::new(d);
    r.seek_start(0x10);
    assert_icon(SMDHIcon::from_cia_meta(&mut r));
}

#[test]
fn cci_full_chain() {
    let mut d = cci(10);
    put_cxi(&mut d, 5120, true, 2);
    put_exefs(&mut d, 5120 + 1024, &[(0, b"icon\0\0\0\0", 0)]);
    put_smdh(&mut d, 5120 + 1024 + 0x200);
    assert_icon(SMDHIcon::from_cci(&mut ByteReader::new(d)));
}

#[test]
fn cci_seeks_to_first_partition() {
    let mut d = cci(10);
    put(&mut d, 5120 + 0x100, b"XXXX");
    put_cxi(&mut d, 0x1000, true, 2);
    d.resize(8000, 0);
    let e = SMDHIcon::from_cci(&mut ByteReader::new(d)).unwrap_err();
    assert_eq!(e, ParseError::MagicMismatch(ContainerFormat::Cxi));
    let mut d = cci(10);
    put(&mut d, 5120 + 0x100, b"NCCH");
    d.resize(8000, 0);
    let e = SMDHIcon::from_cci(&mut ByteReader::new(d)).unwrap_err();
    assert_eq!(e, ParseError::UnsupportedFeature(UnsupportedReason::EncryptedContent));
}

#[test]
fn cci_signature_corrupted() {
    let mut d = cci(10);
    put_cxi(&mut d, 5120, true, 2);
    d[0x100] = b'M';
    let mut r = ByteReader::new(d);
    let e = SMDHIcon::from_cci(&mut r).unwrap_err();
    assert_eq!(e, ParseError::MagicMismatch(ContainerFormat::Cci));
    assert_eq!(r.position(), 0x104);
}

#[test]
fn cci_partition_table_truncated() {
    let mut d = cci(10);
    d.truncate(0x150);
    let e = SMDHIcon::from_cci(&mut ByteReader::new(d)).unwrap_err();
    assert_eq!(e, ParseError::IOFailure);
}

#[test]
fn cci_partition_entry_scaled() {
    let mut d = Vec::new();
    put_u32(&mut d, 0, 10);
    put_u32(&mut d, 4, 3);
    let mut r = ByteReader::new(d);
    let p = CCIPartition::from_data(&mut r).unwrap();
    assert_eq!(p.offset(), 5120);
    assert_eq!(p._length(), 1536);
    assert_eq!(r.position(), 8);
    assert_eq!(CCIPartition::from_data(&mut r).unwrap_err(), ParseError::IOFailure);
}

#[test]
fn cxi_encrypted() {
    let mut d = Vec::new();
    put_cxi(&mut d, 0, false, 2);
    d.resize(0x2000, 0);
    let e = SMDHIcon::from_cxi(&mut ByteReader::new(d)).unwrap_err();
    assert_eq!(e, ParseError::UnsupportedFeature(UnsupportedReason::EncryptedContent));
}

#[test]
fn cxi_signature_corrupted() {
    let mut d = vec![0u8; 0x30];
    put_cxi(&mut d, 0x30, true, 2);
    d[0x130] = b'M';
    let mut r = ByteReader::new(d);
    r.seek_start(0x30);
    let e = SMDHIcon::from_cxi(&mut r).unwrap_err();
    assert_eq!(e, ParseError::MagicMismatch(ContainerFormat::Cxi));
    assert_eq!(r.position(), 0x134);
}

#[test]
fn cxi_at_offset_follows_exefs() {
    let mut d = vec![0u8; 0x30];
    put_cxi(&mut d, 0x30, true, 3);
    put_exefs(&mut d, 0x30 + 1536, &[(4, b"icon", 0x10)]);
    put_smdh(&mut d, 0x30 + 1536 + 0x200 + 0x10);
    let mut r = ByteReader::new(d);
    r.seek_start(0x30);
    assert_icon(SMDHIcon::from_cxi(&mut r));
}

#[test]
fn exefs_icon_in_third_slot() {
    let mut d = Vec::new();
    put_exefs(&mut d, 0, &[(2, b"icon\0\0\0\0", 100)]);
    put_smdh(&mut d, 0x200 + 100);
    assert_icon(SMDHIcon::from_exefs(&mut ByteReader::new(d)));
}

#[test]
fn exefs_icon_after_other_entries() {
    let mut d = Vec::new();
    put_exefs(&mut d, 0, &[(0, b".code\0\0\0", 0), (1, b"banner\0\0", 0x40), (2, b"icon", 100)]);
    put_smdh(&mut d, 0x200 + 100);
    assert_icon(SMDHIcon::from_exefs(&mut ByteReader::new(d)));
}

#[test]
fn exefs_without_icon() {
    let mut d = Vec::new();
    put_exefs(&mut d, 0, &[(0, b".code\0\0\0", 0), (3, b"banner", 0x40), (5, b"icons", 0)]);
    d.resize(0x4000, 0);
    let e = SMDHIcon::from_exefs(&mut ByteReader::new(d)).unwrap_err();
    assert_eq!(e, ParseError::ResourceNotFound(MissingResource::IconEntry));
}

#[test]
fn exefs_bad_name() {
    let mut d = Vec::new();
    put_exefs(&mut d, 0, &[(2, b"icon", 100), (6, &[0xFF, 0xFE, 0, 0, 0, 0, 0, 0], 0)]);
    put_smdh(&mut d, 0x200 + 100);
    let e = SMDHIcon::from_exefs(&mut ByteReader::new(d)).unwrap_err();
    assert_eq!(e, ParseError::InvalidField(InvalidField::EntryName));
}

#[test]
fn exefs_table_truncated() {
    let mut d = Vec::new();
    put_exefs(&mut d, 0, &[(2, b"icon", 100)]);
    d.truncate(0x90);
    let e = SMDHIcon::from_exefs(&mut ByteReader::new(d)).unwrap_err();
    assert_eq!(e, ParseError::IOFailure);
}

#[test]
fn exefs_header_decoding() {
    let mut d = vec![0u8; 16];
    put(&mut d, 16, b"banner\0\0");
    put_u32(&mut d, 24, 0x1234_5678);
    put_u32(&mut d, 28, 0x36C0);
    let mut r = ByteReader::new(d);
    assert!(ExeFSFileHeader::from_data(&mut r).unwrap().is_none());
    let h = ExeFSFileHeader::from_data(&mut r).unwrap().unwrap();
    assert_eq!(h.file_name(), "banner");
    assert_eq!(h.file_offset(), 0x1234_5678);
    assert_eq!(h._file_size(), 0x36C0);
    assert_eq!(r.position(), 32);
    assert_eq!(ExeFSFileHeader::from_data(&mut r).unwrap_err(), ParseError::IOFailure);
}

#[test]
fn reader_seeks_and_reads() {
    let mut r = ByteReader::new(vec![1, 2, 3, 4, 5]);
    assert_eq!(r.read_exact(2).unwrap(), vec![1, 2]);
    assert_eq!(r.seek_current(-3), Err(ParseError::IOFailure));
    assert_eq!(r.position(), 2);
    assert_eq!(r.seek_current(-1), Ok(()));
    assert_eq!(r.read_u16_le(), Ok(0x0302));
    assert_eq!(r.read_u32_le(), Err(ParseError::IOFailure));
    assert_eq!(r.position(), 3);
    r.seek_start(100);
    assert_eq!(r.read_exact(1), Err(ParseError::IOFailure));
    r.seek_start(0);
    assert_eq!(r.read_u32_le(), Ok(0x0403_0201));
    let mut r = ByteReader::new(vec![1, 0, 0, 0, 2, 0, 0, 0]);
    assert_eq!(r.read_u64_le(), Ok(0x0000_0002_0000_0001));
}

#[test]
fn content_types_pick_resolvers() {
    assert_eq!(input_kind("application/x-nintendo-ds-rom"), Some(InputKind::NdsRom));
    assert_eq!(input_kind("application/x-ctr-cia"), Some(InputKind::Cia));
    assert_eq!(input_kind("application/x-ctr-smdh"), Some(InputKind::Smdh));
    assert_eq!(input_kind("application/x-ctr-3dsx"), Some(InputKind::N3dsx));
    assert_eq!(input_kind("application/x-nintendo-3ds-executable"), Some(InputKind::N3dsx));
    assert_eq!(input_kind("application/x-ctr-cxi"), Some(InputKind::Cxi));
    assert_eq!(input_kind("application/x-ctr-cci"), Some(InputKind::Cci));
    assert_eq!(input_kind("application/x-nintendo-3ds-rom"), Some(InputKind::Cci));
    assert_eq!(input_kind("image/png"), None);
    assert_eq!(input_kind(""), None);
}

#[test]
fn file_params_are_copied() {
    let args = ThumbnailerArgs {
        show_version: false,
        file_params: Some(ThumbnailerArgsFileParams {
            size: Some(128),
            input_file: "in.cia".to_string(),
            output_file: "out.png".to_string(),
        }),
    };
    let f = args.file_params().unwrap();
    assert_eq!(f.size, Some(128));
    assert_eq!(f.input_file, "in.cia");
    assert_eq!(f.output_file, "out.png");
    let v = ThumbnailerArgs { show_version: true, file_params: None };
    assert!(v.file_params().is_none());
}

#[test]
fn reader_positions_after_parse() {
    let mut d = Vec::new();
    put_smdh(&mut d, 0x10);
    let mut r = ByteReader::new(d);
    r.seek_start(0x10);
    assert!(SMDHIcon::from_smdh(&mut r).is_ok());
    assert_eq!(r.position(), 0x10 + 0x36C0);

    let mut r = ByteReader::new(n3dsx(32, 0x40));
    assert!(SMDHIcon::from_n3dsx(&mut r).is_err());
    assert_eq!(r.position(), 6);

    for v in [0x200u32, 0, 8, 0x1234] {
        let mut r = ByteReader::new(cia(v));
        assert!(SMDHIcon::from_cia(&mut r).is_err());
        assert_eq!(r.position(), 0x18);
    }

    let mut d = Vec::new();
    put_cxi(&mut d, 0, false, 2);
    d.resize(0x2000, 0);
    let mut r = ByteReader::new(d);
    assert!(SMDHIcon::from_cxi(&mut r).is_err());
    assert_eq!(r.position(), 0x190);

    let mut d = cci(10);
    d.truncate(0x136);
    let mut r = ByteReader::new(d);
    assert_eq!(SMDHIcon::from_cci(&mut r).unwrap_err(), ParseError::IOFailure);
    assert_eq!(r.position(), 0x134);
}

#[test]
fn exefs_positions_after_errors() {
    let mut d = Vec::new();
    put_exefs(&mut d, 0, &[(0, b"banner\0\0", 0x100)]);
    let mut r = ByteReader::new(d);
    assert_eq!(
        SMDHIcon::from_exefs(&mut r).unwrap_err(),
        ParseError::ResourceNotFound(MissingResource::IconEntry)
    );
    assert_eq!(r.position(), 0xA0);

    let mut d = Vec::new();
    put_exefs(&mut d, 0, &[(2, b"icon", 100), (6, &[0xFF, 0, 0, 0, 0, 0, 0, 0], 0)]);
    put_smdh(&mut d, 0x200 + 100);
    let mut r = ByteReader::new(d);
    assert_eq!(
        SMDHIcon::from_exefs(&mut r).unwrap_err(),
        ParseError::InvalidField(InvalidField::EntryName)
    );
    assert_eq!(r.position(), 16 * 7);

    let mut d = Vec::new();
    put_exefs(&mut d, 0, &[(2, b"icon", 100)]);
    d.truncate(0x58);
    let mut r = ByteReader::new(d);
    assert_eq!(SMDHIcon::from_exefs(&mut r).unwrap_err(), ParseError::IOFailure);
    assert_eq!(r.position(), 0x50);
}
