use yeti_bigfile::bytes::ByteReader;
use yeti_bigfile::io::{
    file_data_position, file_entry_readable, file_table_readable, read_file_payload, seek_to_bigfile_header,
    seek_to_file_data, seek_to_file_table, seek_to_folder_table, try_read_file_payload,
};
use yeti_bigfile::metadata::{BigfileHeader, BigfileVersion, FileEntry, FolderEntry, SegmentHeader, YKey};
use yeti_bigfile::objects::common::ArchetypeImpl;
use yeti_bigfile::objects::curve::{CurveType, YetiCurve};
use yeti_bigfile::objects::dtb::{ColumnData, DataTable};
use yeti_bigfile::objects::gameobject::GameObject;
use yeti_bigfile::objects::meshes::MeshMetadata;
use yeti_bigfile::objects::zone::Zone;

fn segment(sig: &[u8; 4], num_segments: u8, segment: u8, header_offset: u64) -> Vec<u8> {
    let mut v = sig.to_vec();
    v.extend_from_slice(&[7, num_segments, segment, 0]);
    for x in [0u64, header_offset, 0, 0, 0] {
        v.extend_from_slice(&x.to_le_bytes());
    }
    v
}

fn message(r: Result<SegmentHeader, yeti_bigfile::error::YetiIOError>) -> String {
    match r {
        Ok(_) => panic!("an error was expected"),
        Err(e) => e.message().to_string(),
    }
}

#[test]
fn segment_header_checks() {
    let h = SegmentHeader::read_from(&segment(b"YBIG", 2, 1, 48)).unwrap();
    assert_eq!(h.unk01, 7);
    assert_eq!(h.header_offset, 48);
    assert_eq!(h.sig_to_str(), "YBIG");
    assert_eq!(message(SegmentHeader::read_from(&segment(b"YBAG", 1, 0, 48))), "signature invalid!");
    assert_eq!(message(SegmentHeader::read_from(&segment(b"YBIG", 0, 0, 48))), "segment counts invalid!");
    assert_eq!(message(SegmentHeader::read_from(&segment(b"YBIG", 1, 1, 48))), "segment counts invalid!");
    assert_eq!(message(SegmentHeader::read_from(&segment(b"YBIG", 1, 0, 47))), "header offset too small! (<48)");
    assert_eq!(
        message(SegmentHeader::read_from(&segment(b"YBIG", 1, 0, 163841))),
        "header offset too large! (>163840)"
    );
    assert_eq!(message(SegmentHeader::read_from(&[b'Y', b'B'])), "could not read header correctly!");
}

fn header(num_folders: u16, num_files: u32) -> BigfileHeader {
    let mut v = Vec::new();
    v.extend_from_slice(&0x86u16.to_le_bytes());
    v.extend_from_slice(&num_folders.to_le_bytes());
    v.extend_from_slice(&num_files.to_le_bytes());
    v.extend_from_slice(&[0u8; 77]);
    BigfileHeader::read_from(&v).unwrap()
}

#[test]
fn bigfile_header_short_tail_is_zero() {
    let h = header(3, 5);
    assert_eq!(h.version, BigfileVersion::GRO);
    assert_eq!(h.num_folders, 3);
    assert_eq!(h.num_files, 5);
    assert_eq!(h.data_root, [0u8; 40]);
}

#[test]
fn table_positions() {
    let seg = SegmentHeader::read_from(&segment(b"YBIG", 1, 0, 48)).unwrap();
    let bfh = header(3, 5);
    assert_eq!(seek_to_bigfile_header(&seg), 48);
    assert_eq!(seek_to_file_table(&seg, &bfh), 176);
    assert_eq!(seek_to_folder_table(&seg, &bfh), 176 + 500);
    // 676 + 192 = 868, aligned to 872, then offset 2 steps of eight.
    assert_eq!(seek_to_file_data(&seg, &bfh, 2), 888);
    assert_eq!(FileEntry::struct_size(BigfileVersion::GRO), 100);
    assert_eq!(FileEntry::struct_size(BigfileVersion::GRFS), 96);
    assert_eq!(FolderEntry::struct_size(BigfileVersion::GRO), 64);
    let mut e = FileEntry::default();
    e.offset = 0xFFFF_FFFF;
    assert_eq!(file_data_position(&seg, &bfh, &e).unwrap_err().message(), "invalid offset");
    e.offset = 1;
    assert_eq!(file_data_position(&seg, &bfh, &e).unwrap(), 880);
}

#[test]
fn stored_payloads() {
    assert_eq!(read_file_payload(&[3, 0, 0, 0, 1, 2, 3, 4], false), vec![1, 2, 3]);
    assert_eq!(read_file_payload(&[4, 0, 0, 0, 1, 2], false), vec![1, 2, 0, 0]);
    assert_eq!(try_read_file_payload(&[0xFF, 0xFF, 0xFF, 0xFF], false), None);
    assert_eq!(try_read_file_payload(&[1, 0], false), None);
}

#[test]
fn compressed_payloads() {
    // zlib stream of the three bytes "abc", stored uncompressed.
    let stream = [0x78, 0x01, 0x01, 0x03, 0x00, 0xFC, 0xFF, b'a', b'b', b'c', 0x02, 0x4D, 0x01, 0x27];
    let mut data = (stream.len() as u32).to_le_bytes().to_vec();
    data.extend_from_slice(&3u32.to_le_bytes());
    data.extend_from_slice(&stream);
    assert_eq!(try_read_file_payload(&data, true), Some(b"abc".to_vec()));
    let mut short = data.clone();
    short[4] = 9;
    assert_eq!(try_read_file_payload(&short, true), None);
    assert_eq!(try_read_file_payload(&[1, 0, 0, 0, 0], true), None);
}

fn entry_bytes(type_code: u16, name: &[u8]) -> Vec<u8> {
    let mut v = vec![0u8; 12];
    v.extend_from_slice(&type_code.to_le_bytes());
    v.extend_from_slice(&[0u8; 18]);
    let mut n = [0u8; 60];
    n[..name.len()].copy_from_slice(name);
    v.extend_from_slice(&n);
    v.extend_from_slice(&[0u8; 4]);
    v
}

#[test]
fn file_entry_readability() {
    assert!(file_entry_readable(&entry_bytes(42, b"short"), 0, BigfileVersion::GRFS));
    assert!(!file_entry_readable(&entry_bytes(42, b"short"), 0, BigfileVersion::GRO));
    assert!(!file_entry_readable(&entry_bytes(500, b"short"), 0, BigfileVersion::GRFS));
    assert!(file_entry_readable(&entry_bytes(2, b"short"), 0, BigfileVersion::GRFS));
    assert!(!file_entry_readable(&entry_bytes(2, &[b'x'; 60]), 0, BigfileVersion::GRFS));
    assert!(file_entry_readable(&entry_bytes(32, &[b'x'; 60]), 0, BigfileVersion::GRFS));
    let e = FileEntry::read_from(&mut ByteReader::new(&entry_bytes(42, b"name")), BigfileVersion::GRFS).unwrap();
    assert_eq!(e.get_name(), "name");
    assert_eq!(e.get_name_ext(), "name.zc");
    let mut table = entry_bytes(42, b"a");
    table.extend(entry_bytes(32, b"b"));
    let mut bfh = header(0, 2);
    bfh.version = BigfileVersion::GRFS;
    assert!(file_table_readable(&table, &bfh));
    bfh.num_files = 3;
    assert!(!file_table_readable(&table, &bfh));
}

#[test]
fn key_text_and_conversions() {
    assert_eq!(YKey(0xAB).to_hex_string(), "0x000000AB");
    assert_eq!(YKey::from(7u32), YKey(7));
    assert_eq!(u32::from(YKey(9)), 9);
    assert_eq!(YKey::default(), YKey(0xFFFF_FFFF));
}

#[test]
fn curve_kinds() {
    let mut c = YetiCurve::default();
    let mut buf = 0i32.to_le_bytes().to_vec();
    buf.extend_from_slice(&1.25f32.to_bits().to_le_bytes());
    c.load_from_buf(&buf).unwrap();
    match &c.curve {
        CurveType::Constant(k) => assert_eq!(f32::from_bits(k.point.y), 1.25),
        _ => panic!("a constant curve was expected"),
    }
    let e = c.load_from_buf(&9i32.to_le_bytes()).unwrap_err();
    assert_eq!(e.message(), "Invalid curve type: 9");
    assert!(matches!(c.curve, CurveType::Invalid));
}

#[test]
fn zone_header_check() {
    let mut z = Zone::default();
    let e = z.load_from_buf(&[5, 0x10, 0]).unwrap_err();
    assert_eq!(e.message(), "unk_02 not 0x80 0x00");
    assert_eq!(z.unk_01, 5);
}

#[test]
fn game_object_zero_check() {
    let mut g = GameObject::default();
    let e = g.load_from_buf(&[1, 0, 0, 0]).unwrap_err();
    assert_eq!(e.message(), "GameObject sanity check was not zero!");
}

#[test]
fn mesh_metadata_version() {
    let mut m = MeshMetadata::default();
    let e = m.load_from_buf(&[0, 3, 0, 0, 0]).unwrap_err();
    assert_eq!(e.message(), "unknown version: 3");
    assert_eq!(m.version, 3);
}

#[test]
fn data_table_columns() {
    let mut buf = Vec::new();
    buf.extend_from_slice(&2i32.to_le_bytes());
    buf.extend_from_slice(&1i32.to_le_bytes());
    buf.extend_from_slice(b"hp\0");
    buf.extend_from_slice(&1i32.to_le_bytes());
    buf.extend_from_slice(&100i32.to_le_bytes());
    buf.extend_from_slice(b"tex\0");
    buf.extend_from_slice(&4i32.to_le_bytes());
    buf.extend_from_slice(&0xABu32.to_le_bytes());
    buf.extend_from_slice(&55i32.to_le_bytes());
    buf.extend_from_slice(&0xCDu32.to_le_bytes());
    let mut t = DataTable::default();
    t.load_from_buf(&buf).unwrap();
    assert_eq!(t.columns.len(), 2);
    assert_eq!(t.columns[0].name, "hp");
    assert_eq!(t.rows.len(), 1);
    assert!(matches!(t.rows[0].data[0], ColumnData::Int(55)));
    assert!(matches!(t.rows[0].data[1], ColumnData::Asset(0xCD)));
    let mut bad = Vec::new();
    bad.extend_from_slice(&1i32.to_le_bytes());
    bad.extend_from_slice(&0i32.to_le_bytes());
    bad.extend_from_slice(b"x\0");
    bad.extend_from_slice(&7i32.to_le_bytes());
    let e = DataTable::default().load_from_buf(&bad).unwrap_err();
    assert_eq!(e.message(), "unknown datatable column type: 7");
}

#[test]
fn reader_seeks() {
    let data = [1u8, 2, 3, 4];
    let mut r = ByteReader::new(&data);
    r.set_position(2);
    assert_eq!(r.read_u8().unwrap(), 3);
    assert!(r.seek_relative(-3).is_ok());
    assert_eq!(r.position(), 0);
    let e = r.seek_relative(-1).unwrap_err();
    assert_eq!(e.message(), "invalid seek to a negative or overflowing position");
    assert_eq!(r.read_u32().unwrap(), 0x04030201);
    assert_eq!(r.read_u8().unwrap_err().message(), "failed to fill whole buffer");
}
