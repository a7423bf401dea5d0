use std::collections::HashMap;
use yeti_bigfile::bigfile::{data_after_refs, obj_type_to_name, Bigfile, BigfileIO};
use yeti_bigfile::bytes::ByteReader;
use yeti_bigfile::error::YetiIOError;
use yeti_bigfile::export::{got_groups, standard_shader_slots, valid_references_of_type};
use yeti_bigfile::loader::{AmortizedLoad, LoadSet};
use yeti_bigfile::metadata::{BigfileHeader, BigfileVersion, FileEntry, FolderEntry, SegmentHeader, YKey};
use yeti_bigfile::object_type::ObjectType;
use yeti_bigfile::objects::archetype::ObjectArchetype;
use yeti_bigfile::texture_util::unwrap_tga_key;
use yeti_bigfile::objects::ai_const::{AIConstList, ConstValue};
use yeti_bigfile::objects::xml_consts::{with_readings, xml_const_events, XmlConstEvent, XmlRawEvent};

fn put_u16(v: &mut Vec<u8>, x: u16) {
    v.extend_from_slice(&x.to_le_bytes());
}

fn put_u32(v: &mut Vec<u8>, x: u32) {
    v.extend_from_slice(&x.to_le_bytes());
}

fn segment_bytes() -> Vec<u8> {
    let mut v = b"YBIG".to_vec();
    v.extend_from_slice(&[0, 1, 0, 0]);
    for x in [0u64, 48, 0, 0, 0] {
        v.extend_from_slice(&x.to_le_bytes());
    }
    v
}

fn header_bytes(num_folders: u16, num_files: u32) -> Vec<u8> {
    let mut v = Vec::new();
    put_u16(&mut v, 0x87); // GRFS
    put_u16(&mut v, num_folders);
    put_u32(&mut v, num_files);
    v.extend_from_slice(&[0u8; 72]);
    put_u32(&mut v, 7);
    v.push(1);
    v.extend_from_slice(&[0u8; 3]);
    let mut root = [0u8; 40];
    root[..4].copy_from_slice(b"data");
    v.extend_from_slice(&root);
    v
}

fn file_entry_bytes(offset: u32, key: u32, type_code: u16, parent: u16, name: &str) -> Vec<u8> {
    let mut v = Vec::new();
    put_u32(&mut v, offset);
    put_u32(&mut v, key);
    put_u32(&mut v, 0);
    put_u16(&mut v, type_code);
    put_u16(&mut v, parent);
    put_u32(&mut v, 1_000_000);
    put_u32(&mut v, 0);
    put_u32(&mut v, 0);
    v.extend_from_slice(&[1, 2, 3, 4]);
    let mut n = [0u8; 60];
    n[..name.len()].copy_from_slice(name.as_bytes());
    v.extend_from_slice(&n);
    put_u32(&mut v, 0);
    v
}

fn file_entry(offset: u32, key: u32, type_code: u16, parent: u16, name: &str) -> FileEntry {
    let bytes = file_entry_bytes(offset, key, type_code, parent, name);
    let mut rd = ByteReader::new(&bytes);
    FileEntry::read_from(&mut rd, BigfileVersion::GRFS).unwrap()
}

fn folder(idx: u16, parent: u16, name: &str) -> FolderEntry {
    let mut n = [0u8; 50];
    n[..name.len()].copy_from_slice(name.as_bytes());
    FolderEntry {
        idx,
        unk01: 0,
        unk02: 0,
        unk03: 0,
        unk04: 0,
        parent_folder: parent,
        first_child: 0xFFFF,
        next_folder: 0xFFFF,
        name: n,
    }
}

struct MemIO {
    files: HashMap<u32, FileEntry>,
    folders: HashMap<u16, FolderEntry>,
    data: HashMap<u32, Vec<u8>>,
}

impl BigfileIO for MemIO {
    fn create_from_path(_path: &str) -> Result<Self, YetiIOError> {
        Err(YetiIOError::from_str_message("no such bigfile"))
    }

    fn get_path(&self) -> &str {
        "memory"
    }

    fn read_segment_header(&mut self) -> Result<SegmentHeader, YetiIOError> {
        SegmentHeader::read_from(&segment_bytes())
    }

    fn read_bigfile_header(&mut self, _seg: &SegmentHeader) -> Result<BigfileHeader, YetiIOError> {
        Ok(BigfileHeader::read_from(&header_bytes(self.folders.len() as u16, self.files.len() as u32)).unwrap())
    }

    fn read_file_table(&mut self, _s: &SegmentHeader, _b: &BigfileHeader) -> Result<HashMap<u32, FileEntry>, YetiIOError> {
        Ok(self.files.clone())
    }

    fn read_folder_table(&mut self, _s: &SegmentHeader, _b: &BigfileHeader) -> Result<HashMap<u16, FolderEntry>, YetiIOError> {
        Ok(self.folders.clone())
    }

    fn read_file(&mut self, _s: &SegmentHeader, _b: &BigfileHeader, entry: &FileEntry) -> Result<Vec<u8>, YetiIOError> {
        match self.data.get(&entry.key.0) {
            Some(d) => Ok(d.clone()),
            None => Err(YetiIOError::from_str_message("no data")),
        }
    }
}

fn object_bytes(refs: &[u32], body: &[u8]) -> Vec<u8> {
    let mut v = Vec::new();
    put_u32(&mut v, refs.len() as u32);
    for r in refs {
        put_u32(&mut v, *r);
    }
    v.extend_from_slice(body);
    v
}

fn sample_bigfile() -> Bigfile<MemIO> {
    let mut files = HashMap::new();
    files.insert(0x10, file_entry(0, 0x10, 42, 1, "zeta"));
    files.insert(0x11, file_entry(64, 0x11, 42, 1, "alpha"));
    files.insert(0x12, file_entry(128, 0x12, 42, 0, "mid"));
    files.insert(0x13, file_entry(0xFFFF_FFFF, 0x13, 42, 1, "gone"));
    files.insert(0x20, file_entry(256, 0x20, 32, 1, "pass"));
    files.insert(0x21, file_entry(320, 0x21, 32, 1, "tex"));
    let mut folders = HashMap::new();
    folders.insert(0, folder(0, 0xFFFF, "root"));
    folders.insert(1, folder(1, 0, "sub"));
    let mut data = HashMap::new();
    data.insert(0x10, object_bytes(&[0x11, 0x13, 0x12], b"script"));
    data.insert(0x11, object_bytes(&[], b"a"));
    data.insert(0x12, object_bytes(&[0x10], b"m"));
    data.insert(0x20, object_bytes(&[0x21], &[]));
    let mut tex = vec![0u8; 10];
    tex[4] = 16;
    tex[6] = 8;
    tex[9] = 0x05;
    data.insert(0x21, object_bytes(&[], &tex));
    let io = MemIO { files: HashMap::new(), folders, data };
    let mut io = io;
    io.files = files;
    let mut bf = Bigfile {
        segment_header: SegmentHeader::default(),
        bigfile_header: BigfileHeader::default(),
        file_table: HashMap::new(),
        object_table: HashMap::new(),
        folder_table: HashMap::new(),
        io,
        file_list_map: HashMap::new(),
    };
    bf.load_metadata().unwrap();
    bf
}

#[test]
fn new_reports_io_failure() {
    let r = Bigfile::<MemIO>::new::<MemIO>("x.bf".to_string());
    match r {
        Ok(_) => panic!("expected an error"),
        Err(m) => assert_eq!(m, "no such bigfile"),
    }
}

#[test]
fn metadata_builds_objects_and_sorted_lists() {
    let bf = sample_bigfile();
    assert_eq!(bf.object_table.len(), 6);
    assert_eq!(bf.segment_header.header_offset, 48);
    assert_eq!(bf.bigfile_header.version, BigfileVersion::GRFS);
    assert_eq!(bf.bigfile_header.data_root_str(), "data");
    let obj = &bf.object_table[&0x11];
    assert_eq!(obj.get_name(), "alpha");
    assert_eq!(obj.get_key(), 0x11);
    assert!(!obj.is_loaded());
    assert_eq!(bf.file_list_map[&1], vec![0x11, 0x13, 0x20, 0x21, 0x10]);
    assert_eq!(bf.file_list_map[&0], vec![0x12]);
    assert_eq!(bf.file_table[&0x11].get_name_ext(), "alpha.zc");
}

#[test]
fn full_directory_walks_to_root() {
    let bf = sample_bigfile();
    assert_eq!(bf.get_full_directory(1), "root/sub/");
    assert_eq!(bf.get_full_directory(0), "root/");
}

#[test]
fn key_validity() {
    let bf = sample_bigfile();
    assert!(bf.is_key_valid(YKey(0x10)));
    assert!(!bf.is_key_valid(YKey(0x13)));
    assert!(!bf.is_key_valid(YKey(0x99)));
}

#[test]
fn load_and_unload_count() {
    let mut bf = sample_bigfile();
    assert_eq!(bf.load_file(YKey(0x11)).unwrap(), true);
    assert_eq!(bf.object_table[&0x11].load_count(), 1);
    match bf.object_table[&0x11].get_archetype() {
        ObjectArchetype::Script(s) => assert_eq!(s.buffer, b"a".to_vec()),
        _ => panic!("a script was expected"),
    }
    assert_eq!(bf.load_file(YKey(0x11)).unwrap(), false);
    assert_eq!(bf.object_table[&0x11].load_count(), 2);
    bf.unload_file(YKey(0x11)).unwrap();
    assert_eq!(bf.object_table[&0x11].load_count(), 1);
    bf.unload_file(YKey(0x11)).unwrap();
    assert!(!bf.object_table[&0x11].is_loaded());
    match bf.object_table[&0x11].get_archetype() {
        ObjectArchetype::Script(s) => assert!(s.buffer.is_empty()),
        _ => panic!("a script was expected"),
    }
    bf.unload_file(YKey(0x11)).unwrap();
    assert_eq!(bf.object_table[&0x11].load_count(), 0);
}

#[test]
fn load_records_references() {
    let mut bf = sample_bigfile();
    bf.load_file(YKey(0x10)).unwrap();
    assert_eq!(bf.object_table[&0x10].get_references(), &vec![0x11, 0x13, 0x12]);
    bf.unload_file(YKey(0x10)).unwrap();
    assert!(bf.object_table[&0x10].get_references().is_empty());
}

#[test]
fn missing_files_are_errors() {
    let mut bf = sample_bigfile();
    let e = bf.load_file(YKey(0x99)).unwrap_err();
    assert_eq!(e.message(), "file not found!");
    assert_eq!(bf.unload_file(YKey(0x99)).unwrap_err(), "file not found!");
}

#[test]
fn failed_read_changes_nothing() {
    let mut bf = sample_bigfile();
    let e = bf.load_file(YKey(0x13)).unwrap_err();
    assert_eq!(e.message(), "no data");
    assert!(!bf.object_table[&0x13].is_loaded());
}

#[test]
fn refused_bytes_leave_object() {
    let mut bf = sample_bigfile();
    let e = bf.load_object_bytes(YKey(0x11), &[5, 0, 0, 0]).unwrap_err();
    assert_eq!(e.message(), "object data cannot be loaded safely");
    assert!(!bf.object_table[&0x11].is_loaded());
}

#[test]
fn amortized_load_follows_references() {
    let mut bf = sample_bigfile();
    let mut al = AmortizedLoad::new(0x10);
    assert_eq!(al.get_load_status(), "0 / 1");
    let done = al.load_num(&mut bf, 1);
    assert!(!done);
    assert!(!al.is_loaded());
    assert_eq!(al.loaded_by_type(ObjectType::zc).unwrap(), &vec![0x10]);
    assert_eq!(al.get_load_status(), "1 / 3");
    let done = al.load_num(&mut bf, 100);
    assert!(done);
    assert!(al.is_loaded());
    assert_eq!(al.loaded_by_type(ObjectType::zc).unwrap(), &vec![0x10, 0x11, 0x12]);
    assert!(al.loaded_by_type(ObjectType::tga).unwrap().is_empty());
    assert!(al.load_num(&mut bf, 5));
    assert!(bf.object_table[&0x12].is_loaded());
    al.unload_all(&mut bf);
    assert!(!bf.object_table[&0x10].is_loaded());
    assert!(!bf.object_table[&0x12].is_loaded());
}

#[test]
fn texture_keys_follow_passthroughs() {
    let mut bf = sample_bigfile();
    bf.load_file(YKey(0x20)).unwrap();
    bf.load_file(YKey(0x21)).unwrap();
    assert_eq!(unwrap_tga_key(YKey(0x20), &bf), Some(YKey(0x21)));
    assert_eq!(unwrap_tga_key(YKey(0x21), &bf), Some(YKey(0x21)));
    assert_eq!(unwrap_tga_key(YKey(0x10), &bf), None);
}

#[test]
fn references_filtered_by_type_and_validity() {
    let mut bf = sample_bigfile();
    bf.load_file(YKey(0x10)).unwrap();
    assert_eq!(valid_references_of_type(&bf, YKey(0x10), ObjectType::zc), vec![0x11, 0x12]);
    assert!(valid_references_of_type(&bf, YKey(0x10), ObjectType::tga).is_empty());
}

#[test]
fn type_display_names() {
    assert_eq!(obj_type_to_name(&ObjectType::dtb), Some("Data Table"));
    assert_eq!(obj_type_to_name(&ObjectType::null), None);
}

#[test]
fn data_after_refs_strips_keys() {
    assert_eq!(data_after_refs(&[1, 0, 0, 0, 9, 9, 9, 9, 7, 8]), Some(vec![7, 8]));
    assert_eq!(data_after_refs(&[0, 0, 0, 0]), Some(vec![]));
    assert_eq!(data_after_refs(&[2, 0, 0, 0, 9, 9, 9, 9]), None);
    assert_eq!(data_after_refs(&[0xFF, 0xFF, 0xFF, 0xFF, 1]), None);
    assert_eq!(data_after_refs(&[1, 0]), None);
}

#[test]
fn extract_reads_data_without_refs() {
    let mut bf = sample_bigfile();
    assert_eq!(bf.extract_file_data(YKey(0x10)).unwrap(), b"script".to_vec());
    assert_eq!(bf.extract_file_data(YKey(0x13)).unwrap_err(), "no data");
}

#[test]
fn loaded_keys_listed_once() {
    let mut bf = sample_bigfile();
    assert!(bf.loaded_object_keys().is_empty());
    bf.load_file(YKey(0x11)).unwrap();
    bf.load_file(YKey(0x11)).unwrap();
    bf.load_file(YKey(0x12)).unwrap();
    let mut keys = bf.loaded_object_keys();
    keys.sort();
    assert_eq!(keys, vec![0x11, 0x12]);
}

#[test]
fn folder_paths_checked() {
    let mut bf = sample_bigfile();
    assert!(bf.folder_path_ok(1));
    assert!(bf.folder_path_ok(0));
    bf.folder_table.insert(5, folder(5, 6, "loop_a"));
    bf.folder_table.insert(6, folder(6, 5, "loop_b"));
    assert!(!bf.folder_path_ok(5));
    bf.folder_table.insert(7, folder(7, 9, "orphan"));
    assert!(!bf.folder_path_ok(7));
    let mut bad = folder(8, 0, "x");
    bad.name = [b'x'; 50];
    bf.folder_table.insert(8, bad);
    assert!(!bf.folder_path_ok(8));
    assert!(!bf.folder_path_ok(99));
}

#[test]
fn amortized_load_reports_done_only_before_batch_ends() {
    let mut bf = sample_bigfile();
    let mut al = AmortizedLoad::new(0x10);
    assert!(!al.load_num(&mut bf, 3));
    assert!(!al.is_loaded());
    assert_eq!(al.get_load_status(), "3 / 4");
    let mut bf = sample_bigfile();
    let mut al = AmortizedLoad::new(0x10);
    assert!(!al.load_num(&mut bf, 4));
    assert!(al.is_loaded());
    assert_eq!(al.get_load_status(), "4 / 4");
    let mut bf = sample_bigfile();
    let mut al = AmortizedLoad::new(0x10);
    assert!(al.load_num(&mut bf, 5));
    assert_eq!(al.loaded_by_type(ObjectType::zc).unwrap(), &vec![0x10, 0x11, 0x12]);
}

#[test]
fn amortized_load_holds_loaded_objects_once_more() {
    let mut bf = sample_bigfile();
    bf.load_file(YKey(0x10)).unwrap();
    assert_eq!(bf.object_table[&0x10].load_count(), 1);
    let mut al = AmortizedLoad::new(0x10);
    assert!(!al.load_num(&mut bf, 1));
    assert_eq!(bf.object_table[&0x10].load_count(), 2);
    assert_eq!(bf.object_table[&0x11].load_count(), 0);
    assert_eq!(al.loaded_by_type(ObjectType::zc).unwrap(), &vec![0x10]);
}

fn got_bigfile() -> Bigfile<MemIO> {
    let mut files = HashMap::new();
    files.insert(0x30, file_entry(0, 0x30, 42, 1, "got"));
    files.insert(0x31, file_entry(64, 0x31, 27, 1, "mesh_a"));
    files.insert(0x32, file_entry(128, 0x32, 30, 1, "mat_a"));
    files.insert(0x33, file_entry(192, 0x33, 30, 1, "mat_b"));
    files.insert(0x34, file_entry(256, 0x34, 35, 1, "skel"));
    files.insert(0x35, file_entry(320, 0x35, 27, 1, "mesh_b"));
    files.insert(0x36, file_entry(384, 0x36, 30, 1, "mat_c"));
    files.insert(0x37, file_entry(0xFFFF_FFFF, 0x37, 27, 1, "gone"));
    let mut folders = HashMap::new();
    folders.insert(0, folder(0, 0xFFFF, "root"));
    folders.insert(1, folder(1, 0, "sub"));
    let mut data = HashMap::new();
    data.insert(0x30, object_bytes(&[0x32, 0x31, 0x32, 0x33, 0x37, 0x34, 0x35, 0x36], b"script"));
    let io = MemIO { files, folders, data };
    let mut bf = Bigfile {
        segment_header: SegmentHeader::default(),
        bigfile_header: BigfileHeader::default(),
        file_table: HashMap::new(),
        object_table: HashMap::new(),
        folder_table: HashMap::new(),
        io,
        file_list_map: HashMap::new(),
    };
    bf.load_metadata().unwrap();
    bf
}

#[test]
fn got_groups_meshes_materials_and_skeleton() {
    let mut bf = got_bigfile();
    bf.load_file(YKey(0x30)).unwrap();
    let (groups, skeleton) = got_groups(&bf, YKey(0x30));
    assert_eq!(skeleton, Some(0x34));
    assert_eq!(groups, vec![(0x31, vec![0x32, 0x33]), (0x35, vec![0x36])]);
}

#[test]
fn got_groups_restart_a_mesh_met_again() {
    let mut bf = got_bigfile();
    bf.load_file(YKey(0x30)).unwrap();
    bf.object_table.get_mut(&0x30).unwrap().references = vec![0x31, 0x32, 0x35, 0x31, 0x33, 0x36];
    let (groups, skeleton) = got_groups(&bf, YKey(0x30));
    assert_eq!(skeleton, None);
    assert_eq!(groups, vec![(0x31, vec![0x33, 0x36]), (0x35, vec![])]);
}

#[test]
fn standard_shader_texture_slots() {
    let mut bf = sample_bigfile();
    bf.load_file(YKey(0x10)).unwrap();
    bf.load_file(YKey(0x20)).unwrap();
    bf.load_file(YKey(0x21)).unwrap();
    bf.object_table.get_mut(&0x10).unwrap().references = vec![0x11, 0x21, 0x20, 0x13];
    assert_eq!(standard_shader_slots(&bf, YKey(0x10), &vec![]), (Some(0x21), Some(0x21), None));
    assert_eq!(standard_shader_slots(&bf, YKey(0x10), &vec![0x21]), (Some(0x21), None, Some(0x21)));
    bf.object_table.get_mut(&0x10).unwrap().references = vec![0x20, 0x21, 0x20];
    assert_eq!(standard_shader_slots(&bf, YKey(0x10), &vec![]), (Some(0x20), Some(0x21), None));
    bf.object_table.get_mut(&0x10).unwrap().references = vec![0x20];
    assert_eq!(standard_shader_slots(&bf, YKey(0x10), &vec![0x21]), (Some(0x20), None, None));
    bf.object_table.get_mut(&0x10).unwrap().references = vec![0x11];
    assert_eq!(standard_shader_slots(&bf, YKey(0x10), &vec![]), (None, None, None));
}

const XML_LIST: &[u8] = b"<AIConstList><C name=\"lives\" type=\"INT\">7</C><C name=\"g\" type=\"FLT\">2.5</C></AIConstList>";

fn xml_bigfile(xml: &[u8]) -> Bigfile<MemIO> {
    let mut files = HashMap::new();
    files.insert(0x40, file_entry(0, 0x40, 42, 1, "root"));
    files.insert(0x41, file_entry(64, 0x41, 121, 1, "consts"));
    files.insert(0x42, file_entry(128, 0x42, 42, 1, "after"));
    let mut folders = HashMap::new();
    folders.insert(0, folder(0, 0xFFFF, "root"));
    folders.insert(1, folder(1, 0, "sub"));
    let mut data = HashMap::new();
    data.insert(0x40, object_bytes(&[0x41], b"script"));
    data.insert(0x41, object_bytes(&[0x42], xml));
    data.insert(0x42, object_bytes(&[], b"s"));
    let io = MemIO { files, folders, data };
    let mut bf = Bigfile {
        segment_header: SegmentHeader::default(),
        bigfile_header: BigfileHeader::default(),
        file_table: HashMap::new(),
        object_table: HashMap::new(),
        folder_table: HashMap::new(),
        io,
        file_list_map: HashMap::new(),
    };
    bf.load_metadata().unwrap();
    bf
}

fn xml_events(buf: &[u8]) -> (Vec<XmlConstEvent>, Option<YetiIOError>) {
    let (raws, error) = xml_const_events(buf);
    let floats: Vec<Option<u32>> = raws
        .iter()
        .map(|e| match e {
            XmlRawEvent::Text(s) => s.parse::<f32>().ok().map(|f| f.to_bits()),
            _ => None,
        })
        .collect();
    (with_readings(&raws, &floats), error)
}

#[test]
fn xml_const_list_load_is_finished_from_its_events() {
    let mut bf = xml_bigfile(XML_LIST);
    let mut al = AmortizedLoad::new(0x40);
    assert!(al.load_num(&mut bf, 100));
    assert!(bf.object_table[&0x41].is_xml_list_pending());
    assert_eq!(bf.object_table[&0x41].load_count(), 0);
    assert!(al.loaded_by_type(ObjectType::cst).unwrap().is_empty());
    let data = bf.extract_file_data(YKey(0x41)).unwrap();
    let (events, error) = xml_events(&data);
    assert!(error.is_none());
    assert!(!AIConstList::xml_events_panic(&events));
    al.finish_xml_const_list(&mut bf, YKey(0x41), &events, error).unwrap();
    let obj = &bf.object_table[&0x41];
    assert!(!obj.is_xml_list_pending());
    assert_eq!(obj.load_count(), 1);
    assert!(obj.load_error.is_none());
    match obj.get_archetype() {
        ObjectArchetype::ConstList(list) => {
            assert_eq!(list.root_node.values.len(), 2);
            match &list.root_node.values[0] {
                ConstValue::Int(n, v) => {
                    assert_eq!(n, "lives");
                    assert_eq!(*v, 7);
                },
                _ => panic!("an integer was expected"),
            }
            match &list.root_node.values[1] {
                ConstValue::Float(n, v) => {
                    assert_eq!(n, "g");
                    assert_eq!(f32::from_bits(*v), 2.5);
                },
                _ => panic!("a float was expected"),
            }
        },
        _ => panic!("a constant list was expected"),
    }
    assert_eq!(al.loaded_by_type(ObjectType::cst).unwrap(), &vec![0x41]);
    assert!(!al.is_loaded());
    assert!(al.load_num(&mut bf, 100));
    assert_eq!(al.loaded_by_type(ObjectType::zc).unwrap(), &vec![0x40, 0x42]);
    assert_eq!(bf.object_table[&0x42].load_count(), 1);
}

#[test]
fn xml_const_list_with_bad_xml_keeps_the_reader_error() {
    let mut bf = xml_bigfile(b"<AIConstList><C name=\"a\" type=\"INT\">1</D></AIConstList>");
    let mut al = AmortizedLoad::new(0x40);
    assert!(al.load_num(&mut bf, 100));
    let data = bf.extract_file_data(YKey(0x41)).unwrap();
    let (events, error) = xml_events(&data);
    let message = error.as_ref().unwrap().message().to_string();
    let e = al.finish_xml_const_list(&mut bf, YKey(0x41), &events, error).unwrap_err();
    assert_eq!(e.message(), message);
    assert_eq!(e.key(), YKey(0x41));
    let obj = &bf.object_table[&0x41];
    assert_eq!(obj.load_count(), 0);
    assert_eq!(obj.load_error.as_ref().unwrap().message(), message);
    assert!(al.loaded_by_type(ObjectType::cst).unwrap().is_empty());
    assert!(al.is_loaded());
}

#[test]
fn xml_const_list_finish_refuses_other_keys() {
    let mut bf = xml_bigfile(XML_LIST);
    bf.load_file(YKey(0x42)).unwrap();
    let e = bf.finish_xml_const_list(YKey(0x42), &vec![], None).unwrap_err();
    assert_eq!(e.message(), "no xml const list waits to be loaded under this key");
    assert_eq!(bf.object_table[&0x42].load_count(), 1);
    let e = bf.finish_xml_const_list(YKey(0x99), &vec![], None).unwrap_err();
    assert_eq!(e.message(), "no xml const list waits to be loaded under this key");
}

#[test]
fn display_names_differ_between_types() {
    let names: Vec<(u16, &str)> = (0..149u16)
        .filter_map(|c| obj_type_to_name(&ObjectType::from_repr(c).unwrap()).map(|n| (c, n)))
        .collect();
    assert_eq!(names.len(), 62);
    for (i, (c1, n1)) in names.iter().enumerate() {
        for (c2, n2) in names.iter().skip(i + 1) {
            assert_ne!(n1, n2, "types {} and {}", c1, c2);
        }
    }
}
