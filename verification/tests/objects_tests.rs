use yeti_bigfile::bytes::ByteReader;
use yeti_bigfile::metadata::{BigfileVersion, FileEntry, YKey};
use yeti_bigfile::object_type::ObjectType;
use yeti_bigfile::objects::ai_const::{AIConstList, ConstTreeNode, ConstValue};
use yeti_bigfile::objects::archetype::ObjectArchetype;
use yeti_bigfile::objects::common::{ArchetypeImpl, RawVec3};
use yeti_bigfile::objects::epl::EditableParamsList;
use yeti_bigfile::objects::gameobject::IdentityFlags;
use yeti_bigfile::objects::ini::{IniEntry, YetiIni};
use yeti_bigfile::objects::shader::{shader_load_panics, VisualShader};
use yeti_bigfile::objects::skeleton::{skeleton_load_panics, BoneParent, Skeleton};
use yeti_bigfile::objects::texture::{TextureFormat, TextureMetaType, TextureMetadataObject};
use yeti_bigfile::objects::vxc::VertexColors;
use yeti_bigfile::objects::xml_consts::{
    with_readings, xml_const_events, XmlConstEvent, XmlConstReader, XmlRawEvent, XmlReadState,
};
use yeti_bigfile::objects::zone::{zone_type_from_id, zone_type_to_id, ZoneType};
use yeti_bigfile::objects::YetiObject;

fn u32le(x: u32) -> [u8; 4] {
    x.to_le_bytes()
}

fn entry(key: u32, type_code: u16, name: &str) -> FileEntry {
    let mut v = Vec::new();
    v.extend_from_slice(&u32le(0));
    v.extend_from_slice(&u32le(key));
    v.extend_from_slice(&u32le(0));
    v.extend_from_slice(&type_code.to_le_bytes());
    v.extend_from_slice(&0u16.to_le_bytes());
    v.extend_from_slice(&[0u8; 16]);
    let mut n = [0u8; 60];
    n[..name.len()].copy_from_slice(name.as_bytes());
    v.extend_from_slice(&n);
    v.extend_from_slice(&u32le(0));
    let mut rd = ByteReader::new(&v);
    FileEntry::read_from(&mut rd, BigfileVersion::GRFS).unwrap()
}

#[test]
fn ini_entries_are_read() {
    let mut buf = Vec::new();
    buf.extend_from_slice(&u32le(3));
    buf.extend_from_slice(b"speed\0");
    buf.push(0);
    buf.extend_from_slice(&u32le(12));
    buf.extend_from_slice(b"mesh\0");
    buf.push(1);
    buf.extend_from_slice(&u32le(0xABCD));
    buf.extend_from_slice(b"odd\0");
    buf.push(9);
    buf.extend_from_slice(&u32le(1));
    let mut ini = YetiIni::default();
    ini.load_from_buf(&buf).unwrap();
    assert_eq!(ini.entries.len(), 3);
    match &ini.entries[0] {
        IniEntry::Int(n, v) => {
            assert_eq!(n, "speed");
            assert_eq!(*v, 12);
        },
        _ => panic!("an integer entry was expected"),
    }
    match &ini.entries[1] {
        IniEntry::AssetKey(n, v) => {
            assert_eq!(n, "mesh");
            assert_eq!(*v, 0xABCD);
        },
        _ => panic!("an asset key entry was expected"),
    }
    assert!(matches!(ini.entries[2], IniEntry::Invalid));
    ini.unload();
    assert!(ini.entries.is_empty());
}

#[test]
fn ini_short_buffer_is_eof() {
    let mut ini = YetiIni::default();
    let e = ini.load_from_buf(&[1, 0]).unwrap_err();
    assert_eq!(e.message(), "failed to fill whole buffer");
    let e = ini.load_from_buf(&[1, 0, 0, 0, b'a']).unwrap_err();
    assert_eq!(e.message(), "failed to fill whole buffer");
}

#[test]
fn params_list_names() {
    let mut buf = u32le(2).to_vec();
    buf.extend_from_slice(b"one\0two\0");
    let mut epl = EditableParamsList::default();
    epl.load_from_buf(&buf).unwrap();
    assert_eq!(epl.names_list, vec!["one".to_string(), "two".to_string()]);
}

#[test]
fn vertex_colors_by_quadruple() {
    let buf = [2u8, 0, 1, 2, 3, 4, 5, 6, 7, 8];
    let mut vxc = VertexColors::default();
    vxc.load_from_buf(&buf).unwrap();
    assert_eq!(vxc.colors, vec![[1, 2, 3, 4], [5, 6, 7, 8]]);
    let e = vxc.load_from_buf(&[1, 0, 1]).unwrap_err();
    assert_eq!(e.message(), "failed to fill whole buffer");
}

#[test]
fn texture_metadata_forms() {
    let mut t = TextureMetadataObject::default();
    t.load_from_buf(&[1, 2, 3]).unwrap();
    assert!(matches!(t.meta, TextureMetaType::Passthrough));
    let mut buf = [0u8; 10];
    buf[4] = 0x00;
    buf[5] = 0x01;
    buf[6] = 0x80;
    buf[9] = 0x0A;
    t.load_from_buf(&buf).unwrap();
    let m = t.meta.as_metadata().unwrap();
    assert_eq!(m.width, 256);
    assert_eq!(m.height, 128);
    assert_eq!(m.format, TextureFormat::Dxt5);
    buf[9] = 0x07;
    let e = t.load_from_buf(&buf).unwrap_err();
    assert_eq!(e.message(), "unknown texture format: 0x07");
}

#[test]
fn texture_format_ids() {
    assert_eq!(TextureFormat::from_id(0x0F), TextureFormat::Gray);
    assert_eq!(TextureFormat::from_id(0x08), TextureFormat::Dxt1);
    assert_eq!(TextureFormat::from_id(0x04), TextureFormat::Bgra32);
    assert_eq!(TextureFormat::from_id(0x33), TextureFormat::Unknown);
}

#[test]
fn object_load_then_unload() {
    let e = entry(0x42, 42, "script");
    let mut obj = YetiObject::from_file_entry(&e);
    assert_eq!(obj.get_name(), "script");
    assert_eq!(obj.get_key(), 0x42);
    let mut buf = u32le(1).to_vec();
    buf.extend_from_slice(&u32le(0x77));
    buf.extend_from_slice(b"code");
    assert!(!obj.load_refused(&buf));
    obj.load_from_buf(&buf).unwrap();
    assert!(obj.is_loaded());
    assert_eq!(obj.load_count(), 1);
    assert_eq!(obj.get_references(), &vec![0x77]);
    match obj.get_archetype() {
        ObjectArchetype::Script(s) => assert_eq!(s.buffer, b"code".to_vec()),
        _ => panic!("a script was expected"),
    }
    obj.unload();
    assert!(!obj.is_loaded());
    assert!(obj.get_references().is_empty());
    match obj.get_archetype() {
        ObjectArchetype::Script(s) => assert!(s.buffer.is_empty()),
        _ => panic!("a script was expected"),
    }
    obj.unload();
    assert_eq!(obj.load_count(), 0);
}

#[test]
fn extra_load_undone_by_unload() {
    let e = entry(0x42, 42, "script");
    let mut obj = YetiObject::from_file_entry(&e);
    obj.load_from_buf(&u32le(0)).unwrap();
    obj.add_ref();
    assert_eq!(obj.load_count(), 2);
    obj.unload();
    assert_eq!(obj.load_count(), 1);
    assert!(obj.is_loaded());
}

#[test]
fn failed_load_keeps_error_with_key() {
    let e = entry(0x55, 32, "tex");
    let mut obj = YetiObject::from_file_entry(&e);
    let mut buf = u32le(0).to_vec();
    buf.extend_from_slice(&[0, 0, 0, 0, 1, 0, 1, 0, 0, 0x99]);
    let err = obj.load_from_buf(&buf).unwrap_err();
    assert_eq!(err.message(), "unknown texture format: 0x99");
    assert_eq!(err.key(), YKey(0x55));
    assert!(!obj.is_loaded());
    assert_eq!(obj.load_error.as_ref().unwrap().message(), "unknown texture format: 0x99");
}

#[test]
fn refused_bytes() {
    let e = entry(0x42, 42, "script");
    let obj = YetiObject::from_file_entry(&e);
    assert!(obj.load_refused(&[1, 0]));
    assert!(obj.load_refused(&[2, 0, 0, 0, 1, 0, 0, 0]));
}

#[test]
fn object_types_round_trip() {
    assert_eq!(ObjectType::from_repr(42), Some(ObjectType::zc));
    assert_eq!(ObjectType::zc.repr(), 42);
    assert_eq!(ObjectType::tga.name(), "tga");
    assert_eq!(ObjectType::tga.name_bytes(), b"tga".to_vec());
    assert_eq!(ObjectType::from_repr(149), None);
    for v in 0u16..149 {
        assert_eq!(ObjectType::from_repr(v).unwrap().repr(), v);
    }
    assert!(ObjectType::tga.is_tga());
    assert!(ObjectType::gao.is_gao());
    assert!(!ObjectType::zc.is_gao());
}

#[test]
fn zone_type_numbers() {
    for b in 0u8..6 {
        assert_eq!(zone_type_to_id(zone_type_from_id(b)), b);
    }
    assert!(matches!(zone_type_from_id(9), ZoneType::Point));
}

#[test]
fn identity_flags_bits() {
    let f = IdentityFlags(IdentityFlags::HAS_VISUAL | IdentityFlags::ENTITY_FLAG);
    assert!(f.contains(IdentityFlags::HAS_VISUAL));
    assert!(!f.contains(IdentityFlags::HAS_ANIM));
    assert_eq!(f.bits(), 0x101);
    assert_eq!(IdentityFlags::empty().bits(), 0);
    assert_eq!(IdentityFlags::from_bits(0x8000_0000).unwrap().bits(), 0x8000_0000);
}

fn binary_consts(items: &[(u8, &str, Vec<u8>)]) -> Vec<u8> {
    let mut v = vec![0u8; 8];
    v.extend_from_slice(&u32le(items.len() as u32));
    for (t, n, val) in items {
        v.push(*t);
        v.extend_from_slice(n.as_bytes());
        v.push(0);
        v.extend_from_slice(val);
    }
    v
}

#[test]
fn const_list_files_by_path() {
    let buf = binary_consts(&[
        (1, "top", 5i32.to_le_bytes().to_vec()),
        (2, "a\\b\\speed", 1.5f32.to_bits().to_le_bytes().to_vec()),
        (1, "a\\count", (-3i32).to_le_bytes().to_vec()),
    ]);
    let mut list = AIConstList::default();
    list.load_from_buf(&buf).unwrap();
    let root = &mut list.root_node;
    assert_eq!(root.values.len(), 1);
    assert_eq!(root.values[0].get_name(), "top");
    assert!(root.contains_node("a"));
    assert!(!root.contains_node("b"));
    let a = root.get_sub_node_from_name("a").unwrap();
    assert_eq!(a.get_name(), "a");
    assert_eq!(a.values.len(), 1);
    match &a.values[0] {
        ConstValue::Int(n, v) => {
            assert_eq!(n, "count");
            assert_eq!(*v, -3);
        },
        _ => panic!("an integer was expected"),
    }
    let b = a.get_sub_node_from_name("b").unwrap();
    match &b.values[0] {
        ConstValue::Float(n, v) => {
            assert_eq!(n, "speed");
            assert_eq!(f32::from_bits(*v), 1.5);
        },
        _ => panic!("a float was expected"),
    }
}

#[test]
fn const_list_errors() {
    let buf = binary_consts(&[(7, "x", vec![])]);
    let mut list = AIConstList::default();
    let e = list.load_from_buf(&buf).unwrap_err();
    assert_eq!(e.message(), "unknown ai const type 7");
    let mut xml = b"<AIConst".to_vec();
    xml.extend_from_slice(b"List>");
    let e = list.load_from_buf(&xml).unwrap_err();
    assert_eq!(e.message(), "xml const lists are loaded separately");
    let e = list.load_from_buf(&[0u8; 10]).unwrap_err();
    assert_eq!(e.message(), "failed to fill whole buffer");
}

#[test]
fn tree_nodes_insert_once() {
    let mut root = ConstTreeNode::default();
    root.get_or_insert_node("x").insert_const(&ConstValue::Int("v".to_string(), 1));
    root.get_or_insert_node("x").insert_const(&ConstValue::Int("w".to_string(), 2));
    assert!(root.contains_node("x"));
    assert_eq!(root.nodes.len(), 1);
    assert_eq!(root.nodes[0].values.len(), 2);
    assert!(root.get_sub_node_from_name("y").is_none());
}

#[test]
fn insert_consts_in_order() {
    let mut list = AIConstList::default();
    list.insert_consts(&vec![
        ConstValue::Int("p\\q".to_string(), 1),
        ConstValue::Vec("p\\r".to_string(), RawVec3 { x: 1, y: 2, z: 3 }),
    ]);
    let p = list.root_node.get_sub_node_from_name("p").unwrap();
    assert_eq!(p.values.len(), 2);
    assert_eq!(p.values[0].get_name(), "q");
    assert_eq!(p.values[1].get_name(), "r");
}

fn start(attrs: &[&str]) -> XmlConstEvent {
    XmlConstEvent::Start(attrs.iter().map(|s| s.to_string()).collect())
}

fn text(s: &str) -> XmlConstEvent {
    XmlConstEvent::Text(s.to_string(), s.parse::<i32>().ok(), s.parse::<f32>().ok().map(|f| f.to_bits()))
}

#[test]
fn xml_events_make_consts() {
    let events = vec![
        start(&[]),
        start(&["lives", "INT"]),
        text("3"),
        XmlConstEvent::Other,
        start(&["gravity", "FLT"]),
        text("9.5"),
        start(&["skip", "STR"]),
        text("ignored"),
        start(&["pos", "VEC"]),
        start(&[]),
        text("1"),
        text("2"),
        text("3"),
    ];
    assert!(!AIConstList::xml_events_panic(&events));
    let consts = AIConstList::load_xml_consts(&events);
    assert_eq!(consts.len(), 3);
    match &consts[0] {
        ConstValue::Int(n, v) => {
            assert_eq!(n, "lives");
            assert_eq!(*v, 3);
        },
        _ => panic!("an integer was expected"),
    }
    match &consts[1] {
        ConstValue::Float(n, v) => {
            assert_eq!(n, "gravity");
            assert_eq!(f32::from_bits(*v), 9.5);
        },
        _ => panic!("a float was expected"),
    }
    match &consts[2] {
        ConstValue::Vec(n, v) => {
            assert_eq!(n, "pos");
            assert_eq!(f32::from_bits(v.x), 1.0);
            assert_eq!(f32::from_bits(v.y), 2.0);
            assert_eq!(f32::from_bits(v.z), 3.0);
        },
        _ => panic!("a vector was expected"),
    }
}

#[test]
fn xml_events_that_panic() {
    let events = vec![start(&[]), start(&["only_name"])];
    assert!(AIConstList::xml_events_panic(&events));
    let events = vec![start(&[]), start(&["n", "INT"]), text("x")];
    assert!(AIConstList::xml_events_panic(&events));
}

#[test]
fn xml_reader_steps() {
    let mut r = XmlConstReader::new();
    assert_eq!(r.state, XmlReadState::Begin);
    let ev = start(&[]);
    assert!(r.step_ok(&ev));
    r.step(&ev);
    assert_eq!(r.state, XmlReadState::NextConst);
    let ev = start(&["v", "VEC"]);
    r.step(&ev);
    assert_eq!(r.state, XmlReadState::ReadVec);
    assert_eq!(r.name, "v");
}

fn shader_bytes(tail: &[u8]) -> Vec<u8> {
    let mut v = vec![0u8; 68];
    v[0] = 3;
    v[2] = 1;
    let mut graph = vec![0u8; 24];
    graph[0] = 0x11;
    v.extend_from_slice(&graph);
    v.extend_from_slice(tail);
    v
}

#[test]
fn shader_with_one_empty_graph() {
    let buf = shader_bytes(&[0, 0, 0, 0]);
    assert!(!shader_load_panics(&buf));
    let mut shd = VisualShader::default();
    shd.load_from_buf(&buf).unwrap();
    assert_eq!(shd.version, 3);
    assert_eq!(shd.flags, 1);
    assert_eq!(shd.graphs.len(), 1);
    assert_eq!(shd.graphs[0].unk_01, 0x11);
    shd.unload();
    assert!(shd.graphs.is_empty());
}

#[test]
fn shader_graphs_that_loop_back_never_end() {
    let buf = shader_bytes(&[0, 0, 0, 0, b'e', b'S', b'I', b'D']);
    assert!(shader_load_panics(&buf));
}

#[test]
fn shader_too_short() {
    let mut shd = VisualShader::default();
    assert!(!shader_load_panics(&[1, 0, 2]));
    let e = shd.load_from_buf(&[1, 0, 2]).unwrap_err();
    assert_eq!(e.message(), "failed to fill whole buffer");
    assert_eq!(shd.version, 1);
}

#[test]
fn bone_parent_conversions() {
    use_bone_parent(Some(3));
    use_bone_parent(None);
}

fn use_bone_parent(o: Option<u8>) {
    let b = BoneParent::from(o);
    assert_eq!(Option::<u8>::from(b), o);
    match o {
        Some(v) => assert_eq!(BoneParent(Some(v)).to_string(), v.to_string()),
        None => assert_eq!(BoneParent(None).to_string(), "None"),
    }
}

fn skeleton_bytes(parents: &[u8], names: &[&[u8]]) -> Vec<u8> {
    let mut v = vec![1u8, parents.len() as u8, 0];
    for p in parents {
        v.extend_from_slice(&[9, 9, 9, 9]);
        v.push(*p);
        v.extend_from_slice(&[0u8; 63]);
        v.extend_from_slice(&[0u8; 128]);
    }
    for n in names {
        v.push(n.len() as u8 + 1);
        v.extend_from_slice(n);
        v.push(0);
    }
    v
}

#[test]
fn skeleton_bones_and_children() {
    let buf = skeleton_bytes(&[255, 0, 0], &[b"root", b"arm", b"leg"]);
    assert!(!skeleton_load_panics(&buf));
    let mut ske = Skeleton::default();
    ske.load_from_buf(&buf).unwrap();
    assert_eq!(ske.num_bones, 3);
    assert_eq!(ske.bones[0].get_name(), "root");
    assert_eq!(ske.bones[2].get_name(), "leg");
    assert_eq!(ske.bones[0].parent, BoneParent(None));
    assert_eq!(ske.bones[1].parent, BoneParent(Some(0)));
    assert_eq!(ske.bones[0].children, vec![1, 2]);
    assert!(ske.bones[1].children.is_empty());
    assert_eq!(ske.bones[1].unk_01, [9, 9, 9, 9]);
}

#[test]
fn skeleton_loads_that_abort() {
    let mut zero_len = skeleton_bytes(&[255], &[]);
    zero_len.push(0);
    assert!(skeleton_load_panics(&zero_len));
    let bad_parent = skeleton_bytes(&[255, 7], &[b"a", b"b"]);
    assert!(skeleton_load_panics(&bad_parent));
    let short = skeleton_bytes(&[255], &[]);
    assert!(!skeleton_load_panics(&short));
    let e = Skeleton::default().load_from_buf(&short).unwrap_err();
    assert_eq!(e.message(), "failed to fill whole buffer");
}

fn float_readings(raws: &[XmlRawEvent]) -> Vec<Option<u32>> {
    raws.iter()
        .map(|e| match e {
            XmlRawEvent::Text(s) => s.parse::<f32>().ok().map(|f| f.to_bits()),
            _ => None,
        })
        .collect()
}

#[test]
fn xml_const_events_read_a_document() {
    let (raws, error) = xml_const_events(b"<List><C name=\"lives\" type=\"INT\">3</C></List>");
    assert!(error.is_none());
    assert_eq!(raws.len(), 7);
    assert!(matches!(raws[0], XmlRawEvent::Other));
    match &raws[1] {
        XmlRawEvent::Start(a) => assert!(a.is_empty()),
        _ => panic!("the list's start was expected"),
    }
    match &raws[2] {
        XmlRawEvent::Start(a) => assert_eq!(a, &vec!["lives".to_string(), "INT".to_string()]),
        _ => panic!("the constant's start was expected"),
    }
    match &raws[3] {
        XmlRawEvent::Text(t) => assert_eq!(t, "3"),
        _ => panic!("the constant's text was expected"),
    }
    assert!(matches!(raws[4], XmlRawEvent::Other));
    assert!(matches!(raws[6], XmlRawEvent::Other));
}

#[test]
fn xml_const_events_refuse_malformed_xml() {
    let (raws, error) = xml_const_events(b"<List><C></List>");
    assert!(error.is_some());
    assert_eq!(raws.len(), 3);
    assert!(matches!(raws[0], XmlRawEvent::Other));
    assert!(matches!(raws[1], XmlRawEvent::Start(_)));
    assert!(matches!(raws[2], XmlRawEvent::Start(_)));
    let (_, error) = xml_const_events(b"<List>");
    assert!(error.is_some());
}

#[test]
fn xml_readings_give_integer_and_float() {
    let (raws, _) = xml_const_events(b"<a><b>12</b><c>2.5</c><d>x</d></a>");
    let floats = float_readings(&raws);
    let events = with_readings(&raws, &floats);
    assert_eq!(events.len(), raws.len());
    let texts: Vec<(String, Option<i32>, Option<u32>)> = events
        .iter()
        .filter_map(|e| match e {
            XmlConstEvent::Text(t, i, f) => Some((t.clone(), *i, *f)),
            _ => None,
        })
        .collect();
    assert_eq!(texts.len(), 3);
    assert_eq!(texts[0], ("12".to_string(), Some(12), Some(12.0f32.to_bits())));
    assert_eq!(texts[1], ("2.5".to_string(), None, Some(2.5f32.to_bits())));
    assert_eq!(texts[2], ("x".to_string(), None, None));
}

#[test]
fn xml_document_makes_consts() {
    let doc = b"<List><C name=\"lives\" type=\"INT\">3</C><C name=\"g\" type=\"FLT\">9.5</C></List>";
    let (raws, _) = xml_const_events(doc);
    let events = with_readings(&raws, &float_readings(&raws));
    assert!(!AIConstList::xml_events_panic(&events));
    let consts = AIConstList::load_xml_consts(&events);
    assert_eq!(consts.len(), 2);
    match &consts[0] {
        ConstValue::Int(n, v) => {
            assert_eq!(n, "lives");
            assert_eq!(*v, 3);
        },
        _ => panic!("an integer was expected"),
    }
    match &consts[1] {
        ConstValue::Float(n, v) => {
            assert_eq!(n, "g");
            assert_eq!(f32::from_bits(*v), 9.5);
        },
        _ => panic!("a float was expected"),
    }
}

#[test]
fn xml_integer_readings_follow_std() {
    let texts = ["+7", "-2147483648", "2147483647", "2147483648", "-2147483649", "-", "+", "", " 1", "007", "-0", "1x"];
    let raws: Vec<XmlRawEvent> = texts.iter().map(|t| XmlRawEvent::Text(t.to_string())).collect();
    let floats = vec![None; raws.len()];
    let events = with_readings(&raws, &floats);
    for (t, e) in texts.iter().zip(events.iter()) {
        match e {
            XmlConstEvent::Text(s, i, _) => {
                assert_eq!(s, t);
                assert_eq!(*i, t.parse::<i32>().ok(), "text {:?}", t);
            },
            _ => panic!("a text was expected"),
        }
    }
}
