use vstd::prelude::*;
use vstd::string::StringExecFns;
use std::collections::HashMap;
use crate::error::{LoadError, YetiIOError, err_view, unset_key};
use crate::metadata::{SegmentHeader, BigfileHeader, FileEntry, FolderEntry, YKey, c_string_ok, c_string_text, is_c_string};
use crate::text::{first_zero, lemma_first_zero};
use crate::object_type::ObjectType;
use crate::objects::{YetiObject, YetiObjectView, yeti_load, yeti_load_ok, yeti_unload, result_view};
use crate::objects::{xml_list_pending, xml_list_finish, error_message};
use crate::objects::xml_consts::{XmlConstEvent, xml_run_ok};
use crate::objects::archetype::archetype_of_type;
use crate::bytes::{ByteReader, le_i32, copy_range, unwrap_read};
use vstd::set_lib::{set_int_range, lemma_int_range, lemma_map_size, lemma_len_subset};
use vstd::relations::injective_on;

verus! {

broadcast use vstd::std_specs::hash::group_hash_axioms;

/// The name shown for each type of object, where it has one.
pub open spec fn type_display_name(obj_type: ObjectType) -> Option<Seq<char>> {
    match obj_type {
        ObjectType::ini => Some("Yeti INI"@),
        ObjectType::wor => Some("World"@),
        ObjectType::woc => Some("World Engine Config"@),
        ObjectType::gol => Some("World Game Object List"@),
        ObjectType::wal => Some("World Way List"@),
        ObjectType::lay => Some("World Layer"@),
        ObjectType::pco => Some("Precomputed Occlusion"@),
        ObjectType::gao => Some("Game Object"@),
        ObjectType::way => Some("Way ?"@),
        ObjectType::cur => Some("Curve"@),
        ObjectType::wel => Some("Way External Link"@),
        ObjectType::seq => Some("Sequence"@),
        ObjectType::got => Some("Graphic Object Table"@),
        ObjectType::msh => Some("Mesh Metadata"@),
        ObjectType::vxc => Some("Vertex Colors ?"@),
        ObjectType::mat => Some("Material"@),
        ObjectType::sha => Some("Shader"@),
        ObjectType::tga => Some("Texture Metadata"@),
        ObjectType::ske => Some("Skeleton"@),
        ObjectType::shd => Some("Visual Shader"@),
        ObjectType::dst => Some("DustFX"@),
        ObjectType::cub => Some("Cubemap"@),
        ObjectType::zc => Some("AI Script"@),
        ObjectType::acb => Some("Action Bank"@),
        ObjectType::act => Some("Action"@),
        ObjectType::ani => Some("Animation"@),
        ObjectType::aev => Some("Animation Event"@),
        ObjectType::end => Some("Enumerable Descriptor"@),
        ObjectType::snk => Some("Sound Bank"@),
        ObjectType::sam => Some("Sound Ambience"@),
        ObjectType::sin => Some("Sound INI"@),
        ObjectType::smx => Some("Sound Mix"@),
        ObjectType::svs => Some("Sound Volumetric Object"@),
        ObjectType::ai => Some("AI Model"@),
        ObjectType::aiv => Some("AI Variable"@),
        ObjectType::zon => Some("Zone"@),
        ObjectType::col => Some("Collision List"@),
        ObjectType::cot => Some("Collision Object Table"@),
        ObjectType::ccm => Some("Convex Collision Mesh"@),
        ObjectType::gml => Some("Game Material List"@),
        ObjectType::gmt => Some("Game Material"@),
        ObjectType::dbk => Some("Dynamic Bank"@),
        ObjectType::dbl => Some("Dynamic Bank List"@),
        ObjectType::dbr => Some("Dynamic Bank Reference List"@),
        ObjectType::wil => Some("World Include List"@),
        ObjectType::lab => Some("List Action Bank"@),
        ObjectType::feu => Some("Fire Package"@),
        ObjectType::ffd => Some("Fire Font Package"@),
        ObjectType::top => Some("World Topography"@),
        ObjectType::msd => Some("Mesh Data"@),
        ObjectType::nav => Some("World Nav Data"@),
        ObjectType::cst => Some("AI Const List"@),
        ObjectType::syw => Some("Synapse World ??"@),
        ObjectType::swl => Some("Synapse World List ??"@),
        ObjectType::txd => Some("Texture Data"@),
        ObjectType::fbk => Some("Fire Bank"@),
        ObjectType::eps => Some("AI Editable Param Struct"@),
        ObjectType::epl => Some("AI Editable Param List"@),
        ObjectType::dtb => Some("Data Table"@),
        ObjectType::otf => Some("OTF Font"@),
        ObjectType::ttf => Some("TTF Font"@),
        ObjectType::zar => Some("Zone Array ?"@),
        _ => None,
    }
}

pub fn obj_type_to_name(obj_type: &ObjectType) -> (r: Option<&'static str>)
    ensures
        match r {
            Some(n) => type_display_name(*obj_type) == Some(n@),
            None => type_display_name(*obj_type) is None,
        },
{
    match obj_type {
        ObjectType::ini => Some("Yeti INI"),
        ObjectType::wor => Some("World"),
        ObjectType::woc => Some("World Engine Config"),
        ObjectType::gol => Some("World Game Object List"),
        ObjectType::wal => Some("World Way List"),
        ObjectType::lay => Some("World Layer"),
        ObjectType::pco => Some("Precomputed Occlusion"),
        ObjectType::gao => Some("Game Object"),
        ObjectType::way => Some("Way ?"),
        ObjectType::cur => Some("Curve"),
        ObjectType::wel => Some("Way External Link"),
        ObjectType::seq => Some("Sequence"),
        ObjectType::got => Some("Graphic Object Table"),
        ObjectType::msh => Some("Mesh Metadata"),
        ObjectType::vxc => Some("Vertex Colors ?"),
        ObjectType::mat => Some("Material"),
        ObjectType::sha => Some("Shader"),
        ObjectType::tga => Some("Texture Metadata"),
        ObjectType::ske => Some("Skeleton"),
        ObjectType::shd => Some("Visual Shader"),
        ObjectType::dst => Some("DustFX"),
        ObjectType::cub => Some("Cubemap"),
        ObjectType::zc => Some("AI Script"),
        ObjectType::acb => Some("Action Bank"),
        ObjectType::act => Some("Action"),
        ObjectType::ani => Some("Animation"),
        ObjectType::aev => Some("Animation Event"),
        ObjectType::end => Some("Enumerable Descriptor"),
        ObjectType::snk => Some("Sound Bank"),
        ObjectType::sam => Some("Sound Ambience"),
        ObjectType::sin => Some("Sound INI"),
        ObjectType::smx => Some("Sound Mix"),
        ObjectType::svs => Some("Sound Volumetric Object"),
        ObjectType::ai => Some("AI Model"),
        ObjectType::aiv => Some("AI Variable"),
        ObjectType::zon => Some("Zone"),
        ObjectType::col => Some("Collision List"),
        ObjectType::cot => Some("Collision Object Table"),
        ObjectType::ccm => Some("Convex Collision Mesh"),
        ObjectType::gml => Some("Game Material List"),
        ObjectType::gmt => Some("Game Material"),
        ObjectType::dbk => Some("Dynamic Bank"),
        ObjectType::dbl => Some("Dynamic Bank List"),
        ObjectType::dbr => Some("Dynamic Bank Reference List"),
        ObjectType::wil => Some("World Include List"),
        ObjectType::lab => Some("List Action Bank"),
        ObjectType::feu => Some("Fire Package"),
        ObjectType::ffd => Some("Fire Font Package"),
        ObjectType::top => Some("World Topography"),
        ObjectType::msd => Some("Mesh Data"),
        ObjectType::nav => Some("World Nav Data"),
        ObjectType::cst => Some("AI Const List"),
        ObjectType::syw => Some("Synapse World ??"),
        ObjectType::swl => Some("Synapse World List ??"),
        ObjectType::txd => Some("Texture Data"),
        ObjectType::fbk => Some("Fire Bank"),
        ObjectType::eps => Some("AI Editable Param Struct"),
        ObjectType::epl => Some("AI Editable Param List"),
        ObjectType::dtb => Some("Data Table"),
        ObjectType::otf => Some("OTF Font"),
        ObjectType::ttf => Some("TTF Font"),
        ObjectType::zar => Some("Zone Array ?"),
        _ => None,
    }
}

/// Where a bigfile's bytes come from: the application provides it (a packed file on disk,
/// say). Nothing is assumed of what it returns.
pub trait BigfileIO: Sized {
    fn create_from_path(path: &str) -> Result<Self, YetiIOError>;

    fn get_path(&self) -> &str;

    fn read_segment_header(&mut self) -> Result<SegmentHeader, YetiIOError>;

    fn read_bigfile_header(&mut self, seg_header: &SegmentHeader) -> Result<BigfileHeader, YetiIOError>;

    fn read_file_table(&mut self, seg_header: &SegmentHeader, bf_header: &BigfileHeader) -> Result<HashMap<u32, FileEntry>, YetiIOError>;

    fn read_folder_table(&mut self, seg_header: &SegmentHeader, bf_header: &BigfileHeader) -> Result<HashMap<u16, FolderEntry>, YetiIOError>;

    fn read_file(&mut self, seg_header: &SegmentHeader, bf_header: &BigfileHeader, entry: &FileEntry) -> Result<Vec<u8>, YetiIOError>;
}

/// A bigfile: its headers, its file and folder tables, one object per file, and for each
/// folder the keys of its files.
pub struct Bigfile<IO: BigfileIO> {
    pub segment_header: SegmentHeader,
    pub bigfile_header: BigfileHeader,
    pub file_table: HashMap<u32, FileEntry>,
    pub object_table: HashMap<u32, YetiObject>,
    pub folder_table: HashMap<u16, FolderEntry>,
    pub io: IO,
    pub file_list_map: HashMap<u16, Vec<u32>>,
}

/// One more load can hold the object.
fn obj_can_add_ref(obj: &YetiObject) -> (r: bool)
    ensures
        r == (obj@.load_refs < u32::MAX),
{
    obj.load_count() < u32::MAX
}

/// The error for a key without a pending XML constant list.
pub open spec fn not_pending_message() -> Seq<char> {
    "no xml const list waits to be loaded under this key"@
}

pub open spec fn not_found_message() -> Seq<char> {
    "file not found!"@
}

pub open spec fn refused_message() -> Seq<char> {
    "object data cannot be loaded safely"@
}

pub open spec fn too_many_loads_message() -> Seq<char> {
    "too many loads of one object"@
}

/// A fresh object for a file entry.
pub open spec fn fresh_object(e: FileEntry) -> YetiObjectView {
    YetiObjectView {
        load_refs: 0,
        key: e.key.0,
        name: c_string_text(e.name@),
        references: Seq::empty(),
        archetype: archetype_of_type(e.object_type),
        load_error: None,
    }
}

pub open spec fn fresh_objects(ft: Map<u32, FileEntry>) -> Map<u32, YetiObjectView> {
    ft.map_values(|e: FileEntry| fresh_object(e))
}

/// Every file's name is a zero-terminated UTF-8 string.
pub open spec fn names_ok(ft: Map<u32, FileEntry>) -> bool {
    forall|k: u32| #[trigger] ft.contains_key(k) ==> c_string_ok(ft[k].name@)
}

/// Byte strings in lexicographic order (a prefix comes first), as `str` orders them.
pub open spec fn lex_le(a: Seq<u8>, b: Seq<u8>) -> bool
    decreases a.len(),
{
    if a.len() == 0 {
        true
    } else if b.len() == 0 {
        false
    } else if a[0] != b[0] {
        a[0] < b[0]
    } else {
        lex_le(a.drop_first(), b.drop_first())
    }
}

pub proof fn lemma_lex_total(a: Seq<u8>, b: Seq<u8>)
    ensures
        lex_le(a, b) || lex_le(b, a),
    decreases a.len(),
{
    if a.len() > 0 && b.len() > 0 && a[0] == b[0] {
        lemma_lex_total(a.drop_first(), b.drop_first());
    }
}

pub proof fn lemma_lex_trans(a: Seq<u8>, b: Seq<u8>, c: Seq<u8>)
    requires
        lex_le(a, b),
        lex_le(b, c),
    ensures
        lex_le(a, c),
    decreases a.len(),
{
    if a.len() > 0 && b.len() > 0 && c.len() > 0 && a[0] == b[0] && b[0] == c[0] {
        lemma_lex_trans(a.drop_first(), b.drop_first(), c.drop_first());
    }
}

/// The bytes of a file's name, up to its first zero.
pub open spec fn name_key(e: FileEntry) -> Seq<u8> {
    e.name@.subrange(0, first_zero(e.name@, 0))
}

/// The keys of the files in a folder.
pub open spec fn folder_keys(ft: Map<u32, FileEntry>, f: u16) -> Set<u32> {
    Set::new(|k: u32| ft.contains_key(k) && ft[k].parent_folder == f)
}

/// The keys are files of the table, in the order of their names.
pub open spec fn sorted_by_name(ft: Map<u32, FileEntry>, l: Seq<u32>) -> bool {
    &&& forall|i: int| 0 <= i < l.len() ==> #[trigger] ft.contains_key(l[i])
    &&& forall|i: int, j: int| 0 <= i < j < l.len() ==> lex_le(name_key(ft[l[i]]), name_key(ft[l[j]]))
}

/// For each folder that holds files, the keys of its files, once each, in the order of
/// their names; no list for the other folders.
pub open spec fn file_lists_ok(ft: Map<u32, FileEntry>, flm: Map<u16, Vec<u32>>) -> bool {
    &&& forall|f: u16| #[trigger] flm.contains_key(f) <==> exists|k: u32| #[trigger] ft.contains_key(k) && ft[k].parent_folder == f
    &&& forall|f: u16| #[trigger] flm.contains_key(f) ==> flm[f]@.to_set() == folder_keys(ft, f)
        && flm[f]@.no_duplicates() && sorted_by_name(ft, flm[f]@)
}

/// The position of the first zero byte, or the length when there is none.
fn c_string_len(bytes: &[u8]) -> (r: usize)
    ensures
        r == first_zero(bytes@, 0),
        r <= bytes@.len(),
{
    proof {
        lemma_first_zero(bytes@, 0);
    }
    let mut i: usize = 0;
    while i < bytes.len() && bytes[i] != 0
        invariant
            0 <= i <= first_zero(bytes@, 0),
            first_zero(bytes@, 0) <= bytes@.len(),
            first_zero(bytes@, 0) < bytes@.len() ==> bytes@[first_zero(bytes@, 0)] == 0,
            forall|j: int| 0 <= j < first_zero(bytes@, 0) ==> bytes@[j] != 0,
        decreases bytes@.len() - i,
    {
        i = i + 1;
    }
    i
}

/// Compares the first `na` bytes of `a` with the first `nb` bytes of `b`.
fn lex_le_prefix(a: &[u8], na: usize, b: &[u8], nb: usize) -> (r: bool)
    requires
        na <= a@.len(),
        nb <= b@.len(),
    ensures
        r == lex_le(a@.subrange(0, na as int), b@.subrange(0, nb as int)),
{
    let ghost whole = lex_le(a@.subrange(0, na as int), b@.subrange(0, nb as int));
    let mut i: usize = 0;
    while i < na && i < nb && a[i] == b[i]
        invariant
            na <= a@.len(),
            nb <= b@.len(),
            i <= na,
            i <= nb,
            whole == lex_le(a@.subrange(i as int, na as int), b@.subrange(i as int, nb as int)),
        decreases na - i,
    {
        assert(a@.subrange(i as int, na as int).drop_first() =~= a@.subrange(i + 1, na as int));
        assert(b@.subrange(i as int, nb as int).drop_first() =~= b@.subrange(i + 1, nb as int));
        i = i + 1;
    }
    if i == na {
        true
    } else if i == nb {
        false
    } else {
        a[i] < b[i]
    }
}

/// The name of file `x` comes no later than that of file `y`.
fn names_le(x: &FileEntry, y: &FileEntry) -> (r: bool)
    ensures
        r == lex_le(name_key(*x), name_key(*y)),
{
    let nx = c_string_len(&x.name);
    let ny = c_string_len(&y.name);
    lex_le_prefix(&x.name, nx, &y.name, ny)
}

/// Putting `x` between the keys whose names come no later and those whose names come no
/// earlier keeps the keys in order.
proof fn lemma_insert_sorted(ft: Map<u32, FileEntry>, l: Seq<u32>, p: int, x: u32)
    requires
        0 <= p <= l.len(),
        sorted_by_name(ft, l),
        ft.contains_key(x),
        forall|j: int| 0 <= j < p ==> lex_le(name_key(ft[l[j]]), name_key(ft[x])),
        forall|j: int| p <= j < l.len() ==> lex_le(name_key(ft[x]), name_key(ft[l[j]])),
    ensures
        sorted_by_name(ft, l.insert(p, x)),
{
    let m = l.insert(p, x);
    assert forall|i: int| 0 <= i < m.len() implies #[trigger] ft.contains_key(m[i]) by {
        if i < p {
            assert(m[i] == l[i]);
        } else if i > p {
            assert(m[i] == l[i - 1]);
        }
    }
    assert forall|i: int, j: int| 0 <= i < j < m.len() implies lex_le(name_key(ft[m[i]]), name_key(ft[m[j]])) by {
        if j < p {
            assert(m[i] == l[i] && m[j] == l[j]);
        } else if j == p {
            assert(m[i] == l[i]);
        } else if i < p {
            assert(m[i] == l[i] && m[j] == l[j - 1]);
        } else if i == p {
            assert(m[j] == l[j - 1]);
        } else {
            assert(m[i] == l[i - 1] && m[j] == l[j - 1]);
        }
    }
}

/// Inserting an element adds it to the set of elements, and keeps the elements distinct
/// when it was not there.
proof fn lemma_insert_to_set(l: Seq<u32>, p: int, x: u32)
    requires
        0 <= p <= l.len(),
    ensures
        l.insert(p, x).to_set() == l.to_set().insert(x),
        l.no_duplicates() && !l.contains(x) ==> l.insert(p, x).no_duplicates(),
{
    l.insert_ensures(p, x);
    let m = l.insert(p, x);
    assert forall|y: u32| m.to_set().contains(y) implies l.to_set().insert(x).contains(y) by {
        let i = choose|i: int| 0 <= i < m.len() && m[i] == y;
        if i < p {
            assert(l[i] == y);
        } else if i > p {
            assert(l[i - 1] == y);
        }
    }
    assert forall|y: u32| l.to_set().insert(x).contains(y) implies m.to_set().contains(y) by {
        if y == x {
            assert(m[p] == x);
        } else {
            let i = choose|i: int| 0 <= i < l.len() && l[i] == y;
            if i < p {
                assert(m[i] == y);
            } else {
                assert(m[i + 1] == y);
            }
        }
    }
    assert(m.to_set() =~= l.to_set().insert(x));
    if l.no_duplicates() && !l.contains(x) {
        assert forall|i: int, j: int| 0 <= i < m.len() && 0 <= j < m.len() && i != j implies m[i] != m[j] by {
            let li = if i < p { i } else { i - 1 };
            let lj = if j < p { j } else { j - 1 };
            if i == p {
                assert(l[lj] == m[j]);
            } else if j == p {
                assert(l[li] == m[i]);
            } else {
                assert(l[li] == m[i] && l[lj] == m[j]);
            }
        }
    }
}

/// Sorts keys of files by their names (insertion, keeping equal names in order).
fn sort_keys_by_name(keys: &Vec<u32>, ft: &HashMap<u32, FileEntry>) -> (r: Vec<u32>)
    requires
        forall|i: int| 0 <= i < keys@.len() ==> #[trigger] ft@.contains_key(keys@[i]),
        keys@.no_duplicates(),
    ensures
        r@.to_set() == keys@.to_set(),
        r@.no_duplicates(),
        sorted_by_name(ft@, r@),
{
    let mut out: Vec<u32> = Vec::new();
    let mut i: usize = 0;
    while i < keys.len()
        invariant
            i <= keys@.len(),
            forall|j: int| 0 <= j < keys@.len() ==> #[trigger] ft@.contains_key(keys@[j]),
            keys@.no_duplicates(),
            out@.to_set() == keys@.subrange(0, i as int).to_set(),
            out@.no_duplicates(),
            sorted_by_name(ft@, out@),
        decreases keys@.len() - i,
    {
        let x = keys[i];
        let ex = match ft.get(&x) {
            Some(e) => e,
            None => {
                return out;
            },
        };
        let mut p: usize = 0;
        let mut go = true;
        while go && p < out.len()
            invariant
                p <= out@.len(),
                ft@.contains_key(x),
                *ex == ft@[x],
                sorted_by_name(ft@, out@),
                forall|j: int| 0 <= j < p ==> lex_le(name_key(ft@[out@[j]]), name_key(ft@[x])),
                !go ==> p < out@.len() && !lex_le(name_key(ft@[out@[p as int]]), name_key(ft@[x])),
            decreases out@.len() - p + (if go { 1int } else { 0int }),
        {
            match ft.get(&out[p]) {
                Some(ey) => {
                    if names_le(ey, ex) {
                        p = p + 1;
                    } else {
                        go = false;
                    }
                },
                None => {
                    p = p + 1;
                },
            }
        }
        proof {
            assert forall|j: int| p <= j < out@.len() implies lex_le(name_key(ft@[x]), name_key(ft@[out@[j]])) by {
                if p < out@.len() {
                    lemma_lex_total(name_key(ft@[out@[p as int]]), name_key(ft@[x]));
                    if j > p {
                        lemma_lex_trans(name_key(ft@[x]), name_key(ft@[out@[p as int]]), name_key(ft@[out@[j]]));
                    }
                }
            }
        }
        proof {
            lemma_insert_sorted(ft@, out@, p as int, x);
        }
        let ghost before = out@;
        out.insert(p, x);
        proof {
            assert(keys@.subrange(0, i + 1) =~= keys@.subrange(0, i as int).push(x));
            assert(!before.contains(x)) by {
                if before.contains(x) {
                    assert(keys@.subrange(0, i as int).to_set().contains(x));
                    let j = choose|j: int| 0 <= j < i && keys@.subrange(0, i as int)[j] == x;
                    assert(keys@[j] == keys@[i as int]);
                }
            }
            lemma_insert_to_set(before, p as int, x);
            keys@.subrange(0, i as int).lemma_push_to_set_commute(x);
        }
        i = i + 1;
    }
    assert(keys@.subrange(0, keys@.len() as int) =~= keys@);
    out
}

/// The groups are those of the files seen: each holds, once, the keys of the seen files
/// of its folder.
pub open spec fn groups_ok(ft: Map<u32, FileEntry>, g: Map<u16, Vec<u32>>) -> bool {
    &&& forall|f: u16| #[trigger] g.contains_key(f) <==> exists|k: u32| #[trigger] ft.contains_key(k) && ft[k].parent_folder == f
    &&& forall|f: u16| #[trigger] g.contains_key(f) ==> g[f]@.to_set() == folder_keys(ft, f) && g[f]@.no_duplicates()
        && forall|i: int| 0 <= i < g[f]@.len() ==> #[trigger] ft.contains_key(g[f]@[i])
}

/// The keys of the files, grouped by folder.
fn group_by_folder(file_table: &HashMap<u32, FileEntry>) -> (r: HashMap<u16, Vec<u32>>)
    ensures
        groups_ok(file_table@, r@),
{
    let ghost ft = file_table@;
    let mut groups: HashMap<u16, Vec<u32>> = HashMap::new();
    for kv in it: file_table.iter()
        invariant
            ft == file_table@,
            forall|i: int| 0 <= i < it.seq().len() ==> ft.contains_key(*it.seq()[i].0) && ft[*it.seq()[i].0] == *it.seq()[i].1,
            it.seq().no_duplicates(),
            forall|k: u32| #[trigger] ft.contains_key(k) ==> exists|i: int| 0 <= i < it.seq().len() && *it.seq()[i].0 == k,
            groups_ok(ft.restrict(Set::new(|k: u32| exists|i: int| 0 <= i < it.index() && *it.seq()[i].0 == k)), groups@),
            it.index() == it.seq().len() ==> groups_ok(ft, groups@),
    {
        let (k, e) = kv;
        let ghost i0 = it.index();
        let ghost seen = Set::new(|k2: u32| exists|i: int| 0 <= i < i0 && *it.seq()[i].0 == k2);
        let ghost seen2 = Set::new(|k2: u32| exists|i: int| 0 <= i < i0 + 1 && *it.seq()[i].0 == k2);
        assert(kv == it.seq()[i0]);
        proof {
            assert(!seen.contains(*k)) by {
                if seen.contains(*k) {
                    let i = choose|i: int| 0 <= i < i0 && *it.seq()[i].0 == *k;
                    assert(it.seq()[i] == it.seq()[i0]);
                }
            }
            assert(seen2 =~= seen.insert(*k)) by {
                assert forall|k2: u32| seen2.contains(k2) implies seen.insert(*k).contains(k2) by {
                    let i = choose|i: int| 0 <= i < i0 + 1 && *it.seq()[i].0 == k2;
                    if i < i0 {
                        assert(seen.contains(k2));
                    }
                }
                assert forall|k2: u32| seen.insert(*k).contains(k2) implies seen2.contains(k2) by {
                    if k2 == *k {
                        assert(*it.seq()[i0].0 == k2);
                    } else {
                        let i = choose|i: int| 0 <= i < i0 && *it.seq()[i].0 == k2;
                        assert(0 <= i < i0 + 1 && *it.seq()[i].0 == k2);
                    }
                }
            }
        }
        let ghost old_groups = groups@;
        let pf = e.parent_folder;
        let mut list = match groups.remove(&pf) {
            Some(l) => l,
            None => Vec::new(),
        };
        let ghost before = list@;
        list.push(*k);
        groups.insert(pf, list);
        proof {
            let ft2 = ft.restrict(seen2);
            let ft1 = ft.restrict(seen);
            before.lemma_push_to_set_commute(*k);
            assert(folder_keys(ft2, pf) =~= folder_keys(ft1, pf).insert(*k));
            assert forall|f: u16| f != pf implies folder_keys(ft2, f) =~= folder_keys(ft1, f) by {}
            assert forall|f: u16| #[trigger] groups@.contains_key(f) <==> exists|k2: u32| #[trigger] ft2.contains_key(k2) && ft2[k2].parent_folder == f by {
                if f == pf {
                    assert(ft2.contains_key(*k));
                } else if groups@.contains_key(f) {
                    assert(old_groups.contains_key(f));
                    let k2 = choose|k2: u32| #[trigger] ft1.contains_key(k2) && ft1[k2].parent_folder == f;
                    assert(ft2.contains_key(k2));
                } else {
                    if exists|k2: u32| #[trigger] ft2.contains_key(k2) && ft2[k2].parent_folder == f {
                        let k2 = choose|k2: u32| #[trigger] ft2.contains_key(k2) && ft2[k2].parent_folder == f;
                        assert(ft1.contains_key(k2));
                    }
                }
            }
            assert(!before.contains(*k)) by {
                if before.contains(*k) {
                    assert(before.to_set().contains(*k));
                }
            }
            assert(list@ == before.push(*k));
            if old_groups.contains_key(pf) {
                assert(before == old_groups[pf]@);
                assert(before.to_set() == folder_keys(ft1, pf));
            } else {
                assert(before =~= Seq::<u32>::empty());
                assert(folder_keys(ft1, pf) =~= Set::<u32>::empty()) by {
                    assert forall|k2: u32| !folder_keys(ft1, pf).contains(k2) by {
                        if folder_keys(ft1, pf).contains(k2) {
                            assert(ft1.contains_key(k2) && ft1[k2].parent_folder == pf);
                        }
                    }
                }
                assert(before.to_set() =~= Set::<u32>::empty());
            }
            assert(groups@[pf]@.to_set() == folder_keys(ft2, pf));
            assert forall|f: u16| #[trigger] groups@.contains_key(f) implies groups@[f]@.to_set() == folder_keys(ft2, f)
                && groups@[f]@.no_duplicates()
                && forall|i: int| 0 <= i < groups@[f]@.len() ==> #[trigger] ft2.contains_key(groups@[f]@[i]) by {
                if f != pf {
                    assert(groups@[f] == old_groups[f]);
                    assert forall|i: int| 0 <= i < groups@[f]@.len() implies #[trigger] ft2.contains_key(groups@[f]@[i]) by {
                        assert(ft1.contains_key(old_groups[f]@[i]));
                    }
                } else {
                    assert forall|i: int| 0 <= i < groups@[f]@.len() implies #[trigger] ft2.contains_key(groups@[f]@[i]) by {
                        if i < before.len() {
                            assert(ft1.contains_key(before[i]));
                        }
                    }
                }
            }
            assert(groups_ok(ft2, groups@));
            assert forall|k2: u32| i0 + 1 == it.seq().len() && ft.contains_key(k2) implies seen2.contains(k2) by {
                let i = choose|i: int| 0 <= i < it.seq().len() && *it.seq()[i].0 == k2;
                assert(0 <= i < i0 + 1);
            }
            assert(i0 + 1 == it.seq().len() ==> ft2 =~= ft);
        }
    }
    groups
}

/// The folders from `f` up to a root: `f`, its parent, and so on, `n` of them, the last
/// one without a parent (0xFFFF); none when the table has no such chain.
pub open spec fn folder_chain(ft: Map<u16, FolderEntry>, f: u16, n: nat) -> Option<Seq<u16>>
    decreases n,
{
    if n == 0 || !ft.contains_key(f) {
        None
    } else if ft[f].parent_folder == 0xFFFF {
        if n == 1 {
            Some(seq![f])
        } else {
            None
        }
    } else {
        match folder_chain(ft, ft[f].parent_folder, (n - 1) as nat) {
            Some(rest) => Some(seq![f] + rest),
            None => None,
        }
    }
}

pub proof fn lemma_folder_chain(ft: Map<u16, FolderEntry>, f: u16, n: nat)
    requires
        folder_chain(ft, f, n) is Some,
    ensures
        ({
            let c = folder_chain(ft, f, n)->0;
            &&& c.len() == n
            &&& n >= 1
            &&& c[0] == f
            &&& forall|i: int| 0 <= i < n ==> #[trigger] ft.contains_key(c[i])
            &&& forall|i: int| 0 <= i < n - 1 ==> ft[c[i]].parent_folder != 0xFFFF && c[i + 1] == ft[#[trigger] c[i]].parent_folder
            &&& ft[c[n - 1]].parent_folder == 0xFFFF
        }),
    decreases n,
{
    if ft[f].parent_folder != 0xFFFF {
        lemma_folder_chain(ft, ft[f].parent_folder, (n - 1) as nat);
        let c = folder_chain(ft, f, n)->0;
        let rest = folder_chain(ft, ft[f].parent_folder, (n - 1) as nat)->0;
        assert forall|i: int| 0 < i < n implies c[i] == rest[i - 1] by {}
        assert forall|i: int| 0 <= i < n - 1 implies ft[c[i]].parent_folder != 0xFFFF && c[i + 1] == ft[#[trigger] c[i]].parent_folder by {
            if i > 0 {
                assert(c[i] == rest[i - 1]);
                assert(c[i + 1] == rest[i]);
            }
        }
    }
}

/// The folders of the chain, root first, each name followed by a slash.
pub open spec fn path_text(ft: Map<u16, FolderEntry>, chain: Seq<u16>) -> Seq<char>
    decreases chain.len(),
{
    if chain.len() == 0 {
        Seq::empty()
    } else {
        path_text(ft, chain.drop_first()) + c_string_text(ft[chain[0]].name@) + "/"@
    }
}

/// `f` reaches a root through folders of the table whose names are zero-terminated UTF-8.
pub open spec fn has_folder_path(ft: Map<u16, FolderEntry>, f: u16) -> bool {
    exists|n: nat| #[trigger] folder_chain(ft, f, n) matches Some(c)
        && forall|i: int| 0 <= i < c.len() ==> c_string_ok(ft[#[trigger] c[i]].name@)
}

pub open spec fn folder_path_len(ft: Map<u16, FolderEntry>, f: u16) -> nat {
    choose|n: nat| #[trigger] folder_chain(ft, f, n) matches Some(c)
        && forall|i: int| 0 <= i < c.len() ==> c_string_ok(ft[#[trigger] c[i]].name@)
}

/// The folder `k` steps up the parent links from `f`.
pub open spec fn ancestor(ft: Map<u16, FolderEntry>, f: u16, k: nat) -> u16
    decreases k,
{
    if k == 0 {
        f
    } else {
        ft[ancestor(ft, f, (k - 1) as nat)].parent_folder
    }
}

/// Stepping up from the parent is stepping up once more.
proof fn lemma_ancestor_shift(ft: Map<u16, FolderEntry>, f: u16, k: nat)
    ensures
        ancestor(ft, ft[f].parent_folder, k) == ancestor(ft, f, k + 1),
    decreases k,
{
    assert(ancestor(ft, f, 0) == f);
    assert(((k + 1) - 1) as nat == k);
    if k > 0 {
        lemma_ancestor_shift(ft, f, (k - 1) as nat);
        assert(((k - 1) as nat + 1) as nat == k);
    }
}

/// The folders of a chain are the ancestors of its first one.
proof fn lemma_chain_ancestors(ft: Map<u16, FolderEntry>, f: u16, n: nat, i: nat)
    requires
        folder_chain(ft, f, n) is Some,
        i < n,
    ensures
        folder_chain(ft, f, n)->0[i as int] == ancestor(ft, f, i),
    decreases i,
{
    lemma_folder_chain(ft, f, n);
    if i > 0 {
        lemma_chain_ancestors(ft, f, n, (i - 1) as nat);
    }
}

/// Two ancestors that are the same folder stay the same going up.
proof fn lemma_ancestor_repeat(ft: Map<u16, FolderEntry>, f: u16, a: nat, b: nat, t: nat)
    requires
        ancestor(ft, f, a) == ancestor(ft, f, b),
    ensures
        ancestor(ft, f, a + t) == ancestor(ft, f, b + t),
    decreases t,
{
    if t > 0 {
        lemma_ancestor_repeat(ft, f, a, b, (t - 1) as nat);
        assert((a + t - 1) as nat == a + (t - 1) as nat);
        assert((b + t - 1) as nat == b + (t - 1) as nat);
    }
}

/// A chain to a root holds each folder once, so it is at most as long as there are keys.
proof fn lemma_chain_short(ft: Map<u16, FolderEntry>, f: u16, n: nat)
    requires
        folder_chain(ft, f, n) is Some,
    ensures
        n <= 65536,
{
    let c = folder_chain(ft, f, n)->0;
    lemma_folder_chain(ft, f, n);
    let g = |i: int| c[i] as int;
    let x = set_int_range(0, n as int);
    lemma_int_range(0, n as int);
    lemma_int_range(0, 65536);
    assert(injective_on(g, x)) by {
        assert forall|a: int, b: int| x.contains(a) && x.contains(b) && #[trigger] g(a) == #[trigger] g(b) implies a == b by {
            if a != b {
                let lo: nat = if a < b { a as nat } else { b as nat };
                let hi: nat = if a < b { b as nat } else { a as nat };
                lemma_chain_ancestors(ft, f, n, lo);
                lemma_chain_ancestors(ft, f, n, hi);
                let t: nat = (n - 1 - hi) as nat;
                lemma_ancestor_repeat(ft, f, lo, hi, t);
                lemma_chain_ancestors(ft, f, n, (n - 1) as nat);
                lemma_chain_ancestors(ft, f, n, lo + t);
                assert(hi + t == n - 1);
                assert(c[(lo + t) as int] == c[n - 1]);
            }
        }
    }
    let y = x.map(g);
    lemma_map_size(x, y, g);
    assert(y.subset_of(set_int_range(0, 65536)));
    lemma_len_subset(y, set_int_range(0, 65536));
}

/// Ancestors that are in the table, with parents up to one without, make a chain.
proof fn lemma_chain_of_ancestors(ft: Map<u16, FolderEntry>, f: u16, k: nat)
    requires
        forall|j: nat| j <= k ==> ft.contains_key(#[trigger] ancestor(ft, f, j)),
        forall|j: nat| j < k ==> ft[#[trigger] ancestor(ft, f, j)].parent_folder != 0xFFFF,
        ft[ancestor(ft, f, k)].parent_folder == 0xFFFF,
    ensures
        folder_chain(ft, f, k + 1) is Some,
    decreases k,
{
    assert(ancestor(ft, f, 0) == f);
    if k > 0 {
        let p = ft[f].parent_folder;
        assert forall|j: nat| j <= (k - 1) as nat implies ft.contains_key(#[trigger] ancestor(ft, p, j)) by {
            lemma_ancestor_shift(ft, f, j);
            assert(ft.contains_key(ancestor(ft, f, j + 1)));
        }
        assert forall|j: nat| j < (k - 1) as nat implies ft[#[trigger] ancestor(ft, p, j)].parent_folder != 0xFFFF by {
            lemma_ancestor_shift(ft, f, j);
            assert(ft[ancestor(ft, f, j + 1)].parent_folder != 0xFFFF);
        }
        lemma_ancestor_shift(ft, f, (k - 1) as nat);
        assert((k - 1) as nat + 1 == k);
        lemma_chain_of_ancestors(ft, p, (k - 1) as nat);
        assert(((k - 1) as nat + 1) as nat == k);
    }
}

/// The bytes of a file's data can be stripped of their references: a count (as a signed
/// 32-bit number) that is not negative, and that many keys.
pub open spec fn refs_strippable(s: Seq<u8>) -> bool {
    s.len() >= 4 && le_i32(s, 0) >= 0 && 4 + 4 * le_i32(s, 0) <= s.len()
}

/// A file's data without its references: the bytes after the count and the keys. `None`
/// where the data cannot hold its references (too few bytes, or a negative count).
pub fn data_after_refs(bytes: &[u8]) -> (r: Option<Vec<u8>>)
    ensures
        r is Some <==> refs_strippable(bytes@),
        r matches Some(v) ==> v@ == bytes@.subrange(4 + 4 * le_i32(bytes@, 0), bytes@.len() as int),
{
    if bytes.len() < 4 {
        return None;
    }
    let mut rd = ByteReader::new(bytes);
    let num_refs = unwrap_read(rd.read_i32());
    if num_refs < 0 {
        return None;
    }
    let n = num_refs as usize;
    if n > (bytes.len() - 4) / 4 {
        return None;
    }
    let start = 4 + 4 * n;
    Some(copy_range(bytes, start, bytes.len()))
}

/// The objects, by key, as views.
pub open spec fn objects_view(m: Map<u32, YetiObject>) -> Map<u32, YetiObjectView> {
    m.map_values(|o: YetiObject| o@)
}

impl<IO: BigfileIO> Bigfile<IO> {
    /// Every file has its object.
    pub open spec fn wf(&self) -> bool {
        forall|k: u32| #[trigger] self.file_table@.contains_key(k) ==> self.object_table@.contains_key(k)
    }

    pub open spec fn objects(&self) -> Map<u32, YetiObjectView> {
        objects_view(self.object_table@)
    }

    /// Opens the bigfile at `path` through the given kind of IO, with empty tables.
    pub fn new<T: BigfileIO>(path: String) -> (r: Result<Bigfile<T>, String>)
        ensures
            r matches Ok(b) ==> (b.wf() && b.file_table@ == Map::<u32, FileEntry>::empty()
                && b.object_table@ == Map::<u32, YetiObject>::empty()
                && b.folder_table@ == Map::<u16, FolderEntry>::empty()
                && b.file_list_map@ == Map::<u16, Vec<u32>>::empty()),
    {
        let io = match T::create_from_path(path.as_str()) {
            Ok(io) => io,
            Err(error) => {
                return Err(<String as StringExecFns>::from_str(error.message()));
            },
        };
        Ok(Bigfile {
            io,
            segment_header: SegmentHeader::default(),
            bigfile_header: BigfileHeader::default(),
            file_table: HashMap::new(),
            object_table: HashMap::new(),
            folder_table: HashMap::new(),
            file_list_map: HashMap::new(),
        })
    }

    /// Loads the object with the key out of `bytes`, the data read for its file, when no
    /// load holds it yet. The bytes are refused, with nothing changed, where loading them
    /// would abort (see `YetiObject::load_refused`).
    pub fn load_object_bytes(&mut self, key: YKey, bytes: &[u8]) -> (r: Result<bool, LoadError>)
        requires
            old(self).wf(),
            old(self).object_table@.contains_key(key.0),
        ensures
            final(self).wf(),
            final(self).file_table@ == old(self).file_table@,
            final(self).folder_table@ == old(self).folder_table@,
            ({
                let o = old(self).objects()[key.0];
                ||| (r matches Err(e) && e@ == err_view(refused_message(), unset_key())
                    && final(self).objects() == old(self).objects()
                    && (!yeti_load_ok(o, bytes@) || o.load_refs == u32::MAX))
                ||| (yeti_load_ok(o, bytes@)
                    && final(self).objects() == old(self).objects().insert(key.0, yeti_load(o, bytes@).0)
                    && match yeti_load(o, bytes@).1 {
                        Ok(()) => r matches Ok(b) && b,
                        Err(e) => r matches Err(x) && x@ == e,
                    })
            }),
    {
        let obj = self.object_table.remove(&key.0);
        let mut obj = match obj {
            Some(o) => o,
            None => {
                return Ok(false);
            },
        };
        if obj.load_refused(bytes) {
            self.object_table.insert(key.0, obj);
            proof {
                reveal_strlit("object data cannot be loaded safely");
                assert(self.objects() =~= old(self).objects());
            }
            return Err(LoadError::from_str_message("object data cannot be loaded safely"));
        }
        let res = obj.load_from_buf(bytes);
        self.object_table.insert(key.0, obj);
        proof {
            assert(self.objects() =~= old(self).objects().insert(key.0, yeti_load(old(self).objects()[key.0], bytes@).0));
        }
        match res {
            Ok(()) => Ok(true),
            Err(e) => Err(e),
        }
    }

    /// Loads the file with the key: a file that a load already holds is held once more
    /// (false); otherwise its data is read through the IO and loaded (true). The IO's read
    /// is not specified: a failed read changes nothing, and a successful one loads the
    /// object out of whatever bytes it gave, as `load_object_bytes` does.
    pub fn load_file(&mut self, key: YKey) -> (r: Result<bool, LoadError>)
        requires
            old(self).wf(),
        ensures
            final(self).wf(),
            final(self).file_table@ == old(self).file_table@,
            final(self).folder_table@ == old(self).folder_table@,
            !old(self).file_table@.contains_key(key.0) ==> (r matches Err(e)
                && e@ == err_view(not_found_message(), unset_key()) && final(self).objects() == old(self).objects()),
            old(self).file_table@.contains_key(key.0) && old(self).objects()[key.0].load_refs > 0 ==> ({
                let o = old(self).objects()[key.0];
                if o.load_refs < u32::MAX {
                    r matches Ok(b) && !b && final(self).objects() == old(self).objects().insert(
                        key.0,
                        YetiObjectView { load_refs: (o.load_refs + 1) as u32, ..o },
                    )
                } else {
                    r matches Err(e) && e@ == err_view(too_many_loads_message(), unset_key())
                        && final(self).objects() == old(self).objects()
                }
            }),
            old(self).file_table@.contains_key(key.0) && old(self).objects()[key.0].load_refs == 0 ==> ({
                let o = old(self).objects()[key.0];
                ||| (r is Err && final(self).objects() == old(self).objects())
                ||| exists|bytes: Seq<u8>| #![trigger yeti_load(o, bytes)]
                    yeti_load_ok(o, bytes)
                    && final(self).objects() == old(self).objects().insert(key.0, yeti_load(o, bytes).0)
                    && match yeti_load(o, bytes).1 {
                        Ok(()) => r matches Ok(b) && b,
                        Err(e) => r matches Err(x) && x@ == e,
                    }
            }),
    {
        let file = match self.file_table.get(&key.0) {
            Some(f) => f,
            None => {
                proof {
                    reveal_strlit("file not found!");
                }
                return Err(LoadError::from_str_message("file not found!"));
            },
        };
        let obj = self.object_table.remove(&key.0);
        let mut obj = match obj {
            Some(o) => o,
            None => {
                return Ok(false);
            },
        };
        if obj.is_loaded() {
            if !obj_can_add_ref(&obj) {
                self.object_table.insert(key.0, obj);
                proof {
                    reveal_strlit("too many loads of one object");
                    assert(self.objects() =~= old(self).objects());
                }
                return Err(LoadError::from_str_message("too many loads of one object"));
            }
            obj.add_ref();
            let ghost added = obj@;
            self.object_table.insert(key.0, obj);
            proof {
                assert(self.objects() =~= old(self).objects().insert(key.0, added));
            }
            return Ok(false);
        }
        self.object_table.insert(key.0, obj);
        proof {
            assert(self.objects() =~= old(self).objects());
        }
        let bytes = match self.io.read_file(&self.segment_header, &self.bigfile_header, file) {
            Ok(b) => b,
            Err(e) => {
                return Err(e.into_load_error());
            },
        };
        self.load_object_bytes(key, bytes.as_slice())
    }

    /// Reads the headers and tables through the IO, makes a fresh object for each file and
    /// the list of each folder's files. Each part is kept once read; a failure of the IO is
    /// returned as it is, and a file table with a name that is not a zero-terminated UTF-8
    /// string (which has no defined object) is refused.
    pub fn load_metadata(&mut self) -> (r: Result<(), LoadError>)
        requires
            old(self).wf(),
        ensures
            final(self).wf(),
            r is Ok ==> final(self).objects() == fresh_objects(final(self).file_table@)
                && file_lists_ok(final(self).file_table@, final(self).file_list_map@)
                && names_ok(final(self).file_table@),
    {
        let seg = match self.io.read_segment_header() {
            Ok(h) => h,
            Err(e) => {
                return Err(e.into_load_error());
            },
        };
        self.segment_header = seg;
        let bfh = match self.io.read_bigfile_header(&self.segment_header) {
            Ok(h) => h,
            Err(e) => {
                return Err(e.into_load_error());
            },
        };
        self.bigfile_header = bfh;
        let ft = match self.io.read_file_table(&self.segment_header, &self.bigfile_header) {
            Ok(t) => t,
            Err(e) => {
                return Err(e.into_load_error());
            },
        };
        let objs = match Self::build_archetype_table(&ft) {
            Ok(t) => t,
            Err(m) => {
                return Err(LoadError::from_message(m));
            },
        };
        self.file_table = ft;
        self.object_table = objs;
        assert forall|k: u32| #[trigger] self.file_table@.contains_key(k) implies self.object_table@.contains_key(k) by {
            assert(fresh_objects(self.file_table@).contains_key(k));
            assert(objects_view(self.object_table@).contains_key(k));
        }
        let folders = match self.io.read_folder_table(&self.segment_header, &self.bigfile_header) {
            Ok(t) => t,
            Err(e) => {
                return Err(e.into_load_error());
            },
        };
        self.folder_table = folders;
        let _ = self.build_file_tree();
        Ok(())
    }

    /// The path of a folder: the names of the folders from the root down to it, each
    /// followed by a slash. A folder of the chain that is missing or whose name is not a
    /// zero-terminated UTF-8 string aborts the walk, which never ends where the parents
    /// form a cycle; those folders are left out.
    pub fn get_full_directory(&self, folder: u16) -> (r: String)
        requires
            has_folder_path(self.folder_table@, folder),
        ensures
            r@ == path_text(self.folder_table@, folder_chain(self.folder_table@, folder, folder_path_len(self.folder_table@, folder))->0),
    {
        let ghost ft = self.folder_table@;
        let ghost n = folder_path_len(ft, folder);
        let ghost chain = folder_chain(ft, folder, n)->0;
        proof {
            lemma_folder_chain(ft, folder, n);
        }
        let mut dirs: Vec<u16> = Vec::new();
        dirs.push(folder);
        let mut parent = match self.folder_table.get(&folder) {
            Some(e) => e.parent_folder,
            None => 0xFFFF,
        };
        while parent != 0xFFFF
            invariant
                ft == self.folder_table@,
                chain == folder_chain(ft, folder, n)->0,
                chain.len() == n,
                forall|i: int| 0 <= i < n ==> #[trigger] ft.contains_key(chain[i]),
                forall|i: int| 0 <= i < n - 1 ==> ft[chain[i]].parent_folder != 0xFFFF && chain[i + 1] == ft[#[trigger] chain[i]].parent_folder,
                ft[chain[n - 1]].parent_folder == 0xFFFF,
                1 <= dirs@.len() <= n,
                dirs@ == chain.subrange(0, dirs@.len() as int),
                parent == ft[chain[dirs@.len() - 1]].parent_folder,
            decreases n - dirs@.len(),
        {
            dirs.push(parent);
            parent = match self.folder_table.get(&parent) {
                Some(e) => e.parent_folder,
                None => 0xFFFF,
            };
        }
        assert(dirs@ =~= chain);
        let mut dir = String::new();
        let mut i: usize = dirs.len();
        assert(chain.subrange(n as int, n as int) =~= Seq::<u16>::empty());
        while i > 0
            invariant
                ft == self.folder_table@,
                dirs@ == chain,
                chain.len() == n,
                forall|j: int| 0 <= j < n ==> #[trigger] ft.contains_key(chain[j]),
                forall|j: int| 0 <= j < chain.len() ==> c_string_ok(ft[#[trigger] chain[j]].name@),
                i <= n,
                dir@ == path_text(ft, chain.subrange(i as int, n as int)),
            decreases i,
        {
            i = i - 1;
            let name = match self.folder_table.get(&dirs[i]) {
                Some(e) => e.get_name(),
                None => String::new(),
            };
            dir.append(name.as_str());
            dir.append("/");
            assert(chain.subrange(i as int, n as int).drop_first() =~= chain.subrange(i + 1, n as int));
        }
        assert(chain.subrange(0, n as int) =~= chain);
        dir
    }

    /// A fresh object for each file. A file whose name is not a zero-terminated UTF-8
    /// string has no object; such a table is refused.
    fn build_archetype_table(file_table: &HashMap<u32, FileEntry>) -> (r: Result<HashMap<u32, YetiObject>, String>)
        ensures
            r matches Ok(t) ==> objects_view(t@) == fresh_objects(file_table@),
            r is Ok <==> names_ok(file_table@),
    {
        let mut table: HashMap<u32, YetiObject> = HashMap::new();
        for kv in it: file_table.iter()
            invariant
                objects_view(table@) == fresh_objects(file_table@).restrict(
                    Set::new(|k: u32| exists|i: int| 0 <= i < it.index() && *it.seq()[i].0 == k),
                ),
                forall|i: int| 0 <= i < it.index() ==> c_string_ok((*it.seq()[i].1).name@),
        {
            let (k, e) = kv;
            assert(kv == it.seq()[it.index()]);
            assert(file_table@.contains_key(*k));
            assert(file_table@[*k] == *e);
            if !is_c_string(&e.name) {
                return Err(<String as StringExecFns>::from_str("invalid file name in the file table"));
            }
            let ghost i0 = it.index();
            let ghost before = objects_view(table@);
            let obj = YetiObject::from_file_entry(e);
            table.insert(*k, obj);
            proof {
                let old_set = Set::new(|k2: u32| exists|i: int| 0 <= i < i0 && *it.seq()[i].0 == k2);
                let new_set = Set::new(|k2: u32| exists|i: int| 0 <= i < i0 + 1 && *it.seq()[i].0 == k2);
                assert(new_set =~= old_set.insert(*k)) by {
                    assert forall|k2: u32| new_set.contains(k2) implies old_set.insert(*k).contains(k2) by {
                        let i = choose|i: int| 0 <= i < i0 + 1 && *it.seq()[i].0 == k2;
                        if i < i0 {
                            assert(old_set.contains(k2));
                        }
                    }
                    assert forall|k2: u32| old_set.insert(*k).contains(k2) implies new_set.contains(k2) by {
                        if k2 == *k {
                            assert(*it.seq()[i0].0 == k2);
                        } else {
                            let i = choose|i: int| 0 <= i < i0 && *it.seq()[i].0 == k2;
                            assert(0 <= i < i0 + 1 && *it.seq()[i].0 == k2);
                        }
                    }
                }
                assert(objects_view(table@) =~= before.insert(*k, fresh_object(*e)));
                assert(objects_view(table@) =~= fresh_objects(file_table@).restrict(new_set));
            }
        }
        Ok(table)
    }

    /// For each folder the keys of its files, ordered by name.
    fn build_file_tree(&mut self) -> (r: Result<(), String>)
        ensures
            r is Ok,
            file_lists_ok(final(self).file_table@, final(self).file_list_map@),
            final(self).file_table@ == old(self).file_table@,
            final(self).object_table@ == old(self).object_table@,
            final(self).folder_table@ == old(self).folder_table@,
    {
        let groups = group_by_folder(&self.file_table);
        let mut sorted: HashMap<u16, Vec<u32>> = HashMap::new();
        let ghost ft = self.file_table@;
        for kv in it: groups.iter()
            invariant
                ft == self.file_table@,
                groups_ok(ft, groups@),
                forall|f: u16| #[trigger] sorted@.contains_key(f) <==> exists|i: int| 0 <= i < it.index() && *it.seq()[i].0 == f,
                forall|f: u16| #[trigger] sorted@.contains_key(f) ==> groups@.contains_key(f)
                    && sorted@[f]@.to_set() == groups@[f]@.to_set() && sorted@[f]@.no_duplicates()
                    && sorted_by_name(ft, sorted@[f]@),
                forall|f: u16| #[trigger] groups@.contains_key(f) ==> exists|i: int| 0 <= i < it.seq().len() && *it.seq()[i].0 == f,
                forall|i: int| 0 <= i < it.seq().len() ==> groups@.contains_key(*it.seq()[i].0) && groups@[*it.seq()[i].0] == *it.seq()[i].1,
                it.index() == it.seq().len() ==> forall|f: u16| #[trigger] sorted@.contains_key(f) <==> groups@.contains_key(f),
        {
            let (f, list) = kv;
            assert(kv == it.seq()[it.index()]);
            assert(groups@.contains_key(*f) && groups@[*f] == *list);
            let ghost i0 = it.index();
            let l = sort_keys_by_name(list, &self.file_table);
            sorted.insert(*f, l);
            proof {
                assert forall|g: u16| #[trigger] sorted@.contains_key(g) <==> exists|i: int| 0 <= i < i0 + 1 && *it.seq()[i].0 == g by {
                    if g == *f {
                        assert(*it.seq()[i0].0 == g);
                    }
                }
                assert forall|g: u16| i0 + 1 == it.seq().len() && #[trigger] groups@.contains_key(g) implies sorted@.contains_key(g) by {
                    let i = choose|i: int| 0 <= i < it.seq().len() && *it.seq()[i].0 == g;
                    assert(0 <= i < i0 + 1 && *it.seq()[i].0 == g);
                }
            }
        }
        self.file_list_map = sorted;
        Ok(())
    }

    /// Drops one load of the object with the key.
    pub fn unload_file(&mut self, key: YKey) -> (r: Result<(), String>)
        requires
            old(self).wf(),
        ensures
            final(self).wf(),
            final(self).file_table@ == old(self).file_table@,
            final(self).folder_table@ == old(self).folder_table@,
            old(self).object_table@.contains_key(key.0) ==> r is Ok && final(self).objects()
                == old(self).objects().insert(key.0, yeti_unload(old(self).objects()[key.0])),
            !old(self).object_table@.contains_key(key.0) ==> (r matches Err(m) && m@ == not_found_message()
                && final(self).objects() == old(self).objects()),
    {
        match self.object_table.remove(&key.0) {
            Some(obj) => {
                let mut obj = obj;
                obj.unload();
                self.object_table.insert(key.0, obj);
                proof {
                    assert(self.objects() =~= old(self).objects().insert(key.0, yeti_unload(old(self).objects()[key.0])));
                }
                Ok(())
            },
            None => {
                proof {
                    reveal_strlit("file not found!");
                    assert(self.objects() =~= old(self).objects());
                }
                Err(<String as StringExecFns>::from_str("file not found!"))
            },
        }
    }

    /// The data of the file with the key, read through the IO, without its references.
    /// The IO's read is not specified: its failure is returned as it is; data that cannot
    /// be stripped of its references (see `data_after_refs`) is refused.
    pub fn extract_file_data(&mut self, key: YKey) -> (r: Result<Vec<u8>, String>)
        requires
            old(self).file_table@.contains_key(key.0),
        ensures
            final(self).file_table@ == old(self).file_table@,
            final(self).object_table@ == old(self).object_table@,
            final(self).folder_table@ == old(self).folder_table@,
            r matches Ok(v) ==> exists|bytes: Seq<u8>| #![trigger refs_strippable(bytes)]
                refs_strippable(bytes) && v@ == bytes.subrange(4 + 4 * le_i32(bytes, 0), bytes.len() as int),
    {
        let entry = *self.file_table.get(&key.0).unwrap();
        let bytes = match self.io.read_file(&self.segment_header, &self.bigfile_header, &entry) {
            Ok(b) => b,
            Err(e) => {
                return Err(<String as StringExecFns>::from_str(e.message()));
            },
        };
        match data_after_refs(bytes.as_slice()) {
            Some(v) => Ok(v),
            None => {
                Err(<String as StringExecFns>::from_str("file data too short for its references"))
            },
        }
    }

    /// Whether `folder` reaches a root through folders of the table whose names are
    /// zero-terminated UTF-8 strings, so that `get_full_directory` may be called with it.
    pub fn folder_path_ok(&self, folder: u16) -> (r: bool)
        ensures
            r == has_folder_path(self.folder_table@, folder),
    {
        let ghost ft = self.folder_table@;
        let mut cur = folder;
        let mut k: u32 = 0;
        while k < 65536
            invariant
                ft == self.folder_table@,
                k <= 65536,
                cur == ancestor(ft, folder, k as nat),
                forall|j: nat| j < k ==> ft.contains_key(#[trigger] ancestor(ft, folder, j))
                    && ft[ancestor(ft, folder, j)].parent_folder != 0xFFFF
                    && c_string_ok(ft[ancestor(ft, folder, j)].name@),
            decreases 65536 - k,
        {
            let entry = match self.folder_table.get(&cur) {
                Some(e) => e,
                None => {
                    proof {
                        assert forall|n: nat| !(#[trigger] folder_chain(ft, folder, n) matches Some(c)
                            && forall|i: int| 0 <= i < c.len() ==> c_string_ok(ft[#[trigger] c[i]].name@)) by {
                            if folder_chain(ft, folder, n) is Some {
                                lemma_folder_chain(ft, folder, n);
                                if k < n {
                                    lemma_chain_ancestors(ft, folder, n, k as nat);
                                } else {
                                    lemma_chain_ancestors(ft, folder, n, (n - 1) as nat);
                                }
                            }
                        }
                    }
                    return false;
                },
            };
            if !is_c_string(&entry.name) {
                proof {
                    assert forall|n: nat| !(#[trigger] folder_chain(ft, folder, n) matches Some(c)
                        && forall|i: int| 0 <= i < c.len() ==> c_string_ok(ft[#[trigger] c[i]].name@)) by {
                        if folder_chain(ft, folder, n) is Some {
                            lemma_folder_chain(ft, folder, n);
                            if k < n {
                                lemma_chain_ancestors(ft, folder, n, k as nat);
                                let c = folder_chain(ft, folder, n)->0;
                                assert(c[k as int] == cur);
                            } else {
                                lemma_chain_ancestors(ft, folder, n, (n - 1) as nat);
                            }
                        }
                    }
                }
                return false;
            }
            if entry.parent_folder == 0xFFFF {
                proof {
                    lemma_chain_of_ancestors(ft, folder, k as nat);
                    let c = folder_chain(ft, folder, (k + 1) as nat)->0;
                    lemma_folder_chain(ft, folder, (k + 1) as nat);
                    assert forall|i: int| 0 <= i < c.len() implies c_string_ok(ft[#[trigger] c[i]].name@) by {
                        lemma_chain_ancestors(ft, folder, (k + 1) as nat, i as nat);
                    }
                }
                return true;
            }
            cur = entry.parent_folder;
            proof {
                assert(ancestor(ft, folder, (k + 1) as nat) == cur);
            }
            k = k + 1;
        }
        proof {
            assert forall|n: nat| !(#[trigger] folder_chain(ft, folder, n) matches Some(c)
                && forall|i: int| 0 <= i < c.len() ==> c_string_ok(ft[#[trigger] c[i]].name@)) by {
                if folder_chain(ft, folder, n) is Some {
                    lemma_folder_chain(ft, folder, n);
                    lemma_chain_short(ft, folder, n);
                    lemma_chain_ancestors(ft, folder, n, (n - 1) as nat);
                }
            }
        }
        false
    }

    /// Finishes the load of the XML constant list with the key from the events read out of
    /// its XML (those before the reader's error, with that error, if there is one): see
    /// `xml_list_finish`. A key without such a pending list is refused, with nothing changed.
    pub fn finish_xml_const_list(&mut self, key: YKey, events: &Vec<XmlConstEvent>, error: Option<YetiIOError>) -> (r: Result<(), LoadError>)
        requires
            old(self).wf(),
            xml_run_ok(events@.map_values(|e: XmlConstEvent| e@)),
        ensures
            final(self).wf(),
            final(self).file_table@ == old(self).file_table@,
            final(self).folder_table@ == old(self).folder_table@,
            if old(self).objects().contains_key(key.0) && xml_list_pending(old(self).objects()[key.0]) {
                let f = xml_list_finish(old(self).objects()[key.0], events@.map_values(|e: XmlConstEvent| e@), error_message(error));
                &&& final(self).objects() == old(self).objects().insert(key.0, f.0)
                &&& result_view(r) == f.1
            } else {
                &&& final(self).objects() == old(self).objects()
                &&& r matches Err(e) && e@ == err_view(not_pending_message(), unset_key())
            },
    {
        let obj = self.object_table.remove(&key.0);
        let mut obj = match obj {
            Some(o) => o,
            None => {
                proof {
                    assert(self.objects() =~= old(self).objects());
                    reveal_strlit("no xml const list waits to be loaded under this key");
                }
                return Err(LoadError::from_str_message("no xml const list waits to be loaded under this key"));
            },
        };
        if !obj.is_xml_list_pending() {
            self.object_table.insert(key.0, obj);
            proof {
                assert(self.objects() =~= old(self).objects());
                reveal_strlit("no xml const list waits to be loaded under this key");
            }
            return Err(LoadError::from_str_message("no xml const list waits to be loaded under this key"));
        }
        let r = obj.finish_xml_const_list(events, error);
        self.object_table.insert(key.0, obj);
        proof {
            assert(self.objects() =~= old(self).objects().insert(key.0, self.objects()[key.0]));
        }
        r
    }

    /// The keys of the objects that a load holds, each once.
    pub fn loaded_object_keys(&self) -> (r: Vec<u32>)
        ensures
            r@.no_duplicates(),
            forall|k: u32| r@.contains(k) <==> (#[trigger] self.objects().contains_key(k) && self.objects()[k].load_refs > 0),
    {
        let ghost objs = self.objects();
        let mut out: Vec<u32> = Vec::new();
        for kv in it: self.object_table.iter()
            invariant
                objs == self.objects(),
                forall|i: int| 0 <= i < it.seq().len() ==> self.object_table@.contains_key(*it.seq()[i].0)
                    && self.object_table@[*it.seq()[i].0] == *it.seq()[i].1,
                it.seq().no_duplicates(),
                forall|k: u32| #[trigger] self.object_table@.contains_key(k) ==> exists|i: int| 0 <= i < it.seq().len() && *it.seq()[i].0 == k,
                out@.no_duplicates(),
                forall|k: u32| out@.contains(k) ==> exists|i: int| 0 <= i < it.index() && *it.seq()[i].0 == k,
                forall|k: u32| #[trigger] out@.contains(k) <==> (objs.contains_key(k) && objs[k].load_refs > 0
                    && exists|i: int| 0 <= i < it.index() && *it.seq()[i].0 == k),
        {
            let ghost i0 = it.index();
            let (k, obj) = kv;
            assert(kv == it.seq()[i0]);
            assert(self.object_table@.contains_key(*k) && self.object_table@[*k] == *obj);
            let ghost before = out@;
            proof {
                assert forall|i: int| 0 <= i < i0 implies *it.seq()[i].0 != *k by {
                    assert(it.seq()[i] != it.seq()[i0]);
                    if *it.seq()[i].0 == *k {
                        assert(*it.seq()[i].1 == self.object_table@[*k]);
                    }
                }
            }
            assert(!before.contains(*k));
            let loaded = obj.is_loaded();
            if loaded {
                out.push(*k);
                proof {
                    assert forall|a: int, b: int| 0 <= a < b < out@.len() implies out@[a] != out@[b] by {
                        if b == before.len() {
                            assert(out@[a] == before[a]);
                        }
                    }
                }
            }
            proof {
                assert forall|k2: u32| k2 != *k implies (#[trigger] out@.contains(k2) == before.contains(k2)) by {
                    if loaded {
                        assert(out@ == before.push(*k));
                        if before.contains(k2) {
                            let j = choose|j: int| 0 <= j < before.len() && before[j] == k2;
                            assert(out@[j] == k2);
                        }
                        if out@.contains(k2) {
                            let j = choose|j: int| 0 <= j < out@.len() && out@[j] == k2;
                            assert(j < before.len());
                            assert(before[j] == k2);
                        }
                    }
                }
                if loaded {
                    assert(out@[before.len() as int] == *k);
                    assert(out@.contains(*k));
                } else {
                    assert(!before.contains(*k));
                }
                assert forall|k2: u32| out@.contains(k2) implies exists|i: int| 0 <= i < i0 + 1 && *it.seq()[i].0 == k2 by {
                    if k2 != *k {
                        assert(before.contains(k2));
                    } else {
                        assert(*it.seq()[i0].0 == k2);
                    }
                }
                assert forall|k2: u32| #[trigger] out@.contains(k2) <==> (objs.contains_key(k2) && objs[k2].load_refs > 0
                    && exists|i: int| 0 <= i < i0 + 1 && *it.seq()[i].0 == k2) by {
                    if k2 == *k {
                        assert(*it.seq()[i0].0 == k2);
                        assert(objs[k2] == obj@);
                    } else {
                        if exists|i: int| 0 <= i < i0 + 1 && *it.seq()[i].0 == k2 {
                            let i = choose|i: int| 0 <= i < i0 + 1 && *it.seq()[i].0 == k2;
                            assert(i != i0);
                        }
                        assert(out@.contains(k2) == before.contains(k2));
                    }
                }
            }
        }
        proof {
            assert forall|k: u32| #[trigger] out@.contains(k) <==> (objs.contains_key(k) && objs[k].load_refs > 0) by {
                if objs.contains_key(k) {
                    assert(self.object_table@.contains_key(k));
                }
            }
        }
        out
    }

    /// The key names a file whose data has a place in the bigfile.
    pub fn is_key_valid(&self, key: YKey) -> (r: bool)
        ensures
            r == (self.file_table@.contains_key(key.0) && self.file_table@[key.0].offset != 0xFFFF_FFFF),
    {
        match self.file_table.get(&key.0) {
            Some(file) => file.offset != 0xFFFF_FFFF,
            None => false,
        }
    }
}

} // verus!
