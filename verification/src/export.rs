use vstd::prelude::*;
use std::collections::HashMap;
use crate::metadata::YKey;
use crate::text::hex_key_text;
use crate::object_type::ObjectType;
use crate::bigfile::{Bigfile, BigfileIO};
use crate::metadata::FileEntry;
use crate::objects::YetiObjectView;
use crate::texture_util::{unwrap_tga_key, tga_target, tga_walk_ends};

verus! {

/// A capture point way, by the name it is shown with.
pub struct CaptureWay {
    pub name: String,
}

/// A spawn zone way: its name and the team it belongs to.
pub struct SpawnZoneWay {
    pub name: String,
    pub team: i32,
}

/// A visual script that belongs to a capture point.
pub struct CaptureVisualScript {
    pub for_point: String,
}

/// For each kind of material, the keys (written as `{:#010X}`) of the materials and shaders
/// that are exported as that kind.
pub struct MaterialShaderTypeIDs {
    pub alphatest: Vec<String>,
    pub alphablend_emissive: Vec<String>,
    pub alphablend: Vec<String>,
    pub invcoloralpha: Vec<String>,
    pub coloralpha: Vec<String>,
    pub skybox: Vec<String>,
    pub submarine: Vec<String>,
    pub standard: Vec<String>,
}

/// What the export reads from its configuration file.
pub struct ExportConfig {
    pub capture_ids: HashMap<String, CaptureWay>,
    pub spawn_zone_ids: HashMap<String, SpawnZoneWay>,
    pub capture_visual_scripts: HashMap<String, CaptureVisualScript>,
    pub material_shader_type_ids: MaterialShaderTypeIDs,
}

/// The ways of the map, by key text.
pub struct WayConfig {
    pub capture_ids: HashMap<String, CaptureWay>,
    pub spawn_zone_ids: HashMap<String, SpawnZoneWay>,
}

/// The texts of a list of strings.
pub open spec fn texts(v: Seq<String>) -> Seq<Seq<char>> {
    v.map_values(|s: String| s@)
}

/// The list holds the material's key or the shader's key, as text.
pub open spec fn lists_either_key(v: Seq<String>, mat: YKey, shd: YKey) -> bool {
    texts(v).contains(hex_key_text(mat.0)) || texts(v).contains(hex_key_text(shd.0))
}

/// The list holds a string equal to `t`.
fn list_has_text(v: &Vec<String>, t: &String) -> (r: bool)
    ensures
        r == texts(v@).contains(t@),
{
    let mut i: usize = 0;
    while i < v.len()
        invariant
            i <= v.len(),
            forall|j: int| 0 <= j < i ==> v@[j]@ != t@,
        decreases v.len() - i,
    {
        if v[i] == *t {
            proof {
                assert(texts(v@)[i as int] == t@);
            }
            return true;
        }
        i = i + 1;
    }
    proof {
        assert forall|j: int| 0 <= j < texts(v@).len() implies texts(v@)[j] != t@ by {
            assert(texts(v@)[j] == v@[j]@);
        }
    }
    false
}

/// The list holds the text of the material's key or of the shader's key.
fn list_has_either_key(v: &Vec<String>, mat: &YKey, shd: &YKey) -> (r: bool)
    ensures
        r == lists_either_key(v@, *mat, *shd),
{
    let m = mat.to_hex_string();
    if list_has_text(v, &m) {
        return true;
    }
    let s = shd.to_hex_string();
    list_has_text(v, &s)
}

impl MaterialShaderTypeIDs {
    pub fn has_alphatest_key(&self, mat: &YKey, shd: &YKey) -> (r: bool)
        ensures
            r == lists_either_key(self.alphatest@, *mat, *shd),
    {
        list_has_either_key(&self.alphatest, mat, shd)
    }

    pub fn has_alphablend_emissive_key(&self, mat: &YKey, shd: &YKey) -> (r: bool)
        ensures
            r == lists_either_key(self.alphablend_emissive@, *mat, *shd),
    {
        list_has_either_key(&self.alphablend_emissive, mat, shd)
    }

    pub fn has_alphablend(&self, mat: &YKey, shd: &YKey) -> (r: bool)
        ensures
            r == lists_either_key(self.alphablend@, *mat, *shd),
    {
        list_has_either_key(&self.alphablend, mat, shd)
    }

    pub fn has_invcoloralpha(&self, mat: &YKey, shd: &YKey) -> (r: bool)
        ensures
            r == lists_either_key(self.invcoloralpha@, *mat, *shd),
    {
        list_has_either_key(&self.invcoloralpha, mat, shd)
    }

    pub fn has_coloralpha(&self, mat: &YKey, shd: &YKey) -> (r: bool)
        ensures
            r == lists_either_key(self.coloralpha@, *mat, *shd),
    {
        list_has_either_key(&self.coloralpha, mat, shd)
    }

    pub fn has_skybox(&self, mat: &YKey, shd: &YKey) -> (r: bool)
        ensures
            r == lists_either_key(self.skybox@, *mat, *shd),
    {
        list_has_either_key(&self.skybox, mat, shd)
    }

    pub fn has_submarine(&self, mat: &YKey, shd: &YKey) -> (r: bool)
        ensures
            r == lists_either_key(self.submarine@, *mat, *shd),
    {
        list_has_either_key(&self.submarine, mat, shd)
    }

    pub fn has_standard(&self, mat: &YKey, shd: &YKey) -> (r: bool)
        ensures
            r == lists_either_key(self.standard@, *mat, *shd),
    {
        list_has_either_key(&self.standard, mat, shd)
    }
}

/// The key names a file with data in the bigfile, of the given type.
pub open spec fn valid_of_type(ft: Map<u32, FileEntry>, k: u32, t: ObjectType) -> bool {
    ft.contains_key(k) && ft[k].offset != 0xFFFF_FFFF && ft[k].object_type == t
}

/// The references of the object `key` that name files with data of type `t`, in their
/// order: the textures of a material, the script and vertex colors of a game object.
pub fn valid_references_of_type<IO: BigfileIO>(bf: &Bigfile<IO>, key: YKey, t: ObjectType) -> (r: Vec<u32>)
    requires
        bf.objects().contains_key(key.0),
    ensures
        r@ == bf.objects()[key.0].references.filter(|k: u32| valid_of_type(bf.file_table@, k, t)),
{
    let obj = bf.object_table.get(&key.0).unwrap();
    let refs = obj.get_references();
    let ghost pred = |k: u32| valid_of_type(bf.file_table@, k, t);
    let mut out: Vec<u32> = Vec::new();
    let mut i: usize = 0;
    while i < refs.len()
        invariant
            i <= refs@.len(),
            refs@ == bf.objects()[key.0].references,
            pred == (|k: u32| valid_of_type(bf.file_table@, k, t)),
            out@ == refs@.subrange(0, i as int).filter(pred),
        decreases refs@.len() - i,
    {
        let k = refs[i];
        proof {
            assert(refs@.subrange(0, i + 1).drop_last() =~= refs@.subrange(0, i as int));
        }
        let keep = match bf.file_table.get(&k) {
            Some(entry) => entry.offset != 0xFFFF_FFFF && entry.object_type == t,
            None => false,
        };
        proof {
            reveal(Seq::filter);
            assert(keep == pred(k));
            assert(refs@.subrange(0, i + 1).last() == k);
        }
        if keep {
            out.push(k);
        }
        i = i + 1;
    }
    proof {
        assert(refs@.subrange(0, refs@.len() as int) =~= refs@);
    }
    out
}

/// Where the walk over a game object's references stands: the materials met so far for
/// each mesh, the mesh whose materials follow, and the skeleton.
pub struct GotScan {
    pub groups: Map<u32, Seq<u32>>,
    pub current: Option<u32>,
    pub skeleton: Option<u32>,
}

/// One reference of a game object: a valid mesh starts its (new) group and takes the
/// materials that follow; a valid material joins the current mesh's group; a valid
/// skeleton is the skeleton (the last one wins); anything else is passed over.
pub open spec fn got_step(ft: Map<u32, FileEntry>, s: GotScan, k: u32) -> GotScan {
    if !(ft.contains_key(k) && ft[k].offset != 0xFFFF_FFFF) {
        s
    } else if ft[k].object_type == ObjectType::msh {
        GotScan { groups: s.groups.insert(k, Seq::empty()), current: Some(k), ..s }
    } else if ft[k].object_type == ObjectType::mat {
        match s.current {
            Some(m) => if s.groups.contains_key(m) {
                GotScan { groups: s.groups.insert(m, s.groups[m].push(k)), ..s }
            } else {
                s
            },
            None => s,
        }
    } else if ft[k].object_type == ObjectType::ske {
        GotScan { skeleton: Some(k), ..s }
    } else {
        s
    }
}

/// The walk over the references, in their order.
pub open spec fn got_scan(ft: Map<u32, FileEntry>, refs: Seq<u32>) -> GotScan
    decreases refs.len(),
{
    if refs.len() == 0 {
        GotScan { groups: Map::empty(), current: None, skeleton: None }
    } else {
        got_step(ft, got_scan(ft, refs.drop_last()), refs.last())
    }
}

/// The list holds each mesh of the walk once, with its group.
pub open spec fn groups_listed(g: Seq<(u32, Seq<u32>)>, s: GotScan) -> bool {
    &&& forall|i: int, j: int| 0 <= i < j < g.len() ==> g[i].0 != g[j].0
    &&& forall|i: int| 0 <= i < g.len() ==> s.groups.contains_key(#[trigger] g[i].0) && s.groups[g[i].0] == g[i].1
    &&& forall|k: u32| #[trigger] s.groups.contains_key(k) ==> exists|i: int| 0 <= i < g.len() && g[i].0 == k
}

/// The position of `k` in `keys`, if it is there.
fn find_key(keys: &Vec<u32>, k: u32) -> (r: Option<usize>)
    ensures
        r matches Some(i) ==> i < keys@.len() && keys@[i as int] == k,
        r is None ==> !keys@.contains(k),
{
    let mut i: usize = 0;
    while i < keys.len()
        invariant
            i <= keys@.len(),
            forall|j: int| 0 <= j < i ==> keys@[j] != k,
        decreases keys@.len() - i,
    {
        if keys[i] == k {
            return Some(i);
        }
        i = i + 1;
    }
    None
}

/// The groups of a game object's references: each mesh once, with the materials that
/// follow it, and the skeleton. The order of the groups is not part of the result.
pub fn got_groups<IO: BigfileIO>(bf: &Bigfile<IO>, key: YKey) -> (r: (Vec<(u32, Vec<u32>)>, Option<u32>))
    requires
        bf.objects().contains_key(key.0),
    ensures
        r.1 == got_scan(bf.file_table@, bf.objects()[key.0].references).skeleton,
        groups_listed(
            r.0@.map_values(|p: (u32, Vec<u32>)| (p.0, p.1@)),
            got_scan(bf.file_table@, bf.objects()[key.0].references),
        ),
{
    let obj = bf.object_table.get(&key.0).unwrap();
    let refs = obj.get_references();
    let ghost ft = bf.file_table@;
    let mut keys: Vec<u32> = Vec::new();
    let mut mats: Vec<Vec<u32>> = Vec::new();
    let mut cur: Option<usize> = None;
    let mut skeleton: Option<u32> = None;
    let mut i: usize = 0;
    while i < refs.len()
        invariant
            i <= refs@.len(),
            refs@ == bf.objects()[key.0].references,
            ft == bf.file_table@,
            keys@.len() == mats@.len(),
            ({
                let s = got_scan(ft, refs@.subrange(0, i as int));
                &&& skeleton == s.skeleton
                &&& keys@.no_duplicates()
                &&& forall|j: int| 0 <= j < keys@.len() ==> s.groups.contains_key(#[trigger] keys@[j])
                    && s.groups[keys@[j]] == mats@[j]@
                &&& forall|k: u32| #[trigger] s.groups.contains_key(k) ==> keys@.contains(k)
                &&& match cur {
                    Some(c) => c < keys@.len() && s.current == Some(keys@[c as int]),
                    None => s.current is None,
                }
            }),
        decreases refs@.len() - i,
    {
        let k = refs[i];
        let ghost s0 = got_scan(ft, refs@.subrange(0, i as int));
        proof {
            assert(refs@.subrange(0, i + 1).drop_last() =~= refs@.subrange(0, i as int));
            assert(refs@.subrange(0, i + 1).last() == k);
        }
        let ghost s1 = got_step(ft, s0, k);
        let t = match bf.file_table.get(&k) {
            Some(entry) => if entry.offset != 0xFFFF_FFFF { Some(entry.object_type) } else { None },
            None => None,
        };
        match t {
            Some(ObjectType::msh) => {
                match find_key(&keys, k) {
                    Some(j) => {
                        mats.set(j, Vec::new());
                        cur = Some(j);
                        proof {
                            assert forall|x: int| 0 <= x < keys@.len() implies s1.groups.contains_key(#[trigger] keys@[x])
                                && s1.groups[keys@[x]] == mats@[x]@ by {
                                if x != j {
                                    assert(keys@[x] != k);
                                }
                            }
                        }
                    },
                    None => {
                        let ghost kb = keys@;
                        keys.push(k);
                        mats.push(Vec::new());
                        cur = Some(keys.len() - 1);
                        proof {
                            assert forall|x: int| 0 <= x < keys@.len() implies s1.groups.contains_key(#[trigger] keys@[x])
                                && s1.groups[keys@[x]] == mats@[x]@ by {
                                if x < keys@.len() - 1 {
                                    assert(keys@[x] != k);
                                }
                            }
                            assert forall|y: u32| #[trigger] s1.groups.contains_key(y) implies keys@.contains(y) by {
                                if y == k {
                                    assert(keys@[keys@.len() - 1] == k);
                                } else {
                                    assert(s0.groups.contains_key(y));
                                    assert(kb.contains(y));
                                    let x = choose|x: int| 0 <= x < kb.len() && kb[x] == y;
                                    assert(keys@[x] == y);
                                }
                            }
                        }
                    },
                }
            },
            Some(ObjectType::mat) => {
                match cur {
                    Some(c) => {
                        mats[c].push(k);
                        proof {
                            let m = keys@[c as int];
                            assert(s0.groups.contains_key(m));
                            assert forall|x: int| 0 <= x < keys@.len() implies s1.groups.contains_key(#[trigger] keys@[x])
                                && s1.groups[keys@[x]] == mats@[x]@ by {
                                if x != c {
                                    assert(keys@[x] != m);
                                }
                            }
                        }
                    },
                    None => {},
                }
            },
            Some(ObjectType::ske) => {
                skeleton = Some(k);
            },
            _ => {},
        }
        proof {
            assert(got_scan(ft, refs@.subrange(0, i + 1)) == s1);
        }
        i = i + 1;
    }
    proof {
        assert(refs@.subrange(0, refs@.len() as int) =~= refs@);
    }
    let ghost s = got_scan(ft, refs@);
    let mut out: Vec<(u32, Vec<u32>)> = Vec::new();
    let mut n: usize = 0;
    let nk = keys.len();
    let ghost keys0 = keys@;
    let ghost mats0 = mats@;
    assert(keys0.len() == nk);
    while mats.len() > 0
        invariant
            keys0.len() <= usize::MAX,
            keys@.len() == mats@.len(),
            n + keys@.len() == keys0.len(),
            keys0.len() == mats0.len(),
            keys@ == keys0.subrange(n as int, keys0.len() as int),
            mats@ == mats0.subrange(n as int, mats0.len() as int),
            out@.len() == n,
            forall|j: int| 0 <= j < n ==> (#[trigger] out@[j]).0 == keys0[j] && out@[j].1 == mats0[j],
        decreases mats@.len(),
    {
        let l = mats.remove(0);
        let m = keys.remove(0);
        out.push((m, l));
        n = n + 1;
        assert(keys@ =~= keys0.subrange(n as int, keys0.len() as int));
        assert(mats@ =~= mats0.subrange(n as int, mats0.len() as int));
    }
    proof {
        assert forall|i: int| 0 <= i < out@.len() implies s.groups.contains_key(#[trigger] out@[i].0)
            && s.groups[out@[i].0] == out@[i].1@ by {
            assert(out@[i].0 == keys0[i]);
            assert(s.groups.contains_key(keys0[i]));
        }
        assert forall|k: u32| #[trigger] s.groups.contains_key(k) implies exists|i: int| 0 <= i < out@.len() && out@[i].0 == k by {
            let x = choose|x: int| 0 <= x < keys0.len() && keys0[x] == k;
            assert(out@[x].0 == k);
        }
        assert forall|i: int, j: int| 0 <= i < j < out@.len() implies out@[i].0 != out@[j].0 by {
            assert(out@[i].0 == keys0[i]);
            assert(out@[j].0 == keys0[j]);
        }
    }
    assert(skeleton == s.skeleton);
    assert(s == got_scan(bf.file_table@, bf.objects()[key.0].references));
    proof {
        let g = out@.map_values(|p: (u32, Vec<u32>)| (p.0, p.1@));
        assert forall|k: u32| #[trigger] s.groups.contains_key(k) implies exists|i: int| 0 <= i < g.len() && g[i].0 == k by {
            let i = choose|i: int| 0 <= i < out@.len() && out@[i].0 == k;
            assert(g[i].0 == k);
        }
        assert(groups_listed(g, s));
    }
    (out, skeleton)
}

/// The base color, specular and normal map textures of a standard material, from its
/// valid texture references `ts`: the first is the base color; the second, followed to its
/// texture metadata, is the normal map when it is one of `normal`, else the specular
/// texture, and then the third, followed likewise, is the normal map when it is one.
pub open spec fn standard_slots(ts: Seq<u32>, objs: Map<u32, YetiObjectView>, normal: Seq<u32>) -> (Option<u32>, Option<u32>, Option<u32>) {
    if ts.len() == 0 {
        (None, None, None)
    } else if ts.len() == 1 {
        (Some(ts[0]), None, None)
    } else {
        match tga_target(objs, ts[1]) {
            None => (Some(ts[0]), None, None),
            Some(k) => if normal.contains(k) {
                (Some(ts[0]), None, Some(k))
            } else if ts.len() == 2 {
                (Some(ts[0]), Some(k), None)
            } else {
                match tga_target(objs, ts[2]) {
                    Some(k2) => if normal.contains(k2) {
                        (Some(ts[0]), Some(k), Some(k2))
                    } else {
                        (Some(ts[0]), Some(k), None)
                    },
                    None => (Some(ts[0]), Some(k), None),
                }
            },
        }
    }
}

/// The walks from the textures that `standard_slots` follows end.
pub open spec fn standard_walks_end(ts: Seq<u32>, objs: Map<u32, YetiObjectView>, normal: Seq<u32>) -> bool {
    ts.len() > 1 ==> {
        &&& tga_walk_ends(objs, ts[1])
        &&& ts.len() > 2 ==> match tga_target(objs, ts[1]) {
            Some(k) => !normal.contains(k) ==> tga_walk_ends(objs, ts[2]),
            None => true,
        }
    }
}

/// The textures of a standard material `key`: base color, specular and normal map, where
/// `normal_maps` holds the keys of the texture metadata that are normal maps.
pub fn standard_shader_slots<IO: BigfileIO>(bf: &Bigfile<IO>, key: YKey, normal_maps: &Vec<u32>) -> (r: (Option<u32>, Option<u32>, Option<u32>))
    requires
        bf.objects().contains_key(key.0),
        standard_walks_end(
            bf.objects()[key.0].references.filter(|k: u32| valid_of_type(bf.file_table@, k, ObjectType::tga)),
            bf.objects(),
            normal_maps@,
        ),
    ensures
        r == standard_slots(
            bf.objects()[key.0].references.filter(|k: u32| valid_of_type(bf.file_table@, k, ObjectType::tga)),
            bf.objects(),
            normal_maps@,
        ),
{
    let ts = valid_references_of_type(bf, key, ObjectType::tga);
    if ts.len() == 0 {
        return (None, None, None);
    }
    if ts.len() == 1 {
        return (Some(ts[0]), None, None);
    }
    let k = match unwrap_tga_key(YKey(ts[1]), bf) {
        Some(k) => k.0,
        None => {
            return (Some(ts[0]), None, None);
        },
    };
    if find_key(normal_maps, k).is_some() {
        return (Some(ts[0]), None, Some(k));
    }
    if ts.len() == 2 {
        return (Some(ts[0]), Some(k), None);
    }
    match unwrap_tga_key(YKey(ts[2]), bf) {
        Some(k2) => {
            if find_key(normal_maps, k2.0).is_some() {
                (Some(ts[0]), Some(k), Some(k2.0))
            } else {
                (Some(ts[0]), Some(k), None)
            }
        },
        None => (Some(ts[0]), Some(k), None),
    }
}

/// The kind of material a material is exported as.
#[derive(Debug, Clone, Copy, PartialEq, Eq, Structural)]
pub enum MaterialKind {
    Standard,
    AlphaTest,
    AlphaBlend,
    AlphaBlendEmissive,
    ColorAlpha,
    InvColorAlpha,
    Skybox,
    Submarine,
}

/// The first list, in the order standard, alpha test, alpha blend, emissive alpha blend,
/// color alpha, inverted color alpha, skybox, submarine, that holds the material's or the
/// shader's key decides the kind; a material in none is standard.
pub open spec fn material_kind_of(ids: MaterialShaderTypeIDs, mat: YKey, shd: YKey) -> MaterialKind {
    if lists_either_key(ids.standard@, mat, shd) {
        MaterialKind::Standard
    } else if lists_either_key(ids.alphatest@, mat, shd) {
        MaterialKind::AlphaTest
    } else if lists_either_key(ids.alphablend@, mat, shd) {
        MaterialKind::AlphaBlend
    } else if lists_either_key(ids.alphablend_emissive@, mat, shd) {
        MaterialKind::AlphaBlendEmissive
    } else if lists_either_key(ids.coloralpha@, mat, shd) {
        MaterialKind::ColorAlpha
    } else if lists_either_key(ids.invcoloralpha@, mat, shd) {
        MaterialKind::InvColorAlpha
    } else if lists_either_key(ids.skybox@, mat, shd) {
        MaterialKind::Skybox
    } else if lists_either_key(ids.submarine@, mat, shd) {
        MaterialKind::Submarine
    } else {
        MaterialKind::Standard
    }
}

impl MaterialShaderTypeIDs {
    /// The kind a material with the given shader is exported as.
    pub fn material_kind(&self, mat: &YKey, shd: &YKey) -> (r: MaterialKind)
        ensures
            r == material_kind_of(*self, *mat, *shd),
    {
        if self.has_standard(mat, shd) {
            MaterialKind::Standard
        } else if self.has_alphatest_key(mat, shd) {
            MaterialKind::AlphaTest
        } else if self.has_alphablend(mat, shd) {
            MaterialKind::AlphaBlend
        } else if self.has_alphablend_emissive_key(mat, shd) {
            MaterialKind::AlphaBlendEmissive
        } else if self.has_coloralpha(mat, shd) {
            MaterialKind::ColorAlpha
        } else if self.has_invcoloralpha(mat, shd) {
            MaterialKind::InvColorAlpha
        } else if self.has_skybox(mat, shd) {
            MaterialKind::Skybox
        } else if self.has_submarine(mat, shd) {
            MaterialKind::Submarine
        } else {
            MaterialKind::Standard
        }
    }
}

/// How ways are exported: not at all, as triangulated surfaces, as extruded walls, or both.
#[derive(Debug, Clone, Copy, PartialEq, Eq, Structural)]
pub enum WayExportStrategy {
    Off,
    Triangulate,
    Extrude,
    Both,
}

impl WayExportStrategy {
    pub fn should_export_triangles(&self) -> (r: bool)
        ensures
            r == (*self == WayExportStrategy::Both || *self == WayExportStrategy::Triangulate),
    {
        match self {
            WayExportStrategy::Both | WayExportStrategy::Triangulate => true,
            _ => false,
        }
    }

    pub fn should_export_extrude(&self) -> (r: bool)
        ensures
            r == (*self == WayExportStrategy::Both || *self == WayExportStrategy::Extrude),
    {
        match self {
            WayExportStrategy::Both | WayExportStrategy::Extrude => true,
            _ => false,
        }
    }
}

/// The top of an extruded way: each whole triangle of the ground, turned over, with its
/// points moved to the top copy of the outline (which follows the ground and the side copy).
pub open spec fn extrude_top(ind: Seq<u32>, num_pos: u32) -> Seq<u32> {
    Seq::new((ind.len() / 3 * 3) as nat, |k: int| {
        let c = k / 3 * 3;
        let src = if k % 3 == 0 {
            ind[c]
        } else if k % 3 == 1 {
            ind[c + 2]
        } else {
            ind[c + 1]
        };
        (src + 2 * num_pos) as u32
    })
}

/// Point `o` (of six) of the two side triangles at outline point `i`.
pub open spec fn extrude_side(num_pos: u32, i: int, o: int) -> u32 {
    let a = num_pos + i;
    let next1 = a + num_pos;
    let prev1 = if a == 0 { 3 * num_pos - 1 } else { next1 - 1 };
    let next2 = if a == num_pos - 1 { num_pos as int } else { a + 1 };
    (if o == 0 || o == 3 {
        a
    } else if o == 1 || o == 5 {
        next1
    } else if o == 2 {
        prev1
    } else {
        next2
    }) as u32
}

/// The sides of an extruded way: two triangles for each point of the outline.
pub open spec fn extrude_sides(num_pos: u32) -> Seq<u32> {
    Seq::new((6 * num_pos) as nat, |k: int| extrude_side(num_pos, k / 6, k % 6))
}

/// The indices of an extruded way: the ground's, then the top's, then the sides'.
pub open spec fn extruded_indices(ind: Seq<u32>, num_pos: u32) -> Seq<u32> {
    ind + extrude_top(ind, num_pos) + extrude_sides(num_pos)
}

/// Extends the triangle indices of a way's ground (over `num_pos` outline points) with those
/// of its top and sides, for a mesh whose points are the ground, a copy of it, and two
/// copies of the raised outline.
pub fn extrude_way_indices(indices: &mut Vec<u32>, num_pos: u32)
    requires
        3 * num_pos <= u32::MAX,
        forall|k: int| 0 <= k < old(indices)@.len() / 3 * 3 ==> old(indices)@[k] + 2 * num_pos <= u32::MAX,
    ensures
        final(indices)@ == extruded_indices(old(indices)@, num_pos),
{
    let ghost ind = indices@;
    let n0 = indices.len();
    let whole = n0 / 3 * 3;
    let shift = 2 * num_pos;
    let mut c: usize = 0;
    while c < whole
        invariant
            ind == old(indices)@,
            n0 == ind.len(),
            whole == n0 / 3 * 3,
            shift == 2 * num_pos,
            c % 3 == 0,
            c <= whole,
            indices@ == ind + extrude_top(ind, num_pos).subrange(0, c as int),
            forall|k: int| 0 <= k < ind.len() / 3 * 3 ==> ind[k] + 2 * num_pos <= u32::MAX,
        decreases whole - c,
    {
        let ghost before = indices@;
        let a = indices[c] + shift;
        let b = indices[c + 2] + shift;
        let d = indices[c + 1] + shift;
        indices.push(a);
        indices.push(b);
        indices.push(d);
        proof {
            let top = extrude_top(ind, num_pos);
            assert(top[c as int] == a);
            assert(top[c + 1] == b);
            assert(top[c + 2] == d);
            assert(top.subrange(0, c + 3) =~= top.subrange(0, c as int).push(a).push(b).push(d));
            assert(indices@ =~= ind + top.subrange(0, c + 3));
        }
        c = c + 3;
    }
    proof {
        assert(extrude_top(ind, num_pos).subrange(0, whole as int) =~= extrude_top(ind, num_pos));
    }
    let ghost base = indices@;
    let mut i: u32 = 0;
    while i < num_pos
        invariant
            base == ind + extrude_top(ind, num_pos),
            3 * num_pos <= u32::MAX,
            i <= num_pos,
            indices@ == base + extrude_sides(num_pos).subrange(0, 6 * i as int),
        decreases num_pos - i,
    {
        let a = num_pos + i;
        let next1 = a + num_pos;
        let prev1 = if a == 0 { num_pos + num_pos * 2 - 1 } else { next1 - 1 };
        let next2 = if a == num_pos - 1 { num_pos } else { a + 1 };
        indices.push(a);
        indices.push(next1);
        indices.push(prev1);
        indices.push(a);
        indices.push(next2);
        indices.push(next1);
        proof {
            let sides = extrude_sides(num_pos);
            let k = 6 * i as int;
            assert(sides[k] == a);
            assert(sides[k + 1] == next1);
            assert(sides[k + 2] == prev1);
            assert(sides[k + 3] == a);
            assert(sides[k + 4] == next2);
            assert(sides[k + 5] == next1);
            assert(sides.subrange(0, k + 6) =~= sides.subrange(0, k).push(a).push(next1).push(prev1).push(a).push(next2).push(next1));
        }
        i = i + 1;
    }
    proof {
        assert(extrude_sides(num_pos).subrange(0, 6 * num_pos as int) =~= extrude_sides(num_pos));
    }
}

/// Where a channel of an exported pixel comes from: a channel of the source pixel, or a
/// fixed value.
#[derive(Debug, Clone, Copy, PartialEq, Eq, Structural)]
pub enum TextureChannelIdentifier {
    Channel(usize),
    Clear(u8),
}

impl TextureChannelIdentifier {
    /// The value of the channel for the source pixel `data`.
    pub fn transform_value(&self, channel: u8, data: &[u8]) -> (r: u8)
        requires
            *self matches TextureChannelIdentifier::Channel(n) ==> n < data@.len(),
        ensures
            r == (match *self {
                TextureChannelIdentifier::Channel(n) => data@[n as int],
                TextureChannelIdentifier::Clear(v) => v,
            }),
    {
        match self {
            TextureChannelIdentifier::Channel(nchan) => data[*nchan],
            TextureChannelIdentifier::Clear(value) => *value,
        }
    }
}

/// The integer rearrangements of an exported texture's pixels (four bytes each): kept as
/// they are; a normal map's channels; a channel copied to alpha; white with a channel,
/// inverted, as alpha; or each channel picked anew.
#[derive(Debug, Clone, Copy, PartialEq, Eq, Structural)]
pub enum PixelRemap {
    Keep,
    NormalMap,
    ChannelToAlpha(usize),
    ChannelToAlphaInvertAndClear(usize),
    ChannelModify(TextureChannelIdentifier, TextureChannelIdentifier, TextureChannelIdentifier, TextureChannelIdentifier),
}

/// The channel's value for the pixel `p`.
pub open spec fn channel_value(c: TextureChannelIdentifier, p: Seq<u8>) -> u8 {
    match c {
        TextureChannelIdentifier::Channel(n) => p[n as int],
        TextureChannelIdentifier::Clear(v) => v,
    }
}

/// A channel picked from a pixel is one of its four.
pub open spec fn channel_in_pixel(c: TextureChannelIdentifier) -> bool {
    c matches TextureChannelIdentifier::Channel(n) ==> n < 4
}

/// Every channel that the rearrangement reads is one of a pixel's four.
pub open spec fn remap_in_pixel(m: PixelRemap) -> bool {
    match m {
        PixelRemap::ChannelToAlpha(c) => c < 4,
        PixelRemap::ChannelToAlphaInvertAndClear(c) => c < 4,
        PixelRemap::ChannelModify(a, b, c, d) => channel_in_pixel(a) && channel_in_pixel(b)
            && channel_in_pixel(c) && channel_in_pixel(d),
        _ => true,
    }
}

/// One pixel after the rearrangement.
pub open spec fn remap_pixel(p: Seq<u8>, m: PixelRemap) -> Seq<u8> {
    match m {
        PixelRemap::Keep => p,
        PixelRemap::NormalMap => seq![p[1], p[3], p[2], 255u8],
        PixelRemap::ChannelToAlpha(c) => seq![p[0], p[1], p[2], p[c as int]],
        PixelRemap::ChannelToAlphaInvertAndClear(c) => seq![255u8, 255u8, 255u8, (255 - p[c as int]) as u8],
        PixelRemap::ChannelModify(a, b, c, d) => seq![
            channel_value(a, p),
            channel_value(b, p),
            channel_value(c, p),
            channel_value(d, p),
        ],
    }
}

/// The four bytes of pixel `i`.
pub open spec fn pixel(data: Seq<u8>, i: int) -> Seq<u8> {
    data.subrange(4 * i, 4 * i + 4)
}

/// Rearranges the pixels of a texture. `Keep` gives the data back as it is; any other
/// rearrangement is made on each whole pixel, and bytes after the last whole pixel are
/// dropped.
pub fn remap_pixels(data: &Vec<u8>, m: PixelRemap) -> (r: Vec<u8>)
    requires
        data@.len() >= 4 ==> remap_in_pixel(m),
    ensures
        m == PixelRemap::Keep ==> r@ == data@,
        m != PixelRemap::Keep ==> r@.len() == 4 * (data@.len() / 4) && forall|i: int| 0 <= i < data@.len() / 4
            ==> #[trigger] pixel(r@, i) == remap_pixel(pixel(data@, i), m),
{
    if m == PixelRemap::Keep {
        let mut out: Vec<u8> = Vec::new();
        let mut k: usize = 0;
        while k < data.len()
            invariant
                k <= data@.len(),
                out@ == data@.subrange(0, k as int),
            decreases data@.len() - k,
        {
            out.push(data[k]);
            assert(out@ =~= data@.subrange(0, k + 1));
            k = k + 1;
        }
        assert(data@.subrange(0, data@.len() as int) =~= data@);
        return out;
    }
    let len = data.len();
    let n = len / 4;
    let mut out: Vec<u8> = Vec::new();
    let mut i: usize = 0;
    while i < n
        invariant
            len == data@.len(),
            n == data@.len() / 4,
            i <= n,
            data@.len() >= 4 ==> remap_in_pixel(m),
            m != PixelRemap::Keep,
            out@.len() == 4 * i,
            forall|j: int| 0 <= j < i ==> #[trigger] pixel(out@, j) == remap_pixel(pixel(data@, j), m),
        decreases n - i,
    {
        assert(4 * i + 4 <= len) by (nonlinear_arith)
            requires
                i < n,
                n == len / 4,
        ;
        let b = 4 * i;
        let p0 = data[b];
        let p1 = data[b + 1];
        let p2 = data[b + 2];
        let p3 = data[b + 3];
        let px: [u8; 4] = [p0, p1, p2, p3];
        let ghost pd = pixel(data@, i as int);
        assert(px@ =~= pd);
        let q: [u8; 4] = match m {
            PixelRemap::Keep => px,
            PixelRemap::NormalMap => [p1, p3, p2, 255],
            PixelRemap::ChannelToAlpha(c) => [p0, p1, p2, px[c]],
            PixelRemap::ChannelToAlphaInvertAndClear(c) => [255, 255, 255, 255 - px[c]],
            PixelRemap::ChannelModify(a, bb, c, d) => [
                a.transform_value(0, &px),
                bb.transform_value(0, &px),
                c.transform_value(0, &px),
                d.transform_value(0, &px),
            ],
        };
        assert(q@ =~= remap_pixel(pd, m));
        let ghost before = out@;
        out.push(q[0]);
        out.push(q[1]);
        out.push(q[2]);
        out.push(q[3]);
        assert forall|j: int| 0 <= j < i + 1 implies #[trigger] pixel(out@, j) == remap_pixel(pixel(data@, j), m) by {
            if j < i {
                assert(pixel(out@, j) =~= pixel(before, j));
            } else {
                assert(pixel(out@, j) =~= q@);
            }
        }
        i = i + 1;
    }
    out
}

/// The texture's data holds four bytes for each of its pixels.
pub fn texture_size_matches(len: usize, width: u16, height: u16) -> (r: bool)
    ensures
        r == (len as int == width as int * height as int * 4),
{
    let w: u64 = width as u64;
    let h: u64 = height as u64;
    assert(w * h <= 0xFFFF * 0xFFFF) by (nonlinear_arith)
        requires w <= 0xFFFF, h <= 0xFFFF;
    let size: u64 = w * h * 4;
    len as u128 == size as u128
}

/// The least multiple of four that is not below `n`.
pub fn align_to_multiple_of_four(n: usize) -> (r: usize)
    requires
        n <= usize::MAX - 3,
    ensures
        r == (n + 3) / 4 * 4,
        r % 4 == 0,
        n <= r < n + 4,
{
    let m: usize = n + 3;
    let r = m & !3usize;
    assert(r == m / 4 * 4 && r % 4 == 0 && m - 3 <= r && r < m + 1) by (bit_vector)
        requires
            m >= 3,
            r == m & !3usize,
    ;
    r
}

} // verus!
