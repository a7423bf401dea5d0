use vstd::prelude::*;
use crate::objects::{YetiObjectView, yeti_load, yeti_load_ok, yeti_unload};
use crate::objects::archetype::archetype_unload;
use crate::object_type::{ObjectType, object_type_code, object_type_from_code};
use crate::objects::zone::{ZoneType, zone_type_code, zone_type_of};
use vstd::std_specs::convert::FromSpec;
use crate::metadata::YKey;
use crate::bigfile::type_display_name;
use crate::objects::skeleton::BoneParent;
use crate::export::{extrude_sides, extrude_top, extruded_indices};
use crate::objects::ai_const::{ConstTreeView, ConstValueView, find_node_from, tree_insert, insert_const,
    const_name, const_with_name, split_prefix, split_backslash};

use crate::objects::zone::{Zone, ZoneSphere, zone_load, sphere_load};
use crate::objects::common::{Outcome, mat4_at};
use crate::objects::texture::{TextureDataView, texture_data_load};
use crate::metadata::{BigfileVersion, folder_entry_at};
use crate::objects::skeleton::bone_at;
use crate::objects::meshes::submesh_at;
use crate::bytes::{le_u16, le_u32, le_u64, le_i32};
use crate::objects::common::{vec3_at, list_run, Step};
use crate::objects::skeleton::children_of;
use crate::objects::ini::{IniEntryView, ini_entry_at};
use crate::objects::dtb::{ColumnDataView, column_at};
use crate::objects::eps::struct_entry_at;
use crate::objects::way::way_data_at;
use crate::text::{first_zero, nul_string_at};
use crate::objects::zone::{ZoneOBox, obox_load};
use crate::objects::texture::{TextureMetaType, texture_metadata_load};
use crate::objects::meshes::face_at;
use crate::objects::curve::{simple_point_at, full_point_at};
use crate::objects::gameobject::{Light, color_bgra_at, light_at};
use crate::objects::collision::quad_at;
use crate::metadata::{segment_header_of, bigfile_header_of, file_entry_at, file_entry_size};

verus! {

/// A load that succeeds holds the object once more and clears its last error; one that
/// fails leaves the load count as it was and keeps the error it returns, which carries the
/// object's key. Either way the object keeps its key and name.
pub proof fn law_load_outcome(v: YetiObjectView, s: Seq<u8>)
    requires
        yeti_load_ok(v, s),
    ensures
        yeti_load(v, s).0.key == v.key,
        yeti_load(v, s).0.name == v.name,
        yeti_load(v, s).1 is Ok ==> yeti_load(v, s).0.load_refs == v.load_refs + 1
            && yeti_load(v, s).0.load_error is None,
        yeti_load(v, s).1 matches Err(e) ==> yeti_load(v, s).0.load_refs == v.load_refs
            && e.1 == v.key && yeti_load(v, s).0.load_error == Some(e),
{
}

/// Loading an object that no load held and then unloading it leaves it held by none, with
/// no references and its archetype unloaded.
pub proof fn law_load_then_unload(v: YetiObjectView, s: Seq<u8>)
    requires
        yeti_load_ok(v, s),
        v.load_refs == 0,
        yeti_load(v, s).1 is Ok,
    ensures
        ({
            let loaded = yeti_load(v, s).0;
            let u = yeti_unload(loaded);
            &&& loaded.load_refs == 1
            &&& u.load_refs == 0
            &&& u.references == Seq::<u32>::empty()
            &&& u.archetype == archetype_unload(loaded.archetype)
            &&& u.key == v.key
            &&& u.name == v.name
            &&& u.load_error is None
        }),
{
}

/// Unloading an object that no load holds changes nothing.
pub proof fn law_unload_unloaded(v: YetiObjectView)
    requires
        v.load_refs == 0,
    ensures
        yeti_unload(v) == v,
{
}

/// One more load of an object that is already loaded is undone by one unload.
pub proof fn law_unload_undoes_extra_load(v: YetiObjectView)
    requires
        1 <= v.load_refs < u32::MAX,
    ensures
        yeti_unload(YetiObjectView { load_refs: (v.load_refs + 1) as u32, ..v }) == v,
{
}

/// In a table of objects, loading a loaded object again (which only counts one more load)
/// and then unloading it gives back the table as it was.
pub proof fn law_reload_then_unload_restores(objs: Map<u32, YetiObjectView>, k: u32)
    requires
        objs.contains_key(k),
        1 <= objs[k].load_refs < u32::MAX,
    ensures
        ({
            let reloaded = objs.insert(k, YetiObjectView { load_refs: (objs[k].load_refs + 1) as u32, ..objs[k] });
            reloaded.insert(k, yeti_unload(reloaded[k])) == objs
        }),
{
    let reloaded = objs.insert(k, YetiObjectView { load_refs: (objs[k].load_refs + 1) as u32, ..objs[k] });
    law_unload_undoes_extra_load(objs[k]);
    assert(reloaded.insert(k, yeti_unload(reloaded[k])) =~= objs);
}

/// Every object type is read back from the number it is stored as.
#[verifier::rlimit(50)]
pub proof fn law_object_type_code_round_trip(t: ObjectType)
    ensures
        object_type_from_code(object_type_code(t)) == Some(t),
{
}

/// A number read as an object type is the number that type is stored as; the numbers
/// from 149 on are no type.
#[verifier::rlimit(50)]
pub proof fn law_object_type_from_code(v: u16)
    ensures
        object_type_from_code(v) matches Some(t) ==> object_type_code(t) == v,
        object_type_from_code(v) is None <==> v >= 149,
{
}

/// A key converted to its number and back is the same key, and the other way round.
pub proof fn law_key_conversions_round_trip(k: YKey, v: u32)
    ensures
        <YKey as FromSpec<u32>>::from_spec(<u32 as FromSpec<YKey>>::from_spec(k)) == k,
        <u32 as FromSpec<YKey>>::from_spec(<YKey as FromSpec<u32>>::from_spec(v)) == v,
{
}

/// A bone parent converted to an optional index and back is the same, and the other way round.
pub proof fn law_bone_parent_conversions_round_trip(b: BoneParent, o: Option<u8>)
    ensures
        <BoneParent as FromSpec<Option<u8>>>::from_spec(<Option<u8> as FromSpec<BoneParent>>::from_spec(b)) == b,
        <Option<u8> as FromSpec<BoneParent>>::from_spec(<BoneParent as FromSpec<Option<u8>>>::from_spec(o)) == o,
{
}

/// A number that tells the display names apart: the length, the first character and the
/// last two characters.
spec fn name_sig(s: Seq<char>) -> int {
    ((s.len() * 256 + s[0] as int) * 256 + s[s.len() - 1] as int) * 256 + s[s.len() - 2] as int
}

spec fn display_sig(t: ObjectType) -> int {
    match t {
        ObjectType::ini => 140069198,
        ObjectType::wor => 89613420,
        ObjectType::woc => 324495209,
        ObjectType::gol => 374830195,
        ObjectType::wal => 240612467,
        ObjectType::lay => 190280293,
        ObjectType::pco => 357592687,
        ObjectType::gao => 189232227,
        ObjectType::way => 89603872,
        ObjectType::cur => 88302966,
        ObjectType::wel => 290941806,
        ObjectType::seq => 139683171,
        ObjectType::got => 340223340,
        ObjectType::msh => 223175028,
        ObjectType::vxc => 257310496,
        ObjectType::mat => 139291745,
        ObjectType::sha => 106132069,
        ObjectType::tga => 273965428,
        ObjectType::ske => 139685487,
        ObjectType::shd => 223769189,
        ObjectType::dst => 105142342,
        ObjectType::cub => 121860193,
        ObjectType::zc => 155284592,
        ObjectType::acb => 188836718,
        ObjectType::act => 104951407,
        ObjectType::ani => 155283055,
        ObjectType::aev => 255947886,
        ObjectType::end => 356872815,
        ObjectType::snk => 173239150,
        ObjectType::sam => 240346467,
        ObjectType::sin => 156453198,
        ObjectType::smx => 156465257,
        ObjectType::svs => 391345251,
        ObjectType::ai => 138505317,
        ObjectType::aiv => 188835180,
        ObjectType::zon => 73033070,
        ObjectType::col => 239301747,
        ObjectType::cot => 373515628,
        ObjectType::ccm => 356739187,
        ObjectType::gml => 306672755,
        ObjectType::gmt => 222784609,
        ObjectType::dbk => 205810542,
        ObjectType::dbl => 289698931,
        ObjectType::dbr => 457471091,
        ObjectType::wil => 307721331,
        ObjectType::lab => 273443694,
        ObjectType::feu => 205940071,
        ObjectType::ffd => 289826151,
        ObjectType::top => 274168168,
        ObjectType::msd => 156066164,
        ObjectType::nav => 240607604,
        ObjectType::cst => 222393459,
        ObjectType::syw => 273891135,
        ObjectType::swl => 357777215,
        ObjectType::txd => 206856564,
        ObjectType::fbk => 155609966,
        ObjectType::eps => 406942819,
        ObjectType::epl => 373388403,
        ObjectType::dtb => 172254572,
        ObjectType::otf => 139424878,
        ObjectType::ttf => 139752558,
        ObjectType::zar => 207240992,
        _ => -1,
    }
}

spec fn sig_type(n: int) -> ObjectType {
    if n == 140069198 { ObjectType::ini } else
    if n == 89613420 { ObjectType::wor } else
    if n == 324495209 { ObjectType::woc } else
    if n == 374830195 { ObjectType::gol } else
    if n == 240612467 { ObjectType::wal } else
    if n == 190280293 { ObjectType::lay } else
    if n == 357592687 { ObjectType::pco } else
    if n == 189232227 { ObjectType::gao } else
    if n == 89603872 { ObjectType::way } else
    if n == 88302966 { ObjectType::cur } else
    if n == 290941806 { ObjectType::wel } else
    if n == 139683171 { ObjectType::seq } else
    if n == 340223340 { ObjectType::got } else
    if n == 223175028 { ObjectType::msh } else
    if n == 257310496 { ObjectType::vxc } else
    if n == 139291745 { ObjectType::mat } else
    if n == 106132069 { ObjectType::sha } else
    if n == 273965428 { ObjectType::tga } else
    if n == 139685487 { ObjectType::ske } else
    if n == 223769189 { ObjectType::shd } else
    if n == 105142342 { ObjectType::dst } else
    if n == 121860193 { ObjectType::cub } else
    if n == 155284592 { ObjectType::zc } else
    if n == 188836718 { ObjectType::acb } else
    if n == 104951407 { ObjectType::act } else
    if n == 155283055 { ObjectType::ani } else
    if n == 255947886 { ObjectType::aev } else
    if n == 356872815 { ObjectType::end } else
    if n == 173239150 { ObjectType::snk } else
    if n == 240346467 { ObjectType::sam } else
    if n == 156453198 { ObjectType::sin } else
    if n == 156465257 { ObjectType::smx } else
    if n == 391345251 { ObjectType::svs } else
    if n == 138505317 { ObjectType::ai } else
    if n == 188835180 { ObjectType::aiv } else
    if n == 73033070 { ObjectType::zon } else
    if n == 239301747 { ObjectType::col } else
    if n == 373515628 { ObjectType::cot } else
    if n == 356739187 { ObjectType::ccm } else
    if n == 306672755 { ObjectType::gml } else
    if n == 222784609 { ObjectType::gmt } else
    if n == 205810542 { ObjectType::dbk } else
    if n == 289698931 { ObjectType::dbl } else
    if n == 457471091 { ObjectType::dbr } else
    if n == 307721331 { ObjectType::wil } else
    if n == 273443694 { ObjectType::lab } else
    if n == 205940071 { ObjectType::feu } else
    if n == 289826151 { ObjectType::ffd } else
    if n == 274168168 { ObjectType::top } else
    if n == 156066164 { ObjectType::msd } else
    if n == 240607604 { ObjectType::nav } else
    if n == 222393459 { ObjectType::cst } else
    if n == 273891135 { ObjectType::syw } else
    if n == 357777215 { ObjectType::swl } else
    if n == 206856564 { ObjectType::txd } else
    if n == 155609966 { ObjectType::fbk } else
    if n == 406942819 { ObjectType::eps } else
    if n == 373388403 { ObjectType::epl } else
    if n == 172254572 { ObjectType::dtb } else
    if n == 139424878 { ObjectType::otf } else
    if n == 139752558 { ObjectType::ttf } else
    if n == 207240992 { ObjectType::zar } else
    { ObjectType::null }
}

proof fn lemma_display_sig(t: ObjectType)
    requires
        type_display_name(t) is Some,
    ensures
        name_sig(type_display_name(t)->0) == display_sig(t),
        sig_type(display_sig(t)) == t,
{
    reveal_strlit("Yeti INI");
    reveal_strlit("World");
    reveal_strlit("World Engine Config");
    reveal_strlit("World Game Object List");
    reveal_strlit("World Way List");
    reveal_strlit("World Layer");
    reveal_strlit("Precomputed Occlusion");
    reveal_strlit("Game Object");
    reveal_strlit("Way ?");
    reveal_strlit("Curve");
    reveal_strlit("Way External Link");
    reveal_strlit("Sequence");
    reveal_strlit("Graphic Object Table");
    reveal_strlit("Mesh Metadata");
    reveal_strlit("Vertex Colors ?");
    reveal_strlit("Material");
    reveal_strlit("Shader");
    reveal_strlit("Texture Metadata");
    reveal_strlit("Skeleton");
    reveal_strlit("Visual Shader");
    reveal_strlit("DustFX");
    reveal_strlit("Cubemap");
    reveal_strlit("AI Script");
    reveal_strlit("Action Bank");
    reveal_strlit("Action");
    reveal_strlit("Animation");
    reveal_strlit("Animation Event");
    reveal_strlit("Enumerable Descriptor");
    reveal_strlit("Sound Bank");
    reveal_strlit("Sound Ambience");
    reveal_strlit("Sound INI");
    reveal_strlit("Sound Mix");
    reveal_strlit("Sound Volumetric Object");
    reveal_strlit("AI Model");
    reveal_strlit("AI Variable");
    reveal_strlit("Zone");
    reveal_strlit("Collision List");
    reveal_strlit("Collision Object Table");
    reveal_strlit("Convex Collision Mesh");
    reveal_strlit("Game Material List");
    reveal_strlit("Game Material");
    reveal_strlit("Dynamic Bank");
    reveal_strlit("Dynamic Bank List");
    reveal_strlit("Dynamic Bank Reference List");
    reveal_strlit("World Include List");
    reveal_strlit("List Action Bank");
    reveal_strlit("Fire Package");
    reveal_strlit("Fire Font Package");
    reveal_strlit("World Topography");
    reveal_strlit("Mesh Data");
    reveal_strlit("World Nav Data");
    reveal_strlit("AI Const List");
    reveal_strlit("Synapse World ??");
    reveal_strlit("Synapse World List ??");
    reveal_strlit("Texture Data");
    reveal_strlit("Fire Bank");
    reveal_strlit("AI Editable Param Struct");
    reveal_strlit("AI Editable Param List");
    reveal_strlit("Data Table");
    reveal_strlit("OTF Font");
    reveal_strlit("TTF Font");
    reveal_strlit("Zone Array ?");
}

/// Distinct object types that have display names have distinct ones: `obj_type_to_name`,
/// which gives `type_display_name`, never names two types alike.
pub proof fn law_display_names_distinct(t1: ObjectType, t2: ObjectType)
    requires
        t1 != t2,
        type_display_name(t1) is Some,
        type_display_name(t2) is Some,
    ensures
        type_display_name(t1) != type_display_name(t2),
{
    lemma_display_sig(t1);
    lemma_display_sig(t2);
}

/// A zone shape number up to 5 is stored back as itself; a larger one reads as a point.
pub proof fn law_zone_type_code(b: u8)
    ensures
        b <= 5 ==> zone_type_code(zone_type_of(b)) == b,
        b > 5 ==> zone_type_of(b) == ZoneType::Point,
{
}

/// An extruded way's mesh has four copies of its outline of `num_pos` points; every side
/// index lies in the copies after the ground (from `num_pos` up to `3 * num_pos`), and
/// every top index is a ground index moved to the top copy.
pub proof fn law_extrusion_indices_in_range(ind: Seq<u32>, num_pos: u32)
    requires
        3 * num_pos <= u32::MAX,
        forall|k: int| 0 <= k < ind.len() ==> ind[k] < num_pos,
    ensures
        forall|k: int| 0 <= k < 6 * num_pos ==> num_pos <= #[trigger] extrude_sides(num_pos)[k] < 3 * num_pos,
        forall|k: int| 0 <= k < ind.len() / 3 * 3 ==> 2 * num_pos <= #[trigger] extrude_top(ind, num_pos)[k] < 3 * num_pos,
        extruded_indices(ind, num_pos).len() == ind.len() + ind.len() / 3 * 3 + 6 * num_pos,
{
    assert forall|k: int| 0 <= k < 6 * num_pos implies num_pos <= #[trigger] extrude_sides(num_pos)[k] < 3 * num_pos by {
        assert(0 <= k / 6 < num_pos) by (nonlinear_arith)
            requires
                0 <= k < 6 * num_pos,
        ;
        assert(0 <= k % 6 < 6);
        let a = num_pos + k / 6;
        assert(num_pos <= a < 2 * num_pos);
    }
    assert forall|k: int| 0 <= k < ind.len() / 3 * 3 implies 2 * num_pos <= #[trigger] extrude_top(ind, num_pos)[k] < 3 * num_pos by {
        let c = k / 3 * 3;
        assert(0 <= c && c + 2 < ind.len()) by (nonlinear_arith)
            requires
                0 <= k < ind.len() / 3 * 3,
                c == k / 3 * 3,
        ;
    }
}

/// Filing a value under a path keeps the name of the node it is filed in.
proof fn lemma_tree_insert_name(t: ConstTreeView, path: Seq<Seq<char>>, v: ConstValueView)
    ensures
        tree_insert(t, path, v).name == t.name,
    decreases path.len(),
{
}

/// Replacing the first node with a name by another node with that name keeps it first.
proof fn lemma_find_after_update(nodes: Seq<ConstTreeView>, name: Seq<char>, j: int, x: ConstTreeView, i: int)
    requires
        0 <= i <= j < nodes.len(),
        find_node_from(nodes, name, i) == j,
        x.name == name,
    ensures
        find_node_from(nodes.update(j, x), name, i) == j,
    decreases j - i,
{
    if i < j {
        lemma_find_after_update(nodes, name, j, x, i + 1);
    }
}

/// A node added after siblings none of which has its name is the first with that name.
proof fn lemma_find_after_push(nodes: Seq<ConstTreeView>, name: Seq<char>, x: ConstTreeView, i: int)
    requires
        0 <= i <= nodes.len(),
        find_node_from(nodes, name, i) == -1,
        x.name == name,
    ensures
        find_node_from(nodes.push(x), name, i) == nodes.len(),
    decreases nodes.len() - i,
{
    if i < nodes.len() {
        lemma_find_after_push(nodes, name, x, i + 1);
    }
}

/// After a value is filed under a path, the tree has a node named as the path's first step.
pub proof fn law_insert_makes_first_node(t: ConstTreeView, path: Seq<Seq<char>>, v: ConstValueView)
    requires
        path.len() > 0,
    ensures
        find_node_from(tree_insert(t, path, v).nodes, path[0], 0) >= 0,
{
    let j = find_node_from(t.nodes, path[0], 0);
    crate::objects::ai_const::lemma_find_node_from(t.nodes, path[0], 0);
    if j >= 0 {
        lemma_tree_insert_name(t.nodes[j], path.drop_first(), v);
        lemma_find_after_update(t.nodes, path[0], j, tree_insert(t.nodes[j], path.drop_first(), v), 0);
    } else {
        let x = tree_insert(crate::objects::ai_const::new_tree(path[0]), path.drop_first(), v);
        lemma_tree_insert_name(crate::objects::ai_const::new_tree(path[0]), path.drop_first(), v);
        lemma_find_after_push(t.nodes, path[0], x, 0);
    }
}

/// A name without backslashes is not split.
proof fn lemma_split_prefix_plain(s: Seq<char>, n: nat)
    requires
        n <= s.len(),
        forall|i: int| 0 <= i < s.len() ==> s[i] != '\\',
    ensures
        split_prefix(s, n) == (Seq::<Seq<char>>::empty(), 0int),
    decreases n,
{
    if n > 0 {
        lemma_split_prefix_plain(s, (n - 1) as nat);
    }
}

/// A constant whose name has no backslash is filed among the values of the tree itself,
/// after those it had.
pub proof fn law_plain_const_at_root(t: ConstTreeView, c: ConstValueView)
    requires
        forall|i: int| 0 <= i < const_name(c).len() ==> const_name(c)[i] != '\\',
    ensures
        insert_const(t, c) == (ConstTreeView { values: t.values.push(c), ..t }),
{
    let s = const_name(c);
    lemma_split_prefix_plain(s, s.len());
    assert(s.subrange(0, s.len() as int) =~= s);
    assert(split_backslash(s) =~= seq![s]);
    assert(split_backslash(s).drop_last() =~= Seq::<Seq<char>>::empty());
    assert(const_with_name(c, s) == c);
}

/// A sphere's fields are four little-endian 32-bit values in the order x, y, z, radius:
/// with sixteen bytes at `p`, reading them succeeds with x from `p`, y from `p + 4`, z from
/// `p + 8` and the radius from `p + 12`, whatever the sphere held before.
pub proof fn law_sphere_fields_in_order(old: ZoneSphere, s: Seq<u8>, p: int)
    requires
        0 <= p,
        p + 16 <= s.len(),
    ensures
        sphere_load(old, s, p) == Outcome::Done(
            ZoneSphere { x: le_u32(s, p), y: le_u32(s, p + 4), z: le_u32(s, p + 8), radius: le_u32(s, p + 12) },
        ),
{
}

/// A sphere zone (type byte 2 after a first byte and the 0x80 marker) of at least 22 bytes
/// loads with its centre and radius taken from the little-endian values at offsets 6, 10,
/// 14 and 18, in that order, and its six header bytes as they are.
pub proof fn law_sphere_zone_layout(old: Zone, s: Seq<u8>)
    requires
        s.len() >= 22,
        s[1] == 0x80,
        s[2] == 2,
    ensures
        zone_load(old, s) matches Outcome::Done(z) && z.zone_type == ZoneType::Sphere(
            ZoneSphere { x: le_u32(s, 6), y: le_u32(s, 10), z: le_u32(s, 14), radius: le_u32(s, 18) },
        ) && z.unk_01 == s[0] && z.unk_04 == s[3] && z.unk_05 == s[4] && z.unk_06 == s[5],
{
}

/// Texture data of at least eight bytes loads, and its pixels are exactly the bytes from
/// offset 8 to the end: as many as the buffer holds past its eight header bytes, each the
/// byte eight places further on.
pub proof fn law_texture_pixels_after_header(old: TextureDataView, s: Seq<u8>)
    requires
        s.len() >= 8,
    ensures
        texture_data_load(old, s) matches Outcome::Done(t) && t.texture_data.len() == s.len() - 8
            && (forall|i: int| 0 <= i < t.texture_data.len() ==> #[trigger] t.texture_data[i] == s[i + 8]),
{
}

/// A folder entry's links: the parent folder is the little-endian 16-bit value at offset 4
/// of the entry and the first child the one at offset 6; in a GRO bigfile, whose entries
/// have two more fields before them, at offsets 8 and 10.
pub proof fn law_folder_entry_links(s: Seq<u8>, p: int, version: BigfileVersion)
    ensures
        folder_entry_at(s, p, version).parent_folder == le_u16(s, if version == BigfileVersion::GRO { p + 8 } else { p + 4 }),
        folder_entry_at(s, p, version).first_child == le_u16(s, if version == BigfileVersion::GRO { p + 10 } else { p + 6 }),
{
}

/// A bone record of 196 bytes at `p` is read whole: four bytes, the parent byte, 63 data
/// bytes, then the bind matrix (the 64 bytes at `p + 68`) and the inverse bind matrix (the 64
/// bytes at `p + 132`); the next record starts at `p + 196`.
pub proof fn law_bone_matrices_in_order(s: Seq<u8>, p: int)
    requires
        0 <= p,
        p + 196 <= s.len(),
    ensures
        bone_at(s, p) matches Ok((b, e)) && e == p + 196 && b.parent == (if s[p + 4] == 255 { None } else { Some(s[p + 4]) })
            && b.bind_matrix == mat4_at(s, p + 68) && b.inv_bind_matrix == mat4_at(s, p + 132),
{
}

/// Of any bone that is read, the bind matrix is the 64 bytes that end 64 bytes before the
/// record's end, and the inverse bind matrix the last 64 bytes of the record.
pub proof fn law_bone_matrices_end_record(s: Seq<u8>, p: int)
    requires
        bone_at(s, p) is Ok,
    ensures
        bone_at(s, p) matches Ok((b, e)) && b.bind_matrix == mat4_at(s, e - 128)
            && b.inv_bind_matrix == mat4_at(s, e - 64),
{
}

/// A submesh descriptor whose bytes are there is read with its first vertex from the
/// little-endian 16-bit value at its first byte and its vertex count from the one at its
/// third byte; it ends after its fifteen fixed bytes and the bytes its length byte counts.
pub proof fn law_submesh_vertex_range(s: Seq<u8>, p: int)
    requires
        0 <= p,
        p + 15 <= s.len(),
        p + 15 + s[p + 14] <= s.len(),
    ensures
        submesh_at(s, p) matches Ok((d, e)) && d.vtx_start == le_u16(s, p) && d.vtx_num == le_u16(s, p + 2)
            && e == p + 15 + s[p + 14],
{
}

/// A segment header's fields lie in order: the signature in the first four bytes, the
/// segment count at byte 5 and the segment's index at byte 6, then five little-endian
/// 64-bit values from byte 8 on, the header's position being the second of them (byte 16).
pub proof fn law_segment_header_layout(s: Seq<u8>)
    ensures
        segment_header_of(s).sig@ == seq![s[0], s[1], s[2], s[3]],
        segment_header_of(s).num_segments == s[5],
        segment_header_of(s).segment == s[6],
        segment_header_of(s).unk_seg_offset01 == le_u64(s, 8),
        segment_header_of(s).header_offset == le_u64(s, 16),
        segment_header_of(s).prev_total_data_len == le_u64(s, 24),
        segment_header_of(s).total_data_len == le_u64(s, 32),
        segment_header_of(s).last_update == le_u64(s, 40),
{
    assert(segment_header_of(s).sig@ =~= seq![s[0], s[1], s[2], s[3]]);
}

/// A bigfile header gives the number of folders as the 16-bit value at byte 2, the number
/// of files as the 32-bit value at byte 4 and the load priority as the one at byte 80; the
/// byte at 84 says whether it activates by itself.
pub proof fn law_bigfile_header_counts(s: Seq<u8>)
    ensures
        bigfile_header_of(s).num_folders == le_u16(s, 2),
        bigfile_header_of(s).num_files == le_u32(s, 4),
        bigfile_header_of(s).load_priority == le_u32(s, 80),
        bigfile_header_of(s).auto_activate == (s[84] != 0),
{
}

/// A file entry's fields lie in order: the data offset (in eight-byte steps) at byte 0, the
/// key at byte 4, the type code at byte 12, the parent folder at byte 14, the time stamp at
/// byte 16, the flags at byte 20, the name from byte 32 up to byte 92, and in a GRO bigfile
/// the entry is compressed when the value at byte 96 is 1.
pub proof fn law_file_entry_layout(s: Seq<u8>, p: int, version: BigfileVersion)
    requires
        0 <= p,
        p + file_entry_size(version) <= s.len(),
    ensures
        file_entry_at(s, p, version).offset == le_u32(s, p),
        file_entry_at(s, p, version).key.0 == le_u32(s, p + 4),
        file_entry_at(s, p, version).object_type == object_type_from_code(le_u16(s, p + 12))->0,
        file_entry_at(s, p, version).parent_folder == le_u16(s, p + 14),
        file_entry_at(s, p, version).timestamp == le_i32(s, p + 16) as i64,
        file_entry_at(s, p, version).flags == le_i32(s, p + 20),
        file_entry_at(s, p, version).name@ == s.subrange(p + 32, p + 92),
        file_entry_at(s, p, version).zip == (version == BigfileVersion::GRO && le_i32(s, p + 96) == 1),
{
    assert(file_entry_at(s, p, version).name@ =~= s.subrange(p + 32, p + 92));
}

/// A vector is three little-endian 32-bit values x, y, z in turn, and a matrix sixteen,
/// its `i`-th value the four bytes at `p + 4 * i`.
pub proof fn law_vector_and_matrix_layout(s: Seq<u8>, p: int)
    ensures
        vec3_at(s, p).x == le_u32(s, p),
        vec3_at(s, p).y == le_u32(s, p + 4),
        vec3_at(s, p).z == le_u32(s, p + 8),
        forall|i: int| 0 <= i < 16 ==> #[trigger] mat4_at(s, p).cols@[i] == le_u32(s, p + 4 * i),
{
    assert forall|i: int| 0 <= i < 16 implies #[trigger] mat4_at(s, p).cols@[i] == le_u32(s, p + 4 * i) by {
        assert(0 <= i < 16);
    }
}

/// An oriented box is its matrix (64 bytes) followed by its extents (12 bytes).
pub proof fn law_obox_layout(old: ZoneOBox, s: Seq<u8>, p: int)
    requires
        0 <= p,
        p + 76 <= s.len(),
    ensures
        obox_load(old, s, p) == Outcome::Done(ZoneOBox { matrix: mat4_at(s, p), extents: vec3_at(s, p + 64) }),
{
}

/// Texture metadata of at least ten bytes with a known format has its width from the
/// little-endian 16-bit value at byte 4, its height from the one at byte 6 and its format
/// from byte 9.
pub proof fn law_texture_metadata_size(old: TextureMetaType, s: Seq<u8>)
    requires
        s.len() >= 10,
    ensures
        texture_metadata_load(old, s) matches Outcome::Done(TextureMetaType::Metadata(m)) ==> m.width == le_u16(s, 4)
            && m.height == le_u16(s, 6) && m.fmt_id == s[9],
        texture_metadata_load(old, s) is Done <==> texture_metadata_load(old, s) matches Outcome::Done(TextureMetaType::Metadata(_)),
{
}

/// A triangle is three little-endian 16-bit vertex indices in turn.
pub proof fn law_face_layout(s: Seq<u8>, p: int)
    requires
        0 <= p,
        p + 6 <= s.len(),
    ensures
        face_at(s, p) matches Ok((f, e)) && f.f0 == le_u16(s, p) && f.f1 == le_u16(s, p + 2) && f.f2 == le_u16(s, p + 4)
            && e == p + 6,
{
}

/// A simple curve point is x then y; a full one is a flags byte, then x, y, the in tangent
/// and the out tangent, each a little-endian 32-bit value.
pub proof fn law_curve_point_layout(s: Seq<u8>, p: int)
    requires
        0 <= p,
        p + 17 <= s.len(),
    ensures
        simple_point_at(s, p) matches Ok((c, e)) && c.x == le_u32(s, p) && c.y == le_u32(s, p + 4) && e == p + 8,
        full_point_at(s, p) matches Ok((c, e)) && c.flags == s[p] && c.x == le_u32(s, p + 1) && c.y == le_u32(s, p + 5)
            && c.in_tangent == le_u32(s, p + 9) && c.out_tangent == le_u32(s, p + 13) && e == p + 17,
{
}

/// A light's colour is stored blue, green, red, alpha, and its intensity follows it; a
/// spot light's range, inner and outer angles are the values at 12, 24 and 28 bytes in.
pub proof fn law_light_layout(s: Seq<u8>, p: int)
    requires
        0 <= p,
        p + 32 <= s.len(),
    ensures
        color_bgra_at(s, p).b == s[p] && color_bgra_at(s, p).g == s[p + 1] && color_bgra_at(s, p).r == s[p + 2]
            && color_bgra_at(s, p).a == s[p + 3],
        light_at(s, 2, p) matches Ok(Light::Spot(l)) && l.color == color_bgra_at(s, p) && l.intensity == le_u32(s, p + 4)
            && l.range == le_u32(s, p + 12) && l.inner_cone_angle == le_u32(s, p + 24)
            && l.outer_cone_angle == le_u32(s, p + 28),
        light_at(s, 1, p) matches Ok(Light::Point(l)) && l.color == color_bgra_at(s, p) && l.intensity == le_u32(s, p + 4)
            && l.range == le_u32(s, p + 12),
{
}

/// A collision quad is four little-endian 16-bit indices in turn.
pub proof fn law_quad_layout(s: Seq<u8>, p: int)
    requires
        0 <= p,
        p + 8 <= s.len(),
    ensures
        quad_at(s, p) matches Ok((q, e)) && q == seq![le_u16(s, p), le_u16(s, p + 2), le_u16(s, p + 4), le_u16(s, p + 6)]
            && e == p + 8,
{
}

/// A list of `n` items that is read through without failure has `n` items, read in
/// order: item `i` is what a read at the end of the items before it gives, and the next
/// item starts where it ended.
pub proof fn law_list_read_in_order<T>(s: Seq<u8>, p: int, n: nat, step: Step<T>)
    requires
        list_run(s, p, n, step).2 is None,
    ensures
        list_run(s, p, 0, step).1 == p,
        list_run(s, p, n, step).0.len() == n,
        forall|i: int| 0 <= i < n ==> ((#[trigger] step(s, list_run(s, p, i as nat, step).1)) matches Ok((x, q))
            && list_run(s, p, n, step).0[i] == x && list_run(s, p, (i + 1) as nat, step).1 == q),
    decreases n,
{
    if n > 0 {
        let prev = list_run(s, p, (n - 1) as nat, step);
        assert(prev.2 is None);
        law_list_read_in_order(s, p, (n - 1) as nat, step);
        assert forall|i: int| 0 <= i < n implies ((#[trigger] step(s, list_run(s, p, i as nat, step).1)) matches Ok((x, q))
            && list_run(s, p, n, step).0[i] == x && list_run(s, p, (i + 1) as nat, step).1 == q) by {
            if i < n - 1 {
                assert(list_run(s, p, n, step).0[i] == prev.0[i]);
            }
        }
    }
}

/// The children of bone `j` among the first `n` bones are exactly the bones among them
/// whose parent is `j`, each once, in increasing order.
pub proof fn law_children_name_their_parent(parents: Seq<Option<u8>>, j: int, n: nat)
    requires
        0 <= j < 256,
        n <= 256,
    ensures
        forall|c: u8| children_of(parents, j, n).contains(c) <==> (c < n && parents[c as int] == Some(j as u8)),
        forall|a: int, b: int| 0 <= a < b < children_of(parents, j, n).len()
            ==> children_of(parents, j, n)[a] < children_of(parents, j, n)[b],
        forall|a: int| 0 <= a < children_of(parents, j, n).len() ==> children_of(parents, j, n)[a] < n,
    decreases n,
{
    if n > 0 {
        law_children_name_their_parent(parents, j, (n - 1) as nat);
        let prev = children_of(parents, j, (n - 1) as nat);
        let cur = children_of(parents, j, n);
        assert forall|c: u8| cur.contains(c) <==> (c < n && parents[c as int] == Some(j as u8)) by {
            if parents[n - 1] == Some(j as u8) {
                assert(cur == prev.push((n - 1) as u8));
                if cur.contains(c) {
                    let k = choose|k: int| 0 <= k < cur.len() && cur[k] == c;
                    if k < prev.len() {
                        assert(prev.contains(c));
                    }
                }
                if c < n && parents[c as int] == Some(j as u8) {
                    if c == n - 1 {
                        assert(cur[prev.len() as int] == c);
                    } else {
                        assert(prev.contains(c));
                        let k = choose|k: int| 0 <= k < prev.len() && prev[k] == c;
                        assert(cur[k] == c);
                    }
                }
            } else {
                if c == n - 1 && cur.contains(c) {
                    assert(prev.contains(c));
                }
            }
        }
    }
}

/// An INI entry that is read is its zero-terminated name, then a kind byte right after the
/// terminator and a little-endian 32-bit value after that: kind 0 is an integer, kind 1 an
/// asset key; the entry ends five bytes after the terminator.
pub proof fn law_ini_entry_layout(s: Seq<u8>, p: int)
    ensures
        ini_entry_at(s, p) matches Ok((e, q)) ==> {
            let z = first_zero(s, p);
            &&& q == z + 6
            &&& s[z + 1] == 0 ==> (e matches IniEntryView::Int(_, v) && v == le_u32(s, z + 2))
            &&& s[z + 1] == 1 ==> (e matches IniEntryView::AssetKey(_, v) && v == le_u32(s, z + 2))
            &&& s[z + 1] > 1 ==> e is Invalid
        },
{
}

/// A data table column that is read holds, after its name, a kind number (1 integer, 2
/// float, 4 asset key, 3 text) and then a value of that kind.
pub proof fn law_column_kind_then_value(s: Seq<u8>, p: int)
    ensures
        column_at(s, p) matches Ok((c, _)) ==> (nul_string_at(s, p) matches Ok((_, q)) && {
            let k = le_i32(s, q);
            &&& k == 1 ==> c.data == ColumnDataView::Int(le_i32(s, q + 4))
            &&& k == 2 ==> c.data == ColumnDataView::Float(le_u32(s, q + 4))
            &&& k == 4 ==> c.data == ColumnDataView::Asset(le_u32(s, q + 4))
            &&& k == 3 ==> c.data is Text
        }),
{
}

/// A parameter struct entry that is read is its name, then a byte, then the data offset as
/// a little-endian 32-bit value; it ends right after the offset.
pub proof fn law_struct_entry_layout(s: Seq<u8>, p: int)
    ensures
        struct_entry_at(s, p) matches Ok((e, q)) ==> (nul_string_at(s, p) matches Ok((_, r)) && e.unk_01 == s[r]
            && e.data_offset == le_u32(s, r + 1) && q == r + 5),
{
}

/// A way record is the ten bytes at its position, as they are.
pub proof fn law_way_record_layout(s: Seq<u8>, p: int)
    requires
        0 <= p,
        p + 10 <= s.len(),
    ensures
        way_data_at(s, p) matches Ok((d, q)) && d.len() == 10 && q == p + 10
            && forall|i: int| 0 <= i < 10 ==> #[trigger] d[i] == s[p + i],
{
}

} // verus!
