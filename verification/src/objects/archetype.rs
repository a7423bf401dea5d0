use vstd::prelude::*;
use crate::error::{LoadError, err_view, unset_key};
use crate::metadata::{YKey, FileEntry, c_string_ok, c_string_text};
use crate::object_type::ObjectType;
use crate::io::{refs_of, refs_fit, parse_and_remove_refs};
use crate::bytes::le_u32;
use crate::objects::common::{ArchetypeImpl, Outcome, outcome_of, keyless};
use crate::objects::YetiObject;
use crate::bytes::{ByteReader, unwrap_read};
use crate::objects::skeleton::skeleton_load_panics;
use crate::objects::feu::feu_load_panics;
use crate::objects::shader::shader_load_panics;
use crate::objects::yeti_script::{YetiScript, script_load, lemma_script_load_total};
use crate::objects::ini::{YetiIni, IniEntryView, ini_load, lemma_ini_load_total};
use crate::objects::curve::{YetiCurve, CurveView, curve_load};
use crate::objects::otf::{Otf, otf_load, lemma_otf_load_total};
use crate::objects::gameobject::{GameObject, GraphicObjectTable, empty_game_object, game_object_load, graphic_table_load, lemma_game_object_load_total, lemma_graphic_table_load_total};
use crate::objects::feu::{Feu, FeuView, feu_outcome};
use crate::objects::ai_const::{AIConstList, ConstTreeView, new_tree, const_list_load};
use crate::objects::dbk::{DynamicBank, DynamicBankView, empty_bank, bank_load};
use crate::objects::meshes::{MeshData, MeshMetadata, MeshDataView, MeshMetadataView, empty_mesh_data, empty_mesh_metadata, mesh_data_load, mesh_metadata_load, lemma_mesh_metadata_load_total};
use crate::objects::texture::{TextureMetadataObject, TextureData, TextureMetaType, TextureDataView, TextureFormat, texture_metadata_load, texture_data_load};
use crate::objects::sound::{SoundBank, SoundBankView, empty_sound_bank, sound_bank_load, lemma_sound_bank_load_total};
use crate::objects::shader::{VisualShader, VisualShaderView, visual_shader_load};
use crate::objects::skeleton::{Skeleton, SkeletonView, empty_skeleton, skeleton_load};
use crate::objects::eps::{EditableParamStruct, EditableParamStructView, empty_param_struct, param_struct_load, lemma_param_struct_load_total};
use crate::objects::zone::{Zone, default_zone, zone_load, lemma_zone_load_total};
use crate::objects::epl::{EditableParamsList, params_list_load, lemma_params_list_load_total};
use crate::objects::dbr::{Dbr, dbr_load, lemma_dbr_load_total};
use crate::objects::dtb::{DataTable, DataTableView, empty_table, data_table_load, lemma_data_table_load_total};
use crate::objects::vxc::{VertexColors, vertex_colors_load, lemma_vertex_colors_load_total};
use crate::objects::vxt::{Vxt, VxtView, empty_vxt, vxt_load, lemma_vxt_load_total};

verus! {

/// The loaded form of an object, by its type; types that are not read have none.
pub enum ObjectArchetype {
    NoImpl,
    Script(YetiScript),
    Ini(YetiIni),
    Curve(YetiCurve),
    Otf(Otf),
    GameObject(GameObject),
    Feu(Feu),
    ConstList(AIConstList),
    Dbk(DynamicBank),
    MeshData(MeshData),
    MeshMetadata(MeshMetadata),
    TextureMetadata(TextureMetadataObject),
    TextureData(TextureData),
    SoundBank(SoundBank),
    ShaderGraph(VisualShader),
    Skeleton(Skeleton),
    EditableParamStruct(EditableParamStruct),
    Zone(Zone),
    EditableParamsList(EditableParamsList),
    Dbr(Dbr),
    DataTable(DataTable),
    VertexColors(VertexColors),
    Vxt(Vxt),
    GraphicObjectTable(GraphicObjectTable),
}

pub enum ArchetypeView {
    NoImpl,
    Script(Seq<u8>),
    Ini(Seq<IniEntryView>),
    Curve(CurveView),
    Otf(Option<Seq<u8>>),
    GameObject(GameObject),
    Feu(FeuView),
    ConstList(ConstTreeView),
    Dbk(DynamicBankView),
    MeshData(MeshDataView),
    MeshMetadata(MeshMetadataView),
    TextureMetadata(TextureMetaType),
    TextureData(TextureDataView),
    SoundBank(SoundBankView),
    ShaderGraph(VisualShaderView),
    Skeleton(SkeletonView),
    EditableParamStruct(EditableParamStructView),
    Zone(Zone),
    EditableParamsList(Seq<Seq<char>>),
    Dbr(()),
    DataTable(DataTableView),
    VertexColors(Seq<Seq<u8>>),
    Vxt(VxtView),
    GraphicObjectTable(()),
}

impl View for ObjectArchetype {
    type V = ArchetypeView;

    open spec fn view(&self) -> ArchetypeView {
        match self {
            ObjectArchetype::NoImpl => ArchetypeView::NoImpl,
            ObjectArchetype::Script(a) => ArchetypeView::Script(a@),
            ObjectArchetype::Ini(a) => ArchetypeView::Ini(a@),
            ObjectArchetype::Curve(a) => ArchetypeView::Curve(a@),
            ObjectArchetype::Otf(a) => ArchetypeView::Otf(a@),
            ObjectArchetype::GameObject(a) => ArchetypeView::GameObject(a@),
            ObjectArchetype::Feu(a) => ArchetypeView::Feu(a@),
            ObjectArchetype::ConstList(a) => ArchetypeView::ConstList(a@),
            ObjectArchetype::Dbk(a) => ArchetypeView::Dbk(a@),
            ObjectArchetype::MeshData(a) => ArchetypeView::MeshData(a@),
            ObjectArchetype::MeshMetadata(a) => ArchetypeView::MeshMetadata(a@),
            ObjectArchetype::TextureMetadata(a) => ArchetypeView::TextureMetadata(a@),
            ObjectArchetype::TextureData(a) => ArchetypeView::TextureData(a@),
            ObjectArchetype::SoundBank(a) => ArchetypeView::SoundBank(a@),
            ObjectArchetype::ShaderGraph(a) => ArchetypeView::ShaderGraph(a@),
            ObjectArchetype::Skeleton(a) => ArchetypeView::Skeleton(a@),
            ObjectArchetype::EditableParamStruct(a) => ArchetypeView::EditableParamStruct(a@),
            ObjectArchetype::Zone(a) => ArchetypeView::Zone(a@),
            ObjectArchetype::EditableParamsList(a) => ArchetypeView::EditableParamsList(a@),
            ObjectArchetype::Dbr(a) => ArchetypeView::Dbr(a@),
            ObjectArchetype::DataTable(a) => ArchetypeView::DataTable(a@),
            ObjectArchetype::VertexColors(a) => ArchetypeView::VertexColors(a@),
            ObjectArchetype::Vxt(a) => ArchetypeView::Vxt(a@),
            ObjectArchetype::GraphicObjectTable(a) => ArchetypeView::GraphicObjectTable(a@),
        }
    }
}

/// Loading the bytes `s` into an archetype: the archetype's own loading; nothing for none.
pub open spec fn archetype_load(a: ArchetypeView, s: Seq<u8>) -> Outcome<ArchetypeView> {
    match a {
        ArchetypeView::NoImpl => Outcome::Done(ArchetypeView::NoImpl),
        ArchetypeView::Script(x) => match script_load(x, s) {
            Outcome::Done(y) => Outcome::Done(ArchetypeView::Script(y)),
            Outcome::Failed(y, m) => Outcome::Failed(ArchetypeView::Script(y), m),
            Outcome::Panics => Outcome::Panics,
        },
        ArchetypeView::Ini(x) => match ini_load(x, s) {
            Outcome::Done(y) => Outcome::Done(ArchetypeView::Ini(y)),
            Outcome::Failed(y, m) => Outcome::Failed(ArchetypeView::Ini(y), m),
            Outcome::Panics => Outcome::Panics,
        },
        ArchetypeView::Curve(x) => match curve_load(x, s) {
            Outcome::Done(y) => Outcome::Done(ArchetypeView::Curve(y)),
            Outcome::Failed(y, m) => Outcome::Failed(ArchetypeView::Curve(y), m),
            Outcome::Panics => Outcome::Panics,
        },
        ArchetypeView::Otf(x) => match otf_load(x, s) {
            Outcome::Done(y) => Outcome::Done(ArchetypeView::Otf(y)),
            Outcome::Failed(y, m) => Outcome::Failed(ArchetypeView::Otf(y), m),
            Outcome::Panics => Outcome::Panics,
        },
        ArchetypeView::GameObject(x) => match game_object_load(x, s) {
            Outcome::Done(y) => Outcome::Done(ArchetypeView::GameObject(y)),
            Outcome::Failed(y, m) => Outcome::Failed(ArchetypeView::GameObject(y), m),
            Outcome::Panics => Outcome::Panics,
        },
        ArchetypeView::Feu(x) => match feu_outcome(x, s) {
            Outcome::Done(y) => Outcome::Done(ArchetypeView::Feu(y)),
            Outcome::Failed(y, m) => Outcome::Failed(ArchetypeView::Feu(y), m),
            Outcome::Panics => Outcome::Panics,
        },
        ArchetypeView::ConstList(x) => match const_list_load(x, s) {
            Outcome::Done(y) => Outcome::Done(ArchetypeView::ConstList(y)),
            Outcome::Failed(y, m) => Outcome::Failed(ArchetypeView::ConstList(y), m),
            Outcome::Panics => Outcome::Panics,
        },
        ArchetypeView::Dbk(x) => match bank_load(x, s) {
            Outcome::Done(y) => Outcome::Done(ArchetypeView::Dbk(y)),
            Outcome::Failed(y, m) => Outcome::Failed(ArchetypeView::Dbk(y), m),
            Outcome::Panics => Outcome::Panics,
        },
        ArchetypeView::MeshData(x) => match mesh_data_load(x, s) {
            Outcome::Done(y) => Outcome::Done(ArchetypeView::MeshData(y)),
            Outcome::Failed(y, m) => Outcome::Failed(ArchetypeView::MeshData(y), m),
            Outcome::Panics => Outcome::Panics,
        },
        ArchetypeView::MeshMetadata(x) => match mesh_metadata_load(x, s) {
            Outcome::Done(y) => Outcome::Done(ArchetypeView::MeshMetadata(y)),
            Outcome::Failed(y, m) => Outcome::Failed(ArchetypeView::MeshMetadata(y), m),
            Outcome::Panics => Outcome::Panics,
        },
        ArchetypeView::TextureMetadata(x) => match texture_metadata_load(x, s) {
            Outcome::Done(y) => Outcome::Done(ArchetypeView::TextureMetadata(y)),
            Outcome::Failed(y, m) => Outcome::Failed(ArchetypeView::TextureMetadata(y), m),
            Outcome::Panics => Outcome::Panics,
        },
        ArchetypeView::TextureData(x) => match texture_data_load(x, s) {
            Outcome::Done(y) => Outcome::Done(ArchetypeView::TextureData(y)),
            Outcome::Failed(y, m) => Outcome::Failed(ArchetypeView::TextureData(y), m),
            Outcome::Panics => Outcome::Panics,
        },
        ArchetypeView::SoundBank(x) => match sound_bank_load(x, s) {
            Outcome::Done(y) => Outcome::Done(ArchetypeView::SoundBank(y)),
            Outcome::Failed(y, m) => Outcome::Failed(ArchetypeView::SoundBank(y), m),
            Outcome::Panics => Outcome::Panics,
        },
        ArchetypeView::ShaderGraph(x) => match visual_shader_load(x, s) {
            Outcome::Done(y) => Outcome::Done(ArchetypeView::ShaderGraph(y)),
            Outcome::Failed(y, m) => Outcome::Failed(ArchetypeView::ShaderGraph(y), m),
            Outcome::Panics => Outcome::Panics,
        },
        ArchetypeView::Skeleton(x) => match skeleton_load(x, s) {
            Outcome::Done(y) => Outcome::Done(ArchetypeView::Skeleton(y)),
            Outcome::Failed(y, m) => Outcome::Failed(ArchetypeView::Skeleton(y), m),
            Outcome::Panics => Outcome::Panics,
        },
        ArchetypeView::EditableParamStruct(x) => match param_struct_load(x, s) {
            Outcome::Done(y) => Outcome::Done(ArchetypeView::EditableParamStruct(y)),
            Outcome::Failed(y, m) => Outcome::Failed(ArchetypeView::EditableParamStruct(y), m),
            Outcome::Panics => Outcome::Panics,
        },
        ArchetypeView::Zone(x) => match zone_load(x, s) {
            Outcome::Done(y) => Outcome::Done(ArchetypeView::Zone(y)),
            Outcome::Failed(y, m) => Outcome::Failed(ArchetypeView::Zone(y), m),
            Outcome::Panics => Outcome::Panics,
        },
        ArchetypeView::EditableParamsList(x) => match params_list_load(x, s) {
            Outcome::Done(y) => Outcome::Done(ArchetypeView::EditableParamsList(y)),
            Outcome::Failed(y, m) => Outcome::Failed(ArchetypeView::EditableParamsList(y), m),
            Outcome::Panics => Outcome::Panics,
        },
        ArchetypeView::Dbr(x) => match dbr_load(x, s) {
            Outcome::Done(y) => Outcome::Done(ArchetypeView::Dbr(y)),
            Outcome::Failed(y, m) => Outcome::Failed(ArchetypeView::Dbr(y), m),
            Outcome::Panics => Outcome::Panics,
        },
        ArchetypeView::DataTable(x) => match data_table_load(x, s) {
            Outcome::Done(y) => Outcome::Done(ArchetypeView::DataTable(y)),
            Outcome::Failed(y, m) => Outcome::Failed(ArchetypeView::DataTable(y), m),
            Outcome::Panics => Outcome::Panics,
        },
        ArchetypeView::VertexColors(x) => match vertex_colors_load(x, s) {
            Outcome::Done(y) => Outcome::Done(ArchetypeView::VertexColors(y)),
            Outcome::Failed(y, m) => Outcome::Failed(ArchetypeView::VertexColors(y), m),
            Outcome::Panics => Outcome::Panics,
        },
        ArchetypeView::Vxt(x) => match vxt_load(x, s) {
            Outcome::Done(y) => Outcome::Done(ArchetypeView::Vxt(y)),
            Outcome::Failed(y, m) => Outcome::Failed(ArchetypeView::Vxt(y), m),
            Outcome::Panics => Outcome::Panics,
        },
        ArchetypeView::GraphicObjectTable(x) => match graphic_table_load(x, s) {
            Outcome::Done(y) => Outcome::Done(ArchetypeView::GraphicObjectTable(y)),
            Outcome::Failed(y, m) => Outcome::Failed(ArchetypeView::GraphicObjectTable(y), m),
            Outcome::Panics => Outcome::Panics,
        },
    }
}

/// Unloading an archetype: the archetype's own unloading; nothing for none.
pub open spec fn archetype_unload(a: ArchetypeView) -> ArchetypeView {
    match a {
        ArchetypeView::NoImpl => ArchetypeView::NoImpl,
        ArchetypeView::Script(x) => ArchetypeView::Script(<YetiScript as ArchetypeImpl>::unload_spec(x)),
        ArchetypeView::Ini(x) => ArchetypeView::Ini(<YetiIni as ArchetypeImpl>::unload_spec(x)),
        ArchetypeView::Curve(x) => ArchetypeView::Curve(<YetiCurve as ArchetypeImpl>::unload_spec(x)),
        ArchetypeView::Otf(x) => ArchetypeView::Otf(<Otf as ArchetypeImpl>::unload_spec(x)),
        ArchetypeView::GameObject(x) => ArchetypeView::GameObject(<GameObject as ArchetypeImpl>::unload_spec(x)),
        ArchetypeView::Feu(x) => ArchetypeView::Feu(<Feu as ArchetypeImpl>::unload_spec(x)),
        ArchetypeView::ConstList(x) => ArchetypeView::ConstList(<AIConstList as ArchetypeImpl>::unload_spec(x)),
        ArchetypeView::Dbk(x) => ArchetypeView::Dbk(<DynamicBank as ArchetypeImpl>::unload_spec(x)),
        ArchetypeView::MeshData(x) => ArchetypeView::MeshData(<MeshData as ArchetypeImpl>::unload_spec(x)),
        ArchetypeView::MeshMetadata(x) => ArchetypeView::MeshMetadata(<MeshMetadata as ArchetypeImpl>::unload_spec(x)),
        ArchetypeView::TextureMetadata(x) => ArchetypeView::TextureMetadata(<TextureMetadataObject as ArchetypeImpl>::unload_spec(x)),
        ArchetypeView::TextureData(x) => ArchetypeView::TextureData(<TextureData as ArchetypeImpl>::unload_spec(x)),
        ArchetypeView::SoundBank(x) => ArchetypeView::SoundBank(<SoundBank as ArchetypeImpl>::unload_spec(x)),
        ArchetypeView::ShaderGraph(x) => ArchetypeView::ShaderGraph(<VisualShader as ArchetypeImpl>::unload_spec(x)),
        ArchetypeView::Skeleton(x) => ArchetypeView::Skeleton(<Skeleton as ArchetypeImpl>::unload_spec(x)),
        ArchetypeView::EditableParamStruct(x) => ArchetypeView::EditableParamStruct(<EditableParamStruct as ArchetypeImpl>::unload_spec(x)),
        ArchetypeView::Zone(x) => ArchetypeView::Zone(<Zone as ArchetypeImpl>::unload_spec(x)),
        ArchetypeView::EditableParamsList(x) => ArchetypeView::EditableParamsList(<EditableParamsList as ArchetypeImpl>::unload_spec(x)),
        ArchetypeView::Dbr(x) => ArchetypeView::Dbr(<Dbr as ArchetypeImpl>::unload_spec(x)),
        ArchetypeView::DataTable(x) => ArchetypeView::DataTable(<DataTable as ArchetypeImpl>::unload_spec(x)),
        ArchetypeView::VertexColors(x) => ArchetypeView::VertexColors(<VertexColors as ArchetypeImpl>::unload_spec(x)),
        ArchetypeView::Vxt(x) => ArchetypeView::Vxt(<Vxt as ArchetypeImpl>::unload_spec(x)),
        ArchetypeView::GraphicObjectTable(x) => ArchetypeView::GraphicObjectTable(<GraphicObjectTable as ArchetypeImpl>::unload_spec(x)),
    }
}

/// The archetype that an object of the given type starts with: the empty form of its
/// loader, or none for the types that are not read.
pub open spec fn archetype_of_type(t: ObjectType) -> ArchetypeView {
    match t {
        ObjectType::zc => ArchetypeView::Script(Seq::<u8>::empty()),
        ObjectType::ini => ArchetypeView::Ini(Seq::<IniEntryView>::empty()),
        ObjectType::cur => ArchetypeView::Curve(CurveView::Invalid),
        ObjectType::otf => ArchetypeView::Otf(None::<Seq<u8>>),
        ObjectType::gao => ArchetypeView::GameObject(empty_game_object()),
        ObjectType::feu => ArchetypeView::Feu((FeuView { unk_01: 0, unk_02: 0, feu_refs: Seq::empty(), feu_data: Seq::empty() })),
        ObjectType::cst => ArchetypeView::ConstList(new_tree(Seq::empty())),
        ObjectType::dbk => ArchetypeView::Dbk(empty_bank()),
        ObjectType::msd => ArchetypeView::MeshData(empty_mesh_data()),
        ObjectType::msh => ArchetypeView::MeshMetadata(empty_mesh_metadata()),
        ObjectType::tga => ArchetypeView::TextureMetadata(TextureMetaType::Unset),
        ObjectType::txd => ArchetypeView::TextureData((TextureDataView { unk_01: 0, fmt_id: 0, format: TextureFormat::Unknown, unk_02: 0, unk_03: 0, texture_data: Seq::empty() })),
        ObjectType::snk => ArchetypeView::SoundBank(empty_sound_bank()),
        ObjectType::shd => ArchetypeView::ShaderGraph((VisualShaderView { version: 0, flags: 0, graphs: Seq::empty() })),
        ObjectType::ske => ArchetypeView::Skeleton(empty_skeleton()),
        ObjectType::eps => ArchetypeView::EditableParamStruct(empty_param_struct()),
        ObjectType::zon => ArchetypeView::Zone(default_zone()),
        ObjectType::epl => ArchetypeView::EditableParamsList(Seq::<Seq<char>>::empty()),
        ObjectType::dbr => ArchetypeView::Dbr(()),
        ObjectType::dtb => ArchetypeView::DataTable(empty_table()),
        ObjectType::vxc => ArchetypeView::VertexColors(Seq::<Seq<u8>>::empty()),
        ObjectType::vxt => ArchetypeView::Vxt(empty_vxt()),
        ObjectType::got => ArchetypeView::GraphicObjectTable(()),
        _ => ArchetypeView::NoImpl,
    }
}

impl ObjectArchetype {
    #[verifier::spinoff_prover]
    #[verifier::rlimit(100)]
    pub fn load_from_buf(&mut self, buf: &[u8]) -> (r: Result<(), LoadError>)
        requires
            !(archetype_load(old(self)@, buf@) is Panics),
        ensures
            outcome_of(final(self)@, r) == archetype_load(old(self)@, buf@),
            keyless(r),
    {
        match self {
            ObjectArchetype::NoImpl => Ok(()),
            ObjectArchetype::Script(a) => ArchetypeImpl::load_from_buf(a, buf),
            ObjectArchetype::Ini(a) => ArchetypeImpl::load_from_buf(a, buf),
            ObjectArchetype::Curve(a) => ArchetypeImpl::load_from_buf(a, buf),
            ObjectArchetype::Otf(a) => ArchetypeImpl::load_from_buf(a, buf),
            ObjectArchetype::GameObject(a) => ArchetypeImpl::load_from_buf(a, buf),
            ObjectArchetype::Feu(a) => ArchetypeImpl::load_from_buf(a, buf),
            ObjectArchetype::ConstList(a) => ArchetypeImpl::load_from_buf(a, buf),
            ObjectArchetype::Dbk(a) => ArchetypeImpl::load_from_buf(a, buf),
            ObjectArchetype::MeshData(a) => ArchetypeImpl::load_from_buf(a, buf),
            ObjectArchetype::MeshMetadata(a) => ArchetypeImpl::load_from_buf(a, buf),
            ObjectArchetype::TextureMetadata(a) => ArchetypeImpl::load_from_buf(a, buf),
            ObjectArchetype::TextureData(a) => ArchetypeImpl::load_from_buf(a, buf),
            ObjectArchetype::SoundBank(a) => ArchetypeImpl::load_from_buf(a, buf),
            ObjectArchetype::ShaderGraph(a) => ArchetypeImpl::load_from_buf(a, buf),
            ObjectArchetype::Skeleton(a) => ArchetypeImpl::load_from_buf(a, buf),
            ObjectArchetype::EditableParamStruct(a) => ArchetypeImpl::load_from_buf(a, buf),
            ObjectArchetype::Zone(a) => ArchetypeImpl::load_from_buf(a, buf),
            ObjectArchetype::EditableParamsList(a) => ArchetypeImpl::load_from_buf(a, buf),
            ObjectArchetype::Dbr(a) => ArchetypeImpl::load_from_buf(a, buf),
            ObjectArchetype::DataTable(a) => ArchetypeImpl::load_from_buf(a, buf),
            ObjectArchetype::VertexColors(a) => ArchetypeImpl::load_from_buf(a, buf),
            ObjectArchetype::Vxt(a) => ArchetypeImpl::load_from_buf(a, buf),
            ObjectArchetype::GraphicObjectTable(a) => ArchetypeImpl::load_from_buf(a, buf),
        }
    }

    /// Whether loading `buf` aborts (or, for a visual shader,
    /// never ends); when the answer is no, `load_from_buf` may be called.
    #[verifier::spinoff_prover]
    pub fn load_panics(&self, buf: &[u8]) -> (r: bool)
        ensures
            r == (archetype_load(self@, buf@) is Panics),
    {
        match self {
            ObjectArchetype::ConstList(_) => buf.len() < 8,
            ObjectArchetype::MeshData(_) => {
                if buf.len() < 71 {
                    false
                } else {
                    let mut c = ByteReader::new(buf);
                    c.set_position(15);
                    let off = unwrap_read(c.read_u32());
                    off > 0xFFFF_FFFF - 0x47
                }
            },
            ObjectArchetype::Skeleton(_) => skeleton_load_panics(buf),
            ObjectArchetype::Feu(_) => feu_load_panics(buf),
            ObjectArchetype::ShaderGraph(_) => shader_load_panics(buf),
            ObjectArchetype::NoImpl => false,
            ObjectArchetype::Script(a) => {
                proof {
                    lemma_script_load_total(a@, buf@);
                }
                false
            },
            ObjectArchetype::Ini(a) => {
                proof {
                    lemma_ini_load_total(a@, buf@);
                }
                false
            },
            ObjectArchetype::Curve(_) => buf.len() < 4,
            ObjectArchetype::Otf(a) => {
                proof {
                    lemma_otf_load_total(a@, buf@);
                }
                false
            },
            ObjectArchetype::GameObject(a) => {
                proof {
                    lemma_game_object_load_total(a@, buf@);
                }
                false
            },
            ObjectArchetype::Dbk(_) => buf.len() >= 2 && buf[1] > 0 && buf.len() < 3,
            ObjectArchetype::MeshMetadata(a) => {
                proof {
                    lemma_mesh_metadata_load_total(a@, buf@);
                }
                false
            },
            ObjectArchetype::TextureMetadata(_) => 6 <= buf.len() && buf.len() < 10,
            ObjectArchetype::TextureData(_) => 5 <= buf.len() && buf.len() < 8,
            ObjectArchetype::SoundBank(a) => {
                proof {
                    lemma_sound_bank_load_total(a@, buf@);
                }
                false
            },
            ObjectArchetype::EditableParamStruct(a) => {
                proof {
                    lemma_param_struct_load_total(a@, buf@);
                }
                false
            },
            ObjectArchetype::Zone(a) => {
                proof {
                    lemma_zone_load_total(a@, buf@);
                }
                false
            },
            ObjectArchetype::EditableParamsList(a) => {
                proof {
                    lemma_params_list_load_total(a@, buf@);
                }
                false
            },
            ObjectArchetype::Dbr(a) => {
                proof {
                    lemma_dbr_load_total(a@, buf@);
                }
                false
            },
            ObjectArchetype::DataTable(a) => {
                proof {
                    lemma_data_table_load_total(a@, buf@);
                }
                false
            },
            ObjectArchetype::VertexColors(a) => {
                proof {
                    lemma_vertex_colors_load_total(a@, buf@);
                }
                false
            },
            ObjectArchetype::Vxt(a) => {
                proof {
                    lemma_vxt_load_total(a@, buf@);
                }
                false
            },
            ObjectArchetype::GraphicObjectTable(a) => {
                proof {
                    lemma_graphic_table_load_total(a@, buf@);
                }
                false
            },
        }
    }

    pub fn unload(&mut self)
        ensures
            final(self)@ == archetype_unload(old(self)@),
    {
        match self {
            ObjectArchetype::NoImpl => {},
            ObjectArchetype::Script(a) => ArchetypeImpl::unload(a),
            ObjectArchetype::Ini(a) => ArchetypeImpl::unload(a),
            ObjectArchetype::Curve(a) => ArchetypeImpl::unload(a),
            ObjectArchetype::Otf(a) => ArchetypeImpl::unload(a),
            ObjectArchetype::GameObject(a) => ArchetypeImpl::unload(a),
            ObjectArchetype::Feu(a) => ArchetypeImpl::unload(a),
            ObjectArchetype::ConstList(a) => ArchetypeImpl::unload(a),
            ObjectArchetype::Dbk(a) => ArchetypeImpl::unload(a),
            ObjectArchetype::MeshData(a) => ArchetypeImpl::unload(a),
            ObjectArchetype::MeshMetadata(a) => ArchetypeImpl::unload(a),
            ObjectArchetype::TextureMetadata(a) => ArchetypeImpl::unload(a),
            ObjectArchetype::TextureData(a) => ArchetypeImpl::unload(a),
            ObjectArchetype::SoundBank(a) => ArchetypeImpl::unload(a),
            ObjectArchetype::ShaderGraph(a) => ArchetypeImpl::unload(a),
            ObjectArchetype::Skeleton(a) => ArchetypeImpl::unload(a),
            ObjectArchetype::EditableParamStruct(a) => ArchetypeImpl::unload(a),
            ObjectArchetype::Zone(a) => ArchetypeImpl::unload(a),
            ObjectArchetype::EditableParamsList(a) => ArchetypeImpl::unload(a),
            ObjectArchetype::Dbr(a) => ArchetypeImpl::unload(a),
            ObjectArchetype::DataTable(a) => ArchetypeImpl::unload(a),
            ObjectArchetype::VertexColors(a) => ArchetypeImpl::unload(a),
            ObjectArchetype::Vxt(a) => ArchetypeImpl::unload(a),
            ObjectArchetype::GraphicObjectTable(a) => ArchetypeImpl::unload(a),
        }
    }
}

impl YetiObject {
    /// The archetype that an object of the given type starts with.
    pub fn type_to_archetype(obj_type: &ObjectType) -> (r: ObjectArchetype)
        ensures
            r@ == archetype_of_type(*obj_type),
    {
        match obj_type {
            ObjectType::zc => ObjectArchetype::Script(YetiScript::default()),
            ObjectType::ini => ObjectArchetype::Ini(YetiIni::default()),
            ObjectType::cur => ObjectArchetype::Curve(YetiCurve::default()),
            ObjectType::otf => ObjectArchetype::Otf(Otf::default()),
            ObjectType::gao => ObjectArchetype::GameObject(GameObject::default()),
            ObjectType::feu => ObjectArchetype::Feu(Feu::default()),
            ObjectType::cst => ObjectArchetype::ConstList(AIConstList::default()),
            ObjectType::dbk => ObjectArchetype::Dbk(DynamicBank::default()),
            ObjectType::msd => ObjectArchetype::MeshData(MeshData::default()),
            ObjectType::msh => ObjectArchetype::MeshMetadata(MeshMetadata::default()),
            ObjectType::tga => ObjectArchetype::TextureMetadata(TextureMetadataObject::default()),
            ObjectType::txd => ObjectArchetype::TextureData(TextureData::default()),
            ObjectType::snk => ObjectArchetype::SoundBank(SoundBank::default()),
            ObjectType::shd => ObjectArchetype::ShaderGraph(VisualShader::default()),
            ObjectType::ske => ObjectArchetype::Skeleton(Skeleton::default()),
            ObjectType::eps => ObjectArchetype::EditableParamStruct(EditableParamStruct::default()),
            ObjectType::zon => ObjectArchetype::Zone(Zone::default()),
            ObjectType::epl => ObjectArchetype::EditableParamsList(EditableParamsList::default()),
            ObjectType::dbr => ObjectArchetype::Dbr(Dbr::default()),
            ObjectType::dtb => ObjectArchetype::DataTable(DataTable::default()),
            ObjectType::vxc => ObjectArchetype::VertexColors(VertexColors::default()),
            ObjectType::vxt => ObjectArchetype::Vxt(Vxt::default()),
            ObjectType::got => ObjectArchetype::GraphicObjectTable(GraphicObjectTable::default()),
            _ => ObjectArchetype::NoImpl,
        }
    }
}

} // verus!
