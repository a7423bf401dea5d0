use vstd::prelude::*;
use crate::bytes::{ByteReader, avail, le_u32, partial_len, read_partial_into, zero_bytes};
use crate::error::{LoadError, eof_message, err_view, unset_key};
use crate::objects::common::{
    ArchetypeImpl, Outcome, outcome_of, keyless, RawMat4, read_mat4, mat4_at, identity_mat4,
};

verus! {

/// What a game object is made of, one bit per part; the constants are the single bits.
#[derive(Debug, Clone, Copy, PartialEq, Eq, Structural, Hash)]
pub struct IdentityFlags(pub u32);

impl IdentityFlags {
    pub const ENTITY_FLAG: u32 = 0x0000_0001;
    pub const HAS_ATTACHMENTS: u32 = 0x0000_0002;
    pub const INITIAL_POS: u32 = 0x0000_0004;
    pub const COLLISION_A: u32 = 0x0000_0008;
    pub const HAS_ANIM: u32 = 0x0000_0010;
    pub const COLLISION_LIST_HANDLE: u32 = 0x0000_0020;
    pub const DUSTFX: u32 = 0x0000_0040;
    pub const HAS_PHYSICS: u32 = 0x0000_0080;
    pub const HAS_VISUAL: u32 = 0x0000_0100;
    pub const HAS_AABOX: u32 = 0x0000_0200;
    pub const GAM_STRUCT: u32 = 0x0000_0400;
    pub const ZONE_ARRAY: u32 = 0x0000_0800;
    pub const AI_STRUCT: u32 = 0x0000_1000;
    pub const SEQUENCE: u32 = 0x0000_2000;
    pub const SFX_STRUCT: u32 = 0x0000_4000;
    pub const UNK_02: u32 = 0x0000_8000;
    pub const UNK_03: u32 = 0x0001_0000;
    pub const DUSTFX_STRUCT: u32 = 0x0002_0000;
    pub const UNK_04: u32 = 0x0004_0000;
    pub const COLLISION_LIST_STRUCT: u32 = 0x0008_0000;
    pub const UNK_05: u32 = 0x0010_0000;
    pub const UNK_06: u32 = 0x0020_0000;
    pub const UNK_07: u32 = 0x0040_0000;
    pub const SND_OBJECT: u32 = 0x0080_0000;
    pub const UNK_08: u32 = 0x0100_0000;
    pub const GAME_GROUP: u32 = 0x0200_0000;
    pub const GAME_HOOK: u32 = 0x0400_0000;
    pub const UNK_09: u32 = 0x0800_0000;
    pub const SFX_OBJECT_STRUCT: u32 = 0x1000_0000;
    pub const EDITABLE_BVOLUME: u32 = 0x2000_0000;
    pub const ORIENTED_BOX: u32 = 0x4000_0000;
    pub const SPAWNER_BANK: u32 = 0x8000_0000;

    pub fn bits(&self) -> (r: u32)
        ensures
            r == self.0,
    {
        self.0
    }

    /// Every bit pattern names a set of flags, since all 32 bits are defined.
    pub fn from_bits(bits: u32) -> (r: Option<IdentityFlags>)
        ensures
            r == Some(IdentityFlags(bits)),
    {
        Some(IdentityFlags(bits))
    }

    pub fn empty() -> (r: IdentityFlags)
        ensures
            r == IdentityFlags(0),
    {
        IdentityFlags(0)
    }

    /// All the flags of `bits` are set here.
    pub fn contains(&self, bits: u32) -> (r: bool)
        ensures
            r == (self.0 & bits == bits),
    {
        self.0 & bits == bits
    }
}

impl Default for IdentityFlags {
    fn default() -> (r: Self)
        ensures
            r == IdentityFlags(0),
    {
        IdentityFlags(0)
    }
}

/// A light colour; each channel is the byte over 255. The file stores it blue first.
#[derive(Debug, Clone, Copy, PartialEq, Eq, Structural)]
pub struct RawColor {
    pub r: u8,
    pub g: u8,
    pub b: u8,
    pub a: u8,
}

/// The floats of the light parameters are kept as their bit patterns.
#[derive(Debug, Clone, Copy, PartialEq, Eq, Structural)]
pub struct PointLightParams {
    pub color: RawColor,
    pub intensity: u32,
    pub range: u32,
}

#[derive(Debug, Clone, Copy, PartialEq, Eq, Structural)]
pub struct SpotLightParams {
    pub color: RawColor,
    pub intensity: u32,
    pub range: u32,
    pub inner_cone_angle: u32,
    pub outer_cone_angle: u32,
}

#[derive(Debug, Clone, Copy, PartialEq, Eq, Structural)]
pub struct DirectionalLightParams {
    pub color: RawColor,
    pub intensity: u32,
}

#[derive(Debug, Clone, Copy, PartialEq, Eq, Structural)]
pub enum Light {
    NoLight,
    Point(PointLightParams),
    Spot(SpotLightParams),
    Directional(DirectionalLightParams),
}

impl Default for Light {
    fn default() -> (r: Self)
        ensures
            r == Light::NoLight,
    {
        Light::NoLight
    }
}

/// A game object: its flags, its transform (float bit patterns) and, for a light, the light.
#[derive(Debug, Clone, Copy)]
pub struct GameObject {
    pub zero: u32,
    pub identity_flags: IdentityFlags,
    pub streaming_flags: u32,
    pub flag_a: u8,
    pub flag_b: u8,
    pub flag_c: u8,
    pub matrix: RawMat4,
    pub light: Light,
}

impl View for GameObject {
    type V = GameObject;

    open spec fn view(&self) -> GameObject {
        *self
    }
}

pub open spec fn empty_game_object() -> GameObject {
    GameObject {
        zero: 0,
        identity_flags: IdentityFlags(0),
        streaming_flags: 0,
        flag_a: 0,
        flag_b: 0,
        flag_c: 0,
        matrix: identity_mat4(),
        light: Light::NoLight,
    }
}

impl Default for GameObject {
    fn default() -> (r: Self)
        ensures
            r == empty_game_object(),
    {
        GameObject {
            zero: 0,
            identity_flags: IdentityFlags(0),
            streaming_flags: 0,
            flag_a: 0,
            flag_b: 0,
            flag_c: 0,
            matrix: RawMat4::identity(),
            light: Light::NoLight,
        }
    }
}

pub open spec fn not_zero_message() -> Seq<char> {
    "GameObject sanity check was not zero!"@
}

/// The colour at `p`, stored blue, green, red, alpha.
pub open spec fn color_bgra_at(s: Seq<u8>, p: int) -> RawColor {
    RawColor { r: s[p + 2], g: s[p + 1], b: s[p], a: s[p + 3] }
}

/// The light parameters for light type `lt`, from `p`: a colour and an intensity, then
/// for a point light a range (the second of two values), for a spot light a range, an
/// inner angle (the third of three) and an outer angle. Other types are no light.
pub open spec fn light_at(s: Seq<u8>, lt: u8, p: int) -> Result<Light, Seq<char>> {
    if lt == 1 {
        if !avail(s, p, 16) {
            Err(eof_message())
        } else {
            Ok(Light::Point(PointLightParams {
                color: color_bgra_at(s, p),
                intensity: le_u32(s, p + 4),
                range: le_u32(s, p + 12),
            }))
        }
    } else if lt == 2 {
        if !avail(s, p, 32) {
            Err(eof_message())
        } else {
            Ok(Light::Spot(SpotLightParams {
                color: color_bgra_at(s, p),
                intensity: le_u32(s, p + 4),
                range: le_u32(s, p + 12),
                inner_cone_angle: le_u32(s, p + 24),
                outer_cone_angle: le_u32(s, p + 28),
            }))
        }
    } else if lt == 3 {
        if !avail(s, p, 8) {
            Err(eof_message())
        } else {
            Ok(Light::Directional(DirectionalLightParams {
                color: color_bgra_at(s, p),
                intensity: le_u32(s, p + 4),
            }))
        }
    } else {
        Ok(Light::NoLight)
    }
}

fn read_color_bgra(r: &mut ByteReader) -> (res: Result<RawColor, LoadError>)
    ensures
        final(r).data() == old(r).data(),
        avail(old(r).data(), old(r).at(), 4) ==> res == Ok::<RawColor, LoadError>(color_bgra_at(old(r).data(), old(r).at()))
            && final(r).at() == old(r).at() + 4,
        !avail(old(r).data(), old(r).at(), 4) ==> res is Err && res->Err_0@ == err_view(eof_message(), unset_key()),
{
    let b = r.read_u8()?;
    let g = r.read_u8()?;
    let rr = r.read_u8()?;
    let a = r.read_u8()?;
    Ok(RawColor { r: rr, g, b, a })
}

fn read_light(r: &mut ByteReader, lt: u8) -> (res: Result<Light, LoadError>)
    ensures
        final(r).data() == old(r).data(),
        match light_at(old(r).data(), lt, old(r).at()) {
            Ok(l) => res == Ok::<Light, LoadError>(l),
            Err(m) => res is Err && res->Err_0@ == err_view(m, unset_key()),
        },
{
    if lt == 1 {
        let color = read_color_bgra(r)?;
        let intensity = r.read_u32()?;
        r.read_u32()?;
        let range = r.read_u32()?;
        Ok(Light::Point(PointLightParams { color, intensity, range }))
    } else if lt == 2 {
        let color = read_color_bgra(r)?;
        let intensity = r.read_u32()?;
        r.read_u32()?;
        let range = r.read_u32()?;
        r.read_u32()?;
        r.read_u32()?;
        let inner_cone_angle = r.read_u32()?;
        let outer_cone_angle = r.read_u32()?;
        Ok(Light::Spot(SpotLightParams { color, intensity, range, inner_cone_angle, outer_cone_angle }))
    } else if lt == 3 {
        let color = read_color_bgra(r)?;
        let intensity = r.read_u32()?;
        Ok(Light::Directional(DirectionalLightParams { color, intensity }))
    } else {
        Ok(Light::NoLight)
    }
}

/// Both the sound-effect and the visual flags are set: the object carries a light.
pub open spec fn has_light(flags: u32) -> bool {
    flags & 0x4100 == 0x4100
}

/// A zero word, which must be zero; identity flags, streaming flags, three bytes and a
/// matrix, each kept once read; then, when the object carries a light, the light type,
/// eight bytes skipped (as many as there are) and the light's parameters.
pub open spec fn game_object_load(old: GameObject, s: Seq<u8>) -> Outcome<GameObject> {
    if s.len() < 4 {
        Outcome::Failed(old, eof_message())
    } else if le_u32(s, 0) != 0 {
        Outcome::Failed(GameObject { zero: le_u32(s, 0), ..old }, not_zero_message())
    } else if s.len() < 8 {
        Outcome::Failed(GameObject { zero: 0, ..old }, eof_message())
    } else {
        let a = GameObject { zero: 0, identity_flags: IdentityFlags(le_u32(s, 4)), ..old };
        if s.len() < 12 {
            Outcome::Failed(a, eof_message())
        } else {
            let b = GameObject { streaming_flags: le_u32(s, 8), ..a };
            if s.len() < 13 {
                Outcome::Failed(b, eof_message())
            } else if s.len() < 14 {
                Outcome::Failed(GameObject { flag_a: s[12], ..b }, eof_message())
            } else if s.len() < 15 {
                Outcome::Failed(GameObject { flag_a: s[12], flag_b: s[13], ..b }, eof_message())
            } else {
                let c = GameObject { flag_a: s[12], flag_b: s[13], flag_c: s[14], ..b };
                if s.len() < 79 {
                    Outcome::Failed(c, eof_message())
                } else {
                    let d = GameObject { matrix: mat4_at(s, 15), ..c };
                    if !has_light(le_u32(s, 4)) {
                        Outcome::Done(d)
                    } else if s.len() < 80 {
                        Outcome::Failed(d, eof_message())
                    } else {
                        match light_at(s, s[79], 80 + partial_len(s, 80, 8)) {
                            Ok(l) => Outcome::Done(GameObject { light: l, ..d }),
                            Err(m) => Outcome::Failed(d, m),
                        }
                    }
                }
            }
        }
    }
    }

impl ArchetypeImpl for GameObject {
    open spec fn load_spec(old: GameObject, s: Seq<u8>) -> Outcome<GameObject> {
        game_object_load(old, s)
    }

    open spec fn unload_spec(old: GameObject) -> GameObject {
        empty_game_object()
    }

    fn load_from_buf(&mut self, buf: &[u8]) -> (r: Result<(), LoadError>) {
        let mut cursor = ByteReader::new(buf);
        self.zero = cursor.read_u32()?;
        if self.zero != 0 {
            proof {
                reveal_strlit("GameObject sanity check was not zero!");
            }
            return Err(LoadError::from_str_message("GameObject sanity check was not zero!"));
        }
        self.identity_flags = IdentityFlags(cursor.read_u32()?);
        self.streaming_flags = cursor.read_u32()?;
        self.flag_a = cursor.read_u8()?;
        self.flag_b = cursor.read_u8()?;
        self.flag_c = cursor.read_u8()?;
        self.matrix = read_mat4(&mut cursor)?;
        let light_bits = IdentityFlags::SFX_STRUCT | IdentityFlags::HAS_VISUAL;
        assert(light_bits == 0x4100u32) by (bit_vector)
            requires
                light_bits == 0x4000u32 | 0x0100u32,
        ;
        if self.identity_flags.contains(light_bits) {
            let lt = cursor.read_u8()?;
            let mut dat = zero_bytes::<8>();
            read_partial_into(&mut cursor, &mut dat);
            self.light = read_light(&mut cursor, lt)?;
        }
        Ok(())
    }

    fn unload(&mut self) {
        *self = GameObject::default()
    }
}

/// Loading never panics.
pub proof fn lemma_game_object_load_total(old: GameObject, s: Seq<u8>)
    ensures
        !(game_object_load(old, s) is Panics),
{
}

/// A graphic object table: nothing of it is read yet.
pub struct GraphicObjectTable {}

impl View for GraphicObjectTable {
    type V = ();

    open spec fn view(&self) -> () {
        ()
    }
}

impl Default for GraphicObjectTable {
    fn default() -> (r: Self)
        ensures
            r@ == (),
    {
        GraphicObjectTable {}
    }
}

pub open spec fn graphic_table_load(old: (), s: Seq<u8>) -> Outcome<()> {
    Outcome::Done(())
    }

impl ArchetypeImpl for GraphicObjectTable {
    open spec fn load_spec(old: (), s: Seq<u8>) -> Outcome<()> {
        graphic_table_load(old, s)
    }

    open spec fn unload_spec(old: ()) -> () {
        ()
    }

    fn load_from_buf(&mut self, buf: &[u8]) -> (r: Result<(), LoadError>) {
        Ok(())
    }

    fn unload(&mut self) {
    }
}

/// Loading never panics.
pub proof fn lemma_graphic_table_load_total(old: (), s: Seq<u8>)
    ensures
        !(graphic_table_load(old, s) is Panics),
{
}

} // verus!
