use vstd::prelude::*;
use crate::bytes::{ByteReader, avail, le_u32};
use crate::error::{LoadError, eof_message, err_view, unset_key};
use crate::text::hex_byte_text;
use crate::objects::common::{
    ArchetypeImpl, Outcome, outcome_of, keyless, RawVec3, RawMat4, read_vec3, read_mat4,
    vec3_at, mat4_at, zero_mat4, error_with_hex_byte,
};

verus! {

/// A sphere zone's centre and radius, as float bit patterns.
#[derive(Debug, Clone, Copy, PartialEq, Eq, Structural)]
pub struct ZoneSphere {
    pub x: u32,
    pub y: u32,
    pub z: u32,
    pub radius: u32,
}

impl Default for ZoneSphere {
    fn default() -> (r: Self)
        ensures
            r == (ZoneSphere { x: 0, y: 0, z: 0, radius: 0 }),
    {
        ZoneSphere { x: 0, y: 0, z: 0, radius: 0 }
    }
}

/// An oriented box zone: its matrix and extents, as float bit patterns.
#[derive(Debug, Clone, Copy)]
pub struct ZoneOBox {
    pub matrix: RawMat4,
    pub extents: RawVec3,
}

impl Default for ZoneOBox {
    fn default() -> (r: Self)
        ensures
            r == (ZoneOBox { matrix: zero_mat4(), extents: RawVec3 { x: 0, y: 0, z: 0 } }),
    {
        ZoneOBox { matrix: RawMat4::zero(), extents: RawVec3::zero() }
    }
}

/// The shape of a zone.
#[derive(Debug, Clone, Copy)]
pub enum ZoneType {
    Point,
    Ray,
    Sphere(ZoneSphere),
    AABox,
    OBox(ZoneOBox),
    Capsule,
}

impl Default for ZoneType {
    fn default() -> (r: Self)
        ensures
            r == ZoneType::Point,
    {
        ZoneType::Point
    }
}

/// A kind of zone modifier.
#[derive(Debug, Clone, Copy, PartialEq, Eq, Structural)]
pub enum ZoneModType {
    Invalid,
    Ambient,
    Fog,
    PostFx,
    SunLight,
    Sector,
    CharacterDiffuseMultiplier,
}

/// Reads the fields of a zone's shape that follow its header.
pub trait ZoneTypeTrait {
    fn load_from_buf(&mut self, cursor: &mut ByteReader) -> Result<(), LoadError>;
}

impl ZoneSphere {
    /// Reads x, y, z and the radius in turn; each one read before a failure stays.
    pub fn read_fields(&mut self, cursor: &mut ByteReader) -> (r: Result<(), LoadError>)
        ensures
            final(cursor).data() == old(cursor).data(),
            keyless(r),
            outcome_of(*final(self), r) == sphere_load(*old(self), old(cursor).data(), old(cursor).at()),
            r is Ok ==> final(cursor).at() == old(cursor).at() + 16,
    {
        self.x = cursor.read_u32()?;
        self.y = cursor.read_u32()?;
        self.z = cursor.read_u32()?;
        self.radius = cursor.read_u32()?;
        Ok(())
    }
}

impl ZoneTypeTrait for ZoneSphere {
    fn load_from_buf(&mut self, cursor: &mut ByteReader) -> (r: Result<(), LoadError>)
        ensures
            final(cursor).data() == old(cursor).data(),
            keyless(r),
            outcome_of(*final(self), r) == sphere_load(*old(self), old(cursor).data(), old(cursor).at()),
            r is Ok ==> final(cursor).at() == old(cursor).at() + 16,
    {
        self.read_fields(cursor)
    }
}

impl ZoneOBox {
    /// Reads the matrix, then the extents; each one read before a failure stays.
    pub fn read_fields(&mut self, cursor: &mut ByteReader) -> (r: Result<(), LoadError>)
        ensures
            final(cursor).data() == old(cursor).data(),
            keyless(r),
            outcome_of(*final(self), r) == obox_load(*old(self), old(cursor).data(), old(cursor).at()),
            r is Ok ==> final(cursor).at() == old(cursor).at() + 76,
    {
        self.matrix = read_mat4(cursor)?;
        self.extents = read_vec3(cursor)?;
        Ok(())
    }
}

impl ZoneTypeTrait for ZoneOBox {
    fn load_from_buf(&mut self, cursor: &mut ByteReader) -> (r: Result<(), LoadError>)
        ensures
            final(cursor).data() == old(cursor).data(),
            keyless(r),
            outcome_of(*final(self), r) == obox_load(*old(self), old(cursor).data(), old(cursor).at()),
            r is Ok ==> final(cursor).at() == old(cursor).at() + 76,
    {
        self.read_fields(cursor)
    }
}

pub open spec fn sphere_load(old: ZoneSphere, s: Seq<u8>, p: int) -> Outcome<ZoneSphere> {
    if !avail(s, p, 4) {
        Outcome::Failed(old, eof_message())
    } else if !avail(s, p, 8) {
        Outcome::Failed(ZoneSphere { x: le_u32(s, p), ..old }, eof_message())
    } else if !avail(s, p, 12) {
        Outcome::Failed(ZoneSphere { x: le_u32(s, p), y: le_u32(s, p + 4), ..old }, eof_message())
    } else if !avail(s, p, 16) {
        Outcome::Failed(
            ZoneSphere { x: le_u32(s, p), y: le_u32(s, p + 4), z: le_u32(s, p + 8), ..old },
            eof_message(),
        )
    } else {
        Outcome::Done(
            ZoneSphere { x: le_u32(s, p), y: le_u32(s, p + 4), z: le_u32(s, p + 8), radius: le_u32(s, p + 12) },
        )
    }
}

pub open spec fn obox_load(old: ZoneOBox, s: Seq<u8>, p: int) -> Outcome<ZoneOBox> {
    if !avail(s, p, 64) {
        Outcome::Failed(old, eof_message())
    } else if !avail(s, p + 64, 12) {
        Outcome::Failed(ZoneOBox { matrix: mat4_at(s, p), ..old }, eof_message())
    } else {
        Outcome::Done(ZoneOBox { matrix: mat4_at(s, p), extents: vec3_at(s, p + 64) })
    }
}

/// A zone: header bytes and its shape.
#[derive(Debug, Clone, Copy)]
pub struct Zone {
    pub unk_01: u8,
    pub unk_02: u8,
    pub zone_type: ZoneType,
    pub unk_04: u8,
    pub unk_05: u8,
    pub unk_06: u8,
}

impl View for Zone {
    type V = Zone;

    open spec fn view(&self) -> Zone {
        *self
    }
}

pub open spec fn default_zone() -> Zone {
    Zone { unk_01: 0, unk_02: 0, zone_type: ZoneType::Point, unk_04: 0, unk_05: 0, unk_06: 0 }
}

impl Default for Zone {
    fn default() -> (r: Self)
        ensures
            r == default_zone(),
    {
        Zone { unk_01: 0, unk_02: 0, zone_type: ZoneType::Point, unk_04: 0, unk_05: 0, unk_06: 0 }
    }
}

/// The number a zone's shape is stored as.
pub open spec fn zone_type_code(zt: ZoneType) -> u8 {
    match zt {
        ZoneType::Point => 0,
        ZoneType::Ray => 1,
        ZoneType::Sphere(_) => 2,
        ZoneType::AABox => 3,
        ZoneType::OBox(_) => 4,
        ZoneType::Capsule => 5,
    }
}

/// The shape stored as `byte`, with default dimensions; an unknown number gives a point.
pub open spec fn zone_type_of(byte: u8) -> ZoneType {
    if byte == 1 {
        ZoneType::Ray
    } else if byte == 2 {
        ZoneType::Sphere(ZoneSphere { x: 0, y: 0, z: 0, radius: 0 })
    } else if byte == 3 {
        ZoneType::AABox
    } else if byte == 4 {
        ZoneType::OBox(ZoneOBox { matrix: zero_mat4(), extents: RawVec3 { x: 0, y: 0, z: 0 } })
    } else if byte == 5 {
        ZoneType::Capsule
    } else {
        ZoneType::Point
    }
}

pub fn zone_type_to_id(zt: ZoneType) -> (r: u8)
    ensures
        r == zone_type_code(zt),
{
    match zt {
        ZoneType::Point => 0,
        ZoneType::Ray => 1,
        ZoneType::Sphere(_) => 2,
        ZoneType::AABox => 3,
        ZoneType::OBox(_) => 4,
        ZoneType::Capsule => 5,
    }
}

pub fn zone_type_from_id(byte: u8) -> (r: ZoneType)
    ensures
        r == zone_type_of(byte),
{
    match byte {
        0 => ZoneType::Point,
        1 => ZoneType::Ray,
        2 => ZoneType::Sphere(ZoneSphere::default()),
        3 => ZoneType::AABox,
        4 => ZoneType::OBox(ZoneOBox::default()),
        5 => ZoneType::Capsule,
        _ => ZoneType::Point,
    }
}

/// Six header bytes (the second must be 0x80; the refusal shows the field's earlier
/// value), then the dimensions of a sphere or an oriented box; what is read before a
/// failure stays.
pub open spec fn zone_load(old: Zone, s: Seq<u8>) -> Outcome<Zone> {
    if s.len() < 1 {
        Outcome::Failed(old, eof_message())
    } else if s.len() < 2 {
        Outcome::Failed(Zone { unk_01: s[0], ..old }, eof_message())
    } else if s[1] != 0x80 {
        Outcome::Failed(Zone { unk_01: s[0], ..old }, "unk_02 not 0x80 "@ + hex_byte_text(old.unk_02))
    } else if s.len() < 3 {
        Outcome::Failed(Zone { unk_01: s[0], unk_02: 0x80, ..old }, eof_message())
    } else if s.len() < 4 {
        Outcome::Failed(Zone { unk_01: s[0], unk_02: 0x80, zone_type: zone_type_of(s[2]), ..old }, eof_message())
    } else if s.len() < 5 {
        Outcome::Failed(
            Zone { unk_01: s[0], unk_02: 0x80, zone_type: zone_type_of(s[2]), unk_04: s[3], ..old },
            eof_message(),
        )
    } else if s.len() < 6 {
        Outcome::Failed(
            Zone { unk_01: s[0], unk_02: 0x80, zone_type: zone_type_of(s[2]), unk_04: s[3], unk_05: s[4], ..old },
            eof_message(),
        )
    } else {
        let h = Zone {
            unk_01: s[0],
            unk_02: 0x80,
            zone_type: zone_type_of(s[2]),
            unk_04: s[3],
            unk_05: s[4],
            unk_06: s[5],
        };
        match zone_type_of(s[2]) {
            ZoneType::Sphere(sp) => match sphere_load(sp, s, 6) {
                Outcome::Done(v) => Outcome::Done(Zone { zone_type: ZoneType::Sphere(v), ..h }),
                Outcome::Failed(v, m) => Outcome::Failed(Zone { zone_type: ZoneType::Sphere(v), ..h }, m),
                Outcome::Panics => Outcome::Panics,
            },
            ZoneType::OBox(b) => match obox_load(b, s, 6) {
                Outcome::Done(v) => Outcome::Done(Zone { zone_type: ZoneType::OBox(v), ..h }),
                Outcome::Failed(v, m) => Outcome::Failed(Zone { zone_type: ZoneType::OBox(v), ..h }, m),
                Outcome::Panics => Outcome::Panics,
            },
            _ => Outcome::Done(h),
        }
    }
    }

impl ArchetypeImpl for Zone {
    /// Six header bytes (the second must be 0x80; the refusal shows the field's earlier
    /// value), then the dimensions of a sphere or an oriented box; what is read before a
    /// failure stays.
    open spec fn load_spec(old: Zone, s: Seq<u8>) -> Outcome<Zone> {
        zone_load(old, s)
    }

    open spec fn unload_spec(old: Zone) -> Zone {
        default_zone()
    }

    fn load_from_buf(&mut self, buf: &[u8]) -> (r: Result<(), LoadError>) {
        let mut cursor = ByteReader::new(buf);
        self.unk_01 = cursor.read_u8()?;
        self.unk_02 = match cursor.read_u8()? {
            0x80 => 0x80,
            _ => {
                return Err(error_with_hex_byte("unk_02 not 0x80 ", self.unk_02));
            },
        };
        self.zone_type = zone_type_from_id(cursor.read_u8()?);
        self.unk_04 = cursor.read_u8()?;
        self.unk_05 = cursor.read_u8()?;
        self.unk_06 = cursor.read_u8()?;
        match self.zone_type {
            ZoneType::Sphere(mut sphere) => {
                let r = sphere.read_fields(&mut cursor);
                self.zone_type = ZoneType::Sphere(sphere);
                r?;
            },
            ZoneType::OBox(mut obox) => {
                let r = obox.read_fields(&mut cursor);
                self.zone_type = ZoneType::OBox(obox);
                r?;
            },
            _ => (),
        }
        Ok(())
    }

    fn unload(&mut self) {
        *self = Zone::default()
    }
}

/// Loading never panics.
pub proof fn lemma_zone_load_total(old: Zone, s: Seq<u8>)
    ensures
        !(zone_load(old, s) is Panics),
{
}

} // verus!
