use vstd::prelude::*;
use crate::bytes::{ByteReader, le_u16, le_u32, copy_range};
use crate::error::{LoadError, eof_message};
use crate::text::hex_byte_text;
use crate::objects::common::{ArchetypeImpl, Outcome, outcome_of, keyless, error_with_hex_byte};

verus! {

/// The pixel format of a texture.
#[derive(Debug, Clone, Copy, PartialEq, Eq, Structural)]
pub enum TextureFormat {
    Unknown,
    Gray,
    Dxt5,
    Dxt1,
    Bgra32,
    Rgba32,
    UnusedX360_27,
    UnusedX360_28,
}

/// The pixel format that a format id stands for.
pub open spec fn texture_format_of(id: u8) -> TextureFormat {
    if id == 0x0F {
        TextureFormat::Gray
    } else if id == 0x0A || id == 0x0C {
        TextureFormat::Dxt5
    } else if id == 0x08 || id == 0x09 {
        TextureFormat::Dxt1
    } else if id == 0x04 {
        TextureFormat::Bgra32
    } else if id == 0x05 {
        TextureFormat::Rgba32
    } else if id == 0x27 {
        TextureFormat::UnusedX360_27
    } else if id == 0x28 {
        TextureFormat::UnusedX360_28
    } else {
        TextureFormat::Unknown
    }
}

impl Default for TextureFormat {
    fn default() -> (r: Self)
        ensures
            r == TextureFormat::Unknown,
    {
        TextureFormat::Unknown
    }
}

impl TextureFormat {
    pub fn from_id(id: u8) -> (r: Self)
        ensures
            r == texture_format_of(id),
    {
        match id {
            0x0F => TextureFormat::Gray,
            0x0A => TextureFormat::Dxt5,
            0x0C => TextureFormat::Dxt5,
            0x08 => TextureFormat::Dxt1,
            0x09 => TextureFormat::Dxt1,
            0x04 => TextureFormat::Bgra32,
            0x05 => TextureFormat::Rgba32,
            0x27 => TextureFormat::UnusedX360_27,
            0x28 => TextureFormat::UnusedX360_28,
            _ => TextureFormat::Unknown,
        }
    }
}

/// The size and format of a texture.
#[derive(Clone, Copy, PartialEq, Eq, Structural)]
pub struct TextureMetadata {
    pub width: u16,
    pub height: u16,
    pub format: TextureFormat,
    pub fmt_id: u8,
}

impl Default for TextureMetadata {
    fn default() -> (r: Self)
        ensures
            r == (TextureMetadata { width: 0, height: 0, format: TextureFormat::Unknown, fmt_id: 0 }),
    {
        TextureMetadata { width: 0, height: 0, format: TextureFormat::Unknown, fmt_id: 0 }
    }
}

/// What a texture metadata object holds: nothing yet, a texture's metadata, or a pass-through
/// to another texture (its first reference).
#[derive(Clone, Copy, PartialEq, Eq, Structural)]
pub enum TextureMetaType {
    Unset,
    Metadata(TextureMetadata),
    Passthrough,
}

impl TextureMetaType {
    pub fn as_metadata(&self) -> (r: Option<TextureMetadata>)
        ensures
            r == (match *self {
                TextureMetaType::Metadata(m) => Some(m),
                _ => None,
            }),
    {
        match self {
            TextureMetaType::Metadata(m) => Some(*m),
            _ => None,
        }
    }
}

/// A texture metadata object.
pub struct TextureMetadataObject {
    pub meta: TextureMetaType,
}

impl View for TextureMetadataObject {
    type V = TextureMetaType;

    open spec fn view(&self) -> TextureMetaType {
        self.meta
    }
}

impl Default for TextureMetadataObject {
    fn default() -> (r: Self)
        ensures
            r@ == TextureMetaType::Unset,
    {
        TextureMetadataObject { meta: TextureMetaType::Unset }
    }
}

/// Fewer than six bytes make a pass-through; else the width and height at 4 and 6 and
/// the format id at 9 (six to nine bytes abort the load); an unknown format is
/// refused and leaves the object as it was.
pub open spec fn texture_metadata_load(old: TextureMetaType, s: Seq<u8>) -> Outcome<TextureMetaType> {
    if s.len() < 6 {
        Outcome::Done(TextureMetaType::Passthrough)
    } else if s.len() < 10 {
        Outcome::Panics
    } else if texture_format_of(s[9]) == TextureFormat::Unknown {
        Outcome::Failed(old, "unknown texture format: "@ + hex_byte_text(s[9]))
    } else {
        Outcome::Done(
            TextureMetaType::Metadata(
                TextureMetadata {
                    width: le_u16(s, 4),
                    height: le_u16(s, 6),
                    format: texture_format_of(s[9]),
                    fmt_id: s[9],
                },
            ),
        )
    }
    }

impl ArchetypeImpl for TextureMetadataObject {
    open spec fn load_spec(old: TextureMetaType, s: Seq<u8>) -> Outcome<TextureMetaType> {
        texture_metadata_load(old, s)
    }

    open spec fn unload_spec(old: TextureMetaType) -> TextureMetaType {
        old
    }

    fn load_from_buf(&mut self, buf: &[u8]) -> (r: Result<(), LoadError>) {
        if buf.len() < 6 {
            self.meta = TextureMetaType::Passthrough;
            return Ok(());
        }
        let width = (buf[4] as u16) + 256 * (buf[5] as u16);
        let height = (buf[6] as u16) + 256 * (buf[7] as u16);
        let fmt_id = buf[9];
        let format = TextureFormat::from_id(fmt_id);
        if let TextureFormat::Unknown = format {
            return Err(error_with_hex_byte("unknown texture format: ", fmt_id));
        }
        self.meta = TextureMetaType::Metadata(TextureMetadata { width, height, format, fmt_id });
        Ok(())
    }

    fn unload(&mut self) {
    }
}


/// A texture's pixel data with a short header.
pub struct TextureData {
    pub unk_01: u32,
    pub fmt_id: u8,
    pub format: TextureFormat,
    pub unk_02: u16,
    pub unk_03: u8,
    pub texture_data: Vec<u8>,
}

pub struct TextureDataView {
    pub unk_01: u32,
    pub fmt_id: u8,
    pub format: TextureFormat,
    pub unk_02: u16,
    pub unk_03: u8,
    pub texture_data: Seq<u8>,
}

impl View for TextureData {
    type V = TextureDataView;

    open spec fn view(&self) -> TextureDataView {
        TextureDataView {
            unk_01: self.unk_01,
            fmt_id: self.fmt_id,
            format: self.format,
            unk_02: self.unk_02,
            unk_03: self.unk_03,
            texture_data: self.texture_data@,
        }
    }
}

impl Default for TextureData {
    fn default() -> (r: Self)
        ensures
            r@ == (TextureDataView {
                unk_01: 0,
                fmt_id: 0,
                format: TextureFormat::Unknown,
                unk_02: 0,
                unk_03: 0,
                texture_data: Seq::empty(),
            }),
    {
        TextureData {
            unk_01: 0,
            fmt_id: 0,
            format: TextureFormat::Unknown,
            unk_02: 0,
            unk_03: 0,
            texture_data: Vec::new(),
        }
    }
}

/// A 32-bit value and the format id, then the pixels from the eighth byte on (five to
/// seven bytes abort the load).
pub open spec fn texture_data_load(old: TextureDataView, s: Seq<u8>) -> Outcome<TextureDataView> {
    if s.len() < 4 {
        Outcome::Failed(old, eof_message())
    } else if s.len() < 5 {
        Outcome::Failed(TextureDataView { unk_01: le_u32(s, 0), ..old }, eof_message())
    } else if s.len() < 8 {
        Outcome::Panics
    } else {
        Outcome::Done(
            TextureDataView {
                unk_01: le_u32(s, 0),
                fmt_id: s[4],
                format: texture_format_of(s[4]),
                texture_data: s.subrange(8, s.len() as int),
                ..old
            },
        )
    }
    }

impl ArchetypeImpl for TextureData {
    open spec fn load_spec(old: TextureDataView, s: Seq<u8>) -> Outcome<TextureDataView> {
        texture_data_load(old, s)
    }

    open spec fn unload_spec(old: TextureDataView) -> TextureDataView {
        TextureDataView { texture_data: Seq::empty(), ..old }
    }

    fn load_from_buf(&mut self, buf: &[u8]) -> (r: Result<(), LoadError>) {
        let mut cursor = ByteReader::new(buf);
        self.unk_01 = cursor.read_u32()?;
        self.fmt_id = cursor.read_u8()?;
        self.format = TextureFormat::from_id(self.fmt_id);
        self.texture_data = copy_range(buf, 8, buf.len());
        Ok(())
    }

    fn unload(&mut self) {
        self.texture_data.clear();
    }
}


} // verus!
