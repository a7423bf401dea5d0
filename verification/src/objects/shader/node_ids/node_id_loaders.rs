#![allow(non_snake_case)]

use vstd::prelude::*;
use crate::bytes::{ByteReader, avail, le_u32};
use crate::error::{YetiIOError, eof_message, err_view, unset_key};
use crate::text::{utf8_result, decode_string};
use crate::objects::shader::node_ids::{eSID_ADD, eSID_AmbientCube, eSID_AmbientOcclusion, eSID_Blender, eSID_BlurTex, eSID_Clamp, eSID_ColorSelector, eSID_ColorSelectorSmooth, eSID_Combiner4D, eSID_Comment, eSID_ConstantColor, eSID_ConstantMUL, eSID_ConstantUVWQ, eSID_ConstantVector, eSID_CustomCode, eSID_CustomCodeVtx, eSID_DepthAlpha, eSID_DepthAlphaOpt, eSID_DepthTexture, eSID_DiffuseCube, eSID_DiffuseMultiplier, eSID_DustFXSH, eSID_ElapseTime, eSID_FlatChrome, eSID_ForceNoPrepass, eSID_ForceUltraSimpleShader, eSID_ForceVisualPrepass, eSID_HeatSelector, eSID_Invert, eSID_LODBlender, eSID_LODMUL, eSID_LightCurve_Back, eSID_LinearFresnel, eSID_Luminance, eSID_MUL, eSID_MUL2X, eSID_MainOutput, eSID_MaterialColor_Diffuse, eSID_MaterialColor_Emissive, eSID_MaterialColor_EmissiveVTX, eSID_MaterialColor_Specular, eSID_Normal, eSID_Normalize3D, eSID_OffsetBump, eSID_PixelAverageColor, eSID_PixelColor_Misc, eSID_PixelColor_Misc2, eSID_PixelSH, eSID_PixelUVBoxAnimBlend, eSID_PixelViewToWorld, eSID_Position, eSID_PowFresnel, eSID_Power, eSID_PulseWave, eSID_RGB2UV, eSID_RGB_Ramp, eSID_RefracTex, eSID_SUB, eSID_SawWave, eSID_ShadowValue, eSID_SinusFX, eSID_SpecularCubeMap, eSID_SpecularGlossMultiplier, eSID_SpecularPowerMultiplier, eSID_Tangent2Screen, eSID_Tex2D, eSID_Tex2DYUV, eSID_TexBump, eSID_TexBumpTangent, eSID_UV2RGB, eSID_UVRotate, eSID_UVScroll, eSID_UVScrollSpeedFactor, eSID_UVSource, eSID_UV_ADD, eSID_UV_Blender, eSID_UV_Combiner4D, eSID_UV_ConstantMUL, eSID_UV_DUDV, eSID_UV_MUL, eSID_UV_SUB, eSID_UntransformedNormal, eSID_VERTEX_UV_SUB, eSID_VertexColor, eSID_VertexColorToPixel, eSID_VertexColor_Misc1, eSID_VertexColor_Misc2, eSID_VertexCombiner4D, eSID_VertexConstUVWQ, eSID_VertexConstantVector, eSID_VertexElapseTime, eSID_VertexInvert, eSID_VertexNormal, eSID_VertexPulseWave, eSID_VertexRGB2UV, eSID_VertexUVRotate, eSID_VertexUVScroll, eSID_VertexUVSource, eSID_VertexUVToPixelUV, eSID_VertexUV_Combiner4D, eSID_VertexUntransformedNormal, eSID_Vertex_UV_ADD, eSID_Vertex_UV_Blender, eSID_Vertex_UV_ConstantMUL, eSID_Vertex_UV_MUL, eSID_ViewPosition, eSID_VolumeAlphaEx, eSID_VolumeAmbLightIntensityOpt, eSID_VolumetricParticle, eSID_VtxWorldPosition, eSID_WorldPosition, eSID_WorldSinusFX_VC};

verus! {

/// This node is not read: the reader stays where it is.
pub fn load_eSID_ADD(rdr: &mut ByteReader) -> (r: Result<eSID_ADD, YetiIOError>)
    ensures
        r matches Ok(v) && v == (eSID_ADD {}),
        final(rdr).data() == old(rdr).data(),
        final(rdr).at() == old(rdr).at(),
{
    Ok(eSID_ADD {})
}

/// This node is not read: the reader stays where it is.
pub fn load_eSID_AmbientCube(rdr: &mut ByteReader) -> (r: Result<eSID_AmbientCube, YetiIOError>)
    ensures
        r matches Ok(v) && v == (eSID_AmbientCube {}),
        final(rdr).data() == old(rdr).data(),
        final(rdr).at() == old(rdr).at(),
{
    Ok(eSID_AmbientCube {})
}

/// This node is not read: the reader stays where it is.
pub fn load_eSID_AmbientOcclusion(rdr: &mut ByteReader) -> (r: Result<eSID_AmbientOcclusion, YetiIOError>)
    ensures
        r matches Ok(v) && v == (eSID_AmbientOcclusion {}),
        final(rdr).data() == old(rdr).data(),
        final(rdr).at() == old(rdr).at(),
{
    Ok(eSID_AmbientOcclusion {})
}

/// This node is not read: the reader stays where it is.
pub fn load_eSID_Blender(rdr: &mut ByteReader) -> (r: Result<eSID_Blender, YetiIOError>)
    ensures
        r matches Ok(v) && v == (eSID_Blender {}),
        final(rdr).data() == old(rdr).data(),
        final(rdr).at() == old(rdr).at(),
{
    Ok(eSID_Blender {})
}

/// This node is not read: the reader stays where it is.
pub fn load_eSID_BlurTex(rdr: &mut ByteReader) -> (r: Result<eSID_BlurTex, YetiIOError>)
    ensures
        r matches Ok(v) && v == (eSID_BlurTex {}),
        final(rdr).data() == old(rdr).data(),
        final(rdr).at() == old(rdr).at(),
{
    Ok(eSID_BlurTex {})
}

/// This node is not read: the reader stays where it is.
pub fn load_eSID_Clamp(rdr: &mut ByteReader) -> (r: Result<eSID_Clamp, YetiIOError>)
    ensures
        r matches Ok(v) && v == (eSID_Clamp {}),
        final(rdr).data() == old(rdr).data(),
        final(rdr).at() == old(rdr).at(),
{
    Ok(eSID_Clamp {})
}

/// This node is not read: the reader stays where it is.
pub fn load_eSID_ColorSelector(rdr: &mut ByteReader) -> (r: Result<eSID_ColorSelector, YetiIOError>)
    ensures
        r matches Ok(v) && v == (eSID_ColorSelector {}),
        final(rdr).data() == old(rdr).data(),
        final(rdr).at() == old(rdr).at(),
{
    Ok(eSID_ColorSelector {})
}

/// This node is not read: the reader stays where it is.
pub fn load_eSID_ColorSelectorSmooth(rdr: &mut ByteReader) -> (r: Result<eSID_ColorSelectorSmooth, YetiIOError>)
    ensures
        r matches Ok(v) && v == (eSID_ColorSelectorSmooth {}),
        final(rdr).data() == old(rdr).data(),
        final(rdr).at() == old(rdr).at(),
{
    Ok(eSID_ColorSelectorSmooth {})
}

/// This node is not read: the reader stays where it is.
pub fn load_eSID_Combiner4D(rdr: &mut ByteReader) -> (r: Result<eSID_Combiner4D, YetiIOError>)
    ensures
        r matches Ok(v) && v == (eSID_Combiner4D {}),
        final(rdr).data() == old(rdr).data(),
        final(rdr).at() == old(rdr).at(),
{
    Ok(eSID_Combiner4D {})
}

/// The position after a comment of `len` bytes that starts at `p`: its text is padded to
/// the next multiple of four (a whole word when it is one already).
pub open spec fn comment_end(p: int, len: int) -> int {
    p + 8 + len + (4 - len % 4)
}

/// A comment node: a word not understood yet, a length, that many bytes of UTF-8, and
/// padding. A position past the largest one a reader can hold fails the seek.
pub open spec fn comment_at(s: Seq<u8>, p: int) -> Result<(Seq<char>, int), Seq<char>> {
    if !avail(s, p, 8) {
        Err(eof_message())
    } else {
        let len = le_u32(s, p + 4) as int;
        if !avail(s, p + 8, len) {
            Err(eof_message())
        } else if comment_end(p, len) > usize::MAX {
            Err(crate::bytes::seek_message())
        } else {
            match utf8_result(s.subrange(p + 8, p + 8 + len)) {
                Err(m) => Err(m),
                Ok(t) => Ok((t, comment_end(p, len))),
            }
        }
    }
}

pub fn load_eSID_Comment(rdr: &mut ByteReader) -> (r: Result<eSID_Comment, YetiIOError>)
    ensures
        final(rdr).data() == old(rdr).data(),
        match comment_at(old(rdr).data(), old(rdr).at()) {
            Ok((t, e)) => r is Ok && r->Ok_0.comment@ == t && final(rdr).at() == e,
            Err(m) => r is Err && r->Err_0@ == err_view(m, unset_key()),
        },
{
    match read_comment(rdr) {
        Ok(comment) => Ok(eSID_Comment { comment }),
        Err(e) => Err(YetiIOError::from_str_message(e.message())),
    }
}

fn read_comment(rdr: &mut ByteReader) -> (r: Result<String, crate::error::LoadError>)
    ensures
        final(rdr).data() == old(rdr).data(),
        match comment_at(old(rdr).data(), old(rdr).at()) {
            Ok((t, e)) => r is Ok && r->Ok_0@ == t && final(rdr).at() == e,
            Err(m) => r is Err && r->Err_0@ == err_view(m, unset_key()),
        },
{
    rdr.read_u32()?;
    let len = rdr.read_u32()?;
    let v = rdr.read_exact(len as usize)?;
    let rem = len % 4;
    rdr.seek_relative((4 - rem) as i64)?;
    decode_string(v)
}

/// This node is not read: the reader stays where it is.
pub fn load_eSID_ConstantColor(rdr: &mut ByteReader) -> (r: Result<eSID_ConstantColor, YetiIOError>)
    ensures
        r matches Ok(v) && v == (eSID_ConstantColor {}),
        final(rdr).data() == old(rdr).data(),
        final(rdr).at() == old(rdr).at(),
{
    Ok(eSID_ConstantColor {})
}

/// This node is not read: the reader stays where it is.
pub fn load_eSID_ConstantMUL(rdr: &mut ByteReader) -> (r: Result<eSID_ConstantMUL, YetiIOError>)
    ensures
        r matches Ok(v) && v == (eSID_ConstantMUL {}),
        final(rdr).data() == old(rdr).data(),
        final(rdr).at() == old(rdr).at(),
{
    Ok(eSID_ConstantMUL {})
}

/// This node is not read: the reader stays where it is.
pub fn load_eSID_ConstantUVWQ(rdr: &mut ByteReader) -> (r: Result<eSID_ConstantUVWQ, YetiIOError>)
    ensures
        r matches Ok(v) && v == (eSID_ConstantUVWQ {}),
        final(rdr).data() == old(rdr).data(),
        final(rdr).at() == old(rdr).at(),
{
    Ok(eSID_ConstantUVWQ {})
}

/// This node is not read: the reader stays where it is.
pub fn load_eSID_ConstantVector(rdr: &mut ByteReader) -> (r: Result<eSID_ConstantVector, YetiIOError>)
    ensures
        r matches Ok(v) && v == (eSID_ConstantVector {}),
        final(rdr).data() == old(rdr).data(),
        final(rdr).at() == old(rdr).at(),
{
    Ok(eSID_ConstantVector {})
}

/// This node is not read: the reader stays where it is.
pub fn load_eSID_CustomCode(rdr: &mut ByteReader) -> (r: Result<eSID_CustomCode, YetiIOError>)
    ensures
        r matches Ok(v) && v == (eSID_CustomCode {}),
        final(rdr).data() == old(rdr).data(),
        final(rdr).at() == old(rdr).at(),
{
    Ok(eSID_CustomCode {})
}

/// This node is not read: the reader stays where it is.
pub fn load_eSID_CustomCodeVtx(rdr: &mut ByteReader) -> (r: Result<eSID_CustomCodeVtx, YetiIOError>)
    ensures
        r matches Ok(v) && v == (eSID_CustomCodeVtx {}),
        final(rdr).data() == old(rdr).data(),
        final(rdr).at() == old(rdr).at(),
{
    Ok(eSID_CustomCodeVtx {})
}

/// This node is not read: the reader stays where it is.
pub fn load_eSID_DepthAlpha(rdr: &mut ByteReader) -> (r: Result<eSID_DepthAlpha, YetiIOError>)
    ensures
        r matches Ok(v) && v == (eSID_DepthAlpha {}),
        final(rdr).data() == old(rdr).data(),
        final(rdr).at() == old(rdr).at(),
{
    Ok(eSID_DepthAlpha {})
}

/// This node is not read: the reader stays where it is.
pub fn load_eSID_DepthAlphaOpt(rdr: &mut ByteReader) -> (r: Result<eSID_DepthAlphaOpt, YetiIOError>)
    ensures
        r matches Ok(v) && v == (eSID_DepthAlphaOpt {}),
        final(rdr).data() == old(rdr).data(),
        final(rdr).at() == old(rdr).at(),
{
    Ok(eSID_DepthAlphaOpt {})
}

/// This node is not read: the reader stays where it is.
pub fn load_eSID_DepthTexture(rdr: &mut ByteReader) -> (r: Result<eSID_DepthTexture, YetiIOError>)
    ensures
        r matches Ok(v) && v == (eSID_DepthTexture {}),
        final(rdr).data() == old(rdr).data(),
        final(rdr).at() == old(rdr).at(),
{
    Ok(eSID_DepthTexture {})
}

/// This node is not read: the reader stays where it is.
pub fn load_eSID_DiffuseCube(rdr: &mut ByteReader) -> (r: Result<eSID_DiffuseCube, YetiIOError>)
    ensures
        r matches Ok(v) && v == (eSID_DiffuseCube {}),
        final(rdr).data() == old(rdr).data(),
        final(rdr).at() == old(rdr).at(),
{
    Ok(eSID_DiffuseCube {})
}

/// This node is not read: the reader stays where it is.
pub fn load_eSID_DiffuseMultiplier(rdr: &mut ByteReader) -> (r: Result<eSID_DiffuseMultiplier, YetiIOError>)
    ensures
        r matches Ok(v) && v == (eSID_DiffuseMultiplier {}),
        final(rdr).data() == old(rdr).data(),
        final(rdr).at() == old(rdr).at(),
{
    Ok(eSID_DiffuseMultiplier {})
}

/// This node is not read: the reader stays where it is.
pub fn load_eSID_DustFXSH(rdr: &mut ByteReader) -> (r: Result<eSID_DustFXSH, YetiIOError>)
    ensures
        r matches Ok(v) && v == (eSID_DustFXSH {}),
        final(rdr).data() == old(rdr).data(),
        final(rdr).at() == old(rdr).at(),
{
    Ok(eSID_DustFXSH {})
}

/// This node is not read: the reader stays where it is.
pub fn load_eSID_ElapseTime(rdr: &mut ByteReader) -> (r: Result<eSID_ElapseTime, YetiIOError>)
    ensures
        r matches Ok(v) && v == (eSID_ElapseTime {}),
        final(rdr).data() == old(rdr).data(),
        final(rdr).at() == old(rdr).at(),
{
    Ok(eSID_ElapseTime {})
}

/// This node is not read: the reader stays where it is.
pub fn load_eSID_FlatChrome(rdr: &mut ByteReader) -> (r: Result<eSID_FlatChrome, YetiIOError>)
    ensures
        r matches Ok(v) && v == (eSID_FlatChrome {}),
        final(rdr).data() == old(rdr).data(),
        final(rdr).at() == old(rdr).at(),
{
    Ok(eSID_FlatChrome {})
}

/// This node is not read: the reader stays where it is.
pub fn load_eSID_ForceNoPrepass(rdr: &mut ByteReader) -> (r: Result<eSID_ForceNoPrepass, YetiIOError>)
    ensures
        r matches Ok(v) && v == (eSID_ForceNoPrepass {}),
        final(rdr).data() == old(rdr).data(),
        final(rdr).at() == old(rdr).at(),
{
    Ok(eSID_ForceNoPrepass {})
}

/// This node is not read: the reader stays where it is.
pub fn load_eSID_ForceUltraSimpleShader(rdr: &mut ByteReader) -> (r: Result<eSID_ForceUltraSimpleShader, YetiIOError>)
    ensures
        r matches Ok(v) && v == (eSID_ForceUltraSimpleShader {}),
        final(rdr).data() == old(rdr).data(),
        final(rdr).at() == old(rdr).at(),
{
    Ok(eSID_ForceUltraSimpleShader {})
}

/// This node is not read: the reader stays where it is.
pub fn load_eSID_ForceVisualPrepass(rdr: &mut ByteReader) -> (r: Result<eSID_ForceVisualPrepass, YetiIOError>)
    ensures
        r matches Ok(v) && v == (eSID_ForceVisualPrepass {}),
        final(rdr).data() == old(rdr).data(),
        final(rdr).at() == old(rdr).at(),
{
    Ok(eSID_ForceVisualPrepass {})
}

/// This node is not read: the reader stays where it is.
pub fn load_eSID_HeatSelector(rdr: &mut ByteReader) -> (r: Result<eSID_HeatSelector, YetiIOError>)
    ensures
        r matches Ok(v) && v == (eSID_HeatSelector {}),
        final(rdr).data() == old(rdr).data(),
        final(rdr).at() == old(rdr).at(),
{
    Ok(eSID_HeatSelector {})
}

/// This node is not read: the reader stays where it is.
pub fn load_eSID_Invert(rdr: &mut ByteReader) -> (r: Result<eSID_Invert, YetiIOError>)
    ensures
        r matches Ok(v) && v == (eSID_Invert {}),
        final(rdr).data() == old(rdr).data(),
        final(rdr).at() == old(rdr).at(),
{
    Ok(eSID_Invert {})
}

/// This node is not read: the reader stays where it is.
pub fn load_eSID_LODBlender(rdr: &mut ByteReader) -> (r: Result<eSID_LODBlender, YetiIOError>)
    ensures
        r matches Ok(v) && v == (eSID_LODBlender {}),
        final(rdr).data() == old(rdr).data(),
        final(rdr).at() == old(rdr).at(),
{
    Ok(eSID_LODBlender {})
}

/// This node is not read: the reader stays where it is.
pub fn load_eSID_LODMUL(rdr: &mut ByteReader) -> (r: Result<eSID_LODMUL, YetiIOError>)
    ensures
        r matches Ok(v) && v == (eSID_LODMUL {}),
        final(rdr).data() == old(rdr).data(),
        final(rdr).at() == old(rdr).at(),
{
    Ok(eSID_LODMUL {})
}

/// This node is not read: the reader stays where it is.
pub fn load_eSID_LightCurve_Back(rdr: &mut ByteReader) -> (r: Result<eSID_LightCurve_Back, YetiIOError>)
    ensures
        r matches Ok(v) && v == (eSID_LightCurve_Back {}),
        final(rdr).data() == old(rdr).data(),
        final(rdr).at() == old(rdr).at(),
{
    Ok(eSID_LightCurve_Back {})
}

/// This node is not read: the reader stays where it is.
pub fn load_eSID_LinearFresnel(rdr: &mut ByteReader) -> (r: Result<eSID_LinearFresnel, YetiIOError>)
    ensures
        r matches Ok(v) && v == (eSID_LinearFresnel {}),
        final(rdr).data() == old(rdr).data(),
        final(rdr).at() == old(rdr).at(),
{
    Ok(eSID_LinearFresnel {})
}

/// This node is not read: the reader stays where it is.
pub fn load_eSID_Luminance(rdr: &mut ByteReader) -> (r: Result<eSID_Luminance, YetiIOError>)
    ensures
        r matches Ok(v) && v == (eSID_Luminance {}),
        final(rdr).data() == old(rdr).data(),
        final(rdr).at() == old(rdr).at(),
{
    Ok(eSID_Luminance {})
}

/// This node is not read: the reader stays where it is.
pub fn load_eSID_MUL(rdr: &mut ByteReader) -> (r: Result<eSID_MUL, YetiIOError>)
    ensures
        r matches Ok(v) && v == (eSID_MUL {}),
        final(rdr).data() == old(rdr).data(),
        final(rdr).at() == old(rdr).at(),
{
    Ok(eSID_MUL {})
}

/// This node is not read: the reader stays where it is.
pub fn load_eSID_MUL2X(rdr: &mut ByteReader) -> (r: Result<eSID_MUL2X, YetiIOError>)
    ensures
        r matches Ok(v) && v == (eSID_MUL2X {}),
        final(rdr).data() == old(rdr).data(),
        final(rdr).at() == old(rdr).at(),
{
    Ok(eSID_MUL2X {})
}

/// This node is not read: the reader stays where it is.
pub fn load_eSID_MainOutput(rdr: &mut ByteReader) -> (r: Result<eSID_MainOutput, YetiIOError>)
    ensures
        r matches Ok(v) && v == (eSID_MainOutput {}),
        final(rdr).data() == old(rdr).data(),
        final(rdr).at() == old(rdr).at(),
{
    Ok(eSID_MainOutput {})
}

/// This node is not read: the reader stays where it is.
pub fn load_eSID_MaterialColor_Diffuse(rdr: &mut ByteReader) -> (r: Result<eSID_MaterialColor_Diffuse, YetiIOError>)
    ensures
        r matches Ok(v) && v == (eSID_MaterialColor_Diffuse {}),
        final(rdr).data() == old(rdr).data(),
        final(rdr).at() == old(rdr).at(),
{
    Ok(eSID_MaterialColor_Diffuse {})
}

/// This node is not read: the reader stays where it is.
pub fn load_eSID_MaterialColor_Emissive(rdr: &mut ByteReader) -> (r: Result<eSID_MaterialColor_Emissive, YetiIOError>)
    ensures
        r matches Ok(v) && v == (eSID_MaterialColor_Emissive {}),
        final(rdr).data() == old(rdr).data(),
        final(rdr).at() == old(rdr).at(),
{
    Ok(eSID_MaterialColor_Emissive {})
}

/// This node is not read: the reader stays where it is.
pub fn load_eSID_MaterialColor_EmissiveVTX(rdr: &mut ByteReader) -> (r: Result<eSID_MaterialColor_EmissiveVTX, YetiIOError>)
    ensures
        r matches Ok(v) && v == (eSID_MaterialColor_EmissiveVTX {}),
        final(rdr).data() == old(rdr).data(),
        final(rdr).at() == old(rdr).at(),
{
    Ok(eSID_MaterialColor_EmissiveVTX {})
}

/// This node is not read: the reader stays where it is.
pub fn load_eSID_MaterialColor_Specular(rdr: &mut ByteReader) -> (r: Result<eSID_MaterialColor_Specular, YetiIOError>)
    ensures
        r matches Ok(v) && v == (eSID_MaterialColor_Specular {}),
        final(rdr).data() == old(rdr).data(),
        final(rdr).at() == old(rdr).at(),
{
    Ok(eSID_MaterialColor_Specular {})
}

/// This node is not read: the reader stays where it is.
pub fn load_eSID_Normal(rdr: &mut ByteReader) -> (r: Result<eSID_Normal, YetiIOError>)
    ensures
        r matches Ok(v) && v == (eSID_Normal {}),
        final(rdr).data() == old(rdr).data(),
        final(rdr).at() == old(rdr).at(),
{
    Ok(eSID_Normal {})
}

/// This node is not read: the reader stays where it is.
pub fn load_eSID_Normalize3D(rdr: &mut ByteReader) -> (r: Result<eSID_Normalize3D, YetiIOError>)
    ensures
        r matches Ok(v) && v == (eSID_Normalize3D {}),
        final(rdr).data() == old(rdr).data(),
        final(rdr).at() == old(rdr).at(),
{
    Ok(eSID_Normalize3D {})
}

/// This node is not read: the reader stays where it is.
pub fn load_eSID_OffsetBump(rdr: &mut ByteReader) -> (r: Result<eSID_OffsetBump, YetiIOError>)
    ensures
        r matches Ok(v) && v == (eSID_OffsetBump {}),
        final(rdr).data() == old(rdr).data(),
        final(rdr).at() == old(rdr).at(),
{
    Ok(eSID_OffsetBump {})
}

/// This node is not read: the reader stays where it is.
pub fn load_eSID_PixelAverageColor(rdr: &mut ByteReader) -> (r: Result<eSID_PixelAverageColor, YetiIOError>)
    ensures
        r matches Ok(v) && v == (eSID_PixelAverageColor {}),
        final(rdr).data() == old(rdr).data(),
        final(rdr).at() == old(rdr).at(),
{
    Ok(eSID_PixelAverageColor {})
}

/// This node is not read: the reader stays where it is.
pub fn load_eSID_PixelColor_Misc(rdr: &mut ByteReader) -> (r: Result<eSID_PixelColor_Misc, YetiIOError>)
    ensures
        r matches Ok(v) && v == (eSID_PixelColor_Misc {}),
        final(rdr).data() == old(rdr).data(),
        final(rdr).at() == old(rdr).at(),
{
    Ok(eSID_PixelColor_Misc {})
}

/// This node is not read: the reader stays where it is.
pub fn load_eSID_PixelColor_Misc2(rdr: &mut ByteReader) -> (r: Result<eSID_PixelColor_Misc2, YetiIOError>)
    ensures
        r matches Ok(v) && v == (eSID_PixelColor_Misc2 {}),
        final(rdr).data() == old(rdr).data(),
        final(rdr).at() == old(rdr).at(),
{
    Ok(eSID_PixelColor_Misc2 {})
}

/// This node is not read: the reader stays where it is.
pub fn load_eSID_PixelSH(rdr: &mut ByteReader) -> (r: Result<eSID_PixelSH, YetiIOError>)
    ensures
        r matches Ok(v) && v == (eSID_PixelSH {}),
        final(rdr).data() == old(rdr).data(),
        final(rdr).at() == old(rdr).at(),
{
    Ok(eSID_PixelSH {})
}

/// This node is not read: the reader stays where it is.
pub fn load_eSID_PixelUVBoxAnimBlend(rdr: &mut ByteReader) -> (r: Result<eSID_PixelUVBoxAnimBlend, YetiIOError>)
    ensures
        r matches Ok(v) && v == (eSID_PixelUVBoxAnimBlend {}),
        final(rdr).data() == old(rdr).data(),
        final(rdr).at() == old(rdr).at(),
{
    Ok(eSID_PixelUVBoxAnimBlend {})
}

/// This node is not read: the reader stays where it is.
pub fn load_eSID_PixelViewToWorld(rdr: &mut ByteReader) -> (r: Result<eSID_PixelViewToWorld, YetiIOError>)
    ensures
        r matches Ok(v) && v == (eSID_PixelViewToWorld {}),
        final(rdr).data() == old(rdr).data(),
        final(rdr).at() == old(rdr).at(),
{
    Ok(eSID_PixelViewToWorld {})
}

/// This node is not read: the reader stays where it is.
pub fn load_eSID_Position(rdr: &mut ByteReader) -> (r: Result<eSID_Position, YetiIOError>)
    ensures
        r matches Ok(v) && v == (eSID_Position {}),
        final(rdr).data() == old(rdr).data(),
        final(rdr).at() == old(rdr).at(),
{
    Ok(eSID_Position {})
}

/// This node is not read: the reader stays where it is.
pub fn load_eSID_PowFresnel(rdr: &mut ByteReader) -> (r: Result<eSID_PowFresnel, YetiIOError>)
    ensures
        r matches Ok(v) && v == (eSID_PowFresnel {}),
        final(rdr).data() == old(rdr).data(),
        final(rdr).at() == old(rdr).at(),
{
    Ok(eSID_PowFresnel {})
}

/// This node is not read: the reader stays where it is.
pub fn load_eSID_Power(rdr: &mut ByteReader) -> (r: Result<eSID_Power, YetiIOError>)
    ensures
        r matches Ok(v) && v == (eSID_Power {}),
        final(rdr).data() == old(rdr).data(),
        final(rdr).at() == old(rdr).at(),
{
    Ok(eSID_Power {})
}

/// This node is not read: the reader stays where it is.
pub fn load_eSID_PulseWave(rdr: &mut ByteReader) -> (r: Result<eSID_PulseWave, YetiIOError>)
    ensures
        r matches Ok(v) && v == (eSID_PulseWave {}),
        final(rdr).data() == old(rdr).data(),
        final(rdr).at() == old(rdr).at(),
{
    Ok(eSID_PulseWave {})
}

/// This node is not read: the reader stays where it is.
pub fn load_eSID_RGB2UV(rdr: &mut ByteReader) -> (r: Result<eSID_RGB2UV, YetiIOError>)
    ensures
        r matches Ok(v) && v == (eSID_RGB2UV {}),
        final(rdr).data() == old(rdr).data(),
        final(rdr).at() == old(rdr).at(),
{
    Ok(eSID_RGB2UV {})
}

/// This node is not read: the reader stays where it is.
pub fn load_eSID_RGB_Ramp(rdr: &mut ByteReader) -> (r: Result<eSID_RGB_Ramp, YetiIOError>)
    ensures
        r matches Ok(v) && v == (eSID_RGB_Ramp {}),
        final(rdr).data() == old(rdr).data(),
        final(rdr).at() == old(rdr).at(),
{
    Ok(eSID_RGB_Ramp {})
}

/// This node is not read: the reader stays where it is.
pub fn load_eSID_RefracTex(rdr: &mut ByteReader) -> (r: Result<eSID_RefracTex, YetiIOError>)
    ensures
        r matches Ok(v) && v == (eSID_RefracTex {}),
        final(rdr).data() == old(rdr).data(),
        final(rdr).at() == old(rdr).at(),
{
    Ok(eSID_RefracTex {})
}

/// This node is not read: the reader stays where it is.
pub fn load_eSID_SUB(rdr: &mut ByteReader) -> (r: Result<eSID_SUB, YetiIOError>)
    ensures
        r matches Ok(v) && v == (eSID_SUB {}),
        final(rdr).data() == old(rdr).data(),
        final(rdr).at() == old(rdr).at(),
{
    Ok(eSID_SUB {})
}

/// This node is not read: the reader stays where it is.
pub fn load_eSID_SawWave(rdr: &mut ByteReader) -> (r: Result<eSID_SawWave, YetiIOError>)
    ensures
        r matches Ok(v) && v == (eSID_SawWave {}),
        final(rdr).data() == old(rdr).data(),
        final(rdr).at() == old(rdr).at(),
{
    Ok(eSID_SawWave {})
}

/// This node is not read: the reader stays where it is.
pub fn load_eSID_ShadowValue(rdr: &mut ByteReader) -> (r: Result<eSID_ShadowValue, YetiIOError>)
    ensures
        r matches Ok(v) && v == (eSID_ShadowValue {}),
        final(rdr).data() == old(rdr).data(),
        final(rdr).at() == old(rdr).at(),
{
    Ok(eSID_ShadowValue {})
}

/// This node is not read: the reader stays where it is.
pub fn load_eSID_SinusFX(rdr: &mut ByteReader) -> (r: Result<eSID_SinusFX, YetiIOError>)
    ensures
        r matches Ok(v) && v == (eSID_SinusFX {}),
        final(rdr).data() == old(rdr).data(),
        final(rdr).at() == old(rdr).at(),
{
    Ok(eSID_SinusFX {})
}

/// This node is not read: the reader stays where it is.
pub fn load_eSID_SpecularCubeMap(rdr: &mut ByteReader) -> (r: Result<eSID_SpecularCubeMap, YetiIOError>)
    ensures
        r matches Ok(v) && v == (eSID_SpecularCubeMap {}),
        final(rdr).data() == old(rdr).data(),
        final(rdr).at() == old(rdr).at(),
{
    Ok(eSID_SpecularCubeMap {})
}

/// This node is not read: the reader stays where it is.
pub fn load_eSID_SpecularGlossMultiplier(rdr: &mut ByteReader) -> (r: Result<eSID_SpecularGlossMultiplier, YetiIOError>)
    ensures
        r matches Ok(v) && v == (eSID_SpecularGlossMultiplier {}),
        final(rdr).data() == old(rdr).data(),
        final(rdr).at() == old(rdr).at(),
{
    Ok(eSID_SpecularGlossMultiplier {})
}

/// This node is not read: the reader stays where it is.
pub fn load_eSID_SpecularPowerMultiplier(rdr: &mut ByteReader) -> (r: Result<eSID_SpecularPowerMultiplier, YetiIOError>)
    ensures
        r matches Ok(v) && v == (eSID_SpecularPowerMultiplier {}),
        final(rdr).data() == old(rdr).data(),
        final(rdr).at() == old(rdr).at(),
{
    Ok(eSID_SpecularPowerMultiplier {})
}

/// This node is not read: the reader stays where it is.
pub fn load_eSID_Tangent2Screen(rdr: &mut ByteReader) -> (r: Result<eSID_Tangent2Screen, YetiIOError>)
    ensures
        r matches Ok(v) && v == (eSID_Tangent2Screen {}),
        final(rdr).data() == old(rdr).data(),
        final(rdr).at() == old(rdr).at(),
{
    Ok(eSID_Tangent2Screen {})
}

/// This node is not read: the reader stays where it is.
pub fn load_eSID_Tex2D(rdr: &mut ByteReader) -> (r: Result<eSID_Tex2D, YetiIOError>)
    ensures
        r matches Ok(v) && v == (eSID_Tex2D {}),
        final(rdr).data() == old(rdr).data(),
        final(rdr).at() == old(rdr).at(),
{
    Ok(eSID_Tex2D {})
}

/// This node is not read: the reader stays where it is.
pub fn load_eSID_Tex2DYUV(rdr: &mut ByteReader) -> (r: Result<eSID_Tex2DYUV, YetiIOError>)
    ensures
        r matches Ok(v) && v == (eSID_Tex2DYUV {}),
        final(rdr).data() == old(rdr).data(),
        final(rdr).at() == old(rdr).at(),
{
    Ok(eSID_Tex2DYUV {})
}

/// This node is not read: the reader stays where it is.
pub fn load_eSID_TexBump(rdr: &mut ByteReader) -> (r: Result<eSID_TexBump, YetiIOError>)
    ensures
        r matches Ok(v) && v == (eSID_TexBump {}),
        final(rdr).data() == old(rdr).data(),
        final(rdr).at() == old(rdr).at(),
{
    Ok(eSID_TexBump {})
}

/// This node is not read: the reader stays where it is.
pub fn load_eSID_TexBumpTangent(rdr: &mut ByteReader) -> (r: Result<eSID_TexBumpTangent, YetiIOError>)
    ensures
        r matches Ok(v) && v == (eSID_TexBumpTangent {}),
        final(rdr).data() == old(rdr).data(),
        final(rdr).at() == old(rdr).at(),
{
    Ok(eSID_TexBumpTangent {})
}

/// This node is not read: the reader stays where it is.
pub fn load_eSID_UV2RGB(rdr: &mut ByteReader) -> (r: Result<eSID_UV2RGB, YetiIOError>)
    ensures
        r matches Ok(v) && v == (eSID_UV2RGB {}),
        final(rdr).data() == old(rdr).data(),
        final(rdr).at() == old(rdr).at(),
{
    Ok(eSID_UV2RGB {})
}

/// This node is not read: the reader stays where it is.
pub fn load_eSID_UVRotate(rdr: &mut ByteReader) -> (r: Result<eSID_UVRotate, YetiIOError>)
    ensures
        r matches Ok(v) && v == (eSID_UVRotate {}),
        final(rdr).data() == old(rdr).data(),
        final(rdr).at() == old(rdr).at(),
{
    Ok(eSID_UVRotate {})
}

/// This node is not read: the reader stays where it is.
pub fn load_eSID_UVScroll(rdr: &mut ByteReader) -> (r: Result<eSID_UVScroll, YetiIOError>)
    ensures
        r matches Ok(v) && v == (eSID_UVScroll {}),
        final(rdr).data() == old(rdr).data(),
        final(rdr).at() == old(rdr).at(),
{
    Ok(eSID_UVScroll {})
}

/// This node is not read: the reader stays where it is.
pub fn load_eSID_UVScrollSpeedFactor(rdr: &mut ByteReader) -> (r: Result<eSID_UVScrollSpeedFactor, YetiIOError>)
    ensures
        r matches Ok(v) && v == (eSID_UVScrollSpeedFactor {}),
        final(rdr).data() == old(rdr).data(),
        final(rdr).at() == old(rdr).at(),
{
    Ok(eSID_UVScrollSpeedFactor {})
}

/// This node is not read: the reader stays where it is.
pub fn load_eSID_UVSource(rdr: &mut ByteReader) -> (r: Result<eSID_UVSource, YetiIOError>)
    ensures
        r matches Ok(v) && v == (eSID_UVSource {}),
        final(rdr).data() == old(rdr).data(),
        final(rdr).at() == old(rdr).at(),
{
    Ok(eSID_UVSource {})
}

/// This node is not read: the reader stays where it is.
pub fn load_eSID_UV_ADD(rdr: &mut ByteReader) -> (r: Result<eSID_UV_ADD, YetiIOError>)
    ensures
        r matches Ok(v) && v == (eSID_UV_ADD {}),
        final(rdr).data() == old(rdr).data(),
        final(rdr).at() == old(rdr).at(),
{
    Ok(eSID_UV_ADD {})
}

/// This node is not read: the reader stays where it is.
pub fn load_eSID_UV_Blender(rdr: &mut ByteReader) -> (r: Result<eSID_UV_Blender, YetiIOError>)
    ensures
        r matches Ok(v) && v == (eSID_UV_Blender {}),
        final(rdr).data() == old(rdr).data(),
        final(rdr).at() == old(rdr).at(),
{
    Ok(eSID_UV_Blender {})
}

/// This node is not read: the reader stays where it is.
pub fn load_eSID_UV_Combiner4D(rdr: &mut ByteReader) -> (r: Result<eSID_UV_Combiner4D, YetiIOError>)
    ensures
        r matches Ok(v) && v == (eSID_UV_Combiner4D {}),
        final(rdr).data() == old(rdr).data(),
        final(rdr).at() == old(rdr).at(),
{
    Ok(eSID_UV_Combiner4D {})
}

/// This node is not read: the reader stays where it is.
pub fn load_eSID_UV_ConstantMUL(rdr: &mut ByteReader) -> (r: Result<eSID_UV_ConstantMUL, YetiIOError>)
    ensures
        r matches Ok(v) && v == (eSID_UV_ConstantMUL {}),
        final(rdr).data() == old(rdr).data(),
        final(rdr).at() == old(rdr).at(),
{
    Ok(eSID_UV_ConstantMUL {})
}

/// This node is not read: the reader stays where it is.
pub fn load_eSID_UV_DUDV(rdr: &mut ByteReader) -> (r: Result<eSID_UV_DUDV, YetiIOError>)
    ensures
        r matches Ok(v) && v == (eSID_UV_DUDV {}),
        final(rdr).data() == old(rdr).data(),
        final(rdr).at() == old(rdr).at(),
{
    Ok(eSID_UV_DUDV {})
}

/// This node is not read: the reader stays where it is.
pub fn load_eSID_UV_MUL(rdr: &mut ByteReader) -> (r: Result<eSID_UV_MUL, YetiIOError>)
    ensures
        r matches Ok(v) && v == (eSID_UV_MUL {}),
        final(rdr).data() == old(rdr).data(),
        final(rdr).at() == old(rdr).at(),
{
    Ok(eSID_UV_MUL {})
}

/// This node is not read: the reader stays where it is.
pub fn load_eSID_UV_SUB(rdr: &mut ByteReader) -> (r: Result<eSID_UV_SUB, YetiIOError>)
    ensures
        r matches Ok(v) && v == (eSID_UV_SUB {}),
        final(rdr).data() == old(rdr).data(),
        final(rdr).at() == old(rdr).at(),
{
    Ok(eSID_UV_SUB {})
}

/// This node is not read: the reader stays where it is.
pub fn load_eSID_UntransformedNormal(rdr: &mut ByteReader) -> (r: Result<eSID_UntransformedNormal, YetiIOError>)
    ensures
        r matches Ok(v) && v == (eSID_UntransformedNormal {}),
        final(rdr).data() == old(rdr).data(),
        final(rdr).at() == old(rdr).at(),
{
    Ok(eSID_UntransformedNormal {})
}

/// This node is not read: the reader stays where it is.
pub fn load_eSID_VERTEX_UV_SUB(rdr: &mut ByteReader) -> (r: Result<eSID_VERTEX_UV_SUB, YetiIOError>)
    ensures
        r matches Ok(v) && v == (eSID_VERTEX_UV_SUB {}),
        final(rdr).data() == old(rdr).data(),
        final(rdr).at() == old(rdr).at(),
{
    Ok(eSID_VERTEX_UV_SUB {})
}

/// This node is not read: the reader stays where it is.
pub fn load_eSID_VertexColor(rdr: &mut ByteReader) -> (r: Result<eSID_VertexColor, YetiIOError>)
    ensures
        r matches Ok(v) && v == (eSID_VertexColor {}),
        final(rdr).data() == old(rdr).data(),
        final(rdr).at() == old(rdr).at(),
{
    Ok(eSID_VertexColor {})
}

/// This node is not read: the reader stays where it is.
pub fn load_eSID_VertexColorToPixel(rdr: &mut ByteReader) -> (r: Result<eSID_VertexColorToPixel, YetiIOError>)
    ensures
        r matches Ok(v) && v == (eSID_VertexColorToPixel {}),
        final(rdr).data() == old(rdr).data(),
        final(rdr).at() == old(rdr).at(),
{
    Ok(eSID_VertexColorToPixel {})
}

/// This node is not read: the reader stays where it is.
pub fn load_eSID_VertexColor_Misc1(rdr: &mut ByteReader) -> (r: Result<eSID_VertexColor_Misc1, YetiIOError>)
    ensures
        r matches Ok(v) && v == (eSID_VertexColor_Misc1 {}),
        final(rdr).data() == old(rdr).data(),
        final(rdr).at() == old(rdr).at(),
{
    Ok(eSID_VertexColor_Misc1 {})
}

/// This node is not read: the reader stays where it is.
pub fn load_eSID_VertexColor_Misc2(rdr: &mut ByteReader) -> (r: Result<eSID_VertexColor_Misc2, YetiIOError>)
    ensures
        r matches Ok(v) && v == (eSID_VertexColor_Misc2 {}),
        final(rdr).data() == old(rdr).data(),
        final(rdr).at() == old(rdr).at(),
{
    Ok(eSID_VertexColor_Misc2 {})
}

/// This node is not read: the reader stays where it is.
pub fn load_eSID_VertexCombiner4D(rdr: &mut ByteReader) -> (r: Result<eSID_VertexCombiner4D, YetiIOError>)
    ensures
        r matches Ok(v) && v == (eSID_VertexCombiner4D {}),
        final(rdr).data() == old(rdr).data(),
        final(rdr).at() == old(rdr).at(),
{
    Ok(eSID_VertexCombiner4D {})
}

/// This node is not read: the reader stays where it is.
pub fn load_eSID_VertexConstUVWQ(rdr: &mut ByteReader) -> (r: Result<eSID_VertexConstUVWQ, YetiIOError>)
    ensures
        r matches Ok(v) && v == (eSID_VertexConstUVWQ {}),
        final(rdr).data() == old(rdr).data(),
        final(rdr).at() == old(rdr).at(),
{
    Ok(eSID_VertexConstUVWQ {})
}

/// This node is not read: the reader stays where it is.
pub fn load_eSID_VertexConstantVector(rdr: &mut ByteReader) -> (r: Result<eSID_VertexConstantVector, YetiIOError>)
    ensures
        r matches Ok(v) && v == (eSID_VertexConstantVector {}),
        final(rdr).data() == old(rdr).data(),
        final(rdr).at() == old(rdr).at(),
{
    Ok(eSID_VertexConstantVector {})
}

/// This node is not read: the reader stays where it is.
pub fn load_eSID_VertexElapseTime(rdr: &mut ByteReader) -> (r: Result<eSID_VertexElapseTime, YetiIOError>)
    ensures
        r matches Ok(v) && v == (eSID_VertexElapseTime {}),
        final(rdr).data() == old(rdr).data(),
        final(rdr).at() == old(rdr).at(),
{
    Ok(eSID_VertexElapseTime {})
}

/// This node is not read: the reader stays where it is.
pub fn load_eSID_VertexInvert(rdr: &mut ByteReader) -> (r: Result<eSID_VertexInvert, YetiIOError>)
    ensures
        r matches Ok(v) && v == (eSID_VertexInvert {}),
        final(rdr).data() == old(rdr).data(),
        final(rdr).at() == old(rdr).at(),
{
    Ok(eSID_VertexInvert {})
}

/// This node is not read: the reader stays where it is.
pub fn load_eSID_VertexNormal(rdr: &mut ByteReader) -> (r: Result<eSID_VertexNormal, YetiIOError>)
    ensures
        r matches Ok(v) && v == (eSID_VertexNormal {}),
        final(rdr).data() == old(rdr).data(),
        final(rdr).at() == old(rdr).at(),
{
    Ok(eSID_VertexNormal {})
}

/// This node is not read: the reader stays where it is.
pub fn load_eSID_VertexPulseWave(rdr: &mut ByteReader) -> (r: Result<eSID_VertexPulseWave, YetiIOError>)
    ensures
        r matches Ok(v) && v == (eSID_VertexPulseWave {}),
        final(rdr).data() == old(rdr).data(),
        final(rdr).at() == old(rdr).at(),
{
    Ok(eSID_VertexPulseWave {})
}

/// This node is not read: the reader stays where it is.
pub fn load_eSID_VertexRGB2UV(rdr: &mut ByteReader) -> (r: Result<eSID_VertexRGB2UV, YetiIOError>)
    ensures
        r matches Ok(v) && v == (eSID_VertexRGB2UV {}),
        final(rdr).data() == old(rdr).data(),
        final(rdr).at() == old(rdr).at(),
{
    Ok(eSID_VertexRGB2UV {})
}

/// This node is not read: the reader stays where it is.
pub fn load_eSID_VertexUVRotate(rdr: &mut ByteReader) -> (r: Result<eSID_VertexUVRotate, YetiIOError>)
    ensures
        r matches Ok(v) && v == (eSID_VertexUVRotate {}),
        final(rdr).data() == old(rdr).data(),
        final(rdr).at() == old(rdr).at(),
{
    Ok(eSID_VertexUVRotate {})
}

/// This node is not read: the reader stays where it is.
pub fn load_eSID_VertexUVScroll(rdr: &mut ByteReader) -> (r: Result<eSID_VertexUVScroll, YetiIOError>)
    ensures
        r matches Ok(v) && v == (eSID_VertexUVScroll {}),
        final(rdr).data() == old(rdr).data(),
        final(rdr).at() == old(rdr).at(),
{
    Ok(eSID_VertexUVScroll {})
}

/// This node is not read: the reader stays where it is.
pub fn load_eSID_VertexUVSource(rdr: &mut ByteReader) -> (r: Result<eSID_VertexUVSource, YetiIOError>)
    ensures
        r matches Ok(v) && v == (eSID_VertexUVSource {}),
        final(rdr).data() == old(rdr).data(),
        final(rdr).at() == old(rdr).at(),
{
    Ok(eSID_VertexUVSource {})
}

/// This node is not read: the reader stays where it is.
pub fn load_eSID_VertexUVToPixelUV(rdr: &mut ByteReader) -> (r: Result<eSID_VertexUVToPixelUV, YetiIOError>)
    ensures
        r matches Ok(v) && v == (eSID_VertexUVToPixelUV {}),
        final(rdr).data() == old(rdr).data(),
        final(rdr).at() == old(rdr).at(),
{
    Ok(eSID_VertexUVToPixelUV {})
}

/// This node is not read: the reader stays where it is.
pub fn load_eSID_VertexUV_Combiner4D(rdr: &mut ByteReader) -> (r: Result<eSID_VertexUV_Combiner4D, YetiIOError>)
    ensures
        r matches Ok(v) && v == (eSID_VertexUV_Combiner4D {}),
        final(rdr).data() == old(rdr).data(),
        final(rdr).at() == old(rdr).at(),
{
    Ok(eSID_VertexUV_Combiner4D {})
}

/// This node is not read: the reader stays where it is.
pub fn load_eSID_VertexUntransformedNormal(rdr: &mut ByteReader) -> (r: Result<eSID_VertexUntransformedNormal, YetiIOError>)
    ensures
        r matches Ok(v) && v == (eSID_VertexUntransformedNormal {}),
        final(rdr).data() == old(rdr).data(),
        final(rdr).at() == old(rdr).at(),
{
    Ok(eSID_VertexUntransformedNormal {})
}

/// This node is not read: the reader stays where it is.
pub fn load_eSID_Vertex_UV_ADD(rdr: &mut ByteReader) -> (r: Result<eSID_Vertex_UV_ADD, YetiIOError>)
    ensures
        r matches Ok(v) && v == (eSID_Vertex_UV_ADD {}),
        final(rdr).data() == old(rdr).data(),
        final(rdr).at() == old(rdr).at(),
{
    Ok(eSID_Vertex_UV_ADD {})
}

/// This node is not read: the reader stays where it is.
pub fn load_eSID_Vertex_UV_Blender(rdr: &mut ByteReader) -> (r: Result<eSID_Vertex_UV_Blender, YetiIOError>)
    ensures
        r matches Ok(v) && v == (eSID_Vertex_UV_Blender {}),
        final(rdr).data() == old(rdr).data(),
        final(rdr).at() == old(rdr).at(),
{
    Ok(eSID_Vertex_UV_Blender {})
}

/// This node is not read: the reader stays where it is.
pub fn load_eSID_Vertex_UV_ConstantMUL(rdr: &mut ByteReader) -> (r: Result<eSID_Vertex_UV_ConstantMUL, YetiIOError>)
    ensures
        r matches Ok(v) && v == (eSID_Vertex_UV_ConstantMUL {}),
        final(rdr).data() == old(rdr).data(),
        final(rdr).at() == old(rdr).at(),
{
    Ok(eSID_Vertex_UV_ConstantMUL {})
}

/// This node is not read: the reader stays where it is.
pub fn load_eSID_Vertex_UV_MUL(rdr: &mut ByteReader) -> (r: Result<eSID_Vertex_UV_MUL, YetiIOError>)
    ensures
        r matches Ok(v) && v == (eSID_Vertex_UV_MUL {}),
        final(rdr).data() == old(rdr).data(),
        final(rdr).at() == old(rdr).at(),
{
    Ok(eSID_Vertex_UV_MUL {})
}

/// This node is not read: the reader stays where it is.
pub fn load_eSID_ViewPosition(rdr: &mut ByteReader) -> (r: Result<eSID_ViewPosition, YetiIOError>)
    ensures
        r matches Ok(v) && v == (eSID_ViewPosition {}),
        final(rdr).data() == old(rdr).data(),
        final(rdr).at() == old(rdr).at(),
{
    Ok(eSID_ViewPosition {})
}

/// This node is not read: the reader stays where it is.
pub fn load_eSID_VolumeAlphaEx(rdr: &mut ByteReader) -> (r: Result<eSID_VolumeAlphaEx, YetiIOError>)
    ensures
        r matches Ok(v) && v == (eSID_VolumeAlphaEx {}),
        final(rdr).data() == old(rdr).data(),
        final(rdr).at() == old(rdr).at(),
{
    Ok(eSID_VolumeAlphaEx {})
}

/// This node is not read: the reader stays where it is.
pub fn load_eSID_VolumeAmbLightIntensityOpt(rdr: &mut ByteReader) -> (r: Result<eSID_VolumeAmbLightIntensityOpt, YetiIOError>)
    ensures
        r matches Ok(v) && v == (eSID_VolumeAmbLightIntensityOpt {}),
        final(rdr).data() == old(rdr).data(),
        final(rdr).at() == old(rdr).at(),
{
    Ok(eSID_VolumeAmbLightIntensityOpt {})
}

/// This node is not read: the reader stays where it is.
pub fn load_eSID_VolumetricParticle(rdr: &mut ByteReader) -> (r: Result<eSID_VolumetricParticle, YetiIOError>)
    ensures
        r matches Ok(v) && v == (eSID_VolumetricParticle {}),
        final(rdr).data() == old(rdr).data(),
        final(rdr).at() == old(rdr).at(),
{
    Ok(eSID_VolumetricParticle {})
}

/// This node is not read: the reader stays where it is.
pub fn load_eSID_VtxWorldPosition(rdr: &mut ByteReader) -> (r: Result<eSID_VtxWorldPosition, YetiIOError>)
    ensures
        r matches Ok(v) && v == (eSID_VtxWorldPosition {}),
        final(rdr).data() == old(rdr).data(),
        final(rdr).at() == old(rdr).at(),
{
    Ok(eSID_VtxWorldPosition {})
}

/// This node is not read: the reader stays where it is.
pub fn load_eSID_WorldPosition(rdr: &mut ByteReader) -> (r: Result<eSID_WorldPosition, YetiIOError>)
    ensures
        r matches Ok(v) && v == (eSID_WorldPosition {}),
        final(rdr).data() == old(rdr).data(),
        final(rdr).at() == old(rdr).at(),
{
    Ok(eSID_WorldPosition {})
}

/// This node is not read: the reader stays where it is.
pub fn load_eSID_WorldSinusFX(rdr: &mut ByteReader) -> (r: Result<eSID_WorldSinusFX_VC, YetiIOError>)
    ensures
        r matches Ok(v) && v == (eSID_WorldSinusFX_VC {}),
        final(rdr).data() == old(rdr).data(),
        final(rdr).at() == old(rdr).at(),
{
    Ok(eSID_WorldSinusFX_VC {})
}

} // verus!
