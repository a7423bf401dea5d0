#![allow(non_camel_case_types)]

pub mod node_id_loaders;

use vstd::prelude::*;

verus! {

#[derive(Debug)]
pub struct eSID_ADD {}

#[derive(Debug)]
pub struct eSID_AmbientCube {}

#[derive(Debug)]
pub struct eSID_AmbientOcclusion {}

#[derive(Debug)]
pub struct eSID_Blender {}

#[derive(Debug)]
pub struct eSID_BlurTex {}

#[derive(Debug)]
pub struct eSID_Clamp {}

#[derive(Debug)]
pub struct eSID_ColorSelector {}

#[derive(Debug)]
pub struct eSID_ColorSelectorSmooth {}

#[derive(Debug)]
pub struct eSID_Combiner4D {}

/// A comment node: its text.
#[derive(Debug)]
pub struct eSID_Comment {
    pub comment: String,
}

#[derive(Debug)]
pub struct eSID_ConstantColor {}

#[derive(Debug)]
pub struct eSID_ConstantMUL {}

#[derive(Debug)]
pub struct eSID_ConstantUVWQ {}

#[derive(Debug)]
pub struct eSID_ConstantVector {}

#[derive(Debug)]
pub struct eSID_CustomCode {}

#[derive(Debug)]
pub struct eSID_CustomCodeVtx {}

#[derive(Debug)]
pub struct eSID_DepthAlpha {}

#[derive(Debug)]
pub struct eSID_DepthAlphaOpt {}

#[derive(Debug)]
pub struct eSID_DepthTexture {}

#[derive(Debug)]
pub struct eSID_DiffuseCube {}

#[derive(Debug)]
pub struct eSID_DiffuseMultiplier {}

#[derive(Debug)]
pub struct eSID_DustFXSH {}

#[derive(Debug)]
pub struct eSID_ElapseTime {}

#[derive(Debug)]
pub struct eSID_FlatChrome {}

#[derive(Debug)]
pub struct eSID_ForceNoPrepass {}

#[derive(Debug)]
pub struct eSID_ForceUltraSimpleShader {}

#[derive(Debug)]
pub struct eSID_ForceVisualPrepass {}

#[derive(Debug)]
pub struct eSID_HeatSelector {}

#[derive(Debug)]
pub struct eSID_Invert {}

#[derive(Debug)]
pub struct eSID_LODBlender {}

#[derive(Debug)]
pub struct eSID_LODMUL {}

#[derive(Debug)]
pub struct eSID_LightCurve_Back {}

#[derive(Debug)]
pub struct eSID_LinearFresnel {}

#[derive(Debug)]
pub struct eSID_Luminance {}

#[derive(Debug)]
pub struct eSID_MUL {}

#[derive(Debug)]
pub struct eSID_MUL2X {}

#[derive(Debug)]
pub struct eSID_MainOutput {}

#[derive(Debug)]
pub struct eSID_MaterialColor_Diffuse {}

#[derive(Debug)]
pub struct eSID_MaterialColor_Emissive {}

#[derive(Debug)]
pub struct eSID_MaterialColor_EmissiveVTX {}

#[derive(Debug)]
pub struct eSID_MaterialColor_Specular {}

#[derive(Debug)]
pub struct eSID_Normal {}

#[derive(Debug)]
pub struct eSID_Normalize3D {}

#[derive(Debug)]
pub struct eSID_OffsetBump {}

#[derive(Debug)]
pub struct eSID_PixelAverageColor {}

#[derive(Debug)]
pub struct eSID_PixelColor_Misc {}

#[derive(Debug)]
pub struct eSID_PixelColor_Misc2 {}

#[derive(Debug)]
pub struct eSID_PixelSH {}

#[derive(Debug)]
pub struct eSID_PixelUVBoxAnimBlend {}

#[derive(Debug)]
pub struct eSID_PixelViewToWorld {}

#[derive(Debug)]
pub struct eSID_Position {}

#[derive(Debug)]
pub struct eSID_PowFresnel {}

#[derive(Debug)]
pub struct eSID_Power {}

#[derive(Debug)]
pub struct eSID_PulseWave {}

#[derive(Debug)]
pub struct eSID_RGB2UV {}

#[derive(Debug)]
pub struct eSID_RGB_Ramp {}

#[derive(Debug)]
pub struct eSID_RefracTex {}

#[derive(Debug)]
pub struct eSID_SUB {}

#[derive(Debug)]
pub struct eSID_SawWave {}

#[derive(Debug)]
pub struct eSID_ShadowValue {}

#[derive(Debug)]
pub struct eSID_SinusFX {}

#[derive(Debug)]
pub struct eSID_SpecularCubeMap {}

#[derive(Debug)]
pub struct eSID_SpecularGlossMultiplier {}

#[derive(Debug)]
pub struct eSID_SpecularPowerMultiplier {}

#[derive(Debug)]
pub struct eSID_Tangent2Screen {}

#[derive(Debug)]
pub struct eSID_Tex2D {}

#[derive(Debug)]
pub struct eSID_Tex2DYUV {}

#[derive(Debug)]
pub struct eSID_TexBump {}

#[derive(Debug)]
pub struct eSID_TexBumpTangent {}

#[derive(Debug)]
pub struct eSID_UV2RGB {}

#[derive(Debug)]
pub struct eSID_UVRotate {}

#[derive(Debug)]
pub struct eSID_UVScroll {}

#[derive(Debug)]
pub struct eSID_UVScrollSpeedFactor {}

#[derive(Debug)]
pub struct eSID_UVSource {}

#[derive(Debug)]
pub struct eSID_UV_ADD {}

#[derive(Debug)]
pub struct eSID_UV_Blender {}

#[derive(Debug)]
pub struct eSID_UV_Combiner4D {}

#[derive(Debug)]
pub struct eSID_UV_ConstantMUL {}

#[derive(Debug)]
pub struct eSID_UV_DUDV {}

#[derive(Debug)]
pub struct eSID_UV_MUL {}

#[derive(Debug)]
pub struct eSID_UV_SUB {}

#[derive(Debug)]
pub struct eSID_UntransformedNormal {}

#[derive(Debug)]
pub struct eSID_VERTEX_UV_SUB {}

#[derive(Debug)]
pub struct eSID_VertexColor {}

#[derive(Debug)]
pub struct eSID_VertexColorToPixel {}

#[derive(Debug)]
pub struct eSID_VertexColor_Misc1 {}

#[derive(Debug)]
pub struct eSID_VertexColor_Misc2 {}

#[derive(Debug)]
pub struct eSID_VertexCombiner4D {}

#[derive(Debug)]
pub struct eSID_VertexConstUVWQ {}

#[derive(Debug)]
pub struct eSID_VertexConstantVector {}

#[derive(Debug)]
pub struct eSID_VertexElapseTime {}

#[derive(Debug)]
pub struct eSID_VertexInvert {}

#[derive(Debug)]
pub struct eSID_VertexNormal {}

#[derive(Debug)]
pub struct eSID_VertexPulseWave {}

#[derive(Debug)]
pub struct eSID_VertexRGB2UV {}

#[derive(Debug)]
pub struct eSID_VertexUVRotate {}

#[derive(Debug)]
pub struct eSID_VertexUVScroll {}

#[derive(Debug)]
pub struct eSID_VertexUVSource {}

#[derive(Debug)]
pub struct eSID_VertexUVToPixelUV {}

#[derive(Debug)]
pub struct eSID_VertexUV_Combiner4D {}

#[derive(Debug)]
pub struct eSID_VertexUntransformedNormal {}

#[derive(Debug)]
pub struct eSID_Vertex_UV_ADD {}

#[derive(Debug)]
pub struct eSID_Vertex_UV_Blender {}

#[derive(Debug)]
pub struct eSID_Vertex_UV_ConstantMUL {}

#[derive(Debug)]
pub struct eSID_Vertex_UV_MUL {}

#[derive(Debug)]
pub struct eSID_ViewPosition {}

#[derive(Debug)]
pub struct eSID_VolumeAlphaEx {}

#[derive(Debug)]
pub struct eSID_VolumeAmbLightIntensityOpt {}

#[derive(Debug)]
pub struct eSID_VolumetricParticle {}

#[derive(Debug)]
pub struct eSID_VtxWorldPosition {}

#[derive(Debug)]
pub struct eSID_WorldPosition {}

#[derive(Debug)]
pub struct eSID_WorldSinusFX_VC {}

/// The kind of a shader node, with what is read of it.
#[derive(Debug)]
pub enum ShaderNodeId {
    Invalid,
    eSID_ADD(eSID_ADD),
    eSID_AmbientCube(eSID_AmbientCube),
    eSID_AmbientOcclusion(eSID_AmbientOcclusion),
    eSID_Blender(eSID_Blender),
    eSID_BlurTex(eSID_BlurTex),
    eSID_Clamp(eSID_Clamp),
    eSID_ColorSelector(eSID_ColorSelector),
    eSID_ColorSelectorSmooth(eSID_ColorSelectorSmooth),
    eSID_Combiner4D(eSID_Combiner4D),
    eSID_Comment(eSID_Comment),
    eSID_ConstantColor(eSID_ConstantColor),
    eSID_ConstantMUL(eSID_ConstantMUL),
    eSID_ConstantUVWQ(eSID_ConstantUVWQ),
    eSID_ConstantVector(eSID_ConstantVector),
    eSID_CustomCode(eSID_CustomCode),
    eSID_CustomCodeVtx(eSID_CustomCodeVtx),
    eSID_DepthAlpha(eSID_DepthAlpha),
    eSID_DepthAlphaOpt(eSID_DepthAlphaOpt),
    eSID_DepthTexture(eSID_DepthTexture),
    eSID_DiffuseCube(eSID_DiffuseCube),
    eSID_DiffuseMultiplier(eSID_DiffuseMultiplier),
    eSID_DustFXSH(eSID_DustFXSH),
    eSID_ElapseTime(eSID_ElapseTime),
    eSID_FlatChrome(eSID_FlatChrome),
    eSID_ForceNoPrepass(eSID_ForceNoPrepass),
    eSID_ForceUltraSimpleShader(eSID_ForceUltraSimpleShader),
    eSID_ForceVisualPrepass(eSID_ForceVisualPrepass),
    eSID_HeatSelector(eSID_HeatSelector),
    eSID_Invert(eSID_Invert),
    eSID_LODBlender(eSID_LODBlender),
    eSID_LODMUL(eSID_LODMUL),
    eSID_LightCurve_Back(eSID_LightCurve_Back),
    eSID_LinearFresnel(eSID_LinearFresnel),
    eSID_Luminance(eSID_Luminance),
    eSID_MUL(eSID_MUL),
    eSID_MUL2X(eSID_MUL2X),
    eSID_MainOutput(eSID_MainOutput),
    eSID_MaterialColor_Diffuse(eSID_MaterialColor_Diffuse),
    eSID_MaterialColor_Emissive(eSID_MaterialColor_Emissive),
    eSID_MaterialColor_EmissiveVTX(eSID_MaterialColor_EmissiveVTX),
    eSID_MaterialColor_Specular(eSID_MaterialColor_Specular),
    eSID_Normal(eSID_Normal),
    eSID_Normalize3D(eSID_Normalize3D),
    eSID_OffsetBump(eSID_OffsetBump),
    eSID_PixelAverageColor(eSID_PixelAverageColor),
    eSID_PixelColor_Misc(eSID_PixelColor_Misc),
    eSID_PixelColor_Misc2(eSID_PixelColor_Misc2),
    eSID_PixelSH(eSID_PixelSH),
    eSID_PixelUVBoxAnimBlend(eSID_PixelUVBoxAnimBlend),
    eSID_PixelViewToWorld(eSID_PixelViewToWorld),
    eSID_Position(eSID_Position),
    eSID_PowFresnel(eSID_PowFresnel),
    eSID_Power(eSID_Power),
    eSID_PulseWave(eSID_PulseWave),
    eSID_RGB2UV(eSID_RGB2UV),
    eSID_RGB_Ramp(eSID_RGB_Ramp),
    eSID_RefracTex(eSID_RefracTex),
    eSID_SUB(eSID_SUB),
    eSID_SawWave(eSID_SawWave),
    eSID_ShadowValue(eSID_ShadowValue),
    eSID_SinusFX(eSID_SinusFX),
    eSID_SpecularCubeMap(eSID_SpecularCubeMap),
    eSID_SpecularGlossMultiplier(eSID_SpecularGlossMultiplier),
    eSID_SpecularPowerMultiplier(eSID_SpecularPowerMultiplier),
    eSID_Tangent2Screen(eSID_Tangent2Screen),
    eSID_Tex2D(eSID_Tex2D),
    eSID_Tex2DYUV(eSID_Tex2DYUV),
    eSID_TexBump(eSID_TexBump),
    eSID_TexBumpTangent(eSID_TexBumpTangent),
    eSID_UV2RGB(eSID_UV2RGB),
    eSID_UVRotate(eSID_UVRotate),
    eSID_UVScroll(eSID_UVScroll),
    eSID_UVScrollSpeedFactor(eSID_UVScrollSpeedFactor),
    eSID_UVSource(eSID_UVSource),
    eSID_UV_ADD(eSID_UV_ADD),
    eSID_UV_Blender(eSID_UV_Blender),
    eSID_UV_Combiner4D(eSID_UV_Combiner4D),
    eSID_UV_ConstantMUL(eSID_UV_ConstantMUL),
    eSID_UV_DUDV(eSID_UV_DUDV),
    eSID_UV_MUL(eSID_UV_MUL),
    eSID_UV_SUB(eSID_UV_SUB),
    eSID_UntransformedNormal(eSID_UntransformedNormal),
    eSID_VERTEX_UV_SUB(eSID_VERTEX_UV_SUB),
    eSID_VertexColor(eSID_VertexColor),
    eSID_VertexColorToPixel(eSID_VertexColorToPixel),
    eSID_VertexColor_Misc1(eSID_VertexColor_Misc1),
    eSID_VertexColor_Misc2(eSID_VertexColor_Misc2),
    eSID_VertexCombiner4D(eSID_VertexCombiner4D),
    eSID_VertexConstUVWQ(eSID_VertexConstUVWQ),
    eSID_VertexConstantVector(eSID_VertexConstantVector),
    eSID_VertexElapseTime(eSID_VertexElapseTime),
    eSID_VertexInvert(eSID_VertexInvert),
    eSID_VertexNormal(eSID_VertexNormal),
    eSID_VertexPulseWave(eSID_VertexPulseWave),
    eSID_VertexRGB2UV(eSID_VertexRGB2UV),
    eSID_VertexUVRotate(eSID_VertexUVRotate),
    eSID_VertexUVScroll(eSID_VertexUVScroll),
    eSID_VertexUVSource(eSID_VertexUVSource),
    eSID_VertexUVToPixelUV(eSID_VertexUVToPixelUV),
    eSID_VertexUV_Combiner4D(eSID_VertexUV_Combiner4D),
    eSID_VertexUntransformedNormal(eSID_VertexUntransformedNormal),
    eSID_Vertex_UV_ADD(eSID_Vertex_UV_ADD),
    eSID_Vertex_UV_Blender(eSID_Vertex_UV_Blender),
    eSID_Vertex_UV_ConstantMUL(eSID_Vertex_UV_ConstantMUL),
    eSID_Vertex_UV_MUL(eSID_Vertex_UV_MUL),
    eSID_ViewPosition(eSID_ViewPosition),
    eSID_VolumeAlphaEx(eSID_VolumeAlphaEx),
    eSID_VolumeAmbLightIntensityOpt(eSID_VolumeAmbLightIntensityOpt),
    eSID_VolumetricParticle(eSID_VolumetricParticle),
    eSID_VtxWorldPosition(eSID_VtxWorldPosition),
    eSID_WorldPosition(eSID_WorldPosition),
    eSID_WorldSinusFX(eSID_WorldSinusFX_VC),
}

/// What the library reads of a shader node: a comment's text, or nothing.
pub enum ShaderNodeKind {
    Comment(Seq<char>),
    Invalid,
    Other,
}

impl View for ShaderNodeId {
    type V = ShaderNodeKind;

    open spec fn view(&self) -> ShaderNodeKind {
        match self {
            ShaderNodeId::eSID_Comment(c) => ShaderNodeKind::Comment(c.comment@),
            ShaderNodeId::Invalid => ShaderNodeKind::Invalid,
            _ => ShaderNodeKind::Other,
        }
    }
}

} // verus!
