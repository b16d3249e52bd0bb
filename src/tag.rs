use vstd::prelude::*;

verus! {

/// The signature of a tag in an ICC profile. Each one is four ASCII
/// characters, read as a big-endian integer by `code`.
#[derive(Debug, Copy, Clone, PartialEq, Eq, Structural, Hash)]
pub enum TagSignature {
    /// 'A2B0'
    AToB0Tag,
    /// 'A2B1'
    AToB1Tag,
    /// 'A2B2'
    AToB2Tag,
    /// 'bXYZ'
    BlueColorantTag,
    /// 'bTRC'
    BlueTRCTag,
    /// 'B2A0'
    BToA0Tag,
    /// 'B2A1'
    BToA1Tag,
    /// 'B2A2'
    BToA2Tag,
    /// 'calt'
    CalibrationDateTimeTag,
    /// 'targ'
    CharTargetTag,
    /// 'chad'
    ChromaticAdaptationTag,
    /// 'chrm'
    ChromaticityTag,
    /// 'clro'
    ColorantOrderTag,
    /// 'clrt'
    ColorantTableTag,
    /// 'clot'
    ColorantTableOutTag,
    /// 'ciis'
    ColorimetricIntentImageStateTag,
    /// 'cprt'
    CopyrightTag,
    /// 'crdi'
    CrdInfoTag,
    /// 'data'
    DataTag,
    /// 'dtim'
    DateTimeTag,
    /// 'dmnd'
    DeviceMfgDescTag,
    /// 'dmdd'
    DeviceModelDescTag,
    /// 'devs'
    DeviceSettingsTag,
    /// 'D2B0'
    DToB0Tag,
    /// 'D2B1'
    DToB1Tag,
    /// 'D2B2'
    DToB2Tag,
    /// 'D2B3'
    DToB3Tag,
    /// 'B2D0'
    BToD0Tag,
    /// 'B2D1'
    BToD1Tag,
    /// 'B2D2'
    BToD2Tag,
    /// 'B2D3'
    BToD3Tag,
    /// 'gamt'
    GamutTag,
    /// 'kTRC'
    GrayTRCTag,
    /// 'gXYZ'
    GreenColorantTag,
    /// 'gTRC'
    GreenTRCTag,
    /// 'lumi'
    LuminanceTag,
    /// 'meas'
    MeasurementTag,
    /// 'bkpt'
    MediaBlackPointTag,
    /// 'wtpt'
    MediaWhitePointTag,
    /// 'ncol'
    NamedColorTag,
    /// 'ncl2'
    NamedColor2Tag,
    /// 'resp'
    OutputResponseTag,
    /// 'rig0'
    PerceptualRenderingIntentGamutTag,
    /// 'pre0'
    Preview0Tag,
    /// 'pre1'
    Preview1Tag,
    /// 'pre2'
    Preview2Tag,
    /// 'desc'
    ProfileDescriptionTag,
    /// 'dscm'
    ProfileDescriptionMLTag,
    /// 'pseq'
    ProfileSequenceDescTag,
    /// 'psid'
    ProfileSequenceIdTag,
    /// 'psd0'
    Ps2CRD0Tag,
    /// 'psd1'
    Ps2CRD1Tag,
    /// 'psd2'
    Ps2CRD2Tag,
    /// 'psd3'
    Ps2CRD3Tag,
    /// 'ps2s'
    Ps2CSATag,
    /// 'ps2i'
    Ps2RenderingIntentTag,
    /// 'rXYZ'
    RedColorantTag,
    /// 'rTRC'
    RedTRCTag,
    /// 'rig2'
    SaturationRenderingIntentGamutTag,
    /// 'scrd'
    ScreeningDescTag,
    /// 'scrn'
    ScreeningTag,
    /// 'tech'
    TechnologyTag,
    /// 'bfd '
    UcrBgTag,
    /// 'vued'
    ViewingCondDescTag,
    /// 'view'
    ViewingConditionsTag,
    /// 'vcgt'
    VcgtTag,
    /// 'meta'
    MetaTag,
    /// 'arts'
    ArgyllArtsTag,
    CicpTag,
    MHC2Tag,
}

/// The kind of value a tag holds, as fixed by its signature.
#[derive(Debug, Copy, Clone, PartialEq, Eq, Structural, Hash)]
pub enum TagKind {
    /// A tristimulus value.
    CIEXYZ,
    /// A localized string table.
    MLU,
    /// A chromaticity triple.
    CIExyYTRIPLE,
    /// A named-colour palette.
    NamedColorList,
    /// An opaque data blob.
    ICCData,
    /// A pipeline.
    Pipeline,
    /// A single tone curve.
    ToneCurve,
    /// A colorimetric-intent image state.
    ColorimetricIntentImageState,
    /// A rendering intent.
    Intent,
    /// A technology signature.
    Technology,
    /// Measurement conditions.
    ICCMeasurementConditions,
    /// A profile sequence.
    SEQ,
    /// Screening parameters.
    Screening,
    /// Under-colour removal and black generation.
    UcrBg,
    /// Three video-card gamma curves, in the order red, green, blue.
    VcgtCurves,
    /// Viewing conditions.
    ICCViewingConditions,
    /// A video-signal descriptor.
    VideoSignal,
    /// A vendor calibration blob.
    MHC2,
    /// Unknown format or missing data.
    Absent,
}

/// The integer under which a signature is stored, or `None` for an integer
/// that is no known signature.
pub open spec fn signature_of_code(c: u32) -> Option<TagSignature> {
    if c == 0x41324230 {
        Some(TagSignature::AToB0Tag)
    }
    else if c == 0x41324231 {
        Some(TagSignature::AToB1Tag)
    }
    else if c == 0x41324232 {
        Some(TagSignature::AToB2Tag)
    }
    else if c == 0x6258595A {
        Some(TagSignature::BlueColorantTag)
    }
    else if c == 0x62545243 {
        Some(TagSignature::BlueTRCTag)
    }
    else if c == 0x42324130 {
        Some(TagSignature::BToA0Tag)
    }
    else if c == 0x42324131 {
        Some(TagSignature::BToA1Tag)
    }
    else if c == 0x42324132 {
        Some(TagSignature::BToA2Tag)
    }
    else if c == 0x63616C74 {
        Some(TagSignature::CalibrationDateTimeTag)
    }
    else if c == 0x74617267 {
        Some(TagSignature::CharTargetTag)
    }
    else if c == 0x63686164 {
        Some(TagSignature::ChromaticAdaptationTag)
    }
    else if c == 0x6368726D {
        Some(TagSignature::ChromaticityTag)
    }
    else if c == 0x636C726F {
        Some(TagSignature::ColorantOrderTag)
    }
    else if c == 0x636C7274 {
        Some(TagSignature::ColorantTableTag)
    }
    else if c == 0x636C6F74 {
        Some(TagSignature::ColorantTableOutTag)
    }
    else if c == 0x63696973 {
        Some(TagSignature::ColorimetricIntentImageStateTag)
    }
    else if c == 0x63707274 {
        Some(TagSignature::CopyrightTag)
    }
    else if c == 0x63726469 {
        Some(TagSignature::CrdInfoTag)
    }
    else if c == 0x64617461 {
        Some(TagSignature::DataTag)
    }
    else if c == 0x6474696D {
        Some(TagSignature::DateTimeTag)
    }
    else if c == 0x646D6E64 {
        Some(TagSignature::DeviceMfgDescTag)
    }
    else if c == 0x646D6464 {
        Some(TagSignature::DeviceModelDescTag)
    }
    else if c == 0x64657673 {
        Some(TagSignature::DeviceSettingsTag)
    }
    else if c == 0x44324230 {
        Some(TagSignature::DToB0Tag)
    }
    else if c == 0x44324231 {
        Some(TagSignature::DToB1Tag)
    }
    else if c == 0x44324232 {
        Some(TagSignature::DToB2Tag)
    }
    else if c == 0x44324233 {
        Some(TagSignature::DToB3Tag)
    }
    else if c == 0x42324430 {
        Some(TagSignature::BToD0Tag)
    }
    else if c == 0x42324431 {
        Some(TagSignature::BToD1Tag)
    }
    else if c == 0x42324432 {
        Some(TagSignature::BToD2Tag)
    }
    else if c == 0x42324433 {
        Some(TagSignature::BToD3Tag)
    }
    else if c == 0x67616D74 {
        Some(TagSignature::GamutTag)
    }
    else if c == 0x6B545243 {
        Some(TagSignature::GrayTRCTag)
    }
    else if c == 0x6758595A {
        Some(TagSignature::GreenColorantTag)
    }
    else if c == 0x67545243 {
        Some(TagSignature::GreenTRCTag)
    }
    else if c == 0x6C756D69 {
        Some(TagSignature::LuminanceTag)
    }
    else if c == 0x6D656173 {
        Some(TagSignature::MeasurementTag)
    }
    else if c == 0x626B7074 {
        Some(TagSignature::MediaBlackPointTag)
    }
    else if c == 0x77747074 {
        Some(TagSignature::MediaWhitePointTag)
    }
    else if c == 0x6E636F6C {
        Some(TagSignature::NamedColorTag)
    }
    else if c == 0x6E636C32 {
        Some(TagSignature::NamedColor2Tag)
    }
    else if c == 0x72657370 {
        Some(TagSignature::OutputResponseTag)
    }
    else if c == 0x72696730 {
        Some(TagSignature::PerceptualRenderingIntentGamutTag)
    }
    else if c == 0x70726530 {
        Some(TagSignature::Preview0Tag)
    }
    else if c == 0x70726531 {
        Some(TagSignature::Preview1Tag)
    }
    else if c == 0x70726532 {
        Some(TagSignature::Preview2Tag)
    }
    else if c == 0x64657363 {
        Some(TagSignature::ProfileDescriptionTag)
    }
    else if c == 0x6473636D {
        Some(TagSignature::ProfileDescriptionMLTag)
    }
    else if c == 0x70736571 {
        Some(TagSignature::ProfileSequenceDescTag)
    }
    else if c == 0x70736964 {
        Some(TagSignature::ProfileSequenceIdTag)
    }
    else if c == 0x70736430 {
        Some(TagSignature::Ps2CRD0Tag)
    }
    else if c == 0x70736431 {
        Some(TagSignature::Ps2CRD1Tag)
    }
    else if c == 0x70736432 {
        Some(TagSignature::Ps2CRD2Tag)
    }
    else if c == 0x70736433 {
        Some(TagSignature::Ps2CRD3Tag)
    }
    else if c == 0x70733273 {
        Some(TagSignature::Ps2CSATag)
    }
    else if c == 0x70733269 {
        Some(TagSignature::Ps2RenderingIntentTag)
    }
    else if c == 0x7258595A {
        Some(TagSignature::RedColorantTag)
    }
    else if c == 0x72545243 {
        Some(TagSignature::RedTRCTag)
    }
    else if c == 0x72696732 {
        Some(TagSignature::SaturationRenderingIntentGamutTag)
    }
    else if c == 0x73637264 {
        Some(TagSignature::ScreeningDescTag)
    }
    else if c == 0x7363726E {
        Some(TagSignature::ScreeningTag)
    }
    else if c == 0x74656368 {
        Some(TagSignature::TechnologyTag)
    }
    else if c == 0x62666420 {
        Some(TagSignature::UcrBgTag)
    }
    else if c == 0x76756564 {
        Some(TagSignature::ViewingCondDescTag)
    }
    else if c == 0x76696577 {
        Some(TagSignature::ViewingConditionsTag)
    }
    else if c == 0x76636774 {
        Some(TagSignature::VcgtTag)
    }
    else if c == 0x6D657461 {
        Some(TagSignature::MetaTag)
    }
    else if c == 0x61727473 {
        Some(TagSignature::ArgyllArtsTag)
    }
    else if c == 0x63696370 {
        Some(TagSignature::CicpTag)
    }
    else if c == 0x4D484332 {
        Some(TagSignature::MHC2Tag)
    }
    else {
        None
    }
}

impl TagSignature {
    /// The four characters of the signature as a big-endian integer.
    pub open spec fn spec_code(self) -> u32 {
        match self {
            TagSignature::AToB0Tag => 0x41324230,
            TagSignature::AToB1Tag => 0x41324231,
            TagSignature::AToB2Tag => 0x41324232,
            TagSignature::BlueColorantTag => 0x6258595A,
            TagSignature::BlueTRCTag => 0x62545243,
            TagSignature::BToA0Tag => 0x42324130,
            TagSignature::BToA1Tag => 0x42324131,
            TagSignature::BToA2Tag => 0x42324132,
            TagSignature::CalibrationDateTimeTag => 0x63616C74,
            TagSignature::CharTargetTag => 0x74617267,
            TagSignature::ChromaticAdaptationTag => 0x63686164,
            TagSignature::ChromaticityTag => 0x6368726D,
            TagSignature::ColorantOrderTag => 0x636C726F,
            TagSignature::ColorantTableTag => 0x636C7274,
            TagSignature::ColorantTableOutTag => 0x636C6F74,
            TagSignature::ColorimetricIntentImageStateTag => 0x63696973,
            TagSignature::CopyrightTag => 0x63707274,
            TagSignature::CrdInfoTag => 0x63726469,
            TagSignature::DataTag => 0x64617461,
            TagSignature::DateTimeTag => 0x6474696D,
            TagSignature::DeviceMfgDescTag => 0x646D6E64,
            TagSignature::DeviceModelDescTag => 0x646D6464,
            TagSignature::DeviceSettingsTag => 0x64657673,
            TagSignature::DToB0Tag => 0x44324230,
            TagSignature::DToB1Tag => 0x44324231,
            TagSignature::DToB2Tag => 0x44324232,
            TagSignature::DToB3Tag => 0x44324233,
            TagSignature::BToD0Tag => 0x42324430,
            TagSignature::BToD1Tag => 0x42324431,
            TagSignature::BToD2Tag => 0x42324432,
            TagSignature::BToD3Tag => 0x42324433,
            TagSignature::GamutTag => 0x67616D74,
            TagSignature::GrayTRCTag => 0x6B545243,
            TagSignature::GreenColorantTag => 0x6758595A,
            TagSignature::GreenTRCTag => 0x67545243,
            TagSignature::LuminanceTag => 0x6C756D69,
            TagSignature::MeasurementTag => 0x6D656173,
            TagSignature::MediaBlackPointTag => 0x626B7074,
            TagSignature::MediaWhitePointTag => 0x77747074,
            TagSignature::NamedColorTag => 0x6E636F6C,
            TagSignature::NamedColor2Tag => 0x6E636C32,
            TagSignature::OutputResponseTag => 0x72657370,
            TagSignature::PerceptualRenderingIntentGamutTag => 0x72696730,
            TagSignature::Preview0Tag => 0x70726530,
            TagSignature::Preview1Tag => 0x70726531,
            TagSignature::Preview2Tag => 0x70726532,
            TagSignature::ProfileDescriptionTag => 0x64657363,
            TagSignature::ProfileDescriptionMLTag => 0x6473636D,
            TagSignature::ProfileSequenceDescTag => 0x70736571,
            TagSignature::ProfileSequenceIdTag => 0x70736964,
            TagSignature::Ps2CRD0Tag => 0x70736430,
            TagSignature::Ps2CRD1Tag => 0x70736431,
            TagSignature::Ps2CRD2Tag => 0x70736432,
            TagSignature::Ps2CRD3Tag => 0x70736433,
            TagSignature::Ps2CSATag => 0x70733273,
            TagSignature::Ps2RenderingIntentTag => 0x70733269,
            TagSignature::RedColorantTag => 0x7258595A,
            TagSignature::RedTRCTag => 0x72545243,
            TagSignature::SaturationRenderingIntentGamutTag => 0x72696732,
            TagSignature::ScreeningDescTag => 0x73637264,
            TagSignature::ScreeningTag => 0x7363726E,
            TagSignature::TechnologyTag => 0x74656368,
            TagSignature::UcrBgTag => 0x62666420,
            TagSignature::ViewingCondDescTag => 0x76756564,
            TagSignature::ViewingConditionsTag => 0x76696577,
            TagSignature::VcgtTag => 0x76636774,
            TagSignature::MetaTag => 0x6D657461,
            TagSignature::ArgyllArtsTag => 0x61727473,
            TagSignature::CicpTag => 0x63696370,
            TagSignature::MHC2Tag => 0x4D484332,
        }
    }

    /// The kind of value stored under this signature. This one table serves
    /// both reading and writing.
    pub open spec fn spec_kind(self) -> TagKind {
        match self {
            TagSignature::BlueColorantTag | TagSignature::GreenColorantTag | TagSignature::LuminanceTag | TagSignature::MediaBlackPointTag | TagSignature::MediaWhitePointTag | TagSignature::RedColorantTag => TagKind::CIEXYZ,
            TagSignature::CharTargetTag | TagSignature::CopyrightTag | TagSignature::DeviceMfgDescTag | TagSignature::DeviceModelDescTag | TagSignature::ProfileDescriptionTag | TagSignature::ProfileDescriptionMLTag | TagSignature::ScreeningDescTag | TagSignature::ViewingCondDescTag => TagKind::MLU,
            TagSignature::ChromaticityTag | TagSignature::ChromaticAdaptationTag => TagKind::CIExyYTRIPLE,
            TagSignature::ColorantTableTag | TagSignature::ColorantTableOutTag | TagSignature::CrdInfoTag | TagSignature::NamedColor2Tag => TagKind::NamedColorList,
            TagSignature::DataTag | TagSignature::Ps2CRD0Tag | TagSignature::Ps2CRD1Tag | TagSignature::Ps2CRD2Tag | TagSignature::Ps2CRD3Tag | TagSignature::Ps2CSATag | TagSignature::Ps2RenderingIntentTag => TagKind::ICCData,
            TagSignature::AToB0Tag | TagSignature::AToB1Tag | TagSignature::AToB2Tag | TagSignature::BToA0Tag | TagSignature::BToA1Tag | TagSignature::BToA2Tag | TagSignature::DToB0Tag | TagSignature::DToB1Tag | TagSignature::DToB2Tag | TagSignature::DToB3Tag | TagSignature::BToD0Tag | TagSignature::BToD1Tag | TagSignature::BToD2Tag | TagSignature::BToD3Tag | TagSignature::GamutTag | TagSignature::Preview0Tag | TagSignature::Preview1Tag | TagSignature::Preview2Tag => TagKind::Pipeline,
            TagSignature::BlueTRCTag | TagSignature::GrayTRCTag | TagSignature::GreenTRCTag | TagSignature::RedTRCTag => TagKind::ToneCurve,
            TagSignature::ColorimetricIntentImageStateTag => TagKind::ColorimetricIntentImageState,
            TagSignature::PerceptualRenderingIntentGamutTag | TagSignature::SaturationRenderingIntentGamutTag => TagKind::Intent,
            TagSignature::TechnologyTag => TagKind::Technology,
            TagSignature::MeasurementTag => TagKind::ICCMeasurementConditions,
            TagSignature::ProfileSequenceDescTag | TagSignature::ProfileSequenceIdTag => TagKind::SEQ,
            TagSignature::ScreeningTag => TagKind::Screening,
            TagSignature::UcrBgTag => TagKind::UcrBg,
            TagSignature::VcgtTag => TagKind::VcgtCurves,
            TagSignature::ViewingConditionsTag => TagKind::ICCViewingConditions,
            TagSignature::CicpTag => TagKind::VideoSignal,
            TagSignature::MHC2Tag => TagKind::MHC2,
            _ => TagKind::Absent,
        }
    }

    /// The four characters of the signature as a big-endian integer.
    pub fn code(&self) -> (r: u32)
        ensures
            r == self.spec_code(),
    {
        match self {
            TagSignature::AToB0Tag => 0x41324230,
            TagSignature::AToB1Tag => 0x41324231,
            TagSignature::AToB2Tag => 0x41324232,
            TagSignature::BlueColorantTag => 0x6258595A,
            TagSignature::BlueTRCTag => 0x62545243,
            TagSignature::BToA0Tag => 0x42324130,
            TagSignature::BToA1Tag => 0x42324131,
            TagSignature::BToA2Tag => 0x42324132,
            TagSignature::CalibrationDateTimeTag => 0x63616C74,
            TagSignature::CharTargetTag => 0x74617267,
            TagSignature::ChromaticAdaptationTag => 0x63686164,
            TagSignature::ChromaticityTag => 0x6368726D,
            TagSignature::ColorantOrderTag => 0x636C726F,
            TagSignature::ColorantTableTag => 0x636C7274,
            TagSignature::ColorantTableOutTag => 0x636C6F74,
            TagSignature::ColorimetricIntentImageStateTag => 0x63696973,
            TagSignature::CopyrightTag => 0x63707274,
            TagSignature::CrdInfoTag => 0x63726469,
            TagSignature::DataTag => 0x64617461,
            TagSignature::DateTimeTag => 0x6474696D,
            TagSignature::DeviceMfgDescTag => 0x646D6E64,
            TagSignature::DeviceModelDescTag => 0x646D6464,
            TagSignature::DeviceSettingsTag => 0x64657673,
            TagSignature::DToB0Tag => 0x44324230,
            TagSignature::DToB1Tag => 0x44324231,
            TagSignature::DToB2Tag => 0x44324232,
            TagSignature::DToB3Tag => 0x44324233,
            TagSignature::BToD0Tag => 0x42324430,
            TagSignature::BToD1Tag => 0x42324431,
            TagSignature::BToD2Tag => 0x42324432,
            TagSignature::BToD3Tag => 0x42324433,
            TagSignature::GamutTag => 0x67616D74,
            TagSignature::GrayTRCTag => 0x6B545243,
            TagSignature::GreenColorantTag => 0x6758595A,
            TagSignature::GreenTRCTag => 0x67545243,
            TagSignature::LuminanceTag => 0x6C756D69,
            TagSignature::MeasurementTag => 0x6D656173,
            TagSignature::MediaBlackPointTag => 0x626B7074,
            TagSignature::MediaWhitePointTag => 0x77747074,
            TagSignature::NamedColorTag => 0x6E636F6C,
            TagSignature::NamedColor2Tag => 0x6E636C32,
            TagSignature::OutputResponseTag => 0x72657370,
            TagSignature::PerceptualRenderingIntentGamutTag => 0x72696730,
            TagSignature::Preview0Tag => 0x70726530,
            TagSignature::Preview1Tag => 0x70726531,
            TagSignature::Preview2Tag => 0x70726532,
            TagSignature::ProfileDescriptionTag => 0x64657363,
            TagSignature::ProfileDescriptionMLTag => 0x6473636D,
            TagSignature::ProfileSequenceDescTag => 0x70736571,
            TagSignature::ProfileSequenceIdTag => 0x70736964,
            TagSignature::Ps2CRD0Tag => 0x70736430,
            TagSignature::Ps2CRD1Tag => 0x70736431,
            TagSignature::Ps2CRD2Tag => 0x70736432,
            TagSignature::Ps2CRD3Tag => 0x70736433,
            TagSignature::Ps2CSATag => 0x70733273,
            TagSignature::Ps2RenderingIntentTag => 0x70733269,
            TagSignature::RedColorantTag => 0x7258595A,
            TagSignature::RedTRCTag => 0x72545243,
            TagSignature::SaturationRenderingIntentGamutTag => 0x72696732,
            TagSignature::ScreeningDescTag => 0x73637264,
            TagSignature::ScreeningTag => 0x7363726E,
            TagSignature::TechnologyTag => 0x74656368,
            TagSignature::UcrBgTag => 0x62666420,
            TagSignature::ViewingCondDescTag => 0x76756564,
            TagSignature::ViewingConditionsTag => 0x76696577,
            TagSignature::VcgtTag => 0x76636774,
            TagSignature::MetaTag => 0x6D657461,
            TagSignature::ArgyllArtsTag => 0x61727473,
            TagSignature::CicpTag => 0x63696370,
            TagSignature::MHC2Tag => 0x4D484332,
        }
    }

    /// The signature stored under `c`, if `c` is a known one.
    pub fn from_code(c: u32) -> (r: Option<TagSignature>)
        ensures
            r == signature_of_code(c),
    {
        if c == 0x41324230 {
            Some(TagSignature::AToB0Tag)
        } else if c == 0x41324231 {
            Some(TagSignature::AToB1Tag)
        } else if c == 0x41324232 {
            Some(TagSignature::AToB2Tag)
        } else if c == 0x6258595A {
            Some(TagSignature::BlueColorantTag)
        } else if c == 0x62545243 {
            Some(TagSignature::BlueTRCTag)
        } else if c == 0x42324130 {
            Some(TagSignature::BToA0Tag)
        } else if c == 0x42324131 {
            Some(TagSignature::BToA1Tag)
        } else if c == 0x42324132 {
            Some(TagSignature::BToA2Tag)
        } else if c == 0x63616C74 {
            Some(TagSignature::CalibrationDateTimeTag)
        } else if c == 0x74617267 {
            Some(TagSignature::CharTargetTag)
        } else if c == 0x63686164 {
            Some(TagSignature::ChromaticAdaptationTag)
        } else if c == 0x6368726D {
            Some(TagSignature::ChromaticityTag)
        } else if c == 0x636C726F {
            Some(TagSignature::ColorantOrderTag)
        } else if c == 0x636C7274 {
            Some(TagSignature::ColorantTableTag)
        } else if c == 0x636C6F74 {
            Some(TagSignature::ColorantTableOutTag)
        } else if c == 0x63696973 {
            Some(TagSignature::ColorimetricIntentImageStateTag)
        } else if c == 0x63707274 {
            Some(TagSignature::CopyrightTag)
        } else if c == 0x63726469 {
            Some(TagSignature::CrdInfoTag)
        } else if c == 0x64617461 {
            Some(TagSignature::DataTag)
        } else if c == 0x6474696D {
            Some(TagSignature::DateTimeTag)
        } else if c == 0x646D6E64 {
            Some(TagSignature::DeviceMfgDescTag)
        } else if c == 0x646D6464 {
            Some(TagSignature::DeviceModelDescTag)
        } else if c == 0x64657673 {
            Some(TagSignature::DeviceSettingsTag)
        } else if c == 0x44324230 {
            Some(TagSignature::DToB0Tag)
        } else if c == 0x44324231 {
            Some(TagSignature::DToB1Tag)
        } else if c == 0x44324232 {
            Some(TagSignature::DToB2Tag)
        } else if c == 0x44324233 {
            Some(TagSignature::DToB3Tag)
        } else if c == 0x42324430 {
            Some(TagSignature::BToD0Tag)
        } else if c == 0x42324431 {
            Some(TagSignature::BToD1Tag)
        } else if c == 0x42324432 {
            Some(TagSignature::BToD2Tag)
        } else if c == 0x42324433 {
            Some(TagSignature::BToD3Tag)
        } else if c == 0x67616D74 {
            Some(TagSignature::GamutTag)
        } else if c == 0x6B545243 {
            Some(TagSignature::GrayTRCTag)
        } else if c == 0x6758595A {
            Some(TagSignature::GreenColorantTag)
        } else if c == 0x67545243 {
            Some(TagSignature::GreenTRCTag)
        } else if c == 0x6C756D69 {
            Some(TagSignature::LuminanceTag)
        } else if c == 0x6D656173 {
            Some(TagSignature::MeasurementTag)
        } else if c == 0x626B7074 {
            Some(TagSignature::MediaBlackPointTag)
        } else if c == 0x77747074 {
            Some(TagSignature::MediaWhitePointTag)
        } else if c == 0x6E636F6C {
            Some(TagSignature::NamedColorTag)
        } else if c == 0x6E636C32 {
            Some(TagSignature::NamedColor2Tag)
        } else if c == 0x72657370 {
            Some(TagSignature::OutputResponseTag)
        } else if c == 0x72696730 {
            Some(TagSignature::PerceptualRenderingIntentGamutTag)
        } else if c == 0x70726530 {
            Some(TagSignature::Preview0Tag)
        } else if c == 0x70726531 {
            Some(TagSignature::Preview1Tag)
        } else if c == 0x70726532 {
            Some(TagSignature::Preview2Tag)
        } else if c == 0x64657363 {
            Some(TagSignature::ProfileDescriptionTag)
        } else if c == 0x6473636D {
            Some(TagSignature::ProfileDescriptionMLTag)
        } else if c == 0x70736571 {
            Some(TagSignature::ProfileSequenceDescTag)
        } else if c == 0x70736964 {
            Some(TagSignature::ProfileSequenceIdTag)
        } else if c == 0x70736430 {
            Some(TagSignature::Ps2CRD0Tag)
        } else if c == 0x70736431 {
            Some(TagSignature::Ps2CRD1Tag)
        } else if c == 0x70736432 {
            Some(TagSignature::Ps2CRD2Tag)
        } else if c == 0x70736433 {
            Some(TagSignature::Ps2CRD3Tag)
        } else if c == 0x70733273 {
            Some(TagSignature::Ps2CSATag)
        } else if c == 0x70733269 {
            Some(TagSignature::Ps2RenderingIntentTag)
        } else if c == 0x7258595A {
            Some(TagSignature::RedColorantTag)
        } else if c == 0x72545243 {
            Some(TagSignature::RedTRCTag)
        } else if c == 0x72696732 {
            Some(TagSignature::SaturationRenderingIntentGamutTag)
        } else if c == 0x73637264 {
            Some(TagSignature::ScreeningDescTag)
        } else if c == 0x7363726E {
            Some(TagSignature::ScreeningTag)
        } else if c == 0x74656368 {
            Some(TagSignature::TechnologyTag)
        } else if c == 0x62666420 {
            Some(TagSignature::UcrBgTag)
        } else if c == 0x76756564 {
            Some(TagSignature::ViewingCondDescTag)
        } else if c == 0x76696577 {
            Some(TagSignature::ViewingConditionsTag)
        } else if c == 0x76636774 {
            Some(TagSignature::VcgtTag)
        } else if c == 0x6D657461 {
            Some(TagSignature::MetaTag)
        } else if c == 0x61727473 {
            Some(TagSignature::ArgyllArtsTag)
        } else if c == 0x63696370 {
            Some(TagSignature::CicpTag)
        } else if c == 0x4D484332 {
            Some(TagSignature::MHC2Tag)
        } else {
            None
        }
    }

    /// The kind of value stored under this signature.
    pub fn kind(&self) -> (r: TagKind)
        ensures
            r == self.spec_kind(),
    {
        match self {
            TagSignature::BlueColorantTag | TagSignature::GreenColorantTag | TagSignature::LuminanceTag | TagSignature::MediaBlackPointTag | TagSignature::MediaWhitePointTag | TagSignature::RedColorantTag => TagKind::CIEXYZ,
            TagSignature::CharTargetTag | TagSignature::CopyrightTag | TagSignature::DeviceMfgDescTag | TagSignature::DeviceModelDescTag | TagSignature::ProfileDescriptionTag | TagSignature::ProfileDescriptionMLTag | TagSignature::ScreeningDescTag | TagSignature::ViewingCondDescTag => TagKind::MLU,
            TagSignature::ChromaticityTag | TagSignature::ChromaticAdaptationTag => TagKind::CIExyYTRIPLE,
            TagSignature::ColorantTableTag | TagSignature::ColorantTableOutTag | TagSignature::CrdInfoTag | TagSignature::NamedColor2Tag => TagKind::NamedColorList,
            TagSignature::DataTag | TagSignature::Ps2CRD0Tag | TagSignature::Ps2CRD1Tag | TagSignature::Ps2CRD2Tag | TagSignature::Ps2CRD3Tag | TagSignature::Ps2CSATag | TagSignature::Ps2RenderingIntentTag => TagKind::ICCData,
            TagSignature::AToB0Tag | TagSignature::AToB1Tag | TagSignature::AToB2Tag | TagSignature::BToA0Tag | TagSignature::BToA1Tag | TagSignature::BToA2Tag | TagSignature::DToB0Tag | TagSignature::DToB1Tag | TagSignature::DToB2Tag | TagSignature::DToB3Tag | TagSignature::BToD0Tag | TagSignature::BToD1Tag | TagSignature::BToD2Tag | TagSignature::BToD3Tag | TagSignature::GamutTag | TagSignature::Preview0Tag | TagSignature::Preview1Tag | TagSignature::Preview2Tag => TagKind::Pipeline,
            TagSignature::BlueTRCTag | TagSignature::GrayTRCTag | TagSignature::GreenTRCTag | TagSignature::RedTRCTag => TagKind::ToneCurve,
            TagSignature::ColorimetricIntentImageStateTag => TagKind::ColorimetricIntentImageState,
            TagSignature::PerceptualRenderingIntentGamutTag | TagSignature::SaturationRenderingIntentGamutTag => TagKind::Intent,
            TagSignature::TechnologyTag => TagKind::Technology,
            TagSignature::MeasurementTag => TagKind::ICCMeasurementConditions,
            TagSignature::ProfileSequenceDescTag | TagSignature::ProfileSequenceIdTag => TagKind::SEQ,
            TagSignature::ScreeningTag => TagKind::Screening,
            TagSignature::UcrBgTag => TagKind::UcrBg,
            TagSignature::VcgtTag => TagKind::VcgtCurves,
            TagSignature::ViewingConditionsTag => TagKind::ICCViewingConditions,
            TagSignature::CicpTag => TagKind::VideoSignal,
            TagSignature::MHC2Tag => TagKind::MHC2,
            _ => TagKind::Absent,
        }
    }
}


/// What reading a tag yields: nothing where the engine holds no data under
/// `sig`, else the kind that the table gives for `sig` (`Absent` for a
/// signature the table does not know).
pub open spec fn read_kind(sig: TagSignature, present: bool) -> TagKind {
    if present {
        sig.spec_kind()
    } else {
        TagKind::Absent
    }
}

/// Whether a value of `kind` may be written under `sig`.
pub open spec fn writable(kind: TagKind, sig: TagSignature) -> bool {
    kind != TagKind::Absent && kind == sig.spec_kind()
}

impl TagKind {
    /// Whether this is the kind of an absent or unknown tag.
    pub fn is_none(&self) -> (r: bool)
        ensures
            r == (*self == TagKind::Absent),
    {
        match self {
            TagKind::Absent => true,
            _ => false,
        }
    }

    /// The kind a tag read under `sig` decodes to; `present` tells whether
    /// the engine returned data for it. Unknown signatures decode to `Absent`,
    /// never to an error.
    pub fn for_signature(sig: TagSignature, present: bool) -> (r: TagKind)
        ensures
            r == read_kind(sig, present),
    {
        if !present {
            TagKind::Absent
        } else {
            sig.kind()
        }
    }

    /// Whether a value of this kind may be written under `sig`. Writing any
    /// other kind is a programming error, and callers stop on `false`.
    pub fn fits(&self, sig: TagSignature) -> (r: bool)
        ensures
            r == writable(*self, sig),
    {
        match self {
            TagKind::Absent => false,
            _ => *self == sig.kind(),
        }
    }
}

/// Every signature has one kind for both directions: a value read under a
/// signature may be written back under it, and a value that may be written
/// under a signature reads back as the same kind.
pub proof fn lemma_tag_round_trip(sig: TagSignature, kind: TagKind)
    ensures
        read_kind(sig, true) != TagKind::Absent ==> writable(read_kind(sig, true), sig),
        writable(kind, sig) ==> read_kind(sig, true) == kind,
{
}

/// Reading the code of a signature back gives the same signature, and a
/// signature read from a code has that code.
pub proof fn lemma_code_round_trip(sig: TagSignature, c: u32)
    ensures
        signature_of_code(sig.spec_code()) == Some(sig),
        signature_of_code(c) matches Some(s) ==> s.spec_code() == c,
{
    match sig {
        TagSignature::AToB0Tag => {},
        TagSignature::AToB1Tag => {},
        TagSignature::AToB2Tag => {},
        TagSignature::BlueColorantTag => {},
        TagSignature::BlueTRCTag => {},
        TagSignature::BToA0Tag => {},
        TagSignature::BToA1Tag => {},
        TagSignature::BToA2Tag => {},
        TagSignature::CalibrationDateTimeTag => {},
        TagSignature::CharTargetTag => {},
        TagSignature::ChromaticAdaptationTag => {},
        TagSignature::ChromaticityTag => {},
        TagSignature::ColorantOrderTag => {},
        TagSignature::ColorantTableTag => {},
        TagSignature::ColorantTableOutTag => {},
        TagSignature::ColorimetricIntentImageStateTag => {},
        TagSignature::CopyrightTag => {},
        TagSignature::CrdInfoTag => {},
        TagSignature::DataTag => {},
        TagSignature::DateTimeTag => {},
        TagSignature::DeviceMfgDescTag => {},
        TagSignature::DeviceModelDescTag => {},
        TagSignature::DeviceSettingsTag => {},
        TagSignature::DToB0Tag => {},
        TagSignature::DToB1Tag => {},
        TagSignature::DToB2Tag => {},
        TagSignature::DToB3Tag => {},
        TagSignature::BToD0Tag => {},
        TagSignature::BToD1Tag => {},
        TagSignature::BToD2Tag => {},
        TagSignature::BToD3Tag => {},
        TagSignature::GamutTag => {},
        TagSignature::GrayTRCTag => {},
        TagSignature::GreenColorantTag => {},
        TagSignature::GreenTRCTag => {},
        TagSignature::LuminanceTag => {},
        TagSignature::MeasurementTag => {},
        TagSignature::MediaBlackPointTag => {},
        TagSignature::MediaWhitePointTag => {},
        TagSignature::NamedColorTag => {},
        TagSignature::NamedColor2Tag => {},
        TagSignature::OutputResponseTag => {},
        TagSignature::PerceptualRenderingIntentGamutTag => {},
        TagSignature::Preview0Tag => {},
        TagSignature::Preview1Tag => {},
        TagSignature::Preview2Tag => {},
        TagSignature::ProfileDescriptionTag => {},
        TagSignature::ProfileDescriptionMLTag => {},
        TagSignature::ProfileSequenceDescTag => {},
        TagSignature::ProfileSequenceIdTag => {},
        TagSignature::Ps2CRD0Tag => {},
        TagSignature::Ps2CRD1Tag => {},
        TagSignature::Ps2CRD2Tag => {},
        TagSignature::Ps2CRD3Tag => {},
        TagSignature::Ps2CSATag => {},
        TagSignature::Ps2RenderingIntentTag => {},
        TagSignature::RedColorantTag => {},
        TagSignature::RedTRCTag => {},
        TagSignature::SaturationRenderingIntentGamutTag => {},
        TagSignature::ScreeningDescTag => {},
        TagSignature::ScreeningTag => {},
        TagSignature::TechnologyTag => {},
        TagSignature::UcrBgTag => {},
        TagSignature::ViewingCondDescTag => {},
        TagSignature::ViewingConditionsTag => {},
        TagSignature::VcgtTag => {},
        TagSignature::MetaTag => {},
        TagSignature::ArgyllArtsTag => {},
        TagSignature::CicpTag => {},
        TagSignature::MHC2Tag => {},
    }
}

/// Whether tag data at address `addr` is aligned for a value whose
/// alignment is `align`. Tag data is only read through aligned addresses.
pub fn tag_data_aligned(addr: usize, align: usize) -> (r: bool)
    requires
        align > 0,
    ensures
        r == (addr % align == 0),
{
    addr % align == 0
}

} // verus!
