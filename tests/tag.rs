use lcms2::{TagKind, TagSignature};

fn all_signatures() -> Vec<TagSignature> {
    vec![
        TagSignature::AToB0Tag,
        TagSignature::AToB1Tag,
        TagSignature::AToB2Tag,
        TagSignature::BlueColorantTag,
        TagSignature::BlueTRCTag,
        TagSignature::BToA0Tag,
        TagSignature::BToA1Tag,
        TagSignature::BToA2Tag,
        TagSignature::CalibrationDateTimeTag,
        TagSignature::CharTargetTag,
        TagSignature::ChromaticAdaptationTag,
        TagSignature::ChromaticityTag,
        TagSignature::ColorantOrderTag,
        TagSignature::ColorantTableTag,
        TagSignature::ColorantTableOutTag,
        TagSignature::ColorimetricIntentImageStateTag,
        TagSignature::CopyrightTag,
        TagSignature::CrdInfoTag,
        TagSignature::DataTag,
        TagSignature::DateTimeTag,
        TagSignature::DeviceMfgDescTag,
        TagSignature::DeviceModelDescTag,
        TagSignature::DeviceSettingsTag,
        TagSignature::DToB0Tag,
        TagSignature::DToB1Tag,
        TagSignature::DToB2Tag,
        TagSignature::DToB3Tag,
        TagSignature::BToD0Tag,
        TagSignature::BToD1Tag,
        TagSignature::BToD2Tag,
        TagSignature::BToD3Tag,
        TagSignature::GamutTag,
        TagSignature::GrayTRCTag,
        TagSignature::GreenColorantTag,
        TagSignature::GreenTRCTag,
        TagSignature::LuminanceTag,
        TagSignature::MeasurementTag,
        TagSignature::MediaBlackPointTag,
        TagSignature::MediaWhitePointTag,
        TagSignature::NamedColorTag,
        TagSignature::NamedColor2Tag,
        TagSignature::OutputResponseTag,
        TagSignature::PerceptualRenderingIntentGamutTag,
        TagSignature::Preview0Tag,
        TagSignature::Preview1Tag,
        TagSignature::Preview2Tag,
        TagSignature::ProfileDescriptionTag,
        TagSignature::ProfileDescriptionMLTag,
        TagSignature::ProfileSequenceDescTag,
        TagSignature::ProfileSequenceIdTag,
        TagSignature::Ps2CRD0Tag,
        TagSignature::Ps2CRD1Tag,
        TagSignature::Ps2CRD2Tag,
        TagSignature::Ps2CRD3Tag,
        TagSignature::Ps2CSATag,
        TagSignature::Ps2RenderingIntentTag,
        TagSignature::RedColorantTag,
        TagSignature::RedTRCTag,
        TagSignature::SaturationRenderingIntentGamutTag,
        TagSignature::ScreeningDescTag,
        TagSignature::ScreeningTag,
        TagSignature::TechnologyTag,
        TagSignature::UcrBgTag,
        TagSignature::ViewingCondDescTag,
        TagSignature::ViewingConditionsTag,
        TagSignature::VcgtTag,
        TagSignature::MetaTag,
        TagSignature::ArgyllArtsTag,
        TagSignature::CicpTag,
        TagSignature::MHC2Tag,
    ]
}

#[test]
fn tag_codes_round_trip() {
    for sig in all_signatures() {
        assert_eq!(Some(sig), TagSignature::from_code(sig.code()), "{sig:?}");
    }
    assert_eq!(None, TagSignature::from_code(0));
    assert_eq!(None, TagSignature::from_code(0x7a7a7a7a));
}

#[test]
fn tag_codes_are_their_four_characters() {
    assert_eq!(u32::from_be_bytes(*b"A2B0"), TagSignature::AToB0Tag.code());
    assert_eq!(u32::from_be_bytes(*b"vcgt"), TagSignature::VcgtTag.code());
    assert_eq!(u32::from_be_bytes(*b"cprt"), TagSignature::CopyrightTag.code());
    assert_eq!(Some(TagSignature::MHC2Tag), TagSignature::from_code(u32::from_be_bytes(*b"MHC2")));
}

#[test]
fn tag_kind_read_back_is_writable() {
    for sig in all_signatures() {
        let read = TagKind::for_signature(sig, true);
        if !read.is_none() {
            assert!(read.fits(sig), "{sig:?}");
            assert_eq!(read, TagKind::for_signature(sig, true));
        }
        assert!(!TagKind::Absent.fits(sig));
        assert!(TagKind::for_signature(sig, false).is_none());
    }
}

#[test]
fn tag_kind_table_examples() {
    assert_eq!(TagKind::VcgtCurves, TagSignature::VcgtTag.kind());
    assert_eq!(TagKind::MLU, TagSignature::ProfileDescriptionTag.kind());
    assert_eq!(TagKind::CIEXYZ, TagSignature::RedColorantTag.kind());
    assert_eq!(TagKind::Pipeline, TagSignature::BToD0Tag.kind());
    assert_eq!(TagKind::ICCData, TagSignature::Ps2RenderingIntentTag.kind());
    assert_eq!(TagKind::Absent, TagSignature::MetaTag.kind());
    assert_eq!(TagKind::Absent, TagSignature::CalibrationDateTimeTag.kind());
}

#[test]
fn tag_kind_mismatch_is_refused() {
    assert!(!TagKind::CIEXYZ.fits(TagSignature::CopyrightTag));
    assert!(!TagKind::MLU.fits(TagSignature::VcgtTag));
    assert!(TagKind::MLU.fits(TagSignature::CopyrightTag));
    assert!(!TagKind::ToneCurve.fits(TagSignature::MetaTag));
}

#[test]
fn tag_data_alignment() {
    assert!(lcms2::tag_data_aligned(64, 8));
    assert!(!lcms2::tag_data_aligned(65, 8));
    assert!(lcms2::tag_data_aligned(65, 1));
}
