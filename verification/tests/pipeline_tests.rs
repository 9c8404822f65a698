use color_pipeline::ColorDepth;
use color_pipeline::ColorFormat;
use color_pipeline::ColorSpace;
use color_pipeline::DynamicRange;
use color_pipeline::ImageFormat;
use color_pipeline::NormFormat;
use color_pipeline::SignalStatus;
use color_pipeline::pipeline::Stage;
use color_pipeline::pipeline::convert_plan;

fn all_formats() -> Vec<ImageFormat> {
    let mut formats = Vec::new();
    for &dynamic_range in &[DynamicRange::HDR, DynamicRange::SDR] {
        for &norm in &[NormFormat::Norm, NormFormat::NonNorm] {
            for &signal_status in &[
                SignalStatus::Linear,
                SignalStatus::Gamma709,
                SignalStatus::GammaPQ,
                SignalStatus::GammaHLG,
            ] {
                for &color_depth in &[ColorDepth::EightBit, ColorDepth::SixteenBit] {
                    for &color_space in &[ColorSpace::Rec2020, ColorSpace::Rec709] {
                        formats.push(ImageFormat {
                            dynamic_range,
                            norm,
                            signal_status,
                            color_depth,
                            color_space,
                            color_format: ColorFormat::RGB,
                        });
                    }
                }
            }
        }
    }
    formats
}

#[test]
fn plan_hdr_linear_16_to_sdr_gamma709_8() {
    let src = ImageFormat {
        dynamic_range: DynamicRange::HDR,
        norm: NormFormat::NonNorm,
        signal_status: SignalStatus::Linear,
        color_depth: ColorDepth::SixteenBit,
        color_space: ColorSpace::Rec2020,
        color_format: ColorFormat::RGB,
    };
    let tgt = ImageFormat {
        dynamic_range: DynamicRange::SDR,
        norm: NormFormat::NonNorm,
        signal_status: SignalStatus::Gamma709,
        color_depth: ColorDepth::EightBit,
        color_space: ColorSpace::Rec709,
        color_format: ColorFormat::RGB,
    };
    let plan = convert_plan(&src, &tgt).unwrap();
    assert_eq!(
        plan,
        vec![
            Stage::Normalize(ColorDepth::SixteenBit),
            Stage::ConvertSpace(ColorSpace::Rec2020, ColorSpace::Rec709),
            Stage::MapRange(DynamicRange::HDR, DynamicRange::SDR),
            Stage::Reencode(SignalStatus::Gamma709),
            Stage::Denormalize(ColorDepth::EightBit),
        ]
    );
}

#[test]
fn plan_sdr_back_to_hdr_inverts_every_stage() {
    let sdr = ImageFormat {
        dynamic_range: DynamicRange::SDR,
        norm: NormFormat::NonNorm,
        signal_status: SignalStatus::Gamma709,
        color_depth: ColorDepth::EightBit,
        color_space: ColorSpace::Rec709,
        color_format: ColorFormat::RGB,
    };
    let hdr = ImageFormat {
        dynamic_range: DynamicRange::HDR,
        norm: NormFormat::NonNorm,
        signal_status: SignalStatus::Linear,
        color_depth: ColorDepth::SixteenBit,
        color_space: ColorSpace::Rec2020,
        color_format: ColorFormat::RGB,
    };
    let plan = convert_plan(&sdr, &hdr).unwrap();
    assert_eq!(
        plan,
        vec![
            Stage::Normalize(ColorDepth::EightBit),
            Stage::Linearize(SignalStatus::Gamma709),
            Stage::ConvertSpace(ColorSpace::Rec709, ColorSpace::Rec2020),
            Stage::MapRange(DynamicRange::SDR, DynamicRange::HDR),
            Stage::Denormalize(ColorDepth::SixteenBit),
        ]
    );
}

#[test]
fn plan_identity_on_linear_normalized_format_is_empty() {
    let f = ImageFormat {
        dynamic_range: DynamicRange::SDR,
        norm: NormFormat::Norm,
        signal_status: SignalStatus::Linear,
        color_depth: ColorDepth::EightBit,
        color_space: ColorSpace::Rec709,
        color_format: ColorFormat::RGB,
    };
    let plan = convert_plan(&f, &f).unwrap();
    assert!(plan.is_empty());
}

#[test]
fn plan_identity_on_encoded_format_is_a_palindrome_of_inverses() {
    let f = ImageFormat {
        dynamic_range: DynamicRange::HDR,
        norm: NormFormat::NonNorm,
        signal_status: SignalStatus::GammaPQ,
        color_depth: ColorDepth::SixteenBit,
        color_space: ColorSpace::Rec2020,
        color_format: ColorFormat::RGB,
    };
    let plan = convert_plan(&f, &f).unwrap();
    assert_eq!(
        plan,
        vec![
            Stage::Normalize(ColorDepth::SixteenBit),
            Stage::Linearize(SignalStatus::GammaPQ),
            Stage::Reencode(SignalStatus::GammaPQ),
            Stage::Denormalize(ColorDepth::SixteenBit),
        ]
    );
}

#[test]
fn every_transition_between_defined_formats_is_supported() {
    let formats = all_formats();
    for src in &formats {
        for tgt in &formats {
            assert!(convert_plan(src, tgt).is_ok());
        }
    }
}

#[test]
fn plan_back_is_the_reversed_inverse_of_plan_there() {
    let sdr = ImageFormat {
        dynamic_range: DynamicRange::SDR,
        norm: NormFormat::Norm,
        signal_status: SignalStatus::Linear,
        color_depth: ColorDepth::EightBit,
        color_space: ColorSpace::Rec709,
        color_format: ColorFormat::RGB,
    };
    let hdr = ImageFormat {
        dynamic_range: DynamicRange::HDR,
        ..sdr
    };
    let there = convert_plan(&sdr, &hdr).unwrap();
    let back = convert_plan(&hdr, &sdr).unwrap();
    assert_eq!(there, vec![Stage::MapRange(DynamicRange::SDR, DynamicRange::HDR)]);
    assert_eq!(back, vec![Stage::MapRange(DynamicRange::HDR, DynamicRange::SDR)]);
}

#[test]
fn plan_skips_axes_that_agree() {
    let src = ImageFormat {
        dynamic_range: DynamicRange::HDR,
        norm: NormFormat::Norm,
        signal_status: SignalStatus::Linear,
        color_depth: ColorDepth::SixteenBit,
        color_space: ColorSpace::Rec2020,
        color_format: ColorFormat::RGB,
    };
    let tgt = ImageFormat {
        dynamic_range: DynamicRange::SDR,
        norm: NormFormat::Norm,
        signal_status: SignalStatus::Linear,
        color_depth: ColorDepth::SixteenBit,
        color_space: ColorSpace::Rec2020,
        color_format: ColorFormat::RGB,
    };
    let plan = convert_plan(&src, &tgt).unwrap();
    assert_eq!(plan, vec![Stage::MapRange(DynamicRange::HDR, DynamicRange::SDR)]);
}
