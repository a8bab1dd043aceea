use aihorde::{
    ControlType, GenerationState, InjectTi, InterrogationType, MetadataType, MetadataValue,
    ModelState, ModelType, PostProcessing, RequestErrorCode, RequestWarningCode, SamplerName,
    SourceProcessing, StyleType, Workflow,
};

#[test]
fn sampler_wire_strings_round_trip() {
    for s in [
        "k_dpm_adaptive", "k_euler_a", "k_dpmpp2_m", "DDIM", "k_dpm2", "k_euler",
        "k_dpmpp2_s_a", "k_lms", "k_dpmpp_sde", "k_dpm2_a", "k_dpm_fast", "k_heun",
    ] {
        let v = SamplerName::from_wire(s);
        assert_ne!(v, SamplerName::Unknown);
        assert_eq!(v.as_str(), s);
    }
    assert_eq!(SamplerName::from_wire("DDIM"), SamplerName::Ddim);
    assert_eq!(SamplerName::KEulerA.as_str(), "k_euler_a");
}

#[test]
fn unknown_wire_strings_decode_to_catch_all() {
    assert_eq!(SamplerName::from_wire("lcm"), SamplerName::Unknown);
    assert_eq!(SamplerName::from_wire("ddim"), SamplerName::Unknown);
    assert_eq!(SamplerName::from_wire(""), SamplerName::Unknown);
    assert_eq!(PostProcessing::from_wire("gfpgan"), PostProcessing::Unknown);
    assert_eq!(RequestErrorCode::from_wire("SomethingNew"), RequestErrorCode::Unknown);
    assert_eq!(RequestErrorCode::from_wire("missingprompt"), RequestErrorCode::Unknown);
    assert_eq!(ControlType::from_wire("Canny"), ControlType::Unknown);
    assert_eq!(Workflow::from_wire("qrcode"), Workflow::Unknown);
    assert_eq!(SourceProcessing::from_wire("paint"), SourceProcessing::Unknown);
    assert_eq!(RequestWarningCode::from_wire("no_available_worker"), RequestWarningCode::Unknown);
    assert_eq!(InjectTi::from_wire("both"), InjectTi::Unknown);
    assert_eq!(GenerationState::from_wire("faulted"), GenerationState::Unknown);
    assert_eq!(MetadataType::from_wire("x"), MetadataType::Unknown);
    assert_eq!(MetadataValue::from_wire("y"), MetadataValue::Unknown);
    assert_eq!(InterrogationType::from_wire("z"), InterrogationType::Unknown);
    assert_eq!(ModelType::from_wire("video"), ModelType::Unknown);
    assert_eq!(StyleType::from_wire("video"), StyleType::Unknown);
    assert_eq!(ModelState::from_wire("none"), ModelState::Unknown);
}

#[test]
fn explicitly_renamed_values() {
    assert_eq!(PostProcessing::from_wire("RealESRGAN_x4plus_anime_6B"), PostProcessing::RealEsrganX4plusAnime6B);
    assert_eq!(PostProcessing::FourXAnimeSharp.as_str(), "4x_AnimeSharp");
    assert_eq!(PostProcessing::Codeformers.as_str(), "CodeFormers");
    assert_eq!(PostProcessing::StripBackground.as_str(), "strip_background");
    assert_eq!(InterrogationType::from_wire("NMKD_Siax"), InterrogationType::NmkdSiax);
    assert_eq!(InterrogationType::StripBackground.as_str(), "strip_background");
    assert_eq!(GenerationState::from_wire("ok"), GenerationState::Clean);
    assert_eq!(GenerationState::Censored.as_str(), "censored");
    assert_eq!(Workflow::QrCode.as_str(), "qr_code");
    assert_eq!(MetadataType::ExtraSourceImages.as_str(), "extra_source_images");
    assert_eq!(MetadataValue::from_wire("see_ref"), MetadataValue::SeeRef);
}

#[test]
fn error_codes_are_pascal_case() {
    assert_eq!(RequestErrorCode::from_wire("MissingPrompt"), RequestErrorCode::MissingPrompt);
    assert_eq!(RequestErrorCode::from_wire("RequiresTrust"), RequestErrorCode::RequiresTrust);
    assert_eq!(RequestErrorCode::from_wire("InvalidAPIKey"), RequestErrorCode::InvalidAPIKey);
    assert_eq!(RequestErrorCode::TooManyTIs.as_str(), "TooManyTIs");
    assert_eq!(RequestErrorCode::Unknown.as_str(), "Unknown");
    assert_eq!(RequestWarningCode::from_wire("CfgScaleTooLarge"), RequestWarningCode::CfgScaleTooLarge);
}

#[test]
fn lowercase_values() {
    assert_eq!(ControlType::from_wire("fakescribbles"), ControlType::Fakescribbles);
    assert_eq!(ModelType::Text.as_str(), "text");
    assert_eq!(ModelState::from_wire("all"), ModelState::All);
    assert_eq!(StyleType::from_wire("image"), StyleType::Image);
    assert_eq!(InjectTi::Negprompt.as_str(), "negprompt");
    assert_eq!(ModelType::Unknown.as_str(), "unknown");
}

#[test]
fn defaults() {
    assert_eq!(SamplerName::default(), SamplerName::KEulerA);
    assert_eq!(Workflow::default(), Workflow::QrCode);
    assert_eq!(SourceProcessing::default(), SourceProcessing::Img2img);
    assert_eq!(PostProcessing::default(), PostProcessing::Codeformers);
    assert_eq!(InjectTi::default(), InjectTi::Prompt);
    assert_eq!(ControlType::default(), ControlType::Normal);
    assert_eq!(InterrogationType::default(), InterrogationType::Caption);
    assert_eq!(ModelType::default(), ModelType::Image);
    assert_eq!(MetadataType::default(), MetadataType::Lora);
    assert_eq!(MetadataValue::default(), MetadataValue::DownloadFailed);
    assert_eq!(StyleType::default(), StyleType::Image);
    assert_eq!(ModelState::default(), ModelState::Known);
    assert_eq!(RequestErrorCode::default(), RequestErrorCode::Unknown);
    assert_eq!(GenerationState::default(), GenerationState::Clean);
}
