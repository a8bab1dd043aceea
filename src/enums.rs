//! The service's enumerated vocabularies. Each one is a closed set of named
//! values plus one catch-all, `Unknown`, that any unrecognised wire string
//! decodes to, so that decoding never fails when the service adds a value.
use vstd::prelude::*;
use crate::text::same_text;

verus! {

/// A sampling method of the diffusion process.
#[derive(Debug, Clone, Copy, PartialEq, Eq, Structural)]
pub enum SamplerName {
    KDpmAdaptive,
    KEulerA,
    KDpmpp2M,
    Ddim,
    KDpm2,
    KEuler,
    KDpmpp2SA,
    KLms,
    KDpmppSde,
    KDpm2A,
    KDpmFast,
    KHeun,
    /// Any wire string that names none of the values above.
    Unknown,
}

impl SamplerName {
    /// The wire string of this value.
    pub open spec fn spec_wire(self) -> Seq<char> {
        match self {
            SamplerName::KDpmAdaptive => "k_dpm_adaptive"@,
            SamplerName::KEulerA => "k_euler_a"@,
            SamplerName::KDpmpp2M => "k_dpmpp2_m"@,
            SamplerName::Ddim => "DDIM"@,
            SamplerName::KDpm2 => "k_dpm2"@,
            SamplerName::KEuler => "k_euler"@,
            SamplerName::KDpmpp2SA => "k_dpmpp2_s_a"@,
            SamplerName::KLms => "k_lms"@,
            SamplerName::KDpmppSde => "k_dpmpp_sde"@,
            SamplerName::KDpm2A => "k_dpm2_a"@,
            SamplerName::KDpmFast => "k_dpm_fast"@,
            SamplerName::KHeun => "k_heun"@,
            SamplerName::Unknown => "unknown"@,
        }
    }

    /// The value that a wire string decodes to: the first named value whose
    /// wire string it is, and the catch-all when there is none.
    pub open spec fn spec_from_wire(s: Seq<char>) -> SamplerName {
        if s == "k_dpm_adaptive"@ {
            SamplerName::KDpmAdaptive
        } else if s == "k_euler_a"@ {
            SamplerName::KEulerA
        } else if s == "k_dpmpp2_m"@ {
            SamplerName::KDpmpp2M
        } else if s == "DDIM"@ {
            SamplerName::Ddim
        } else if s == "k_dpm2"@ {
            SamplerName::KDpm2
        } else if s == "k_euler"@ {
            SamplerName::KEuler
        } else if s == "k_dpmpp2_s_a"@ {
            SamplerName::KDpmpp2SA
        } else if s == "k_lms"@ {
            SamplerName::KLms
        } else if s == "k_dpmpp_sde"@ {
            SamplerName::KDpmppSde
        } else if s == "k_dpm2_a"@ {
            SamplerName::KDpm2A
        } else if s == "k_dpm_fast"@ {
            SamplerName::KDpmFast
        } else if s == "k_heun"@ {
            SamplerName::KHeun
        } else {
            SamplerName::Unknown
        }
    }

    /// `s` is the wire string of a named value (not the catch-all).
    pub open spec fn is_known_wire(s: Seq<char>) -> bool {
        exists|e: SamplerName| e != SamplerName::Unknown && #[trigger] e.spec_wire() == s
    }

    /// Encodes this value as its wire string.
    pub fn as_str(&self) -> (r: &'static str)
        ensures
            r@ == self.spec_wire(),
    {
        match self {
            SamplerName::KDpmAdaptive => "k_dpm_adaptive",
            SamplerName::KEulerA => "k_euler_a",
            SamplerName::KDpmpp2M => "k_dpmpp2_m",
            SamplerName::Ddim => "DDIM",
            SamplerName::KDpm2 => "k_dpm2",
            SamplerName::KEuler => "k_euler",
            SamplerName::KDpmpp2SA => "k_dpmpp2_s_a",
            SamplerName::KLms => "k_lms",
            SamplerName::KDpmppSde => "k_dpmpp_sde",
            SamplerName::KDpm2A => "k_dpm2_a",
            SamplerName::KDpmFast => "k_dpm_fast",
            SamplerName::KHeun => "k_heun",
            SamplerName::Unknown => "unknown",
        }
    }

    /// Decodes a wire string; a string that names no value gives `Unknown`.
    pub fn from_wire(s: &str) -> (r: SamplerName)
        ensures
            r == SamplerName::spec_from_wire(s@),
    {
        if same_text(s, "k_dpm_adaptive") {
            return SamplerName::KDpmAdaptive;
        }
        if same_text(s, "k_euler_a") {
            return SamplerName::KEulerA;
        }
        if same_text(s, "k_dpmpp2_m") {
            return SamplerName::KDpmpp2M;
        }
        if same_text(s, "DDIM") {
            return SamplerName::Ddim;
        }
        if same_text(s, "k_dpm2") {
            return SamplerName::KDpm2;
        }
        if same_text(s, "k_euler") {
            return SamplerName::KEuler;
        }
        if same_text(s, "k_dpmpp2_s_a") {
            return SamplerName::KDpmpp2SA;
        }
        if same_text(s, "k_lms") {
            return SamplerName::KLms;
        }
        if same_text(s, "k_dpmpp_sde") {
            return SamplerName::KDpmppSde;
        }
        if same_text(s, "k_dpm2_a") {
            return SamplerName::KDpm2A;
        }
        if same_text(s, "k_dpm_fast") {
            return SamplerName::KDpmFast;
        }
        if same_text(s, "k_heun") {
            return SamplerName::KHeun;
        }
        SamplerName::Unknown
    }
}

impl Default for SamplerName {
    fn default() -> (r: SamplerName)
        ensures
            r == SamplerName::KEulerA,
    {
        SamplerName::KEulerA
    }
}

/// Decoding never fails: a wire string of a named value decodes to a value
/// that encodes back to that very string, and any other string decodes to the
/// catch-all.
pub proof fn lemma_sampler_name_wire(s: Seq<char>)
    ensures
        SamplerName::is_known_wire(s) ==> SamplerName::spec_from_wire(s).spec_wire() == s,
        !SamplerName::is_known_wire(s) ==> SamplerName::spec_from_wire(s) == SamplerName::Unknown,
{
    let e = SamplerName::spec_from_wire(s);
    if e != SamplerName::Unknown {
        assert(e.spec_wire() == s);
    }
}

/// A post-processor applied to a generated image.
#[derive(Debug, Clone, Copy, PartialEq, Eq, Structural)]
pub enum PostProcessing {
    Gfpgan,
    RealEsrganX4plus,
    RealEsrganX2plus,
    RealEsrganX4plusAnime6B,
    NmkdSiax,
    FourXAnimeSharp,
    Codeformers,
    StripBackground,
    /// Any wire string that names none of the values above.
    Unknown,
}

impl PostProcessing {
    /// The wire string of this value.
    pub open spec fn spec_wire(self) -> Seq<char> {
        match self {
            PostProcessing::Gfpgan => "GFPGAN"@,
            PostProcessing::RealEsrganX4plus => "RealESRGAN_x4plus"@,
            PostProcessing::RealEsrganX2plus => "RealESRGAN_x2plus"@,
            PostProcessing::RealEsrganX4plusAnime6B => "RealESRGAN_x4plus_anime_6B"@,
            PostProcessing::NmkdSiax => "NMKD_Siax"@,
            PostProcessing::FourXAnimeSharp => "4x_AnimeSharp"@,
            PostProcessing::Codeformers => "CodeFormers"@,
            PostProcessing::StripBackground => "strip_background"@,
            PostProcessing::Unknown => "unknown"@,
        }
    }

    /// The value that a wire string decodes to: the first named value whose
    /// wire string it is, and the catch-all when there is none.
    pub open spec fn spec_from_wire(s: Seq<char>) -> PostProcessing {
        if s == "GFPGAN"@ {
            PostProcessing::Gfpgan
        } else if s == "RealESRGAN_x4plus"@ {
            PostProcessing::RealEsrganX4plus
        } else if s == "RealESRGAN_x2plus"@ {
            PostProcessing::RealEsrganX2plus
        } else if s == "RealESRGAN_x4plus_anime_6B"@ {
            PostProcessing::RealEsrganX4plusAnime6B
        } else if s == "NMKD_Siax"@ {
            PostProcessing::NmkdSiax
        } else if s == "4x_AnimeSharp"@ {
            PostProcessing::FourXAnimeSharp
        } else if s == "CodeFormers"@ {
            PostProcessing::Codeformers
        } else if s == "strip_background"@ {
            PostProcessing::StripBackground
        } else {
            PostProcessing::Unknown
        }
    }

    /// `s` is the wire string of a named value (not the catch-all).
    pub open spec fn is_known_wire(s: Seq<char>) -> bool {
        exists|e: PostProcessing| e != PostProcessing::Unknown && #[trigger] e.spec_wire() == s
    }

    /// Encodes this value as its wire string.
    pub fn as_str(&self) -> (r: &'static str)
        ensures
            r@ == self.spec_wire(),
    {
        match self {
            PostProcessing::Gfpgan => "GFPGAN",
            PostProcessing::RealEsrganX4plus => "RealESRGAN_x4plus",
            PostProcessing::RealEsrganX2plus => "RealESRGAN_x2plus",
            PostProcessing::RealEsrganX4plusAnime6B => "RealESRGAN_x4plus_anime_6B",
            PostProcessing::NmkdSiax => "NMKD_Siax",
            PostProcessing::FourXAnimeSharp => "4x_AnimeSharp",
            PostProcessing::Codeformers => "CodeFormers",
            PostProcessing::StripBackground => "strip_background",
            PostProcessing::Unknown => "unknown",
        }
    }

    /// Decodes a wire string; a string that names no value gives `Unknown`.
    pub fn from_wire(s: &str) -> (r: PostProcessing)
        ensures
            r == PostProcessing::spec_from_wire(s@),
    {
        if same_text(s, "GFPGAN") {
            return PostProcessing::Gfpgan;
        }
        if same_text(s, "RealESRGAN_x4plus") {
            return PostProcessing::RealEsrganX4plus;
        }
        if same_text(s, "RealESRGAN_x2plus") {
            return PostProcessing::RealEsrganX2plus;
        }
        if same_text(s, "RealESRGAN_x4plus_anime_6B") {
            return PostProcessing::RealEsrganX4plusAnime6B;
        }
        if same_text(s, "NMKD_Siax") {
            return PostProcessing::NmkdSiax;
        }
        if same_text(s, "4x_AnimeSharp") {
            return PostProcessing::FourXAnimeSharp;
        }
        if same_text(s, "CodeFormers") {
            return PostProcessing::Codeformers;
        }
        if same_text(s, "strip_background") {
            return PostProcessing::StripBackground;
        }
        PostProcessing::Unknown
    }
}

impl Default for PostProcessing {
    fn default() -> (r: PostProcessing)
        ensures
            r == PostProcessing::Codeformers,
    {
        PostProcessing::Codeformers
    }
}

/// Decoding never fails: a wire string of a named value decodes to a value
/// that encodes back to that very string, and any other string decodes to the
/// catch-all.
pub proof fn lemma_post_processing_wire(s: Seq<char>)
    ensures
        PostProcessing::is_known_wire(s) ==> PostProcessing::spec_from_wire(s).spec_wire() == s,
        !PostProcessing::is_known_wire(s) ==> PostProcessing::spec_from_wire(s) == PostProcessing::Unknown,
{
    let e = PostProcessing::spec_from_wire(s);
    if e != PostProcessing::Unknown {
        assert(e.spec_wire() == s);
    }
}

/// The reason code of an error that the service reports.
#[derive(Debug, Clone, Copy, PartialEq, Eq, Structural)]
pub enum RequestErrorCode {
    MissingPrompt,
    CorruptPrompt,
    KudosValidationError,
    NoValidActions,
    InvalidSize,
    InvalidPromptSize,
    TooManySteps,
    Profanity,
    ProfaneWorkerName,
    ProfaneBridgeAgent,
    ProfaneWorkerInfo,
    ProfaneUserName,
    ProfaneUserContact,
    ProfaneAdminComment,
    ProfaneTeamName,
    ProfaneTeamInfo,
    TooLong,
    TooLongWorkerName,
    TooLongUserName,
    NameAlreadyExists,
    WorkerNameAlreadyExists,
    TeamNameAlreadyExists,
    PolymorphicNameConflict,
    ImageValidationFailed,
    SourceImageResolutionExceeded,
    SourceImageSizeExceeded,
    SourceImageUrlInvalid,
    SourceImageUnreadable,
    InpaintingMissingMask,
    SourceMaskUnnecessary,
    UnsupportedSampler,
    UnsupportedModel,
    ControlNetUnsupported,
    ControlNetSourceMissing,
    ControlNetInvalidPayload,
    SourceImageRequiredForModel,
    UnexpectedModelName,
    TooManyUpscalers,
    ProcGenNotFound,
    InvalidAestheticAttempt,
    AestheticsNotCompleted,
    AestheticsNotPublic,
    AestheticsDuplicate,
    AestheticsMissing,
    AestheticsSolo,
    AestheticsConfused,
    AestheticsAlreadyExist,
    AestheticsServerRejected,
    AestheticsServerError,
    AestheticsServerDown,
    AestheticsServerTimeout,
    InvalidAPIKey,
    WrongCredentials,
    NotAdmin,
    NotModerator,
    NotOwner,
    NotPrivileged,
    AnonForbidden,
    AnonForbiddenWorker,
    AnonForbiddenUserMod,
    NotTrusted,
    UntrustedTeamCreation,
    UntrustedUnsafeIP,
    WorkerMaintenance,
    WorkerFlaggedMaintenance,
    TooManySameIPs,
    WorkerInviteOnly,
    UnsafeIP,
    TimeoutIP,
    TooManyNewIPs,
    KudosUpfront,
    SharedKeyEmpty,
    InvalidJobID,
    RequestNotFound,
    WorkerNotFound,
    TeamNotFound,
    FilterNotFound,
    UserNotFound,
    DuplicateGen,
    AbortedGen,
    RequestExpired,
    TooManyPrompts,
    NoValidWorkers,
    MaintenanceMode,
    TargetAccountFlagged,
    SourceAccountFlagged,
    FaultWhenKudosReceiving,
    FaultWhenKudosSending,
    TooFastKudosTransfers,
    KudosTransferToAnon,
    KudosTransferToSelf,
    KudosTransferNotEnough,
    NegativeKudosTransfer,
    KudosTransferFromAnon,
    InvalidAwardUsername,
    KudosAwardToAnon,
    NotAllowedAwards,
    NoWorkerModSelected,
    NoUserModSelected,
    NoHordeModSelected,
    NoTeamModSelected,
    NoFilterModSelected,
    NoSharedKeyModSelected,
    BadRequest,
    Forbidden,
    Locked,
    ControlNetInpaintingMismatch,
    HiResFixMismatch,
    TooManyLoras,
    BadLoraVersion,
    TooManyTIs,
    BetaAnonForbidden,
    BetaComparisonFault,
    BadCFGDecimals,
    BadCFGNumber,
    BannedClientAgent,
    SpecialMissingPayload,
    SpecialForbidden,
    SpecialMissingUsername,
    SpecialModelNeedsSpecialUser,
    SpecialFieldNeedsSpecialUser,
    Img2ImgMismatch,
    TilingMismatch,
    ControlNetMismatch,
    HiResMismatch,
    EducationCannotSendKudos,
    InvalidPriorityUsername,
    SharedKeyExpired,
    SharedKeyInsufficientKudos,
    OnlyServiceAccountProxy,
    RequiresTrust,
    /// Any wire string that names none of the values above.
    Unknown,
}

impl RequestErrorCode {
    /// The wire string of this value.
    pub open spec fn spec_wire(self) -> Seq<char> {
        match self {
            RequestErrorCode::MissingPrompt => "MissingPrompt"@,
            RequestErrorCode::CorruptPrompt => "CorruptPrompt"@,
            RequestErrorCode::KudosValidationError => "KudosValidationError"@,
            RequestErrorCode::NoValidActions => "NoValidActions"@,
            RequestErrorCode::InvalidSize => "InvalidSize"@,
            RequestErrorCode::InvalidPromptSize => "InvalidPromptSize"@,
            RequestErrorCode::TooManySteps => "TooManySteps"@,
            RequestErrorCode::Profanity => "Profanity"@,
            RequestErrorCode::ProfaneWorkerName => "ProfaneWorkerName"@,
            RequestErrorCode::ProfaneBridgeAgent => "ProfaneBridgeAgent"@,
            RequestErrorCode::ProfaneWorkerInfo => "ProfaneWorkerInfo"@,
            RequestErrorCode::ProfaneUserName => "ProfaneUserName"@,
            RequestErrorCode::ProfaneUserContact => "ProfaneUserContact"@,
            RequestErrorCode::ProfaneAdminComment => "ProfaneAdminComment"@,
            RequestErrorCode::ProfaneTeamName => "ProfaneTeamName"@,
            RequestErrorCode::ProfaneTeamInfo => "ProfaneTeamInfo"@,
            RequestErrorCode::TooLong => "TooLong"@,
            RequestErrorCode::TooLongWorkerName => "TooLongWorkerName"@,
            RequestErrorCode::TooLongUserName => "TooLongUserName"@,
            RequestErrorCode::NameAlreadyExists => "NameAlreadyExists"@,
            RequestErrorCode::WorkerNameAlreadyExists => "WorkerNameAlreadyExists"@,
            RequestErrorCode::TeamNameAlreadyExists => "TeamNameAlreadyExists"@,
            RequestErrorCode::PolymorphicNameConflict => "PolymorphicNameConflict"@,
            RequestErrorCode::ImageValidationFailed => "ImageValidationFailed"@,
            RequestErrorCode::SourceImageResolutionExceeded => "SourceImageResolutionExceeded"@,
            RequestErrorCode::SourceImageSizeExceeded => "SourceImageSizeExceeded"@,
            RequestErrorCode::SourceImageUrlInvalid => "SourceImageUrlInvalid"@,
            RequestErrorCode::SourceImageUnreadable => "SourceImageUnreadable"@,
            RequestErrorCode::InpaintingMissingMask => "InpaintingMissingMask"@,
            RequestErrorCode::SourceMaskUnnecessary => "SourceMaskUnnecessary"@,
            RequestErrorCode::UnsupportedSampler => "UnsupportedSampler"@,
            RequestErrorCode::UnsupportedModel => "UnsupportedModel"@,
            RequestErrorCode::ControlNetUnsupported => "ControlNetUnsupported"@,
            RequestErrorCode::ControlNetSourceMissing => "ControlNetSourceMissing"@,
            RequestErrorCode::ControlNetInvalidPayload => "ControlNetInvalidPayload"@,
            RequestErrorCode::SourceImageRequiredForModel => "SourceImageRequiredForModel"@,
            RequestErrorCode::UnexpectedModelName => "UnexpectedModelName"@,
            RequestErrorCode::TooManyUpscalers => "TooManyUpscalers"@,
            RequestErrorCode::ProcGenNotFound => "ProcGenNotFound"@,
            RequestErrorCode::InvalidAestheticAttempt => "InvalidAestheticAttempt"@,
            RequestErrorCode::AestheticsNotCompleted => "AestheticsNotCompleted"@,
            RequestErrorCode::AestheticsNotPublic => "AestheticsNotPublic"@,
            RequestErrorCode::AestheticsDuplicate => "AestheticsDuplicate"@,
            RequestErrorCode::AestheticsMissing => "AestheticsMissing"@,
            RequestErrorCode::AestheticsSolo => "AestheticsSolo"@,
            RequestErrorCode::AestheticsConfused => "AestheticsConfused"@,
            RequestErrorCode::AestheticsAlreadyExist => "AestheticsAlreadyExist"@,
            RequestErrorCode::AestheticsServerRejected => "AestheticsServerRejected"@,
            RequestErrorCode::AestheticsServerError => "AestheticsServerError"@,
            RequestErrorCode::AestheticsServerDown => "AestheticsServerDown"@,
            RequestErrorCode::AestheticsServerTimeout => "AestheticsServerTimeout"@,
            RequestErrorCode::InvalidAPIKey => "InvalidAPIKey"@,
            RequestErrorCode::WrongCredentials => "WrongCredentials"@,
            RequestErrorCode::NotAdmin => "NotAdmin"@,
            RequestErrorCode::NotModerator => "NotModerator"@,
            RequestErrorCode::NotOwner => "NotOwner"@,
            RequestErrorCode::NotPrivileged => "NotPrivileged"@,
            RequestErrorCode::AnonForbidden => "AnonForbidden"@,
            RequestErrorCode::AnonForbiddenWorker => "AnonForbiddenWorker"@,
            RequestErrorCode::AnonForbiddenUserMod => "AnonForbiddenUserMod"@,
            RequestErrorCode::NotTrusted => "NotTrusted"@,
            RequestErrorCode::UntrustedTeamCreation => "UntrustedTeamCreation"@,
            RequestErrorCode::UntrustedUnsafeIP => "UntrustedUnsafeIP"@,
            RequestErrorCode::WorkerMaintenance => "WorkerMaintenance"@,
            RequestErrorCode::WorkerFlaggedMaintenance => "WorkerFlaggedMaintenance"@,
            RequestErrorCode::TooManySameIPs => "TooManySameIPs"@,
            RequestErrorCode::WorkerInviteOnly => "WorkerInviteOnly"@,
            RequestErrorCode::UnsafeIP => "UnsafeIP"@,
            RequestErrorCode::TimeoutIP => "TimeoutIP"@,
            RequestErrorCode::TooManyNewIPs => "TooManyNewIPs"@,
            RequestErrorCode::KudosUpfront => "KudosUpfront"@,
            RequestErrorCode::SharedKeyEmpty => "SharedKeyEmpty"@,
            RequestErrorCode::InvalidJobID => "InvalidJobID"@,
            RequestErrorCode::RequestNotFound => "RequestNotFound"@,
            RequestErrorCode::WorkerNotFound => "WorkerNotFound"@,
            RequestErrorCode::TeamNotFound => "TeamNotFound"@,
            RequestErrorCode::FilterNotFound => "FilterNotFound"@,
            RequestErrorCode::UserNotFound => "UserNotFound"@,
            RequestErrorCode::DuplicateGen => "DuplicateGen"@,
            RequestErrorCode::AbortedGen => "AbortedGen"@,
            RequestErrorCode::RequestExpired => "RequestExpired"@,
            RequestErrorCode::TooManyPrompts => "TooManyPrompts"@,
            RequestErrorCode::NoValidWorkers => "NoValidWorkers"@,
            RequestErrorCode::MaintenanceMode => "MaintenanceMode"@,
            RequestErrorCode::TargetAccountFlagged => "TargetAccountFlagged"@,
            RequestErrorCode::SourceAccountFlagged => "SourceAccountFlagged"@,
            RequestErrorCode::FaultWhenKudosReceiving => "FaultWhenKudosReceiving"@,
            RequestErrorCode::FaultWhenKudosSending => "FaultWhenKudosSending"@,
            RequestErrorCode::TooFastKudosTransfers => "TooFastKudosTransfers"@,
            RequestErrorCode::KudosTransferToAnon => "KudosTransferToAnon"@,
            RequestErrorCode::KudosTransferToSelf => "KudosTransferToSelf"@,
            RequestErrorCode::KudosTransferNotEnough => "KudosTransferNotEnough"@,
            RequestErrorCode::NegativeKudosTransfer => "NegativeKudosTransfer"@,
            RequestErrorCode::KudosTransferFromAnon => "KudosTransferFromAnon"@,
            RequestErrorCode::InvalidAwardUsername => "InvalidAwardUsername"@,
            RequestErrorCode::KudosAwardToAnon => "KudosAwardToAnon"@,
            RequestErrorCode::NotAllowedAwards => "NotAllowedAwards"@,
            RequestErrorCode::NoWorkerModSelected => "NoWorkerModSelected"@,
            RequestErrorCode::NoUserModSelected => "NoUserModSelected"@,
            RequestErrorCode::NoHordeModSelected => "NoHordeModSelected"@,
            RequestErrorCode::NoTeamModSelected => "NoTeamModSelected"@,
            RequestErrorCode::NoFilterModSelected => "NoFilterModSelected"@,
            RequestErrorCode::NoSharedKeyModSelected => "NoSharedKeyModSelected"@,
            RequestErrorCode::BadRequest => "BadRequest"@,
            RequestErrorCode::Forbidden => "Forbidden"@,
            RequestErrorCode::Locked => "Locked"@,
            RequestErrorCode::ControlNetInpaintingMismatch => "ControlNetInpaintingMismatch"@,
            RequestErrorCode::HiResFixMismatch => "HiResFixMismatch"@,
            RequestErrorCode::TooManyLoras => "TooManyLoras"@,
            RequestErrorCode::BadLoraVersion => "BadLoraVersion"@,
            RequestErrorCode::TooManyTIs => "TooManyTIs"@,
            RequestErrorCode::BetaAnonForbidden => "BetaAnonForbidden"@,
            RequestErrorCode::BetaComparisonFault => "BetaComparisonFault"@,
            RequestErrorCode::BadCFGDecimals => "BadCFGDecimals"@,
            RequestErrorCode::BadCFGNumber => "BadCFGNumber"@,
            RequestErrorCode::BannedClientAgent => "BannedClientAgent"@,
            RequestErrorCode::SpecialMissingPayload => "SpecialMissingPayload"@,
            RequestErrorCode::SpecialForbidden => "SpecialForbidden"@,
            RequestErrorCode::SpecialMissingUsername => "SpecialMissingUsername"@,
            RequestErrorCode::SpecialModelNeedsSpecialUser => "SpecialModelNeedsSpecialUser"@,
            RequestErrorCode::SpecialFieldNeedsSpecialUser => "SpecialFieldNeedsSpecialUser"@,
            RequestErrorCode::Img2ImgMismatch => "Img2ImgMismatch"@,
            RequestErrorCode::TilingMismatch => "TilingMismatch"@,
            RequestErrorCode::ControlNetMismatch => "ControlNetMismatch"@,
            RequestErrorCode::HiResMismatch => "HiResMismatch"@,
            RequestErrorCode::EducationCannotSendKudos => "EducationCannotSendKudos"@,
            RequestErrorCode::InvalidPriorityUsername => "InvalidPriorityUsername"@,
            RequestErrorCode::SharedKeyExpired => "SharedKeyExpired"@,
            RequestErrorCode::SharedKeyInsufficientKudos => "SharedKeyInsufficientKudos"@,
            RequestErrorCode::OnlyServiceAccountProxy => "OnlyServiceAccountProxy"@,
            RequestErrorCode::RequiresTrust => "RequiresTrust"@,
            RequestErrorCode::Unknown => "Unknown"@,
        }
    }

    /// The value that a wire string decodes to: the first named value whose
    /// wire string it is, and the catch-all when there is none.
    pub open spec fn spec_from_wire(s: Seq<char>) -> RequestErrorCode {
        if s == "MissingPrompt"@ {
            RequestErrorCode::MissingPrompt
        } else if s == "CorruptPrompt"@ {
            RequestErrorCode::CorruptPrompt
        } else if s == "KudosValidationError"@ {
            RequestErrorCode::KudosValidationError
        } else if s == "NoValidActions"@ {
            RequestErrorCode::NoValidActions
        } else if s == "InvalidSize"@ {
            RequestErrorCode::InvalidSize
        } else if s == "InvalidPromptSize"@ {
            RequestErrorCode::InvalidPromptSize
        } else if s == "TooManySteps"@ {
            RequestErrorCode::TooManySteps
        } else if s == "Profanity"@ {
            RequestErrorCode::Profanity
        } else if s == "ProfaneWorkerName"@ {
            RequestErrorCode::ProfaneWorkerName
        } else if s == "ProfaneBridgeAgent"@ {
            RequestErrorCode::ProfaneBridgeAgent
        } else if s == "ProfaneWorkerInfo"@ {
            RequestErrorCode::ProfaneWorkerInfo
        } else if s == "ProfaneUserName"@ {
            RequestErrorCode::ProfaneUserName
        } else if s == "ProfaneUserContact"@ {
            RequestErrorCode::ProfaneUserContact
        } else if s == "ProfaneAdminComment"@ {
            RequestErrorCode::ProfaneAdminComment
        } else if s == "ProfaneTeamName"@ {
            RequestErrorCode::ProfaneTeamName
        } else if s == "ProfaneTeamInfo"@ {
            RequestErrorCode::ProfaneTeamInfo
        } else if s == "TooLong"@ {
            RequestErrorCode::TooLong
        } else if s == "TooLongWorkerName"@ {
            RequestErrorCode::TooLongWorkerName
        } else if s == "TooLongUserName"@ {
            RequestErrorCode::TooLongUserName
        } else if s == "NameAlreadyExists"@ {
            RequestErrorCode::NameAlreadyExists
        } else if s == "WorkerNameAlreadyExists"@ {
            RequestErrorCode::WorkerNameAlreadyExists
        } else if s == "TeamNameAlreadyExists"@ {
            RequestErrorCode::TeamNameAlreadyExists
        } else if s == "PolymorphicNameConflict"@ {
            RequestErrorCode::PolymorphicNameConflict
        } else if s == "ImageValidationFailed"@ {
            RequestErrorCode::ImageValidationFailed
        } else if s == "SourceImageResolutionExceeded"@ {
            RequestErrorCode::SourceImageResolutionExceeded
        } else if s == "SourceImageSizeExceeded"@ {
            RequestErrorCode::SourceImageSizeExceeded
        } else if s == "SourceImageUrlInvalid"@ {
            RequestErrorCode::SourceImageUrlInvalid
        } else if s == "SourceImageUnreadable"@ {
            RequestErrorCode::SourceImageUnreadable
        } else if s == "InpaintingMissingMask"@ {
            RequestErrorCode::InpaintingMissingMask
        } else if s == "SourceMaskUnnecessary"@ {
            RequestErrorCode::SourceMaskUnnecessary
        } else if s == "UnsupportedSampler"@ {
            RequestErrorCode::UnsupportedSampler
        } else if s == "UnsupportedModel"@ {
            RequestErrorCode::UnsupportedModel
        } else if s == "ControlNetUnsupported"@ {
            RequestErrorCode::ControlNetUnsupported
        } else if s == "ControlNetSourceMissing"@ {
            RequestErrorCode::ControlNetSourceMissing
        } else if s == "ControlNetInvalidPayload"@ {
            RequestErrorCode::ControlNetInvalidPayload
        } else if s == "SourceImageRequiredForModel"@ {
            RequestErrorCode::SourceImageRequiredForModel
        } else if s == "UnexpectedModelName"@ {
            RequestErrorCode::UnexpectedModelName
        } else if s == "TooManyUpscalers"@ {
            RequestErrorCode::TooManyUpscalers
        } else if s == "ProcGenNotFound"@ {
            RequestErrorCode::ProcGenNotFound
        } else if s == "InvalidAestheticAttempt"@ {
            RequestErrorCode::InvalidAestheticAttempt
        } else if s == "AestheticsNotCompleted"@ {
            RequestErrorCode::AestheticsNotCompleted
        } else if s == "AestheticsNotPublic"@ {
            RequestErrorCode::AestheticsNotPublic
        } else if s == "AestheticsDuplicate"@ {
            RequestErrorCode::AestheticsDuplicate
        } else if s == "AestheticsMissing"@ {
            RequestErrorCode::AestheticsMissing
        } else if s == "AestheticsSolo"@ {
            RequestErrorCode::AestheticsSolo
        } else if s == "AestheticsConfused"@ {
            RequestErrorCode::AestheticsConfused
        } else if s == "AestheticsAlreadyExist"@ {
            RequestErrorCode::AestheticsAlreadyExist
        } else if s == "AestheticsServerRejected"@ {
            RequestErrorCode::AestheticsServerRejected
        } else if s == "AestheticsServerError"@ {
            RequestErrorCode::AestheticsServerError
        } else if s == "AestheticsServerDown"@ {
            RequestErrorCode::AestheticsServerDown
        } else if s == "AestheticsServerTimeout"@ {
            RequestErrorCode::AestheticsServerTimeout
        } else if s == "InvalidAPIKey"@ {
            RequestErrorCode::InvalidAPIKey
        } else if s == "WrongCredentials"@ {
            RequestErrorCode::WrongCredentials
        } else if s == "NotAdmin"@ {
            RequestErrorCode::NotAdmin
        } else if s == "NotModerator"@ {
            RequestErrorCode::NotModerator
        } else if s == "NotOwner"@ {
            RequestErrorCode::NotOwner
        } else if s == "NotPrivileged"@ {
            RequestErrorCode::NotPrivileged
        } else if s == "AnonForbidden"@ {
            RequestErrorCode::AnonForbidden
        } else if s == "AnonForbiddenWorker"@ {
            RequestErrorCode::AnonForbiddenWorker
        } else if s == "AnonForbiddenUserMod"@ {
            RequestErrorCode::AnonForbiddenUserMod
        } else if s == "NotTrusted"@ {
            RequestErrorCode::NotTrusted
        } else if s == "UntrustedTeamCreation"@ {
            RequestErrorCode::UntrustedTeamCreation
        } else if s == "UntrustedUnsafeIP"@ {
            RequestErrorCode::UntrustedUnsafeIP
        } else if s == "WorkerMaintenance"@ {
            RequestErrorCode::WorkerMaintenance
        } else if s == "WorkerFlaggedMaintenance"@ {
            RequestErrorCode::WorkerFlaggedMaintenance
        } else if s == "TooManySameIPs"@ {
            RequestErrorCode::TooManySameIPs
        } else if s == "WorkerInviteOnly"@ {
            RequestErrorCode::WorkerInviteOnly
        } else if s == "UnsafeIP"@ {
            RequestErrorCode::UnsafeIP
        } else if s == "TimeoutIP"@ {
            RequestErrorCode::TimeoutIP
        } else if s == "TooManyNewIPs"@ {
            RequestErrorCode::TooManyNewIPs
        } else if s == "KudosUpfront"@ {
            RequestErrorCode::KudosUpfront
        } else if s == "SharedKeyEmpty"@ {
            RequestErrorCode::SharedKeyEmpty
        } else if s == "InvalidJobID"@ {
            RequestErrorCode::InvalidJobID
        } else if s == "RequestNotFound"@ {
            RequestErrorCode::RequestNotFound
        } else if s == "WorkerNotFound"@ {
            RequestErrorCode::WorkerNotFound
        } else if s == "TeamNotFound"@ {
            RequestErrorCode::TeamNotFound
        } else if s == "FilterNotFound"@ {
            RequestErrorCode::FilterNotFound
        } else if s == "UserNotFound"@ {
            RequestErrorCode::UserNotFound
        } else if s == "DuplicateGen"@ {
            RequestErrorCode::DuplicateGen
        } else if s == "AbortedGen"@ {
            RequestErrorCode::AbortedGen
        } else if s == "RequestExpired"@ {
            RequestErrorCode::RequestExpired
        } else if s == "TooManyPrompts"@ {
            RequestErrorCode::TooManyPrompts
        } else if s == "NoValidWorkers"@ {
            RequestErrorCode::NoValidWorkers
        } else if s == "MaintenanceMode"@ {
            RequestErrorCode::MaintenanceMode
        } else if s == "TargetAccountFlagged"@ {
            RequestErrorCode::TargetAccountFlagged
        } else if s == "SourceAccountFlagged"@ {
            RequestErrorCode::SourceAccountFlagged
        } else if s == "FaultWhenKudosReceiving"@ {
            RequestErrorCode::FaultWhenKudosReceiving
        } else if s == "FaultWhenKudosSending"@ {
            RequestErrorCode::FaultWhenKudosSending
        } else if s == "TooFastKudosTransfers"@ {
            RequestErrorCode::TooFastKudosTransfers
        } else if s == "KudosTransferToAnon"@ {
            RequestErrorCode::KudosTransferToAnon
        } else if s == "KudosTransferToSelf"@ {
            RequestErrorCode::KudosTransferToSelf
        } else if s == "KudosTransferNotEnough"@ {
            RequestErrorCode::KudosTransferNotEnough
        } else if s == "NegativeKudosTransfer"@ {
            RequestErrorCode::NegativeKudosTransfer
        } else if s == "KudosTransferFromAnon"@ {
            RequestErrorCode::KudosTransferFromAnon
        } else if s == "InvalidAwardUsername"@ {
            RequestErrorCode::InvalidAwardUsername
        } else if s == "KudosAwardToAnon"@ {
            RequestErrorCode::KudosAwardToAnon
        } else if s == "NotAllowedAwards"@ {
            RequestErrorCode::NotAllowedAwards
        } else if s == "NoWorkerModSelected"@ {
            RequestErrorCode::NoWorkerModSelected
        } else if s == "NoUserModSelected"@ {
            RequestErrorCode::NoUserModSelected
        } else if s == "NoHordeModSelected"@ {
            RequestErrorCode::NoHordeModSelected
        } else if s == "NoTeamModSelected"@ {
            RequestErrorCode::NoTeamModSelected
        } else if s == "NoFilterModSelected"@ {
            RequestErrorCode::NoFilterModSelected
        } else if s == "NoSharedKeyModSelected"@ {
            RequestErrorCode::NoSharedKeyModSelected
        } else if s == "BadRequest"@ {
            RequestErrorCode::BadRequest
        } else if s == "Forbidden"@ {
            RequestErrorCode::Forbidden
        } else if s == "Locked"@ {
            RequestErrorCode::Locked
        } else if s == "ControlNetInpaintingMismatch"@ {
            RequestErrorCode::ControlNetInpaintingMismatch
        } else if s == "HiResFixMismatch"@ {
            RequestErrorCode::HiResFixMismatch
        } else if s == "TooManyLoras"@ {
            RequestErrorCode::TooManyLoras
        } else if s == "BadLoraVersion"@ {
            RequestErrorCode::BadLoraVersion
        } else if s == "TooManyTIs"@ {
            RequestErrorCode::TooManyTIs
        } else if s == "BetaAnonForbidden"@ {
            RequestErrorCode::BetaAnonForbidden
        } else if s == "BetaComparisonFault"@ {
            RequestErrorCode::BetaComparisonFault
        } else if s == "BadCFGDecimals"@ {
            RequestErrorCode::BadCFGDecimals
        } else if s == "BadCFGNumber"@ {
            RequestErrorCode::BadCFGNumber
        } else if s == "BannedClientAgent"@ {
            RequestErrorCode::BannedClientAgent
        } else if s == "SpecialMissingPayload"@ {
            RequestErrorCode::SpecialMissingPayload
        } else if s == "SpecialForbidden"@ {
            RequestErrorCode::SpecialForbidden
        } else if s == "SpecialMissingUsername"@ {
            RequestErrorCode::SpecialMissingUsername
        } else if s == "SpecialModelNeedsSpecialUser"@ {
            RequestErrorCode::SpecialModelNeedsSpecialUser
        } else if s == "SpecialFieldNeedsSpecialUser"@ {
            RequestErrorCode::SpecialFieldNeedsSpecialUser
        } else if s == "Img2ImgMismatch"@ {
            RequestErrorCode::Img2ImgMismatch
        } else if s == "TilingMismatch"@ {
            RequestErrorCode::TilingMismatch
        } else if s == "ControlNetMismatch"@ {
            RequestErrorCode::ControlNetMismatch
        } else if s == "HiResMismatch"@ {
            RequestErrorCode::HiResMismatch
        } else if s == "EducationCannotSendKudos"@ {
            RequestErrorCode::EducationCannotSendKudos
        } else if s == "InvalidPriorityUsername"@ {
            RequestErrorCode::InvalidPriorityUsername
        } else if s == "SharedKeyExpired"@ {
            RequestErrorCode::SharedKeyExpired
        } else if s == "SharedKeyInsufficientKudos"@ {
            RequestErrorCode::SharedKeyInsufficientKudos
        } else if s == "OnlyServiceAccountProxy"@ {
            RequestErrorCode::OnlyServiceAccountProxy
        } else if s == "RequiresTrust"@ {
            RequestErrorCode::RequiresTrust
        } else {
            RequestErrorCode::Unknown
        }
    }

    /// `s` is the wire string of a named value (not the catch-all).
    pub open spec fn is_known_wire(s: Seq<char>) -> bool {
        exists|e: RequestErrorCode| e != RequestErrorCode::Unknown && #[trigger] e.spec_wire() == s
    }

    /// Encodes this value as its wire string.
    pub fn as_str(&self) -> (r: &'static str)
        ensures
            r@ == self.spec_wire(),
    {
        match self {
            RequestErrorCode::MissingPrompt => "MissingPrompt",
            RequestErrorCode::CorruptPrompt => "CorruptPrompt",
            RequestErrorCode::KudosValidationError => "KudosValidationError",
            RequestErrorCode::NoValidActions => "NoValidActions",
            RequestErrorCode::InvalidSize => "InvalidSize",
            RequestErrorCode::InvalidPromptSize => "InvalidPromptSize",
            RequestErrorCode::TooManySteps => "TooManySteps",
            RequestErrorCode::Profanity => "Profanity",
            RequestErrorCode::ProfaneWorkerName => "ProfaneWorkerName",
            RequestErrorCode::ProfaneBridgeAgent => "ProfaneBridgeAgent",
            RequestErrorCode::ProfaneWorkerInfo => "ProfaneWorkerInfo",
            RequestErrorCode::ProfaneUserName => "ProfaneUserName",
            RequestErrorCode::ProfaneUserContact => "ProfaneUserContact",
            RequestErrorCode::ProfaneAdminComment => "ProfaneAdminComment",
            RequestErrorCode::ProfaneTeamName => "ProfaneTeamName",
            RequestErrorCode::ProfaneTeamInfo => "ProfaneTeamInfo",
            RequestErrorCode::TooLong => "TooLong",
            RequestErrorCode::TooLongWorkerName => "TooLongWorkerName",
            RequestErrorCode::TooLongUserName => "TooLongUserName",
            RequestErrorCode::NameAlreadyExists => "NameAlreadyExists",
            RequestErrorCode::WorkerNameAlreadyExists => "WorkerNameAlreadyExists",
            RequestErrorCode::TeamNameAlreadyExists => "TeamNameAlreadyExists",
            RequestErrorCode::PolymorphicNameConflict => "PolymorphicNameConflict",
            RequestErrorCode::ImageValidationFailed => "ImageValidationFailed",
            RequestErrorCode::SourceImageResolutionExceeded => "SourceImageResolutionExceeded",
            RequestErrorCode::SourceImageSizeExceeded => "SourceImageSizeExceeded",
            RequestErrorCode::SourceImageUrlInvalid => "SourceImageUrlInvalid",
            RequestErrorCode::SourceImageUnreadable => "SourceImageUnreadable",
            RequestErrorCode::InpaintingMissingMask => "InpaintingMissingMask",
            RequestErrorCode::SourceMaskUnnecessary => "SourceMaskUnnecessary",
            RequestErrorCode::UnsupportedSampler => "UnsupportedSampler",
            RequestErrorCode::UnsupportedModel => "UnsupportedModel",
            RequestErrorCode::ControlNetUnsupported => "ControlNetUnsupported",
            RequestErrorCode::ControlNetSourceMissing => "ControlNetSourceMissing",
            RequestErrorCode::ControlNetInvalidPayload => "ControlNetInvalidPayload",
            RequestErrorCode::SourceImageRequiredForModel => "SourceImageRequiredForModel",
            RequestErrorCode::UnexpectedModelName => "UnexpectedModelName",
            RequestErrorCode::TooManyUpscalers => "TooManyUpscalers",
            RequestErrorCode::ProcGenNotFound => "ProcGenNotFound",
            RequestErrorCode::InvalidAestheticAttempt => "InvalidAestheticAttempt",
            RequestErrorCode::AestheticsNotCompleted => "AestheticsNotCompleted",
            RequestErrorCode::AestheticsNotPublic => "AestheticsNotPublic",
            RequestErrorCode::AestheticsDuplicate => "AestheticsDuplicate",
            RequestErrorCode::AestheticsMissing => "AestheticsMissing",
            RequestErrorCode::AestheticsSolo => "AestheticsSolo",
            RequestErrorCode::AestheticsConfused => "AestheticsConfused",
            RequestErrorCode::AestheticsAlreadyExist => "AestheticsAlreadyExist",
            RequestErrorCode::AestheticsServerRejected => "AestheticsServerRejected",
            RequestErrorCode::AestheticsServerError => "AestheticsServerError",
            RequestErrorCode::AestheticsServerDown => "AestheticsServerDown",
            RequestErrorCode::AestheticsServerTimeout => "AestheticsServerTimeout",
            RequestErrorCode::InvalidAPIKey => "InvalidAPIKey",
            RequestErrorCode::WrongCredentials => "WrongCredentials",
            RequestErrorCode::NotAdmin => "NotAdmin",
            RequestErrorCode::NotModerator => "NotModerator",
            RequestErrorCode::NotOwner => "NotOwner",
            RequestErrorCode::NotPrivileged => "NotPrivileged",
            RequestErrorCode::AnonForbidden => "AnonForbidden",
            RequestErrorCode::AnonForbiddenWorker => "AnonForbiddenWorker",
            RequestErrorCode::AnonForbiddenUserMod => "AnonForbiddenUserMod",
            RequestErrorCode::NotTrusted => "NotTrusted",
            RequestErrorCode::UntrustedTeamCreation => "UntrustedTeamCreation",
            RequestErrorCode::UntrustedUnsafeIP => "UntrustedUnsafeIP",
            RequestErrorCode::WorkerMaintenance => "WorkerMaintenance",
            RequestErrorCode::WorkerFlaggedMaintenance => "WorkerFlaggedMaintenance",
            RequestErrorCode::TooManySameIPs => "TooManySameIPs",
            RequestErrorCode::WorkerInviteOnly => "WorkerInviteOnly",
            RequestErrorCode::UnsafeIP => "UnsafeIP",
            RequestErrorCode::TimeoutIP => "TimeoutIP",
            RequestErrorCode::TooManyNewIPs => "TooManyNewIPs",
            RequestErrorCode::KudosUpfront => "KudosUpfront",
            RequestErrorCode::SharedKeyEmpty => "SharedKeyEmpty",
            RequestErrorCode::InvalidJobID => "InvalidJobID",
            RequestErrorCode::RequestNotFound => "RequestNotFound",
            RequestErrorCode::WorkerNotFound => "WorkerNotFound",
            RequestErrorCode::TeamNotFound => "TeamNotFound",
            RequestErrorCode::FilterNotFound => "FilterNotFound",
            RequestErrorCode::UserNotFound => "UserNotFound",
            RequestErrorCode::DuplicateGen => "DuplicateGen",
            RequestErrorCode::AbortedGen => "AbortedGen",
            RequestErrorCode::RequestExpired => "RequestExpired",
            RequestErrorCode::TooManyPrompts => "TooManyPrompts",
            RequestErrorCode::NoValidWorkers => "NoValidWorkers",
            RequestErrorCode::MaintenanceMode => "MaintenanceMode",
            RequestErrorCode::TargetAccountFlagged => "TargetAccountFlagged",
            RequestErrorCode::SourceAccountFlagged => "SourceAccountFlagged",
            RequestErrorCode::FaultWhenKudosReceiving => "FaultWhenKudosReceiving",
            RequestErrorCode::FaultWhenKudosSending => "FaultWhenKudosSending",
            RequestErrorCode::TooFastKudosTransfers => "TooFastKudosTransfers",
            RequestErrorCode::KudosTransferToAnon => "KudosTransferToAnon",
            RequestErrorCode::KudosTransferToSelf => "KudosTransferToSelf",
            RequestErrorCode::KudosTransferNotEnough => "KudosTransferNotEnough",
            RequestErrorCode::NegativeKudosTransfer => "NegativeKudosTransfer",
            RequestErrorCode::KudosTransferFromAnon => "KudosTransferFromAnon",
            RequestErrorCode::InvalidAwardUsername => "InvalidAwardUsername",
            RequestErrorCode::KudosAwardToAnon => "KudosAwardToAnon",
            RequestErrorCode::NotAllowedAwards => "NotAllowedAwards",
            RequestErrorCode::NoWorkerModSelected => "NoWorkerModSelected",
            RequestErrorCode::NoUserModSelected => "NoUserModSelected",
            RequestErrorCode::NoHordeModSelected => "NoHordeModSelected",
            RequestErrorCode::NoTeamModSelected => "NoTeamModSelected",
            RequestErrorCode::NoFilterModSelected => "NoFilterModSelected",
            RequestErrorCode::NoSharedKeyModSelected => "NoSharedKeyModSelected",
            RequestErrorCode::BadRequest => "BadRequest",
            RequestErrorCode::Forbidden => "Forbidden",
            RequestErrorCode::Locked => "Locked",
            RequestErrorCode::ControlNetInpaintingMismatch => "ControlNetInpaintingMismatch",
            RequestErrorCode::HiResFixMismatch => "HiResFixMismatch",
            RequestErrorCode::TooManyLoras => "TooManyLoras",
            RequestErrorCode::BadLoraVersion => "BadLoraVersion",
            RequestErrorCode::TooManyTIs => "TooManyTIs",
            RequestErrorCode::BetaAnonForbidden => "BetaAnonForbidden",
            RequestErrorCode::BetaComparisonFault => "BetaComparisonFault",
            RequestErrorCode::BadCFGDecimals => "BadCFGDecimals",
            RequestErrorCode::BadCFGNumber => "BadCFGNumber",
            RequestErrorCode::BannedClientAgent => "BannedClientAgent",
            RequestErrorCode::SpecialMissingPayload => "SpecialMissingPayload",
            RequestErrorCode::SpecialForbidden => "SpecialForbidden",
            RequestErrorCode::SpecialMissingUsername => "SpecialMissingUsername",
            RequestErrorCode::SpecialModelNeedsSpecialUser => "SpecialModelNeedsSpecialUser",
            RequestErrorCode::SpecialFieldNeedsSpecialUser => "SpecialFieldNeedsSpecialUser",
            RequestErrorCode::Img2ImgMismatch => "Img2ImgMismatch",
            RequestErrorCode::TilingMismatch => "TilingMismatch",
            RequestErrorCode::ControlNetMismatch => "ControlNetMismatch",
            RequestErrorCode::HiResMismatch => "HiResMismatch",
            RequestErrorCode::EducationCannotSendKudos => "EducationCannotSendKudos",
            RequestErrorCode::InvalidPriorityUsername => "InvalidPriorityUsername",
            RequestErrorCode::SharedKeyExpired => "SharedKeyExpired",
            RequestErrorCode::SharedKeyInsufficientKudos => "SharedKeyInsufficientKudos",
            RequestErrorCode::OnlyServiceAccountProxy => "OnlyServiceAccountProxy",
            RequestErrorCode::RequiresTrust => "RequiresTrust",
            RequestErrorCode::Unknown => "Unknown",
        }
    }

    /// Decodes a wire string; a string that names no value gives `Unknown`.
    pub fn from_wire(s: &str) -> (r: RequestErrorCode)
        ensures
            r == RequestErrorCode::spec_from_wire(s@),
    {
        if same_text(s, "MissingPrompt") {
            return RequestErrorCode::MissingPrompt;
        }
        if same_text(s, "CorruptPrompt") {
            return RequestErrorCode::CorruptPrompt;
        }
        if same_text(s, "KudosValidationError") {
            return RequestErrorCode::KudosValidationError;
        }
        if same_text(s, "NoValidActions") {
            return RequestErrorCode::NoValidActions;
        }
        if same_text(s, "InvalidSize") {
            return RequestErrorCode::InvalidSize;
        }
        if same_text(s, "InvalidPromptSize") {
            return RequestErrorCode::InvalidPromptSize;
        }
        if same_text(s, "TooManySteps") {
            return RequestErrorCode::TooManySteps;
        }
        if same_text(s, "Profanity") {
            return RequestErrorCode::Profanity;
        }
        if same_text(s, "ProfaneWorkerName") {
            return RequestErrorCode::ProfaneWorkerName;
        }
        if same_text(s, "ProfaneBridgeAgent") {
            return RequestErrorCode::ProfaneBridgeAgent;
        }
        if same_text(s, "ProfaneWorkerInfo") {
            return RequestErrorCode::ProfaneWorkerInfo;
        }
        if same_text(s, "ProfaneUserName") {
            return RequestErrorCode::ProfaneUserName;
        }
        if same_text(s, "ProfaneUserContact") {
            return RequestErrorCode::ProfaneUserContact;
        }
        if same_text(s, "ProfaneAdminComment") {
            return RequestErrorCode::ProfaneAdminComment;
        }
        if same_text(s, "ProfaneTeamName") {
            return RequestErrorCode::ProfaneTeamName;
        }
        if same_text(s, "ProfaneTeamInfo") {
            return RequestErrorCode::ProfaneTeamInfo;
        }
        if same_text(s, "TooLong") {
            return RequestErrorCode::TooLong;
        }
        if same_text(s, "TooLongWorkerName") {
            return RequestErrorCode::TooLongWorkerName;
        }
        if same_text(s, "TooLongUserName") {
            return RequestErrorCode::TooLongUserName;
        }
        if same_text(s, "NameAlreadyExists") {
            return RequestErrorCode::NameAlreadyExists;
        }
        if same_text(s, "WorkerNameAlreadyExists") {
            return RequestErrorCode::WorkerNameAlreadyExists;
        }
        if same_text(s, "TeamNameAlreadyExists") {
            return RequestErrorCode::TeamNameAlreadyExists;
        }
        if same_text(s, "PolymorphicNameConflict") {
            return RequestErrorCode::PolymorphicNameConflict;
        }
        if same_text(s, "ImageValidationFailed") {
            return RequestErrorCode::ImageValidationFailed;
        }
        if same_text(s, "SourceImageResolutionExceeded") {
            return RequestErrorCode::SourceImageResolutionExceeded;
        }
        if same_text(s, "SourceImageSizeExceeded") {
            return RequestErrorCode::SourceImageSizeExceeded;
        }
        if same_text(s, "SourceImageUrlInvalid") {
            return RequestErrorCode::SourceImageUrlInvalid;
        }
        if same_text(s, "SourceImageUnreadable") {
            return RequestErrorCode::SourceImageUnreadable;
        }
        if same_text(s, "InpaintingMissingMask") {
            return RequestErrorCode::InpaintingMissingMask;
        }
        if same_text(s, "SourceMaskUnnecessary") {
            return RequestErrorCode::SourceMaskUnnecessary;
        }
        if same_text(s, "UnsupportedSampler") {
            return RequestErrorCode::UnsupportedSampler;
        }
        if same_text(s, "UnsupportedModel") {
            return RequestErrorCode::UnsupportedModel;
        }
        if same_text(s, "ControlNetUnsupported") {
            return RequestErrorCode::ControlNetUnsupported;
        }
        if same_text(s, "ControlNetSourceMissing") {
            return RequestErrorCode::ControlNetSourceMissing;
        }
        if same_text(s, "ControlNetInvalidPayload") {
            return RequestErrorCode::ControlNetInvalidPayload;
        }
        if same_text(s, "SourceImageRequiredForModel") {
            return RequestErrorCode::SourceImageRequiredForModel;
        }
        if same_text(s, "UnexpectedModelName") {
            return RequestErrorCode::UnexpectedModelName;
        }
        if same_text(s, "TooManyUpscalers") {
            return RequestErrorCode::TooManyUpscalers;
        }
        if same_text(s, "ProcGenNotFound") {
            return RequestErrorCode::ProcGenNotFound;
        }
        if same_text(s, "InvalidAestheticAttempt") {
            return RequestErrorCode::InvalidAestheticAttempt;
        }
        if same_text(s, "AestheticsNotCompleted") {
            return RequestErrorCode::AestheticsNotCompleted;
        }
        if same_text(s, "AestheticsNotPublic") {
            return RequestErrorCode::AestheticsNotPublic;
        }
        if same_text(s, "AestheticsDuplicate") {
            return RequestErrorCode::AestheticsDuplicate;
        }
        if same_text(s, "AestheticsMissing") {
            return RequestErrorCode::AestheticsMissing;
        }
        if same_text(s, "AestheticsSolo") {
            return RequestErrorCode::AestheticsSolo;
        }
        if same_text(s, "AestheticsConfused") {
            return RequestErrorCode::AestheticsConfused;
        }
        if same_text(s, "AestheticsAlreadyExist") {
            return RequestErrorCode::AestheticsAlreadyExist;
        }
        if same_text(s, "AestheticsServerRejected") {
            return RequestErrorCode::AestheticsServerRejected;
        }
        if same_text(s, "AestheticsServerError") {
            return RequestErrorCode::AestheticsServerError;
        }
        if same_text(s, "AestheticsServerDown") {
            return RequestErrorCode::AestheticsServerDown;
        }
        if same_text(s, "AestheticsServerTimeout") {
            return RequestErrorCode::AestheticsServerTimeout;
        }
        if same_text(s, "InvalidAPIKey") {
            return RequestErrorCode::InvalidAPIKey;
        }
        if same_text(s, "WrongCredentials") {
            return RequestErrorCode::WrongCredentials;
        }
        if same_text(s, "NotAdmin") {
            return RequestErrorCode::NotAdmin;
        }
        if same_text(s, "NotModerator") {
            return RequestErrorCode::NotModerator;
        }
        if same_text(s, "NotOwner") {
            return RequestErrorCode::NotOwner;
        }
        if same_text(s, "NotPrivileged") {
            return RequestErrorCode::NotPrivileged;
        }
        if same_text(s, "AnonForbidden") {
            return RequestErrorCode::AnonForbidden;
        }
        if same_text(s, "AnonForbiddenWorker") {
            return RequestErrorCode::AnonForbiddenWorker;
        }
        if same_text(s, "AnonForbiddenUserMod") {
            return RequestErrorCode::AnonForbiddenUserMod;
        }
        if same_text(s, "NotTrusted") {
            return RequestErrorCode::NotTrusted;
        }
        if same_text(s, "UntrustedTeamCreation") {
            return RequestErrorCode::UntrustedTeamCreation;
        }
        if same_text(s, "UntrustedUnsafeIP") {
            return RequestErrorCode::UntrustedUnsafeIP;
        }
        if same_text(s, "WorkerMaintenance") {
            return RequestErrorCode::WorkerMaintenance;
        }
        if same_text(s, "WorkerFlaggedMaintenance") {
            return RequestErrorCode::WorkerFlaggedMaintenance;
        }
        if same_text(s, "TooManySameIPs") {
            return RequestErrorCode::TooManySameIPs;
        }
        if same_text(s, "WorkerInviteOnly") {
            return RequestErrorCode::WorkerInviteOnly;
        }
        if same_text(s, "UnsafeIP") {
            return RequestErrorCode::UnsafeIP;
        }
        if same_text(s, "TimeoutIP") {
            return RequestErrorCode::TimeoutIP;
        }
        if same_text(s, "TooManyNewIPs") {
            return RequestErrorCode::TooManyNewIPs;
        }
        if same_text(s, "KudosUpfront") {
            return RequestErrorCode::KudosUpfront;
        }
        if same_text(s, "SharedKeyEmpty") {
            return RequestErrorCode::SharedKeyEmpty;
        }
        if same_text(s, "InvalidJobID") {
            return RequestErrorCode::InvalidJobID;
        }
        if same_text(s, "RequestNotFound") {
            return RequestErrorCode::RequestNotFound;
        }
        if same_text(s, "WorkerNotFound") {
            return RequestErrorCode::WorkerNotFound;
        }
        if same_text(s, "TeamNotFound") {
            return RequestErrorCode::TeamNotFound;
        }
        if same_text(s, "FilterNotFound") {
            return RequestErrorCode::FilterNotFound;
        }
        if same_text(s, "UserNotFound") {
            return RequestErrorCode::UserNotFound;
        }
        if same_text(s, "DuplicateGen") {
            return RequestErrorCode::DuplicateGen;
        }
        if same_text(s, "AbortedGen") {
            return RequestErrorCode::AbortedGen;
        }
        if same_text(s, "RequestExpired") {
            return RequestErrorCode::RequestExpired;
        }
        if same_text(s, "TooManyPrompts") {
            return RequestErrorCode::TooManyPrompts;
        }
        if same_text(s, "NoValidWorkers") {
            return RequestErrorCode::NoValidWorkers;
        }
        if same_text(s, "MaintenanceMode") {
            return RequestErrorCode::MaintenanceMode;
        }
        if same_text(s, "TargetAccountFlagged") {
            return RequestErrorCode::TargetAccountFlagged;
        }
        if same_text(s, "SourceAccountFlagged") {
            return RequestErrorCode::SourceAccountFlagged;
        }
        if same_text(s, "FaultWhenKudosReceiving") {
            return RequestErrorCode::FaultWhenKudosReceiving;
        }
        if same_text(s, "FaultWhenKudosSending") {
            return RequestErrorCode::FaultWhenKudosSending;
        }
        if same_text(s, "TooFastKudosTransfers") {
            return RequestErrorCode::TooFastKudosTransfers;
        }
        if same_text(s, "KudosTransferToAnon") {
            return RequestErrorCode::KudosTransferToAnon;
        }
        if same_text(s, "KudosTransferToSelf") {
            return RequestErrorCode::KudosTransferToSelf;
        }
        if same_text(s, "KudosTransferNotEnough") {
            return RequestErrorCode::KudosTransferNotEnough;
        }
        if same_text(s, "NegativeKudosTransfer") {
            return RequestErrorCode::NegativeKudosTransfer;
        }
        if same_text(s, "KudosTransferFromAnon") {
            return RequestErrorCode::KudosTransferFromAnon;
        }
        if same_text(s, "InvalidAwardUsername") {
            return RequestErrorCode::InvalidAwardUsername;
        }
        if same_text(s, "KudosAwardToAnon") {
            return RequestErrorCode::KudosAwardToAnon;
        }
        if same_text(s, "NotAllowedAwards") {
            return RequestErrorCode::NotAllowedAwards;
        }
        if same_text(s, "NoWorkerModSelected") {
            return RequestErrorCode::NoWorkerModSelected;
        }
        if same_text(s, "NoUserModSelected") {
            return RequestErrorCode::NoUserModSelected;
        }
        if same_text(s, "NoHordeModSelected") {
            return RequestErrorCode::NoHordeModSelected;
        }
        if same_text(s, "NoTeamModSelected") {
            return RequestErrorCode::NoTeamModSelected;
        }
        if same_text(s, "NoFilterModSelected") {
            return RequestErrorCode::NoFilterModSelected;
        }
        if same_text(s, "NoSharedKeyModSelected") {
            return RequestErrorCode::NoSharedKeyModSelected;
        }
        if same_text(s, "BadRequest") {
            return RequestErrorCode::BadRequest;
        }
        if same_text(s, "Forbidden") {
            return RequestErrorCode::Forbidden;
        }
        if same_text(s, "Locked") {
            return RequestErrorCode::Locked;
        }
        if same_text(s, "ControlNetInpaintingMismatch") {
            return RequestErrorCode::ControlNetInpaintingMismatch;
        }
        if same_text(s, "HiResFixMismatch") {
            return RequestErrorCode::HiResFixMismatch;
        }
        if same_text(s, "TooManyLoras") {
            return RequestErrorCode::TooManyLoras;
        }
        if same_text(s, "BadLoraVersion") {
            return RequestErrorCode::BadLoraVersion;
        }
        if same_text(s, "TooManyTIs") {
            return RequestErrorCode::TooManyTIs;
        }
        if same_text(s, "BetaAnonForbidden") {
            return RequestErrorCode::BetaAnonForbidden;
        }
        if same_text(s, "BetaComparisonFault") {
            return RequestErrorCode::BetaComparisonFault;
        }
        if same_text(s, "BadCFGDecimals") {
            return RequestErrorCode::BadCFGDecimals;
        }
        if same_text(s, "BadCFGNumber") {
            return RequestErrorCode::BadCFGNumber;
        }
        if same_text(s, "BannedClientAgent") {
            return RequestErrorCode::BannedClientAgent;
        }
        if same_text(s, "SpecialMissingPayload") {
            return RequestErrorCode::SpecialMissingPayload;
        }
        if same_text(s, "SpecialForbidden") {
            return RequestErrorCode::SpecialForbidden;
        }
        if same_text(s, "SpecialMissingUsername") {
            return RequestErrorCode::SpecialMissingUsername;
        }
        if same_text(s, "SpecialModelNeedsSpecialUser") {
            return RequestErrorCode::SpecialModelNeedsSpecialUser;
        }
        if same_text(s, "SpecialFieldNeedsSpecialUser") {
            return RequestErrorCode::SpecialFieldNeedsSpecialUser;
        }
        if same_text(s, "Img2ImgMismatch") {
            return RequestErrorCode::Img2ImgMismatch;
        }
        if same_text(s, "TilingMismatch") {
            return RequestErrorCode::TilingMismatch;
        }
        if same_text(s, "ControlNetMismatch") {
            return RequestErrorCode::ControlNetMismatch;
        }
        if same_text(s, "HiResMismatch") {
            return RequestErrorCode::HiResMismatch;
        }
        if same_text(s, "EducationCannotSendKudos") {
            return RequestErrorCode::EducationCannotSendKudos;
        }
        if same_text(s, "InvalidPriorityUsername") {
            return RequestErrorCode::InvalidPriorityUsername;
        }
        if same_text(s, "SharedKeyExpired") {
            return RequestErrorCode::SharedKeyExpired;
        }
        if same_text(s, "SharedKeyInsufficientKudos") {
            return RequestErrorCode::SharedKeyInsufficientKudos;
        }
        if same_text(s, "OnlyServiceAccountProxy") {
            return RequestErrorCode::OnlyServiceAccountProxy;
        }
        if same_text(s, "RequiresTrust") {
            return RequestErrorCode::RequiresTrust;
        }
        RequestErrorCode::Unknown
    }
}

impl Default for RequestErrorCode {
    fn default() -> (r: RequestErrorCode)
        ensures
            r == RequestErrorCode::Unknown,
    {
        RequestErrorCode::Unknown
    }
}

/// Decoding never fails: a wire string of a named value decodes to a value
/// that encodes back to that very string, and any other string decodes to the
/// catch-all.
pub proof fn lemma_request_error_code_wire(s: Seq<char>)
    ensures
        RequestErrorCode::is_known_wire(s) ==> RequestErrorCode::spec_from_wire(s).spec_wire() == s,
        !RequestErrorCode::is_known_wire(s) ==> RequestErrorCode::spec_from_wire(s) == RequestErrorCode::Unknown,
{
    let e = RequestErrorCode::spec_from_wire(s);
    if e != RequestErrorCode::Unknown {
        assert(e.spec_wire() == s);
    }
}

/// The kind of control map that ControlNet uses.
#[derive(Debug, Clone, Copy, PartialEq, Eq, Structural)]
pub enum ControlType {
    Canny,
    Hed,
    Depth,
    Normal,
    Openpose,
    Seg,
    Scribble,
    Fakescribbles,
    Hough,
    /// Any wire string that names none of the values above.
    Unknown,
}

impl ControlType {
    /// The wire string of this value.
    pub open spec fn spec_wire(self) -> Seq<char> {
        match self {
            ControlType::Canny => "canny"@,
            ControlType::Hed => "hed"@,
            ControlType::Depth => "depth"@,
            ControlType::Normal => "normal"@,
            ControlType::Openpose => "openpose"@,
            ControlType::Seg => "seg"@,
            ControlType::Scribble => "scribble"@,
            ControlType::Fakescribbles => "fakescribbles"@,
            ControlType::Hough => "hough"@,
            ControlType::Unknown => "unknown"@,
        }
    }

    /// The value that a wire string decodes to: the first named value whose
    /// wire string it is, and the catch-all when there is none.
    pub open spec fn spec_from_wire(s: Seq<char>) -> ControlType {
        if s == "canny"@ {
            ControlType::Canny
        } else if s == "hed"@ {
            ControlType::Hed
        } else if s == "depth"@ {
            ControlType::Depth
        } else if s == "normal"@ {
            ControlType::Normal
        } else if s == "openpose"@ {
            ControlType::Openpose
        } else if s == "seg"@ {
            ControlType::Seg
        } else if s == "scribble"@ {
            ControlType::Scribble
        } else if s == "fakescribbles"@ {
            ControlType::Fakescribbles
        } else if s == "hough"@ {
            ControlType::Hough
        } else {
            ControlType::Unknown
        }
    }

    /// `s` is the wire string of a named value (not the catch-all).
    pub open spec fn is_known_wire(s: Seq<char>) -> bool {
        exists|e: ControlType| e != ControlType::Unknown && #[trigger] e.spec_wire() == s
    }

    /// Encodes this value as its wire string.
    pub fn as_str(&self) -> (r: &'static str)
        ensures
            r@ == self.spec_wire(),
    {
        match self {
            ControlType::Canny => "canny",
            ControlType::Hed => "hed",
            ControlType::Depth => "depth",
            ControlType::Normal => "normal",
            ControlType::Openpose => "openpose",
            ControlType::Seg => "seg",
            ControlType::Scribble => "scribble",
            ControlType::Fakescribbles => "fakescribbles",
            ControlType::Hough => "hough",
            ControlType::Unknown => "unknown",
        }
    }

    /// Decodes a wire string; a string that names no value gives `Unknown`.
    pub fn from_wire(s: &str) -> (r: ControlType)
        ensures
            r == ControlType::spec_from_wire(s@),
    {
        if same_text(s, "canny") {
            return ControlType::Canny;
        }
        if same_text(s, "hed") {
            return ControlType::Hed;
        }
        if same_text(s, "depth") {
            return ControlType::Depth;
        }
        if same_text(s, "normal") {
            return ControlType::Normal;
        }
        if same_text(s, "openpose") {
            return ControlType::Openpose;
        }
        if same_text(s, "seg") {
            return ControlType::Seg;
        }
        if same_text(s, "scribble") {
            return ControlType::Scribble;
        }
        if same_text(s, "fakescribbles") {
            return ControlType::Fakescribbles;
        }
        if same_text(s, "hough") {
            return ControlType::Hough;
        }
        ControlType::Unknown
    }
}

impl Default for ControlType {
    fn default() -> (r: ControlType)
        ensures
            r == ControlType::Normal,
    {
        ControlType::Normal
    }
}

/// Decoding never fails: a wire string of a named value decodes to a value
/// that encodes back to that very string, and any other string decodes to the
/// catch-all.
pub proof fn lemma_control_type_wire(s: Seq<char>)
    ensures
        ControlType::is_known_wire(s) ==> ControlType::spec_from_wire(s).spec_wire() == s,
        !ControlType::is_known_wire(s) ==> ControlType::spec_from_wire(s) == ControlType::Unknown,
{
    let e = ControlType::spec_from_wire(s);
    if e != ControlType::Unknown {
        assert(e.spec_wire() == s);
    }
}

/// A horde-engine workflow to use for a generation.
#[derive(Debug, Clone, Copy, PartialEq, Eq, Structural)]
pub enum Workflow {
    QrCode,
    /// Any wire string that names none of the values above.
    Unknown,
}

impl Workflow {
    /// The wire string of this value.
    pub open spec fn spec_wire(self) -> Seq<char> {
        match self {
            Workflow::QrCode => "qr_code"@,
            Workflow::Unknown => "unknown"@,
        }
    }

    /// The value that a wire string decodes to: the first named value whose
    /// wire string it is, and the catch-all when there is none.
    pub open spec fn spec_from_wire(s: Seq<char>) -> Workflow {
        if s == "qr_code"@ {
            Workflow::QrCode
        } else {
            Workflow::Unknown
        }
    }

    /// `s` is the wire string of a named value (not the catch-all).
    pub open spec fn is_known_wire(s: Seq<char>) -> bool {
        exists|e: Workflow| e != Workflow::Unknown && #[trigger] e.spec_wire() == s
    }

    /// Encodes this value as its wire string.
    pub fn as_str(&self) -> (r: &'static str)
        ensures
            r@ == self.spec_wire(),
    {
        match self {
            Workflow::QrCode => "qr_code",
            Workflow::Unknown => "unknown",
        }
    }

    /// Decodes a wire string; a string that names no value gives `Unknown`.
    pub fn from_wire(s: &str) -> (r: Workflow)
        ensures
            r == Workflow::spec_from_wire(s@),
    {
        if same_text(s, "qr_code") {
            return Workflow::QrCode;
        }
        Workflow::Unknown
    }
}

impl Default for Workflow {
    fn default() -> (r: Workflow)
        ensures
            r == Workflow::QrCode,
    {
        Workflow::QrCode
    }
}

/// Decoding never fails: a wire string of a named value decodes to a value
/// that encodes back to that very string, and any other string decodes to the
/// catch-all.
pub proof fn lemma_workflow_wire(s: Seq<char>)
    ensures
        Workflow::is_known_wire(s) ==> Workflow::spec_from_wire(s).spec_wire() == s,
        !Workflow::is_known_wire(s) ==> Workflow::spec_from_wire(s) == Workflow::Unknown,
{
    let e = Workflow::spec_from_wire(s);
    if e != Workflow::Unknown {
        assert(e.spec_wire() == s);
    }
}

/// How a source image is processed.
#[derive(Debug, Clone, Copy, PartialEq, Eq, Structural)]
pub enum SourceProcessing {
    Img2img,
    Inpainting,
    Outpainting,
    Remix,
    /// Any wire string that names none of the values above.
    Unknown,
}

impl SourceProcessing {
    /// The wire string of this value.
    pub open spec fn spec_wire(self) -> Seq<char> {
        match self {
            SourceProcessing::Img2img => "img2img"@,
            SourceProcessing::Inpainting => "inpainting"@,
            SourceProcessing::Outpainting => "outpainting"@,
            SourceProcessing::Remix => "remix"@,
            SourceProcessing::Unknown => "unknown"@,
        }
    }

    /// The value that a wire string decodes to: the first named value whose
    /// wire string it is, and the catch-all when there is none.
    pub open spec fn spec_from_wire(s: Seq<char>) -> SourceProcessing {
        if s == "img2img"@ {
            SourceProcessing::Img2img
        } else if s == "inpainting"@ {
            SourceProcessing::Inpainting
        } else if s == "outpainting"@ {
            SourceProcessing::Outpainting
        } else if s == "remix"@ {
            SourceProcessing::Remix
        } else {
            SourceProcessing::Unknown
        }
    }

    /// `s` is the wire string of a named value (not the catch-all).
    pub open spec fn is_known_wire(s: Seq<char>) -> bool {
        exists|e: SourceProcessing| e != SourceProcessing::Unknown && #[trigger] e.spec_wire() == s
    }

    /// Encodes this value as its wire string.
    pub fn as_str(&self) -> (r: &'static str)
        ensures
            r@ == self.spec_wire(),
    {
        match self {
            SourceProcessing::Img2img => "img2img",
            SourceProcessing::Inpainting => "inpainting",
            SourceProcessing::Outpainting => "outpainting",
            SourceProcessing::Remix => "remix",
            SourceProcessing::Unknown => "unknown",
        }
    }

    /// Decodes a wire string; a string that names no value gives `Unknown`.
    pub fn from_wire(s: &str) -> (r: SourceProcessing)
        ensures
            r == SourceProcessing::spec_from_wire(s@),
    {
        if same_text(s, "img2img") {
            return SourceProcessing::Img2img;
        }
        if same_text(s, "inpainting") {
            return SourceProcessing::Inpainting;
        }
        if same_text(s, "outpainting") {
            return SourceProcessing::Outpainting;
        }
        if same_text(s, "remix") {
            return SourceProcessing::Remix;
        }
        SourceProcessing::Unknown
    }
}

impl Default for SourceProcessing {
    fn default() -> (r: SourceProcessing)
        ensures
            r == SourceProcessing::Img2img,
    {
        SourceProcessing::Img2img
    }
}

/// Decoding never fails: a wire string of a named value decodes to a value
/// that encodes back to that very string, and any other string decodes to the
/// catch-all.
pub proof fn lemma_source_processing_wire(s: Seq<char>)
    ensures
        SourceProcessing::is_known_wire(s) ==> SourceProcessing::spec_from_wire(s).spec_wire() == s,
        !SourceProcessing::is_known_wire(s) ==> SourceProcessing::spec_from_wire(s) == SourceProcessing::Unknown,
{
    let e = SourceProcessing::spec_from_wire(s);
    if e != SourceProcessing::Unknown {
        assert(e.spec_wire() == s);
    }
}

/// The code of a warning about a submitted request.
#[derive(Debug, Clone, Copy, PartialEq, Eq, Structural)]
pub enum RequestWarningCode {
    NoAvailableWorker,
    ClipSkipMismatch,
    StepsTooFew,
    StepsTooMany,
    CfgScaleMismatch,
    CfgScaleTooSmall,
    CfgScaleTooLarge,
    SamplerMismatch,
    SchedulerMismatch,
    /// Any wire string that names none of the values above.
    Unknown,
}

impl RequestWarningCode {
    /// The wire string of this value.
    pub open spec fn spec_wire(self) -> Seq<char> {
        match self {
            RequestWarningCode::NoAvailableWorker => "NoAvailableWorker"@,
            RequestWarningCode::ClipSkipMismatch => "ClipSkipMismatch"@,
            RequestWarningCode::StepsTooFew => "StepsTooFew"@,
            RequestWarningCode::StepsTooMany => "StepsTooMany"@,
            RequestWarningCode::CfgScaleMismatch => "CfgScaleMismatch"@,
            RequestWarningCode::CfgScaleTooSmall => "CfgScaleTooSmall"@,
            RequestWarningCode::CfgScaleTooLarge => "CfgScaleTooLarge"@,
            RequestWarningCode::SamplerMismatch => "SamplerMismatch"@,
            RequestWarningCode::SchedulerMismatch => "SchedulerMismatch"@,
            RequestWarningCode::Unknown => "Unknown"@,
        }
    }

    /// The value that a wire string decodes to: the first named value whose
    /// wire string it is, and the catch-all when there is none.
    pub open spec fn spec_from_wire(s: Seq<char>) -> RequestWarningCode {
        if s == "NoAvailableWorker"@ {
            RequestWarningCode::NoAvailableWorker
        } else if s == "ClipSkipMismatch"@ {
            RequestWarningCode::ClipSkipMismatch
        } else if s == "StepsTooFew"@ {
            RequestWarningCode::StepsTooFew
        } else if s == "StepsTooMany"@ {
            RequestWarningCode::StepsTooMany
        } else if s == "CfgScaleMismatch"@ {
            RequestWarningCode::CfgScaleMismatch
        } else if s == "CfgScaleTooSmall"@ {
            RequestWarningCode::CfgScaleTooSmall
        } else if s == "CfgScaleTooLarge"@ {
            RequestWarningCode::CfgScaleTooLarge
        } else if s == "SamplerMismatch"@ {
            RequestWarningCode::SamplerMismatch
        } else if s == "SchedulerMismatch"@ {
            RequestWarningCode::SchedulerMismatch
        } else {
            RequestWarningCode::Unknown
        }
    }

    /// `s` is the wire string of a named value (not the catch-all).
    pub open spec fn is_known_wire(s: Seq<char>) -> bool {
        exists|e: RequestWarningCode| e != RequestWarningCode::Unknown && #[trigger] e.spec_wire() == s
    }

    /// Encodes this value as its wire string.
    pub fn as_str(&self) -> (r: &'static str)
        ensures
            r@ == self.spec_wire(),
    {
        match self {
            RequestWarningCode::NoAvailableWorker => "NoAvailableWorker",
            RequestWarningCode::ClipSkipMismatch => "ClipSkipMismatch",
            RequestWarningCode::StepsTooFew => "StepsTooFew",
            RequestWarningCode::StepsTooMany => "StepsTooMany",
            RequestWarningCode::CfgScaleMismatch => "CfgScaleMismatch",
            RequestWarningCode::CfgScaleTooSmall => "CfgScaleTooSmall",
            RequestWarningCode::CfgScaleTooLarge => "CfgScaleTooLarge",
            RequestWarningCode::SamplerMismatch => "SamplerMismatch",
            RequestWarningCode::SchedulerMismatch => "SchedulerMismatch",
            RequestWarningCode::Unknown => "Unknown",
        }
    }

    /// Decodes a wire string; a string that names no value gives `Unknown`.
    pub fn from_wire(s: &str) -> (r: RequestWarningCode)
        ensures
            r == RequestWarningCode::spec_from_wire(s@),
    {
        if same_text(s, "NoAvailableWorker") {
            return RequestWarningCode::NoAvailableWorker;
        }
        if same_text(s, "ClipSkipMismatch") {
            return RequestWarningCode::ClipSkipMismatch;
        }
        if same_text(s, "StepsTooFew") {
            return RequestWarningCode::StepsTooFew;
        }
        if same_text(s, "StepsTooMany") {
            return RequestWarningCode::StepsTooMany;
        }
        if same_text(s, "CfgScaleMismatch") {
            return RequestWarningCode::CfgScaleMismatch;
        }
        if same_text(s, "CfgScaleTooSmall") {
            return RequestWarningCode::CfgScaleTooSmall;
        }
        if same_text(s, "CfgScaleTooLarge") {
            return RequestWarningCode::CfgScaleTooLarge;
        }
        if same_text(s, "SamplerMismatch") {
            return RequestWarningCode::SamplerMismatch;
        }
        if same_text(s, "SchedulerMismatch") {
            return RequestWarningCode::SchedulerMismatch;
        }
        RequestWarningCode::Unknown
    }
}

/// Decoding never fails: a wire string of a named value decodes to a value
/// that encodes back to that very string, and any other string decodes to the
/// catch-all.
pub proof fn lemma_request_warning_code_wire(s: Seq<char>)
    ensures
        RequestWarningCode::is_known_wire(s) ==> RequestWarningCode::spec_from_wire(s).spec_wire() == s,
        !RequestWarningCode::is_known_wire(s) ==> RequestWarningCode::spec_from_wire(s) == RequestWarningCode::Unknown,
{
    let e = RequestWarningCode::spec_from_wire(s);
    if e != RequestWarningCode::Unknown {
        assert(e.spec_wire() == s);
    }
}

/// Where a textual inversion is injected.
#[derive(Debug, Clone, Copy, PartialEq, Eq, Structural)]
pub enum InjectTi {
    Prompt,
    Negprompt,
    /// Any wire string that names none of the values above.
    Unknown,
}

impl InjectTi {
    /// The wire string of this value.
    pub open spec fn spec_wire(self) -> Seq<char> {
        match self {
            InjectTi::Prompt => "prompt"@,
            InjectTi::Negprompt => "negprompt"@,
            InjectTi::Unknown => "unknown"@,
        }
    }

    /// The value that a wire string decodes to: the first named value whose
    /// wire string it is, and the catch-all when there is none.
    pub open spec fn spec_from_wire(s: Seq<char>) -> InjectTi {
        if s == "prompt"@ {
            InjectTi::Prompt
        } else if s == "negprompt"@ {
            InjectTi::Negprompt
        } else {
            InjectTi::Unknown
        }
    }

    /// `s` is the wire string of a named value (not the catch-all).
    pub open spec fn is_known_wire(s: Seq<char>) -> bool {
        exists|e: InjectTi| e != InjectTi::Unknown && #[trigger] e.spec_wire() == s
    }

    /// Encodes this value as its wire string.
    pub fn as_str(&self) -> (r: &'static str)
        ensures
            r@ == self.spec_wire(),
    {
        match self {
            InjectTi::Prompt => "prompt",
            InjectTi::Negprompt => "negprompt",
            InjectTi::Unknown => "unknown",
        }
    }

    /// Decodes a wire string; a string that names no value gives `Unknown`.
    pub fn from_wire(s: &str) -> (r: InjectTi)
        ensures
            r == InjectTi::spec_from_wire(s@),
    {
        if same_text(s, "prompt") {
            return InjectTi::Prompt;
        }
        if same_text(s, "negprompt") {
            return InjectTi::Negprompt;
        }
        InjectTi::Unknown
    }
}

impl Default for InjectTi {
    fn default() -> (r: InjectTi)
        ensures
            r == InjectTi::Prompt,
    {
        InjectTi::Prompt
    }
}

/// Decoding never fails: a wire string of a named value decodes to a value
/// that encodes back to that very string, and any other string decodes to the
/// catch-all.
pub proof fn lemma_inject_ti_wire(s: Seq<char>)
    ensures
        InjectTi::is_known_wire(s) ==> InjectTi::spec_from_wire(s).spec_wire() == s,
        !InjectTi::is_known_wire(s) ==> InjectTi::spec_from_wire(s) == InjectTi::Unknown,
{
    let e = InjectTi::spec_from_wire(s);
    if e != InjectTi::Unknown {
        assert(e.spec_wire() == s);
    }
}

/// The state of one generation: passed, or censored by the worker.
#[derive(Debug, Clone, Copy, PartialEq, Eq, Structural)]
pub enum GenerationState {
    /// Not censored; `ok` on the wire.
    Clean,
    Censored,
    /// Any wire string that names none of the values above.
    Unknown,
}

impl GenerationState {
    /// The wire string of this value.
    pub open spec fn spec_wire(self) -> Seq<char> {
        match self {
            GenerationState::Clean => "ok"@,
            GenerationState::Censored => "censored"@,
            GenerationState::Unknown => "unknown"@,
        }
    }

    /// The value that a wire string decodes to: the first named value whose
    /// wire string it is, and the catch-all when there is none.
    pub open spec fn spec_from_wire(s: Seq<char>) -> GenerationState {
        if s == "ok"@ {
            GenerationState::Clean
        } else if s == "censored"@ {
            GenerationState::Censored
        } else {
            GenerationState::Unknown
        }
    }

    /// `s` is the wire string of a named value (not the catch-all).
    pub open spec fn is_known_wire(s: Seq<char>) -> bool {
        exists|e: GenerationState| e != GenerationState::Unknown && #[trigger] e.spec_wire() == s
    }

    /// Encodes this value as its wire string.
    pub fn as_str(&self) -> (r: &'static str)
        ensures
            r@ == self.spec_wire(),
    {
        match self {
            GenerationState::Clean => "ok",
            GenerationState::Censored => "censored",
            GenerationState::Unknown => "unknown",
        }
    }

    /// Decodes a wire string; a string that names no value gives `Unknown`.
    pub fn from_wire(s: &str) -> (r: GenerationState)
        ensures
            r == GenerationState::spec_from_wire(s@),
    {
        if same_text(s, "ok") {
            return GenerationState::Clean;
        }
        if same_text(s, "censored") {
            return GenerationState::Censored;
        }
        GenerationState::Unknown
    }
}

impl Default for GenerationState {
    fn default() -> (r: GenerationState)
        ensures
            r == GenerationState::Clean,
    {
        GenerationState::Clean
    }
}

/// Decoding never fails: a wire string of a named value decodes to a value
/// that encodes back to that very string, and any other string decodes to the
/// catch-all.
pub proof fn lemma_generation_state_wire(s: Seq<char>)
    ensures
        GenerationState::is_known_wire(s) ==> GenerationState::spec_from_wire(s).spec_wire() == s,
        !GenerationState::is_known_wire(s) ==> GenerationState::spec_from_wire(s) == GenerationState::Unknown,
{
    let e = GenerationState::spec_from_wire(s);
    if e != GenerationState::Unknown {
        assert(e.spec_wire() == s);
    }
}

/// What a metadata tag of a generation is about.
#[derive(Debug, Clone, Copy, PartialEq, Eq, Structural)]
pub enum MetadataType {
    Lora,
    Ti,
    Censorship,
    SourceImage,
    SourceMask,
    ExtraSourceImages,
    BatchIndex,
    Information,
    /// Any wire string that names none of the values above.
    Unknown,
}

impl MetadataType {
    /// The wire string of this value.
    pub open spec fn spec_wire(self) -> Seq<char> {
        match self {
            MetadataType::Lora => "lora"@,
            MetadataType::Ti => "ti"@,
            MetadataType::Censorship => "censorship"@,
            MetadataType::SourceImage => "source_image"@,
            MetadataType::SourceMask => "source_mask"@,
            MetadataType::ExtraSourceImages => "extra_source_images"@,
            MetadataType::BatchIndex => "batch_index"@,
            MetadataType::Information => "information"@,
            MetadataType::Unknown => "unknown"@,
        }
    }

    /// The value that a wire string decodes to: the first named value whose
    /// wire string it is, and the catch-all when there is none.
    pub open spec fn spec_from_wire(s: Seq<char>) -> MetadataType {
        if s == "lora"@ {
            MetadataType::Lora
        } else if s == "ti"@ {
            MetadataType::Ti
        } else if s == "censorship"@ {
            MetadataType::Censorship
        } else if s == "source_image"@ {
            MetadataType::SourceImage
        } else if s == "source_mask"@ {
            MetadataType::SourceMask
        } else if s == "extra_source_images"@ {
            MetadataType::ExtraSourceImages
        } else if s == "batch_index"@ {
            MetadataType::BatchIndex
        } else if s == "information"@ {
            MetadataType::Information
        } else {
            MetadataType::Unknown
        }
    }

    /// `s` is the wire string of a named value (not the catch-all).
    pub open spec fn is_known_wire(s: Seq<char>) -> bool {
        exists|e: MetadataType| e != MetadataType::Unknown && #[trigger] e.spec_wire() == s
    }

    /// Encodes this value as its wire string.
    pub fn as_str(&self) -> (r: &'static str)
        ensures
            r@ == self.spec_wire(),
    {
        match self {
            MetadataType::Lora => "lora",
            MetadataType::Ti => "ti",
            MetadataType::Censorship => "censorship",
            MetadataType::SourceImage => "source_image",
            MetadataType::SourceMask => "source_mask",
            MetadataType::ExtraSourceImages => "extra_source_images",
            MetadataType::BatchIndex => "batch_index",
            MetadataType::Information => "information",
            MetadataType::Unknown => "unknown",
        }
    }

    /// Decodes a wire string; a string that names no value gives `Unknown`.
    pub fn from_wire(s: &str) -> (r: MetadataType)
        ensures
            r == MetadataType::spec_from_wire(s@),
    {
        if same_text(s, "lora") {
            return MetadataType::Lora;
        }
        if same_text(s, "ti") {
            return MetadataType::Ti;
        }
        if same_text(s, "censorship") {
            return MetadataType::Censorship;
        }
        if same_text(s, "source_image") {
            return MetadataType::SourceImage;
        }
        if same_text(s, "source_mask") {
            return MetadataType::SourceMask;
        }
        if same_text(s, "extra_source_images") {
            return MetadataType::ExtraSourceImages;
        }
        if same_text(s, "batch_index") {
            return MetadataType::BatchIndex;
        }
        if same_text(s, "information") {
            return MetadataType::Information;
        }
        MetadataType::Unknown
    }
}

impl Default for MetadataType {
    fn default() -> (r: MetadataType)
        ensures
            r == MetadataType::Lora,
    {
        MetadataType::Lora
    }
}

/// Decoding never fails: a wire string of a named value decodes to a value
/// that encodes back to that very string, and any other string decodes to the
/// catch-all.
pub proof fn lemma_metadata_type_wire(s: Seq<char>)
    ensures
        MetadataType::is_known_wire(s) ==> MetadataType::spec_from_wire(s).spec_wire() == s,
        !MetadataType::is_known_wire(s) ==> MetadataType::spec_from_wire(s) == MetadataType::Unknown,
{
    let e = MetadataType::spec_from_wire(s);
    if e != MetadataType::Unknown {
        assert(e.spec_wire() == s);
    }
}

/// What a metadata tag of a generation reports.
#[derive(Debug, Clone, Copy, PartialEq, Eq, Structural)]
pub enum MetadataValue {
    DownloadFailed,
    ParseFailed,
    BaselineMismatch,
    Csam,
    Nsfw,
    SeeRef,
    /// Any wire string that names none of the values above.
    Unknown,
}

impl MetadataValue {
    /// The wire string of this value.
    pub open spec fn spec_wire(self) -> Seq<char> {
        match self {
            MetadataValue::DownloadFailed => "download_failed"@,
            MetadataValue::ParseFailed => "parse_failed"@,
            MetadataValue::BaselineMismatch => "baseline_mismatch"@,
            MetadataValue::Csam => "csam"@,
            MetadataValue::Nsfw => "nsfw"@,
            MetadataValue::SeeRef => "see_ref"@,
            MetadataValue::Unknown => "unknown"@,
        }
    }

    /// The value that a wire string decodes to: the first named value whose
    /// wire string it is, and the catch-all when there is none.
    pub open spec fn spec_from_wire(s: Seq<char>) -> MetadataValue {
        if s == "download_failed"@ {
            MetadataValue::DownloadFailed
        } else if s == "parse_failed"@ {
            MetadataValue::ParseFailed
        } else if s == "baseline_mismatch"@ {
            MetadataValue::BaselineMismatch
        } else if s == "csam"@ {
            MetadataValue::Csam
        } else if s == "nsfw"@ {
            MetadataValue::Nsfw
        } else if s == "see_ref"@ {
            MetadataValue::SeeRef
        } else {
            MetadataValue::Unknown
        }
    }

    /// `s` is the wire string of a named value (not the catch-all).
    pub open spec fn is_known_wire(s: Seq<char>) -> bool {
        exists|e: MetadataValue| e != MetadataValue::Unknown && #[trigger] e.spec_wire() == s
    }

    /// Encodes this value as its wire string.
    pub fn as_str(&self) -> (r: &'static str)
        ensures
            r@ == self.spec_wire(),
    {
        match self {
            MetadataValue::DownloadFailed => "download_failed",
            MetadataValue::ParseFailed => "parse_failed",
            MetadataValue::BaselineMismatch => "baseline_mismatch",
            MetadataValue::Csam => "csam",
            MetadataValue::Nsfw => "nsfw",
            MetadataValue::SeeRef => "see_ref",
            MetadataValue::Unknown => "unknown",
        }
    }

    /// Decodes a wire string; a string that names no value gives `Unknown`.
    pub fn from_wire(s: &str) -> (r: MetadataValue)
        ensures
            r == MetadataValue::spec_from_wire(s@),
    {
        if same_text(s, "download_failed") {
            return MetadataValue::DownloadFailed;
        }
        if same_text(s, "parse_failed") {
            return MetadataValue::ParseFailed;
        }
        if same_text(s, "baseline_mismatch") {
            return MetadataValue::BaselineMismatch;
        }
        if same_text(s, "csam") {
            return MetadataValue::Csam;
        }
        if same_text(s, "nsfw") {
            return MetadataValue::Nsfw;
        }
        if same_text(s, "see_ref") {
            return MetadataValue::SeeRef;
        }
        MetadataValue::Unknown
    }
}

impl Default for MetadataValue {
    fn default() -> (r: MetadataValue)
        ensures
            r == MetadataValue::DownloadFailed,
    {
        MetadataValue::DownloadFailed
    }
}

/// Decoding never fails: a wire string of a named value decodes to a value
/// that encodes back to that very string, and any other string decodes to the
/// catch-all.
pub proof fn lemma_metadata_value_wire(s: Seq<char>)
    ensures
        MetadataValue::is_known_wire(s) ==> MetadataValue::spec_from_wire(s).spec_wire() == s,
        !MetadataValue::is_known_wire(s) ==> MetadataValue::spec_from_wire(s) == MetadataValue::Unknown,
{
    let e = MetadataValue::spec_from_wire(s);
    if e != MetadataValue::Unknown {
        assert(e.spec_wire() == s);
    }
}

/// A kind of image interrogation or alchemy form.
#[derive(Debug, Clone, Copy, PartialEq, Eq, Structural)]
pub enum InterrogationType {
    Caption,
    Interrogation,
    Nsfw,
    StripBackground,
    RealEsrganX4plus,
    RealEsrganX2plus,
    Gfpgan,
    Codeformers,
    RealEsrganX4plusAnime6B,
    NmkdSiax,
    FourXAnimeSharp,
    /// Any wire string that names none of the values above.
    Unknown,
}

impl InterrogationType {
    /// The wire string of this value.
    pub open spec fn spec_wire(self) -> Seq<char> {
        match self {
            InterrogationType::Caption => "caption"@,
            InterrogationType::Interrogation => "interrogation"@,
            InterrogationType::Nsfw => "nsfw"@,
            InterrogationType::StripBackground => "strip_background"@,
            InterrogationType::RealEsrganX4plus => "RealESRGAN_x4plus"@,
            InterrogationType::RealEsrganX2plus => "RealESRGAN_x2plus"@,
            InterrogationType::Gfpgan => "GFPGAN"@,
            InterrogationType::Codeformers => "CodeFormers"@,
            InterrogationType::RealEsrganX4plusAnime6B => "RealESRGAN_x4plus_anime_6B"@,
            InterrogationType::NmkdSiax => "NMKD_Siax"@,
            InterrogationType::FourXAnimeSharp => "4x_AnimeSharp"@,
            InterrogationType::Unknown => "unknown"@,
        }
    }

    /// The value that a wire string decodes to: the first named value whose
    /// wire string it is, and the catch-all when there is none.
    pub open spec fn spec_from_wire(s: Seq<char>) -> InterrogationType {
        if s == "caption"@ {
            InterrogationType::Caption
        } else if s == "interrogation"@ {
            InterrogationType::Interrogation
        } else if s == "nsfw"@ {
            InterrogationType::Nsfw
        } else if s == "strip_background"@ {
            InterrogationType::StripBackground
        } else if s == "RealESRGAN_x4plus"@ {
            InterrogationType::RealEsrganX4plus
        } else if s == "RealESRGAN_x2plus"@ {
            InterrogationType::RealEsrganX2plus
        } else if s == "GFPGAN"@ {
            InterrogationType::Gfpgan
        } else if s == "CodeFormers"@ {
            InterrogationType::Codeformers
        } else if s == "RealESRGAN_x4plus_anime_6B"@ {
            InterrogationType::RealEsrganX4plusAnime6B
        } else if s == "NMKD_Siax"@ {
            InterrogationType::NmkdSiax
        } else if s == "4x_AnimeSharp"@ {
            InterrogationType::FourXAnimeSharp
        } else {
            InterrogationType::Unknown
        }
    }

    /// `s` is the wire string of a named value (not the catch-all).
    pub open spec fn is_known_wire(s: Seq<char>) -> bool {
        exists|e: InterrogationType| e != InterrogationType::Unknown && #[trigger] e.spec_wire() == s
    }

    /// Encodes this value as its wire string.
    pub fn as_str(&self) -> (r: &'static str)
        ensures
            r@ == self.spec_wire(),
    {
        match self {
            InterrogationType::Caption => "caption",
            InterrogationType::Interrogation => "interrogation",
            InterrogationType::Nsfw => "nsfw",
            InterrogationType::StripBackground => "strip_background",
            InterrogationType::RealEsrganX4plus => "RealESRGAN_x4plus",
            InterrogationType::RealEsrganX2plus => "RealESRGAN_x2plus",
            InterrogationType::Gfpgan => "GFPGAN",
            InterrogationType::Codeformers => "CodeFormers",
            InterrogationType::RealEsrganX4plusAnime6B => "RealESRGAN_x4plus_anime_6B",
            InterrogationType::NmkdSiax => "NMKD_Siax",
            InterrogationType::FourXAnimeSharp => "4x_AnimeSharp",
            InterrogationType::Unknown => "unknown",
        }
    }

    /// Decodes a wire string; a string that names no value gives `Unknown`.
    pub fn from_wire(s: &str) -> (r: InterrogationType)
        ensures
            r == InterrogationType::spec_from_wire(s@),
    {
        if same_text(s, "caption") {
            return InterrogationType::Caption;
        }
        if same_text(s, "interrogation") {
            return InterrogationType::Interrogation;
        }
        if same_text(s, "nsfw") {
            return InterrogationType::Nsfw;
        }
        if same_text(s, "strip_background") {
            return InterrogationType::StripBackground;
        }
        if same_text(s, "RealESRGAN_x4plus") {
            return InterrogationType::RealEsrganX4plus;
        }
        if same_text(s, "RealESRGAN_x2plus") {
            return InterrogationType::RealEsrganX2plus;
        }
        if same_text(s, "GFPGAN") {
            return InterrogationType::Gfpgan;
        }
        if same_text(s, "CodeFormers") {
            return InterrogationType::Codeformers;
        }
        if same_text(s, "RealESRGAN_x4plus_anime_6B") {
            return InterrogationType::RealEsrganX4plusAnime6B;
        }
        if same_text(s, "NMKD_Siax") {
            return InterrogationType::NmkdSiax;
        }
        if same_text(s, "4x_AnimeSharp") {
            return InterrogationType::FourXAnimeSharp;
        }
        InterrogationType::Unknown
    }
}

impl Default for InterrogationType {
    fn default() -> (r: InterrogationType)
        ensures
            r == InterrogationType::Caption,
    {
        InterrogationType::Caption
    }
}

/// Decoding never fails: a wire string of a named value decodes to a value
/// that encodes back to that very string, and any other string decodes to the
/// catch-all.
pub proof fn lemma_interrogation_type_wire(s: Seq<char>)
    ensures
        InterrogationType::is_known_wire(s) ==> InterrogationType::spec_from_wire(s).spec_wire() == s,
        !InterrogationType::is_known_wire(s) ==> InterrogationType::spec_from_wire(s) == InterrogationType::Unknown,
{
    let e = InterrogationType::spec_from_wire(s);
    if e != InterrogationType::Unknown {
        assert(e.spec_wire() == s);
    }
}

/// The category of a model: image or text.
#[derive(Debug, Clone, Copy, PartialEq, Eq, Structural)]
pub enum ModelType {
    Image,
    Text,
    /// Any wire string that names none of the values above.
    Unknown,
}

impl ModelType {
    /// The wire string of this value.
    pub open spec fn spec_wire(self) -> Seq<char> {
        match self {
            ModelType::Image => "image"@,
            ModelType::Text => "text"@,
            ModelType::Unknown => "unknown"@,
        }
    }

    /// The value that a wire string decodes to: the first named value whose
    /// wire string it is, and the catch-all when there is none.
    pub open spec fn spec_from_wire(s: Seq<char>) -> ModelType {
        if s == "image"@ {
            ModelType::Image
        } else if s == "text"@ {
            ModelType::Text
        } else {
            ModelType::Unknown
        }
    }

    /// `s` is the wire string of a named value (not the catch-all).
    pub open spec fn is_known_wire(s: Seq<char>) -> bool {
        exists|e: ModelType| e != ModelType::Unknown && #[trigger] e.spec_wire() == s
    }

    /// Encodes this value as its wire string.
    pub fn as_str(&self) -> (r: &'static str)
        ensures
            r@ == self.spec_wire(),
    {
        match self {
            ModelType::Image => "image",
            ModelType::Text => "text",
            ModelType::Unknown => "unknown",
        }
    }

    /// Decodes a wire string; a string that names no value gives `Unknown`.
    pub fn from_wire(s: &str) -> (r: ModelType)
        ensures
            r == ModelType::spec_from_wire(s@),
    {
        if same_text(s, "image") {
            return ModelType::Image;
        }
        if same_text(s, "text") {
            return ModelType::Text;
        }
        ModelType::Unknown
    }
}

impl Default for ModelType {
    fn default() -> (r: ModelType)
        ensures
            r == ModelType::Image,
    {
        ModelType::Image
    }
}

/// Decoding never fails: a wire string of a named value decodes to a value
/// that encodes back to that very string, and any other string decodes to the
/// catch-all.
pub proof fn lemma_model_type_wire(s: Seq<char>)
    ensures
        ModelType::is_known_wire(s) ==> ModelType::spec_from_wire(s).spec_wire() == s,
        !ModelType::is_known_wire(s) ==> ModelType::spec_from_wire(s) == ModelType::Unknown,
{
    let e = ModelType::spec_from_wire(s);
    if e != ModelType::Unknown {
        assert(e.spec_wire() == s);
    }
}

/// The category of a style: image or text.
#[derive(Debug, Clone, Copy, PartialEq, Eq, Structural)]
pub enum StyleType {
    Image,
    Text,
    /// Any wire string that names none of the values above.
    Unknown,
}

impl StyleType {
    /// The wire string of this value.
    pub open spec fn spec_wire(self) -> Seq<char> {
        match self {
            StyleType::Image => "image"@,
            StyleType::Text => "text"@,
            StyleType::Unknown => "unknown"@,
        }
    }

    /// The value that a wire string decodes to: the first named value whose
    /// wire string it is, and the catch-all when there is none.
    pub open spec fn spec_from_wire(s: Seq<char>) -> StyleType {
        if s == "image"@ {
            StyleType::Image
        } else if s == "text"@ {
            StyleType::Text
        } else {
            StyleType::Unknown
        }
    }

    /// `s` is the wire string of a named value (not the catch-all).
    pub open spec fn is_known_wire(s: Seq<char>) -> bool {
        exists|e: StyleType| e != StyleType::Unknown && #[trigger] e.spec_wire() == s
    }

    /// Encodes this value as its wire string.
    pub fn as_str(&self) -> (r: &'static str)
        ensures
            r@ == self.spec_wire(),
    {
        match self {
            StyleType::Image => "image",
            StyleType::Text => "text",
            StyleType::Unknown => "unknown",
        }
    }

    /// Decodes a wire string; a string that names no value gives `Unknown`.
    pub fn from_wire(s: &str) -> (r: StyleType)
        ensures
            r == StyleType::spec_from_wire(s@),
    {
        if same_text(s, "image") {
            return StyleType::Image;
        }
        if same_text(s, "text") {
            return StyleType::Text;
        }
        StyleType::Unknown
    }
}

impl Default for StyleType {
    fn default() -> (r: StyleType)
        ensures
            r == StyleType::Image,
    {
        StyleType::Image
    }
}

/// Decoding never fails: a wire string of a named value decodes to a value
/// that encodes back to that very string, and any other string decodes to the
/// catch-all.
pub proof fn lemma_style_type_wire(s: Seq<char>)
    ensures
        StyleType::is_known_wire(s) ==> StyleType::spec_from_wire(s).spec_wire() == s,
        !StyleType::is_known_wire(s) ==> StyleType::spec_from_wire(s) == StyleType::Unknown,
{
    let e = StyleType::spec_from_wire(s);
    if e != StyleType::Unknown {
        assert(e.spec_wire() == s);
    }
}

/// Which models a model listing covers: known, custom or all.
#[derive(Debug, Clone, Copy, PartialEq, Eq, Structural)]
pub enum ModelState {
    Known,
    Custom,
    All,
    /// Any wire string that names none of the values above.
    Unknown,
}

impl ModelState {
    /// The wire string of this value.
    pub open spec fn spec_wire(self) -> Seq<char> {
        match self {
            ModelState::Known => "known"@,
            ModelState::Custom => "custom"@,
            ModelState::All => "all"@,
            ModelState::Unknown => "unknown"@,
        }
    }

    /// The value that a wire string decodes to: the first named value whose
    /// wire string it is, and the catch-all when there is none.
    pub open spec fn spec_from_wire(s: Seq<char>) -> ModelState {
        if s == "known"@ {
            ModelState::Known
        } else if s == "custom"@ {
            ModelState::Custom
        } else if s == "all"@ {
            ModelState::All
        } else {
            ModelState::Unknown
        }
    }

    /// `s` is the wire string of a named value (not the catch-all).
    pub open spec fn is_known_wire(s: Seq<char>) -> bool {
        exists|e: ModelState| e != ModelState::Unknown && #[trigger] e.spec_wire() == s
    }

    /// Encodes this value as its wire string.
    pub fn as_str(&self) -> (r: &'static str)
        ensures
            r@ == self.spec_wire(),
    {
        match self {
            ModelState::Known => "known",
            ModelState::Custom => "custom",
            ModelState::All => "all",
            ModelState::Unknown => "unknown",
        }
    }

    /// Decodes a wire string; a string that names no value gives `Unknown`.
    pub fn from_wire(s: &str) -> (r: ModelState)
        ensures
            r == ModelState::spec_from_wire(s@),
    {
        if same_text(s, "known") {
            return ModelState::Known;
        }
        if same_text(s, "custom") {
            return ModelState::Custom;
        }
        if same_text(s, "all") {
            return ModelState::All;
        }
        ModelState::Unknown
    }
}

impl Default for ModelState {
    fn default() -> (r: ModelState)
        ensures
            r == ModelState::Known,
    {
        ModelState::Known
    }
}

/// Decoding never fails: a wire string of a named value decodes to a value
/// that encodes back to that very string, and any other string decodes to the
/// catch-all.
pub proof fn lemma_model_state_wire(s: Seq<char>)
    ensures
        ModelState::is_known_wire(s) ==> ModelState::spec_from_wire(s).spec_wire() == s,
        !ModelState::is_known_wire(s) ==> ModelState::spec_from_wire(s) == ModelState::Unknown,
{
    let e = ModelState::spec_from_wire(s);
    if e != ModelState::Unknown {
        assert(e.spec_wire() == s);
    }
}

} // verus!
