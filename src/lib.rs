//! A typed client library for the AI Horde, a crowd-sourced image and text
//! generation service.
//!
//! The library decides what each call sends (`client`) and how each answer is
//! classified (`response`); the enumerated vocabularies (`enums`) decode any
//! wire string, falling back to a catch-all for values that they do not know.
pub mod client;
pub mod enums;
pub mod errors;
pub mod models;
pub mod response;
pub mod text;

pub use client::{AihordeClient, ApiRequest, HttpMethod};
pub use enums::{
    ControlType, GenerationState, InjectTi, InterrogationType, MetadataType, MetadataValue,
    ModelState, ModelType, PostProcessing, RequestErrorCode, RequestWarningCode, SamplerName,
    SourceProcessing, StyleType, Workflow,
};
pub use errors::AihordeError;
pub use models::{
    ExtraText, GenerationMetadataStable, GenerationStable, MonthlyKudos, RequestSingleWarning,
    ResponseModelStylesUser, UserActiveGenerations, UserAmountRecords, UtcTimestamp,
    ValidationError,
};
