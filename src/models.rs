//! Records exchanged with the service. Every optional field that is `None` is
//! left out of the wire form.
use vstd::prelude::*;
use crate::enums::{
    GenerationState, MetadataType, MetadataValue, RequestErrorCode, RequestWarningCode,
    StyleType,
};

verus! {

/// The error envelope that the service sends with a failure status.
#[derive(Debug, PartialEq, Clone, Default)]
pub struct ValidationError {
    pub message: Option<String>,
    pub rc: RequestErrorCode,
}

/// A style that a user owns.
#[derive(Debug, PartialEq, Clone, Default)]
pub struct ResponseModelStylesUser {
    pub name: Option<String>,
    pub id: Option<String>,
    pub style_type: Option<StyleType>,
}

/// The identifiers of a user's generations in flight, by kind.
#[derive(Debug, PartialEq, Clone, Default)]
pub struct UserActiveGenerations {
    pub text: Option<Vec<String>>,
    pub image: Option<Vec<String>>,
    pub alchemy: Option<Vec<String>>,
}

/// An instant in UTC: whole seconds since the Unix epoch and the nanoseconds
/// past that second.
#[derive(Debug, PartialEq, Eq, Clone, Copy, Default, Structural)]
pub struct UtcTimestamp {
    pub seconds: i64,
    pub nanos: u32,
}

impl UtcTimestamp {
    /// The nanoseconds lie within one second.
    pub open spec fn wf(self) -> bool {
        self.nanos < 1_000_000_000
    }

    /// The instant `seconds` after the epoch, plus `nanos` nanoseconds;
    /// `None` when `nanos` is a second or more.
    pub fn new(seconds: i64, nanos: u32) -> (r: Option<UtcTimestamp>)
        ensures
            nanos < 1_000_000_000 <==> r.is_some(),
            r.is_some() ==> r.unwrap().wf() && r.unwrap().seconds == seconds
                && r.unwrap().nanos == nanos,
    {
        if nanos < 1_000_000_000 {
            Some(UtcTimestamp { seconds, nanos })
        } else {
            None
        }
    }
}

/// The kudos that a user receives every month.
#[derive(Debug, PartialEq, Clone, Default)]
pub struct MonthlyKudos {
    pub amount: Option<u64>,
    pub last_received: Option<UtcTimestamp>,
}

/// Counts of a user's requests or fulfilments, by kind.
#[derive(Debug, PartialEq, Clone, Default)]
pub struct UserAmountRecords {
    pub image: Option<u64>,
    pub text: Option<u64>,
    pub interrogation: Option<u64>,
}

/// Extra text sent along with a generation.
#[derive(Debug, PartialEq, Clone, Default)]
pub struct ExtraText {
    /// The extra text to send along with this generation.
    pub text: Option<String>,
    /// The reference which points how and where this text should be used.
    pub reference: Option<String>,
}

/// Something about a request that the caller should be aware of.
#[derive(Debug, PartialEq, Clone, Default)]
pub struct RequestSingleWarning {
    /// A unique identifier for this warning.
    pub code: Option<RequestWarningCode>,
    /// The warning in plain text.
    pub message: Option<String>,
}

/// One metadata tag of a generation. On the wire its fields are named
/// `type`, `value` and `ref`.
#[derive(Debug, PartialEq, Clone, Default)]
pub struct GenerationMetadataStable {
    /// The relevance of the metadata field.
    pub metadata_type: MetadataType,
    /// The value of the metadata field.
    pub metadata_value: MetadataValue,
    /// Optionally a reference for the metadata (e.g. a LoRA ID).
    pub metadata_ref: Option<String>,
}

/// One finished generation.
#[derive(Debug, PartialEq, Clone, Default)]
pub struct GenerationStable {
    /// The UUID of the worker which generated this image.
    pub worker_id: Option<String>,
    /// The name of the worker which generated this image.
    pub worker_name: Option<String>,
    /// The model which generated this image.
    pub model: Option<String>,
    /// Obsolete (see `gen_metadata`): the state of this generation.
    pub state: GenerationState,
    /// The generated image as a Base64-encoded .webp file, or its download URL.
    pub img: Option<String>,
    /// The seed which generated this image.
    pub seed: Option<String>,
    /// The ID of this image.
    pub id: Option<String>,
    /// True when the worker's safety filter censored this image.
    pub censored: Option<bool>,
    pub gen_metadata: Option<Vec<GenerationMetadataStable>>,
}

} // verus!
