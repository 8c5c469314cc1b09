//! Translation of application-level errors into HTTP responses.
//!
//! Request-handling code returns ordinary error values; this library turns
//! each one into exactly one well-formed response. A capability interface
//! ([`HttpError`]) states what an error must expose — status, reason, a
//! diagnostic log record, a type label. A one-shot container
//! ([`DynHttpError`]) owns exactly one such error with its concrete type
//! erased and renders it exactly once, through a rendering strategy chosen
//! by a type parameter ([`IntoHttpErrorResponse`], default
//! [`TextErrorResponse`]). Opaque chained errors with no HTTP semantics of
//! their own are lifted into the capability by an adapter
//! ([`AnyhowHttpError`]), with an optional explicit status and a
//! detail-hiding mode that suppresses client-facing text without shrinking
//! what is logged.

mod adapter;
mod capability;
mod config;
mod container;
mod response;
mod status;
mod wire;

pub use adapter::adapter_type_label;
pub use adapter::hidden_detail_reason;
pub use adapter::lemma_adapter_reason;
pub use adapter::lemma_assigned_status_reported;
pub use adapter::lemma_hide_detail_does_not_shrink_log;
pub use adapter::AnyhowHttpError;
pub use adapter::AnyhowStatusExt;
pub use capability::default_log_record;
pub use capability::default_status;
pub use capability::lemma_basic_reason_is_display;
pub use capability::make_default_log_record;
pub use capability::BasicHttpError;
pub use capability::HttpError;
pub use config::ErrorConfig;
pub use container::lemma_debug_representation_stable;
pub use container::DynHttpError;
pub use container::HttpResult;
pub use container::RenderedError;
pub use response::ErasedHttpError;
pub use response::ErrorResponse;
pub use response::IntoHttpErrorResponse;
pub use response::TextErrorResponse;
pub use status::StatusCode;
