use vstd::prelude::*;

use crate::status::StatusCode;

verus! {

/// The rendered error response: a status from the standard range and a
/// plain-text body. Its view is the pair of the numeric status and the body
/// text.
pub struct ErrorResponse {
    /// The response's HTTP status.
    pub status: StatusCode,
    /// The response's text body.
    pub body: String,
}

impl View for ErrorResponse {
    type V = (u16, Seq<char>);

    open spec fn view(&self) -> (u16, Seq<char>) {
        (self.status@, self.body@)
    }
}

/// The capability outputs of an erased error: all that remains of a value
/// once its concrete type is gone, and all a rendering strategy may read.
pub struct ErasedHttpError {
    /// The status the error reports.
    pub status: StatusCode,
    /// The client-facing reason.
    pub reason: String,
    /// The operator-facing diagnostic record.
    pub log_record: String,
    /// The label of the erased concrete type.
    pub type_label: String,
    /// The error's display text.
    pub display_text: String,
    /// The error's debug text.
    pub debug_text: String,
}

/// A rendering strategy: a pure function from an erased error to a response.
/// The strategy is chosen by a type parameter at construction time, never at
/// request time.
///
/// A strategy keeps the error's status and computes the body from the
/// capability's public outputs alone — status, reason and type label.
pub trait IntoHttpErrorResponse {
    /// The body this strategy produces.
    spec fn spec_body(status: u16, reason: Seq<char>, type_label: Seq<char>) -> Seq<char>;

    /// Renders the erased error into a response with the error's own status
    /// and this strategy's body.
    fn into_response(error: ErasedHttpError) -> (r: ErrorResponse)
        ensures
            r.status == error.status,
            r.body@ == Self::spec_body(error.status@, error.reason@, error.type_label@),
    ;
}

/// The default rendering strategy: the reason text is the whole body and the
/// error's status is the response status.
pub struct TextErrorResponse;

impl IntoHttpErrorResponse for TextErrorResponse {
    open spec fn spec_body(status: u16, reason: Seq<char>, type_label: Seq<char>) -> Seq<char> {
        reason
    }

    fn into_response(error: ErasedHttpError) -> ErrorResponse {
        ErrorResponse { status: error.status, body: error.reason }
    }
}

} // verus!
