use vstd::prelude::*;

use crate::config::ErrorConfig;
use crate::container::DynHttpError;
use crate::response::IntoHttpErrorResponse;

verus! {

/// The host framework's response type, carried through this library as an
/// opaque value.
#[verifier::external_type_specification]
#[verifier::external_body]
#[verifier::reject_recursive_types(B)]
pub struct ExHttpResponse<B>(http::Response<B>);

/// The host framework's response body type, carried as an opaque value.
#[verifier::external_type_specification]
#[verifier::external_body]
pub struct ExAxumBody(axum_core::body::Body);

/// Relies on axum_core's IntoResponse for (http::StatusCode, String): the
/// response takes the given numeric status, and the string becomes its
/// UTF-8 plain-text body. http::StatusCode::from_u16 accepts every status in
/// 100..=599, the only values this library's status type can hold.
#[verifier::external_body]
fn build_wire_response(status: u16, body: String) -> axum_core::response::Response
    requires
        100 <= status <= 599,
{
    let status = match http::StatusCode::from_u16(status) {
        Ok(status) => status,
        Err(_) => http::StatusCode::INTERNAL_SERVER_ERROR,
    };
    axum_core::response::IntoResponse::into_response((status, body))
}

impl<I: IntoHttpErrorResponse> DynHttpError<I> {
    /// Consumes the container into the host framework's response — the one
    /// render it ever gets. The wire response is built by the framework from
    /// the rendered status and body; beside it stands the diagnostic record,
    /// present exactly when logging is enabled, for the caller to hand to the
    /// log sink.
    pub fn into_response(self, config: &ErrorConfig) -> (r: (
        axum_core::response::Response,
        Option<String>,
    ))
        ensures
            config.enable_logging ==> (r.1 matches Some(s) && s@ == self.spec_log_record()),
            !config.enable_logging ==> r.1 is None,
    {
        let rendered = self.render(config);
        let status = rendered.response.status.as_u16();
        (build_wire_response(status, rendered.response.body), rendered.log_record)
    }
}

} // verus!
