use vstd::prelude::*;
use vstd::string::StringExecFns;

use crate::capability::default_log_record;
use crate::capability::default_status;
use crate::capability::make_default_log_record;
use crate::capability::HttpError;
use crate::config::ErrorConfig;
use crate::container::DynHttpError;
use crate::response::IntoHttpErrorResponse;
use crate::status::StatusCode;

verus! {

/// The opaque chained error type of the anyhow crate, carried through this
/// library as an opaque value.
#[verifier::external_type_specification]
#[verifier::external_body]
pub struct ExAnyhowError(anyhow::Error);

/// Relies on anyhow::Error's Display rendering: the message of the outermost
/// error of the chain.
#[verifier::external_body]
fn anyhow_display_text(error: &anyhow::Error) -> String {
    format!("{error}")
}

/// Relies on anyhow::Error's Debug rendering: the outermost message followed
/// by the message of every cause in the chain, and a backtrace where one was
/// captured.
#[verifier::external_body]
fn anyhow_debug_text(error: &anyhow::Error) -> String {
    format!("{error:?}")
}

/// The fixed reason shown for adapter-wrapped errors while detail hiding is
/// on.
pub open spec fn hidden_detail_reason() -> Seq<char> {
    "Server error"@
}

/// The label the adapter reports: the adapter itself is the erased type, not
/// the error it wraps.
pub open spec fn adapter_type_label() -> Seq<char> {
    "AnyhowHttpError"@
}

/// Lifts an opaque chained error — one with no HTTP semantics of its own —
/// into the [`HttpError`] capability.
///
/// The status is assigned at wrap time, 500 unless an explicit override is
/// given, and is immutable thereafter. With detail hiding on, the reason is
/// the fixed text "Server error" whatever the wrapped error holds; the
/// diagnostic record always carries the full texts, so hiding never shrinks
/// what is logged.
pub struct AnyhowHttpError {
    display_text: String,
    debug_text: String,
    status: StatusCode,
    hide_detail: bool,
}

impl AnyhowHttpError {
    /// The status assigned at wrap time.
    pub closed spec fn spec_assigned_status(&self) -> u16 {
        self.status@
    }

    /// Whether this wrap hides detail from the client.
    pub closed spec fn spec_hides_detail(&self) -> bool {
        self.hide_detail
    }

    /// Builds the adapter from the texts read off a wrapped error. The
    /// capability outputs are exact functions of these parts: the reason is
    /// the display text, or the fixed hidden-detail text while hiding is on;
    /// the diagnostic record is the default record over both texts.
    pub fn from_parts(
        display_text: String,
        debug_text: String,
        status: StatusCode,
        hide_detail: bool,
    ) -> (r: Self)
        ensures
            r.spec_status() == status@,
            r.spec_hides_detail() == hide_detail,
            r.spec_display_text() == display_text@,
            r.spec_debug_text() == debug_text@,
            r.spec_reason() == if hide_detail {
                hidden_detail_reason()
            } else {
                display_text@
            },
            r.spec_log_record() == default_log_record(display_text@, debug_text@),
            r.spec_type_label() == adapter_type_label(),
    {
        AnyhowHttpError { display_text, debug_text, status, hide_detail }
    }

    /// The default wrap: status 500, detail hiding taken from the
    /// configuration.
    pub fn wrap(error: anyhow::Error, config: &ErrorConfig) -> (r: Self)
        ensures
            r.spec_status() == 500,
            r.spec_hides_detail() == config.hide_internal_detail,
            r.spec_reason() == if config.hide_internal_detail {
                hidden_detail_reason()
            } else {
                r.spec_display_text()
            },
            r.spec_log_record() == default_log_record(
                r.spec_display_text(),
                r.spec_debug_text(),
            ),
            r.spec_type_label() == adapter_type_label(),
    {
        Self::wrap_with_status(error, default_status(), config)
    }

    /// Wrap with an explicit status: the given status takes precedence over
    /// the 500 default, in both detail-hiding states, and is immutable for
    /// the life of the wrapped value.
    pub fn wrap_with_status(
        error: anyhow::Error,
        status: StatusCode,
        config: &ErrorConfig,
    ) -> (r: Self)
        ensures
            r.spec_status() == status@,
            r.spec_hides_detail() == config.hide_internal_detail,
            r.spec_reason() == if config.hide_internal_detail {
                hidden_detail_reason()
            } else {
                r.spec_display_text()
            },
            r.spec_log_record() == default_log_record(
                r.spec_display_text(),
                r.spec_debug_text(),
            ),
            r.spec_type_label() == adapter_type_label(),
    {
        let display_text = anyhow_display_text(&error);
        let debug_text = anyhow_debug_text(&error);
        Self::from_parts(display_text, debug_text, status, config.hide_internal_detail)
    }
}

impl HttpError for AnyhowHttpError {
    closed spec fn spec_status(&self) -> u16 {
        self.status@
    }

    closed spec fn spec_reason(&self) -> Seq<char> {
        if self.hide_detail {
            hidden_detail_reason()
        } else {
            self.display_text@
        }
    }

    closed spec fn spec_log_record(&self) -> Seq<char> {
        default_log_record(self.display_text@, self.debug_text@)
    }

    closed spec fn spec_type_label(&self) -> Seq<char> {
        adapter_type_label()
    }

    closed spec fn spec_display_text(&self) -> Seq<char> {
        self.display_text@
    }

    closed spec fn spec_debug_text(&self) -> Seq<char> {
        self.debug_text@
    }

    fn status(&self) -> StatusCode {
        self.status
    }

    fn reason(&self) -> String {
        if self.hide_detail {
            String::from_str("Server error")
        } else {
            self.display_text.clone()
        }
    }

    fn log_record(&self) -> String {
        make_default_log_record(self.display_text.as_str(), self.debug_text.as_str())
    }

    fn type_label(&self) -> String {
        String::from_str("AnyhowHttpError")
    }

    fn display_text(&self) -> String {
        self.display_text.clone()
    }

    fn debug_text(&self) -> String {
        self.debug_text.clone()
    }
}

/// Extension for attaching a status code to an opaque chained error at wrap
/// time.
pub trait AnyhowStatusExt {
    /// Wraps the error with the given status, which takes precedence over the
    /// 500 default; detail hiding is taken from the configuration.
    fn status(self, status: StatusCode, config: &ErrorConfig) -> (r: AnyhowHttpError)
        ensures
            r.spec_status() == status@,
            r.spec_hides_detail() == config.hide_internal_detail,
    ;
}

impl AnyhowStatusExt for anyhow::Error {
    fn status(self, status: StatusCode, config: &ErrorConfig) -> AnyhowHttpError {
        AnyhowHttpError::wrap_with_status(self, status, config)
    }
}

impl<I: IntoHttpErrorResponse> DynHttpError<I> {
    /// The convenience path for opaque errors: the default wrap — status
    /// 500, detail hiding from the configuration — then erasure.
    pub fn wrap_generic(error: anyhow::Error, config: &ErrorConfig) -> (c: Self)
        ensures
            c.spec_status() == 500,
            c.spec_reason() == if config.hide_internal_detail {
                hidden_detail_reason()
            } else {
                c.spec_display_text()
            },
            c.spec_log_record() == default_log_record(
                c.spec_display_text(),
                c.spec_debug_text(),
            ),
            c.spec_type_label() == adapter_type_label(),
    {
        Self::wrap(AnyhowHttpError::wrap(error, config))
    }
}

/// Detail hiding governs only the client-facing reason. While it is on, the
/// reason is exactly the fixed text "Server error", whatever the wrapped
/// error's content or the depth of its cause chain; while it is off, the
/// reason is the wrapped error's display text.
pub proof fn lemma_adapter_reason(e: &AnyhowHttpError)
    ensures
        e.spec_hides_detail() ==> e.spec_reason() == hidden_detail_reason(),
        !e.spec_hides_detail() ==> e.spec_reason() == e.spec_display_text(),
{
}

/// The diagnostic record of an adapter-wrapped error is always the full
/// default record — display text and debug text with its cause chain —
/// whether or not detail hiding is on: two wraps of the same texts log the
/// same record, so enabling hiding never shrinks what is logged.
pub proof fn lemma_hide_detail_does_not_shrink_log(a: &AnyhowHttpError, b: &AnyhowHttpError)
    requires
        a.spec_display_text() == b.spec_display_text(),
        a.spec_debug_text() == b.spec_debug_text(),
    ensures
        a.spec_log_record() == b.spec_log_record(),
        a.spec_log_record() == default_log_record(a.spec_display_text(), a.spec_debug_text()),
{
}

/// An explicitly assigned status takes precedence over the 500 default and
/// is independent of detail hiding: the reported status is always the
/// assigned one.
pub proof fn lemma_assigned_status_reported(e: &AnyhowHttpError)
    ensures
        e.spec_status() == e.spec_assigned_status(),
{
}

} // verus!
