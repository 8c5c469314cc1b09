use vstd::prelude::*;
use vstd::string::StringExecFns;

use core::marker::PhantomData;

use crate::capability::HttpError;
use crate::config::ErrorConfig;
use crate::response::ErasedHttpError;
use crate::response::ErrorResponse;
use crate::response::IntoHttpErrorResponse;
use crate::response::TextErrorResponse;

verus! {

/// The one-shot container: owns exactly one error with its concrete type
/// erased, keeping only the capability's outputs. The rendering strategy `I`
/// is a zero-sized compile-time tag.
///
/// A container is created holding precisely one error and is consumed
/// precisely once when rendered: [`DynHttpError::render`] takes the container
/// by value, so a second render is a compile-time ownership error, never a
/// silent double render. Before the render it may be inspected any number of
/// times without being changed.
#[verifier::reject_recursive_types(I)]
pub struct DynHttpError<I: IntoHttpErrorResponse = TextErrorResponse> {
    inner: ErasedHttpError,
    strategy: PhantomData<I>,
}

/// Alias for [`Result`] whose error type is a [`DynHttpError`]: the uniform
/// result type request handlers return.
pub type HttpResult<T, I = TextErrorResponse> = Result<T, DynHttpError<I>>;

/// What one render yields: the response, and, when logging is enabled, the
/// one diagnostic record to hand to the log sink.
pub struct RenderedError {
    /// The response the strategy produced.
    pub response: ErrorResponse,
    /// The diagnostic record; present exactly when logging is enabled.
    pub log_record: Option<String>,
}

impl<I: IntoHttpErrorResponse> DynHttpError<I> {
    /// The numeric status of the erased error.
    pub closed spec fn spec_status(&self) -> u16 {
        self.inner.status@
    }

    /// The reason of the erased error.
    pub closed spec fn spec_reason(&self) -> Seq<char> {
        self.inner.reason@
    }

    /// The diagnostic record of the erased error.
    pub closed spec fn spec_log_record(&self) -> Seq<char> {
        self.inner.log_record@
    }

    /// The label of the erased concrete type.
    pub closed spec fn spec_type_label(&self) -> Seq<char> {
        self.inner.type_label@
    }

    /// The display text of the erased error.
    pub closed spec fn spec_display_text(&self) -> Seq<char> {
        self.inner.display_text@
    }

    /// The debug text of the erased error.
    pub closed spec fn spec_debug_text(&self) -> Seq<char> {
        self.inner.debug_text@
    }

    /// The debug representation: the erased type's label, then the debug
    /// text in parentheses.
    pub open spec fn spec_debug_representation(&self) -> Seq<char> {
        self.spec_type_label() + "("@ + self.spec_debug_text() + ")"@
    }

    /// Takes ownership of any error implementing the capability and erases
    /// its concrete type. Always succeeds; every capability output of the
    /// wrapped error is kept exactly.
    pub fn wrap<E: HttpError>(error: E) -> (c: Self)
        ensures
            c.spec_status() == error.spec_status(),
            c.spec_reason() == error.spec_reason(),
            c.spec_log_record() == error.spec_log_record(),
            c.spec_type_label() == error.spec_type_label(),
            c.spec_display_text() == error.spec_display_text(),
            c.spec_debug_text() == error.spec_debug_text(),
    {
        let status = error.status();
        let reason = error.reason();
        let log_record = error.log_record();
        let type_label = error.type_label();
        let display_text = error.display_text();
        let debug_text = error.debug_text();
        DynHttpError {
            inner: ErasedHttpError {
                status,
                reason,
                log_record,
                type_label,
                display_text,
                debug_text,
            },
            strategy: PhantomData,
        }
    }

    /// Consumes the container — the one render it ever gets. The response
    /// carries the erased error's status and the body the strategy `I`
    /// computes from the capability's outputs; the diagnostic record is
    /// produced exactly when logging is enabled.
    pub fn render(self, config: &ErrorConfig) -> (r: RenderedError)
        ensures
            r.response@.0 == self.spec_status(),
            r.response@.1 == I::spec_body(
                self.spec_status(),
                self.spec_reason(),
                self.spec_type_label(),
            ),
            config.enable_logging ==> (r.log_record matches Some(s) && s@
                == self.spec_log_record()),
            !config.enable_logging ==> r.log_record is None,
    {
        let log_record = if config.enable_logging {
            Some(self.inner.log_record.clone())
        } else {
            None
        };
        let response = I::into_response(self.inner);
        RenderedError { response, log_record }
    }

    /// The debug representation: the erased type's label, then the debug
    /// text in parentheses. Reads the container without consuming or
    /// changing it, so repeated calls before the render return identical
    /// output.
    pub fn debug_representation(&self) -> (r: String)
        ensures
            r@ == self.spec_debug_representation(),
    {
        let mut r = self.inner.type_label.clone();
        r.append("(");
        r.append(self.inner.debug_text.as_str());
        r.append(")");
        proof {
            assert(r@ =~= self.spec_debug_representation());
        }
        r
    }

    /// The display representation: the erased error's display text. Reads
    /// the container without consuming or changing it.
    pub fn display_representation(&self) -> (r: String)
        ensures
            r@ == self.spec_display_text(),
    {
        self.inner.display_text.clone()
    }
}

/// The debug representation is a function of the container alone: any two
/// results read off the same container — repeated calls, in particular — are
/// identical, and each includes the erased type's label.
pub proof fn lemma_debug_representation_stable<I: IntoHttpErrorResponse>(
    c: &DynHttpError<I>,
    r1: Seq<char>,
    r2: Seq<char>,
)
    requires
        r1 == c.spec_debug_representation(),
        r2 == c.spec_debug_representation(),
    ensures
        r1 == r2,
        r1.subrange(0, c.spec_type_label().len() as int) == c.spec_type_label(),
{
    assert(r1.subrange(0, c.spec_type_label().len() as int) =~= c.spec_type_label());
}

} // verus!
