use vstd::prelude::*;
use vstd::string::StringExecFns;

use crate::status::StatusCode;

verus! {

/// The capability every error must expose to become an HTTP error: a status,
/// a client-facing reason, a diagnostic log record, and a label for the
/// concrete type that erasure will hide.
///
/// Each executable method is pinned to a specification-level counterpart, so
/// a caller that only knows `E: HttpError` still knows exactly which value
/// each method returns.
pub trait HttpError: Sized {
    /// The numeric HTTP status this error reports.
    spec fn spec_status(&self) -> u16;

    /// The client-facing reason text.
    spec fn spec_reason(&self) -> Seq<char>;

    /// The operator-facing diagnostic record emitted when the error is
    /// rendered with logging enabled.
    spec fn spec_log_record(&self) -> Seq<char>;

    /// The label naming the concrete error type, for debug output only.
    spec fn spec_type_label(&self) -> Seq<char>;

    /// The error's display text.
    spec fn spec_display_text(&self) -> Seq<char>;

    /// The error's debug text, cause chain included where one exists.
    spec fn spec_debug_text(&self) -> Seq<char>;

    /// The HTTP status code for the response.
    fn status(&self) -> (s: StatusCode)
        ensures
            s@ == self.spec_status(),
    ;

    /// The reason text for the response body.
    fn reason(&self) -> (r: String)
        ensures
            r@ == self.spec_reason(),
    ;

    /// The diagnostic record to hand to the log sink.
    fn log_record(&self) -> (r: String)
        ensures
            r@ == self.spec_log_record(),
    ;

    /// The label of the concrete type, for debug output.
    fn type_label(&self) -> (r: String)
        ensures
            r@ == self.spec_type_label(),
    ;

    /// The display text.
    fn display_text(&self) -> (r: String)
        ensures
            r@ == self.spec_display_text(),
    ;

    /// The debug text.
    fn debug_text(&self) -> (r: String)
        ensures
            r@ == self.spec_debug_text(),
    ;
}

/// The status an error reports when it does not choose one: 500,
/// Internal Server Error.
pub fn default_status() -> (s: StatusCode)
    ensures
        s@ == 500,
{
    StatusCode::internal_server_error()
}

/// The default diagnostic record: the display text, a separator, then the
/// debug text with its cause chain.
pub open spec fn default_log_record(display: Seq<char>, debug: Seq<char>) -> Seq<char> {
    display + ": "@ + debug
}

/// Builds the default diagnostic record from the two texts.
pub fn make_default_log_record(display: &str, debug: &str) -> (r: String)
    ensures
        r@ == default_log_record(display@, debug@),
{
    let mut r = String::from_str(display);
    r.append(": ");
    r.append(debug);
    proof {
        assert(r@ =~= default_log_record(display@, debug@));
    }
    r
}

/// A purpose-built error kind: the author chooses the status and the message
/// intentionally, and the message serves as display text and reason alike.
pub struct BasicHttpError {
    status: StatusCode,
    message: String,
}

impl BasicHttpError {
    /// A domain error with an explicit status and message.
    pub fn new(status: StatusCode, message: String) -> (r: Self)
        ensures
            r.spec_status() == status@,
            r.spec_reason() == message@,
            r.spec_display_text() == message@,
            r.spec_debug_text() == message@,
            r.spec_log_record() == default_log_record(message@, message@),
    {
        BasicHttpError { status, message }
    }

    /// A domain error relying on the status default: it reports 500, and its
    /// reason is its display text.
    pub fn from_message(message: String) -> (r: Self)
        ensures
            r.spec_status() == 500,
            r.spec_reason() == message@,
            r.spec_display_text() == message@,
    {
        BasicHttpError { status: default_status(), message }
    }
}

impl HttpError for BasicHttpError {
    closed spec fn spec_status(&self) -> u16 {
        self.status@
    }

    closed spec fn spec_reason(&self) -> Seq<char> {
        self.message@
    }

    closed spec fn spec_log_record(&self) -> Seq<char> {
        default_log_record(self.message@, self.message@)
    }

    closed spec fn spec_type_label(&self) -> Seq<char> {
        "BasicHttpError"@
    }

    closed spec fn spec_display_text(&self) -> Seq<char> {
        self.message@
    }

    closed spec fn spec_debug_text(&self) -> Seq<char> {
        self.message@
    }

    fn status(&self) -> StatusCode {
        self.status
    }

    fn reason(&self) -> String {
        self.message.clone()
    }

    fn log_record(&self) -> String {
        make_default_log_record(self.message.as_str(), self.message.as_str())
    }

    fn type_label(&self) -> String {
        String::from_str("BasicHttpError")
    }

    fn display_text(&self) -> String {
        self.message.clone()
    }

    fn debug_text(&self) -> String {
        self.message.clone()
    }
}

/// A purpose-built error's reason always equals its display text: detail
/// hiding never touches errors that choose their own reason.
pub proof fn lemma_basic_reason_is_display(e: &BasicHttpError)
    ensures
        e.spec_reason() == e.spec_display_text(),
{
}

} // verus!
