use vstd::prelude::*;

verus! {

/// The configuration options, resolved once at startup and threaded through
/// explicitly — never per request.
///
/// `enable_logging`: every container render produces one diagnostic record.
/// `hide_internal_detail`: the reason of adapter-wrapped generic errors is
/// replaced by a fixed generic text; purpose-built errors that choose their
/// own reason are unaffected, and what is logged never shrinks.
#[derive(Clone, Copy, PartialEq, Eq, Structural, Debug)]
pub struct ErrorConfig {
    /// Emit a diagnostic record on every render.
    pub enable_logging: bool,
    /// Replace the client-facing reason of adapter-wrapped errors.
    pub hide_internal_detail: bool,
}

impl Default for ErrorConfig {
    /// Both options are off unless set.
    fn default() -> (r: Self)
        ensures
            !r.enable_logging,
            !r.hide_internal_detail,
    {
        ErrorConfig { enable_logging: false, hide_internal_detail: false }
    }
}

} // verus!
