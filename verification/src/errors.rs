//! The startup error taxonomy.
//!
//! Every fatal condition detected before any service is launched is returned
//! synchronously as one of these variants; errors occurring after launch are
//! never thrown to the caller but funnelled through the shutdown channel.

use crate::network::SpecVariant;
use vstd::prelude::*;

verus! {

/// A fatal startup condition. All three variants abort startup before the
/// runtime context is handed to any service, produce one user-visible
/// message, and map to a non-zero process exit status.
#[derive(Debug)]
pub enum StartupError {
    /// Bad or contradictory configuration inputs.
    Configuration(String),
    /// The process environment could not be prepared (logger or scheduler
    /// construction failed).
    Environment(String),
    /// The resolved consensus parameter set needs a build capability that
    /// this build lacks.
    Capability(SpecVariant),
}

/// The mathematical value of a [`StartupError`].
pub enum ErrorCause {
    Configuration(Seq<char>),
    Environment(Seq<char>),
    Capability(SpecVariant),
}

impl View for StartupError {
    type V = ErrorCause;

    open spec fn view(&self) -> ErrorCause {
        match self {
            StartupError::Configuration(m) => ErrorCause::Configuration(m@),
            StartupError::Environment(m) => ErrorCause::Environment(m@),
            StartupError::Capability(v) => ErrorCause::Capability(*v),
        }
    }
}

/// The user-facing message of a capability error: it names the capability
/// the operator must rebuild with.
pub open spec fn spec_capability_message(v: SpecVariant) -> Seq<char> {
    match v {
        SpecVariant::Standard => "The standard spec is not supported by this build"@,
        SpecVariant::Reduced => (
            "The reduced spec is not supported by this build; rebuild with the reduced-spec capability enabled"@
        ),
        SpecVariant::Legacy => (
            "The legacy spec is not supported by this build; rebuild with the legacy-spec capability enabled"@
        ),
    }
}

impl ErrorCause {
    /// The one user-facing message of the error.
    pub open spec fn message(self) -> Seq<char> {
        match self {
            ErrorCause::Configuration(m) => m,
            ErrorCause::Environment(m) => m,
            ErrorCause::Capability(v) => spec_capability_message(v),
        }
    }
}

impl StartupError {
    /// Renders the one user-facing message of the error.
    pub fn message(&self) -> (m: String)
        ensures
            m@ == self@.message(),
    {
        match self {
            StartupError::Configuration(m) => m.clone(),
            StartupError::Environment(m) => m.clone(),
            StartupError::Capability(v) => {
                match v {
                    SpecVariant::Standard => {
                        String::from_str("The standard spec is not supported by this build")
                    },
                    SpecVariant::Reduced => {
                        String::from_str(
                            "The reduced spec is not supported by this build; rebuild with the reduced-spec capability enabled",
                        )
                    },
                    SpecVariant::Legacy => {
                        String::from_str(
                            "The legacy spec is not supported by this build; rebuild with the legacy-spec capability enabled",
                        )
                    },
                }
            },
        }
    }
}

/// The exit status of a run whose startup failed: every fatal startup error
/// maps to status one, success to status zero.
pub fn startup_exit_status(outcome: &Result<(), StartupError>) -> (status: u8)
    ensures
        status == 0 <==> outcome is Ok,
        status == 1 <==> outcome is Err,
    {
    match outcome {
        Ok(_) => 0,
        Err(_) => 1,
    }
}

} // verus!
