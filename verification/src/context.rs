//! Construction of the shared runtime context.
//!
//! The context bundles the handles every launched service shares: the
//! logging configuration, the resolved network configuration, and (held by
//! the supervisor on the services' behalf) the shutdown channel. It is built
//! exactly once per process — the builder consumes its inputs — and torn
//! down only after all launched work has observed shutdown and finished.

use crate::errors::{ErrorCause, StartupError};
use crate::network::{NetworkConfiguration, NetworkConfigurationSpec};
use crate::strutil::str_eq;
use vstd::prelude::*;

verus! {

/// The verbosity level for emitting logs, from most to least verbose.
#[derive(Clone, Copy, PartialEq, Eq, Structural, Debug)]
pub enum DebugLevel {
    Trace,
    Debug,
    Info,
    Warn,
    Error,
    Crit,
}

/// The level named by a command-line value, if the value is one of the fixed
/// vocabulary.
pub open spec fn spec_debug_level_of(s: Seq<char>) -> Option<DebugLevel> {
    if s == "trace"@ {
        Some(DebugLevel::Trace)
    } else if s == "debug"@ {
        Some(DebugLevel::Debug)
    } else if s == "info"@ {
        Some(DebugLevel::Info)
    } else if s == "warn"@ {
        Some(DebugLevel::Warn)
    } else if s == "error"@ {
        Some(DebugLevel::Error)
    } else if s == "crit"@ {
        Some(DebugLevel::Crit)
    } else {
        None
    }
}

/// Parses a verbosity level, rejecting values outside the fixed vocabulary.
pub fn parse_debug_level(s: &str) -> (r: Result<DebugLevel, StartupError>)
    ensures
        match spec_debug_level_of(s@) {
            Some(level) => r == Ok::<DebugLevel, StartupError>(level),
            None => r matches Err(e) && e@ == ErrorCause::Configuration(
                "Invalid debug level"@,
            ),
        },
{
    if str_eq(s, "trace") {
        Ok(DebugLevel::Trace)
    } else if str_eq(s, "debug") {
        Ok(DebugLevel::Debug)
    } else if str_eq(s, "info") {
        Ok(DebugLevel::Info)
    } else if str_eq(s, "warn") {
        Ok(DebugLevel::Warn)
    } else if str_eq(s, "error") {
        Ok(DebugLevel::Error)
    } else if str_eq(s, "crit") {
        Ok(DebugLevel::Crit)
    } else {
        Err(StartupError::Configuration(String::from_str("Invalid debug level")))
    }
}

/// The structured-output format selector.
#[derive(Clone, Copy, PartialEq, Eq, Structural, Debug)]
pub enum LogFormat {
    Json,
}

/// Parses the structured-output format selector; the only accepted value is
/// "JSON".
pub fn parse_log_format(s: &str) -> (r: Result<LogFormat, StartupError>)
    ensures
        s@ == "JSON"@ ==> r == Ok::<LogFormat, StartupError>(LogFormat::Json),
        s@ != "JSON"@ ==> (r matches Err(e) && e@ == ErrorCause::Configuration(
            "Invalid log format"@,
        )),
{
    if str_eq(s, "JSON") {
        Ok(LogFormat::Json)
    } else {
        Err(StartupError::Configuration(String::from_str("Invalid log format")))
    }
}

/// Where log output goes: the default structured sink, or a file.
pub enum LogDestination {
    StandardSink,
    File(String),
}

/// The mathematical value of [`LogDestination`].
pub enum LogDestinationSpec {
    StandardSink,
    File(Seq<char>),
}

impl View for LogDestination {
    type V = LogDestinationSpec;

    open spec fn view(&self) -> LogDestinationSpec {
        match self {
            LogDestination::StandardSink => LogDestinationSpec::StandardSink,
            LogDestination::File(p) => LogDestinationSpec::File(p@),
        }
    }
}

/// The shared runtime context: the handles passed, by shared ownership, into
/// every launched service. Building it consumes its inputs, so within one
/// process it is constructed exactly once.
pub struct RuntimeContext {
    /// The verbosity the logger was configured with.
    pub debug_level: DebugLevel,
    /// Where log output goes.
    pub log_destination: LogDestination,
    /// The structured-output format, if one was selected.
    pub log_format: Option<LogFormat>,
    /// The resolved network configuration.
    pub network: NetworkConfiguration,
}

/// The mathematical value of [`RuntimeContext`].
pub struct RuntimeContextSpec {
    pub debug_level: DebugLevel,
    pub log_destination: LogDestinationSpec,
    pub log_format: Option<LogFormat>,
    pub network: NetworkConfigurationSpec,
}

impl View for RuntimeContext {
    type V = RuntimeContextSpec;

    open spec fn view(&self) -> RuntimeContextSpec {
        RuntimeContextSpec {
            debug_level: self.debug_level,
            log_destination: self.log_destination@,
            log_format: self.log_format,
            network: self.network@,
        }
    }
}

impl RuntimeContext {
    /// Builds the context once from its validated parts.
    pub fn build(
        debug_level: DebugLevel,
        log_destination: LogDestination,
        log_format: Option<LogFormat>,
        network: NetworkConfiguration,
    ) -> (c: Self)
        ensures
            c.debug_level == debug_level,
            c.log_destination == log_destination,
            c.log_format == log_format,
            c.network == network,
    {
        RuntimeContext { debug_level, log_destination, log_format, network }
    }
}

/// Folds the outcome of preparing the log destination — blocking work the
/// caller performs, such as opening the log file — into the startup error
/// stream: a failure aborts startup as an environment error carrying the
/// caller's description, before any service is launched.
pub fn logging_outcome(outcome: Result<(), String>) -> (r: Result<(), StartupError>)
    ensures
        r is Ok <==> outcome is Ok,
        outcome matches Err(m) ==> (r matches Err(e) && e@ == ErrorCause::Environment(
            "Failed to prepare the log destination: "@ + m@,
        )),
{
    match outcome {
        Ok(_) => Ok(()),
        Err(m) => Err(
            StartupError::Environment(
                String::from_str("Failed to prepare the log destination: ").concat(m.as_str()),
            ),
        ),
    }
}

/// The one informational startup log record: it carries the process
/// identity and version together with the active network name, so that an
/// operator can tell at a glance what runs under which configuration.
pub fn startup_log_line(version: &String, network_name: &String) -> (line: String)
    ensures
        line@ == "Lighthouse started, version: "@ + version@ + ", configured for network: "@
            + network_name@,
{
    String::from_str("Lighthouse started, version: ").concat(version.as_str()).concat(
        ", configured for network: ",
    ).concat(network_name.as_str())
}

} // verus!
