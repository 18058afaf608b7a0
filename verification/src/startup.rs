//! The startup pipeline.
//!
//! From the parsed command line to a launch-ready plan: select exactly one
//! operating mode, resolve the network-configuration source, check the
//! demanded parameter set against the build's capabilities, validate the
//! logging inputs, and build the runtime context. Every fatal condition is
//! returned synchronously, before the context is handed to any service.

use crate::context::{
    spec_debug_level_of, parse_debug_level, parse_log_format, DebugLevel, LogDestination,
    LogDestinationSpec, LogFormat, RuntimeContext, RuntimeContextSpec,
};
use crate::errors::{ErrorCause, StartupError};
use crate::modes::{select_mode, spec_mode_of_subcommand, OperatingMode};
use crate::network::{
    network_display_name, resolve_network_source, spec_network_display_name,
    spec_resolve_network_source, spec_variant_supported, BuildCapabilities,
    NetworkConfiguration, NetworkConfigurationSpec, OverrideFiles, OverrideFilesSpec,
    SpecVariant, check_spec_capability,
};
use crate::supervisor::{
    plan_launch, run_supervised, spec_exit_status, spec_final_cause, spec_launch_plan, LaunchPlan,
    ServiceEvent, SupervisedOutcome,
};
use crate::shutdown::ShutdownReason;
use vstd::prelude::*;

verus! {

/// The already-parsed command line: which subcommand was invoked, the
/// logging inputs, the network-source inputs, and the diagnostic flags.
pub struct CliConfig {
    /// The invoked subcommand's name, if one was given.
    pub subcommand: Option<String>,
    /// The verbosity level for emitting logs.
    pub debug_level: String,
    /// File path where log output is to be written, if given.
    pub logfile: Option<String>,
    /// The structured-output format selector, if given.
    pub log_format: Option<String>,
    /// The named network preset, if given.
    pub network: Option<String>,
    /// The custom configuration directory, if given.
    pub testnet_dir: Option<String>,
    /// The custom set of override files.
    pub overrides: OverrideFiles,
    /// Whether to shut down as soon as the service has launched.
    pub immediate_shutdown: bool,
    /// Where to dump the resolved configuration, if requested.
    pub dump_config: Option<String>,
}

/// The mathematical value of [`CliConfig`].
pub struct CliConfigSpec {
    pub subcommand: Option<Seq<char>>,
    pub debug_level: Seq<char>,
    pub logfile: Option<Seq<char>>,
    pub log_format: Option<Seq<char>>,
    pub network: Option<Seq<char>>,
    pub testnet_dir: Option<Seq<char>>,
    pub overrides: OverrideFilesSpec,
    pub immediate_shutdown: bool,
    pub dump_config: Option<Seq<char>>,
}

/// The view of one optional string input.
pub open spec fn spec_opt_view(s: Option<String>) -> Option<Seq<char>> {
    match s {
        Some(v) => Some(v@),
        None => None,
    }
}

impl View for CliConfig {
    type V = CliConfigSpec;

    open spec fn view(&self) -> CliConfigSpec {
        CliConfigSpec {
            subcommand: spec_opt_view(self.subcommand),
            debug_level: self.debug_level@,
            logfile: spec_opt_view(self.logfile),
            log_format: spec_opt_view(self.log_format),
            network: spec_opt_view(self.network),
            testnet_dir: spec_opt_view(self.testnet_dir),
            overrides: self.overrides@,
            immediate_shutdown: self.immediate_shutdown,
            dump_config: spec_opt_view(self.dump_config),
        }
    }
}

/// A launch-ready plan: the selected mode, the built runtime context, the
/// network name for the startup log record, and how the mode is to be run.
pub struct StartupPlan {
    /// The one selected operating mode.
    pub mode: OperatingMode,
    /// The shared runtime context.
    pub context: RuntimeContext,
    /// The network name recorded in the startup log.
    pub network_name: String,
    /// Whether to shut down as soon as the service has launched.
    pub immediate_shutdown: bool,
    /// How the mode is to be run.
    pub launch: LaunchPlan,
    /// Where to dump the resolved configuration, if requested.
    pub dump_config: Option<String>,
}

/// The mathematical value of [`StartupPlan`].
pub struct StartupPlanSpec {
    pub mode: OperatingMode,
    pub context: RuntimeContextSpec,
    pub network_name: Seq<char>,
    pub immediate_shutdown: bool,
    pub launch: LaunchPlan,
    pub dump_config: Option<Seq<char>>,
}

impl View for StartupPlan {
    type V = StartupPlanSpec;

    open spec fn view(&self) -> StartupPlanSpec {
        StartupPlanSpec {
            mode: self.mode,
            context: self.context@,
            network_name: self.network_name@,
            immediate_shutdown: self.immediate_shutdown,
            launch: self.launch,
            dump_config: spec_opt_view(self.dump_config),
        }
    }
}

/// What startup resolution returns for the given inputs: the checks run in
/// a fixed order — capability, verbosity, log format, network source, mode
/// selection — and the first that fails decides the error. The capability
/// check comes first of all, so a demanded parameter set this build lacks
/// is reported whatever else is wrong with the command line.
pub open spec fn spec_resolve_startup(
    cfg: CliConfigSpec,
    declared_variant: SpecVariant,
    caps: BuildCapabilities,
) -> Result<StartupPlanSpec, ErrorCause> {
    if !spec_variant_supported(declared_variant, caps) {
        Err(ErrorCause::Capability(declared_variant))
    } else {
        match spec_debug_level_of(cfg.debug_level) {
            None => Err(ErrorCause::Configuration("Invalid debug level"@)),
            Some(level) => match cfg.log_format {
                Some(f) if f != "JSON"@ => Err(ErrorCause::Configuration("Invalid log format"@)),
                _ => match spec_resolve_network_source(cfg.network, cfg.testnet_dir, cfg.overrides) {
                    Err(e) => Err(e),
                    Ok(source) => match spec_mode_of_subcommand(cfg.subcommand) {
                        None => Err(ErrorCause::Configuration("No subcommand supplied."@)),
                        Some(mode) => Ok(
                            StartupPlanSpec {
                                mode,
                                context: RuntimeContextSpec {
                                    debug_level: level,
                                    log_destination: match cfg.logfile {
                                        Some(p) => LogDestinationSpec::File(p),
                                        None => LogDestinationSpec::StandardSink,
                                    },
                                    log_format: match cfg.log_format {
                                        Some(_) => Some(LogFormat::Json),
                                        None => None,
                                    },
                                    network: NetworkConfigurationSpec {
                                        source,
                                        variant: declared_variant,
                                    },
                                },
                                network_name: spec_network_display_name(source),
                                immediate_shutdown: cfg.immediate_shutdown,
                                launch: spec_launch_plan(mode, cfg.immediate_shutdown),
                                dump_config: cfg.dump_config,
                            },
                        ),
                    },
                },
            },
        }
    }
}

/// The view of a startup resolution result.
pub open spec fn spec_startup_result_view(r: Result<StartupPlan, StartupError>) -> Result<
    StartupPlanSpec,
    ErrorCause,
> {
    match r {
        Ok(p) => Ok(p@),
        Err(e) => Err(e@),
    }
}

/// Resolves the whole startup: checks the build's capabilities against the
/// demanded parameter set, validates the logging inputs, resolves the
/// network source, selects the mode, and builds the runtime context. All
/// startup errors are returned here, before any service is launched.
pub fn resolve_startup(
    cfg: CliConfig,
    declared_variant: SpecVariant,
    caps: &BuildCapabilities,
) -> (r: Result<StartupPlan, StartupError>)
    ensures
        spec_startup_result_view(r) == spec_resolve_startup(cfg@, declared_variant, *caps),
{
    let CliConfig {
        subcommand,
        debug_level,
        logfile,
        log_format,
        network,
        testnet_dir,
        overrides,
        immediate_shutdown,
        dump_config,
    } = cfg;
    match check_spec_capability(declared_variant, caps) {
        Ok(_) => {},
        Err(e) => {
            return Err(e);
        },
    }
    let level = match parse_debug_level(debug_level.as_str()) {
        Ok(l) => l,
        Err(e) => {
            return Err(e);
        },
    };
    let format = match log_format {
        Some(f) => {
            match parse_log_format(f.as_str()) {
                Ok(parsed) => Some(parsed),
                Err(e) => {
                    return Err(e);
                },
            }
        },
        None => None,
    };
    let source = match resolve_network_source(network, testnet_dir, overrides) {
        Ok(s) => s,
        Err(e) => {
            return Err(e);
        },
    };
    let mode = match select_mode(subcommand.as_ref()) {
        Ok(m) => m,
        Err(e) => {
            return Err(e);
        },
    };
    let destination = match logfile {
        Some(p) => LogDestination::File(p),
        None => LogDestination::StandardSink,
    };
    let network_name = network_display_name(&source);
    let network_config = NetworkConfiguration { source, variant: declared_variant };
    let context = RuntimeContext::build(level, destination, format, network_config);
    let launch = plan_launch(mode, immediate_shutdown);
    Ok(
        StartupPlan {
            mode,
            context,
            network_name,
            immediate_shutdown,
            launch,
            dump_config,
        },
    )
}

/// What a whole process run comes to: an exit status, with the message
/// written to the standard error stream on failure, or the observation that
/// the service is still running at the end of the observed trace.
pub enum ProcessOutcome {
    Exit(u8, Option<String>),
    StillRunning,
}

/// The mathematical value of [`ProcessOutcome`].
pub enum ProcessOutcomeSpec {
    Exit(u8, Option<Seq<char>>),
    StillRunning,
}

impl View for ProcessOutcome {
    type V = ProcessOutcomeSpec;

    open spec fn view(&self) -> ProcessOutcomeSpec {
        match self {
            ProcessOutcome::Exit(status, message) => ProcessOutcomeSpec::Exit(
                *status,
                match message {
                    Some(m) => Some(m@),
                    None => None,
                },
            ),
            ProcessOutcome::StillRunning => ProcessOutcomeSpec::StillRunning,
        }
    }
}

/// The view of the outcome the synchronous utility returned.
pub open spec fn spec_utility_view(outcome: Result<(), String>) -> Result<(), Seq<char>> {
    match outcome {
        Ok(u) => Ok(u),
        Err(m) => Err(m@),
    }
}

/// What a whole process run comes to for the given inputs. A startup error
/// exits with status one and the error's message; a synchronous mode exits
/// with the utility's own outcome, never entering the supervised path; a
/// supervised mode terminates with the status of the first reported cause,
/// surfacing the message of a failure.
pub open spec fn spec_run_process(
    cfg: CliConfigSpec,
    declared_variant: SpecVariant,
    caps: BuildCapabilities,
    utility_outcome: Result<(), Seq<char>>,
    events: Seq<ServiceEvent>,
) -> ProcessOutcomeSpec {
    match spec_resolve_startup(cfg, declared_variant, caps) {
        Err(e) => ProcessOutcomeSpec::Exit(1, Some(e.message())),
        Ok(plan) => if plan.launch is RunSynchronously {
            match utility_outcome {
                Ok(_) => ProcessOutcomeSpec::Exit(0, None),
                Err(m) => ProcessOutcomeSpec::Exit(1, Some(m)),
            }
        } else {
            match spec_final_cause(plan.mode, plan.immediate_shutdown, events) {
                None => ProcessOutcomeSpec::StillRunning,
                Some(c) => ProcessOutcomeSpec::Exit(
                    spec_exit_status(c),
                    if c is Failure {
                        Some(c.message())
                    } else {
                        None
                    },
                ),
            }
        },
    }
}

/// Runs a whole process: resolves startup, then either takes the
/// synchronous utility path — whose outcome the caller supplies, having run
/// the utility on the calling thread — or supervises the launched service
/// over the observed trace of events. Exactly one mode runs; every failure
/// surfaces one message and a non-zero status.
pub fn run_process(
    cfg: CliConfig,
    declared_variant: SpecVariant,
    caps: &BuildCapabilities,
    utility_outcome: Result<(), String>,
    events: Vec<ServiceEvent>,
) -> (outcome: ProcessOutcome)
    ensures
        outcome@ == spec_run_process(
            cfg@,
            declared_variant,
            *caps,
            spec_utility_view(utility_outcome),
            events@,
        ),
{
    let plan = match resolve_startup(cfg, declared_variant, caps) {
        Ok(p) => p,
        Err(e) => {
            let message = e.message();
            return ProcessOutcome::Exit(1, Some(message));
        },
    };
    match plan.launch {
        LaunchPlan::RunSynchronously => {
            match utility_outcome {
                Ok(_) => ProcessOutcome::Exit(0, None),
                Err(m) => ProcessOutcome::Exit(1, Some(m)),
            }
        },
        _ => {
            match run_supervised(plan.mode, plan.immediate_shutdown, events) {
                SupervisedOutcome::Terminated(reason, status) => {
                    match reason {
                        ShutdownReason::Success(_) => ProcessOutcome::Exit(status, None),
                        ShutdownReason::Failure(m) => ProcessOutcome::Exit(status, Some(m)),
                    }
                },
                SupervisedOutcome::StillRunning => ProcessOutcome::StillRunning,
            }
        },
    }
}

/// A demanded parameter set this build lacks is fatal on its own: whatever
/// else the command line holds, whatever the utility would have returned
/// and whatever events would have arrived, the process exits with status
/// one and the message naming the missing capability, and no service is
/// ever launched or supervised.
pub proof fn lemma_missing_capability_is_fatal(
    cfg: CliConfigSpec,
    declared_variant: SpecVariant,
    caps: BuildCapabilities,
    utility_outcome: Result<(), Seq<char>>,
    events: Seq<ServiceEvent>,
)
    requires
        !spec_variant_supported(declared_variant, caps),
    ensures
        spec_run_process(cfg, declared_variant, caps, utility_outcome, events)
            == ProcessOutcomeSpec::Exit(
            1,
            Some(crate::errors::spec_capability_message(declared_variant)),
        ),
{
}

/// The message of the architecture guard: the rejected width in decimal,
/// then the fixed sentence.
pub open spec fn spec_architecture_message(pointer_width_bits: u64) -> Seq<char> {
    crate::strutil::spec_decimal(pointer_width_bits as nat)
        + "-bit architecture is not supported (64-bit only)."@
}

/// Rejects every architecture whose pointer width is not 64 bits before any
/// further startup work; the message names the rejected width.
pub fn check_architecture(pointer_width_bits: u64) -> (r: Result<(), StartupError>)
    ensures
        r is Ok <==> pointer_width_bits == 64,
        r matches Err(e) ==> e@ == ErrorCause::Environment(
            spec_architecture_message(pointer_width_bits),
        ),
{
    if pointer_width_bits == 64 {
        Ok(())
    } else {
        let width = crate::strutil::decimal_string(pointer_width_bits);
        Err(
            StartupError::Environment(
                width.concat("-bit architecture is not supported (64-bit only)."),
            ),
        )
    }
}

} // verus!
