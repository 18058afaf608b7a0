//! Network-configuration resolution.
//!
//! A process run draws its network topology from exactly one of three
//! mutually exclusive sources — a named preset, a custom directory, or a
//! custom set of override files — or, with none of them given, from the
//! hard-coded default preset. Supplying more than one source is a
//! configuration error detected before the runtime context is built.
//!
//! The consensus parameter set the configuration demands is checked against
//! the build's capability table before any service starts; an unsupported
//! variant is a fatal, typed error, never a crash.

use crate::errors::{ErrorCause, StartupError};
use crate::strutil::str_eq;
use vstd::prelude::*;

verus! {

/// The consensus/numeric parameter set the process must run under.
#[derive(Clone, Copy, PartialEq, Eq, Structural, Debug)]
pub enum SpecVariant {
    /// The standard parameter set; always compiled in.
    Standard,
    /// The reduced parameter set; needs an optional build capability.
    Reduced,
    /// The legacy parameter set; needs an optional build capability.
    Legacy,
}

/// The build's capability table: which optional parameter sets and which
/// signature library this build carries.
#[derive(Clone, Copy, PartialEq, Eq, Structural, Debug)]
pub struct BuildCapabilities {
    /// Whether the reduced parameter set is compiled in.
    pub reduced_spec: bool,
    /// Whether the legacy parameter set is compiled in.
    pub legacy_spec: bool,
    /// Whether the portable build of the signature library was chosen.
    pub bls_portable: bool,
    /// Whether the modern-CPU build of the signature library was chosen.
    pub bls_modern: bool,
    /// Whether the alternative signature library was chosen.
    pub bls_milagro: bool,
}

/// The name of the signature library a build with these capabilities links,
/// by the fixed priority of the build options.
pub open spec fn spec_bls_library_name(caps: BuildCapabilities) -> Seq<char> {
    if caps.bls_portable {
        "blst-portable"@
    } else if caps.bls_modern {
        "blst-modern"@
    } else if caps.bls_milagro {
        "milagro"@
    } else {
        "blst"@
    }
}

/// Names the signature library this build links.
pub fn bls_library_name(caps: &BuildCapabilities) -> (name: &'static str)
    ensures
        name@ == spec_bls_library_name(*caps),
{
    if caps.bls_portable {
        "blst-portable"
    } else if caps.bls_modern {
        "blst-modern"
    } else if caps.bls_milagro {
        "milagro"
    } else {
        "blst"
    }
}

/// Whether the build supports the given parameter set.
pub open spec fn spec_variant_supported(v: SpecVariant, caps: BuildCapabilities) -> bool {
    match v {
        SpecVariant::Standard => true,
        SpecVariant::Reduced => caps.reduced_spec,
        SpecVariant::Legacy => caps.legacy_spec,
    }
}

/// Checks the demanded parameter set against the build's capability table.
/// An unsupported variant fails fast with a typed capability error whose
/// message names the capability to rebuild with.
pub fn check_spec_capability(v: SpecVariant, caps: &BuildCapabilities) -> (r: Result<
    (),
    StartupError,
>)
    ensures
        r is Ok <==> spec_variant_supported(v, *caps),
        r matches Err(e) ==> e == StartupError::Capability(v),
{
    match v {
        SpecVariant::Standard => Ok(()),
        SpecVariant::Reduced => {
            if caps.reduced_spec {
                Ok(())
            } else {
                Err(StartupError::Capability(SpecVariant::Reduced))
            }
        },
        SpecVariant::Legacy => {
            if caps.legacy_spec {
                Ok(())
            } else {
                Err(StartupError::Capability(SpecVariant::Legacy))
            }
        },
    }
}

/// The set of override files that together stand in for a packaged network
/// configuration. Each file is optional on the command line, but the files
/// depend on one another; see [`OverrideFiles::is_consistent`].
pub struct OverrideFiles {
    /// Path of the file holding the network's parameter specification.
    pub spec_file: Option<String>,
    /// Path of the file listing boot nodes.
    pub boot_nodes_file: Option<String>,
    /// Path of the file holding the genesis state.
    pub genesis_state_file: Option<String>,
    /// The block number where the deposit contract was deployed.
    pub deposit_deploy_block: Option<u64>,
}

/// The mathematical value of [`OverrideFiles`].
pub struct OverrideFilesSpec {
    pub spec_file: Option<Seq<char>>,
    pub boot_nodes_file: Option<Seq<char>>,
    pub genesis_state_file: Option<Seq<char>>,
    pub deposit_deploy_block: Option<u64>,
}

impl View for OverrideFiles {
    type V = OverrideFilesSpec;

    open spec fn view(&self) -> OverrideFilesSpec {
        OverrideFilesSpec {
            spec_file: match self.spec_file {
                Some(ref p) => Some(p@),
                None => None,
            },
            boot_nodes_file: match self.boot_nodes_file {
                Some(ref p) => Some(p@),
                None => None,
            },
            genesis_state_file: match self.genesis_state_file {
                Some(ref p) => Some(p@),
                None => None,
            },
            deposit_deploy_block: self.deposit_deploy_block,
        }
    }
}

impl OverrideFilesSpec {
    /// Whether any override was supplied at all.
    pub open spec fn is_present(self) -> bool {
        self.spec_file is Some || self.boot_nodes_file is Some || self.genesis_state_file is Some
            || self.deposit_deploy_block is Some
    }

    /// The dependency rules among the overrides: boot nodes, a genesis state
    /// and a parameter specification each need the deposit deploy block, and
    /// the deploy block needs the parameter specification.
    pub open spec fn is_consistent(self) -> bool {
        &&& (self.boot_nodes_file is Some ==> self.deposit_deploy_block is Some)
        &&& (self.genesis_state_file is Some ==> self.deposit_deploy_block is Some)
        &&& (self.spec_file is Some ==> self.deposit_deploy_block is Some)
        &&& (self.deposit_deploy_block is Some ==> self.spec_file is Some)
    }

    /// The message of the first dependency rule the overrides break, checked
    /// in a fixed order.
    pub open spec fn violation_message(self) -> Seq<char> {
        if self.boot_nodes_file is Some && self.deposit_deploy_block is None {
            "Supplying boot nodes requires the deposit contract deploy block"@
        } else if self.genesis_state_file is Some && self.deposit_deploy_block is None {
            "Supplying a genesis state requires the deposit contract deploy block"@
        } else if self.spec_file is Some && self.deposit_deploy_block is None {
            "Supplying a network specification requires the deposit contract deploy block"@
        } else {
            "Supplying the deposit contract deploy block requires a network specification"@
        }
    }
}

impl OverrideFiles {
    /// Whether any override was supplied at all.
    pub fn present(&self) -> (b: bool)
        ensures
            b == self@.is_present(),
    {
        self.spec_file.is_some() || self.boot_nodes_file.is_some()
            || self.genesis_state_file.is_some() || self.deposit_deploy_block.is_some()
    }

    /// Checks the dependency rules among the overrides. A companion value
    /// whose dependent values are missing is a configuration error.
    pub fn validate(&self) -> (r: Result<(), StartupError>)
        ensures
            r is Ok <==> self@.is_consistent(),
            r matches Err(e) ==> e@ == ErrorCause::Configuration(self@.violation_message()),
    {
        if self.boot_nodes_file.is_some() && self.deposit_deploy_block.is_none() {
            Err(StartupError::Configuration(String::from_str(
                "Supplying boot nodes requires the deposit contract deploy block",
            )))
        } else if self.genesis_state_file.is_some() && self.deposit_deploy_block.is_none() {
            Err(StartupError::Configuration(String::from_str(
                "Supplying a genesis state requires the deposit contract deploy block",
            )))
        } else if self.spec_file.is_some() && self.deposit_deploy_block.is_none() {
            Err(StartupError::Configuration(String::from_str(
                "Supplying a network specification requires the deposit contract deploy block",
            )))
        } else if self.deposit_deploy_block.is_some() && self.spec_file.is_none() {
            Err(StartupError::Configuration(String::from_str(
                "Supplying the deposit contract deploy block requires a network specification",
            )))
        } else {
            Ok(())
        }
    }
}

/// The resolved origin of the network configuration: exactly one source is
/// ever honoured per process run.
pub enum NetworkSource {
    /// A named, packaged preset.
    Preset(String),
    /// A custom directory holding the full configuration.
    CustomDirectory(String),
    /// A custom set of override files.
    CustomFiles(OverrideFiles),
    /// None given: the hard-coded default preset.
    DefaultPreset,
}

/// The mathematical value of [`NetworkSource`].
pub enum NetworkSourceSpec {
    Preset(Seq<char>),
    CustomDirectory(Seq<char>),
    CustomFiles(OverrideFilesSpec),
    DefaultPreset,
}

impl View for NetworkSource {
    type V = NetworkSourceSpec;

    open spec fn view(&self) -> NetworkSourceSpec {
        match self {
            NetworkSource::Preset(n) => NetworkSourceSpec::Preset(n@),
            NetworkSource::CustomDirectory(d) => NetworkSourceSpec::CustomDirectory(d@),
            NetworkSource::CustomFiles(f) => NetworkSourceSpec::CustomFiles(f@),
            NetworkSource::DefaultPreset => NetworkSourceSpec::DefaultPreset,
        }
    }
}

/// The name of the hard-coded default preset.
pub open spec fn spec_default_network_name() -> Seq<char> {
    "mainnet"@
}

/// Whether `n` names a packaged network preset.
pub open spec fn spec_is_known_preset(n: Seq<char>) -> bool {
    ||| n == "medalla"@
    ||| n == "altona"@
    ||| n == "spadina"@
    ||| n == "pyrmont"@
    ||| n == "mainnet"@
    ||| n == "toledo"@
    ||| n == "prater"@
    ||| n == "steklo"@
}

/// Tests whether `n` names a packaged network preset.
pub fn is_known_preset(n: &str) -> (b: bool)
    ensures
        b == spec_is_known_preset(n@),
{
    str_eq(n, "medalla") || str_eq(n, "altona") || str_eq(n, "spadina") || str_eq(n, "pyrmont")
        || str_eq(n, "mainnet") || str_eq(n, "toledo") || str_eq(n, "prater") || str_eq(
        n,
        "steklo",
    )
}

/// What source resolution returns for the given inputs: exactly one source
/// may be populated; a named preset must be known; override files must obey
/// their dependency rules.
pub open spec fn spec_resolve_network_source(
    preset: Option<Seq<char>>,
    custom_dir: Option<Seq<char>>,
    overrides: OverrideFilesSpec,
) -> Result<NetworkSourceSpec, ErrorCause> {
    let sources = (if preset is Some {
        1int
    } else {
        0int
    }) + (if custom_dir is Some {
        1int
    } else {
        0int
    }) + (if overrides.is_present() {
        1int
    } else {
        0int
    });
    if sources > 1 {
        Err(ErrorCause::Configuration("Invalid combination of testnet flags"@))
    } else if preset is Some {
        if spec_is_known_preset(preset->0) {
            Ok(NetworkSourceSpec::Preset(preset->0))
        } else {
            Err(ErrorCause::Configuration("Unknown network name: "@ + preset->0))
        }
    } else if custom_dir is Some {
        Ok(NetworkSourceSpec::CustomDirectory(custom_dir->0))
    } else if overrides.is_present() {
        if overrides.is_consistent() {
            Ok(NetworkSourceSpec::CustomFiles(overrides))
        } else {
            Err(ErrorCause::Configuration(overrides.violation_message()))
        }
    } else {
        Ok(NetworkSourceSpec::DefaultPreset)
    }
}

/// The view of a resolved source result.
pub open spec fn spec_source_result_view(r: Result<NetworkSource, StartupError>) -> Result<
    NetworkSourceSpec,
    ErrorCause,
> {
    match r {
        Ok(s) => Ok(s@),
        Err(e) => Err(e@),
    }
}

/// Resolves the origin of the network configuration from the three mutually
/// exclusive inputs, rejecting every combination that populates more than
/// one of them.
pub fn resolve_network_source(
    preset: Option<String>,
    custom_dir: Option<String>,
    overrides: OverrideFiles,
) -> (r: Result<NetworkSource, StartupError>)
    ensures
        spec_source_result_view(r) == spec_resolve_network_source(
            match preset {
                Some(ref n) => Some(n@),
                None => None,
            },
            match custom_dir {
                Some(ref d) => Some(d@),
                None => None,
            },
            overrides@,
        ),
{
    let mut sources: u32 = 0;
    if preset.is_some() {
        sources = sources + 1;
    }
    if custom_dir.is_some() {
        sources = sources + 1;
    }
    if overrides.present() {
        sources = sources + 1;
    }
    if sources > 1 {
        return Err(StartupError::Configuration(String::from_str(
            "Invalid combination of testnet flags",
        )));
    }
    match preset {
        Some(n) => {
            if is_known_preset(n.as_str()) {
                Ok(NetworkSource::Preset(n))
            } else {
                Err(StartupError::Configuration(String::from_str("Unknown network name: ").concat(
                    n.as_str(),
                )))
            }
        },
        None => {
            match custom_dir {
                Some(d) => Ok(NetworkSource::CustomDirectory(d)),
                None => {
                    if overrides.present() {
                        match overrides.validate() {
                            Ok(_) => Ok(NetworkSource::CustomFiles(overrides)),
                            Err(e) => Err(e),
                        }
                    } else {
                        Ok(NetworkSource::DefaultPreset)
                    }
                },
            }
        },
    }
}

/// Whether a resolved source is well formed: override files, if they are the
/// source, are present and obey their dependency rules.
pub open spec fn spec_source_wf(s: NetworkSourceSpec) -> bool {
    match s {
        NetworkSourceSpec::CustomFiles(f) => f.is_present() && f.is_consistent(),
        _ => true,
    }
}

/// The network name recorded in the startup log: the preset name if one was
/// given; else "custom" annotated with the directory; else "custom" loaded
/// from the override specification file; else the default preset's name.
/// Exactly one of the four forms is chosen.
pub open spec fn spec_network_display_name(s: NetworkSourceSpec) -> Seq<char> {
    match s {
        NetworkSourceSpec::Preset(n) => n,
        NetworkSourceSpec::CustomDirectory(d) => "custom ("@ + d + ")"@,
        NetworkSourceSpec::CustomFiles(f) => "custom loaded from "@ + f.spec_file->0,
        NetworkSourceSpec::DefaultPreset => spec_default_network_name(),
    }
}

/// Renders the network name for the startup log record.
pub fn network_display_name(s: &NetworkSource) -> (name: String)
    requires
        spec_source_wf(s@),
    ensures
        name@ == spec_network_display_name(s@),
{
    match s {
        NetworkSource::Preset(n) => n.clone(),
        NetworkSource::CustomDirectory(d) => {
            String::from_str("custom (").concat(d.as_str()).concat(")")
        },
        NetworkSource::CustomFiles(f) => {
            match f.spec_file {
                Some(ref p) => String::from_str("custom loaded from ").concat(p.as_str()),
                None => String::from_str("custom"),
            }
        },
        NetworkSource::DefaultPreset => String::from_str("mainnet"),
    }
}

/// The resolved, immutable network bundle handed to the runtime context:
/// its origin and the consensus parameter set it demands.
pub struct NetworkConfiguration {
    /// Where the configuration came from.
    pub source: NetworkSource,
    /// The consensus parameter set the configuration demands.
    pub variant: SpecVariant,
}

/// The mathematical value of [`NetworkConfiguration`].
pub struct NetworkConfigurationSpec {
    pub source: NetworkSourceSpec,
    pub variant: SpecVariant,
}

impl View for NetworkConfiguration {
    type V = NetworkConfigurationSpec;

    open spec fn view(&self) -> NetworkConfigurationSpec {
        NetworkConfigurationSpec { source: self.source@, variant: self.variant }
    }
}

} // verus!
