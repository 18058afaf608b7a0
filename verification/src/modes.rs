//! Operating-mode selection.
//!
//! Exactly one operating mode is active per process invocation. The selector
//! is a pure mapping from the invoked subcommand name to the mode; with no
//! recognised subcommand it fails with a configuration error, so the design
//! rejects zero modes as firmly as it rejects two.

use crate::errors::{ErrorCause, StartupError};
use vstd::prelude::*;

verus! {

/// The mutually exclusive top-level task the process performs.
///
/// The first three modes run as supervised background work; the last two are
/// synchronous: they run to completion on the calling thread and never enter
/// the supervised-shutdown path.
#[derive(Clone, Copy, PartialEq, Eq, Structural, Debug)]
pub enum OperatingMode {
    /// The network-serving daemon (the beacon node).
    ServingNode,
    /// The signing/validation client (the validator client).
    SigningClient,
    /// The remote-signing service.
    RemoteSigner,
    /// The one-shot account management utility; synchronous.
    ManagementUtility,
    /// The lightweight peer-discovery helper (the boot node); synchronous.
    DiscoveryHelper,
}

/// Whether the mode runs to completion on the calling thread instead of
/// being launched as supervised background work.
pub open spec fn spec_is_synchronous(mode: OperatingMode) -> bool {
    mode is ManagementUtility || mode is DiscoveryHelper
}

impl OperatingMode {
    /// Whether this mode runs synchronously on the calling thread.
    pub fn is_synchronous(&self) -> (b: bool)
        ensures
            b == spec_is_synchronous(*self),
    {
        match self {
            OperatingMode::ManagementUtility => true,
            OperatingMode::DiscoveryHelper => true,
            _ => false,
        }
    }
}

/// The mode selected by a subcommand name, if the name is recognised.
pub open spec fn spec_mode_of_subcommand(name: Option<Seq<char>>) -> Option<OperatingMode> {
    match name {
        None => None,
        Some(n) => if n == "beacon_node"@ {
            Some(OperatingMode::ServingNode)
        } else if n == "validator_client"@ {
            Some(OperatingMode::SigningClient)
        } else if n == "remote_signer"@ {
            Some(OperatingMode::RemoteSigner)
        } else if n == "account_manager"@ {
            Some(OperatingMode::ManagementUtility)
        } else if n == "boot_node"@ {
            Some(OperatingMode::DiscoveryHelper)
        } else {
            None
        },
    }
}

/// The view of an optional subcommand name.
pub open spec fn spec_opt_name(name: Option<&String>) -> Option<Seq<char>> {
    match name {
        None => None,
        Some(n) => Some(n@),
    }
}

/// Maps the invoked subcommand to exactly one operating mode, or fails with
/// a configuration error when none was supplied or the name is unknown.
pub fn select_mode(subcommand: Option<&String>) -> (r: Result<OperatingMode, StartupError>)
    ensures
        match spec_mode_of_subcommand(spec_opt_name(subcommand)) {
            Some(mode) => r == Ok::<OperatingMode, StartupError>(mode),
            None => r matches Err(e) && e@ == ErrorCause::Configuration(
                "No subcommand supplied."@,
            ),
        },
{
    match subcommand {
        None => Err(StartupError::Configuration(String::from_str("No subcommand supplied."))),
        Some(name) => {
            let n = name.as_str();
            if crate::strutil::str_eq(n, "beacon_node") {
                Ok(OperatingMode::ServingNode)
            } else if crate::strutil::str_eq(n, "validator_client") {
                Ok(OperatingMode::SigningClient)
            } else if crate::strutil::str_eq(n, "remote_signer") {
                Ok(OperatingMode::RemoteSigner)
            } else if crate::strutil::str_eq(n, "account_manager") {
                Ok(OperatingMode::ManagementUtility)
            } else if crate::strutil::str_eq(n, "boot_node") {
                Ok(OperatingMode::DiscoveryHelper)
            } else {
                Err(StartupError::Configuration(String::from_str("No subcommand supplied.")))
            }
        },
    }
}

} // verus!
