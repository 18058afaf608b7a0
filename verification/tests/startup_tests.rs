use lighthouse::context::{logging_outcome, parse_debug_level, parse_log_format, startup_log_line, DebugLevel, LogFormat};
use lighthouse::errors::{startup_exit_status, StartupError};
use lighthouse::modes::{select_mode, OperatingMode};
use lighthouse::network::{
    bls_library_name, check_spec_capability, is_known_preset, network_display_name,
    resolve_network_source, BuildCapabilities, NetworkSource, OverrideFiles, SpecVariant,
};
use lighthouse::startup::{
    check_architecture, resolve_startup, run_process, CliConfig, ProcessOutcome,
};
use lighthouse::strutil::decimal_string;
use lighthouse::supervisor::{LaunchPlan, ServiceEvent};

fn no_capabilities() -> BuildCapabilities {
    BuildCapabilities {
        reduced_spec: false,
        legacy_spec: false,
        bls_portable: false,
        bls_modern: false,
        bls_milagro: false,
    }
}

fn no_overrides() -> OverrideFiles {
    OverrideFiles {
        spec_file: None,
        boot_nodes_file: None,
        genesis_state_file: None,
        deposit_deploy_block: None,
    }
}

fn base_config(subcommand: &str) -> CliConfig {
    CliConfig {
        subcommand: Some(subcommand.to_string()),
        debug_level: "info".to_string(),
        logfile: None,
        log_format: None,
        network: None,
        testnet_dir: None,
        overrides: no_overrides(),
        immediate_shutdown: false,
        dump_config: None,
    }
}

#[test]
fn select_mode_maps_each_subcommand() {
    assert_eq!(
        select_mode(Some(&"beacon_node".to_string())).unwrap(),
        OperatingMode::ServingNode
    );
    assert_eq!(
        select_mode(Some(&"validator_client".to_string())).unwrap(),
        OperatingMode::SigningClient
    );
    assert_eq!(
        select_mode(Some(&"remote_signer".to_string())).unwrap(),
        OperatingMode::RemoteSigner
    );
    assert_eq!(
        select_mode(Some(&"account_manager".to_string())).unwrap(),
        OperatingMode::ManagementUtility
    );
    assert_eq!(
        select_mode(Some(&"boot_node".to_string())).unwrap(),
        OperatingMode::DiscoveryHelper
    );
}

#[test]
fn select_mode_rejects_missing_and_unknown_subcommands() {
    let missing = select_mode(None);
    match missing {
        Err(StartupError::Configuration(m)) => assert_eq!(m, "No subcommand supplied."),
        _ => panic!("expected a configuration error"),
    }
    let unknown = select_mode(Some(&"telemetry".to_string()));
    match unknown {
        Err(StartupError::Configuration(m)) => assert_eq!(m, "No subcommand supplied."),
        _ => panic!("expected a configuration error"),
    }
}

#[test]
fn more_than_one_network_source_is_rejected() {
    let both = resolve_network_source(
        Some("mainnet".to_string()),
        Some("/tmp/testnet".to_string()),
        no_overrides(),
    );
    match both {
        Err(StartupError::Configuration(m)) => {
            assert_eq!(m, "Invalid combination of testnet flags")
        }
        _ => panic!("expected a configuration error"),
    }

    let mut overrides = no_overrides();
    overrides.spec_file = Some("/tmp/config.yaml".to_string());
    overrides.deposit_deploy_block = Some(11052984);
    let preset_and_files =
        resolve_network_source(Some("prater".to_string()), None, overrides);
    match preset_and_files {
        Err(StartupError::Configuration(m)) => {
            assert_eq!(m, "Invalid combination of testnet flags")
        }
        _ => panic!("expected a configuration error"),
    }

    let mut overrides = no_overrides();
    overrides.deposit_deploy_block = Some(1);
    let all_three = resolve_network_source(
        Some("mainnet".to_string()),
        Some("/tmp/testnet".to_string()),
        overrides,
    );
    assert!(matches!(all_three, Err(StartupError::Configuration(_))));
}

#[test]
fn multiple_sources_fail_before_any_context_is_built() {
    let mut cfg = base_config("beacon_node");
    cfg.network = Some("mainnet".to_string());
    cfg.testnet_dir = Some("/tmp/testnet".to_string());
    let resolved = resolve_startup(cfg, SpecVariant::Standard, &no_capabilities());
    match resolved {
        Err(StartupError::Configuration(m)) => {
            assert_eq!(m, "Invalid combination of testnet flags")
        }
        _ => panic!("expected a configuration error"),
    }
}

#[test]
fn single_network_sources_resolve() {
    let preset = resolve_network_source(Some("prater".to_string()), None, no_overrides());
    match preset {
        Ok(NetworkSource::Preset(n)) => assert_eq!(n, "prater"),
        _ => panic!("expected the named preset"),
    }

    let dir = resolve_network_source(None, Some("/data/net".to_string()), no_overrides());
    match dir {
        Ok(NetworkSource::CustomDirectory(d)) => assert_eq!(d, "/data/net"),
        _ => panic!("expected the custom directory"),
    }

    let none = resolve_network_source(None, None, no_overrides());
    assert!(matches!(none, Ok(NetworkSource::DefaultPreset)));
}

#[test]
fn unknown_preset_name_is_rejected() {
    let unknown = resolve_network_source(Some("atlantis".to_string()), None, no_overrides());
    match unknown {
        Err(StartupError::Configuration(m)) => {
            assert_eq!(m, "Unknown network name: atlantis")
        }
        _ => panic!("expected a configuration error"),
    }
    assert!(is_known_preset("mainnet"));
    assert!(is_known_preset("steklo"));
    assert!(!is_known_preset("atlantis"));
    assert!(!is_known_preset(""));
}

#[test]
fn override_files_need_their_companions() {
    let mut overrides = no_overrides();
    overrides.boot_nodes_file = Some("/tmp/boot.yaml".to_string());
    let missing_block = resolve_network_source(None, None, overrides);
    match missing_block {
        Err(StartupError::Configuration(m)) => assert_eq!(
            m,
            "Supplying boot nodes requires the deposit contract deploy block"
        ),
        _ => panic!("expected a configuration error"),
    }

    let mut overrides = no_overrides();
    overrides.deposit_deploy_block = Some(11052984);
    let missing_spec = resolve_network_source(None, None, overrides);
    match missing_spec {
        Err(StartupError::Configuration(m)) => assert_eq!(
            m,
            "Supplying the deposit contract deploy block requires a network specification"
        ),
        _ => panic!("expected a configuration error"),
    }

    let mut overrides = no_overrides();
    overrides.spec_file = Some("/tmp/config.yaml".to_string());
    overrides.boot_nodes_file = Some("/tmp/boot.yaml".to_string());
    overrides.genesis_state_file = Some("/tmp/genesis.ssz".to_string());
    overrides.deposit_deploy_block = Some(11052984);
    let complete = resolve_network_source(None, None, overrides);
    match complete {
        Ok(NetworkSource::CustomFiles(f)) => {
            assert_eq!(f.deposit_deploy_block, Some(11052984))
        }
        _ => panic!("expected the override files"),
    }
}

#[test]
fn network_names_take_exactly_one_of_four_forms() {
    assert_eq!(
        network_display_name(&NetworkSource::Preset("prater".to_string())),
        "prater"
    );
    assert_eq!(
        network_display_name(&NetworkSource::CustomDirectory("/data/net".to_string())),
        "custom (/data/net)"
    );
    let mut overrides = no_overrides();
    overrides.spec_file = Some("/tmp/config.yaml".to_string());
    overrides.deposit_deploy_block = Some(1);
    assert_eq!(
        network_display_name(&NetworkSource::CustomFiles(overrides)),
        "custom loaded from /tmp/config.yaml"
    );
    assert_eq!(network_display_name(&NetworkSource::DefaultPreset), "mainnet");
}

#[test]
fn missing_capability_exits_with_status_one_and_names_it() {
    let cfg = base_config("beacon_node");
    let outcome = run_process(
        cfg,
        SpecVariant::Reduced,
        &no_capabilities(),
        Ok(()),
        Vec::new(),
    );
    match outcome {
        ProcessOutcome::Exit(status, Some(message)) => {
            assert_eq!(status, 1);
            assert!(message.contains("reduced-spec"));
        }
        _ => panic!("expected a failing exit"),
    }
}

#[test]
fn capability_check_is_exact() {
    let mut caps = no_capabilities();
    assert!(check_spec_capability(SpecVariant::Standard, &caps).is_ok());
    assert!(matches!(
        check_spec_capability(SpecVariant::Reduced, &caps),
        Err(StartupError::Capability(SpecVariant::Reduced))
    ));
    assert!(matches!(
        check_spec_capability(SpecVariant::Legacy, &caps),
        Err(StartupError::Capability(SpecVariant::Legacy))
    ));
    caps.reduced_spec = true;
    caps.legacy_spec = true;
    assert!(check_spec_capability(SpecVariant::Reduced, &caps).is_ok());
    assert!(check_spec_capability(SpecVariant::Legacy, &caps).is_ok());
}

#[test]
fn debug_levels_parse_exactly() {
    assert_eq!(parse_debug_level("trace").unwrap(), DebugLevel::Trace);
    assert_eq!(parse_debug_level("debug").unwrap(), DebugLevel::Debug);
    assert_eq!(parse_debug_level("info").unwrap(), DebugLevel::Info);
    assert_eq!(parse_debug_level("warn").unwrap(), DebugLevel::Warn);
    assert_eq!(parse_debug_level("error").unwrap(), DebugLevel::Error);
    assert_eq!(parse_debug_level("crit").unwrap(), DebugLevel::Crit);
    assert!(matches!(
        parse_debug_level("verbose"),
        Err(StartupError::Configuration(_))
    ));
    assert!(matches!(
        parse_debug_level("INFO"),
        Err(StartupError::Configuration(_))
    ));
}

#[test]
fn log_format_accepts_only_json() {
    assert_eq!(parse_log_format("JSON").unwrap(), LogFormat::Json);
    assert!(matches!(
        parse_log_format("json"),
        Err(StartupError::Configuration(_))
    ));
    assert!(matches!(
        parse_log_format(""),
        Err(StartupError::Configuration(_))
    ));
}

#[test]
fn bls_library_name_follows_build_priority() {
    let mut caps = no_capabilities();
    assert_eq!(bls_library_name(&caps), "blst");
    caps.bls_milagro = true;
    assert_eq!(bls_library_name(&caps), "milagro");
    caps.bls_modern = true;
    assert_eq!(bls_library_name(&caps), "blst-modern");
    caps.bls_portable = true;
    assert_eq!(bls_library_name(&caps), "blst-portable");
}

#[test]
fn architecture_must_be_64_bit() {
    assert!(check_architecture(64).is_ok());
    match check_architecture(32) {
        Err(StartupError::Environment(m)) => {
            assert_eq!(m, "32-bit architecture is not supported (64-bit only).")
        }
        _ => panic!("expected an environment error"),
    }
    match check_architecture(16) {
        Err(StartupError::Environment(m)) => {
            assert_eq!(m, "16-bit architecture is not supported (64-bit only).")
        }
        _ => panic!("expected an environment error"),
    }
}

#[test]
fn decimal_rendering_is_exact() {
    assert_eq!(decimal_string(0), "0");
    assert_eq!(decimal_string(7), "7");
    assert_eq!(decimal_string(32), "32");
    assert_eq!(decimal_string(11052984), "11052984");
    assert_eq!(decimal_string(u64::MAX), "18446744073709551615");
}

#[test]
fn missing_capability_preempts_every_other_startup_error() {
    let mut cfg = base_config("beacon_node");
    cfg.subcommand = None;
    cfg.debug_level = "loud".to_string();
    cfg.network = Some("mainnet".to_string());
    cfg.testnet_dir = Some("/tmp/testnet".to_string());
    let outcome = run_process(
        cfg,
        SpecVariant::Legacy,
        &no_capabilities(),
        Ok(()),
        Vec::new(),
    );
    match outcome {
        ProcessOutcome::Exit(status, Some(message)) => {
            assert_eq!(status, 1);
            assert!(message.contains("legacy-spec"));
        }
        _ => panic!("expected a failing exit"),
    }
}

#[test]
fn capability_error_message_names_the_capability() {
    let reduced = StartupError::Capability(SpecVariant::Reduced).message();
    assert!(reduced.contains("reduced-spec"));
    let legacy = StartupError::Capability(SpecVariant::Legacy).message();
    assert!(legacy.contains("legacy-spec"));
}

#[test]
fn resolved_plan_carries_every_decision() {
    let mut cfg = base_config("beacon_node");
    cfg.logfile = Some("/var/log/node.log".to_string());
    cfg.log_format = Some("JSON".to_string());
    cfg.debug_level = "debug".to_string();
    cfg.dump_config = Some("/tmp/dump.json".to_string());
    let plan = resolve_startup(cfg, SpecVariant::Standard, &no_capabilities()).unwrap();
    assert_eq!(plan.mode, OperatingMode::ServingNode);
    assert_eq!(plan.network_name, "mainnet");
    assert_eq!(plan.launch, LaunchPlan::StartService);
    assert_eq!(plan.context.debug_level, DebugLevel::Debug);
    assert_eq!(plan.context.log_format, Some(LogFormat::Json));
    assert_eq!(plan.dump_config, Some("/tmp/dump.json".to_string()));
    assert!(!plan.immediate_shutdown);
}

#[test]
fn invalid_debug_level_fails_startup() {
    let mut cfg = base_config("beacon_node");
    cfg.debug_level = "loud".to_string();
    let resolved = resolve_startup(cfg, SpecVariant::Standard, &no_capabilities());
    match resolved {
        Err(StartupError::Configuration(m)) => assert_eq!(m, "Invalid debug level"),
        _ => panic!("expected a configuration error"),
    }
}

#[test]
fn management_utility_exits_with_the_utility_outcome() {
    let cfg = base_config("account_manager");
    let ok = run_process(
        cfg,
        SpecVariant::Standard,
        &no_capabilities(),
        Ok(()),
        vec![ServiceEvent::Interrupt],
    );
    assert!(matches!(ok, ProcessOutcome::Exit(0, None)));

    let cfg = base_config("account_manager");
    let failed = run_process(
        cfg,
        SpecVariant::Standard,
        &no_capabilities(),
        Err("wallet not found".to_string()),
        Vec::new(),
    );
    match failed {
        ProcessOutcome::Exit(status, Some(message)) => {
            assert_eq!(status, 1);
            assert_eq!(message, "wallet not found");
        }
        _ => panic!("expected a failing exit"),
    }
}

#[test]
fn serving_node_with_interrupt_exits_cleanly() {
    let cfg = base_config("beacon_node");
    let outcome = run_process(
        cfg,
        SpecVariant::Standard,
        &no_capabilities(),
        Ok(()),
        vec![ServiceEvent::Interrupt],
    );
    assert!(matches!(outcome, ProcessOutcome::Exit(0, None)));
}

#[test]
fn signing_client_failure_surfaces_the_service_message() {
    let cfg = base_config("validator_client");
    let outcome = run_process(
        cfg,
        SpecVariant::Standard,
        &no_capabilities(),
        Ok(()),
        vec![ServiceEvent::ServiceFailed(
            "unable to connect to signer".to_string(),
        )],
    );
    match outcome {
        ProcessOutcome::Exit(status, Some(message)) => {
            assert_eq!(status, 1);
            assert!(message.contains("unable to connect to signer"));
            assert_eq!(
                message,
                "Failed to start validator client: unable to connect to signer"
            );
        }
        _ => panic!("expected a failing exit"),
    }
}

#[test]
fn discovery_helper_runs_synchronously() {
    let cfg = base_config("boot_node");
    let outcome = run_process(
        cfg,
        SpecVariant::Standard,
        &no_capabilities(),
        Ok(()),
        Vec::new(),
    );
    assert!(matches!(outcome, ProcessOutcome::Exit(0, None)));
}

#[test]
fn startup_outcomes_map_to_exit_statuses() {
    assert_eq!(startup_exit_status(&Ok(())), 0);
    assert_eq!(
        startup_exit_status(&Err(StartupError::Capability(SpecVariant::Reduced))),
        1
    );
}

#[test]
fn a_failed_log_destination_is_an_environment_error() {
    assert!(logging_outcome(Ok(())).is_ok());
    match logging_outcome(Err("permission denied".to_string())) {
        Err(StartupError::Environment(m)) => assert_eq!(
            m,
            "Failed to prepare the log destination: permission denied"
        ),
        _ => panic!("expected an environment error"),
    }
}

#[test]
fn the_startup_log_carries_version_and_network() {
    assert_eq!(
        startup_log_line(&"Lighthouse/v1.3.0".to_string(), &"prater".to_string()),
        "Lighthouse started, version: Lighthouse/v1.3.0, configured for network: prater"
    );
}

#[test]
fn a_run_with_no_terminating_event_is_still_running() {
    let cfg = base_config("beacon_node");
    let outcome = run_process(
        cfg,
        SpecVariant::Standard,
        &no_capabilities(),
        Ok(()),
        vec![ServiceEvent::ServiceCompleted],
    );
    assert!(matches!(outcome, ProcessOutcome::StillRunning));
}
