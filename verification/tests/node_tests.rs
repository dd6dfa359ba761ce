use subspace_node::error::Error;
use subspace_node::node::{
    applies_chain_ss58_format, benchmark_decision, benchmarks_not_enabled_message,
    command_implemented, legacy_chain_paths, plan_full_node, raise_default_out_peers,
    require_secondary_chain_spec, BenchmarkDecision, BenchmarkKind, CommandKind,
};

#[test]
fn default_out_peers_are_raised() {
    assert_eq!(raise_default_out_peers(25), 50);
    assert_eq!(raise_default_out_peers(50), 50);
    assert_eq!(raise_default_out_peers(10), 10);
    assert_eq!(raise_default_out_peers(raise_default_out_peers(25)), 50);
}

#[test]
fn ss58_applied_by_chain_commands() {
    for k in [
        CommandKind::CheckBlock,
        CommandKind::ExportBlocks,
        CommandKind::ExportState,
        CommandKind::ImportBlocks,
        CommandKind::ImportBlocksFromDsn,
        CommandKind::Revert,
        CommandKind::RunNode,
    ] {
        assert!(applies_chain_ss58_format(k));
    }
    for k in [
        CommandKind::Key,
        CommandKind::BuildSpec,
        CommandKind::PurgeChain,
        CommandKind::ChainInfo,
        CommandKind::Benchmark,
        CommandKind::Executor,
    ] {
        assert!(!applies_chain_ss58_format(k));
    }
}

#[test]
fn executor_command_not_implemented() {
    assert!(!command_implemented(CommandKind::Executor));
    assert!(command_implemented(CommandKind::RunNode));
}

#[test]
fn benchmark_decisions() {
    assert_eq!(benchmark_decision(BenchmarkKind::Pallet, false), BenchmarkDecision::NotEnabled);
    assert_eq!(benchmark_decision(BenchmarkKind::Pallet, true), BenchmarkDecision::Run);
    assert_eq!(benchmark_decision(BenchmarkKind::Overhead, true), BenchmarkDecision::NotImplemented);
    assert_eq!(benchmark_decision(BenchmarkKind::Extrinsic, false), BenchmarkDecision::NotImplemented);
    assert_eq!(benchmark_decision(BenchmarkKind::Block, false), BenchmarkDecision::Run);
    assert_eq!(benchmark_decision(BenchmarkKind::Storage, false), BenchmarkDecision::Run);
    assert_eq!(benchmark_decision(BenchmarkKind::Machine, false), BenchmarkDecision::Run);
    assert_eq!(
        benchmarks_not_enabled_message(),
        "Runtime benchmarking wasn't enabled when building the node. You can enable it with `--features runtime-benchmarks`."
    );
}

#[test]
fn secondary_node_follows_its_arguments() {
    let none: Vec<String> = vec![];
    let p = plan_full_node(&none);
    assert!(!p.run_secondary_node && !p.force_new_slot_notifications);
    let some = vec!["--chain".to_string(), "dev".to_string()];
    let p = plan_full_node(&some);
    assert!(p.run_secondary_node && p.force_new_slot_notifications);
}

#[test]
fn missing_secondary_spec_is_an_error() {
    assert_eq!(require_secondary_chain_spec(Some(3u32)).ok(), Some(3));
    match require_secondary_chain_spec::<u32>(None) {
        Err(Error::Other(m)) => {
            assert_eq!(m, "Primary chain spec must contain secondary chain spec")
        }
        other => panic!("unexpected {:?}", other),
    }
}

#[test]
fn legacy_chain_paths_listed() {
    let paths = legacy_chain_paths();
    let expected = ["subspace_gemini_1b", "Lamda_2513", "Lamda_2513_2", "Lamda_2513_3"];
    assert_eq!(paths.len(), 4);
    for (path, name) in paths.iter().zip(expected.iter()) {
        assert_eq!(path, &vec!["subspace-node".to_string(), "chains".to_string(), name.to_string()]);
    }
}
