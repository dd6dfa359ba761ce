//! Decisions of the node's command line front end: which commands apply the
//! chain's address format, how peer counts are defaulted, when the secondary
//! (execution) chain runs, and what the chain-purging command removes.
use vstd::prelude::*;
use crate::error::Error;

verus! {

/// The out-peer count that the command line uses when none is given.
pub const DEFAULT_OUT_PEERS: u32 = 25;

/// The out-peer count the node uses in place of that default.
pub const RAISED_OUT_PEERS: u32 = 50;

/// The out-peer count after the node raises the command line's default.
pub open spec fn raised_out_peers(out_peers: u32) -> u32 {
    if out_peers == DEFAULT_OUT_PEERS {
        RAISED_OUT_PEERS
    } else {
        out_peers
    }
}

/// Increases the default number of peers: the command line's default count
/// is replaced by a larger one, any other count is kept.
pub fn raise_default_out_peers(out_peers: u32) -> (res: u32)
    ensures
        res == raised_out_peers(out_peers),
        out_peers == 25 ==> res == 50,
        out_peers != 25 ==> res == out_peers,
{
    if out_peers == DEFAULT_OUT_PEERS {
        RAISED_OUT_PEERS
    } else {
        out_peers
    }
}

/// The default count 25 becomes 50, and every other count is kept.
pub proof fn lemma_raise_out_peers_values(out_peers: u32)
    ensures
        raised_out_peers(25) == 50,
        out_peers != 25 ==> raised_out_peers(out_peers) == out_peers,
{
}

/// Raising the default is done once and for all: raising an already raised
/// count changes nothing.
pub proof fn lemma_raise_out_peers_idempotent(out_peers: u32)
    ensures
        raised_out_peers(raised_out_peers(out_peers)) == raised_out_peers(out_peers),
{
}

/// Only the command line's default is changed, and the count never drops.
pub proof fn lemma_raise_out_peers_only_default(out_peers: u32)
    ensures
        raised_out_peers(out_peers) != out_peers <==> out_peers == DEFAULT_OUT_PEERS,
        raised_out_peers(out_peers) >= out_peers,
{
}

/// The commands of the node.
#[derive(Debug, Clone, Copy, PartialEq, Eq, Structural)]
pub enum CommandKind {
    Key,
    BuildSpec,
    CheckBlock,
    ExportBlocks,
    ExportState,
    ImportBlocks,
    ImportBlocksFromDsn,
    PurgeChain,
    Revert,
    ChainInfo,
    Benchmark,
    Executor,
    /// No subcommand: run the node.
    RunNode,
}

/// Whether a command makes the chain specification's address format the
/// default before it runs: those that read or write the chain's blocks and
/// state, and running the node.
pub open spec fn applies_chain_ss58_format_spec(kind: CommandKind) -> bool {
    match kind {
        CommandKind::CheckBlock | CommandKind::ExportBlocks | CommandKind::ExportState
        | CommandKind::ImportBlocks | CommandKind::ImportBlocksFromDsn | CommandKind::Revert
        | CommandKind::RunNode => true,
        _ => false,
    }
}

/// Whether a command makes the chain specification's address format the
/// default before it runs.
pub fn applies_chain_ss58_format(kind: CommandKind) -> (res: bool)
    ensures
        res == applies_chain_ss58_format_spec(kind),
        res <==> (kind is CheckBlock || kind is ExportBlocks || kind is ExportState
            || kind is ImportBlocks || kind is ImportBlocksFromDsn || kind is Revert
            || kind is RunNode),
{
    match kind {
        CommandKind::CheckBlock | CommandKind::ExportBlocks | CommandKind::ExportState
        | CommandKind::ImportBlocks | CommandKind::ImportBlocksFromDsn | CommandKind::Revert
        | CommandKind::RunNode => true,
        _ => false,
    }
}

/// Whether the node implements a command (the executor command is not).
pub fn command_implemented(kind: CommandKind) -> (res: bool)
    ensures
        res == (kind != CommandKind::Executor),
{
    match kind {
        CommandKind::Executor => false,
        _ => true,
    }
}

/// The benchmarks of the benchmark command.
#[derive(Debug, Clone, Copy, PartialEq, Eq, Structural)]
pub enum BenchmarkKind {
    Pallet,
    Block,
    Storage,
    Overhead,
    Machine,
    Extrinsic,
}

/// What the node does with a benchmark request.
#[derive(Debug, Clone, Copy, PartialEq, Eq, Structural)]
pub enum BenchmarkDecision {
    /// Run the benchmark.
    Run,
    /// Refuse: runtime benchmarking was not built into the node.
    NotEnabled,
    /// The node has no implementation of this benchmark.
    NotImplemented,
}

/// What the node does with a benchmark request, given whether runtime
/// benchmarking was built in.
pub open spec fn benchmark_decision_spec(kind: BenchmarkKind, runtime_benchmarks: bool) -> BenchmarkDecision {
    match kind {
        BenchmarkKind::Pallet => if runtime_benchmarks {
            BenchmarkDecision::Run
        } else {
            BenchmarkDecision::NotEnabled
        },
        BenchmarkKind::Overhead | BenchmarkKind::Extrinsic => BenchmarkDecision::NotImplemented,
        _ => BenchmarkDecision::Run,
    }
}

/// Decides a benchmark request: pallet benchmarks need runtime
/// benchmarking built in, the overhead and extrinsic benchmarks are not
/// implemented, the others run.
pub fn benchmark_decision(kind: BenchmarkKind, runtime_benchmarks: bool) -> (res: BenchmarkDecision)
    ensures
        res == benchmark_decision_spec(kind, runtime_benchmarks),
        kind is Pallet ==> (res == BenchmarkDecision::Run <==> runtime_benchmarks),
        kind is Pallet && !runtime_benchmarks ==> res == BenchmarkDecision::NotEnabled,
        (kind is Overhead || kind is Extrinsic) ==> res == BenchmarkDecision::NotImplemented,
        (kind is Block || kind is Storage || kind is Machine) ==> res == BenchmarkDecision::Run,
{
    match kind {
        BenchmarkKind::Pallet => if runtime_benchmarks {
            BenchmarkDecision::Run
        } else {
            BenchmarkDecision::NotEnabled
        },
        BenchmarkKind::Overhead | BenchmarkKind::Extrinsic => BenchmarkDecision::NotImplemented,
        _ => BenchmarkDecision::Run,
    }
}

/// Only pallet benchmarks depend on whether runtime benchmarking was built
/// in: block, storage and machine benchmarks always run, overhead and
/// extrinsic benchmarks are never implemented, and a pallet benchmark runs
/// exactly when runtime benchmarking was built in and is refused otherwise.
pub proof fn lemma_benchmark_decisions(kind: BenchmarkKind, runtime_benchmarks: bool)
    ensures
        kind !is Pallet ==> benchmark_decision_spec(kind, runtime_benchmarks)
            == benchmark_decision_spec(kind, !runtime_benchmarks),
        (kind is Block || kind is Storage || kind is Machine) ==> benchmark_decision_spec(
            kind,
            runtime_benchmarks,
        ) == BenchmarkDecision::Run,
        (kind is Overhead || kind is Extrinsic) ==> benchmark_decision_spec(kind, runtime_benchmarks)
            == BenchmarkDecision::NotImplemented,
        benchmark_decision_spec(BenchmarkKind::Pallet, true) == BenchmarkDecision::Run,
        benchmark_decision_spec(BenchmarkKind::Pallet, false) == BenchmarkDecision::NotEnabled,
{
}

/// The message with which a pallet benchmark is refused when runtime
/// benchmarking was not built in.
pub fn benchmarks_not_enabled_message() -> (res: String)
    ensures
        res@ == "Runtime benchmarking wasn't enabled when building the node. You can enable it with `--features runtime-benchmarks`."@,
{
    String::from_str(
        "Runtime benchmarking wasn't enabled when building the node. You can enable it with `--features runtime-benchmarks`.",
    )
}

/// How a full node is started.
pub struct FullNodePlan {
    /// Whether the primary node sends new-slot notifications to a
    /// secondary node.
    pub force_new_slot_notifications: bool,
    /// Whether a secondary (execution) chain node runs beside the primary.
    pub run_secondary_node: bool,
}

/// Plans a full node from the arguments given for the secondary chain: the
/// secondary node runs exactly when it has arguments, and it gets the slot
/// notifications it needs for bundle production exactly when it runs.
pub fn plan_full_node<A>(secondary_chain_args: &Vec<A>) -> (res: FullNodePlan)
    ensures
        res.run_secondary_node == (secondary_chain_args@.len() > 0),
        res.force_new_slot_notifications == res.run_secondary_node,
{
    let run = secondary_chain_args.len() > 0;
    FullNodePlan { force_new_slot_notifications: run, run_secondary_node: run }
}

/// The message of the error given when the primary chain specification has
/// no secondary chain specification.
pub open spec fn missing_secondary_spec_message() -> Seq<char> {
    "Primary chain spec must contain secondary chain spec"@
}

/// The secondary chain specification that the primary chain specification
/// carries; without one, the commands that need it fail.
pub fn require_secondary_chain_spec<S>(spec: Option<S>) -> (res: Result<S, Error>)
    ensures
        spec matches Some(s) ==> res == Ok::<S, Error>(s),
        spec is None ==> (res matches Err(Error::Other(m)) && m@ == missing_secondary_spec_message()),
        spec is None ==> (res matches Err(Error::Other(m)) && m@
            == "Primary chain spec must contain secondary chain spec"@),
{
    match spec {
        Some(s) => Ok(s),
        None => Err(Error::from(String::from_str("Primary chain spec must contain secondary chain spec"))),
    }
}

/// Directory, under the local data directory, that held the chains of
/// earlier releases.
pub open spec fn legacy_chains_dir() -> Seq<Seq<char>> {
    seq!["subspace-node"@, "chains"@]
}

/// Chains of earlier releases whose data the chain-purging command removes.
pub open spec fn legacy_chain_names() -> Seq<Seq<char>> {
    seq!["subspace_gemini_1b"@, "Lamda_2513"@, "Lamda_2513_2"@, "Lamda_2513_3"@]
}

/// Paths, relative to the local data directory, of the data of the chains of
/// earlier releases; the chain-purging command removes them before it runs,
/// to wipe old data from users' disks.
pub fn legacy_chain_paths() -> (res: Vec<Vec<String>>)
    ensures
        res@.len() == legacy_chain_names().len(),
        forall|i: int|
            0 <= i < res@.len() ==> (#[trigger] res@[i])@.map_values(|s: String| s@)
                == legacy_chains_dir().push(legacy_chain_names()[i]),
        res@.len() == 4,
        res@[0]@.map_values(|s: String| s@) == seq!["subspace-node"@, "chains"@, "subspace_gemini_1b"@],
        res@[1]@.map_values(|s: String| s@) == seq!["subspace-node"@, "chains"@, "Lamda_2513"@],
        res@[2]@.map_values(|s: String| s@) == seq!["subspace-node"@, "chains"@, "Lamda_2513_2"@],
        res@[3]@.map_values(|s: String| s@) == seq!["subspace-node"@, "chains"@, "Lamda_2513_3"@],
{
    let names: Vec<&str> = vec!["subspace_gemini_1b", "Lamda_2513", "Lamda_2513_2", "Lamda_2513_3"];
    let mut res: Vec<Vec<String>> = Vec::new();
    let mut i: usize = 0;
    while i < names.len()
        invariant
            names@.len() == 4,
            forall|k: int| 0 <= k < 4 ==> (#[trigger] names@[k])@ == legacy_chain_names()[k],
            i <= 4,
            res@.len() == i,
            forall|k: int|
                0 <= k < i ==> (#[trigger] res@[k])@.map_values(|s: String| s@)
                    == legacy_chains_dir().push(legacy_chain_names()[k]),
        decreases 4 - i,
    {
        let mut path: Vec<String> = Vec::new();
        path.push(String::from_str("subspace-node"));
        path.push(String::from_str("chains"));
        path.push(String::from_str(names[i]));
        assert(path@.map_values(|s: String| s@) =~= legacy_chains_dir().push(legacy_chain_names()[i as int]));
        res.push(path);
        i = i + 1;
    }
    res
}

} // verus!
