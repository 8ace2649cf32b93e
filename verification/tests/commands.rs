use fuel_core::command::{Fuel, Opt, RunCommand, SnapshotCommand};
use fuel_core::producer::Trigger;

#[test]
fn run_command_yields_its_consensus_params() {
    let cmd = RunCommand {
        db_path: String::from("/var/db"),
        chain_id: 7,
        max_gas_per_tx: 90_000,
        max_gas_per_predicate: 10_000,
        block_gas_limit: 100_000,
        base_asset_id: 3,
        trigger: Trigger::Interval { period: 10 },
        utxo_validation: true,
        producer_id: 42,
    };
    let p = cmd.consensus_params();
    assert_eq!(p.chain_id, 7);
    assert_eq!(p.max_gas_per_tx, 90_000);
    assert_eq!(p.max_gas_per_predicate, 10_000);
    assert_eq!(p.block_gas_limit, 100_000);
    assert_eq!(p.base_asset_id, 3);
}

#[test]
fn opt_carries_its_subcommand() {
    let opt = Opt::new(Fuel::Snapshot(SnapshotCommand { db_path: String::from("/tmp/db") }));
    match opt.command {
        Fuel::Snapshot(s) => assert_eq!(s.db_path, "/tmp/db"),
        Fuel::Run(_) => panic!("expected snapshot"),
    }
}
