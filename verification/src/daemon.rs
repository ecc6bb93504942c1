//! Daemon-level control operations, dispatched to the `lxd` binary.

use crate::command::Binary;
use crate::command::CommandSpec;
use vstd::prelude::*;
use vstd::string::StringExecFns;

verus! {

/// Initialize the daemon interactively: `lxd init`.
pub fn lxd_init() -> (r: CommandSpec)
    ensures
        r@.binary == Binary::Lxd,
        r@.argv =~= seq!["init"@],
{
    let mut argv: Vec<String> = Vec::new();
    argv.push(String::from_str("init"));
    proof {
        assert(argv.deep_view() =~= seq!["init"@]);
    }
    CommandSpec { binary: Binary::Lxd, argv }
}

/// Query the daemon version: `lxd version`.
pub fn get_lxd_version() -> (r: CommandSpec)
    ensures
        r@.binary == Binary::Lxd,
        r@.argv =~= seq!["version"@],
{
    let mut argv: Vec<String> = Vec::new();
    argv.push(String::from_str("version"));
    proof {
        assert(argv.deep_view() =~= seq!["version"@]);
    }
    CommandSpec { binary: Binary::Lxd, argv }
}

/// Shut the daemon down together with its containers: `lxd shutdown`.
pub fn shutdown_lxd() -> (r: CommandSpec)
    ensures
        r@.binary == Binary::Lxd,
        r@.argv =~= seq!["shutdown"@],
{
    let mut argv: Vec<String> = Vec::new();
    argv.push(String::from_str("shutdown"));
    proof {
        assert(argv.deep_view() =~= seq!["shutdown"@]);
    }
    CommandSpec { binary: Binary::Lxd, argv }
}

/// Show the cluster configuration as YAML: `lxd cluster show`.
pub fn get_lxd_cluster_config() -> (r: CommandSpec)
    ensures
        r@.binary == Binary::Lxd,
        r@.argv =~= seq!["cluster"@, "show"@],
{
    let mut argv: Vec<String> = Vec::new();
    argv.push(String::from_str("cluster"));
    argv.push(String::from_str("show"));
    proof {
        assert(argv.deep_view() =~= seq!["cluster"@, "show"@]);
    }
    CommandSpec { binary: Binary::Lxd, argv }
}

/// Print the addresses of the cluster members serving the database:
/// `lxd cluster list-database`.
pub fn get_lxd_cluster_databases() -> (r: CommandSpec)
    ensures
        r@.binary == Binary::Lxd,
        r@.argv =~= seq!["cluster"@, "list-database"@],
{
    let mut argv: Vec<String> = Vec::new();
    argv.push(String::from_str("cluster"));
    argv.push(String::from_str("list-database"));
    proof {
        assert(argv.deep_view() =~= seq!["cluster"@, "list-database"@]);
    }
    CommandSpec { binary: Binary::Lxd, argv }
}

/// Remove a raft node from the raft configuration:
/// `lxd cluster remove-raft-node <node>`.
pub fn del_lxd_cluster_raft_node_config(raft_node: &str) -> (r: CommandSpec)
    ensures
        r@.binary == Binary::Lxd,
        r@.argv =~= seq!["cluster"@, "remove-raft-node"@, raft_node@],
{
    let mut argv: Vec<String> = Vec::new();
    argv.push(String::from_str("cluster"));
    argv.push(String::from_str("remove-raft-node"));
    argv.push(String::from_str(raft_node));
    proof {
        assert(argv.deep_view() =~= seq!["cluster"@, "remove-raft-node"@, raft_node@]);
    }
    CommandSpec { binary: Binary::Lxd, argv }
}

/// Recover a daemon instance whose cluster has lost quorum:
/// `lxd cluster recover-from-quorum-loss`.
pub fn recover_lxd_instance_lost_quorum() -> (r: CommandSpec)
    ensures
        r@.binary == Binary::Lxd,
        r@.argv =~= seq!["cluster"@, "recover-from-quorum-loss"@],
{
    let mut argv: Vec<String> = Vec::new();
    argv.push(String::from_str("cluster"));
    argv.push(String::from_str("recover-from-quorum-loss"));
    proof {
        assert(argv.deep_view() =~= seq!["cluster"@, "recover-from-quorum-loss"@]);
    }
    CommandSpec { binary: Binary::Lxd, argv }
}

} // verus!
