//! Container snapshot operations, addressed in the snapshot-qualified
//! `scope:container/snapshot` form where the external tool expects it.

use crate::address::AddressError;
use crate::address::lemma_local_marker_valid;
use crate::address::lemma_resolve_local_renders;
use crate::address::lemma_resolve_remote_renders;
use crate::address::resolve;
use crate::address::valid_remote_name;
use crate::builder;
use crate::command::Action;
use crate::command::Binary;
use crate::command::BuildError;
use crate::command::CommandSpec;
use crate::command::CommandSpecV;
use crate::command::ParamName;
use crate::command::ParamSet;
use crate::command::ResourceKind;
use crate::registry;
use vstd::prelude::*;
use vstd::string::StringExecFns;

verus! {

/// Create a stateless snapshot of a local container:
/// `lxc snapshot local:<container> <name>`.
pub fn create_local_lxc_stateless_snapshot(container: &str, name: &str) -> (r: Result<CommandSpec, BuildError>)
    ensures
        (container@.len() > 0) ==> (r matches Ok(c) && c@.binary == Binary::Lxc && c@.argv =~= seq!["snapshot"@, "local:"@ + container@, name@]),
        (container@.len() == 0) ==> r == Err::<CommandSpec, BuildError>(BuildError::InvalidAddress(AddressError::EmptyResource)),
{
    let mut p = ParamSet::empty();
    p.name = Some(String::from_str(container));
    p.snapshot = Some(String::from_str(name));
    let ghost gp = p;
    let r = builder::build(ResourceKind::Snapshot, Action::Create, p);
    proof {
        reveal_with_fuel(builder::first_missing, 10);
        reveal_with_fuel(builder::first_empty, 10);
        let toks = registry::spec_entry(ResourceKind::Snapshot, Action::Create)->0;
        assert(builder::requires_param(toks, ParamName::Name)) by {
            assert(builder::token_requires(toks[1], ParamName::Name));
        }
        assert(builder::requires_param(toks, ParamName::Snapshot)) by {
            assert(builder::token_requires(toks[2], ParamName::Snapshot));
        }
        if container@.len() > 0 {
            assert(builder::spec_argv(toks, gp) =~= seq!["snapshot"@, "local:"@ + container@, name@]);
            assert(builder::spec_build(ResourceKind::Snapshot, Action::Create, gp) matches Ok(c) && c.binary == Binary::Lxc && c.argv == builder::spec_argv(toks, gp));
        }
        if container@.len() == 0 {
            assert(builder::spec_build(ResourceKind::Snapshot, Action::Create, gp) == Err::<CommandSpecV, BuildError>(BuildError::InvalidAddress(AddressError::EmptyResource)));
        }
    }
    r
}

/// Create a stateless snapshot of a remote container:
/// `lxc snapshot <remote>:<container> <name>`.
pub fn create_remote_lxc_stateless_snapshot(remote: &str, container: &str, name: &str) -> (r: Result<CommandSpec, BuildError>)
    ensures
        (valid_remote_name(remote@) && container@.len() > 0) ==> (r matches Ok(c) && c@.binary == Binary::Lxc && c@.argv =~= seq!["snapshot"@, remote@ + ":"@ + container@, name@]),
        (!valid_remote_name(remote@)) ==> r == Err::<CommandSpec, BuildError>(BuildError::InvalidAddress(AddressError::InvalidRemoteName)),
        (valid_remote_name(remote@) && container@.len() == 0) ==> r == Err::<CommandSpec, BuildError>(BuildError::InvalidAddress(AddressError::EmptyResource)),
{
    let mut p = ParamSet::empty();
    p.name = Some(String::from_str(container));
    p.snapshot = Some(String::from_str(name));
    p.remote = Some(String::from_str(remote));
    let ghost gp = p;
    let r = builder::build(ResourceKind::Snapshot, Action::Create, p);
    proof {
        reveal_with_fuel(builder::first_missing, 10);
        reveal_with_fuel(builder::first_empty, 10);
        let toks = registry::spec_entry(ResourceKind::Snapshot, Action::Create)->0;
        assert(builder::requires_param(toks, ParamName::Name)) by {
            assert(builder::token_requires(toks[1], ParamName::Name));
        }
        assert(builder::requires_param(toks, ParamName::Snapshot)) by {
            assert(builder::token_requires(toks[2], ParamName::Snapshot));
        }
        assert(builder::uses_src_scope(toks)) by {
            assert(builder::token_uses_src(toks[1]));
        }
        if valid_remote_name(remote@) && container@.len() > 0 {
            assert(builder::spec_argv(toks, gp) =~= seq!["snapshot"@, remote@ + ":"@ + container@, name@]);
            assert(builder::spec_build(ResourceKind::Snapshot, Action::Create, gp) matches Ok(c) && c.binary == Binary::Lxc && c.argv == builder::spec_argv(toks, gp));
        }
        if !valid_remote_name(remote@) {
            assert(builder::spec_build(ResourceKind::Snapshot, Action::Create, gp) == Err::<CommandSpecV, BuildError>(BuildError::InvalidAddress(AddressError::InvalidRemoteName)));
        }
        if valid_remote_name(remote@) && container@.len() == 0 {
            assert(builder::spec_build(ResourceKind::Snapshot, Action::Create, gp) == Err::<CommandSpecV, BuildError>(BuildError::InvalidAddress(AddressError::EmptyResource)));
        }
    }
    r
}

/// Copy a snapshot of a local container onto a container of a named
/// remote: `lxc copy local:<container>/<snapshot> <remote>:<container>`.
pub fn copy_lxc_snapshot_to_remote(local_container: &str, snapshot: &str, remote: &str, remote_container: &str) -> (r: Result<CommandSpec, BuildError>)
    ensures
        (valid_remote_name(remote@) && local_container@.len() > 0 && snapshot@.len() > 0 && remote_container@.len() > 0) ==> (r matches Ok(c) && c@.binary == Binary::Lxc && c@.argv =~= seq!["copy"@, "local:"@ + local_container@ + "/"@ + snapshot@, remote@ + ":"@ + remote_container@]),
        (!valid_remote_name(remote@)) ==> r == Err::<CommandSpec, BuildError>(BuildError::InvalidAddress(AddressError::InvalidRemoteName)),
        (valid_remote_name(remote@) && (local_container@.len() == 0 || snapshot@.len() == 0 || remote_container@.len() == 0)) ==> r == Err::<CommandSpec, BuildError>(BuildError::InvalidAddress(AddressError::EmptyResource)),
{
    let mut p = ParamSet::empty();
    p.name = Some(String::from_str(local_container));
    p.snapshot = Some(String::from_str(snapshot));
    p.new_name = Some(String::from_str(remote_container));
    p.dest_remote = Some(String::from_str(remote));
    let ghost gp = p;
    let r = builder::build(ResourceKind::Snapshot, Action::Copy, p);
    proof {
        reveal_with_fuel(builder::first_missing, 10);
        reveal_with_fuel(builder::first_empty, 10);
        let toks = registry::spec_entry(ResourceKind::Snapshot, Action::Copy)->0;
        assert(builder::requires_param(toks, ParamName::Name)) by {
            assert(builder::token_requires(toks[1], ParamName::Name));
        }
        assert(builder::requires_param(toks, ParamName::Snapshot)) by {
            assert(builder::token_requires(toks[1], ParamName::Snapshot));
        }
        assert(builder::requires_param(toks, ParamName::NewName)) by {
            assert(builder::token_requires(toks[2], ParamName::NewName));
        }
        assert(builder::uses_dst_scope(toks)) by {
            assert(builder::token_uses_dst(toks[2]));
        }
        if valid_remote_name(remote@) && local_container@.len() > 0 && snapshot@.len() > 0 && remote_container@.len() > 0 {
            assert(builder::spec_argv(toks, gp) =~= seq!["copy"@, "local:"@ + local_container@ + "/"@ + snapshot@, remote@ + ":"@ + remote_container@]);
            assert(builder::spec_build(ResourceKind::Snapshot, Action::Copy, gp) matches Ok(c) && c.binary == Binary::Lxc && c.argv == builder::spec_argv(toks, gp));
        }
        if !valid_remote_name(remote@) {
            assert(builder::spec_build(ResourceKind::Snapshot, Action::Copy, gp) == Err::<CommandSpecV, BuildError>(BuildError::InvalidAddress(AddressError::InvalidRemoteName)));
        }
        if valid_remote_name(remote@) && (local_container@.len() == 0 || snapshot@.len() == 0 || remote_container@.len() == 0) {
            assert(builder::spec_build(ResourceKind::Snapshot, Action::Copy, gp) == Err::<CommandSpecV, BuildError>(BuildError::InvalidAddress(AddressError::EmptyResource)));
        }
    }
    r
}

/// Delete a snapshot of a local container:
/// `lxc delete local:<container>/<name>`.
pub fn del_local_lxc_snapshot(container: &str, name: &str) -> (r: Result<CommandSpec, BuildError>)
    ensures
        (container@.len() > 0 && name@.len() > 0) ==> (r matches Ok(c) && c@.binary == Binary::Lxc && c@.argv =~= seq!["delete"@, "local:"@ + container@ + "/"@ + name@]),
        ((container@.len() == 0 || name@.len() == 0)) ==> r == Err::<CommandSpec, BuildError>(BuildError::InvalidAddress(AddressError::EmptyResource)),
{
    let mut p = ParamSet::empty();
    p.name = Some(String::from_str(container));
    p.snapshot = Some(String::from_str(name));
    let ghost gp = p;
    let r = builder::build(ResourceKind::Snapshot, Action::Delete, p);
    proof {
        reveal_with_fuel(builder::first_missing, 10);
        reveal_with_fuel(builder::first_empty, 10);
        let toks = registry::spec_entry(ResourceKind::Snapshot, Action::Delete)->0;
        assert(builder::requires_param(toks, ParamName::Name)) by {
            assert(builder::token_requires(toks[1], ParamName::Name));
        }
        assert(builder::requires_param(toks, ParamName::Snapshot)) by {
            assert(builder::token_requires(toks[1], ParamName::Snapshot));
        }
        if container@.len() > 0 && name@.len() > 0 {
            assert(builder::spec_argv(toks, gp) =~= seq!["delete"@, "local:"@ + container@ + "/"@ + name@]);
            assert(builder::spec_build(ResourceKind::Snapshot, Action::Delete, gp) matches Ok(c) && c.binary == Binary::Lxc && c.argv == builder::spec_argv(toks, gp));
        }
        if (container@.len() == 0 || name@.len() == 0) {
            assert(builder::spec_build(ResourceKind::Snapshot, Action::Delete, gp) == Err::<CommandSpecV, BuildError>(BuildError::InvalidAddress(AddressError::EmptyResource)));
        }
    }
    r
}

/// Delete a snapshot of a remote container:
/// `lxc delete <remote>:<container>/<name>`.
pub fn del_remote_lxc_snapshot(remote: &str, container: &str, name: &str) -> (r: Result<CommandSpec, BuildError>)
    ensures
        (valid_remote_name(remote@) && container@.len() > 0 && name@.len() > 0) ==> (r matches Ok(c) && c@.binary == Binary::Lxc && c@.argv =~= seq!["delete"@, remote@ + ":"@ + container@ + "/"@ + name@]),
        (!valid_remote_name(remote@)) ==> r == Err::<CommandSpec, BuildError>(BuildError::InvalidAddress(AddressError::InvalidRemoteName)),
        (valid_remote_name(remote@) && (container@.len() == 0 || name@.len() == 0)) ==> r == Err::<CommandSpec, BuildError>(BuildError::InvalidAddress(AddressError::EmptyResource)),
{
    let mut p = ParamSet::empty();
    p.name = Some(String::from_str(container));
    p.snapshot = Some(String::from_str(name));
    p.remote = Some(String::from_str(remote));
    let ghost gp = p;
    let r = builder::build(ResourceKind::Snapshot, Action::Delete, p);
    proof {
        reveal_with_fuel(builder::first_missing, 10);
        reveal_with_fuel(builder::first_empty, 10);
        let toks = registry::spec_entry(ResourceKind::Snapshot, Action::Delete)->0;
        assert(builder::requires_param(toks, ParamName::Name)) by {
            assert(builder::token_requires(toks[1], ParamName::Name));
        }
        assert(builder::requires_param(toks, ParamName::Snapshot)) by {
            assert(builder::token_requires(toks[1], ParamName::Snapshot));
        }
        assert(builder::uses_src_scope(toks)) by {
            assert(builder::token_uses_src(toks[1]));
        }
        if valid_remote_name(remote@) && container@.len() > 0 && name@.len() > 0 {
            assert(builder::spec_argv(toks, gp) =~= seq!["delete"@, remote@ + ":"@ + container@ + "/"@ + name@]);
            assert(builder::spec_build(ResourceKind::Snapshot, Action::Delete, gp) matches Ok(c) && c.binary == Binary::Lxc && c.argv == builder::spec_argv(toks, gp));
        }
        if !valid_remote_name(remote@) {
            assert(builder::spec_build(ResourceKind::Snapshot, Action::Delete, gp) == Err::<CommandSpecV, BuildError>(BuildError::InvalidAddress(AddressError::InvalidRemoteName)));
        }
        if valid_remote_name(remote@) && (container@.len() == 0 || name@.len() == 0) {
            assert(builder::spec_build(ResourceKind::Snapshot, Action::Delete, gp) == Err::<CommandSpecV, BuildError>(BuildError::InvalidAddress(AddressError::EmptyResource)));
        }
    }
    r
}

/// Restore a local container from a snapshot:
/// `lxc restore local:<container> <name>`.
pub fn restore_local_lxc_snapshot(container: &str, name: &str) -> (r: Result<CommandSpec, AddressError>)
    ensures
        container@.len() > 0 ==> (r matches Ok(c) && c@.binary == Binary::Lxc && c@.argv =~= seq!["restore"@, "local:"@ + container@, name@]),
        container@.len() == 0 ==> r == Err::<CommandSpec, AddressError>(AddressError::EmptyResource),
{
    let a = match resolve(None, container) {
        Ok(a) => a,
        Err(e) => {
            return Err(e);
        },
    };
    proof {
        if container@.len() > 0 {
            lemma_resolve_local_renders(container@);
        }
    }
    let rendered = a.render();
    let mut argv: Vec<String> = Vec::new();
    argv.push(String::from_str("restore"));
    argv.push(rendered);
    argv.push(String::from_str(name));
    proof {
        assert(argv.deep_view() =~= seq!["restore"@, "local:"@ + container@, name@]);
    }
    Ok(CommandSpec { binary: Binary::Lxc, argv })
}

/// Restore a remote container from a snapshot:
/// `lxc restore <remote>:<container> <name>`.
pub fn restora_remote_lxc_snapshot(remote: &str, container: &str, name: &str) -> (r: Result<CommandSpec, AddressError>)
    ensures
        (valid_remote_name(remote@) && container@.len() > 0) ==> (r matches Ok(c) && c@.binary == Binary::Lxc && c@.argv =~= seq!["restore"@, remote@ + ":"@ + container@, name@]),
        !valid_remote_name(remote@) ==> r == Err::<CommandSpec, AddressError>(AddressError::InvalidRemoteName),
        (valid_remote_name(remote@) && container@.len() == 0) ==> r == Err::<CommandSpec, AddressError>(AddressError::EmptyResource),
{
    proof {
        lemma_local_marker_valid();
    }
    let a = match resolve(Some(remote), container) {
        Ok(a) => a,
        Err(e) => {
            return Err(e);
        },
    };
    proof {
        if valid_remote_name(remote@) && container@.len() > 0 {
            lemma_resolve_remote_renders(remote@, container@);
        }
    }
    let rendered = a.render();
    let mut argv: Vec<String> = Vec::new();
    argv.push(String::from_str("restore"));
    argv.push(rendered);
    argv.push(String::from_str(name));
    proof {
        assert(argv.deep_view() =~= seq!["restore"@, remote@ + ":"@ + container@, name@]);
    }
    Ok(CommandSpec { binary: Binary::Lxc, argv })
}

} // verus!
