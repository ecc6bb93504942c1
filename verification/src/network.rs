//! Network operations: networks themselves, DNS zones and their
//! records, plus lease and forward listings.

use crate::address::AddressError;
use crate::address::lemma_local_marker_valid;
use crate::address::lemma_resolve_local_renders;
use crate::address::lemma_resolve_remote_renders;
use crate::address::resolve;
use crate::address::valid_remote_name;
use crate::builder;
use crate::command::Action;
use crate::command::Binary;
use crate::command::BuildError;
use crate::command::CommandSpec;
use crate::command::CommandSpecV;
use crate::command::ParamName;
use crate::command::ParamSet;
use crate::command::ResourceKind;
use crate::registry;
use vstd::prelude::*;
use vstd::string::StringExecFns;

verus! {

/// List the local networks: `lxc network list local:`.
pub fn get_local_networks() -> (r: Result<CommandSpec, BuildError>)
    ensures
        (r matches Ok(c) && c@.binary == Binary::Lxc && c@.argv =~= seq!["network"@, "list"@, "local:"@]),
{
    let p = ParamSet::empty();
    let ghost gp = p;
    let r = builder::build(ResourceKind::Network, Action::List, p);
    proof {
        reveal_with_fuel(builder::first_missing, 10);
        reveal_with_fuel(builder::first_empty, 10);
        let toks = registry::spec_entry(ResourceKind::Network, Action::List)->0;
        assert(builder::spec_argv(toks, gp) =~= seq!["network"@, "list"@, "local:"@]);
        assert(builder::spec_build(ResourceKind::Network, Action::List, gp) matches Ok(c) && c.binary == Binary::Lxc && c.argv == builder::spec_argv(toks, gp));
    }
    r
}

/// List the networks of a named remote: `lxc network list <remote>:`.
pub fn get_remote_networks(remote: &str) -> (r: Result<CommandSpec, BuildError>)
    ensures
        (valid_remote_name(remote@)) ==> (r matches Ok(c) && c@.binary == Binary::Lxc && c@.argv =~= seq!["network"@, "list"@, remote@ + ":"@]),
        (!valid_remote_name(remote@)) ==> r == Err::<CommandSpec, BuildError>(BuildError::InvalidAddress(AddressError::InvalidRemoteName)),
{
    let mut p = ParamSet::empty();
    p.remote = Some(String::from_str(remote));
    let ghost gp = p;
    let r = builder::build(ResourceKind::Network, Action::List, p);
    proof {
        reveal_with_fuel(builder::first_missing, 10);
        reveal_with_fuel(builder::first_empty, 10);
        let toks = registry::spec_entry(ResourceKind::Network, Action::List)->0;
        assert(builder::uses_src_scope(toks)) by {
            assert(builder::token_uses_src(toks[2]));
        }
        if valid_remote_name(remote@) {
            assert(builder::spec_argv(toks, gp) =~= seq!["network"@, "list"@, remote@ + ":"@]);
            assert(builder::spec_build(ResourceKind::Network, Action::List, gp) matches Ok(c) && c.binary == Binary::Lxc && c.argv == builder::spec_argv(toks, gp));
        }
        if !valid_remote_name(remote@) {
            assert(builder::spec_build(ResourceKind::Network, Action::List, gp) == Err::<CommandSpecV, BuildError>(BuildError::InvalidAddress(AddressError::InvalidRemoteName)));
        }
    }
    r
}

/// Delete a local network: `lxc network delete local:<network>`.
pub fn del_local_network(network: &str) -> (r: Result<CommandSpec, BuildError>)
    ensures
        (network@.len() > 0) ==> (r matches Ok(c) && c@.binary == Binary::Lxc && c@.argv =~= seq!["network"@, "delete"@, "local:"@ + network@]),
        (network@.len() == 0) ==> r == Err::<CommandSpec, BuildError>(BuildError::InvalidAddress(AddressError::EmptyResource)),
{
    let mut p = ParamSet::empty();
    p.name = Some(String::from_str(network));
    let ghost gp = p;
    let r = builder::build(ResourceKind::Network, Action::Delete, p);
    proof {
        reveal_with_fuel(builder::first_missing, 10);
        reveal_with_fuel(builder::first_empty, 10);
        let toks = registry::spec_entry(ResourceKind::Network, Action::Delete)->0;
        assert(builder::requires_param(toks, ParamName::Name)) by {
            assert(builder::token_requires(toks[2], ParamName::Name));
        }
        if network@.len() > 0 {
            assert(builder::spec_argv(toks, gp) =~= seq!["network"@, "delete"@, "local:"@ + network@]);
            assert(builder::spec_build(ResourceKind::Network, Action::Delete, gp) matches Ok(c) && c.binary == Binary::Lxc && c.argv == builder::spec_argv(toks, gp));
        }
        if network@.len() == 0 {
            assert(builder::spec_build(ResourceKind::Network, Action::Delete, gp) == Err::<CommandSpecV, BuildError>(BuildError::InvalidAddress(AddressError::EmptyResource)));
        }
    }
    r
}

/// Delete a remote network: `lxc network delete <remote>:<network>`.
pub fn del_remote_network(remote: &str, network: &str) -> (r: Result<CommandSpec, BuildError>)
    ensures
        (valid_remote_name(remote@) && network@.len() > 0) ==> (r matches Ok(c) && c@.binary == Binary::Lxc && c@.argv =~= seq!["network"@, "delete"@, remote@ + ":"@ + network@]),
        (!valid_remote_name(remote@)) ==> r == Err::<CommandSpec, BuildError>(BuildError::InvalidAddress(AddressError::InvalidRemoteName)),
        (valid_remote_name(remote@) && network@.len() == 0) ==> r == Err::<CommandSpec, BuildError>(BuildError::InvalidAddress(AddressError::EmptyResource)),
{
    let mut p = ParamSet::empty();
    p.name = Some(String::from_str(network));
    p.remote = Some(String::from_str(remote));
    let ghost gp = p;
    let r = builder::build(ResourceKind::Network, Action::Delete, p);
    proof {
        reveal_with_fuel(builder::first_missing, 10);
        reveal_with_fuel(builder::first_empty, 10);
        let toks = registry::spec_entry(ResourceKind::Network, Action::Delete)->0;
        assert(builder::requires_param(toks, ParamName::Name)) by {
            assert(builder::token_requires(toks[2], ParamName::Name));
        }
        assert(builder::uses_src_scope(toks)) by {
            assert(builder::token_uses_src(toks[2]));
        }
        if valid_remote_name(remote@) && network@.len() > 0 {
            assert(builder::spec_argv(toks, gp) =~= seq!["network"@, "delete"@, remote@ + ":"@ + network@]);
            assert(builder::spec_build(ResourceKind::Network, Action::Delete, gp) matches Ok(c) && c.binary == Binary::Lxc && c.argv == builder::spec_argv(toks, gp));
        }
        if !valid_remote_name(remote@) {
            assert(builder::spec_build(ResourceKind::Network, Action::Delete, gp) == Err::<CommandSpecV, BuildError>(BuildError::InvalidAddress(AddressError::InvalidRemoteName)));
        }
        if valid_remote_name(remote@) && network@.len() == 0 {
            assert(builder::spec_build(ResourceKind::Network, Action::Delete, gp) == Err::<CommandSpecV, BuildError>(BuildError::InvalidAddress(AddressError::EmptyResource)));
        }
    }
    r
}

/// Show a local network: `lxc network show local:<network>`.
pub fn get_local_network_info(network: &str) -> (r: Result<CommandSpec, BuildError>)
    ensures
        (network@.len() > 0) ==> (r matches Ok(c) && c@.binary == Binary::Lxc && c@.argv =~= seq!["network"@, "show"@, "local:"@ + network@]),
        (network@.len() == 0) ==> r == Err::<CommandSpec, BuildError>(BuildError::InvalidAddress(AddressError::EmptyResource)),
{
    let mut p = ParamSet::empty();
    p.name = Some(String::from_str(network));
    let ghost gp = p;
    let r = builder::build(ResourceKind::Network, Action::Show, p);
    proof {
        reveal_with_fuel(builder::first_missing, 10);
        reveal_with_fuel(builder::first_empty, 10);
        let toks = registry::spec_entry(ResourceKind::Network, Action::Show)->0;
        assert(builder::requires_param(toks, ParamName::Name)) by {
            assert(builder::token_requires(toks[2], ParamName::Name));
        }
        if network@.len() > 0 {
            assert(builder::spec_argv(toks, gp) =~= seq!["network"@, "show"@, "local:"@ + network@]);
            assert(builder::spec_build(ResourceKind::Network, Action::Show, gp) matches Ok(c) && c.binary == Binary::Lxc && c.argv == builder::spec_argv(toks, gp));
        }
        if network@.len() == 0 {
            assert(builder::spec_build(ResourceKind::Network, Action::Show, gp) == Err::<CommandSpecV, BuildError>(BuildError::InvalidAddress(AddressError::EmptyResource)));
        }
    }
    r
}

/// Show a remote network: `lxc network show <remote>:<network>`.
pub fn get_remote_network_info(remote: &str, network: &str) -> (r: Result<CommandSpec, BuildError>)
    ensures
        (valid_remote_name(remote@) && network@.len() > 0) ==> (r matches Ok(c) && c@.binary == Binary::Lxc && c@.argv =~= seq!["network"@, "show"@, remote@ + ":"@ + network@]),
        (!valid_remote_name(remote@)) ==> r == Err::<CommandSpec, BuildError>(BuildError::InvalidAddress(AddressError::InvalidRemoteName)),
        (valid_remote_name(remote@) && network@.len() == 0) ==> r == Err::<CommandSpec, BuildError>(BuildError::InvalidAddress(AddressError::EmptyResource)),
{
    let mut p = ParamSet::empty();
    p.name = Some(String::from_str(network));
    p.remote = Some(String::from_str(remote));
    let ghost gp = p;
    let r = builder::build(ResourceKind::Network, Action::Show, p);
    proof {
        reveal_with_fuel(builder::first_missing, 10);
        reveal_with_fuel(builder::first_empty, 10);
        let toks = registry::spec_entry(ResourceKind::Network, Action::Show)->0;
        assert(builder::requires_param(toks, ParamName::Name)) by {
            assert(builder::token_requires(toks[2], ParamName::Name));
        }
        assert(builder::uses_src_scope(toks)) by {
            assert(builder::token_uses_src(toks[2]));
        }
        if valid_remote_name(remote@) && network@.len() > 0 {
            assert(builder::spec_argv(toks, gp) =~= seq!["network"@, "show"@, remote@ + ":"@ + network@]);
            assert(builder::spec_build(ResourceKind::Network, Action::Show, gp) matches Ok(c) && c.binary == Binary::Lxc && c.argv == builder::spec_argv(toks, gp));
        }
        if !valid_remote_name(remote@) {
            assert(builder::spec_build(ResourceKind::Network, Action::Show, gp) == Err::<CommandSpecV, BuildError>(BuildError::InvalidAddress(AddressError::InvalidRemoteName)));
        }
        if valid_remote_name(remote@) && network@.len() == 0 {
            assert(builder::spec_build(ResourceKind::Network, Action::Show, gp) == Err::<CommandSpecV, BuildError>(BuildError::InvalidAddress(AddressError::EmptyResource)));
        }
    }
    r
}

/// Create a local network: `lxc network create local:<network>`.
pub fn create_local_network(network: &str) -> (r: Result<CommandSpec, BuildError>)
    ensures
        (network@.len() > 0) ==> (r matches Ok(c) && c@.binary == Binary::Lxc && c@.argv =~= seq!["network"@, "create"@, "local:"@ + network@]),
        (network@.len() == 0) ==> r == Err::<CommandSpec, BuildError>(BuildError::InvalidAddress(AddressError::EmptyResource)),
{
    let mut p = ParamSet::empty();
    p.name = Some(String::from_str(network));
    let ghost gp = p;
    let r = builder::build(ResourceKind::Network, Action::Create, p);
    proof {
        reveal_with_fuel(builder::first_missing, 10);
        reveal_with_fuel(builder::first_empty, 10);
        let toks = registry::spec_entry(ResourceKind::Network, Action::Create)->0;
        assert(builder::requires_param(toks, ParamName::Name)) by {
            assert(builder::token_requires(toks[2], ParamName::Name));
        }
        if network@.len() > 0 {
            assert(builder::spec_argv(toks, gp) =~= seq!["network"@, "create"@, "local:"@ + network@]);
            assert(builder::spec_build(ResourceKind::Network, Action::Create, gp) matches Ok(c) && c.binary == Binary::Lxc && c.argv == builder::spec_argv(toks, gp));
        }
        if network@.len() == 0 {
            assert(builder::spec_build(ResourceKind::Network, Action::Create, gp) == Err::<CommandSpecV, BuildError>(BuildError::InvalidAddress(AddressError::EmptyResource)));
        }
    }
    r
}

/// Create a remote network: `lxc network create <remote>:<network>`.
pub fn create_remote_network(remote: &str, network: &str) -> (r: Result<CommandSpec, BuildError>)
    ensures
        (valid_remote_name(remote@) && network@.len() > 0) ==> (r matches Ok(c) && c@.binary == Binary::Lxc && c@.argv =~= seq!["network"@, "create"@, remote@ + ":"@ + network@]),
        (!valid_remote_name(remote@)) ==> r == Err::<CommandSpec, BuildError>(BuildError::InvalidAddress(AddressError::InvalidRemoteName)),
        (valid_remote_name(remote@) && network@.len() == 0) ==> r == Err::<CommandSpec, BuildError>(BuildError::InvalidAddress(AddressError::EmptyResource)),
{
    let mut p = ParamSet::empty();
    p.name = Some(String::from_str(network));
    p.remote = Some(String::from_str(remote));
    let ghost gp = p;
    let r = builder::build(ResourceKind::Network, Action::Create, p);
    proof {
        reveal_with_fuel(builder::first_missing, 10);
        reveal_with_fuel(builder::first_empty, 10);
        let toks = registry::spec_entry(ResourceKind::Network, Action::Create)->0;
        assert(builder::requires_param(toks, ParamName::Name)) by {
            assert(builder::token_requires(toks[2], ParamName::Name));
        }
        assert(builder::uses_src_scope(toks)) by {
            assert(builder::token_uses_src(toks[2]));
        }
        if valid_remote_name(remote@) && network@.len() > 0 {
            assert(builder::spec_argv(toks, gp) =~= seq!["network"@, "create"@, remote@ + ":"@ + network@]);
            assert(builder::spec_build(ResourceKind::Network, Action::Create, gp) matches Ok(c) && c.binary == Binary::Lxc && c.argv == builder::spec_argv(toks, gp));
        }
        if !valid_remote_name(remote@) {
            assert(builder::spec_build(ResourceKind::Network, Action::Create, gp) == Err::<CommandSpecV, BuildError>(BuildError::InvalidAddress(AddressError::InvalidRemoteName)));
        }
        if valid_remote_name(remote@) && network@.len() == 0 {
            assert(builder::spec_build(ResourceKind::Network, Action::Create, gp) == Err::<CommandSpecV, BuildError>(BuildError::InvalidAddress(AddressError::EmptyResource)));
        }
    }
    r
}

/// Rename a local network: `lxc network rename local:<first> local:<second>`.
pub fn rename_local_network(first: &str, second: &str) -> (r: Result<CommandSpec, BuildError>)
    ensures
        (first@.len() > 0 && second@.len() > 0) ==> (r matches Ok(c) && c@.binary == Binary::Lxc && c@.argv =~= seq!["network"@, "rename"@, "local:"@ + first@, "local:"@ + second@]),
        ((first@.len() == 0 || second@.len() == 0)) ==> r == Err::<CommandSpec, BuildError>(BuildError::InvalidAddress(AddressError::EmptyResource)),
{
    let mut p = ParamSet::empty();
    p.name = Some(String::from_str(first));
    p.new_name = Some(String::from_str(second));
    let ghost gp = p;
    let r = builder::build(ResourceKind::Network, Action::Rename, p);
    proof {
        reveal_with_fuel(builder::first_missing, 10);
        reveal_with_fuel(builder::first_empty, 10);
        let toks = registry::spec_entry(ResourceKind::Network, Action::Rename)->0;
        assert(builder::requires_param(toks, ParamName::Name)) by {
            assert(builder::token_requires(toks[2], ParamName::Name));
        }
        assert(builder::requires_param(toks, ParamName::NewName)) by {
            assert(builder::token_requires(toks[3], ParamName::NewName));
        }
        if first@.len() > 0 && second@.len() > 0 {
            assert(builder::spec_argv(toks, gp) =~= seq!["network"@, "rename"@, "local:"@ + first@, "local:"@ + second@]);
            assert(builder::spec_build(ResourceKind::Network, Action::Rename, gp) matches Ok(c) && c.binary == Binary::Lxc && c.argv == builder::spec_argv(toks, gp));
        }
        if (first@.len() == 0 || second@.len() == 0) {
            assert(builder::spec_build(ResourceKind::Network, Action::Rename, gp) == Err::<CommandSpecV, BuildError>(BuildError::InvalidAddress(AddressError::EmptyResource)));
        }
    }
    r
}

/// Rename a network within a named remote:
/// `lxc network rename <remote>:<first> <remote>:<second>`.
pub fn rename_remote_network(remote: &str, first: &str, second: &str) -> (r: Result<CommandSpec, BuildError>)
    ensures
        (valid_remote_name(remote@) && first@.len() > 0 && second@.len() > 0) ==> (r matches Ok(c) && c@.binary == Binary::Lxc && c@.argv =~= seq!["network"@, "rename"@, remote@ + ":"@ + first@, remote@ + ":"@ + second@]),
        (!valid_remote_name(remote@)) ==> r == Err::<CommandSpec, BuildError>(BuildError::InvalidAddress(AddressError::InvalidRemoteName)),
        (valid_remote_name(remote@) && (first@.len() == 0 || second@.len() == 0)) ==> r == Err::<CommandSpec, BuildError>(BuildError::InvalidAddress(AddressError::EmptyResource)),
{
    let mut p = ParamSet::empty();
    p.name = Some(String::from_str(first));
    p.new_name = Some(String::from_str(second));
    p.remote = Some(String::from_str(remote));
    p.dest_remote = Some(String::from_str(remote));
    let ghost gp = p;
    let r = builder::build(ResourceKind::Network, Action::Rename, p);
    proof {
        reveal_with_fuel(builder::first_missing, 10);
        reveal_with_fuel(builder::first_empty, 10);
        let toks = registry::spec_entry(ResourceKind::Network, Action::Rename)->0;
        assert(builder::requires_param(toks, ParamName::Name)) by {
            assert(builder::token_requires(toks[2], ParamName::Name));
        }
        assert(builder::requires_param(toks, ParamName::NewName)) by {
            assert(builder::token_requires(toks[3], ParamName::NewName));
        }
        assert(builder::uses_src_scope(toks)) by {
            assert(builder::token_uses_src(toks[2]));
        }
        assert(builder::uses_dst_scope(toks)) by {
            assert(builder::token_uses_dst(toks[3]));
        }
        if valid_remote_name(remote@) && first@.len() > 0 && second@.len() > 0 {
            assert(builder::spec_argv(toks, gp) =~= seq!["network"@, "rename"@, remote@ + ":"@ + first@, remote@ + ":"@ + second@]);
            assert(builder::spec_build(ResourceKind::Network, Action::Rename, gp) matches Ok(c) && c.binary == Binary::Lxc && c.argv == builder::spec_argv(toks, gp));
        }
        if !valid_remote_name(remote@) {
            assert(builder::spec_build(ResourceKind::Network, Action::Rename, gp) == Err::<CommandSpecV, BuildError>(BuildError::InvalidAddress(AddressError::InvalidRemoteName)));
        }
        if valid_remote_name(remote@) && (first@.len() == 0 || second@.len() == 0) {
            assert(builder::spec_build(ResourceKind::Network, Action::Rename, gp) == Err::<CommandSpecV, BuildError>(BuildError::InvalidAddress(AddressError::EmptyResource)));
        }
    }
    r
}

/// Copy a local network: `lxc network copy <first> <second>`.
pub fn copy_local_network(first: &str, second: &str) -> (r: Result<CommandSpec, BuildError>)
    ensures
        (first@.len() > 0 && second@.len() > 0) ==> (r matches Ok(c) && c@.binary == Binary::Lxc && c@.argv =~= seq!["network"@, "copy"@, first@, second@]),
        ((first@.len() == 0 || second@.len() == 0)) ==> r == Err::<CommandSpec, BuildError>(BuildError::InvalidAddress(AddressError::EmptyResource)),
{
    let mut p = ParamSet::empty();
    p.name = Some(String::from_str(first));
    p.new_name = Some(String::from_str(second));
    let ghost gp = p;
    let r = builder::build(ResourceKind::Network, Action::Copy, p);
    proof {
        reveal_with_fuel(builder::first_missing, 10);
        reveal_with_fuel(builder::first_empty, 10);
        let toks = registry::spec_entry(ResourceKind::Network, Action::Copy)->0;
        assert(builder::requires_param(toks, ParamName::Name)) by {
            assert(builder::token_requires(toks[2], ParamName::Name));
        }
        assert(builder::requires_param(toks, ParamName::NewName)) by {
            assert(builder::token_requires(toks[3], ParamName::NewName));
        }
        if first@.len() > 0 && second@.len() > 0 {
            assert(builder::spec_argv(toks, gp) =~= seq!["network"@, "copy"@, first@, second@]);
            assert(builder::spec_build(ResourceKind::Network, Action::Copy, gp) matches Ok(c) && c.binary == Binary::Lxc && c.argv == builder::spec_argv(toks, gp));
        }
        if (first@.len() == 0 || second@.len() == 0) {
            assert(builder::spec_build(ResourceKind::Network, Action::Copy, gp) == Err::<CommandSpecV, BuildError>(BuildError::InvalidAddress(AddressError::EmptyResource)));
        }
    }
    r
}

/// Copy a network within a named remote:
/// `lxc network copy <remote>:<first> <remote>:<second>`.
pub fn copy_remote_network(remote: &str, first: &str, second: &str) -> (r: Result<CommandSpec, BuildError>)
    ensures
        (valid_remote_name(remote@) && first@.len() > 0 && second@.len() > 0) ==> (r matches Ok(c) && c@.binary == Binary::Lxc && c@.argv =~= seq!["network"@, "copy"@, remote@ + ":"@ + first@, remote@ + ":"@ + second@]),
        (!valid_remote_name(remote@)) ==> r == Err::<CommandSpec, BuildError>(BuildError::InvalidAddress(AddressError::InvalidRemoteName)),
        (valid_remote_name(remote@) && (first@.len() == 0 || second@.len() == 0)) ==> r == Err::<CommandSpec, BuildError>(BuildError::InvalidAddress(AddressError::EmptyResource)),
{
    let mut p = ParamSet::empty();
    p.name = Some(String::from_str(first));
    p.new_name = Some(String::from_str(second));
    p.remote = Some(String::from_str(remote));
    p.dest_remote = Some(String::from_str(remote));
    let ghost gp = p;
    let r = builder::build(ResourceKind::Network, Action::Copy, p);
    proof {
        reveal_with_fuel(builder::first_missing, 10);
        reveal_with_fuel(builder::first_empty, 10);
        let toks = registry::spec_entry(ResourceKind::Network, Action::Copy)->0;
        assert(builder::requires_param(toks, ParamName::Name)) by {
            assert(builder::token_requires(toks[2], ParamName::Name));
        }
        assert(builder::requires_param(toks, ParamName::NewName)) by {
            assert(builder::token_requires(toks[3], ParamName::NewName));
        }
        assert(builder::uses_src_scope(toks)) by {
            assert(builder::token_uses_src(toks[2]));
        }
        assert(builder::uses_dst_scope(toks)) by {
            assert(builder::token_uses_dst(toks[3]));
        }
        if valid_remote_name(remote@) && first@.len() > 0 && second@.len() > 0 {
            assert(builder::spec_argv(toks, gp) =~= seq!["network"@, "copy"@, remote@ + ":"@ + first@, remote@ + ":"@ + second@]);
            assert(builder::spec_build(ResourceKind::Network, Action::Copy, gp) matches Ok(c) && c.binary == Binary::Lxc && c.argv == builder::spec_argv(toks, gp));
        }
        if !valid_remote_name(remote@) {
            assert(builder::spec_build(ResourceKind::Network, Action::Copy, gp) == Err::<CommandSpecV, BuildError>(BuildError::InvalidAddress(AddressError::InvalidRemoteName)));
        }
        if valid_remote_name(remote@) && (first@.len() == 0 || second@.len() == 0) {
            assert(builder::spec_build(ResourceKind::Network, Action::Copy, gp) == Err::<CommandSpecV, BuildError>(BuildError::InvalidAddress(AddressError::EmptyResource)));
        }
    }
    r
}

/// Set a configuration property of a local network:
/// `lxc network set <network> <key> <value>`.
pub fn set_local_network_config_property(network: &str, key: &str, value: &str) -> (r: Result<CommandSpec, BuildError>)
    ensures
        (network@.len() > 0) ==> (r matches Ok(c) && c@.binary == Binary::Lxc && c@.argv =~= seq!["network"@, "set"@, network@, key@, value@]),
        (network@.len() == 0) ==> r == Err::<CommandSpec, BuildError>(BuildError::InvalidAddress(AddressError::EmptyResource)),
{
    let mut p = ParamSet::empty();
    p.name = Some(String::from_str(network));
    p.key = Some(String::from_str(key));
    p.value = Some(String::from_str(value));
    let ghost gp = p;
    let r = builder::build(ResourceKind::Network, Action::SetValue, p);
    proof {
        reveal_with_fuel(builder::first_missing, 10);
        reveal_with_fuel(builder::first_empty, 10);
        let toks = registry::spec_entry(ResourceKind::Network, Action::SetValue)->0;
        assert(builder::requires_param(toks, ParamName::Name)) by {
            assert(builder::token_requires(toks[2], ParamName::Name));
        }
        assert(builder::requires_param(toks, ParamName::Key)) by {
            assert(builder::token_requires(toks[3], ParamName::Key));
        }
        assert(builder::requires_param(toks, ParamName::Value)) by {
            assert(builder::token_requires(toks[4], ParamName::Value));
        }
        if network@.len() > 0 {
            assert(builder::spec_argv(toks, gp) =~= seq!["network"@, "set"@, network@, key@, value@]);
            assert(builder::spec_build(ResourceKind::Network, Action::SetValue, gp) matches Ok(c) && c.binary == Binary::Lxc && c.argv == builder::spec_argv(toks, gp));
        }
        if network@.len() == 0 {
            assert(builder::spec_build(ResourceKind::Network, Action::SetValue, gp) == Err::<CommandSpecV, BuildError>(BuildError::InvalidAddress(AddressError::EmptyResource)));
        }
    }
    r
}

/// Set a configuration property of a remote network:
/// `lxc network set <remote>:<network> <key> <value>`.
pub fn set_remote_network_config_property(remote: &str, network: &str, key: &str, value: &str) -> (r: Result<CommandSpec, BuildError>)
    ensures
        (valid_remote_name(remote@) && network@.len() > 0) ==> (r matches Ok(c) && c@.binary == Binary::Lxc && c@.argv =~= seq!["network"@, "set"@, remote@ + ":"@ + network@, key@, value@]),
        (!valid_remote_name(remote@)) ==> r == Err::<CommandSpec, BuildError>(BuildError::InvalidAddress(AddressError::InvalidRemoteName)),
        (valid_remote_name(remote@) && network@.len() == 0) ==> r == Err::<CommandSpec, BuildError>(BuildError::InvalidAddress(AddressError::EmptyResource)),
{
    let mut p = ParamSet::empty();
    p.name = Some(String::from_str(network));
    p.key = Some(String::from_str(key));
    p.value = Some(String::from_str(value));
    p.remote = Some(String::from_str(remote));
    let ghost gp = p;
    let r = builder::build(ResourceKind::Network, Action::SetValue, p);
    proof {
        reveal_with_fuel(builder::first_missing, 10);
        reveal_with_fuel(builder::first_empty, 10);
        let toks = registry::spec_entry(ResourceKind::Network, Action::SetValue)->0;
        assert(builder::requires_param(toks, ParamName::Name)) by {
            assert(builder::token_requires(toks[2], ParamName::Name));
        }
        assert(builder::requires_param(toks, ParamName::Key)) by {
            assert(builder::token_requires(toks[3], ParamName::Key));
        }
        assert(builder::requires_param(toks, ParamName::Value)) by {
            assert(builder::token_requires(toks[4], ParamName::Value));
        }
        assert(builder::uses_src_scope(toks)) by {
            assert(builder::token_uses_src(toks[2]));
        }
        if valid_remote_name(remote@) && network@.len() > 0 {
            assert(builder::spec_argv(toks, gp) =~= seq!["network"@, "set"@, remote@ + ":"@ + network@, key@, value@]);
            assert(builder::spec_build(ResourceKind::Network, Action::SetValue, gp) matches Ok(c) && c.binary == Binary::Lxc && c.argv == builder::spec_argv(toks, gp));
        }
        if !valid_remote_name(remote@) {
            assert(builder::spec_build(ResourceKind::Network, Action::SetValue, gp) == Err::<CommandSpecV, BuildError>(BuildError::InvalidAddress(AddressError::InvalidRemoteName)));
        }
        if valid_remote_name(remote@) && network@.len() == 0 {
            assert(builder::spec_build(ResourceKind::Network, Action::SetValue, gp) == Err::<CommandSpecV, BuildError>(BuildError::InvalidAddress(AddressError::EmptyResource)));
        }
    }
    r
}

/// Unset a configuration key of a local network:
/// `lxc network unset <network> <key>`.
pub fn unset_local_network_config_key(network: &str, key: &str) -> (r: Result<CommandSpec, BuildError>)
    ensures
        (network@.len() > 0) ==> (r matches Ok(c) && c@.binary == Binary::Lxc && c@.argv =~= seq!["network"@, "unset"@, network@, key@]),
        (network@.len() == 0) ==> r == Err::<CommandSpec, BuildError>(BuildError::InvalidAddress(AddressError::EmptyResource)),
{
    let mut p = ParamSet::empty();
    p.name = Some(String::from_str(network));
    p.key = Some(String::from_str(key));
    let ghost gp = p;
    let r = builder::build(ResourceKind::Network, Action::Unset, p);
    proof {
        reveal_with_fuel(builder::first_missing, 10);
        reveal_with_fuel(builder::first_empty, 10);
        let toks = registry::spec_entry(ResourceKind::Network, Action::Unset)->0;
        assert(builder::requires_param(toks, ParamName::Name)) by {
            assert(builder::token_requires(toks[2], ParamName::Name));
        }
        assert(builder::requires_param(toks, ParamName::Key)) by {
            assert(builder::token_requires(toks[3], ParamName::Key));
        }
        if network@.len() > 0 {
            assert(builder::spec_argv(toks, gp) =~= seq!["network"@, "unset"@, network@, key@]);
            assert(builder::spec_build(ResourceKind::Network, Action::Unset, gp) matches Ok(c) && c.binary == Binary::Lxc && c.argv == builder::spec_argv(toks, gp));
        }
        if network@.len() == 0 {
            assert(builder::spec_build(ResourceKind::Network, Action::Unset, gp) == Err::<CommandSpecV, BuildError>(BuildError::InvalidAddress(AddressError::EmptyResource)));
        }
    }
    r
}

/// List the local network zones: `lxc network zone list local:`.
pub fn get_local_network_zones() -> (r: Result<CommandSpec, BuildError>)
    ensures
        (r matches Ok(c) && c@.binary == Binary::Lxc && c@.argv =~= seq!["network"@, "zone"@, "list"@, "local:"@]),
{
    let p = ParamSet::empty();
    let ghost gp = p;
    let r = builder::build(ResourceKind::NetworkZone, Action::List, p);
    proof {
        reveal_with_fuel(builder::first_missing, 10);
        reveal_with_fuel(builder::first_empty, 10);
        let toks = registry::spec_entry(ResourceKind::NetworkZone, Action::List)->0;
        assert(builder::spec_argv(toks, gp) =~= seq!["network"@, "zone"@, "list"@, "local:"@]);
        assert(builder::spec_build(ResourceKind::NetworkZone, Action::List, gp) matches Ok(c) && c.binary == Binary::Lxc && c.argv == builder::spec_argv(toks, gp));
    }
    r
}

/// List the network zones of a named remote:
/// `lxc network zone list <remote>:`.
pub fn get_remote_network_zones(remote: &str) -> (r: Result<CommandSpec, BuildError>)
    ensures
        (valid_remote_name(remote@)) ==> (r matches Ok(c) && c@.binary == Binary::Lxc && c@.argv =~= seq!["network"@, "zone"@, "list"@, remote@ + ":"@]),
        (!valid_remote_name(remote@)) ==> r == Err::<CommandSpec, BuildError>(BuildError::InvalidAddress(AddressError::InvalidRemoteName)),
{
    let mut p = ParamSet::empty();
    p.remote = Some(String::from_str(remote));
    let ghost gp = p;
    let r = builder::build(ResourceKind::NetworkZone, Action::List, p);
    proof {
        reveal_with_fuel(builder::first_missing, 10);
        reveal_with_fuel(builder::first_empty, 10);
        let toks = registry::spec_entry(ResourceKind::NetworkZone, Action::List)->0;
        assert(builder::uses_src_scope(toks)) by {
            assert(builder::token_uses_src(toks[3]));
        }
        if valid_remote_name(remote@) {
            assert(builder::spec_argv(toks, gp) =~= seq!["network"@, "zone"@, "list"@, remote@ + ":"@]);
            assert(builder::spec_build(ResourceKind::NetworkZone, Action::List, gp) matches Ok(c) && c.binary == Binary::Lxc && c.argv == builder::spec_argv(toks, gp));
        }
        if !valid_remote_name(remote@) {
            assert(builder::spec_build(ResourceKind::NetworkZone, Action::List, gp) == Err::<CommandSpecV, BuildError>(BuildError::InvalidAddress(AddressError::InvalidRemoteName)));
        }
    }
    r
}

/// Create a network zone: `lxc network zone create <title>`.
pub fn create_network_zone(title: &str) -> (r: Result<CommandSpec, BuildError>)
    ensures
        (r matches Ok(c) && c@.binary == Binary::Lxc && c@.argv =~= seq!["network"@, "zone"@, "create"@, title@]),
{
    let mut p = ParamSet::empty();
    p.name = Some(String::from_str(title));
    let ghost gp = p;
    let r = builder::build(ResourceKind::NetworkZone, Action::Create, p);
    proof {
        reveal_with_fuel(builder::first_missing, 10);
        reveal_with_fuel(builder::first_empty, 10);
        let toks = registry::spec_entry(ResourceKind::NetworkZone, Action::Create)->0;
        assert(builder::requires_param(toks, ParamName::Name)) by {
            assert(builder::token_requires(toks[3], ParamName::Name));
        }
        assert(builder::spec_argv(toks, gp) =~= seq!["network"@, "zone"@, "create"@, title@]);
        assert(builder::spec_build(ResourceKind::NetworkZone, Action::Create, gp) matches Ok(c) && c.binary == Binary::Lxc && c.argv == builder::spec_argv(toks, gp));
    }
    r
}

/// Set a property of a network zone:
/// `lxc network zone set <zone> <title> <value>`.
pub fn set_network_zone_property(zone: &str, title: &str, value: &str) -> (r: Result<CommandSpec, BuildError>)
    ensures
        (r matches Ok(c) && c@.binary == Binary::Lxc && c@.argv =~= seq!["network"@, "zone"@, "set"@, zone@, title@, value@]),
{
    let mut p = ParamSet::empty();
    p.name = Some(String::from_str(zone));
    p.key = Some(String::from_str(title));
    p.value = Some(String::from_str(value));
    let ghost gp = p;
    let r = builder::build(ResourceKind::NetworkZone, Action::SetValue, p);
    proof {
        reveal_with_fuel(builder::first_missing, 10);
        reveal_with_fuel(builder::first_empty, 10);
        let toks = registry::spec_entry(ResourceKind::NetworkZone, Action::SetValue)->0;
        assert(builder::requires_param(toks, ParamName::Name)) by {
            assert(builder::token_requires(toks[3], ParamName::Name));
        }
        assert(builder::requires_param(toks, ParamName::Key)) by {
            assert(builder::token_requires(toks[4], ParamName::Key));
        }
        assert(builder::requires_param(toks, ParamName::Value)) by {
            assert(builder::token_requires(toks[5], ParamName::Value));
        }
        assert(builder::spec_argv(toks, gp) =~= seq!["network"@, "zone"@, "set"@, zone@, title@, value@]);
        assert(builder::spec_build(ResourceKind::NetworkZone, Action::SetValue, gp) matches Ok(c) && c.binary == Binary::Lxc && c.argv == builder::spec_argv(toks, gp));
    }
    r
}

/// Unset a property of a network zone:
/// `lxc network zone unset <zone> <key>`.
pub fn unset_network_zone_key(zone: &str, key: &str) -> (r: Result<CommandSpec, BuildError>)
    ensures
        (r matches Ok(c) && c@.binary == Binary::Lxc && c@.argv =~= seq!["network"@, "zone"@, "unset"@, zone@, key@]),
{
    let mut p = ParamSet::empty();
    p.name = Some(String::from_str(zone));
    p.key = Some(String::from_str(key));
    let ghost gp = p;
    let r = builder::build(ResourceKind::NetworkZone, Action::Unset, p);
    proof {
        reveal_with_fuel(builder::first_missing, 10);
        reveal_with_fuel(builder::first_empty, 10);
        let toks = registry::spec_entry(ResourceKind::NetworkZone, Action::Unset)->0;
        assert(builder::requires_param(toks, ParamName::Name)) by {
            assert(builder::token_requires(toks[3], ParamName::Name));
        }
        assert(builder::requires_param(toks, ParamName::Key)) by {
            assert(builder::token_requires(toks[4], ParamName::Key));
        }
        assert(builder::spec_argv(toks, gp) =~= seq!["network"@, "zone"@, "unset"@, zone@, key@]);
        assert(builder::spec_build(ResourceKind::NetworkZone, Action::Unset, gp) matches Ok(c) && c.binary == Binary::Lxc && c.argv == builder::spec_argv(toks, gp));
    }
    r
}

/// Show a network zone: `lxc network zone show <zone>`.
pub fn get_network_zone_info(zone: &str) -> (r: Result<CommandSpec, BuildError>)
    ensures
        (r matches Ok(c) && c@.binary == Binary::Lxc && c@.argv =~= seq!["network"@, "zone"@, "show"@, zone@]),
{
    let mut p = ParamSet::empty();
    p.name = Some(String::from_str(zone));
    let ghost gp = p;
    let r = builder::build(ResourceKind::NetworkZone, Action::Show, p);
    proof {
        reveal_with_fuel(builder::first_missing, 10);
        reveal_with_fuel(builder::first_empty, 10);
        let toks = registry::spec_entry(ResourceKind::NetworkZone, Action::Show)->0;
        assert(builder::requires_param(toks, ParamName::Name)) by {
            assert(builder::token_requires(toks[3], ParamName::Name));
        }
        assert(builder::spec_argv(toks, gp) =~= seq!["network"@, "zone"@, "show"@, zone@]);
        assert(builder::spec_build(ResourceKind::NetworkZone, Action::Show, gp) matches Ok(c) && c.binary == Binary::Lxc && c.argv == builder::spec_argv(toks, gp));
    }
    r
}

/// Delete a local network zone: `lxc network zone delete local:<zone>`.
pub fn del_local_network_zone(zone: &str) -> (r: Result<CommandSpec, BuildError>)
    ensures
        (zone@.len() > 0) ==> (r matches Ok(c) && c@.binary == Binary::Lxc && c@.argv =~= seq!["network"@, "zone"@, "delete"@, "local:"@ + zone@]),
        (zone@.len() == 0) ==> r == Err::<CommandSpec, BuildError>(BuildError::InvalidAddress(AddressError::EmptyResource)),
{
    let mut p = ParamSet::empty();
    p.name = Some(String::from_str(zone));
    let ghost gp = p;
    let r = builder::build(ResourceKind::NetworkZone, Action::Delete, p);
    proof {
        reveal_with_fuel(builder::first_missing, 10);
        reveal_with_fuel(builder::first_empty, 10);
        let toks = registry::spec_entry(ResourceKind::NetworkZone, Action::Delete)->0;
        assert(builder::requires_param(toks, ParamName::Name)) by {
            assert(builder::token_requires(toks[3], ParamName::Name));
        }
        if zone@.len() > 0 {
            assert(builder::spec_argv(toks, gp) =~= seq!["network"@, "zone"@, "delete"@, "local:"@ + zone@]);
            assert(builder::spec_build(ResourceKind::NetworkZone, Action::Delete, gp) matches Ok(c) && c.binary == Binary::Lxc && c.argv == builder::spec_argv(toks, gp));
        }
        if zone@.len() == 0 {
            assert(builder::spec_build(ResourceKind::NetworkZone, Action::Delete, gp) == Err::<CommandSpecV, BuildError>(BuildError::InvalidAddress(AddressError::EmptyResource)));
        }
    }
    r
}

/// List the records of a network zone:
/// `lxc network zone record list <zone>`.
pub fn get_network_zone_records(zone: &str) -> (r: Result<CommandSpec, BuildError>)
    ensures
        (r matches Ok(c) && c@.binary == Binary::Lxc && c@.argv =~= seq!["network"@, "zone"@, "record"@, "list"@, zone@]),
{
    let mut p = ParamSet::empty();
    p.name = Some(String::from_str(zone));
    let ghost gp = p;
    let r = builder::build(ResourceKind::NetworkZoneRecord, Action::List, p);
    proof {
        reveal_with_fuel(builder::first_missing, 10);
        reveal_with_fuel(builder::first_empty, 10);
        let toks = registry::spec_entry(ResourceKind::NetworkZoneRecord, Action::List)->0;
        assert(builder::requires_param(toks, ParamName::Name)) by {
            assert(builder::token_requires(toks[4], ParamName::Name));
        }
        assert(builder::spec_argv(toks, gp) =~= seq!["network"@, "zone"@, "record"@, "list"@, zone@]);
        assert(builder::spec_build(ResourceKind::NetworkZoneRecord, Action::List, gp) matches Ok(c) && c.binary == Binary::Lxc && c.argv == builder::spec_argv(toks, gp));
    }
    r
}

/// Create a record in a network zone:
/// `lxc network zone record create <zone> <title>`.
pub fn create_network_zone_record(zone: &str, title: &str) -> (r: Result<CommandSpec, BuildError>)
    ensures
        (r matches Ok(c) && c@.binary == Binary::Lxc && c@.argv =~= seq!["network"@, "zone"@, "record"@, "create"@, zone@, title@]),
{
    let mut p = ParamSet::empty();
    p.name = Some(String::from_str(zone));
    p.title = Some(String::from_str(title));
    let ghost gp = p;
    let r = builder::build(ResourceKind::NetworkZoneRecord, Action::Create, p);
    proof {
        reveal_with_fuel(builder::first_missing, 10);
        reveal_with_fuel(builder::first_empty, 10);
        let toks = registry::spec_entry(ResourceKind::NetworkZoneRecord, Action::Create)->0;
        assert(builder::requires_param(toks, ParamName::Name)) by {
            assert(builder::token_requires(toks[4], ParamName::Name));
        }
        assert(builder::requires_param(toks, ParamName::Title)) by {
            assert(builder::token_requires(toks[5], ParamName::Title));
        }
        assert(builder::spec_argv(toks, gp) =~= seq!["network"@, "zone"@, "record"@, "create"@, zone@, title@]);
        assert(builder::spec_build(ResourceKind::NetworkZoneRecord, Action::Create, gp) matches Ok(c) && c.binary == Binary::Lxc && c.argv == builder::spec_argv(toks, gp));
    }
    r
}

/// Delete a record of a network zone:
/// `lxc network zone record delete <zone> <title>`.
pub fn del_network_zone_record(zone: &str, title: &str) -> (r: Result<CommandSpec, BuildError>)
    ensures
        (r matches Ok(c) && c@.binary == Binary::Lxc && c@.argv =~= seq!["network"@, "zone"@, "record"@, "delete"@, zone@, title@]),
{
    let mut p = ParamSet::empty();
    p.name = Some(String::from_str(zone));
    p.title = Some(String::from_str(title));
    let ghost gp = p;
    let r = builder::build(ResourceKind::NetworkZoneRecord, Action::Delete, p);
    proof {
        reveal_with_fuel(builder::first_missing, 10);
        reveal_with_fuel(builder::first_empty, 10);
        let toks = registry::spec_entry(ResourceKind::NetworkZoneRecord, Action::Delete)->0;
        assert(builder::requires_param(toks, ParamName::Name)) by {
            assert(builder::token_requires(toks[4], ParamName::Name));
        }
        assert(builder::requires_param(toks, ParamName::Title)) by {
            assert(builder::token_requires(toks[5], ParamName::Title));
        }
        assert(builder::spec_argv(toks, gp) =~= seq!["network"@, "zone"@, "record"@, "delete"@, zone@, title@]);
        assert(builder::spec_build(ResourceKind::NetworkZoneRecord, Action::Delete, gp) matches Ok(c) && c.binary == Binary::Lxc && c.argv == builder::spec_argv(toks, gp));
    }
    r
}

/// Show a record of a network zone:
/// `lxc network zone record show <zone> <title>`.
pub fn get_network_zone_record_info(zone: &str, title: &str) -> (r: Result<CommandSpec, BuildError>)
    ensures
        (r matches Ok(c) && c@.binary == Binary::Lxc && c@.argv =~= seq!["network"@, "zone"@, "record"@, "show"@, zone@, title@]),
{
    let mut p = ParamSet::empty();
    p.name = Some(String::from_str(zone));
    p.title = Some(String::from_str(title));
    let ghost gp = p;
    let r = builder::build(ResourceKind::NetworkZoneRecord, Action::Show, p);
    proof {
        reveal_with_fuel(builder::first_missing, 10);
        reveal_with_fuel(builder::first_empty, 10);
        let toks = registry::spec_entry(ResourceKind::NetworkZoneRecord, Action::Show)->0;
        assert(builder::requires_param(toks, ParamName::Name)) by {
            assert(builder::token_requires(toks[4], ParamName::Name));
        }
        assert(builder::requires_param(toks, ParamName::Title)) by {
            assert(builder::token_requires(toks[5], ParamName::Title));
        }
        assert(builder::spec_argv(toks, gp) =~= seq!["network"@, "zone"@, "record"@, "show"@, zone@, title@]);
        assert(builder::spec_build(ResourceKind::NetworkZoneRecord, Action::Show, gp) matches Ok(c) && c.binary == Binary::Lxc && c.argv == builder::spec_argv(toks, gp));
    }
    r
}

/// Set a property of a network zone record:
/// `lxc network zone record set <zone> <title> <key> <value>`.
pub fn set_network_zone_record_property(zone: &str, title: &str, key: &str, value: &str) -> (r: Result<CommandSpec, BuildError>)
    ensures
        (r matches Ok(c) && c@.binary == Binary::Lxc && c@.argv =~= seq!["network"@, "zone"@, "record"@, "set"@, zone@, title@, key@, value@]),
{
    let mut p = ParamSet::empty();
    p.name = Some(String::from_str(zone));
    p.title = Some(String::from_str(title));
    p.key = Some(String::from_str(key));
    p.value = Some(String::from_str(value));
    let ghost gp = p;
    let r = builder::build(ResourceKind::NetworkZoneRecord, Action::SetValue, p);
    proof {
        reveal_with_fuel(builder::first_missing, 10);
        reveal_with_fuel(builder::first_empty, 10);
        let toks = registry::spec_entry(ResourceKind::NetworkZoneRecord, Action::SetValue)->0;
        assert(builder::requires_param(toks, ParamName::Name)) by {
            assert(builder::token_requires(toks[4], ParamName::Name));
        }
        assert(builder::requires_param(toks, ParamName::Title)) by {
            assert(builder::token_requires(toks[5], ParamName::Title));
        }
        assert(builder::requires_param(toks, ParamName::Key)) by {
            assert(builder::token_requires(toks[6], ParamName::Key));
        }
        assert(builder::requires_param(toks, ParamName::Value)) by {
            assert(builder::token_requires(toks[7], ParamName::Value));
        }
        assert(builder::spec_argv(toks, gp) =~= seq!["network"@, "zone"@, "record"@, "set"@, zone@, title@, key@, value@]);
        assert(builder::spec_build(ResourceKind::NetworkZoneRecord, Action::SetValue, gp) matches Ok(c) && c.binary == Binary::Lxc && c.argv == builder::spec_argv(toks, gp));
    }
    r
}

/// Unset a property of a network zone record:
/// `lxc network zone record unset <zone> <title> <key>`.
pub fn unset_network_zone_record_property(zone: &str, title: &str, key: &str) -> (r: Result<CommandSpec, BuildError>)
    ensures
        (r matches Ok(c) && c@.binary == Binary::Lxc && c@.argv =~= seq!["network"@, "zone"@, "record"@, "unset"@, zone@, title@, key@]),
{
    let mut p = ParamSet::empty();
    p.name = Some(String::from_str(zone));
    p.title = Some(String::from_str(title));
    p.key = Some(String::from_str(key));
    let ghost gp = p;
    let r = builder::build(ResourceKind::NetworkZoneRecord, Action::Unset, p);
    proof {
        reveal_with_fuel(builder::first_missing, 10);
        reveal_with_fuel(builder::first_empty, 10);
        let toks = registry::spec_entry(ResourceKind::NetworkZoneRecord, Action::Unset)->0;
        assert(builder::requires_param(toks, ParamName::Name)) by {
            assert(builder::token_requires(toks[4], ParamName::Name));
        }
        assert(builder::requires_param(toks, ParamName::Title)) by {
            assert(builder::token_requires(toks[5], ParamName::Title));
        }
        assert(builder::requires_param(toks, ParamName::Key)) by {
            assert(builder::token_requires(toks[6], ParamName::Key));
        }
        assert(builder::spec_argv(toks, gp) =~= seq!["network"@, "zone"@, "record"@, "unset"@, zone@, title@, key@]);
        assert(builder::spec_build(ResourceKind::NetworkZoneRecord, Action::Unset, gp) matches Ok(c) && c.binary == Binary::Lxc && c.argv == builder::spec_argv(toks, gp));
    }
    r
}

/// Delete a network ACL: `lxc network acl delete <acl>`.
pub fn del_network_acl(acl: &str) -> (r: CommandSpec)
    ensures
        r@.binary == Binary::Lxc,
        r@.argv =~= seq!["network"@, "acl"@, "delete"@, acl@],
{
    let mut argv: Vec<String> = Vec::new();
    argv.push(String::from_str("network"));
    argv.push(String::from_str("acl"));
    argv.push(String::from_str("delete"));
    argv.push(String::from_str(acl));
    proof {
        assert(argv.deep_view() =~= seq!["network"@, "acl"@, "delete"@, acl@]);
    }
    CommandSpec { binary: Binary::Lxc, argv }
}

/// List the DHCP leases of a local network:
/// `lxc network list-leases local:<network>`.
pub fn get_dhcp_local_network_leases(network: &str) -> (r: Result<CommandSpec, AddressError>)
    ensures
        network@.len() > 0 ==> (r matches Ok(c) && c@.binary == Binary::Lxc && c@.argv =~= seq!["network"@, "list-leases"@, "local:"@ + network@]),
        network@.len() == 0 ==> r == Err::<CommandSpec, AddressError>(AddressError::EmptyResource),
{
    let a = match resolve(None, network) {
        Ok(a) => a,
        Err(e) => {
            return Err(e);
        },
    };
    proof {
        if network@.len() > 0 {
            lemma_resolve_local_renders(network@);
        }
    }
    let rendered = a.render();
    let mut argv: Vec<String> = Vec::new();
    argv.push(String::from_str("network"));
    argv.push(String::from_str("list-leases"));
    argv.push(rendered);
    proof {
        assert(argv.deep_view() =~= seq!["network"@, "list-leases"@, "local:"@ + network@]);
    }
    Ok(CommandSpec { binary: Binary::Lxc, argv })
}

/// List the DHCP leases of a remote network:
/// `lxc network list-leases <remote>:<network>`.
pub fn get_dhcp_remote_network_leases(remote: &str, network: &str) -> (r: Result<CommandSpec, AddressError>)
    ensures
        (valid_remote_name(remote@) && network@.len() > 0) ==> (r matches Ok(c) && c@.binary == Binary::Lxc && c@.argv =~= seq!["network"@, "list-leases"@, remote@ + ":"@ + network@]),
        !valid_remote_name(remote@) ==> r == Err::<CommandSpec, AddressError>(AddressError::InvalidRemoteName),
        (valid_remote_name(remote@) && network@.len() == 0) ==> r == Err::<CommandSpec, AddressError>(AddressError::EmptyResource),
{
    proof {
        lemma_local_marker_valid();
    }
    let a = match resolve(Some(remote), network) {
        Ok(a) => a,
        Err(e) => {
            return Err(e);
        },
    };
    proof {
        if valid_remote_name(remote@) && network@.len() > 0 {
            lemma_resolve_remote_renders(remote@, network@);
        }
    }
    let rendered = a.render();
    let mut argv: Vec<String> = Vec::new();
    argv.push(String::from_str("network"));
    argv.push(String::from_str("list-leases"));
    argv.push(rendered);
    proof {
        assert(argv.deep_view() =~= seq!["network"@, "list-leases"@, remote@ + ":"@ + network@]);
    }
    Ok(CommandSpec { binary: Binary::Lxc, argv })
}

/// List the forwards of a local network:
/// `lxc network forward list local:<network>`.
pub fn get_local_network_forwards(network: &str) -> (r: Result<CommandSpec, AddressError>)
    ensures
        network@.len() > 0 ==> (r matches Ok(c) && c@.binary == Binary::Lxc && c@.argv =~= seq!["network"@, "forward"@, "list"@, "local:"@ + network@]),
        network@.len() == 0 ==> r == Err::<CommandSpec, AddressError>(AddressError::EmptyResource),
{
    let a = match resolve(None, network) {
        Ok(a) => a,
        Err(e) => {
            return Err(e);
        },
    };
    proof {
        if network@.len() > 0 {
            lemma_resolve_local_renders(network@);
        }
    }
    let rendered = a.render();
    let mut argv: Vec<String> = Vec::new();
    argv.push(String::from_str("network"));
    argv.push(String::from_str("forward"));
    argv.push(String::from_str("list"));
    argv.push(rendered);
    proof {
        assert(argv.deep_view() =~= seq!["network"@, "forward"@, "list"@, "local:"@ + network@]);
    }
    Ok(CommandSpec { binary: Binary::Lxc, argv })
}

/// List the forwards of a remote network:
/// `lxc network forward list <remote>:<network>`.
pub fn get_remote_network_forwards(remote: &str, network: &str) -> (r: Result<CommandSpec, AddressError>)
    ensures
        (valid_remote_name(remote@) && network@.len() > 0) ==> (r matches Ok(c) && c@.binary == Binary::Lxc && c@.argv =~= seq!["network"@, "forward"@, "list"@, remote@ + ":"@ + network@]),
        !valid_remote_name(remote@) ==> r == Err::<CommandSpec, AddressError>(AddressError::InvalidRemoteName),
        (valid_remote_name(remote@) && network@.len() == 0) ==> r == Err::<CommandSpec, AddressError>(AddressError::EmptyResource),
{
    proof {
        lemma_local_marker_valid();
    }
    let a = match resolve(Some(remote), network) {
        Ok(a) => a,
        Err(e) => {
            return Err(e);
        },
    };
    proof {
        if valid_remote_name(remote@) && network@.len() > 0 {
            lemma_resolve_remote_renders(remote@, network@);
        }
    }
    let rendered = a.render();
    let mut argv: Vec<String> = Vec::new();
    argv.push(String::from_str("network"));
    argv.push(String::from_str("forward"));
    argv.push(String::from_str("list"));
    argv.push(rendered);
    proof {
        assert(argv.deep_view() =~= seq!["network"@, "forward"@, "list"@, remote@ + ":"@ + network@]);
    }
    Ok(CommandSpec { binary: Binary::Lxc, argv })
}

} // verus!
