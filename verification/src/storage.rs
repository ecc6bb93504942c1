//! Storage pool operations: listing, creation, configuration and
//! removal.

use crate::address::AddressError;
use crate::address::valid_remote_name;
use crate::builder;
use crate::command::Action;
use crate::command::Binary;
use crate::command::BuildError;
use crate::command::CommandSpec;
use crate::command::CommandSpecV;
use crate::command::ParamName;
use crate::command::ParamSet;
use crate::command::ResourceKind;
use crate::registry;
use vstd::prelude::*;
use vstd::string::StringExecFns;

verus! {

/// List the local storage pools: `lxc storage list local:`.
pub fn get_local_storages() -> (r: Result<CommandSpec, BuildError>)
    ensures
        (r matches Ok(c) && c@.binary == Binary::Lxc && c@.argv =~= seq!["storage"@, "list"@, "local:"@]),
{
    let p = ParamSet::empty();
    let ghost gp = p;
    let r = builder::build(ResourceKind::Storage, Action::List, p);
    proof {
        reveal_with_fuel(builder::first_missing, 10);
        reveal_with_fuel(builder::first_empty, 10);
        let toks = registry::spec_entry(ResourceKind::Storage, Action::List)->0;
        assert(builder::spec_argv(toks, gp) =~= seq!["storage"@, "list"@, "local:"@]);
        assert(builder::spec_build(ResourceKind::Storage, Action::List, gp) matches Ok(c) && c.binary == Binary::Lxc && c.argv == builder::spec_argv(toks, gp));
    }
    r
}

/// List the storage pools of a named remote: `lxc storage list <remote>:`.
pub fn get_remote_storages(remote: &str) -> (r: Result<CommandSpec, BuildError>)
    ensures
        (valid_remote_name(remote@)) ==> (r matches Ok(c) && c@.binary == Binary::Lxc && c@.argv =~= seq!["storage"@, "list"@, remote@ + ":"@]),
        (!valid_remote_name(remote@)) ==> r == Err::<CommandSpec, BuildError>(BuildError::InvalidAddress(AddressError::InvalidRemoteName)),
{
    let mut p = ParamSet::empty();
    p.remote = Some(String::from_str(remote));
    let ghost gp = p;
    let r = builder::build(ResourceKind::Storage, Action::List, p);
    proof {
        reveal_with_fuel(builder::first_missing, 10);
        reveal_with_fuel(builder::first_empty, 10);
        let toks = registry::spec_entry(ResourceKind::Storage, Action::List)->0;
        assert(builder::uses_src_scope(toks)) by {
            assert(builder::token_uses_src(toks[2]));
        }
        if valid_remote_name(remote@) {
            assert(builder::spec_argv(toks, gp) =~= seq!["storage"@, "list"@, remote@ + ":"@]);
            assert(builder::spec_build(ResourceKind::Storage, Action::List, gp) matches Ok(c) && c.binary == Binary::Lxc && c.argv == builder::spec_argv(toks, gp));
        }
        if !valid_remote_name(remote@) {
            assert(builder::spec_build(ResourceKind::Storage, Action::List, gp) == Err::<CommandSpecV, BuildError>(BuildError::InvalidAddress(AddressError::InvalidRemoteName)));
        }
    }
    r
}

/// Show information about a local storage pool:
/// `lxc storage info <storage>`.
pub fn get_local_storage_info(storage: &str) -> (r: Result<CommandSpec, BuildError>)
    ensures
        (storage@.len() > 0) ==> (r matches Ok(c) && c@.binary == Binary::Lxc && c@.argv =~= seq!["storage"@, "info"@, storage@]),
        (storage@.len() == 0) ==> r == Err::<CommandSpec, BuildError>(BuildError::InvalidAddress(AddressError::EmptyResource)),
{
    let mut p = ParamSet::empty();
    p.name = Some(String::from_str(storage));
    let ghost gp = p;
    let r = builder::build(ResourceKind::Storage, Action::Info, p);
    proof {
        reveal_with_fuel(builder::first_missing, 10);
        reveal_with_fuel(builder::first_empty, 10);
        let toks = registry::spec_entry(ResourceKind::Storage, Action::Info)->0;
        assert(builder::requires_param(toks, ParamName::Name)) by {
            assert(builder::token_requires(toks[2], ParamName::Name));
        }
        if storage@.len() > 0 {
            assert(builder::spec_argv(toks, gp) =~= seq!["storage"@, "info"@, storage@]);
            assert(builder::spec_build(ResourceKind::Storage, Action::Info, gp) matches Ok(c) && c.binary == Binary::Lxc && c.argv == builder::spec_argv(toks, gp));
        }
        if storage@.len() == 0 {
            assert(builder::spec_build(ResourceKind::Storage, Action::Info, gp) == Err::<CommandSpecV, BuildError>(BuildError::InvalidAddress(AddressError::EmptyResource)));
        }
    }
    r
}

/// Show information about a remote storage pool:
/// `lxc storage info <remote>:<storage>`.
pub fn get_remote_storage_info(remote: &str, storage: &str) -> (r: Result<CommandSpec, BuildError>)
    ensures
        (valid_remote_name(remote@) && storage@.len() > 0) ==> (r matches Ok(c) && c@.binary == Binary::Lxc && c@.argv =~= seq!["storage"@, "info"@, remote@ + ":"@ + storage@]),
        (!valid_remote_name(remote@)) ==> r == Err::<CommandSpec, BuildError>(BuildError::InvalidAddress(AddressError::InvalidRemoteName)),
        (valid_remote_name(remote@) && storage@.len() == 0) ==> r == Err::<CommandSpec, BuildError>(BuildError::InvalidAddress(AddressError::EmptyResource)),
{
    let mut p = ParamSet::empty();
    p.name = Some(String::from_str(storage));
    p.remote = Some(String::from_str(remote));
    let ghost gp = p;
    let r = builder::build(ResourceKind::Storage, Action::Info, p);
    proof {
        reveal_with_fuel(builder::first_missing, 10);
        reveal_with_fuel(builder::first_empty, 10);
        let toks = registry::spec_entry(ResourceKind::Storage, Action::Info)->0;
        assert(builder::requires_param(toks, ParamName::Name)) by {
            assert(builder::token_requires(toks[2], ParamName::Name));
        }
        assert(builder::uses_src_scope(toks)) by {
            assert(builder::token_uses_src(toks[2]));
        }
        if valid_remote_name(remote@) && storage@.len() > 0 {
            assert(builder::spec_argv(toks, gp) =~= seq!["storage"@, "info"@, remote@ + ":"@ + storage@]);
            assert(builder::spec_build(ResourceKind::Storage, Action::Info, gp) matches Ok(c) && c.binary == Binary::Lxc && c.argv == builder::spec_argv(toks, gp));
        }
        if !valid_remote_name(remote@) {
            assert(builder::spec_build(ResourceKind::Storage, Action::Info, gp) == Err::<CommandSpecV, BuildError>(BuildError::InvalidAddress(AddressError::InvalidRemoteName)));
        }
        if valid_remote_name(remote@) && storage@.len() == 0 {
            assert(builder::spec_build(ResourceKind::Storage, Action::Info, gp) == Err::<CommandSpecV, BuildError>(BuildError::InvalidAddress(AddressError::EmptyResource)));
        }
    }
    r
}

/// Create a local storage pool on a backing filesystem:
/// `lxc storage create local:<storage> <fs>`.
pub fn create_local_storage(storage: &str, fs: &str) -> (r: Result<CommandSpec, BuildError>)
    ensures
        (storage@.len() > 0) ==> (r matches Ok(c) && c@.binary == Binary::Lxc && c@.argv =~= seq!["storage"@, "create"@, "local:"@ + storage@, fs@]),
        (storage@.len() == 0) ==> r == Err::<CommandSpec, BuildError>(BuildError::InvalidAddress(AddressError::EmptyResource)),
{
    let mut p = ParamSet::empty();
    p.name = Some(String::from_str(storage));
    p.filesystem = Some(String::from_str(fs));
    let ghost gp = p;
    let r = builder::build(ResourceKind::Storage, Action::Create, p);
    proof {
        reveal_with_fuel(builder::first_missing, 10);
        reveal_with_fuel(builder::first_empty, 10);
        let toks = registry::spec_entry(ResourceKind::Storage, Action::Create)->0;
        assert(builder::requires_param(toks, ParamName::Name)) by {
            assert(builder::token_requires(toks[2], ParamName::Name));
        }
        assert(builder::requires_param(toks, ParamName::Filesystem)) by {
            assert(builder::token_requires(toks[3], ParamName::Filesystem));
        }
        if storage@.len() > 0 {
            assert(builder::spec_argv(toks, gp) =~= seq!["storage"@, "create"@, "local:"@ + storage@, fs@]);
            assert(builder::spec_build(ResourceKind::Storage, Action::Create, gp) matches Ok(c) && c.binary == Binary::Lxc && c.argv == builder::spec_argv(toks, gp));
        }
        if storage@.len() == 0 {
            assert(builder::spec_build(ResourceKind::Storage, Action::Create, gp) == Err::<CommandSpecV, BuildError>(BuildError::InvalidAddress(AddressError::EmptyResource)));
        }
    }
    r
}

/// Create a storage pool on a named remote on a backing filesystem:
/// `lxc storage create <remote>:<storage> <fs>`.
pub fn create_remote_storage(remote: &str, storage: &str, fs: &str) -> (r: Result<CommandSpec, BuildError>)
    ensures
        (valid_remote_name(remote@) && storage@.len() > 0) ==> (r matches Ok(c) && c@.binary == Binary::Lxc && c@.argv =~= seq!["storage"@, "create"@, remote@ + ":"@ + storage@, fs@]),
        (!valid_remote_name(remote@)) ==> r == Err::<CommandSpec, BuildError>(BuildError::InvalidAddress(AddressError::InvalidRemoteName)),
        (valid_remote_name(remote@) && storage@.len() == 0) ==> r == Err::<CommandSpec, BuildError>(BuildError::InvalidAddress(AddressError::EmptyResource)),
{
    let mut p = ParamSet::empty();
    p.name = Some(String::from_str(storage));
    p.filesystem = Some(String::from_str(fs));
    p.remote = Some(String::from_str(remote));
    let ghost gp = p;
    let r = builder::build(ResourceKind::Storage, Action::Create, p);
    proof {
        reveal_with_fuel(builder::first_missing, 10);
        reveal_with_fuel(builder::first_empty, 10);
        let toks = registry::spec_entry(ResourceKind::Storage, Action::Create)->0;
        assert(builder::requires_param(toks, ParamName::Name)) by {
            assert(builder::token_requires(toks[2], ParamName::Name));
        }
        assert(builder::requires_param(toks, ParamName::Filesystem)) by {
            assert(builder::token_requires(toks[3], ParamName::Filesystem));
        }
        assert(builder::uses_src_scope(toks)) by {
            assert(builder::token_uses_src(toks[2]));
        }
        if valid_remote_name(remote@) && storage@.len() > 0 {
            assert(builder::spec_argv(toks, gp) =~= seq!["storage"@, "create"@, remote@ + ":"@ + storage@, fs@]);
            assert(builder::spec_build(ResourceKind::Storage, Action::Create, gp) matches Ok(c) && c.binary == Binary::Lxc && c.argv == builder::spec_argv(toks, gp));
        }
        if !valid_remote_name(remote@) {
            assert(builder::spec_build(ResourceKind::Storage, Action::Create, gp) == Err::<CommandSpecV, BuildError>(BuildError::InvalidAddress(AddressError::InvalidRemoteName)));
        }
        if valid_remote_name(remote@) && storage@.len() == 0 {
            assert(builder::spec_build(ResourceKind::Storage, Action::Create, gp) == Err::<CommandSpecV, BuildError>(BuildError::InvalidAddress(AddressError::EmptyResource)));
        }
    }
    r
}

/// Set a configuration property of a local storage pool:
/// `lxc storage set local:<storage> <key> <value>`.
pub fn set_local_storage_config_property(storage: &str, key: &str, value: &str) -> (r: Result<CommandSpec, BuildError>)
    ensures
        (storage@.len() > 0) ==> (r matches Ok(c) && c@.binary == Binary::Lxc && c@.argv =~= seq!["storage"@, "set"@, "local:"@ + storage@, key@, value@]),
        (storage@.len() == 0) ==> r == Err::<CommandSpec, BuildError>(BuildError::InvalidAddress(AddressError::EmptyResource)),
{
    let mut p = ParamSet::empty();
    p.name = Some(String::from_str(storage));
    p.key = Some(String::from_str(key));
    p.value = Some(String::from_str(value));
    let ghost gp = p;
    let r = builder::build(ResourceKind::Storage, Action::SetValue, p);
    proof {
        reveal_with_fuel(builder::first_missing, 10);
        reveal_with_fuel(builder::first_empty, 10);
        let toks = registry::spec_entry(ResourceKind::Storage, Action::SetValue)->0;
        assert(builder::requires_param(toks, ParamName::Name)) by {
            assert(builder::token_requires(toks[2], ParamName::Name));
        }
        assert(builder::requires_param(toks, ParamName::Key)) by {
            assert(builder::token_requires(toks[3], ParamName::Key));
        }
        assert(builder::requires_param(toks, ParamName::Value)) by {
            assert(builder::token_requires(toks[4], ParamName::Value));
        }
        if storage@.len() > 0 {
            assert(builder::spec_argv(toks, gp) =~= seq!["storage"@, "set"@, "local:"@ + storage@, key@, value@]);
            assert(builder::spec_build(ResourceKind::Storage, Action::SetValue, gp) matches Ok(c) && c.binary == Binary::Lxc && c.argv == builder::spec_argv(toks, gp));
        }
        if storage@.len() == 0 {
            assert(builder::spec_build(ResourceKind::Storage, Action::SetValue, gp) == Err::<CommandSpecV, BuildError>(BuildError::InvalidAddress(AddressError::EmptyResource)));
        }
    }
    r
}

/// Set a configuration property of a remote storage pool:
/// `lxc storage set <remote>:<storage> <key> <value>`.
pub fn set_remote_storage_config_property(remote: &str, storage: &str, key: &str, value: &str) -> (r: Result<CommandSpec, BuildError>)
    ensures
        (valid_remote_name(remote@) && storage@.len() > 0) ==> (r matches Ok(c) && c@.binary == Binary::Lxc && c@.argv =~= seq!["storage"@, "set"@, remote@ + ":"@ + storage@, key@, value@]),
        (!valid_remote_name(remote@)) ==> r == Err::<CommandSpec, BuildError>(BuildError::InvalidAddress(AddressError::InvalidRemoteName)),
        (valid_remote_name(remote@) && storage@.len() == 0) ==> r == Err::<CommandSpec, BuildError>(BuildError::InvalidAddress(AddressError::EmptyResource)),
{
    let mut p = ParamSet::empty();
    p.name = Some(String::from_str(storage));
    p.key = Some(String::from_str(key));
    p.value = Some(String::from_str(value));
    p.remote = Some(String::from_str(remote));
    let ghost gp = p;
    let r = builder::build(ResourceKind::Storage, Action::SetValue, p);
    proof {
        reveal_with_fuel(builder::first_missing, 10);
        reveal_with_fuel(builder::first_empty, 10);
        let toks = registry::spec_entry(ResourceKind::Storage, Action::SetValue)->0;
        assert(builder::requires_param(toks, ParamName::Name)) by {
            assert(builder::token_requires(toks[2], ParamName::Name));
        }
        assert(builder::requires_param(toks, ParamName::Key)) by {
            assert(builder::token_requires(toks[3], ParamName::Key));
        }
        assert(builder::requires_param(toks, ParamName::Value)) by {
            assert(builder::token_requires(toks[4], ParamName::Value));
        }
        assert(builder::uses_src_scope(toks)) by {
            assert(builder::token_uses_src(toks[2]));
        }
        if valid_remote_name(remote@) && storage@.len() > 0 {
            assert(builder::spec_argv(toks, gp) =~= seq!["storage"@, "set"@, remote@ + ":"@ + storage@, key@, value@]);
            assert(builder::spec_build(ResourceKind::Storage, Action::SetValue, gp) matches Ok(c) && c.binary == Binary::Lxc && c.argv == builder::spec_argv(toks, gp));
        }
        if !valid_remote_name(remote@) {
            assert(builder::spec_build(ResourceKind::Storage, Action::SetValue, gp) == Err::<CommandSpecV, BuildError>(BuildError::InvalidAddress(AddressError::InvalidRemoteName)));
        }
        if valid_remote_name(remote@) && storage@.len() == 0 {
            assert(builder::spec_build(ResourceKind::Storage, Action::SetValue, gp) == Err::<CommandSpecV, BuildError>(BuildError::InvalidAddress(AddressError::EmptyResource)));
        }
    }
    r
}

/// Unset a configuration property of a local storage pool:
/// `lxc storage unset local:<storage> <key>`.
pub fn unset_local_storage_config_property(storage: &str, key: &str) -> (r: Result<CommandSpec, BuildError>)
    ensures
        (storage@.len() > 0) ==> (r matches Ok(c) && c@.binary == Binary::Lxc && c@.argv =~= seq!["storage"@, "unset"@, "local:"@ + storage@, key@]),
        (storage@.len() == 0) ==> r == Err::<CommandSpec, BuildError>(BuildError::InvalidAddress(AddressError::EmptyResource)),
{
    let mut p = ParamSet::empty();
    p.name = Some(String::from_str(storage));
    p.key = Some(String::from_str(key));
    let ghost gp = p;
    let r = builder::build(ResourceKind::Storage, Action::Unset, p);
    proof {
        reveal_with_fuel(builder::first_missing, 10);
        reveal_with_fuel(builder::first_empty, 10);
        let toks = registry::spec_entry(ResourceKind::Storage, Action::Unset)->0;
        assert(builder::requires_param(toks, ParamName::Name)) by {
            assert(builder::token_requires(toks[2], ParamName::Name));
        }
        assert(builder::requires_param(toks, ParamName::Key)) by {
            assert(builder::token_requires(toks[3], ParamName::Key));
        }
        if storage@.len() > 0 {
            assert(builder::spec_argv(toks, gp) =~= seq!["storage"@, "unset"@, "local:"@ + storage@, key@]);
            assert(builder::spec_build(ResourceKind::Storage, Action::Unset, gp) matches Ok(c) && c.binary == Binary::Lxc && c.argv == builder::spec_argv(toks, gp));
        }
        if storage@.len() == 0 {
            assert(builder::spec_build(ResourceKind::Storage, Action::Unset, gp) == Err::<CommandSpecV, BuildError>(BuildError::InvalidAddress(AddressError::EmptyResource)));
        }
    }
    r
}

/// Unset a configuration property of a remote storage pool:
/// `lxc storage unset <remote>:<storage> <key>`.
pub fn unset_remote_storage_config_property(remote: &str, storage: &str, key: &str) -> (r: Result<CommandSpec, BuildError>)
    ensures
        (valid_remote_name(remote@) && storage@.len() > 0) ==> (r matches Ok(c) && c@.binary == Binary::Lxc && c@.argv =~= seq!["storage"@, "unset"@, remote@ + ":"@ + storage@, key@]),
        (!valid_remote_name(remote@)) ==> r == Err::<CommandSpec, BuildError>(BuildError::InvalidAddress(AddressError::InvalidRemoteName)),
        (valid_remote_name(remote@) && storage@.len() == 0) ==> r == Err::<CommandSpec, BuildError>(BuildError::InvalidAddress(AddressError::EmptyResource)),
{
    let mut p = ParamSet::empty();
    p.name = Some(String::from_str(storage));
    p.key = Some(String::from_str(key));
    p.remote = Some(String::from_str(remote));
    let ghost gp = p;
    let r = builder::build(ResourceKind::Storage, Action::Unset, p);
    proof {
        reveal_with_fuel(builder::first_missing, 10);
        reveal_with_fuel(builder::first_empty, 10);
        let toks = registry::spec_entry(ResourceKind::Storage, Action::Unset)->0;
        assert(builder::requires_param(toks, ParamName::Name)) by {
            assert(builder::token_requires(toks[2], ParamName::Name));
        }
        assert(builder::requires_param(toks, ParamName::Key)) by {
            assert(builder::token_requires(toks[3], ParamName::Key));
        }
        assert(builder::uses_src_scope(toks)) by {
            assert(builder::token_uses_src(toks[2]));
        }
        if valid_remote_name(remote@) && storage@.len() > 0 {
            assert(builder::spec_argv(toks, gp) =~= seq!["storage"@, "unset"@, remote@ + ":"@ + storage@, key@]);
            assert(builder::spec_build(ResourceKind::Storage, Action::Unset, gp) matches Ok(c) && c.binary == Binary::Lxc && c.argv == builder::spec_argv(toks, gp));
        }
        if !valid_remote_name(remote@) {
            assert(builder::spec_build(ResourceKind::Storage, Action::Unset, gp) == Err::<CommandSpecV, BuildError>(BuildError::InvalidAddress(AddressError::InvalidRemoteName)));
        }
        if valid_remote_name(remote@) && storage@.len() == 0 {
            assert(builder::spec_build(ResourceKind::Storage, Action::Unset, gp) == Err::<CommandSpecV, BuildError>(BuildError::InvalidAddress(AddressError::EmptyResource)));
        }
    }
    r
}

/// Read a configuration property of a local storage pool:
/// `lxc storage get local:<storage> <key>`.
pub fn get_local_storage_config_property(storage: &str, key: &str) -> (r: Result<CommandSpec, BuildError>)
    ensures
        (storage@.len() > 0) ==> (r matches Ok(c) && c@.binary == Binary::Lxc && c@.argv =~= seq!["storage"@, "get"@, "local:"@ + storage@, key@]),
        (storage@.len() == 0) ==> r == Err::<CommandSpec, BuildError>(BuildError::InvalidAddress(AddressError::EmptyResource)),
{
    let mut p = ParamSet::empty();
    p.name = Some(String::from_str(storage));
    p.key = Some(String::from_str(key));
    let ghost gp = p;
    let r = builder::build(ResourceKind::Storage, Action::Get, p);
    proof {
        reveal_with_fuel(builder::first_missing, 10);
        reveal_with_fuel(builder::first_empty, 10);
        let toks = registry::spec_entry(ResourceKind::Storage, Action::Get)->0;
        assert(builder::requires_param(toks, ParamName::Name)) by {
            assert(builder::token_requires(toks[2], ParamName::Name));
        }
        assert(builder::requires_param(toks, ParamName::Key)) by {
            assert(builder::token_requires(toks[3], ParamName::Key));
        }
        if storage@.len() > 0 {
            assert(builder::spec_argv(toks, gp) =~= seq!["storage"@, "get"@, "local:"@ + storage@, key@]);
            assert(builder::spec_build(ResourceKind::Storage, Action::Get, gp) matches Ok(c) && c.binary == Binary::Lxc && c.argv == builder::spec_argv(toks, gp));
        }
        if storage@.len() == 0 {
            assert(builder::spec_build(ResourceKind::Storage, Action::Get, gp) == Err::<CommandSpecV, BuildError>(BuildError::InvalidAddress(AddressError::EmptyResource)));
        }
    }
    r
}

/// Read a configuration property of a remote storage pool:
/// `lxc storage get <remote>:<storage> <key>`.
pub fn get_remote_storage_config_property(remote: &str, storage: &str, key: &str) -> (r: Result<CommandSpec, BuildError>)
    ensures
        (valid_remote_name(remote@) && storage@.len() > 0) ==> (r matches Ok(c) && c@.binary == Binary::Lxc && c@.argv =~= seq!["storage"@, "get"@, remote@ + ":"@ + storage@, key@]),
        (!valid_remote_name(remote@)) ==> r == Err::<CommandSpec, BuildError>(BuildError::InvalidAddress(AddressError::InvalidRemoteName)),
        (valid_remote_name(remote@) && storage@.len() == 0) ==> r == Err::<CommandSpec, BuildError>(BuildError::InvalidAddress(AddressError::EmptyResource)),
{
    let mut p = ParamSet::empty();
    p.name = Some(String::from_str(storage));
    p.key = Some(String::from_str(key));
    p.remote = Some(String::from_str(remote));
    let ghost gp = p;
    let r = builder::build(ResourceKind::Storage, Action::Get, p);
    proof {
        reveal_with_fuel(builder::first_missing, 10);
        reveal_with_fuel(builder::first_empty, 10);
        let toks = registry::spec_entry(ResourceKind::Storage, Action::Get)->0;
        assert(builder::requires_param(toks, ParamName::Name)) by {
            assert(builder::token_requires(toks[2], ParamName::Name));
        }
        assert(builder::requires_param(toks, ParamName::Key)) by {
            assert(builder::token_requires(toks[3], ParamName::Key));
        }
        assert(builder::uses_src_scope(toks)) by {
            assert(builder::token_uses_src(toks[2]));
        }
        if valid_remote_name(remote@) && storage@.len() > 0 {
            assert(builder::spec_argv(toks, gp) =~= seq!["storage"@, "get"@, remote@ + ":"@ + storage@, key@]);
            assert(builder::spec_build(ResourceKind::Storage, Action::Get, gp) matches Ok(c) && c.binary == Binary::Lxc && c.argv == builder::spec_argv(toks, gp));
        }
        if !valid_remote_name(remote@) {
            assert(builder::spec_build(ResourceKind::Storage, Action::Get, gp) == Err::<CommandSpecV, BuildError>(BuildError::InvalidAddress(AddressError::InvalidRemoteName)));
        }
        if valid_remote_name(remote@) && storage@.len() == 0 {
            assert(builder::spec_build(ResourceKind::Storage, Action::Get, gp) == Err::<CommandSpecV, BuildError>(BuildError::InvalidAddress(AddressError::EmptyResource)));
        }
    }
    r
}

/// Delete a local storage pool: `lxc storage delete local:<storage>`.
pub fn del_local_storage(storage: &str) -> (r: Result<CommandSpec, BuildError>)
    ensures
        (storage@.len() > 0) ==> (r matches Ok(c) && c@.binary == Binary::Lxc && c@.argv =~= seq!["storage"@, "delete"@, "local:"@ + storage@]),
        (storage@.len() == 0) ==> r == Err::<CommandSpec, BuildError>(BuildError::InvalidAddress(AddressError::EmptyResource)),
{
    let mut p = ParamSet::empty();
    p.name = Some(String::from_str(storage));
    let ghost gp = p;
    let r = builder::build(ResourceKind::Storage, Action::Delete, p);
    proof {
        reveal_with_fuel(builder::first_missing, 10);
        reveal_with_fuel(builder::first_empty, 10);
        let toks = registry::spec_entry(ResourceKind::Storage, Action::Delete)->0;
        assert(builder::requires_param(toks, ParamName::Name)) by {
            assert(builder::token_requires(toks[2], ParamName::Name));
        }
        if storage@.len() > 0 {
            assert(builder::spec_argv(toks, gp) =~= seq!["storage"@, "delete"@, "local:"@ + storage@]);
            assert(builder::spec_build(ResourceKind::Storage, Action::Delete, gp) matches Ok(c) && c.binary == Binary::Lxc && c.argv == builder::spec_argv(toks, gp));
        }
        if storage@.len() == 0 {
            assert(builder::spec_build(ResourceKind::Storage, Action::Delete, gp) == Err::<CommandSpecV, BuildError>(BuildError::InvalidAddress(AddressError::EmptyResource)));
        }
    }
    r
}

/// Delete a remote storage pool: `lxc storage delete <remote>:<storage>`.
pub fn del_remote_storage(remote: &str, storage: &str) -> (r: Result<CommandSpec, BuildError>)
    ensures
        (valid_remote_name(remote@) && storage@.len() > 0) ==> (r matches Ok(c) && c@.binary == Binary::Lxc && c@.argv =~= seq!["storage"@, "delete"@, remote@ + ":"@ + storage@]),
        (!valid_remote_name(remote@)) ==> r == Err::<CommandSpec, BuildError>(BuildError::InvalidAddress(AddressError::InvalidRemoteName)),
        (valid_remote_name(remote@) && storage@.len() == 0) ==> r == Err::<CommandSpec, BuildError>(BuildError::InvalidAddress(AddressError::EmptyResource)),
{
    let mut p = ParamSet::empty();
    p.name = Some(String::from_str(storage));
    p.remote = Some(String::from_str(remote));
    let ghost gp = p;
    let r = builder::build(ResourceKind::Storage, Action::Delete, p);
    proof {
        reveal_with_fuel(builder::first_missing, 10);
        reveal_with_fuel(builder::first_empty, 10);
        let toks = registry::spec_entry(ResourceKind::Storage, Action::Delete)->0;
        assert(builder::requires_param(toks, ParamName::Name)) by {
            assert(builder::token_requires(toks[2], ParamName::Name));
        }
        assert(builder::uses_src_scope(toks)) by {
            assert(builder::token_uses_src(toks[2]));
        }
        if valid_remote_name(remote@) && storage@.len() > 0 {
            assert(builder::spec_argv(toks, gp) =~= seq!["storage"@, "delete"@, remote@ + ":"@ + storage@]);
            assert(builder::spec_build(ResourceKind::Storage, Action::Delete, gp) matches Ok(c) && c.binary == Binary::Lxc && c.argv == builder::spec_argv(toks, gp));
        }
        if !valid_remote_name(remote@) {
            assert(builder::spec_build(ResourceKind::Storage, Action::Delete, gp) == Err::<CommandSpecV, BuildError>(BuildError::InvalidAddress(AddressError::InvalidRemoteName)));
        }
        if valid_remote_name(remote@) && storage@.len() == 0 {
            assert(builder::spec_build(ResourceKind::Storage, Action::Delete, gp) == Err::<CommandSpecV, BuildError>(BuildError::InvalidAddress(AddressError::EmptyResource)));
        }
    }
    r
}

} // verus!
